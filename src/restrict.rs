//! The permission gate: a back-end wrapper that refuses every operation the
//! user's permission set does not allow, before the wrapped back-end sees it.
use crate::error::StorageError;
use crate::permissions::{Permission, VfsOperations};
use crate::rooter::{user_new_path, user_path};
use crate::storage::{Fileinfo, StorageBackend, Verb};
use crate::user::User;
use vstd::prelude::*;

verus! {

/// The permission an operation needs; changing into a directory and reading
/// metadata need none.
pub open spec fn verb_permission(v: Verb) -> Option<Permission> {
    match v {
        Verb::Metadata => None,
        Verb::List => Some(Permission::List),
        Verb::Get => Some(Permission::Get),
        Verb::Put => Some(Permission::Put),
        Verb::Delete => Some(Permission::Delete),
        Verb::MakeDir => Some(Permission::MakeDir),
        Verb::RemoveDir => Some(Permission::RemoveDir),
        Verb::Rename => Some(Permission::Rename),
        Verb::Checksum => Some(Permission::Checksum),
        Verb::ChangeDir => None,
    }
}

/// Whether a user holding `ops` may perform `v`.
pub open spec fn permits(ops: Set<Permission>, v: Verb) -> bool {
    match verb_permission(v) {
        Some(p) => ops.contains(p),
        None => true,
    }
}

/// The result of a gated operation: whatever the wrapped back-end gives
/// (`inner`) where the operation is permitted, a refusal otherwise.
pub open spec fn gated<T>(ops: Set<Permission>, v: Verb, r: Result<T, StorageError>, inner: bool) -> bool {
    if permits(ops, v) {
        inner
    } else {
        r == Err::<T, StorageError>(StorageError::PermissionDenied)
    }
}

/// No two operations share a permission: each permission guards exactly one
/// operation.
pub proof fn lemma_one_operation_per_permission(v: Verb, w: Verb)
    requires
        verb_permission(v) is Some,
        verb_permission(v) == verb_permission(w),
    ensures
        v == w,
{
}

/// The permission that operation `v` needs.
pub fn permission_for(v: Verb) -> (r: Option<Permission>)
    ensures
        r == verb_permission(v),
{
    match v {
        Verb::Metadata => None,
        Verb::List => Some(Permission::List),
        Verb::Get => Some(Permission::Get),
        Verb::Put => Some(Permission::Put),
        Verb::Delete => Some(Permission::Delete),
        Verb::MakeDir => Some(Permission::MakeDir),
        Verb::RemoveDir => Some(Permission::RemoveDir),
        Verb::Rename => Some(Permission::Rename),
        Verb::Checksum => Some(Permission::Checksum),
        Verb::ChangeDir => None,
    }
}

/// Whether a user holding `ops` may perform `v`.
pub fn check(ops: VfsOperations, v: Verb) -> (r: bool)
    ensures
        r == permits(ops@, v),
{
    match permission_for(v) {
        Some(p) => ops.contains(p),
        None => true,
    }
}

/// Runs `call` if `ops` permits `verb`, and returns its result unchanged;
/// otherwise refuses with [`StorageError::PermissionDenied`] without running
/// it.
///
/// That a refused `call` is never run is part of the contract: `call` need
/// not be callable at all (its precondition may be false) when the
/// operation is not permitted.
pub fn guard<T, F: FnOnce() -> Result<T, StorageError>>(ops: VfsOperations, verb: Verb, call: F) -> (r:
    Result<T, StorageError>)
    requires
        permits(ops@, verb) ==> call.requires(()),
    ensures
        permits(ops@, verb) ==> call.ensures((), r),
        !permits(ops@, verb) ==> r == Err::<T, StorageError>(StorageError::PermissionDenied),
{
    if check(ops, verb) {
        call()
    } else {
        Err(StorageError::PermissionDenied)
    }
}

/// Clears a request for `verb` on `requested` by `user`, in the order the
/// layers apply: the path is first confined to the user's root (a request
/// that starts with `.` is refused with [`StorageError::InvalidPath`]), then
/// the operation is checked against the user's permissions (refused with
/// [`StorageError::PermissionDenied`]); otherwise the confined path comes back.
pub fn clear_request(user: &User, requested: &str, verb: Verb) -> (r: Result<String, StorageError>)
    ensures
        match user_path(Some(*user), requested@) {
            None => r == Err::<String, StorageError>(StorageError::InvalidPath),
            Some(p) => if permits(user.vfs_permissions@, verb) {
                r matches Ok(out) && out@ == p
            } else {
                r == Err::<String, StorageError>(StorageError::PermissionDenied)
            },
        },
{
    let p = match user_new_path(user, requested) {
        Ok(p) => p,
        Err(e) => return Err(e),
    };
    if check(user.vfs_permissions, verb) {
        Ok(p)
    } else {
        Err(StorageError::PermissionDenied)
    }
}

/// Clears a rename of `from` to `to` by `user`: both paths are confined
/// first (`from` before `to`), then the rename is checked against the
/// user's permissions; otherwise both confined paths come back.
pub fn clear_rename(user: &User, from: &str, to: &str) -> (r: Result<(String, String), StorageError>)
    ensures
        match (user_path(Some(*user), from@), user_path(Some(*user), to@)) {
            (Some(f), Some(t)) => if permits(user.vfs_permissions@, Verb::Rename) {
                r matches Ok((fo, to_out)) && fo@ == f && to_out@ == t
            } else {
                r == Err::<(String, String), StorageError>(StorageError::PermissionDenied)
            },
            _ => r == Err::<(String, String), StorageError>(StorageError::InvalidPath),
        },
{
    let f = match user_new_path(user, from) {
        Ok(p) => p,
        Err(e) => return Err(e),
    };
    let t = match user_new_path(user, to) {
        Ok(p) => p,
        Err(e) => return Err(e),
    };
    if check(user.vfs_permissions, Verb::Rename) {
        Ok((f, t))
    } else {
        Err(StorageError::PermissionDenied)
    }
}

/// A back-end that checks the user's permissions before it delegates.
#[derive(Debug)]
pub struct RestrictingVfs<B> {
    pub delegate: B,
}

impl<M, B: StorageBackend<M>> StorageBackend<M> for RestrictingVfs<B> {
    open spec fn metadata_outcome(&self, user: User, path: Seq<char>, r: Result<M, StorageError>) -> bool {
        gated(user.vfs_permissions@, Verb::Metadata, r, self.delegate.metadata_outcome(user, path, r))
    }

    open spec fn list_outcome(
        &self,
        user: User,
        path: Seq<char>,
        r: Result<Vec<Fileinfo<M>>, StorageError>,
    ) -> bool {
        gated(user.vfs_permissions@, Verb::List, r, self.delegate.list_outcome(user, path, r))
    }

    open spec fn get_outcome(
        &self,
        user: User,
        path: Seq<char>,
        start_pos: u64,
        r: Result<Vec<u8>, StorageError>,
    ) -> bool {
        gated(user.vfs_permissions@, Verb::Get, r, self.delegate.get_outcome(user, path, start_pos, r))
    }

    open spec fn put_outcome(
        &self,
        user: User,
        data: Seq<u8>,
        path: Seq<char>,
        start_pos: u64,
        r: Result<u64, StorageError>,
    ) -> bool {
        gated(
            user.vfs_permissions@,
            Verb::Put,
            r,
            self.delegate.put_outcome(user, data, path, start_pos, r),
        )
    }

    open spec fn del_outcome(&self, user: User, path: Seq<char>, r: Result<(), StorageError>) -> bool {
        gated(user.vfs_permissions@, Verb::Delete, r, self.delegate.del_outcome(user, path, r))
    }

    open spec fn mkd_outcome(&self, user: User, path: Seq<char>, r: Result<(), StorageError>) -> bool {
        gated(user.vfs_permissions@, Verb::MakeDir, r, self.delegate.mkd_outcome(user, path, r))
    }

    open spec fn rmd_outcome(&self, user: User, path: Seq<char>, r: Result<(), StorageError>) -> bool {
        gated(user.vfs_permissions@, Verb::RemoveDir, r, self.delegate.rmd_outcome(user, path, r))
    }

    open spec fn rename_outcome(
        &self,
        user: User,
        from: Seq<char>,
        to: Seq<char>,
        r: Result<(), StorageError>,
    ) -> bool {
        gated(user.vfs_permissions@, Verb::Rename, r, self.delegate.rename_outcome(user, from, to, r))
    }

    open spec fn md5_outcome(&self, user: User, path: Seq<char>, r: Result<String, StorageError>) -> bool {
        gated(user.vfs_permissions@, Verb::Checksum, r, self.delegate.md5_outcome(user, path, r))
    }

    open spec fn cwd_outcome(&self, user: User, path: Seq<char>, r: Result<(), StorageError>) -> bool {
        gated(user.vfs_permissions@, Verb::ChangeDir, r, self.delegate.cwd_outcome(user, path, r))
    }

    open spec fn metadata_ready(&self, user: User, path: Seq<char>) -> bool {
        permits(user.vfs_permissions@, Verb::Metadata) ==> self.delegate.metadata_ready(user, path)
    }

    open spec fn list_ready(&self, user: User, path: Seq<char>) -> bool {
        permits(user.vfs_permissions@, Verb::List) ==> self.delegate.list_ready(user, path)
    }

    open spec fn get_ready(&self, user: User, path: Seq<char>, start_pos: u64) -> bool {
        permits(user.vfs_permissions@, Verb::Get) ==> self.delegate.get_ready(user, path, start_pos)
    }

    open spec fn put_ready(&self, user: User, data: Seq<u8>, path: Seq<char>, start_pos: u64) -> bool {
        permits(user.vfs_permissions@, Verb::Put) ==> self.delegate.put_ready(user, data, path, start_pos)
    }

    open spec fn del_ready(&self, user: User, path: Seq<char>) -> bool {
        permits(user.vfs_permissions@, Verb::Delete) ==> self.delegate.del_ready(user, path)
    }

    open spec fn mkd_ready(&self, user: User, path: Seq<char>) -> bool {
        permits(user.vfs_permissions@, Verb::MakeDir) ==> self.delegate.mkd_ready(user, path)
    }

    open spec fn rmd_ready(&self, user: User, path: Seq<char>) -> bool {
        permits(user.vfs_permissions@, Verb::RemoveDir) ==> self.delegate.rmd_ready(user, path)
    }

    open spec fn rename_ready(&self, user: User, from: Seq<char>, to: Seq<char>) -> bool {
        permits(user.vfs_permissions@, Verb::Rename) ==> self.delegate.rename_ready(user, from, to)
    }

    open spec fn md5_ready(&self, user: User, path: Seq<char>) -> bool {
        permits(user.vfs_permissions@, Verb::Checksum) ==> self.delegate.md5_ready(user, path)
    }

    open spec fn cwd_ready(&self, user: User, path: Seq<char>) -> bool {
        permits(user.vfs_permissions@, Verb::ChangeDir) ==> self.delegate.cwd_ready(user, path)
    }

    fn metadata(&self, user: &User, path: &str) -> (r: Result<M, StorageError>) {
        let call = || -> (r: Result<M, StorageError>)
            requires
                self.delegate.metadata_ready(*user, path@),
            ensures
                self.delegate.metadata_outcome(*user, path@, r),
            { self.delegate.metadata(user, path) };
        guard(user.vfs_permissions, Verb::Metadata, call)
    }

    fn list(&self, user: &User, path: &str) -> (r: Result<Vec<Fileinfo<M>>, StorageError>) {
        let call = || -> (r: Result<Vec<Fileinfo<M>>, StorageError>)
            requires
                self.delegate.list_ready(*user, path@),
            ensures
                self.delegate.list_outcome(*user, path@, r),
            { self.delegate.list(user, path) };
        guard(user.vfs_permissions, Verb::List, call)
    }

    fn get(&self, user: &User, path: &str, start_pos: u64) -> (r: Result<Vec<u8>, StorageError>) {
        let call = || -> (r: Result<Vec<u8>, StorageError>)
            requires
                self.delegate.get_ready(*user, path@, start_pos),
            ensures
                self.delegate.get_outcome(*user, path@, start_pos, r),
            { self.delegate.get(user, path, start_pos) };
        guard(user.vfs_permissions, Verb::Get, call)
    }

    fn put(&self, user: &User, data: Vec<u8>, path: &str, start_pos: u64) -> (r: Result<u64, StorageError>) {
        let ghost bytes = data@;
        let call = move || -> (r: Result<u64, StorageError>)
            requires
                self.delegate.put_ready(*user, bytes, path@, start_pos),
            ensures
                self.delegate.put_outcome(*user, bytes, path@, start_pos, r),
            { self.delegate.put(user, data, path, start_pos) };
        guard(user.vfs_permissions, Verb::Put, call)
    }

    fn del(&self, user: &User, path: &str) -> (r: Result<(), StorageError>) {
        let call = || -> (r: Result<(), StorageError>)
            requires
                self.delegate.del_ready(*user, path@),
            ensures
                self.delegate.del_outcome(*user, path@, r),
            { self.delegate.del(user, path) };
        guard(user.vfs_permissions, Verb::Delete, call)
    }

    fn mkd(&self, user: &User, path: &str) -> (r: Result<(), StorageError>) {
        let call = || -> (r: Result<(), StorageError>)
            requires
                self.delegate.mkd_ready(*user, path@),
            ensures
                self.delegate.mkd_outcome(*user, path@, r),
            { self.delegate.mkd(user, path) };
        guard(user.vfs_permissions, Verb::MakeDir, call)
    }

    fn rmd(&self, user: &User, path: &str) -> (r: Result<(), StorageError>) {
        let call = || -> (r: Result<(), StorageError>)
            requires
                self.delegate.rmd_ready(*user, path@),
            ensures
                self.delegate.rmd_outcome(*user, path@, r),
            { self.delegate.rmd(user, path) };
        guard(user.vfs_permissions, Verb::RemoveDir, call)
    }

    fn rename(&self, user: &User, from: &str, to: &str) -> (r: Result<(), StorageError>) {
        let call = || -> (r: Result<(), StorageError>)
            requires
                self.delegate.rename_ready(*user, from@, to@),
            ensures
                self.delegate.rename_outcome(*user, from@, to@, r),
            { self.delegate.rename(user, from, to) };
        guard(user.vfs_permissions, Verb::Rename, call)
    }

    fn md5(&self, user: &User, path: &str) -> (r: Result<String, StorageError>) {
        let call = || -> (r: Result<String, StorageError>)
            requires
                self.delegate.md5_ready(*user, path@),
            ensures
                self.delegate.md5_outcome(*user, path@, r),
            { self.delegate.md5(user, path) };
        guard(user.vfs_permissions, Verb::Checksum, call)
    }

    fn cwd(&self, user: &User, path: &str) -> (r: Result<(), StorageError>) {
        let call = || -> (r: Result<(), StorageError>)
            requires
                self.delegate.cwd_ready(*user, path@),
            ensures
                self.delegate.cwd_outcome(*user, path@, r),
            { self.delegate.cwd(user, path) };
        guard(user.vfs_permissions, Verb::ChangeDir, call)
    }
}

} // verus!
