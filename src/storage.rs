//! The contract every storage back-end meets, and the metadata that
//! back-ends report.
use crate::error::{BackendError, StorageError};
use crate::user::User;
use vstd::prelude::*;

verus! {

/// An entry of a directory listing.
#[derive(Debug)]
pub struct Fileinfo<M> {
    pub path: String,
    pub metadata: M,
}

/// The storage operations, one per verb of the FTP layer.
#[derive(Clone, Copy, Debug, PartialEq, Eq, Structural)]
pub enum Verb {
    Metadata,
    List,
    Get,
    Put,
    Delete,
    MakeDir,
    RemoveDir,
    Rename,
    Checksum,
    ChangeDir,
}

/// The operations of a storage back-end. Paths are those the back-end
/// stores under; `M` is the back-end's own metadata type.
///
/// A back-end's results depend on what it stores, so each operation's
/// contract is a relation: for each operation there is a spec function
/// that says which results the back-end may give for given arguments. By
/// default any result may come; the wrappers of this crate state theirs
/// exactly in terms of the back-end they wrap.
pub trait StorageBackend<M> {
    open spec fn metadata_outcome(&self, user: User, path: Seq<char>, r: Result<M, StorageError>) -> bool {
        true
    }

    open spec fn list_outcome(
        &self,
        user: User,
        path: Seq<char>,
        r: Result<Vec<Fileinfo<M>>, StorageError>,
    ) -> bool {
        true
    }

    open spec fn get_outcome(
        &self,
        user: User,
        path: Seq<char>,
        start_pos: u64,
        r: Result<Vec<u8>, StorageError>,
    ) -> bool {
        true
    }

    open spec fn put_outcome(
        &self,
        user: User,
        data: Seq<u8>,
        path: Seq<char>,
        start_pos: u64,
        r: Result<u64, StorageError>,
    ) -> bool {
        true
    }

    open spec fn del_outcome(&self, user: User, path: Seq<char>, r: Result<(), StorageError>) -> bool {
        true
    }

    open spec fn mkd_outcome(&self, user: User, path: Seq<char>, r: Result<(), StorageError>) -> bool {
        true
    }

    open spec fn rmd_outcome(&self, user: User, path: Seq<char>, r: Result<(), StorageError>) -> bool {
        true
    }

    open spec fn rename_outcome(
        &self,
        user: User,
        from: Seq<char>,
        to: Seq<char>,
        r: Result<(), StorageError>,
    ) -> bool {
        true
    }

    open spec fn md5_outcome(&self, user: User, path: Seq<char>, r: Result<String, StorageError>) -> bool {
        true
    }

    open spec fn cwd_outcome(&self, user: User, path: Seq<char>, r: Result<(), StorageError>) -> bool {
        true
    }

    /// When each operation may be called. By default always; a wrapper that
    /// refuses some calls asks less of what it wraps, and nothing of it for
    /// the calls it refuses, which it therefore never passes on.
    open spec fn metadata_ready(&self, user: User, path: Seq<char>) -> bool {
        true
    }

    open spec fn list_ready(&self, user: User, path: Seq<char>) -> bool {
        true
    }

    open spec fn get_ready(&self, user: User, path: Seq<char>, start_pos: u64) -> bool {
        true
    }

    open spec fn put_ready(&self, user: User, data: Seq<u8>, path: Seq<char>, start_pos: u64) -> bool {
        true
    }

    open spec fn del_ready(&self, user: User, path: Seq<char>) -> bool {
        true
    }

    open spec fn mkd_ready(&self, user: User, path: Seq<char>) -> bool {
        true
    }

    open spec fn rmd_ready(&self, user: User, path: Seq<char>) -> bool {
        true
    }

    open spec fn rename_ready(&self, user: User, from: Seq<char>, to: Seq<char>) -> bool {
        true
    }

    open spec fn md5_ready(&self, user: User, path: Seq<char>) -> bool {
        true
    }

    open spec fn cwd_ready(&self, user: User, path: Seq<char>) -> bool {
        true
    }

    /// The metadata of the file or directory at `path`.
    fn metadata(&self, user: &User, path: &str) -> (r: Result<M, StorageError>)
        requires
            self.metadata_ready(*user, path@),
        ensures
            self.metadata_outcome(*user, path@, r),
    ;

    /// The entries of the directory at `path`.
    fn list(&self, user: &User, path: &str) -> (r: Result<Vec<Fileinfo<M>>, StorageError>)
        requires
            self.list_ready(*user, path@),
        ensures
            self.list_outcome(*user, path@, r),
    ;

    /// The content of the file at `path` from byte `start_pos` on.
    fn get(&self, user: &User, path: &str, start_pos: u64) -> (r: Result<Vec<u8>, StorageError>)
        requires
            self.get_ready(*user, path@, start_pos),
        ensures
            self.get_outcome(*user, path@, start_pos, r),
    ;

    /// Writes `data` into the file at `path` from byte `start_pos` on and
    /// returns the number of bytes written.
    fn put(&self, user: &User, data: Vec<u8>, path: &str, start_pos: u64) -> (r: Result<u64, StorageError>)
        requires
            self.put_ready(*user, data@, path@, start_pos),
        ensures
            self.put_outcome(*user, data@, path@, start_pos, r),
    ;

    /// Deletes the file at `path`.
    fn del(&self, user: &User, path: &str) -> (r: Result<(), StorageError>)
        requires
            self.del_ready(*user, path@),
        ensures
            self.del_outcome(*user, path@, r),
    ;

    /// Creates the directory at `path`.
    fn mkd(&self, user: &User, path: &str) -> (r: Result<(), StorageError>)
        requires
            self.mkd_ready(*user, path@),
        ensures
            self.mkd_outcome(*user, path@, r),
    ;

    /// Removes the directory at `path`.
    fn rmd(&self, user: &User, path: &str) -> (r: Result<(), StorageError>)
        requires
            self.rmd_ready(*user, path@),
        ensures
            self.rmd_outcome(*user, path@, r),
    ;

    /// Renames `from` to `to`.
    fn rename(&self, user: &User, from: &str, to: &str) -> (r: Result<(), StorageError>)
        requires
            self.rename_ready(*user, from@, to@),
        ensures
            self.rename_outcome(*user, from@, to@, r),
    ;

    /// The MD5 digest of the file at `path`, in hexadecimal.
    fn md5(&self, user: &User, path: &str) -> (r: Result<String, StorageError>)
        requires
            self.md5_ready(*user, path@),
        ensures
            self.md5_outcome(*user, path@, r),
    ;

    /// Checks that `path` is a directory the user can change into.
    fn cwd(&self, user: &User, path: &str) -> (r: Result<(), StorageError>)
        requires
            self.cwd_ready(*user, path@),
        ensures
            self.cwd_outcome(*user, path@, r),
    ;
}

/// The metadata that a local filesystem reports of an entry.
#[derive(Clone, Copy, Debug, PartialEq, Eq)]
pub struct FsMeta {
    pub len: u64,
    pub is_dir: bool,
    pub is_file: bool,
    pub is_symlink: bool,
    /// Nanoseconds since the Unix epoch (negative before it), or why the
    /// time is not known.
    pub modified: Result<i128, BackendError>,
    pub uid: u32,
    pub gid: u32,
}

/// The metadata that a cloud object store reports of an object, as its
/// back-end's accessors give it.
#[derive(Clone, Copy, Debug, PartialEq, Eq)]
pub struct CloudMeta {
    pub len: u64,
    pub is_dir: bool,
    pub is_file: bool,
    pub is_symlink: bool,
    /// Nanoseconds since the Unix epoch (negative before it), or why the
    /// time is not known.
    pub modified: Result<i128, BackendError>,
    pub uid: u32,
    pub gid: u32,
}

/// Metadata from any of the back-ends, tagged with the back-end that
/// produced it.
#[derive(Clone, Copy, Debug, PartialEq, Eq)]
pub enum SbeMeta {
    File(FsMeta),
    Cloud(CloudMeta),
}

pub open spec fn meta_len(m: SbeMeta) -> u64 {
    match m {
        SbeMeta::File(x) => x.len,
        SbeMeta::Cloud(x) => x.len,
    }
}

pub open spec fn meta_is_dir(m: SbeMeta) -> bool {
    match m {
        SbeMeta::File(x) => x.is_dir,
        SbeMeta::Cloud(x) => x.is_dir,
    }
}

pub open spec fn meta_is_file(m: SbeMeta) -> bool {
    match m {
        SbeMeta::File(x) => x.is_file,
        SbeMeta::Cloud(x) => x.is_file,
    }
}

pub open spec fn meta_is_symlink(m: SbeMeta) -> bool {
    match m {
        SbeMeta::File(x) => x.is_symlink,
        SbeMeta::Cloud(x) => x.is_symlink,
    }
}

pub open spec fn meta_modified(m: SbeMeta) -> Result<i128, BackendError> {
    match m {
        SbeMeta::File(x) => x.modified,
        SbeMeta::Cloud(x) => x.modified,
    }
}

pub open spec fn meta_uid(m: SbeMeta) -> u32 {
    match m {
        SbeMeta::File(x) => x.uid,
        SbeMeta::Cloud(x) => x.uid,
    }
}

pub open spec fn meta_gid(m: SbeMeta) -> u32 {
    match m {
        SbeMeta::File(x) => x.gid,
        SbeMeta::Cloud(x) => x.gid,
    }
}

impl SbeMeta {
    /// The size in bytes.
    pub fn len(&self) -> (r: u64)
        ensures
            r == meta_len(*self),
    {
        match self {
            SbeMeta::File(x) => x.len,
            SbeMeta::Cloud(x) => x.len,
        }
    }

    /// Whether the entry is a directory.
    pub fn is_dir(&self) -> (r: bool)
        ensures
            r == meta_is_dir(*self),
    {
        match self {
            SbeMeta::File(x) => x.is_dir,
            SbeMeta::Cloud(x) => x.is_dir,
        }
    }

    /// Whether the entry is a file.
    pub fn is_file(&self) -> (r: bool)
        ensures
            r == meta_is_file(*self),
    {
        match self {
            SbeMeta::File(x) => x.is_file,
            SbeMeta::Cloud(x) => x.is_file,
        }
    }

    /// Whether the entry is a symbolic link.
    pub fn is_symlink(&self) -> (r: bool)
        ensures
            r == meta_is_symlink(*self),
    {
        match self {
            SbeMeta::File(x) => x.is_symlink,
            SbeMeta::Cloud(x) => x.is_symlink,
        }
    }

    /// The time of the last change, in nanoseconds since the Unix epoch, where
    /// the back-end knows it.
    pub fn modified(&self) -> (r: Result<i128, BackendError>)
        ensures
            r == meta_modified(*self),
    {
        match self {
            SbeMeta::File(x) => x.modified,
            SbeMeta::Cloud(x) => x.modified,
        }
    }

    /// The owning user's id.
    pub fn uid(&self) -> (r: u32)
        ensures
            r == meta_uid(*self),
    {
        match self {
            SbeMeta::File(x) => x.uid,
            SbeMeta::Cloud(x) => x.uid,
        }
    }

    /// The owning group's id.
    pub fn gid(&self) -> (r: u32)
        ensures
            r == meta_gid(*self),
    {
        match self {
            SbeMeta::File(x) => x.gid,
            SbeMeta::Cloud(x) => x.gid,
        }
    }
}

/// Metadata read back through the unified type is the metadata the
/// back-end reported: size, kind, time and ownership, for either arm.
pub proof fn lemma_metadata_round_trip(f: FsMeta, c: CloudMeta)
    ensures
        meta_len(SbeMeta::File(f)) == f.len,
        meta_is_dir(SbeMeta::File(f)) == f.is_dir,
        meta_is_file(SbeMeta::File(f)) == f.is_file,
        meta_is_symlink(SbeMeta::File(f)) == f.is_symlink,
        meta_modified(SbeMeta::File(f)) == f.modified,
        meta_uid(SbeMeta::File(f)) == f.uid,
        meta_gid(SbeMeta::File(f)) == f.gid,
        meta_len(SbeMeta::Cloud(c)) == c.len,
        meta_is_dir(SbeMeta::Cloud(c)) == c.is_dir,
        meta_is_file(SbeMeta::Cloud(c)) == c.is_file,
        meta_is_symlink(SbeMeta::Cloud(c)) == c.is_symlink,
        meta_modified(SbeMeta::Cloud(c)) == c.modified,
        meta_uid(SbeMeta::Cloud(c)) == c.uid,
        meta_gid(SbeMeta::Cloud(c)) == c.gid,
{
}

} // verus!
