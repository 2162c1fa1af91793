use rooted_vfs::chooser::{ChoosingVfs, InnerVfs};
use rooted_vfs::error::{BackendError, StorageError};
use rooted_vfs::permissions::{Permission, VfsOperations};
use rooted_vfs::restrict::{check, clear_rename, clear_request, guard, RestrictingVfs};
use rooted_vfs::rooter::RooterVfs;
use rooted_vfs::storage::{CloudMeta, Fileinfo, FsMeta, SbeMeta, StorageBackend, Verb};
use rooted_vfs::user::User;
use std::cell::{Cell, RefCell};

/// A back-end that counts its calls, remembers the paths it was given and
/// answers every call with `Ok` or with the configured error.
struct Stub {
    calls: Cell<u32>,
    paths: RefCell<Vec<String>>,
    fail: Option<BackendError>,
}

impl Stub {
    fn new(fail: Option<BackendError>) -> Stub {
        Stub { calls: Cell::new(0), paths: RefCell::new(Vec::new()), fail }
    }

    fn hit<T>(&self, path: &str, ok: T) -> Result<T, StorageError> {
        self.calls.set(self.calls.get() + 1);
        self.paths.borrow_mut().push(path.to_string());
        match self.fail {
            Some(e) => Err(StorageError::Backend(e)),
            None => Ok(ok),
        }
    }
}

fn sample_meta() -> FsMeta {
    FsMeta { len: 42, is_dir: false, is_file: true, is_symlink: false, modified: Ok(1000), uid: 7, gid: 8 }
}

impl StorageBackend<FsMeta> for Stub {
    fn metadata(&self, _user: &User, path: &str) -> Result<FsMeta, StorageError> {
        self.hit(path, sample_meta())
    }
    fn list(&self, _user: &User, path: &str) -> Result<Vec<Fileinfo<FsMeta>>, StorageError> {
        self.hit(path, vec![Fileinfo { path: "a.txt".to_string(), metadata: sample_meta() }])
    }
    fn get(&self, _user: &User, path: &str, _start_pos: u64) -> Result<Vec<u8>, StorageError> {
        self.hit(path, vec![1, 2, 3])
    }
    fn put(&self, _user: &User, data: Vec<u8>, path: &str, _start_pos: u64) -> Result<u64, StorageError> {
        self.hit(path, data.len() as u64)
    }
    fn del(&self, _user: &User, path: &str) -> Result<(), StorageError> {
        self.hit(path, ())
    }
    fn mkd(&self, _user: &User, path: &str) -> Result<(), StorageError> {
        self.hit(path, ())
    }
    fn rmd(&self, _user: &User, path: &str) -> Result<(), StorageError> {
        self.hit(path, ())
    }
    fn rename(&self, _user: &User, from: &str, to: &str) -> Result<(), StorageError> {
        self.hit(&format!("{}>{}", from, to), ())
    }
    fn md5(&self, _user: &User, path: &str) -> Result<String, StorageError> {
        self.hit(path, "d41d8cd98f00b204e9800998ecf8427e".to_string())
    }
    fn cwd(&self, _user: &User, path: &str) -> Result<(), StorageError> {
        self.hit(path, ())
    }
}

struct CloudStub;

impl StorageBackend<CloudMeta> for CloudStub {
    fn metadata(&self, _user: &User, _path: &str) -> Result<CloudMeta, StorageError> {
        Ok(CloudMeta { len: 0, is_dir: true, is_file: false, is_symlink: false, modified: Ok(5), uid: 0, gid: 0 })
    }
    fn list(&self, _user: &User, _path: &str) -> Result<Vec<Fileinfo<CloudMeta>>, StorageError> {
        Ok(vec![Fileinfo { path: "obj".to_string(), metadata: CloudMeta { len: 12, is_dir: false, is_file: true, is_symlink: false, modified: Ok(9), uid: 0, gid: 0 } }])
    }
    fn get(&self, _user: &User, _path: &str, _start_pos: u64) -> Result<Vec<u8>, StorageError> {
        Ok(vec![])
    }
    fn put(&self, _user: &User, _data: Vec<u8>, _path: &str, _start_pos: u64) -> Result<u64, StorageError> {
        Ok(0)
    }
    fn del(&self, _user: &User, _path: &str) -> Result<(), StorageError> {
        Ok(())
    }
    fn mkd(&self, _user: &User, _path: &str) -> Result<(), StorageError> {
        Ok(())
    }
    fn rmd(&self, _user: &User, _path: &str) -> Result<(), StorageError> {
        Err(StorageError::Backend(BackendError::CommandNotImplemented))
    }
    fn rename(&self, _user: &User, _from: &str, _to: &str) -> Result<(), StorageError> {
        Ok(())
    }
    fn md5(&self, _user: &User, _path: &str) -> Result<String, StorageError> {
        Ok(String::new())
    }
    fn cwd(&self, _user: &User, _path: &str) -> Result<(), StorageError> {
        Ok(())
    }
}

fn user_with(perms: VfsOperations, root: Option<&str>) -> User {
    User {
        username: "bob".to_string(),
        name: None,
        surname: None,
        account_enabled: true,
        vfs_permissions: perms,
        allowed_mime_types: None,
        root: root.map(|r| r.to_string()),
    }
}

#[test]
fn delete_without_permission_is_denied_and_backend_untouched() {
    let perms = VfsOperations::empty().with(Permission::Get).with(Permission::List);
    let user = user_with(perms, None);
    let gate = RestrictingVfs { delegate: Stub::new(None) };
    assert_eq!(Err(StorageError::PermissionDenied), gate.del(&user, "some/file"));
    assert_eq!(0, gate.delegate.calls.get());
}

#[test]
fn put_with_permission_passes_backend_error_through() {
    let perms = VfsOperations::empty().with(Permission::Put);
    let user = user_with(perms, None);
    let gate = RestrictingVfs { delegate: Stub::new(Some(BackendError::QuotaExceeded)) };
    assert_eq!(
        Err(StorageError::Backend(BackendError::QuotaExceeded)),
        gate.put(&user, vec![1, 2, 3], "big.bin", 0)
    );
    assert_eq!(1, gate.delegate.calls.get());
}

#[test]
fn every_gated_verb_is_denied_without_its_flag() {
    let user = user_with(VfsOperations::empty(), None);
    let gate = RestrictingVfs { delegate: Stub::new(None) };
    assert_eq!(Err(StorageError::PermissionDenied), gate.list(&user, "d").map(|_| ()));
    assert_eq!(Err(StorageError::PermissionDenied), gate.get(&user, "f", 0));
    assert_eq!(Err(StorageError::PermissionDenied), gate.put(&user, vec![], "f", 0));
    assert_eq!(Err(StorageError::PermissionDenied), gate.del(&user, "f"));
    assert_eq!(Err(StorageError::PermissionDenied), gate.mkd(&user, "d"));
    assert_eq!(Err(StorageError::PermissionDenied), gate.rmd(&user, "d"));
    assert_eq!(Err(StorageError::PermissionDenied), gate.rename(&user, "a", "b"));
    assert_eq!(Err(StorageError::PermissionDenied), gate.md5(&user, "f"));
    assert_eq!(0, gate.delegate.calls.get());
}

#[test]
fn cwd_and_metadata_are_not_gated() {
    let user = user_with(VfsOperations::empty(), None);
    let gate = RestrictingVfs { delegate: Stub::new(None) };
    assert_eq!(Ok(()), gate.cwd(&user, "d"));
    assert_eq!(Ok(sample_meta()), gate.metadata(&user, "f"));
    assert_eq!(2, gate.delegate.calls.get());
}

#[test]
fn granted_verbs_give_the_backend_result() {
    let user = user_with(VfsOperations::all(), None);
    let gate = RestrictingVfs { delegate: Stub::new(None) };
    let direct = Stub::new(None);
    assert_eq!(direct.get(&user, "f", 0), gate.get(&user, "f", 0));
    assert_eq!(direct.put(&user, vec![9, 9], "f", 0), gate.put(&user, vec![9, 9], "f", 0));
    assert_eq!(direct.md5(&user, "f"), gate.md5(&user, "f"));
    assert_eq!(direct.del(&user, "f"), gate.del(&user, "f"));
    assert_eq!(direct.mkd(&user, "f"), gate.mkd(&user, "f"));
    assert_eq!(direct.rmd(&user, "f"), gate.rmd(&user, "f"));
    assert_eq!(direct.rename(&user, "a", "b"), gate.rename(&user, "a", "b"));
    assert_eq!(1, gate.list(&user, "d").unwrap().len());
    let failing = RestrictingVfs { delegate: Stub::new(Some(BackendError::PermanentFileNotAvailable)) };
    assert_eq!(
        Err(StorageError::Backend(BackendError::PermanentFileNotAvailable)),
        failing.get(&user, "f", 0)
    );
}

#[test]
fn guard_runs_call_only_when_permitted() {
    let ran = Cell::new(false);
    let denied: Result<u32, StorageError> = guard(VfsOperations::empty(), Verb::Delete, || {
        ran.set(true);
        Ok(1)
    });
    assert_eq!(Err(StorageError::PermissionDenied), denied);
    assert!(!ran.get());
    let allowed: Result<u32, StorageError> = guard(VfsOperations::empty().with(Permission::Delete), Verb::Delete, || {
        ran.set(true);
        Ok(1)
    });
    assert_eq!(Ok(1), allowed);
    assert!(ran.get());
}

#[test]
fn check_maps_verbs_to_flags() {
    let only_rename = VfsOperations::empty().with(Permission::Rename);
    assert!(check(only_rename, Verb::Rename));
    assert!(!check(only_rename, Verb::Delete));
    assert!(check(only_rename, Verb::ChangeDir));
    assert!(check(only_rename, Verb::Metadata));
    assert!(!check(only_rename, Verb::Put));
}

#[test]
fn rooter_over_gate_reroots_before_delegating() {
    let user = user_with(VfsOperations::all(), Some("alice"));
    let vfs = RooterVfs::new(RestrictingVfs { delegate: Stub::new(None) });
    assert_eq!(Ok(()), vfs.del(&user, "../../x/../y.txt"));
    assert_eq!(Ok(()), vfs.rename(&user, "/a", "b/../c"));
    assert_eq!(
        vec!["alice/y.txt".to_string(), "alice/a>alice/c".to_string()],
        *vfs.inner.delegate.paths.borrow()
    );
}

#[test]
fn rooter_refuses_invalid_request_without_delegating() {
    let user = user_with(VfsOperations::all(), Some("alice"));
    let vfs = RooterVfs::new(Stub::new(None));
    assert_eq!(Err(StorageError::InvalidPath), vfs.mkd(&user, "./d"));
    assert_eq!(0, vfs.inner.calls.get());
}

#[test]
fn chooser_tags_metadata_with_backend_kind() {
    let user = user_with(VfsOperations::all(), None);
    let fs: ChoosingVfs<Stub, CloudStub> = ChoosingVfs { inner: InnerVfs::File(Stub::new(None)) };
    assert_eq!(Ok(SbeMeta::File(sample_meta())), fs.metadata(&user, "f"));
    let listing = fs.list(&user, "d").unwrap();
    assert_eq!("a.txt", listing[0].path);
    assert_eq!(SbeMeta::File(sample_meta()), listing[0].metadata);

    let cloud: ChoosingVfs<Stub, CloudStub> = ChoosingVfs { inner: InnerVfs::Cloud(CloudStub) };
    let m = cloud.metadata(&user, "p").unwrap();
    assert!(m.is_dir());
    assert_eq!(Ok(5), m.modified());
    let listing = cloud.list(&user, "d").unwrap();
    assert_eq!(12, listing[0].metadata.len());
    assert_eq!(
        Err(StorageError::Backend(BackendError::CommandNotImplemented)),
        cloud.rmd(&user, "d")
    );
}

#[test]
fn clear_request_confines_then_checks() {
    let reader = user_with(VfsOperations::empty().with(Permission::Get), Some("alice"));
    assert_eq!(Ok("alice/f".to_string()), clear_request(&reader, "../f", Verb::Get));
    assert_eq!(Err(StorageError::PermissionDenied), clear_request(&reader, "/f", Verb::Put));
    assert_eq!(Err(StorageError::InvalidPath), clear_request(&reader, "./f", Verb::Put));
    assert_eq!(Ok("alice".to_string()), clear_request(&reader, "/", Verb::ChangeDir));
    assert_eq!(Err(StorageError::PermissionDenied), clear_rename(&reader, "a", "b"));
    assert_eq!(Err(StorageError::InvalidPath), clear_rename(&reader, "a", "./b"));
    let renamer = user_with(VfsOperations::empty().with(Permission::Rename), Some("alice"));
    assert_eq!(
        Ok(("alice/a".to_string(), "alice/c".to_string())),
        clear_rename(&renamer, "/a", "b/../c")
    );
}
