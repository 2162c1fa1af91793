use rooted_vfs::chooser::{wrap_cloud_listing, wrap_fs_listing};
use rooted_vfs::error::BackendError;
use rooted_vfs::storage::{CloudMeta, Fileinfo, FsMeta, SbeMeta};

#[test]
fn filesystem_metadata_reads_back_unchanged() {
    let f = FsMeta {
        len: 1234,
        is_dir: false,
        is_file: true,
        is_symlink: true,
        modified: Ok(1_600_000_000_123_456_789),
        uid: 501,
        gid: 20,
    };
    let m = SbeMeta::File(f);
    assert_eq!(1234, m.len());
    assert!(!m.is_dir());
    assert!(m.is_file());
    assert!(m.is_symlink());
    assert_eq!(Ok(1_600_000_000_123_456_789), m.modified());
    assert_eq!(501, m.uid());
    assert_eq!(20, m.gid());
}

#[test]
fn filesystem_metadata_without_time_reports_error() {
    let f = FsMeta { len: 0, is_dir: true, is_file: false, is_symlink: false, modified: Err(BackendError::LocalError), uid: 0, gid: 0 };
    let m = SbeMeta::File(f);
    assert!(m.is_dir());
    assert_eq!(Err(BackendError::LocalError), m.modified());
}

#[test]
fn cloud_metadata_reads_back_unchanged() {
    let c = CloudMeta { len: 99, is_dir: false, is_file: true, is_symlink: false, modified: Ok(-77), uid: 3, gid: 4 };
    let m = SbeMeta::Cloud(c);
    assert_eq!(99, m.len());
    assert!(m.is_file());
    assert!(!m.is_dir());
    assert!(!m.is_symlink());
    assert_eq!(Ok(-77), m.modified());
    assert_eq!(3, m.uid());
    assert_eq!(4, m.gid());
}

#[test]
fn listings_keep_paths_and_tag_metadata() {
    let f = FsMeta { len: 3, is_dir: false, is_file: true, is_symlink: false, modified: Ok(1), uid: 1, gid: 2 };
    let w = vec![
        Fileinfo { path: "a".to_string(), metadata: f },
        Fileinfo { path: "b/c".to_string(), metadata: f },
    ];
    let v = wrap_fs_listing(&w);
    assert_eq!(2, v.len());
    assert_eq!("a", v[0].path);
    assert_eq!("b/c", v[1].path);
    assert_eq!(SbeMeta::File(f), v[1].metadata);

    let c = CloudMeta { len: 0, is_dir: true, is_file: false, is_symlink: false, modified: Ok(4), uid: 0, gid: 0 };
    let v = wrap_cloud_listing(&vec![Fileinfo { path: "dir/".to_string(), metadata: c }]);
    assert_eq!("dir/", v[0].path);
    assert_eq!(SbeMeta::Cloud(c), v[0].metadata);
    assert!(wrap_fs_listing(&Vec::new()).is_empty());
}
