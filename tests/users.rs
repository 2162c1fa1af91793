use rooted_vfs::permissions::{Permission, VfsOperations};
use rooted_vfs::rooter::UserWithRoot;
use rooted_vfs::user::{DefaultUserProvider, User, UserDetailError, UserDetailProvider};
use rooted_vfs::userdetail::{user_of, HTTPUserDetailProvider, JsonUserProvider, UserJsonObj};

fn record(username: &str, perms: Option<&[&str]>, root: Option<&str>, enabled: Option<bool>) -> UserJsonObj {
    UserJsonObj {
        username: username.to_string(),
        name: Some(format!("{} name", username)),
        surname: None,
        vfs_perms: perms.map(|p| p.iter().map(|t| t.to_string()).collect()),
        allowed_mime_types: Some(vec!["text/plain".to_string()]),
        root: root.map(|r| r.to_string()),
        account_enabled: enabled,
    }
}

#[test]
fn default_user_has_everything_and_no_root() {
    let u = User::with_defaults("carol");
    assert_eq!("carol", u.username);
    assert!(u.account_enabled());
    assert_eq!(VfsOperations::all(), u.permissions());
    assert_eq!(None, u.user_root());
    assert_eq!(None, u.name);
}

#[test]
fn default_provider_knows_everyone() {
    let u = DefaultUserProvider {}.provide_user_detail("dave").unwrap();
    assert_eq!("dave", u.username);
    assert_eq!(VfsOperations::all(), u.vfs_permissions);
}

#[test]
fn json_provider_finds_first_matching_record() {
    let p = JsonUserProvider::new(vec![
        record("alice", Some(&["none", "+get"]), Some("alice"), Some(false)),
        record("bob", None, None, None),
        record("alice", None, None, None),
    ]);
    let a = p.provide_user_detail("alice").unwrap();
    assert_eq!("alice", a.username);
    assert_eq!(Some("alice name".to_string()), a.name);
    assert!(!a.account_enabled);
    assert_eq!(VfsOperations::empty().with(Permission::Get), a.vfs_permissions);
    assert_eq!(Some("alice".to_string()), a.user_root());
    assert_eq!(None, a.allowed_mime_types);
    let b = p.provide_user_detail("bob").unwrap();
    assert!(b.account_enabled);
    assert_eq!(VfsOperations::all(), b.vfs_permissions);
    assert_eq!(None, b.root);
}

#[test]
fn json_provider_reports_unknown_user() {
    let p = JsonUserProvider::new(vec![record("bob", None, None, None)]);
    match p.provide_user_detail("eve") {
        Err(UserDetailError::UserNotFound { username }) => assert_eq!("eve", username),
        other => panic!("unexpected {:?}", other),
    }
    match JsonUserProvider::new(vec![]).provide_user_detail("") {
        Err(UserDetailError::UserNotFound { username }) => assert_eq!("", username),
        other => panic!("unexpected {:?}", other),
    }
}

#[test]
fn record_permissions_apply_in_order() {
    let u = user_of(&record("x", Some(&["-put", "-del", "+del"]), None, None));
    assert!(!u.vfs_permissions.contains(Permission::Put));
    assert!(u.vfs_permissions.contains(Permission::Delete));
}

#[test]
fn user_detail_errors_carry_messages() {
    match UserDetailError::new("lookup failed") {
        UserDetailError::ImplPropagated(m, None) => assert_eq!("lookup failed", m),
        other => panic!("unexpected {:?}", other),
    }
    match UserDetailError::with_source("lookup failed", "timeout") {
        UserDetailError::ImplPropagated(m, Some(c)) => {
            assert_eq!("lookup failed", m);
            assert_eq!("timeout", c);
        }
        other => panic!("unexpected {:?}", other),
    }
}

#[test]
fn user_description_names_the_user() {
    let mut u = User::with_defaults("frank");
    assert_eq!("User(username: frank, name: -, surname: -)", u.describe());
    u.name = Some("Frank".to_string());
    u.surname = Some("Jones".to_string());
    assert_eq!("User(username: frank, name: Frank, surname: Jones)", u.describe());
}

#[test]
fn http_provider_addresses() {
    let p = HTTPUserDetailProvider::default();
    assert_eq!("http://localhost:8080/users/", p.url);
    assert_eq!("http://localhost:8080/users/alice", p.user_url("alice"));
    let q = HTTPUserDetailProvider::new("https://example.org/u/");
    assert_eq!("https://example.org/u/bob", q.user_url("bob"));
    assert_eq!(None, q.header_name);
}
