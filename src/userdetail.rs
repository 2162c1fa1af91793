//! User providers backed by a list of user records, as read from a JSON
//! document on disk or from an HTTP service.
use crate::permissions::{all_permissions, tokens_effect, Permission, VfsOperations};
use crate::rooter::texts;
use crate::user::{opt_text, User, UserDetailError, UserDetailProvider};
use vstd::prelude::*;

verus! {

/// One user as a JSON user document describes it.
#[derive(Debug)]
pub struct UserJsonObj {
    pub username: String,
    pub name: Option<String>,
    pub surname: Option<String>,
    /// Permission tokens, applied in order to the set that grants everything.
    pub vfs_perms: Option<Vec<String>>,
    pub allowed_mime_types: Option<Vec<String>>,
    pub root: Option<String>,
    pub account_enabled: Option<bool>,
}

/// The permissions a record grants: every permission where it lists no
/// tokens, otherwise what its tokens describe.
pub open spec fn record_permissions(rec: UserJsonObj) -> Set<Permission> {
    match rec.vfs_perms {
        Some(tokens) => tokens_effect(texts(tokens@)),
        None => all_permissions(),
    }
}

/// Whether `u` is the user that record `rec` describes.
pub open spec fn is_user_of(u: User, rec: UserJsonObj) -> bool {
    &&& u.username@ == rec.username@
    &&& opt_text(u.name) == opt_text(rec.name)
    &&& opt_text(u.surname) == opt_text(rec.surname)
    &&& u.account_enabled == match rec.account_enabled {
        Some(b) => b,
        None => true,
    }
    &&& u.vfs_permissions@ == record_permissions(rec)
    &&& u.allowed_mime_types is None
    &&& opt_text(u.root) == opt_text(rec.root)
}

/// Whether `r` is the answer a list of records gives for `username`: the
/// user of the first record with that user name, or
/// [`UserDetailError::UserNotFound`] where no record has it.
pub open spec fn lookup_outcome(
    users: Seq<UserJsonObj>,
    username: Seq<char>,
    r: Result<User, UserDetailError>,
) -> bool {
    match r {
        Ok(u) => exists|i: int|
            0 <= i < users.len() && (#[trigger] users[i]).username@ == username && (forall|j: int|
                0 <= j < i ==> (#[trigger] users[j]).username@ != username) && is_user_of(u, users[i]),
        Err(UserDetailError::UserNotFound { username: n }) => n@ == username && forall|i: int|
            0 <= i < users.len() ==> (#[trigger] users[i]).username@ != username,
        Err(_) => false,
    }
}

fn clone_text(s: &Option<String>) -> (r: Option<String>)
    ensures
        opt_text(r) == opt_text(*s),
{
    match s {
        Some(t) => Some(t.clone()),
        None => None,
    }
}

/// The user that a record describes.
pub fn user_of(rec: &UserJsonObj) -> (u: User)
    ensures
        is_user_of(u, *rec),
{
    let perms = match &rec.vfs_perms {
        Some(tokens) => VfsOperations::from_tokens(tokens),
        None => VfsOperations::all(),
    };
    let enabled = match rec.account_enabled {
        Some(b) => b,
        None => true,
    };
    User {
        username: rec.username.clone(),
        name: clone_text(&rec.name),
        surname: clone_text(&rec.surname),
        account_enabled: enabled,
        vfs_permissions: perms,
        allowed_mime_types: None,
        root: clone_text(&rec.root),
    }
}

/// A provider that looks users up in a list of records.
#[derive(Debug)]
pub struct JsonUserProvider {
    pub users: Vec<UserJsonObj>,
}

impl JsonUserProvider {
    /// A provider over `users`.
    pub fn new(users: Vec<UserJsonObj>) -> (r: JsonUserProvider)
        ensures
            r.users == users,
    {
        JsonUserProvider { users }
    }
}

impl UserDetailProvider for JsonUserProvider {
    open spec fn provides(&self, username: Seq<char>, r: Result<User, UserDetailError>) -> bool {
        lookup_outcome(self.users@, username, r)
    }

    fn provide_user_detail(&self, username: &str) -> (r: Result<User, UserDetailError>) {
        let wanted = username.to_owned();
        let mut i: usize = 0;
        while i < self.users.len()
            invariant
                i <= self.users.len(),
                wanted@ == username@,
                forall|j: int| 0 <= j < i ==> (#[trigger] self.users@[j]).username@ != username@,
            decreases self.users.len() - i,
        {
            if self.users[i].username == wanted {
                let u = user_of(&self.users[i]);
                assert(self.users@[i as int].username@ == username@);
                return Ok(u);
            }
            i = i + 1;
        }
        Err(UserDetailError::UserNotFound { username: wanted })
    }
}

/// A provider that fetches user records over HTTP from `url` followed by
/// the user name.
#[derive(Debug)]
pub struct HTTPUserDetailProvider {
    pub url: String,
    pub header_name: Option<String>,
}

/// The address that user details are fetched from when none is configured.
pub open spec fn default_user_url() -> Seq<char> {
    "http://localhost:8080/users/"@
}

impl HTTPUserDetailProvider {
    /// A provider that fetches from `url`.
    pub fn new(url: &str) -> (r: HTTPUserDetailProvider)
        ensures
            r.url@ == url@,
            r.header_name is None,
    {
        HTTPUserDetailProvider { url: url.to_owned(), header_name: None }
    }

    /// The address of `username`'s details.
    pub fn user_url(&self, username: &str) -> (r: String)
        ensures
            r@ == self.url@ + username@,
    {
        let mut r = self.url.clone();
        r.append(username);
        r
    }
}

impl Default for HTTPUserDetailProvider {
    fn default() -> (r: HTTPUserDetailProvider)
        ensures
            r.url@ == default_user_url(),
            r.header_name is None,
    {
        HTTPUserDetailProvider { url: "http://localhost:8080/users/".to_owned(), header_name: None }
    }
}

} // verus!
