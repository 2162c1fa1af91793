//! The authenticated user (the principal) on whose behalf storage
//! operations run, and the providers that look users up.
use crate::permissions::{all_permissions, VfsOperations};
use crate::rooter::UserWithRoot;
use vstd::prelude::*;

verus! {

/// The details of an FTP user.
#[derive(Debug, PartialEq, Eq)]
pub struct User {
    pub username: String,
    pub name: Option<String>,
    pub surname: Option<String>,
    /// Whether this user can log in.
    pub account_enabled: bool,
    /// The storage operations this user may perform.
    pub vfs_permissions: VfsOperations,
    /// The kinds of file this user is expected to upload, where known.
    pub allowed_mime_types: Option<Vec<String>>,
    /// The user's home directory relative to the storage back-end's root;
    /// `None` leaves the user unconfined.
    pub root: Option<String>,
}

/// The characters of an optional string.
pub open spec fn opt_text(s: Option<String>) -> Option<Seq<char>> {
    match s {
        Some(t) => Some(t@),
        None => None,
    }
}

/// Whether `u` is the user that [`User::with_defaults`] makes for `username`.
pub open spec fn is_default_user(u: User, username: Seq<char>) -> bool {
    &&& u.username@ == username
    &&& u.name is None
    &&& u.surname is None
    &&& u.account_enabled
    &&& u.vfs_permissions@ == all_permissions()
    &&& u.allowed_mime_types is None
    &&& u.root is None
}

impl User {
    /// A user with the given name that may log in, holds every permission and
    /// is not confined to a root.
    pub fn with_defaults(username: &str) -> (r: User)
        ensures
            is_default_user(r, username@),
    {
        User {
            username: username.to_owned(),
            name: None,
            surname: None,
            account_enabled: true,
            vfs_permissions: VfsOperations::all(),
            allowed_mime_types: None,
            root: None,
        }
    }

    /// Whether this user may log in.
    pub fn account_enabled(&self) -> (r: bool)
        ensures
            r == self.account_enabled,
    {
        self.account_enabled
    }

    /// The operations this user may perform.
    pub fn permissions(&self) -> (r: VfsOperations)
        ensures
            r == self.vfs_permissions,
    {
        self.vfs_permissions
    }

    /// A one-line description of the user: its user name, name and surname.
    pub fn describe(&self) -> (r: String)
        ensures
            r@ == describe_text(*self),
    {
        let mut s = "User(username: ".to_owned();
        s.append(self.username.as_str());
        s.append(", name: ");
        append_opt(&mut s, &self.name);
        s.append(", surname: ");
        append_opt(&mut s, &self.surname);
        s.append(")");
        s
    }
}

/// How an optional string reads in [`User::describe`].
pub open spec fn opt_shown(s: Option<String>) -> Seq<char> {
    match s {
        Some(t) => t@,
        None => "-"@,
    }
}

pub open spec fn describe_text(u: User) -> Seq<char> {
    "User(username: "@ + u.username@ + ", name: "@ + opt_shown(u.name) + ", surname: "@
        + opt_shown(u.surname) + ")"@
}

fn append_opt(s: &mut String, v: &Option<String>)
    ensures
        final(s)@ == old(s)@ + opt_shown(*v),
{
    match v {
        Some(t) => s.append(t.as_str()),
        None => s.append("-"),
    }
}

impl UserWithRoot for User {
    open spec fn root_of(&self) -> Option<Seq<char>> {
        opt_text(self.root)
    }

    fn user_root(&self) -> (r: Option<String>) {
        match &self.root {
            Some(r) => Some(r.clone()),
            None => None,
        }
    }
}

/// Why a user's details could not be provided.
#[derive(Debug)]
pub enum UserDetailError {
    Generic(String),
    UserNotFound { username: String },
    /// A failure inside a provider, with the message of what caused it, if any.
    ImplPropagated(String, Option<String>),
}

impl UserDetailError {
    /// A provider failure without an underlying cause.
    pub fn new(s: &str) -> (r: UserDetailError)
        ensures
            r matches UserDetailError::ImplPropagated(m, None) && m@ == s@,
    {
        UserDetailError::ImplPropagated(s.to_owned(), None)
    }

    /// A provider failure caused by an error with message `source`.
    pub fn with_source(s: &str, source: &str) -> (r: UserDetailError)
        ensures
            r matches UserDetailError::ImplPropagated(m, Some(c)) && m@ == s@ && c@ == source@,
    {
        UserDetailError::ImplPropagated(s.to_owned(), Some(source.to_owned()))
    }
}

/// Looks up the details of a user by user name.
pub trait UserDetailProvider {
    /// Whether `r` is an answer this provider may give for `username`.
    spec fn provides(&self, username: Seq<char>, r: Result<User, UserDetailError>) -> bool;

    fn provide_user_detail(&self, username: &str) -> (r: Result<User, UserDetailError>)
        ensures
            self.provides(username@, r),
    ;
}

/// A provider that knows every user: it gives each the default details.
#[derive(Debug)]
pub struct DefaultUserProvider {}

impl UserDetailProvider for DefaultUserProvider {
    open spec fn provides(&self, username: Seq<char>, r: Result<User, UserDetailError>) -> bool {
        r matches Ok(u) && is_default_user(u, username)
    }

    fn provide_user_detail(&self, username: &str) -> (r: Result<User, UserDetailError>) {
        Ok(User::with_defaults(username))
    }
}

} // verus!
