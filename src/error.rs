//! The errors of storage operations.
use vstd::prelude::*;

verus! {

/// What a storage back-end reports when an operation fails; each kind
/// stands for one FTP reply.
#[derive(Clone, Copy, Debug, PartialEq, Eq, Structural)]
pub enum BackendError {
    /// 450: the file is not available now (it may be busy); a retry may work.
    TransientFileNotAvailable,
    /// 550: the file is not available, and a retry will not help.
    PermanentFileNotAvailable,
    /// 550: the directory does not exist.
    PermanentDirectoryNotAvailable,
    /// 550: the directory is not empty.
    PermanentDirectoryNotEmpty,
    /// 550: the back-end itself refused access.
    PermissionDenied,
    /// 426: the connection closed and the transfer was aborted.
    ConnectionClosed,
    /// 451: the back-end failed while processing the request.
    LocalError,
    /// 551: the page type is unknown.
    PageTypeUnknown,
    /// 452: there is not enough storage space.
    InsufficientStorageSpace,
    /// 552: the storage allocation (quota) would be exceeded.
    QuotaExceeded,
    /// 553: the file name is not allowed.
    FileNameNotAllowed,
    /// 502: the back-end does not implement the command.
    CommandNotImplemented,
}

/// Why a storage operation failed.
#[derive(Clone, Copy, Debug, PartialEq, Eq, Structural)]
pub enum StorageError {
    /// The user's permission set lacks the operation's flag.
    PermissionDenied,
    /// The requested path cannot be confined to the user's root.
    InvalidPath,
    /// The back-end failed; its error is passed on unchanged.
    Backend(BackendError),
}

} // verus!
