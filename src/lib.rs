//! Storage-access mediation for an FTP server: per-user path confinement,
//! permission checks and a uniform view over several storage back-ends.
//!
//! A request travels through three layers, each a [`storage::StorageBackend`]
//! wrapping the next: [`rooter::RooterVfs`] rewrites the path into the user's
//! root, [`restrict::RestrictingVfs`] refuses what the user's
//! [`permissions::VfsOperations`] do not allow, and [`chooser::ChoosingVfs`]
//! dispatches to the back-end in use and tags its metadata as
//! [`storage::SbeMeta`].
//!
//! - `permissions`: the permission set and its configuration tokens.
//! - `rooter`: the path model, the rerooting algorithm and its laws.
//! - `restrict`: the permission gate.
//! - `storage`, `chooser`: the back-end contract, metadata and dispatch.
//! - `user`, `userdetail`: users and the providers that look them up.
//! - `events`, `args`, `config`, `redislog`, `googlelog`, `version`: events,
//!   command-line values, logger settings and the version description of the
//!   server around the library.
pub mod args;
pub mod chooser;
pub mod config;
pub mod error;
pub mod events;
pub mod googlelog;
pub mod permissions;
pub mod redislog;
pub mod restrict;
pub mod rooter;
pub mod storage;
pub mod user;
pub mod userdetail;
pub mod version;
