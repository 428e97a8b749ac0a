//! Per-instance persistent state directories with exclusive locking.
//!
//! This library gives each logical instance of a facility (for example, one
//! onion service) its own directory on disk, guarded by an advisory lock
//! file, together with atomic single-record storage inside that directory
//! and a safe expiry protocol for instances that are no longer wanted.
//! The [`keys`] module renders the storage paths of a hidden service's
//! keys.
//!
//! The on-disk layout, relative to the configured root, is:
//!
//! ```text
//! ROOT/<kind>/<identity>.lock
//! ROOT/<kind>/<identity>/<slug>.json
//! ROOT/<kind>/<identity>/<raw-subdir-slug>/...
//! ```
//!
//! The lock file lives *outside* the instance directory, so the instance
//! directory can be deleted while the lock is still held, without racing a
//! concurrent lock attempt.

mod fsio;

pub mod err;
pub mod keys;
pub mod numfmt;
pub mod slug;
pub mod state_dir;

pub use err::{Action, Error, ErrorKind, ErrorSource, Resource};
pub use slug::{BadSlug, Slug};
pub use state_dir::{
    InstanceIdentity, InstancePurgeHandler, InstancePurgeInfo, InstanceRawSubdir,
    InstanceStateHandle, Liveness, StateDirectory, StorageHandle,
};
