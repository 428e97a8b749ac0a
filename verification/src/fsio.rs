//! The trusted boundary to the filesystem.
//!
//! Everything in this module either declares an outside type or wraps one
//! operation of `fs_mistrust`, `fslock_guard`, `remove_dir_all`, or the
//! standard library, converting its arguments and result.  All real disk
//! access of the crate goes through here; the callers map the [`FsError`]
//! carried back into a full [`Error`](crate::err::Error) with its action and
//! resource context.

use std::sync::Arc;

use vstd::prelude::*;

verus! {

/// The permission policy type of `fs_mistrust`.
#[verifier::external_type_specification]
#[verifier::external_body]
pub struct ExMistrust(fs_mistrust::Mistrust);

/// The permission-checked directory handle of `fs_mistrust`.
#[verifier::external_type_specification]
#[verifier::external_body]
pub struct ExCheckedDir(fs_mistrust::CheckedDir);

/// The held-lock guard of `fslock_guard`: while a value of this type exists,
/// its process holds an exclusive advisory lock on the lock file it was
/// created from; the lock is released when the value is dropped and also,
/// automatically, when the process exits by any means.
#[verifier::external_type_specification]
#[verifier::external_body]
pub struct ExLockFileGuard(fslock_guard::LockFileGuard);

/// A failure reported by the filesystem boundary, reduced to what the
/// verified callers need to distinguish.
pub enum FsError {
    /// The file or directory does not exist.
    NotFound,
    /// A path failed the permission policy; carries the reported description.
    Permission(String),
    /// Any other I/O failure; carries the reported description.
    Io(String),
}

/// Relies on `fs_mistrust::Verifier::make_secure_dir`: creates `path` if
/// needed and checks it (and its ancestors) against the policy, returning a
/// checked handle on success.  Policy violations (`BadPermission`,
/// `BadOwner`) are told apart from other failures.
#[verifier::external_body]
pub(crate) fn make_secure_dir(mistrust: &fs_mistrust::Mistrust, path: &str) -> Result<
    fs_mistrust::CheckedDir,
    FsError,
> {
    mistrust.verifier().make_secure_dir(path).map_err(|e| match e {
        fs_mistrust::Error::NotFound(_) => FsError::NotFound,
        e @ (fs_mistrust::Error::BadPermission(..) | fs_mistrust::Error::BadOwner(..)) => {
            FsError::Permission(e.to_string())
        },
        e => FsError::Io(e.to_string()),
    })
}

/// Relies on `fs_mistrust::CheckedDir::make_secure_directory`: creates the
/// relative subdirectory if needed and checks it against the policy.
#[verifier::external_body]
pub(crate) fn make_secure_subdir(parent: &fs_mistrust::CheckedDir, rel: &str) -> Result<
    fs_mistrust::CheckedDir,
    FsError,
> {
    parent.make_secure_directory(rel).map_err(|e| match e {
        fs_mistrust::Error::NotFound(_) => FsError::NotFound,
        e @ (fs_mistrust::Error::BadPermission(..) | fs_mistrust::Error::BadOwner(..)) => {
            FsError::Permission(e.to_string())
        },
        e => FsError::Io(e.to_string()),
    })
}

/// Relies on `fs_mistrust::CheckedDir::clone` (a derived clone): the copy
/// denotes the same checked directory.
#[verifier::external_body]
pub(crate) fn checked_dir_clone(d: &fs_mistrust::CheckedDir) -> (r: fs_mistrust::CheckedDir)
    ensures
        r == *d,
{
    d.clone()
}

/// Relies on `fs_mistrust::CheckedDir::read`: reads the whole file at the
/// relative path, after checking permissions.  A missing file is reported
/// here as `Ok(None)`.
#[verifier::external_body]
pub(crate) fn read_file(dir: &fs_mistrust::CheckedDir, rel: &str) -> Result<
    Option<Vec<u8>>,
    FsError,
> {
    match dir.read(rel) {
        Ok(data) => Ok(Some(data)),
        Err(fs_mistrust::Error::NotFound(_)) => Ok(None),
        Err(e @ (fs_mistrust::Error::BadPermission(..) | fs_mistrust::Error::BadOwner(..))) => {
            Err(FsError::Permission(e.to_string()))
        },
        Err(e) => Err(FsError::Io(e.to_string())),
    }
}

/// Relies on `fs_mistrust::CheckedDir::write_and_replace`: writes the data to
/// a temporary file in the same directory and renames it over the relative
/// path, so a concurrent or crashing reader never observes a half-written
/// file.
#[verifier::external_body]
pub(crate) fn write_file_atomic(dir: &fs_mistrust::CheckedDir, rel: &str, data: &[u8]) -> Result<
    (),
    FsError,
> {
    dir.write_and_replace(rel, data).map_err(|e| match e {
        e @ (fs_mistrust::Error::BadPermission(..) | fs_mistrust::Error::BadOwner(..)) => {
            FsError::Permission(e.to_string())
        },
        e => FsError::Io(e.to_string()),
    })
}

/// Relies on `fs_mistrust::CheckedDir::remove_file`: removes the file at the
/// relative path.  A missing file is reported here as `Ok(false)`; a removed
/// one as `Ok(true)`.
#[verifier::external_body]
pub(crate) fn remove_file(dir: &fs_mistrust::CheckedDir, rel: &str) -> Result<bool, FsError> {
    match dir.remove_file(rel) {
        Ok(()) => Ok(true),
        Err(fs_mistrust::Error::NotFound(_)) => Ok(false),
        Err(e @ (fs_mistrust::Error::BadPermission(..) | fs_mistrust::Error::BadOwner(..))) => {
            Err(FsError::Permission(e.to_string()))
        },
        Err(e) => Err(FsError::Io(e.to_string())),
    }
}

/// Relies on `fs_mistrust::CheckedDir::read_directory`: lists the names of
/// the entries directly inside the checked directory, in no particular
/// order.
#[verifier::external_body]
pub(crate) fn list_entry_names(dir: &fs_mistrust::CheckedDir) -> Result<Vec<String>, FsError> {
    let rd = dir.read_directory(".").map_err(|e| FsError::Io(e.to_string()))?;
    let mut names = Vec::new();
    for entry in rd {
        let entry = entry.map_err(|e| FsError::Io(e.to_string()))?;
        names.push(entry.file_name().to_string_lossy().into_owned());
    }
    Ok(names)
}

/// Relies on `fs_mistrust::CheckedDir::metadata` and
/// `std::fs::Metadata::is_dir`: whether the entry at the relative path exists
/// and is a directory.
#[verifier::external_body]
pub(crate) fn entry_is_dir(dir: &fs_mistrust::CheckedDir, rel: &str) -> Result<bool, FsError> {
    match dir.metadata(rel) {
        Ok(m) => Ok(m.is_dir()),
        Err(fs_mistrust::Error::NotFound(_)) => Ok(false),
        Err(e) => Err(FsError::Io(e.to_string())),
    }
}

/// Relies on `fs_mistrust::CheckedDir::metadata` and
/// `std::fs::Metadata::modified`: the modification time of the entry at the
/// relative path, in whole seconds since the Unix epoch (pre-epoch times
/// report as zero).  A missing entry is reported here as `Ok(None)`.
#[verifier::external_body]
pub(crate) fn modified_seconds(dir: &fs_mistrust::CheckedDir, rel: &str) -> Result<
    Option<u64>,
    FsError,
> {
    match dir.metadata(rel) {
        Ok(m) => {
            let t = m.modified().map_err(|e| FsError::Io(e.to_string()))?;
            let secs = match t.duration_since(std::time::UNIX_EPOCH) {
                Ok(d) => d.as_secs(),
                Err(_) => 0,
            };
            Ok(Some(secs))
        },
        Err(fs_mistrust::Error::NotFound(_)) => Ok(None),
        Err(e) => Err(FsError::Io(e.to_string())),
    }
}

/// Relies on `std::time::SystemTime::now`: the current wall-clock time, in
/// whole seconds since the Unix epoch (pre-epoch clocks report as zero).
#[verifier::external_body]
pub(crate) fn now_seconds() -> u64 {
    match std::time::SystemTime::now().duration_since(std::time::UNIX_EPOCH) {
        Ok(d) => d.as_secs(),
        Err(_) => 0,
    }
}

/// Relies on `fslock_guard::LockFileGuard::try_lock`: creates the lock file
/// if needed and tries once, without blocking, to take the exclusive lock.
/// `Ok(None)` reports that some other holder (in this or another process) has
/// it; the lock is held for as long as the returned guard lives.
#[verifier::external_body]
pub(crate) fn try_lock_file(path: &str) -> Result<Option<fslock_guard::LockFileGuard>, FsError> {
    fslock_guard::LockFileGuard::try_lock(path).map_err(|e| FsError::Io(e.to_string()))
}

/// Relies on `fslock_guard::LockFileGuard::delete_lock_file`: deletes the
/// lock file that the consumed guard holds locked; `path` must be the path
/// the guard was created from.
#[verifier::external_body]
pub(crate) fn delete_lock_file(guard: fslock_guard::LockFileGuard, path: &str) -> Result<
    (),
    FsError,
> {
    guard.delete_lock_file(path).map_err(|e| FsError::Io(e.to_string()))
}

/// Relies on `remove_dir_all::remove_dir_all`: recursively deletes the
/// directory at `path` and everything below it.  A directory that is already
/// gone is reported here as success.
#[verifier::external_body]
pub(crate) fn remove_tree(path: &str) -> Result<(), FsError> {
    match remove_dir_all::remove_dir_all(path) {
        Ok(()) => Ok(()),
        Err(e) if e.kind() == std::io::ErrorKind::NotFound => Ok(()),
        Err(e) => Err(FsError::Io(e.to_string())),
    }
}

/// Relies on `std::sync::Arc::clone`: the copy shares (and keeps alive) the
/// same allocation, so it denotes the same value.
#[verifier::external_body]
pub(crate) fn arc_share(a: &Arc<fslock_guard::LockFileGuard>) -> (r: Arc<
    fslock_guard::LockFileGuard,
>)
    ensures
        r == *a,
{
    Arc::clone(a)
}

/// Relies on `std::sync::Arc::into_inner`: yields the inner value exactly
/// when the consumed reference was the only one left, and `None` otherwise.
#[verifier::external_body]
pub(crate) fn arc_into_sole(a: Arc<fslock_guard::LockFileGuard>) -> (r: Option<
    fslock_guard::LockFileGuard,
>)
    ensures
        r matches Some(g) ==> g == a,
{
    Arc::into_inner(a)
}

} // verus!
