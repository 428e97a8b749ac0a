//! Error reporting for state-directory operations.
//!
//! Every fallible operation returns an [`Error`] that carries three pieces of
//! context: the underlying [`ErrorSource`], the [`Action`] being performed,
//! and the [`Resource`] it was performed on.  Lock contention
//! ([`ErrorSource::AlreadyLocked`]) is an expected, recoverable condition and
//! is kept distinguishable from genuine I/O failures through
//! [`Error::kind`].

use vstd::prelude::*;

use crate::slug::BadSlug;

verus! {

/// What the subsystem was doing when an operation failed.
#[derive(Clone, Copy, Debug, PartialEq, Eq, Structural)]
pub enum Action {
    /// Setting up a directory or handle.
    Initializing,
    /// Taking an instance lock.
    Locking,
    /// Reading a stored record.
    Loading,
    /// Writing a stored record.
    Storing,
    /// Removing a record, an instance, or a lock file.
    Deleting,
    /// Enumerating instances.
    Listing,
}

/// The filesystem resource an operation was working on.
#[derive(Debug)]
pub enum Resource {
    /// A directory.
    Directory {
        /// The directory's path.
        dir: String,
    },
    /// A file within a directory.
    File {
        /// The path of the directory the file lives in.
        container: String,
        /// The file's path relative to `container`.
        file: String,
    },
    /// The state of one instance as a whole.
    InstanceState {
        /// The root state directory.
        state_dir: String,
        /// The instance's kind.
        kind: String,
        /// The instance's identity.
        identity: String,
    },
}

/// The underlying cause of an [`Error`].
#[derive(Debug)]
pub enum ErrorSource {
    /// The instance is locked by some other holder; an expected, recoverable
    /// condition, not a defect.
    AlreadyLocked,
    /// A kind, identity, or record name was not a valid slug.
    BadSlug(BadSlug),
    /// The caller misused the interface; carries a description.
    BadApiUsage(String),
    /// A path failed the permission policy; carries a description.
    Permission(String),
    /// Some other I/O failure; carries a description.
    Io(String),
}

/// A coarse classification of errors, for callers that decide whether to
/// retry, wait, or abort.
#[derive(Clone, Copy, Debug, PartialEq, Eq, Structural)]
pub enum ErrorKind {
    /// Another holder has the instance locked right now.
    LocalResourceAlreadyInUse,
    /// The caller misused the interface.
    BadApiUsage,
    /// A name offered as a slug was rejected.
    BadSlug,
    /// A path failed the permission policy.
    FsPermission,
    /// Some other I/O failure.
    Io,
}

/// The kind that classifies a given [`ErrorSource`].
pub open spec fn kind_of_source(source: ErrorSource) -> ErrorKind {
    match source {
        ErrorSource::AlreadyLocked => ErrorKind::LocalResourceAlreadyInUse,
        ErrorSource::BadSlug(_) => ErrorKind::BadSlug,
        ErrorSource::BadApiUsage(_) => ErrorKind::BadApiUsage,
        ErrorSource::Permission(_) => ErrorKind::FsPermission,
        ErrorSource::Io(_) => ErrorKind::Io,
    }
}

/// An error from a state-directory operation: a cause, the action being
/// performed, and the resource it was performed on.
#[derive(Debug)]
pub struct Error {
    /// The underlying cause.
    source: ErrorSource,
    /// What was being done.
    action: Action,
    /// What it was being done to.
    resource: Resource,
}

impl Error {
    /// The underlying cause.
    pub closed spec fn spec_source(&self) -> ErrorSource {
        self.source
    }

    /// What was being done.
    pub closed spec fn spec_action(&self) -> Action {
        self.action
    }

    /// What it was being done to.
    pub closed spec fn spec_resource(&self) -> Resource {
        self.resource
    }

    /// Bundle a cause with its context.
    pub fn new(source: ErrorSource, action: Action, resource: Resource) -> (r: Error)
        ensures
            r.spec_source() == source,
            r.spec_action() == action,
            r.spec_resource() == resource,
    {
        Error { source, action, resource }
    }

    /// The underlying cause.
    pub fn source(&self) -> (r: &ErrorSource)
        ensures
            *r == self.spec_source(),
    {
        &self.source
    }

    /// What was being done.
    pub fn action(&self) -> (r: Action)
        ensures
            r == self.spec_action(),
    {
        self.action
    }

    /// What it was being done to.
    pub fn resource(&self) -> (r: &Resource)
        ensures
            *r == self.spec_resource(),
    {
        &self.resource
    }

    /// Classify this error, keeping expected lock contention apart from
    /// caller defects and real I/O failures.
    pub fn kind(&self) -> (r: ErrorKind)
        ensures
            r == kind_of_source(self.spec_source()),
    {
        match &self.source {
            ErrorSource::AlreadyLocked => ErrorKind::LocalResourceAlreadyInUse,
            ErrorSource::BadSlug(_) => ErrorKind::BadSlug,
            ErrorSource::BadApiUsage(_) => ErrorKind::BadApiUsage,
            ErrorSource::Permission(_) => ErrorKind::FsPermission,
            ErrorSource::Io(_) => ErrorKind::Io,
        }
    }
}

} // verus!
