//! The state directory: exclusively-locked per-instance storage.
//!
//! A [`StateDirectory`] is the process-wide root under which every facility
//! keeps its persistent state.  Each logical instance of a facility — named
//! by a `(kind, identity)` pair of slugs — owns the directory
//! `ROOT/<kind>/<identity>/`, guarded by the advisory lock file
//! `ROOT/<kind>/<identity>.lock`.  Acquiring an instance takes that lock
//! without blocking: if some other holder (in this or another process) has
//! it, acquisition fails with an `AlreadyLocked` error, which is an expected
//! and recoverable condition.  The lock is released when the last handle
//! copy is dropped, and automatically when the process exits by any means,
//! so a crashed holder can never strand an instance forever.
//!
//! While the lock is held, an [`InstanceStateHandle`] hands out
//! [`StorageHandle`]s (atomic single-record storage) and
//! [`InstanceRawSubdir`]s (permission-checked directories for unmanaged
//! files), and supports irreversible deletion of the whole instance
//! ([`InstanceStateHandle::purge`]).  Instances that are no longer wanted
//! are found and deleted through
//! [`purge_instances`](StateDirectory::purge_instances).

use std::sync::Arc;

use vstd::prelude::*;

use fs_mistrust::CheckedDir;
use fs_mistrust::Mistrust;
use fslock_guard::LockFileGuard;

use crate::err::{Action, Error, ErrorSource, Resource};
use crate::fsio;
use crate::fsio::FsError;
use crate::slug::{is_valid_slug, Slug};

verus! {

/// The relative path of an instance's directory below the root:
/// `<kind>/<identity>`.
pub open spec fn instance_rel_path(kind: Seq<char>, identity: Seq<char>) -> Seq<char> {
    kind + "/"@ + identity
}

/// The leaf name of an instance's lock file: `<identity>.lock`.
pub open spec fn lock_leafname(identity: Seq<char>) -> Seq<char> {
    identity + ".lock"@
}

/// The leaf name of a record file: `<slug>.json`.
pub open spec fn record_leafname(slug: Seq<char>) -> Seq<char> {
    slug + ".json"@
}

/// Distinct record slugs name distinct record files: callers who keep their
/// slugs distinct, as required, get storage handles that never share a
/// file.
pub proof fn lemma_distinct_slugs_distinct_records(a: Seq<char>, b: Seq<char>)
    requires
        a != b,
    ensures
        record_leafname(a) != record_leafname(b),
{
    if record_leafname(a) == record_leafname(b) {
        assert((a + ".json"@).len() == a.len() + ".json"@.len());
        assert((b + ".json"@).len() == b.len() + ".json"@.len());
        assert(a.len() == b.len());
        assert forall|i: int| 0 <= i < a.len() implies a[i] == b[i] by {
            assert((a + ".json"@)[i] == (b + ".json"@)[i]);
        }
        assert(a =~= b);
    }
}

/// A lock file's leaf name is never a valid slug, so inside a kind
/// directory the lock files can never collide with the instance
/// directories, whose names are slugs.
pub proof fn lemma_lock_file_never_an_instance_name(identity: Seq<char>, other: Seq<char>)
    requires
        crate::slug::is_valid_slug(other),
    ensures
        lock_leafname(identity) != other,
{
    reveal_strlit(".lock");
    if lock_leafname(identity) == other {
        let n = identity.len() as int;
        assert(other[n] == '.');
        assert(crate::slug::is_slug_char(other[n]));
        assert(false);
    }
}

/// An instance's lock file lies *beside* its directory, never inside it:
/// the relative path `<kind>/<identity>.lock` does not begin with
/// `<kind>/<identity>/`.  The instance directory can therefore be deleted
/// while the lock file is independently held and removed, without the two
/// racing each other.
pub proof fn lemma_lock_file_outside_instance_dir(kind: Seq<char>, identity: Seq<char>)
    ensures
        !(instance_rel_path(kind, identity) + "/"@).is_prefix_of(
            kind + "/"@ + lock_leafname(identity),
        ),
{
    reveal_strlit("/");
    reveal_strlit(".lock");
    let dir = instance_rel_path(kind, identity) + "/"@;
    let lock = kind + "/"@ + lock_leafname(identity);
    let n = instance_rel_path(kind, identity).len() as int;
    // Just past the shared `<kind>/<identity>` prefix, the directory path
    // has a separator while the lock path has the dot of `.lock`.
    assert(dir[n] == '/');
    assert(lock[n] == lock_leafname(identity)[identity.len() as int]);
    assert(lock[n] == '.');
    if dir.is_prefix_of(lock) {
        assert(dir[n] == lock.subrange(0, dir.len() as int)[n]);
        assert(false);
    }
}

/// Join two path fragments with `/`.
fn join_path(a: &str, b: &str) -> (r: String)
    ensures
        r@ == a@ + "/"@ + b@,
{
    let mut s = String::from_str(a);
    s.append("/");
    s.append(b);
    s
}

/// Append `.lock` to an identity.
fn make_lock_leafname(identity: &str) -> (r: String)
    ensures
        r@ == lock_leafname(identity@),
{
    let mut s = String::from_str(identity);
    s.append(".lock");
    s
}

/// Append `.json` to a record slug.
fn make_record_leafname(slug: &str) -> (r: String)
    ensures
        r@ == record_leafname(slug@),
{
    let mut s = String::from_str(slug);
    s.append(".json");
    s
}

/// Turn a boundary failure into an [`ErrorSource`], preserving the
/// distinction between permission failures and other I/O failures.
fn fs_to_source(e: FsError) -> (r: ErrorSource)
    ensures
        e matches FsError::Permission(m) ==> r == ErrorSource::Permission(m),
        e matches FsError::Io(m) ==> r == ErrorSource::Io(m),
        e is NotFound ==> r is Io,
        r is Permission <==> e is Permission,
        r is Io <==> !(e is Permission),
{
    match e {
        FsError::NotFound => ErrorSource::Io(String::from_str("not found")),
        FsError::Permission(m) => ErrorSource::Permission(m),
        FsError::Io(m) => ErrorSource::Io(m),
    }
}

/// An instance of a facility that wants to save persistent state
/// (caller-provided implementation).
///
/// Each value of a type implementing `InstanceIdentity` designates one
/// instance of one facility: `kind` names the facility type and is fixed for
/// the implementing type, while `write_identity` renders the per-instance
/// identity (for example a service nickname).  Both strings must be valid
/// slugs (see [`crate::slug`]); operations fail with a `BadSlug` error
/// otherwise.
pub trait InstanceIdentity {
    /// The fixed kind of this facility type.
    fn kind() -> &'static str;

    /// Render this instance's identity string.
    fn write_identity(&self) -> String;
}

/// Is an instance still relevant?
///
/// Returned by [`InstancePurgeHandler::name_filter`].  This is a boolean
/// with descriptive naming, not an extensible status.
#[derive(Clone, Copy, Debug, Eq, PartialEq, Ord, PartialOrd, Hash, Structural)]
pub enum Liveness {
    /// This instance is not known to be interesting; it may be expired if it
    /// has been unused for long enough.
    PossiblyUnused,
    /// This instance is still wanted, whatever its age.
    Live,
}

/// The whole program's state directory.
///
/// Constructed once per process; existence of a `StateDirectory` does not by
/// itself imply exclusive access to anything.  It is the factory for
/// acquiring per-instance handles and for listing and expiring instances.
#[derive(Debug)]
pub struct StateDirectory {
    /// The checked root directory.
    dir: CheckedDir,
    /// The root directory's path, as configured.
    path: String,
}

/// State directory for one instance of a facility, while its lock is held.
///
/// There is at most one lease per `(kind, identity)` pair at a time, across
/// all processes; all copies of this handle (and every [`StorageHandle`] and
/// [`InstanceRawSubdir`] obtained from it) share that one lease, which is
/// released when the last of them is dropped.
///
/// Each slug passed to [`storage_handle`](InstanceStateHandle::storage_handle)
/// or [`raw_subdir`](InstanceStateHandle::raw_subdir) on handles for the same
/// instance must be distinct: the subsystem does not detect collisions, and
/// two live accessors for the same slug risk data races at the file level.
#[derive(Debug)]
pub struct InstanceStateHandle {
    /// The checked instance directory `ROOT/<kind>/<identity>`.
    dir: CheckedDir,
    /// The shared lease on the instance's lock file.
    flock_guard: Arc<LockFileGuard>,
    /// The root state directory's path.
    root_path: String,
    /// The instance's kind.
    kind: Slug,
    /// The instance's identity.
    identity: Slug,
}

impl StateDirectory {
    /// The configured root path.
    pub closed spec fn spec_path(&self) -> Seq<char> {
        self.path@
    }

    /// Create a `StateDirectory` from a root path and a permission policy.
    ///
    /// Verifies (and if needed creates) the root directory under the
    /// supplied policy; fails with a `Permission` error if the directory or
    /// an ancestor is unsafe, and with an `Io` error if it cannot be
    /// created.
    pub fn new(state_dir: &str, mistrust: &Mistrust) -> (r: Result<StateDirectory, Error>)
        ensures
            r matches Ok(sd) ==> sd.spec_path() == state_dir@,
            r matches Err(e) ==> e.spec_action() == Action::Initializing && (e.spec_resource()
                matches Resource::Directory { dir } && dir@ == state_dir@) && (e.spec_source()
                is Permission || e.spec_source() is Io),
    {
        match fsio::make_secure_dir(mistrust, state_dir) {
            Ok(dir) => Ok(StateDirectory { dir, path: String::from_str(state_dir) }),
            Err(e) => Err(
                Error::new(
                    fs_to_source(e),
                    Action::Initializing,
                    Resource::Directory { dir: String::from_str(state_dir) },
                ),
            ),
        }
    }

    /// Validate a kind string and an identity string as slugs.
    ///
    /// Succeeds exactly when both are valid; a rejection carries a `BadSlug`
    /// cause and names the instance's state as the resource.
    fn instance_path_pieces(&self, kind_str: &str, id_str: &str) -> (r: Result<(Slug, Slug), Error>)
        ensures
            r is Ok <==> is_valid_slug(kind_str@) && is_valid_slug(id_str@),
            r matches Ok((k, i)) ==> k@ == kind_str@ && i@ == id_str@,
            r matches Err(e) ==> e.spec_source() is BadSlug && e.spec_action()
                == Action::Initializing && (e.spec_resource() matches Resource::InstanceState {
                state_dir,
                kind,
                identity,
            } && state_dir@ == self.spec_path() && kind@ == kind_str@ && identity@ == id_str@),
    {
        match Slug::new(kind_str) {
            Ok(kind) => match Slug::new(id_str) {
                Ok(identity) => Ok((kind, identity)),
                Err(bad) => Err(
                    Error::new(
                        ErrorSource::BadSlug(bad),
                        Action::Initializing,
                        Resource::InstanceState {
                            state_dir: String::from_str(self.path.as_str()),
                            kind: String::from_str(kind_str),
                            identity: String::from_str(id_str),
                        },
                    ),
                ),
            },
            Err(bad) => Err(
                Error::new(
                    ErrorSource::BadSlug(bad),
                    Action::Initializing,
                    Resource::InstanceState {
                        state_dir: String::from_str(self.path.as_str()),
                        kind: String::from_str(kind_str),
                        identity: String::from_str(id_str),
                    },
                ),
            ),
        }
    }

    /// Acquire (create and lock) the storage for the instance named by the
    /// two given strings.
    ///
    /// Validates both strings as slugs, ensures the `kind` subdirectory
    /// exists, takes a non-blocking exclusive lock on
    /// `<kind>/<identity>.lock`, then ensures the `<kind>/<identity>`
    /// instance directory exists.  A lock already held elsewhere yields an
    /// `AlreadyLocked` error — an expected, recoverable condition, reported
    /// under [`Action::Locking`] and distinguishable from real I/O failures.
    pub fn acquire_instance_for(&self, kind_str: &str, id_str: &str) -> (r: Result<
        InstanceStateHandle,
        Error,
    >)
        ensures
            r matches Ok(h) ==> h.spec_kind() == kind_str@ && h.spec_identity() == id_str@
                && h.spec_root() == self.spec_path() && is_valid_slug(kind_str@) && is_valid_slug(
                id_str@,
            ),
            !(is_valid_slug(kind_str@) && is_valid_slug(id_str@)) ==> (r matches Err(e)
                && e.spec_source() is BadSlug && e.spec_action() == Action::Initializing),
            r matches Err(e) ==> (e.spec_source() is BadSlug ==> !(is_valid_slug(kind_str@)
                && is_valid_slug(id_str@))),
            r matches Err(e) ==> (e.spec_source() is AlreadyLocked ==> e.spec_action()
                == Action::Locking),
            r matches Err(e) ==> e.spec_action() == Action::Initializing || e.spec_action()
                == Action::Locking,
    {
        let (kind, identity) = match self.instance_path_pieces(kind_str, id_str) {
            Ok(p) => p,
            Err(e) => {
                return Err(e);
            },
        };
        // Ensure the kind subdirectory exists (idempotent, permission-checked).
        let kind_dir = match fsio::make_secure_subdir(&self.dir, kind.as_str()) {
            Ok(d) => d,
            Err(e) => {
                return Err(
                    Error::new(
                        fs_to_source(e),
                        Action::Initializing,
                        Resource::Directory { dir: join_path(self.path.as_str(), kind.as_str()) },
                    ),
                );
            },
        };
        // Take the lock, without blocking.  The lock file lives outside the
        // instance directory, so purging the directory cannot race a
        // concurrent lock attempt.
        let lock_leaf = make_lock_leafname(identity.as_str());
        let lock_path = join_path(
            join_path(self.path.as_str(), kind.as_str()).as_str(),
            lock_leaf.as_str(),
        );
        let guard = match fsio::try_lock_file(lock_path.as_str()) {
            Ok(Some(g)) => g,
            Ok(None) => {
                return Err(
                    Error::new(
                        ErrorSource::AlreadyLocked,
                        Action::Locking,
                        Resource::InstanceState {
                            state_dir: String::from_str(self.path.as_str()),
                            kind: String::from_str(kind_str),
                            identity: String::from_str(id_str),
                        },
                    ),
                );
            },
            Err(e) => {
                return Err(
                    Error::new(
                        fs_to_source(e),
                        Action::Locking,
                        Resource::File { container: self.duplicate_path(), file: lock_leaf },
                    ),
                );
            },
        };
        // With the lock held, ensure the instance directory exists.
        let dir = match fsio::make_secure_subdir(&kind_dir, identity.as_str()) {
            Ok(d) => d,
            Err(e) => {
                return Err(
                    Error::new(
                        fs_to_source(e),
                        Action::Initializing,
                        Resource::Directory {
                            dir: join_path(
                                join_path(self.path.as_str(), kind.as_str()).as_str(),
                                identity.as_str(),
                            ),
                        },
                    ),
                );
            },
        };
        Ok(
            InstanceStateHandle {
                dir,
                flock_guard: Arc::new(guard),
                root_path: self.duplicate_path(),
                kind,
                identity,
            },
        )
    }

    /// A copy of the root path.
    fn duplicate_path(&self) -> (r: String)
        ensures
            r@ == self.spec_path(),
    {
        String::from_str(self.path.as_str())
    }

    /// Peek at the record `slug_str` of the instance named by `kind_str` and
    /// `id_str`, without taking the instance lease.
    ///
    /// Returns the bytes of some completed store, or `None` if no store ever
    /// succeeded, the record was deleted, or the instance does not exist.
    /// The view is all-or-nothing — a half-written record is never observed —
    /// but there is no ordering guarantee relative to concurrent writers
    /// beyond that.
    pub fn instance_peek_storage_for(&self, kind_str: &str, id_str: &str, slug_str: &str) -> (r:
        Result<Option<Vec<u8>>, Error>)
        ensures
            !(is_valid_slug(kind_str@) && is_valid_slug(id_str@) && is_valid_slug(slug_str@)) ==> (
            r matches Err(e) && e.spec_source() is BadSlug),
            r matches Err(e) ==> (e.spec_source() is BadSlug ==> !(is_valid_slug(kind_str@)
                && is_valid_slug(id_str@) && is_valid_slug(slug_str@))),
            r matches Err(e) ==> e.spec_action() == Action::Initializing || e.spec_action()
                == Action::Loading,
    {
        let (kind, identity) = match self.instance_path_pieces(kind_str, id_str) {
            Ok(p) => p,
            Err(e) => {
                return Err(e);
            },
        };
        match crate::slug::check_slug(slug_str) {
            Ok(()) => {},
            Err(bad) => {
                return Err(
                    Error::new(
                        ErrorSource::BadSlug(bad),
                        Action::Loading,
                        Resource::InstanceState {
                            state_dir: self.duplicate_path(),
                            kind: String::from_str(kind_str),
                            identity: String::from_str(id_str),
                        },
                    ),
                );
            },
        }
        let rel = join_path(
            join_path(kind.as_str(), identity.as_str()).as_str(),
            make_record_leafname(slug_str).as_str(),
        );
        match fsio::read_file(&self.dir, rel.as_str()) {
            Ok(o) => Ok(o),
            Err(e) => Err(
                Error::new(fs_to_source(e), Action::Loading, Resource::File {
                    container: self.duplicate_path(),
                    file: rel,
                }),
            ),
        }
    }

    /// Peek at the record `slug` of the instance designated by `identity`,
    /// without taking the instance lease.  See
    /// [`instance_peek_storage_for`](Self::instance_peek_storage_for).
    pub fn instance_peek_storage<I: InstanceIdentity>(&self, identity: &I, slug: &str) -> (r:
        Result<Option<Vec<u8>>, Error>)
        ensures
            r matches Err(e) ==> e.spec_action() == Action::Initializing || e.spec_action()
                == Action::Loading,
    {
        let id_string = identity.write_identity();
        self.instance_peek_storage_for(I::kind(), id_string.as_str(), slug)
    }

    /// List the instances of the kind named by `kind_str`: the identities of
    /// the subdirectories of `<root>/<kind>` whose names are valid slugs.
    ///
    /// A kind directory that does not exist yet yields an empty list.  In
    /// the presence of concurrent acquisition and purging of *different*
    /// instances this is not a snapshot, but the presence or absence of any
    /// single instance is accurate at the moment it is observed.
    pub fn list_instances_for(&self, kind_str: &str) -> (r: Result<Vec<Slug>, Error>)
        ensures
            r is Ok ==> is_valid_slug(kind_str@),
            !is_valid_slug(kind_str@) ==> (r matches Err(e) && e.spec_source() is BadSlug),
            r matches Err(e) ==> (e.spec_source() is BadSlug ==> !is_valid_slug(kind_str@)),
            r matches Ok(v) ==> forall|i: int| 0 <= i < v.len() ==> is_valid_slug(#[trigger] v[i]@),
            r matches Err(e) ==> e.spec_action() == Action::Listing,
    {
        match crate::slug::check_slug(kind_str) {
            Ok(()) => {},
            Err(bad) => {
                return Err(
                    Error::new(
                        ErrorSource::BadSlug(bad),
                        Action::Listing,
                        Resource::Directory { dir: join_path(self.path.as_str(), kind_str) },
                    ),
                );
            },
        }
        let kind_exists = match fsio::entry_is_dir(&self.dir, kind_str) {
            Ok(b) => b,
            Err(e) => {
                return Err(
                    Error::new(fs_to_source(e), Action::Listing, Resource::Directory {
                        dir: join_path(self.path.as_str(), kind_str),
                    }),
                );
            },
        };
        if !kind_exists {
            return Ok(Vec::new());
        }
        let kind_dir = match fsio::make_secure_subdir(&self.dir, kind_str) {
            Ok(d) => d,
            Err(e) => {
                return Err(
                    Error::new(fs_to_source(e), Action::Listing, Resource::Directory {
                        dir: join_path(self.path.as_str(), kind_str),
                    }),
                );
            },
        };
        let names = match fsio::list_entry_names(&kind_dir) {
            Ok(v) => v,
            Err(e) => {
                return Err(
                    Error::new(fs_to_source(e), Action::Listing, Resource::Directory {
                        dir: join_path(self.path.as_str(), kind_str),
                    }),
                );
            },
        };
        let mut out: Vec<Slug> = Vec::new();
        let mut i: usize = 0;
        while i < names.len()
            invariant
                is_valid_slug(kind_str@),
                forall|j: int| 0 <= j < out.len() ==> is_valid_slug(#[trigger] out[j]@),
            decreases names.len() - i,
        {
            // Lock files (`<identity>.lock`) carry a `.`, which no slug may
            // hold, so only real instance directories survive this filter.
            match Slug::new((&names[i]).as_str()) {
                Ok(sl) => {
                    let is_dir = match fsio::entry_is_dir(&kind_dir, (&names[i]).as_str()) {
                        Ok(b) => b,
                        Err(e) => {
                            return Err(
                                Error::new(fs_to_source(e), Action::Listing, Resource::Directory {
                                    dir: join_path(self.path.as_str(), kind_str),
                                }),
                            );
                        },
                    };
                    if is_dir {
                        out.push(sl);
                    }
                },
                Err(_) => {},
            }
            i += 1;
        }
        Ok(out)
    }

    /// List the instances of `I`'s kind.  See
    /// [`list_instances_for`](Self::list_instances_for).
    pub fn list_instances<I: InstanceIdentity>(&self) -> (r: Result<Vec<Slug>, Error>)
        ensures
            r matches Ok(v) ==> forall|i: int| 0 <= i < v.len() ==> is_valid_slug(#[trigger] v[i]@),
            r matches Err(e) ==> e.spec_action() == Action::Listing,
    {
        self.list_instances_for(I::kind())
    }

    /// Delete expired instances of `I`'s kind, as selected by `filter`.
    ///
    /// Every listed instance goes through three stages.  First its name is
    /// passed to [`name_filter`](InstancePurgeHandler::name_filter): a
    /// [`Live`](Liveness::Live) instance is retained, whatever its age.
    /// Second, its lease is taken without blocking — an instance locked by
    /// some other holder is in use and is skipped, not reported as an error
    /// — and, under the lease, its last-modified time is compared against
    /// [`retain_unused_for`](InstancePurgeHandler::retain_unused_for): an
    /// instance modified more recently is retained and its lease released.
    /// (Taking the lease touches only the lock file, which lives outside
    /// the instance directory, so the comparison is undisturbed by the
    /// taking.)  Third, the surviving instance is offered to
    /// [`dispose`](InstancePurgeHandler::dispose) with its handle, which
    /// may purge it or simply drop the handle, keeping the data.
    ///
    /// Which instances may reach `dispose` is fixed by
    /// [`should_offer_for_disposal`]: see the lemmas beside it.
    pub fn purge_instances<I: InstancePurgeHandler>(&self, filter: &mut I) -> Result<(), Error> {
        let kind_str = I::kind();
        let names = match self.list_instances_for(kind_str) {
            Ok(v) => v,
            Err(e) => {
                return Err(e);
            },
        };
        let kind_slug = match Slug::new(kind_str) {
            Ok(k) => k,
            Err(_) => unreached(),
        };
        let mut i: usize = 0;
        while i < names.len()
            decreases names.len() - i,
        {
            let liveness = match filter.name_filter(&names[i]) {
                Ok(l) => l,
                Err(e) => {
                    return Err(e);
                },
            };
            match liveness {
                Liveness::Live => {},
                Liveness::PossiblyUnused => {
                    match self.consider_expiry(&kind_slug, &names[i], filter) {
                        Ok(()) => {},
                        Err(e) => {
                            return Err(e);
                        },
                    }
                },
            }
            i += 1;
        }
        Ok(())
    }

    /// The second and third stages of the purge scan, for one instance whose
    /// name filter already answered [`Liveness::PossiblyUnused`]: take the
    /// lease (skipping quietly if some other holder has it), retain the
    /// instance if it was modified recently, and otherwise offer it to
    /// `dispose`.
    fn consider_expiry<I: InstancePurgeHandler>(
        &self,
        kind: &Slug,
        name: &Slug,
        filter: &mut I,
    ) -> (r: Result<(), Error>) {
        let kind_path = join_path(self.path.as_str(), kind.as_str());
        let lock_leaf = make_lock_leafname(name.as_str());
        let lock_path = join_path(kind_path.as_str(), lock_leaf.as_str());
        let guard = match fsio::try_lock_file(lock_path.as_str()) {
            Ok(Some(g)) => g,
            Ok(None) => {
                // In use by some other holder: retained, and no error.
                return Ok(());
            },
            Err(e) => {
                return Err(
                    Error::new(fs_to_source(e), Action::Locking, Resource::File {
                        container: kind_path,
                        file: lock_leaf,
                    }),
                );
            },
        };
        let rel = join_path(kind.as_str(), name.as_str());
        let last_modified = match fsio::modified_seconds(&self.dir, rel.as_str()) {
            Ok(Some(m)) => m,
            Ok(None) => {
                // Vanished meanwhile; dropping the guard releases the lease.
                return Ok(());
            },
            Err(e) => {
                return Err(
                    Error::new(fs_to_source(e), Action::Listing, Resource::Directory {
                        dir: join_path(self.path.as_str(), rel.as_str()),
                    }),
                );
            },
        };
        let retain_for = match filter.retain_unused_for(name) {
            Ok(d) => d,
            Err(e) => {
                return Err(e);
            },
        };
        let now = fsio::now_seconds();
        if !is_expired(now, last_modified, retain_for) {
            // Modified too recently; dropping the guard releases the lease.
            return Ok(());
        }
        proof {
            assert(should_offer_for_disposal(
                Liveness::PossiblyUnused,
                true,
                now,
                last_modified,
                retain_for,
            ));
        }
        let kind_dir = match fsio::make_secure_subdir(&self.dir, kind.as_str()) {
            Ok(d) => d,
            Err(e) => {
                return Err(
                    Error::new(fs_to_source(e), Action::Initializing, Resource::Directory {
                        dir: kind_path,
                    }),
                );
            },
        };
        let dir = match fsio::make_secure_subdir(&kind_dir, name.as_str()) {
            Ok(d) => d,
            Err(e) => {
                return Err(
                    Error::new(fs_to_source(e), Action::Initializing, Resource::Directory {
                        dir: join_path(self.path.as_str(), rel.as_str()),
                    }),
                );
            },
        };
        let handle = InstanceStateHandle {
            dir,
            flock_guard: Arc::new(guard),
            root_path: self.duplicate_path(),
            kind: kind.duplicate(),
            identity: name.duplicate(),
        };
        let info = InstancePurgeInfo::new(name.duplicate(), last_modified);
        filter.dispose(&info, handle)
    }

    /// Acquire (create and lock) the storage for the instance designated by
    /// `identity`.  See [`acquire_instance_for`](Self::acquire_instance_for),
    /// which this calls with the rendered kind and identity strings.
    pub fn acquire_instance<I: InstanceIdentity>(&self, identity: &I) -> (r: Result<
        InstanceStateHandle,
        Error,
    >)
        ensures
            r matches Ok(h) ==> h.spec_root() == self.spec_path() && is_valid_slug(h.spec_kind())
                && is_valid_slug(h.spec_identity()),
            r matches Err(e) ==> (e.spec_source() is AlreadyLocked ==> e.spec_action()
                == Action::Locking),
    {
        let id_string = identity.write_identity();
        self.acquire_instance_for(I::kind(), id_string.as_str())
    }
}

impl InstanceStateHandle {
    /// The instance's kind.
    pub closed spec fn spec_kind(&self) -> Seq<char> {
        self.kind@
    }

    /// The instance's identity.
    pub closed spec fn spec_identity(&self) -> Seq<char> {
        self.identity@
    }

    /// The root state directory's path.
    pub closed spec fn spec_root(&self) -> Seq<char> {
        self.root_path@
    }

    /// The instance directory's path:
    /// `<root>/<kind>/<identity>`.
    pub open spec fn spec_dir_path(&self) -> Seq<char> {
        self.spec_root() + "/"@ + instance_rel_path(self.spec_kind(), self.spec_identity())
    }

    /// The instance's kind.
    pub fn kind(&self) -> (r: &Slug)
        ensures
            r@ == self.spec_kind(),
    {
        &self.kind
    }

    /// The instance's identity.
    pub fn identity(&self) -> (r: &Slug)
        ensures
            r@ == self.spec_identity(),
    {
        &self.identity
    }

    /// The instance directory's path.
    fn dir_path_string(&self) -> (r: String)
        ensures
            r@ == self.spec_dir_path(),
    {
        let rel = join_path(self.kind.as_str(), self.identity.as_str());
        let r = join_path(self.root_path.as_str(), rel.as_str());
        proof {
            assert(r@ =~= self.spec_dir_path());
        }
        r
    }

    /// Another copy of this handle.  Both copies refer to the same lease;
    /// the lease is released only when the last copy (including every
    /// storage handle and raw subdirectory) is gone.
    pub fn duplicate(&self) -> (r: InstanceStateHandle)
        ensures
            r.spec_kind() == self.spec_kind(),
            r.spec_identity() == self.spec_identity(),
            r.spec_root() == self.spec_root(),
    {
        InstanceStateHandle {
            dir: fsio::checked_dir_clone(&self.dir),
            flock_guard: fsio::arc_share(&self.flock_guard),
            root_path: String::from_str(self.root_path.as_str()),
            kind: self.kind.duplicate(),
            identity: self.identity.duplicate(),
        }
    }

    /// Obtain a [`StorageHandle`] for the record named `slug_str`, usable
    /// for loading and storing one value.
    ///
    /// Succeeds exactly when `slug_str` is a valid slug.  The caller must
    /// use distinct slugs for each live storage handle or raw subdirectory
    /// of the same instance.
    pub fn storage_handle(&self, slug_str: &str) -> (r: Result<StorageHandle, Error>)
        ensures
            r is Ok <==> is_valid_slug(slug_str@),
            r matches Ok(h) ==> h.spec_leafname() == record_leafname(slug_str@)
                && h.spec_instance_path() == self.spec_dir_path(),
            r matches Err(e) ==> e.spec_source() is BadSlug && e.spec_action()
                == Action::Initializing,
    {
        match crate::slug::check_slug(slug_str) {
            Ok(()) => Ok(
                StorageHandle {
                    instance_dir: fsio::checked_dir_clone(&self.dir),
                    instance_path: self.dir_path_string(),
                    leafname: make_record_leafname(slug_str),
                    flock_guard: fsio::arc_share(&self.flock_guard),
                },
            ),
            Err(bad) => Err(
                Error::new(
                    ErrorSource::BadSlug(bad),
                    Action::Initializing,
                    Resource::File {
                        container: self.dir_path_string(),
                        file: String::from_str(slug_str),
                    },
                ),
            ),
        }
    }

    /// Obtain a raw subdirectory of the instance directory, for files the
    /// caller manages itself (for example, append-only logs).
    ///
    /// Creates the subdirectory (permission-checked) if needed.  The
    /// returned value carries a copy of the lease, so the instance stays
    /// locked while it exists.
    pub fn raw_subdir(&self, slug_str: &str) -> (r: Result<InstanceRawSubdir, Error>)
        ensures
            !is_valid_slug(slug_str@) ==> (r matches Err(e) && e.spec_source() is BadSlug),
            r matches Ok(s) ==> is_valid_slug(slug_str@) && s.spec_path() == self.spec_dir_path()
                + "/"@ + slug_str@,
            r matches Err(e) ==> e.spec_action() == Action::Initializing,
            r matches Err(e) ==> (e.spec_source() is BadSlug ==> !is_valid_slug(slug_str@)),
    {
        match crate::slug::check_slug(slug_str) {
            Ok(()) => {},
            Err(bad) => {
                return Err(
                    Error::new(
                        ErrorSource::BadSlug(bad),
                        Action::Initializing,
                        Resource::Directory { dir: self.dir_path_string() },
                    ),
                );
            },
        }
        let path = join_path(self.dir_path_string().as_str(), slug_str);
        match fsio::make_secure_subdir(&self.dir, slug_str) {
            Ok(dir) => Ok(
                InstanceRawSubdir { dir, path, flock_guard: fsio::arc_share(&self.flock_guard) },
            ),
            Err(e) => Err(
                Error::new(fs_to_source(e), Action::Initializing, Resource::Directory {
                    dir: path,
                }),
            ),
        }
    }

    /// Unconditionally delete this instance: its directory first, then its
    /// lock file.
    ///
    /// Fails with a `BadApiUsage` error, touching nothing, if any other
    /// copy of the lease is still alive (another handle copy, a storage
    /// handle, or a raw subdirectory): purging under a live co-holder would
    /// be unsafe.
    ///
    /// The directory is removed before the lock file.  If the process
    /// crashes between the two deletions, what remains is a lock file
    /// without its instance directory; a later acquisition of the same
    /// identity locks that file afresh and re-creates an empty directory,
    /// losing no correctness.
    pub fn purge(self) -> (r: Result<(), Error>)
        ensures
            r matches Err(e) ==> e.spec_action() == Action::Deleting,
    {
        let InstanceStateHandle { dir: _, flock_guard, root_path, kind, identity } = self;
        let rel = join_path(kind.as_str(), identity.as_str());
        let dir_path = join_path(root_path.as_str(), rel.as_str());
        let kind_path = join_path(root_path.as_str(), kind.as_str());
        let lock_leaf = make_lock_leafname(identity.as_str());
        let lock_path = join_path(kind_path.as_str(), lock_leaf.as_str());
        let guard = match fsio::arc_into_sole(flock_guard) {
            Some(g) => g,
            None => {
                return Err(
                    Error::new(
                        ErrorSource::BadApiUsage(
                            String::from_str("other copies of this instance handle still exist"),
                        ),
                        Action::Deleting,
                        Resource::Directory { dir: dir_path },
                    ),
                );
            },
        };
        match fsio::remove_tree(dir_path.as_str()) {
            Ok(()) => {},
            Err(e) => {
                return Err(
                    Error::new(fs_to_source(e), Action::Deleting, Resource::Directory {
                        dir: dir_path,
                    }),
                );
            },
        }
        match fsio::delete_lock_file(guard, lock_path.as_str()) {
            Ok(()) => Ok(()),
            Err(e) => Err(
                Error::new(fs_to_source(e), Action::Deleting, Resource::File {
                    container: kind_path,
                    file: lock_leaf,
                }),
            ),
        }
    }
}

/// A place in one instance's directory where one serialized record can be
/// loaded, stored, and deleted, atomically.
///
/// The record is kept in the file `<slug>.json`; a store writes a temporary
/// file in the same directory and renames it into place, so no reader ever
/// observes a half-written record.  Storing and deleting take `&mut self`,
/// which serializes read-modify-write cycles within the process; exclusivity
/// across processes comes from the instance lease the handle shares.
pub struct StorageHandle {
    /// The checked instance directory.
    instance_dir: CheckedDir,
    /// The instance directory's path, for error reporting.
    instance_path: String,
    /// The record file's leaf name, `<slug>.json`.
    leafname: String,
    /// The shared lease on the instance's lock file.
    flock_guard: Arc<LockFileGuard>,
}

impl StorageHandle {
    /// The instance directory's path.
    pub closed spec fn spec_instance_path(&self) -> Seq<char> {
        self.instance_path@
    }

    /// The record file's leaf name.
    pub closed spec fn spec_leafname(&self) -> Seq<char> {
        self.leafname@
    }

    /// The resource named in this handle's errors.
    fn err_resource(&self) -> (r: Resource)
        ensures
            r matches Resource::File { container, file } && container@ == self.spec_instance_path()
                && file@ == self.spec_leafname(),
    {
        Resource::File {
            container: String::from_str(self.instance_path.as_str()),
            file: String::from_str(self.leafname.as_str()),
        }
    }

    /// Load the stored record: the bytes of the most recent successful
    /// [`store`](Self::store), or `None` if no store ever succeeded or the
    /// most recent operation was [`delete`](Self::delete).
    pub fn load(&self) -> (r: Result<Option<Vec<u8>>, Error>)
        ensures
            r matches Err(e) ==> e.spec_action() == Action::Loading && (e.spec_resource()
                matches Resource::File { container, file } && container@
                == self.spec_instance_path() && file@ == self.spec_leafname()),
    {
        match fsio::read_file(&self.instance_dir, self.leafname.as_str()) {
            Ok(o) => Ok(o),
            Err(e) => Err(Error::new(fs_to_source(e), Action::Loading, self.err_resource())),
        }
    }

    /// Store a record, replacing any previous one atomically.
    pub fn store(&mut self, data: &[u8]) -> (r: Result<(), Error>)
        ensures
            *final(self) == *old(self),
            r matches Err(e) ==> e.spec_action() == Action::Storing && (e.spec_resource()
                matches Resource::File { container, file } && container@ == old(
                self,
            ).spec_instance_path() && file@ == old(self).spec_leafname()),
    {
        match fsio::write_file_atomic(&self.instance_dir, self.leafname.as_str(), data) {
            Ok(()) => Ok(()),
            Err(e) => Err(Error::new(fs_to_source(e), Action::Storing, self.err_resource())),
        }
    }

    /// Delete the stored record, so that a subsequent load yields `None`.
    /// Deleting an already-absent record succeeds: deletion is idempotent.
    pub fn delete(&mut self) -> (r: Result<(), Error>)
        ensures
            *final(self) == *old(self),
            r matches Err(e) ==> e.spec_action() == Action::Deleting && (e.spec_resource()
                matches Resource::File { container, file } && container@ == old(
                self,
            ).spec_instance_path() && file@ == old(self).spec_leafname()),
    {
        match fsio::remove_file(&self.instance_dir, self.leafname.as_str()) {
            Ok(_removed) => Ok(()),
            Err(e) => Err(Error::new(fs_to_source(e), Action::Deleting, self.err_resource())),
        }
    }
}

/// A subdirectory within an instance's directory, for raw filesystem
/// operations managed by the caller.
///
/// Carries a copy of the instance lease purely to extend its lifetime: while
/// this value exists the instance stays locked.  It grants no locking beyond
/// that.
pub struct InstanceRawSubdir {
    /// The checked subdirectory.
    dir: CheckedDir,
    /// The subdirectory's path.
    path: String,
    /// The shared lease on the instance's lock file.
    flock_guard: Arc<LockFileGuard>,
}

impl InstanceRawSubdir {
    /// The subdirectory's path.
    pub closed spec fn spec_path(&self) -> Seq<char> {
        self.path@
    }

    /// The subdirectory's path.
    pub fn as_path(&self) -> (r: &str)
        ensures
            r@ == self.spec_path(),
    {
        self.path.as_str()
    }

    /// The permission-checked directory handle, for performing the caller's
    /// own file operations inside the subdirectory.
    pub fn checked_dir(&self) -> &CheckedDir {
        &self.dir
    }

    /// Another copy, sharing the same lease.
    pub fn duplicate(&self) -> (r: InstanceRawSubdir)
        ensures
            r.spec_path() == self.spec_path(),
    {
        InstanceRawSubdir {
            dir: fsio::checked_dir_clone(&self.dir),
            path: String::from_str(self.path.as_str()),
            flock_guard: fsio::arc_share(&self.flock_guard),
        }
    }
}

/// For a facility to have its unwanted instances expired through
/// [`purge_instances`](StateDirectory::purge_instances) (caller-provided
/// implementation): a filter that decides which instances to delete, and
/// deletes them if appropriate.
pub trait InstancePurgeHandler {
    /// The fixed kind whose instances this handler governs.
    fn kind() -> &'static str;

    /// Can we tell by its name alone that this instance is still live?
    fn name_filter(&mut self, identity: &Slug) -> Result<Liveness, Error>;

    /// How long, in seconds, should a possibly-unused instance be retained
    /// after its last modification?  Return `0` to pass every
    /// possibly-unused instance through to `dispose`.
    fn retain_unused_for(&mut self, identity: &Slug) -> Result<u64, Error>;

    /// Decide the fate of one expired instance: either call
    /// [`purge`](InstanceStateHandle::purge) on `handle`, or simply drop it,
    /// keeping the data.  Called only for instances whose `name_filter`
    /// answered [`Liveness::PossiblyUnused`] and which were not acquired or
    /// modified recently.
    fn dispose(&mut self, info: &InstancePurgeInfo, handle: InstanceStateHandle) -> Result<
        (),
        Error,
    >;
}

/// Information about an instance, passed to
/// [`InstancePurgeHandler::dispose`].
pub struct InstancePurgeInfo {
    /// The instance's identity.
    identity: Slug,
    /// When the instance's state was last updated, in seconds since the
    /// Unix epoch, according to the filesystem.
    last_modified: u64,
}

impl InstancePurgeInfo {
    /// The instance's identity.
    pub closed spec fn spec_identity(&self) -> Seq<char> {
        self.identity@
    }

    /// The last-modified time.
    pub closed spec fn spec_last_modified(&self) -> u64 {
        self.last_modified
    }

    /// Bundle an identity with its last-modified time.
    pub fn new(identity: Slug, last_modified: u64) -> (r: InstancePurgeInfo)
        ensures
            r.spec_identity() == identity@,
            r.spec_last_modified() == last_modified,
    {
        InstancePurgeInfo { identity, last_modified }
    }

    /// The instance's identity.
    pub fn identity(&self) -> (r: &Slug)
        ensures
            r@ == self.spec_identity(),
    {
        &self.identity
    }

    /// The last-modified time, in seconds since the Unix epoch.
    pub fn last_modified(&self) -> (r: u64)
        ensures
            r == self.spec_last_modified(),
    {
        self.last_modified
    }
}

/// Has an instance last modified at `last_modified` outlived a retention
/// window of `retain_for` seconds, as of `now` (all in seconds since the
/// Unix epoch)?
pub open spec fn instance_expired(now: u64, last_modified: u64, retain_for: u64) -> bool {
    last_modified + retain_for <= now
}

/// Decide [`instance_expired`] executably.
pub fn is_expired(now: u64, last_modified: u64, retain_for: u64) -> (r: bool)
    ensures
        r == instance_expired(now, last_modified, retain_for),
{
    now >= last_modified && now - last_modified >= retain_for
}

/// May the purge scan offer an instance to
/// [`dispose`](InstancePurgeHandler::dispose)?  Only when its name filter
/// answered [`Liveness::PossiblyUnused`], its lease was free to take, and it
/// has outlived its retention window.
pub open spec fn should_offer_for_disposal(
    liveness: Liveness,
    lease_was_free: bool,
    now: u64,
    last_modified: u64,
    retain_for: u64,
) -> bool {
    &&& liveness is PossiblyUnused
    &&& lease_was_free
    &&& instance_expired(now, last_modified, retain_for)
}

/// An instance whose name filter answered [`Liveness::Live`] is never
/// offered for disposal, regardless of its age or of the state of its
/// lease.
pub proof fn lemma_purge_spares_live(
    lease_was_free: bool,
    now: u64,
    last_modified: u64,
    retain_for: u64,
)
    ensures
        !should_offer_for_disposal(Liveness::Live, lease_was_free, now, last_modified, retain_for),
{
}

/// An instance modified more recently than its retention window is never
/// offered for disposal.
pub proof fn lemma_purge_spares_recent(
    liveness: Liveness,
    lease_was_free: bool,
    now: u64,
    last_modified: u64,
    retain_for: u64,
)
    requires
        now < last_modified + retain_for,
    ensures
        !should_offer_for_disposal(liveness, lease_was_free, now, last_modified, retain_for),
{
}

/// An instance whose lease is held by some other holder is never offered
/// for disposal: it is in use, and the scan skips it without reporting an
/// error.
pub proof fn lemma_purge_skips_locked(
    liveness: Liveness,
    now: u64,
    last_modified: u64,
    retain_for: u64,
)
    ensures
        !should_offer_for_disposal(liveness, false, now, last_modified, retain_for),
{
}

} // verus!
