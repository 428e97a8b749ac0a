//! The purge scan: live instances are never offered for disposal, recently
//! modified instances are retained, locked instances are skipped quietly,
//! and expired unused instances are handed to `dispose`.

use std::path::Path;

use statedir::{
    Error, InstancePurgeHandler, InstancePurgeInfo, InstanceStateHandle, Liveness, Slug,
    StateDirectory,
};

fn state_dir(path: &str) -> StateDirectory {
    let mistrust = fs_mistrust::Mistrust::new_dangerously_trust_everyone();
    StateDirectory::new(path, &mistrust).unwrap()
}

/// A purge handler that records what it is asked, treats a fixed set of
/// identities as live, and purges everything offered to `dispose`.
struct Handler {
    live: Vec<String>,
    retain_seconds: u64,
    filtered: Vec<String>,
    disposed: Vec<String>,
}

impl Handler {
    fn new(live: &[&str], retain_seconds: u64) -> Self {
        Handler {
            live: live.iter().map(|s| s.to_string()).collect(),
            retain_seconds,
            filtered: Vec::new(),
            disposed: Vec::new(),
        }
    }
}

impl InstancePurgeHandler for Handler {
    fn kind() -> &'static str {
        "garlic"
    }
    fn name_filter(&mut self, identity: &Slug) -> Result<Liveness, Error> {
        self.filtered.push(identity.as_str().to_string());
        Ok(if self.live.iter().any(|s| s == identity.as_str()) {
            Liveness::Live
        } else {
            Liveness::PossiblyUnused
        })
    }
    fn retain_unused_for(&mut self, _identity: &Slug) -> Result<u64, Error> {
        Ok(self.retain_seconds)
    }
    fn dispose(&mut self, info: &InstancePurgeInfo, handle: InstanceStateHandle) -> Result<
        (),
        Error,
    > {
        self.disposed.push(info.identity().as_str().to_string());
        handle.purge()
    }
}

#[test]
fn live_instances_are_never_disposed() {
    let tmp = tempfile::tempdir().unwrap();
    let dir = tmp.path().to_str().unwrap().to_string();
    let sd = state_dir(&dir);

    drop(sd.acquire_instance_for("garlic", "alpha").unwrap());
    drop(sd.acquire_instance_for("garlic", "beta").unwrap());

    // No retention window at all: anything not live is disposable at once.
    let mut handler = Handler::new(&["alpha"], 0);
    sd.purge_instances(&mut handler).unwrap();

    let mut filtered = handler.filtered.clone();
    filtered.sort();
    assert_eq!(filtered, ["alpha", "beta"]);
    assert_eq!(handler.disposed, ["beta"]);
    assert!(Path::new(&format!("{dir}/garlic/alpha")).is_dir());
    assert!(!Path::new(&format!("{dir}/garlic/beta")).exists());
    assert!(!Path::new(&format!("{dir}/garlic/beta.lock")).exists());
}

#[test]
fn recently_modified_instances_are_retained() {
    let tmp = tempfile::tempdir().unwrap();
    let dir = tmp.path().to_str().unwrap().to_string();
    let sd = state_dir(&dir);

    drop(sd.acquire_instance_for("garlic", "alpha").unwrap());

    // The instance was created a moment ago, far inside the window.
    let mut handler = Handler::new(&[], 1_000_000);
    sd.purge_instances(&mut handler).unwrap();

    assert_eq!(handler.filtered, ["alpha"]);
    assert_eq!(handler.disposed, Vec::<String>::new());
    assert!(Path::new(&format!("{dir}/garlic/alpha")).is_dir());

    // After the filter, the lease was released again.
    drop(sd.acquire_instance_for("garlic", "alpha").unwrap());
}

#[test]
fn locked_instances_are_skipped_without_error() {
    let tmp = tempfile::tempdir().unwrap();
    let dir = tmp.path().to_str().unwrap().to_string();
    let sd = state_dir(&dir);

    let held = sd.acquire_instance_for("garlic", "alpha").unwrap();
    drop(sd.acquire_instance_for("garlic", "beta").unwrap());

    let mut handler = Handler::new(&[], 0);
    sd.purge_instances(&mut handler).unwrap();

    // The held instance passed the name filter but was never disposed —
    // and its being locked was not reported as an error.
    assert!(handler.filtered.contains(&"alpha".to_string()));
    assert!(!handler.disposed.contains(&"alpha".to_string()));
    assert_eq!(handler.disposed, ["beta"]);
    assert!(Path::new(&format!("{dir}/garlic/alpha")).is_dir());

    drop(held);

    // Once released, the same instance is disposable.
    let mut handler = Handler::new(&[], 0);
    sd.purge_instances(&mut handler).unwrap();
    assert_eq!(handler.disposed, ["alpha"]);
    assert!(!Path::new(&format!("{dir}/garlic/alpha")).exists());
}

/// A handler that keeps everything: `dispose` drops the handle instead of
/// purging.
struct KeepingHandler {
    disposed: Vec<String>,
}

impl InstancePurgeHandler for KeepingHandler {
    fn kind() -> &'static str {
        "garlic"
    }
    fn name_filter(&mut self, _identity: &Slug) -> Result<Liveness, Error> {
        Ok(Liveness::PossiblyUnused)
    }
    fn retain_unused_for(&mut self, _identity: &Slug) -> Result<u64, Error> {
        Ok(0)
    }
    fn dispose(&mut self, info: &InstancePurgeInfo, handle: InstanceStateHandle) -> Result<
        (),
        Error,
    > {
        self.disposed.push(info.identity().as_str().to_string());
        drop(handle);
        Ok(())
    }
}

#[test]
fn dispose_may_keep_the_instance_by_dropping_the_handle() {
    let tmp = tempfile::tempdir().unwrap();
    let dir = tmp.path().to_str().unwrap().to_string();
    let sd = state_dir(&dir);

    drop(sd.acquire_instance_for("garlic", "alpha").unwrap());

    let mut handler = KeepingHandler { disposed: Vec::new() };
    sd.purge_instances(&mut handler).unwrap();

    assert_eq!(handler.disposed, ["alpha"]);
    // The data is untouched, and the lease was released by the drop.
    assert!(Path::new(&format!("{dir}/garlic/alpha")).is_dir());
    drop(sd.acquire_instance_for("garlic", "alpha").unwrap());
}
