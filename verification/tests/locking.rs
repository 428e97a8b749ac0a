//! The exclusive lease: a second acquisition of a held instance fails with
//! `AlreadyLocked`, and succeeds again once every holder is gone.

use statedir::{Action, ErrorKind, Resource, StateDirectory};

fn state_dir(path: &str) -> StateDirectory {
    let mistrust = fs_mistrust::Mistrust::new_dangerously_trust_everyone();
    StateDirectory::new(path, &mistrust).unwrap()
}

#[test]
fn second_acquire_fails_until_first_is_dropped() {
    let tmp = tempfile::tempdir().unwrap();
    let sd = state_dir(tmp.path().to_str().unwrap());

    let first = sd.acquire_instance_for("garlic", "wild").unwrap();

    let err = sd.acquire_instance_for("garlic", "wild").unwrap_err();
    assert_eq!(err.kind(), ErrorKind::LocalResourceAlreadyInUse);
    assert_eq!(err.action(), Action::Locking);
    assert!(matches!(
        err.resource(),
        Resource::InstanceState { kind, identity, .. }
            if kind == "garlic" && identity == "wild"
    ));

    drop(first);

    // With the first handle fully dropped, the lease is free again.
    sd.acquire_instance_for("garlic", "wild").unwrap();
}

#[test]
fn storage_handle_keeps_the_lease_alive() {
    let tmp = tempfile::tempdir().unwrap();
    let sd = state_dir(tmp.path().to_str().unwrap());

    let ih = sd.acquire_instance_for("garlic", "wild").unwrap();
    let sh = ih.storage_handle("stored_data").unwrap();
    drop(ih);

    // The storage handle still shares the lease.
    let err = sd.acquire_instance_for("garlic", "wild").unwrap_err();
    assert_eq!(err.kind(), ErrorKind::LocalResourceAlreadyInUse);

    drop(sh);
    sd.acquire_instance_for("garlic", "wild").unwrap();
}

#[test]
fn different_identities_are_independent() {
    let tmp = tempfile::tempdir().unwrap();
    let sd = state_dir(tmp.path().to_str().unwrap());

    let _a = sd.acquire_instance_for("garlic", "alpha").unwrap();
    let _b = sd.acquire_instance_for("garlic", "beta").unwrap();
    let _c = sd.acquire_instance_for("onions", "alpha").unwrap();
}

#[test]
fn unlockable_lock_file_reports_an_io_error() {
    let tmp = tempfile::tempdir().unwrap();
    let dir = tmp.path().to_str().unwrap().to_string();
    let sd = state_dir(&dir);

    drop(sd.acquire_instance_for("garlic", "other").unwrap());

    // Occupy the lock file's name with a directory, which cannot be opened
    // as a lock file.
    let blocker = tempfile::Builder::new()
        .prefix("wild.lock")
        .rand_bytes(0)
        .tempdir_in(format!("{dir}/garlic"))
        .unwrap();

    let err = sd.acquire_instance_for("garlic", "wild").unwrap_err();
    assert_eq!(err.kind(), ErrorKind::Io);
    assert_eq!(err.action(), Action::Locking);

    drop(blocker);
    drop(sd.acquire_instance_for("garlic", "wild").unwrap());
}

#[test]
fn bad_slugs_are_rejected_before_any_locking() {
    let tmp = tempfile::tempdir().unwrap();
    let sd = state_dir(tmp.path().to_str().unwrap());

    let err = sd.acquire_instance_for("Garlic", "wild").unwrap_err();
    assert_eq!(err.kind(), ErrorKind::BadSlug);
    assert_eq!(err.action(), Action::Initializing);

    let err = sd.acquire_instance_for("garlic", "wild onion").unwrap_err();
    assert_eq!(err.kind(), ErrorKind::BadSlug);

    let err = sd.acquire_instance_for("", "wild").unwrap_err();
    assert_eq!(err.kind(), ErrorKind::BadSlug);
}
