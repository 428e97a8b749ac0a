//! Purging one instance: the directory and lock file go away, a co-holder
//! blocks the purge, and a purged identity can be acquired afresh.

use std::path::Path;

use statedir::{Action, ErrorKind, StateDirectory};

fn state_dir(path: &str) -> StateDirectory {
    let mistrust = fs_mistrust::Mistrust::new_dangerously_trust_everyone();
    StateDirectory::new(path, &mistrust).unwrap()
}

#[test]
fn purge_removes_directory_and_lock_file() {
    let tmp = tempfile::tempdir().unwrap();
    let dir = tmp.path().to_str().unwrap().to_string();
    let sd = state_dir(&dir);

    let ih = sd.acquire_instance_for("garlic", "wild").unwrap();
    let mut sh = ih.storage_handle("stored_data").unwrap();
    sh.store(b"{\"some_value\":42}").unwrap();
    drop(sh);

    let inst_path = format!("{dir}/garlic/wild");
    let lock_path = format!("{dir}/garlic/wild.lock");
    assert!(Path::new(&inst_path).is_dir());
    assert!(Path::new(&lock_path).is_file());

    ih.purge().unwrap();

    assert!(!Path::new(&inst_path).exists());
    assert!(!Path::new(&lock_path).exists());

    // The identity is acquirable afresh, and holds nothing.
    let ih = sd.acquire_instance_for("garlic", "wild").unwrap();
    assert_eq!(sd.instance_peek_storage_for("garlic", "wild", "stored_data").unwrap(), None);
    let sh = ih.storage_handle("stored_data").unwrap();
    assert_eq!(sh.load().unwrap(), None);
}

#[test]
fn purge_with_live_co_holder_fails_and_changes_nothing() {
    let tmp = tempfile::tempdir().unwrap();
    let dir = tmp.path().to_str().unwrap().to_string();
    let sd = state_dir(&dir);

    let ih = sd.acquire_instance_for("garlic", "wild").unwrap();
    let mut sh = ih.storage_handle("stored_data").unwrap();
    sh.store(b"{\"some_value\":42}").unwrap();

    // `sh` still shares the lease, so the purge must refuse.
    let err = ih.purge().unwrap_err();
    assert_eq!(err.kind(), ErrorKind::BadApiUsage);
    assert_eq!(err.action(), Action::Deleting);

    // Nothing was removed.
    let inst_path = format!("{dir}/garlic/wild");
    let lock_path = format!("{dir}/garlic/wild.lock");
    assert!(Path::new(&inst_path).is_dir());
    assert!(Path::new(&lock_path).is_file());
    assert_eq!(sh.load().unwrap(), Some(b"{\"some_value\":42}".to_vec()));
}

#[test]
fn purge_with_duplicate_handle_fails_then_succeeds() {
    let tmp = tempfile::tempdir().unwrap();
    let dir = tmp.path().to_str().unwrap().to_string();
    let sd = state_dir(&dir);

    let ih = sd.acquire_instance_for("garlic", "wild").unwrap();
    let copy = ih.duplicate();

    let err = ih.purge().unwrap_err();
    assert_eq!(err.kind(), ErrorKind::BadApiUsage);
    assert!(Path::new(&format!("{dir}/garlic/wild")).is_dir());

    // Once the surviving copy is the only one, purging succeeds.
    copy.purge().unwrap();
    assert!(!Path::new(&format!("{dir}/garlic/wild")).exists());
    assert!(!Path::new(&format!("{dir}/garlic/wild.lock")).exists());
}
