//! Record storage: round trips, idempotent deletion, and peeking without
//! the lease.

use statedir::StateDirectory;

fn state_dir(path: &str) -> StateDirectory {
    let mistrust = fs_mistrust::Mistrust::new_dangerously_trust_everyone();
    StateDirectory::new(path, &mistrust).unwrap()
}

#[test]
fn store_then_load_round_trips_exactly() {
    let tmp = tempfile::tempdir().unwrap();
    let sd = state_dir(tmp.path().to_str().unwrap());
    let ih = sd.acquire_instance_for("garlic", "wild").unwrap();
    let mut sh = ih.storage_handle("stored_data").unwrap();

    let values: Vec<Vec<u8>> = vec![
        serde_json::to_vec(&serde_json::Value::from(42)).unwrap(),
        b"{\"some_value\":-7}".to_vec(),
        Vec::new(),
        vec![0u8, 255, 10, 13, 0],
    ];
    for v in &values {
        sh.store(v).unwrap();
        assert_eq!(sh.load().unwrap(), Some(v.clone()));
    }
}

#[test]
fn delete_is_idempotent() {
    let tmp = tempfile::tempdir().unwrap();
    let sd = state_dir(tmp.path().to_str().unwrap());
    let ih = sd.acquire_instance_for("garlic", "wild").unwrap();
    let mut sh = ih.storage_handle("stored_data").unwrap();

    sh.store(b"{\"some_value\":1}").unwrap();
    sh.delete().unwrap();
    assert_eq!(sh.load().unwrap(), None);

    // A second delete, with nothing left to remove, still succeeds.
    sh.delete().unwrap();
    assert_eq!(sh.load().unwrap(), None);

    // Deleting a record that was never stored succeeds too.
    let mut fresh = ih.storage_handle("never_stored").unwrap();
    fresh.delete().unwrap();
    assert_eq!(fresh.load().unwrap(), None);
}

#[test]
fn peek_sees_completed_stores_without_the_lease() {
    let tmp = tempfile::tempdir().unwrap();
    let sd = state_dir(tmp.path().to_str().unwrap());

    // Before any store — indeed before the instance exists — peeking
    // reports nothing.
    assert_eq!(sd.instance_peek_storage_for("garlic", "wild", "stored_data").unwrap(), None);

    let ih = sd.acquire_instance_for("garlic", "wild").unwrap();
    let mut sh = ih.storage_handle("stored_data").unwrap();
    assert_eq!(sd.instance_peek_storage_for("garlic", "wild", "stored_data").unwrap(), None);

    let v = b"{\"some_value\":42}".to_vec();
    sh.store(&v).unwrap();
    drop(sh);
    drop(ih);

    // The lease is released; the record remains readable.
    assert_eq!(sd.instance_peek_storage_for("garlic", "wild", "stored_data").unwrap(), Some(v));

    let ih = sd.acquire_instance_for("garlic", "wild").unwrap();
    let mut sh = ih.storage_handle("stored_data").unwrap();
    sh.delete().unwrap();
    drop(sh);
    drop(ih);

    assert_eq!(sd.instance_peek_storage_for("garlic", "wild", "stored_data").unwrap(), None);
}

#[test]
fn dropping_the_lease_keeps_the_data() {
    let tmp = tempfile::tempdir().unwrap();
    let sd = state_dir(tmp.path().to_str().unwrap());

    let ih = sd.acquire_instance_for("garlic", "wild").unwrap();
    let mut sh = ih.storage_handle("stored_data").unwrap();
    sh.store(b"{\"some_value\":5}").unwrap();
    drop(sh);
    drop(ih);

    // Re-acquiring finds the stored record intact.
    let ih = sd.acquire_instance_for("garlic", "wild").unwrap();
    let sh = ih.storage_handle("stored_data").unwrap();
    assert_eq!(sh.load().unwrap(), Some(b"{\"some_value\":5}".to_vec()));
}
