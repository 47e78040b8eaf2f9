use tpass::keys::{import_fingerprint, KeyBackendError, KeyListProvider, KeyProvider, MockKey, MockKeyList};

#[test]
fn mock_import_then_list_yields_one_key_named_hej() {
    let mut backend = MockKeyList::new();
    backend.import("/some/file").expect("mock import always succeeds");
    let keys = backend.keys().expect("mock listing always succeeds");
    assert_eq!(keys.len(), 1);
    match keys[0].id() {
        Ok(id) => assert_eq!(id, "hej"),
        Err(_) => panic!("the mock key's identifier always reads"),
    }
}

#[test]
fn mock_import_ignores_the_path_argument() {
    let mut backend = MockKeyList::new();
    backend.import("").expect("mock import always succeeds");
    backend.import("no/such/file.asc").expect("mock import always succeeds");
    let keys = backend.keys().expect("mock listing always succeeds");
    assert_eq!(keys.len(), 2);
}

#[test]
fn mock_listings_are_independent_copies() {
    let mut backend = MockKeyList::new();
    backend.import("/some/file").expect("mock import always succeeds");
    let mut first = backend.keys().expect("mock listing always succeeds");
    let second = backend.keys().expect("mock listing always succeeds");
    first.push(MockKey);
    first.push(MockKey);
    assert_eq!(second.len(), 1);
    let third = backend.keys().expect("mock listing always succeeds");
    assert_eq!(third.len(), 1);
}

#[test]
fn mock_key_clones_are_independent_values() {
    let key = MockKey;
    let copy = key.clone();
    match copy.id() {
        Ok(id) => assert_eq!(id, "hej"),
        Err(_) => panic!("the mock key's identifier always reads"),
    }
}

#[test]
fn empty_import_report_fails_with_the_path() {
    let report: Vec<Option<String>> = vec![];
    match import_fingerprint(&report, "some/key.asc") {
        Ok(_) => panic!("an empty report must not yield a fingerprint"),
        Err(e) => assert_eq!(e.message(), "Could not import key in some/key.asc"),
    }
}

#[test]
fn unreadable_first_fingerprint_fails_with_the_path() {
    let report: Vec<Option<String>> = vec![None, Some(String::from("AACC"))];
    match import_fingerprint(&report, "other.asc") {
        Ok(_) => panic!("an unreadable first fingerprint must not be returned"),
        Err(e) => assert_eq!(e.message(), "Could not import key in other.asc"),
    }
}

#[test]
fn first_reported_fingerprint_is_returned() {
    let report = vec![Some(String::from("AACC")), Some(String::from("BBDD"))];
    assert_eq!(
        import_fingerprint(&report, "some/key.asc"),
        Ok(String::from("AACC"))
    );
}

#[test]
fn list_failure_message_is_fixed() {
    let e = KeyBackendError::ListFailed;
    assert_eq!(e.message(), "Could not get any keys from the keyring");
}
