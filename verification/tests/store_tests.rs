use tpass::store::{
    filter_recipients, get_recipients, get_root, join_segment, DirEntry, DirLister,
    MockedDirLister, MockedPathBuf,
};

#[test]
fn test_get_root() {
    let hd = MockedPathBuf::new("/tmp", true);
    assert_eq!(
        get_root(&hd),
        Some(String::from("/tmp/.password-store"))
    );
}

#[test]
fn root_is_none_without_home() {
    assert_eq!(get_root(&MockedPathBuf::without_home()), None);
}

#[test]
fn join_inserts_one_separator() {
    assert_eq!(join_segment("/home/u", ".recipients"), "/home/u/.recipients");
    assert_eq!(join_segment("", "x"), "/x");
}

#[test]
fn root_is_none_when_not_a_directory() {
    let hd = MockedPathBuf::new("/tmp", false);
    assert_eq!(get_root(&hd), None);
}

#[test]
fn underscore_and_plain_root_agree() {
    let hd = MockedPathBuf::new("/home/someone", true);
    assert_eq!(tpass::store::_get_root(&hd), get_root(&hd));
}

fn entry(path: &str, is_file: bool) -> DirEntry {
    DirEntry { path: String::from(path), is_file }
}

#[test]
fn recipients_keep_files_and_drop_subdirectories() {
    let hd = MockedPathBuf::new("/tmp", true);
    let ld = MockedDirLister::new(
        vec![entry("a", true), entry("c", false), entry("b", true)],
        true,
    );
    assert_eq!(
        get_recipients(&hd, &ld),
        Some(vec![String::from("a"), String::from("b")])
    );
}

#[test]
fn recipients_are_the_same_set_in_another_listing_order() {
    let hd = MockedPathBuf::new("/tmp", true);
    let ld = MockedDirLister::new(
        vec![entry("c", false), entry("b", true), entry("a", true)],
        true,
    );
    let got = get_recipients(&hd, &ld).expect("two regular files are listed");
    let mut sorted = got.clone();
    sorted.sort();
    assert_eq!(sorted, vec![String::from("a"), String::from("b")]);
    assert_eq!(got.len(), 2);
}

#[test]
fn recipients_are_none_without_a_root() {
    let hd = MockedPathBuf::new("/tmp", false);
    let ld = MockedDirLister::new(vec![entry("a", true)], true);
    assert_eq!(get_recipients(&hd, &ld), None);
}

#[test]
fn recipients_are_none_when_listing_fails() {
    let hd = MockedPathBuf::new("/tmp", true);
    let ld = MockedDirLister::new(vec![], false);
    assert_eq!(get_recipients(&hd, &ld), None);
}

#[test]
fn recipients_are_none_for_an_empty_directory() {
    let hd = MockedPathBuf::new("/tmp", true);
    let ld = MockedDirLister::new(vec![], true);
    assert_eq!(get_recipients(&hd, &ld), None);
}

#[test]
fn recipients_are_none_when_only_subdirectories_are_listed() {
    let hd = MockedPathBuf::new("/tmp", true);
    let ld = MockedDirLister::new(vec![entry("c", false), entry("d", false)], true);
    assert_eq!(get_recipients(&hd, &ld), None);
}

#[test]
fn filtering_keeps_file_paths_in_listing_order() {
    let entries = vec![entry("b", true), entry("c", false), entry("a", true)];
    assert_eq!(
        filter_recipients(&entries),
        Some(vec![String::from("b"), String::from("a")])
    );
}

#[test]
fn filtering_an_empty_listing_yields_none() {
    assert_eq!(filter_recipients(&vec![]), None);
}

#[test]
fn mock_lister_returns_an_independent_copy() {
    let ld = MockedDirLister::new(vec![entry("a", true)], true);
    let mut first = ld.list_dir("anywhere").expect("listing succeeds");
    first.clear();
    let second = ld.list_dir("anywhere").expect("listing succeeds");
    assert_eq!(second.len(), 1);
    assert_eq!(second[0].path, "a");
    assert!(second[0].is_file);
}
