use pastebin::ContentStore;
use pastebin::DirScan;
use pastebin::GaugeValue;
use pastebin::Metric;
use pastebin::StoreError;
use pastebin::check_id;
use pastebin::generate;
use pastebin::index;
use pastebin::path_for;
use pastebin::resolve_content_type;
use pastebin::scan_store;
use pastebin::stored_item_count;
use pastebin::total_stored_bytes;
use pastebin::upload_ui;

#[test]
fn round_trip_returns_exact_content() {
    let mut s = ContentStore::new(4, 131072);
    s.create_or_replace("abcd", b"hello".to_vec()).unwrap();
    assert_eq!(s.read("abcd").unwrap(), b"hello".to_vec());
}

#[test]
fn overwrite_leaves_only_second_content() {
    let mut s = ContentStore::new(4, 1024);
    s.create_or_replace("abcd", b"first".to_vec()).unwrap();
    s.create_or_replace("abcd", b"second".to_vec()).unwrap();
    assert_eq!(s.read("abcd").unwrap(), b"second".to_vec());
    let scan = scan_store(&s);
    assert_eq!(stored_item_count(&scan), GaugeValue::Value(1));
}

#[test]
fn read_and_delete_unknown_report_not_found() {
    let mut s = ContentStore::new(4, 1024);
    assert_eq!(s.read("zzzz"), Err(StoreError::NotFound));
    assert_eq!(s.delete("zzzz"), Err(StoreError::NotFound));
    s.create_or_replace("abcd", b"x".to_vec()).unwrap();
    s.delete("abcd").unwrap();
    assert_eq!(s.read("abcd"), Err(StoreError::NotFound));
    assert_eq!(s.delete("abcd"), Err(StoreError::NotFound));
}

#[test]
fn upload_over_limit_is_rejected_and_leaves_no_file() {
    let mut s = ContentStore::new(4, 5);
    let r = s.create_or_replace("abcd", b"123456".to_vec());
    assert_eq!(r, Err(StoreError::SizeLimitExceeded));
    assert_eq!(s.read("abcd"), Err(StoreError::NotFound));
    assert_eq!(s.upload(b"123456".to_vec()), Err(StoreError::SizeLimitExceeded));
    let scan = scan_store(&s);
    assert_eq!(stored_item_count(&scan), GaugeValue::Value(0));
}

#[test]
fn upload_at_limit_is_accepted() {
    let mut s = ContentStore::new(4, 5);
    let id = s.upload(b"12345".to_vec()).unwrap();
    assert_eq!(s.read(&id).unwrap(), b"12345".to_vec());
}

#[test]
fn plain_upload_scenario() {
    let mut s = ContentStore::new(4, 131072);
    let id = s.upload(b"hello".to_vec()).unwrap();
    assert_eq!(id.len(), 4);
    assert!(id.bytes().all(|b| b.is_ascii_alphanumeric()));
    let (content_type, body) = s.retrieve(&id, None).unwrap();
    assert_eq!(body, b"hello".to_vec());
    assert_eq!(content_type, "text/plain");
    s.delete(&id).unwrap();
    assert!(s.retrieve(&id, None).is_none());
}

#[test]
fn gauges_track_known_uploads() {
    let mut s = ContentStore::new(4, 1024);
    s.create_or_replace("id0a", vec![1u8; 10]).unwrap();
    s.create_or_replace("id0b", vec![2u8; 20]).unwrap();
    s.create_or_replace("id0c", vec![3u8; 30]).unwrap();
    let scan = scan_store(&s);
    assert_eq!(stored_item_count(&scan), GaugeValue::Value(3));
    assert_eq!(total_stored_bytes(&scan), GaugeValue::Value(60));
}

#[test]
fn unreadable_root_yields_sentinel() {
    assert_eq!(stored_item_count(&DirScan::Unreadable), GaugeValue::Unavailable);
    assert_eq!(total_stored_bytes(&DirScan::Unreadable), GaugeValue::Unavailable);
}

#[test]
fn unreadable_entry_is_left_out_of_the_size_total() {
    let scan = DirScan::Entries(vec![Some(5), None, Some(7)]);
    assert_eq!(stored_item_count(&scan), GaugeValue::Value(3));
    assert_eq!(total_stored_bytes(&scan), GaugeValue::Value(12));
}

#[test]
fn size_total_saturates() {
    let scan = DirScan::Entries(vec![Some(u64::MAX), Some(10)]);
    assert_eq!(total_stored_bytes(&scan), GaugeValue::Value(u64::MAX));
}

#[test]
fn generated_identifiers_have_length_and_alphabet() {
    for len in [3usize, 4, 8] {
        let id = generate(len);
        assert_eq!(id.len(), len);
        assert!(id.bytes().all(|b| b.is_ascii_alphanumeric()));
        assert!(check_id(&id, len));
    }
}

#[test]
fn traversal_identifiers_are_rejected() {
    assert!(!check_id("../x", 4));
    assert!(!check_id("a/cd", 4));
    assert!(!check_id("abc", 4));
    assert!(!check_id("abcde", 4));
    assert!(!check_id("ab d", 4));
    assert!(check_id("A1z9", 4));
}

#[test]
fn retrieval_validates_untrusted_identifier() {
    let mut s = ContentStore::new(4, 1024);
    s.create_or_replace("abcd", b"x".to_vec()).unwrap();
    assert!(s.retrieve("../../etc/passwd", None).is_none());
    assert!(s.retrieve("ab/d", None).is_none());
    assert!(s.retrieve("abcd", None).is_some());
}

#[test]
fn path_is_root_slash_identifier() {
    assert_eq!(path_for("upload", "abcd"), "upload/abcd");
}

#[test]
fn content_type_precedence() {
    let png = vec![0x89u8, b'P', b'N', b'G', 0x0d, 0x0a, 0x1a, 0x0a, 0u8, 0u8];
    assert_eq!(resolve_content_type(None, &png), "image/png");
    assert_eq!(resolve_content_type(Some("application/json"), &png), "application/json");
    assert_eq!(resolve_content_type(None, b"hello"), "text/plain");
}

#[test]
fn retrieve_honors_mime_override() {
    let mut s = ContentStore::new(4, 1024);
    s.create_or_replace("abcd", b"hello".to_vec()).unwrap();
    let (content_type, _) = s.retrieve("abcd", Some("application/json")).unwrap();
    assert_eq!(content_type, "application/json");
}

#[test]
fn index_page_interpolates_host() {
    let page = index("http://localhost:8000");
    assert!(page.contains("curl --data-binary @file.txt http://localhost:8000"));
    assert!(page.contains("<a href='http://localhost:8000/upload'>http://localhost:8000/upload</a>"));
    let form = upload_ui();
    assert!(form.contains("enctype='multipart/form-data'"));
}

#[test]
fn metric_table_matches_gauges() {
    let all = Metric::all();
    assert_eq!(all.len(), 2);
    assert_eq!(all[0].name(), "pastebin_stored_files");
    assert_eq!(all[0].help(), "Amount of files currently stored in the pastebin");
    assert_eq!(all[1].name(), "pastebin_total_file_size");
    assert_eq!(all[1].help(), "Total size of stored files, in bytes");
    let scan = DirScan::Entries(vec![Some(4)]);
    assert_eq!(all[0].value(&scan), GaugeValue::Value(1));
    assert_eq!(all[1].value(&scan), GaugeValue::Value(4));
}

#[test]
fn empty_content_is_storable() {
    let mut s = ContentStore::new(4, 10);
    s.create_or_replace("abcd", Vec::new()).unwrap();
    assert_eq!(s.read("abcd").unwrap(), Vec::<u8>::new());
}
