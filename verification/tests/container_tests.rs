use pastebin::ContentStore;
use pastebin::StoreError;
use pastebin::open;
use pastebin::seal;

#[test]
fn sealed_container_opens_with_correct_secret() {
    let c = seal(b"hello", "secret").unwrap();
    assert_eq!(open(&c, "secret").unwrap(), b"hello".to_vec());
}

#[test]
fn empty_content_round_trips() {
    let c = seal(b"", "secret").unwrap();
    assert_eq!(open(&c, "secret").unwrap(), Vec::<u8>::new());
}

#[test]
fn sealed_container_rejects_wrong_secret() {
    let c = seal(b"hello", "secret").unwrap();
    assert_eq!(open(&c, "wrong"), Err(StoreError::BadSecretOrCorrupt));
}

#[test]
fn sealed_container_is_a_single_entry_archive() {
    let c = seal(b"hello", "secret").unwrap();
    assert_ne!(c, b"hello".to_vec());
    let ar = zip::ZipArchive::new(std::io::Cursor::new(c)).unwrap();
    assert_eq!(ar.len(), 1);
    let names: Vec<&str> = ar.file_names().collect();
    assert_eq!(names, vec!["content"]);
}

#[test]
fn encrypted_upload_scenario() {
    let mut s = ContentStore::new(4, 1 << 20);
    let id = s.upload_sealed(b"hello", "secret").unwrap();
    assert_eq!(id.len(), 4);
    let blob = s.read(&id).unwrap();
    assert_ne!(blob, b"hello".to_vec());
    assert_eq!(open(&blob, "secret").unwrap(), b"hello".to_vec());
}

#[test]
fn tampered_container_fails_to_open() {
    let mut c = seal(b"hello world hello world", "secret").unwrap();
    let last = c.len() - 1;
    c[last] ^= 0xff;
    assert!(open(&c, "secret").is_err());
}

#[test]
fn garbage_is_not_a_container() {
    assert_eq!(open(b"not a zip archive", "secret"), Err(StoreError::BadSecretOrCorrupt));
}
