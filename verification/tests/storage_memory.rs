use bytes::Bytes;
use onetime_downloader::models::{ErrorKind, OnetimeFile, OnetimeLink, OnetimeStorage};
use onetime_downloader::storage::invalid;
use onetime_downloader::storage::memory::Storage;

fn file(filename: &str, contents: &[u8], at: i64) -> OnetimeFile {
    OnetimeFile {
        filename: filename.to_string(),
        contents: Bytes::from(contents.to_vec()),
        created_at: at,
        updated_at: at,
    }
}

fn link(token: &str, filename: &str, at: i64) -> OnetimeLink {
    OnetimeLink {
        token: token.to_string(),
        filename: filename.to_string(),
        created_at: at,
        downloaded_at: None,
        ip_address: None,
    }
}

#[test]
fn upload_then_fetch_round_trip() {
    let mut storage = Storage::new();
    assert_eq!(storage.add_file(file("a.bin", &[0, 255, 7, 0], 5)).unwrap(), true);
    let fetched = storage.get_file("a.bin".to_string()).unwrap();
    assert_eq!(fetched.filename, "a.bin");
    assert_eq!(&fetched.contents[..], &[0u8, 255, 7, 0][..]);
    assert_eq!(fetched.created_at, 5);
    assert_eq!(fetched.updated_at, 5);
}

#[test]
fn second_upload_replaces_the_first() {
    let mut storage = Storage::new();
    storage.add_file(file("a.bin", &[1, 1, 1], 100)).unwrap();
    storage.add_file(file("a.bin", &[2, 2], 200)).unwrap();
    let fetched = storage.get_file("a.bin".to_string()).unwrap();
    assert_eq!(&fetched.contents[..], &[2u8, 2][..]);
    assert_eq!(fetched.updated_at, 200);
    // This backend replaces the record whole: the creation time is the
    // second upload's.
    assert_eq!(fetched.created_at, 200);
    assert_eq!(storage.list_files().unwrap().len(), 1);
}

#[test]
fn file_that_was_never_uploaded_is_not_found() {
    let mut storage = Storage::new();
    storage.add_file(file("a.bin", &[1], 1)).unwrap();
    let e = storage.get_file("b.bin".to_string()).unwrap_err();
    assert_eq!(e.kind, ErrorKind::NotFound);
    assert_eq!(e.message, "File not found");
    let e = storage.get_file(String::new()).unwrap_err();
    assert_eq!(e.kind, ErrorKind::NotFound);
}

#[test]
fn listing_shows_every_record_once() {
    let mut storage = Storage::new();
    assert_eq!(storage.list_files().unwrap().len(), 0);
    assert_eq!(storage.list_links().unwrap().len(), 0);
    storage.add_file(file("a", &[1], 1)).unwrap();
    storage.add_file(file("b", &[2], 2)).unwrap();
    storage.add_file(file("a", &[3], 3)).unwrap();
    storage.add_link(link("t1", "a", 4)).unwrap();
    storage.add_link(link("t2", "a", 5)).unwrap();
    let mut names: Vec<String> =
        storage.list_files().unwrap().into_iter().map(|f| f.filename).collect();
    names.sort();
    assert_eq!(names, vec!["a".to_string(), "b".to_string()]);
    let mut tokens: Vec<String> =
        storage.list_links().unwrap().into_iter().map(|l| l.token).collect();
    tokens.sort();
    assert_eq!(tokens, vec!["t1".to_string(), "t2".to_string()]);
}

#[test]
fn link_round_trip() {
    let mut storage = Storage::new();
    assert_eq!(storage.add_link(link("t1", "a", 1000)).unwrap(), true);
    let fetched = storage.get_link("t1".to_string()).unwrap();
    assert_eq!(fetched.token, "t1");
    assert_eq!(fetched.filename, "a");
    assert_eq!(fetched.created_at, 1000);
    assert_eq!(fetched.downloaded_at, None);
    assert_eq!(fetched.ip_address, None);
    let e = storage.get_link("t2".to_string()).unwrap_err();
    assert_eq!(e.kind, ErrorKind::NotFound);
    assert_eq!(e.message, "Link not found");
}

#[test]
fn mark_downloaded_consumes_once() {
    let mut storage = Storage::new();
    storage.add_link(link("t1", "a", 1000)).unwrap();
    let read = storage.get_link("t1".to_string()).unwrap();
    // `false`: this call consumed the link.
    assert_eq!(storage.mark_downloaded(read.clone(), "1.2.3.4".to_string(), 2000).unwrap(), false);
    // `true`: the link had been consumed.
    assert_eq!(storage.mark_downloaded(read, "5.6.7.8".to_string(), 3000).unwrap(), true);
    let after = storage.get_link("t1".to_string()).unwrap();
    assert_eq!(after.downloaded_at, Some(2000));
    assert_eq!(after.ip_address, Some("1.2.3.4".to_string()));
    assert_eq!(after.filename, "a");
    assert_eq!(after.created_at, 1000);
}

#[test]
fn mark_downloaded_on_a_missing_link_changes_nothing() {
    let mut storage = Storage::new();
    assert_eq!(
        storage.mark_downloaded(link("ghost", "a", 1), "1.2.3.4".to_string(), 2).unwrap(),
        true
    );
    assert_eq!(storage.list_links().unwrap().len(), 0);
}

#[test]
fn consumed_link_reads_the_same_every_time() {
    let mut storage = Storage::new();
    storage.add_link(link("t1", "a", 1000)).unwrap();
    storage.mark_downloaded(link("t1", "a", 1000), "9.9.9.9".to_string(), 2000).unwrap();
    for _ in 0..5 {
        let read = storage.get_link("t1".to_string()).unwrap();
        assert_eq!(read.downloaded_at, Some(2000));
        assert_eq!(read.ip_address, Some("9.9.9.9".to_string()));
    }
}

#[test]
fn invalid_backend_answers_every_call_with_the_reason() {
    let mut storage = invalid::Storage { error: "no backend".to_string() };
    let e = storage.add_file(file("a", &[1], 1)).unwrap_err();
    assert_eq!(e.kind, ErrorKind::Unavailable);
    assert_eq!(e.message, "no backend");
    assert_eq!(storage.list_files().unwrap_err().message, "no backend");
    assert_eq!(storage.get_file("a".to_string()).unwrap_err().message, "no backend");
    assert_eq!(storage.add_link(link("t", "a", 1)).unwrap_err().message, "no backend");
    assert_eq!(storage.list_links().unwrap_err().message, "no backend");
    assert_eq!(storage.get_link("t".to_string()).unwrap_err().kind, ErrorKind::Unavailable);
    let e = storage.mark_downloaded(link("t", "a", 1), "1.2.3.4".to_string(), 2).unwrap_err();
    assert_eq!(e.kind, ErrorKind::Unavailable);
    assert_eq!(e.message, "no backend");
    assert_eq!(storage.failure().message, "no backend");
    assert_eq!(storage.clone().error, "no backend");
}

#[test]
fn link_goes_in_unconsumed() {
    let mut storage = Storage::new();
    let stamped = OnetimeLink {
        downloaded_at: Some(5),
        ip_address: Some("1.2.3.4".to_string()),
        ..link("t1", "a", 1000)
    };
    storage.add_link(stamped).unwrap();
    let read = storage.get_link("t1".to_string()).unwrap();
    assert_eq!(read.downloaded_at, None);
    assert_eq!(read.ip_address, None);
    assert_eq!(read.filename, "a");
    assert_eq!(read.created_at, 1000);
}
