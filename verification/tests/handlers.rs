use bytes::Bytes;
use onetime_downloader::handlers::{
    add_file, add_file_at, add_link, add_link_with, check_api_key,
    check_rate_limit, collect_chunk, collect_chunks, download_link, download_link_at,
    download_url, field_limit, field_use, issue_link, list_files, list_links, not_found,
    read_upload, token_for, Body, FieldUse, Reply, UploadField, UploadForm,
    API_KEY_HEADER,
};
use onetime_downloader::models::{
    CreateLink, ErrorKind, MyError, OnetimeDownloaderConfig, OnetimeDownloaderService, OnetimeFile,
    OnetimeLink, OnetimeStorage,
};
use onetime_downloader::redemption::Outcome;
use onetime_downloader::storage::invalid;
use onetime_downloader::storage::{build_backend, Backend};
use onetime_downloader::storage::memory::Storage;
use onetime_downloader::table::Table;
use onetime_downloader::time_provider::FixedTimeProvider;

fn config() -> OnetimeDownloaderConfig {
    OnetimeDownloaderConfig {
        provider: "memory".to_string(),
        api_key_files: "files-key".to_string(),
        api_key_links: "links-key".to_string(),
        max_len_file: 16,
        max_len_value: 8,
    }
}

fn service(now: i64) -> OnetimeDownloaderService<FixedTimeProvider, Storage> {
    OnetimeDownloaderService {
        time_provider: FixedTimeProvider { fixed_unix_ts_ms: now },
        config: config(),
        storage: Storage::new(),
    }
}

fn broken(now: i64) -> OnetimeDownloaderService<FixedTimeProvider, invalid::Storage> {
    OnetimeDownloaderService {
        time_provider: FixedTimeProvider { fixed_unix_ts_ms: now },
        config: config(),
        storage: invalid::Storage { error: "no backend".to_string() },
    }
}

fn text(reply: &Reply) -> &str {
    match &reply.body {
        Body::Text(text) => text.as_str(),
        other => panic!("no text body: {:?}", other),
    }
}

fn file_field(filename: &str, chunks: &[&[u8]]) -> UploadField {
    UploadField {
        name: "file".to_string(),
        filename: Some(filename.to_string()),
        chunks: chunks.iter().map(|c| c.to_vec()).collect(),
    }
}

fn name_field(value: &[u8]) -> UploadField {
    UploadField { name: "filename".to_string(), filename: None, chunks: vec![value.to_vec()] }
}

#[test]
fn api_key_must_match() {
    assert_eq!(API_KEY_HEADER, "X-Api-Key");
    assert_eq!(check_api_key(Some("k"), "k").unwrap(), true);
    assert_eq!(check_api_key(Some(""), "").unwrap(), true);
    for header in [None, Some("K"), Some("k "), Some("")].iter() {
        let reply = check_api_key(*header, "k").unwrap_err();
        assert_eq!(reply.status, 401);
        assert_eq!(text(&reply), "Invalid or missing api key!");
        assert_eq!(reply.content_type, None);
        assert_eq!(reply.content_disposition, None);
    }
}

#[test]
fn callers_without_an_address_are_turned_away() {
    assert_eq!(check_rate_limit(Some("1.2.3.4")).unwrap(), true);
    assert_eq!(check_rate_limit(Some("0.0.0.0:80")).unwrap(), true);
    for remote in [None, Some("0.0.0.0")].iter() {
        let reply = check_rate_limit(*remote).unwrap_err();
        assert_eq!(reply.status, 429);
        assert!(matches!(reply.body, Body::Empty));
    }
}

#[test]
fn unknown_route() {
    let reply = not_found();
    assert_eq!(reply.status, 404);
    assert_eq!(text(&reply), "404 DNE");
}

#[test]
fn chunks_are_collected_up_to_the_limit() {
    let mut val = Vec::new();
    assert!(collect_chunk(&mut val, &[1, 2, 3], 5).is_ok());
    assert!(collect_chunk(&mut val, &[], 5).is_ok());
    assert!(collect_chunk(&mut val, &[4, 5], 5).is_ok());
    assert_eq!(val, vec![1u8, 2, 3, 4, 5]);
    let reply = collect_chunk(&mut val, &[6], 5).unwrap_err();
    assert_eq!(reply.status, 400);
    assert_eq!(text(&reply), "field value too big! 6");
    assert_eq!(val, vec![1u8, 2, 3, 4, 5]);
    let mut val = vec![0u8; 3];
    let reply = collect_chunk(&mut val, &[1], 2).unwrap_err();
    assert_eq!(text(&reply), "field value too big! 4");
    assert_eq!(val.len(), 3);
}

#[test]
fn chunk_lists_are_collected_up_to_the_limit() {
    assert_eq!(collect_chunks(&vec![], 0).unwrap(), Vec::<u8>::new());
    assert_eq!(collect_chunks(&vec![vec![1u8, 2], vec![], vec![3]], 3).unwrap(), vec![1u8, 2, 3]);
    let reply = collect_chunks(&vec![vec![1u8, 2], vec![3, 4], vec![5, 6, 7, 8]], 3).unwrap_err();
    assert_eq!(text(&reply), "field value too big! 4");
}

#[test]
fn fields_are_told_apart() {
    assert_eq!(field_use("file", true), FieldUse::FileContents);
    assert_eq!(field_use("file", false), FieldUse::Ignored);
    assert_eq!(field_use("filename", false), FieldUse::FilenameValue);
    assert_eq!(field_use("filename", true), FieldUse::Ignored);
    assert_eq!(field_use("other", true), FieldUse::Ignored);
    assert_eq!(field_use("File", true), FieldUse::Ignored);
    assert_eq!(field_limit(FieldUse::FileContents, &config()), 16);
    assert_eq!(field_limit(FieldUse::FilenameValue, &config()), 8);
    assert_eq!(field_limit(FieldUse::Ignored, &config()), 0);
}

#[test]
fn upload_form_prefers_the_filename_field() {
    let mut form = UploadForm::new();
    form.accept_file("from-file.bin".to_string(), vec![1, 2, 3]);
    let file = form.finish(77).unwrap();
    assert_eq!(file.filename, "from-file.bin");
    assert_eq!(&file.contents[..], &[1u8, 2, 3][..]);
    assert_eq!((file.created_at, file.updated_at), (77, 77));

    let mut form = UploadForm::new();
    form.accept_file("from-file.bin".to_string(), vec![1, 2, 3]);
    form.accept_filename("from-field.bin".to_string());
    assert_eq!(form.finish(77).unwrap().filename, "from-field.bin");
}

#[test]
fn upload_form_needs_name_and_contents() {
    let reply = UploadForm::new().finish(1).unwrap_err();
    assert_eq!(reply.status, 400);
    assert_eq!(text(&reply), "No filename or file contents provided!");
    let mut form = UploadForm::new();
    form.accept_filename("only-a-name".to_string());
    assert_eq!(text(&form.finish(1).unwrap_err()), "No filename or file contents provided!");
    let mut form = UploadForm::new();
    form.accept_file(String::new(), vec![1]);
    assert_eq!(form.finish(1).unwrap_err().status, 400);
    let mut form = UploadForm::new();
    form.accept_file("named".to_string(), vec![1]);
    form.accept_filename(String::new());
    assert_eq!(form.finish(1).unwrap_err().status, 400);
}

#[test]
fn tokens_are_time_then_number_in_hex() {
    assert_eq!(token_for(1000, 42), "00000000000003e8000000000000002a");
    assert_eq!(token_for(0, 0), "00000000000000000000000000000000");
    assert_eq!(token_for(-1, u64::MAX), "ffffffffffffffffffffffffffffffff");
    assert_eq!(token_for(i64::MIN, 1), "80000000000000000000000000000001");
    assert_eq!(token_for(1_600_000_000_000, 0xdead_beef), format!("{:016x}{:016x}", 1_600_000_000_000i64, 0xdead_beefu64));
    assert_eq!(token_for(-12345, 7), format!("{:016x}{:016x}", -12345i64, 7u64));
    assert!(token_for(1000, 1) < token_for(1001, 0));
    assert_eq!(download_url("abc"), "/download/abc");
}

#[test]
fn issued_link_is_unconsumed() {
    let link = issue_link(&CreateLink { filename: "report.pdf".to_string() }, 1000, 42);
    assert_eq!(link.token, "00000000000003e8000000000000002a");
    assert_eq!(link.filename, "report.pdf");
    assert_eq!(link.created_at, 1000);
    assert_eq!(link.downloaded_at, None);
    assert_eq!(link.ip_address, None);
}

#[test]
fn replies_for_outcomes() {
    let reply = Reply::of_outcome(Outcome::Content {
        filename: "report.pdf".to_string(),
        contents: Bytes::from(vec![1u8, 2]),
    });
    assert_eq!(reply.status, 200);
    assert_eq!(reply.content_type, Some("application/octet-stream".to_string()));
    assert_eq!(reply.content_disposition, Some("inline; filename=\"report.pdf\"".to_string()));
    assert!(matches!(&reply.body, Body::Binary(b) if &b[..] == &[1u8, 2][..]));
    let reply = Reply::of_outcome(Outcome::NotFound { message: "m".to_string() });
    assert_eq!((reply.status, text(&reply)), (404, "m"));
    let reply = Reply::of_outcome(Outcome::AlreadyRedeemed { raced: false });
    assert_eq!((reply.status, text(&reply)), (404, "Already downloaded"));
    let reply = Reply::of_outcome(Outcome::AlreadyRedeemed { raced: true });
    assert_eq!((reply.status, text(&reply)), (404, "Already downloaded race"));
    let reply = Reply::of_outcome(Outcome::Internal { message: "m".to_string() });
    assert_eq!((reply.status, text(&reply)), (500, "m"));
    let reply = Reply::of_outcome(Outcome::ContentMissing { message: "m".to_string() });
    assert_eq!((reply.status, text(&reply)), (404, "m"));
    let reply = Reply::failure(&MyError::new(ErrorKind::Unavailable, "down".to_string()));
    assert_eq!((reply.status, text(&reply)), (500, "Something went wrong! down"));
    let reply = Reply::link_issued("abc");
    assert_eq!((reply.status, text(&reply)), (200, "/download/abc"));
    assert_eq!(reply.content_type, Some("text/plain".to_string()));
    assert_eq!(Reply::bare(204).status, 204);
    assert_eq!(text(&Reply::plain(200, "ok".to_string())), "ok");
}

#[test]
fn upload_is_read_field_by_field() {
    let form = read_upload(
        vec![
            UploadField { name: "note".to_string(), filename: None, chunks: vec![vec![0u8; 100]] },
            file_field("a.bin", &[&[1, 2], &[3]]),
            name_field("caf\u{e9}".as_bytes()),
        ],
        &config(),
    )
    .unwrap();
    assert_eq!(form.file_filename, Some("a.bin".to_string()));
    assert_eq!(form.field_filename, Some("caf\u{e9}".to_string()));
    assert_eq!(form.contents, Some(Bytes::from(vec![1u8, 2, 3])));
    assert_eq!(read_upload(vec![], &config()).unwrap().contents, None);
}

#[test]
fn upload_with_a_field_that_is_too_long_is_refused() {
    let reply = read_upload(vec![file_field("a.bin", &[&[0u8; 10], &[0u8; 7]])], &config()).unwrap_err();
    assert_eq!((reply.status, text(&reply)), (400, "field value too big! 17"));
    let reply = read_upload(
        vec![file_field("a.bin", &[&[1u8]]), name_field(b"123456789"), file_field("b.bin", &[&[0u8; 99]])],
        &config(),
    )
    .unwrap_err();
    assert_eq!((reply.status, text(&reply)), (400, "field value too big! 9"));
}

#[test]
fn upload_with_a_filename_that_is_no_text_is_refused() {
    let reply = read_upload(vec![name_field(&[0xff, 0xfe])], &config()).unwrap_err();
    assert_eq!((reply.status, text(&reply)), (400, "No filename or file contents provided!"));
    let reply = read_upload(vec![name_field(&[0xe9])], &config()).unwrap_err();
    assert_eq!(reply.status, 400);
    let reply = read_upload(vec![name_field(&[0xed, 0xa0, 0x80])], &config()).unwrap_err();
    assert_eq!(reply.status, 400);
}

#[test]
fn add_file_stores_the_upload() {
    let mut service = service(5000);
    let fields = vec![file_field("a.bin", &[&[1, 2, 3]])];
    let reply = add_file(Some("files-key"), Some("1.2.3.4"), fields, &mut service).unwrap();
    assert_eq!((reply.status, text(&reply)), (200, "added file"));
    let stored = service.storage.get_file("a.bin".to_string()).unwrap();
    assert_eq!(&stored.contents[..], &[1u8, 2, 3][..]);
    assert_eq!((stored.created_at, stored.updated_at), (5000, 5000));

    let fields = vec![file_field("a.bin", &[&[9]])];
    let reply = add_file_at(Some("files-key"), Some("1.2.3.4"), fields, 6000, &mut service).unwrap();
    assert_eq!(reply.status, 200);
    let stored = service.storage.get_file("a.bin".to_string()).unwrap();
    assert_eq!(&stored.contents[..], &[9u8][..]);
    assert_eq!(stored.updated_at, 6000);
}

#[test]
fn add_file_turns_callers_away() {
    let mut service = service(5000);
    let reply = add_file(Some("links-key"), Some("1.2.3.4"), vec![file_field("a", &[&[1]])], &mut service).unwrap_err();
    assert_eq!(reply.status, 401);
    let reply = add_file(Some("files-key"), Some("0.0.0.0"), vec![file_field("a", &[&[1]])], &mut service).unwrap_err();
    assert_eq!(reply.status, 429);
    let reply = add_file(Some("files-key"), Some("1.2.3.4"), vec![file_field("a", &[&[0u8; 17]])], &mut service).unwrap_err();
    assert_eq!((reply.status, text(&reply)), (400, "field value too big! 17"));
    let reply = add_file(Some("files-key"), Some("1.2.3.4"), vec![name_field(b"a")], &mut service).unwrap();
    assert_eq!((reply.status, text(&reply)), (400, "No filename or file contents provided!"));
    assert_eq!(service.storage.list_files().unwrap().len(), 0);
    let mut broken = broken(1);
    let reply = add_file(Some("files-key"), Some("1.2.3.4"), vec![file_field("a", &[&[1]])], &mut broken).unwrap();
    assert_eq!((reply.status, text(&reply)), (500, "Something went wrong! no backend"));
}

#[test]
fn add_link_with_issues_and_stores() {
    let mut service = service(1000);
    let payload = CreateLink { filename: "report.pdf".to_string() };
    let reply = add_link_with(Some("links-key"), Some("1.2.3.4"), payload, 1000, 42, &mut service).unwrap();
    assert_eq!(reply.status, 200);
    assert_eq!(reply.content_type, Some("text/plain".to_string()));
    assert_eq!(text(&reply), "/download/00000000000003e8000000000000002a");
    let link = service.storage.get_link("00000000000003e8000000000000002a".to_string()).unwrap();
    assert_eq!(link.filename, "report.pdf");
    assert_eq!(link.created_at, 1000);
    assert_eq!(link.downloaded_at, None);
    assert_eq!(link.ip_address, None);
}

#[test]
fn add_link_uses_the_clock_and_a_fresh_number() {
    let mut service = service(1000);
    let mut urls = Vec::new();
    for _ in 0..4 {
        let payload = CreateLink { filename: "report.pdf".to_string() };
        let reply = add_link(Some("links-key"), Some("1.2.3.4"), payload, &mut service).unwrap();
        let url = text(&reply).to_string();
        assert_eq!(url.len(), "/download/".len() + 32);
        assert!(url.starts_with("/download/00000000000003e8"));
        assert!(url["/download/".len()..].chars().all(|c| c.is_ascii_hexdigit() && !c.is_ascii_uppercase()));
        urls.push(url);
    }
    urls.sort();
    urls.dedup();
    assert_eq!(urls.len(), 4);
    assert_eq!(service.storage.list_links().unwrap().len(), 4);
}

#[test]
fn add_link_turns_callers_away() {
    let mut service = service(1000);
    let payload = || CreateLink { filename: "report.pdf".to_string() };
    assert_eq!(add_link(None, Some("1.2.3.4"), payload(), &mut service).unwrap_err().status, 401);
    assert_eq!(add_link(Some("files-key"), Some("1.2.3.4"), payload(), &mut service).unwrap_err().status, 401);
    assert_eq!(add_link(Some("links-key"), None, payload(), &mut service).unwrap_err().status, 429);
    let reply = add_link(Some("links-key"), Some("1.2.3.4"), CreateLink { filename: String::new() }, &mut service).unwrap_err();
    assert_eq!((reply.status, text(&reply)), (400, "Invalid filename for link!"));
    assert_eq!(service.storage.list_links().unwrap().len(), 0);
    let mut broken = broken(1);
    let reply = add_link(Some("links-key"), Some("1.2.3.4"), payload(), &mut broken).unwrap_err();
    assert_eq!((reply.status, text(&reply)), (500, "Something went wrong! no backend"));
}

#[test]
fn listings_need_their_keys() {
    let mut service = service(1);
    service.storage.add_file(OnetimeFile {
        filename: "a.bin".to_string(),
        contents: Bytes::from(vec![1u8, 2, 3]),
        created_at: 10,
        updated_at: 20,
    }).unwrap();
    service.storage.add_link(OnetimeLink {
        token: "tok".to_string(),
        filename: "a.bin".to_string(),
        created_at: 30,
        downloaded_at: None,
        ip_address: None,
    }).unwrap();
    let files = list_files(Some("files-key"), &service).unwrap();
    assert_eq!(files.len(), 1);
    assert_eq!(files[0].filename, "a.bin");
    assert_eq!(files[0].contents_len, 3);
    assert_eq!((files[0].created_at, files[0].updated_at), (10, 20));
    assert_eq!(list_files(Some("links-key"), &service).unwrap_err().status, 401);
    let links = list_links(Some("links-key"), &service).unwrap();
    assert_eq!(links.len(), 1);
    assert_eq!(links[0].token, "tok");
    assert_eq!(list_links(None, &service).unwrap_err().status, 401);
    let broken = broken(1);
    let reply = list_files(Some("files-key"), &broken).unwrap_err();
    assert_eq!((reply.status, text(&reply)), (500, "Something went wrong! no backend"));
    let reply = list_links(Some("links-key"), &broken).unwrap_err();
    assert_eq!((reply.status, text(&reply)), (500, "Something went wrong! no backend"));
}

#[test]
fn download_link_serves_once() {
    let mut service = service(1000);
    add_file(Some("files-key"), Some("9.9.9.9"), vec![file_field("report.pdf", &[&[37, 80, 68, 70]])], &mut service).unwrap();
    let payload = CreateLink { filename: "report.pdf".to_string() };
    add_link_with(Some("links-key"), Some("9.9.9.9"), payload, 1000, 42, &mut service).unwrap();
    let token = "00000000000003e8000000000000002a".to_string();
    service.time_provider.set_fixed_unix_ts_ms(2000);

    let reply = download_link(Some("0.0.0.0"), token.clone(), &mut service);
    assert_eq!(reply.status, 429);
    assert_eq!(download_link(None, token.clone(), &mut service).status, 429);
    assert_eq!(service.storage.get_link(token.clone()).unwrap().downloaded_at, None);

    let reply = download_link(Some("1.2.3.4"), token.clone(), &mut service);
    assert_eq!(reply.status, 200);
    assert_eq!(reply.content_disposition, Some("inline; filename=\"report.pdf\"".to_string()));
    assert!(matches!(&reply.body, Body::Binary(b) if &b[..] == &[37u8, 80, 68, 70][..]));
    let link = service.storage.get_link(token.clone()).unwrap();
    assert_eq!(link.downloaded_at, Some(2000));
    assert_eq!(link.ip_address, Some("1.2.3.4".to_string()));

    let reply = download_link_at(Some("5.6.7.8"), token.clone(), 3000, &mut service);
    assert_eq!((reply.status, text(&reply)), (404, "Already downloaded"));
    let link = service.storage.get_link(token).unwrap();
    assert_eq!(link.downloaded_at, Some(2000));
    assert_eq!(link.ip_address, Some("1.2.3.4".to_string()));

    let reply = download_link(Some("1.2.3.4"), "nope".to_string(), &mut service);
    assert_eq!((reply.status, text(&reply)), (404, "Could not find file for link nope: Link not found"));
}

#[test]
fn backend_is_chosen_by_the_provider() {
    let env: Table<String> = Table::new();
    let mut config = config();
    config.provider = "dynamodb".to_string();
    match build_backend(&config, &env) {
        Backend::Dynamodb(storage) => assert_eq!(storage.files_table, "Onetime.Files"),
        _ => panic!("unexpected backend"),
    }
    config.provider = "postgres".to_string();
    match build_backend(&config, &env) {
        Backend::Postgres(storage) => assert_eq!(storage.connection.port, 5432),
        _ => panic!("unexpected backend"),
    }
    let mut bad_port: Table<String> = Table::new();
    bad_port.insert("PG_PORT".to_string(), "x".to_string());
    match build_backend(&config, &bad_port) {
        Backend::Invalid(storage) => assert_eq!(
            storage.error,
            "Invalid postgres storage provider! Port is not a valid number! x"
        ),
        _ => panic!("unexpected backend"),
    }
    for provider in ["", "Dynamodb", "sqlite"].iter() {
        config.provider = provider.to_string();
        match build_backend(&config, &env) {
            Backend::Invalid(storage) => assert_eq!(
                storage.error,
                format!("Invalid or no storage provider given! '{}'", provider)
            ),
            _ => panic!("unexpected backend"),
        }
    }
}
