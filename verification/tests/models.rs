use bytes::Bytes;
use onetime_downloader::models::{
    CreateLink, ErrorKind, MyError, OnetimeDownloaderConfig, OnetimeFile, OnetimeLink,
    DEFAULT_MAX_LEN_FILE, DEFAULT_MAX_LEN_VALUE,
};
use onetime_downloader::table::Table;

fn env(pairs: &[(&str, &str)]) -> Table<String> {
    let mut table = Table::new();
    for (name, value) in pairs.iter() {
        table.insert(name.to_string(), value.to_string());
    }
    table
}

#[test]
fn config_defaults() {
    let config = OnetimeDownloaderConfig::from_env(&env(&[]));
    assert_eq!(config.provider, "");
    assert_eq!(config.api_key_files, "");
    assert_eq!(config.api_key_links, "");
    assert_eq!(config.max_len_file, 100000);
    assert_eq!(config.max_len_value, 80);
    assert_eq!(DEFAULT_MAX_LEN_FILE, 100000);
    assert_eq!(DEFAULT_MAX_LEN_VALUE, 80);
}

#[test]
fn config_from_environment() {
    let config = OnetimeDownloaderConfig::from_env(&env(&[
        ("ONETIME_PROVIDER", "postgres"),
        ("FILES_API_KEY", "files-key"),
        ("LINKS_API_KEY", "links-key"),
        ("FILE_MAX_LEN", "2048"),
        ("VALUE_MAX_LEN", "+16"),
        ("UNRELATED", "x"),
    ]));
    assert_eq!(config.provider, "postgres");
    assert_eq!(config.api_key_files, "files-key");
    assert_eq!(config.api_key_links, "links-key");
    assert_eq!(config.max_len_file, 2048);
    assert_eq!(config.max_len_value, 16);
}

#[test]
fn config_sizes_that_are_no_numbers_get_defaults() {
    let config = OnetimeDownloaderConfig::from_env(&env(&[
        ("FILE_MAX_LEN", "lots"),
        ("VALUE_MAX_LEN", "-1"),
    ]));
    assert_eq!(config.max_len_file, 100000);
    assert_eq!(config.max_len_value, 80);
    let config = OnetimeDownloaderConfig::from_env(&env(&[
        ("FILE_MAX_LEN", ""),
        ("VALUE_MAX_LEN", "99999999999999999999999999"),
    ]));
    assert_eq!(config.max_len_file, 100000);
    assert_eq!(config.max_len_value, 80);
}

#[test]
fn env_var_string_falls_back() {
    let snapshot = env(&[("A", "1")]);
    assert_eq!(OnetimeDownloaderConfig::env_var_string(&snapshot, "A", "d".to_string()), "1");
    assert_eq!(OnetimeDownloaderConfig::env_var_string(&snapshot, "B", "d".to_string()), "d");
}

#[test]
fn config_clone_keeps_everything() {
    let config = OnetimeDownloaderConfig::from_env(&env(&[("ONETIME_PROVIDER", "dynamodb")]));
    let copy = config.clone();
    assert_eq!(copy.provider, "dynamodb");
    assert_eq!(copy.max_len_file, config.max_len_file);
    assert_eq!(copy.max_len_value, config.max_len_value);
}

#[test]
fn file_validity_and_summary() {
    let file = OnetimeFile {
        filename: "report.pdf".to_string(),
        contents: Bytes::from(vec![1u8, 2, 3, 4, 5]),
        created_at: 10,
        updated_at: 20,
    };
    assert!(file.is_valid());
    let summary = file.summary();
    assert_eq!(summary.filename, "report.pdf");
    assert_eq!(summary.contents_len, 5);
    assert_eq!(summary.created_at, 10);
    assert_eq!(summary.updated_at, 20);
    let copy = file.clone();
    assert_eq!(copy.filename, "report.pdf");
    assert_eq!(&copy.contents[..], &[1u8, 2, 3, 4, 5][..]);
    assert_eq!(copy.created_at, 10);
    assert_eq!(copy.updated_at, 20);
    let nameless = OnetimeFile {
        filename: String::new(),
        contents: Bytes::new(),
        created_at: 0,
        updated_at: 0,
    };
    assert!(!nameless.is_valid());
    assert_eq!(nameless.summary().contents_len, 0);
}

#[test]
fn link_validity_and_clone() {
    let link = OnetimeLink {
        token: "t".to_string(),
        filename: "f".to_string(),
        created_at: 1,
        downloaded_at: Some(2),
        ip_address: Some("1.2.3.4".to_string()),
    };
    assert!(link.is_valid());
    let copy = link.clone();
    assert_eq!(copy.token, "t");
    assert_eq!(copy.filename, "f");
    assert_eq!(copy.created_at, 1);
    assert_eq!(copy.downloaded_at, Some(2));
    assert_eq!(copy.ip_address, Some("1.2.3.4".to_string()));
    let issued = link.clone().issued();
    assert_eq!(issued.token, "t");
    assert_eq!(issued.filename, "f");
    assert_eq!(issued.created_at, 1);
    assert_eq!(issued.downloaded_at, None);
    assert_eq!(issued.ip_address, None);
    let tokenless = OnetimeLink { token: String::new(), ..link.clone() };
    assert!(!tokenless.is_valid());
    let fileless = OnetimeLink { filename: String::new(), ..link };
    assert!(!fileless.is_valid());
}

#[test]
fn create_link_validity() {
    assert!(CreateLink { filename: "f".to_string() }.is_valid());
    assert!(!CreateLink { filename: String::new() }.is_valid());
}

#[test]
fn error_carries_kind_and_message() {
    let e = MyError::new(ErrorKind::Malformed, "Missing field Token".to_string());
    assert_eq!(e.kind, ErrorKind::Malformed);
    assert_eq!(e.to_string(), "Missing field Token");
    let copy = e.clone();
    assert_eq!(copy.kind, ErrorKind::Malformed);
    assert_eq!(copy.message, "Missing field Token");
    assert_ne!(ErrorKind::NotFound, ErrorKind::AlreadyRedeemed);
}

#[test]
fn validation_reports_invalid_input() {
    let file = OnetimeFile {
        filename: String::new(),
        contents: Bytes::from(vec![1u8]),
        created_at: 0,
        updated_at: 0,
    };
    let e = file.validate().unwrap_err();
    assert_eq!((e.kind, e.message.as_str()), (ErrorKind::Invalid, "File without a filename"));
    assert!(OnetimeFile { filename: "f".to_string(), ..file }.validate().is_ok());

    let link = OnetimeLink {
        token: String::new(),
        filename: "f".to_string(),
        created_at: 0,
        downloaded_at: None,
        ip_address: None,
    };
    let e = link.validate().unwrap_err();
    assert_eq!(
        (e.kind, e.message.as_str()),
        (ErrorKind::Invalid, "Link without a token or a filename")
    );
    assert!(OnetimeLink { token: "t".to_string(), ..link }.validate().is_ok());

    let e = CreateLink { filename: String::new() }.validate().unwrap_err();
    assert_eq!((e.kind, e.message.as_str()), (ErrorKind::Invalid, "Invalid filename for link!"));
    assert!(CreateLink { filename: "f".to_string() }.validate().is_ok());
}
