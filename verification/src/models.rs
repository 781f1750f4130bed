//! The entity model: files, links, the errors that storage reports, and the
//! mathematical views that contracts are stated over.

use crate::contents::{bytes_clone, bytes_contents, bytes_len};
use crate::table::Table;
use crate::text::{parse_unsigned, parse_unsigned_spec};
use crate::time_provider::TimeProvider;
use bytes::Bytes;
use vstd::prelude::*;

verus! {

/// Why an operation did not deliver.
#[derive(Debug, Clone, Copy, PartialEq, Eq, Structural)]
pub enum ErrorKind {
    /// No such file or link.
    NotFound,
    /// The link was consumed before, or by a caller that got there first.
    AlreadyRedeemed,
    /// A stored record does not parse into the entity model.
    Malformed,
    /// The backend could not be reached or is not configured.
    Unavailable,
    /// The input fails basic shape validation.
    Invalid,
}

/// An error with its kind and a message that names the operation and the
/// entity concerned.
#[derive(Debug)]
pub struct MyError {
    pub kind: ErrorKind,
    pub message: String,
}

pub struct ErrorView {
    pub kind: ErrorKind,
    pub message: Seq<char>,
}

impl View for MyError {
    type V = ErrorView;

    open spec fn view(&self) -> ErrorView {
        ErrorView { kind: self.kind, message: self.message@ }
    }
}

impl Clone for MyError {
    fn clone(&self) -> (r: Self)
        ensures
            r@ == self@,
    {
        MyError { kind: self.kind, message: self.message.clone() }
    }
}

/// The error for an input that fails validation.
pub open spec fn invalid(message: Seq<char>) -> ErrorView {
    ErrorView { kind: ErrorKind::Invalid, message }
}

impl MyError {
    pub fn new(kind: ErrorKind, message: String) -> (r: MyError)
        ensures
            r@ == (ErrorView { kind, message: message@ }),
    {
        MyError { kind, message }
    }

    /// The message, as the error is shown to a caller.
    pub fn to_string(&self) -> (r: String)
        ensures
            r@ == self@.message,
    {
        self.message.clone()
    }
}

/// An uploaded file. `filename` is its identity and its storage key.
#[derive(Debug)]
pub struct OnetimeFile {
    pub filename: String,
    pub contents: Bytes,
    pub created_at: i64,
    pub updated_at: i64,
}

pub struct FileView {
    pub filename: Seq<char>,
    pub contents: Seq<u8>,
    pub created_at: i64,
    pub updated_at: i64,
}

impl View for OnetimeFile {
    type V = FileView;

    open spec fn view(&self) -> FileView {
        FileView {
            filename: self.filename@,
            contents: bytes_contents(self.contents),
            created_at: self.created_at,
            updated_at: self.updated_at,
        }
    }
}

impl FileView {
    /// A file is well formed when it has a name.
    pub open spec fn valid(self) -> bool {
        self.filename.len() > 0
    }
}

impl Clone for OnetimeFile {
    fn clone(&self) -> (r: Self)
        ensures
            r@ == self@,
    {
        OnetimeFile {
            filename: self.filename.clone(),
            contents: bytes_clone(&self.contents),
            created_at: self.created_at,
            updated_at: self.updated_at,
        }
    }
}

impl OnetimeFile {
    /// Whether the file has a name to be stored under.
    pub fn is_valid(&self) -> (ok: bool)
        ensures
            ok == self@.valid(),
    {
        !self.filename.as_str().is_empty()
    }

    /// Lets a file through that has a name.
    pub fn validate(&self) -> (r: Result<(), MyError>)
        ensures
            r is Ok <==> self@.valid(),
            r matches Err(e) ==> e@ == invalid("File without a filename"@),
    {
        if self.is_valid() {
            Ok(())
        } else {
            Err(MyError::new(ErrorKind::Invalid, String::from_str("File without a filename")))
        }
    }

    /// What a listing shows of the file: everything but the bytes, of which
    /// it shows the number.
    pub fn summary(&self) -> (r: FileSummary)
        ensures
            r@ == self@.summary(),
    {
        FileSummary {
            filename: self.filename.clone(),
            contents_len: bytes_len(&self.contents),
            created_at: self.created_at,
            updated_at: self.updated_at,
        }
    }
}

/// The listing entry of a file.
#[derive(Debug)]
pub struct FileSummary {
    pub filename: String,
    pub contents_len: usize,
    pub created_at: i64,
    pub updated_at: i64,
}

pub struct FileSummaryView {
    pub filename: Seq<char>,
    pub contents_len: nat,
    pub created_at: i64,
    pub updated_at: i64,
}

impl View for FileSummary {
    type V = FileSummaryView;

    open spec fn view(&self) -> FileSummaryView {
        FileSummaryView {
            filename: self.filename@,
            contents_len: self.contents_len as nat,
            created_at: self.created_at,
            updated_at: self.updated_at,
        }
    }
}

impl FileView {
    pub open spec fn summary(self) -> FileSummaryView {
        FileSummaryView {
            filename: self.filename,
            contents_len: self.contents.len(),
            created_at: self.created_at,
            updated_at: self.updated_at,
        }
    }
}

/// A single-use download link. `downloaded_at` absent means the link has
/// not been redeemed; `ip_address` is absent until it is.
#[derive(Debug)]
pub struct OnetimeLink {
    pub token: String,
    pub filename: String,
    pub created_at: i64,
    pub downloaded_at: Option<i64>,
    pub ip_address: Option<String>,
}

pub struct LinkView {
    pub token: Seq<char>,
    pub filename: Seq<char>,
    pub created_at: i64,
    pub downloaded_at: Option<i64>,
    pub ip_address: Option<Seq<char>>,
}

pub open spec fn text_option_view(o: Option<String>) -> Option<Seq<char>> {
    match o {
        Some(s) => Some(s@),
        None => None,
    }
}

impl View for OnetimeLink {
    type V = LinkView;

    open spec fn view(&self) -> LinkView {
        LinkView {
            token: self.token@,
            filename: self.filename@,
            created_at: self.created_at,
            downloaded_at: self.downloaded_at,
            ip_address: text_option_view(self.ip_address),
        }
    }
}

impl LinkView {
    /// A link is well formed when it has a token and names a file.
    pub open spec fn valid(self) -> bool {
        self.token.len() > 0 && self.filename.len() > 0
    }

    /// The link has been consumed.
    pub open spec fn redeemed(self) -> bool {
        self.downloaded_at is Some
    }

    /// The link as it is when it is issued: nobody has consumed it.
    pub open spec fn issued(self) -> LinkView {
        LinkView { downloaded_at: None, ip_address: None, ..self }
    }

    /// The link as it is after `ip_address` consumed it at `downloaded_at`.
    pub open spec fn redeem(self, ip_address: Seq<char>, downloaded_at: i64) -> LinkView {
        LinkView {
            downloaded_at: Some(downloaded_at),
            ip_address: Some(ip_address),
            ..self
        }
    }
}

pub fn clone_text_option(o: &Option<String>) -> (r: Option<String>)
    ensures
        text_option_view(r) == text_option_view(*o),
{
    match o {
        Some(s) => Some(s.clone()),
        None => None,
    }
}

impl Clone for OnetimeLink {
    fn clone(&self) -> (r: Self)
        ensures
            r@ == self@,
    {
        OnetimeLink {
            token: self.token.clone(),
            filename: self.filename.clone(),
            created_at: self.created_at,
            downloaded_at: self.downloaded_at,
            ip_address: clone_text_option(&self.ip_address),
        }
    }
}

impl OnetimeLink {
    /// The link as it is when it is issued: what it says of a download is
    /// left out.
    pub fn issued(self) -> (r: OnetimeLink)
        ensures
            r@ == self@.issued(),
    {
        OnetimeLink {
            token: self.token,
            filename: self.filename,
            created_at: self.created_at,
            downloaded_at: None,
            ip_address: None,
        }
    }

    /// Whether the link has a token and names a file.
    pub fn is_valid(&self) -> (ok: bool)
        ensures
            ok == self@.valid(),
    {
        !self.token.as_str().is_empty() && !self.filename.as_str().is_empty()
    }

    /// Lets a link through that has a token and names a file.
    pub fn validate(&self) -> (r: Result<(), MyError>)
        ensures
            r is Ok <==> self@.valid(),
            r matches Err(e) ==> e@ == invalid("Link without a token or a filename"@),
    {
        if self.is_valid() {
            Ok(())
        } else {
            Err(
                MyError::new(
                    ErrorKind::Invalid,
                    String::from_str("Link without a token or a filename"),
                ),
            )
        }
    }
}

/// The request to issue a link for a file.
#[derive(Debug)]
pub struct CreateLink {
    pub filename: String,
}

impl CreateLink {
    /// Whether the request names a file.
    pub fn is_valid(&self) -> (ok: bool)
        ensures
            ok == (self.filename@.len() > 0),
    {
        !self.filename.as_str().is_empty()
    }

    /// Lets a request through that names a file.
    pub fn validate(&self) -> (r: Result<(), MyError>)
        ensures
            r is Ok <==> self.filename@.len() > 0,
            r matches Err(e) ==> e@ == invalid("Invalid filename for link!"@),
    {
        if self.is_valid() {
            Ok(())
        } else {
            Err(MyError::new(ErrorKind::Invalid, String::from_str("Invalid filename for link!")))
        }
    }
}

/// What the process is configured with. It is read once, at startup.
#[derive(Debug)]
pub struct OnetimeDownloaderConfig {
    pub provider: String,
    pub api_key_files: String,
    pub api_key_links: String,
    pub max_len_file: usize,
    pub max_len_value: usize,
}

pub const DEFAULT_MAX_LEN_FILE: usize = 100000;

pub const DEFAULT_MAX_LEN_VALUE: usize = 80;

/// The text that an environment gives a name, or `default` where it gives
/// none.
pub open spec fn env_text(env: Map<Seq<char>, String>, name: Seq<char>, default: Seq<char>) -> Seq<
    char,
> {
    if env.contains_key(name) {
        env[name]@
    } else {
        default
    }
}

/// The number that an environment gives a name, or `default` where it gives
/// none or one that is no number of the machine's word size.
pub open spec fn env_number(env: Map<Seq<char>, String>, name: Seq<char>, default: usize) -> usize {
    if env.contains_key(name) {
        match parse_unsigned_spec(env[name]@, usize::MAX as int) {
            Some(v) => v as usize,
            None => default,
        }
    } else {
        default
    }
}

impl Clone for OnetimeDownloaderConfig {
    fn clone(&self) -> (r: Self)
        ensures
            r.provider@ == self.provider@,
            r.api_key_files@ == self.api_key_files@,
            r.api_key_links@ == self.api_key_links@,
            r.max_len_file == self.max_len_file,
            r.max_len_value == self.max_len_value,
    {
        OnetimeDownloaderConfig {
            provider: self.provider.clone(),
            api_key_files: self.api_key_files.clone(),
            api_key_links: self.api_key_links.clone(),
            max_len_file: self.max_len_file,
            max_len_value: self.max_len_value,
        }
    }
}

impl OnetimeDownloaderConfig {
    /// Looks a name up in a snapshot of the environment.
    pub fn env_var_string(env: &Table<String>, name: &str, default: String) -> (r: String)
        ensures
            r@ == env_text(env@, name@, default@),
    {
        match env.get(name) {
            Some(found) => found.clone(),
            None => default,
        }
    }

    fn env_var_parse(env: &Table<String>, name: &str, default: usize) -> (r: usize)
        ensures
            r == env_number(env@, name@, default),
    {
        match env.get(name) {
            Some(found) => match parse_unsigned(found.as_str(), usize::MAX as u64) {
                Some(v) => v as usize,
                None => default,
            },
            None => default,
        }
    }

    /// The configuration that a snapshot of the environment describes.
    /// Names that it lacks, and sizes that are no numbers, get their
    /// defaults.
    pub fn from_env(env: &Table<String>) -> (r: OnetimeDownloaderConfig)
        ensures
            r.provider@ == env_text(env@, "ONETIME_PROVIDER"@, Seq::empty()),
            r.api_key_files@ == env_text(env@, "FILES_API_KEY"@, Seq::empty()),
            r.api_key_links@ == env_text(env@, "LINKS_API_KEY"@, Seq::empty()),
            r.max_len_file == env_number(env@, "FILE_MAX_LEN"@, DEFAULT_MAX_LEN_FILE),
            r.max_len_value == env_number(env@, "VALUE_MAX_LEN"@, DEFAULT_MAX_LEN_VALUE),
    {
        OnetimeDownloaderConfig {
            provider: Self::env_var_string(env, "ONETIME_PROVIDER", String::new()),
            api_key_files: Self::env_var_string(env, "FILES_API_KEY", String::new()),
            api_key_links: Self::env_var_string(env, "LINKS_API_KEY", String::new()),
            max_len_file: Self::env_var_parse(env, "FILE_MAX_LEN", DEFAULT_MAX_LEN_FILE),
            max_len_value: Self::env_var_parse(env, "VALUE_MAX_LEN", DEFAULT_MAX_LEN_VALUE),
        }
    }
}

/// Everything that is stored: the files by filename, the links by token.
pub struct StoreView {
    pub files: Map<Seq<char>, FileView>,
    pub links: Map<Seq<char>, LinkView>,
}

impl StoreView {
    pub open spec fn empty() -> StoreView {
        StoreView { files: Map::empty(), links: Map::empty() }
    }

    /// The store after `file` took the place of whatever had its filename.
    pub open spec fn with_file(self, file: FileView) -> StoreView {
        StoreView { files: self.files.insert(file.filename, file), ..self }
    }

    /// The store after an upload of `file` that keeps the creation time of
    /// a file that was there under the same filename.
    pub open spec fn with_file_kept(self, file: FileView) -> StoreView {
        if self.files.contains_key(file.filename) {
            self.with_file(FileView { created_at: self.files[file.filename].created_at, ..file })
        } else {
            self.with_file(file)
        }
    }

    /// The store after `link` took the place of whatever had its token.
    pub open spec fn with_link(self, link: LinkView) -> StoreView {
        StoreView { links: self.links.insert(link.token, link), ..self }
    }

    /// The link under `token` is there and has not been consumed.
    pub open spec fn redeemable(self, token: Seq<char>) -> bool {
        self.links.contains_key(token) && !self.links[token].redeemed()
    }

    /// The store after the link under `token` was consumed.
    pub open spec fn redeemed(self, token: Seq<char>, ip_address: Seq<char>, downloaded_at: i64) -> StoreView {
        StoreView {
            links: self.links.insert(token, self.links[token].redeem(ip_address, downloaded_at)),
            ..self
        }
    }
}

/// `after` is `before` with `file` uploaded, in one of the two ways in
/// which a backend may treat the creation time of a file that was there.
pub open spec fn uploaded(before: StoreView, file: FileView, after: StoreView) -> bool {
    after == before.with_file(file) || after == before.with_file_kept(file)
}

/// Round trip: a file that was uploaded is there under its filename, with
/// the bytes and the time of update that it was uploaded with.
pub proof fn lemma_upload_then_fetch(before: StoreView, file: FileView, after: StoreView)
    requires
        uploaded(before, file, after),
    ensures
        after.files.contains_key(file.filename),
        after.files[file.filename].filename == file.filename,
        after.files[file.filename].contents == file.contents,
        after.files[file.filename].updated_at == file.updated_at,
        after.links == before.links,
{
}

/// Uploading again under the same filename replaces the contents and the
/// time of update. The creation time is that of the second upload where
/// the backend replaces the record whole, and stays what it was where the
/// backend keeps it.
pub proof fn lemma_second_upload_wins(
    start: StoreView,
    first: FileView,
    between: StoreView,
    second: FileView,
    end: StoreView,
)
    requires
        first.filename == second.filename,
        uploaded(start, first, between),
        uploaded(between, second, end),
    ensures
        end.files.contains_key(second.filename),
        end.files[second.filename].contents == second.contents,
        end.files[second.filename].updated_at == second.updated_at,
        end == between.with_file(second) ==> end.files[second.filename].created_at
            == second.created_at,
        end == between.with_file_kept(second) ==> end.files[second.filename].created_at
            == between.files[first.filename].created_at,
{
}

/// `listed` holds every file of `files` once, and nothing else.
pub open spec fn lists_files(listed: Seq<OnetimeFile>, files: Map<Seq<char>, FileView>) -> bool {
    &&& forall|i: int|
        0 <= i < listed.len() ==> #[trigger] files.contains_key(listed[i]@.filename)
            && files[listed[i]@.filename] == listed[i]@
    &&& forall|i: int, j: int|
        0 <= i < j < listed.len() ==> listed[i]@.filename != listed[j]@.filename
    &&& forall|k: Seq<char>| #[trigger]
        files.contains_key(k) ==> exists|i: int| 0 <= i < listed.len() && listed[i]@.filename == k
}

/// `listed` holds every link of `links` once, and nothing else.
pub open spec fn lists_links(listed: Seq<OnetimeLink>, links: Map<Seq<char>, LinkView>) -> bool {
    &&& forall|i: int|
        0 <= i < listed.len() ==> #[trigger] links.contains_key(listed[i]@.token)
            && links[listed[i]@.token] == listed[i]@
    &&& forall|i: int, j: int| 0 <= i < j < listed.len() ==> listed[i]@.token != listed[j]@.token
    &&& forall|k: Seq<char>| #[trigger]
        links.contains_key(k) ==> exists|i: int| 0 <= i < listed.len() && listed[i]@.token == k
}

/// The storage port: what every backend offers, whatever it keeps its
/// records in.
///
/// `store` is what the backend holds. A backend that is `dependable` never
/// fails for a reason of its own: its operations fail only where the
/// contract says so. One that is not may fail at any call, and then leaves
/// what it holds as it was.
pub trait OnetimeStorage {
    spec fn store(&self) -> StoreView;

    spec fn dependable(&self) -> bool;

    /// Stores a file under its filename, in place of one that was there.
    /// The creation time of a file that was there is kept or replaced, as
    /// the backend has it.
    fn add_file(&mut self, file: OnetimeFile) -> (r: Result<bool, MyError>)
        ensures
            final(self).dependable() == old(self).dependable(),
            match r {
                Ok(added) => added && uploaded(old(self).store(), file@, final(self).store()),
                Err(_) => final(self).store() == old(self).store() && !old(self).dependable(),
            },
    ;

    /// All files, in no particular order.
    fn list_files(&self) -> (r: Result<Vec<OnetimeFile>, MyError>)
        ensures
            match r {
                Ok(files) => lists_files(files@, self.store().files),
                Err(_) => !self.dependable(),
            },
    ;

    /// The file under a filename.
    fn get_file(&self, filename: String) -> (r: Result<OnetimeFile, MyError>)
        ensures
            match r {
                Ok(file) => self.store().files.contains_key(filename@) && file@
                    == self.store().files[filename@] && file@.filename == filename@,
                Err(e) => if self.dependable() {
                    e@.kind == ErrorKind::NotFound && !self.store().files.contains_key(filename@)
                } else {
                    e@.kind == ErrorKind::NotFound ==> !self.store().files.contains_key(filename@)
                },
            },
    ;

    /// Stores a link under its token, in place of one that was there. The
    /// link goes in as issued: whatever `link` says of a download is left
    /// out, so that a link becomes consumed by `mark_downloaded` alone.
    fn add_link(&mut self, link: OnetimeLink) -> (r: Result<bool, MyError>)
        ensures
            final(self).dependable() == old(self).dependable(),
            match r {
                Ok(added) => added && final(self).store() == old(self).store().with_link(
                    link@.issued(),
                ),
                Err(_) => final(self).store() == old(self).store() && !old(self).dependable(),
            },
    ;

    /// All links, in no particular order.
    fn list_links(&self) -> (r: Result<Vec<OnetimeLink>, MyError>)
        ensures
            match r {
                Ok(links) => lists_links(links@, self.store().links),
                Err(_) => !self.dependable(),
            },
    ;

    /// The link under a token.
    fn get_link(&self, token: String) -> (r: Result<OnetimeLink, MyError>)
        ensures
            match r {
                Ok(link) => self.store().links.contains_key(token@) && link@
                    == self.store().links[token@] && link@.token == token@,
                Err(e) => if self.dependable() {
                    e@.kind == ErrorKind::NotFound && !self.store().links.contains_key(token@)
                } else {
                    e@.kind == ErrorKind::NotFound ==> !self.store().links.contains_key(token@)
                },
            },
    ;

    /// Consumes the link under `link.token` for `ip_address` at
    /// `downloaded_at`, if the link is there and nobody has consumed it.
    ///
    /// `Ok(false)` says that this call consumed the link. `Ok(true)` says
    /// that it did not, because the link had been consumed or is not there:
    /// the caller lost. What is stored changes in the first case only.
    fn mark_downloaded(&mut self, link: OnetimeLink, ip_address: String, downloaded_at: i64) -> (r:
        Result<bool, MyError>)
        ensures
            final(self).dependable() == old(self).dependable(),
            match r {
                Ok(lost) => {
                    &&& lost == !old(self).store().redeemable(link@.token)
                    &&& final(self).store() == (if lost {
                        old(self).store()
                    } else {
                        old(self).store().redeemed(link@.token, ip_address@, downloaded_at)
                    })
                },
                Err(_) => final(self).store() == old(self).store() && !old(self).dependable(),
            },
    ;
}

/// What a request handler works with: the clock, the configuration and the
/// one backend that the process was started with.
pub struct OnetimeDownloaderService<T: TimeProvider, S: OnetimeStorage> {
    pub time_provider: T,
    pub config: OnetimeDownloaderConfig,
    pub storage: S,
}

} // verus!
