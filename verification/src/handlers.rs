//! What the request handlers decide: who may call, what an upload amounts
//! to, what a new link looks like, and what is said in reply.

use crate::contents::{bytes_contents, bytes_from_vec};
use crate::models::{
    lists_links, text_option_view, uploaded, CreateLink, ErrorView, FileSummary, FileSummaryView, FileView,
    LinkView, MyError, OnetimeDownloaderConfig, OnetimeDownloaderService, OnetimeFile, OnetimeLink,
    OnetimeStorage, StoreView,
};
use crate::redemption::{redeem, redeems, Outcome, OutcomeView};
use crate::time_provider::TimeProvider;
use crate::storage::dynamodb;
use crate::text::{
    bits_of, decimal, format_sum, hex_fixed, push_hex_fixed, same_text, twos_complement,
};
use bytes::Bytes;
use rand::Rng;
use vstd::prelude::*;
use vstd::utf8::{decode_utf8, valid_utf8};

verus! {

pub const API_KEY_HEADER: &'static str = "X-Api-Key";

/// What a reply carries.
#[derive(Debug)]
pub enum Body {
    Empty,
    Text(String),
    Binary(Bytes),
}

/// A reply to a request, in plain values: the status code, the two headers
/// that a reply may carry, and the body.
#[derive(Debug)]
pub struct Reply {
    pub status: u16,
    pub content_type: Option<String>,
    pub content_disposition: Option<String>,
    pub body: Body,
}

pub enum BodyView {
    Empty,
    Text(Seq<char>),
    Binary(Seq<u8>),
}

pub struct ReplyView {
    pub status: u16,
    pub content_type: Option<Seq<char>>,
    pub content_disposition: Option<Seq<char>>,
    pub body: BodyView,
}

impl View for Body {
    type V = BodyView;

    open spec fn view(&self) -> BodyView {
        match *self {
            Body::Empty => BodyView::Empty,
            Body::Text(text) => BodyView::Text(text@),
            Body::Binary(bytes) => BodyView::Binary(bytes_contents(bytes)),
        }
    }
}

impl View for Reply {
    type V = ReplyView;

    open spec fn view(&self) -> ReplyView {
        ReplyView {
            status: self.status,
            content_type: text_option_view(self.content_type),
            content_disposition: text_option_view(self.content_disposition),
            body: self.body@,
        }
    }
}

impl ReplyView {
    /// A reply that is a status and a line of text.
    pub open spec fn plain(status: u16, text: Seq<char>) -> ReplyView {
        ReplyView {
            status,
            content_type: None,
            content_disposition: None,
            body: BodyView::Text(text),
        }
    }

    /// A reply that is a status and nothing else.
    pub open spec fn bare(status: u16) -> ReplyView {
        ReplyView { status, content_type: None, content_disposition: None, body: BodyView::Empty }
    }

    pub open spec fn unauthorized() -> ReplyView {
        Self::plain(401, "Invalid or missing api key!"@)
    }

    pub open spec fn too_many_requests() -> ReplyView {
        Self::bare(429)
    }

    pub open spec fn failure(why: Seq<char>) -> ReplyView {
        Self::plain(500, "Something went wrong! "@ + why)
    }

    pub open spec fn too_big(size: int) -> ReplyView {
        Self::plain(400, "field value too big! "@ + decimal(size))
    }

    pub open spec fn no_upload() -> ReplyView {
        Self::plain(400, "No filename or file contents provided!"@)
    }

    /// The reply that carries a file.
    pub open spec fn download(filename: Seq<char>, contents: Seq<u8>) -> ReplyView {
        ReplyView {
            status: 200,
            content_type: Some("application/octet-stream"@),
            content_disposition: Some("inline; filename=\""@ + filename + "\""@),
            body: BodyView::Binary(contents),
        }
    }

    /// The reply for each way in which an attempt to redeem a link ends.
    pub open spec fn of_outcome(outcome: OutcomeView) -> ReplyView {
        match outcome {
            OutcomeView::Content { filename, contents } => Self::download(filename, contents),
            OutcomeView::NotFound { message } => Self::plain(404, message),
            OutcomeView::AlreadyRedeemed { raced } => if raced {
                Self::plain(404, "Already downloaded race"@)
            } else {
                Self::plain(404, "Already downloaded"@)
            },
            OutcomeView::Internal { message } => Self::plain(500, message),
            OutcomeView::ContentMissing { message } => Self::plain(404, message),
        }
    }
}

impl Reply {
    pub fn plain(status: u16, text: String) -> (r: Reply)
        ensures
            r@ == ReplyView::plain(status, text@),
    {
        Reply { status, content_type: None, content_disposition: None, body: Body::Text(text) }
    }

    pub fn bare(status: u16) -> (r: Reply)
        ensures
            r@ == ReplyView::bare(status),
    {
        Reply { status, content_type: None, content_disposition: None, body: Body::Empty }
    }

    /// The reply that tells where a new link is redeemed.
    pub fn link_issued(token: &str) -> (r: Reply)
        ensures
            r@ == link_reply(token@),
    {
        Reply {
            status: 200,
            content_type: Some(String::from_str("text/plain")),
            content_disposition: None,
            body: Body::Text(download_url(token)),
        }
    }

    /// The reply to a call that failed in storage.
    pub fn failure(why: &MyError) -> (r: Reply)
        ensures
            r@ == ReplyView::failure(why@.message),
    {
        let mut text = String::from_str("Something went wrong! ");
        text.append(why.message.as_str());
        Reply::plain(500, text)
    }

    /// The reply for the way in which an attempt to redeem a link ended.
    pub fn of_outcome(outcome: Outcome) -> (r: Reply)
        ensures
            r@ == ReplyView::of_outcome(outcome@),
    {
        match outcome {
            Outcome::Content { filename, contents } => {
                let mut disposition = String::from_str("inline; filename=\"");
                disposition.append(filename.as_str());
                disposition.append("\"");
                Reply {
                    status: 200,
                    content_type: Some(String::from_str("application/octet-stream")),
                    content_disposition: Some(disposition),
                    body: Body::Binary(contents),
                }
            },
            Outcome::NotFound { message } => Reply::plain(404, message),
            Outcome::AlreadyRedeemed { raced } => if raced {
                Reply::plain(404, String::from_str("Already downloaded race"))
            } else {
                Reply::plain(404, String::from_str("Already downloaded"))
            },
            Outcome::Internal { message } => Reply::plain(500, message),
            Outcome::ContentMissing { message } => Reply::plain(404, message),
        }
    }
}

/// The caller holds the key: the request carries the key header, and its
/// value is the key.
pub open spec fn key_matches(header: Option<&str>, api_key: Seq<char>) -> bool {
    header matches Some(value) && value@ == api_key
}

/// Lets the holder of the key through.
pub fn check_api_key(header: Option<&str>, api_key: &str) -> (r: Result<bool, Reply>)
    ensures
        match r {
            Ok(valid) => valid && key_matches(header, api_key@),
            Err(reply) => !key_matches(header, api_key@) && reply@ == ReplyView::unauthorized(),
        },
{
    let valid_api_key = match header {
        Some(v) => same_text(v, api_key),
        None => false,
    };
    if valid_api_key {
        Ok(true)
    } else {
        Err(Reply::plain(401, String::from_str("Invalid or missing api key!")))
    }
}

/// The caller's address is known and is not the unset address.
pub open spec fn address_known(remote: Option<&str>) -> bool {
    remote matches Some(ip) && ip@ != "0.0.0.0"@
}

/// Lets a caller with a known address through.
pub fn check_rate_limit(remote: Option<&str>) -> (r: Result<bool, Reply>)
    ensures
        match r {
            Ok(valid) => valid && address_known(remote),
            Err(reply) => !address_known(remote) && reply@ == ReplyView::too_many_requests(),
        },
{
    let valid_ip = match remote {
        Some(ip) => !same_text(ip, "0.0.0.0"),
        None => false,
    };
    if valid_ip {
        Ok(true)
    } else {
        Err(Reply::bare(429))
    }
}

/// The reply to a request that matches no route.
pub fn not_found() -> (r: Reply)
    ensures
        r@ == ReplyView::plain(404, "404 DNE"@),
{
    Reply::plain(404, String::from_str("404 DNE"))
}

fn append_bytes(val: &mut Vec<u8>, data: &[u8])
    ensures
        final(val)@ == old(val)@ + data@,
{
    val.extend_from_slice(data);
    assert(val@ =~= old(val)@ + data@);
}

/// Adds one chunk of a field's value to what has been collected, unless
/// the value would then be longer than `max`: then nothing is added and
/// the reply says how long the value would have been.
pub fn collect_chunk(val: &mut Vec<u8>, data: &[u8], max: usize) -> (r: Result<(), Reply>)
    ensures
        match r {
            Ok(_) => old(val)@.len() + data@.len() <= max && final(val)@ == old(val)@ + data@,
            Err(reply) => old(val)@.len() + data@.len() > max && final(val)@ == old(val)@
                && reply@ == ReplyView::too_big((old(val)@.len() + data@.len()) as int),
        },
{
    let fits = val.len() <= max && data.len() <= max - val.len();
    if !fits {
        let mut text = String::from_str("field value too big! ");
        text.append(format_sum(val.len(), data.len()).as_str());
        return Err(Reply::plain(400, text));
    }
    append_bytes(val, data);
    Ok(())
}

/// What a field of an upload is taken for.
#[derive(Debug, Clone, Copy, PartialEq, Eq, Structural)]
pub enum FieldUse {
    /// The file: its bytes are the contents, its filename a filename.
    FileContents,
    /// A filename given in a field of its own, which goes before the file's.
    FilenameValue,
    /// Nothing.
    Ignored,
}

pub open spec fn spec_field_use(name: Seq<char>, has_filename: bool) -> FieldUse {
    if has_filename && name == "file"@ {
        FieldUse::FileContents
    } else if !has_filename && name == "filename"@ {
        FieldUse::FilenameValue
    } else {
        FieldUse::Ignored
    }
}

/// What the field called `name` is taken for, given whether it comes with
/// a filename.
pub fn field_use(name: &str, has_filename: bool) -> (r: FieldUse)
    ensures
        r == spec_field_use(name@, has_filename),
{
    if has_filename {
        if same_text(name, "file") {
            FieldUse::FileContents
        } else {
            FieldUse::Ignored
        }
    } else {
        if same_text(name, "filename") {
            FieldUse::FilenameValue
        } else {
            FieldUse::Ignored
        }
    }
}

/// How long the value of a field may be.
pub fn field_limit(field: FieldUse, config: &OnetimeDownloaderConfig) -> (max: usize)
    ensures
        max == (match field {
            FieldUse::FileContents => config.max_len_file,
            FieldUse::FilenameValue => config.max_len_value,
            FieldUse::Ignored => 0,
        }),
{
    match field {
        FieldUse::FileContents => config.max_len_file,
        FieldUse::FilenameValue => config.max_len_value,
        FieldUse::Ignored => 0,
    }
}

/// What an upload has brought so far.
#[derive(Debug)]
pub struct UploadForm {
    pub file_filename: Option<String>,
    pub field_filename: Option<String>,
    pub contents: Option<Bytes>,
}

pub struct UploadFormView {
    pub file_filename: Option<Seq<char>>,
    pub field_filename: Option<Seq<char>>,
    pub contents: Option<Seq<u8>>,
}

impl View for UploadForm {
    type V = UploadFormView;

    open spec fn view(&self) -> UploadFormView {
        UploadFormView {
            file_filename: text_option_view(self.file_filename),
            field_filename: text_option_view(self.field_filename),
            contents: dynamodb::bytes_option_view(self.contents),
        }
    }
}

impl UploadFormView {
    pub open spec fn empty() -> UploadFormView {
        UploadFormView { file_filename: None, field_filename: None, contents: None }
    }

    /// The name that the upload gives the file: the one from the field of
    /// its own, else the one that came with the file.
    pub open spec fn filename(self) -> Option<Seq<char>> {
        match self.field_filename {
            Some(name) => Some(name),
            None => self.file_filename,
        }
    }

    /// The file that the upload amounts to at `now`, if it brought contents
    /// and a name that is not empty.
    pub open spec fn file(self, now: i64) -> Option<FileView> {
        match (self.filename(), self.contents) {
            (Some(filename), Some(contents)) => if filename.len() > 0 {
                Some(FileView { filename, contents, created_at: now, updated_at: now })
            } else {
                None
            },
            _ => None,
        }
    }
}

impl UploadForm {
    pub fn new() -> (form: UploadForm)
        ensures
            form@ == UploadFormView::empty(),
    {
        UploadForm { file_filename: None, field_filename: None, contents: None }
    }

    /// Takes the file: `val` is what was collected of it, `filename` what
    /// it came with. A file that came before is forgotten.
    pub fn accept_file(&mut self, filename: String, val: Vec<u8>)
        ensures
            final(self)@ == (UploadFormView {
                file_filename: Some(filename@),
                contents: Some(val@),
                ..old(self)@
            }),
    {
        self.contents = Some(bytes_from_vec(val));
        self.file_filename = Some(filename);
    }

    /// Takes the filename that came in a field of its own.
    pub fn accept_filename(&mut self, val: String)
        ensures
            final(self)@ == (UploadFormView { field_filename: Some(val@), ..old(self)@ }),
    {
        self.field_filename = Some(val);
    }

    /// The file that the upload amounts to, stamped `now`, or the reply
    /// that says what is missing.
    pub fn finish(self, now: i64) -> (r: Result<OnetimeFile, Reply>)
        ensures
            match self@.file(now) {
                Some(file) => r matches Ok(built) && built@ == file,
                None => r matches Err(reply) && reply@ == ReplyView::no_upload(),
            },
    {
        let UploadForm { file_filename, field_filename, contents } = self;
        let filename = match field_filename {
            Some(name) => Some(name),
            None => file_filename,
        };
        match (filename, contents) {
            (Some(filename), Some(contents)) => {
                if filename.as_str().is_empty() {
                    Err(Reply::plain(400, String::from_str("No filename or file contents provided!")))
                } else {
                    Ok(OnetimeFile { filename, contents, created_at: now, updated_at: now })
                }
            },
            _ => Err(Reply::plain(400, String::from_str("No filename or file contents provided!"))),
        }
    }
}

/// The token of a link: the instant of issue and a number, each as sixteen
/// hexadecimal digits. Tokens of instants since the epoch sort by instant,
/// and two tokens of one instant differ where their numbers do.
pub open spec fn spec_token(now: i64, n: u64) -> Seq<char> {
    hex_fixed(twos_complement(now), 16) + hex_fixed(n as nat, 16)
}

pub fn token_for(now: i64, n: u64) -> (token: String)
    ensures
        token@ == spec_token(now, n),
        token@.len() == 32,
{
    let mut token = String::new();
    push_hex_fixed(&mut token, bits_of(now), 16);
    push_hex_fixed(&mut token, n, 16);
    proof {
        crate::text::lemma_hex_fixed_len(twos_complement(now), 16);
        crate::text::lemma_hex_fixed_len(n as nat, 16);
    }
    token
}

pub open spec fn spec_download_url(token: Seq<char>) -> Seq<char> {
    "/download/"@ + token
}

/// Where a link is redeemed.
pub fn download_url(token: &str) -> (url: String)
    ensures
        url@ == spec_download_url(token@),
{
    let mut url = String::from_str("/download/");
    url.append(token);
    url
}

/// The link that is issued for `filename` at `now` with the number `n`.
pub open spec fn spec_issue(filename: Seq<char>, now: i64, n: u64) -> LinkView {
    LinkView {
        token: spec_token(now, n),
        filename,
        created_at: now,
        downloaded_at: None,
        ip_address: None,
    }
}

pub fn issue_link(payload: &CreateLink, now: i64, n: u64) -> (link: OnetimeLink)
    ensures
        link@ == spec_issue(payload.filename@, now, n),
{
    OnetimeLink {
        token: token_for(now, n),
        filename: payload.filename.clone(),
        created_at: now,
        downloaded_at: None,
        ip_address: None,
    }
}

/// `rand::thread_rng().gen::<u64>()`: a number from the generator of the
/// calling thread, which the system seeds. Nothing is known of the number.
#[verifier::external_body]
fn random_u64() -> u64 {
    rand::thread_rng().gen()
}

/// `String::from_utf8`: the text that the bytes encode in UTF-8, if they
/// encode one; bytes that are no UTF-8 give none.
#[verifier::external_body]
fn text_from_utf8(bytes: Vec<u8>) -> (r: Option<String>)
    ensures
        r is Some <==> valid_utf8(bytes@),
        r matches Some(text) ==> text@ == decode_utf8(bytes@),
{
    String::from_utf8(bytes).ok()
}

/// A field of an upload as it arrived: its name, the filename it came
/// with, if any, and its value in the pieces in which it came.
#[derive(Debug)]
pub struct UploadField {
    pub name: String,
    pub filename: Option<String>,
    pub chunks: Vec<Vec<u8>>,
}

/// The value that the pieces make up, or, where it is longer than `max`,
/// the length at which that showed.
pub open spec fn spec_collect(chunks: Seq<Vec<u8>>, max: int) -> Result<Seq<u8>, int>
    decreases chunks.len(),
{
    if chunks.len() == 0 {
        Ok(Seq::empty())
    } else {
        match spec_collect(chunks.drop_last(), max) {
            Err(size) => Err(size),
            Ok(val) => if val.len() + chunks.last()@.len() > max {
                Err((val.len() + chunks.last()@.len()) as int)
            } else {
                Ok(val + chunks.last()@)
            },
        }
    }
}

/// Puts the pieces of a field's value together, up to `max` bytes.
pub fn collect_chunks(chunks: &Vec<Vec<u8>>, max: usize) -> (r: Result<Vec<u8>, Reply>)
    ensures
        match spec_collect(chunks@, max as int) {
            Ok(val) => r matches Ok(collected) && collected@ == val,
            Err(size) => r matches Err(reply) && reply@ == ReplyView::too_big(size),
        },
{
    let mut val: Vec<u8> = Vec::new();
    let mut i: usize = 0;
    assert(chunks@.take(0) =~= Seq::<Vec<u8>>::empty());
    while i < chunks.len()
        invariant
            i <= chunks.len(),
            spec_collect(chunks@.take(i as int), max as int) == Ok::<Seq<u8>, int>(val@),
        decreases chunks.len() - i,
    {
        proof {
            assert(chunks@.take(i + 1).drop_last() =~= chunks@.take(i as int));
            if spec_collect(chunks@.take(i + 1), max as int) is Err {
                lemma_collect_stops(chunks@, i + 1, max as int);
            }
        }
        match collect_chunk(&mut val, chunks[i].as_slice(), max) {
            Err(reply) => {
                return Err(reply);
            },
            Ok(_) => {},
        }
        i = i + 1;
    }
    assert(chunks@.take(chunks.len() as int) =~= chunks@);
    Ok(val)
}

/// Once the value is too long, the pieces that follow change nothing.
pub proof fn lemma_collect_stops(chunks: Seq<Vec<u8>>, k: int, max: int)
    requires
        0 <= k <= chunks.len(),
        spec_collect(chunks.take(k), max) is Err,
    ensures
        spec_collect(chunks, max) == spec_collect(chunks.take(k), max),
    decreases chunks.len() - k,
{
    if k == chunks.len() {
        assert(chunks.take(k) =~= chunks);
    } else {
        assert(chunks.drop_last().take(k) =~= chunks.take(k));
        lemma_collect_stops(chunks.drop_last(), k, max);
    }
}

/// What a field adds to what an upload has brought.
pub open spec fn spec_accept(form: UploadFormView, field: UploadField, max_len_file: int, max_len_value: int) -> Result<
    UploadFormView,
    ReplyView,
> {
    match spec_field_use(field.name@, field.filename is Some) {
        FieldUse::FileContents => match spec_collect(field.chunks@, max_len_file) {
            Err(size) => Err(ReplyView::too_big(size)),
            Ok(val) => Ok(
                UploadFormView {
                    file_filename: text_option_view(field.filename),
                    contents: Some(val),
                    ..form
                },
            ),
        },
        FieldUse::FilenameValue => match spec_collect(field.chunks@, max_len_value) {
            Err(size) => Err(ReplyView::too_big(size)),
            Ok(val) => if valid_utf8(val) {
                Ok(UploadFormView { field_filename: Some(decode_utf8(val)), ..form })
            } else {
                Err(ReplyView::no_upload())
            },
        },
        FieldUse::Ignored => Ok(form),
    }
}

/// What the fields of an upload bring, taken in order, or the reply to the
/// first field that is too long or whose filename is no text.
pub open spec fn spec_upload(fields: Seq<UploadField>, max_len_file: int, max_len_value: int) -> Result<
    UploadFormView,
    ReplyView,
>
    decreases fields.len(),
{
    if fields.len() == 0 {
        Ok(UploadFormView::empty())
    } else {
        match spec_upload(fields.drop_last(), max_len_file, max_len_value) {
            Err(reply) => Err(reply),
            Ok(form) => spec_accept(form, fields.last(), max_len_file, max_len_value),
        }
    }
}

/// After the reply to one field, the fields that follow change nothing.
pub proof fn lemma_upload_stops(fields: Seq<UploadField>, k: int, max_len_file: int, max_len_value: int)
    requires
        0 <= k <= fields.len(),
        spec_upload(fields.take(k), max_len_file, max_len_value) is Err,
    ensures
        spec_upload(fields, max_len_file, max_len_value) == spec_upload(
            fields.take(k),
            max_len_file,
            max_len_value,
        ),
    decreases fields.len() - k,
{
    if k == fields.len() {
        assert(fields.take(k) =~= fields);
    } else {
        assert(fields.drop_last().take(k) =~= fields.take(k));
        lemma_upload_stops(fields.drop_last(), k, max_len_file, max_len_value);
    }
}

/// Reads the fields of an upload.
pub fn read_upload(fields: Vec<UploadField>, config: &OnetimeDownloaderConfig) -> (r: Result<
    UploadForm,
    Reply,
>)
    ensures
        match spec_upload(fields@, config.max_len_file as int, config.max_len_value as int) {
            Ok(form) => r matches Ok(read) && read@ == form,
            Err(reply) => r matches Err(said) && said@ == reply,
        },
{
    let mut form = UploadForm::new();
    let ghost all = fields@;
    let ghost max_len_file = config.max_len_file as int;
    let ghost max_len_value = config.max_len_value as int;
    assert(all.take(0) =~= Seq::<UploadField>::empty());
    for field in it: fields
        invariant
            it.seq() == all,
            max_len_file == config.max_len_file as int,
            max_len_value == config.max_len_value as int,
            spec_upload(all.take(it.index() as int), max_len_file, max_len_value) == Ok::<
                UploadFormView,
                ReplyView,
            >(form@),
    {
        let ghost at = it.index() as int;
        proof {
            assert(all.take(at + 1).drop_last() =~= all.take(at));
            assert(all.take(at + 1).last() == field);
            if spec_upload(all.take(at + 1), max_len_file, max_len_value) is Err {
                lemma_upload_stops(all, at + 1, max_len_file, max_len_value);
            }
        }
        let UploadField { name, filename, chunks } = field;
        match field_use(name.as_str(), filename.is_some()) {
            FieldUse::FileContents => {
                let val = match collect_chunks(&chunks, config.max_len_file) {
                    Err(reply) => { return Err(reply); },
                    Ok(val) => val,
                };
                match filename {
                    Some(filename) => form.accept_file(filename, val),
                    None => {},
                }
            },
            FieldUse::FilenameValue => {
                let val = match collect_chunks(&chunks, config.max_len_value) {
                    Err(reply) => { return Err(reply); },
                    Ok(val) => val,
                };
                match text_from_utf8(val) {
                    Some(text) => form.accept_filename(text),
                    None => {
                        return Err(
                            Reply::plain(
                                400,
                                String::from_str("No filename or file contents provided!"),
                            ),
                        );
                    },
                }
            },
            FieldUse::Ignored => {},
        }
    }
    assert(all.take(all.len() as int) =~= all);
    Ok(form)
}

pub open spec fn reply_answer(r: Result<Reply, Reply>) -> Result<ReplyView, ReplyView> {
    match r {
        Ok(reply) => Ok(reply@),
        Err(reply) => Err(reply@),
    }
}

/// `listed` holds the listing entry of every file of `files` once, and
/// nothing else.
pub open spec fn lists_summaries(listed: Seq<FileSummary>, files: Map<Seq<char>, FileView>) -> bool {
    &&& forall|i: int|
        0 <= i < listed.len() ==> #[trigger] files.contains_key(listed[i]@.filename)
            && files[listed[i]@.filename].summary() == listed[i]@
    &&& forall|i: int, j: int|
        0 <= i < j < listed.len() ==> listed[i]@.filename != listed[j]@.filename
    &&& forall|k: Seq<char>| #[trigger]
        files.contains_key(k) ==> exists|i: int| 0 <= i < listed.len() && listed[i]@.filename == k
}

/// Lists the files, for the holder of the files key: of each file
/// everything but the bytes, of which the listing shows the number.
pub fn list_files<T: TimeProvider, S: OnetimeStorage>(
    api_key: Option<&str>,
    service: &OnetimeDownloaderService<T, S>,
) -> (r: Result<Vec<FileSummary>, Reply>)
    ensures
        match r {
            Ok(listed) => key_matches(api_key, service.config.api_key_files@) && lists_summaries(
                listed@,
                service.storage.store().files,
            ),
            Err(reply) => if key_matches(api_key, service.config.api_key_files@) {
                !service.storage.dependable() && exists|why: Seq<char>|
                    reply@ == #[trigger] ReplyView::failure(why)
            } else {
                reply@ == ReplyView::unauthorized()
            },
        },
{
    match check_api_key(api_key, service.config.api_key_files.as_str()) {
        Err(reply) => { return Err(reply); },
        Ok(_) => {},
    }
    match service.storage.list_files() {
        Err(why) => Err(Reply::failure(&why)),
        Ok(files) => {
            let mut listed: Vec<FileSummary> = Vec::new();
            let mut i: usize = 0;
            while i < files.len()
                invariant
                    i <= files.len(),
                    listed.len() == i,
                    forall|j: int| 0 <= j < i ==> #[trigger] listed[j]@ == files[j]@.summary(),
                decreases files.len() - i,
            {
                listed.push(files[i].summary());
                i = i + 1;
            }
            proof {
                let all = service.storage.store().files;
                assert forall|j: int| 0 <= j < listed.len() implies #[trigger] all.contains_key(
                    listed[j]@.filename,
                ) && all[listed[j]@.filename].summary() == listed[j]@ by {
                    assert(listed[j]@ == files[j]@.summary());
                    assert(all.contains_key(files[j]@.filename));
                }
                assert forall|a: int, b: int| 0 <= a < b < listed.len() implies listed[a]@.filename
                    != listed[b]@.filename by {
                    assert(listed[a]@ == files[a]@.summary());
                    assert(listed[b]@ == files[b]@.summary());
                }
                assert forall|k: Seq<char>| #[trigger] all.contains_key(k) implies exists|j: int|
                    0 <= j < listed.len() && listed[j]@.filename == k by {
                    let j = choose|j: int| 0 <= j < files.len() && files[j]@.filename == k;
                    assert(listed[j]@ == files[j]@.summary());
                }
            }
            Ok(listed)
        },
    }
}

/// Lists the links, for the holder of the links key.
pub fn list_links<T: TimeProvider, S: OnetimeStorage>(
    api_key: Option<&str>,
    service: &OnetimeDownloaderService<T, S>,
) -> (r: Result<Vec<OnetimeLink>, Reply>)
    ensures
        match r {
            Ok(listed) => key_matches(api_key, service.config.api_key_links@) && lists_links(
                listed@,
                service.storage.store().links,
            ),
            Err(reply) => if key_matches(api_key, service.config.api_key_links@) {
                !service.storage.dependable() && exists|why: Seq<char>|
                    reply@ == #[trigger] ReplyView::failure(why)
            } else {
                reply@ == ReplyView::unauthorized()
            },
        },
{
    match check_api_key(api_key, service.config.api_key_links.as_str()) {
        Err(reply) => { return Err(reply); },
        Ok(_) => {},
    }
    match service.storage.list_links() {
        Err(why) => Err(Reply::failure(&why)),
        Ok(links) => Ok(links),
    }
}

/// What holds of an upload that was handled at `now`: who is turned away,
/// what is said to whom, and what is stored.
pub open spec fn uploads(
    api_key: Option<&str>,
    remote: Option<&str>,
    fields: Seq<UploadField>,
    config: OnetimeDownloaderConfig,
    now: i64,
    before: StoreView,
    dependable: bool,
    r: Result<ReplyView, ReplyView>,
    after: StoreView,
) -> bool {
    if !key_matches(api_key, config.api_key_files@) {
        r == Err::<ReplyView, ReplyView>(ReplyView::unauthorized()) && after == before
    } else if !address_known(remote) {
        r == Err::<ReplyView, ReplyView>(ReplyView::too_many_requests()) && after == before
    } else {
        match spec_upload(fields, config.max_len_file as int, config.max_len_value as int) {
            Err(reply) => r == Err::<ReplyView, ReplyView>(reply) && after == before,
            Ok(form) => match form.file(now) {
                None => r == Ok::<ReplyView, ReplyView>(ReplyView::no_upload()) && after == before,
                Some(file) => {
                    ||| r == Ok::<ReplyView, ReplyView>(ReplyView::plain(200, "added file"@))
                        && uploaded(before, file, after)
                    ||| !dependable && after == before && exists|why: Seq<char>|
                        r == Ok::<ReplyView, ReplyView>(#[trigger] ReplyView::failure(why))
                },
            },
        }
    }
}

/// Handles an upload whose fields have arrived, with `now` as the clock's
/// reading.
pub fn add_file_at<T: TimeProvider, S: OnetimeStorage>(
    api_key: Option<&str>,
    remote: Option<&str>,
    fields: Vec<UploadField>,
    now: i64,
    service: &mut OnetimeDownloaderService<T, S>,
) -> (r: Result<Reply, Reply>)
    ensures
        final(service).storage.dependable() == old(service).storage.dependable(),
        final(service).config == old(service).config,
        final(service).time_provider == old(service).time_provider,
        uploads(
            api_key,
            remote,
            fields@,
            old(service).config,
            now,
            old(service).storage.store(),
            old(service).storage.dependable(),
            reply_answer(r),
            final(service).storage.store(),
        ),
{
    match check_api_key(api_key, service.config.api_key_files.as_str()) {
        Err(reply) => { return Err(reply); },
        Ok(_) => {},
    }
    match check_rate_limit(remote) {
        Err(reply) => { return Err(reply); },
        Ok(_) => {},
    }
    let form = match read_upload(fields, &service.config) {
        Err(reply) => { return Err(reply); },
        Ok(form) => form,
    };
    let file = match form.finish(now) {
        Err(reply) => { return Ok(reply); },
        Ok(file) => file,
    };
    match service.storage.add_file(file) {
        Ok(_) => Ok(Reply::plain(200, String::from_str("added file"))),
        Err(why) => Ok(Reply::failure(&why)),
    }
}

/// Handles an upload whose fields have arrived.
pub fn add_file<T: TimeProvider, S: OnetimeStorage>(
    api_key: Option<&str>,
    remote: Option<&str>,
    fields: Vec<UploadField>,
    service: &mut OnetimeDownloaderService<T, S>,
) -> (r: Result<Reply, Reply>)
    ensures
        final(service).storage.dependable() == old(service).storage.dependable(),
        final(service).config == old(service).config,
        final(service).time_provider == old(service).time_provider,
        exists|now: i64|
            (old(service).time_provider.pinned() matches Some(at) ==> now == at) && #[trigger] uploads(
                api_key,
                remote,
                fields@,
                old(service).config,
                now,
                old(service).storage.store(),
                old(service).storage.dependable(),
                reply_answer(r),
                final(service).storage.store(),
            ),
{
    let now = service.time_provider.unix_ts_ms();
    add_file_at(api_key, remote, fields, now, service)
}

/// The reply that tells where a new link is redeemed.
pub open spec fn link_reply(token: Seq<char>) -> ReplyView {
    ReplyView {
        status: 200,
        content_type: Some("text/plain"@),
        content_disposition: None,
        body: BodyView::Text(spec_download_url(token)),
    }
}

/// What holds of a request for a link that was handled at `now` with the
/// number `n`.
pub open spec fn issues(
    api_key: Option<&str>,
    remote: Option<&str>,
    filename: Seq<char>,
    config: OnetimeDownloaderConfig,
    now: i64,
    n: u64,
    before: StoreView,
    dependable: bool,
    r: Result<ReplyView, ReplyView>,
    after: StoreView,
) -> bool {
    if !key_matches(api_key, config.api_key_links@) {
        r == Err::<ReplyView, ReplyView>(ReplyView::unauthorized()) && after == before
    } else if !address_known(remote) {
        r == Err::<ReplyView, ReplyView>(ReplyView::too_many_requests()) && after == before
    } else if filename.len() == 0 {
        r == Err::<ReplyView, ReplyView>(ReplyView::plain(400, "Invalid filename for link!"@))
            && after == before
    } else {
        ||| r == Ok::<ReplyView, ReplyView>(link_reply(spec_token(now, n))) && after
            == before.with_link(spec_issue(filename, now, n))
        ||| !dependable && after == before && exists|why: Seq<char>|
            r == Err::<ReplyView, ReplyView>(#[trigger] ReplyView::failure(why))
    }
}

/// Handles a request for a link, with `now` as the clock's reading and `n`
/// as the number that makes the token hard to guess.
pub fn add_link_with<T: TimeProvider, S: OnetimeStorage>(
    api_key: Option<&str>,
    remote: Option<&str>,
    payload: CreateLink,
    now: i64,
    n: u64,
    service: &mut OnetimeDownloaderService<T, S>,
) -> (r: Result<Reply, Reply>)
    ensures
        final(service).storage.dependable() == old(service).storage.dependable(),
        final(service).config == old(service).config,
        final(service).time_provider == old(service).time_provider,
        issues(
            api_key,
            remote,
            payload.filename@,
            old(service).config,
            now,
            n,
            old(service).storage.store(),
            old(service).storage.dependable(),
            reply_answer(r),
            final(service).storage.store(),
        ),
{
    match check_api_key(api_key, service.config.api_key_links.as_str()) {
        Err(reply) => { return Err(reply); },
        Ok(_) => {},
    }
    match check_rate_limit(remote) {
        Err(reply) => { return Err(reply); },
        Ok(_) => {},
    }
    match payload.validate() {
        Err(why) => { return Err(Reply::plain(400, why.message)); },
        Ok(_) => {},
    }
    let link = issue_link(&payload, now, n);
    let reply = Reply::link_issued(link.token.as_str());
    match service.storage.add_link(link) {
        Ok(_) => Ok(reply),
        Err(why) => Err(Reply::failure(&why)),
    }
}

/// Handles a request for a link: the token is made of the clock's reading
/// and a random number.
pub fn add_link<T: TimeProvider, S: OnetimeStorage>(
    api_key: Option<&str>,
    remote: Option<&str>,
    payload: CreateLink,
    service: &mut OnetimeDownloaderService<T, S>,
) -> (r: Result<Reply, Reply>)
    ensures
        final(service).storage.dependable() == old(service).storage.dependable(),
        final(service).config == old(service).config,
        final(service).time_provider == old(service).time_provider,
        exists|now: i64, n: u64|
            (old(service).time_provider.pinned() matches Some(at) ==> now == at) && #[trigger] issues(
                api_key,
                remote,
                payload.filename@,
                old(service).config,
                now,
                n,
                old(service).storage.store(),
                old(service).storage.dependable(),
                reply_answer(r),
                final(service).storage.store(),
            ),
{
    let now = service.time_provider.unix_ts_ms();
    let n = random_u64();
    add_link_with(api_key, remote, payload, now, n, service)
}

/// What holds of a request to redeem a link that was handled at `now`.
pub open spec fn downloads(
    remote: Option<&str>,
    token: Seq<char>,
    now: i64,
    before: StoreView,
    dependable: bool,
    reply: ReplyView,
    after: StoreView,
) -> bool {
    match remote {
        Some(ip_address) => if address_known(remote) {
            exists|outcome: OutcomeView|
                reply == ReplyView::of_outcome(outcome) && #[trigger] redeems(
                    before,
                    dependable,
                    token,
                    ip_address@,
                    now,
                    outcome,
                    after,
                )
        } else {
            reply == ReplyView::too_many_requests() && after == before
        },
        None => reply == ReplyView::too_many_requests() && after == before,
    }
}

/// Handles a request to redeem the link under `token`, with `now` as the
/// clock's reading.
pub fn download_link_at<T: TimeProvider, S: OnetimeStorage>(
    remote: Option<&str>,
    token: String,
    now: i64,
    service: &mut OnetimeDownloaderService<T, S>,
) -> (r: Reply)
    ensures
        final(service).storage.dependable() == old(service).storage.dependable(),
        final(service).config == old(service).config,
        final(service).time_provider == old(service).time_provider,
        downloads(
            remote,
            token@,
            now,
            old(service).storage.store(),
            old(service).storage.dependable(),
            r@,
            final(service).storage.store(),
        ),
{
    match check_rate_limit(remote) {
        Err(reply) => { return reply; },
        Ok(_) => {},
    }
    match remote {
        None => Reply::bare(429),
        Some(ip_address) => {
            let outcome = redeem(&mut service.storage, token, String::from_str(ip_address), now);
            Reply::of_outcome(outcome)
        },
    }
}

/// Handles a request to redeem the link under `token`.
pub fn download_link<T: TimeProvider, S: OnetimeStorage>(
    remote: Option<&str>,
    token: String,
    service: &mut OnetimeDownloaderService<T, S>,
) -> (r: Reply)
    ensures
        final(service).storage.dependable() == old(service).storage.dependable(),
        final(service).config == old(service).config,
        final(service).time_provider == old(service).time_provider,
        exists|now: i64|
            (old(service).time_provider.pinned() matches Some(at) ==> now == at) && #[trigger] downloads(
                remote,
                token@,
                now,
                old(service).storage.store(),
                old(service).storage.dependable(),
                r@,
                final(service).storage.store(),
            ),
{
    let now = service.time_provider.unix_ts_ms();
    download_link_at(remote, token, now, service)
}

} // verus!
