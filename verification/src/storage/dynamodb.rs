//! The adapter for a store that keeps one item per key and whose items are
//! bags of named attributes, each a text, a number written out as text, or
//! bytes. It owns the attribute names and the marshalling between such
//! items and the entity model.

use crate::contents::{bytes_clone, bytes_contents};
use crate::models::{
    env_text, text_option_view, ErrorKind, ErrorView, FileView, LinkView, MyError,
    OnetimeDownloaderConfig, OnetimeFile, OnetimeLink,
};
use crate::redemption::{file_answer, link_answer};
use crate::storage::util::{
    absent, batch_reads, failed, file_view, files_answer, lemma_batch_reads, link_view,
    links_answer, malformed, not_found, try_from_vec, unavailable,
};
use crate::table::Table;
use crate::text::{decimal, format_i64, parse_i64, parse_i64_spec};
use bytes::Bytes;
use vstd::prelude::*;

verus! {

pub const FIELD_FILENAME: &'static str = "Filename";

pub const FIELD_CONTENTS: &'static str = "Contents";

pub const FIELD_CREATED_AT: &'static str = "CreatedAt";

pub const FIELD_UPDATED_AT: &'static str = "UpdatedAt";

pub const FIELD_TOKEN: &'static str = "Token";

pub const FIELD_DOWNLOADED_AT: &'static str = "DownloadedAt";

pub const FIELD_IP_ADDRESS: &'static str = "IpAddress";

/// One attribute of an item. At most one of the three is meant to be
/// there: which one says what type the attribute has.
#[derive(Debug)]
pub struct Attribute {
    pub s: Option<String>,
    pub n: Option<String>,
    pub b: Option<Bytes>,
}

pub struct AttributeView {
    pub s: Option<Seq<char>>,
    pub n: Option<Seq<char>>,
    pub b: Option<Seq<u8>>,
}

pub open spec fn bytes_option_view(o: Option<Bytes>) -> Option<Seq<u8>> {
    match o {
        Some(b) => Some(bytes_contents(b)),
        None => None,
    }
}

impl View for Attribute {
    type V = AttributeView;

    open spec fn view(&self) -> AttributeView {
        AttributeView {
            s: text_option_view(self.s),
            n: text_option_view(self.n),
            b: bytes_option_view(self.b),
        }
    }
}

impl AttributeView {
    pub open spec fn text(val: Seq<char>) -> AttributeView {
        AttributeView { s: Some(val), n: None, b: None }
    }

    pub open spec fn number(val: i64) -> AttributeView {
        AttributeView { s: None, n: Some(decimal(val as int)), b: None }
    }

    pub open spec fn binary(val: Seq<u8>) -> AttributeView {
        AttributeView { s: None, n: None, b: Some(val) }
    }
}

impl Attribute {
    /// A text attribute.
    pub fn from_s(val: String) -> (a: Attribute)
        ensures
            a@ == AttributeView::text(val@),
    {
        Attribute { s: Some(val), n: None, b: None }
    }

    /// A number attribute: the number is written out in decimal.
    pub fn from_n(val: i64) -> (a: Attribute)
        ensures
            a@ == AttributeView::number(val),
    {
        Attribute { s: None, n: Some(format_i64(val)), b: None }
    }

    /// A binary attribute.
    pub fn from_b(val: Bytes) -> (a: Attribute)
        ensures
            a@ == AttributeView::binary(bytes_contents(val)),
    {
        Attribute { s: None, n: None, b: Some(val) }
    }
}

/// An item: its attributes by name.
pub type Row = Table<Attribute>;

/// An item as a map from attribute name to what the attribute holds.
pub open spec fn row_view(row: Map<Seq<char>, Attribute>) -> Map<Seq<char>, AttributeView> {
    Map::new(|name: Seq<char>| row.contains_key(name), |name: Seq<char>| row[name]@)
}

pub open spec fn missing_field(field: Seq<char>) -> ErrorView {
    malformed("Missing field "@ + field)
}

pub open spec fn empty_field(field: Seq<char>) -> ErrorView {
    malformed("Empty field "@ + field)
}

pub open spec fn not_a_number(field: Seq<char>, found: Seq<char>) -> ErrorView {
    malformed("Field "@ + field + " is not a number: "@ + found)
}

/// The text under `field`, which the item must have.
pub open spec fn spec_get_s(row: Map<Seq<char>, AttributeView>, field: Seq<char>) -> Result<
    Seq<char>,
    ErrorView,
> {
    if !row.contains_key(field) {
        Err(missing_field(field))
    } else {
        match row[field].s {
            None => Err(empty_field(field)),
            Some(text) => Ok(text),
        }
    }
}

/// The text under `field`, which the item may lack.
pub open spec fn spec_get_os(row: Map<Seq<char>, AttributeView>, field: Seq<char>) -> Result<
    Option<Seq<char>>,
    ErrorView,
> {
    if !row.contains_key(field) {
        Ok(None)
    } else {
        match row[field].s {
            None => Err(empty_field(field)),
            Some(text) => Ok(Some(text)),
        }
    }
}

/// The bytes under `field`, which the item must have.
pub open spec fn spec_get_b(row: Map<Seq<char>, AttributeView>, field: Seq<char>) -> Result<
    Seq<u8>,
    ErrorView,
> {
    if !row.contains_key(field) {
        Err(missing_field(field))
    } else {
        match row[field].b {
            None => Err(empty_field(field)),
            Some(bytes) => Ok(bytes),
        }
    }
}

/// The number that a number attribute holds.
pub open spec fn spec_number(attribute: AttributeView, field: Seq<char>) -> Result<i64, ErrorView> {
    match attribute.n {
        None => Err(empty_field(field)),
        Some(text) => match parse_i64_spec(text) {
            None => Err(not_a_number(field, text)),
            Some(number) => Ok(number),
        },
    }
}

/// The number under `field`, which the item must have.
pub open spec fn spec_get_n(row: Map<Seq<char>, AttributeView>, field: Seq<char>) -> Result<
    i64,
    ErrorView,
> {
    if !row.contains_key(field) {
        Err(missing_field(field))
    } else {
        spec_number(row[field], field)
    }
}

/// The number under `field`, which the item may lack.
pub open spec fn spec_get_on(row: Map<Seq<char>, AttributeView>, field: Seq<char>) -> Result<
    Option<i64>,
    ErrorView,
> {
    if !row.contains_key(field) {
        Ok(None)
    } else {
        match spec_number(row[field], field) {
            Err(e) => Err(e),
            Ok(number) => Ok(Some(number)),
        }
    }
}

pub open spec fn text_answer(r: Result<String, MyError>) -> Result<Seq<char>, ErrorView> {
    match r {
        Ok(text) => Ok(text@),
        Err(e) => Err(e@),
    }
}

pub open spec fn text_option_answer(r: Result<Option<String>, MyError>) -> Result<
    Option<Seq<char>>,
    ErrorView,
> {
    match r {
        Ok(text) => Ok(text_option_view(text)),
        Err(e) => Err(e@),
    }
}

pub open spec fn bytes_answer(r: Result<Bytes, MyError>) -> Result<Seq<u8>, ErrorView> {
    match r {
        Ok(bytes) => Ok(bytes_contents(bytes)),
        Err(e) => Err(e@),
    }
}

pub open spec fn number_answer<T>(r: Result<T, MyError>) -> Result<T, ErrorView> {
    match r {
        Ok(number) => Ok(number),
        Err(e) => Err(e@),
    }
}

fn missing(field: &str) -> (e: MyError)
    ensures
        e@ == missing_field(field@),
{
    let mut message = String::from_str("Missing field ");
    message.append(field);
    MyError::new(ErrorKind::Malformed, message)
}

fn empty(field: &str) -> (e: MyError)
    ensures
        e@ == empty_field(field@),
{
    let mut message = String::from_str("Empty field ");
    message.append(field);
    MyError::new(ErrorKind::Malformed, message)
}

fn number_of(attribute: &Attribute, field: &str) -> (r: Result<i64, MyError>)
    ensures
        number_answer(r) == spec_number(attribute@, field@),
{
    match &attribute.n {
        None => Err(empty(field)),
        Some(text) => match parse_i64(text.as_str()) {
            None => {
                let mut message = String::from_str("Field ");
                message.append(field);
                message.append(" is not a number: ");
                message.append(text.as_str());
                Err(MyError::new(ErrorKind::Malformed, message))
            },
            Some(number) => Ok(number),
        },
    }
}

impl Table<Attribute> {
    /// An item with the one text attribute `key`.
    pub fn new_key(key: String, val: String) -> (row: Row)
        ensures
            row_view(row@) == Map::<Seq<char>, AttributeView>::empty().insert(
                key@,
                AttributeView::text(val@),
            ),
    {
        let mut row = Table::new();
        row.insert(key, Attribute::from_s(val));
        assert(row_view(row@) =~= Map::<Seq<char>, AttributeView>::empty().insert(
            key@,
            AttributeView::text(val@),
        ));
        row
    }

    /// The key of the file item with this filename.
    pub fn filename_key(filename: String) -> (row: Row)
        ensures
            row_view(row@) == Map::<Seq<char>, AttributeView>::empty().insert(
                FIELD_FILENAME@,
                AttributeView::text(filename@),
            ),
    {
        Self::new_key(String::from_str(FIELD_FILENAME), filename)
    }

    /// The key of the link item with this token.
    pub fn token_key(token: String) -> (row: Row)
        ensures
            row_view(row@) == Map::<Seq<char>, AttributeView>::empty().insert(
                FIELD_TOKEN@,
                AttributeView::text(token@),
            ),
    {
        Self::new_key(String::from_str(FIELD_TOKEN), token)
    }

    pub fn get_s(&self, field: &str) -> (r: Result<String, MyError>)
        ensures
            text_answer(r) == spec_get_s(row_view(self@), field@),
    {
        match self.get(field) {
            None => Err(missing(field)),
            Some(attribute) => match &attribute.s {
                None => Err(empty(field)),
                Some(text) => Ok(text.clone()),
            },
        }
    }

    pub fn get_os(&self, field: &str) -> (r: Result<Option<String>, MyError>)
        ensures
            text_option_answer(r) == spec_get_os(row_view(self@), field@),
    {
        match self.get(field) {
            None => Ok(None),
            Some(attribute) => match &attribute.s {
                None => Err(empty(field)),
                Some(text) => Ok(Some(text.clone())),
            },
        }
    }

    pub fn get_b(&self, field: &str) -> (r: Result<Bytes, MyError>)
        ensures
            bytes_answer(r) == spec_get_b(row_view(self@), field@),
    {
        match self.get(field) {
            None => Err(missing(field)),
            Some(attribute) => match &attribute.b {
                None => Err(empty(field)),
                Some(bytes) => Ok(bytes_clone(bytes)),
            },
        }
    }

    pub fn get_n(&self, field: &str) -> (r: Result<i64, MyError>)
        ensures
            number_answer(r) == spec_get_n(row_view(self@), field@),
    {
        match self.get(field) {
            None => Err(missing(field)),
            Some(attribute) => number_of(attribute, field),
        }
    }

    pub fn get_on(&self, field: &str) -> (r: Result<Option<i64>, MyError>)
        ensures
            number_answer(r) == spec_get_on(row_view(self@), field@),
    {
        match self.get(field) {
            None => Ok(None),
            Some(attribute) => match number_of(attribute, field) {
                Err(why) => Err(why),
                Ok(number) => Ok(Some(number)),
            },
        }
    }
}

/// The file that an item holds, or what is wrong with the item.
pub open spec fn spec_file(row: Map<Seq<char>, AttributeView>) -> Result<FileView, ErrorView> {
    match spec_get_s(row, FIELD_FILENAME@) {
        Err(e) => Err(e),
        Ok(filename) => match spec_get_b(row, FIELD_CONTENTS@) {
            Err(e) => Err(e),
            Ok(contents) => match spec_get_n(row, FIELD_CREATED_AT@) {
                Err(e) => Err(e),
                Ok(created_at) => match spec_get_n(row, FIELD_UPDATED_AT@) {
                    Err(e) => Err(e),
                    Ok(updated_at) => Ok(FileView { filename, contents, created_at, updated_at }),
                },
            },
        },
    }
}

/// The link that an item holds, or what is wrong with the item.
pub open spec fn spec_link(row: Map<Seq<char>, AttributeView>) -> Result<LinkView, ErrorView> {
    match spec_get_s(row, FIELD_TOKEN@) {
        Err(e) => Err(e),
        Ok(token) => match spec_get_s(row, FIELD_FILENAME@) {
            Err(e) => Err(e),
            Ok(filename) => match spec_get_n(row, FIELD_CREATED_AT@) {
                Err(e) => Err(e),
                Ok(created_at) => match spec_get_on(row, FIELD_DOWNLOADED_AT@) {
                    Err(e) => Err(e),
                    Ok(downloaded_at) => match spec_get_os(row, FIELD_IP_ADDRESS@) {
                        Err(e) => Err(e),
                        Ok(ip_address) => Ok(
                            LinkView { token, filename, created_at, downloaded_at, ip_address },
                        ),
                    },
                },
            },
        },
    }
}

/// The item that a file is stored as.
pub open spec fn file_item(file: FileView) -> Map<Seq<char>, AttributeView> {
    Map::<Seq<char>, AttributeView>::empty().insert(
        FIELD_FILENAME@,
        AttributeView::text(file.filename),
    ).insert(FIELD_CONTENTS@, AttributeView::binary(file.contents)).insert(
        FIELD_CREATED_AT@,
        AttributeView::number(file.created_at),
    ).insert(FIELD_UPDATED_AT@, AttributeView::number(file.updated_at))
}

/// The item that a link is stored as. What the link lacks, the item lacks.
pub open spec fn link_item(link: LinkView) -> Map<Seq<char>, AttributeView> {
    let issued = Map::<Seq<char>, AttributeView>::empty().insert(
        FIELD_TOKEN@,
        AttributeView::text(link.token),
    ).insert(FIELD_FILENAME@, AttributeView::text(link.filename)).insert(
        FIELD_CREATED_AT@,
        AttributeView::number(link.created_at),
    );
    let stamped = match link.downloaded_at {
        Some(at) => issued.insert(FIELD_DOWNLOADED_AT@, AttributeView::number(at)),
        None => issued,
    };
    match link.ip_address {
        Some(ip_address) => stamped.insert(FIELD_IP_ADDRESS@, AttributeView::text(ip_address)),
        None => stamped,
    }
}

/// The attribute names are pairwise different.
pub proof fn lemma_field_names_differ()
    ensures
        FIELD_FILENAME@ != FIELD_CONTENTS@,
        FIELD_FILENAME@ != FIELD_CREATED_AT@,
        FIELD_FILENAME@ != FIELD_UPDATED_AT@,
        FIELD_FILENAME@ != FIELD_TOKEN@,
        FIELD_FILENAME@ != FIELD_DOWNLOADED_AT@,
        FIELD_FILENAME@ != FIELD_IP_ADDRESS@,
        FIELD_CONTENTS@ != FIELD_CREATED_AT@,
        FIELD_CONTENTS@ != FIELD_UPDATED_AT@,
        FIELD_CREATED_AT@ != FIELD_UPDATED_AT@,
        FIELD_CREATED_AT@ != FIELD_TOKEN@,
        FIELD_CREATED_AT@ != FIELD_DOWNLOADED_AT@,
        FIELD_CREATED_AT@ != FIELD_IP_ADDRESS@,
        FIELD_TOKEN@ != FIELD_DOWNLOADED_AT@,
        FIELD_TOKEN@ != FIELD_IP_ADDRESS@,
        FIELD_DOWNLOADED_AT@ != FIELD_IP_ADDRESS@,
{
    reveal_strlit("Filename");
    reveal_strlit("Contents");
    reveal_strlit("CreatedAt");
    reveal_strlit("UpdatedAt");
    reveal_strlit("Token");
    reveal_strlit("DownloadedAt");
    reveal_strlit("IpAddress");
    assert(FIELD_FILENAME@[0] != FIELD_CONTENTS@[0]);
    assert(FIELD_FILENAME@[0] != FIELD_CREATED_AT@[0]);
    assert(FIELD_FILENAME@[0] != FIELD_UPDATED_AT@[0]);
    assert(FIELD_FILENAME@[0] != FIELD_TOKEN@[0]);
    assert(FIELD_FILENAME@[0] != FIELD_DOWNLOADED_AT@[0]);
    assert(FIELD_FILENAME@[0] != FIELD_IP_ADDRESS@[0]);
    assert(FIELD_CONTENTS@[1] != FIELD_CREATED_AT@[1]);
    assert(FIELD_CONTENTS@[0] != FIELD_UPDATED_AT@[0]);
    assert(FIELD_CREATED_AT@[0] != FIELD_UPDATED_AT@[0]);
    assert(FIELD_CREATED_AT@[0] != FIELD_TOKEN@[0]);
    assert(FIELD_CREATED_AT@[0] != FIELD_DOWNLOADED_AT@[0]);
    assert(FIELD_CREATED_AT@[0] != FIELD_IP_ADDRESS@[0]);
    assert(FIELD_TOKEN@[0] != FIELD_DOWNLOADED_AT@[0]);
    assert(FIELD_TOKEN@[0] != FIELD_IP_ADDRESS@[0]);
    assert(FIELD_DOWNLOADED_AT@[0] != FIELD_IP_ADDRESS@[0]);
}

/// A file that was stored reads back as it was.
pub proof fn lemma_file_item_round_trip(file: FileView)
    ensures
        spec_file(file_item(file)) == Ok::<FileView, ErrorView>(file),
{
    lemma_field_names_differ();
    crate::text::lemma_parse_i64_of_decimal(file.created_at);
    crate::text::lemma_parse_i64_of_decimal(file.updated_at);
}

/// A link that was stored reads back as it was.
pub proof fn lemma_link_item_round_trip(link: LinkView)
    ensures
        spec_link(link_item(link)) == Ok::<LinkView, ErrorView>(link),
{
    lemma_field_names_differ();
    crate::text::lemma_parse_i64_of_decimal(link.created_at);
    if link.downloaded_at is Some {
        crate::text::lemma_parse_i64_of_decimal(link.downloaded_at->0);
    }
}

/// An item that lacks a field that a file must have is reported as
/// malformed; it never reads as a file.
pub proof fn lemma_incomplete_file_is_malformed(row: Map<Seq<char>, AttributeView>)
    requires
        !row.contains_key(FIELD_FILENAME@) || !row.contains_key(FIELD_CONTENTS@)
            || !row.contains_key(FIELD_CREATED_AT@) || !row.contains_key(FIELD_UPDATED_AT@),
    ensures
        spec_file(row) matches Err(e) && e.kind == ErrorKind::Malformed,
{
}

/// An item that lacks a field that a link must have is reported as
/// malformed; it never reads as a link.
pub proof fn lemma_incomplete_link_is_malformed(row: Map<Seq<char>, AttributeView>)
    requires
        !row.contains_key(FIELD_TOKEN@) || !row.contains_key(FIELD_FILENAME@)
            || !row.contains_key(FIELD_CREATED_AT@),
    ensures
        spec_link(row) matches Err(e) && e.kind == ErrorKind::Malformed,
{
}

impl TryFrom<Row> for OnetimeFile {
    type Error = MyError;

    fn try_from(row: Row) -> (r: Result<Self, MyError>)
        ensures
            file_answer(r) == spec_file(row_view(row@)),
    {
        let filename = match row.get_s(FIELD_FILENAME) {
            Err(why) => { return Err(why); },
            Ok(filename) => filename,
        };
        let contents = match row.get_b(FIELD_CONTENTS) {
            Err(why) => { return Err(why); },
            Ok(contents) => contents,
        };
        let created_at = match row.get_n(FIELD_CREATED_AT) {
            Err(why) => { return Err(why); },
            Ok(created_at) => created_at,
        };
        let updated_at = match row.get_n(FIELD_UPDATED_AT) {
            Err(why) => { return Err(why); },
            Ok(updated_at) => updated_at,
        };
        Ok(OnetimeFile { filename, contents, created_at, updated_at })
    }
}

impl vstd::std_specs::convert::TryFromSpecImpl<Row> for OnetimeFile {
    open spec fn obeys_try_from_spec() -> bool {
        false
    }

    open spec fn try_from_spec(row: Row) -> Result<Self, MyError> {
        arbitrary()
    }
}

impl TryFrom<Row> for OnetimeLink {
    type Error = MyError;

    fn try_from(row: Row) -> (r: Result<Self, MyError>)
        ensures
            link_answer(r) == spec_link(row_view(row@)),
    {
        let token = match row.get_s(FIELD_TOKEN) {
            Err(why) => { return Err(why); },
            Ok(token) => token,
        };
        let filename = match row.get_s(FIELD_FILENAME) {
            Err(why) => { return Err(why); },
            Ok(filename) => filename,
        };
        let created_at = match row.get_n(FIELD_CREATED_AT) {
            Err(why) => { return Err(why); },
            Ok(created_at) => created_at,
        };
        let downloaded_at = match row.get_on(FIELD_DOWNLOADED_AT) {
            Err(why) => { return Err(why); },
            Ok(downloaded_at) => downloaded_at,
        };
        let ip_address = match row.get_os(FIELD_IP_ADDRESS) {
            Err(why) => { return Err(why); },
            Ok(ip_address) => ip_address,
        };
        Ok(OnetimeLink { token, filename, created_at, downloaded_at, ip_address })
    }
}

impl vstd::std_specs::convert::TryFromSpecImpl<Row> for OnetimeLink {
    open spec fn obeys_try_from_spec() -> bool {
        false
    }

    open spec fn try_from_spec(row: Row) -> Result<Self, MyError> {
        arbitrary()
    }
}

/// Stores a file as an item.
pub fn file_to_row(file: OnetimeFile) -> (row: Row)
    ensures
        row_view(row@) == file_item(file@),
{
    let mut row: Row = Table::new();
    assert(row_view(row@) =~= Map::<Seq<char>, AttributeView>::empty());
    let ghost r0 = row@;
    row.insert(String::from_str(FIELD_FILENAME), Attribute::from_s(file.filename));
    let ghost r1 = row@;
    row.insert(String::from_str(FIELD_CONTENTS), Attribute::from_b(file.contents));
    let ghost r2 = row@;
    row.insert(String::from_str(FIELD_CREATED_AT), Attribute::from_n(file.created_at));
    let ghost r3 = row@;
    row.insert(String::from_str(FIELD_UPDATED_AT), Attribute::from_n(file.updated_at));
    proof {
        lemma_row_view_insert(r0, FIELD_FILENAME@, r1[FIELD_FILENAME@]);
        lemma_row_view_insert(r1, FIELD_CONTENTS@, r2[FIELD_CONTENTS@]);
        lemma_row_view_insert(r2, FIELD_CREATED_AT@, r3[FIELD_CREATED_AT@]);
        lemma_row_view_insert(r3, FIELD_UPDATED_AT@, row@[FIELD_UPDATED_AT@]);
    }
    row
}

/// Putting an attribute into an item puts what it holds into the item's
/// view.
pub proof fn lemma_row_view_insert(row: Map<Seq<char>, Attribute>, name: Seq<char>, value: Attribute)
    ensures
        row_view(row.insert(name, value)) == row_view(row).insert(name, value@),
{
    assert(row_view(row.insert(name, value)) =~= row_view(row).insert(name, value@));
}

/// Stores a link as an item.
pub fn link_to_row(link: OnetimeLink) -> (row: Row)
    ensures
        row_view(row@) == link_item(link@),
{
    let mut row: Row = Table::new();
    assert(row_view(row@) =~= Map::<Seq<char>, AttributeView>::empty());
    let ghost r0 = row@;
    row.insert(String::from_str(FIELD_TOKEN), Attribute::from_s(link.token));
    let ghost r1 = row@;
    row.insert(String::from_str(FIELD_FILENAME), Attribute::from_s(link.filename));
    let ghost r2 = row@;
    row.insert(String::from_str(FIELD_CREATED_AT), Attribute::from_n(link.created_at));
    let ghost r3 = row@;
    proof {
        lemma_row_view_insert(r0, FIELD_TOKEN@, r1[FIELD_TOKEN@]);
        lemma_row_view_insert(r1, FIELD_FILENAME@, r2[FIELD_FILENAME@]);
        lemma_row_view_insert(r2, FIELD_CREATED_AT@, r3[FIELD_CREATED_AT@]);
    }
    if let Some(downloaded_at) = link.downloaded_at {
        row.insert(String::from_str(FIELD_DOWNLOADED_AT), Attribute::from_n(downloaded_at));
        proof {
            lemma_row_view_insert(r3, FIELD_DOWNLOADED_AT@, row@[FIELD_DOWNLOADED_AT@]);
        }
    }
    let ghost r4 = row@;
    if let Some(ip_address) = link.ip_address {
        row.insert(String::from_str(FIELD_IP_ADDRESS), Attribute::from_s(ip_address));
        proof {
            lemma_row_view_insert(r4, FIELD_IP_ADDRESS@, row@[FIELD_IP_ADDRESS@]);
        }
    }
    row
}

pub const DEFAULT_TABLE_FILES: &'static str = "Onetime.Files";

pub const DEFAULT_TABLE_LINKS: &'static str = "Onetime.Links";

/// An item as contracts speak of it: what its attributes hold, by name.
pub type Item = Map<Seq<char>, AttributeView>;

/// A write of one item. With a condition the store writes only if the
/// condition holds of the item that is there; with `return_values` it
/// hands back the item that the write replaced. A name that the store
/// reserves is written as a substitute, which `expression_attribute_names`
/// resolves.
pub struct PutItem {
    pub table_name: String,
    pub item: Row,
    pub condition_expression: Option<String>,
    pub expression_attribute_names: Option<Table<String>>,
    pub return_values: Option<String>,
}

/// A read of the item under a key.
pub struct GetItem {
    pub table_name: String,
    pub key: Row,
}

/// A read of all items, of each the named attributes. A name that the
/// store reserves is written as a substitute, which
/// `expression_attribute_names` resolves.
pub struct Scan {
    pub table_name: String,
    pub projection_expression: String,
    pub expression_attribute_names: Option<Table<String>>,
}

/// The removal of the item under a key.
pub struct DeleteItem {
    pub table_name: String,
    pub key: Row,
}

/// Why a write did not happen.
pub enum PutFailure {
    /// The condition of the write did not hold.
    ConditionFailed,
    /// Anything else, in the store's words.
    Other(String),
}

pub enum PutFailureView {
    ConditionFailed,
    Other(Seq<char>),
}

impl View for PutFailure {
    type V = PutFailureView;

    open spec fn view(&self) -> PutFailureView {
        match *self {
            PutFailure::ConditionFailed => PutFailureView::ConditionFailed,
            PutFailure::Other(why) => PutFailureView::Other(why@),
        }
    }
}

/// How one item reads as a file.
pub open spec fn file_reader() -> spec_fn(Row) -> Result<FileView, ErrorView> {
    |row: Row| spec_file(row_view(row@))
}

/// How one item reads as a link.
pub open spec fn link_reader() -> spec_fn(Row) -> Result<LinkView, ErrorView> {
    |row: Row| spec_link(row_view(row@))
}

/// How a batch of items reads as files: all of them, in order, or the
/// complaint about the first that is malformed.
pub open spec fn spec_files(rows: Seq<Row>, r: Result<Seq<FileView>, ErrorView>) -> bool {
    batch_reads(rows, file_reader(), "files"@, r)
}

/// How a batch of items reads as links.
pub open spec fn spec_links(rows: Seq<Row>, r: Result<Seq<LinkView>, ErrorView>) -> bool {
    batch_reads(rows, link_reader(), "links"@, r)
}

/// What the write that consumes a link says of the race, given what the
/// store answered: a failed condition means that the link had been
/// consumed or is not there, and the caller lost; so does a replaced item
/// that shows a download. A replaced item that does not read as a link is
/// reported.
pub open spec fn spec_marked(answer: Result<Option<Item>, PutFailureView>) -> Result<bool, ErrorView> {
    match answer {
        Err(PutFailureView::ConditionFailed) => Ok(true),
        Err(PutFailureView::Other(why)) => Err(unavailable("Mark downloaded put"@, why)),
        Ok(None) => Ok(false),
        Ok(Some(replaced)) => match spec_link(replaced) {
            Err(why) => Err(
                ErrorView {
                    kind: why.kind,
                    message: "Mark downloaded build failed: "@ + why.message,
                },
            ),
            Ok(link) => Ok(link.redeemed()),
        },
    }
}

pub open spec fn put_answer(answer: Result<Option<Row>, PutFailure>) -> Result<Option<Item>, PutFailureView> {
    match answer {
        Ok(Some(row)) => Ok(Some(row_view(row@))),
        Ok(None) => Ok(None),
        Err(e) => Err(e@),
    }
}

/// The adapter is what the environment describes, with the defaults where
/// the environment is silent.
pub open spec fn described(env: Map<Seq<char>, String>, storage: Storage) -> bool {
    &&& storage.files_table@ == env_text(env, "DDB_FILES_TABLE"@, DEFAULT_TABLE_FILES@)
    &&& storage.links_table@ == env_text(env, "DDB_LINKS_TABLE"@, DEFAULT_TABLE_LINKS@)
}

/// The adapter: the names of the two tables. The calls to the store are
/// made by whoever holds the connection; the adapter says what to ask and
/// what the answer means.
pub struct Storage {
    pub files_table: String,
    pub links_table: String,
}

impl Storage {
    /// The adapter that a snapshot of the environment describes.
    pub fn from_env(env: &Table<String>) -> (r: Storage)
        ensures
            described(env@, r),
    {
        Storage {
            files_table: OnetimeDownloaderConfig::env_var_string(
                env,
                "DDB_FILES_TABLE",
                String::from_str(DEFAULT_TABLE_FILES),
            ),
            links_table: OnetimeDownloaderConfig::env_var_string(
                env,
                "DDB_LINKS_TABLE",
                String::from_str(DEFAULT_TABLE_LINKS),
            ),
        }
    }

    pub fn name(&self) -> (r: &'static str)
        ensures
            r@ == "Dynamodb"@,
    {
        "Dynamodb"
    }

    /// The write that stores a file, whatever was under its filename: the
    /// item replaces the one that is there whole, creation time included.
    pub fn add_file(&self, file: OnetimeFile) -> (r: PutItem)
        ensures
            r.table_name@ == self.files_table@,
            row_view(r.item@) == file_item(file@),
            r.condition_expression is None,
            r.expression_attribute_names is None,
            r.return_values is None,
    {
        PutItem {
            table_name: self.files_table.clone(),
            item: file_to_row(file),
            condition_expression: None,
            expression_attribute_names: None,
            return_values: None,
        }
    }

    /// What the answer to that write means.
    pub fn file_added(answer: Result<(), String>) -> (r: Result<bool, MyError>)
        ensures
            match answer {
                Ok(_) => r == Ok::<bool, MyError>(true),
                Err(why) => r matches Err(e) && e@ == unavailable("Add file"@, why@),
            },
    {
        match answer {
            Err(why) => Err(failed("Add file", why.as_str())),
            Ok(_) => Ok(true),
        }
    }

    /// The read of all files.
    pub fn list_files(&self) -> (r: Scan)
        ensures
            r.table_name@ == self.files_table@,
            r.projection_expression@ == "Filename, Contents, CreatedAt, UpdatedAt"@,
            r.expression_attribute_names is None,
    {
        proof {
            reveal_strlit("Filename, Contents, CreatedAt, UpdatedAt");
            reveal_strlit("Filename");
            reveal_strlit("Contents");
            reveal_strlit("CreatedAt");
            reveal_strlit("UpdatedAt");
            reveal_strlit(", ");
        }
        let mut projection = String::from_str(FIELD_FILENAME);
        projection.append(", ");
        projection.append(FIELD_CONTENTS);
        projection.append(", ");
        projection.append(FIELD_CREATED_AT);
        projection.append(", ");
        projection.append(FIELD_UPDATED_AT);
        assert(projection@ =~= "Filename, Contents, CreatedAt, UpdatedAt"@);
        Scan {
            table_name: self.files_table.clone(),
            projection_expression: projection,
            expression_attribute_names: None,
        }
    }

    /// What the answer to that read means: a store that hands back no list
    /// of items has nothing to show.
    pub fn files_listed(answer: Result<Option<Vec<Row>>, String>) -> (r: Result<
        Vec<OnetimeFile>,
        MyError,
    >)
        ensures
            match answer {
                Err(why) => r matches Err(e) && e@ == unavailable("List files"@, why@),
                Ok(None) => r matches Err(e) && e@ == not_found("No files found"@),
                Ok(Some(rows)) => spec_files(rows@, files_answer(r)),
            },
    {
        match answer {
            Err(why) => Err(failed("List files", why.as_str())),
            Ok(None) => Err(absent("No files found")),
            Ok(Some(rows)) => {
                let r: Result<Vec<OnetimeFile>, MyError> = try_from_vec(rows, "files");
                proof {
                    lemma_batch_reads::<Row, OnetimeFile, FileView>(
                        rows@,
                        "files"@,
                        r,
                        file_reader(),
                        file_view(),
                    );
                }
                r
            },
        }
    }

    /// The read of the file under a filename.
    pub fn get_file(&self, filename: String) -> (r: GetItem)
        ensures
            r.table_name@ == self.files_table@,
            row_view(r.key@) == Map::<Seq<char>, AttributeView>::empty().insert(
                FIELD_FILENAME@,
                AttributeView::text(filename@),
            ),
    {
        GetItem { table_name: self.files_table.clone(), key: Row::filename_key(filename) }
    }

    /// What the answer to that read means.
    pub fn file_fetched(answer: Result<Option<Row>, String>) -> (r: Result<OnetimeFile, MyError>)
        ensures
            file_answer(r) == (match answer {
                Err(why) => Err(unavailable("Get file"@, why@)),
                Ok(None) => Err(not_found("File not found"@)),
                Ok(Some(row)) => spec_file(row_view(row@)),
            }),
    {
        match answer {
            Err(why) => Err(failed("Get file", why.as_str())),
            Ok(None) => Err(absent("File not found")),
            Ok(Some(row)) => OnetimeFile::try_from(row),
        }
    }

    /// The write that stores a link as issued, whatever was under its
    /// token.
    pub fn add_link(&self, link: OnetimeLink) -> (r: PutItem)
        ensures
            r.table_name@ == self.links_table@,
            row_view(r.item@) == link_item(link@.issued()),
            r.condition_expression is None,
            r.expression_attribute_names is None,
            r.return_values is None,
    {
        PutItem {
            table_name: self.links_table.clone(),
            item: link_to_row(link.issued()),
            condition_expression: None,
            expression_attribute_names: None,
            return_values: None,
        }
    }

    /// What the answer to that write means.
    pub fn link_added(answer: Result<(), String>) -> (r: Result<bool, MyError>)
        ensures
            match answer {
                Ok(_) => r == Ok::<bool, MyError>(true),
                Err(why) => r matches Err(e) && e@ == unavailable("Add link"@, why@),
            },
    {
        match answer {
            Err(why) => Err(failed("Add link", why.as_str())),
            Ok(_) => Ok(true),
        }
    }

    /// The read of all links. The store reserves the word `Token`, so the
    /// projection names it by a substitute.
    pub fn list_links(&self) -> (r: Scan)
        ensures
            r.table_name@ == self.links_table@,
            r.projection_expression@ == "#Token, Filename, CreatedAt, DownloadedAt, IpAddress"@,
            r.expression_attribute_names matches Some(names) && names@.dom() == set!["#Token"@]
                && names@["#Token"@]@ == FIELD_TOKEN@,
    {
        proof {
            reveal_strlit("#Token, Filename, CreatedAt, DownloadedAt, IpAddress");
            reveal_strlit("#Token");
            reveal_strlit("Filename");
            reveal_strlit("CreatedAt");
            reveal_strlit("DownloadedAt");
            reveal_strlit("IpAddress");
            reveal_strlit(", ");
        }
        let mut names: Table<String> = Table::new();
        names.insert(String::from_str("#Token"), String::from_str(FIELD_TOKEN));
        assert(names@.dom() =~= set!["#Token"@]);
        let mut projection = String::from_str("#Token");
        projection.append(", ");
        projection.append(FIELD_FILENAME);
        projection.append(", ");
        projection.append(FIELD_CREATED_AT);
        projection.append(", ");
        projection.append(FIELD_DOWNLOADED_AT);
        projection.append(", ");
        projection.append(FIELD_IP_ADDRESS);
        assert(projection@ =~= "#Token, Filename, CreatedAt, DownloadedAt, IpAddress"@);
        Scan {
            table_name: self.links_table.clone(),
            projection_expression: projection,
            expression_attribute_names: Some(names),
        }
    }

    /// What the answer to that read means.
    pub fn links_listed(answer: Result<Option<Vec<Row>>, String>) -> (r: Result<
        Vec<OnetimeLink>,
        MyError,
    >)
        ensures
            match answer {
                Err(why) => r matches Err(e) && e@ == unavailable("List links"@, why@),
                Ok(None) => r matches Err(e) && e@ == not_found("No links found"@),
                Ok(Some(rows)) => spec_links(rows@, links_answer(r)),
            },
    {
        match answer {
            Err(why) => Err(failed("List links", why.as_str())),
            Ok(None) => Err(absent("No links found")),
            Ok(Some(rows)) => {
                let r: Result<Vec<OnetimeLink>, MyError> = try_from_vec(rows, "links");
                proof {
                    lemma_batch_reads::<Row, OnetimeLink, LinkView>(
                        rows@,
                        "links"@,
                        r,
                        link_reader(),
                        link_view(),
                    );
                }
                r
            },
        }
    }

    /// The read of the link under a token.
    pub fn get_link(&self, token: String) -> (r: GetItem)
        ensures
            r.table_name@ == self.links_table@,
            row_view(r.key@) == Map::<Seq<char>, AttributeView>::empty().insert(
                FIELD_TOKEN@,
                AttributeView::text(token@),
            ),
    {
        GetItem { table_name: self.links_table.clone(), key: Row::token_key(token) }
    }

    /// What the answer to that read means.
    pub fn link_fetched(answer: Result<Option<Row>, String>) -> (r: Result<OnetimeLink, MyError>)
        ensures
            link_answer(r) == (match answer {
                Err(why) => Err(unavailable("Get link"@, why@)),
                Ok(None) => Err(not_found("Link not found"@)),
                Ok(Some(row)) => spec_link(row_view(row@)),
            }),
    {
        match answer {
            Err(why) => Err(failed("Get link", why.as_str())),
            Ok(None) => Err(absent("Link not found")),
            Ok(Some(row)) => OnetimeLink::try_from(row),
        }
    }

    /// The write that consumes a link: the link's item with the download
    /// recorded, written only if an item is there under the token that
    /// records no download, and handing back the item that it replaced.
    ///
    /// The condition is what makes the write safe. Without it the store
    /// would replace the item whatever it held, and a caller could only
    /// look at the replaced item afterwards: two callers that write at
    /// nearly the same time could then both be handed an item without a
    /// download and both believe that they won.
    pub fn mark_downloaded(&self, link: OnetimeLink, ip_address: String, downloaded_at: i64) -> (r:
        PutItem)
        ensures
            r.table_name@ == self.links_table@,
            row_view(r.item@) == link_item(link@.redeem(ip_address@, downloaded_at)),
            r.condition_expression matches Some(condition) && condition@
                == "attribute_exists(#Token) AND attribute_not_exists(DownloadedAt)"@,
            r.expression_attribute_names matches Some(names) && names@.dom() == set!["#Token"@]
                && names@["#Token"@]@ == FIELD_TOKEN@,
            r.return_values matches Some(values) && values@ == "ALL_OLD"@,
    {
        let consumed = OnetimeLink {
            token: link.token,
            filename: link.filename,
            created_at: link.created_at,
            downloaded_at: Some(downloaded_at),
            ip_address: Some(ip_address),
        };
        proof {
            reveal_strlit("attribute_exists(#Token) AND attribute_not_exists(DownloadedAt)");
            reveal_strlit("attribute_exists(#Token) AND attribute_not_exists(");
            reveal_strlit("DownloadedAt");
            reveal_strlit(")");
        }
        let mut condition = String::from_str("attribute_exists(#Token) AND attribute_not_exists(");
        condition.append(FIELD_DOWNLOADED_AT);
        condition.append(")");
        assert(condition@ =~= "attribute_exists(#Token) AND attribute_not_exists(DownloadedAt)"@);
        let mut names: Table<String> = Table::new();
        names.insert(String::from_str("#Token"), String::from_str(FIELD_TOKEN));
        assert(names@.dom() =~= set!["#Token"@]);
        PutItem {
            table_name: self.links_table.clone(),
            item: link_to_row(consumed),
            condition_expression: Some(condition),
            expression_attribute_names: Some(names),
            return_values: Some(String::from_str("ALL_OLD")),
        }
    }

    /// What the answer to that write means: whether the caller lost.
    pub fn downloaded_marked(answer: Result<Option<Row>, PutFailure>) -> (r: Result<bool, MyError>)
        ensures
            crate::redemption::mark_answer(r) == spec_marked(put_answer(answer)),
    {
        match answer {
            Err(PutFailure::ConditionFailed) => Ok(true),
            Err(PutFailure::Other(why)) => Err(failed("Mark downloaded put", why.as_str())),
            Ok(None) => Ok(false),
            Ok(Some(row)) => match OnetimeLink::try_from(row) {
                Err(why) => {
                    let mut message = String::from_str("Mark downloaded build failed: ");
                    message.append(why.message.as_str());
                    Err(MyError::new(why.kind, message))
                },
                Ok(link) => Ok(link.downloaded_at.is_some()),
            },
        }
    }

    /// The removal of the file under a filename.
    pub fn delete_file(&self, filename: String) -> (r: DeleteItem)
        ensures
            r.table_name@ == self.files_table@,
            row_view(r.key@) == Map::<Seq<char>, AttributeView>::empty().insert(
                FIELD_FILENAME@,
                AttributeView::text(filename@),
            ),
    {
        DeleteItem { table_name: self.files_table.clone(), key: Row::filename_key(filename) }
    }

    /// What the answer to that removal means.
    pub fn file_deleted(answer: Result<(), String>) -> (r: Result<bool, MyError>)
        ensures
            match answer {
                Ok(_) => r == Ok::<bool, MyError>(true),
                Err(why) => r matches Err(e) && e@ == unavailable("Delete file"@, why@),
            },
    {
        match answer {
            Err(why) => Err(failed("Delete file", why.as_str())),
            Ok(_) => Ok(true),
        }
    }

    /// The removal of the link under a token.
    pub fn delete_link(&self, token: String) -> (r: DeleteItem)
        ensures
            r.table_name@ == self.links_table@,
            row_view(r.key@) == Map::<Seq<char>, AttributeView>::empty().insert(
                FIELD_TOKEN@,
                AttributeView::text(token@),
            ),
    {
        DeleteItem { table_name: self.links_table.clone(), key: Row::token_key(token) }
    }

    /// What the answer to that removal means.
    pub fn link_deleted(answer: Result<(), String>) -> (r: Result<bool, MyError>)
        ensures
            match answer {
                Ok(_) => r == Ok::<bool, MyError>(true),
                Err(why) => r matches Err(e) && e@ == unavailable("Delete link"@, why@),
            },
    {
        match answer {
            Err(why) => Err(failed("Delete link", why.as_str())),
            Ok(_) => Ok(true),
        }
    }
}

/// What a store of items does with the write that consumes a link: where
/// an item is there under `key` that records no download, it puts `item`
/// in its place and hands back what was there; else it does nothing and
/// says that the condition failed.
pub open spec fn guarded_put(table: Map<Seq<char>, Item>, key: Seq<char>, item: Item) -> (
    Map<Seq<char>, Item>,
    Result<Option<Item>, PutFailureView>,
) {
    if table.contains_key(key) && !table[key].contains_key(FIELD_DOWNLOADED_AT@) {
        (table.insert(key, item), Ok(Some(table[key])))
    } else {
        (table, Err(PutFailureView::ConditionFailed))
    }
}

/// The guarded write consumes a link at most once, as the storage port
/// asks. Against a table that holds the link unconsumed, the write records
/// the download and the caller is told that it won. Against one that holds
/// the link consumed, or no link under the token, the write changes
/// nothing and the caller is told that it lost.
pub proof fn lemma_guarded_put_consumes_once(
    table: Map<Seq<char>, Item>,
    stored: LinkView,
    ip_address: Seq<char>,
    downloaded_at: i64,
)
    requires
        table.contains_key(stored.token) ==> table[stored.token] == link_item(stored),
    ensures
        ({
            let consumed = stored.issued().redeem(ip_address, downloaded_at);
            let (after, answer) = guarded_put(table, stored.token, link_item(consumed));
            let won = table.contains_key(stored.token) && !stored.redeemed();
            &&& spec_marked(answer) == Ok::<bool, ErrorView>(!won)
            &&& !won ==> after == table
            &&& won ==> after == table.insert(stored.token, link_item(consumed)) && spec_link(
                after[stored.token],
            ) == Ok::<LinkView, ErrorView>(consumed)
        }),
{
    lemma_field_names_differ();
    lemma_link_item_round_trip(stored);
    lemma_link_item_round_trip(stored.issued().redeem(ip_address, downloaded_at));
}

} // verus!
