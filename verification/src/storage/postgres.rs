//! The adapter for a relational store: two tables under one schema, files
//! by filename and links by token. It owns the column names, the
//! statements and the reading of rows.

use crate::contents::{bytes_contents, bytes_from_vec};
use crate::models::{
    env_text, text_option_view, ErrorKind, ErrorView, FileView, LinkView, MyError,
    OnetimeDownloaderConfig, OnetimeFile, OnetimeLink, StoreView,
};
use crate::redemption::{file_answer, link_answer, mark_answer};
use crate::storage::util::{
    absent, batch_reads, failed, file_view, files_answer, lemma_batch_reads, link_view,
    links_answer, malformed, not_found, try_from_vec, unavailable,
};
use crate::table::Table;
use crate::text::{parse_unsigned, parse_unsigned_spec};
use bytes::Bytes;
use vstd::prelude::*;

verus! {

pub const DEFAULT_SCHEMA: &'static str = "onetime";

pub const DEFAULT_TABLE_FILES: &'static str = "files";

pub const DEFAULT_TABLE_LINKS: &'static str = "links";

pub const DEFAULT_HOST: &'static str = "postgres";

pub const DEFAULT_PORT: &'static str = "5432";

pub const DEFAULT_USER: &'static str = "postgres";

pub const DEFAULT_PASSWORD: &'static str = "";

pub const DEFAULT_DBNAME: &'static str = "postgres";

pub const FIELD_FILENAME: &'static str = "filename";

pub const FIELD_CONTENTS: &'static str = "contents";

pub const FIELD_CREATED_AT: &'static str = "created_at";

pub const FIELD_UPDATED_AT: &'static str = "updated_at";

pub const FIELD_TOKEN: &'static str = "token";

pub const FIELD_DOWNLOADED_AT: &'static str = "downloaded_at";

pub const FIELD_IP_ADDRESS: &'static str = "ip_address";

/// A value bound to a placeholder of a statement.
#[derive(Debug)]
pub enum Param {
    Text(String),
    Binary(Bytes),
    Number(i64),
    OptionalText(Option<String>),
    OptionalNumber(Option<i64>),
}

pub enum ParamView {
    Text(Seq<char>),
    Binary(Seq<u8>),
    Number(i64),
    OptionalText(Option<Seq<char>>),
    OptionalNumber(Option<i64>),
}

impl View for Param {
    type V = ParamView;

    open spec fn view(&self) -> ParamView {
        match *self {
            Param::Text(text) => ParamView::Text(text@),
            Param::Binary(bytes) => ParamView::Binary(bytes_contents(bytes)),
            Param::Number(number) => ParamView::Number(number),
            Param::OptionalText(text) => ParamView::OptionalText(text_option_view(text)),
            Param::OptionalNumber(number) => ParamView::OptionalNumber(number),
        }
    }
}

/// A statement and the values for its placeholders `$1`, `$2`, and so on,
/// in that order.
#[derive(Debug)]
pub struct Statement {
    pub sql: String,
    pub params: Vec<Param>,
}

pub struct StatementView {
    pub sql: Seq<char>,
    pub params: Seq<ParamView>,
}

impl View for Statement {
    type V = StatementView;

    open spec fn view(&self) -> StatementView {
        StatementView {
            sql: self.sql@,
            params: Seq::new(self.params.len() as nat, |i: int| self.params[i]@),
        }
    }
}

/// How to reach the database.
#[derive(Debug)]
pub struct Connection {
    pub host: String,
    pub port: u16,
    pub user: String,
    pub password: String,
    pub dbname: String,
}

/// The adapter: where the tables are and how to reach them. The calls to
/// the database are made by whoever holds the connections; the adapter says
/// what to ask and what the answer means.
#[derive(Debug)]
pub struct Storage {
    pub schema: String,
    pub files_table: String,
    pub links_table: String,
    pub connection: Connection,
}

/// A table's name with its schema before it.
pub open spec fn qualified(schema: Seq<char>, table: Seq<char>) -> Seq<char> {
    schema + "."@ + table
}

pub open spec fn insert_file_sql(table: Seq<char>) -> Seq<char> {
    "INSERT INTO "@ + table
        + " (filename, contents, created_at, updated_at) VALUES ($1, $2, $3, $4) ON CONFLICT (filename) DO UPDATE SET updated_at=$4, contents=$2"@
}

pub open spec fn select_files_sql(table: Seq<char>) -> Seq<char> {
    "SELECT filename, contents, created_at, updated_at FROM "@ + table
}

pub open spec fn select_file_sql(table: Seq<char>) -> Seq<char> {
    select_files_sql(table) + " WHERE filename = $1"@
}

pub open spec fn insert_link_sql(table: Seq<char>) -> Seq<char> {
    "INSERT INTO "@ + table
        + " (token, filename, created_at, downloaded_at, ip_address) VALUES ($1, $2, $3, $4, $5)"@
}

pub open spec fn select_links_sql(table: Seq<char>) -> Seq<char> {
    "SELECT token, filename, created_at, downloaded_at, ip_address FROM "@ + table
}

pub open spec fn select_link_sql(table: Seq<char>) -> Seq<char> {
    select_links_sql(table) + " WHERE token = $1"@
}

pub open spec fn update_link_sql(table: Seq<char>) -> Seq<char> {
    "UPDATE "@ + table
        + " SET downloaded_at = $1, ip_address = $2 WHERE token = $3 AND downloaded_at IS NULL"@
}

pub open spec fn delete_file_sql(table: Seq<char>) -> Seq<char> {
    "DELETE FROM "@ + table + " WHERE filename = $1"@
}

pub open spec fn delete_link_sql(table: Seq<char>) -> Seq<char> {
    "DELETE FROM "@ + table + " WHERE token = $1"@
}

pub open spec fn bad_port(found: Seq<char>) -> ErrorView {
    ErrorView { kind: ErrorKind::Unavailable, message: "Port is not a valid number! "@ + found }
}

/// What the columns of a row gave: the value, or why there is none.
pub type Column<T> = Result<T, String>;

/// A row of the files table, column by column.
pub struct FileRow {
    pub filename: Column<String>,
    pub contents: Column<Vec<u8>>,
    pub created_at: Column<i64>,
    pub updated_at: Column<i64>,
}

/// A row of the links table, column by column.
pub struct LinkRow {
    pub token: Column<String>,
    pub filename: Column<String>,
    pub created_at: Column<i64>,
    pub downloaded_at: Column<Option<i64>>,
    pub ip_address: Column<Option<String>>,
}

pub open spec fn no_column(column: Seq<char>, why: Seq<char>) -> ErrorView {
    malformed("Could not get "@ + column + "! "@ + why)
}

/// The file that a row holds, or the complaint about the first column, in
/// the order of the table, that gave no value.
pub open spec fn spec_file(row: FileRow) -> Result<FileView, ErrorView> {
    match row.filename {
        Err(why) => Err(no_column(FIELD_FILENAME@, why@)),
        Ok(filename) => match row.contents {
            Err(why) => Err(no_column(FIELD_CONTENTS@, why@)),
            Ok(contents) => match row.created_at {
                Err(why) => Err(no_column(FIELD_CREATED_AT@, why@)),
                Ok(created_at) => match row.updated_at {
                    Err(why) => Err(no_column(FIELD_UPDATED_AT@, why@)),
                    Ok(updated_at) => Ok(
                        FileView { filename: filename@, contents: contents@, created_at, updated_at },
                    ),
                },
            },
        },
    }
}

/// The link that a row holds, or the complaint about the first column that
/// gave no value.
pub open spec fn spec_link(row: LinkRow) -> Result<LinkView, ErrorView> {
    match row.token {
        Err(why) => Err(no_column(FIELD_TOKEN@, why@)),
        Ok(token) => match row.filename {
            Err(why) => Err(no_column(FIELD_FILENAME@, why@)),
            Ok(filename) => match row.created_at {
                Err(why) => Err(no_column(FIELD_CREATED_AT@, why@)),
                Ok(created_at) => match row.downloaded_at {
                    Err(why) => Err(no_column(FIELD_DOWNLOADED_AT@, why@)),
                    Ok(downloaded_at) => match row.ip_address {
                        Err(why) => Err(no_column(FIELD_IP_ADDRESS@, why@)),
                        Ok(ip_address) => Ok(
                            LinkView {
                                token: token@,
                                filename: filename@,
                                created_at,
                                downloaded_at,
                                ip_address: text_option_view(ip_address),
                            },
                        ),
                    },
                },
            },
        },
    }
}

/// How one row reads as a file.
pub open spec fn file_reader() -> spec_fn(FileRow) -> Result<FileView, ErrorView> {
    |row: FileRow| spec_file(row)
}

/// How one row reads as a link.
pub open spec fn link_reader() -> spec_fn(LinkRow) -> Result<LinkView, ErrorView> {
    |row: LinkRow| spec_link(row)
}

/// How a batch of rows reads as files: all of them, in order, or the
/// complaint about the first that is malformed.
pub open spec fn spec_files(rows: Seq<FileRow>, r: Result<Seq<FileView>, ErrorView>) -> bool {
    batch_reads(rows, file_reader(), "files"@, r)
}

/// How a batch of rows reads as links.
pub open spec fn spec_links(rows: Seq<LinkRow>, r: Result<Seq<LinkView>, ErrorView>) -> bool {
    batch_reads(rows, link_reader(), "links"@, r)
}

/// A row with a column that gives no value is reported as malformed; it
/// never reads as a file.
pub proof fn lemma_unreadable_file_is_malformed(row: FileRow)
    requires
        row.filename is Err || row.contents is Err || row.created_at is Err
            || row.updated_at is Err,
    ensures
        spec_file(row) matches Err(e) && e.kind == ErrorKind::Malformed,
{
}

/// A row with a column that gives no value is reported as malformed; it
/// never reads as a link.
pub proof fn lemma_unreadable_link_is_malformed(row: LinkRow)
    requires
        row.token is Err || row.filename is Err || row.created_at is Err
            || row.downloaded_at is Err || row.ip_address is Err,
    ensures
        spec_link(row) matches Err(e) && e.kind == ErrorKind::Malformed,
{
}

fn column_error(column: &str, why: &str) -> (e: MyError)
    ensures
        e@ == no_column(column@, why@),
{
    let mut message = String::from_str("Could not get ");
    message.append(column);
    message.append("! ");
    message.append(why);
    MyError::new(ErrorKind::Malformed, message)
}

impl TryFrom<FileRow> for OnetimeFile {
    type Error = MyError;

    fn try_from(row: FileRow) -> (r: Result<Self, MyError>)
        ensures
            file_answer(r) == spec_file(row),
    {
        let filename = match row.filename {
            Err(why) => { return Err(column_error(FIELD_FILENAME, why.as_str())); },
            Ok(filename) => filename,
        };
        let contents = match row.contents {
            Err(why) => { return Err(column_error(FIELD_CONTENTS, why.as_str())); },
            Ok(contents) => contents,
        };
        let created_at = match row.created_at {
            Err(why) => { return Err(column_error(FIELD_CREATED_AT, why.as_str())); },
            Ok(created_at) => created_at,
        };
        let updated_at = match row.updated_at {
            Err(why) => { return Err(column_error(FIELD_UPDATED_AT, why.as_str())); },
            Ok(updated_at) => updated_at,
        };
        Ok(OnetimeFile { filename, contents: bytes_from_vec(contents), created_at, updated_at })
    }
}

impl vstd::std_specs::convert::TryFromSpecImpl<FileRow> for OnetimeFile {
    open spec fn obeys_try_from_spec() -> bool {
        false
    }

    open spec fn try_from_spec(row: FileRow) -> Result<Self, MyError> {
        arbitrary()
    }
}

impl TryFrom<LinkRow> for OnetimeLink {
    type Error = MyError;

    fn try_from(row: LinkRow) -> (r: Result<Self, MyError>)
        ensures
            link_answer(r) == spec_link(row),
    {
        let token = match row.token {
            Err(why) => { return Err(column_error(FIELD_TOKEN, why.as_str())); },
            Ok(token) => token,
        };
        let filename = match row.filename {
            Err(why) => { return Err(column_error(FIELD_FILENAME, why.as_str())); },
            Ok(filename) => filename,
        };
        let created_at = match row.created_at {
            Err(why) => { return Err(column_error(FIELD_CREATED_AT, why.as_str())); },
            Ok(created_at) => created_at,
        };
        let downloaded_at = match row.downloaded_at {
            Err(why) => { return Err(column_error(FIELD_DOWNLOADED_AT, why.as_str())); },
            Ok(downloaded_at) => downloaded_at,
        };
        let ip_address = match row.ip_address {
            Err(why) => { return Err(column_error(FIELD_IP_ADDRESS, why.as_str())); },
            Ok(ip_address) => ip_address,
        };
        Ok(OnetimeLink { token, filename, created_at, downloaded_at, ip_address })
    }
}

impl vstd::std_specs::convert::TryFromSpecImpl<LinkRow> for OnetimeLink {
    open spec fn obeys_try_from_spec() -> bool {
        false
    }

    open spec fn try_from_spec(row: LinkRow) -> Result<Self, MyError> {
        arbitrary()
    }
}

/// Whether the caller of the guarded update lost: it did when the update
/// changed no row.
pub open spec fn spec_lost(update_count: u64) -> bool {
    update_count == 0
}

/// What the database does with the guarded update: the row under `token`
/// is changed if it is there and records no download, and the number of
/// rows changed comes back.
pub open spec fn guarded_update(
    store: StoreView,
    token: Seq<char>,
    ip_address: Seq<char>,
    downloaded_at: i64,
) -> (StoreView, u64) {
    if store.links.contains_key(token) && store.links[token].downloaded_at is None {
        (store.redeemed(token, ip_address, downloaded_at), 1)
    } else {
        (store, 0)
    }
}

/// The guarded update is the consuming write of the storage port: it
/// changes what the port says is changed, and the count of changed rows
/// tells the caller what the port says it is told.
pub proof fn lemma_guarded_update_consumes_once(
    store: StoreView,
    token: Seq<char>,
    ip_address: Seq<char>,
    downloaded_at: i64,
)
    ensures
        ({
            let (after, update_count) = guarded_update(store, token, ip_address, downloaded_at);
            &&& spec_lost(update_count) == !store.redeemable(token)
            &&& after == (if store.redeemable(token) {
                store.redeemed(token, ip_address, downloaded_at)
            } else {
                store
            })
        }),
{
}

/// What the environment says of the port.
pub open spec fn port_text(env: Map<Seq<char>, String>) -> Seq<char> {
    env_text(env, "PG_PORT"@, DEFAULT_PORT@)
}

/// The port that the environment names, if it names one.
pub open spec fn spec_port(env: Map<Seq<char>, String>) -> Option<int> {
    parse_unsigned_spec(port_text(env), u16::MAX as int)
}

/// Apart from the port, the adapter is what the environment describes,
/// with the defaults where the environment is silent.
pub open spec fn described(env: Map<Seq<char>, String>, storage: Storage) -> bool {
    &&& storage.connection.host@ == env_text(env, "PG_HOST"@, DEFAULT_HOST@)
    &&& storage.connection.user@ == env_text(env, "PG_USER"@, DEFAULT_USER@)
    &&& storage.connection.password@ == env_text(env, "PG_PASS"@, DEFAULT_PASSWORD@)
    &&& storage.connection.dbname@ == env_text(env, "PG_DBNAME"@, DEFAULT_DBNAME@)
    &&& storage.schema@ == env_text(env, "PG_SCHEMA"@, DEFAULT_SCHEMA@)
    &&& storage.files_table@ == env_text(env, "PG_FILES_TABLE"@, DEFAULT_TABLE_FILES@)
    &&& storage.links_table@ == env_text(env, "PG_LINKS_TABLE"@, DEFAULT_TABLE_LINKS@)
}

fn qualify(schema: &str, table: &str) -> (r: String)
    ensures
        r@ == qualified(schema@, table@),
{
    let mut name = String::from_str(schema);
    name.append(".");
    name.append(table);
    name
}

fn compose(before: &str, table: &str, after: &str) -> (r: String)
    ensures
        r@ == before@ + table@ + after@,
{
    let mut sql = String::from_str(before);
    sql.append(table);
    sql.append(after);
    sql
}

impl Storage {
    /// The adapter that a snapshot of the environment describes. A port
    /// that is no number between 0 and 65535 is an error.
    pub fn from_env(env: &Table<String>) -> (r: Result<Storage, MyError>)
        ensures
            match spec_port(env@) {
                None => r matches Err(e) && e@ == bad_port(port_text(env@)),
                Some(port) => r matches Ok(storage) && storage.connection.port == port
                    && described(env@, storage),
            },
    {
        let host = OnetimeDownloaderConfig::env_var_string(
            env,
            "PG_HOST",
            String::from_str(DEFAULT_HOST),
        );
        let port_text = OnetimeDownloaderConfig::env_var_string(
            env,
            "PG_PORT",
            String::from_str(DEFAULT_PORT),
        );
        let port = match parse_unsigned(port_text.as_str(), 65535) {
            None => {
                let mut message = String::from_str("Port is not a valid number! ");
                message.append(port_text.as_str());
                return Err(MyError::new(ErrorKind::Unavailable, message));
            },
            Some(port) => port as u16,
        };
        let connection = Connection {
            host,
            port,
            user: OnetimeDownloaderConfig::env_var_string(
                env,
                "PG_USER",
                String::from_str(DEFAULT_USER),
            ),
            password: OnetimeDownloaderConfig::env_var_string(
                env,
                "PG_PASS",
                String::from_str(DEFAULT_PASSWORD),
            ),
            dbname: OnetimeDownloaderConfig::env_var_string(
                env,
                "PG_DBNAME",
                String::from_str(DEFAULT_DBNAME),
            ),
        };
        Ok(
            Storage {
                schema: OnetimeDownloaderConfig::env_var_string(
                    env,
                    "PG_SCHEMA",
                    String::from_str(DEFAULT_SCHEMA),
                ),
                files_table: OnetimeDownloaderConfig::env_var_string(
                    env,
                    "PG_FILES_TABLE",
                    String::from_str(DEFAULT_TABLE_FILES),
                ),
                links_table: OnetimeDownloaderConfig::env_var_string(
                    env,
                    "PG_LINKS_TABLE",
                    String::from_str(DEFAULT_TABLE_LINKS),
                ),
                connection,
            },
        )
    }

    pub fn name(&self) -> (r: &'static str)
        ensures
            r@ == "Postgres"@,
    {
        "Postgres"
    }

    pub open spec fn files(self) -> Seq<char> {
        qualified(self.schema@, self.files_table@)
    }

    pub open spec fn links(self) -> Seq<char> {
        qualified(self.schema@, self.links_table@)
    }

    /// The error for a connection that could not be had.
    pub fn no_client(why: &str) -> (e: MyError)
        ensures
            e@ == (ErrorView {
                kind: ErrorKind::Unavailable,
                message: "Failed creating client: "@ + why@,
            }),
    {
        let mut message = String::from_str("Failed creating client: ");
        message.append(why);
        MyError::new(ErrorKind::Unavailable, message)
    }

    /// The statement that stores a file. A file that is there under the
    /// same filename gets the new contents and the new time of update, and
    /// keeps its time of creation.
    pub fn add_file(&self, file: OnetimeFile) -> (r: Statement)
        ensures
            r@.sql == insert_file_sql(self.files()),
            r@.params == seq![
                ParamView::Text(file@.filename),
                ParamView::Binary(file@.contents),
                ParamView::Number(file@.created_at),
                ParamView::Number(file@.updated_at),
            ],
    {
        let table = qualify(self.schema.as_str(), self.files_table.as_str());
        let sql = compose(
            "INSERT INTO ",
            table.as_str(),
            " (filename, contents, created_at, updated_at) VALUES ($1, $2, $3, $4) ON CONFLICT (filename) DO UPDATE SET updated_at=$4, contents=$2",
        );
        let mut params: Vec<Param> = Vec::new();
        params.push(Param::Text(file.filename));
        params.push(Param::Binary(file.contents));
        params.push(Param::Number(file.created_at));
        params.push(Param::Number(file.updated_at));
        let r = Statement { sql, params };
        assert(r@.params =~= seq![
            ParamView::Text(file@.filename),
            ParamView::Binary(file@.contents),
            ParamView::Number(file@.created_at),
            ParamView::Number(file@.updated_at),
        ]);
        r
    }

    /// What the answer to that statement means.
    pub fn file_added(answer: Result<u64, String>) -> (r: Result<bool, MyError>)
        ensures
            match answer {
                Ok(_) => r == Ok::<bool, MyError>(true),
                Err(why) => r matches Err(e) && e@ == unavailable("Add file"@, why@),
            },
    {
        match answer {
            Err(why) => Err(failed("Add file", why.as_str())),
            Ok(_) => Ok(true),
        }
    }

    /// The query for all files.
    pub fn list_files(&self) -> (r: Statement)
        ensures
            r@.sql == select_files_sql(self.files()),
            r@.params == Seq::<ParamView>::empty(),
    {
        let table = qualify(self.schema.as_str(), self.files_table.as_str());
        let sql = compose("SELECT filename, contents, created_at, updated_at FROM ", table.as_str(), "");
        let r = Statement { sql, params: Vec::new() };
        assert(r@.params =~= Seq::<ParamView>::empty());
        assert(r@.sql =~= select_files_sql(self.files())) by {
            reveal_strlit("");
        }
        r
    }

    /// What the answer to that query means.
    pub fn files_listed(answer: Result<Vec<FileRow>, String>) -> (r: Result<Vec<OnetimeFile>, MyError>)
        ensures
            match answer {
                Err(why) => r matches Err(e) && e@ == unavailable("List files"@, why@),
                Ok(rows) => spec_files(rows@, files_answer(r)),
            },
    {
        match answer {
            Err(why) => Err(failed("List files", why.as_str())),
            Ok(rows) => {
                let r: Result<Vec<OnetimeFile>, MyError> = try_from_vec(rows, "files");
                proof {
                    lemma_batch_reads::<FileRow, OnetimeFile, FileView>(
                        rows@,
                        "files"@,
                        r,
                        file_reader(),
                        file_view(),
                    );
                }
                r
            },
        }
    }

    /// The query for the file under a filename.
    pub fn get_file(&self, filename: String) -> (r: Statement)
        ensures
            r@.sql == select_file_sql(self.files()),
            r@.params == seq![ParamView::Text(filename@)],
    {
        let table = qualify(self.schema.as_str(), self.files_table.as_str());
        let sql = compose(
            "SELECT filename, contents, created_at, updated_at FROM ",
            table.as_str(),
            " WHERE filename = $1",
        );
        let mut params: Vec<Param> = Vec::new();
        params.push(Param::Text(filename));
        let r = Statement { sql, params };
        assert(r@.params =~= seq![ParamView::Text(filename@)]);
        r
    }

    /// What the answer to that query means.
    pub fn file_fetched(answer: Result<Option<FileRow>, String>) -> (r: Result<OnetimeFile, MyError>)
        ensures
            file_answer(r) == (match answer {
                Err(why) => Err(unavailable("Get file"@, why@)),
                Ok(None) => Err(not_found("File not found"@)),
                Ok(Some(row)) => spec_file(row),
            }),
    {
        match answer {
            Err(why) => Err(failed("Get file", why.as_str())),
            Ok(None) => Err(absent("File not found")),
            Ok(Some(row)) => OnetimeFile::try_from(row),
        }
    }

    /// The statement that stores a link as issued: the columns of the
    /// download are set to null. A link that is there under the same token
    /// makes the statement fail.
    pub fn add_link(&self, link: OnetimeLink) -> (r: Statement)
        ensures
            r@.sql == insert_link_sql(self.links()),
            r@.params == seq![
                ParamView::Text(link@.token),
                ParamView::Text(link@.filename),
                ParamView::Number(link@.created_at),
                ParamView::OptionalNumber(None),
                ParamView::OptionalText(None),
            ],
    {
        let table = qualify(self.schema.as_str(), self.links_table.as_str());
        let sql = compose(
            "INSERT INTO ",
            table.as_str(),
            " (token, filename, created_at, downloaded_at, ip_address) VALUES ($1, $2, $3, $4, $5)",
        );
        let mut params: Vec<Param> = Vec::new();
        params.push(Param::Text(link.token));
        params.push(Param::Text(link.filename));
        params.push(Param::Number(link.created_at));
        params.push(Param::OptionalNumber(None));
        params.push(Param::OptionalText(None));
        let r = Statement { sql, params };
        assert(r@.params =~= seq![
            ParamView::Text(link@.token),
            ParamView::Text(link@.filename),
            ParamView::Number(link@.created_at),
            ParamView::OptionalNumber(None),
            ParamView::OptionalText(None),
        ]);
        r
    }

    /// What the answer to that statement means.
    pub fn link_added(answer: Result<u64, String>) -> (r: Result<bool, MyError>)
        ensures
            match answer {
                Ok(_) => r == Ok::<bool, MyError>(true),
                Err(why) => r matches Err(e) && e@ == unavailable("Add link"@, why@),
            },
    {
        match answer {
            Err(why) => Err(failed("Add link", why.as_str())),
            Ok(_) => Ok(true),
        }
    }

    /// The query for all links.
    pub fn list_links(&self) -> (r: Statement)
        ensures
            r@.sql == select_links_sql(self.links()),
            r@.params == Seq::<ParamView>::empty(),
    {
        let table = qualify(self.schema.as_str(), self.links_table.as_str());
        let sql = compose(
            "SELECT token, filename, created_at, downloaded_at, ip_address FROM ",
            table.as_str(),
            "",
        );
        let r = Statement { sql, params: Vec::new() };
        assert(r@.params =~= Seq::<ParamView>::empty());
        assert(r@.sql =~= select_links_sql(self.links())) by {
            reveal_strlit("");
        }
        r
    }

    /// What the answer to that query means.
    pub fn links_listed(answer: Result<Vec<LinkRow>, String>) -> (r: Result<Vec<OnetimeLink>, MyError>)
        ensures
            match answer {
                Err(why) => r matches Err(e) && e@ == unavailable("List links"@, why@),
                Ok(rows) => spec_links(rows@, links_answer(r)),
            },
    {
        match answer {
            Err(why) => Err(failed("List links", why.as_str())),
            Ok(rows) => {
                let r: Result<Vec<OnetimeLink>, MyError> = try_from_vec(rows, "links");
                proof {
                    lemma_batch_reads::<LinkRow, OnetimeLink, LinkView>(
                        rows@,
                        "links"@,
                        r,
                        link_reader(),
                        link_view(),
                    );
                }
                r
            },
        }
    }

    /// The query for the link under a token.
    pub fn get_link(&self, token: String) -> (r: Statement)
        ensures
            r@.sql == select_link_sql(self.links()),
            r@.params == seq![ParamView::Text(token@)],
    {
        let table = qualify(self.schema.as_str(), self.links_table.as_str());
        let sql = compose(
            "SELECT token, filename, created_at, downloaded_at, ip_address FROM ",
            table.as_str(),
            " WHERE token = $1",
        );
        let mut params: Vec<Param> = Vec::new();
        params.push(Param::Text(token));
        let r = Statement { sql, params };
        assert(r@.params =~= seq![ParamView::Text(token@)]);
        r
    }

    /// What the answer to that query means.
    pub fn link_fetched(answer: Result<Option<LinkRow>, String>) -> (r: Result<OnetimeLink, MyError>)
        ensures
            link_answer(r) == (match answer {
                Err(why) => Err(unavailable("Get link"@, why@)),
                Ok(None) => Err(not_found("Link not found"@)),
                Ok(Some(row)) => spec_link(row),
            }),
    {
        match answer {
            Err(why) => Err(failed("Get link", why.as_str())),
            Ok(None) => Err(absent("Link not found")),
            Ok(Some(row)) => OnetimeLink::try_from(row),
        }
    }

    /// The guarded update that consumes a link: it changes the row under
    /// the link's token only if that row records no download.
    pub fn mark_downloaded(&self, link: OnetimeLink, ip_address: String, downloaded_at: i64) -> (r:
        Statement)
        ensures
            r@.sql == update_link_sql(self.links()),
            r@.params == seq![
                ParamView::Number(downloaded_at),
                ParamView::Text(ip_address@),
                ParamView::Text(link@.token),
            ],
    {
        let table = qualify(self.schema.as_str(), self.links_table.as_str());
        let sql = compose(
            "UPDATE ",
            table.as_str(),
            " SET downloaded_at = $1, ip_address = $2 WHERE token = $3 AND downloaded_at IS NULL",
        );
        let mut params: Vec<Param> = Vec::new();
        params.push(Param::Number(downloaded_at));
        params.push(Param::Text(ip_address));
        params.push(Param::Text(link.token));
        let r = Statement { sql, params };
        assert(r@.params =~= seq![
            ParamView::Number(downloaded_at),
            ParamView::Text(ip_address@),
            ParamView::Text(link@.token),
        ]);
        r
    }

    /// What the answer to the guarded update means: the number of rows
    /// that it changed says whether the caller lost.
    pub fn downloaded_marked(answer: Result<u64, String>) -> (r: Result<bool, MyError>)
        ensures
            mark_answer(r) == (match answer {
                Err(why) => Err(unavailable("Mark downloaded update"@, why@)),
                Ok(update_count) => Ok(spec_lost(update_count)),
            }),
    {
        match answer {
            Err(why) => Err(failed("Mark downloaded update", why.as_str())),
            Ok(update_count) => Ok(update_count == 0),
        }
    }

    /// The statement that removes the file under a filename.
    pub fn delete_file(&self, filename: String) -> (r: Statement)
        ensures
            r@.sql == delete_file_sql(self.files()),
            r@.params == seq![ParamView::Text(filename@)],
    {
        let table = qualify(self.schema.as_str(), self.files_table.as_str());
        let sql = compose("DELETE FROM ", table.as_str(), " WHERE filename = $1");
        let mut params: Vec<Param> = Vec::new();
        params.push(Param::Text(filename));
        let r = Statement { sql, params };
        assert(r@.params =~= seq![ParamView::Text(filename@)]);
        r
    }

    /// What the answer to that statement means: whether nothing was there
    /// to remove.
    pub fn file_deleted(answer: Result<u64, String>) -> (r: Result<bool, MyError>)
        ensures
            mark_answer(r) == (match answer {
                Err(why) => Err(unavailable("Delete file"@, why@)),
                Ok(update_count) => Ok(update_count == 0),
            }),
    {
        match answer {
            Err(why) => Err(failed("Delete file", why.as_str())),
            Ok(update_count) => Ok(update_count == 0),
        }
    }

    /// The statement that removes the link under a token.
    pub fn delete_link(&self, token: String) -> (r: Statement)
        ensures
            r@.sql == delete_link_sql(self.links()),
            r@.params == seq![ParamView::Text(token@)],
    {
        let table = qualify(self.schema.as_str(), self.links_table.as_str());
        let sql = compose("DELETE FROM ", table.as_str(), " WHERE token = $1");
        let mut params: Vec<Param> = Vec::new();
        params.push(Param::Text(token));
        let r = Statement { sql, params };
        assert(r@.params =~= seq![ParamView::Text(token@)]);
        r
    }

    /// What the answer to that statement means: whether nothing was there
    /// to remove.
    pub fn link_deleted(answer: Result<u64, String>) -> (r: Result<bool, MyError>)
        ensures
            mark_answer(r) == (match answer {
                Err(why) => Err(unavailable("Delete link"@, why@)),
                Ok(update_count) => Ok(update_count == 0),
            }),
    {
        match answer {
            Err(why) => Err(failed("Delete link", why.as_str())),
            Ok(update_count) => Ok(update_count == 0),
        }
    }
}

} // verus!
