//! The query engine: what each operation asks of the store, and what it
//! answers once the store has replied.
//!
//! The engine never touches the store itself. The caller asks the pool
//! for one connection and starts the operation with [`query`], which gives
//! its first [`Step`]: either the answer, or a [`Request`] to perform
//! together with the state to continue from. Without a connection the
//! operation ends there. With one, the caller performs the request on it,
//! hands the [`Reply`] to [`resume`], and goes on until a step is done.
//! No operation needs more than two requests.
//!
//! Row ids are those of the store, which counts from 1: the first URL
//! stored has the short code `1`.

use crate::schema::{expected_rows, rows_view, validate, INIT_SQL, READ_SQL};
use crate::short_code::{
    decode, decode_spec, encode, encode_spec, is_random_uuid_text, random_uuid,
};
use vstd::prelude::*;
use vstd::string::*;

verus! {

/// What an operation hands back when it succeeds.
#[derive(Debug, PartialEq, Eq)]
pub enum DBValue {
    String(String),
    Number(i64),
    Nothing,
}

/// Why an operation failed.
#[derive(Debug, PartialEq, Eq)]
pub enum DBError {
    /// The short code is malformed.
    InvalidCode,
    /// The short code is well formed, but no URL is stored under it.
    NotFound,
    /// No user has the API key.
    Unauthorized,
    /// The loaded database has not been initialized.
    InvalidSchema,
    /// The pool had no connection to give in time.
    PoolExhausted,
    /// Any other failure of the store: what the engine was doing, and the
    /// store's own words.
    SqliteError { msg: String, src: String },
}

/// A URL to store, as it was posted.
#[derive(Debug, PartialEq, Eq)]
pub struct UrlPostData {
    pub url: String,
    pub title: Option<String>,
    pub description: Option<String>,
    pub key: String,
}

/// The operations of the engine.
#[derive(Debug, PartialEq, Eq)]
pub enum Queries {
    NeedsInit,
    CountUsers,
    InitDB,
    /// rate_limit, is_admin
    CreateUser(i64, bool),
    /// short_code
    GetURL(String),
    /// api_key, url, title?, description?
    StoreNewURL(UrlPostData),
}

/// One thing to do on the store. [`Request::sql`] is the statement and
/// [`Request::params`] are the values to bind to it, in order.
#[derive(Debug, PartialEq, Eq)]
pub enum Request {
    /// Run the query and reply with all its rows as [`Reply::Rows`].
    ReadSchema,
    /// Run the statements as one batch and reply with [`Reply::Done`].
    /// The batch is one transaction; where a statement of it fails, the
    /// store stops there and leaves the transaction open.
    InitSchema,
    /// Roll back the open transaction and reply with [`Reply::Done`].
    Rollback,
    /// Reply with the count as [`Reply::Number`].
    CountUsers,
    /// Execute the statement and reply with [`Reply::Done`].
    InsertUser { api_key: String, rate_limit: i64, is_admin: bool },
    /// Reply with the URL as [`Reply::Text`], or with [`Reply::NoRows`].
    SelectUrl { row_id: i64 },
    /// Reply with the user's row id as [`Reply::Number`], or with
    /// [`Reply::NoRows`].
    SelectUser { api_key: String },
    /// Execute the statement, which is one write that the store does
    /// whole or not at all, and reply with the row id that the store gave
    /// to the new row, as [`Reply::Number`].
    InsertUrl { url: String, title: String, description: String, user_id: i64 },
}

/// A value to bind to a statement.
#[derive(Debug, PartialEq, Eq)]
pub enum Param {
    Text(String),
    Integer(i64),
}

/// What the store answered to a request.
#[derive(Debug, PartialEq, Eq)]
pub enum Reply {
    /// The rows of a query with two text columns, in the order in which
    /// the store gave them.
    Rows(Vec<(String, String)>),
    /// The statement ran.
    Done,
    /// The one number asked for.
    Number(i64),
    /// The one text asked for.
    Text(String),
    /// The query matched no row.
    NoRows,
    /// The store failed, with its own words.
    Failed(String),
}

/// Where an operation stands while the store works on its request.
#[derive(Debug, PartialEq, Eq)]
pub enum Pending {
    Schema,
    Init,
    /// The batch failed with the words `src`, and is being rolled back.
    InitFailed { src: String },
    Count,
    NewUser { api_key: String },
    Url,
    Owner { data: UrlPostData },
    NewUrl,
}

/// A step of an operation: a request to perform and the state to resume
/// from with its reply, or the end of the operation.
#[derive(Debug, PartialEq, Eq)]
pub enum Step {
    Ask(Request, Pending),
    Done(Result<DBValue, DBError>),
}

/// A `DBValue` as the contracts see it: each text by its characters.
pub enum DBValueView {
    String(Seq<char>),
    Number(i64),
    Nothing,
}

/// A `DBError` as the contracts see it.
pub enum DBErrorView {
    InvalidCode,
    NotFound,
    Unauthorized,
    InvalidSchema,
    PoolExhausted,
    SqliteError { msg: Seq<char>, src: Seq<char> },
}

/// A `UrlPostData` as the contracts see it.
pub struct UrlPostDataView {
    pub url: Seq<char>,
    pub title: Option<Seq<char>>,
    pub description: Option<Seq<char>>,
    pub key: Seq<char>,
}

/// A query as the contracts see it.
pub enum QueriesView {
    NeedsInit,
    CountUsers,
    InitDB,
    CreateUser(i64, bool),
    GetURL(Seq<char>),
    StoreNewURL(UrlPostDataView),
}

/// A `Request` as the contracts see it.
pub enum RequestView {
    ReadSchema,
    InitSchema,
    Rollback,
    CountUsers,
    InsertUser { api_key: Seq<char>, rate_limit: i64, is_admin: bool },
    SelectUrl { row_id: i64 },
    SelectUser { api_key: Seq<char> },
    InsertUrl { url: Seq<char>, title: Seq<char>, description: Seq<char>, user_id: i64 },
}

/// A `Param` as the contracts see it.
pub enum ParamView {
    Text(Seq<char>),
    Integer(i64),
}

/// A `Reply` as the contracts see it.
pub enum ReplyView {
    Rows(Seq<(Seq<char>, Seq<char>)>),
    Done,
    Number(i64),
    Text(Seq<char>),
    NoRows,
    Failed(Seq<char>),
}

/// A `Pending` as the contracts see it.
pub enum PendingView {
    Schema,
    Init,
    InitFailed { src: Seq<char> },
    Count,
    NewUser { api_key: Seq<char> },
    Url,
    Owner { data: UrlPostDataView },
    NewUrl,
}

/// A `Step` as the contracts see it.
pub enum StepView {
    Ask(RequestView, PendingView),
    Done(Result<DBValueView, DBErrorView>),
}

impl View for DBValue {
    type V = DBValueView;

    open spec fn view(&self) -> DBValueView {
        match self {
            DBValue::String(s) => DBValueView::String(s@),
            DBValue::Number(n) => DBValueView::Number(*n),
            DBValue::Nothing => DBValueView::Nothing,
        }
    }
}

impl View for DBError {
    type V = DBErrorView;

    open spec fn view(&self) -> DBErrorView {
        match self {
            DBError::InvalidCode => DBErrorView::InvalidCode,
            DBError::NotFound => DBErrorView::NotFound,
            DBError::Unauthorized => DBErrorView::Unauthorized,
            DBError::InvalidSchema => DBErrorView::InvalidSchema,
            DBError::PoolExhausted => DBErrorView::PoolExhausted,
            DBError::SqliteError { msg, src } => DBErrorView::SqliteError { msg: msg@, src: src@ },
        }
    }
}

/// The view of an optional text.
pub open spec fn text_view(text: Option<String>) -> Option<Seq<char>> {
    match text {
        Some(t) => Some(t@),
        None => None,
    }
}

/// The view of an operation's answer.
pub open spec fn result_view(r: Result<DBValue, DBError>) -> Result<DBValueView, DBErrorView> {
    match r {
        Ok(v) => Ok(v@),
        Err(e) => Err(e@),
    }
}

impl View for UrlPostData {
    type V = UrlPostDataView;

    open spec fn view(&self) -> UrlPostDataView {
        UrlPostDataView {
            url: self.url@,
            title: text_view(self.title),
            description: text_view(self.description),
            key: self.key@,
        }
    }
}

impl View for Queries {
    type V = QueriesView;

    open spec fn view(&self) -> QueriesView {
        match self {
            Queries::NeedsInit => QueriesView::NeedsInit,
            Queries::CountUsers => QueriesView::CountUsers,
            Queries::InitDB => QueriesView::InitDB,
            Queries::CreateUser(rate_limit, is_admin) => QueriesView::CreateUser(
                *rate_limit,
                *is_admin,
            ),
            Queries::GetURL(short_code) => QueriesView::GetURL(short_code@),
            Queries::StoreNewURL(data) => QueriesView::StoreNewURL(data@),
        }
    }
}

impl View for Request {
    type V = RequestView;

    open spec fn view(&self) -> RequestView {
        match self {
            Request::ReadSchema => RequestView::ReadSchema,
            Request::InitSchema => RequestView::InitSchema,
            Request::Rollback => RequestView::Rollback,
            Request::CountUsers => RequestView::CountUsers,
            Request::InsertUser { api_key, rate_limit, is_admin } => RequestView::InsertUser {
                api_key: api_key@,
                rate_limit: *rate_limit,
                is_admin: *is_admin,
            },
            Request::SelectUrl { row_id } => RequestView::SelectUrl { row_id: *row_id },
            Request::SelectUser { api_key } => RequestView::SelectUser { api_key: api_key@ },
            Request::InsertUrl { url, title, description, user_id } => RequestView::InsertUrl {
                url: url@,
                title: title@,
                description: description@,
                user_id: *user_id,
            },
        }
    }
}

impl View for Param {
    type V = ParamView;

    open spec fn view(&self) -> ParamView {
        match self {
            Param::Text(t) => ParamView::Text(t@),
            Param::Integer(n) => ParamView::Integer(*n),
        }
    }
}

impl View for Reply {
    type V = ReplyView;

    open spec fn view(&self) -> ReplyView {
        match self {
            Reply::Rows(rows) => ReplyView::Rows(rows_view(rows@)),
            Reply::Done => ReplyView::Done,
            Reply::Number(n) => ReplyView::Number(*n),
            Reply::Text(t) => ReplyView::Text(t@),
            Reply::NoRows => ReplyView::NoRows,
            Reply::Failed(src) => ReplyView::Failed(src@),
        }
    }
}

impl View for Pending {
    type V = PendingView;

    open spec fn view(&self) -> PendingView {
        match self {
            Pending::Schema => PendingView::Schema,
            Pending::Init => PendingView::Init,
            Pending::InitFailed { src } => PendingView::InitFailed { src: src@ },
            Pending::Count => PendingView::Count,
            Pending::NewUser { api_key } => PendingView::NewUser { api_key: api_key@ },
            Pending::Url => PendingView::Url,
            Pending::Owner { data } => PendingView::Owner { data: data@ },
            Pending::NewUrl => PendingView::NewUrl,
        }
    }
}

impl View for Step {
    type V = StepView;

    open spec fn view(&self) -> StepView {
        match self {
            Step::Ask(request, pending) => StepView::Ask(request@, pending@),
            Step::Done(r) => StepView::Done(result_view(*r)),
        }
    }
}

/// The statements of the requests. `?1`, `?2`, ... take the values of
/// [`Request::params`] in order.
pub const COUNT_SQL: &'static str = "SELECT COUNT(rowid) FROM USERS";

pub const ROLLBACK_SQL: &'static str = "ROLLBACK;";

pub const INSERT_USER_SQL: &'static str = "INSERT INTO Users VALUES(NULL, ?1, ?2, ?3)";

pub const SELECT_URL_SQL: &'static str = "SELECT url FROM URLs WHERE rowid = ?";

pub const SELECT_USER_SQL: &'static str = "SELECT rowid FROM Users WHERE api_key = ?";

pub const INSERT_URL_SQL: &'static str =
    "INSERT INTO URLs VALUES(?1, 0, ?2, ?3, DATETIME('now'), ?4)";

/// What the engine was doing when the store failed.
pub const SCHEMA_FAILED: &'static str = "Could not read schema.";

pub const INIT_FAILED: &'static str = "Failed to init DB!";

pub const COUNT_FAILED: &'static str = "Could not check users.";

pub const CREATE_FAILED: &'static str = "Could not create user.";

pub const GET_FAILED: &'static str = "Could not retrieve URL";

pub const STORE_FAILED: &'static str = "Could not store URL";

/// The store's words where it gave a reply that the request does not have.
pub const UNEXPECTED_REPLY: &'static str = "unexpected reply";

/// The store's words where it gave a new row an id that is no row id of
/// this platform.
pub const ROW_OUT_OF_RANGE: &'static str = "row id out of range";

/// The statement of a request.
pub open spec fn sql_spec(request: RequestView) -> Seq<char> {
    match request {
        RequestView::ReadSchema => READ_SQL@,
        RequestView::InitSchema => INIT_SQL@,
        RequestView::Rollback => ROLLBACK_SQL@,
        RequestView::CountUsers => COUNT_SQL@,
        RequestView::InsertUser { .. } => INSERT_USER_SQL@,
        RequestView::SelectUrl { .. } => SELECT_URL_SQL@,
        RequestView::SelectUser { .. } => SELECT_USER_SQL@,
        RequestView::InsertUrl { .. } => INSERT_URL_SQL@,
    }
}

/// The values that a request binds to its statement, in the order of the
/// statement's parameters. A flag is bound as 1 or 0.
pub open spec fn params_spec(request: RequestView) -> Seq<ParamView> {
    match request {
        RequestView::ReadSchema => seq![],
        RequestView::InitSchema => seq![],
        RequestView::Rollback => seq![],
        RequestView::CountUsers => seq![],
        RequestView::InsertUser { api_key, rate_limit, is_admin } => seq![
            ParamView::Text(api_key),
            ParamView::Integer(rate_limit),
            ParamView::Integer(if is_admin { 1i64 } else { 0i64 }),
        ],
        RequestView::SelectUrl { row_id } => seq![ParamView::Integer(row_id)],
        RequestView::SelectUser { api_key } => seq![ParamView::Text(api_key)],
        RequestView::InsertUrl { url, title, description, user_id } => seq![
            ParamView::Text(url),
            ParamView::Text(title),
            ParamView::Text(description),
            ParamView::Integer(user_id),
        ],
    }
}

/// The view of a list of parameters.
pub open spec fn params_view(params: Seq<Param>) -> Seq<ParamView> {
    params.map_values(|p: Param| p@)
}

impl Request {
    /// The statement to run.
    pub fn sql(&self) -> (sql: &'static str)
        ensures
            sql@ == sql_spec(self@),
    {
        match self {
            Request::ReadSchema => READ_SQL,
            Request::InitSchema => INIT_SQL,
            Request::Rollback => ROLLBACK_SQL,
            Request::CountUsers => COUNT_SQL,
            Request::InsertUser { .. } => INSERT_USER_SQL,
            Request::SelectUrl { .. } => SELECT_URL_SQL,
            Request::SelectUser { .. } => SELECT_USER_SQL,
            Request::InsertUrl { .. } => INSERT_URL_SQL,
        }
    }

    /// The values to bind to the statement's parameters, in order.
    pub fn params(&self) -> (params: Vec<Param>)
        ensures
            params_view(params@) == params_spec(self@),
    {
        let mut params: Vec<Param> = Vec::new();
        match self {
            Request::ReadSchema => {},
            Request::InitSchema => {},
            Request::Rollback => {},
            Request::CountUsers => {},
            Request::InsertUser { api_key, rate_limit, is_admin } => {
                params.push(Param::Text(api_key.clone()));
                params.push(Param::Integer(*rate_limit));
                params.push(Param::Integer(if *is_admin { 1 } else { 0 }));
            },
            Request::SelectUrl { row_id } => {
                params.push(Param::Integer(*row_id));
            },
            Request::SelectUser { api_key } => {
                params.push(Param::Text(api_key.clone()));
            },
            Request::InsertUrl { url, title, description, user_id } => {
                params.push(Param::Text(url.clone()));
                params.push(Param::Text(title.clone()));
                params.push(Param::Text(description.clone()));
                params.push(Param::Integer(*user_id));
            },
        }
        assert(params_view(params@) =~= params_spec(self@));
        params
    }
}

/// The store's words for a reply that is not the awaited one: its own
/// where it failed, and a fixed text where it gave a reply that the
/// request does not have.
pub open spec fn failure_words(reply: ReplyView) -> Seq<char> {
    match reply {
        ReplyView::Failed(src) => src,
        _ => UNEXPECTED_REPLY@,
    }
}

/// The error for a reply that is not the awaited one. `msg` says what the
/// engine was doing.
pub open spec fn failure_spec(msg: Seq<char>, reply: ReplyView) -> DBErrorView {
    DBErrorView::SqliteError { msg, src: failure_words(reply) }
}

/// What `NeedsInit` answers once the schema has been read: success where
/// the rows are the expected ones, `InvalidSchema` where they are not.
pub open spec fn check_database_schema_spec(reply: ReplyView) -> Result<
    DBValueView,
    DBErrorView,
> {
    match reply {
        ReplyView::Rows(rows) => if rows == expected_rows() {
            Ok(DBValueView::Nothing)
        } else {
            Err(DBErrorView::InvalidSchema)
        },
        _ => Err(failure_spec(SCHEMA_FAILED@, reply)),
    }
}

/// The second step of `InitDB`. Where the batch ran, the operation ends
/// with success. Where it did not, its transaction may still be open with
/// a part of the schema in it: the store is asked to roll it back, and the
/// operation does not end before that.
pub open spec fn init_database_spec(reply: ReplyView) -> StepView {
    match reply {
        ReplyView::Done => StepView::Done(Ok(DBValueView::Nothing)),
        _ => StepView::Ask(
            RequestView::Rollback,
            PendingView::InitFailed { src: failure_words(reply) },
        ),
    }
}

/// What `InitDB` answers once a failed batch is rolled back: the failure
/// of the batch, whatever the store replied to the rollback.
pub open spec fn init_rolled_back_spec(src: Seq<char>, reply: ReplyView) -> Result<
    DBValueView,
    DBErrorView,
> {
    Err(DBErrorView::SqliteError { msg: INIT_FAILED@, src })
}

/// What `CountUsers` answers: the count that the store gave.
pub open spec fn count_users_spec(reply: ReplyView) -> Result<DBValueView, DBErrorView> {
    match reply {
        ReplyView::Number(n) => Ok(DBValueView::Number(n)),
        _ => Err(failure_spec(COUNT_FAILED@, reply)),
    }
}

/// The first step of `CreateUser`: insert a user with the new key.
pub open spec fn create_user_spec(new_key: Seq<char>, rate_limit: i64, is_admin: bool) -> StepView {
    StepView::Ask(
        RequestView::InsertUser { api_key: new_key, rate_limit, is_admin },
        PendingView::NewUser { api_key: new_key },
    )
}

/// What `CreateUser` answers once the user is inserted: the new key.
pub open spec fn user_created_spec(api_key: Seq<char>, reply: ReplyView) -> Result<
    DBValueView,
    DBErrorView,
> {
    match reply {
        ReplyView::Done => Ok(DBValueView::String(api_key)),
        _ => Err(failure_spec(CREATE_FAILED@, reply)),
    }
}

/// The first step of `GetURL`. A malformed code ends the operation at
/// once. A code beyond the row ids of the store, which are 64 bit signed,
/// names no row. For any other code the store is asked for the row.
pub open spec fn get_url_spec(short_code: Seq<char>) -> StepView {
    match decode_spec(short_code) {
        Err(_) => StepView::Done(Err(DBErrorView::InvalidCode)),
        Ok(n) => if n <= i64::MAX {
            StepView::Ask(RequestView::SelectUrl { row_id: n as i64 }, PendingView::Url)
        } else {
            StepView::Done(Err(DBErrorView::NotFound))
        },
    }
}

/// What `GetURL` answers once the store has looked the row up.
pub open spec fn url_found_spec(reply: ReplyView) -> Result<DBValueView, DBErrorView> {
    match reply {
        ReplyView::Text(url) => Ok(DBValueView::String(url)),
        ReplyView::NoRows => Err(DBErrorView::NotFound),
        _ => Err(failure_spec(GET_FAILED@, reply)),
    }
}

/// The first step of `StoreNewURL`: look up the user who has the key.
pub open spec fn store_url_spec(data: UrlPostDataView) -> StepView {
    StepView::Ask(RequestView::SelectUser { api_key: data.key }, PendingView::Owner { data })
}

/// A text that was left out is the empty text.
pub open spec fn text_or_empty(text: Option<Seq<char>>) -> Seq<char> {
    match text {
        Some(t) => t,
        None => Seq::empty(),
    }
}

/// The second step of `StoreNewURL`. Where the store knows the key's
/// user, the URL is inserted under that user. Where it knows none, the
/// operation ends with `Unauthorized` and nothing is inserted.
pub open spec fn owner_found_spec(data: UrlPostDataView, reply: ReplyView) -> StepView {
    match reply {
        ReplyView::Number(user_id) => StepView::Ask(
            RequestView::InsertUrl {
                url: data.url,
                title: text_or_empty(data.title),
                description: text_or_empty(data.description),
                user_id,
            },
            PendingView::NewUrl,
        ),
        ReplyView::NoRows => StepView::Done(Err(DBErrorView::Unauthorized)),
        _ => StepView::Done(Err(failure_spec(STORE_FAILED@, reply))),
    }
}

/// What `StoreNewURL` answers once the URL is inserted: the short code of
/// the row id that the store gave it.
pub open spec fn url_stored_spec(reply: ReplyView) -> Result<DBValueView, DBErrorView> {
    match reply {
        ReplyView::Number(row_id) => if 0 <= row_id <= usize::MAX {
            Ok(DBValueView::String(encode_spec(row_id as nat)))
        } else {
            Err(DBErrorView::SqliteError { msg: STORE_FAILED@, src: ROW_OUT_OF_RANGE@ })
        },
        _ => Err(failure_spec(STORE_FAILED@, reply)),
    }
}

/// The first step of an operation that has a connection. `new_key` is
/// the API key that `CreateUser` gives the new user; no other operation
/// looks at it.
pub open spec fn connected_spec(query: QueriesView, new_key: Seq<char>) -> StepView {
    match query {
        QueriesView::NeedsInit => StepView::Ask(RequestView::ReadSchema, PendingView::Schema),
        QueriesView::CountUsers => StepView::Ask(RequestView::CountUsers, PendingView::Count),
        QueriesView::InitDB => StepView::Ask(RequestView::InitSchema, PendingView::Init),
        QueriesView::CreateUser(rate_limit, is_admin) => create_user_spec(
            new_key,
            rate_limit,
            is_admin,
        ),
        QueriesView::GetURL(short_code) => get_url_spec(short_code),
        QueriesView::StoreNewURL(data) => store_url_spec(data),
    }
}

/// The first step of an operation. `connected` says whether the pool gave
/// a connection: without one every operation ends with `PoolExhausted`
/// before it does anything else.
pub open spec fn query_spec(query: QueriesView, connected: bool, new_key: Seq<char>) -> StepView {
    if connected {
        connected_spec(query, new_key)
    } else {
        StepView::Done(Err(DBErrorView::PoolExhausted))
    }
}

/// The step that follows the store's reply.
pub open spec fn resume_spec(pending: PendingView, reply: ReplyView) -> StepView {
    match pending {
        PendingView::Schema => StepView::Done(check_database_schema_spec(reply)),
        PendingView::Init => init_database_spec(reply),
        PendingView::InitFailed { src } => StepView::Done(init_rolled_back_spec(src, reply)),
        PendingView::Count => StepView::Done(count_users_spec(reply)),
        PendingView::NewUser { api_key } => StepView::Done(user_created_spec(api_key, reply)),
        PendingView::Url => StepView::Done(url_found_spec(reply)),
        PendingView::Owner { data } => owner_found_spec(data, reply),
        PendingView::NewUrl => StepView::Done(url_stored_spec(reply)),
    }
}

/// The store's words for a reply that is not the awaited one.
fn words_of(reply: Reply) -> (src: String)
    ensures
        src@ == failure_words(reply@),
{
    match reply {
        Reply::Failed(src) => src,
        _ => UNEXPECTED_REPLY.to_owned(),
    }
}

/// The error for a reply that is not the awaited one.
fn failure(msg: &'static str, reply: Reply) -> (e: DBError)
    ensures
        e@ == failure_spec(msg@, reply@),
{
    DBError::SqliteError { msg: msg.to_owned(), src: words_of(reply) }
}

/// Checks the schema that the store gave against the expected one.
pub fn check_database_schema(reply: Reply) -> (r: Result<DBValue, DBError>)
    ensures
        result_view(r) == check_database_schema_spec(reply@),
{
    match reply {
        Reply::Rows(rows) => match validate(&rows) {
            Ok(()) => Ok(DBValue::Nothing),
            Err(_) => Err(DBError::InvalidSchema),
        },
        other => Err(failure(SCHEMA_FAILED, other)),
    }
}

/// Goes on with `InitDB` once the store has replied to the batch: ends
/// it where the batch ran, and has a failed batch rolled back.
pub fn init_database(reply: Reply) -> (step: Step)
    ensures
        step@ == init_database_spec(reply@),
{
    match reply {
        Reply::Done => Step::Done(Ok(DBValue::Nothing)),
        other => Step::Ask(Request::Rollback, Pending::InitFailed { src: words_of(other) }),
    }
}

/// Answers `InitDB` with the failure of the batch once it is rolled back.
pub fn init_rolled_back(src: String, reply: Reply) -> (r: Result<DBValue, DBError>)
    ensures
        result_view(r) == init_rolled_back_spec(src@, reply@),
{
    Err(DBError::SqliteError { msg: INIT_FAILED.to_owned(), src })
}

/// Answers `CountUsers` with the count that the store gave.
pub fn count_users(reply: Reply) -> (r: Result<DBValue, DBError>)
    ensures
        result_view(r) == count_users_spec(reply@),
{
    match reply {
        Reply::Number(n) => Ok(DBValue::Number(n)),
        other => Err(failure(COUNT_FAILED, other)),
    }
}

/// Creates a user entry with the API key `new_key`.
pub fn create_user(new_key: String, rate_limit: i64, is_admin: bool) -> (step: Step)
    ensures
        step@ == create_user_spec(new_key@, rate_limit, is_admin),
{
    let api_key = new_key.clone();
    Step::Ask(Request::InsertUser { api_key, rate_limit, is_admin }, Pending::NewUser { api_key: new_key })
}

/// Answers `CreateUser` with the API key once the user is inserted.
pub fn user_created(api_key: String, reply: Reply) -> (r: Result<DBValue, DBError>)
    ensures
        result_view(r) == user_created_spec(api_key@, reply@),
{
    match reply {
        Reply::Done => Ok(DBValue::String(api_key)),
        other => Err(failure(CREATE_FAILED, other)),
    }
}

/// Looks up an URL by decoding the short_code to its ID
pub fn get_url(short_code: &str) -> (step: Step)
    ensures
        step@ == get_url_spec(short_code@),
{
    match decode(short_code) {
        Err(_) => Step::Done(Err(DBError::InvalidCode)),
        Ok(n) => {
            if n as u64 <= i64::MAX as u64 {
                Step::Ask(Request::SelectUrl { row_id: n as i64 }, Pending::Url)
            } else {
                Step::Done(Err(DBError::NotFound))
            }
        },
    }
}

/// Answers `GetURL` once the store has looked the row up.
pub fn url_found(reply: Reply) -> (r: Result<DBValue, DBError>)
    ensures
        result_view(r) == url_found_spec(reply@),
{
    match reply {
        Reply::Text(url) => Ok(DBValue::String(url)),
        Reply::NoRows => Err(DBError::NotFound),
        other => Err(failure(GET_FAILED, other)),
    }
}

/// Stores a new URL if api_key is assigned to a valid user
pub fn store_url(data: UrlPostData) -> (step: Step)
    ensures
        step@ == store_url_spec(data@),
{
    let api_key = data.key.clone();
    Step::Ask(Request::SelectUser { api_key }, Pending::Owner { data })
}

/// The text, or the empty text where there is none.
fn or_empty(text: Option<String>) -> (t: String)
    ensures
        t@ == text_or_empty(text_view(text)),
{
    match text {
        Some(t) => t,
        None => String::new(),
    }
}

/// Goes on with `StoreNewURL` once the store has looked the user up.
pub fn owner_found(data: UrlPostData, reply: Reply) -> (step: Step)
    ensures
        step@ == owner_found_spec(data@, reply@),
{
    match reply {
        Reply::Number(user_id) => {
            let UrlPostData { url, title, description, key: _ } = data;
            Step::Ask(
                Request::InsertUrl {
                    url,
                    title: or_empty(title),
                    description: or_empty(description),
                    user_id,
                },
                Pending::NewUrl,
            )
        },
        Reply::NoRows => Step::Done(Err(DBError::Unauthorized)),
        other => Step::Done(Err(failure(STORE_FAILED, other))),
    }
}

/// Answers `StoreNewURL` with the short code of the new row.
pub fn url_stored(reply: Reply) -> (r: Result<DBValue, DBError>)
    ensures
        result_view(r) == url_stored_spec(reply@),
{
    match reply {
        Reply::Number(row_id) => {
            if row_id >= 0 && row_id as u64 <= usize::MAX as u64 {
                Ok(DBValue::String(encode(row_id as usize)))
            } else {
                Err(
                    DBError::SqliteError {
                        msg: STORE_FAILED.to_owned(),
                        src: ROW_OUT_OF_RANGE.to_owned(),
                    },
                )
            }
        },
        other => Err(failure(STORE_FAILED, other)),
    }
}

/// Turns a query into its first step. `connected` says whether the pool
/// gave the operation its connection: without one the operation ends with
/// `PoolExhausted`, and no key is drawn. For `CreateUser` the new API key
/// is a fresh random token, so that step is determined but for the key.
pub fn query(q: Queries, connected: bool) -> (step: Step)
    ensures
        !connected ==> step@ == StepView::Done(Err(DBErrorView::PoolExhausted)),
        connected ==> match q {
            Queries::CreateUser(rate_limit, is_admin) => exists|new_key: Seq<char>|
                is_random_uuid_text(new_key) && step@ == #[trigger] create_user_spec(
                    new_key,
                    rate_limit,
                    is_admin,
                ),
            _ => step@ == query_spec(q@, true, Seq::empty()),
        },
{
    if !connected {
        return Step::Done(Err(DBError::PoolExhausted));
    }
    match q {
        Queries::NeedsInit => Step::Ask(Request::ReadSchema, Pending::Schema),
        Queries::CountUsers => Step::Ask(Request::CountUsers, Pending::Count),
        Queries::InitDB => Step::Ask(Request::InitSchema, Pending::Init),
        Queries::CreateUser(rate_limit, is_admin) => {
            let new_key = random_uuid();
            create_user(new_key, rate_limit, is_admin)
        },
        Queries::GetURL(short_code) => get_url(short_code.as_str()),
        Queries::StoreNewURL(data) => store_url(data),
    }
}

/// Goes on with an operation: the step that follows the store's reply to
/// the request of the step before.
pub fn resume(pending: Pending, reply: Reply) -> (step: Step)
    ensures
        step@ == resume_spec(pending@, reply@),
{
    match pending {
        Pending::Schema => Step::Done(check_database_schema(reply)),
        Pending::Init => init_database(reply),
        Pending::InitFailed { src } => Step::Done(init_rolled_back(src, reply)),
        Pending::Count => Step::Done(count_users(reply)),
        Pending::NewUser { api_key } => Step::Done(user_created(api_key, reply)),
        Pending::Url => Step::Done(url_found(reply)),
        Pending::Owner { data } => owner_found(data, reply),
        Pending::NewUrl => Step::Done(url_stored(reply)),
    }
}

/// The words of an error.
pub open spec fn message_spec(e: DBErrorView) -> Seq<char> {
    match e {
        DBErrorView::InvalidCode => "The short code is not valid."@,
        DBErrorView::NotFound => "No URL is stored under the short code."@,
        DBErrorView::Unauthorized => "The API key is not known."@,
        DBErrorView::InvalidSchema => "The loaded database has not been initialized."@,
        DBErrorView::PoolExhausted => "No connection to the database is available."@,
        DBErrorView::SqliteError { msg, src } => "Database error: "@ + msg + " ("@ + src + ")"@,
    }
}

impl DBError {
    /// The words of the error, for a log or a terminal.
    pub fn message(&self) -> (words: String)
        ensures
            words@ == message_spec(self@),
    {
        match self {
            DBError::InvalidCode => "The short code is not valid.".to_owned(),
            DBError::NotFound => "No URL is stored under the short code.".to_owned(),
            DBError::Unauthorized => "The API key is not known.".to_owned(),
            DBError::InvalidSchema => "The loaded database has not been initialized.".to_owned(),
            DBError::PoolExhausted => "No connection to the database is available.".to_owned(),
            DBError::SqliteError { msg, src } => {
                let mut words = "Database error: ".to_owned();
                words.append(msg.as_str());
                words.append(" (");
                words.append(src.as_str());
                words.append(")");
                words
            },
        }
    }
}

/// The requests that an operation makes, in order, and its answer, where
/// the store gives the replies `replies` one after the other. The answer
/// is `None` where the replies run out before the operation ends. Replies
/// that are left over are not looked at.
pub open spec fn run_spec(step: StepView, replies: Seq<ReplyView>) -> (
    Seq<RequestView>,
    Option<Result<DBValueView, DBErrorView>>,
)
    decreases replies.len(),
{
    match step {
        StepView::Done(r) => (Seq::empty(), Some(r)),
        StepView::Ask(request, pending) => if replies.len() == 0 {
            (seq![request], None)
        } else {
            let rest = run_spec(resume_spec(pending, replies[0]), replies.drop_first());
            (seq![request] + rest.0, rest.1)
        },
    }
}

/// A request that adds to the store.
pub open spec fn is_write(request: RequestView) -> bool {
    request is InitSchema || request is InsertUser || request is InsertUrl
}

/// No operation makes more than two requests, and two replies are enough
/// to end any of them.
pub proof fn lemma_two_requests_at_most(
    q: QueriesView,
    connected: bool,
    new_key: Seq<char>,
    replies: Seq<ReplyView>,
)
    ensures
        run_spec(query_spec(q, connected, new_key), replies).0.len() <= 2,
        replies.len() >= 2 ==> run_spec(query_spec(q, connected, new_key), replies).1 is Some,
{
    reveal_with_fuel(run_spec, 3);
}

/// Without a connection no operation runs: it ends with `PoolExhausted`,
/// and nothing is asked of the store.
pub proof fn lemma_no_connection_asks_nothing(
    q: QueriesView,
    new_key: Seq<char>,
    replies: Seq<ReplyView>,
)
    ensures
        run_spec(query_spec(q, false, new_key), replies) == (
            Seq::<RequestView>::empty(),
            Some(Err::<DBValueView, DBErrorView>(DBErrorView::PoolExhausted)),
        ),
{
}

/// A failed initialization is rolled back: where the store does not
/// reply to the batch that it ran, the request after the batch, and the
/// last of the operation, is the rollback. The operation then ends with
/// the failure of the batch, whatever the store replies to the rollback.
pub proof fn lemma_failed_init_rolls_back(new_key: Seq<char>, replies: Seq<ReplyView>)
    requires
        replies.len() > 0,
        replies[0] != ReplyView::Done,
    ensures
        run_spec(query_spec(QueriesView::InitDB, true, new_key), replies).0 == seq![
            RequestView::InitSchema,
            RequestView::Rollback,
        ],
        replies.len() > 1 ==> run_spec(query_spec(QueriesView::InitDB, true, new_key), replies).1
            == Some(
            Err::<DBValueView, DBErrorView>(
                DBErrorView::SqliteError { msg: INIT_FAILED@, src: failure_words(replies[0]) },
            ),
        ),
{
    reveal_with_fuel(run_spec, 3);
    let run = run_spec(query_spec(QueriesView::InitDB, true, new_key), replies);
    assert(run.0 =~= seq![RequestView::InitSchema, RequestView::Rollback]);
}

/// An initialization whose batch ran makes that one request and succeeds.
pub proof fn lemma_init_runs_one_batch(new_key: Seq<char>, replies: Seq<ReplyView>)
    requires
        replies.len() > 0,
        replies[0] == ReplyView::Done,
    ensures
        run_spec(query_spec(QueriesView::InitDB, true, new_key), replies) == (
            seq![RequestView::InitSchema],
            Some(Ok::<DBValueView, DBErrorView>(DBValueView::Nothing)),
        ),
{
    reveal_with_fuel(run_spec, 3);
    let run = run_spec(query_spec(QueriesView::InitDB, true, new_key), replies);
    assert(run.0 =~= seq![RequestView::InitSchema]);
}

/// Where the store knows no user with the API key, `StoreNewURL` fails
/// with `Unauthorized`, and the one request it has made is the look-up of
/// the key. Nothing is inserted.
pub proof fn lemma_unknown_key_stores_nothing(
    data: UrlPostDataView,
    new_key: Seq<char>,
    replies: Seq<ReplyView>,
)
    requires
        replies.len() > 0,
        replies[0] == ReplyView::NoRows,
    ensures
        run_spec(query_spec(QueriesView::StoreNewURL(data), true, new_key), replies) == (
            seq![RequestView::SelectUser { api_key: data.key }],
            Some(Err::<DBValueView, DBErrorView>(DBErrorView::Unauthorized)),
        ),
{
    reveal_with_fuel(run_spec, 3);
    let run = run_spec(query_spec(QueriesView::StoreNewURL(data), true, new_key), replies);
    assert(run.0 =~= seq![RequestView::SelectUser { api_key: data.key }]);
}

/// `StoreNewURL` inserts only after the store has named the user of the
/// API key, and then it inserts the posted URL under that user.
pub proof fn lemma_insert_needs_user(
    data: UrlPostDataView,
    connected: bool,
    new_key: Seq<char>,
    replies: Seq<ReplyView>,
    i: int,
)
    requires
        0 <= i < run_spec(
            query_spec(QueriesView::StoreNewURL(data), connected, new_key),
            replies,
        ).0.len(),
        is_write(
            run_spec(query_spec(QueriesView::StoreNewURL(data), connected, new_key), replies).0[i],
        ),
    ensures
        connected,
        i == 1,
        replies.len() > 0,
        replies[0] matches ReplyView::Number(user_id) && run_spec(
            query_spec(QueriesView::StoreNewURL(data), connected, new_key),
            replies,
        ).0[i] == (RequestView::InsertUrl {
            url: data.url,
            title: text_or_empty(data.title),
            description: text_or_empty(data.description),
            user_id,
        }),
{
    reveal_with_fuel(run_spec, 3);
}

/// `NeedsInit`, `CountUsers` and `GetURL` never change the store.
pub proof fn lemma_reads_do_not_write(
    q: QueriesView,
    connected: bool,
    new_key: Seq<char>,
    replies: Seq<ReplyView>,
    i: int,
)
    requires
        q is NeedsInit || q is CountUsers || q is GetURL,
        0 <= i < run_spec(query_spec(q, connected, new_key), replies).0.len(),
    ensures
        !is_write(run_spec(query_spec(q, connected, new_key), replies).0[i]),
{
    reveal_with_fuel(run_spec, 3);
}

/// `GetURL` fails fast: with a connection, a malformed short code ends the
/// operation with `InvalidCode` before anything is asked of the store.
pub proof fn lemma_malformed_code_asks_nothing(
    short_code: Seq<char>,
    new_key: Seq<char>,
    replies: Seq<ReplyView>,
)
    requires
        decode_spec(short_code) is Err,
    ensures
        run_spec(query_spec(QueriesView::GetURL(short_code), true, new_key), replies) == (
            Seq::<RequestView>::empty(),
            Some(Err::<DBValueView, DBErrorView>(DBErrorView::InvalidCode)),
        ),
{
}

/// The short code that `StoreNewURL` answers with leads `GetURL` back to
/// the row that the store gave the URL.
pub proof fn lemma_stored_code_finds_row(row_id: i64)
    requires
        0 <= row_id <= usize::MAX,
    ensures
        url_stored_spec(ReplyView::Number(row_id)) == Ok::<DBValueView, DBErrorView>(
            DBValueView::String(encode_spec(row_id as nat)),
        ),
        get_url_spec(encode_spec(row_id as nat)) == StepView::Ask(
            RequestView::SelectUrl { row_id },
            PendingView::Url,
        ),
{
    crate::short_code::lemma_decode_encode(row_id as nat);
}

/// What `StoreNewURL` answers for each of the row ids `rows`.
pub open spec fn stored_answers(rows: Seq<i64>) -> Seq<Result<DBValueView, DBErrorView>> {
    rows.map_values(|row_id: i64| url_stored_spec(ReplyView::Number(row_id)))
}

/// However many URLs are stored, in whatever order and on whichever
/// connections: where the store has given each its own row id, each gets
/// a short code that decodes to its row id, and no two get the same.
pub proof fn lemma_distinct_rows_distinct_codes(rows: Seq<i64>)
    requires
        forall|i: int| 0 <= i < rows.len() ==> 0 <= #[trigger] rows[i] <= usize::MAX,
        rows.no_duplicates(),
    ensures
        stored_answers(rows).len() == rows.len(),
        forall|i: int|
            0 <= i < rows.len() ==> #[trigger] stored_answers(rows)[i] == Ok::<
                DBValueView,
                DBErrorView,
            >(DBValueView::String(encode_spec(rows[i] as nat))),
        forall|i: int|
            0 <= i < rows.len() ==> decode_spec(encode_spec(#[trigger] rows[i] as nat)) == Ok::<
                nat,
                crate::short_code::InvalidCode,
            >(rows[i] as nat),
        stored_answers(rows).no_duplicates(),
{
    assert forall|i: int, j: int|
        0 <= i < rows.len() && 0 <= j < rows.len() && i != j implies stored_answers(rows)[i]
        != stored_answers(rows)[j] by {
        crate::short_code::lemma_encode_injective(rows[i] as nat, rows[j] as nat);
    }
    assert forall|i: int| 0 <= i < rows.len() implies decode_spec(
        encode_spec(#[trigger] rows[i] as nat),
    ) == Ok::<nat, crate::short_code::InvalidCode>(rows[i] as nat) by {
        crate::short_code::lemma_decode_encode(rows[i] as nat);
    }
}

} // verus!
