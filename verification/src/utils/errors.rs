//! The errors every operation reports, each with the category a client
//! needs to decide between correcting the request and retrying it.

use vstd::prelude::*;
use vstd::string::StringExecFns;

use crate::utils::ext::contains;
use crate::utils::ext::spec_contains;

verus! {

/// The category of a failure, named after the HTTP status it is shown as.
#[derive(Clone, Copy, Debug, PartialEq, Eq, Structural)]
pub enum StatusCode {
    BadRequest,
    Unauthorized,
    Forbidden,
    NotFound,
    Conflict,
    ImATeapot,
    /// Bad input: the caller must fix the request.
    UnprocessableEntity,
    InternalServerError,
    /// A transient failure of the store: the caller may retry.
    ServiceUnavailable,
}

impl StatusCode {
    /// The numeric status.
    pub open spec fn spec_as_u16(self) -> u16 {
        match self {
            StatusCode::BadRequest => 400,
            StatusCode::Unauthorized => 401,
            StatusCode::Forbidden => 403,
            StatusCode::NotFound => 404,
            StatusCode::Conflict => 409,
            StatusCode::ImATeapot => 418,
            StatusCode::UnprocessableEntity => 422,
            StatusCode::InternalServerError => 500,
            StatusCode::ServiceUnavailable => 503,
        }
    }

    /// The numeric status.
    #[verifier::when_used_as_spec(spec_as_u16)]
    pub fn as_u16(self) -> (code: u16)
        ensures
            code == self.spec_as_u16(),
    {
        match self {
            StatusCode::BadRequest => 400,
            StatusCode::Unauthorized => 401,
            StatusCode::Forbidden => 403,
            StatusCode::NotFound => 404,
            StatusCode::Conflict => 409,
            StatusCode::ImATeapot => 418,
            StatusCode::UnprocessableEntity => 422,
            StatusCode::InternalServerError => 500,
            StatusCode::ServiceUnavailable => 503,
        }
    }

    /// The reason phrase that goes with the numeric status.
    pub open spec fn spec_reason(self) -> Seq<char> {
        match self {
            StatusCode::BadRequest => "400 Bad Request"@,
            StatusCode::Unauthorized => "401 Unauthorized"@,
            StatusCode::Forbidden => "403 Forbidden"@,
            StatusCode::NotFound => "404 Not Found"@,
            StatusCode::Conflict => "409 Conflict"@,
            StatusCode::ImATeapot => "418 I'm a teapot"@,
            StatusCode::UnprocessableEntity => "422 Unprocessable Entity"@,
            StatusCode::InternalServerError => "500 Internal Server Error"@,
            StatusCode::ServiceUnavailable => "503 Service Unavailable"@,
        }
    }

    pub fn reason(self) -> (s: &'static str)
        ensures
            s@ == self.spec_reason(),
    {
        match self {
            StatusCode::BadRequest => "400 Bad Request",
            StatusCode::Unauthorized => "401 Unauthorized",
            StatusCode::Forbidden => "403 Forbidden",
            StatusCode::NotFound => "404 Not Found",
            StatusCode::Conflict => "409 Conflict",
            StatusCode::ImATeapot => "418 I'm a teapot",
            StatusCode::UnprocessableEntity => "422 Unprocessable Entity",
            StatusCode::InternalServerError => "500 Internal Server Error",
            StatusCode::ServiceUnavailable => "503 Service Unavailable",
        }
    }

    /// Whether repeating the very same request can succeed. Only a
    /// transient failure of the store is retryable as it stands; a
    /// conflict asks for a fresh read first, the rest for a new request.
    pub open spec fn spec_is_retryable(self) -> bool {
        self == StatusCode::ServiceUnavailable
    }

    #[verifier::when_used_as_spec(spec_is_retryable)]
    pub fn is_retryable(self) -> (r: bool)
        ensures
            r == self.spec_is_retryable(),
    {
        match self {
            StatusCode::ServiceUnavailable => true,
            _ => false,
        }
    }
}

/// No two categories share a status.
pub proof fn lemma_statuses_are_distinct(a: StatusCode, b: StatusCode)
    ensures
        a.spec_as_u16() == b.spec_as_u16() <==> a == b,
{
}

/// A failure: its category and a message for the client.
#[derive(Debug, Clone, PartialEq, Eq)]
pub struct AError {
    pub status: StatusCode,
    pub message: String,
}

/// What a `AError` stands for in contracts: its texts as sequences of
/// characters, its numbers without bounds.
pub struct AErrorView {
    pub status: StatusCode,
    pub message: Seq<char>,
}

impl View for AError {
    type V = AErrorView;

    open spec fn view(&self) -> AErrorView {
        AErrorView { status: self.status, message: self.message@ }
    }
}

/// What an operation of the engine returns.
pub type AResult<T> = Result<T, AError>;

impl AError {
    /// A failure of the category `status` with the message `message`.
    pub fn new(status: StatusCode, message: &str) -> (e: AError)
        ensures
            e@ == (AErrorView { status, message: message@ }),
    {
        AError { status, message: String::from_str(message) }
    }

    /// The error as one line: the status, a colon, the message.
    pub open spec fn spec_to_string(e: AErrorView) -> Seq<char> {
        e.status.spec_reason() + ": "@ + e.message
    }

    /// The error as one line: the status, a colon, the message.
    pub fn to_string(&self) -> (s: String)
        ensures
            s@ == Self::spec_to_string(self@),
    {
        let mut s = String::from_str(self.status.reason());
        s.append(": ");
        s.append(self.message.as_str());
        s
    }

    /// The challenge that goes out with the response: one, and only for
    /// a caller that has not authenticated.
    pub fn www_authenticate(&self) -> (challenge: Option<&'static str>)
        ensures
            self.status == StatusCode::Unauthorized ==> challenge is Some
                && challenge->0@ == "Basic realm=Restricted"@,
            self.status != StatusCode::Unauthorized ==> challenge is None,
    {
        match self.status {
            StatusCode::Unauthorized => Some("Basic realm=Restricted"),
            _ => None,
        }
    }
}

/// `sea_orm::DbErr`, the error of the database layer. A value of it is
/// carried through as it is; nothing is known of what it holds.
#[verifier::external_type_specification]
#[verifier::external_body]
pub struct ExDbErr(sea_orm::DbErr);

/// The kinds of errors of the database layer that the engine tells apart:
/// five variants of `sea_orm::DbErr`, each by its name, and the rest.
#[derive(Clone, Copy, Debug, PartialEq, Eq, Structural)]
pub enum DbErrKind {
    /// No connection could be had from the pool.
    ConnectionAcquire,
    /// The connection has failed.
    Conn,
    /// A statement could not be executed.
    Exec,
    /// A query could not be run.
    Query,
    /// The row that was asked for is not there.
    RecordNotFound,
    /// Any other variant: a value that could not be converted, a key that
    /// could not be read, a column that is not set, a record that was not
    /// inserted or updated, an error of a migration, or a custom one.
    Other,
}

/// What went wrong in the database, as far as a client can act on it.
#[derive(Clone, Copy, Debug, PartialEq, Eq, Structural)]
pub enum StoreFailure {
    /// The row that was to be read or written is not there.
    RecordNotFound,
    /// The database could not be reached.
    Connection,
    /// The database gave up on a lock: it waited too long for one, or
    /// broke a deadlock.
    Busy,
    /// Anything else.
    Other,
}

/// Whether the text of an error says that the database gave up on a
/// lock, in the words of the databases that the service runs on: a
/// deadlock, a lock wait that timed out, a lock that could not be
/// obtained, a database that is locked.
pub open spec fn names_a_lock(text: Seq<char>) -> bool {
    ||| spec_contains(text, "eadlock"@)
    ||| spec_contains(text, "ock wait timeout"@)
    ||| spec_contains(text, "lock timeout"@)
    ||| spec_contains(text, "could not obtain lock"@)
    ||| spec_contains(text, "database is locked"@)
}

impl StoreFailure {
    /// The category of the failure: a missing row is not found, a
    /// database that is out of reach or gave up on a lock is a transient
    /// failure, which the caller may retry, and the rest is a failure of
    /// the service.
    pub open spec fn spec_status(self) -> StatusCode {
        match self {
            StoreFailure::RecordNotFound => StatusCode::NotFound,
            StoreFailure::Connection => StatusCode::ServiceUnavailable,
            StoreFailure::Busy => StatusCode::ServiceUnavailable,
            StoreFailure::Other => StatusCode::InternalServerError,
        }
    }

    #[verifier::when_used_as_spec(spec_status)]
    pub fn status(self) -> (status: StatusCode)
        ensures
            status == self.spec_status(),
    {
        match self {
            StoreFailure::RecordNotFound => StatusCode::NotFound,
            StoreFailure::Connection => StatusCode::ServiceUnavailable,
            StoreFailure::Busy => StatusCode::ServiceUnavailable,
            StoreFailure::Other => StatusCode::InternalServerError,
        }
    }

    /// What an error of the kind `kind` with the text `text` stands for:
    /// a record that was not found is a missing row; a connection that
    /// could not be acquired or has failed is a database out of reach; a
    /// statement or query that failed over a lock is a busy database;
    /// everything else is something else.
    pub open spec fn spec_of(kind: DbErrKind, text: Seq<char>) -> StoreFailure {
        match kind {
            DbErrKind::RecordNotFound => StoreFailure::RecordNotFound,
            DbErrKind::ConnectionAcquire => StoreFailure::Connection,
            DbErrKind::Conn => StoreFailure::Connection,
            DbErrKind::Exec => if names_a_lock(text) {
                StoreFailure::Busy
            } else {
                StoreFailure::Other
            },
            DbErrKind::Query => if names_a_lock(text) {
                StoreFailure::Busy
            } else {
                StoreFailure::Other
            },
            DbErrKind::Other => StoreFailure::Other,
        }
    }

    /// What an error of the kind `kind` with the text `text` stands for.
    pub fn of(kind: DbErrKind, text: &str) -> (failure: StoreFailure)
        ensures
            failure == Self::spec_of(kind, text@),
    {
        match kind {
            DbErrKind::RecordNotFound => StoreFailure::RecordNotFound,
            DbErrKind::ConnectionAcquire => StoreFailure::Connection,
            DbErrKind::Conn => StoreFailure::Connection,
            DbErrKind::Exec | DbErrKind::Query => {
                if contains(text, "eadlock") || contains(text, "ock wait timeout") || contains(
                    text,
                    "lock timeout",
                ) || contains(text, "could not obtain lock") || contains(
                    text,
                    "database is locked",
                ) {
                    StoreFailure::Busy
                } else {
                    StoreFailure::Other
                }
            },
            DbErrKind::Other => StoreFailure::Other,
        }
    }
}

/// The kind of the error `err` of the database layer.
pub uninterp spec fn spec_db_err_kind(err: sea_orm::DbErr) -> DbErrKind;

/// The text of the error `err` of the database layer.
pub uninterp spec fn spec_db_err_text(err: sea_orm::DbErr) -> Seq<char>;

/// Tells the variants of `sea_orm::DbErr` apart: `ConnectionAcquire`,
/// `Conn`, `Exec`, `Query` and `RecordNotFound` each by its name, and
/// every other variant as `Other`.
#[verifier::external_body]
fn db_err_kind(err: &sea_orm::DbErr) -> (kind: DbErrKind)
    ensures
        kind == spec_db_err_kind(*err),
{
    match err {
        sea_orm::DbErr::ConnectionAcquire => DbErrKind::ConnectionAcquire,
        sea_orm::DbErr::Conn(_) => DbErrKind::Conn,
        sea_orm::DbErr::Exec(_) => DbErrKind::Exec,
        sea_orm::DbErr::Query(_) => DbErrKind::Query,
        sea_orm::DbErr::RecordNotFound(_) => DbErrKind::RecordNotFound,
        _ => DbErrKind::Other,
    }
}

/// The text of an error of `sea_orm`, as its `Display` gives it.
#[verifier::external_body]
fn db_err_text(err: &sea_orm::DbErr) -> (text: String)
    ensures
        text@ == spec_db_err_text(*err),
{
    err.to_string()
}

/// The failure of the service that the error `err` of the database
/// stands for: the category of what it stands for, and its own text.
pub open spec fn spec_from_db(err: sea_orm::DbErr) -> AErrorView {
    spec_error(
        StoreFailure::spec_of(spec_db_err_kind(err), spec_db_err_text(err)).spec_status(),
        spec_db_err_text(err),
    )
}

impl AError {
    /// The failure of the service that a failure of the database of the
    /// kind `kind`, described by `message`, stands for.
    pub fn from_store_failure(kind: StoreFailure, message: String) -> (e: AError)
        ensures
            e@ == spec_error(kind.spec_status(), message@),
    {
        AError { status: kind.status(), message }
    }

    /// The failure of the service that an error of the database stands
    /// for. It surfaces as it is: its text is the message. A missing row
    /// is not found; a lost connection, a lock wait that timed out and a
    /// deadlock are transient, and can be retried; the rest is a failure
    /// of the service.
    pub fn from_db(err: sea_orm::DbErr) -> (e: AError)
        ensures
            e@ == spec_from_db(err),
    {
        let kind = db_err_kind(&err);
        let message = db_err_text(&err);
        let failure = StoreFailure::of(kind, message.as_str());
        AError::from_store_failure(failure, message)
    }
}

/// The failure of the category `status` with the message `message`.
pub open spec fn spec_error(status: StatusCode, message: Seq<char>) -> AErrorView {
    AErrorView { status, message }
}

/// The request cannot be understood.
pub fn bad_request(message: &str) -> (e: AError)
    ensures
        e@ == spec_error(StatusCode::BadRequest, message@),
{
    AError::new(StatusCode::BadRequest, message)
}

/// The request does not fit the state that it finds: a fresh read may
/// help, the same request will not.
pub fn conflict(message: &str) -> (e: AError)
    ensures
        e@ == spec_error(StatusCode::Conflict, message@),
{
    AError::new(StatusCode::Conflict, message)
}

/// The credentials are not the right ones.
pub fn iam_a_teapot(message: &str) -> (e: AError)
    ensures
        e@ == spec_error(StatusCode::ImATeapot, message@),
{
    AError::new(StatusCode::ImATeapot, message)
}

/// The caller has not said who it is.
pub fn unauthorized(message: &str) -> (e: AError)
    ensures
        e@ == spec_error(StatusCode::Unauthorized, message@),
{
    AError::new(StatusCode::Unauthorized, message)
}

/// The caller may not do this.
pub fn forbidden(message: &str) -> (e: AError)
    ensures
        e@ == spec_error(StatusCode::Forbidden, message@),
{
    AError::new(StatusCode::Forbidden, message)
}

/// What the request names is not there.
pub fn not_found(message: &str) -> (e: AError)
    ensures
        e@ == spec_error(StatusCode::NotFound, message@),
{
    AError::new(StatusCode::NotFound, message)
}

/// The request is understood and cannot be carried out as it stands:
/// the caller must correct it.
pub fn unprocessable_entity(message: &str) -> (e: AError)
    ensures
        e@ == spec_error(StatusCode::UnprocessableEntity, message@),
{
    AError::new(StatusCode::UnprocessableEntity, message)
}

/// The service has failed.
pub fn internal_server_error(message: &str) -> (e: AError)
    ensures
        e@ == spec_error(StatusCode::InternalServerError, message@),
{
    AError::new(StatusCode::InternalServerError, message)
}

/// The service cannot answer now: the caller may try again.
pub fn service_unavailable(message: &str) -> (e: AError)
    ensures
        e@ == spec_error(StatusCode::ServiceUnavailable, message@),
{
    AError::new(StatusCode::ServiceUnavailable, message)
}

} // verus!
