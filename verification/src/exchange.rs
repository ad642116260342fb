use vstd::prelude::*;

use crate::model::users::{NewUser, UserModel, UserModelToken};
use crate::service::auth::auth_forgot_send_otp::RedisOtp;
use crate::service::mail::MailError;

verus! {

/// The HTTP statuses that the handlers answer with.
#[derive(PartialEq, Eq, Structural, Clone, Copy, Debug)]
pub enum Status {
    Success,
    Created,
    AlreadyReported,
    BadRequest,
    Unauthorized,
    NotFound,
    NotAcceptable,
    Conflict,
    Gone,
    TooManyRequests,
    InternalServerError,
    BadGateway,
}

/// A field of a request body that carries a validation rule.
#[derive(PartialEq, Eq, Structural, Clone, Copy, Debug)]
pub enum Field {
    Image,
    Username,
    Password,
    Email,
    Mob,
    Otp,
}

/// The kind of rule that a field failed: an e-mail address, or a number of
/// characters within the bounds that are given.
#[derive(PartialEq, Eq, Structural, Clone, Copy, Debug)]
pub enum Rule {
    Email,
    Length { min: Option<u64>, max: Option<u64> },
}

/// One failed validation rule, with the value that failed it.
#[derive(PartialEq, Eq, Clone, Debug)]
pub struct FieldError {
    pub field: Field,
    pub rule: Rule,
    pub value: String,
}

/// The body of an answer.
#[derive(Debug)]
pub enum Body {
    /// No body.
    Empty,
    /// A plain text body.
    Text(String),
    /// The validation errors of a request body, shown after the text given.
    Invalid(String, Vec<FieldError>),
    /// A JSON object holding an access token and a refresh token.
    Tokens { access_token: String, refresh_token: String },
    /// A JSON object `{"email": ..}` that echoes the request.
    EmailEcho(String),
}

/// An HTTP answer: a status and a body.
#[derive(Debug)]
pub struct Reply {
    pub status: Status,
    pub body: Body,
}

/// How the shared Redis connection was found when its lock was taken.
#[derive(Debug)]
pub enum RedisLink {
    /// The lock was taken and a connection is there.
    Ready,
    /// The lock is poisoned; the text describes the poison error.
    LockPoisoned(String),
    /// The lock was taken but holds no connection; the text describes why.
    Unavailable(String),
}

/// Which token a renewal issues.
#[derive(PartialEq, Eq, Structural, Clone, Copy, Debug)]
pub enum TokenKind {
    /// An access token (7 days) over session claims.
    AccessOnly,
    /// A refresh token (30 days) over session claims.
    RefreshOnly,
}

/// Outside work that a handler asks for; the caller performs it and reports
/// the outcome as an [`Event`].
#[derive(Debug)]
pub enum Action {
    /// Open a database connection; answered by `DbConnected`.
    ConnectDb,
    /// Look a user up by e-mail; answered by `UserLookup`.
    FindUser { email: String },
    /// Insert a new user row; answered by `UserInserted`.
    InsertUser { row: NewUser },
    /// Store a new password hash for a user; answered by `PasswordUpdated`.
    UpdatePassword { user: UserModel, hashed: String },
    /// Read the secret that tokens are signed with; answered by `SecretRead`.
    ReadSecret,
    /// Check a token and read its claims; answered by `TokenDecoded`.
    DecodeToken { token: String },
    /// Check (and if needed reopen) the shared Redis connection; answered by `RedisChecked`.
    CheckRedis,
    /// Take the lock of the shared Redis connection; answered by `RedisLocked`.
    LockRedis,
    /// Read an OTP session; answered by `OtpFetched`.
    GetOtp { key: String },
    /// Store an OTP session that expires after `ttl_seconds`; answered by `OtpStored`.
    StoreOtp { key: String, session: RedisOtp, ttl_seconds: u64 },
    /// Delete a key; answered by `KeyDeleted`.
    DeleteKey { key: String },
    /// Send an HTML mail; answered by `MailSent`.
    SendMail { to: String, html: String },
    /// Answer the request; the exchange is over.
    Respond(Reply),
}

/// The outcome of an [`Action`].
#[derive(Debug)]
pub enum Event {
    DbConnected(Result<(), String>),
    UserLookup(Result<Option<UserModel>, String>),
    UserInserted(Result<(), String>),
    PasswordUpdated(Result<(), String>),
    SecretRead(String),
    TokenDecoded(Result<UserModelToken, String>),
    RedisChecked(bool),
    RedisLocked(RedisLink),
    OtpFetched(Option<RedisOtp>),
    OtpStored(Result<(), String>),
    KeyDeleted(Result<(), String>),
    MailSent(Result<(), MailError>),
}

/// An answer with no body.
pub fn empty_reply(status: Status) -> (r: Reply)
    ensures
        r == (Reply { status, body: Body::Empty }),
{
    Reply { status, body: Body::Empty }
}

/// An answer with a text body.
pub fn text_reply(status: Status, text: String) -> (r: Reply)
    ensures
        r == (Reply { status, body: Body::Text(text) }),
{
    Reply { status, body: Body::Text(text) }
}

/// `a` answers with `status` and no body.
pub open spec fn answers_empty(a: Action, status: Status) -> bool {
    a == Action::Respond(Reply { status, body: Body::Empty })
}

/// `a` answers 200 with the token pair whose texts are `access` and `refresh`.
pub open spec fn answers_token_texts(a: Action, access: Seq<char>, refresh: Seq<char>) -> bool {
    &&& a matches Action::Respond(r)
    &&& r.status == Status::Success
    &&& r.body matches Body::Tokens { access_token, refresh_token }
    &&& access_token@ == access
    &&& refresh_token@ == refresh
}

/// `a` answers with `status` and the text `text`.
pub open spec fn answers_text(a: Action, status: Status, text: Seq<char>) -> bool {
    &&& a matches Action::Respond(r)
    &&& r.status == status
    &&& r.body matches Body::Text(t)
    &&& t@ == text
}

/// `a` answers with a 400 that lists exactly the failed rules `errors` after
/// the text `prefix`.
pub open spec fn answers_invalid(a: Action, prefix: Seq<char>, errors: Seq<FieldError>) -> bool {
    &&& a matches Action::Respond(r)
    &&& r.status == Status::BadRequest
    &&& r.body matches Body::Invalid(p, v)
    &&& p@ == prefix
    &&& v@ == errors
}

/// A 400 answer that lists the failed rules `errors` after the text `prefix`.
pub fn invalid_reply(prefix: &str, errors: Vec<FieldError>) -> (r: Action)
    ensures
        answers_invalid(r, prefix@, errors@),
{
    Action::Respond(Reply { status: Status::BadRequest, body: Body::Invalid(String::from_str(prefix), errors) })
}

/// Why a middleware turns a request away.
#[derive(PartialEq, Eq, Structural, Clone, Copy, Debug)]
pub enum Rejection {
    Unauthorized,
    Gone,
    InternalServerError,
}

} // verus!
