use vstd::prelude::*;

use crate::exchange::{
    answers_empty, answers_invalid, answers_text, empty_reply, invalid_reply, text_reply, Action,
    Body, Event, RedisLink, Reply, Status,
};
use crate::model::users::{blanked, without_password, UserModel, ACCESS_TOKEN_DAYS, REFRESH_TOKEN_DAYS};
use crate::service::token::{session_access_token, session_refresh_token, session_token_issued};
use crate::service::auth::auth::{login_errors, otp_key};
use crate::service::auth::auth_forgot_send_otp::RedisOtp;
use crate::service::auth::password::{bcrypt_verify, password_matches};
use crate::service::auth::session::OTP_TTL_SECONDS;
use crate::service::mail::{mail_error_text, otp_html, otp_mail};
use crate::service::otp::{generate_otp, is_otp_code};

pub use crate::service::auth::auth::LoginBody;

verus! {

/// The access and refresh tokens a log-in answers with.
#[derive(Debug)]
pub struct Token {
    pub refresh_token: String,
    pub access_token: String,
}

/// The answer that carries the token pair `t`.
pub open spec fn answers_tokens(a: Action, t: Token) -> bool {
    a == Action::Respond(
        Reply {
            status: Status::Success,
            body: Body::Tokens { access_token: t.access_token, refresh_token: t.refresh_token },
        },
    )
}

/// `t` is the session token pair of `user` signed with `secret`: an access
/// token that lives seven days and a refresh token that lives thirty.
pub open spec fn session_pair(t: Token, user: UserModel, secret: Seq<char>) -> bool {
    &&& session_token_issued(t.access_token@, user, ACCESS_TOKEN_DAYS, secret)
    &&& session_token_issued(t.refresh_token@, user, REFRESH_TOKEN_DAYS, secret)
}

/// The answer with the token pair `t`.
fn tokens_reply(t: Token) -> (r: Action)
    ensures
        answers_tokens(r, t),
{
    Action::Respond(
        Reply {
            status: Status::Success,
            body: Body::Tokens { access_token: t.access_token, refresh_token: t.refresh_token },
        },
    )
}

/// The stages of a log-in that answers with session tokens and, for a user
/// who is not verified yet, sends a fresh verification code.
#[derive(Debug)]
pub enum AuthLogin {
    /// Waiting for the database connection.
    Connecting(LoginBody),
    /// Waiting for the user lookup.
    Looking(LoginBody),
    /// Waiting for the signing secret; the user record with its hash blanked.
    Signing(LoginBody, UserModel),
    /// Waiting for the Redis lock; the tokens and the drawn code.
    Locking(LoginBody, Token, String),
    /// Waiting for the code session to be stored.
    Storing(LoginBody, Token, String),
    /// Waiting for the mail to be sent.
    Mailing(Token),
    /// Answered.
    Done,
}

/// Starts on a request: an invalid request is answered 400 with its errors;
/// a valid one asks for a database connection.
pub fn auth_login(body: LoginBody) -> (r: (AuthLogin, Action))
    ensures
        login_errors(body).len() > 0 ==> r.0 is Done && answers_invalid(r.1, ""@, login_errors(body)),
        login_errors(body).len() == 0 ==> r.0 == AuthLogin::Connecting(body) && r.1 is ConnectDb,
{
    match body.validate() {
        Err(v) => (AuthLogin::Done, invalid_reply("", v)),
        Ok(()) => (AuthLogin::Connecting(body), Action::ConnectDb),
    }
}

impl AuthLogin {
    /// The outcome this stage waits for.
    pub open spec fn expects(self, ev: Event) -> bool {
        match self {
            AuthLogin::Connecting(_) => ev is DbConnected,
            AuthLogin::Looking(_) => ev is UserLookup,
            AuthLogin::Signing(_, _) => ev is SecretRead,
            AuthLogin::Locking(_, _, _) => ev is RedisLocked,
            AuthLogin::Storing(_, _, _) => ev is OtpStored,
            AuthLogin::Mailing(_) => ev is MailSent,
            AuthLogin::Done => false,
        }
    }

    /// Whether this stage waits for `ev`.
    pub fn accepts(&self, ev: &Event) -> (r: bool)
        ensures
            r == self.expects(*ev),
    {
        match self {
            AuthLogin::Connecting(_) => matches!(ev, Event::DbConnected(_)),
            AuthLogin::Looking(_) => matches!(ev, Event::UserLookup(_)),
            AuthLogin::Signing(_, _) => matches!(ev, Event::SecretRead(_)),
            AuthLogin::Locking(_, _, _) => matches!(ev, Event::RedisLocked(_)),
            AuthLogin::Storing(_, _, _) => matches!(ev, Event::OtpStored(_)),
            AuthLogin::Mailing(_) => matches!(ev, Event::MailSent(_)),
            AuthLogin::Done => false,
        }
    }

    /// The relation between this stage, the outcome `ev` and the next stage
    /// and action `r` that `step` gives.
    pub open spec fn transition(self, ev: Event, r: (AuthLogin, Action)) -> bool {
        match (self, ev) {
            (AuthLogin::Connecting(b), Event::DbConnected(res)) => match res {
                Err(_) => r.0 is Done && answers_empty(r.1, Status::InternalServerError),
                Ok(_) => {
                    &&& r.0 == AuthLogin::Looking(b)
                    &&& r.1 matches Action::FindUser { email }
                    &&& email@ == b.email@
                },
            },
            (AuthLogin::Looking(b), Event::UserLookup(res)) => match res {
                Err(_) => r.0 is Done && answers_empty(r.1, Status::InternalServerError),
                Ok(None) => r.0 is Done && answers_text(r.1, Status::NotFound, "User not found"@),
                Ok(Some(u)) => if bcrypt_verify(b.password@, u.password@) == Some(true) {
                    &&& r.0 matches AuthLogin::Signing(b2, user)
                    &&& b2 == b
                    &&& blanked(user, u)
                    &&& r.1 is ReadSecret
                } else {
                    r.0 is Done && answers_empty(r.1, Status::NotAcceptable)
                },
            },
            (AuthLogin::Signing(b, user), Event::SecretRead(secret)) => if user.verified {
                &&& r.0 is Done
                &&& r.1 matches Action::Respond(rep)
                &&& rep.status == Status::Success
                &&& rep.body matches Body::Tokens { access_token, refresh_token }
                &&& session_pair(Token { refresh_token, access_token }, user, secret@)
            } else {
                &&& r.0 matches AuthLogin::Locking(b2, t, otp)
                &&& b2 == b
                &&& session_pair(t, user, secret@)
                &&& is_otp_code(otp@)
                &&& r.1 is LockRedis
            },
            (AuthLogin::Locking(b, t, otp), Event::RedisLocked(link)) => match link {
                RedisLink::LockPoisoned(_) => r.0 is Done && answers_text(
                    r.1,
                    Status::InternalServerError,
                    "Failed to acquire Redis lock"@,
                ),
                RedisLink::Unavailable(_) => r.0 is Done && answers_text(
                    r.1,
                    Status::InternalServerError,
                    "Failed to get Redis connection"@,
                ),
                RedisLink::Ready => {
                    &&& r.0 == AuthLogin::Storing(b, t, otp)
                    &&& r.1 matches Action::StoreOtp { key, session, ttl_seconds }
                    &&& key@ == otp_key(b.email@)
                    &&& session.otp@ == otp@
                    &&& session.count == 0
                    &&& ttl_seconds == OTP_TTL_SECONDS
                },
            },
            (AuthLogin::Storing(b, t, otp), Event::OtpStored(res)) => match res {
                Err(e) => r.0 is Done && answers_text(
                    r.1,
                    Status::InternalServerError,
                    "Could not set OTP "@ + e@,
                ),
                Ok(_) => {
                    &&& r.0 == AuthLogin::Mailing(t)
                    &&& r.1 matches Action::SendMail { to, html }
                    &&& to@ == b.email@
                    &&& html@ == otp_mail(otp@, b.email@)
                },
            },
            (AuthLogin::Mailing(t), Event::MailSent(res)) => match res {
                Ok(_) => r.0 is Done && answers_tokens(r.1, t),
                Err(e) => r.0 is Done && answers_text(
                    r.1,
                    Status::InternalServerError,
                    "Failed to send OTP email "@ + mail_error_text(e) + " "@,
                ),
            },
            _ => false,
        }
    }

    /// Moves on with the outcome `ev` of the last action. Tokens are made only
    /// for a user whose stored hash verifies the submitted password: session
    /// claims of the record, signed with the secret read.
    pub fn step(self, ev: Event) -> (r: (AuthLogin, Action))
        requires
            self.expects(ev),
        ensures
            self.transition(ev, r),
    {
        match (self, ev) {
            (AuthLogin::Connecting(b), Event::DbConnected(res)) => match res {
                Err(_) => (AuthLogin::Done, Action::Respond(empty_reply(Status::InternalServerError))),
                Ok(_) => {
                    let email = b.email.clone();
                    (AuthLogin::Looking(b), Action::FindUser { email })
                },
            },
            (AuthLogin::Looking(b), Event::UserLookup(res)) => match res {
                Err(_) => (AuthLogin::Done, Action::Respond(empty_reply(Status::InternalServerError))),
                Ok(None) => (
                    AuthLogin::Done,
                    Action::Respond(text_reply(Status::NotFound, String::from_str("User not found"))),
                ),
                Ok(Some(u)) => match password_matches(&b.password, &u.password) {
                    Some(true) => {
                        let user = without_password(&u);
                        (AuthLogin::Signing(b, user), Action::ReadSecret)
                    },
                    _ => (AuthLogin::Done, Action::Respond(empty_reply(Status::NotAcceptable))),
                },
            },
            (AuthLogin::Signing(b, user), Event::SecretRead(secret)) => {
                let access_token = session_access_token(&user, secret.as_str());
                let refresh_token = session_refresh_token(&user, secret.as_str());
                let t = Token { refresh_token, access_token };
                if user.verified {
                    (AuthLogin::Done, tokens_reply(t))
                } else {
                    let otp = generate_otp();
                    (AuthLogin::Locking(b, t, otp), Action::LockRedis)
                }
            },
            (AuthLogin::Locking(b, t, otp), Event::RedisLocked(link)) => match link {
                RedisLink::LockPoisoned(_) => (
                    AuthLogin::Done,
                    Action::Respond(
                        text_reply(
                            Status::InternalServerError,
                            String::from_str("Failed to acquire Redis lock"),
                        ),
                    ),
                ),
                RedisLink::Unavailable(_) => (
                    AuthLogin::Done,
                    Action::Respond(
                        text_reply(
                            Status::InternalServerError,
                            String::from_str("Failed to get Redis connection"),
                        ),
                    ),
                ),
                RedisLink::Ready => {
                    let key = crate::text::concat2("otp-", b.email.as_str());
                    let session = RedisOtp { otp: otp.clone(), count: 0 };
                    (AuthLogin::Storing(b, t, otp), Action::StoreOtp { key, session, ttl_seconds: OTP_TTL_SECONDS })
                },
            },
            (AuthLogin::Storing(b, t, otp), Event::OtpStored(res)) => match res {
                Err(e) => (
                    AuthLogin::Done,
                    Action::Respond(
                        text_reply(
                            Status::InternalServerError,
                            crate::text::concat2("Could not set OTP ", e.as_str()),
                        ),
                    ),
                ),
                Ok(_) => {
                    let html = otp_html(otp.as_str(), b.email.as_str());
                    (AuthLogin::Mailing(t), Action::SendMail { to: b.email, html })
                },
            },
            (AuthLogin::Mailing(t), Event::MailSent(res)) => match res {
                Ok(_) => (AuthLogin::Done, tokens_reply(t)),
                Err(e) => {
                    let detail = e.to_text();
                    (
                        AuthLogin::Done,
                        Action::Respond(
                            text_reply(
                                Status::InternalServerError,
                                crate::text::concat3("Failed to send OTP email ", detail.as_str(), " "),
                            ),
                        ),
                    )
                },
            },
            _ => (AuthLogin::Done, Action::Respond(empty_reply(Status::InternalServerError))),
        }
    }
}

} // verus!
