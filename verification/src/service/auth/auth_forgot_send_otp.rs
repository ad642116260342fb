use vstd::prelude::*;

use crate::exchange::{
    answers_empty, answers_invalid, answers_text, empty_reply, invalid_reply, text_reply, Action, Event, Field,
    FieldError, RedisLink, Rule, Status,
};
use crate::service::auth::session::{next_count, next_count_spec, OTP_TTL_SECONDS};
use crate::service::mail::{forgot_mail, forgot_password_html, mail_error_text};
use crate::service::otp::{generate_otp, is_otp_code};
use crate::service::token::TokenStruct;
use crate::validate::{email_accepted, is_valid_email};

verus! {

/// A pair of tokens.
#[derive(Debug)]
pub struct Token {
    pub refresh_token: TokenStruct,
    pub access_token: TokenStruct,
}

/// A request for a password-reset code.
#[derive(Debug)]
pub struct SendOtp {
    pub email: String,
}

/// The rules `SendOtp` fails: `email` must be an e-mail address.
pub open spec fn send_otp_errors(b: SendOtp) -> Seq<FieldError> {
    if email_accepted(b.email@) {
        Seq::empty()
    } else {
        seq![FieldError { field: Field::Email, rule: Rule::Email, value: b.email }]
    }
}

impl SendOtp {
    /// Checks the request's rules; the errors list each failed rule.
    pub fn validate(&self) -> (r: Result<(), Vec<FieldError>>)
        ensures
            r is Ok <==> send_otp_errors(*self).len() == 0,
            r matches Err(v) ==> v@ == send_otp_errors(*self),
    {
        if is_valid_email(&self.email) {
            Ok(())
        } else {
            let mut v: Vec<FieldError> = Vec::new();
            v.push(FieldError { field: Field::Email, rule: Rule::Email, value: self.email.clone() });
            assert(v@ =~= send_otp_errors(*self));
            Err(v)
        }
    }
}

/// A code session kept in Redis: the code and how many sends it has seen.
#[derive(Debug)]
pub struct RedisOtp {
    pub otp: String,
    pub count: u8,
}

/// The Redis key of the password-reset code of `email`.
pub open spec fn forgot_otp_key(email: Seq<char>) -> Seq<char> {
    "forgot-otp-"@ + email
}

/// A send of a reset code is refused once the count it sees reaches five.
pub const FORGOT_MAX_COUNT: u8 = 4;

/// The stages of sending a password-reset code.
#[derive(Debug)]
pub enum AuthForgotSend {
    /// Waiting for the database connection.
    Connecting(SendOtp),
    /// Waiting for the user lookup.
    Looking(SendOtp),
    /// Waiting for the Redis check; the code has been drawn.
    CheckingRedis(SendOtp, String),
    /// Waiting for the Redis lock.
    Locking(SendOtp, String),
    /// Waiting for the stored session under the key.
    Fetching(SendOtp, String, String),
    /// Waiting for the new session to be stored.
    Storing(SendOtp, String),
    /// Waiting for the mail to be sent.
    Mailing,
    /// Answered.
    Done,
}

/// Starts on a request: an invalid request is answered 400 with its errors;
/// a valid one asks for a database connection.
pub fn auth_forgot_send(body: SendOtp) -> (r: (AuthForgotSend, Action))
    ensures
        send_otp_errors(body).len() > 0 ==> r.0 is Done && answers_invalid(
            r.1,
            ""@,
            send_otp_errors(body),
        ),
        send_otp_errors(body).len() == 0 ==> r.0 == AuthForgotSend::Connecting(body)
            && r.1 is ConnectDb,
{
    match body.validate() {
        Err(v) => (AuthForgotSend::Done, invalid_reply("", v)),
        Ok(()) => (AuthForgotSend::Connecting(body), Action::ConnectDb),
    }
}

impl AuthForgotSend {
    /// The outcome this stage waits for.
    pub open spec fn expects(self, ev: Event) -> bool {
        match self {
            AuthForgotSend::Connecting(_) => ev is DbConnected,
            AuthForgotSend::Looking(_) => ev is UserLookup,
            AuthForgotSend::CheckingRedis(_, _) => ev is RedisChecked,
            AuthForgotSend::Locking(_, _) => ev is RedisLocked,
            AuthForgotSend::Fetching(_, _, _) => ev is OtpFetched,
            AuthForgotSend::Storing(_, _) => ev is OtpStored,
            AuthForgotSend::Mailing => ev is MailSent,
            AuthForgotSend::Done => false,
        }
    }

    /// Whether this stage waits for `ev`.
    pub fn accepts(&self, ev: &Event) -> (r: bool)
        ensures
            r == self.expects(*ev),
    {
        match self {
            AuthForgotSend::Connecting(_) => matches!(ev, Event::DbConnected(_)),
            AuthForgotSend::Looking(_) => matches!(ev, Event::UserLookup(_)),
            AuthForgotSend::CheckingRedis(_, _) => matches!(ev, Event::RedisChecked(_)),
            AuthForgotSend::Locking(_, _) => matches!(ev, Event::RedisLocked(_)),
            AuthForgotSend::Fetching(_, _, _) => matches!(ev, Event::OtpFetched(_)),
            AuthForgotSend::Storing(_, _) => matches!(ev, Event::OtpStored(_)),
            AuthForgotSend::Mailing => matches!(ev, Event::MailSent(_)),
            AuthForgotSend::Done => false,
        }
    }

    /// The relation between this stage, the outcome `ev` and the next stage
    /// and action `r` that `step` gives.
    pub open spec fn transition(self, ev: Event, r: (AuthForgotSend, Action)) -> bool {
        match (self, ev) {
            (AuthForgotSend::Connecting(b), Event::DbConnected(res)) => match res {
                Err(_) => r.0 is Done && answers_empty(r.1, Status::InternalServerError),
                Ok(_) => {
                    &&& r.0 == AuthForgotSend::Looking(b)
                    &&& r.1 matches Action::FindUser { email }
                    &&& email@ == b.email@
                },
            },
            (AuthForgotSend::Looking(b), Event::UserLookup(res)) => match res {
                Err(_) => r.0 is Done && answers_empty(r.1, Status::InternalServerError),
                Ok(None) => r.0 is Done && answers_empty(r.1, Status::NotFound),
                Ok(Some(u)) => if u.verified {
                    r.0 is Done && answers_text(r.1, Status::AlreadyReported, "already verified"@)
                } else {
                    r.0 matches AuthForgotSend::CheckingRedis(b2, otp) && b2 == b
                        && is_otp_code(otp@) && r.1 is CheckRedis
                },
            },
            (AuthForgotSend::CheckingRedis(b, otp), Event::RedisChecked(ok)) => if ok {
                r.0 == AuthForgotSend::Locking(b, otp) && r.1 is LockRedis
            } else {
                r.0 is Done && answers_empty(r.1, Status::InternalServerError)
            },
            (AuthForgotSend::Locking(b, otp), Event::RedisLocked(link)) => match link {
                RedisLink::LockPoisoned(e) => r.0 is Done && answers_text(
                    r.1,
                    Status::InternalServerError,
                    e@,
                ),
                RedisLink::Unavailable(_) => r.0 is Done && answers_empty(
                    r.1,
                    Status::InternalServerError,
                ),
                RedisLink::Ready => {
                    &&& r.0 matches AuthForgotSend::Fetching(b2, otp2, key)
                    &&& b2 == b
                    &&& otp2 == otp
                    &&& key@ == forgot_otp_key(b.email@)
                    &&& r.1 matches Action::GetOtp { key: k }
                    &&& k@ == key@
                },
            },
            (AuthForgotSend::Fetching(b, otp, key), Event::OtpFetched(prev)) => {
                let prev_count = match prev {
                    Some(s) => Some(s.count),
                    None => None,
                };
                match next_count_spec(prev_count, FORGOT_MAX_COUNT) {
                    None => r.0 is Done && answers_text(
                        r.1,
                        Status::TooManyRequests,
                        "Too many requests!"@,
                    ),
                    Some(c) => {
                        &&& r.0 == AuthForgotSend::Storing(b, otp)
                        &&& r.1 matches Action::StoreOtp { key: k, session, ttl_seconds }
                        &&& k == key
                        &&& session.otp@ == otp@
                        &&& session.count == c
                        &&& ttl_seconds == OTP_TTL_SECONDS
                    },
                }
            },
            (AuthForgotSend::Storing(b, otp), Event::OtpStored(res)) => match res {
                Err(e) => r.0 is Done && answers_text(
                    r.1,
                    Status::InternalServerError,
                    "Could not set OTP "@ + e@,
                ),
                Ok(_) => {
                    &&& r.0 is Mailing
                    &&& r.1 matches Action::SendMail { to, html }
                    &&& to@ == b.email@
                    &&& html@ == forgot_mail(otp@, b.email@)
                },
            },
            (AuthForgotSend::Mailing, Event::MailSent(res)) => match res {
                Ok(_) => r.0 is Done && answers_text(r.1, Status::Success, "Success!"@),
                Err(e) => r.0 is Done && answers_text(
                    r.1,
                    Status::InternalServerError,
                    "Failed to send OTP email "@ + mail_error_text(e) + " "@,
                ),
            },
            _ => false,
        }
    }

    /// Moves on with the outcome `ev` of the last action.
    pub fn step(self, ev: Event) -> (r: (AuthForgotSend, Action))
        requires
            self.expects(ev),
        ensures
            self.transition(ev, r),
    {
        match (self, ev) {
            (AuthForgotSend::Connecting(b), Event::DbConnected(res)) => match res {
                Err(_) => (AuthForgotSend::Done, Action::Respond(empty_reply(Status::InternalServerError))),
                Ok(_) => {
                    let email = b.email.clone();
                    (AuthForgotSend::Looking(b), Action::FindUser { email })
                },
            },
            (AuthForgotSend::Looking(b), Event::UserLookup(res)) => match res {
                Err(_) => (AuthForgotSend::Done, Action::Respond(empty_reply(Status::InternalServerError))),
                Ok(None) => (AuthForgotSend::Done, Action::Respond(empty_reply(Status::NotFound))),
                Ok(Some(u)) => {
                    if u.verified {
                        (
                            AuthForgotSend::Done,
                            Action::Respond(
                                text_reply(Status::AlreadyReported, String::from_str("already verified")),
                            ),
                        )
                    } else {
                        let otp = generate_otp();
                        (AuthForgotSend::CheckingRedis(b, otp), Action::CheckRedis)
                    }
                },
            },
            (AuthForgotSend::CheckingRedis(b, otp), Event::RedisChecked(ok)) => {
                if ok {
                    (AuthForgotSend::Locking(b, otp), Action::LockRedis)
                } else {
                    (AuthForgotSend::Done, Action::Respond(empty_reply(Status::InternalServerError)))
                }
            },
            (AuthForgotSend::Locking(b, otp), Event::RedisLocked(link)) => match link {
                RedisLink::LockPoisoned(e) => (
                    AuthForgotSend::Done,
                    Action::Respond(text_reply(Status::InternalServerError, e)),
                ),
                RedisLink::Unavailable(_) => (
                    AuthForgotSend::Done,
                    Action::Respond(empty_reply(Status::InternalServerError)),
                ),
                RedisLink::Ready => {
                    let key = crate::text::concat2("forgot-otp-", b.email.as_str());
                    let k = key.clone();
                    (AuthForgotSend::Fetching(b, otp, key), Action::GetOtp { key: k })
                },
            },
            (AuthForgotSend::Fetching(b, otp, key), Event::OtpFetched(prev)) => {
                let prev_count = match &prev {
                    Some(s) => Some(s.count),
                    None => None,
                };
                match next_count(prev_count, FORGOT_MAX_COUNT) {
                    None => (
                        AuthForgotSend::Done,
                        Action::Respond(
                            text_reply(Status::TooManyRequests, String::from_str("Too many requests!")),
                        ),
                    ),
                    Some(c) => {
                        let session = RedisOtp { otp: otp.clone(), count: c };
                        (
                            AuthForgotSend::Storing(b, otp),
                            Action::StoreOtp { key, session, ttl_seconds: OTP_TTL_SECONDS },
                        )
                    },
                }
            },
            (AuthForgotSend::Storing(b, otp), Event::OtpStored(res)) => match res {
                Err(e) => (
                    AuthForgotSend::Done,
                    Action::Respond(
                        text_reply(
                            Status::InternalServerError,
                            crate::text::concat2("Could not set OTP ", e.as_str()),
                        ),
                    ),
                ),
                Ok(_) => {
                    let html = forgot_password_html(otp.as_str(), b.email.as_str());
                    (AuthForgotSend::Mailing, Action::SendMail { to: b.email, html })
                },
            },
            (AuthForgotSend::Mailing, Event::MailSent(res)) => match res {
                Ok(_) => (
                    AuthForgotSend::Done,
                    Action::Respond(text_reply(Status::Success, String::from_str("Success!"))),
                ),
                Err(e) => {
                    let detail = e.to_text();
                    (
                        AuthForgotSend::Done,
                        Action::Respond(
                            text_reply(
                                Status::InternalServerError,
                                crate::text::concat3("Failed to send OTP email ", detail.as_str(), " "),
                            ),
                        ),
                    )
                },
            },
            _ => (AuthForgotSend::Done, Action::Respond(empty_reply(Status::InternalServerError))),
        }
    }
}

} // verus!
