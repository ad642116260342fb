use vstd::prelude::*;

use crate::exchange::{
    answers_empty, answers_invalid, answers_text, empty_reply, invalid_reply, text_reply, Action,
    Event, Field, FieldError, RedisLink, Rule, Status,
};
use crate::service::auth::auth::{otp_key, signup_row};
use crate::service::auth::auth_forgot_send_otp::RedisOtp;
use crate::service::auth::password::{hash_outcome, hash_password};
use crate::service::auth::session::OTP_TTL_SECONDS;
use crate::service::mail::{mail_error_text, otp_html, otp_mail};
use crate::service::otp::{generate_otp, is_otp_code};
use crate::validate::{email_accepted, is_valid_email, length_ok, length_within, note_error, rule_error};

pub use crate::service::auth::auth::{LoginBody, Token};

verus! {

/// A sign-up request with a mobile number.
#[derive(Debug)]
pub struct SignupBody {
    pub image: Option<String>,
    pub username: String,
    pub password: String,
    pub email: String,
    pub mob: String,
}

/// The rules `SignupBody` fails, in field order: a present `image` and the
/// `username` are not empty, the `password` has 6 to 32 characters, the
/// `email` is an e-mail address and `mob` has exactly 10 characters.
pub open spec fn signup_errors(b: SignupBody) -> Seq<FieldError> {
    rule_error(
        b.image matches Some(i) && !length_within(i@, Some(1), None),
        FieldError { field: Field::Image, rule: Rule::Length { min: Some(1), max: None }, value: b.image->0 },
    ) + rule_error(
        !length_within(b.username@, Some(1), None),
        FieldError { field: Field::Username, rule: Rule::Length { min: Some(1), max: None }, value: b.username },
    ) + rule_error(
        !length_within(b.password@, Some(6), Some(32)),
        FieldError { field: Field::Password, rule: Rule::Length { min: Some(6), max: Some(32) }, value: b.password },
    ) + rule_error(!email_accepted(b.email@), FieldError { field: Field::Email, rule: Rule::Email, value: b.email })
        + rule_error(
        !length_within(b.mob@, Some(10), Some(10)),
        FieldError { field: Field::Mob, rule: Rule::Length { min: Some(10), max: Some(10) }, value: b.mob },
    )
}

impl SignupBody {
    /// Checks the request's rules; the errors list each failed rule in field order.
    pub fn validate(&self) -> (r: Result<(), Vec<FieldError>>)
        ensures
            r is Ok <==> signup_errors(*self).len() == 0,
            r matches Err(v) ==> v@ == signup_errors(*self),
    {
        let mut v: Vec<FieldError> = Vec::new();
        let (image_bad, image_value) = match &self.image {
            Some(i) => (!length_ok(i, Some(1), None), i.clone()),
            None => (false, String::new()),
        };
        note_error(&mut v, image_bad, FieldError { field: Field::Image, rule: Rule::Length { min: Some(1), max: None }, value: image_value });
        note_error(
            &mut v,
            !length_ok(&self.username, Some(1), None),
            FieldError { field: Field::Username, rule: Rule::Length { min: Some(1), max: None }, value: self.username.clone() },
        );
        note_error(
            &mut v,
            !length_ok(&self.password, Some(6), Some(32)),
            FieldError { field: Field::Password, rule: Rule::Length { min: Some(6), max: Some(32) }, value: self.password.clone() },
        );
        note_error(
            &mut v,
            !is_valid_email(&self.email),
            FieldError { field: Field::Email, rule: Rule::Email, value: self.email.clone() },
        );
        note_error(
            &mut v,
            !length_ok(&self.mob, Some(10), Some(10)),
            FieldError { field: Field::Mob, rule: Rule::Length { min: Some(10), max: Some(10) }, value: self.mob.clone() },
        );
        assert(v@ =~= signup_errors(*self));
        if v.len() == 0 {
            Ok(())
        } else {
            Err(v)
        }
    }

    /// The request without its mobile number, and the number.
    pub open spec fn split_mob(self) -> (crate::service::auth::auth::SignupBody, String) {
        (
            crate::service::auth::auth::SignupBody {
                image: self.image,
                username: self.username,
                password: self.password,
                email: self.email,
            },
            self.mob,
        )
    }
}

/// The stages of a sign-up that then sends a verification code.
#[derive(Debug)]
pub enum AuthSignup {
    /// Waiting for the database connection.
    Connecting(SignupBody),
    /// Waiting for the lookup of the e-mail address.
    Looking(SignupBody),
    /// Waiting for the insert; the e-mail address.
    Inserting(String),
    /// Waiting for the Redis lock; the e-mail address and the drawn code.
    Locking(String, String),
    /// Waiting for the code session to be stored.
    Storing(String, String),
    /// Waiting for the mail to be sent.
    Mailing,
    /// Answered.
    Done,
}

/// Starts on a request: an invalid request is answered 400 with its errors;
/// a valid one asks for a database connection.
pub fn auth_signup(body: SignupBody) -> (r: (AuthSignup, Action))
    ensures
        signup_errors(body).len() > 0 ==> r.0 is Done && answers_invalid(r.1, ""@, signup_errors(body)),
        signup_errors(body).len() == 0 ==> r.0 == AuthSignup::Connecting(body) && r.1 is ConnectDb,
{
    match body.validate() {
        Err(v) => (AuthSignup::Done, invalid_reply("", v)),
        Ok(()) => (AuthSignup::Connecting(body), Action::ConnectDb),
    }
}

impl AuthSignup {
    /// The outcome this stage waits for.
    pub open spec fn expects(self, ev: Event) -> bool {
        match self {
            AuthSignup::Connecting(_) => ev is DbConnected,
            AuthSignup::Looking(_) => ev is UserLookup,
            AuthSignup::Inserting(_) => ev is UserInserted,
            AuthSignup::Locking(_, _) => ev is RedisLocked,
            AuthSignup::Storing(_, _) => ev is OtpStored,
            AuthSignup::Mailing => ev is MailSent,
            AuthSignup::Done => false,
        }
    }

    /// Whether this stage waits for `ev`.
    pub fn accepts(&self, ev: &Event) -> (r: bool)
        ensures
            r == self.expects(*ev),
    {
        match self {
            AuthSignup::Connecting(_) => matches!(ev, Event::DbConnected(_)),
            AuthSignup::Looking(_) => matches!(ev, Event::UserLookup(_)),
            AuthSignup::Inserting(_) => matches!(ev, Event::UserInserted(_)),
            AuthSignup::Locking(_, _) => matches!(ev, Event::RedisLocked(_)),
            AuthSignup::Storing(_, _) => matches!(ev, Event::OtpStored(_)),
            AuthSignup::Mailing => matches!(ev, Event::MailSent(_)),
            AuthSignup::Done => false,
        }
    }

    /// The relation between this stage, the outcome `ev` and the next stage
    /// and action `r` that `step` gives.
    pub open spec fn transition(self, ev: Event, r: (AuthSignup, Action)) -> bool {
        match (self, ev) {
            (AuthSignup::Connecting(b), Event::DbConnected(res)) => match res {
                Err(_) => r.0 is Done && answers_empty(r.1, Status::InternalServerError),
                Ok(_) => {
                    &&& r.0 == AuthSignup::Looking(b)
                    &&& r.1 matches Action::FindUser { email }
                    &&& email@ == b.email@
                },
            },
            (AuthSignup::Looking(b), Event::UserLookup(res)) => match res {
                Err(_) => r.0 is Done && answers_empty(r.1, Status::InternalServerError),
                Ok(Some(_)) => r.0 is Done && answers_empty(r.1, Status::AlreadyReported),
                Ok(None) => exists|hashed: Option<String>|
                    hash_outcome(b.password@, hashed) && #[trigger] AuthSignup::hashed(b, hashed, r),
            },
            (AuthSignup::Inserting(email), Event::UserInserted(_)) => {
                &&& r.0 matches AuthSignup::Locking(e2, otp)
                &&& e2@ == email@
                &&& is_otp_code(otp@)
                &&& r.1 is LockRedis
            },
            (AuthSignup::Locking(email, otp), Event::RedisLocked(link)) => match link {
                RedisLink::LockPoisoned(_) => r.0 is Done && answers_text(
                    r.1,
                    Status::InternalServerError,
                    "Failed to acquire Redis lock"@,
                ),
                RedisLink::Unavailable(_) => r.0 is Done && answers_text(
                    r.1,
                    Status::InternalServerError,
                    "Failed to get Redis connection"@,
                ),
                RedisLink::Ready => {
                    &&& r.0 == AuthSignup::Storing(email, otp)
                    &&& r.1 matches Action::StoreOtp { key, session, ttl_seconds }
                    &&& key@ == otp_key(email@)
                    &&& session.otp@ == otp@
                    &&& session.count == 0
                    &&& ttl_seconds == OTP_TTL_SECONDS
                },
            },
            (AuthSignup::Storing(email, otp), Event::OtpStored(res)) => match res {
                Err(e) => r.0 is Done && answers_text(
                    r.1,
                    Status::InternalServerError,
                    "Could not set OTP "@ + e@,
                ),
                Ok(_) => {
                    &&& r.0 is Mailing
                    &&& r.1 matches Action::SendMail { to, html }
                    &&& to@ == email@
                    &&& html@ == otp_mail(otp@, email@)
                },
            },
            (AuthSignup::Mailing, Event::MailSent(res)) => match res {
                Ok(_) => r.0 is Done && answers_text(r.1, Status::Success, "Success!"@),
                Err(e) => r.0 is Done && answers_text(
                    r.1,
                    Status::InternalServerError,
                    "Failed to send OTP email "@ + mail_error_text(e) + " "@,
                ),
            },
            _ => false,
        }
    }

    /// What follows the hashing of the submitted password, given its outcome
    /// `hashed`: no hash is answered 500; a hash goes into the new row (with the
    /// mobile number), which is inserted.
    pub open spec fn hashed(b: SignupBody, hashed: Option<String>, r: (AuthSignup, Action)) -> bool {
        match hashed {
            None => r.0 is Done && answers_empty(r.1, Status::InternalServerError),
            Some(h) => {
                &&& r.0 == AuthSignup::Inserting(b.email)
                &&& r.1 matches Action::InsertUser { row }
                &&& signup_row(b.split_mob().0, Some(b.mob), row)
                &&& row.password == h
            },
        }
    }

    /// Goes on from the hashing of the password of `b`, whose outcome is
    /// `hashed`: inserts the new row with that hash, or answers 500 where there
    /// is none.
    pub fn after_hash(b: SignupBody, hashed: Option<String>) -> (r: (AuthSignup, Action))
        requires
            hash_outcome(b.password@, hashed),
        ensures
            AuthSignup::hashed(b, hashed, r),
    {
        match hashed {
            None => (AuthSignup::Done, Action::Respond(empty_reply(Status::InternalServerError))),
            Some(h) => {
                let email = b.email.clone();
                let SignupBody { image, username, password, email: address, mob } = b;
                let base = crate::service::auth::auth::SignupBody { image, username, password, email: address };
                let row = crate::service::auth::auth::new_user_row(base, Some(mob), h);
                (AuthSignup::Inserting(email), Action::InsertUser { row })
            },
        }
    }

    /// Moves on with the outcome `ev` of the last action. A known e-mail address
    /// is answered 208; an unknown one gets a new row (where hashing fails, the
    /// answer is 500), and then, whatever the insert gave, a verification code
    /// is stored and mailed.
    pub fn step(self, ev: Event) -> (r: (AuthSignup, Action))
        requires
            self.expects(ev),
        ensures
            self.transition(ev, r),
    {
        match (self, ev) {
            (AuthSignup::Connecting(b), Event::DbConnected(res)) => match res {
                Err(_) => (AuthSignup::Done, Action::Respond(empty_reply(Status::InternalServerError))),
                Ok(_) => {
                    let email = b.email.clone();
                    (AuthSignup::Looking(b), Action::FindUser { email })
                },
            },
            (AuthSignup::Looking(b), Event::UserLookup(res)) => match res {
                Err(_) => (AuthSignup::Done, Action::Respond(empty_reply(Status::InternalServerError))),
                Ok(Some(_)) => (AuthSignup::Done, Action::Respond(empty_reply(Status::AlreadyReported))),
                Ok(None) => {
                    let hashed = hash_password(&b.password);
                    AuthSignup::after_hash(b, hashed)
                },
            },
            (AuthSignup::Inserting(email), Event::UserInserted(_)) => {
                let otp = generate_otp();
                (AuthSignup::Locking(email, otp), Action::LockRedis)
            },
            (AuthSignup::Locking(email, otp), Event::RedisLocked(link)) => match link {
                RedisLink::LockPoisoned(_) => (
                    AuthSignup::Done,
                    Action::Respond(
                        text_reply(
                            Status::InternalServerError,
                            String::from_str("Failed to acquire Redis lock"),
                        ),
                    ),
                ),
                RedisLink::Unavailable(_) => (
                    AuthSignup::Done,
                    Action::Respond(
                        text_reply(
                            Status::InternalServerError,
                            String::from_str("Failed to get Redis connection"),
                        ),
                    ),
                ),
                RedisLink::Ready => {
                    let key = crate::text::concat2("otp-", email.as_str());
                    let session = RedisOtp { otp: otp.clone(), count: 0 };
                    (AuthSignup::Storing(email, otp), Action::StoreOtp { key, session, ttl_seconds: OTP_TTL_SECONDS })
                },
            },
            (AuthSignup::Storing(email, otp), Event::OtpStored(res)) => match res {
                Err(e) => (
                    AuthSignup::Done,
                    Action::Respond(
                        text_reply(
                            Status::InternalServerError,
                            crate::text::concat2("Could not set OTP ", e.as_str()),
                        ),
                    ),
                ),
                Ok(_) => {
                    let html = otp_html(otp.as_str(), email.as_str());
                    (AuthSignup::Mailing, Action::SendMail { to: email, html })
                },
            },
            (AuthSignup::Mailing, Event::MailSent(res)) => match res {
                Ok(_) => (
                    AuthSignup::Done,
                    Action::Respond(text_reply(Status::Success, String::from_str("Success!"))),
                ),
                Err(e) => {
                    let detail = e.to_text();
                    (
                        AuthSignup::Done,
                        Action::Respond(
                            text_reply(
                                Status::InternalServerError,
                                crate::text::concat3("Failed to send OTP email ", detail.as_str(), " "),
                            ),
                        ),
                    )
                },
            },
            _ => (AuthSignup::Done, Action::Respond(empty_reply(Status::InternalServerError))),
        }
    }
}

} // verus!
