use vstd::prelude::*;

use crate::exchange::{
    answers_empty, answers_invalid, answers_text, empty_reply, invalid_reply, text_reply, Action,
    Event, Field, FieldError, RedisLink, Rule, Status,
};
use crate::model::users::UserModel;
use crate::service::auth::auth_forgot_send_otp::forgot_otp_key;
use crate::service::auth::password::{bcrypt_hash_shape, bcrypt_verify, hash_outcome, hash_password, password_matches};
use crate::validate::{email_accepted, is_valid_email, length_ok, length_within, note_error, rule_error};

verus! {

/// A password reset: the account, the code that was mailed, the new password.
#[derive(Debug)]
pub struct ForgotOtpVerriyStruct {
    pub email: String,
    pub otp: String,
    pub password: String,
}

/// The rules `ForgotOtpVerriyStruct` fails, in field order: the `email` is an
/// e-mail address, the `otp` has exactly 6 characters, the `password` has 6
/// to 36 characters.
pub open spec fn reset_errors(b: ForgotOtpVerriyStruct) -> Seq<FieldError> {
    rule_error(!email_accepted(b.email@), FieldError { field: Field::Email, rule: Rule::Email, value: b.email })
        + rule_error(
        !length_within(b.otp@, Some(6), Some(6)),
        FieldError { field: Field::Otp, rule: Rule::Length { min: Some(6), max: Some(6) }, value: b.otp },
    ) + rule_error(
        !length_within(b.password@, Some(6), Some(36)),
        FieldError { field: Field::Password, rule: Rule::Length { min: Some(6), max: Some(36) }, value: b.password },
    )
}

impl ForgotOtpVerriyStruct {
    /// Checks the request's rules; the errors list each failed rule in field order.
    pub fn validate(&self) -> (r: Result<(), Vec<FieldError>>)
        ensures
            r is Ok <==> reset_errors(*self).len() == 0,
            r matches Err(v) ==> v@ == reset_errors(*self),
    {
        let mut v: Vec<FieldError> = Vec::new();
        note_error(
            &mut v,
            !is_valid_email(&self.email),
            FieldError { field: Field::Email, rule: Rule::Email, value: self.email.clone() },
        );
        note_error(
            &mut v,
            !length_ok(&self.otp, Some(6), Some(6)),
            FieldError { field: Field::Otp, rule: Rule::Length { min: Some(6), max: Some(6) }, value: self.otp.clone() },
        );
        note_error(
            &mut v,
            !length_ok(&self.password, Some(6), Some(36)),
            FieldError { field: Field::Password, rule: Rule::Length { min: Some(6), max: Some(36) }, value: self.password.clone() },
        );
        assert(v@ =~= reset_errors(*self));
        if v.len() == 0 {
            Ok(())
        } else {
            Err(v)
        }
    }
}

/// The stages of a password reset with a mailed code.
#[derive(Debug)]
pub enum ForgotVerify {
    /// Waiting for the database connection.
    Connecting(ForgotOtpVerriyStruct),
    /// Waiting for the user lookup.
    Looking(ForgotOtpVerriyStruct),
    /// Waiting for the Redis lock.
    Locking(ForgotOtpVerriyStruct, UserModel),
    /// Waiting for the stored code session under the key.
    Fetching(ForgotOtpVerriyStruct, UserModel, String),
    /// Waiting for the new hash to be stored; the key of the session.
    Updating(String),
    /// Waiting for the session to be deleted.
    Deleting,
    /// Answered.
    Done,
}

/// Starts on a request: an invalid request is answered 400 with its errors
/// after `Validation error: `; a valid one asks for a database connection.
pub fn auth_forgot_send_otp(body: ForgotOtpVerriyStruct) -> (r: (ForgotVerify, Action))
    ensures
        reset_errors(body).len() > 0 ==> r.0 is Done && answers_invalid(
            r.1,
            "Validation error: "@,
            reset_errors(body),
        ),
        reset_errors(body).len() == 0 ==> r.0 == ForgotVerify::Connecting(body) && r.1 is ConnectDb,
{
    match body.validate() {
        Err(v) => (ForgotVerify::Done, invalid_reply("Validation error: ", v)),
        Ok(()) => (ForgotVerify::Connecting(body), Action::ConnectDb),
    }
}

impl ForgotVerify {
    /// The outcome this stage waits for.
    pub open spec fn expects(self, ev: Event) -> bool {
        match self {
            ForgotVerify::Connecting(_) => ev is DbConnected,
            ForgotVerify::Looking(_) => ev is UserLookup,
            ForgotVerify::Locking(_, _) => ev is RedisLocked,
            ForgotVerify::Fetching(_, _, _) => ev is OtpFetched,
            ForgotVerify::Updating(_) => ev is PasswordUpdated,
            ForgotVerify::Deleting => ev is KeyDeleted,
            ForgotVerify::Done => false,
        }
    }

    /// Whether this stage waits for `ev`.
    pub fn accepts(&self, ev: &Event) -> (r: bool)
        ensures
            r == self.expects(*ev),
    {
        match self {
            ForgotVerify::Connecting(_) => matches!(ev, Event::DbConnected(_)),
            ForgotVerify::Looking(_) => matches!(ev, Event::UserLookup(_)),
            ForgotVerify::Locking(_, _) => matches!(ev, Event::RedisLocked(_)),
            ForgotVerify::Fetching(_, _, _) => matches!(ev, Event::OtpFetched(_)),
            ForgotVerify::Updating(_) => matches!(ev, Event::PasswordUpdated(_)),
            ForgotVerify::Deleting => matches!(ev, Event::KeyDeleted(_)),
            ForgotVerify::Done => false,
        }
    }

    /// The relation between this stage, the outcome `ev` and the next stage
    /// and action `r` that `step` gives.
    pub open spec fn transition(self, ev: Event, r: (ForgotVerify, Action)) -> bool {
        match (self, ev) {
            (ForgotVerify::Connecting(b), Event::DbConnected(res)) => match res {
                Err(e) => r.0 is Done && answers_text(
                    r.1,
                    Status::InternalServerError,
                    "db connection error: "@ + e@,
                ),
                Ok(_) => {
                    &&& r.0 == ForgotVerify::Looking(b)
                    &&& r.1 matches Action::FindUser { email }
                    &&& email@ == b.email@
                },
            },
            (ForgotVerify::Looking(b), Event::UserLookup(res)) => match res {
                Err(_) => r.0 is Done && answers_empty(r.1, Status::InternalServerError),
                Ok(None) => r.0 is Done && answers_text(r.1, Status::NotFound, "User not found"@),
                Ok(Some(u)) => if u.verified {
                    r.0 is Done && answers_text(r.1, Status::AlreadyReported, "already verified"@)
                } else {
                    match bcrypt_verify(b.password@, u.password@) {
                        Some(true) => r.0 is Done && answers_text(
                            r.1,
                            Status::Conflict,
                            "same password"@,
                        ),
                        None => r.0 is Done && answers_empty(r.1, Status::InternalServerError),
                        Some(false) => r.0 == ForgotVerify::Locking(b, u) && r.1 is LockRedis,
                    }
                },
            },
            (ForgotVerify::Locking(b, u), Event::RedisLocked(link)) => match link {
                RedisLink::LockPoisoned(_) => r.0 is Done && answers_text(
                    r.1,
                    Status::InternalServerError,
                    "Failed to acquire Redis lock"@,
                ),
                RedisLink::Unavailable(_) => r.0 is Done && answers_text(
                    r.1,
                    Status::InternalServerError,
                    "Failed to get Redis connection"@,
                ),
                RedisLink::Ready => {
                    &&& r.0 matches ForgotVerify::Fetching(b2, u2, key)
                    &&& b2 == b
                    &&& u2 == u
                    &&& key@ == forgot_otp_key(b.email@)
                    &&& r.1 matches Action::GetOtp { key: k }
                    &&& k@ == key@
                },
            },
            (ForgotVerify::Fetching(b, u, key), Event::OtpFetched(stored)) => match stored {
                None => r.0 is Done && answers_text(r.1, Status::Gone, "OTP expired or not found"@),
                Some(s) => if s.otp@ == b.otp@ {
                    exists|hashed: Option<String>|
                        hash_outcome(b.password@, hashed) && #[trigger] ForgotVerify::hashed(b, u, key, hashed, r)
                } else {
                    r.0 is Done && answers_text(r.1, Status::Unauthorized, "Invalid OTP or expired"@)
                },
            },
            (ForgotVerify::Updating(key), Event::PasswordUpdated(res)) => match res {
                Err(_) => r.0 is Done && answers_empty(r.1, Status::InternalServerError),
                Ok(_) => r.0 is Deleting && r.1 == Action::DeleteKey { key },
            },
            (ForgotVerify::Deleting, Event::KeyDeleted(_)) => r.0 is Done && answers_text(
                r.1,
                Status::Success,
                "OK"@,
            ),
            _ => false,
        }
    }

    /// What follows the hashing of the new password once the code matched,
    /// given its outcome `hashed`: no hash is answered 500; a hash is stored for
    /// the user, and the session under `key` is then to be deleted.
    pub open spec fn hashed(
        b: ForgotOtpVerriyStruct,
        u: UserModel,
        key: String,
        hashed: Option<String>,
        r: (ForgotVerify, Action),
    ) -> bool {
        match hashed {
            None => r.0 is Done && answers_empty(r.1, Status::InternalServerError),
            Some(h) => {
                &&& r.0 == ForgotVerify::Updating(key)
                &&& r.1 == Action::UpdatePassword { user: u, hashed: h }
                &&& bcrypt_verify(b.password@, h@) == Some(true)
                &&& bcrypt_hash_shape(h@)
                &&& (!bcrypt_hash_shape(b.password@) ==> h@ != b.password@)
            },
        }
    }

    /// Goes on from the hashing of the new password of `b` for the user `u`,
    /// whose outcome is `hashed`: stores that hash, or answers 500 where there
    /// is none.
    pub fn after_hash(b: ForgotOtpVerriyStruct, u: UserModel, key: String, hashed: Option<String>) -> (r: (
        ForgotVerify,
        Action,
    ))
        requires
            hash_outcome(b.password@, hashed),
        ensures
            ForgotVerify::hashed(b, u, key, hashed, r),
    {
        match hashed {
            None => (ForgotVerify::Done, Action::Respond(empty_reply(Status::InternalServerError))),
            Some(h) => (ForgotVerify::Updating(key), Action::UpdatePassword { user: u, hashed: h }),
        }
    }

    /// Moves on with the outcome `ev` of the last action. The password is
    /// replaced only for a user who is not verified, whose new password differs
    /// from the stored one, and whose stored code equals the submitted one; the
    /// new hash verifies the new password.
    pub fn step(self, ev: Event) -> (r: (ForgotVerify, Action))
        requires
            self.expects(ev),
        ensures
            self.transition(ev, r),
    {
        match (self, ev) {
            (ForgotVerify::Connecting(b), Event::DbConnected(res)) => match res {
                Err(e) => (
                    ForgotVerify::Done,
                    Action::Respond(
                        text_reply(
                            Status::InternalServerError,
                            crate::text::concat2("db connection error: ", e.as_str()),
                        ),
                    ),
                ),
                Ok(_) => {
                    let email = b.email.clone();
                    (ForgotVerify::Looking(b), Action::FindUser { email })
                },
            },
            (ForgotVerify::Looking(b), Event::UserLookup(res)) => match res {
                Err(_) => (ForgotVerify::Done, Action::Respond(empty_reply(Status::InternalServerError))),
                Ok(None) => (
                    ForgotVerify::Done,
                    Action::Respond(text_reply(Status::NotFound, String::from_str("User not found"))),
                ),
                Ok(Some(u)) => {
                    if u.verified {
                        (
                            ForgotVerify::Done,
                            Action::Respond(
                                text_reply(Status::AlreadyReported, String::from_str("already verified")),
                            ),
                        )
                    } else {
                        match password_matches(&b.password, &u.password) {
                            Some(true) => (
                                ForgotVerify::Done,
                                Action::Respond(text_reply(Status::Conflict, String::from_str("same password"))),
                            ),
                            None => (
                                ForgotVerify::Done,
                                Action::Respond(empty_reply(Status::InternalServerError)),
                            ),
                            Some(false) => (ForgotVerify::Locking(b, u), Action::LockRedis),
                        }
                    }
                },
            },
            (ForgotVerify::Locking(b, u), Event::RedisLocked(link)) => match link {
                RedisLink::LockPoisoned(_) => (
                    ForgotVerify::Done,
                    Action::Respond(
                        text_reply(
                            Status::InternalServerError,
                            String::from_str("Failed to acquire Redis lock"),
                        ),
                    ),
                ),
                RedisLink::Unavailable(_) => (
                    ForgotVerify::Done,
                    Action::Respond(
                        text_reply(
                            Status::InternalServerError,
                            String::from_str("Failed to get Redis connection"),
                        ),
                    ),
                ),
                RedisLink::Ready => {
                    let key = crate::text::concat2("forgot-otp-", b.email.as_str());
                    let k = key.clone();
                    (ForgotVerify::Fetching(b, u, key), Action::GetOtp { key: k })
                },
            },
            (ForgotVerify::Fetching(b, u, key), Event::OtpFetched(stored)) => match stored {
                None => (
                    ForgotVerify::Done,
                    Action::Respond(text_reply(Status::Gone, String::from_str("OTP expired or not found"))),
                ),
                Some(s) => {
                    if s.otp == b.otp {
                        let hashed = hash_password(&b.password);
                        ForgotVerify::after_hash(b, u, key, hashed)
                    } else {
                        (
                            ForgotVerify::Done,
                            Action::Respond(
                                text_reply(Status::Unauthorized, String::from_str("Invalid OTP or expired")),
                            ),
                        )
                    }
                },
            },
            (ForgotVerify::Updating(key), Event::PasswordUpdated(res)) => match res {
                Err(_) => (ForgotVerify::Done, Action::Respond(empty_reply(Status::InternalServerError))),
                Ok(_) => (ForgotVerify::Deleting, Action::DeleteKey { key }),
            },
            (ForgotVerify::Deleting, Event::KeyDeleted(_)) => (
                ForgotVerify::Done,
                Action::Respond(text_reply(Status::Success, String::from_str("OK"))),
            ),
            _ => (ForgotVerify::Done, Action::Respond(empty_reply(Status::InternalServerError))),
        }
    }
}

} // verus!
