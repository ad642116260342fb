use vstd::prelude::*;

use crate::exchange::{
    answers_empty, answers_invalid, answers_text, empty_reply, invalid_reply, text_reply, Action,
    answers_token_texts, Body, Event, Field, FieldError, RedisLink, Reply, Rule, Status,
};
use crate::model::users::{blanked, without_password, NewUser, SystemTimestamp, UserModel};
use crate::service::auth::auth_forgot_send_otp::{RedisOtp, send_otp_errors};

pub use crate::service::auth::auth_forgot_send_otp::SendOtp;
use crate::service::auth::password::{bcrypt_hash_shape, bcrypt_verify, hash_outcome, hash_password, password_matches};
use crate::service::auth::session::{next_count, next_count_spec, OTP_TTL_SECONDS};
use crate::service::mail::{mail_error_text, otp_html, otp_mail};
use crate::service::otp::{generate_otp, is_otp_code};
use crate::service::token::{record_token_text, record_tokens, TokenStruct};
use crate::validate::{
    email_accepted, is_valid_email, length_ok, length_within, note_error, rule_error,
};

verus! {

/// A sign-up request.
#[derive(Debug)]
pub struct SignupBody {
    pub image: Option<String>,
    pub username: String,
    pub password: String,
    pub email: String,
}

/// The rules `SignupBody` fails, in field order: a present `image` and the
/// `username` are not empty, the `password` has 6 to 32 characters, the
/// `email` is an e-mail address.
pub open spec fn signup_errors(b: SignupBody) -> Seq<FieldError> {
    rule_error(
        b.image matches Some(i) && !length_within(i@, Some(1), None),
        FieldError { field: Field::Image, rule: Rule::Length { min: Some(1), max: None }, value: b.image->0 },
    ) + rule_error(
        !length_within(b.username@, Some(1), None),
        FieldError { field: Field::Username, rule: Rule::Length { min: Some(1), max: None }, value: b.username },
    ) + rule_error(
        !length_within(b.password@, Some(6), Some(32)),
        FieldError { field: Field::Password, rule: Rule::Length { min: Some(6), max: Some(32) }, value: b.password },
    ) + rule_error(!email_accepted(b.email@), FieldError { field: Field::Email, rule: Rule::Email, value: b.email })
}

impl SignupBody {
    /// Checks the request's rules; the errors list each failed rule in field order.
    pub fn validate(&self) -> (r: Result<(), Vec<FieldError>>)
        ensures
            r is Ok <==> signup_errors(*self).len() == 0,
            r matches Err(v) ==> v@ == signup_errors(*self),
    {
        let mut v: Vec<FieldError> = Vec::new();
        let (image_bad, image_value) = match &self.image {
            Some(i) => (!length_ok(i, Some(1), None), i.clone()),
            None => (false, String::new()),
        };
        note_error(&mut v, image_bad, FieldError { field: Field::Image, rule: Rule::Length { min: Some(1), max: None }, value: image_value });
        note_error(
            &mut v,
            !length_ok(&self.username, Some(1), None),
            FieldError { field: Field::Username, rule: Rule::Length { min: Some(1), max: None }, value: self.username.clone() },
        );
        note_error(
            &mut v,
            !length_ok(&self.password, Some(6), Some(32)),
            FieldError { field: Field::Password, rule: Rule::Length { min: Some(6), max: Some(32) }, value: self.password.clone() },
        );
        note_error(
            &mut v,
            !is_valid_email(&self.email),
            FieldError { field: Field::Email, rule: Rule::Email, value: self.email.clone() },
        );
        assert(v@ =~= signup_errors(*self));
        if v.len() == 0 {
            Ok(())
        } else {
            Err(v)
        }
    }
}

/// A log-in request.
#[derive(Debug)]
pub struct LoginBody {
    pub email: String,
    pub password: String,
    pub exp: Option<SystemTimestamp>,
}

/// The rules `LoginBody` fails, in field order: the `email` is an e-mail
/// address and the `password` has at least 6 characters.
pub open spec fn login_errors(b: LoginBody) -> Seq<FieldError> {
    rule_error(!email_accepted(b.email@), FieldError { field: Field::Email, rule: Rule::Email, value: b.email })
        + rule_error(
        !length_within(b.password@, Some(6), None),
        FieldError { field: Field::Password, rule: Rule::Length { min: Some(6), max: None }, value: b.password },
    )
}

impl LoginBody {
    /// Checks the request's rules; the errors list each failed rule in field order.
    pub fn validate(&self) -> (r: Result<(), Vec<FieldError>>)
        ensures
            r is Ok <==> login_errors(*self).len() == 0,
            r matches Err(v) ==> v@ == login_errors(*self),
    {
        let mut v: Vec<FieldError> = Vec::new();
        note_error(
            &mut v,
            !is_valid_email(&self.email),
            FieldError { field: Field::Email, rule: Rule::Email, value: self.email.clone() },
        );
        note_error(
            &mut v,
            !length_ok(&self.password, Some(6), None),
            FieldError { field: Field::Password, rule: Rule::Length { min: Some(6), max: None }, value: self.password.clone() },
        );
        assert(v@ =~= login_errors(*self));
        if v.len() == 0 {
            Ok(())
        } else {
            Err(v)
        }
    }
}

/// A pair of tokens with their expiry times.
#[derive(Debug)]
pub struct Token {
    pub refresh_token: TokenStruct,
    pub access_token: TokenStruct,
}

/// A code session as the verification-code sender keeps it in Redis.
#[derive(Debug)]
pub struct RediSession {
    pub otp: String,
    pub count: u8,
}

/// The answer of the password-reset placeholder: 200 `Hello forgot!`.
pub fn forgot() -> (r: Reply)
    ensures
        r.status == Status::Success,
        r.body matches Body::Text(t) && t@ == "Hello forgot!"@,
{
    text_reply(Status::Success, String::from_str("Hello forgot!"))
}

/// The answer of the log-out placeholder: 200 `Hello logout!`.
pub fn logout() -> (r: Reply)
    ensures
        r.status == Status::Success,
        r.body matches Body::Text(t) && t@ == "Hello logout!"@,
{
    text_reply(Status::Success, String::from_str("Hello logout!"))
}

/// The stages of a log-in that answers with tokens over the user record.
#[derive(Debug)]
pub enum Login {
    /// Waiting for the database connection.
    Connecting(LoginBody),
    /// Waiting for the user lookup.
    Looking(LoginBody),
    /// Waiting for the signing secret; the user record with its hash blanked.
    Signing(UserModel),
    /// Answered.
    Done,
}

/// Starts on a request: an invalid request is answered 400 with its errors;
/// a valid one asks for a database connection.
pub fn login(body: LoginBody) -> (r: (Login, Action))
    ensures
        login_errors(body).len() > 0 ==> r.0 is Done && answers_invalid(r.1, ""@, login_errors(body)),
        login_errors(body).len() == 0 ==> r.0 == Login::Connecting(body) && r.1 is ConnectDb,
{
    match body.validate() {
        Err(v) => (Login::Done, invalid_reply("", v)),
        Ok(()) => (Login::Connecting(body), Action::ConnectDb),
    }
}

impl Login {
    /// The outcome this stage waits for.
    pub open spec fn expects(self, ev: Event) -> bool {
        match self {
            Login::Connecting(_) => ev is DbConnected,
            Login::Looking(_) => ev is UserLookup,
            Login::Signing(_) => ev is SecretRead,
            Login::Done => false,
        }
    }

    /// Whether this stage waits for `ev`.
    pub fn accepts(&self, ev: &Event) -> (r: bool)
        ensures
            r == self.expects(*ev),
    {
        match self {
            Login::Connecting(_) => matches!(ev, Event::DbConnected(_)),
            Login::Looking(_) => matches!(ev, Event::UserLookup(_)),
            Login::Signing(_) => matches!(ev, Event::SecretRead(_)),
            Login::Done => false,
        }
    }

    /// The relation between this stage, the outcome `ev` and the next stage
    /// and action `r` that `step` gives.
    pub open spec fn transition(self, ev: Event, r: (Login, Action)) -> bool {
        match (self, ev) {
            (Login::Connecting(b), Event::DbConnected(res)) => match res {
                Err(_) => r.0 is Done && answers_empty(r.1, Status::InternalServerError),
                Ok(_) => {
                    &&& r.0 == Login::Looking(b)
                    &&& r.1 matches Action::FindUser { email }
                    &&& email@ == b.email@
                },
            },
            (Login::Looking(b), Event::UserLookup(res)) => match res {
                Err(_) => r.0 is Done && answers_empty(r.1, Status::InternalServerError),
                Ok(None) => r.0 is Done && answers_empty(r.1, Status::NotFound),
                Ok(Some(u)) => if bcrypt_verify(b.password@, u.password@) == Some(true) {
                    &&& r.0 matches Login::Signing(user)
                    &&& blanked(user, u)
                    &&& r.1 is ReadSecret
                } else {
                    r.0 is Done && answers_empty(r.1, Status::NotAcceptable)
                },
            },
            (Login::Signing(user), Event::SecretRead(secret)) => {
                &&& r.0 is Done
                &&& answers_token_texts(
                    r.1,
                    record_token_text(user, secret@),
                    record_token_text(user, secret@),
                )
            },
            _ => false,
        }
    }

    /// Moves on with the outcome `ev` of the last action. Tokens are made only
    /// for a user whose stored hash verifies the submitted password, over the
    /// record with its hash blanked, signed with the secret read.
    pub fn step(self, ev: Event) -> (r: (Login, Action))
        requires
            self.expects(ev),
        ensures
            self.transition(ev, r),
    {
        match (self, ev) {
            (Login::Connecting(b), Event::DbConnected(res)) => match res {
                Err(_) => (Login::Done, Action::Respond(empty_reply(Status::InternalServerError))),
                Ok(_) => {
                    let email = b.email.clone();
                    (Login::Looking(b), Action::FindUser { email })
                },
            },
            (Login::Looking(b), Event::UserLookup(res)) => match res {
                Err(_) => (Login::Done, Action::Respond(empty_reply(Status::InternalServerError))),
                Ok(None) => (Login::Done, Action::Respond(empty_reply(Status::NotFound))),
                Ok(Some(u)) => {
                    match password_matches(&b.password, &u.password) {
                        Some(true) => {
                            let user = without_password(&u);
                            (Login::Signing(user), Action::ReadSecret)
                        },
                        _ => (Login::Done, Action::Respond(empty_reply(Status::NotAcceptable))),
                    }
                },
            },
            (Login::Signing(user), Event::SecretRead(secret)) => {
                let (access_token, refresh_token) = record_tokens(&user, secret.as_str());
                (
                    Login::Done,
                    Action::Respond(
                        Reply { status: Status::Success, body: Body::Tokens { access_token, refresh_token } },
                    ),
                )
            },
            _ => (Login::Done, Action::Respond(empty_reply(Status::InternalServerError))),
        }
    }
}

/// The row a sign-up inserts: the image (empty where none is given), the user
/// name and e-mail, the role `user`, not verified, and a bcrypt hash that
/// verifies the submitted password.
pub open spec fn signup_row(b: SignupBody, mob: Option<String>, row: NewUser) -> bool {
    &&& row.image@ == (match b.image {
        Some(i) => i@,
        None => Seq::empty(),
    })
    &&& row.username == b.username
    &&& row.email == b.email
    &&& row.mob == mob
    &&& row.role@ == "user"@
    &&& !row.verified
    &&& bcrypt_verify(b.password@, row.password@) == Some(true)
    &&& bcrypt_hash_shape(row.password@)
    &&& (!bcrypt_hash_shape(b.password@) ==> row.password@ != b.password@)
}

/// Builds the row a sign-up inserts, with the password hash `hashed`.
pub(crate) fn new_user_row(b: SignupBody, mob: Option<String>, hashed: String) -> (r: NewUser)
    requires
        hash_outcome(b.password@, Some(hashed)),
    ensures
        signup_row(b, mob, r),
        r.password == hashed,
{
    let image = match b.image {
        Some(i) => i,
        None => String::new(),
    };
    NewUser {
        image,
        username: b.username,
        email: b.email,
        mob,
        role: String::from_str("user"),
        verified: false,
        password: hashed,
    }
}

/// The stages of a sign-up.
#[derive(Debug)]
pub enum Signup {
    /// Waiting for the database connection.
    Connecting(SignupBody),
    /// Waiting for the lookup of the e-mail address.
    Looking(SignupBody),
    /// Waiting for the insert.
    Inserting,
    /// Answered.
    Done,
}

/// Starts on a request: an invalid request is answered 400 with its errors;
/// a valid one asks for a database connection.
pub fn signup(body: SignupBody) -> (r: (Signup, Action))
    ensures
        signup_errors(body).len() > 0 ==> r.0 is Done && answers_invalid(r.1, ""@, signup_errors(body)),
        signup_errors(body).len() == 0 ==> r.0 == Signup::Connecting(body) && r.1 is ConnectDb,
{
    match body.validate() {
        Err(v) => (Signup::Done, invalid_reply("", v)),
        Ok(()) => (Signup::Connecting(body), Action::ConnectDb),
    }
}

impl Signup {
    /// The outcome this stage waits for.
    pub open spec fn expects(self, ev: Event) -> bool {
        match self {
            Signup::Connecting(_) => ev is DbConnected,
            Signup::Looking(_) => ev is UserLookup,
            Signup::Inserting => ev is UserInserted,
            Signup::Done => false,
        }
    }

    /// Whether this stage waits for `ev`.
    pub fn accepts(&self, ev: &Event) -> (r: bool)
        ensures
            r == self.expects(*ev),
    {
        match self {
            Signup::Connecting(_) => matches!(ev, Event::DbConnected(_)),
            Signup::Looking(_) => matches!(ev, Event::UserLookup(_)),
            Signup::Inserting => matches!(ev, Event::UserInserted(_)),
            Signup::Done => false,
        }
    }

    /// The relation between this stage, the outcome `ev` and the next stage
    /// and action `r` that `step` gives.
    pub open spec fn transition(self, ev: Event, r: (Signup, Action)) -> bool {
        match (self, ev) {
            (Signup::Connecting(b), Event::DbConnected(res)) => match res {
                Err(_) => r.0 is Done && answers_empty(r.1, Status::InternalServerError),
                Ok(_) => {
                    &&& r.0 == Signup::Looking(b)
                    &&& r.1 matches Action::FindUser { email }
                    &&& email@ == b.email@
                },
            },
            (Signup::Looking(b), Event::UserLookup(res)) => match res {
                Err(_) => r.0 is Done && answers_empty(r.1, Status::InternalServerError),
                Ok(Some(_)) => r.0 is Done && answers_empty(r.1, Status::AlreadyReported),
                Ok(None) => exists|hashed: Option<String>|
                    hash_outcome(b.password@, hashed) && #[trigger] Signup::hashed(b, hashed, r),
            },
            (Signup::Inserting, Event::UserInserted(res)) => match res {
                Ok(_) => r.0 is Done && answers_empty(r.1, Status::Created),
                Err(_) => r.0 is Done && answers_empty(r.1, Status::InternalServerError),
            },
            _ => false,
        }
    }

    /// What follows the hashing of the submitted password, given its outcome
    /// `hashed`: no hash is answered 500; a hash goes into the new row, which is
    /// inserted.
    pub open spec fn hashed(b: SignupBody, hashed: Option<String>, r: (Signup, Action)) -> bool {
        match hashed {
            None => r.0 is Done && answers_empty(r.1, Status::InternalServerError),
            Some(h) => {
                &&& r.0 is Inserting
                &&& r.1 matches Action::InsertUser { row }
                &&& signup_row(b, None, row)
                &&& row.password == h
            },
        }
    }

    /// Goes on from the hashing of the password of `b`, whose outcome is
    /// `hashed`: inserts the new row with that hash, or answers 500 where there
    /// is none.
    pub fn after_hash(b: SignupBody, hashed: Option<String>) -> (r: (Signup, Action))
        requires
            hash_outcome(b.password@, hashed),
        ensures
            Signup::hashed(b, hashed, r),
    {
        match hashed {
            None => (Signup::Done, Action::Respond(empty_reply(Status::InternalServerError))),
            Some(h) => {
                let row = new_user_row(b, None, h);
                (Signup::Inserting, Action::InsertUser { row })
            },
        }
    }

    /// Moves on with the outcome `ev` of the last action. A known e-mail address
    /// is answered 208; an unknown one gets a new row (where hashing fails, the
    /// answer is 500).
    pub fn step(self, ev: Event) -> (r: (Signup, Action))
        requires
            self.expects(ev),
        ensures
            self.transition(ev, r),
    {
        match (self, ev) {
            (Signup::Connecting(b), Event::DbConnected(res)) => match res {
                Err(_) => (Signup::Done, Action::Respond(empty_reply(Status::InternalServerError))),
                Ok(_) => {
                    let email = b.email.clone();
                    (Signup::Looking(b), Action::FindUser { email })
                },
            },
            (Signup::Looking(b), Event::UserLookup(res)) => match res {
                Err(_) => (Signup::Done, Action::Respond(empty_reply(Status::InternalServerError))),
                Ok(Some(_)) => (Signup::Done, Action::Respond(empty_reply(Status::AlreadyReported))),
                Ok(None) => {
                    let hashed = hash_password(&b.password);
                    Signup::after_hash(b, hashed)
                },
            },
            (Signup::Inserting, Event::UserInserted(res)) => match res {
                Ok(_) => (Signup::Done, Action::Respond(empty_reply(Status::Created))),
                Err(_) => (Signup::Done, Action::Respond(empty_reply(Status::InternalServerError))),
            },
            _ => (Signup::Done, Action::Respond(empty_reply(Status::InternalServerError))),
        }
    }
}

/// The Redis key of the verification code of `email`.
pub open spec fn otp_key(email: Seq<char>) -> Seq<char> {
    "otp-"@ + email
}

/// A send of a verification code is refused once the count it sees exceeds five.
pub const SEND_MAX_COUNT: u8 = 5;

/// The stages of sending a verification code.
#[derive(Debug)]
pub enum SendOtpFlow {
    /// Waiting for the database connection.
    Connecting(SendOtp),
    /// Waiting for the user lookup.
    Looking(SendOtp),
    /// Waiting for the Redis check; the code has been drawn.
    CheckingRedis(SendOtp, String),
    /// Waiting for the Redis lock.
    Locking(SendOtp, String),
    /// Waiting for the stored session under the key.
    Fetching(SendOtp, String, String),
    /// Waiting for the new session to be stored.
    Storing(SendOtp, String),
    /// Waiting for the mail to be sent.
    Mailing,
    /// Answered.
    Done,
}

/// Starts on a request: an invalid request is answered 400 with its errors;
/// a valid one asks for a database connection.
pub fn send_otp(body: SendOtp) -> (r: (SendOtpFlow, Action))
    ensures
        send_otp_errors(body).len() > 0 ==> r.0 is Done && answers_invalid(r.1, ""@, send_otp_errors(body)),
        send_otp_errors(body).len() == 0 ==> r.0 == SendOtpFlow::Connecting(body) && r.1 is ConnectDb,
{
    match body.validate() {
        Err(v) => (SendOtpFlow::Done, invalid_reply("", v)),
        Ok(()) => (SendOtpFlow::Connecting(body), Action::ConnectDb),
    }
}

impl SendOtpFlow {
    /// The outcome this stage waits for. A poisoned Redis lock is not one: the
    /// sender takes the lock with `unwrap`.
    pub open spec fn expects(self, ev: Event) -> bool {
        match self {
            SendOtpFlow::Connecting(_) => ev is DbConnected,
            SendOtpFlow::Looking(_) => ev is UserLookup,
            SendOtpFlow::CheckingRedis(_, _) => ev is RedisChecked,
            SendOtpFlow::Locking(_, _) => ev matches Event::RedisLocked(link) && !(link is LockPoisoned),
            SendOtpFlow::Fetching(_, _, _) => ev is OtpFetched,
            SendOtpFlow::Storing(_, _) => ev is OtpStored,
            SendOtpFlow::Mailing => ev is MailSent,
            SendOtpFlow::Done => false,
        }
    }

    /// Whether this stage waits for `ev`.
    pub fn accepts(&self, ev: &Event) -> (r: bool)
        ensures
            r == self.expects(*ev),
    {
        match self {
            SendOtpFlow::Connecting(_) => matches!(ev, Event::DbConnected(_)),
            SendOtpFlow::Looking(_) => matches!(ev, Event::UserLookup(_)),
            SendOtpFlow::CheckingRedis(_, _) => matches!(ev, Event::RedisChecked(_)),
            SendOtpFlow::Locking(_, _) => match ev {
                Event::RedisLocked(RedisLink::LockPoisoned(_)) => false,
                Event::RedisLocked(_) => true,
                _ => false,
            },
            SendOtpFlow::Fetching(_, _, _) => matches!(ev, Event::OtpFetched(_)),
            SendOtpFlow::Storing(_, _) => matches!(ev, Event::OtpStored(_)),
            SendOtpFlow::Mailing => matches!(ev, Event::MailSent(_)),
            SendOtpFlow::Done => false,
        }
    }

    /// The relation between this stage, the outcome `ev` and the next stage
    /// and action `r` that `step` gives.
    pub open spec fn transition(self, ev: Event, r: (SendOtpFlow, Action)) -> bool {
        match (self, ev) {
            (SendOtpFlow::Connecting(b), Event::DbConnected(res)) => match res {
                Err(_) => r.0 is Done && answers_empty(r.1, Status::InternalServerError),
                Ok(_) => {
                    &&& r.0 == SendOtpFlow::Looking(b)
                    &&& r.1 matches Action::FindUser { email }
                    &&& email@ == b.email@
                },
            },
            (SendOtpFlow::Looking(b), Event::UserLookup(res)) => match res {
                Err(_) => r.0 is Done && answers_empty(r.1, Status::InternalServerError),
                Ok(None) => r.0 is Done && answers_empty(r.1, Status::NotFound),
                Ok(Some(_)) => {
                    &&& r.0 matches SendOtpFlow::CheckingRedis(b2, otp)
                    &&& b2 == b
                    &&& is_otp_code(otp@)
                    &&& r.1 is CheckRedis
                },
            },
            (SendOtpFlow::CheckingRedis(b, otp), Event::RedisChecked(ok)) => if ok {
                r.0 == SendOtpFlow::Locking(b, otp) && r.1 is LockRedis
            } else {
                r.0 is Done && answers_empty(r.1, Status::InternalServerError)
            },
            (SendOtpFlow::Locking(b, otp), Event::RedisLocked(link)) => match link {
                RedisLink::Ready => {
                    &&& r.0 matches SendOtpFlow::Fetching(b2, otp2, key)
                    &&& b2 == b
                    &&& otp2 == otp
                    &&& key@ == otp_key(b.email@)
                    &&& r.1 matches Action::GetOtp { key: k }
                    &&& k@ == key@
                },
                _ => r.0 is Done && answers_empty(r.1, Status::InternalServerError),
            },
            (SendOtpFlow::Fetching(b, otp, key), Event::OtpFetched(prev)) => {
                let prev_count = match prev {
                    Some(s) => Some(s.count),
                    None => None,
                };
                match next_count_spec(prev_count, SEND_MAX_COUNT) {
                    None => r.0 is Done && answers_text(
                        r.1,
                        Status::TooManyRequests,
                        "Too many requests!"@,
                    ),
                    Some(c) => {
                        &&& r.0 == SendOtpFlow::Storing(b, otp)
                        &&& r.1 matches Action::StoreOtp { key: k, session, ttl_seconds }
                        &&& k == key
                        &&& session.otp@ == otp@
                        &&& session.count == c
                        &&& ttl_seconds == OTP_TTL_SECONDS
                    },
                }
            },
            (SendOtpFlow::Storing(b, otp), Event::OtpStored(res)) => match res {
                Err(e) => r.0 is Done && answers_text(
                    r.1,
                    Status::InternalServerError,
                    "Could not set OTP "@ + e@,
                ),
                Ok(_) => {
                    &&& r.0 is Mailing
                    &&& r.1 matches Action::SendMail { to, html }
                    &&& to@ == b.email@
                    &&& html@ == otp_mail(otp@, b.email@)
                },
            },
            (SendOtpFlow::Mailing, Event::MailSent(res)) => match res {
                Ok(_) => r.0 is Done && answers_text(r.1, Status::Success, "Success!"@),
                Err(e) => r.0 is Done && answers_text(
                    r.1,
                    Status::InternalServerError,
                    "Failed to send OTP email "@ + mail_error_text(e) + " "@,
                ),
            },
            _ => false,
        }
    }

    /// Moves on with the outcome `ev` of the last action.
    pub fn step(self, ev: Event) -> (r: (SendOtpFlow, Action))
        requires
            self.expects(ev),
        ensures
            self.transition(ev, r),
    {
        match (self, ev) {
            (SendOtpFlow::Connecting(b), Event::DbConnected(res)) => match res {
                Err(_) => (SendOtpFlow::Done, Action::Respond(empty_reply(Status::InternalServerError))),
                Ok(_) => {
                    let email = b.email.clone();
                    (SendOtpFlow::Looking(b), Action::FindUser { email })
                },
            },
            (SendOtpFlow::Looking(b), Event::UserLookup(res)) => match res {
                Err(_) => (SendOtpFlow::Done, Action::Respond(empty_reply(Status::InternalServerError))),
                Ok(None) => (SendOtpFlow::Done, Action::Respond(empty_reply(Status::NotFound))),
                Ok(Some(_)) => {
                    let otp = generate_otp();
                    (SendOtpFlow::CheckingRedis(b, otp), Action::CheckRedis)
                },
            },
            (SendOtpFlow::CheckingRedis(b, otp), Event::RedisChecked(ok)) => {
                if ok {
                    (SendOtpFlow::Locking(b, otp), Action::LockRedis)
                } else {
                    (SendOtpFlow::Done, Action::Respond(empty_reply(Status::InternalServerError)))
                }
            },
            (SendOtpFlow::Locking(b, otp), Event::RedisLocked(link)) => match link {
                RedisLink::Ready => {
                    let key = crate::text::concat2("otp-", b.email.as_str());
                    let k = key.clone();
                    (SendOtpFlow::Fetching(b, otp, key), Action::GetOtp { key: k })
                },
                _ => (SendOtpFlow::Done, Action::Respond(empty_reply(Status::InternalServerError))),
            },
            (SendOtpFlow::Fetching(b, otp, key), Event::OtpFetched(prev)) => {
                let prev_count = match &prev {
                    Some(s) => Some(s.count),
                    None => None,
                };
                match next_count(prev_count, SEND_MAX_COUNT) {
                    None => (
                        SendOtpFlow::Done,
                        Action::Respond(
                            text_reply(Status::TooManyRequests, String::from_str("Too many requests!")),
                        ),
                    ),
                    Some(c) => {
                        let session = RedisOtp { otp: otp.clone(), count: c };
                        (
                            SendOtpFlow::Storing(b, otp),
                            Action::StoreOtp { key, session, ttl_seconds: OTP_TTL_SECONDS },
                        )
                    },
                }
            },
            (SendOtpFlow::Storing(b, otp), Event::OtpStored(res)) => match res {
                Err(e) => (
                    SendOtpFlow::Done,
                    Action::Respond(
                        text_reply(
                            Status::InternalServerError,
                            crate::text::concat2("Could not set OTP ", e.as_str()),
                        ),
                    ),
                ),
                Ok(_) => {
                    let html = otp_html(otp.as_str(), b.email.as_str());
                    (SendOtpFlow::Mailing, Action::SendMail { to: b.email, html })
                },
            },
            (SendOtpFlow::Mailing, Event::MailSent(res)) => match res {
                Ok(_) => (
                    SendOtpFlow::Done,
                    Action::Respond(text_reply(Status::Success, String::from_str("Success!"))),
                ),
                Err(e) => {
                    let detail = e.to_text();
                    (
                        SendOtpFlow::Done,
                        Action::Respond(
                            text_reply(
                                Status::InternalServerError,
                                crate::text::concat3("Failed to send OTP email ", detail.as_str(), " "),
                            ),
                        ),
                    )
                },
            },
            _ => (SendOtpFlow::Done, Action::Respond(empty_reply(Status::InternalServerError))),
        }
    }
}

} // verus!
