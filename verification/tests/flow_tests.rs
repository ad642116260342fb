use backend::exchange::{Action, Body, Event, Field, FieldError, RedisLink, Reply, Rule, Status};
use backend::model::users::{NaiveTimestamp, UserModel, UserModelToken};
use backend::service::auth::auth::{forgot, login, logout, send_otp, signup, LoginBody, SignupBody};
use backend::service::auth::auth_forgot::auth_forgot;
use backend::service::auth::auth_forgot_send_otp::{auth_forgot_send, RedisOtp, SendOtp};
use backend::service::auth::auth_jwt_genrator::{auth_access_token, auth_refresh_token, JwtToken};
use backend::service::auth::auth_login::auth_login;
use backend::service::auth::auth_logout::auth_logout;
use backend::service::auth::auth_signup::auth_signup;
use backend::service::auth::auth_signup::SignupBody as MobSignup;
use backend::service::auth::auth_verify_forgot_otp::{auth_forgot_send_otp, ForgotOtpVerriyStruct};
use backend::service::auth::auth_verify_otp::auth_verify_otp;
use backend::service::auth::password::{hash_password, password_matches};
use backend::service::mail::{forgot_password_html, otp_html, MailError};
use backend::service::token::token_decoder;
use backend::service::user::home::user_home;

fn user(password: &str, verified: bool) -> UserModel {
    UserModel {
        id: 3,
        image: "me.png".to_string(),
        email: "ann@example.com".to_string(),
        role: "user".to_string(),
        verified,
        password: hash_password(&password.to_string()).unwrap(),
        username: "ann".to_string(),
        created_at: NaiveTimestamp { secs: 1_700_000_000, nanos: 0 },
    }
}

fn text(a: &Action) -> (Status, String) {
    match a {
        Action::Respond(Reply { status, body: Body::Text(t) }) => (*status, t.clone()),
        other => panic!("not a text answer: {:?}", other),
    }
}

fn empty(a: &Action) -> Status {
    match a {
        Action::Respond(Reply { status, body: Body::Empty }) => *status,
        other => panic!("not an empty answer: {:?}", other),
    }
}

fn login_body(password: &str) -> LoginBody {
    LoginBody { email: "ann@example.com".to_string(), password: password.to_string(), exp: None }
}

#[test]
fn placeholders() {
    assert!(matches!(forgot(), Reply { status: Status::Success, body: Body::Text(ref t) } if t == "Hello forgot!"));
    assert!(matches!(logout(), Reply { status: Status::Success, body: Body::Text(ref t) } if t == "Hello logout!"));
    assert!(matches!(auth_logout(), Reply { status: Status::Success, body: Body::Text(ref t) } if t == "Hello logout!"));
    assert!(matches!(user_home(), Reply { status: Status::Success, body: Body::Text(ref t) } if t == "Home"));
    let echo = auth_forgot(SendOtp { email: "x@y.z".to_string() });
    assert!(matches!(echo, Reply { status: Status::Success, body: Body::EmailEcho(ref e) } if e == "x@y.z"));
}

#[test]
fn record_login_issues_tokens_for_the_right_password() {
    let (s, a) = login(login_body("secret1"));
    assert!(matches!(a, Action::ConnectDb));
    let (s, a) = s.step(Event::DbConnected(Ok(())));
    assert!(matches!(a, Action::FindUser { ref email } if email == "ann@example.com"));
    let (s, a) = s.step(Event::UserLookup(Ok(Some(user("secret1", true)))));
    assert!(matches!(a, Action::ReadSecret));
    let (_, a) = s.step(Event::SecretRead("secret".to_string()));
    match a {
        Action::Respond(Reply { status: Status::Success, body: Body::Tokens { access_token, refresh_token } }) => {
            assert_eq!(access_token, refresh_token);
            assert_eq!(access_token.split('.').count(), 3);
            // the record carries no expiry, so the default validation refuses it
            assert_eq!(token_decoder(&access_token, "secret").unwrap_err(), "Unable To Decode Token Missing required claim: exp");
        },
        other => panic!("{:?}", other),
    }
}

#[test]
fn record_login_refusals() {
    let (_, a) = login(LoginBody { email: "bad".to_string(), password: "1".to_string(), exp: None });
    match a {
        Action::Respond(Reply { status: Status::BadRequest, body: Body::Invalid(p, v) }) => {
            assert_eq!(p, "");
            assert_eq!(v, vec![FieldError { field: Field::Email, rule: Rule::Email, value: "bad".to_string() }, FieldError { field: Field::Password, rule: Rule::Length { min: Some(6), max: None }, value: "1".to_string() }]);
        },
        other => panic!("{:?}", other),
    }
    let (s, _) = login(login_body("secret1"));
    assert_eq!(empty(&s.step(Event::DbConnected(Err("down".to_string()))).1), Status::InternalServerError);
    let (s, _) = login(login_body("secret1"));
    let (s, _) = s.step(Event::DbConnected(Ok(())));
    assert_eq!(empty(&s.step(Event::UserLookup(Ok(None))).1), Status::NotFound);
    let (s, _) = login(login_body("secret1"));
    let (s, _) = s.step(Event::DbConnected(Ok(())));
    assert_eq!(empty(&s.step(Event::UserLookup(Ok(Some(user("other12", true))))).1), Status::NotAcceptable);
}

#[test]
fn session_login_of_an_unverified_user_mails_the_stored_code() {
    let (s, _) = auth_login(login_body("secret1"));
    let (s, _) = s.step(Event::DbConnected(Ok(())));
    let (s, a) = s.step(Event::UserLookup(Ok(Some(user("secret1", false)))));
    assert!(matches!(a, Action::ReadSecret));
    let (s, a) = s.step(Event::SecretRead("secret".to_string()));
    assert!(matches!(a, Action::LockRedis));
    let (s, a) = s.step(Event::RedisLocked(RedisLink::Ready));
    let code = match &a {
        Action::StoreOtp { key, session, ttl_seconds } => {
            assert_eq!(key, "otp-ann@example.com");
            assert_eq!(session.count, 0);
            assert_eq!(*ttl_seconds, 300);
            session.otp.clone()
        },
        other => panic!("{:?}", other),
    };
    let (s, a) = s.step(Event::OtpStored(Ok(())));
    match &a {
        Action::SendMail { to, html } => {
            assert_eq!(to, "ann@example.com");
            assert_eq!(*html, otp_html(&code, "ann@example.com"));
        },
        other => panic!("{:?}", other),
    }
    let (_, a) = s.step(Event::MailSent(Ok(())));
    assert!(matches!(a, Action::Respond(Reply { status: Status::Success, body: Body::Tokens { .. } })));
}

#[test]
fn session_login_error_answers() {
    let start = || {
        let (s, _) = auth_login(login_body("secret1"));
        let (s, _) = s.step(Event::DbConnected(Ok(())));
        let (s, _) = s.step(Event::UserLookup(Ok(Some(user("secret1", false)))));
        let (s, _) = s.step(Event::SecretRead("secret".to_string()));
        s
    };
    assert_eq!(text(&start().step(Event::RedisLocked(RedisLink::LockPoisoned("p".to_string()))).1), (Status::InternalServerError, "Failed to acquire Redis lock".to_string()));
    assert_eq!(text(&start().step(Event::RedisLocked(RedisLink::Unavailable("false".to_string()))).1), (Status::InternalServerError, "Failed to get Redis connection".to_string()));
    let (s, _) = start().step(Event::RedisLocked(RedisLink::Ready));
    assert_eq!(text(&s.step(Event::OtpStored(Err("io".to_string()))).1), (Status::InternalServerError, "Could not set OTP io".to_string()));
    let (s, _) = start().step(Event::RedisLocked(RedisLink::Ready));
    let (s, _) = s.step(Event::OtpStored(Ok(())));
    let e = MailError::EnvVarError("EMAIL_USER not set".to_string());
    assert_eq!(
        text(&s.step(Event::MailSent(Err(e))).1),
        (Status::InternalServerError, "Failed to send OTP email Failed to retrieve environment variables: EMAIL_USER not set ".to_string())
    );
    let (s, _) = auth_login(login_body("secret1"));
    let (s, _) = s.step(Event::DbConnected(Ok(())));
    assert_eq!(text(&s.step(Event::UserLookup(Ok(None))).1), (Status::NotFound, "User not found".to_string()));
}

fn signup_body() -> SignupBody {
    SignupBody { image: None, username: "ann".to_string(), password: "secret1".to_string(), email: "ann@example.com".to_string() }
}

#[test]
fn record_signup_inserts_an_unverified_user() {
    let (s, _) = signup(signup_body());
    let (s, _) = s.step(Event::DbConnected(Ok(())));
    let (s, a) = s.step(Event::UserLookup(Ok(None)));
    match &a {
        Action::InsertUser { row } => {
            assert_eq!(row.image, "");
            assert_eq!(row.role, "user");
            assert!(!row.verified);
            assert_eq!(row.mob, None);
            assert_eq!(password_matches(&"secret1".to_string(), &row.password), Some(true));
        },
        other => panic!("{:?}", other),
    }
    assert_eq!(empty(&s.step(Event::UserInserted(Ok(()))).1), Status::Created);
    let (s, _) = signup(signup_body());
    let (s, _) = s.step(Event::DbConnected(Ok(())));
    assert_eq!(empty(&s.step(Event::UserLookup(Ok(Some(user("x12345", false))))).1), Status::AlreadyReported);
}

#[test]
fn mobile_signup_sends_a_code_even_when_the_insert_fails() {
    let body = MobSignup {
        image: Some("p.png".to_string()),
        username: "ann".to_string(),
        password: "secret1".to_string(),
        email: "ann@example.com".to_string(),
        mob: "0123456789".to_string(),
    };
    let (s, _) = auth_signup(body);
    let (s, _) = s.step(Event::DbConnected(Ok(())));
    let (s, a) = s.step(Event::UserLookup(Ok(None)));
    assert!(matches!(a, Action::InsertUser { ref row } if row.mob.as_deref() == Some("0123456789") && row.image == "p.png"));
    let (s, a) = s.step(Event::UserInserted(Err("duplicate".to_string())));
    assert!(matches!(a, Action::LockRedis));
    let (s, a) = s.step(Event::RedisLocked(RedisLink::Ready));
    let code = match &a {
        Action::StoreOtp { key, session, .. } => {
            assert_eq!(key, "otp-ann@example.com");
            assert_eq!(session.count, 0);
            session.otp.clone()
        },
        other => panic!("{:?}", other),
    };
    let (s, a) = s.step(Event::OtpStored(Ok(())));
    assert!(matches!(a, Action::SendMail { ref html, .. } if *html == otp_html(&code, "ann@example.com")));
    assert_eq!(text(&s.step(Event::MailSent(Ok(()))).1), (Status::Success, "Success!".to_string()));
}

fn send_until_fetch() -> backend::service::auth::auth::SendOtpFlow {
    let (s, _) = send_otp(SendOtp { email: "ann@example.com".to_string() });
    let (s, _) = s.step(Event::DbConnected(Ok(())));
    let (s, _) = s.step(Event::UserLookup(Ok(Some(user("secret1", false)))));
    let (s, _) = s.step(Event::RedisChecked(true));
    let (s, a) = s.step(Event::RedisLocked(RedisLink::Ready));
    assert!(matches!(a, Action::GetOtp { ref key } if key == "otp-ann@example.com"));
    s
}

#[test]
fn verification_code_sends() {
    let (s, a) = send_until_fetch().step(Event::OtpFetched(None));
    let code = match &a {
        Action::StoreOtp { session, .. } => {
            assert_eq!(session.count, 2);
            session.otp.clone()
        },
        other => panic!("{:?}", other),
    };
    let (s, a) = s.step(Event::OtpStored(Ok(())));
    assert!(matches!(a, Action::SendMail { ref html, .. } if *html == otp_html(&code, "ann@example.com")));
    assert_eq!(text(&s.step(Event::MailSent(Ok(()))).1), (Status::Success, "Success!".to_string()));
    let prev = RedisOtp { otp: "111111".to_string(), count: 6 };
    assert_eq!(text(&send_until_fetch().step(Event::OtpFetched(Some(prev))).1), (Status::TooManyRequests, "Too many requests!".to_string()));
    let prev = RedisOtp { otp: "111111".to_string(), count: 5 };
    assert!(matches!(send_until_fetch().step(Event::OtpFetched(Some(prev))).1, Action::StoreOtp { ref session, .. } if session.count == 6));
    let (s, _) = send_otp(SendOtp { email: "ann@example.com".to_string() });
    let (s, _) = s.step(Event::DbConnected(Ok(())));
    let (s, _) = s.step(Event::UserLookup(Ok(Some(user("secret1", false)))));
    assert_eq!(empty(&s.step(Event::RedisChecked(false)).1), Status::InternalServerError);
}

fn forgot_until_fetch() -> backend::service::auth::auth_forgot_send_otp::AuthForgotSend {
    let (s, _) = auth_forgot_send(SendOtp { email: "ann@example.com".to_string() });
    let (s, _) = s.step(Event::DbConnected(Ok(())));
    let (s, _) = s.step(Event::UserLookup(Ok(Some(user("secret1", false)))));
    let (s, _) = s.step(Event::RedisChecked(true));
    let (s, a) = s.step(Event::RedisLocked(RedisLink::Ready));
    assert!(matches!(a, Action::GetOtp { ref key } if key == "forgot-otp-ann@example.com"));
    s
}

#[test]
fn reset_code_sends() {
    let (s, a) = forgot_until_fetch().step(Event::OtpFetched(Some(RedisOtp { otp: "x".to_string(), count: 4 })));
    let code = match &a {
        Action::StoreOtp { session, .. } => {
            assert_eq!(session.count, 5);
            session.otp.clone()
        },
        other => panic!("{:?}", other),
    };
    let (s, a) = s.step(Event::OtpStored(Ok(())));
    assert!(matches!(a, Action::SendMail { ref html, .. } if *html == forgot_password_html(&code, "ann@example.com")));
    assert_eq!(text(&s.step(Event::MailSent(Ok(()))).1), (Status::Success, "Success!".to_string()));
    let prev = RedisOtp { otp: "x".to_string(), count: 5 };
    assert_eq!(text(&forgot_until_fetch().step(Event::OtpFetched(Some(prev))).1), (Status::TooManyRequests, "Too many requests!".to_string()));
    let (s, _) = auth_forgot_send(SendOtp { email: "ann@example.com".to_string() });
    let (s, _) = s.step(Event::DbConnected(Ok(())));
    assert_eq!(text(&s.step(Event::UserLookup(Ok(Some(user("secret1", true))))).1), (Status::AlreadyReported, "already verified".to_string()));
    let (s, _) = auth_forgot_send(SendOtp { email: "ann@example.com".to_string() });
    let (s, _) = s.step(Event::DbConnected(Ok(())));
    let (s, _) = s.step(Event::UserLookup(Ok(Some(user("secret1", false)))));
    let (s, _) = s.step(Event::RedisChecked(true));
    assert_eq!(text(&s.step(Event::RedisLocked(RedisLink::LockPoisoned("poisoned lock".to_string()))).1), (Status::InternalServerError, "poisoned lock".to_string()));
}

fn reset_body(otp: &str, password: &str) -> ForgotOtpVerriyStruct {
    ForgotOtpVerriyStruct { email: "ann@example.com".to_string(), otp: otp.to_string(), password: password.to_string() }
}

#[test]
fn password_reset_with_the_stored_code() {
    let (s, _) = auth_forgot_send_otp(reset_body("123456", "newpass1"));
    let (s, _) = s.step(Event::DbConnected(Ok(())));
    let (s, a) = s.step(Event::UserLookup(Ok(Some(user("oldpass1", false)))));
    assert!(matches!(a, Action::LockRedis));
    let (s, a) = s.step(Event::RedisLocked(RedisLink::Ready));
    assert!(matches!(a, Action::GetOtp { ref key } if key == "forgot-otp-ann@example.com"));
    let (s, a) = s.step(Event::OtpFetched(Some(RedisOtp { otp: "123456".to_string(), count: 2 })));
    match &a {
        Action::UpdatePassword { user, hashed } => {
            assert_eq!(user.id, 3);
            assert_eq!(password_matches(&"newpass1".to_string(), hashed), Some(true));
        },
        other => panic!("{:?}", other),
    }
    let (s, a) = s.step(Event::PasswordUpdated(Ok(())));
    assert!(matches!(a, Action::DeleteKey { ref key } if key == "forgot-otp-ann@example.com"));
    assert_eq!(text(&s.step(Event::KeyDeleted(Err("gone".to_string()))).1), (Status::Success, "OK".to_string()));
}

#[test]
fn password_reset_refusals() {
    let (_, a) = auth_forgot_send_otp(reset_body("1", "newpass1"));
    assert!(matches!(a, Action::Respond(Reply { status: Status::BadRequest, body: Body::Invalid(ref p, _) }) if p == "Validation error: "));
    let (s, _) = auth_forgot_send_otp(reset_body("123456", "newpass1"));
    assert_eq!(text(&s.step(Event::DbConnected(Err("down".to_string()))).1), (Status::InternalServerError, "db connection error: down".to_string()));
    let (s, _) = auth_forgot_send_otp(reset_body("123456", "newpass1"));
    let (s, _) = s.step(Event::DbConnected(Ok(())));
    assert_eq!(text(&s.step(Event::UserLookup(Ok(Some(user("newpass1", false))))).1), (Status::Conflict, "same password".to_string()));
    let (s, _) = auth_forgot_send_otp(reset_body("123456", "newpass1"));
    let (s, _) = s.step(Event::DbConnected(Ok(())));
    assert_eq!(text(&s.step(Event::UserLookup(Ok(Some(user("oldpass1", true))))).1), (Status::AlreadyReported, "already verified".to_string()));
    let (s, _) = auth_forgot_send_otp(reset_body("123456", "newpass1"));
    let (s, _) = s.step(Event::DbConnected(Ok(())));
    let (s, _) = s.step(Event::UserLookup(Ok(Some(user("oldpass1", false)))));
    let (s, _) = s.step(Event::RedisLocked(RedisLink::Ready));
    assert_eq!(text(&s.step(Event::OtpFetched(Some(RedisOtp { otp: "654321".to_string(), count: 2 }))).1), (Status::Unauthorized, "Invalid OTP or expired".to_string()));
    let (s, _) = auth_forgot_send_otp(reset_body("123456", "newpass1"));
    let (s, _) = s.step(Event::DbConnected(Ok(())));
    let (s, _) = s.step(Event::UserLookup(Ok(Some(user("oldpass1", false)))));
    let (s, _) = s.step(Event::RedisLocked(RedisLink::Ready));
    assert_eq!(text(&s.step(Event::OtpFetched(None)).1), (Status::Gone, "OTP expired or not found".to_string()));
}

fn now() -> u64 {
    std::time::SystemTime::now().duration_since(std::time::UNIX_EPOCH).unwrap().as_secs()
}

fn token_claims() -> UserModelToken {
    UserModelToken { id: 3, image: String::new(), email: "ann@example.com".to_string(), role: "user".to_string(), verified: true, username: "ann".to_string(), exp: 0 }
}

#[test]
fn token_renewal() {
    let (s, a) = auth_access_token(JwtToken { token: "T".to_string() });
    assert!(matches!(a, Action::ConnectDb));
    let (s, a) = s.step(Event::DbConnected(Ok(())));
    assert!(matches!(a, Action::DecodeToken { ref token } if token == "T"));
    let (s, a) = s.step(Event::TokenDecoded(Ok(token_claims())));
    assert!(matches!(a, Action::FindUser { ref email } if email == "ann@example.com"));
    let (s, a) = s.step(Event::UserLookup(Ok(Some(user("secret1", true)))));
    assert!(matches!(a, Action::ReadSecret));
    let (status, token) = text(&s.step(Event::SecretRead("secret".to_string())).1);
    assert_eq!(status, Status::Success);
    let claims: serde_json::Value = serde_json::from_str(&token_decoder(&token, "secret").unwrap()).unwrap();
    assert_eq!(claims["email"], "ann@example.com");
    assert_eq!(claims["id"], 3);
    assert!(claims["exp"].as_u64().unwrap() >= now() + 7 * 86400);
    assert!(claims["exp"].as_u64().unwrap() <= now() + 7 * 86400 + 5);

    let (s, _) = auth_refresh_token(JwtToken { token: "T".to_string() });
    let (s, _) = s.step(Event::DbConnected(Ok(())));
    let (s, _) = s.step(Event::TokenDecoded(Ok(token_claims())));
    let (s, _) = s.step(Event::UserLookup(Ok(Some(user("secret1", true)))));
    let (_, token) = text(&s.step(Event::SecretRead("secret".to_string())).1);
    let claims: serde_json::Value = serde_json::from_str(&token_decoder(&token, "secret").unwrap()).unwrap();
    assert!(claims["exp"].as_u64().unwrap() >= now() + 30 * 86400);
    assert!(claims["exp"].as_u64().unwrap() <= now() + 30 * 86400 + 5);

    let (s, _) = auth_access_token(JwtToken { token: "T".to_string() });
    let (s, _) = s.step(Event::DbConnected(Ok(())));
    assert_eq!(empty(&s.step(Event::TokenDecoded(Err("bad".to_string()))).1), Status::BadGateway);
    let (s, _) = auth_refresh_token(JwtToken { token: "T".to_string() });
    let (s, _) = s.step(Event::DbConnected(Ok(())));
    assert_eq!(empty(&s.step(Event::TokenDecoded(Err("bad".to_string()))).1), Status::InternalServerError);
    let (s, _) = auth_refresh_token(JwtToken { token: "T".to_string() });
    let (s, _) = s.step(Event::DbConnected(Ok(())));
    let (s, _) = s.step(Event::TokenDecoded(Ok(token_claims())));
    assert_eq!(text(&s.step(Event::UserLookup(Ok(None))).1), (Status::NotFound, "User not found".to_string()));
}

#[test]
fn code_check_looks_at_the_redis_connection() {
    let (s, a) = auth_verify_otp();
    assert!(matches!(a, Action::LockRedis));
    assert_eq!(empty(&s.step(Event::RedisLocked(RedisLink::Ready)).1), Status::Success);
    let (s, _) = auth_verify_otp();
    assert_eq!(empty(&s.step(Event::RedisLocked(RedisLink::Unavailable("false".to_string()))).1), Status::InternalServerError);
}

#[test]
fn signed_up_password_then_logs_in() {
    let (s, _) = signup(signup_body());
    let (s, _) = s.step(Event::DbConnected(Ok(())));
    let (_, a) = s.step(Event::UserLookup(Ok(None)));
    let row = match a {
        Action::InsertUser { row } => row,
        other => panic!("{:?}", other),
    };
    let mut stored = user("unused1", false);
    stored.password = row.password.clone();
    let (s, _) = auth_login(login_body("secret1"));
    let (s, _) = s.step(Event::DbConnected(Ok(())));
    let (_, a) = s.step(Event::UserLookup(Ok(Some(stored))));
    assert!(matches!(a, Action::ReadSecret));
}

#[test]
fn reset_password_then_logs_in() {
    let (s, _) = auth_forgot_send_otp(reset_body("123456", "newpass1"));
    let (s, _) = s.step(Event::DbConnected(Ok(())));
    let (s, _) = s.step(Event::UserLookup(Ok(Some(user("oldpass1", false)))));
    let (s, _) = s.step(Event::RedisLocked(RedisLink::Ready));
    let (_, a) = s.step(Event::OtpFetched(Some(RedisOtp { otp: "123456".to_string(), count: 2 })));
    let hashed = match a {
        Action::UpdatePassword { hashed, .. } => hashed,
        other => panic!("{:?}", other),
    };
    let mut stored = user("oldpass1", false);
    stored.password = hashed;
    let (s, _) = auth_login(login_body("newpass1"));
    let (s, _) = s.step(Event::DbConnected(Ok(())));
    let (_, a) = s.step(Event::UserLookup(Ok(Some(stored))));
    assert!(matches!(a, Action::ReadSecret));
}

#[test]
fn session_login_answers_signed_session_tokens() {
    let (s, _) = auth_login(login_body("secret1"));
    let (s, _) = s.step(Event::DbConnected(Ok(())));
    let (s, _) = s.step(Event::UserLookup(Ok(Some(user("secret1", true)))));
    let (_, a) = s.step(Event::SecretRead("secret".to_string()));
    let (access, refresh) = match a {
        Action::Respond(Reply { status: Status::Success, body: Body::Tokens { access_token, refresh_token } }) => (access_token, refresh_token),
        other => panic!("{:?}", other),
    };
    let a: serde_json::Value = serde_json::from_str(&token_decoder(&access, "secret").unwrap()).unwrap();
    let r: serde_json::Value = serde_json::from_str(&token_decoder(&refresh, "secret").unwrap()).unwrap();
    for c in [&a, &r] {
        assert_eq!(c["id"], 3);
        assert_eq!(c["image"], "me.png");
        assert_eq!(c["email"], "ann@example.com");
        assert_eq!(c["role"], "user");
        assert_eq!(c["verified"], true);
        assert_eq!(c["username"], "ann");
        assert!(c.get("password").is_none());
    }
    let n = now();
    assert!(a["exp"].as_u64().unwrap() >= n - 5 + 7 * 86400 && a["exp"].as_u64().unwrap() <= n + 7 * 86400);
    assert!(r["exp"].as_u64().unwrap() >= n - 5 + 30 * 86400 && r["exp"].as_u64().unwrap() <= n + 30 * 86400);
    assert!(token_decoder(&access, "other").is_err());
}
