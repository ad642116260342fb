use backend::exchange::{Field, FieldError, Rule};
use backend::service::auth::auth::{LoginBody, SignupBody};
use backend::service::auth::auth_forgot_send_otp::SendOtp;
use backend::service::auth::auth_verify_forgot_otp::ForgotOtpVerriyStruct;
use backend::validate::{is_valid_email, length_ok};
use backend::service::auth::auth_signup::SignupBody as MobSignup;

fn err(field: Field, rule: Rule, value: &str) -> FieldError {
    FieldError { field, rule, value: value.to_string() }
}

fn length(min: Option<u64>, max: Option<u64>) -> Rule {
    Rule::Length { min, max }
}

#[test]
fn email_rule() {
    assert!(is_valid_email(&"user@example.com".to_string()));
    assert!(!is_valid_email(&"no-at-sign".to_string()));
    assert!(!is_valid_email(&"".to_string()));
    assert!(!is_valid_email(&"a@".to_string()));
}

#[test]
fn length_rule_counts_characters() {
    assert!(length_ok(&"ñññññ1".to_string(), Some(6), None));
    assert!(!length_ok(&"ñññññ".to_string(), Some(6), None));
    assert!(length_ok(&"x".repeat(32), Some(6), Some(32)));
    assert!(!length_ok(&"x".repeat(33), Some(6), Some(32)));
    assert!(length_ok(&"".to_string(), None, None));
}

#[test]
fn signup_body_rules_in_field_order() {
    let good = SignupBody {
        image: None,
        username: "ann".to_string(),
        password: "secret1".to_string(),
        email: "ann@example.com".to_string(),
    };
    assert!(good.validate().is_ok());
    let bad = SignupBody {
        image: Some(String::new()),
        username: String::new(),
        password: "123".to_string(),
        email: "nope".to_string(),
    };
    assert_eq!(
        bad.validate().unwrap_err(),
        vec![
            err(Field::Image, length(Some(1), None), ""),
            err(Field::Username, length(Some(1), None), ""),
            err(Field::Password, length(Some(6), Some(32)), "123"),
            err(Field::Email, Rule::Email, "nope"),
        ]
    );
}

#[test]
fn login_body_rules() {
    let body = LoginBody { email: "a@b.io".to_string(), password: "12345".to_string(), exp: None };
    assert_eq!(body.validate().unwrap_err(), vec![err(Field::Password, length(Some(6), None), "12345")]);
    let body = LoginBody { email: "a@b.io".to_string(), password: "123456".to_string(), exp: None };
    assert!(body.validate().is_ok());
}

#[test]
fn send_otp_and_reset_rules() {
    assert!(SendOtp { email: "a@b.io".to_string() }.validate().is_ok());
    assert_eq!(
        SendOtp { email: "ab.io".to_string() }.validate().unwrap_err(),
        vec![err(Field::Email, Rule::Email, "ab.io")]
    );
    let reset = ForgotOtpVerriyStruct {
        email: "a@b.io".to_string(),
        otp: "12345".to_string(),
        password: "x".repeat(37),
    };
    assert_eq!(
        reset.validate().unwrap_err(),
        vec![err(Field::Otp, length(Some(6), Some(6)), "12345"), err(Field::Password, length(Some(6), Some(36)), &"x".repeat(37))]
    );
}

#[test]
fn signup_with_mobile_number() {
    let body = MobSignup {
        image: Some("pic.png".to_string()),
        username: "ann".to_string(),
        password: "secret1".to_string(),
        email: "ann@example.com".to_string(),
        mob: "12345".to_string(),
    };
    assert_eq!(body.validate().unwrap_err(), vec![err(Field::Mob, length(Some(10), Some(10)), "12345")]);
}
