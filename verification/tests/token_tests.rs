use backend::service::token::{access_token, refresh_token, token_decoder};

fn claims(exp: i64) -> String {
    format!(
        "{{\"id\":7,\"image\":\"\",\"email\":\"ann@example.com\",\"role\":\"user\",\"verified\":true,\"username\":\"ann\",\"exp\":{}}}",
        exp
    )
}

fn now() -> i64 {
    std::time::SystemTime::now().duration_since(std::time::UNIX_EPOCH).unwrap().as_secs() as i64
}

#[test]
fn issued_token_is_a_signed_jwt() {
    let c = claims(now() + 3600);
    let t = access_token(&c, "secret");
    assert_ne!(t, c);
    assert_eq!(t.split('.').count(), 3);
    assert_eq!(t, refresh_token(&c, "secret"));
    assert_ne!(t, access_token(&c, "other"));
}

#[test]
fn claims_that_are_not_json_give_no_token() {
    assert_eq!(access_token("{not json", "secret"), "");
    assert_eq!(refresh_token("", "secret"), "");
}

#[test]
fn decode_gives_back_the_claims() {
    let c = claims(now() + 3600);
    let t = access_token(&c, "secret");
    assert_eq!(token_decoder(&t, "secret"), Ok(c));
}

#[test]
fn decode_refuses_wrong_secret_and_expired_tokens() {
    let t = access_token(&claims(now() + 3600), "secret");
    let e = token_decoder(&t, "other").unwrap_err();
    assert!(e.starts_with("Unable To Decode Token "));
    let old = access_token(&claims(now() - 3600), "secret");
    assert!(token_decoder(&old, "secret").unwrap_err().starts_with("Unable To Decode Token "));
    assert!(token_decoder("garbage", "secret").is_err());
}

#[test]
fn a_token_that_passes_every_other_check_is_refused_only_as_expired() {
    let old = access_token(&claims(now() - 3600), "secret");
    assert_eq!(
        token_decoder(&old, "secret").unwrap_err(),
        "Unable To Decode Token ExpiredSignature"
    );
    let fresh = access_token(&claims(now() + 3600), "secret");
    assert_eq!(token_decoder(&fresh, "other").unwrap_err(), "Unable To Decode Token InvalidSignature");
}
