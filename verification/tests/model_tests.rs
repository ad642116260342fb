use backend::model::claims::{record_claims_text, session_claims_text};
use backend::model::users::{access_claims, claims_at, refresh_claims, without_password, NaiveTimestamp, UserModel, UserModelToken};

fn user() -> UserModel {
    UserModel {
        id: 9,
        image: "i.png".to_string(),
        email: "ann@example.com".to_string(),
        role: "user".to_string(),
        verified: false,
        password: "$2b$12$hash".to_string(),
        username: "ann".to_string(),
        created_at: NaiveTimestamp { secs: 1_700_000_000, nanos: 5 },
    }
}

#[test]
fn claims_expire_after_the_given_days() {
    let u = user();
    let c = claims_at(&u, 1_700_000_000, 7);
    assert_eq!(c.exp, 1_700_604_800);
    assert_eq!(c.id, 9);
    assert_eq!(c.email, "ann@example.com");
    assert_eq!(c.username, "ann");
    assert!(!c.verified);
    assert_eq!(claims_at(&u, 1_700_000_000, 30).exp, 1_702_592_000);
}

#[test]
fn claims_from_the_clock() {
    let now = std::time::SystemTime::now().duration_since(std::time::UNIX_EPOCH).unwrap().as_secs() as usize;
    let a = access_claims(&user()).unwrap();
    let r = refresh_claims(&user()).unwrap();
    assert!(a.exp >= now + 7 * 86400 && a.exp <= now + 7 * 86400 + 5);
    assert!(r.exp >= now + 30 * 86400 && r.exp <= now + 30 * 86400 + 5);
    assert_eq!(a.role, "user");
}

#[test]
fn record_without_its_hash() {
    let r = without_password(&user());
    assert_eq!(r.password, "");
    assert_eq!(r.created_at, NaiveTimestamp { secs: 1_700_000_000, nanos: 5 });
    assert_eq!(r.image, "i.png");
}

#[test]
fn session_claims_as_json() {
    let c = UserModelToken {
        id: -4,
        image: "a\"b\\c\n\u{1}é".to_string(),
        email: "ann@example.com".to_string(),
        role: "user".to_string(),
        verified: true,
        username: "ann".to_string(),
        exp: 1_700_604_800,
    };
    let text = session_claims_text(&c);
    assert_eq!(
        text,
        "{\"id\":-4,\"image\":\"a\\\"b\\\\c\\n\\u0001é\",\"email\":\"ann@example.com\",\"role\":\"user\",\"verified\":true,\"username\":\"ann\",\"exp\":1700604800}"
    );
    let v: serde_json::Value = serde_json::from_str(&text).unwrap();
    assert_eq!(v["image"], "a\"b\\c\n\u{1}é");
    assert_eq!(v["exp"], 1_700_604_800u64);
}

#[test]
fn record_as_json() {
    let r = without_password(&user());
    assert_eq!(
        record_claims_text(&r).unwrap(),
        "{\"id\":9,\"image\":\"i.png\",\"email\":\"ann@example.com\",\"role\":\"user\",\"verified\":false,\"password\":\"\",\"username\":\"ann\",\"created_at\":\"2023-11-14T22:13:20.000000005\"}"
    );
    let mut late = r;
    late.created_at = NaiveTimestamp { secs: i64::MAX, nanos: 0 };
    assert!(record_claims_text(&late).is_none());
}
