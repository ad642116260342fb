use backend::service::auth::password::{hash_password, password_matches};

#[test]
fn hash_then_verify() {
    let pw = "correct horse".to_string();
    let h = hash_password(&pw).expect("hash");
    assert_ne!(h, pw);
    assert!(h.starts_with("$2b$12$"));
    assert_eq!(password_matches(&pw, &h), Some(true));
    assert_eq!(password_matches(&"wrong horse".to_string(), &h), Some(false));
}

#[test]
fn unreadable_hash() {
    assert_eq!(password_matches(&"pw".to_string(), &"not a hash".to_string()), None);
}
