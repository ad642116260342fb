use backend::connection::dbconection::{check_db_status, check_rdb_status, SlotAction, SlotCheck, SlotEvent};
use backend::exchange::Rejection;
use backend::middleware::authmiddleware::{auth_middleware, matches_bearer};
use backend::middleware::db_conn_middleware::{db_con_middleware, DbGuard, GuardAction, GuardEvent};
use backend::middleware::user_auth_middleware::{accept_claims, accept_claims_now, bearer_token, user_auth_middleware, user_check, UserCheck, UserCheckAction};
use backend::model::claims::session_claims_text;
use backend::model::users::UserModelToken;
use backend::service::token::access_token;

fn claims(exp: usize) -> UserModelToken {
    UserModelToken {
        id: 1,
        image: String::new(),
        email: "ann@example.com".to_string(),
        role: "user".to_string(),
        verified: true,
        username: "ann".to_string(),
        exp,
    }
}

#[test]
fn bearer_header_rule() {
    assert_eq!(auth_middleware(None), Err(Rejection::Unauthorized));
    assert_eq!(auth_middleware(Some("Bearer abc")), Ok(()));
    assert_eq!(auth_middleware(Some("Bearerabc")), Ok(()));
    assert_eq!(auth_middleware(Some("bearer abc")), Err(Rejection::Unauthorized));
    assert_eq!(auth_middleware(Some("Basic abc")), Err(Rejection::Unauthorized));
    assert_eq!(auth_middleware(Some(" Bearer abc")), Err(Rejection::Unauthorized));
    assert!(!matches_bearer(""));
}

#[test]
fn token_from_header() {
    assert_eq!(bearer_token(Some("Bearer abc.def.ghi")), Ok("abc.def.ghi".to_string()));
    assert_eq!(bearer_token(Some("Bearer Bearer x")), Ok("x".to_string()));
    assert_eq!(bearer_token(Some("Token x")), Err(Rejection::Unauthorized));
    assert_eq!(bearer_token(None), Err(Rejection::Unauthorized));
}

#[test]
fn expiry_rule() {
    assert_eq!(accept_claims(Err("bad".to_string()), 100).unwrap_err(), Rejection::Unauthorized);
    assert_eq!(accept_claims(Ok(claims(99)), 100).unwrap_err(), Rejection::Gone);
    assert_eq!(accept_claims(Ok(claims(100)), 100).unwrap().exp, 100);
    assert_eq!(accept_claims_now(Ok(claims(1))).unwrap_err(), Rejection::Gone);
    assert_eq!(accept_claims_now(Ok(claims(usize::MAX))).unwrap().exp, usize::MAX);
    assert_eq!(accept_claims_now(Err(String::new())).unwrap_err(), Rejection::Unauthorized);
}

#[test]
fn user_check_decodes_the_bearer_token() {
    let now = std::time::SystemTime::now().duration_since(std::time::UNIX_EPOCH).unwrap().as_secs();
    let c = format!("{{\"email\":\"ann@example.com\",\"exp\":{}}}", now + 600);
    let token = access_token(&c, "k");
    let header = format!("Bearer {}", token);
    assert_eq!(user_auth_middleware(Some(&header), "k"), Ok(c));
    assert_eq!(user_auth_middleware(Some(&header), "other"), Err(Rejection::Unauthorized));
    assert_eq!(user_auth_middleware(Some(&token), "k"), Err(Rejection::Unauthorized));
}

#[test]
fn connection_guard() {
    let (s, a) = db_con_middleware();
    assert_eq!((s, a), (DbGuard::CheckingRedis, GuardAction::CheckRedis));
    assert_eq!(s.step(GuardEvent::RedisChecked(false)), (DbGuard::Done, GuardAction::Reject(Rejection::InternalServerError)));
    let (s, a) = s.step(GuardEvent::RedisChecked(true));
    assert_eq!(a, GuardAction::CheckDb);
    assert_eq!(s.step(GuardEvent::DbChecked(true)), (DbGuard::Done, GuardAction::Proceed));
    assert_eq!(s.step(GuardEvent::DbChecked(false)).1, GuardAction::Reject(Rejection::InternalServerError));
}

#[test]
fn connection_slots() {
    assert_eq!(check_db_status(true), (SlotCheck::Done, SlotAction::Answer(true)));
    let (s, a) = check_db_status(false);
    assert_eq!(a, SlotAction::Connect);
    assert_eq!(s.step(SlotEvent::Connected(false)), (SlotCheck::Done, SlotAction::Answer(false)));
    let (s2, a2) = s.step(SlotEvent::Connected(true));
    assert_eq!(a2, SlotAction::Store);
    assert_eq!(s2.step(SlotEvent::Connected(true)), (SlotCheck::Done, SlotAction::Answer(true)));

    let (p, a) = check_rdb_status(true);
    assert_eq!(a, SlotAction::Ping);
    assert_eq!(p.step(SlotEvent::Pinged(true)), (SlotCheck::Done, SlotAction::Answer(true)));
    assert_eq!(p.step(SlotEvent::Pinged(false)), (SlotCheck::Connecting, SlotAction::Connect));
    assert_eq!(check_rdb_status(false), (SlotCheck::Connecting, SlotAction::Connect));
}

#[test]
fn user_check_admits_live_tokens_and_turns_away_expired_ones() {
    let now = std::time::SystemTime::now().duration_since(std::time::UNIX_EPOCH).unwrap().as_secs() as usize;
    let run = |exp: usize| {
        let token = access_token(&session_claims_text(&claims(exp)), "k");
        let header = format!("Bearer {}", token);
        let (stage, action) = user_check(Some(&header), "k");
        match action {
            UserCheckAction::ReadClaims(text) => {
                assert!(matches!(stage, UserCheck::Reading));
                assert_eq!(text, session_claims_text(&claims(exp)));
                stage.claims_read(Ok(claims(exp))).1
            }
            other => other,
        }
    };
    assert!(matches!(run(now + 600), UserCheckAction::Admit(ref c) if c.exp == now + 600));
    // within the decoder's minute of leeway, but past its expiry: 410
    assert!(matches!(run(now - 30), UserCheckAction::Reject(Rejection::Gone)));
    // long past its expiry: the decoder refuses it, 401
    assert!(matches!(run(now - 3600), UserCheckAction::Reject(Rejection::Unauthorized)));
    assert!(matches!(user_check(None, "k").1, UserCheckAction::Reject(Rejection::Unauthorized)));
    let (stage, _) = user_check(Some(&format!("Bearer {}", access_token(&session_claims_text(&claims(now + 600)), "k"))), "k");
    assert!(matches!(stage.claims_read(Err("not claims".to_string())).1, UserCheckAction::Reject(Rejection::Unauthorized)));
}
