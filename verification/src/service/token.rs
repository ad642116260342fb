use vstd::prelude::*;

use crate::model::claims::{
    is_session_claims_json, record_claims_text, record_json, session_claims_json, session_claims_text,
};
use crate::model::users::{
    access_claims, earliest_utc_timestamp, expiry_after, expiry_fits, latest_utc_timestamp, refresh_claims,
    session_claims, UserModel, ACCESS_TOKEN_DAYS, REFRESH_TOKEN_DAYS,
};

verus! {

/// A date and time in UTC (`chrono::DateTime<Utc>`): whole seconds since the
/// epoch and the nanoseconds past that second.
#[derive(PartialEq, Eq, Structural, Clone, Copy, Debug)]
pub struct UtcTimestamp {
    pub secs: i64,
    pub nanos: u32,
}

/// A token together with the time it expires.
#[derive(Debug)]
pub struct TokenStruct {
    pub token: String,
    pub exp: UtcTimestamp,
}

/// What `jsonwebtoken::encode` gives for the default header (HS256), the claims
/// `claims` (JSON text, written out as it is) and the secret `secret`: the
/// compact token, or `None` where the claims are not JSON or encoding fails.
pub uninterp spec fn jwt_encoding(claims: Seq<char>, secret: Seq<char>) -> Option<Seq<char>>;

/// Calls `jsonwebtoken::encode(&Header::default(), claims, &EncodingKey::from_secret(secret))`,
/// the claims being the JSON text `claims` taken as it is (`serde_json::value::RawValue`).
/// Trusted: the result is `jwt_encoding(claims@, secret@)`. For the JSON text of
/// session claims (an object, so `RawValue` takes it, whose `exp` is a whole
/// number and that has no `aud`) the encoding is made (an HMAC key and an HS256
/// header never fail), and `jsonwebtoken::decode` with the same secret and the
/// default validation passes every check but the clock's on the token and gives
/// back that text (the payload is the text as it was given).
#[verifier::external_body]
fn jwt_encode(claims: &str, secret: &str) -> (r: Option<String>)
    ensures
        match r {
            Some(t) => jwt_encoding(claims@, secret@) == Some(t@),
            None => jwt_encoding(claims@, secret@) is None,
        },
        is_session_claims_json(claims@) ==> r is Some,
        is_session_claims_json(claims@) ==> (r matches Some(t) ==> jwt_checked_claims(t@, secret@) == Some(claims@)),
{
    let raw = match serde_json::value::RawValue::from_string(claims.to_string()) {
        Ok(v) => v,
        Err(_) => return None,
    };
    jsonwebtoken::encode(
        &jsonwebtoken::Header::default(),
        &raw,
        &jsonwebtoken::EncodingKey::from_secret(secret.as_bytes()),
    ).ok()
}

/// The token that `access_token` and `refresh_token` give for these claims and
/// secret: the encoding, or the empty text where encoding fails.
pub open spec fn token_text(claims: Seq<char>, secret: Seq<char>) -> Seq<char> {
    match jwt_encoding(claims, secret) {
        Some(t) => t,
        None => Seq::empty(),
    }
}

/// Signs an access token over the JSON claims `claims` with `secret` (HS256);
/// the empty text where that fails.
pub fn access_token(claims: &str, secret: &str) -> (r: String)
    ensures
        r@ == token_text(claims@, secret@),
        is_session_claims_json(claims@) ==> jwt_encoding(claims@, secret@) == Some(r@)
            && jwt_checked_claims(r@, secret@) == Some(claims@),
{
    match jwt_encode(claims, secret) {
        Some(t) => t,
        None => String::new(),
    }
}

/// Signs a refresh token over the JSON claims `claims` with `secret` (HS256);
/// the empty text where that fails.
pub fn refresh_token(claims: &str, secret: &str) -> (r: String)
    ensures
        r@ == token_text(claims@, secret@),
        is_session_claims_json(claims@) ==> jwt_encoding(claims@, secret@) == Some(r@)
            && jwt_checked_claims(r@, secret@) == Some(claims@),
{
    match jwt_encode(claims, secret) {
        Some(t) => t,
        None => String::new(),
    }
}

/// What `jsonwebtoken::decode` with `DecodingKey::from_secret(secret)` and
/// `Validation::default()` accepts of `token` when its one comparison with the
/// clock (the `exp` claim against the current time) is left out: the claims as
/// raw JSON text where every other check passes (three dot-separated parts,
/// base64 and JSON of header and payload, algorithm HS256, signature, an `exp`
/// claim present, no `aud` claim), `None` where one of them fails.
pub uninterp spec fn jwt_checked_claims(token: Seq<char>, secret: Seq<char>) -> Option<Seq<char>>;

/// Calls `jsonwebtoken::decode` on `token` with `DecodingKey::from_secret(secret)`
/// and `Validation::default()`, the claims taken as raw JSON text, and gives
/// that text, or the error's message. Trusted: claims come back only as
/// `jwt_checked_claims` names them; where that is `None` the call fails; where it
/// is `Some`, the only failure left is the clock's, `ExpiredSignature`. Whether
/// an `exp` has passed is the machine's clock, and is left unsaid.
#[verifier::external_body]
fn jwt_decode(token: &str, secret: &str) -> (r: Result<String, String>)
    ensures
        r matches Ok(c) ==> jwt_checked_claims(token@, secret@) == Some(c@),
        jwt_checked_claims(token@, secret@) is None ==> r is Err,
        jwt_checked_claims(token@, secret@) is Some ==> (r matches Err(e) ==> e@
            == "ExpiredSignature"@),
{
    match jsonwebtoken::decode::<Box<serde_json::value::RawValue>>(
        token,
        &jsonwebtoken::DecodingKey::from_secret(secret.as_bytes()),
        &jsonwebtoken::Validation::default(),
    ) {
        Ok(data) => Ok(data.claims.get().to_string()),
        Err(e) => Err(e.to_string()),
    }
}

/// The error message of a token that does not decode.
pub open spec fn decode_error_text(detail: Seq<char>) -> Seq<char> {
    "Unable To Decode Token "@ + detail
}

/// Checks `token` (signature with `secret`, algorithm, expiry) and gives its
/// claims as JSON text, or an error message that names the reason. A token that
/// fails a check other than the expiry is refused; one that passes them gives
/// its claims, or is refused as expired.
pub fn token_decoder(token: &str, secret: &str) -> (r: Result<String, String>)
    ensures
        r matches Ok(c) ==> jwt_checked_claims(token@, secret@) == Some(c@),
        jwt_checked_claims(token@, secret@) is None ==> r is Err,
        jwt_checked_claims(token@, secret@) is Some ==> (r matches Err(m) ==> m@
            == decode_error_text("ExpiredSignature"@)),
        r matches Err(m) ==> exists|d: Seq<char>| m@ == #[trigger] decode_error_text(d),
{
    match jwt_decode(token, secret) {
        Ok(claims) => Ok(claims),
        Err(e) => {
            let m = crate::text::concat2("Unable To Decode Token ", e.as_str());
            assert(m@ == decode_error_text(e@));
            Err(m)
        },
    }
}

/// The session token of `user` issued at `now` (seconds since the epoch) that
/// lives `days` days, signed with `secret`.
pub open spec fn session_token_at(user: UserModel, now: i64, days: i64, secret: Seq<char>) -> Seq<char> {
    token_text(session_claims_json(session_claims(user, expiry_after(now, days))), secret)
}

/// `t` is a session token of `user` that lives `days` days, signed with
/// `secret` at some second of the clock: its claims are the user's session
/// claims with the expiry `days` days after that second, and the decoder with
/// `secret` gives those claims back (until the token expires).
pub open spec fn session_token_issued(t: Seq<char>, user: UserModel, days: i64, secret: Seq<char>) -> bool {
    exists|now: i64|
        {
            &&& earliest_utc_timestamp() <= now <= latest_utc_timestamp()
            &&& expiry_fits(now, days)
            &&& t == #[trigger] session_token_at(user, now, days, secret)
            &&& jwt_checked_claims(t, secret) == Some(
                session_claims_json(session_claims(user, expiry_after(now, days))),
            )
        }
}

/// An access token for `user`: session claims that expire seven days from now,
/// signed with `secret`.
pub fn session_access_token(user: &UserModel, secret: &str) -> (r: String)
    ensures
        session_token_issued(r@, *user, ACCESS_TOKEN_DAYS, secret@),
{
    match access_claims(user) {
        Some(c) => {
            let json = session_claims_text(&c);
            let t = access_token(json.as_str(), secret);
            let ghost now = choose|now: i64|
                earliest_utc_timestamp() <= now <= latest_utc_timestamp() && expiry_fits(
                    now,
                    ACCESS_TOKEN_DAYS,
                ) && c == #[trigger] session_claims(*user, expiry_after(now, ACCESS_TOKEN_DAYS));
            assert(t@ == session_token_at(*user, now, ACCESS_TOKEN_DAYS, secret@));
            t
        },
        None => String::new(),
    }
}

/// A refresh token for `user`: session claims that expire thirty days from
/// now, signed with `secret`.
pub fn session_refresh_token(user: &UserModel, secret: &str) -> (r: String)
    ensures
        session_token_issued(r@, *user, REFRESH_TOKEN_DAYS, secret@),
{
    match refresh_claims(user) {
        Some(c) => {
            let json = session_claims_text(&c);
            let t = refresh_token(json.as_str(), secret);
            let ghost now = choose|now: i64|
                earliest_utc_timestamp() <= now <= latest_utc_timestamp() && expiry_fits(
                    now,
                    REFRESH_TOKEN_DAYS,
                ) && c == #[trigger] session_claims(*user, expiry_after(now, REFRESH_TOKEN_DAYS));
            assert(t@ == session_token_at(*user, now, REFRESH_TOKEN_DAYS, secret@));
            t
        },
        None => String::new(),
    }
}

/// The token over the user record `u` signed with `secret`: the record's JSON
/// text signed, or the empty text where the record cannot be written or
/// signed.
pub open spec fn record_token_text(u: UserModel, secret: Seq<char>) -> Seq<char> {
    match record_json(u) {
        Some(j) => token_text(j, secret),
        None => Seq::empty(),
    }
}

/// The access and the refresh token over the user record `u`, signed with
/// `secret` (both carry the same claims, so they are the same text).
pub fn record_tokens(u: &UserModel, secret: &str) -> (r: (String, String))
    ensures
        r.0@ == record_token_text(*u, secret@),
        r.1@ == record_token_text(*u, secret@),
{
    match record_claims_text(u) {
        Some(json) => (access_token(json.as_str(), secret), refresh_token(json.as_str(), secret)),
        None => (String::new(), String::new()),
    }
}

} // verus!
