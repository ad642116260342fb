use vstd::prelude::*;

use crate::exchange::Rejection;
use crate::middleware::authmiddleware::{is_bearer, matches_bearer};
use crate::model::users::{earliest_utc_timestamp, latest_utc_timestamp, utc_timestamp, UserModelToken};
use crate::service::token::{jwt_checked_claims, token_decoder};
use crate::text::{replace_all, replaced};

verus! {

/// The token of an authorization header: the header with every `Bearer `
/// removed.
pub open spec fn header_token(header: Seq<char>) -> Seq<char> {
    replaced(header, "Bearer "@, Seq::empty())
}

/// The token a request presents: its `Authorization` header, which must start
/// with `Bearer` (else 401), with every `Bearer ` removed.
pub fn bearer_token(header: Option<&str>) -> (r: Result<String, Rejection>)
    ensures
        r is Ok <==> (header matches Some(h) && is_bearer(h@)),
        r matches Ok(t) ==> header matches Some(h) && t@ == header_token(h@),
        r matches Err(e) ==> e == Rejection::Unauthorized,
{
    match header {
        Some(h) => {
            if matches_bearer(h) {
                proof {
                    reveal_strlit("Bearer ");
                    reveal_strlit("");
                }
                let t = replace_all(h, "Bearer ", "");
                assert(""@ =~= Seq::<char>::empty());
                Ok(t)
            } else {
                Err(Rejection::Unauthorized)
            }
        },
        None => Err(Rejection::Unauthorized),
    }
}

/// The first part of the user check: the request's `Authorization` header
/// must start with `Bearer` and the token in it (every `Bearer ` removed) must
/// decode with `secret`; either failure turns the request away 401. Gives the
/// token's claims as JSON text: those the token carries, where it passes every
/// check of the decoder (the expiry too).
pub fn user_auth_middleware(header: Option<&str>, secret: &str) -> (r: Result<String, Rejection>)
    ensures
        !(header matches Some(h) && is_bearer(h@)) ==> r == Err::<String, Rejection>(Rejection::Unauthorized),
        r matches Ok(c) ==> header matches Some(h) && is_bearer(h@) && jwt_checked_claims(
            header_token(h@),
            secret@,
        ) == Some(c@),
        header matches Some(h) && is_bearer(h@) && jwt_checked_claims(header_token(h@), secret@) is None
            ==> r == Err::<String, Rejection>(Rejection::Unauthorized),
        r matches Err(e) ==> e == Rejection::Unauthorized,
{
    let token = match bearer_token(header) {
        Ok(t) => t,
        Err(e) => {
            return Err(e);
        },
    };
    match token_decoder(token.as_str(), secret) {
        Ok(claims) => Ok(claims),
        Err(_) => Err(Rejection::Unauthorized),
    }
}

/// What `accept_claims` answers for the claims `decoded` at time `now`.
pub open spec fn accepted_claims(decoded: Result<UserModelToken, String>, now: usize) -> Result<
    UserModelToken,
    Rejection,
> {
    match decoded {
        Err(_) => Err(Rejection::Unauthorized),
        Ok(c) => if c.exp < now {
            Err(Rejection::Gone)
        } else {
            Ok(c)
        },
    }
}

/// Accepts the claims of a decoded token at time `now` (seconds since the
/// epoch): a token that did not decode is turned away 401, one whose `exp` is
/// before `now` is turned away 410.
pub fn accept_claims(decoded: Result<UserModelToken, String>, now: usize) -> (r: Result<UserModelToken, Rejection>)
    ensures
        r == accepted_claims(decoded, now),
{
    match decoded {
        Err(_) => Err(Rejection::Unauthorized),
        Ok(c) => {
            if c.exp < now {
                Err(Rejection::Gone)
            } else {
                Ok(c)
            }
        },
    }
}

/// The acceptance of decoded claims looks at the expiry alone: claims are let
/// through, unchanged, exactly when their `exp` is not before `now`, whatever
/// else they say (role, verified flag); they are turned away 410 exactly when
/// `exp` is before `now`, and 401 exactly when the token did not decode. Two
/// claims with the same expiry get the same verdict.
pub proof fn lemma_acceptance_by_expiry_alone(
    decoded: Result<UserModelToken, String>,
    c1: UserModelToken,
    c2: UserModelToken,
    now: usize,
)
    ensures
        (accepted_claims(decoded, now) is Ok) <==> (decoded is Ok && decoded->Ok_0.exp >= now),
        accepted_claims(decoded, now) is Ok ==> accepted_claims(decoded, now)->Ok_0 == decoded->Ok_0,
        (accepted_claims(decoded, now) == Err::<UserModelToken, Rejection>(Rejection::Gone)) <==> (decoded is Ok
            && decoded->Ok_0.exp < now),
        (accepted_claims(decoded, now) == Err::<UserModelToken, Rejection>(Rejection::Unauthorized)) <==> (
        decoded is Err),
        c1.exp == c2.exp ==> (accepted_claims(Ok(c1), now) is Ok) == (accepted_claims(Ok(c2), now) is Ok),
{
}

/// Accepts the claims of a decoded token now: reads the clock once and then
/// decides as `accept_claims` does at that time.
pub fn accept_claims_now(decoded: Result<UserModelToken, String>) -> (r: Result<UserModelToken, Rejection>)
    ensures
        exists|now: i64|
            earliest_utc_timestamp() <= now <= latest_utc_timestamp() && r == #[trigger] accepted_claims(
                decoded,
                now as usize,
            ),
{
    let now_secs = utc_timestamp();
    let now: usize = now_secs as usize;
    let r = accept_claims(decoded, now);
    assert(r == accepted_claims(decoded, now_secs as usize));
    r
}

/// The stages of the user check of a request.
#[derive(Debug)]
pub enum UserCheck {
    /// Waiting for the claims of the token to be read as session claims.
    Reading,
    /// Decided.
    Done,
}

/// What the user check asks for next, or what it decided.
#[derive(Debug)]
pub enum UserCheckAction {
    /// Read the JSON text of the token's claims as session claims; answered
    /// with `claims_read`.
    ReadClaims(String),
    /// Turn the request away.
    Reject(Rejection),
    /// Let the request through; the claims of its token.
    Admit(UserModelToken),
}

/// Starts the user check of a request whose `Authorization` header is
/// `header`: a header that is missing or does not start with `Bearer`, or whose
/// token does not pass the decoder's checks with `secret`, is turned away 401;
/// otherwise the token's claims text is to be read.
pub fn user_check(header: Option<&str>, secret: &str) -> (r: (UserCheck, UserCheckAction))
    ensures
        !(header matches Some(h) && is_bearer(h@)) ==> r.0 is Done && r.1 == UserCheckAction::Reject(
            Rejection::Unauthorized,
        ),
        header matches Some(h) && is_bearer(h@) && jwt_checked_claims(header_token(h@), secret@) is None
            ==> r.0 is Done && r.1 == UserCheckAction::Reject(Rejection::Unauthorized),
        r.1 is ReadClaims ==> r.0 is Reading,
        r.1 matches UserCheckAction::ReadClaims(t) ==> header matches Some(h) && is_bearer(h@)
            && jwt_checked_claims(header_token(h@), secret@) == Some(t@),
        r.1 matches UserCheckAction::Reject(e) ==> r.0 is Done && e == Rejection::Unauthorized,
        !(r.1 is Admit),
{
    match user_auth_middleware(header, secret) {
        Ok(claims) => (UserCheck::Reading, UserCheckAction::ReadClaims(claims)),
        Err(e) => (UserCheck::Done, UserCheckAction::Reject(e)),
    }
}

/// What the user check decides for the claims `parsed` at time `now`: claims
/// that could not be read are turned away 401, expired ones 410, others let
/// through.
pub open spec fn check_decision(parsed: Result<UserModelToken, String>, now: usize) -> UserCheckAction {
    match accepted_claims(parsed, now) {
        Ok(c) => UserCheckAction::Admit(c),
        Err(e) => UserCheckAction::Reject(e),
    }
}

impl UserCheck {
    /// Goes on with the claims read from the token (`parsed`): reads the clock
    /// once and decides as `accept_claims` does at that time.
    pub fn claims_read(self, parsed: Result<UserModelToken, String>) -> (r: (UserCheck, UserCheckAction))
        requires
            self is Reading,
        ensures
            r.0 is Done,
            exists|now: i64|
                earliest_utc_timestamp() <= now <= latest_utc_timestamp() && r.1 == #[trigger] check_decision(
                    parsed,
                    now as usize,
                ),
    {
        let a = accept_claims_now(parsed);
        let ghost now = choose|now: i64|
            earliest_utc_timestamp() <= now <= latest_utc_timestamp() && a == #[trigger] accepted_claims(
                parsed,
                now as usize,
            );
        let action = match a {
            Ok(c) => UserCheckAction::Admit(c),
            Err(e) => UserCheckAction::Reject(e),
        };
        assert(action == check_decision(parsed, now as usize));
        (UserCheck::Done, action)
    }
}

} // verus!
