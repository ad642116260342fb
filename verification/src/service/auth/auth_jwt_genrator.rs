use vstd::prelude::*;

use crate::exchange::{
    answers_empty, answers_text, empty_reply, text_reply, Action, Body, Event, Status, TokenKind,
};
use crate::model::users::{UserModel, ACCESS_TOKEN_DAYS, REFRESH_TOKEN_DAYS};
use crate::service::token::{session_access_token, session_refresh_token, session_token_issued};

verus! {

/// A request that carries a token.
#[derive(Debug)]
pub struct JwtToken {
    pub token: String,
}

/// The stages of issuing a new token from a presented one: an access token
/// (`AccessOnly`) or a refresh token (`RefreshOnly`) over the session claims of
/// the user the presented token names.
#[derive(Debug)]
pub enum JwtIssue {
    /// Waiting for the database connection.
    Connecting(TokenKind, JwtToken),
    /// Waiting for the presented token to be checked.
    Decoding(TokenKind),
    /// Waiting for the user lookup.
    Looking(TokenKind),
    /// Waiting for the signing secret; the user found.
    Signing(TokenKind, UserModel),
    /// Answered.
    Done,
}

/// Starts issuing a new access token: asks for a database connection.
pub fn auth_access_token(req_body: JwtToken) -> (r: (JwtIssue, Action))
    ensures
        r.0 == JwtIssue::Connecting(TokenKind::AccessOnly, req_body),
        r.1 is ConnectDb,
{
    (JwtIssue::Connecting(TokenKind::AccessOnly, req_body), Action::ConnectDb)
}

/// Starts issuing a new refresh token: asks for a database connection.
pub fn auth_refresh_token(req_body: JwtToken) -> (r: (JwtIssue, Action))
    ensures
        r.0 == JwtIssue::Connecting(TokenKind::RefreshOnly, req_body),
        r.1 is ConnectDb,
{
    (JwtIssue::Connecting(TokenKind::RefreshOnly, req_body), Action::ConnectDb)
}

/// Days the token of kind `k` lives.
pub open spec fn token_days(k: TokenKind) -> i64 {
    match k {
        TokenKind::AccessOnly => ACCESS_TOKEN_DAYS,
        TokenKind::RefreshOnly => REFRESH_TOKEN_DAYS,
    }
}

impl JwtIssue {
    /// The outcome this stage waits for.
    pub open spec fn expects(self, ev: Event) -> bool {
        match self {
            JwtIssue::Connecting(_, _) => ev is DbConnected,
            JwtIssue::Decoding(_) => ev is TokenDecoded,
            JwtIssue::Looking(_) => ev is UserLookup,
            JwtIssue::Signing(_, _) => ev is SecretRead,
            JwtIssue::Done => false,
        }
    }

    /// Whether this stage waits for `ev`.
    pub fn accepts(&self, ev: &Event) -> (r: bool)
        ensures
            r == self.expects(*ev),
    {
        match self {
            JwtIssue::Connecting(_, _) => matches!(ev, Event::DbConnected(_)),
            JwtIssue::Decoding(_) => matches!(ev, Event::TokenDecoded(_)),
            JwtIssue::Looking(_) => matches!(ev, Event::UserLookup(_)),
            JwtIssue::Signing(_, _) => matches!(ev, Event::SecretRead(_)),
            JwtIssue::Done => false,
        }
    }

    /// The relation between this stage, the outcome `ev` and the next stage
    /// and action `r` that `step` gives.
    pub open spec fn transition(self, ev: Event, r: (JwtIssue, Action)) -> bool {
        match (self, ev) {
            (JwtIssue::Connecting(k, req), Event::DbConnected(res)) => match res {
                Err(_) => r.0 is Done && answers_empty(r.1, Status::InternalServerError),
                Ok(_) => r.0 == JwtIssue::Decoding(k) && r.1 == Action::DecodeToken { token: req.token },
            },
            (JwtIssue::Decoding(k), Event::TokenDecoded(res)) => match res {
                Err(_) => r.0 is Done && answers_empty(
                    r.1,
                    if k == TokenKind::AccessOnly {
                        Status::BadGateway
                    } else {
                        Status::InternalServerError
                    },
                ),
                Ok(claims) => r.0 == JwtIssue::Looking(k) && r.1 == Action::FindUser { email: claims.email },
            },
            (JwtIssue::Looking(k), Event::UserLookup(res)) => match res {
                Err(_) => r.0 is Done && answers_empty(r.1, Status::InternalServerError),
                Ok(None) => r.0 is Done && answers_text(r.1, Status::NotFound, "User not found"@),
                Ok(Some(u)) => r.0 == JwtIssue::Signing(k, u) && r.1 is ReadSecret,
            },
            (JwtIssue::Signing(k, u), Event::SecretRead(secret)) => {
                &&& r.0 is Done
                &&& r.1 matches Action::Respond(rep)
                &&& rep.status == Status::Success
                &&& rep.body matches Body::Text(t)
                &&& session_token_issued(t@, u, token_days(k), secret@)
            },
            _ => false,
        }
    }

    /// Moves on with the outcome `ev` of the last action: the presented token
    /// must decode (else 502 for an access token, 500 for a refresh token), its
    /// e-mail must name a user (else 404), and a new token over that user's
    /// session claims, signed with the secret read, is answered as text.
    pub fn step(self, ev: Event) -> (r: (JwtIssue, Action))
        requires
            self.expects(ev),
        ensures
            self.transition(ev, r),
    {
        match (self, ev) {
            (JwtIssue::Connecting(k, req), Event::DbConnected(res)) => match res {
                Err(_) => (JwtIssue::Done, Action::Respond(empty_reply(Status::InternalServerError))),
                Ok(_) => (JwtIssue::Decoding(k), Action::DecodeToken { token: req.token }),
            },
            (JwtIssue::Decoding(k), Event::TokenDecoded(res)) => match res {
                Err(_) => {
                    let status = match k {
                        TokenKind::AccessOnly => Status::BadGateway,
                        _ => Status::InternalServerError,
                    };
                    (JwtIssue::Done, Action::Respond(empty_reply(status)))
                },
                Ok(claims) => (JwtIssue::Looking(k), Action::FindUser { email: claims.email }),
            },
            (JwtIssue::Looking(k), Event::UserLookup(res)) => match res {
                Err(_) => (JwtIssue::Done, Action::Respond(empty_reply(Status::InternalServerError))),
                Ok(None) => (
                    JwtIssue::Done,
                    Action::Respond(text_reply(Status::NotFound, String::from_str("User not found"))),
                ),
                Ok(Some(u)) => (JwtIssue::Signing(k, u), Action::ReadSecret),
            },
            (JwtIssue::Signing(k, u), Event::SecretRead(secret)) => {
                let token = match k {
                    TokenKind::AccessOnly => session_access_token(&u, secret.as_str()),
                    TokenKind::RefreshOnly => session_refresh_token(&u, secret.as_str()),
                };
                (JwtIssue::Done, Action::Respond(text_reply(Status::Success, token)))
            },
            _ => (JwtIssue::Done, Action::Respond(empty_reply(Status::InternalServerError))),
        }
    }
}

} // verus!
