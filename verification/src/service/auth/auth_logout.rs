use vstd::prelude::*;

use crate::exchange::{text_reply, Body, Reply, Status};

pub use crate::service::auth::auth::{LoginBody, SignupBody, Token};

verus! {

/// The answer of the log-out placeholder: 200 `Hello logout!`.
pub fn auth_logout() -> (r: Reply)
    ensures
        r.status == Status::Success,
        r.body matches Body::Text(t) && t@ == "Hello logout!"@,
{
    text_reply(Status::Success, String::from_str("Hello logout!"))
}

} // verus!
