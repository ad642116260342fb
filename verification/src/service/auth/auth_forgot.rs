use vstd::prelude::*;

use crate::exchange::{Body, Reply, Status};

pub use crate::service::auth::auth_forgot_send_otp::SendOtp;

verus! {

/// Echoes the request: 200 with `{"email": ..}`.
pub fn auth_forgot(req_body: SendOtp) -> (r: Reply)
    ensures
        r == (Reply { status: Status::Success, body: Body::EmailEcho(req_body.email) }),
{
    Reply { status: Status::Success, body: Body::EmailEcho(req_body.email) }
}

} // verus!
