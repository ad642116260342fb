use vstd::prelude::*;

use crate::exchange::{text_reply, Reply, Status};

verus! {

/// What the home page knows of a user.
#[derive(Debug)]
pub struct HomeService {
    pub username: String,
}

/// The user home page: 200 with the text `Home`.
pub fn user_home() -> (r: Reply)
    ensures
        r.status == Status::Success,
        r.body matches crate::exchange::Body::Text(t) && t@ == "Home"@,
{
    text_reply(Status::Success, String::from_str("Home"))
}

} // verus!
