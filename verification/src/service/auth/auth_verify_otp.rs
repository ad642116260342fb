use vstd::prelude::*;

use crate::exchange::{answers_empty, empty_reply, Action, Event, RedisLink, Status};

verus! {

/// The stages of the code check: it only looks at the Redis connection.
#[derive(Debug)]
pub enum VerifyOtp {
    /// Waiting for the Redis lock.
    Locking,
    /// Answered.
    Done,
}

/// Starts the code check: asks for the Redis lock.
pub fn auth_verify_otp() -> (r: (VerifyOtp, Action))
    ensures
        r.0 is Locking,
        r.1 is LockRedis,
{
    (VerifyOtp::Locking, Action::LockRedis)
}

impl VerifyOtp {
    /// The outcome this stage waits for.
    pub open spec fn expects(self, ev: Event) -> bool {
        match self {
            VerifyOtp::Locking => ev is RedisLocked,
            VerifyOtp::Done => false,
        }
    }

    /// Whether this stage waits for `ev`.
    pub fn accepts(&self, ev: &Event) -> (r: bool)
        ensures
            r == self.expects(*ev),
    {
        match self {
            VerifyOtp::Locking => matches!(ev, Event::RedisLocked(_)),
            VerifyOtp::Done => false,
        }
    }

    /// Answers 200 where the Redis connection is there, 500 otherwise.
    pub fn step(self, ev: Event) -> (r: (VerifyOtp, Action))
        requires
            self.expects(ev),
        ensures
            r.0 is Done,
            ev matches Event::RedisLocked(link) && (link is Ready ==> answers_empty(r.1, Status::Success))
                && (!(link is Ready) ==> answers_empty(r.1, Status::InternalServerError)),
    {
        match ev {
            Event::RedisLocked(RedisLink::Ready) => (VerifyOtp::Done, Action::Respond(empty_reply(Status::Success))),
            _ => (VerifyOtp::Done, Action::Respond(empty_reply(Status::InternalServerError))),
        }
    }
}

} // verus!
