use vstd::prelude::*;

use crate::exchange::Rejection;

verus! {

/// The work the connection guard asks for, or its decision.
#[derive(PartialEq, Eq, Structural, Clone, Copy, Debug)]
pub enum GuardAction {
    /// Check the Redis connection; answered by `RedisChecked`.
    CheckRedis,
    /// Check the database connection; answered by `DbChecked`.
    CheckDb,
    /// Let the request through.
    Proceed,
    /// Turn the request away.
    Reject(Rejection),
}

/// The outcome of a check.
#[derive(PartialEq, Eq, Structural, Clone, Copy, Debug)]
pub enum GuardEvent {
    RedisChecked(bool),
    DbChecked(bool),
}

/// The stage and action after the outcome `ev`.
pub open spec fn guard_next(ev: GuardEvent) -> (DbGuard, GuardAction) {
    match ev {
        GuardEvent::RedisChecked(true) => (DbGuard::CheckingDb, GuardAction::CheckDb),
        GuardEvent::DbChecked(true) => (DbGuard::Done, GuardAction::Proceed),
        _ => (DbGuard::Done, GuardAction::Reject(Rejection::InternalServerError)),
    }
}

/// The stages of the connection guard.
#[derive(PartialEq, Eq, Structural, Clone, Copy, Debug)]
pub enum DbGuard {
    /// Waiting for the Redis check.
    CheckingRedis,
    /// Waiting for the database check.
    CheckingDb,
    /// Decided.
    Done,
}

/// Starts the connection guard: Redis is checked first.
pub fn db_con_middleware() -> (r: (DbGuard, GuardAction))
    ensures
        r == (DbGuard::CheckingRedis, GuardAction::CheckRedis),
{
    (DbGuard::CheckingRedis, GuardAction::CheckRedis)
}

impl DbGuard {
    /// The outcome this stage waits for.
    pub open spec fn expects(self, ev: GuardEvent) -> bool {
        match self {
            DbGuard::CheckingRedis => ev is RedisChecked,
            DbGuard::CheckingDb => ev is DbChecked,
            DbGuard::Done => false,
        }
    }

    /// Whether this stage waits for `ev`.
    pub fn accepts(&self, ev: &GuardEvent) -> (r: bool)
        ensures
            r == self.expects(*ev),
    {
        match self {
            DbGuard::CheckingRedis => matches!(ev, GuardEvent::RedisChecked(_)),
            DbGuard::CheckingDb => matches!(ev, GuardEvent::DbChecked(_)),
            DbGuard::Done => false,
        }
    }

    /// A failed check turns the request away with 500; a passed Redis check
    /// leads to the database check, a passed database check lets the request
    /// through.
    pub fn step(self, ev: GuardEvent) -> (r: (DbGuard, GuardAction))
        requires
            self.expects(ev),
        ensures
            r == guard_next(ev),
    {
        match ev {
            GuardEvent::RedisChecked(true) => (DbGuard::CheckingDb, GuardAction::CheckDb),
            GuardEvent::DbChecked(true) => (DbGuard::Done, GuardAction::Proceed),
            _ => (DbGuard::Done, GuardAction::Reject(Rejection::InternalServerError)),
        }
    }
}

/// A request gets through the guard exactly when both connections are up:
/// from the first stage, the Redis outcome `redis_up` and then (where the
/// database is asked about) the outcome `db_up` end in `Proceed` iff both hold,
/// and otherwise in a 500 rejection.
pub proof fn lemma_guard_passes_iff_both_up(redis_up: bool, db_up: bool)
    ensures
        ({
            let first = guard_next(GuardEvent::RedisChecked(redis_up));
            let last = if first.1 == GuardAction::CheckDb {
                guard_next(GuardEvent::DbChecked(db_up)).1
            } else {
                first.1
            };
            &&& (last == GuardAction::Proceed) <==> (redis_up && db_up)
            &&& (last != GuardAction::Proceed) ==> last == GuardAction::Reject(Rejection::InternalServerError)
        }),
{
}

/// The guard's stage always waits for the outcome of the check it asks for,
/// and is done once it decides: where the guard asks for the database check,
/// its stage accepts that check's outcome (and no other); where it lets the
/// request through or turns it away, its stage accepts nothing more. So a
/// request while both connections are up is taken stage by stage through the
/// Redis check and the database check to `Proceed`.
pub proof fn lemma_guard_stage_follows_its_action(ev: GuardEvent, redis_up: bool, db_up: bool)
    ensures
        guard_next(ev).1 == GuardAction::CheckDb ==> guard_next(ev).0.expects(GuardEvent::DbChecked(db_up))
            && !guard_next(ev).0.expects(GuardEvent::RedisChecked(redis_up)),
        guard_next(ev).1 == GuardAction::CheckRedis ==> guard_next(ev).0.expects(GuardEvent::RedisChecked(redis_up)),
        (guard_next(ev).1 == GuardAction::Proceed || guard_next(ev).1 is Reject) ==> !guard_next(ev).0.expects(
            GuardEvent::RedisChecked(redis_up),
        ) && !guard_next(ev).0.expects(GuardEvent::DbChecked(db_up)),
        DbGuard::CheckingRedis.expects(GuardEvent::RedisChecked(redis_up)),
        redis_up ==> guard_next(GuardEvent::RedisChecked(redis_up)).0.expects(GuardEvent::DbChecked(db_up)),
        redis_up && db_up ==> guard_next(GuardEvent::DbChecked(db_up)).1 == GuardAction::Proceed,
{
}

} // verus!
