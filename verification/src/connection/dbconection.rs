use vstd::prelude::*;

verus! {

/// The work a connection check asks for, or its answer.
#[derive(PartialEq, Eq, Structural, Clone, Copy, Debug)]
pub enum SlotAction {
    /// Ask the held connection whether it is alive; answered by `Pinged`.
    Ping,
    /// Open a new connection; answered by `Connected`.
    Connect,
    /// Put the connection just opened in the slot.
    Store,
    /// The check is over: whether a usable connection is in the slot.
    Answer(bool),
}

/// The outcome of a ping or of an attempt to connect.
#[derive(PartialEq, Eq, Structural, Clone, Copy, Debug)]
pub enum SlotEvent {
    Pinged(bool),
    Connected(bool),
}

/// The stages of checking a shared connection slot.
#[derive(PartialEq, Eq, Structural, Clone, Copy, Debug)]
pub enum SlotCheck {
    /// Waiting for the ping of the held connection.
    Pinging,
    /// Waiting for a new connection.
    Connecting,
    /// Waiting for the new connection to be stored.
    Storing,
    /// Answered.
    Done,
}

/// The first stage of the database check.
pub open spec fn db_start(held: bool) -> (SlotCheck, SlotAction) {
    if held {
        (SlotCheck::Done, SlotAction::Answer(true))
    } else {
        (SlotCheck::Connecting, SlotAction::Connect)
    }
}

/// The first stage of the Redis check.
pub open spec fn rdb_start(held: bool) -> (SlotCheck, SlotAction) {
    if held {
        (SlotCheck::Pinging, SlotAction::Ping)
    } else {
        (SlotCheck::Connecting, SlotAction::Connect)
    }
}

/// The stage and action after `ev` in stage `s`.
pub open spec fn slot_next(s: SlotCheck, ev: SlotEvent) -> (SlotCheck, SlotAction) {
    match (s, ev) {
        (SlotCheck::Pinging, SlotEvent::Pinged(true)) => (SlotCheck::Done, SlotAction::Answer(true)),
        (SlotCheck::Pinging, _) => (SlotCheck::Connecting, SlotAction::Connect),
        (SlotCheck::Connecting, SlotEvent::Connected(true)) => (SlotCheck::Storing, SlotAction::Store),
        (SlotCheck::Connecting, _) => (SlotCheck::Done, SlotAction::Answer(false)),
        _ => (SlotCheck::Done, SlotAction::Answer(true)),
    }
}

/// Starts the database check: a held connection is kept as it is (it is not
/// pinged); an empty slot asks for a connection.
pub fn check_db_status(held: bool) -> (r: (SlotCheck, SlotAction))
    ensures
        r == db_start(held),
{
    if held {
        (SlotCheck::Done, SlotAction::Answer(true))
    } else {
        (SlotCheck::Connecting, SlotAction::Connect)
    }
}

/// Starts the Redis check: a held connection is pinged first; an empty slot
/// asks for a connection.
pub fn check_rdb_status(held: bool) -> (r: (SlotCheck, SlotAction))
    ensures
        r == rdb_start(held),
{
    if held {
        (SlotCheck::Pinging, SlotAction::Ping)
    } else {
        (SlotCheck::Connecting, SlotAction::Connect)
    }
}

impl SlotCheck {
    /// The outcome this stage waits for (`Storing` waits for none: storing
    /// cannot fail, and it is acknowledged with `Connected(true)`).
    pub open spec fn expects(self, ev: SlotEvent) -> bool {
        match self {
            SlotCheck::Pinging => ev is Pinged,
            SlotCheck::Connecting => ev is Connected,
            SlotCheck::Storing => ev == SlotEvent::Connected(true),
            SlotCheck::Done => false,
        }
    }

    /// Whether this stage waits for `ev`.
    pub fn accepts(&self, ev: &SlotEvent) -> (r: bool)
        ensures
            r == self.expects(*ev),
    {
        match self {
            SlotCheck::Pinging => matches!(ev, SlotEvent::Pinged(_)),
            SlotCheck::Connecting => matches!(ev, SlotEvent::Connected(_)),
            SlotCheck::Storing => matches!(ev, SlotEvent::Connected(true)),
            SlotCheck::Done => false,
        }
    }

    /// A live held connection answers `true`; a dead one leads to a new
    /// connection; a new connection is stored and answers `true`; a failed
    /// attempt answers `false` and leaves the slot as it was.
    pub fn step(self, ev: SlotEvent) -> (r: (SlotCheck, SlotAction))
        requires
            self.expects(ev),
        ensures
            r == slot_next(self, ev),
    {
        match (self, ev) {
            (SlotCheck::Pinging, SlotEvent::Pinged(true)) => (SlotCheck::Done, SlotAction::Answer(true)),
            (SlotCheck::Pinging, _) => (SlotCheck::Connecting, SlotAction::Connect),
            (SlotCheck::Connecting, SlotEvent::Connected(true)) => (SlotCheck::Storing, SlotAction::Store),
            (SlotCheck::Connecting, _) => (SlotCheck::Done, SlotAction::Answer(false)),
            _ => (SlotCheck::Done, SlotAction::Answer(true)),
        }
    }
}

/// Runs a check from `start` to its answer, the ping (where one is asked)
/// giving `alive` and the attempt to connect (where one is made) giving
/// `opened`: the answer, and whether a new connection was stored.
pub open spec fn run_check(start: (SlotCheck, SlotAction), alive: bool, opened: bool) -> (bool, bool) {
    let after_ping = if start.1 == SlotAction::Ping {
        slot_next(start.0, SlotEvent::Pinged(alive))
    } else {
        start
    };
    let after_connect = if after_ping.1 == SlotAction::Connect {
        slot_next(after_ping.0, SlotEvent::Connected(opened))
    } else {
        after_ping
    };
    if after_connect.1 == SlotAction::Store {
        (slot_next(after_connect.0, SlotEvent::Connected(true)).1 == SlotAction::Answer(true), true)
    } else {
        (after_connect.1 == SlotAction::Answer(true), false)
    }
}

/// The Redis check answers `true` iff the held connection is alive or a new one
/// was opened; the database check answers `true` iff a connection was held or
/// a new one was opened. A new connection is stored exactly when one was
/// opened, which is never over a live one.
pub proof fn lemma_check_answers(held: bool, alive: bool, opened: bool)
    ensures
        run_check(rdb_start(held), alive, opened) == ((held && alive) || opened && !(held && alive), !(
        held && alive) && opened),
        run_check(db_start(held), alive, opened) == (held || opened, !held && opened),
{
}

/// Whether the slot holds a connection after a check that started with
/// `held` and stored a new connection or not.
pub open spec fn filled_after(held: bool, check: (bool, bool)) -> bool {
    held || check.1
}

/// Over a run of checks of the Redis slot, each starting from what the last
/// left (`held[i]`, with the ping giving `alive[i]` and the attempt to connect
/// giving `opened[i]`): once the slot holds a connection it keeps one, and a
/// check that answered `true` leaves it filled.
pub proof fn lemma_slot_stays_filled(held: Seq<bool>, alive: Seq<bool>, opened: Seq<bool>, k: int, j: int)
    requires
        held.len() == alive.len() + 1,
        opened.len() == alive.len(),
        forall|i: int|
            0 <= i < alive.len() ==> held[i + 1] == filled_after(
                held[i],
                #[trigger] run_check(rdb_start(held[i]), alive[i], opened[i]),
            ),
        0 <= k <= j < held.len(),
        held[k],
    ensures
        held[j],
        j < alive.len() ==> (run_check(rdb_start(held[j]), alive[j], opened[j]).0 ==> held[j + 1]),
    decreases j - k,
{
    lemma_check_answers(held[j], if j < alive.len() { alive[j] } else { false }, if j < alive.len() {
        opened[j]
    } else {
        false
    });
    if j > k {
        lemma_slot_stays_filled(held, alive, opened, k, j - 1);
        lemma_check_answers(held[j - 1], alive[j - 1], opened[j - 1]);
        assert(held[j] == filled_after(held[j - 1], run_check(rdb_start(held[j - 1]), alive[j - 1], opened[j - 1])));
    }
    if j < alive.len() {
        assert(held[j + 1] == filled_after(held[j], run_check(rdb_start(held[j]), alive[j], opened[j])));
    }
}

} // verus!
