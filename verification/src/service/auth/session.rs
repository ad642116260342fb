use vstd::prelude::*;

verus! {

/// Seconds an OTP session lives in Redis.
pub const OTP_TTL_SECONDS: u64 = 300;

/// The request count that a send sees: that of the stored session, or 1 where
/// no session is stored (or it cannot be read).
pub open spec fn seen_count(prev: Option<u8>) -> nat {
    match prev {
        Some(c) => c as nat,
        None => 1,
    }
}

/// The count that a send stores, or `None` where the send is refused because
/// the count it sees is above `max_count`.
pub open spec fn next_count_spec(prev: Option<u8>, max_count: u8) -> Option<u8> {
    if seen_count(prev) > max_count {
        None
    } else {
        Some((seen_count(prev) + 1) as u8)
    }
}

/// Throttles OTP sends: a send that sees a count above `max_count` is refused,
/// any other stores the count it sees plus one.
pub fn next_count(prev: Option<u8>, max_count: u8) -> (r: Option<u8>)
    requires
        max_count < 255,
    ensures
        r == next_count_spec(prev, max_count),
{
    let seen: u8 = match prev {
        Some(c) => c,
        None => 1,
    };
    if seen > max_count {
        None
    } else {
        Some(seen + 1)
    }
}

/// The session count stored after `n` sends in a row that were all accepted,
/// starting from no session (`None` before the first).
pub open spec fn stored_after(n: nat) -> Option<u8> {
    if n == 0 {
        None
    } else {
        Some((n + 1) as u8)
    }
}

/// A stored count never exceeds `max_count + 1`: a send keeps any session that
/// respects that bound within it.
pub proof fn lemma_count_bounded(prev: Option<u8>, max_count: u8)
    requires
        max_count < 255,
        prev matches Some(c) ==> c <= max_count + 1,
    ensures
        next_count_spec(prev, max_count) matches Some(c) ==> 1 <= c <= max_count + 1,
{
}

/// Starting from no session, with every accepted send stored, the `n`-th send in
/// a row (counting from 1) is accepted exactly when `n <= max_count`, and then
/// stores the count `n + 1`.
pub proof fn lemma_sends_in_a_row(n: nat, max_count: u8)
    requires
        1 <= n,
        1 <= max_count < 255,
        n <= max_count + 1,
    ensures
        next_count_spec(stored_after((n - 1) as nat), max_count) == (if n <= max_count {
            stored_after(n)
        } else {
            None
        }),
{
}

/// A session freshly stored by a log-in or sign-up (count 0) lets the next
/// send of either kind through, which stores the count 1.
pub proof fn lemma_fresh_session_then_send(max_count: u8)
    requires
        max_count < 255,
    ensures
        next_count_spec(Some(0u8), max_count) == Some(1u8),
{
}

/// What the store holds for a key after the send that saw `counts[i]`: the
/// count it stored, or the count it saw where it was refused.
pub open spec fn run_step(counts: Seq<Option<u8>>, max_count: u8, i: int) -> bool {
    counts[i + 1] == match next_count_spec(counts[i], max_count) {
        Some(c) => Some(c),
        None => counts[i],
    }
}

/// `counts` are the counts a key holds before each send of a run and after the
/// last: none before the first, and each send leaves what `run_step` says.
pub open spec fn count_run(counts: Seq<Option<u8>>, max_count: u8) -> bool {
    &&& counts.len() >= 1
    &&& counts[0] is None
    &&& forall|i: int| 0 <= i < counts.len() - 1 ==> #[trigger] run_step(counts, max_count, i)
}

/// In such a run the key holds no count before the first send, and `k + 1`
/// after `k` sends, but never more than `max_count + 1`.
pub proof fn lemma_count_run(counts: Seq<Option<u8>>, max_count: u8, k: int)
    requires
        count_run(counts, max_count),
        1 <= max_count < 255,
        0 <= k < counts.len(),
    ensures
        k == 0 ==> counts[k] is None,
        k > 0 ==> counts[k] == Some((if k <= max_count { k + 1 } else { max_count + 1 }) as u8),
    decreases k,
{
    if k > 0 {
        lemma_count_run(counts, max_count, k - 1);
        assert(run_step(counts, max_count, k - 1));
    }
}

/// In a run of sends for one key, starting with nothing stored and with every
/// accepted send stored, the send number `k` (counting from 0) is accepted
/// exactly when `k < max_count`, and then stores the count `k + 2`; every later
/// send is refused.
pub proof fn lemma_sends_of_a_run(counts: Seq<Option<u8>>, max_count: u8, k: int)
    requires
        count_run(counts, max_count),
        1 <= max_count < 255,
        0 <= k < counts.len(),
    ensures
        next_count_spec(counts[k], max_count) == (if k < max_count {
            Some((k + 2) as u8)
        } else {
            None::<u8>
        }),
{
    lemma_count_run(counts, max_count, k);
}

/// The send limit refuses only counts above it: a send that finds a stored
/// count `c` no larger than `max_count` is accepted and stores `c + 1`, whatever
/// run of sends led there; one that finds a larger count is refused; one that
/// finds nothing stored stores 2. An accepted send always stores more than it
/// found.
pub proof fn lemma_send_limit_by_count(max_count: u8)
    requires
        max_count < 255,
    ensures
        forall|c: u8| c <= max_count ==> #[trigger] next_count_spec(Some(c), max_count) == Some((c + 1) as u8),
        forall|c: u8| c > max_count ==> #[trigger] next_count_spec(Some(c), max_count) is None,
        next_count_spec(None, max_count) == (if max_count >= 1 {
            Some(2u8)
        } else {
            None::<u8>
        }),
        forall|prev: Option<u8>|
            #[trigger] next_count_spec(prev, max_count) matches Some(n) ==> (prev matches Some(c) ==> n > c),
{
}

} // verus!
