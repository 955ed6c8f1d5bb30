//! Points in time and the waits between them.
//!
//! A point in time is a number of nanoseconds on a clock that never runs backwards, counted from
//! an arbitrary origin.

use vstd::prelude::*;

verus! {

/// Nanoseconds in a second.
pub const NANOS_PER_SEC: u128 = 1_000_000_000;

/// The nanoseconds from `since` to `now`, or zero where `since` is the later of the two.
pub open spec fn elapsed(since: u128, now: u128) -> int {
    if now >= since {
        now - since
    } else {
        0
    }
}

/// Whether `secs` seconds have gone by since `last`, or `last` never happened.
pub open spec fn spec_waited(last: Option<u128>, now: u128, secs: u64) -> bool {
    match last {
        Some(since) => elapsed(since, now) >= secs * NANOS_PER_SEC,
        None => true,
    }
}

/// Whether `secs` seconds have gone by since `last`, or `last` never happened.
pub fn waited(last: Option<u128>, now: u128, secs: u64) -> (over: bool)
    ensures
        over == spec_waited(last, now, secs),
{
    match last {
        Some(since) => {
            let gone: u128 = if now >= since {
                now - since
            } else {
                0
            };
            assert(secs * NANOS_PER_SEC <= u64::MAX * NANOS_PER_SEC) by (nonlinear_arith)
                requires
                    secs <= u64::MAX,
                    NANOS_PER_SEC == 1_000_000_000,
            ;
            gone >= secs as u128 * NANOS_PER_SEC
        },
        None => true,
    }
}

/// Whether each of `times` comes at least `gap` nanoseconds after `since`, where that happened.
pub open spec fn all_after(times: Seq<u128>, since: Option<u128>, gap: int) -> bool {
    since matches Some(since) ==> forall|i: int|
        0 <= i < times.len() ==> #[trigger] times[i] - since >= gap
}

/// Whether each of `times` comes at least `gap` nanoseconds after every one before it.
pub open spec fn spaced(times: Seq<u128>, gap: int) -> bool {
    forall|i: int, j: int|
        0 <= i < j < times.len() ==> #[trigger] times[j] - #[trigger] times[i] >= gap
}

/// A time in front of times that are spaced and all come after it leaves them spaced.
pub proof fn lemma_spaced_with_first(first: u128, later: Seq<u128>, gap: int)
    requires
        spaced(later, gap),
        all_after(later, Some(first), gap),
    ensures
        spaced(seq![first] + later, gap),
{
    let times = seq![first] + later;
    assert forall|i: int, j: int| 0 <= i < j < times.len() implies #[trigger] times[j]
        - #[trigger] times[i] >= gap by {
        assert(times[j] == later[j - 1]);
        if i > 0 {
            assert(times[i] == later[i - 1]);
        }
    }
}

/// A time in front of times that all come after it is itself the first to come after `since`.
pub proof fn lemma_all_after_with_first(
    first: u128,
    later: Seq<u128>,
    since: Option<u128>,
    gap: int,
)
    requires
        gap >= 0,
        all_after(later, Some(first), gap),
        since matches Some(since) ==> first - since >= gap,
    ensures
        all_after(seq![first] + later, since, gap),
{
    let times = seq![first] + later;
    assert forall|i: int| 0 <= i < times.len() && since is Some implies #[trigger] times[i]
        - since->0 >= gap by {
        if i > 0 {
            assert(times[i] == later[i - 1]);
        }
    }
}

/// A wait is over when it never began, or when at least so many times a billion nanoseconds lie
/// between its beginning and now. Before its beginning only a wait of no length is over.
pub proof fn law_wait_is_over(last: Option<u128>, now: u128, secs: u64)
    ensures
        last is None ==> spec_waited(last, now, secs),
        last is Some && now >= last->0 ==> (spec_waited(last, now, secs) <==> now - last->0 >= secs
            * 1_000_000_000),
        last is Some && now < last->0 ==> (spec_waited(last, now, secs) <==> secs == 0),
{
}

} // verus!
