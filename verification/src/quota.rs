//! The daily request quota of a user.

use vstd::prelude::*;
use crate::records::{Timestamp, UserRecord};

verus! {

/// Length of the quota window, in nanoseconds.
pub open spec fn day_nanos() -> int {
    86_400_000_000_000
}

/// More than a day has passed from `since` to `now`.
pub open spec fn day_elapsed(since: Timestamp, now: Timestamp) -> bool {
    now.nanos_since_epoch() - since.nanos_since_epoch() > day_nanos()
}

/// What a request does to its user's quota.
#[derive(Debug, Clone, Copy, PartialEq, Eq, Structural)]
pub enum QuotaDecision {
    /// The user has no limit: the request passes and nothing is recorded.
    Unlimited,
    /// The last charge is more than a day old: the quota starts afresh and
    /// this request is charged to it, leaving `remain`.
    Refill { remain: i32 },
    /// The request is charged to the current quota, leaving `remain`.
    Consume { remain: i32 },
    /// Nothing is left of today's quota: the request is refused.
    Exceeded,
}

/// The quota rule: unlimited users pass; a user whose last charge is more
/// than a day old starts again from `max_query`; otherwise a request passes
/// while something remains. A limit of zero lets nothing through.
pub open spec fn quota_decision(user: UserRecord, now: Timestamp) -> QuotaDecision {
    if user.max_query < 0 {
        QuotaDecision::Unlimited
    } else if day_elapsed(user.reset_at, now) {
        if user.max_query > 0 {
            QuotaDecision::Refill { remain: (user.max_query - 1) as i32 }
        } else {
            QuotaDecision::Exceeded
        }
    } else if user.remain > 0 {
        QuotaDecision::Consume { remain: (user.remain - 1) as i32 }
    } else {
        QuotaDecision::Exceeded
    }
}

/// What a limited user has left for a request at `now`: the whole limit
/// once the last charge is more than a day old, else what remains.
pub open spec fn quota_left(user: UserRecord, now: Timestamp) -> int {
    if day_elapsed(user.reset_at, now) {
        user.max_query as int
    } else {
        user.remain as int
    }
}

/// Whether more than a day has passed from `since` to `now`.
pub fn more_than_a_day(since: &Timestamp, now: &Timestamp) -> (r: bool)
    ensures
        r == day_elapsed(*since, *now),
{
    let a: i128 = since.secs as i128 * 1_000_000_000i128 + since.nanos as i128;
    let b: i128 = now.secs as i128 * 1_000_000_000i128 + now.nanos as i128;
    b - a > 86_400_000_000_000i128
}

/// Applies the quota rule to a request made at `now`.
pub fn decide_quota(user: &UserRecord, now: &Timestamp) -> (d: QuotaDecision)
    ensures
        d == quota_decision(*user, *now),
        d is Exceeded <==> (user.max_query >= 0 && quota_left(*user, *now) <= 0),
{
    if user.max_query < 0 {
        QuotaDecision::Unlimited
    } else if more_than_a_day(&user.reset_at, now) {
        if user.max_query > 0 {
            QuotaDecision::Refill { remain: user.max_query - 1 }
        } else {
            QuotaDecision::Exceeded
        }
    } else if user.remain > 0 {
        QuotaDecision::Consume { remain: user.remain - 1 }
    } else {
        QuotaDecision::Exceeded
    }
}

/// The user as stored after being charged at `at`, with `remain` left.
pub open spec fn charged(user: UserRecord, remain: i32, at: Timestamp) -> UserRecord {
    UserRecord {
        id: user.id,
        username: user.username,
        remain: remain,
        max_query: user.max_query,
        reset_at: at,
    }
}

/// The user as stored after a request judged at `now` whose charge, if
/// any, is recorded with the time `stored`.
pub open spec fn after_request_stored(user: UserRecord, now: Timestamp, stored: Timestamp) -> UserRecord {
    match quota_decision(user, now) {
        QuotaDecision::Refill { remain } => charged(user, remain, stored),
        QuotaDecision::Consume { remain } => charged(user, remain, stored),
        _ => user,
    }
}

/// The user as stored after a request at `now`, charged at `now`.
pub open spec fn after_request(user: UserRecord, now: Timestamp) -> UserRecord {
    after_request_stored(user, now, now)
}

/// How many of the requests made at `times`, in that order, are let through.
pub open spec fn admitted_count(user: UserRecord, times: Seq<Timestamp>) -> nat
    decreases times.len(),
{
    if times.len() == 0 {
        0
    } else {
        let rest = admitted_count(after_request(user, times[0]), times.drop_first());
        if quota_decision(user, times[0]) is Exceeded {
            rest
        } else {
            rest + 1
        }
    }
}

/// The times are in order and all fall within one day of `start`.
pub open spec fn within_one_window(start: Timestamp, times: Seq<Timestamp>) -> bool {
    &&& forall|i: int, j: int|
        0 <= i <= j < times.len() ==> #[trigger] times[i].nanos_since_epoch()
            <= #[trigger] times[j].nanos_since_epoch()
    &&& forall|i: int|
        0 <= i < times.len() ==> start.nanos_since_epoch() <= #[trigger] times[i].nanos_since_epoch()
            <= start.nanos_since_epoch() + day_nanos()
}

/// A user with a limit, making requests in order all within one day of
/// their last charge, gets exactly as many through as their remaining
/// quota allows, and never more.
pub proof fn lemma_quota_within_a_day(user: UserRecord, times: Seq<Timestamp>)
    requires
        user.max_query >= 0,
        within_one_window(user.reset_at, times),
    ensures
        admitted_count(user, times) == (if user.remain <= 0 {
            0
        } else if times.len() <= user.remain {
            times.len() as int
        } else {
            user.remain as int
        }),
    decreases times.len(),
{
    if times.len() > 0 {
        let t0 = times[0];
        let rest = times.drop_first();
        let next = after_request(user, t0);
        assert(!day_elapsed(user.reset_at, t0));
        assert forall|i: int, j: int|
            0 <= i <= j < rest.len() implies rest[i].nanos_since_epoch()
            <= rest[j].nanos_since_epoch() by {
            assert(rest[i] == times[i + 1]);
            assert(rest[j] == times[j + 1]);
        }
        assert forall|i: int|
            0 <= i < rest.len() implies next.reset_at.nanos_since_epoch()
            <= #[trigger] rest[i].nanos_since_epoch() <= next.reset_at.nanos_since_epoch()
            + day_nanos() by {
            assert(rest[i] == times[i + 1]);
            assert(times[0].nanos_since_epoch() <= times[i + 1].nanos_since_epoch());
        }
        lemma_quota_within_a_day(next, rest);
    }
}

/// A user without a limit gets every request through.
pub proof fn lemma_unlimited_always_admitted(user: UserRecord, times: Seq<Timestamp>)
    requires
        user.max_query < 0,
    ensures
        admitted_count(user, times) == times.len(),
    decreases times.len(),
{
    if times.len() > 0 {
        lemma_unlimited_always_admitted(after_request(user, times[0]), times.drop_first());
    }
}

/// A user with a limit of at least one whose last charge is more than a
/// day old is let through, and starts the new day with `max_query - 1`
/// left.
pub proof fn lemma_idle_user_refilled(user: UserRecord, now: Timestamp)
    requires
        user.max_query >= 1,
        day_elapsed(user.reset_at, now),
    ensures
        quota_decision(user, now) == (QuotaDecision::Refill { remain: (user.max_query - 1) as i32 }),
        after_request(user, now).remain == user.max_query - 1,
        after_request(user, now).reset_at == now,
{
}


/// The times are in order, earliest first.
pub open spec fn in_order(times: Seq<Timestamp>) -> bool {
    forall|i: int, j: int|
        0 <= i <= j < times.len() ==> #[trigger] times[i].nanos_since_epoch()
            <= #[trigger] times[j].nanos_since_epoch()
}

/// The user as stored after the first `n` of the requests judged at
/// `times`, the `i`-th charge being recorded with the time `stamps[i]`.
pub open spec fn user_after(user: UserRecord, times: Seq<Timestamp>, stamps: Seq<Timestamp>, n: nat) -> UserRecord
    decreases n,
{
    if n == 0 {
        user
    } else {
        after_request_stored(user_after(user, times, stamps, (n - 1) as nat), times[n - 1], stamps[n - 1])
    }
}

/// Whether the request judged at `times[i]` is let through.
pub open spec fn admitted_at(user: UserRecord, times: Seq<Timestamp>, stamps: Seq<Timestamp>, i: nat) -> bool {
    !(quota_decision(user_after(user, times, stamps, i), times[i as int]) is Exceeded)
}

/// Each charge is recorded with a time no earlier than the one its
/// request was judged at.
pub open spec fn stamped_no_earlier(times: Seq<Timestamp>, stamps: Seq<Timestamp>) -> bool {
    &&& stamps.len() == times.len()
    &&& forall|i: int|
        0 <= i < times.len() ==> times[i].nanos_since_epoch() <= #[trigger] stamps[i].nanos_since_epoch()
}

/// `x` falls within the day that begins at `start`, both ends included.
pub open spec fn in_day_from(x: Timestamp, start: Timestamp) -> bool {
    start.nanos_since_epoch() <= x.nanos_since_epoch() <= start.nanos_since_epoch() + day_nanos()
}

/// How many of the first `n` requests judged at `times` are let through
/// within the day that begins at `start`.
pub open spec fn admitted_in_day(
    user: UserRecord,
    times: Seq<Timestamp>,
    stamps: Seq<Timestamp>,
    start: Timestamp,
    n: nat,
) -> nat
    decreases n,
{
    if n == 0 {
        0
    } else {
        let before = admitted_in_day(user, times, stamps, start, (n - 1) as nat);
        if admitted_at(user, times, stamps, (n - 1) as nat) && in_day_from(times[n - 1], start) {
            before + 1
        } else {
            before
        }
    }
}

/// `x`, or zero when it is negative.
pub open spec fn nonneg(x: int) -> int {
    if x < 0 {
        0
    } else {
        x
    }
}

/// What holds after each prefix of the requests: the stored quota never
/// exceeds the limit, and, while the requests are still within the day
/// from `start`, the requests let through in it and what is left of the
/// quota together stay within the limit, the last charge being recorded
/// no earlier than `start`.
proof fn lemma_day_prefix(
    user: UserRecord,
    times: Seq<Timestamp>,
    stamps: Seq<Timestamp>,
    start: Timestamp,
    n: nat,
)
    requires
        user.max_query >= 0,
        user.remain <= user.max_query,
        in_order(times),
        stamped_no_earlier(times, stamps),
        n <= times.len(),
    ensures
        user_after(user, times, stamps, n).max_query == user.max_query,
        user_after(user, times, stamps, n).remain <= user.max_query,
        admitted_in_day(user, times, stamps, start, n) <= user.max_query,
        admitted_in_day(user, times, stamps, start, n) >= 1 ==> n >= 1
            && start.nanos_since_epoch() <= times[n - 1].nanos_since_epoch(),
        admitted_in_day(user, times, stamps, start, n) >= 1 && times[n - 1].nanos_since_epoch()
            <= start.nanos_since_epoch() + day_nanos() ==> {
            &&& start.nanos_since_epoch() <= user_after(
                user,
                times,
                stamps,
                n,
            ).reset_at.nanos_since_epoch()
            &&& admitted_in_day(user, times, stamps, start, n) + nonneg(
                user_after(user, times, stamps, n).remain as int,
            ) <= user.max_query
        },
    decreases n,
{
    if n > 0 {
        let m = (n - 1) as nat;
        lemma_day_prefix(user, times, stamps, start, m);
        let u = user_after(user, times, stamps, m);
        let x = times[m as int];
        if m >= 1 {
            assert(times[m - 1].nanos_since_epoch() <= times[m as int].nanos_since_epoch());
        }
        assert(times[m as int].nanos_since_epoch() <= stamps[m as int].nanos_since_epoch());
        assert(user_after(user, times, stamps, n) == after_request_stored(u, x, stamps[m as int]));
    }
}

/// No day holds more requests let through than the daily limit, whatever
/// day is taken and however the requests are spread, as long as they are
/// judged in order, each charge is recorded at or after the time its
/// request was judged, and the stored quota did not start above the limit.
pub proof fn lemma_at_most_max_query_per_day(
    user: UserRecord,
    times: Seq<Timestamp>,
    stamps: Seq<Timestamp>,
    start: Timestamp,
)
    requires
        user.max_query >= 0,
        user.remain <= user.max_query,
        in_order(times),
        stamped_no_earlier(times, stamps),
    ensures
        admitted_in_day(user, times, stamps, start, times.len()) <= user.max_query,
{
    lemma_day_prefix(user, times, stamps, start, times.len());
}


/// The quota stored in `store` is still the one read in `seen`.
pub open spec fn quota_unchanged(store: UserRecord, seen: UserRecord) -> bool {
    store.remain == seen.remain && store.reset_at == seen.reset_at
}

/// Whether a charge decided on the row `seen` may still be recorded over
/// the row now stored: its quota has not changed since.
pub fn charge_still_applies(stored: &UserRecord, seen: &UserRecord) -> (r: bool)
    ensures
        r == quota_unchanged(*stored, *seen),
{
    stored.remain == seen.remain && stored.reset_at == seen.reset_at
}

/// What a store that records a charge only over the row it was decided on
/// makes of a request judged on the row `seen` at `now`, its charge
/// recorded at `stamp`, when the row now stored is `store`: the new row,
/// and whether the charge was made. A row changed since `seen` was read is
/// left alone.
pub open spec fn conditional_charge(store: UserRecord, seen: UserRecord, now: Timestamp, stamp: Timestamp) -> (UserRecord, bool) {
    let unchanged = quota_unchanged(store, seen);
    match quota_decision(seen, now) {
        QuotaDecision::Refill { remain } => if unchanged {
            (charged(store, remain, stamp), true)
        } else {
            (store, false)
        },
        QuotaDecision::Consume { remain } => if unchanged {
            (charged(store, remain, stamp), true)
        } else {
            (store, false)
        },
        _ => (store, false),
    }
}

/// The stored row after the first `n` charges are attempted, in the order
/// the store receives them: the `i`-th judged on the row `seens[i]` at
/// `nows[i]` and recorded at `stamps[i]`.
pub open spec fn store_after_charges(
    store: UserRecord,
    seens: Seq<UserRecord>,
    nows: Seq<Timestamp>,
    stamps: Seq<Timestamp>,
    n: nat,
) -> UserRecord
    decreases n,
{
    if n == 0 {
        store
    } else {
        let before = store_after_charges(store, seens, nows, stamps, (n - 1) as nat);
        conditional_charge(before, seens[n - 1], nows[n - 1], stamps[n - 1]).0
    }
}

/// How many of the first `n` attempted charges are made.
pub open spec fn charges_made(
    store: UserRecord,
    seens: Seq<UserRecord>,
    nows: Seq<Timestamp>,
    stamps: Seq<Timestamp>,
    n: nat,
) -> nat
    decreases n,
{
    if n == 0 {
        0
    } else {
        let before = store_after_charges(store, seens, nows, stamps, (n - 1) as nat);
        let made = charges_made(store, seens, nows, stamps, (n - 1) as nat);
        if conditional_charge(before, seens[n - 1], nows[n - 1], stamps[n - 1]).1 {
            made + 1
        } else {
            made
        }
    }
}

proof fn lemma_charges_prefix(
    store: UserRecord,
    seens: Seq<UserRecord>,
    nows: Seq<Timestamp>,
    stamps: Seq<Timestamp>,
    n: nat,
)
    requires
        n <= seens.len(),
        seens.len() == nows.len(),
        nows.len() == stamps.len(),
        forall|i: int| 0 <= i < seens.len() ==> !day_elapsed(#[trigger] seens[i].reset_at, nows[i]),
    ensures
        store_after_charges(store, seens, nows, stamps, n).remain == store.remain - charges_made(
            store,
            seens,
            nows,
            stamps,
            n,
        ),
        charges_made(store, seens, nows, stamps, n) <= nonneg(store.remain as int),
    decreases n,
{
    if n > 0 {
        let m = (n - 1) as nat;
        lemma_charges_prefix(store, seens, nows, stamps, m);
        assert(!day_elapsed(seens[m as int].reset_at, nows[m as int]));
    }
}

/// However the requests of a limited user interleave, a store that records
/// a charge only over the row it was decided on makes no more charges, and
/// so lets no more of them through, than the quota that remained, as long
/// as none of them finds the day of the charge it read over: two requests
/// that both read the last remaining request cannot both be charged.
pub proof fn lemma_interleaved_charges_within_remain(
    store: UserRecord,
    seens: Seq<UserRecord>,
    nows: Seq<Timestamp>,
    stamps: Seq<Timestamp>,
)
    requires
        seens.len() == nows.len(),
        nows.len() == stamps.len(),
        forall|i: int| 0 <= i < seens.len() ==> !day_elapsed(#[trigger] seens[i].reset_at, nows[i]),
    ensures
        charges_made(store, seens, nows, stamps, seens.len()) <= nonneg(store.remain as int),
{
    lemma_charges_prefix(store, seens, nows, stamps, seens.len());
}

} // verus!
