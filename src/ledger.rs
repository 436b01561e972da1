//! The ledger as a mathematical map from identifier to record, and the laws
//! of the fixed window. `Bucket::register_at` replaces the record of one
//! identifier by `Usage::after_use` of the record it had, under that
//! identifier's lock, and `Bucket::limit_duration_at` answers
//! `Limit::wait_after` of the record it reads: the steps of this model.

use vstd::prelude::*;

use crate::limit::Limit;
use crate::usage::{time_since, Usage};

verus! {

/// The record of `id` in `ledger`, if it has one.
pub open spec fn record_of(ledger: Map<u64, Usage>, id: u64) -> Option<Usage> {
    if ledger.dom().contains(id) {
        Some(ledger[id])
    } else {
        None
    }
}

/// The ledger after one use of `id` at `now`.
pub open spec fn register_in(ledger: Map<u64, Usage>, limit: Limit, id: u64, now: u128) -> Map<
    u64,
    Usage,
> {
    ledger.insert(id, Usage::after_use(record_of(ledger, id), limit, now))
}

/// The ledger after uses of `id` at each of `times`, in order.
pub open spec fn register_each(
    ledger: Map<u64, Usage>,
    limit: Limit,
    id: u64,
    times: Seq<u128>,
) -> Map<u64, Usage>
    decreases times.len(),
{
    if times.len() == 0 {
        ledger
    } else {
        register_in(register_each(ledger, limit, id, times.drop_last()), limit, id, times.last())
    }
}

/// The wait before the next use of `id` at `now`.
pub open spec fn wait_in(ledger: Map<u64, Usage>, limit: Limit, id: u64, now: u128) -> Option<
    u128,
> {
    limit.wait_after(record_of(ledger, id), now)
}

/// The record of an identifier that was never used before, after uses at
/// each of `times`, in order.
pub open spec fn uses(limit: Limit, times: Seq<u128>) -> Option<Usage>
    decreases times.len(),
{
    if times.len() == 0 {
        None
    } else {
        Some(Usage::after_use(uses(limit, times.drop_last()), limit, times.last()))
    }
}

/// No use follows the one before it by more than the window.
pub open spec fn within_window(limit: Limit, times: Seq<u128>) -> bool {
    forall|i: int| 0 < i < times.len() ==> time_since(#[trigger] times[i - 1], times[i]) <= limit.window_spec()
}

/// An identifier that has never been used is never limited.
pub proof fn lemma_fresh_never_limited(ledger: Map<u64, Usage>, limit: Limit, id: u64, now: u128)
    requires
        !ledger.dom().contains(id),
    ensures
        wait_in(ledger, limit, id, now) == None::<u128>,
{
}

/// Uses of one identifier that each follow the one before within the window
/// are all counted: after `k` of them the record holds a count of `k` and the
/// time of the last. No use is lost, whatever other identifiers do between
/// them.
pub proof fn lemma_uses_within_window_all_count(limit: Limit, times: Seq<u128>)
    requires
        times.len() > 0,
        times.len() <= u64::MAX,
        within_window(limit, times),
    ensures
        uses(limit, times) == Some(Usage { time: times.last(), count: times.len() as u64 }),
    decreases times.len(),
{
    if times.len() > 1 {
        let rest = times.drop_last();
        assert forall|i: int| 0 < i < rest.len() implies time_since(
            #[trigger] rest[i - 1],
            rest[i],
        ) <= limit.window_spec() by {
            assert(rest[i - 1] == times[i - 1] && rest[i] == times[i]);
        }
        lemma_uses_within_window_all_count(limit, rest);
        assert(times[times.len() - 2] == rest.last());
        assert(time_since(times[times.len() - 2], times[times.len() - 1]) <= limit.window_spec());
    } else {
        assert(uses(limit, times.drop_last()) == None::<Usage>);
    }
}

/// With a count of `n`, `n` uses in quick succession are each allowed when
/// asked at the moment of the use, and after the `n`th the identifier is
/// limited for what is left of the window.
pub proof fn lemma_count_allows_that_many(limit: Limit, times: Seq<u128>, now: u128)
    requires
        times.len() == limit.count_spec(),
        times.len() > 0,
        within_window(limit, times),
        time_since(times.last(), now) < limit.window_spec(),
    ensures
        forall|k: int|
            0 <= k < times.len() ==> limit.wait_after(uses(limit, #[trigger] times.take(k)), times[k])
                == None::<u128>,
        limit.wait_after(uses(limit, times), now) == Some(
            (limit.window_spec() - time_since(times.last(), now)) as u128,
        ),
{
    assert forall|k: int| 0 <= k < times.len() implies limit.wait_after(
        uses(limit, #[trigger] times.take(k)),
        times[k],
    ) == None::<u128> by {
        let pre = times.take(k);
        if k > 0 {
            assert forall|i: int| 0 < i < pre.len() implies time_since(
                #[trigger] pre[i - 1],
                pre[i],
            ) <= limit.window_spec() by {
                assert(pre[i - 1] == times[i - 1] && pre[i] == times[i]);
            }
            lemma_uses_within_window_all_count(limit, pre);
        } else {
            assert(pre.len() == 0);
        }
    }
    lemma_uses_within_window_all_count(limit, times);
}

/// With a count of one, a single use limits the identifier at once: the wait
/// is the window less the time since the use, it shrinks as time passes, and
/// it is gone once the window has passed.
pub proof fn lemma_single_use_blocks(limit: Limit, prior: Option<Usage>, used: u128, t1: u128, t2: u128)
    requires
        limit.count_spec() == 1,
    ensures
        ({
            let u = Some(Usage::after_use(prior, limit, used));
            &&& time_since(used, t1) < limit.window_spec() ==> limit.wait_after(u, t1) == Some(
                (limit.window_spec() - time_since(used, t1)) as u128,
            )
            &&& limit.wait_after(u, used) == (if limit.window_spec() > 0 {
                Some(limit.window_spec())
            } else {
                None::<u128>
            })
            &&& used <= t1 < t2 && time_since(used, t2) < limit.window_spec() ==> limit.wait_after(
                u,
                t2,
            ).unwrap() < limit.wait_after(u, t1).unwrap()
            &&& time_since(used, t1) >= limit.window_spec() ==> limit.wait_after(u, t1) == None::<
                u128,
            >
        }),
{
}

/// Once the window has passed since the last use, the identifier is no
/// longer limited, and its next use starts a new window with a count of one.
pub proof fn lemma_window_reset(limit: Limit, u: Usage, now: u128)
    requires
        time_since(u.time, now) > limit.window_spec(),
    ensures
        limit.wait_after(Some(u), now) == None::<u128>,
        Usage::after_use(Some(u), limit, now) == (Usage { time: now, count: 1 }),
{
}

/// Uses of one identifier never change the wait of another.
pub proof fn lemma_other_ids_unaffected(
    ledger: Map<u64, Usage>,
    limit: Limit,
    a: u64,
    b: u64,
    times: Seq<u128>,
    now: u128,
)
    requires
        a != b,
    ensures
        wait_in(register_each(ledger, limit, a, times), limit, b, now) == wait_in(
            ledger,
            limit,
            b,
            now,
        ),
    decreases times.len(),
{
    if times.len() > 0 {
        lemma_other_ids_unaffected(ledger, limit, a, b, times.drop_last(), now);
    }
}

} // verus!
