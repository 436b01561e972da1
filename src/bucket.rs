use vstd::prelude::*;

use std::time::{Duration, Instant};

use dashmap::DashMap;

use crate::limit::Limit;
use crate::usage::Usage;

verus! {

#[verifier::external_type_specification]
#[verifier::external_body]
#[verifier::reject_recursive_types(K)]
#[verifier::reject_recursive_types(V)]
#[verifier::reject_recursive_types(S)]
pub struct ExDashMap<K, V, S>(dashmap::DashMap<K, V, S>);

#[verifier::external_type_specification]
#[verifier::external_body]
pub struct ExInstant(std::time::Instant);

/// Relies on `Instant::now`: the current instant of the monotonic clock.
pub assume_specification[ std::time::Instant::now ]() -> std::time::Instant;

/// Relies on `Instant::elapsed`: the time since the instant, read from the
/// clock.
pub assume_specification[ std::time::Instant::elapsed ](origin: &std::time::Instant) -> std::time::Duration;

/// Relies on `Duration::as_nanos`: the whole nanoseconds of a duration.
pub assume_specification[ std::time::Duration::as_nanos ](d: &std::time::Duration) -> u128;

/// Relies on `DashMap::new`: an empty map.
#[verifier::external_body]
fn empty_usages() -> DashMap<u64, Usage> {
    DashMap::new()
}

/// Relies on `DashMap::get`: a copy of the record stored for `id`, if any,
/// read under the shard's read lock. Other threads may change the map at any
/// time, so nothing is promised of what comes back.
#[verifier::external_body]
fn stored_usage(usages: &DashMap<u64, Usage>, id: u64) -> Option<Usage> {
    usages.get(&id).map(|entry| *entry.value())
}

/// Relies on `DashMap::entry`: the shard that holds `id` stays write-locked
/// from the lookup until the returned guard is dropped, so the record is read
/// and replaced in one step. An existing record is handed to
/// `Usage::registered` and replaced by its result; for a missing one the
/// result of `Usage::registered(None, ..)` is inserted. The stored record is
/// returned.
#[verifier::external_body]
fn record_use(usages: &DashMap<u64, Usage>, id: u64, limit: Limit, now: u128) -> (r: Usage)
    ensures
        exists|prior: Option<Usage>| r == Usage::after_use(prior, limit, now),
{
    *usages
        .entry(id)
        .and_modify(|u| *u = Usage::registered(Some(*u), limit, now))
        .or_insert_with(|| Usage::registered(None, limit, now))
}

/// Records uses per identifier and tells how long an identifier must wait
/// before its next use, under one [`Limit`].
///
/// All methods take `&self`: a bucket may be shared between threads, and
/// each record is updated under the lock of the shard that holds it.
pub struct Bucket {
    limit: Limit,
    origin: Instant,
    usages: DashMap<u64, Usage>,
}

impl Bucket {
    /// The limit this bucket enforces.
    pub closed spec fn limit_spec(self) -> Limit {
        self.limit
    }

    /// A bucket with no recorded uses, enforcing `limit`. Its clock starts
    /// now.
    pub fn new(limit: Limit) -> (r: Bucket)
        ensures
            r.limit_spec() == limit,
    {
        Bucket { limit, origin: Instant::now(), usages: empty_usages() }
    }

    /// The limit this bucket enforces.
    pub fn limit(&self) -> (r: Limit)
        ensures
            r == self.limit_spec(),
    {
        self.limit
    }

    /// Nanoseconds since the bucket was created, read from the clock.
    pub fn now(&self) -> u128 {
        let since: Duration = self.origin.elapsed();
        since.as_nanos()
    }

    /// Records one use of `id` at `now` and returns the record as stored.
    ///
    /// The record is read and replaced in one step, so concurrent uses of the
    /// same identifier are each counted. The result is the step from whatever
    /// record `id` had at that moment.
    pub fn register_at(&self, id: u64, now: u128) -> (r: Usage)
        ensures
            exists|prior: Option<Usage>| r == Usage::after_use(prior, self.limit_spec(), now),
            r.time == now,
            r.count >= 1,
    {
        let r: Usage = record_use(&self.usages, id, self.limit, now);
        proof {
            let prior: Option<Usage> = choose|prior: Option<Usage>|
                r == Usage::after_use(prior, self.limit, now);
            assert(r == Usage::after_use(prior, self.limit_spec(), now));
        }
        r
    }

    /// Records one use of `id` now; call it after the use is done. Returns the
    /// record as stored.
    pub fn register(&self, id: u64) -> (r: Usage)
        ensures
            exists|prior: Option<Usage>, now: u128|
                r == Usage::after_use(prior, self.limit_spec(), now),
            r.count >= 1,
    {
        let now: u128 = self.now();
        self.register_at(id, now)
    }

    /// The wait, in nanoseconds, before `id` may be used at `now`, judged by
    /// the record `id` has at that moment; `None` when it may be used.
    pub fn limit_duration_at(&self, id: u64, now: u128) -> (r: Option<u128>)
        ensures
            exists|seen: Option<Usage>| r == self.limit_spec().wait_after(seen, now),
            r matches Some(d) ==> 0 < d && d <= self.limit_spec().window_spec(),
    {
        let seen: Option<Usage> = stored_usage(&self.usages, id);
        let r: Option<u128> = self.limit.limit_duration(seen, now);
        assert(r == self.limit_spec().wait_after(seen, now));
        r
    }

    /// The wait, in nanoseconds, before `id` may be used now; `None` when it
    /// may be used. Call it before the use.
    pub fn limit_duration(&self, id: u64) -> (r: Option<u128>)
        ensures
            exists|seen: Option<Usage>, now: u128| r == self.limit_spec().wait_after(seen, now),
            r matches Some(d) ==> 0 < d && d <= self.limit_spec().window_spec(),
    {
        let now: u128 = self.now();
        self.limit_duration_at(id, now)
    }
}

} // verus!
