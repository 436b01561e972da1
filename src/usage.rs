use vstd::prelude::*;

use crate::limit::Limit;

verus! {

/// Nanoseconds from `since` to `now`; zero when `now` is not after `since`.
pub open spec fn time_since(since: u128, now: u128) -> nat {
    if now >= since {
        (now - since) as nat
    } else {
        0
    }
}

/// What a bucket knows of one identifier: when it was last used, and how many
/// uses the current window has counted.
#[derive(Clone, Copy, Debug, PartialEq, Eq, Structural)]
pub struct Usage {
    /// The instant of the most recent use.
    pub time: u128,
    /// The uses counted in the current window.
    pub count: u64,
}

impl Usage {
    /// The record of a first use at `now`: a count of one.
    pub fn new(now: u128) -> (r: Usage)
        ensures
            r == (Usage { time: now, count: 1 }),
    {
        Usage { time: now, count: 1 }
    }

    /// The record after one more use at `now`, given the record before it.
    ///
    /// A first use, or a use after the window has run out, starts over at
    /// one. Any other use adds one to the count. Either way the window now
    /// starts at `now`.
    pub open spec fn after_use(prior: Option<Usage>, limit: Limit, now: u128) -> Usage {
        match prior {
            None => Usage { time: now, count: 1 },
            Some(u) => if time_since(u.time, now) > limit.window_spec() {
                Usage { time: now, count: 1 }
            } else {
                Usage { time: now, count: if u.count == u64::MAX { u.count } else { (u.count + 1) as u64 } }
            },
        }
    }

    /// The record after one more use at `now`, given the record before it
    /// (`None` for an identifier that was never used). The count stops at
    /// `u64::MAX` instead of overflowing.
    pub fn registered(prior: Option<Usage>, limit: Limit, now: u128) -> (r: Usage)
        ensures
            r == Usage::after_use(prior, limit, now),
    {
        match prior {
            None => Usage::new(now),
            Some(u) => {
                let since: u128 = now.saturating_sub(u.time);
                if since > limit.window() {
                    Usage::new(now)
                } else {
                    Usage { time: now, count: u.count.saturating_add(1) }
                }
            },
        }
    }
}

impl Limit {
    /// How long to wait at `now` before the next use, given the record of
    /// the identifier. `None` when no record exists, when the window has run
    /// out, or when the window still has room; otherwise what is left of the
    /// window.
    pub open spec fn wait_after(self, usage: Option<Usage>, now: u128) -> Option<u128> {
        match usage {
            None => None,
            Some(u) => if u.count >= self.count_spec() && time_since(u.time, now) < self.window_spec() {
                Some((self.window_spec() - time_since(u.time, now)) as u128)
            } else {
                None
            },
        }
    }

    /// The wait, in nanoseconds, before the next use at `now` of an
    /// identifier whose record is `usage`; `None` when it may be used now.
    pub fn limit_duration(&self, usage: Option<Usage>, now: u128) -> (r: Option<u128>)
        ensures
            r == self.wait_after(usage, now),
    {
        match usage {
            None => None,
            Some(u) => {
                let since: u128 = now.saturating_sub(u.time);
                let window: u128 = self.window();
                if u.count >= self.count() && since < window {
                    Some(window - since)
                } else {
                    None
                }
            },
        }
    }
}

} // verus!
