use vstd::prelude::*;

verus! {

/// Why a [`Limit`] could not be built.
#[derive(Clone, Copy, Debug, PartialEq, Eq, Structural)]
pub enum LimitError {
    /// A limit must allow at least one use per window.
    ZeroCount,
}

/// How often something may be used: `count` times per `window` nanoseconds.
#[derive(Clone, Copy, Debug, PartialEq, Eq, Structural)]
pub struct Limit {
    window: u128,
    count: u64,
}

impl Limit {
    #[verifier::type_invariant]
    spec fn inv(self) -> bool {
        self.count > 0
    }

    /// The window, in nanoseconds.
    pub closed spec fn window_spec(self) -> u128 {
        self.window
    }

    /// How many uses a window allows.
    pub closed spec fn count_spec(self) -> u64 {
        self.count
    }

    /// A limit of `count` uses per `window` nanoseconds; a count of zero is
    /// refused.
    pub fn new(window: u128, count: u64) -> (r: Result<Limit, LimitError>)
        ensures
            count == 0 ==> r == Err::<Limit, LimitError>(LimitError::ZeroCount),
            count > 0 ==> (r matches Ok(l) && l.window_spec() == window && l.count_spec() == count),
    {
        if count == 0 {
            Err(LimitError::ZeroCount)
        } else {
            Ok(Limit { window, count })
        }
    }

    /// The window, in nanoseconds.
    pub fn window(&self) -> (r: u128)
        ensures
            r == self.window_spec(),
    {
        self.window
    }

    /// How many uses a window allows; never zero.
    pub fn count(&self) -> (r: u64)
        ensures
            r == self.count_spec(),
            r > 0,
    {
        proof {
            use_type_invariant(self);
        }
        self.count
    }
}

} // verus!
