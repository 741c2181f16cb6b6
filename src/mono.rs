//! The adapter from a tick-reading function to a clock.

use crate::time::{ClockError, Fraction, Instant};
use std::marker::PhantomData;
use vstd::prelude::*;

verus! {

/// A clock whose ticks come from a stored function and whose tick rate is
/// `HZ` ticks per second.
///
/// The function is called afresh on every query; nothing is cached. It should
/// be cheap, never block and never decrease across calls.
pub struct MonoClock<T, const HZ: u32, F> {
    now: F,
    tick: PhantomData<T>,
}

impl<T, const HZ: u32, F: Copy> Clone for MonoClock<T, HZ, F> {
    /// A copy holds the same function, so it behaves as the original does.
    fn clone(&self) -> (r: Self)
        ensures
            r == *self,
    {
        *self
    }
}

impl<T, const HZ: u32, F: Copy> Copy for MonoClock<T, HZ, F> {}

impl<T, const HZ: u32, F: Fn() -> T> MonoClock<T, HZ, F> {
    /// The stored tick-reading function.
    pub closed spec fn read_ticks(self) -> F {
        self.now
    }

    /// `r` is a result that a query of this clock may give: success, with the
    /// tick count that one call of the stored function returned.
    pub open spec fn is_now_outcome(self, r: Result<Instant<T>, ClockError>) -> bool {
        &&& r is Ok
        &&& call_ensures(self.read_ticks(), (), r->Ok_0.ticks)
    }

    /// A clock that reads its ticks from `now`.
    pub fn new(now: F) -> (r: Self)
        ensures
            r.read_ticks() == now,
    {
        MonoClock { now, tick: PhantomData }
    }

    /// The current instant: the stored function is called once and its result
    /// becomes the instant's tick count, unchanged. This never fails.
    pub fn try_now(&self) -> (r: Result<Instant<T>, ClockError>)
        requires
            call_requires(self.read_ticks(), ()),
        ensures
            self.is_now_outcome(r),
    {
        let ticks = (self.now)();
        Ok(Instant { ticks })
    }

    /// The length of one tick in seconds: exactly `1 / HZ`.
    pub fn scaling_factor() -> (r: Fraction)
        ensures
            r.is_reciprocal_of(HZ as int),
    {
        Fraction { numerator: 1, denominator: HZ }
    }
}

/// A clock whose function always returns `v` reports, on every query,
/// exactly the instant at tick count `v`: the raw count is passed on with no
/// conversion.
pub proof fn lemma_now_is_raw_ticks<T, const HZ: u32, F: Fn() -> T>(c: MonoClock<T, HZ, F>, v: T)
    requires
        forall|t: T| call_ensures(c.read_ticks(), (), t) ==> t == v,
    ensures
        forall|r: Result<Instant<T>, ClockError>|
            #[trigger] c.is_now_outcome(r) ==> r == Ok::<Instant<T>, ClockError>(Instant { ticks: v }),
{
}

/// A copy of a clock behaves as the original: it may be queried on the same
/// terms and gives the same possible results.
pub proof fn lemma_copy_behaves_alike<T, const HZ: u32, F: Fn() -> T + Copy>(
    c: MonoClock<T, HZ, F>,
    d: MonoClock<T, HZ, F>,
)
    requires
        d == c,
    ensures
        call_requires(d.read_ticks(), ()) == call_requires(c.read_ticks(), ()),
        forall|r: Result<Instant<T>, ClockError>| #[trigger] d.is_now_outcome(r) == c.is_now_outcome(r),
{
}

} // verus!
