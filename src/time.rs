//! Plain values that a clock hands out: instants, tick periods and errors.

use vstd::prelude::*;

verus! {

/// A point in time, counted in ticks of the clock that produced it.
#[derive(Clone, Copy, Debug, PartialEq, Eq, Structural)]
pub struct Instant<T> {
    pub ticks: T,
}

impl<T: Copy> Instant<T> {
    /// An instant at the given raw tick count.
    pub fn new(ticks: T) -> (r: Self)
        ensures
            r.ticks == ticks,
    {
        Instant { ticks }
    }

    /// The raw tick count of this instant.
    pub fn ticks(&self) -> (r: T)
        ensures
            r == self.ticks,
    {
        self.ticks
    }
}

/// An exact rational number `numerator / denominator`, kept unreduced.
#[derive(Clone, Copy, Debug, PartialEq, Eq, Structural)]
pub struct Fraction {
    pub numerator: u32,
    pub denominator: u32,
}

impl Fraction {
    /// The fraction `numerator / denominator`, stored as given.
    pub fn new(numerator: u32, denominator: u32) -> (r: Self)
        ensures
            r.numerator == numerator,
            r.denominator == denominator,
    {
        Fraction { numerator, denominator }
    }

    pub fn numerator(&self) -> (r: u32)
        ensures
            r == self.numerator,
    {
        self.numerator
    }

    pub fn denominator(&self) -> (r: u32)
        ensures
            r == self.denominator,
    {
        self.denominator
    }

    /// Whether this fraction is exactly the rational `1 / f`.
    pub open spec fn is_reciprocal_of(self, f: int) -> bool {
        self.numerator == 1 && self.denominator == f
    }
}

/// The error a clock query may report. Reading a tick counter cannot fail,
/// so no query of this crate produces it.
#[derive(Clone, Copy, Debug, PartialEq, Eq, Structural)]
pub enum ClockError {
    Unspecified,
}

} // verus!
