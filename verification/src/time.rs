//! Simulated time: a monotone cycle count with an "infinite" sentinel that
//! stands for "never".

use vstd::prelude::*;

verus! {

/// A point in simulated time. `u64::MAX` cycles is the "infinite" sentinel:
/// an actor whose clock reads infinite has terminated and will never advance.
#[derive(Clone, Copy, Debug, PartialEq, Eq, Structural, Hash)]
pub struct Time {
    pub cycles: u64,
}

impl Time {
    /// True when this time is the "never" sentinel.
    pub open spec fn spec_is_infinite(self) -> bool {
        self.cycles == u64::MAX
    }

    pub fn new(cycles: u64) -> (r: Time)
        ensures
            r.cycles == cycles,
    {
        Time { cycles }
    }

    /// The time that never arrives.
    pub fn infinite() -> (r: Time)
        ensures
            r.spec_is_infinite(),
    {
        Time { cycles: u64::MAX }
    }

    pub fn is_infinite(&self) -> (r: bool)
        ensures
            r == self.spec_is_infinite(),
    {
        self.cycles == u64::MAX
    }

    /// The later of two times.
    pub open spec fn spec_max(a: Time, b: Time) -> Time {
        if a.cycles >= b.cycles {
            a
        } else {
            b
        }
    }

    pub fn max(self, other: Time) -> (r: Time)
        ensures
            r == Time::spec_max(self, other),
            r.cycles >= self.cycles,
            r.cycles >= other.cycles,
    {
        if self.cycles >= other.cycles {
            self
        } else {
            other
        }
    }

    /// One cycle later; the infinite time stays infinite.
    pub fn incr(self) -> (r: Time)
        ensures
            self.spec_is_infinite() ==> r == self,
            !self.spec_is_infinite() ==> r.cycles == self.cycles + 1,
            r.cycles >= self.cycles,
    {
        if self.cycles == u64::MAX {
            self
        } else {
            Time { cycles: self.cycles + 1 }
        }
    }
}

impl PartialOrd for Time {
    fn partial_cmp(&self, other: &Self) -> (r: Option<core::cmp::Ordering>) {
        if self.cycles < other.cycles {
            Some(core::cmp::Ordering::Less)
        } else if self.cycles == other.cycles {
            Some(core::cmp::Ordering::Equal)
        } else {
            Some(core::cmp::Ordering::Greater)
        }
    }
}

impl vstd::std_specs::cmp::PartialOrdSpecImpl for Time {
    open spec fn obeys_partial_cmp_spec() -> bool {
        true
    }

    open spec fn partial_cmp_spec(&self, other: &Self) -> Option<core::cmp::Ordering> {
        if self.cycles < other.cycles {
            Some(core::cmp::Ordering::Less)
        } else if self.cycles == other.cycles {
            Some(core::cmp::Ordering::Equal)
        } else {
            Some(core::cmp::Ordering::Greater)
        }
    }
}

} // verus!
