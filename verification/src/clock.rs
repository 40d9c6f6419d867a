//! Logical clocks. Each actor owns a `LocalClock`, a monotone cell holding
//! its tick lower bound (TLB); a `TimeView` is a read handle on such a cell
//! through which the opposite channel endpoint queries the clock or waits
//! for it to pass a point in time.
//!
//! The cell is a mutex-guarded counter with a condition variable; the three
//! small wrappers below are the only trusted code. Monotonicity of a clock
//! rests on each `LocalClock` having a single owning actor, which is how the
//! endpoints hand these handles around.

use crate::time::Time;
use std::sync::Arc;
use std::sync::Condvar;
use std::sync::Mutex;
use vstd::prelude::*;

verus! {

#[verifier::external_type_specification]
#[verifier::external_body]
#[verifier::reject_recursive_types(T)]
pub struct ExMutex<T: ?Sized>(Mutex<T>);

#[verifier::external_type_specification]
#[verifier::external_body]
pub struct ExCondvar(Condvar);

/// The shared cell behind one actor's clock.
pub struct ClockCell {
    guarded: Mutex<u64>,
    moved_on: Condvar,
}

/// True when the cell's value has not yet reached `t`; handed to the
/// condition-variable wait as its parking test.
fn still_before(seen: &u64, t: u64) -> (r: bool)
    ensures
        r == (*seen < t),
{
    *seen < t
}

/// Relies on std::sync::Mutex::new and std::sync::Condvar::new: a fresh
/// cell holding `start`.
#[verifier::external_body]
fn cell_new(start: u64) -> ClockCell {
    ClockCell { guarded: Mutex::new(start), moved_on: Condvar::new() }
}

/// Relies on std::sync::Mutex::lock: the value the cell holds right now.
#[verifier::external_body]
fn cell_read(cell: &ClockCell) -> u64 {
    *cell.guarded.lock().unwrap()
}

/// Relies on std::sync::Mutex::lock: overwrites the cell and wakes every
/// waiter. Kept monotone by the verified caller, which only ever raises.
#[verifier::external_body]
fn cell_write_and_wake(cell: &ClockCell, value: u64) {
    *cell.guarded.lock().unwrap() = value;
    cell.moved_on.notify_all();
}

/// Relies on std::sync::Condvar::wait_while: blocks until the cell holds at
/// least `t` and returns what it then holds, which `wait_while`'s exit test
/// guarantees is no less than `t`.
#[verifier::external_body]
fn cell_wait(cell: &ClockCell, t: u64) -> (r: u64)
    ensures
        t <= r,
{
    let held = cell.guarded.lock().unwrap();
    let held = cell.moved_on.wait_while(held, |seen| still_before(seen, t)).unwrap();
    *held
}

/// Read handle on one actor's clock cell.
pub struct TimeView {
    cell: Arc<ClockCell>,
}

impl TimeView {
    /// Another handle on the same cell.
    pub fn share(&self) -> TimeView {
        TimeView { cell: Arc::clone(&self.cell) }
    }

    /// The current tick lower bound of the actor behind this view.
    pub fn tick_lower_bound(&self) -> Time {
        Time::new(cell_read(&self.cell))
    }

    /// Blocks until the actor behind this view has a TLB of at least `t`,
    /// and returns the TLB value it reached. A terminated actor reads as the
    /// infinite time, which satisfies every wait.
    pub fn wait_until(&self, t: Time) -> (r: Time)
        ensures
            t.cycles <= r.cycles,
    {
        Time::new(cell_wait(&self.cell, t.cycles))
    }
}

/// One actor's clock: the writing end of the cell the views read.
pub struct LocalClock {
    cell: Arc<ClockCell>,
}

impl LocalClock {
    pub fn new(start: Time) -> LocalClock {
        LocalClock { cell: Arc::new(cell_new(start.cycles)) }
    }

    /// A read handle for handing to a channel endpoint.
    pub fn view_handle(&self) -> TimeView {
        TimeView { cell: Arc::clone(&self.cell) }
    }

    /// Raises the clock to `t` if it is not already past it; the owning
    /// actor's clock never moves backwards.
    pub fn advance(&self, t: Time) {
        let seen: u64 = cell_read(&self.cell);
        if seen < t.cycles {
            cell_write_and_wake(&self.cell, t.cycles);
        }
    }

    /// Marks the actor as terminated: its TLB becomes the infinite time.
    pub fn terminate(&self) {
        self.advance(Time::infinite());
    }
}

} // verus!
