use vstd::prelude::*;

use std::sync::atomic::{AtomicBool, Ordering};

verus! {

/// How often a waiting loop looks again (milliseconds).
pub const POLL_INTERVAL_MS: u64 = 500;

/// A cancellation flag that trips at a deadline (milliseconds since the Unix
/// epoch) or when cancelled. The flag is shared with whoever polls it, so
/// nothing is promised of its value between two looks.
pub struct Watchdog {
    deadline: u64,
    cancellation: AtomicBool,
}

impl Watchdog {
    pub closed spec fn spec_deadline(&self) -> u64 {
        self.deadline
    }

    pub fn new(deadline: u64) -> (r: Watchdog)
        ensures
            r.spec_deadline() == deadline,
    {
        Watchdog { deadline, cancellation: AtomicBool::new(false) }
    }

    pub fn deadline(&self) -> (r: u64)
        ensures
            r == self.spec_deadline(),
    {
        self.deadline
    }

    /// Trips the flag at once.
    pub fn cancel(&self) {
        self.cancellation.store(true, Ordering::Relaxed);
    }

    /// Looks at the flag at time `now`, tripping it first if the deadline has
    /// come. A helper worker calls this every poll interval until it returns
    /// true.
    pub fn poll(&self, now: u64) -> (r: bool)
        ensures
            now >= self.spec_deadline() ==> r,
    {
        if now >= self.deadline {
            self.cancellation.store(true, Ordering::Relaxed);
            true
        } else {
            self.cancellation.load(Ordering::Relaxed)
        }
    }

    /// The flag itself, for operations that poll it.
    pub fn flag(&self) -> (r: &AtomicBool) {
        &self.cancellation
    }
}

} // verus!
