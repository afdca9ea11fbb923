//! The timer stream that paces the game loop.

use vstd::prelude::*;
use futures_util::task::AtomicWaker;
use std::task::Waker;
use crate::events::{new_waker, register_waker, wake, forget_waker};

verus! {

/// Fires once at least `duration` ticks have passed since it last fired.
pub struct Interval {
    duration: usize,
    last_fire: usize,
    waker: AtomicWaker,
}

impl Interval {
    pub closed spec fn view(&self) -> (nat, nat) {
        (self.duration as nat, self.last_fire as nat)
    }

    /// An interval that last fired at tick zero.
    pub fn new(duration: usize) -> (r: Interval)
        ensures
            r@ == (duration as nat, 0nat),
    {
        Interval { duration, last_fire: 0, waker: new_waker() }
    }

    /// Called on every timer tick: wakes the task waiting on the interval.
    pub fn next(&self) {
        wake(&self.waker);
    }

    /// At tick `now`, returns the ticks since the last firing and fires when at
    /// least `duration` have passed; otherwise registers `waker` and returns `None`.
    pub fn poll_next(&mut self, now: usize, waker: &Waker) -> (r: Option<usize>)
        ensures
            final(self)@.0 == old(self)@.0,
            ({
                let last = old(self)@.1;
                if now >= last && now - last >= old(self)@.0 {
                    r == Some((now - last) as usize) && final(self)@.1 == now
                } else {
                    r is None && final(self)@ == old(self)@
                }
            }),
    {
        register_waker(&self.waker, waker);
        if now >= self.last_fire && now - self.last_fire >= self.duration {
            forget_waker(&self.waker);
            let delta = now - self.last_fire;
            self.last_fire = now;
            return Some(delta);
        }
        None
    }
}

} // verus!
