//! Actor-style messaging core for a hardware-event notification daemon.
//!
//! A single home thread owns the mutable application state (the model); any
//! number of background workers request state changes by sending immutable
//! messages through cloneable handles into a FIFO dispatch queue that the
//! home thread drains. A generic subscription-worker framework drives each
//! hardware poller with a uniform lifecycle and failure-escalation policy.

use vstd::prelude::*;

pub mod config;
pub mod subscribable;
pub mod threlm;
pub mod ui;

verus! {

/// A fraction in `[0, 1]`, held in fixed point as parts per thousand.
#[derive(Clone, Copy, Debug, PartialEq, Eq, Structural)]
pub struct Fraction {
    pub per_mille: u32,
}

impl Fraction {
    /// True of every value this type is allowed to hold.
    pub open spec fn wf(self) -> bool {
        self.per_mille <= 1000
    }

    /// Build a fraction from parts per thousand, rejecting values over 1000.
    pub fn new(per_mille: u32) -> (r: Option<Fraction>)
        ensures
            per_mille <= 1000 <==> r is Some,
            r is Some ==> r->0 == (Fraction { per_mille }) && r->0.wf(),
    {
        if per_mille <= 1000 {
            Some(Fraction { per_mille })
        } else {
            None
        }
    }
}

} // verus!
