//! The adapter that reports metrics to Prometheus.

use vstd::prelude::*;

verus! {

/// An adapter to the metrics port that records nothing yet.
#[derive(Debug, Clone, Copy, PartialEq, Eq, Structural)]
pub struct Prometheus;

impl Prometheus {
    pub fn new() -> (recorder: Self)
        ensures
            recorder == Prometheus,
    {
        Self
    }
}

} // verus!
