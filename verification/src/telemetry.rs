//! The telemetry sample.
use vstd::prelude::*;

verus! {

/// One telemetry sample. A sample is made, published and forgotten: the node
/// keeps no history.
#[derive(Clone, Copy, Debug, PartialEq, Eq, Structural)]
pub struct Telemetry {
    /// Counts the samples made so far, and starts over when it runs out of
    /// numbers.
    pub dummy: u32,
}

impl Default for Telemetry {
    fn default() -> (telemetry: Telemetry)
        ensures
            telemetry.dummy == 0,
    {
        Telemetry { dummy: 0 }
    }
}

} // verus!
