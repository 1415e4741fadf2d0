use vstd::prelude::*;

verus! {

/// Remotely configurable state of the node.
#[derive(Clone, Copy, Debug, PartialEq, Eq, Structural)]
pub struct Settings {
    /// Requested state of the user indicator: `true` drives it high.
    pub led: bool,
}

impl Default for Settings {
    fn default() -> (settings: Settings)
        ensures
            !settings.led,
    {
        Settings { led: false }
    }
}

} // verus!
