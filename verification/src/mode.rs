use vstd::prelude::*;

verus! {

/// Whether instrumentation is built in.
///
/// Every operation of this library exists in both modes with the same
/// signature. In the disabled mode it hands nothing to the sink.
#[derive(Debug, Clone, Copy, PartialEq, Eq, Hash, Structural)]
pub enum Mode {
    /// Operations produce calls for the sink.
    Enabled,
    /// Operations are inert.
    Disabled,
}

impl Mode {
    /// True exactly for [`Mode::Enabled`].
    pub fn is_enabled(&self) -> (enabled: bool)
        ensures
            enabled == (*self is Enabled),
    {
        match self {
            Mode::Enabled => true,
            Mode::Disabled => false,
        }
    }
}

} // verus!
