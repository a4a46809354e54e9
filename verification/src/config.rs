//! Configuration surface shared by sinks: the core accepts these as plain
//! validated structs, performing no parsing itself.

use vstd::prelude::*;

verus! {

/// Which kinds of telemetry a component consumes.
#[derive(Clone, Copy, Debug, PartialEq, Eq, Structural)]
pub enum DataType {
    Log,
    Metric,
    Trace,
    Any,
}

/// What a sink accepts as input.
#[derive(Clone, Copy, Debug, PartialEq, Eq, Structural)]
pub struct Input {
    pub ty: DataType,
}

impl Input {
    /// A sink that consumes log events.
    pub fn log() -> (r: Input)
        ensures
            r.ty == DataType::Log,
    {
        Input { ty: DataType::Log }
    }
}

/// Whether end-to-end acknowledgements are enabled for a component;
/// `None` defers to the global setting.
#[derive(Clone, Copy, Debug, PartialEq, Eq)]
pub struct AcknowledgementsConfig {
    pub enabled: Option<bool>,
}

impl Default for AcknowledgementsConfig {
    fn default() -> (r: AcknowledgementsConfig)
        ensures
            r.enabled is None,
    {
        AcknowledgementsConfig { enabled: None }
    }
}

} // verus!
