use vstd::prelude::*;
use crate::text::{fits_ceiling, is_c_text, nul_terminated};
use crate::zone::ZoneLocation;

verus! {

/// The token that the sink hands out when a zone begins.
///
/// The sink reads it again in every later call about that zone.
#[derive(Debug, Clone, Copy, PartialEq, Eq, Hash, Structural)]
pub struct ZoneContext {
    /// The sink's number for the zone.
    pub id: u32,
    /// Zero when the sink filters the zone out.
    pub active: i32,
}

/// One call into the sink, with its arguments as plain values.
///
/// The library decides which call is made and with what. Making the call is
/// left to the caller, who hands over the values in the order of the fields.
#[derive(Debug, Clone, Copy, PartialEq, Eq)]
#[allow(inconsistent_fields)]
pub enum SinkCall<'a> {
    /// Starts the profiler.
    StartupProfiler,
    /// Shuts the profiler down.
    ShutdownProfiler,
    /// Begins a zone. The sink answers with a [`ZoneContext`].
    ZoneBegin { location: ZoneLocation, active: i32 },
    /// Ends a zone.
    ZoneEnd { ctx: ZoneContext },
    /// Attaches a text to a zone. The sink copies the text.
    ZoneText { ctx: ZoneContext, text: &'a str },
    /// Sets the color of a zone.
    ZoneColor { ctx: ZoneContext, color: u32 },
    /// Attaches a number to a zone.
    ZoneValue { ctx: ZoneContext, value: u64 },
    /// Names the calling thread. `name` is a C string.
    SetThreadName { name: &'a str },
    /// Logs a text. The sink copies the text.
    Message { text: &'a str, callstack: i32 },
    /// Logs a C string, which the sink keeps by its address.
    MessageL { text: &'static str, callstack: i32 },
    /// Logs a text in a color. The sink copies the text.
    MessageC { text: &'a str, color: u32, callstack: i32 },
    /// Logs a C string, which the sink keeps by its address, in a color.
    MessageLC { text: &'static str, color: u32, callstack: i32 },
    /// Adds a text to the description of the trace. The sink copies the text.
    MessageAppinfo { text: &'a str },
    /// Ends the current frame of a continuous frame set; `None` is the main one.
    FrameMark { name: Option<&'static str> },
    /// Starts a frame of a discontinuous frame set.
    FrameMarkStart { name: &'static str },
    /// Ends a frame of a discontinuous frame set.
    FrameMarkEnd { name: &'static str },
    /// Sets how a plot is displayed.
    PlotConfig { name: &'static str, format: i32, style: i32, fill: i32, color: u32 },
    /// Adds a double-precision value, given by its bits, to a plot.
    Plot { name: &'static str, bits: u64 },
    /// Adds a single-precision value, given by its bits, to a plot.
    PlotFloat { name: &'static str, bits: u32 },
    /// Adds an integer to a plot.
    PlotInt { name: &'static str, value: i64 },
    /// Records an allocation in a named pool.
    MemoryAllocNamed { address: usize, size: usize, secure: i32, name: &'static str },
    /// Records a release in a named pool.
    MemoryFreeNamed { address: usize, secure: i32, name: &'static str },
}

impl<'a> SinkCall<'a> {
    /// The arguments are such as the sink takes them: every name is a C
    /// string, and every text that the sink copies is under the ceiling.
    pub open spec fn admissible(self) -> bool {
        match self {
            SinkCall::ZoneBegin { location, active } => {
                &&& is_c_text(location.spec_name())
                &&& nul_terminated(location.spec_function()@)
                &&& is_c_text(location.spec_file())
            },
            SinkCall::ZoneText { ctx, text } => fits_ceiling(text),
            SinkCall::SetThreadName { name } => is_c_text(name),
            SinkCall::Message { text, callstack } => fits_ceiling(text),
            SinkCall::MessageL { text, callstack } => is_c_text(text),
            SinkCall::MessageC { text, color, callstack } => fits_ceiling(text),
            SinkCall::MessageLC { text, color, callstack } => is_c_text(text),
            SinkCall::MessageAppinfo { text } => fits_ceiling(text),
            SinkCall::FrameMark { name } => name matches Some(text) ==> is_c_text(text),
            SinkCall::FrameMarkStart { name } => is_c_text(name),
            SinkCall::FrameMarkEnd { name } => is_c_text(name),
            SinkCall::PlotConfig { name, format, style, fill, color } => is_c_text(name),
            SinkCall::Plot { name, bits } => is_c_text(name),
            SinkCall::PlotFloat { name, bits } => is_c_text(name),
            SinkCall::PlotInt { name, value } => is_c_text(name),
            SinkCall::MemoryAllocNamed { address, size, secure, name } => is_c_text(name),
            SinkCall::MemoryFreeNamed { address, secure, name } => is_c_text(name),
            _ => true,
        }
    }
}

/// No call, or a call that the sink takes.
pub open spec fn admissible(call: Option<SinkCall<'_>>) -> bool {
    call matches Some(call) ==> call.admissible()
}

} // verus!
