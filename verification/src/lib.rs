//! Instrumentation for the Tracy profiler, with the rules of its use proved.
//!
//! The profiler's client, the sink, takes events: zones that begin and end,
//! values of plots, marks of frames, allocations and releases, messages.
//! This library decides, for each operation, which call the sink gets and
//! with which arguments, and hands that call back as a [`SinkCall`]. The
//! caller makes the calls in the order in which they came back.
//!
//! Every operation exists in two modes. In [`Mode::Disabled`] it gives no
//! call at all, and the handles it makes are inert.

pub mod attributes;
pub mod capture;
pub mod color;
pub mod frame;
pub mod memory;
pub mod message;
pub mod mode;
pub mod nesting;
pub mod plot;
pub mod sink;
pub mod text;
pub mod tokens;
pub mod zone;

pub use capture::{start_capture, CaptureFlag, TracyCapture, TracyClient};
pub use color::Color;
pub use frame::{discontinuous_frame, mark_frame_end, Frame};
pub use memory::{track_alloc, track_free};
pub use message::{
    app_info, message, message_color, message_size, message_size_color, set_thread_name,
};
pub use mode::Mode;
pub use nesting::ZoneStack;
pub use plot::{DoubleBits, Plot, PlotConfig, PlotEmit, PlotFormat, PlotStyle, SingleBits};
pub use sink::{SinkCall, ZoneContext};
pub use text::{as_array, get_fn_name_from_nested_type};
pub use zone::{zone, zone_begin, zone_location, Zone, ZoneLocation};
