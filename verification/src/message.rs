use vstd::prelude::*;
use crate::color::Color;
use crate::mode::Mode;
use crate::sink::{admissible, SinkCall};
use crate::text::{fits_ceiling, is_c_text};

verus! {

/// Names the calling thread. `name` is a C string.
pub fn set_thread_name<'a>(mode: Mode, name: &'a str) -> (call: Option<SinkCall<'a>>)
    requires
        mode is Enabled ==> is_c_text(name),
    ensures
        call == match mode {
            Mode::Enabled => Some(SinkCall::SetThreadName { name }),
            Mode::Disabled => None,
        },
        admissible(call),
{
    match mode {
        Mode::Enabled => Some(SinkCall::SetThreadName { name }),
        Mode::Disabled => None,
    }
}

/// Logs `text`, a C string.
pub fn message(mode: Mode, text: &'static str) -> (call: Option<SinkCall<'static>>)
    requires
        mode is Enabled ==> is_c_text(text),
    ensures
        call == match mode {
            Mode::Enabled => Some(SinkCall::MessageL { text, callstack: 0i32 }),
            Mode::Disabled => None,
        },
        admissible(call),
{
    match mode {
        Mode::Enabled => Some(SinkCall::MessageL { text, callstack: 0 }),
        Mode::Disabled => None,
    }
}

/// Logs `text`, which the sink copies.
pub fn message_size<'a>(mode: Mode, text: &'a str) -> (call: Option<SinkCall<'a>>)
    requires
        mode is Enabled ==> fits_ceiling(text),
    ensures
        call == match mode {
            Mode::Enabled => Some(SinkCall::Message { text, callstack: 0i32 }),
            Mode::Disabled => None,
        },
        admissible(call),
{
    match mode {
        Mode::Enabled => Some(SinkCall::Message { text, callstack: 0 }),
        Mode::Disabled => None,
    }
}

/// Logs `text`, which the sink copies, in `color`.
pub fn message_size_color<'a>(mode: Mode, text: &'a str, color: Color) -> (call: Option<
    SinkCall<'a>,
>)
    requires
        mode is Enabled ==> fits_ceiling(text),
    ensures
        call == match mode {
            Mode::Enabled => Some(SinkCall::MessageC { text, color: color.0, callstack: 0i32 }),
            Mode::Disabled => None,
        },
        admissible(call),
{
    match mode {
        Mode::Enabled => Some(SinkCall::MessageC { text, color: color.as_u32(), callstack: 0 }),
        Mode::Disabled => None,
    }
}

/// Logs `text`, a C string, in `color`.
pub fn message_color(mode: Mode, text: &'static str, color: Color) -> (call: Option<
    SinkCall<'static>,
>)
    requires
        mode is Enabled ==> is_c_text(text),
    ensures
        call == match mode {
            Mode::Enabled => Some(SinkCall::MessageLC { text, color: color.0, callstack: 0i32 }),
            Mode::Disabled => None,
        },
        admissible(call),
{
    match mode {
        Mode::Enabled => Some(SinkCall::MessageLC { text, color: color.as_u32(), callstack: 0 }),
        Mode::Disabled => None,
    }
}

/// Adds `info` to the description of the trace. Texts add up over the calls.
pub fn app_info<'a>(mode: Mode, info: &'a str) -> (call: Option<SinkCall<'a>>)
    requires
        mode is Enabled ==> fits_ceiling(info),
    ensures
        call == match mode {
            Mode::Enabled => Some(SinkCall::MessageAppinfo { text: info }),
            Mode::Disabled => None,
        },
        admissible(call),
{
    match mode {
        Mode::Enabled => Some(SinkCall::MessageAppinfo { text: info }),
        Mode::Disabled => None,
    }
}

} // verus!
