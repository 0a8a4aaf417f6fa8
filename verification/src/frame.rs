use vstd::prelude::*;
use crate::mode::Mode;
use crate::sink::{admissible, SinkCall};
use crate::text::is_c_text;

verus! {

/// Marks the end of the current frame of a continuous frame set; the next
/// frame starts at once. `None` names the main frame set.
///
/// A frame set is either continuous or discontinuous for the whole run. The
/// caller keeps to that: nothing here looks at earlier calls.
pub fn mark_frame_end(mode: Mode, name: Option<&'static str>) -> (call: Option<SinkCall<'static>>)
    requires
        mode is Enabled ==> (name matches Some(text) ==> is_c_text(text)),
    ensures
        call == match mode {
            Mode::Enabled => Some(SinkCall::FrameMark { name }),
            Mode::Disabled => None,
        },
        admissible(call),
{
    match mode {
        Mode::Enabled => Some(SinkCall::FrameMark { name }),
        Mode::Disabled => None,
    }
}

/// Starts a frame of the discontinuous frame set `name`. The frame ends
/// when [`Frame::end`] is called on the guard that comes back.
pub fn discontinuous_frame(mode: Mode, name: &'static str) -> (started: (
    Frame,
    Option<SinkCall<'static>>,
))
    requires
        mode is Enabled ==> is_c_text(name),
    ensures
        mode is Enabled ==> started.0.name() == Some(name) && started.1 == Some(
            SinkCall::FrameMarkStart { name },
        ),
        mode is Disabled ==> started.0.name() is None && started.1 is None,
        admissible(started.1),
{
    match mode {
        Mode::Enabled => (Frame { name: Some(name) }, Some(SinkCall::FrameMarkStart { name })),
        Mode::Disabled => (Frame { name: None }, None),
    }
}

/// A frame of a discontinuous frame set, from its start to its end.
///
/// A frame without a name is inert: nothing about it reaches the sink.
#[derive(Debug)]
pub struct Frame {
    name: Option<&'static str>,
}

impl Frame {
    #[verifier::type_invariant]
    spec fn well_formed(self) -> bool {
        self.name matches Some(text) ==> is_c_text(text)
    }

    /// The frame set of the frame; `None` for an inert frame.
    pub closed spec fn name(&self) -> Option<&'static str> {
        self.name
    }

    /// An inert frame, as the disabled mode declares them.
    pub fn new() -> (frame: Frame)
        ensures
            frame.name() is None,
    {
        Frame { name: None }
    }

    /// Ends the frame.
    pub fn end(self) -> (call: Option<SinkCall<'static>>)
        ensures
            call == match self.name() {
                Some(name) => Some(SinkCall::FrameMarkEnd { name }),
                None => None,
            },
            admissible(call),
    {
        proof {
            use_type_invariant(&self);
        }
        match self.name {
            Some(name) => Some(SinkCall::FrameMarkEnd { name }),
            None => None,
        }
    }
}

} // verus!
