use vstd::prelude::*;
use std::marker::PhantomData;
use std::rc::Rc;
use crate::mode::Mode;
use crate::sink::SinkCall;

verus! {

/// The flag that says whether a capture is live. A process has one.
///
/// It is raised when a capture starts and lowered when that capture shuts
/// down, and by nothing else.
#[derive(Debug)]
pub struct CaptureFlag {
    started: bool,
}

impl CaptureFlag {
    /// True while a capture is live.
    pub closed spec fn started(&self) -> bool {
        self.started
    }

    /// The flag as a start leaves it.
    pub closed spec fn raised(self) -> CaptureFlag {
        CaptureFlag { started: true }
    }

    /// The flag as a shutdown leaves it.
    pub closed spec fn lowered(self) -> CaptureFlag {
        CaptureFlag { started: false }
    }

    /// The flag of a process in which no capture was started yet.
    pub fn new() -> (flag: CaptureFlag)
        ensures
            !flag.started(),
    {
        CaptureFlag { started: false }
    }

    /// Tells whether a capture is live.
    pub fn is_started(&self) -> (started: bool)
        ensures
            started == self.started(),
    {
        self.started
    }
}

/// The profiler, started. While a client lives, the sink takes calls.
///
/// At most one client lives at a time. A client stays on its thread.
#[derive(Debug)]
pub struct TracyClient {
    _unsend: PhantomData<Rc<()>>,
}

impl TracyClient {
    /// Starts the profiler. This comes before any other use of the sink.
    ///
    /// No client may be live: a process that starts a second one has to stop.
    pub fn start(flag: &mut CaptureFlag) -> (started: (TracyClient, SinkCall<'static>))
        requires
            !old(flag).started(),
        ensures
            *final(flag) == old(flag).raised(),
            final(flag).started(),
            started.1 == SinkCall::StartupProfiler,
    {
        flag.started = true;
        (TracyClient { _unsend: PhantomData }, SinkCall::StartupProfiler)
    }

    /// Tells whether a consumer is attached, given the sink's answer to that
    /// question, which is zero while none is.
    pub fn is_connected(&self, connected: i32) -> (yes: bool)
        ensures
            yes == (connected != 0),
    {
        connected != 0
    }

    /// Shuts the profiler down. After it a client can be started again.
    pub fn shutdown(self, flag: &mut CaptureFlag) -> (call: SinkCall<'static>)
        ensures
            *final(flag) == old(flag).lowered(),
            !final(flag).started(),
            call == SinkCall::ShutdownProfiler,
    {
        flag.started = false;
        SinkCall::ShutdownProfiler
    }
}

/// One capture, from the start of the profiler to its shutdown.
///
/// In the enabled mode the capture holds the client. In the disabled mode
/// it is inert: it holds nothing and leaves the flag alone.
#[derive(Debug)]
pub struct TracyCapture {
    client: Option<TracyClient>,
}

impl TracyCapture {
    /// True when the capture holds a client.
    pub closed spec fn live(&self) -> bool {
        self.client is Some
    }

    /// Tells whether the capture holds a client.
    pub fn is_live(&self) -> (live: bool)
        ensures
            live == self.live(),
    {
        self.client.is_some()
    }

    /// Tells whether events reach a consumer, given the sink's answer to the
    /// question whether one is attached, which is zero while none is.
    ///
    /// An inert capture does not look at the answer and says yes.
    pub fn is_connected(&self, connected: i32) -> (yes: bool)
        ensures
            yes == (self.live() ==> connected != 0),
    {
        match &self.client {
            Some(client) => client.is_connected(connected),
            None => true,
        }
    }

    /// Ends the capture. A live capture shuts the profiler down, and a new
    /// capture can start after it.
    pub fn finish(self, flag: &mut CaptureFlag) -> (call: Option<SinkCall<'static>>)
        ensures
            self.live() ==> *final(flag) == old(flag).lowered() && !final(flag).started() && call
                == Some(SinkCall::ShutdownProfiler),
            !self.live() ==> *final(flag) == *old(flag) && call is None,
    {
        match self.client {
            Some(client) => Some(client.shutdown(flag)),
            None => None,
        }
    }
}

/// Starts a capture. This comes before any other use of the sink.
///
/// In the enabled mode no capture may be live: a process that starts a
/// second one has to stop.
pub fn start_capture(mode: Mode, flag: &mut CaptureFlag) -> (started: (
    TracyCapture,
    Option<SinkCall<'static>>,
))
    requires
        mode is Enabled ==> !old(flag).started(),
    ensures
        mode is Enabled ==> *final(flag) == old(flag).raised() && final(flag).started()
            && started.0.live() && started.1 == Some(SinkCall::StartupProfiler),
        mode is Disabled ==> *final(flag) == *old(flag) && !started.0.live() && started.1 is None,
{
    match mode {
        Mode::Enabled => {
            let (client, call) = TracyClient::start(flag);
            (TracyCapture { client: Some(client) }, Some(call))
        },
        Mode::Disabled => (TracyCapture { client: None }, None),
    }
}

/// While a capture is live, no second one can start: a start leaves the
/// flag in a state that a start does not accept.
pub proof fn lemma_start_excludes_start(flag: CaptureFlag)
    ensures
        flag.raised().started(),
{
}

/// After a start and the shutdown of what it started, a start is accepted
/// again.
pub proof fn lemma_start_after_shutdown(flag: CaptureFlag)
    ensures
        !flag.raised().lowered().started(),
{
}

} // verus!
