use vstd::prelude::*;
use std::marker::PhantomData;
use std::rc::Rc;
use crate::color::Color;
use crate::mode::Mode;
use crate::sink::{admissible, SinkCall, ZoneContext};
use crate::text::{fits_ceiling, is_c_text, nul_terminated};

verus! {

/// Where a zone was declared: one record for each place in the source.
///
/// The three texts are C strings. The record does not change once it is made.
#[derive(Debug, Clone, Copy, PartialEq, Eq)]
pub struct ZoneLocation {
    name: &'static str,
    function: &'static [u8],
    file: &'static str,
    line: u32,
    color: u32,
}

impl ZoneLocation {
    #[verifier::type_invariant]
    spec fn well_formed(self) -> bool {
        &&& is_c_text(self.name)
        &&& nul_terminated(self.function@)
        &&& is_c_text(self.file)
    }

    /// The name that the zone is displayed under.
    pub closed spec fn spec_name(&self) -> &'static str {
        self.name
    }

    /// The function that encloses the zone.
    pub closed spec fn spec_function(&self) -> &'static [u8] {
        self.function
    }

    /// The source file that holds the zone.
    pub closed spec fn spec_file(&self) -> &'static str {
        self.file
    }

    /// The line of the zone in its file.
    pub closed spec fn spec_line(&self) -> u32 {
        self.line
    }

    /// The packed color of the zone.
    pub closed spec fn spec_color(&self) -> u32 {
        self.color
    }

    /// The name that the zone is displayed under, a C string.
    #[verifier::when_used_as_spec(spec_name)]
    pub fn name(&self) -> (name: &'static str)
        ensures
            name == self.spec_name(),
            is_c_text(name),
    {
        proof {
            use_type_invariant(self);
        }
        self.name
    }

    /// The function that encloses the zone, a C string.
    #[verifier::when_used_as_spec(spec_function)]
    pub fn function(&self) -> (function: &'static [u8])
        ensures
            function == self.spec_function(),
            nul_terminated(function@),
    {
        proof {
            use_type_invariant(self);
        }
        self.function
    }

    /// The source file that holds the zone, a C string.
    #[verifier::when_used_as_spec(spec_file)]
    pub fn file(&self) -> (file: &'static str)
        ensures
            file == self.spec_file(),
            is_c_text(file),
    {
        proof {
            use_type_invariant(self);
        }
        self.file
    }

    /// The line of the zone in its file.
    #[verifier::when_used_as_spec(spec_line)]
    pub fn line(&self) -> (line: u32)
        ensures
            line == self.spec_line(),
    {
        self.line
    }

    /// The packed color of the zone.
    #[verifier::when_used_as_spec(spec_color)]
    pub fn color(&self) -> (color: u32)
        ensures
            color == self.spec_color(),
    {
        self.color
    }
}

/// Makes the record of the place where a zone is declared.
pub fn zone_location(
    name: &'static str,
    func: &'static [u8],
    file: &'static str,
    line: u32,
    color: u32,
) -> (location: ZoneLocation)
    requires
        is_c_text(name),
        nul_terminated(func@),
        is_c_text(file),
    ensures
        location.name() == name,
        location.function() == func,
        location.file() == file,
        location.line() == line,
        location.color() == color,
{
    ZoneLocation { name, function: func, file, line, color }
}

/// Asks the sink to begin a zone at `location`.
///
/// With `enabled` false the zone still begins and gets its token, but the
/// sink filters it out. The sink's answer goes to [`zone`].
pub fn zone_begin(mode: Mode, location: ZoneLocation, enabled: bool) -> (call: Option<
    SinkCall<'static>,
>)
    ensures
        call == match mode {
            Mode::Enabled => Some(
                SinkCall::ZoneBegin { location, active: if enabled { 1i32 } else { 0i32 } },
            ),
            Mode::Disabled => None,
        },
        admissible(call),
{
    proof {
        use_type_invariant(&location);
    }
    match mode {
        Mode::Enabled => Some(SinkCall::ZoneBegin { location, active: if enabled { 1 } else { 0 } }),
        Mode::Disabled => None,
    }
}

/// The zone that the sink opened under the token `ctx`.
pub fn zone(ctx: ZoneContext) -> (zone: Zone)
    ensures
        zone.context() == Some(ctx),
{
    Zone { ctx: Some(ctx), _unsend: PhantomData }
}

/// The call that ends the zone with this token, if there is a token.
pub open spec fn end_call(ctx: Option<ZoneContext>) -> Option<SinkCall<'static>> {
    match ctx {
        Some(ctx) => Some(SinkCall::ZoneEnd { ctx }),
        None => None,
    }
}

/// An open zone: one interval on the timeline of the thread that opened it.
///
/// A zone stays on its thread: it can be neither sent nor shared. It is
/// closed by [`Zone::end`], which takes it, so it is closed at most once.
/// A zone without a token is inert: nothing about it reaches the sink.
#[derive(Debug)]
pub struct Zone {
    ctx: Option<ZoneContext>,
    _unsend: PhantomData<Rc<()>>,
}

impl Zone {
    /// The sink's token for the zone; `None` for an inert zone.
    pub closed spec fn context(&self) -> Option<ZoneContext> {
        self.ctx
    }

    /// An inert zone, as the disabled mode declares them.
    pub fn new() -> (zone: Zone)
        ensures
            zone.context() is None,
    {
        Zone { ctx: None, _unsend: PhantomData }
    }

    /// The sink's token for the zone; `None` for an inert zone.
    pub fn token(&self) -> (ctx: Option<ZoneContext>)
        ensures
            ctx == self.context(),
    {
        self.ctx
    }

    /// Sets the color of the zone. Of several calls the last one counts.
    pub fn color(&self, color: Color) -> (call: Option<SinkCall<'static>>)
        ensures
            call == match self.context() {
                Some(ctx) => Some(SinkCall::ZoneColor { ctx, color: color.0 }),
                None => None,
            },
    {
        match self.ctx {
            Some(ctx) => Some(SinkCall::ZoneColor { ctx, color: color.as_u32() }),
            None => None,
        }
    }

    /// Attaches a number to the zone. Numbers add up in the order of the calls.
    pub fn number(&self, value: u64) -> (call: Option<SinkCall<'static>>)
        ensures
            call == match self.context() {
                Some(ctx) => Some(SinkCall::ZoneValue { ctx, value }),
                None => None,
            },
    {
        match self.ctx {
            Some(ctx) => Some(SinkCall::ZoneValue { ctx, value }),
            None => None,
        }
    }

    /// Attaches a text to the zone. Texts add up in the order of the calls.
    pub fn text<'a>(&self, s: &'a str) -> (call: Option<SinkCall<'a>>)
        requires
            self.context() is Some ==> fits_ceiling(s),
        ensures
            call == match self.context() {
                Some(ctx) => Some(SinkCall::ZoneText { ctx, text: s }),
                None => None,
            },
            admissible(call),
    {
        match self.ctx {
            Some(ctx) => Some(SinkCall::ZoneText { ctx, text: s }),
            None => None,
        }
    }

    /// Closes the zone.
    pub fn end(self) -> (call: Option<SinkCall<'static>>)
        ensures
            call == end_call(self.context()),
    {
        match self.ctx {
            Some(ctx) => Some(SinkCall::ZoneEnd { ctx }),
            None => None,
        }
    }
}

} // verus!
