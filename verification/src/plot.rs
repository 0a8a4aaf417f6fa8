use vstd::prelude::*;
use crate::color::Color;
use crate::mode::Mode;
use crate::sink::{admissible, SinkCall};
use crate::text::is_c_text;

verus! {

/// How the values of a plot are displayed.
///
/// The format changes the display only: any value can be emitted to a plot
/// of any format.
#[derive(Debug, Clone, Copy, PartialEq, Eq, Hash, Structural)]
pub enum PlotFormat {
    /// As plain numbers.
    Number,
    /// As sizes of memory, in kilobytes, megabytes and so on.
    Memory,
    /// As percentages, 100 being the whole.
    Percentage,
    /// As watts.
    Watts,
}

impl PlotFormat {
    /// The number that the sink knows the format by.
    pub open spec fn code(self) -> i32 {
        match self {
            PlotFormat::Number => 0,
            PlotFormat::Memory => 1,
            PlotFormat::Percentage => 2,
            PlotFormat::Watts => 3,
        }
    }

    /// The number that the sink knows the format by.
    pub fn as_i32(&self) -> (code: i32)
        ensures
            code == self.code(),
    {
        match self {
            PlotFormat::Number => 0,
            PlotFormat::Memory => 1,
            PlotFormat::Percentage => 2,
            PlotFormat::Watts => 3,
        }
    }
}

/// How the line of a plot is drawn.
#[derive(Debug, Clone, Copy, PartialEq, Eq, Hash, Structural)]
pub enum PlotStyle {
    /// The line goes straight from point to point.
    Smooth,
    /// The line keeps each value until the next point, in steps.
    Staircase,
}

impl PlotStyle {
    /// The number that the sink knows the style by.
    pub open spec fn code(self) -> i32 {
        match self {
            PlotStyle::Smooth => 0,
            PlotStyle::Staircase => 1,
        }
    }

    /// The number that the sink knows the style by.
    pub fn as_i32(&self) -> (code: i32)
        ensures
            code == self.code(),
    {
        match self {
            PlotStyle::Smooth => 0,
            PlotStyle::Staircase => 1,
        }
    }
}

/// How a plot is displayed.
#[derive(Debug, Clone, Copy)]
pub struct PlotConfig {
    /// How the values are displayed.
    pub format: PlotFormat,
    /// How the line is drawn.
    pub style: PlotStyle,
    /// The color of the plot.
    pub color: Color,
    /// Whether the area under the line is filled.
    pub filled: bool,
}

impl Default for PlotConfig {
    /// Plain numbers, a smooth line, no color chosen, no filling.
    fn default() -> (config: PlotConfig)
        ensures
            config == (PlotConfig {
                format: PlotFormat::Number,
                style: PlotStyle::Smooth,
                color: Color(0),
                filled: false,
            }),
    {
        PlotConfig {
            format: PlotFormat::Number,
            style: PlotStyle::Smooth,
            color: Color::unspecified(),
            filled: false,
        }
    }
}

/// The call that sets the display of the plot `name` to `config`.
pub open spec fn config_call(name: &'static str, config: PlotConfig) -> SinkCall<'static> {
    SinkCall::PlotConfig {
        name,
        format: config.format.code(),
        style: config.style.code(),
        fill: if config.filled { 1i32 } else { 0i32 },
        color: config.color.0,
    }
}

/// A plot: a named series of values over time.
///
/// The plot is its name, and a copy of it is the same plot. A plot without
/// a name is inert: nothing about it reaches the sink.
#[derive(Debug, Clone, Copy)]
pub struct Plot {
    name: Option<&'static str>,
}

impl Plot {
    #[verifier::type_invariant]
    spec fn well_formed(self) -> bool {
        self.name matches Some(text) ==> is_c_text(text)
    }

    /// The name of the plot; `None` for an inert plot.
    pub closed spec fn name(&self) -> Option<&'static str> {
        self.name
    }

    /// The plot `name`, displayed as the sink displays a plot by default.
    pub fn new(mode: Mode, name: &'static str) -> (plot: Plot)
        requires
            mode is Enabled ==> is_c_text(name),
        ensures
            plot.name() == match mode {
                Mode::Enabled => Some(name),
                Mode::Disabled => None,
            },
    {
        match mode {
            Mode::Enabled => Plot { name: Some(name) },
            Mode::Disabled => Plot { name: None },
        }
    }

    /// The plot `name`, displayed as `config` says. The display of a name
    /// is set for all its uses, and a later setting replaces an earlier one.
    pub fn with_config(mode: Mode, name: &'static str, config: PlotConfig) -> (made: (
        Plot,
        Option<SinkCall<'static>>,
    ))
        requires
            mode is Enabled ==> is_c_text(name),
        ensures
            mode is Enabled ==> made.0.name() == Some(name) && made.1 == Some(
                config_call(name, config),
            ),
            mode is Disabled ==> made.0.name() is None && made.1 is None,
            admissible(made.1),
    {
        match mode {
            Mode::Enabled => {
                let call = SinkCall::PlotConfig {
                    name,
                    format: config.format.as_i32(),
                    style: config.style.as_i32(),
                    fill: if config.filled { 1 } else { 0 },
                    color: config.color.as_u32(),
                };
                (Plot { name: Some(name) }, Some(call))
            },
            Mode::Disabled => (Plot { name: None }, None),
        }
    }

    /// The name of the plot, a C string; `None` for an inert plot.
    pub fn label(&self) -> (name: Option<&'static str>)
        ensures
            name == self.name(),
            name matches Some(text) ==> is_c_text(text),
    {
        proof {
            use_type_invariant(self);
        }
        self.name
    }
}

/// A double-precision value, held as its bits.
#[derive(Debug, Clone, Copy, PartialEq, Eq, Hash, Structural)]
pub struct DoubleBits(pub u64);

/// A single-precision value, held as its bits.
#[derive(Debug, Clone, Copy, PartialEq, Eq, Hash, Structural)]
pub struct SingleBits(pub u32);

/// Emission of a value of type `T` into a plot.
///
/// Each type of value has its own entry of the sink. Which one is taken is
/// settled by the type, when the program is compiled.
pub trait PlotEmit<T> {
    /// The call that emits `value`; `None` where nothing is emitted.
    spec fn emission(&self, value: T) -> Option<SinkCall<'static>>;

    /// Emits a value.
    fn emit(&self, value: T) -> (call: Option<SinkCall<'static>>)
        ensures
            call == self.emission(value),
            admissible(call),
    ;
}

impl PlotEmit<i64> for Plot {
    open spec fn emission(&self, value: i64) -> Option<SinkCall<'static>> {
        match self.name() {
            Some(name) => Some(SinkCall::PlotInt { name, value }),
            None => None,
        }
    }

    fn emit(&self, value: i64) -> (call: Option<SinkCall<'static>>) {
        proof {
            use_type_invariant(self);
        }
        match self.name {
            Some(name) => Some(SinkCall::PlotInt { name, value }),
            None => None,
        }
    }
}

impl PlotEmit<DoubleBits> for Plot {
    open spec fn emission(&self, value: DoubleBits) -> Option<SinkCall<'static>> {
        match self.name() {
            Some(name) => Some(SinkCall::Plot { name, bits: value.0 }),
            None => None,
        }
    }

    fn emit(&self, value: DoubleBits) -> (call: Option<SinkCall<'static>>) {
        proof {
            use_type_invariant(self);
        }
        match self.name {
            Some(name) => Some(SinkCall::Plot { name, bits: value.0 }),
            None => None,
        }
    }
}

impl PlotEmit<SingleBits> for Plot {
    open spec fn emission(&self, value: SingleBits) -> Option<SinkCall<'static>> {
        match self.name() {
            Some(name) => Some(SinkCall::PlotFloat { name, bits: value.0 }),
            None => None,
        }
    }

    fn emit(&self, value: SingleBits) -> (call: Option<SinkCall<'static>>) {
        proof {
            use_type_invariant(self);
        }
        match self.name {
            Some(name) => Some(SinkCall::PlotFloat { name, bits: value.0 }),
            None => None,
        }
    }
}

} // verus!
