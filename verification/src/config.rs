//! Builder-style configuration for installing the formatter.
//!
//! A [`Config`] collects the output destination, the color mode, the
//! default filter level, and the line formatter's options, and is built
//! once before the subscriber is installed. The surrounding runtime
//! queries — is the destination a terminal, is a no-color signal set,
//! what does the filter environment variable hold — are answered by the
//! caller and handed in as plain values, so the decisions taken on them
//! are verified here.

use vstd::prelude::*;

use crate::event::EventFormatter;
use crate::time::TimeFormat;
use crate::time::TimeFormatView;

verus! {

/// The destination for rendered log lines: only the two standard streams
/// are supported.
#[derive(Debug, Clone, Copy, PartialEq, Eq, Structural)]
pub enum Output {
    /// Log to standard output. This is the default.
    Stdout,
    /// Log to standard error.
    Stderr,
}

impl Default for Output {
    /// The default output destination is standard output.
    fn default() -> (r: Self)
        ensures
            r == Output::Stdout,
    {
        Output::Stdout
    }
}

/// When to apply ANSI colors to output.
#[derive(Debug, Clone, Copy, PartialEq, Eq, Structural)]
pub enum ColorMode {
    /// Color when the destination is a terminal and no no-color signal
    /// is set. This is the default.
    Auto,
    /// Always apply ANSI colors.
    Always,
    /// Never apply ANSI colors.
    Never,
}

/// Whether ANSI colors are enabled for a destination: always or never as
/// configured, and under `Auto` exactly when the destination is a
/// terminal and no no-color signal is set.
pub open spec fn spec_enable_ansi(mode: ColorMode, no_color: bool, terminal: bool) -> bool {
    match mode {
        ColorMode::Auto => !no_color && terminal,
        ColorMode::Always => true,
        ColorMode::Never => false,
    }
}

impl Default for ColorMode {
    /// The default color mode decides by destination and environment.
    fn default() -> (r: Self)
        ensures
            r == ColorMode::Auto,
    {
        ColorMode::Auto
    }
}

impl ColorMode {
    /// Whether to enable ANSI colors, given whether a no-color signal is
    /// set and whether the destination is a terminal.
    pub fn enable_for(&self, no_color: bool, terminal: bool) -> (r: bool)
        ensures
            r == spec_enable_ansi(*self, no_color, terminal),
    {
        match self {
            ColorMode::Auto => !no_color && terminal,
            ColorMode::Always => true,
            ColorMode::Never => false,
        }
    }
}

/// A default severity filter: off, or everything at the given level and
/// above.
#[derive(Debug, Clone, Copy, PartialEq, Eq, Structural)]
pub enum FilterLevel {
    /// No events pass.
    Off,
    /// Only errors pass.
    Error,
    /// Warnings and errors pass.
    Warn,
    /// The default: informational messages and above pass.
    Info,
    /// Debugging detail and above passes.
    Debug,
    /// Everything passes.
    Trace,
}

/// The directive string for a filter level, as the filter grammar of the
/// host framework spells it.
pub open spec fn spec_filter_directive(l: FilterLevel) -> Seq<char> {
    match l {
        FilterLevel::Off => "off"@,
        FilterLevel::Error => "error"@,
        FilterLevel::Warn => "warn"@,
        FilterLevel::Info => "info"@,
        FilterLevel::Debug => "debug"@,
        FilterLevel::Trace => "trace"@,
    }
}

/// The filter level a numeric verbosity maps to, after clamping the
/// verbosity to the meaningful range.
pub open spec fn spec_verbosity_filter(v: int) -> FilterLevel {
    if v <= -3 {
        FilterLevel::Off
    } else if v == -2 {
        FilterLevel::Error
    } else if v == -1 {
        FilterLevel::Warn
    } else if v == 0 {
        FilterLevel::Info
    } else if v == 1 {
        FilterLevel::Debug
    } else {
        FilterLevel::Trace
    }
}

/// Verbosities are clamped: every verbosity at or below the bottom of
/// the range maps to `Off`, every one at or above its top to `Trace`,
/// and clamping is exactly what the mapping does.
pub proof fn lemma_verbosity_clamped(v: int)
    ensures
        v <= -3 ==> spec_verbosity_filter(v) == FilterLevel::Off,
        v >= 2 ==> spec_verbosity_filter(v) == FilterLevel::Trace,
        spec_verbosity_filter(v) == spec_verbosity_filter(
            if v < -3 {
                -3int
            } else if v > 2 {
                2int
            } else {
                v
            },
        ),
{
}

impl FilterLevel {
    /// The directive string for this level.
    pub fn as_directive(&self) -> (r: &'static str)
        ensures
            r@ == spec_filter_directive(*self),
    {
        match self {
            FilterLevel::Off => "off",
            FilterLevel::Error => "error",
            FilterLevel::Warn => "warn",
            FilterLevel::Info => "info",
            FilterLevel::Debug => "debug",
            FilterLevel::Trace => "trace",
        }
    }
}

/// The filter directive actually used: the environment's own directive
/// string when one is set and non-empty, else the configured default
/// level's directive.
pub open spec fn spec_filter_choice(default: FilterLevel, env: Option<Seq<char>>) -> Seq<char> {
    match env {
        Option::Some(s) => if s.len() == 0 {
            spec_filter_directive(default)
        } else {
            s
        },
        Option::None => spec_filter_directive(default),
    }
}

/// Builder-style configuration for the formatter and its installation.
#[derive(Debug)]
pub struct Config {
    /// The line formatter's options.
    pub event_formatter: EventFormatter,
    /// Where lines are written.
    pub output: Output,
    /// When ANSI colors are applied.
    pub color: ColorMode,
    /// The default filter level, used when the environment sets none.
    pub default_filter: FilterLevel,
}

impl Config {
    /// Create a new `Config` with the default configuration: standard
    /// output, automatic coloring, local-zone timestamps, target and
    /// scope shown, and the informational filter level.
    pub fn new() -> (r: Self)
        ensures
            r.output == Output::Stdout,
            r.color == ColorMode::Auto,
            r.default_filter == FilterLevel::Info,
            r.event_formatter.time_format@ == TimeFormatView::Local(Option::<Seq<char>>::None),
            r.event_formatter.display_target,
            r.event_formatter.display_scope,
    {
        Config {
            event_formatter: EventFormatter::new(),
            output: Output::Stdout,
            color: ColorMode::Auto,
            default_filter: FilterLevel::Info,
        }
    }

    /// Change the output destination. The default is standard output.
    pub fn with_output(self, output: Output) -> (r: Self)
        ensures
            r == (Config { output, ..self }),
    {
        Config { output, ..self }
    }

    /// Enable or disable ANSI coloring. The default is [`ColorMode::Auto`].
    pub fn with_color(self, color: ColorMode) -> (r: Self)
        ensures
            r == (Config { color, ..self }),
    {
        Config { color, ..self }
    }

    /// Set the default filter level. The default is [`FilterLevel::Info`].
    pub fn with_default(self, default: FilterLevel) -> (r: Self)
        ensures
            r == (Config { default_filter: default, ..self }),
    {
        Config { default_filter: default, ..self }
    }

    /// Set the default filter level from a numeric verbosity, as counted
    /// command-line flags give it: `-3` or less is off, `-2` errors only,
    /// `-1` warnings, `0` the informational default, `1` debugging, and
    /// `2` or more everything.
    pub fn with_verbosity(self, verbosity: i32) -> (r: Self)
        ensures
            r == (Config { default_filter: spec_verbosity_filter(verbosity as int), ..self }),
    {
        let level = if verbosity <= -3 {
            FilterLevel::Off
        } else if verbosity == -2 {
            FilterLevel::Error
        } else if verbosity == -1 {
            FilterLevel::Warn
        } else if verbosity == 0 {
            FilterLevel::Info
        } else if verbosity == 1 {
            FilterLevel::Debug
        } else {
            FilterLevel::Trace
        };
        self.with_default(level)
    }

    /// Set the timestamp format for this configuration.
    pub fn with_timestamp(self, time_format: TimeFormat) -> (r: Self)
        ensures
            r.event_formatter.time_format@ == time_format@,
            r.event_formatter.display_target == self.event_formatter.display_target,
            r.event_formatter.display_scope == self.event_formatter.display_scope,
            r.output == self.output,
            r.color == self.color,
            r.default_filter == self.default_filter,
    {
        Config { event_formatter: self.event_formatter.with_timestamp(time_format), ..self }
    }

    /// Set whether or not an event's target is displayed.
    pub fn with_target(self, display_target: bool) -> (r: Self)
        ensures
            r.event_formatter.time_format@ == self.event_formatter.time_format@,
            r.event_formatter.display_target == display_target,
            r.event_formatter.display_scope == self.event_formatter.display_scope,
            r.output == self.output,
            r.color == self.color,
            r.default_filter == self.default_filter,
    {
        Config { event_formatter: self.event_formatter.with_target(display_target), ..self }
    }

    /// Set whether or not an event's span scope is displayed.
    pub fn with_scope(self, display_scope: bool) -> (r: Self)
        ensures
            r.event_formatter.time_format@ == self.event_formatter.time_format@,
            r.event_formatter.display_target == self.event_formatter.display_target,
            r.event_formatter.display_scope == display_scope,
            r.output == self.output,
            r.color == self.color,
            r.default_filter == self.default_filter,
    {
        Config { event_formatter: self.event_formatter.with_scope(display_scope), ..self }
    }

    /// The filter directive to install, given the value of the filter
    /// environment variable: the environment's directive string when set
    /// and non-empty, else the configured default level's directive.
    pub fn filter_string(&self, env: Option<&str>) -> (r: String)
        ensures
            r@ == spec_filter_choice(
                self.default_filter,
                match env {
                    Option::Some(s) => Option::Some(s@),
                    Option::None => Option::<Seq<char>>::None,
                },
            ),
    {
        match env {
            Option::Some(s) => {
                if s.is_empty() {
                    String::from_str(self.default_filter.as_directive())
                } else {
                    String::from_str(s)
                }
            },
            Option::None => String::from_str(self.default_filter.as_directive()),
        }
    }
}

impl Clone for Config {
    /// A clone configures the formatter exactly as the original does.
    fn clone(&self) -> (r: Self)
        ensures
            r.event_formatter.time_format@ == self.event_formatter.time_format@,
            r.event_formatter.display_target == self.event_formatter.display_target,
            r.event_formatter.display_scope == self.event_formatter.display_scope,
            r.output == self.output,
            r.color == self.color,
            r.default_filter == self.default_filter,
    {
        Config {
            event_formatter: self.event_formatter.clone(),
            output: self.output,
            color: self.color,
            default_filter: self.default_filter,
        }
    }
}

impl Default for Config {
    /// The default configuration, as [`Config::new`] builds it.
    fn default() -> (r: Self)
        ensures
            r.output == Output::Stdout,
            r.color == ColorMode::Auto,
            r.default_filter == FilterLevel::Info,
            r.event_formatter.time_format@ == TimeFormatView::Local(Option::<Seq<char>>::None),
            r.event_formatter.display_target,
            r.event_formatter.display_scope,
    {
        Config::new()
    }
}

} // verus!
