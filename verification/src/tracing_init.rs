//! How the global tracing subscriber is set up.

use vstd::prelude::*;

verus! {

/// A Parameter to configure tracing subscriber.
#[derive(Debug)]
pub struct Parameter<'a> {
    /// Default RUST_LOG.
    directive_env_key: &'a str,
    display_source: bool,
    display_target: bool,
    color: bool,
}

/// What a parameter is configured to. The view of a `Parameter`.
pub struct ParameterView {
    pub directive_env_key: Seq<char>,
    pub display_source: bool,
    pub display_target: bool,
    pub color: bool,
}

impl<'a> View for Parameter<'a> {
    type V = ParameterView;

    closed spec fn view(&self) -> ParameterView {
        ParameterView {
            directive_env_key: self.directive_env_key@,
            display_source: self.display_source,
            display_target: self.display_target,
            color: self.color,
        }
    }
}

/// The default configuration: directives from `RUST_LOG`, the source but not the target of an
/// event displayed, in color.
pub open spec fn default_parameter() -> ParameterView {
    ParameterView {
        directive_env_key: "RUST_LOG"@,
        display_source: true,
        display_target: false,
        color: true,
    }
}

impl Default for Parameter<'_> {
    fn default() -> (param: Self)
        ensures
            param@ == default_parameter(),
    {
        Parameter {
            directive_env_key: "RUST_LOG",
            display_source: true,
            display_target: false,
            color: true,
        }
    }
}

impl<'a> Parameter<'a> {
    /// The environment variable that holds the filter directives.
    pub fn directive_env_key(&self) -> (key: &'a str)
        ensures
            key@ == self@.directive_env_key,
    {
        self.directive_env_key
    }
}

/// How the time of an event is written.
#[derive(Clone, Copy, Debug, PartialEq, Eq, Structural)]
pub enum Timer {
    /// The time in UTC, formatted as RFC 3339 says.
    UtcRfc3339,
}

/// What is to be done to install the global tracing subscriber.
pub struct Setup<'a> {
    /// The environment variable to read the filter directives from.
    pub directive_env_key: &'a str,
    /// What to set that variable to before, if anything.
    pub assign: Option<&'a str>,
    /// How to write the time of an event.
    pub timer: Timer,
    /// Whether to color the output.
    pub ansi: bool,
    /// Whether to display the source file of an event.
    pub file: bool,
    /// Whether to display the line number of an event.
    pub line_number: bool,
    /// Whether to display the target of an event.
    pub target: bool,
}

impl<'a> Setup<'a> {
    /// This is the setup that `param` asks for, where the environment holds directives or does
    /// not: without any, the directive is `info`. The time is in UTC, formatted as RFC 3339 says.
    pub open spec fn realizes(self, param: ParameterView, directive_present: bool) -> bool {
        &&& self.directive_env_key@ == param.directive_env_key
        &&& if directive_present {
            self.assign is None
        } else {
            self.assign matches Some(directive) && directive@ == "info"@
        }
        &&& self.timer == Timer::UtcRfc3339
        &&& self.ansi == param.color
        &&& self.file == param.display_source
        &&& self.line_number == param.display_source
        &&& self.target == param.display_target
    }
}

/// Setup of the global tracing subscriber with default parameter, where the environment holds
/// directives or does not.
pub fn init(directive_present: bool) -> (setup: Setup<'static>)
    ensures
        setup.realizes(default_parameter(), directive_present),
{
    init_with(Parameter::default(), directive_present)
}

/// Setup of the global tracing subscriber, where the environment holds directives or does not.
pub fn init_with<'a>(param: Parameter<'a>, directive_present: bool) -> (setup: Setup<'a>)
    ensures
        setup.realizes(param@, directive_present),
{
    let Parameter { directive_env_key, display_source, display_target, color } = param;
    let assign = if directive_present {
        None
    } else {
        Some("info")
    };
    Setup {
        directive_env_key,
        assign,
        timer: Timer::UtcRfc3339,
        ansi: color,
        file: display_source,
        line_number: display_source,
        target: display_target,
    }
}

/// A setup colors, and displays the source and the target of events, as the parameter says; it
/// reads the variable of the parameter, which it assigns only where that holds no directives, and
/// then to `info`.
pub proof fn setup_follows_parameter(setup: Setup, param: ParameterView, directive_present: bool)
    requires
        setup.realizes(param, directive_present),
    ensures
        setup.directive_env_key@ == param.directive_env_key,
        setup.assign is None <==> directive_present,
        setup.assign matches Some(directive) ==> directive@ == "info"@,
        setup.timer == Timer::UtcRfc3339,
        setup.ansi <==> param.color,
        setup.file <==> param.display_source,
        setup.line_number <==> param.display_source,
        setup.target <==> param.display_target,
{
}

/// By default the directives are those of `RUST_LOG`, and the source but not the target of an
/// event is displayed, in color.
pub proof fn default_displays_source_in_color(param: ParameterView)
    requires
        param == default_parameter(),
    ensures
        param.directive_env_key == "RUST_LOG"@,
        param.display_source,
        !param.display_target,
        param.color,
{
}

} // verus!
