use vstd::prelude::*;

verus! {

/// Name of the environment variable that the parameterless entry points read.
pub const DEFAULT_FILTER_ENV: &'static str = "RUST_LOG";

/// The directive string that a filter source stands for: the value of the
/// variable named `source` where the lookup found one (an empty value
/// included), and otherwise `source` itself, read as literal directives.
pub open spec fn resolved_filters(source: Seq<char>, looked_up: Option<Seq<char>>) -> Seq<char> {
    match looked_up {
        Some(value) => value,
        None => source,
    }
}

/// The text held by an optional string.
pub open spec fn text_of(s: Option<String>) -> Option<Seq<char>> {
    match s {
        Some(v) => Some(v@),
        None => None,
    }
}

/// Resolves a filter source into the directives to apply.
///
/// `looked_up` is the outcome of reading the environment variable named
/// `source`. The result is always `Some`: a variable that is unset or holds
/// no valid text makes `source` the literal directive string.
pub fn resolve_filters(source: &str, looked_up: Option<String>) -> (r: Option<String>)
    ensures
        looked_up is None ==> (r matches Some(d) && d@ == source@),
        looked_up matches Some(v) ==> r == Some(v),
{
    match looked_up {
        Some(value) => Some(value),
        None => Some(source.to_owned()),
    }
}

/// What a logger is set up with: the timed or the plain layout, and the
/// filter directives to apply, if any.
pub struct LoggerConfig {
    pub timed: bool,
    pub filters: Option<String>,
}

/// The configuration for a filter source: the directives that `source`
/// resolves to, given the outcome `looked_up` of reading the variable of
/// that name.
pub fn config_with(timed: bool, source: &str, looked_up: Option<String>) -> (c: LoggerConfig)
    ensures
        c.timed == timed,
        text_of(c.filters) == Some(resolved_filters(source@, text_of(looked_up))),
{
    LoggerConfig { timed, filters: resolve_filters(source, looked_up) }
}

} // verus!
