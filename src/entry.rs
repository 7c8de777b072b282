use vstd::prelude::*;
use crate::backend::{InitError, Installed};
use crate::filters::{config_with, resolved_filters, text_of, LoggerConfig, DEFAULT_FILTER_ENV};
use crate::setup::{directives_for, install_config};

verus! {

/// Tries to install the plain logger with the given filter directives, or
/// with the backend's default filtering where `filters` is `None`.
///
/// The global logger can be installed once per process: every later attempt,
/// through any entry point, fails with `AlreadyInitialized` and leaves the
/// installed logger as it was. On success the result records what the
/// installed logger was built with.
pub fn try_init_custom_string(filters: Option<String>) -> (r: Result<Installed, InitError>)
    ensures
        r matches Ok(i) ==> !i.timed() && i.directives() == directives_for(text_of(filters)),
        r is Err ==> r == Err::<Installed, InitError>(InitError::AlreadyInitialized),
{
    install_config(LoggerConfig { timed: false, filters })
}

/// Tries to install the timed logger with the given filter directives, or
/// with the backend's default filtering where `filters` is `None`.
pub fn try_init_timed_custom_string(filters: Option<String>) -> (r: Result<Installed, InitError>)
    ensures
        r matches Ok(i) ==> i.timed() && i.directives() == directives_for(text_of(filters)),
        r is Err ==> r == Err::<Installed, InitError>(InitError::AlreadyInitialized),
{
    install_config(LoggerConfig { timed: true, filters })
}

/// Tries to install the plain logger, filtered by what `source` stands for:
/// the value of the environment variable named `source` where the lookup
/// found one (`looked_up`), else `source` itself as directives. A failed
/// lookup is never an error.
pub fn try_init_with(source: &str, looked_up: Option<String>) -> (r: Result<Installed, InitError>)
    ensures
        r matches Ok(i) ==> !i.timed() && i.directives() == seq![resolved_filters(source@, text_of(looked_up))],
        r is Err ==> r == Err::<Installed, InitError>(InitError::AlreadyInitialized),
{
    install_config(config_with(false, source, looked_up))
}

/// Tries to install the timed logger, filtered by what `source` stands for,
/// as in [`try_init_with`].
pub fn try_init_timed_with(source: &str, looked_up: Option<String>) -> (r: Result<Installed, InitError>)
    ensures
        r matches Ok(i) ==> i.timed() && i.directives() == seq![resolved_filters(source@, text_of(looked_up))],
        r is Err ==> r == Err::<Installed, InitError>(InitError::AlreadyInitialized),
{
    install_config(config_with(true, source, looked_up))
}

/// Tries to install the plain logger, filtered by the variable `RUST_LOG`;
/// `rust_log` is what its lookup gave.
pub fn try_init(rust_log: Option<String>) -> (r: Result<Installed, InitError>)
    ensures
        r matches Ok(i) ==> !i.timed() && i.directives() == seq![resolved_filters(DEFAULT_FILTER_ENV@, text_of(rust_log))],
        r is Err ==> r == Err::<Installed, InitError>(InitError::AlreadyInitialized),
{
    try_init_with(DEFAULT_FILTER_ENV, rust_log)
}

/// Tries to install the timed logger, filtered by the variable `RUST_LOG`;
/// `rust_log` is what its lookup gave.
pub fn try_init_timed(rust_log: Option<String>) -> (r: Result<Installed, InitError>)
    ensures
        r matches Ok(i) ==> i.timed() && i.directives() == seq![resolved_filters(DEFAULT_FILTER_ENV@, text_of(rust_log))],
        r is Err ==> r == Err::<Installed, InitError>(InitError::AlreadyInitialized),
{
    try_init_timed_with(DEFAULT_FILTER_ENV, rust_log)
}

/// The installing part of the fatal-stop entry point for the plain logger
/// and `RUST_LOG`. It never stops by itself: an `Err` is the signal on which
/// the program's own entry point must abort, since a second installation is a
/// programming error there.
pub fn init(rust_log: Option<String>) -> (r: Result<Installed, InitError>)
    ensures
        r matches Ok(i) ==> !i.timed() && i.directives() == seq![resolved_filters(DEFAULT_FILTER_ENV@, text_of(rust_log))],
        r is Err ==> r == Err::<Installed, InitError>(InitError::AlreadyInitialized),
{
    init_with(DEFAULT_FILTER_ENV, rust_log)
}

/// The installing part of the fatal-stop entry point for the timed logger and
/// `RUST_LOG`; an `Err` is the signal to abort on.
pub fn init_timed(rust_log: Option<String>) -> (r: Result<Installed, InitError>)
    ensures
        r matches Ok(i) ==> i.timed() && i.directives() == seq![resolved_filters(DEFAULT_FILTER_ENV@, text_of(rust_log))],
        r is Err ==> r == Err::<Installed, InitError>(InitError::AlreadyInitialized),
{
    init_timed_with(DEFAULT_FILTER_ENV, rust_log)
}

/// The installing part of the fatal-stop entry point for the plain logger and
/// a filter source; an `Err` is the signal to abort on.
pub fn init_with(source: &str, looked_up: Option<String>) -> (r: Result<Installed, InitError>)
    ensures
        r matches Ok(i) ==> !i.timed() && i.directives() == seq![resolved_filters(source@, text_of(looked_up))],
        r is Err ==> r == Err::<Installed, InitError>(InitError::AlreadyInitialized),
{
    try_init_with(source, looked_up)
}

/// The installing part of the fatal-stop entry point for the timed logger and
/// a filter source; an `Err` is the signal to abort on.
pub fn init_timed_with(source: &str, looked_up: Option<String>) -> (r: Result<Installed, InitError>)
    ensures
        r matches Ok(i) ==> i.timed() && i.directives() == seq![resolved_filters(source@, text_of(looked_up))],
        r is Err ==> r == Err::<Installed, InitError>(InitError::AlreadyInitialized),
{
    try_init_timed_with(source, looked_up)
}

} // verus!
