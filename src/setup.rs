use vstd::prelude::*;
use log::SetLoggerError;
use crate::backend::{apply_filters, install, plain_builder, timed_builder, InitError, Installed, LoggerBuilder};
use crate::filters::{text_of, LoggerConfig};

verus! {

/// What an attempt to install the global logger means to callers: success,
/// or `AlreadyInitialized` for the backend's one error.
pub fn registration_result(outcome: Result<Installed, SetLoggerError>) -> (r: Result<Installed, InitError>)
    ensures
        outcome matches Ok(i) ==> r == Ok::<Installed, InitError>(i),
        outcome is Err ==> r == Err::<Installed, InitError>(InitError::AlreadyInitialized),
{
    match outcome {
        Ok(installed) => Ok(installed),
        Err(_) => Err(InitError::AlreadyInitialized),
    }
}

/// The directive strings that a builder receives for optional filters: the
/// one given, or none at all, which leaves the backend's default filtering.
pub open spec fn directives_for(filters: Option<Seq<char>>) -> Seq<Seq<char>> {
    match filters {
        Some(d) => seq![d],
        None => Seq::empty(),
    }
}

/// Makes the builder that `config` describes: the timed one or the plain
/// one, with its filters applied where there are any.
pub fn configured_builder(config: LoggerConfig) -> (b: LoggerBuilder)
    ensures
        b.timed() == config.timed,
        b.directives() == directives_for(text_of(config.filters)),
{
    let mut builder = if config.timed {
        timed_builder()
    } else {
        plain_builder()
    };
    if let Some(directives) = config.filters {
        apply_filters(&mut builder, directives.as_str());
    }
    builder
}

/// Builds the logger that `config` describes and tries to install it as the
/// process-wide logger. Whether that succeeds is decided by the process: it
/// does exactly when no logger was installed before, and a failure leaves
/// the installed one as it was.
pub fn install_config(config: LoggerConfig) -> (r: Result<Installed, InitError>)
    ensures
        r matches Ok(i) ==> i.timed() == config.timed && i.directives() == directives_for(
            text_of(config.filters),
        ),
        r is Err ==> r == Err::<Installed, InitError>(InitError::AlreadyInitialized),
{
    registration_result(install(configured_builder(config)))
}

} // verus!
