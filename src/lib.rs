//! One-call setup of a process-wide logger that writes coloured records to
//! standard error, with its filter taken either from an environment variable
//! or from an inline directive string.
//!
//! Reading the environment happens outside this library: callers hand in what
//! the lookup of a variable gave (`None` when it is unset or not valid text),
//! and the library decides which directives the logger is built with before
//! it installs it. The global logger can be installed once per process; every
//! later attempt fails with [`InitError::AlreadyInitialized`].

mod backend;
mod entry;
mod filters;
mod setup;

pub use backend::{InitError, Installed, LoggerBuilder};
pub use setup::{configured_builder, directives_for, install_config, registration_result};
pub use entry::{
    init, init_timed, init_timed_with, init_with, try_init, try_init_custom_string,
    try_init_timed, try_init_timed_custom_string, try_init_timed_with, try_init_with,
};
pub use filters::{
    config_with, resolve_filters, resolved_filters, text_of, LoggerConfig, DEFAULT_FILTER_ENV,
};
