use vstd::prelude::*;
use pretty_env_logger::env_logger::Builder;
use log::SetLoggerError;

verus! {

#[verifier::external_type_specification]
#[verifier::external_body]
pub struct ExBuilder(Builder);

#[verifier::external_type_specification]
#[verifier::external_body]
pub struct ExSetLoggerError(SetLoggerError);

/// The one way in which setting up the global logger can fail.
#[derive(Debug, Clone, Copy, PartialEq, Eq, Structural)]
pub enum InitError {
    /// A global logger was already installed earlier in this process; it
    /// stays in place, unchanged.
    AlreadyInitialized,
}

/// An env_logger builder that has never been built, with a record of how it
/// was made: `timed` when it prefixes records with a timestamp, and the
/// directive strings applied to it, in order.
pub struct LoggerBuilder {
    inner: Builder,
    timed: Ghost<bool>,
    applied: Ghost<Seq<Seq<char>>>,
}

impl LoggerBuilder {
    /// Whether the builder prefixes each record with a timestamp.
    pub closed spec fn timed(&self) -> bool {
        self.timed@
    }

    /// The directive strings applied to the builder, in order.
    pub closed spec fn directives(&self) -> Seq<Seq<char>> {
        self.applied@
    }
}

/// The record of a logger that was installed as the process-wide logger:
/// whether it is timed, and the directive strings it was built with. Only
/// a successful installation below hands one out.
pub struct Installed {
    timed: Ghost<bool>,
    applied: Ghost<Seq<Seq<char>>>,
}

impl Installed {
    /// Whether the installed logger prefixes each record with a timestamp.
    pub closed spec fn timed(&self) -> bool {
        self.timed@
    }

    /// The directive strings the installed logger was built with, in order.
    pub closed spec fn directives(&self) -> Seq<Seq<char>> {
        self.applied@
    }
}

/// Relies on pretty_env_logger::formatted_builder: a fresh, never built
/// env_logger builder with the coloured format and no filter directives.
#[verifier::external_body]
pub(crate) fn plain_builder() -> (b: LoggerBuilder)
    ensures
        b.timed() == false,
        b.directives() == Seq::<Seq<char>>::empty(),
{
    LoggerBuilder {
        inner: pretty_env_logger::formatted_builder(),
        timed: Ghost(false),
        applied: Ghost(Seq::empty()),
    }
}

/// Relies on pretty_env_logger::formatted_timed_builder: as the plain one,
/// with a timestamp in front of each record.
#[verifier::external_body]
pub(crate) fn timed_builder() -> (b: LoggerBuilder)
    ensures
        b.timed() == true,
        b.directives() == Seq::<Seq<char>>::empty(),
{
    LoggerBuilder {
        inner: pretty_env_logger::formatted_timed_builder(),
        timed: Ghost(true),
        applied: Ghost(Seq::empty()),
    }
}

/// Relies on env_logger::Builder::parse_filters: adds the directives of
/// `filters` to the builder. Malformed directives are skipped by the backend
/// with a warning; the call does not fail.
#[verifier::external_body]
pub(crate) fn apply_filters(builder: &mut LoggerBuilder, filters: &str)
    ensures
        final(builder).timed() == old(builder).timed(),
        final(builder).directives() == old(builder).directives().push(filters@),
{
    builder.inner.parse_filters(filters);
}

/// Relies on env_logger::Builder::try_init: builds the logger from this very
/// builder and hands it to log::set_boxed_logger, which fails when a logger
/// is already installed. On success the record of the builder becomes the
/// record of the installed logger.
/// The builder is taken by value and every `LoggerBuilder` comes fresh from
/// one of the two constructors above, so it has never been built (building
/// twice is the one panic of that method).
#[verifier::external_body]
pub(crate) fn install(builder: LoggerBuilder) -> (r: Result<Installed, SetLoggerError>)
    ensures
        r matches Ok(i) ==> i.timed() == builder.timed() && i.directives() == builder.directives(),
{
    let LoggerBuilder { inner, timed, applied } = builder;
    let mut inner = inner;
    match inner.try_init() {
        Ok(()) => Ok(Installed { timed, applied }),
        Err(e) => Err(e),
    }
}

} // verus!
