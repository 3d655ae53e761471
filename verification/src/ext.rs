//! The boundary to the outside logging crates: declarations of their types,
//! and the thin trusted wrappers through which the verified bootstrap calls
//! them.  Every result here depends on the process environment, the clock,
//! the filesystem or process-wide global state, so no wrapper promises
//! success; the verified callers state what holds of every outcome.

use tracing_appender::non_blocking::{NonBlocking, WorkerGuard};
use tracing_appender::rolling::{InitError, RollingFileAppender, Rotation};
use tracing_error::ErrorLayer;
use tracing_subscriber::filter::{EnvFilter, FromEnvError};
use tracing_subscriber::fmt;
use tracing_subscriber::fmt::time::OffsetTime;
use tracing_subscriber::layer::SubscriberExt;
use tracing_subscriber::util::{SubscriberInitExt, TryInitError};
use tracing_subscriber::Registry;
use time::format_description::well_known::Rfc3339;
use vstd::prelude::*;

verus! {

#[verifier::external_type_specification]
#[verifier::external_body]
pub struct ExEnvFilter(EnvFilter);

#[verifier::external_type_specification]
#[verifier::external_body]
pub struct ExFromEnvError(FromEnvError);

#[verifier::external_type_specification]
#[verifier::external_body]
#[verifier::reject_recursive_types(F)]
pub struct ExOffsetTime<F>(OffsetTime<F>);

#[verifier::external_type_specification]
#[verifier::external_body]
pub struct ExRfc3339(Rfc3339);

#[verifier::external_type_specification]
#[verifier::external_body]
pub struct ExIndeterminateOffset(time::error::IndeterminateOffset);

#[verifier::external_type_specification]
#[verifier::external_body]
pub struct ExRotation(Rotation);

#[verifier::external_type_specification]
#[verifier::external_body]
pub struct ExRollingFileAppender(RollingFileAppender);

#[verifier::external_type_specification]
#[verifier::external_body]
pub struct ExInitError(InitError);

#[verifier::external_type_specification]
#[verifier::external_body]
pub struct ExNonBlocking(NonBlocking);

#[verifier::external_type_specification]
#[verifier::external_body]
pub struct ExWorkerGuard(WorkerGuard);

#[verifier::external_type_specification]
#[verifier::external_body]
pub struct ExReport(color_eyre::eyre::Report);

#[verifier::external_type_specification]
#[verifier::external_body]
pub struct ExTryInitError(TryInitError);

#[verifier::external_type_specification]
#[verifier::external_body]
pub struct ExIoError(std::io::Error);

/// Relies on `EnvFilter::try_from_default_env`: reads the severity directives
/// from the process environment's default filter variable; fails if the
/// variable is unset or holds an invalid directive.
#[verifier::external_body]
pub(crate) fn env_filter_from_default_env() -> Result<EnvFilter, FromEnvError> {
    EnvFilter::try_from_default_env()
}

/// Relies on `EnvFilter::new`: builds a filter from the given directives,
/// ignoring invalid ones; it does not fail.
#[verifier::external_body]
pub(crate) fn env_filter_new(directives: &str) -> EnvFilter {
    EnvFilter::new(directives)
}

/// Relies on `OffsetTime::local_rfc_3339`: captures the host's local UTC
/// offset for RFC 3339 timestamps, or reports that the offset is
/// indeterminate.
#[verifier::external_body]
pub(crate) fn local_offset_time() -> Result<OffsetTime<Rfc3339>, time::error::IndeterminateOffset> {
    OffsetTime::local_rfc_3339()
}

/// Relies on `RollingFileAppender::builder` and `Builder::build`: validates
/// the rotation and filename configuration, creates the log directory when it
/// is absent, and opens the initial log file; any failure there yields an
/// `InitError`.
#[verifier::external_body]
pub(crate) fn build_rolling_appender(
    logs_dir: &str,
    prefix: &str,
    suffix: &str,
    rotation: Rotation,
) -> Result<RollingFileAppender, InitError> {
    RollingFileAppender::builder()
        .rotation(rotation)
        .filename_prefix(prefix)
        .filename_suffix(suffix)
        .build(logs_dir)
}

/// Relies on `tracing_appender::non_blocking`: wraps the appender in a
/// buffered writer whose background worker flushes lines while the returned
/// guard is held.
#[verifier::external_body]
pub(crate) fn non_blocking_writer(appender: RollingFileAppender) -> (NonBlocking, WorkerGuard) {
    tracing_appender::non_blocking(appender)
}

/// Relies on `color_eyre::install`: installs the process-wide panic and
/// error-report hooks; fails if such hooks were already installed.
#[verifier::external_body]
pub(crate) fn install_color_eyre() -> Result<(), color_eyre::eyre::Report> {
    color_eyre::install()
}

/// Relies on the `tracing_subscriber` registry, its fmt layer, the
/// `tracing_error` context layer and `SubscriberInitExt::try_init`: stacks
/// the severity filter, error-context capture and a pretty, timestamped file
/// layer over the buffered writer — its ANSI colouring following
/// `file_ansi` — and installs the result as the process-wide subscriber;
/// fails if a global subscriber is already set, leaving the earlier
/// installation intact.
#[verifier::external_body]
pub(crate) fn try_install_subscriber_file_only(
    filter: EnvFilter,
    timer: &OffsetTime<Rfc3339>,
    writer: NonBlocking,
    file_ansi: bool,
) -> Result<(), TryInitError> {
    let file_layer = fmt::layer()
        .pretty()
        .with_ansi(file_ansi)
        .with_timer(timer.clone())
        .with_writer(writer);
    Registry::default()
        .with(filter)
        .with(ErrorLayer::default())
        .with(file_layer)
        .try_init()
}

/// Relies on the same items as `try_install_subscriber_file_only`, adding a
/// pretty, timestamped console layer on the process's standard error stream
/// above the file layer; fails if a global subscriber is already set, leaving
/// the earlier installation intact.
#[verifier::external_body]
pub(crate) fn try_install_subscriber_with_console(
    filter: EnvFilter,
    timer: &OffsetTime<Rfc3339>,
    writer: NonBlocking,
    file_ansi: bool,
) -> Result<(), TryInitError> {
    let file_layer = fmt::layer()
        .pretty()
        .with_ansi(file_ansi)
        .with_timer(timer.clone())
        .with_writer(writer);
    let console_layer = fmt::layer()
        .pretty()
        .with_timer(timer.clone())
        .with_writer(std::io::stderr);
    Registry::default()
        .with(filter)
        .with(ErrorLayer::default())
        .with(file_layer)
        .with(console_layer)
        .try_init()
}

} // verus!
