//! The logging bootstrap: resolves the severity filter and the local time
//! source, builds the rolling-file sink behind a non-blocking writer, and
//! installs the composed layers as the process-wide subscriber, optionally
//! together with `color_eyre`'s error-report hooks.

use crate::ext;
use crate::plan;
use time::format_description::well_known::Rfc3339;
use tracing_appender::non_blocking::{NonBlocking, WorkerGuard};
use tracing_subscriber::filter::EnvFilter;
use tracing_subscriber::fmt::time::OffsetTime;
use vstd::prelude::*;

pub use tracing::Level;
pub use tracing_appender::rolling::Rotation;

verus! {

/// Everything that can end the bootstrap early.  Every failure surfaces as a
/// value of this type; none of the verified functions of this crate panics.
#[derive(Debug)]
pub enum ErrorFromInitTracingSubscriberAndEyre {
    /// The host's local UTC offset could not be determined, so every
    /// timestamp would be ambiguous.
    TimeOffsetGetError(time::error::IndeterminateOffset),
    /// The filesystem refused to create `logs_dir`: the bootstrap classifies
    /// the outcome of that caller-edge step under this kind.
    IOError(std::io::Error),
    /// The rotation or filename configuration is invalid, or the log
    /// directory or the initial log file could not be created.
    AppenderInitError(tracing_appender::rolling::InitError),
    /// The `color_eyre` panic and error-report hooks could not be installed,
    /// for instance because hooks were already installed.
    EyreInstallFailure(color_eyre::eyre::Report),
    /// A global subscriber was already installed in this process; the earlier
    /// installation stays intact.
    SubscriberInstallError(tracing_subscriber::util::TryInitError),
}

impl ErrorFromInitTracingSubscriberAndEyre {
    /// Wraps a filesystem error met at the caller's edge, such as creating
    /// the log directory ahead of the bootstrap.
    pub fn from_io_error(e: std::io::Error) -> (r: Self)
        ensures
            r matches ErrorFromInitTracingSubscriberAndEyre::IOError(inner) && inner == e,
    {
        ErrorFromInitTracingSubscriberAndEyre::IOError(e)
    }
}

/// The file layer writes colorless text: ANSI escapes would garble the log
/// files.
const FILE_LAYER_ANSI: bool = false;

/// Resolves the severity filter from the process environment; when the
/// environment holds no parseable directives, falls back to the fixed
/// default of the `info` level.  Resolution never fails.
pub fn resolve_env_filter() -> EnvFilter {
    match ext::env_filter_from_default_env() {
        Ok(filter) => filter,
        Err(_) => ext::env_filter_new("info"),
    }
}

/// Resolves the local time source used to timestamp every record.  An
/// indeterminate host offset is reported, never silently defaulted, since all
/// subsequent timestamps depend on it.
pub fn resolve_local_time() -> (r: Result<
    OffsetTime<Rfc3339>,
    ErrorFromInitTracingSubscriberAndEyre,
>)
    ensures
        r matches Err(e) ==> e is TimeOffsetGetError,
{
    match ext::local_offset_time() {
        Ok(timer) => Ok(timer),
        Err(e) => Err(ErrorFromInitTracingSubscriberAndEyre::TimeOffsetGetError(e)),
    }
}

/// Classifies the outcome of ensuring that `logs_dir` exists as a directory.
/// Creating the directory is filesystem work that stands at the caller's
/// edge; the caller hands the outcome in as a plain value, and a failure
/// there surfaces as exactly the I/O error kind, wrapping the underlying
/// filesystem error.
pub fn check_logs_dir_creation(logs_dir_creation: Result<(), std::io::Error>) -> (r: Result<
    (),
    ErrorFromInitTracingSubscriberAndEyre,
>)
    ensures
        logs_dir_creation is Ok ==> r is Ok,
        logs_dir_creation matches Err(ioe) ==> r matches Err(
            ErrorFromInitTracingSubscriberAndEyre::IOError(x),
        ) && x == ioe,
{
    match logs_dir_creation {
        Ok(()) => Ok(()),
        Err(e) => Err(ErrorFromInitTracingSubscriberAndEyre::from_io_error(e)),
    }
}

/// Builds the rolling-file sink: the appender rooted at `logs_dir` with the
/// given filename prefix, suffix and rotation cadence, wrapped in a
/// non-blocking writer.  The appender creates `logs_dir` when it is absent.
/// The only failure this phase can report is an appender-initialization
/// failure.
pub fn build_file_sink(
    logs_dir: &str,
    logfile_prefix: &str,
    logfile_suffix: &str,
    rotation: Rotation,
) -> (r: Result<(NonBlocking, WorkerGuard), ErrorFromInitTracingSubscriberAndEyre>)
    ensures
        r matches Err(e) ==> e is AppenderInitError,
{
    let appender = match ext::build_rolling_appender(
        logs_dir,
        logfile_prefix,
        logfile_suffix,
        rotation,
    ) {
        Ok(appender) => appender,
        Err(e) => {
            return Err(ErrorFromInitTracingSubscriberAndEyre::AppenderInitError(e));
        },
    };
    Ok(ext::non_blocking_writer(appender))
}

/// Installs the `color_eyre` panic and error-report hooks when `install`
/// asks for it; when it does not, this phase does nothing and cannot fail.
pub fn install_error_reporter(install: bool) -> (r: Result<
    (),
    ErrorFromInitTracingSubscriberAndEyre,
>)
    ensures
        !install ==> r is Ok,
        r matches Err(e) ==> e is EyreInstallFailure,
{
    if install {
        match ext::install_color_eyre() {
            Ok(()) => Ok(()),
            Err(e) => Err(ErrorFromInitTracingSubscriberAndEyre::EyreInstallFailure(e)),
        }
    } else {
        Ok(())
    }
}

/// Folds the planned layers into one subscriber and installs it as the
/// process-wide default.  The plan always carries the severity filter, the
/// error-context capture and the file sink, and carries the console sink
/// exactly when `enable_console` is set.  Installation fails only when a
/// global subscriber is already set, and then leaves the earlier
/// installation intact.
pub fn compose_and_install(
    filter: EnvFilter,
    timer: &OffsetTime<Rfc3339>,
    writer: NonBlocking,
    enable_console: bool,
) -> (r: Result<(), ErrorFromInitTracingSubscriberAndEyre>)
    ensures
        r matches Err(e) ==> e is SubscriberInstallError,
{
    let layers = plan::plan_layers(enable_console);
    let with_console = plan::layers_contain_console(&layers);
    proof {
        plan::lemma_console_sink_iff_enabled(enable_console);
        assert(with_console == enable_console);
    }
    let installed = if with_console {
        ext::try_install_subscriber_with_console(filter, timer, writer, FILE_LAYER_ANSI)
    } else {
        ext::try_install_subscriber_file_only(filter, timer, writer, FILE_LAYER_ANSI)
    };
    match installed {
        Ok(()) => Ok(()),
        Err(e) => Err(ErrorFromInitTracingSubscriberAndEyre::SubscriberInstallError(e)),
    }
}

/// Initializes process-wide logging and error reporting, and returns the
/// guard that keeps the background flush worker alive.
///
/// Creating `logs_dir` is the one filesystem step that stands at the
/// caller's edge: the caller attempts it and hands the outcome in as
/// `logs_dir_creation`.  The phases then run in order, each a potential
/// failure point that aborts the call: the severity filter is resolved from
/// the environment (never fails, falling back to the `info` level); the
/// local time source is resolved; a failed `logs_dir_creation` outcome is
/// reported as the I/O error kind, wrapping the underlying filesystem error;
/// the rolling-file sink is built (the appender re-creates `logs_dir` were
/// it removed meanwhile); the error-report hooks are installed when
/// `install_eyre_color` asks for it; and at the very end — so that no
/// failure leaves a half-installed subscriber — the composed layers are
/// installed as the process-wide subscriber.  File output is unconditionally
/// active; the console layer is stacked above it exactly when
/// `enable_formatting_layer` is set.
///
/// A second call in the same process deterministically returns an error —
/// `EyreInstallFailure` when both calls asked for the report hooks, else
/// `SubscriberInstallError` — and leaves the first installation's
/// configuration intact.
pub fn get_guard_from_init_tracing_subscriber_and_eyre(
    logs_dir: &str,
    logs_dir_creation: Result<(), std::io::Error>,
    logfile_prefix: &str,
    logfile_suffix: &str,
    rotation: Rotation,
    enable_formatting_layer: bool,
    install_eyre_color: bool,
) -> (r: Result<WorkerGuard, ErrorFromInitTracingSubscriberAndEyre>)
    ensures
        logs_dir_creation matches Err(ioe) ==> r matches Err(e) && (e is TimeOffsetGetError
            || (e matches ErrorFromInitTracingSubscriberAndEyre::IOError(x) && x == ioe)),
        r matches Err(ErrorFromInitTracingSubscriberAndEyre::IOError(x))
            ==> logs_dir_creation matches Err(ioe) && x == ioe,
        !install_eyre_color ==> (r matches Err(e) ==> !(e is EyreInstallFailure)),
{
    let env_filter = resolve_env_filter();
    let offset_time = match resolve_local_time() {
        Ok(timer) => timer,
        Err(e) => {
            return Err(e);
        },
    };
    match check_logs_dir_creation(logs_dir_creation) {
        Ok(()) => (),
        Err(e) => {
            return Err(e);
        },
    };
    let (non_blocking_appender, guard) = match build_file_sink(
        logs_dir,
        logfile_prefix,
        logfile_suffix,
        rotation,
    ) {
        Ok(sink) => sink,
        Err(e) => {
            return Err(e);
        },
    };
    match install_error_reporter(install_eyre_color) {
        Ok(()) => (),
        Err(e) => {
            return Err(e);
        },
    };
    match compose_and_install(
        env_filter,
        &offset_time,
        non_blocking_appender,
        enable_formatting_layer,
    ) {
        Ok(()) => (),
        Err(e) => {
            return Err(e);
        },
    };
    Ok(guard)
}

} // verus!
