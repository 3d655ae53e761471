//! Bootstrap for process-wide structured logging and error reporting.
//!
//! The crate wires an environment-derived severity filter, a local-time
//! source, an optional pretty console layer, and a rolling-file layer behind
//! a non-blocking writer into one global `tracing` subscriber, and optionally
//! installs `color_eyre`'s panic and error-report hooks.  Initialization is a
//! single sequential call; the caller receives a guard whose lifetime keeps
//! the background flush worker alive.

pub mod logger;
pub mod plan;
mod ext;
