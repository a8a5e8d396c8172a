//! One-shot configuration of process-wide diagnostics.
//!
//! A [`DebugSession`] collects a default verbosity, per-module overrides and
//! a backtrace mode. [`DebugSession::init`] commits the first session that
//! reaches a [`DiagnosticState`] and leaves every later one unused.

pub mod backend;
pub mod gate;
pub mod level;
pub mod session;

pub use gate::{
    Commit, CommitView, DiagnosticState, InstallError, Outcome, Phase, BACKTRACE_VARIABLE,
};
pub use level::{Backtrace, LogLevel};
pub use session::{DebugSession, SessionView};
