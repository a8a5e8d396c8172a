//! The two scales a session is configured with: verbosity and backtrace
//! detail.

use vstd::prelude::*;

use core::cmp::Ordering;
use vstd::std_specs::cmp::PartialOrdSpecImpl;

use crate::backend::{
    filter_debug, filter_error, filter_info, filter_off, filter_rank, filter_trace, filter_warn,
};
use tracing_subscriber::filter::LevelFilter;

verus! {

/// A threshold on the severity of events: an event is observable if it is
/// at least as severe as the threshold, and suppressed if it is less
/// severe. `Off` suppresses every event, `Trace` none.
///
/// The scale runs from the most selective threshold to the least:
/// `Off < Error < Warn < Info < Debug < Trace`. [`LogLevel::rank`] is the
/// position on it, and `<` compares positions.
#[derive(Clone, Copy, Debug, PartialEq, Eq, Structural)]
pub enum LogLevel {
    Off,
    Error,
    Warn,
    Info,
    Debug,
    Trace,
}

impl LogLevel {
    /// Position on the verbosity scale, from 0 for `Off` to 5 for `Trace`.
    pub open spec fn rank(self) -> nat {
        match self {
            LogLevel::Off => 0,
            LogLevel::Error => 1,
            LogLevel::Warn => 2,
            LogLevel::Info => 3,
            LogLevel::Debug => 4,
            LogLevel::Trace => 5,
        }
    }

    /// Position on the verbosity scale, as a number to compute with.
    pub fn ordinal(&self) -> (n: u8)
        ensures
            n == self.rank(),
    {
        match self {
            LogLevel::Off => 0,
            LogLevel::Error => 1,
            LogLevel::Warn => 2,
            LogLevel::Info => 3,
            LogLevel::Debug => 4,
            LogLevel::Trace => 5,
        }
    }

    /// The backend's level filter that stands at the same position of the
    /// verbosity scale.
    pub fn level_filter(self) -> (f: LevelFilter)
        ensures
            filter_rank(f) == self.rank(),
    {
        match self {
            LogLevel::Off => filter_off(),
            LogLevel::Error => filter_error(),
            LogLevel::Warn => filter_warn(),
            LogLevel::Info => filter_info(),
            LogLevel::Debug => filter_debug(),
            LogLevel::Trace => filter_trace(),
        }
    }
}

impl PartialOrd for LogLevel {
    fn partial_cmp(&self, other: &LogLevel) -> (r: Option<Ordering>) {
        let a: u8 = self.ordinal();
        let b: u8 = other.ordinal();
        if a < b {
            Some(Ordering::Less)
        } else if a == b {
            Some(Ordering::Equal)
        } else {
            Some(Ordering::Greater)
        }
    }
}

impl PartialOrdSpecImpl for LogLevel {
    open spec fn obeys_partial_cmp_spec() -> bool {
        true
    }

    /// Levels compare as their ranks do.
    open spec fn partial_cmp_spec(&self, other: &LogLevel) -> Option<Ordering> {
        if self.rank() < other.rank() {
            Some(Ordering::Less)
        } else if self.rank() == other.rank() {
            Some(Ordering::Equal)
        } else {
            Some(Ordering::Greater)
        }
    }
}

/// How much of the call stack is rendered when a failure is captured.
#[derive(Clone, Copy, Debug, PartialEq, Eq, Structural)]
pub enum Backtrace {
    Full,
    Short,
}

impl Backtrace {
    /// The token that the backtrace mechanism reads from the process
    /// environment: `full` or `short`.
    pub open spec fn token(self) -> Seq<char> {
        match self {
            Backtrace::Full => "full"@,
            Backtrace::Short => "short"@,
        }
    }

    /// The token of this mode as an owned string.
    pub fn to_string(&self) -> (s: String)
        ensures
            s@ == self.token(),
    {
        match self {
            Backtrace::Full => "full",
            Backtrace::Short => "short",
        }.to_owned()
    }
}

} // verus!
