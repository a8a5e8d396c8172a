//! One-shot initialisation: the first session to reach a
//! [`DiagnosticState`] is committed, every later one is left unused.
//!
//! Nothing in this module locks or touches the process environment. The
//! caller serialises the calls, writes the backtrace token where
//! [`Commit::token`] says, and hands what it reads back to
//! [`Commit::conclude`].

use vstd::prelude::*;

use crate::backend::{logger_try_init, subscriber_try_init};
use crate::session::{DebugSession, SessionView};
use log::SetLoggerError;
use tracing_subscriber::filter::Targets;
use tracing_subscriber::util::TryInitError;

verus! {

/// The environment variable from which the backtrace mechanism reads its
/// mode.
pub const BACKTRACE_VARIABLE: &'static str = "RUST_BACKTRACE";

/// Which of the two installations the process refused.
#[derive(Clone, Copy, Debug, PartialEq, Eq, Structural)]
pub enum InstallError {
    /// The subscriber that carries the filter: the process had a global
    /// subscriber already.
    Subscriber,
    /// The environment logger: the process had a logger already.
    Logger,
}

/// How a commit ended.
#[derive(Clone, Copy, Debug, PartialEq, Eq, Structural)]
pub enum Outcome {
    /// Filter and logger are installed and the environment holds the
    /// backtrace token.
    Installed,
    /// The environment holds the token, but the process had a backend
    /// already. The process goes on with that one.
    Refused(InstallError),
    /// The environment did not give back the token that was written to it.
    /// Nothing that follows can be trusted: the caller must abort.
    Inconsistent,
}

impl Outcome {
    /// The outcome of a commit whose token was retained, by the result of
    /// the installation.
    pub open spec fn of_install(installed: Result<(), InstallError>) -> Outcome {
        match installed {
            Ok(_) => Outcome::Installed,
            Err(e) => Outcome::Refused(e),
        }
    }

    /// The outcome of a commit whose token was retained, by the result of
    /// the installation.
    pub fn from_install(installed: Result<(), InstallError>) -> (o: Outcome)
        ensures
            o == Outcome::of_install(installed),
    {
        match installed {
            Ok(_) => Outcome::Installed,
            Err(e) => Outcome::Refused(e),
        }
    }
}

/// How far initialisation has come.
pub enum Phase {
    /// No session was committed yet.
    Uninitialized,
    /// The session that was committed. There is no way back.
    Committed(SessionView),
}

impl Phase {
    /// The phase after one more session has asked to be committed.
    pub open spec fn claim(self, session: SessionView) -> Phase {
        match self {
            Phase::Uninitialized => Phase::Committed(session),
            Phase::Committed(_) => self,
        }
    }

    /// The phase after each of `sessions` has asked in turn.
    pub open spec fn claim_all(self, sessions: Seq<SessionView>) -> Phase
        decreases sessions.len(),
    {
        if sessions.len() == 0 {
            self
        } else {
            self.claim(sessions.first()).claim_all(sessions.drop_first())
        }
    }

    /// The directives of the committed filter.
    pub open spec fn filter(self) -> Option<Map<Option<Seq<char>>, nat>> {
        match self {
            Phase::Uninitialized => None,
            Phase::Committed(session) => Some(session.directives()),
        }
    }

    /// The committed backtrace token.
    pub open spec fn token(self) -> Option<Seq<char>> {
        match self {
            Phase::Uninitialized => None,
            Phase::Committed(session) => Some(session.backtrace.token()),
        }
    }

    /// How many of `sessions`, asking in turn, are committed.
    pub open spec fn commits(self, sessions: Seq<SessionView>) -> nat
        decreases sessions.len(),
    {
        if sessions.len() == 0 {
            0
        } else {
            let rest = self.claim(sessions.first()).commits(sessions.drop_first());
            if self is Uninitialized {
                rest + 1
            } else {
                rest
            }
        }
    }
}

/// Once a session is committed, no number of later sessions changes the
/// phase, and none of them is committed.
pub proof fn lemma_committed_is_final(phase: Phase, sessions: Seq<SessionView>)
    requires
        phase is Committed,
    ensures
        phase.claim_all(sessions) == phase,
        phase.commits(sessions) == 0,
    decreases sessions.len(),
{
    if sessions.len() > 0 {
        lemma_committed_is_final(phase, sessions.drop_first());
    }
}

/// However many sessions ask, exactly one is committed. It is the one that
/// asked first, and the committed filter and backtrace token are the ones
/// that it specifies.
pub proof fn lemma_first_claim_wins(sessions: Seq<SessionView>)
    requires
        sessions.len() >= 1,
    ensures
        Phase::Uninitialized.commits(sessions) == 1,
        Phase::Uninitialized.claim_all(sessions) == Phase::Committed(sessions[0]),
        Phase::Uninitialized.claim_all(sessions).filter() == Some(sessions[0].directives()),
        Phase::Uninitialized.claim_all(sessions).token() == Some(sessions[0].backtrace.token()),
{
    lemma_committed_is_final(Phase::Committed(sessions[0]), sessions.drop_first());
}

/// Sessions may arrive in any order: what is committed is one of them as
/// it was given, never a mixture of several.
pub proof fn lemma_committed_is_one_input(sessions: Seq<SessionView>)
    requires
        sessions.len() >= 1,
    ensures
        exists|i: int|
            0 <= i < sessions.len() && Phase::Uninitialized.claim_all(sessions)
                == Phase::Committed(#[trigger] sessions[i]),
{
    lemma_first_claim_wins(sessions);
    assert(Phase::Uninitialized.claim_all(sessions) == Phase::Committed(sessions[0]));
}

/// The process-wide record of what was committed.
pub struct DiagnosticState {
    committed: Option<DebugSession>,
}

impl View for DiagnosticState {
    type V = Phase;

    closed spec fn view(&self) -> Phase {
        match self.committed {
            None => Phase::Uninitialized,
            Some(session) => Phase::Committed(session@),
        }
    }
}

impl DiagnosticState {
    /// A state in which nothing is committed.
    pub fn new() -> (state: Self)
        ensures
            state@ == Phase::Uninitialized,
    {
        DiagnosticState { committed: None }
    }

    /// Whether a session was committed.
    pub fn is_committed(&self) -> (b: bool)
        ensures
            b == (self@ is Committed),
    {
        self.committed.is_some()
    }

    /// The session that was committed, if one was.
    pub fn committed(&self) -> (session: Option<&DebugSession>)
        ensures
            match session {
                None => self@ == Phase::Uninitialized,
                Some(s) => self@ == Phase::Committed(s@),
            },
    {
        self.committed.as_ref()
    }
}

/// A commit as a mathematical value.
pub struct CommitView {
    /// The token to write to the environment.
    pub token: Seq<char>,
    /// What became of the filter's installation.
    pub subscriber: Result<(), InstallError>,
}

impl CommitView {
    /// Whether `readback`, read from the environment after the token was
    /// written, is the token.
    pub open spec fn retained(self, readback: Option<Seq<char>>) -> bool {
        readback == Some(self.token)
    }
}

/// A commit under way: the filter was handed to the backend, and the
/// backtrace token waits to be written to the environment.
pub struct Commit {
    token: String,
    subscriber: Result<(), InstallError>,
}

impl View for Commit {
    type V = CommitView;

    closed spec fn view(&self) -> CommitView {
        CommitView { token: self.token@, subscriber: self.subscriber }
    }
}

/// What was read from the environment, as a mathematical value.
pub open spec fn readback_view(readback: Option<&str>) -> Option<Seq<char>> {
    match readback {
        None => None,
        Some(s) => Some(s@),
    }
}

/// Hands `filter` to the tracing backend as the filter of the process-wide
/// subscriber.
fn install_filter(filter: Targets) -> (r: Result<(), InstallError>)
    ensures
        r matches Err(e) ==> e == InstallError::Subscriber,
{
    let result = subscriber_try_init(filter);
    InstallError::of_subscriber(result)
}

/// Installs the environment logger.
fn install_logger() -> (r: Result<(), InstallError>)
    ensures
        r matches Err(e) ==> e == InstallError::Logger,
{
    let result = logger_try_init();
    InstallError::of_logger(result)
}

impl InstallError {
    /// What the backend answered to the subscriber, in this library's
    /// terms: accepted where the backend accepted, and refused as
    /// [`InstallError::Subscriber`] whatever the backend gave as its reason.
    pub fn of_subscriber(result: Result<(), TryInitError>) -> (r: Result<(), InstallError>)
        ensures
            r == (match result {
                Ok(_) => Ok(()),
                Err(_) => Err(InstallError::Subscriber),
            }),
    {
        match result {
            Ok(_) => Ok(()),
            Err(_) => Err(InstallError::Subscriber),
        }
    }

    /// What the backend answered to the environment logger, in this
    /// library's terms: accepted where the backend accepted, and refused
    /// as [`InstallError::Logger`] otherwise.
    pub fn of_logger(result: Result<(), SetLoggerError>) -> (r: Result<(), InstallError>)
        ensures
            r == (match result {
                Ok(_) => Ok(()),
                Err(_) => Err(InstallError::Logger),
            }),
    {
        match result {
            Ok(_) => Ok(()),
            Err(_) => Err(InstallError::Logger),
        }
    }
}

impl DebugSession {
    /// Commits this session to `state` if no session was committed before,
    /// and does nothing otherwise.
    ///
    /// The first session to arrive has its filter built and handed to the
    /// logging backend, is recorded in `state`, and gets a [`Commit`] to
    /// carry on with. Every later session is dropped: `state` stays as it
    /// is, the backend is not touched, and `None` comes back.
    pub fn init(self, state: &mut DiagnosticState) -> (commit: Option<Commit>)
        ensures
            final(state)@ == old(state)@.claim(self@),
            commit is Some <==> old(state)@ is Uninitialized,
            commit matches Some(c) ==> c@.token == self@.backtrace.token(),
            commit matches Some(c) ==> (c@.subscriber matches Err(e) ==> e
                == InstallError::Subscriber),
    {
        if state.is_committed() {
            return None;
        }
        let filter = self.build_filter();
        let subscriber = install_filter(filter);
        let token = self.backtrace_detail().to_string();
        state.committed = Some(self);
        Some(Commit { token, subscriber })
    }
}

impl Commit {
    /// The token to write to [`BACKTRACE_VARIABLE`].
    pub fn token(&self) -> (token: &str)
        ensures
            token@ == self@.token,
    {
        self.token.as_str()
    }

    /// What became of the filter's installation.
    pub fn subscriber(&self) -> (r: Result<(), InstallError>)
        ensures
            r == self@.subscriber,
    {
        self.subscriber
    }

    /// Whether `readback`, read from the environment after the token was
    /// written, is the token.
    pub fn retained(&self, readback: Option<&str>) -> (b: bool)
        ensures
            b == self@.retained(readback_view(readback)),
    {
        match readback {
            None => false,
            Some(s) => s.to_owned() == self.token,
        }
    }

    /// Ends the commit, given what the environment holds after the token
    /// was written to it.
    ///
    /// Without the token in the environment the commit is
    /// [`Outcome::Inconsistent`] and nothing more is installed. With it, a
    /// refused filter is reported as it is; after an accepted one the
    /// environment logger is installed, and its result is the outcome.
    pub fn conclude(self, readback: Option<&str>) -> (o: Outcome)
        ensures
            o == Outcome::Inconsistent <==> !self@.retained(readback_view(readback)),
            self@.retained(readback_view(readback)) && self@.subscriber is Err ==> o
                == Outcome::of_install(self@.subscriber),
            self@.retained(readback_view(readback)) && self@.subscriber is Ok ==> o
                == Outcome::Installed || o == Outcome::Refused(InstallError::Logger),
    {
        if !self.retained(readback) {
            return Outcome::Inconsistent;
        }
        match self.subscriber {
            Err(_) => Outcome::from_install(self.subscriber),
            Ok(_) => Outcome::from_install(install_logger()),
        }
    }
}

} // verus!
