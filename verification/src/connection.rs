//! The connection manager: bounded retries while the transport is opened, then the handshake
//! that is driven until the server is ready.
//!
//! The caller does the outside work (opens the transport, sleeps, advances the transport's
//! event processing) and reports each outcome here; the functions of this module decide what
//! follows.

use vstd::prelude::*;
use crate::error::{ProtocolCode, SyncError};

verus! {

/// How many times the transport is opened before the connection is given up.
pub const MAX_ATTEMPTS: u32 = 10;

/// Where a connection stands.
#[derive(Clone, Copy, Debug, PartialEq, Eq, Structural)]
pub enum Phase {
    /// The transport is not open.
    Disconnected,
    /// The transport is open and the handshake is under way.
    Connecting,
    /// The server is ready: subscriptions and queries may be issued.
    Ready,
    /// The connection was given up.
    Failed,
}

/// Outcome of one event-processing step of the transport.
#[derive(Clone, Copy, Debug, PartialEq, Eq, Structural)]
pub enum StepOutcome {
    Success,
    Quit,
    Error,
}

/// State of the link as the server reports it.
#[derive(Clone, Copy, Debug, PartialEq, Eq, Structural)]
pub enum ServerState {
    Unconnected,
    Connecting,
    Authorizing,
    SettingName,
    Ready,
    Failed,
    Terminated,
}

/// How the transport's event loop came to its end.
#[derive(Clone, Copy, Debug, PartialEq, Eq, Structural)]
pub enum RunEnd {
    /// The loop was asked to quit.
    Quit,
    /// The loop broke off with a failure.
    Error,
}

/// What to do after an attempt to open the transport.
#[derive(Clone, Copy, Debug, PartialEq, Eq, Structural)]
pub enum Attempt {
    /// The transport is open: go on with the handshake.
    Opened,
    /// The attempt failed: wait this many seconds, then try again.
    RetryAfter(u64),
}

/// What to do after a step of the handshake.
#[derive(Clone, Copy, Debug, PartialEq, Eq, Structural)]
pub enum Handshake {
    /// The server is not ready yet: take another step.
    Continue,
    /// The server is ready.
    Established,
}

/// Mathematical value of a [`Connection`].
pub ghost struct ConnectionView {
    pub phase: Phase,
    /// Attempts to open the transport that are still allowed.
    pub attempts_left: nat,
    /// Seconds to wait between two attempts.
    pub timeout: u64,
}

impl ConnectionView {
    /// A connection before the first attempt.
    pub open spec fn fresh(timeout: u64) -> Self {
        ConnectionView { phase: Phase::Disconnected, attempts_left: MAX_ATTEMPTS as nat, timeout }
    }

    /// The connection after an attempt to open the transport was reported.
    ///
    /// While disconnected, a success starts the handshake; a failure uses up one of the
    /// allowed attempts, and the failure that uses up the last one gives the connection
    /// up.  In any other phase the report changes nothing.
    pub open spec fn after_attempt(self, opened: bool) -> Self {
        if self.phase != Phase::Disconnected {
            self
        } else if opened {
            ConnectionView { phase: Phase::Connecting, ..self }
        } else if self.attempts_left <= 1 {
            ConnectionView { phase: Phase::Failed, attempts_left: 0, ..self }
        } else {
            ConnectionView { attempts_left: (self.attempts_left - 1) as nat, ..self }
        }
    }

    /// What the caller is told after an attempt to open the transport was reported.
    pub open spec fn attempt_answer(self, opened: bool) -> Result<Attempt, SyncError> {
        if self.phase != Phase::Disconnected {
            Err(SyncError::ProtocolError(ProtocolCode::BadState))
        } else if opened {
            Ok(Attempt::Opened)
        } else if self.attempts_left <= 1 {
            Err(SyncError::ConnectionTimeout)
        } else {
            Ok(Attempt::RetryAfter(self.timeout))
        }
    }

    /// Whether a handshake step brings the handshake down: the step itself failed or asked
    /// to quit, or the server reports that the link failed or was terminated.
    pub open spec fn step_fails(step: StepOutcome, server: ServerState) -> bool {
        step != StepOutcome::Success || Self::link_lost(server)
    }

    /// The connection after a step of the handshake was reported.  Outside of the handshake
    /// the report changes nothing.
    pub open spec fn after_handshake(self, step: StepOutcome, server: ServerState) -> Self {
        if self.phase != Phase::Connecting {
            self
        } else if Self::step_fails(step, server) {
            ConnectionView { phase: Phase::Failed, ..self }
        } else if server == ServerState::Ready {
            ConnectionView { phase: Phase::Ready, ..self }
        } else {
            self
        }
    }

    /// What the caller is told after a step of the handshake was reported.
    pub open spec fn handshake_answer(self, step: StepOutcome, server: ServerState) -> Result<
        Handshake,
        SyncError,
    > {
        if self.phase != Phase::Connecting || Self::step_fails(step, server) {
            Err(SyncError::ProtocolError(ProtocolCode::BadState))
        } else if server == ServerState::Ready {
            Ok(Handshake::Established)
        } else {
            Ok(Handshake::Continue)
        }
    }

    /// Whether the server reports that the link is gone.
    pub open spec fn link_lost(server: ServerState) -> bool {
        server == ServerState::Failed || server == ServerState::Terminated
    }

    /// The connection after the server reported its state while the connection was in use:
    /// a ready connection fails when the link is gone; nothing changes otherwise.
    pub open spec fn after_report(self, server: ServerState) -> Self {
        if self.phase == Phase::Ready && Self::link_lost(server) {
            ConnectionView { phase: Phase::Failed, ..self }
        } else {
            self
        }
    }

    /// What the caller is told after the server reported its state while the connection was
    /// in use.
    pub open spec fn report_answer(self, server: ServerState) -> Result<(), SyncError> {
        if self.phase == Phase::Ready && !Self::link_lost(server) {
            Ok(())
        } else {
            Err(SyncError::ProtocolError(ProtocolCode::BadState))
        }
    }

    /// The connection after the transport's event loop ended.  A ready connection is over
    /// and has failed, whether the loop broke off or was asked to quit; nothing changes in
    /// any other phase.
    pub open spec fn after_run(self, end: RunEnd) -> Self {
        if self.phase == Phase::Ready {
            ConnectionView { phase: Phase::Failed, ..self }
        } else {
            self
        }
    }

    /// The failure with which a run ends when the transport's event loop has ended.  A loop
    /// that broke off is a failed transport; a loop that was asked to quit, like a quit
    /// during the handshake, is a bad state, and so is the end of a loop on a connection
    /// that was not ready.
    pub open spec fn run_error(self, end: RunEnd) -> SyncError {
        if self.phase == Phase::Ready && end == RunEnd::Error {
            SyncError::ProtocolError(ProtocolCode::TransportFailed)
        } else {
            SyncError::ProtocolError(ProtocolCode::BadState)
        }
    }
}

/// The link to the audio server, as far as the synchronizer has to know it.
#[derive(Debug)]
pub struct Connection {
    phase: Phase,
    attempts_left: u32,
    timeout: u64,
}

impl View for Connection {
    type V = ConnectionView;

    closed spec fn view(&self) -> ConnectionView {
        ConnectionView {
            phase: self.phase,
            attempts_left: self.attempts_left as nat,
            timeout: self.timeout,
        }
    }
}

impl Connection {
    /// A connection that has not been tried yet; `timeout` is the number of seconds to wait
    /// between two attempts.
    pub fn new(timeout: u64) -> (connection: Connection)
        ensures
            connection@ == ConnectionView::fresh(timeout),
    {
        Connection { phase: Phase::Disconnected, attempts_left: MAX_ATTEMPTS, timeout }
    }

    /// The phase the connection is in.
    pub fn phase(&self) -> (phase: Phase)
        ensures
            phase == self@.phase,
    {
        self.phase
    }

    /// Whether the server is ready, so that subscriptions and queries may be issued.
    pub fn is_ready(&self) -> (ready: bool)
        ensures
            ready == (self@.phase == Phase::Ready),
    {
        self.phase == Phase::Ready
    }

    /// Attempts to open the transport that are still allowed.
    pub fn attempts_left(&self) -> (left: u32)
        ensures
            left == self@.attempts_left,
    {
        self.attempts_left
    }

    /// Records the outcome of one attempt to open the transport and says what follows.
    ///
    /// The failure of the last allowed attempt is answered with `ConnectionTimeout`; an
    /// earlier one with the number of seconds to wait before the next attempt.  A report outside the
    /// disconnected phase is answered with `ProtocolError(BadState)`.
    pub fn attempt(&mut self, opened: bool) -> (answer: Result<Attempt, SyncError>)
        ensures
            final(self)@ == old(self)@.after_attempt(opened),
            answer == old(self)@.attempt_answer(opened),
    {
        if self.phase != Phase::Disconnected {
            Err(SyncError::ProtocolError(ProtocolCode::BadState))
        } else if opened {
            self.phase = Phase::Connecting;
            Ok(Attempt::Opened)
        } else if self.attempts_left <= 1 {
            self.phase = Phase::Failed;
            self.attempts_left = 0;
            Err(SyncError::ConnectionTimeout)
        } else {
            self.attempts_left = self.attempts_left - 1;
            Ok(Attempt::RetryAfter(self.timeout))
        }
    }

    /// Records one step of the handshake and says what follows.
    ///
    /// `step` is the outcome of advancing the transport's event processing once, `server`
    /// the state that the server reports after it.  A failed step is judged before the
    /// server's state is looked at.
    pub fn handshake(&mut self, step: StepOutcome, server: ServerState) -> (answer: Result<
        Handshake,
        SyncError,
    >)
        ensures
            final(self)@ == old(self)@.after_handshake(step, server),
            answer == old(self)@.handshake_answer(step, server),
    {
        if self.phase != Phase::Connecting {
            return Err(SyncError::ProtocolError(ProtocolCode::BadState));
        }
        match step {
            StepOutcome::Success => {},
            StepOutcome::Quit => {
                self.phase = Phase::Failed;
                return Err(SyncError::ProtocolError(ProtocolCode::BadState));
            },
            StepOutcome::Error => {
                self.phase = Phase::Failed;
                return Err(SyncError::ProtocolError(ProtocolCode::BadState));
            },
        }
        match server {
            ServerState::Ready => {
                self.phase = Phase::Ready;
                Ok(Handshake::Established)
            },
            ServerState::Failed => {
                self.phase = Phase::Failed;
                Err(SyncError::ProtocolError(ProtocolCode::BadState))
            },
            ServerState::Terminated => {
                self.phase = Phase::Failed;
                Err(SyncError::ProtocolError(ProtocolCode::BadState))
            },
            _ => Ok(Handshake::Continue),
        }
    }

    /// Records the state that the server reports while the connection is in use.  When the
    /// link failed or was terminated, the connection fails with `ProtocolError(BadState)`;
    /// the same is answered, and nothing changes, if the connection is not ready.
    pub fn observe(&mut self, server: ServerState) -> (answer: Result<(), SyncError>)
        ensures
            final(self)@ == old(self)@.after_report(server),
            answer == old(self)@.report_answer(server),
    {
        if self.phase != Phase::Ready {
            return Err(SyncError::ProtocolError(ProtocolCode::BadState));
        }
        match server {
            ServerState::Failed => {
                self.phase = Phase::Failed;
                Err(SyncError::ProtocolError(ProtocolCode::BadState))
            },
            ServerState::Terminated => {
                self.phase = Phase::Failed;
                Err(SyncError::ProtocolError(ProtocolCode::BadState))
            },
            _ => Ok(()),
        }
    }

    /// Records that the transport's event loop ended and says with which failure the run
    /// ends.  There is no good end: the loop is meant to run for as long as the process
    /// does, so a quit is a protocol error like any other end.
    pub fn finish(&mut self, end: RunEnd) -> (error: SyncError)
        ensures
            final(self)@ == old(self)@.after_run(end),
            error == old(self)@.run_error(end),
            error.fatal(),
    {
        if self.phase != Phase::Ready {
            return SyncError::ProtocolError(ProtocolCode::BadState);
        }
        self.phase = Phase::Failed;
        match end {
            RunEnd::Quit => SyncError::ProtocolError(ProtocolCode::BadState),
            RunEnd::Error => SyncError::ProtocolError(ProtocolCode::TransportFailed),
        }
    }
}

/// A connection after `n` failed attempts to open the transport in a row.
pub open spec fn after_failures(connection: ConnectionView, n: nat) -> ConnectionView
    decreases n,
{
    if n == 0 {
        connection
    } else {
        after_failures(connection, (n - 1) as nat).after_attempt(false)
    }
}

/// The retries are bounded: a fresh connection stays disconnected through fewer than
/// [`MAX_ATTEMPTS`] failed attempts, each of which is answered with a retry after the
/// timeout; the failure that makes [`MAX_ATTEMPTS`] is answered with `ConnectionTimeout`,
/// and the connection has failed from then on.
pub proof fn lemma_retries_are_bounded(timeout: u64, n: nat)
    ensures
        n < MAX_ATTEMPTS ==> after_failures(ConnectionView::fresh(timeout), n)
            == (ConnectionView {
            phase: Phase::Disconnected,
            attempts_left: (MAX_ATTEMPTS - n) as nat,
            timeout,
        }),
        n + 1 < MAX_ATTEMPTS ==> after_failures(
            ConnectionView::fresh(timeout),
            n,
        ).attempt_answer(false) == Ok::<Attempt, SyncError>(Attempt::RetryAfter(timeout)),
        n + 1 == MAX_ATTEMPTS ==> after_failures(
            ConnectionView::fresh(timeout),
            n,
        ).attempt_answer(false) == Err::<Attempt, SyncError>(SyncError::ConnectionTimeout),
        n >= MAX_ATTEMPTS ==> after_failures(ConnectionView::fresh(timeout), n).phase
            == Phase::Failed,
    decreases n,
{
    if n > 0 {
        lemma_retries_are_bounded(timeout, (n - 1) as nat);
    }
}

/// A connection that has failed stays failed: whatever is reported to it changes nothing
/// and is answered with a failure.  The way on is a new connection, which starts
/// disconnected.
pub proof fn lemma_failed_is_final(
    connection: ConnectionView,
    opened: bool,
    step: StepOutcome,
    server: ServerState,
    end: RunEnd,
)
    requires
        connection.phase == Phase::Failed,
    ensures
        connection.after_attempt(opened) == connection,
        connection.after_handshake(step, server) == connection,
        connection.after_report(server) == connection,
        connection.after_run(end) == connection,
        connection.attempt_answer(opened) is Err,
        connection.handshake_answer(step, server) is Err,
        connection.report_answer(server) is Err,
        ConnectionView::fresh(connection.timeout).phase == Phase::Disconnected,
{
}

/// A connection in use ends in failure only: once ready, it is ready or failed after
/// whatever is reported, and the end of the event loop, a quit included, fails it with a
/// protocol error.
pub proof fn lemma_ready_ends_in_failure(
    connection: ConnectionView,
    opened: bool,
    step: StepOutcome,
    server: ServerState,
    end: RunEnd,
)
    requires
        connection.phase == Phase::Ready,
    ensures
        connection.after_attempt(opened).phase == Phase::Ready,
        connection.after_handshake(step, server).phase == Phase::Ready,
        connection.after_report(server).phase == Phase::Ready || connection.after_report(
            server,
        ).phase == Phase::Failed,
        connection.after_run(end).phase == Phase::Failed,
        connection.run_error(end) is ProtocolError,
        connection.run_error(RunEnd::Quit) == SyncError::ProtocolError(ProtocolCode::BadState),
{
}

} // verus!
