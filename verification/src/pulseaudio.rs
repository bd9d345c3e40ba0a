//! The audio-device synchronizer.
//!
//! [`PulseAudio`] ties the connection, the state store and the dispatcher's decisions
//! together.  It never talks to the server itself: the caller reports what the server did
//! (an attempt to connect, a handshake step, a notification, a query's result) and carries
//! out what the synchronizer answers.

use vstd::prelude::*;
use crate::connection::{
    Attempt,
    Connection,
    ConnectionView,
    Handshake,
    Phase,
    RunEnd,
    ServerState,
    StepOutcome,
};
use crate::device::{SinkInfo, SourceInfo};
use crate::dispatch::{
    Facility,
    ListResult,
    Operation,
    Plan,
    PlanView,
    SinkQuery,
    SourceQuery,
    after_sink_result,
    after_source_result,
    discovery,
    invalidates,
    plan_for,
    subscribed,
};
use crate::error::{ProtocolCode, SyncError};
use crate::output::Output;
use crate::store::{Information, InformationView};

verus! {

/// Mathematical value of a [`PulseAudio`].
pub ghost struct PulseAudioView {
    pub connection: ConnectionView,
    pub devices: InformationView,
    /// Whether startup discovery was planned on this connection.
    pub started: bool,
}

impl PulseAudioView {
    /// A synchronizer that has not connected yet.
    pub open spec fn fresh(timeout: u64) -> Self {
        PulseAudioView {
            connection: ConnectionView::fresh(timeout),
            devices: InformationView::empty(),
            started: false,
        }
    }

    /// Whether notifications and query results are taken: the server is ready and startup
    /// discovery was planned.  What arrives at any other time is stale.
    pub open spec fn live(self) -> bool {
        self.connection.phase == Phase::Ready && self.started
    }

    /// Whether a notification is acted on: the synchronizer is live, and both the facility
    /// and the operation of the notification are known.
    pub open spec fn takes(self, facility: Option<Facility>, operation: Option<Operation>) -> bool {
        self.live() && facility is Some && operation is Some
    }

    /// The synchronizer after startup was asked for.
    pub open spec fn after_start(self) -> Self {
        if self.connection.phase == Phase::Ready {
            PulseAudioView { devices: InformationView::empty(), started: true, ..self }
        } else {
            self
        }
    }

    /// The synchronizer after a notification: the store is emptied where the notification
    /// invalidates it, and nothing else changes.
    pub open spec fn after_notify(
        self,
        facility: Option<Facility>,
        operation: Option<Operation>,
    ) -> Self {
        if self.takes(facility, operation) && invalidates(facility.unwrap(), operation.unwrap()) {
            PulseAudioView { devices: InformationView::empty(), ..self }
        } else {
            self
        }
    }

    /// The queries with which a notification is answered, if it is acted on.
    pub open spec fn notify_plan(
        self,
        facility: Option<Facility>,
        operation: Option<Operation>,
        index: u32,
    ) -> Option<PlanView> {
        if self.takes(facility, operation) {
            Some(plan_for(facility.unwrap(), operation.unwrap(), index))
        } else {
            None
        }
    }

    /// The synchronizer after one delivery of a sink query's result.
    pub open spec fn after_sink_result(
        self,
        query: SinkQuery,
        result: ListResult<SinkInfo>,
    ) -> Self {
        if self.live() {
            PulseAudioView { devices: after_sink_result(self.devices, query, result), ..self }
        } else {
            self
        }
    }

    /// The synchronizer after one delivery of a source query's result.
    pub open spec fn after_source_result(
        self,
        query: SourceQuery,
        result: ListResult<SourceInfo>,
    ) -> Self {
        if self.live() {
            PulseAudioView { devices: after_source_result(self.devices, query, result), ..self }
        } else {
            self
        }
    }
}

/// The synchronizer for one audio server.
#[derive(Debug)]
pub struct PulseAudio {
    connection: Connection,
    devices: Information,
    started: bool,
}

impl View for PulseAudio {
    type V = PulseAudioView;

    closed spec fn view(&self) -> PulseAudioView {
        PulseAudioView {
            connection: self.connection@,
            devices: self.devices@,
            started: self.started,
        }
    }
}

impl PulseAudio {
    /// A synchronizer that has not connected yet; `timeout` is the number of seconds to
    /// wait between two attempts to connect.
    pub fn new(timeout: u64) -> (module: PulseAudio)
        ensures
            module@ == PulseAudioView::fresh(timeout),
            module@.devices.in_percent(),
    {
        PulseAudio {
            connection: Connection::new(timeout),
            devices: Information::new(),
            started: false,
        }
    }

    /// The connection to the server.
    pub fn connection(&self) -> (connection: &Connection)
        ensures
            connection@ == self@.connection,
    {
        &self.connection
    }

    /// The state store.
    pub fn devices(&self) -> (devices: &Information)
        ensures
            devices@ == self@.devices,
            devices@.consistent(),
    {
        proof {
            use_type_invariant(&self.devices);
            self.devices.lemma_consistent();
        }
        &self.devices
    }

    /// Whether notifications and query results are taken.
    pub fn is_live(&self) -> (live: bool)
        ensures
            live == self@.live(),
    {
        self.connection.is_ready() && self.started
    }

    /// Records the outcome of one attempt to open the transport; see
    /// [`Connection::attempt`].  The store is not touched.
    pub fn connect(&mut self, opened: bool) -> (answer: Result<Attempt, SyncError>)
        ensures
            final(self)@ == (PulseAudioView {
                connection: old(self)@.connection.after_attempt(opened),
                ..old(self)@
            }),
            answer == old(self)@.connection.attempt_answer(opened),
    {
        self.connection.attempt(opened)
    }

    /// Records one step of the handshake; see [`Connection::handshake`].  The store is not
    /// touched.
    pub fn handshake(&mut self, step: StepOutcome, server: ServerState) -> (answer: Result<
        Handshake,
        SyncError,
    >)
        ensures
            final(self)@ == (PulseAudioView {
                connection: old(self)@.connection.after_handshake(step, server),
                ..old(self)@
            }),
            answer == old(self)@.connection.handshake_answer(step, server),
    {
        self.connection.handshake(step, server)
    }

    /// Starts the synchronizer on a ready connection: the store begins empty, and the
    /// answer is the plan of full discovery, whose handles form the first batch.  On a
    /// connection that is not ready, nothing changes and the answer is
    /// `ProtocolError(BadState)`.
    pub fn start(&mut self) -> (answer: Result<Plan, SyncError>)
        ensures
            final(self)@ == old(self)@.after_start(),
            final(self)@.devices.consistent(),
            old(self)@.devices.in_percent() ==> final(self)@.devices.in_percent(),
            old(self)@.connection.phase == Phase::Ready ==> answer is Ok && answer.unwrap()@
                == discovery(),
            old(self)@.connection.phase != Phase::Ready ==> answer == Err::<Plan, SyncError>(
                SyncError::ProtocolError(ProtocolCode::BadState),
            ),
    {
        if self.connection.is_ready() {
            self.devices.clear();
            self.started = true;
            Ok(Plan::discovery())
        } else {
            proof {
                use_type_invariant(&self.devices);
                self.devices.lemma_consistent();
            }
            Err(SyncError::ProtocolError(ProtocolCode::BadState))
        }
    }

    /// Reacts to a notification of the server.
    ///
    /// A notification whose facility or operation is unknown, or that arrives while the
    /// synchronizer is not live, is dropped: nothing changes and there is no plan.  Any
    /// other is answered with the queries of [`plan_for`]; where a sink or a source was
    /// removed the store is emptied first, so that it holds no device and no default until
    /// the results of the new discovery come in.
    pub fn notify(
        &mut self,
        facility: Option<Facility>,
        operation: Option<Operation>,
        index: u32,
    ) -> (plan: Option<Plan>)
        ensures
            final(self)@ == old(self)@.after_notify(facility, operation),
            final(self)@.devices.consistent(),
            old(self)@.devices.in_percent() ==> final(self)@.devices.in_percent(),
            match plan {
                Some(plan) => old(self)@.notify_plan(facility, operation, index) == Some(plan@),
                None => old(self)@.notify_plan(facility, operation, index) is None,
            },
    {
        proof {
            use_type_invariant(&self.devices);
            self.devices.lemma_consistent();
        }
        if !self.is_live() {
            return None;
        }
        match (facility, operation) {
            (Some(facility), Some(operation)) => {
                if operation == Operation::Removed && facility.is_subscribed() {
                    self.devices.clear();
                }
                Some(Plan::answer(facility, operation, index))
            },
            _ => None,
        }
    }

    /// Takes one delivery of a sink query's result.  While the synchronizer is live the
    /// store is updated as [`after_sink_result`] says, and a failed query is reported with
    /// `OperationError`.  A stale delivery is dropped.
    pub fn sink_result(&mut self, query: SinkQuery, result: ListResult<SinkInfo>) -> (outcome:
        Result<(), SyncError>)
        ensures
            final(self)@ == old(self)@.after_sink_result(query, result),
            final(self)@.devices.consistent(),
            old(self)@.devices.in_percent() ==> final(self)@.devices.in_percent(),
            outcome == (if old(self)@.live() && result is Error {
                Err::<(), SyncError>(SyncError::OperationError)
            } else {
                Ok(())
            }),
    {
        if self.is_live() {
            self.devices.sink_result(query, result)
        } else {
            proof {
                use_type_invariant(&self.devices);
                self.devices.lemma_consistent();
            }
            Ok(())
        }
    }

    /// Takes one delivery of a source query's result.  While the synchronizer is live the
    /// store is updated as [`after_source_result`] says, and a failed query is reported
    /// with `OperationError`.  A stale delivery is dropped.
    pub fn source_result(&mut self, query: SourceQuery, result: ListResult<SourceInfo>) -> (outcome:
        Result<(), SyncError>)
        ensures
            final(self)@ == old(self)@.after_source_result(query, result),
            final(self)@.devices.consistent(),
            old(self)@.devices.in_percent() ==> final(self)@.devices.in_percent(),
            outcome == (if old(self)@.live() && result is Error {
                Err::<(), SyncError>(SyncError::OperationError)
            } else {
                Ok(())
            }),
    {
        if self.is_live() {
            self.devices.source_result(query, result)
        } else {
            proof {
                use_type_invariant(&self.devices);
                self.devices.lemma_consistent();
            }
            Ok(())
        }
    }

    /// Records the state that the server reports while the connection is in use; see
    /// [`Connection::observe`].  Once the link is gone the synchronizer is no longer live.
    /// The store keeps what it held.
    pub fn observe(&mut self, server: ServerState) -> (answer: Result<(), SyncError>)
        ensures
            final(self)@ == (PulseAudioView {
                connection: old(self)@.connection.after_report(server),
                ..old(self)@
            }),
            answer == old(self)@.connection.report_answer(server),
    {
        self.connection.observe(server)
    }

    /// Records that the transport's event loop ended and says with which failure the run
    /// ends; see [`Connection::finish`].  The synchronizer is no longer live.  The store
    /// keeps what it held.
    pub fn finish(&mut self, end: RunEnd) -> (error: SyncError)
        ensures
            final(self)@ == (PulseAudioView {
                connection: old(self)@.connection.after_run(end),
                ..old(self)@
            }),
            error == old(self)@.connection.run_error(end),
            error.fatal(),
            !final(self)@.live(),
    {
        self.connection.finish(end)
    }

    /// The object to emit: the store, once the synchronizer was started; nothing before.
    pub fn output(&self) -> (output: Output<&Information>)
        ensures
            output.well_formed(),
            output.data is Some <==> self@.started,
            output.data is Some ==> output.data.unwrap()@ == self@.devices,
    {
        if self.started {
            Output::new(Some(&self.devices))
        } else {
            Output::new(None)
        }
    }
}

/// The removal of a sink or a source resets the store in full.  Right after the
/// notification, before any result of the new discovery has come in, the store holds no sink,
/// no source and neither default; and the notification is answered with one plan, that of
/// full discovery, which never asks for the removed index.
pub proof fn lemma_removal_resets(state: PulseAudioView, facility: Facility, index: u32)
    requires
        state.live(),
        subscribed(facility),
    ensures
        state.after_notify(Some(facility), Some(Operation::Removed)).devices
            == InformationView::empty(),
        state.after_notify(Some(facility), Some(Operation::Removed)).devices.sinks.len() == 0,
        state.after_notify(Some(facility), Some(Operation::Removed)).devices.sources.len() == 0,
        state.after_notify(Some(facility), Some(Operation::Removed)).devices.default_sink is None,
        state.after_notify(Some(facility), Some(Operation::Removed)).devices.default_source is None,
        state.notify_plan(Some(facility), Some(Operation::Removed), index) == Some(discovery()),
        !discovery().sink_queries.contains(SinkQuery::ByIndex(index)),
        !discovery().source_queries.contains(SourceQuery::ByIndex(index)),
        state.after_notify(Some(facility), Some(Operation::Removed)).live(),
{
}

} // verus!
