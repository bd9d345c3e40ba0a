//! The query dispatcher's decisions: which introspection queries answer a notification, and
//! what a query's result does to the store.

use vstd::prelude::*;
use crate::device::{Sink, SinkInfo, Source, SourceInfo, sink_of, source_of};
use crate::error::SyncError;
use crate::store::{Information, InformationView};

verus! {

/// The name under which the server knows the default sink.
pub const DEFAULT_SINK: &'static str = "@DEFAULT_SINK@";

/// The name under which the server knows the default source.
pub const DEFAULT_SOURCE: &'static str = "@DEFAULT_SOURCE@";

/// What a notification is about.
#[derive(Clone, Copy, Debug, PartialEq, Eq, Structural)]
pub enum Facility {
    Sink,
    Source,
    /// Anything that was not subscribed to.
    Other,
}

/// What happened to the object that a notification is about.
#[derive(Clone, Copy, Debug, PartialEq, Eq, Structural)]
pub enum Operation {
    New,
    Changed,
    Removed,
}

/// A query about sinks.
#[derive(Clone, Copy, Debug, PartialEq, Eq, Structural)]
pub enum SinkQuery {
    /// List every sink.
    List,
    /// Look the default sink up by its well-known name.
    Default,
    /// Fetch the sink with this index.
    ByIndex(u32),
}

/// A query about sources.
#[derive(Clone, Copy, Debug, PartialEq, Eq, Structural)]
pub enum SourceQuery {
    /// List every source.
    List,
    /// Look the default source up by its well-known name.
    Default,
    /// Fetch the source with this index.
    ByIndex(u32),
}

/// One delivery of a query's result.
#[derive(Clone, Debug)]
pub enum ListResult<T> {
    /// One object of the answer.
    Item(T),
    /// The answer is complete.
    End,
    /// The query failed.
    Error,
}

/// The queries to issue in reaction to one notification, or at startup.  The handles of the
/// queries of one plan form one batch.
#[derive(Clone, Debug)]
pub struct Plan {
    pub sink_queries: Vec<SinkQuery>,
    pub source_queries: Vec<SourceQuery>,
    /// Set where the notification was an anomaly that is worth a line in the log.
    pub warning: Option<SyncError>,
}

/// Mathematical value of a [`Plan`].
pub ghost struct PlanView {
    pub sink_queries: Seq<SinkQuery>,
    pub source_queries: Seq<SourceQuery>,
    pub warning: Option<SyncError>,
}

impl View for Plan {
    type V = PlanView;

    open spec fn view(&self) -> PlanView {
        PlanView {
            sink_queries: self.sink_queries@,
            source_queries: self.source_queries@,
            warning: self.warning,
        }
    }
}

/// The facilities whose notifications are subscribed to: sinks and sources, and nothing
/// else.
pub open spec fn subscribed(facility: Facility) -> bool {
    facility == Facility::Sink || facility == Facility::Source
}

impl Facility {
    /// Whether notifications about this facility are subscribed to.
    pub fn is_subscribed(&self) -> (wanted: bool)
        ensures
            wanted == subscribed(*self),
    {
        match self {
            Facility::Sink => true,
            Facility::Source => true,
            Facility::Other => false,
        }
    }
}

/// Full discovery: every sink, every source, and both defaults.
pub open spec fn discovery() -> PlanView {
    PlanView {
        sink_queries: seq![SinkQuery::List, SinkQuery::Default],
        source_queries: seq![SourceQuery::List, SourceQuery::Default],
        warning: None,
    }
}

/// Whether a notification invalidates the whole store: a sink or a source went away.  The
/// index of a removed device is never queried, since the server may have given it to another
/// device by the time the query runs.
pub open spec fn invalidates(facility: Facility, operation: Operation) -> bool {
    operation == Operation::Removed && subscribed(facility)
}

/// The queries that answer a notification.
///
/// Both defaults are looked up on every notification.  A new or changed sink or source is
/// fetched by its index in addition.  A removed one is answered by full discovery.  A
/// facility that was not subscribed to gets the two default lookups and a warning,
/// whatever happened to it.
pub open spec fn plan_for(facility: Facility, operation: Operation, index: u32) -> PlanView {
    if !subscribed(facility) {
        PlanView {
            sink_queries: seq![SinkQuery::Default],
            source_queries: seq![SourceQuery::Default],
            warning: Some(SyncError::UnexpectedFacility),
        }
    } else if operation == Operation::Removed {
        discovery()
    } else if facility == Facility::Sink {
        PlanView {
            sink_queries: seq![SinkQuery::Default, SinkQuery::ByIndex(index)],
            source_queries: seq![SourceQuery::Default],
            warning: None,
        }
    } else {
        PlanView {
            sink_queries: seq![SinkQuery::Default],
            source_queries: seq![SourceQuery::Default, SourceQuery::ByIndex(index)],
            warning: None,
        }
    }
}

/// The store after one delivery of a sink query's result.  An item of the default lookup
/// becomes the default sink; an item of any other query is stored under its index.  The end
/// of an answer and a failed query leave the store as it is.
pub open spec fn after_sink_result(
    store: InformationView,
    query: SinkQuery,
    result: ListResult<SinkInfo>,
) -> InformationView {
    match result {
        ListResult::Item(info) => if query == SinkQuery::Default {
            store.with_default_sink(sink_of(info@))
        } else {
            store.upsert_sink(sink_of(info@))
        },
        _ => store,
    }
}

/// The store after one delivery of a source query's result.  An item of the default lookup
/// becomes the default source; an item of any other query is stored under its index.  The
/// end of an answer and a failed query leave the store as it is.
pub open spec fn after_source_result(
    store: InformationView,
    query: SourceQuery,
    result: ListResult<SourceInfo>,
) -> InformationView {
    match result {
        ListResult::Item(info) => if query == SourceQuery::Default {
            store.with_default_source(source_of(info@))
        } else {
            store.upsert_source(source_of(info@))
        },
        _ => store,
    }
}

impl Plan {
    /// The plan of full discovery.
    pub fn discovery() -> (plan: Plan)
        ensures
            plan@ == discovery(),
    {
        let mut sink_queries: Vec<SinkQuery> = Vec::new();
        sink_queries.push(SinkQuery::List);
        sink_queries.push(SinkQuery::Default);
        let mut source_queries: Vec<SourceQuery> = Vec::new();
        source_queries.push(SourceQuery::List);
        source_queries.push(SourceQuery::Default);
        let plan = Plan { sink_queries, source_queries, warning: None };
        assert(plan@.sink_queries =~= discovery().sink_queries);
        assert(plan@.source_queries =~= discovery().source_queries);
        plan
    }

    /// The plan that answers a notification.
    pub fn answer(facility: Facility, operation: Operation, index: u32) -> (plan: Plan)
        ensures
            plan@ == plan_for(facility, operation, index),
    {
        if facility.is_subscribed() && operation == Operation::Removed {
            return Plan::discovery();
        }
        let mut sink_queries: Vec<SinkQuery> = Vec::new();
        let mut source_queries: Vec<SourceQuery> = Vec::new();
        sink_queries.push(SinkQuery::Default);
        source_queries.push(SourceQuery::Default);
        let warning = match facility {
            Facility::Sink => {
                sink_queries.push(SinkQuery::ByIndex(index));
                None
            },
            Facility::Source => {
                source_queries.push(SourceQuery::ByIndex(index));
                None
            },
            Facility::Other => Some(SyncError::UnexpectedFacility),
        };
        let plan = Plan { sink_queries, source_queries, warning };
        assert(plan@.sink_queries =~= plan_for(facility, operation, index).sink_queries);
        assert(plan@.source_queries =~= plan_for(facility, operation, index).source_queries);
        plan
    }
}

impl Information {
    /// Applies one delivery of a sink query's result to the store.  A failed query is
    /// reported with `OperationError`, for the log; the store is then left as it is.
    pub fn sink_result(&mut self, query: SinkQuery, result: ListResult<SinkInfo>) -> (outcome:
        Result<(), SyncError>)
        ensures
            final(self)@ == after_sink_result(old(self)@, query, result),
            final(self)@.consistent(),
            old(self)@.in_percent() ==> final(self)@.in_percent(),
            outcome == (if result is Error {
                Err::<(), SyncError>(SyncError::OperationError)
            } else {
                Ok(())
            }),
    {
        proof {
            use_type_invariant(&*self);
            self.lemma_consistent();
        }
        match result {
            ListResult::Item(info) => {
                let sink = Sink::from(info);
                match query {
                    SinkQuery::Default => self.set_default_sink(sink),
                    _ => self.upsert_sink(sink),
                }
                Ok(())
            },
            ListResult::End => Ok(()),
            ListResult::Error => Err(SyncError::OperationError),
        }
    }

    /// Applies one delivery of a source query's result to the store.  A failed query is
    /// reported with `OperationError`, for the log; the store is then left as it is.
    pub fn source_result(&mut self, query: SourceQuery, result: ListResult<SourceInfo>) -> (outcome:
        Result<(), SyncError>)
        ensures
            final(self)@ == after_source_result(old(self)@, query, result),
            final(self)@.consistent(),
            old(self)@.in_percent() ==> final(self)@.in_percent(),
            outcome == (if result is Error {
                Err::<(), SyncError>(SyncError::OperationError)
            } else {
                Ok(())
            }),
    {
        proof {
            use_type_invariant(&*self);
            self.lemma_consistent();
        }
        match result {
            ListResult::Item(info) => {
                let source = Source::from(info);
                match query {
                    SourceQuery::Default => self.set_default_source(source),
                    _ => self.upsert_source(source),
                }
                Ok(())
            },
            ListResult::End => Ok(()),
            ListResult::Error => Err(SyncError::OperationError),
        }
    }
}

/// Both defaults are looked up after every notification, whatever it is about: a default may
/// change as a side effect of any change to a sink or a source.
pub proof fn lemma_every_plan_resolves_both_defaults(
    facility: Facility,
    operation: Operation,
    index: u32,
)
    ensures
        plan_for(facility, operation, index).sink_queries.contains(SinkQuery::Default),
        plan_for(facility, operation, index).source_queries.contains(SourceQuery::Default),
{
    let plan = plan_for(facility, operation, index);
    if subscribed(facility) && operation == Operation::Removed {
        assert(plan.sink_queries[1] == SinkQuery::Default);
        assert(plan.source_queries[1] == SourceQuery::Default);
    } else {
        assert(plan.sink_queries[0] == SinkQuery::Default);
        assert(plan.source_queries[0] == SourceQuery::Default);
    }
}

/// A new device and a changed device are asked for in the same way: both are fetched by
/// index, and the result of either is stored by the same replacement.
pub proof fn lemma_new_and_changed_are_answered_alike(facility: Facility, index: u32)
    ensures
        plan_for(facility, Operation::New, index) == plan_for(facility, Operation::Changed, index),
        subscribed(facility) ==> invalidates(facility, Operation::New) == invalidates(
            facility,
            Operation::Changed,
        ),
{
}

/// After a removal no device is ever fetched by index: the index that the notification
/// names may belong to another device by the time a query runs.
pub proof fn lemma_removal_queries_no_index(facility: Facility, index: u32)
    ensures
        forall|k: int|
            0 <= k < plan_for(facility, Operation::Removed, index).sink_queries.len()
                ==> !(#[trigger] plan_for(facility, Operation::Removed, index).sink_queries[k]
                is ByIndex),
        forall|k: int|
            0 <= k < plan_for(facility, Operation::Removed, index).source_queries.len()
                ==> !(#[trigger] plan_for(facility, Operation::Removed, index).source_queries[k]
                is ByIndex),
{
}

/// What the server reports is stored as a percentage: a store whose volumes are all at most
/// 100 stays so through every delivery of a query's result, whatever raw volume the server
/// reports.
pub proof fn lemma_results_keep_percentages(
    store: InformationView,
    sink_query: SinkQuery,
    sink_result: ListResult<SinkInfo>,
    source_query: SourceQuery,
    source_result: ListResult<SourceInfo>,
)
    requires
        store.in_percent(),
    ensures
        after_sink_result(store, sink_query, sink_result).in_percent(),
        after_source_result(store, source_query, source_result).in_percent(),
        InformationView::empty().in_percent(),
{
}

} // verus!
