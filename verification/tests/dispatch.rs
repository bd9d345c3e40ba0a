use pfui::device::{DeviceState, SinkInfo, SourceInfo};
use pfui::dispatch::{
    Facility, ListResult, Operation, Plan, SinkQuery, SourceQuery, DEFAULT_SINK, DEFAULT_SOURCE,
};
use pfui::error::SyncError;
use pfui::store::Information;

fn reply_sink(index: u32, name: &str, volume: u32) -> SinkInfo {
    SinkInfo {
        name: Some(name.to_string()),
        index,
        volume,
        mute: false,
        monitor_source: index,
        monitor_source_name: None,
        state: DeviceState::Running,
    }
}

fn reply_source(index: u32, name: &str, volume: u32) -> SourceInfo {
    SourceInfo {
        name: Some(name.to_string()),
        index,
        volume,
        mute: false,
        monitor_of_sink: None,
        monitor_of_sink_name: None,
        state: DeviceState::Running,
    }
}

#[test]
fn only_sinks_and_sources_are_subscribed() {
    assert!(Facility::Sink.is_subscribed());
    assert!(Facility::Source.is_subscribed());
    assert!(!Facility::Other.is_subscribed());
}

#[test]
fn default_lookups_use_the_well_known_names() {
    assert_eq!(DEFAULT_SINK, "@DEFAULT_SINK@");
    assert_eq!(DEFAULT_SOURCE, "@DEFAULT_SOURCE@");
}

#[test]
fn discovery_lists_everything_and_resolves_both_defaults() {
    let plan = Plan::discovery();
    assert_eq!(plan.sink_queries, vec![SinkQuery::List, SinkQuery::Default]);
    assert_eq!(plan.source_queries, vec![SourceQuery::List, SourceQuery::Default]);
    assert_eq!(plan.warning, None);
}

#[test]
fn new_sink_is_fetched_by_index() {
    let plan = Plan::answer(Facility::Sink, Operation::New, 4);
    assert_eq!(plan.sink_queries, vec![SinkQuery::Default, SinkQuery::ByIndex(4)]);
    assert_eq!(plan.source_queries, vec![SourceQuery::Default]);
    assert_eq!(plan.warning, None);
}

#[test]
fn changed_sink_is_fetched_by_index() {
    let plan = Plan::answer(Facility::Sink, Operation::Changed, 1);
    assert_eq!(plan.sink_queries, vec![SinkQuery::Default, SinkQuery::ByIndex(1)]);
    assert_eq!(plan.source_queries, vec![SourceQuery::Default]);
    assert_eq!(plan.warning, None);
}

#[test]
fn new_source_is_fetched_by_index() {
    let plan = Plan::answer(Facility::Source, Operation::New, 6);
    assert_eq!(plan.sink_queries, vec![SinkQuery::Default]);
    assert_eq!(plan.source_queries, vec![SourceQuery::Default, SourceQuery::ByIndex(6)]);
    assert_eq!(plan.warning, None);
}

#[test]
fn changed_source_is_fetched_by_index() {
    let plan = Plan::answer(Facility::Source, Operation::Changed, u32::MAX);
    assert_eq!(plan.sink_queries, vec![SinkQuery::Default]);
    assert_eq!(
        plan.source_queries,
        vec![SourceQuery::Default, SourceQuery::ByIndex(u32::MAX)]
    );
    assert_eq!(plan.warning, None);
}

#[test]
fn removal_is_answered_by_full_discovery() {
    for facility in [Facility::Sink, Facility::Source] {
        let plan = Plan::answer(facility, Operation::Removed, 2);
        assert_eq!(plan.sink_queries, vec![SinkQuery::List, SinkQuery::Default]);
        assert_eq!(plan.source_queries, vec![SourceQuery::List, SourceQuery::Default]);
        assert!(!plan.sink_queries.contains(&SinkQuery::ByIndex(2)));
        assert!(!plan.source_queries.contains(&SourceQuery::ByIndex(2)));
        assert_eq!(plan.warning, None);
    }
}

#[test]
fn every_plan_resolves_both_defaults() {
    for facility in [Facility::Sink, Facility::Source, Facility::Other] {
        for operation in [Operation::New, Operation::Changed, Operation::Removed] {
            let plan = Plan::answer(facility, operation, 5);
            assert!(plan.sink_queries.contains(&SinkQuery::Default));
            assert!(plan.source_queries.contains(&SourceQuery::Default));
        }
    }
}

#[test]
fn new_and_changed_are_answered_alike() {
    for facility in [Facility::Sink, Facility::Source, Facility::Other] {
        let new = Plan::answer(facility, Operation::New, 11);
        let changed = Plan::answer(facility, Operation::Changed, 11);
        assert_eq!(new.sink_queries, changed.sink_queries);
        assert_eq!(new.source_queries, changed.source_queries);
        assert_eq!(new.warning, changed.warning);
    }
}

#[test]
fn unexpected_facility_gets_one_policy_for_every_operation() {
    for operation in [Operation::New, Operation::Changed, Operation::Removed] {
        let plan = Plan::answer(Facility::Other, operation, 8);
        assert_eq!(plan.sink_queries, vec![SinkQuery::Default]);
        assert_eq!(plan.source_queries, vec![SourceQuery::Default]);
        assert_eq!(plan.warning, Some(SyncError::UnexpectedFacility));
    }
}

#[test]
fn listed_sink_is_stored_under_its_index() {
    let mut info = Information::new();
    let outcome = info.sink_result(SinkQuery::List, ListResult::Item(reply_sink(2, "Speaker", 32768)));
    assert_eq!(outcome, Ok(()));
    assert_eq!(info.sink(2).unwrap().name, "Speaker");
    assert_eq!(info.sink(2).unwrap().volume, 50);
    assert_eq!(info.sink(2).unwrap().monitor_name, "Unknown");
    assert!(info.default_sink().is_none());
}

#[test]
fn fetched_sink_replaces_the_stored_one() {
    let mut info = Information::new();
    info.sink_result(SinkQuery::List, ListResult::Item(reply_sink(1, "Headphones", 45875)))
        .unwrap();
    info.sink_result(SinkQuery::ByIndex(1), ListResult::Item(reply_sink(1, "Headphones", 0xffff)))
        .unwrap();
    assert_eq!(info.sinks().len(), 1);
    assert_eq!(info.sink(1).unwrap().volume, 100);
}

#[test]
fn default_sink_lookup_sets_the_default_only() {
    let mut info = Information::new();
    let outcome = info.sink_result(SinkQuery::Default, ListResult::Item(reply_sink(0, "Speaker", 0)));
    assert_eq!(outcome, Ok(()));
    assert_eq!(info.default_sink().unwrap().index, 0);
    assert!(info.sinks().is_empty());
}

#[test]
fn default_source_lookup_sets_the_default_only() {
    let mut info = Information::new();
    let outcome =
        info.source_result(SourceQuery::Default, ListResult::Item(reply_source(3, "Mic", 0)));
    assert_eq!(outcome, Ok(()));
    assert_eq!(info.default_source().unwrap().index, 3);
    assert!(info.sources().is_empty());
}

#[test]
fn listed_source_is_stored_under_its_index() {
    let mut info = Information::new();
    info.source_result(SourceQuery::List, ListResult::Item(reply_source(3, "Mic", 45875))).unwrap();
    info.source_result(SourceQuery::ByIndex(3), ListResult::Item(reply_source(3, "Mic", 32768)))
        .unwrap();
    assert_eq!(info.sources().len(), 1);
    assert_eq!(info.source(3).unwrap().volume, 50);
    assert!(info.default_source().is_none());
}

#[test]
fn end_of_an_answer_changes_nothing() {
    let mut info = Information::new();
    info.sink_result(SinkQuery::List, ListResult::Item(reply_sink(0, "Speaker", 0))).unwrap();
    assert_eq!(info.sink_result(SinkQuery::List, ListResult::End), Ok(()));
    assert_eq!(info.source_result(SourceQuery::Default, ListResult::End), Ok(()));
    assert_eq!(info.sinks().len(), 1);
    assert!(info.sources().is_empty());
    assert!(info.default_source().is_none());
}

#[test]
fn failed_query_is_an_operation_error_and_changes_nothing() {
    let mut info = Information::new();
    info.sink_result(SinkQuery::List, ListResult::Item(reply_sink(0, "Speaker", 0))).unwrap();
    assert_eq!(
        info.sink_result(SinkQuery::ByIndex(0), ListResult::Error),
        Err(SyncError::OperationError)
    );
    assert_eq!(
        info.source_result(SourceQuery::List, ListResult::Error),
        Err(SyncError::OperationError)
    );
    assert_eq!(info.sinks().len(), 1);
    assert_eq!(info.sink(0).unwrap().name, "Speaker");
    assert!(info.sources().is_empty());
}
