use pfui::device::{DeviceState, Sink, Source};
use pfui::store::Information;

fn stored_sink(index: u32, name: &str, volume: u32) -> Sink {
    Sink {
        name: name.to_string(),
        index,
        volume,
        muted: false,
        monitor_index: index + 100,
        monitor_name: format!("{name}.monitor"),
        state: DeviceState::Running,
    }
}

fn stored_source(index: u32, name: &str, volume: u32) -> Source {
    Source {
        name: name.to_string(),
        index,
        volume,
        muted: false,
        monitor_index: None,
        monitor_name: None,
        state: DeviceState::Idle,
    }
}

#[test]
fn new_store_is_empty() {
    let info = Information::new();
    assert!(info.sinks().is_empty());
    assert!(info.sources().is_empty());
    assert!(info.default_sink().is_none());
    assert!(info.default_source().is_none());
    assert!(info.sink(0).is_none());
    assert!(info.source(0).is_none());
}

#[test]
fn upsert_same_sink_twice_keeps_one_entry() {
    let mut info = Information::new();
    info.upsert_sink(stored_sink(0, "Speaker", 50));
    info.upsert_sink(stored_sink(0, "Speaker", 50));
    assert_eq!(info.sinks().len(), 1);
    let stored = info.sink(0).unwrap();
    assert_eq!(stored.name, "Speaker");
    assert_eq!(stored.index, 0);
    assert_eq!(stored.volume, 50);
    assert!(!stored.muted);
    assert_eq!(stored.monitor_index, 100);
    assert_eq!(stored.monitor_name, "Speaker.monitor");
    assert_eq!(stored.state, DeviceState::Running);
}

#[test]
fn upsert_same_source_twice_keeps_one_entry() {
    let mut info = Information::new();
    info.upsert_source(stored_source(4, "Mic", 30));
    info.upsert_source(stored_source(4, "Mic", 30));
    assert_eq!(info.sources().len(), 1);
    let stored = info.source(4).unwrap();
    assert_eq!(stored.name, "Mic");
    assert_eq!(stored.volume, 30);
    assert_eq!(stored.monitor_index, None);
}

#[test]
fn upsert_replaces_the_whole_entry() {
    let mut info = Information::new();
    info.upsert_sink(Sink {
        name: "Speaker".to_string(),
        index: 1,
        volume: 50,
        muted: true,
        monitor_index: 8,
        monitor_name: "old monitor".to_string(),
        state: DeviceState::Suspended,
    });
    info.upsert_sink(Sink {
        name: "Headphones".to_string(),
        index: 1,
        volume: 70,
        muted: false,
        monitor_index: 9,
        monitor_name: "new monitor".to_string(),
        state: DeviceState::Running,
    });
    assert_eq!(info.sinks().len(), 1);
    let stored = info.sink(1).unwrap();
    assert_eq!(stored.name, "Headphones");
    assert_eq!(stored.volume, 70);
    assert!(!stored.muted);
    assert_eq!(stored.monitor_index, 9);
    assert_eq!(stored.monitor_name, "new monitor");
    assert_eq!(stored.state, DeviceState::Running);
}

#[test]
fn upsert_source_replaces_the_whole_entry() {
    let mut info = Information::new();
    info.upsert_source(Source {
        name: "Monitor".to_string(),
        index: 2,
        volume: 10,
        muted: true,
        monitor_index: Some(0),
        monitor_name: Some("Speaker".to_string()),
        state: DeviceState::Idle,
    });
    info.upsert_source(stored_source(2, "Mic", 20));
    let stored = info.source(2).unwrap();
    assert_eq!(info.sources().len(), 1);
    assert_eq!(stored.name, "Mic");
    assert_eq!(stored.volume, 20);
    assert!(!stored.muted);
    assert_eq!(stored.monitor_index, None);
    assert_eq!(stored.monitor_name, None);
}

#[test]
fn upsert_of_other_index_adds_an_entry() {
    let mut info = Information::new();
    info.upsert_sink(stored_sink(0, "Speaker", 50));
    info.upsert_sink(stored_sink(1, "Headphones", 70));
    assert_eq!(info.sinks().len(), 2);
    assert_eq!(info.sink(0).unwrap().volume, 50);
    assert_eq!(info.sink(1).unwrap().volume, 70);
    assert!(info.sources().is_empty());
}

#[test]
fn every_entry_is_filed_under_its_index() {
    let mut info = Information::new();
    for index in [7u32, 3, 7, 0, 3] {
        info.upsert_sink(stored_sink(index, "Sink", index));
        info.upsert_source(stored_source(index, "Source", index));
    }
    assert_eq!(info.sinks().len(), 3);
    assert_eq!(info.sources().len(), 3);
    for (key, stored) in info.sinks().iter() {
        assert_eq!(*key, stored.index);
    }
    for (key, stored) in info.sources().iter() {
        assert_eq!(*key, stored.index);
    }
}

#[test]
fn default_sink_may_name_an_absent_index() {
    let mut info = Information::new();
    info.upsert_sink(stored_sink(0, "Speaker", 50));
    info.set_default_sink(stored_sink(5, "Gone", 10));
    assert_eq!(info.default_sink().unwrap().index, 5);
    assert_eq!(info.default_sink().unwrap().name, "Gone");
    assert!(info.sink(5).is_none());
    assert_eq!(info.sinks().len(), 1);
}

#[test]
fn default_source_is_held_apart_from_the_sources() {
    let mut info = Information::new();
    info.set_default_source(stored_source(2, "Mic", 40));
    assert_eq!(info.default_source().unwrap().index, 2);
    assert!(info.sources().is_empty());
    info.upsert_source(stored_source(2, "Mic", 90));
    assert_eq!(info.default_source().unwrap().volume, 40);
    assert_eq!(info.source(2).unwrap().volume, 90);
}

#[test]
fn clear_forgets_devices_and_defaults() {
    let mut info = Information::new();
    info.upsert_sink(stored_sink(0, "Speaker", 50));
    info.upsert_source(stored_source(1, "Mic", 20));
    info.set_default_sink(stored_sink(0, "Speaker", 50));
    info.set_default_source(stored_source(1, "Mic", 20));
    info.clear();
    assert!(info.sinks().is_empty());
    assert!(info.sources().is_empty());
    assert!(info.default_sink().is_none());
    assert!(info.default_source().is_none());
}
