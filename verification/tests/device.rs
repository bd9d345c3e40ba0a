use pfui::device::{percent_of, DeviceState, Sink, SinkInfo, Source, SourceInfo};

fn device_sink_info(index: u32, name: Option<&str>, volume: u32) -> SinkInfo {
    SinkInfo {
        name: name.map(|n| n.to_string()),
        index,
        volume,
        mute: false,
        monitor_source: index + 10,
        monitor_source_name: Some(format!("monitor-{index}")),
        state: DeviceState::Running,
    }
}

#[test]
fn percent_of_zero_is_zero() {
    assert_eq!(percent_of(0), 0);
}

#[test]
fn percent_of_full_scale_is_hundred() {
    assert_eq!(percent_of(0xffff), 100);
    assert_eq!(percent_of(0x10000), 100);
}

#[test]
fn percent_of_rounds_down() {
    assert_eq!(percent_of(32767), 49);
    assert_eq!(percent_of(32768), 50);
    assert_eq!(percent_of(45875), 70);
    assert_eq!(percent_of(655), 0);
    assert_eq!(percent_of(656), 1);
}

#[test]
fn percent_of_just_below_full_scale_is_ninety_nine() {
    assert_eq!(percent_of(0xfffe), 99);
}

#[test]
fn percent_of_above_full_scale_stays_at_hundred() {
    assert_eq!(percent_of(0x10001), 100);
    assert_eq!(percent_of(98304), 100);
    assert_eq!(percent_of(131070), 100);
    assert_eq!(percent_of(0x7fff_ffff), 100);
}

#[test]
fn percent_of_largest_raw_value_is_hundred() {
    assert_eq!(percent_of(u32::MAX), 100);
}

#[test]
fn percent_of_never_falls_as_the_raw_volume_rises() {
    let mut last = 0;
    for raw in (0..=0x20000u32).step_by(97) {
        let percent = percent_of(raw);
        assert!(percent >= last);
        assert!(percent <= 100);
        last = percent;
    }
    assert_eq!(last, 100);
}

#[test]
fn sink_above_full_scale_is_stored_at_hundred_percent() {
    let sink = Sink::from(device_sink_info(1, Some("Boosted"), 131070));
    assert_eq!(sink.volume, 100);
    assert_eq!(sink.name, "Boosted");
}

#[test]
fn source_above_full_scale_is_stored_at_hundred_percent() {
    let source = Source::from(SourceInfo {
        name: Some("Boosted mic".to_string()),
        index: 2,
        volume: u32::MAX,
        mute: false,
        monitor_of_sink: None,
        monitor_of_sink_name: None,
        state: DeviceState::Running,
    });
    assert_eq!(source.volume, 100);
}

#[test]
fn sink_from_record_carries_every_field() {
    let sink = Sink::from(SinkInfo {
        name: Some("Speaker".to_string()),
        index: 3,
        volume: 32768,
        mute: true,
        monitor_source: 7,
        monitor_source_name: Some("Speaker.monitor".to_string()),
        state: DeviceState::Suspended,
    });
    assert_eq!(sink.name, "Speaker");
    assert_eq!(sink.index, 3);
    assert_eq!(sink.volume, 50);
    assert!(sink.muted);
    assert_eq!(sink.monitor_index, 7);
    assert_eq!(sink.monitor_name, "Speaker.monitor");
    assert_eq!(sink.state, DeviceState::Suspended);
}

#[test]
fn sink_from_record_without_names_is_unknown() {
    let sink = Sink::from(SinkInfo {
        name: None,
        index: 0,
        volume: 0,
        mute: false,
        monitor_source: 0,
        monitor_source_name: None,
        state: DeviceState::Invalid,
    });
    assert_eq!(sink.name, "Unknown");
    assert_eq!(sink.monitor_name, "Unknown");
    assert_eq!(sink.state, DeviceState::Invalid);
}

#[test]
fn source_from_record_carries_every_field() {
    let source = Source::from(SourceInfo {
        name: Some("Mic".to_string()),
        index: 4,
        volume: 45875,
        mute: false,
        monitor_of_sink: Some(1),
        monitor_of_sink_name: Some("Headphones".to_string()),
        state: DeviceState::Idle,
    });
    assert_eq!(source.name, "Mic");
    assert_eq!(source.index, 4);
    assert_eq!(source.volume, 70);
    assert!(!source.muted);
    assert_eq!(source.monitor_index, Some(1));
    assert_eq!(source.monitor_name, Some("Headphones".to_string()));
    assert_eq!(source.state, DeviceState::Idle);
}

#[test]
fn source_from_record_keeps_missing_monitor_absent() {
    let source = Source::from(SourceInfo {
        name: None,
        index: 9,
        volume: 0xffff,
        mute: true,
        monitor_of_sink: None,
        monitor_of_sink_name: None,
        state: DeviceState::Running,
    });
    assert_eq!(source.name, "Unknown");
    assert_eq!(source.volume, 100);
    assert_eq!(source.monitor_index, None);
    assert_eq!(source.monitor_name, None);
}

#[test]
fn sinks_are_equal_by_index_alone() {
    let quiet = Sink::from(device_sink_info(2, Some("Speaker"), 0));
    let loud = Sink::from(device_sink_info(2, Some("Renamed"), 0xffff));
    let other = Sink::from(device_sink_info(3, Some("Speaker"), 0));
    assert!(quiet == loud);
    assert!(quiet != other);
}

#[test]
fn sources_are_equal_by_index_alone() {
    let record = |index: u32, volume: u32| SourceInfo {
        name: Some("Mic".to_string()),
        index,
        volume,
        mute: false,
        monitor_of_sink: None,
        monitor_of_sink_name: None,
        state: DeviceState::Running,
    };
    assert!(Source::from(record(5, 0)) == Source::from(record(5, 40000)));
    assert!(Source::from(record(5, 0)) != Source::from(record(6, 0)));
}
