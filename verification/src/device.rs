//! Audio endpoints as the synchronizer stores them.
//!
//! The audio server describes an endpoint with a record of raw values
//! ([`SinkInfo`], [`SourceInfo`]).  A stored [`Sink`] or [`Source`] is derived
//! from such a record: missing names get a placeholder and the raw channel
//! volume becomes a percentage.

use vstd::prelude::*;

verus! {

/// The raw volume that counts as one hundred percent.
pub const VOLUME_SCALE: u32 = 0xffff;

/// Operating state that the audio server reports for a device.
#[derive(Clone, Copy, Debug, PartialEq, Eq, Hash, Structural)]
pub enum DeviceState {
    Invalid,
    Running,
    Idle,
    Suspended,
}

/// The name given to a device for which the server reports none.
pub open spec fn unknown_name() -> Seq<char> {
    "Unknown"@
}

/// Volume percentage of a raw average channel volume: the share of [`VOLUME_SCALE`], rounded
/// down, and one hundred for every raw volume at or above it.  The server lets a volume be
/// raised above full scale; a percentage does not go there.
pub open spec fn volume_percent(raw: u32) -> int {
    if raw >= VOLUME_SCALE {
        100
    } else {
        (raw * 100) / (VOLUME_SCALE as int)
    }
}

/// A volume percentage lies between 0 and 100 whatever the raw volume is: it is 0 for
/// silence, 100 exactly from full scale on, and never falls as the raw volume rises.
pub proof fn lemma_volume_percent_in_range(raw: u32, louder: u32)
    ensures
        0 <= volume_percent(raw) <= 100,
        volume_percent(0) == 0,
        raw >= VOLUME_SCALE <==> volume_percent(raw) == 100,
        raw <= louder ==> volume_percent(raw) <= volume_percent(louder),
{
    assert(raw < VOLUME_SCALE ==> (raw * 100) / (VOLUME_SCALE as int) < 100);
    if raw <= louder && louder < VOLUME_SCALE {
        assert((raw * 100) / 0xffff <= (louder * 100) / 0xffff) by {
            vstd::arithmetic::div_mod::lemma_div_is_ordered(raw * 100, louder * 100, 0xffff);
        }
    }
}

/// Computes [`volume_percent`].  Every raw value is accepted.
pub fn percent_of(raw: u32) -> (percent: u32)
    ensures
        percent == volume_percent(raw),
        percent <= 100,
{
    if raw >= VOLUME_SCALE {
        100
    } else {
        raw * 100 / VOLUME_SCALE
    }
}

/// What the server reports about one sink, as plain values.  `volume` is the average over the
/// sink's channels in the server's raw unit, which may lie above full scale.
#[derive(Clone, Debug)]
pub struct SinkInfo {
    pub name: Option<String>,
    pub index: u32,
    pub volume: u32,
    pub mute: bool,
    pub monitor_source: u32,
    pub monitor_source_name: Option<String>,
    pub state: DeviceState,
}

/// What the server reports about one source, as plain values.  `volume` is the average over
/// the source's channels in the server's raw unit, which may lie above full scale.
#[derive(Clone, Debug)]
pub struct SourceInfo {
    pub name: Option<String>,
    pub index: u32,
    pub volume: u32,
    pub mute: bool,
    pub monitor_of_sink: Option<u32>,
    pub monitor_of_sink_name: Option<String>,
    pub state: DeviceState,
}

/// An audio output endpoint.
#[derive(Clone, Debug)]
pub struct Sink {
    pub name: String,
    pub index: u32,
    /// Volume in percent, 0 to 100.
    pub volume: u32,
    pub muted: bool,
    pub monitor_index: u32,
    pub monitor_name: String,
    pub state: DeviceState,
}

/// An audio input endpoint; it may be the loopback monitor of a sink.
#[derive(Clone, Debug)]
pub struct Source {
    pub name: String,
    pub index: u32,
    /// Volume in percent, 0 to 100.
    pub volume: u32,
    pub muted: bool,
    pub monitor_index: Option<u32>,
    pub monitor_name: Option<String>,
    pub state: DeviceState,
}

/// Mathematical value of a [`SinkInfo`].
pub ghost struct SinkInfoView {
    pub name: Option<Seq<char>>,
    pub index: u32,
    pub volume: u32,
    pub mute: bool,
    pub monitor_source: u32,
    pub monitor_source_name: Option<Seq<char>>,
    pub state: DeviceState,
}

/// Mathematical value of a [`SourceInfo`].
pub ghost struct SourceInfoView {
    pub name: Option<Seq<char>>,
    pub index: u32,
    pub volume: u32,
    pub mute: bool,
    pub monitor_of_sink: Option<u32>,
    pub monitor_of_sink_name: Option<Seq<char>>,
    pub state: DeviceState,
}

/// Mathematical value of a [`Sink`].
pub ghost struct SinkView {
    pub name: Seq<char>,
    pub index: u32,
    pub volume: u32,
    pub muted: bool,
    pub monitor_index: u32,
    pub monitor_name: Seq<char>,
    pub state: DeviceState,
}

/// Mathematical value of a [`Source`].
pub ghost struct SourceView {
    pub name: Seq<char>,
    pub index: u32,
    pub volume: u32,
    pub muted: bool,
    pub monitor_index: Option<u32>,
    pub monitor_name: Option<Seq<char>>,
    pub state: DeviceState,
}

/// The characters of an optional string.
pub open spec fn text_of(s: Option<String>) -> Option<Seq<char>> {
    match s {
        Some(text) => Some(text@),
        None => None,
    }
}

impl View for SinkInfo {
    type V = SinkInfoView;

    open spec fn view(&self) -> SinkInfoView {
        SinkInfoView {
            name: text_of(self.name),
            index: self.index,
            volume: self.volume,
            mute: self.mute,
            monitor_source: self.monitor_source,
            monitor_source_name: text_of(self.monitor_source_name),
            state: self.state,
        }
    }
}

impl View for SourceInfo {
    type V = SourceInfoView;

    open spec fn view(&self) -> SourceInfoView {
        SourceInfoView {
            name: text_of(self.name),
            index: self.index,
            volume: self.volume,
            mute: self.mute,
            monitor_of_sink: self.monitor_of_sink,
            monitor_of_sink_name: text_of(self.monitor_of_sink_name),
            state: self.state,
        }
    }
}

impl View for Sink {
    type V = SinkView;

    open spec fn view(&self) -> SinkView {
        SinkView {
            name: self.name@,
            index: self.index,
            volume: self.volume,
            muted: self.muted,
            monitor_index: self.monitor_index,
            monitor_name: self.monitor_name@,
            state: self.state,
        }
    }
}

impl View for Source {
    type V = SourceView;

    open spec fn view(&self) -> SourceView {
        SourceView {
            name: self.name@,
            index: self.index,
            volume: self.volume,
            muted: self.muted,
            monitor_index: self.monitor_index,
            monitor_name: text_of(self.monitor_name),
            state: self.state,
        }
    }
}

/// The sink that a server record describes: a missing name or monitor name becomes
/// [`unknown_name`], the raw volume becomes a percentage, everything else is carried over.
pub open spec fn sink_of(info: SinkInfoView) -> SinkView {
    SinkView {
        name: match info.name {
            Some(name) => name,
            None => unknown_name(),
        },
        index: info.index,
        volume: volume_percent(info.volume) as u32,
        muted: info.mute,
        monitor_index: info.monitor_source,
        monitor_name: match info.monitor_source_name {
            Some(name) => name,
            None => unknown_name(),
        },
        state: info.state,
    }
}

/// The source that a server record describes: a missing name becomes [`unknown_name`], the raw
/// volume becomes a percentage, and the monitored sink stays absent where the record has none.
pub open spec fn source_of(info: SourceInfoView) -> SourceView {
    SourceView {
        name: match info.name {
            Some(name) => name,
            None => unknown_name(),
        },
        index: info.index,
        volume: volume_percent(info.volume) as u32,
        muted: info.mute,
        monitor_index: info.monitor_of_sink,
        monitor_name: info.monitor_of_sink_name,
        state: info.state,
    }
}

/// The given name, or the placeholder where there is none.
fn name_or_unknown(name: Option<String>) -> (text: String)
    ensures
        text@ == (match name {
            Some(given) => given@,
            None => unknown_name(),
        }),
{
    match name {
        Some(given) => given,
        None => "Unknown".to_owned(),
    }
}

impl Sink {
    /// Builds the stored sink from the server's record.
    pub fn from(value: SinkInfo) -> (sink: Sink)
        ensures
            sink@ == sink_of(value@),
            sink.volume <= 100,
    {
        Sink {
            name: name_or_unknown(value.name),
            index: value.index,
            volume: percent_of(value.volume),
            muted: value.mute,
            monitor_index: value.monitor_source,
            monitor_name: name_or_unknown(value.monitor_source_name),
            state: value.state,
        }
    }
}

impl Source {
    /// Builds the stored source from the server's record.
    pub fn from(value: SourceInfo) -> (source: Source)
        ensures
            source@ == source_of(value@),
            source.volume <= 100,
    {
        Source {
            name: name_or_unknown(value.name),
            index: value.index,
            volume: percent_of(value.volume),
            muted: value.mute,
            monitor_index: value.monitor_of_sink,
            monitor_name: value.monitor_of_sink_name,
            state: value.state,
        }
    }
}

/// Devices are identified by their index alone: two values with the same index are the same
/// entity, whatever their other fields hold.
impl PartialEq for Sink {
    fn eq(&self, other: &Self) -> (same: bool) {
        self.index == other.index
    }
}

impl Eq for Sink {

}

impl vstd::std_specs::cmp::PartialEqSpecImpl for Sink {
    open spec fn obeys_eq_spec() -> bool {
        true
    }

    open spec fn eq_spec(&self, other: &Self) -> bool {
        self.index == other.index
    }
}

impl PartialEq for Source {
    fn eq(&self, other: &Self) -> (same: bool) {
        self.index == other.index
    }
}

impl Eq for Source {

}

impl vstd::std_specs::cmp::PartialEqSpecImpl for Source {
    open spec fn obeys_eq_spec() -> bool {
        true
    }

    open spec fn eq_spec(&self, other: &Self) -> bool {
        self.index == other.index
    }
}

} // verus!
