//! The state store: the current sinks, sources and default devices.
//!
//! Devices are kept in maps keyed by their index, so that storing a device whose index is
//! already present replaces the earlier entry as a whole.

use std::collections::HashMap;
use vstd::prelude::*;
use crate::device::{Sink, SinkView, Source, SourceView};

verus! {

broadcast use vstd::std_specs::hash::group_hash_axioms;

/// Mathematical value of the store: one entry per device index, and the two defaults.
pub ghost struct InformationView {
    pub sinks: Map<u32, SinkView>,
    pub sources: Map<u32, SourceView>,
    pub default_sink: Option<SinkView>,
    pub default_source: Option<SourceView>,
}

impl InformationView {
    /// The store with no device and no default.
    pub open spec fn empty() -> Self {
        InformationView {
            sinks: Map::empty(),
            sources: Map::empty(),
            default_sink: None,
            default_source: None,
        }
    }

    /// Every entry is filed under its own index, so no index occurs twice.
    pub open spec fn consistent(self) -> bool {
        &&& self.sinks.dom().finite()
        &&& self.sources.dom().finite()
        &&& forall|index: u32| #[trigger]
            self.sinks.contains_key(index) ==> self.sinks[index].index == index
        &&& forall|index: u32| #[trigger]
            self.sources.contains_key(index) ==> self.sources[index].index == index
    }

    /// Every stored volume, those of the two defaults included, is a percentage: at most 100.
    pub open spec fn in_percent(self) -> bool {
        &&& forall|index: u32| #[trigger]
            self.sinks.contains_key(index) ==> self.sinks[index].volume <= 100
        &&& forall|index: u32| #[trigger]
            self.sources.contains_key(index) ==> self.sources[index].volume <= 100
        &&& self.default_sink matches Some(sink) ==> sink.volume <= 100
        &&& self.default_source matches Some(source) ==> source.volume <= 100
    }

    /// The store after `sink` was inserted, or put in place of the sink with the same index.
    pub open spec fn upsert_sink(self, sink: SinkView) -> Self {
        InformationView { sinks: self.sinks.insert(sink.index, sink), ..self }
    }

    /// The store after `source` was inserted, or put in place of the source with the same
    /// index.
    pub open spec fn upsert_source(self, source: SourceView) -> Self {
        InformationView { sources: self.sources.insert(source.index, source), ..self }
    }

    /// The store with `sink` as the default sink; the maps are left alone.
    pub open spec fn with_default_sink(self, sink: SinkView) -> Self {
        InformationView { default_sink: Some(sink), ..self }
    }

    /// The store with `source` as the default source; the maps are left alone.
    pub open spec fn with_default_source(self, source: SourceView) -> Self {
        InformationView { default_source: Some(source), ..self }
    }
}

/// The values of the stored sinks, by index.
pub open spec fn sink_views(sinks: Map<u32, Sink>) -> Map<u32, SinkView> {
    sinks.map_values(|sink: Sink| sink@)
}

/// The values of the stored sources, by index.
pub open spec fn source_views(sources: Map<u32, Source>) -> Map<u32, SourceView> {
    sources.map_values(|source: Source| source@)
}

/// The value of an optional sink.
pub open spec fn sink_view(sink: Option<Sink>) -> Option<SinkView> {
    match sink {
        Some(sink) => Some(sink@),
        None => None,
    }
}

/// The value of an optional source.
pub open spec fn source_view(source: Option<Source>) -> Option<SourceView> {
    match source {
        Some(source) => Some(source@),
        None => None,
    }
}

/// Sinks, sources and default devices as last reported by the audio server.
#[derive(Debug)]
pub struct Information {
    sinks: HashMap<u32, Sink>,
    sources: HashMap<u32, Source>,
    default_sink: Option<Sink>,
    default_source: Option<Source>,
}

impl View for Information {
    type V = InformationView;

    closed spec fn view(&self) -> InformationView {
        InformationView {
            sinks: sink_views(self.sinks@),
            sources: source_views(self.sources@),
            default_sink: sink_view(self.default_sink),
            default_source: source_view(self.default_source),
        }
    }
}

impl Information {
    /// Every stored device is filed under its own index.
    #[verifier::type_invariant]
    pub closed spec fn filed_by_index(&self) -> bool {
        &&& forall|index: u32| #[trigger]
            self.sinks@.contains_key(index) ==> self.sinks@[index].index == index
        &&& forall|index: u32| #[trigger]
            self.sources@.contains_key(index) ==> self.sources@[index].index == index
    }

    /// A store whose entries are filed by index has a consistent value.
    pub proof fn lemma_consistent(&self)
        requires
            self.filed_by_index(),
        ensures
            self@.consistent(),
    {
        assert(self@.sinks.dom() =~= self.sinks@.dom());
        assert(self@.sources.dom() =~= self.sources@.dom());
    }

    /// An empty store.
    pub fn new() -> (info: Information)
        ensures
            info@ == InformationView::empty(),
            info@.consistent(),
            info@.in_percent(),
    {
        let info = Information {
            sinks: HashMap::new(),
            sources: HashMap::new(),
            default_sink: None,
            default_source: None,
        };
        assert(info@.sinks =~= Map::empty());
        assert(info@.sources =~= Map::empty());
        info
    }

    /// Inserts `sink`, or replaces the sink that has the same index.  Nothing of a replaced
    /// entry is kept.
    pub fn upsert_sink(&mut self, sink: Sink)
        ensures
            final(self)@ == old(self)@.upsert_sink(sink@),
            final(self)@.consistent(),
            old(self)@.in_percent() && sink.volume <= 100 ==> final(self)@.in_percent(),
    {
        proof {
            use_type_invariant(&*self);
        }
        let ghost before = self.sinks@;
        let mut sinks: HashMap<u32, Sink> = HashMap::new();
        core::mem::swap(&mut self.sinks, &mut sinks);
        sinks.insert(sink.index, sink);
        core::mem::swap(&mut self.sinks, &mut sinks);
        proof {
            assert(sink_views(self.sinks@) =~= sink_views(before).insert(sink.index, sink@));
            self.lemma_consistent();
        }
    }

    /// Inserts `source`, or replaces the source that has the same index.  Nothing of a
    /// replaced entry is kept.
    pub fn upsert_source(&mut self, source: Source)
        ensures
            final(self)@ == old(self)@.upsert_source(source@),
            final(self)@.consistent(),
            old(self)@.in_percent() && source.volume <= 100 ==> final(self)@.in_percent(),
    {
        proof {
            use_type_invariant(&*self);
        }
        let ghost before = self.sources@;
        let mut sources: HashMap<u32, Source> = HashMap::new();
        core::mem::swap(&mut self.sources, &mut sources);
        sources.insert(source.index, source);
        core::mem::swap(&mut self.sources, &mut sources);
        proof {
            assert(source_views(self.sources@) =~= source_views(before).insert(
                source.index,
                source@,
            ));
            self.lemma_consistent();
        }
    }

    /// Records `sink` as the default sink.  The default is held apart from the map of sinks
    /// and may name an index that the map lacks.
    pub fn set_default_sink(&mut self, sink: Sink)
        ensures
            final(self)@ == old(self)@.with_default_sink(sink@),
            final(self)@.consistent(),
            old(self)@.in_percent() && sink.volume <= 100 ==> final(self)@.in_percent(),
    {
        proof {
            use_type_invariant(&*self);
        }
        self.default_sink = Some(sink);
        proof {
            self.lemma_consistent();
        }
    }

    /// Records `source` as the default source.  The default is held apart from the map of
    /// sources and may name an index that the map lacks.
    pub fn set_default_source(&mut self, source: Source)
        ensures
            final(self)@ == old(self)@.with_default_source(source@),
            final(self)@.consistent(),
            old(self)@.in_percent() && source.volume <= 100 ==> final(self)@.in_percent(),
    {
        proof {
            use_type_invariant(&*self);
        }
        self.default_source = Some(source);
        proof {
            self.lemma_consistent();
        }
    }

    /// The stored sinks by index.
    pub fn sinks(&self) -> (sinks: &HashMap<u32, Sink>)
        ensures
            sink_views(sinks@) == self@.sinks,
            self@.consistent(),
    {
        proof {
            use_type_invariant(self);
            self.lemma_consistent();
        }
        &self.sinks
    }

    /// The stored sources by index.
    pub fn sources(&self) -> (sources: &HashMap<u32, Source>)
        ensures
            source_views(sources@) == self@.sources,
            self@.consistent(),
    {
        proof {
            use_type_invariant(self);
            self.lemma_consistent();
        }
        &self.sources
    }

    /// The sink stored under `index`, if there is one.
    pub fn sink(&self, index: u32) -> (found: Option<&Sink>)
        ensures
            match found {
                Some(sink) => self@.sinks.contains_key(index) && sink@ == self@.sinks[index]
                    && sink.index == index,
                None => !self@.sinks.contains_key(index),
            },
    {
        proof {
            use_type_invariant(self);
        }
        self.sinks.get(&index)
    }

    /// The source stored under `index`, if there is one.
    pub fn source(&self, index: u32) -> (found: Option<&Source>)
        ensures
            match found {
                Some(source) => self@.sources.contains_key(index) && source@
                    == self@.sources[index] && source.index == index,
                None => !self@.sources.contains_key(index),
            },
    {
        proof {
            use_type_invariant(self);
        }
        self.sources.get(&index)
    }

    /// The default sink, if one was recorded.
    pub fn default_sink(&self) -> (sink: Option<&Sink>)
        ensures
            match sink {
                Some(sink) => self@.default_sink == Some(sink@),
                None => self@.default_sink is None,
            },
    {
        self.default_sink.as_ref()
    }

    /// The default source, if one was recorded.
    pub fn default_source(&self) -> (source: Option<&Source>)
        ensures
            match source {
                Some(source) => self@.default_source == Some(source@),
                None => self@.default_source is None,
            },
    {
        self.default_source.as_ref()
    }

    /// Forgets every device and both defaults.
    pub fn clear(&mut self)
        ensures
            final(self)@ == InformationView::empty(),
            final(self)@.consistent(),
            final(self)@.in_percent(),
    {
        proof {
            use_type_invariant(&*self);
        }
        self.sinks = HashMap::new();
        self.sources = HashMap::new();
        self.default_sink = None;
        self.default_source = None;
        assert(self@.sinks =~= Map::empty());
        assert(self@.sources =~= Map::empty());
    }
}

/// Storing the same sink twice is storing it once: after the second time the store is what
/// it was after the first, the sink's index has one entry, and that entry is the sink, field
/// for field.
pub proof fn lemma_upsert_sink_idempotent(store: InformationView, sink: SinkView)
    requires
        store.consistent(),
    ensures
        store.upsert_sink(sink).upsert_sink(sink) == store.upsert_sink(sink),
        store.upsert_sink(sink).consistent(),
        store.upsert_sink(sink).sinks.contains_key(sink.index),
        store.upsert_sink(sink).sinks[sink.index] == sink,
        forall|index: u32|
            #![trigger store.upsert_sink(sink).sinks[index]]
            store.upsert_sink(sink).sinks.contains_key(index) && store.upsert_sink(
                sink,
            ).sinks[index].index == sink.index ==> index == sink.index,
        store.upsert_sink(sink).sinks.len() == store.sinks.len() + (if store.sinks.contains_key(
            sink.index,
        ) {
            0nat
        } else {
            1nat
        }),
        store.upsert_sink(sink).upsert_sink(sink).sinks.len() == store.upsert_sink(
            sink,
        ).sinks.len(),
{
    assert(store.upsert_sink(sink).sinks.insert(sink.index, sink) =~= store.upsert_sink(
        sink,
    ).sinks);
}

/// Storing a sink replaces the sink with the same index as a whole: the store is what it
/// would be had the earlier sink never been stored, so none of its fields is left behind.
pub proof fn lemma_upsert_sink_replaces(store: InformationView, earlier: SinkView, later: SinkView)
    requires
        earlier.index == later.index,
    ensures
        store.upsert_sink(earlier).upsert_sink(later) == store.upsert_sink(later),
        store.upsert_sink(earlier).upsert_sink(later).sinks[later.index] == later,
        store.upsert_sink(earlier).upsert_sink(later).sinks.dom() == store.upsert_sink(
            earlier,
        ).sinks.dom(),
{
    assert(store.upsert_sink(earlier).sinks.insert(later.index, later) =~= store.sinks.insert(
        later.index,
        later,
    ));
}

/// Storing the same source twice is storing it once; see [`lemma_upsert_sink_idempotent`].
pub proof fn lemma_upsert_source_idempotent(store: InformationView, source: SourceView)
    requires
        store.consistent(),
    ensures
        store.upsert_source(source).upsert_source(source) == store.upsert_source(source),
        store.upsert_source(source).consistent(),
        store.upsert_source(source).sources.contains_key(source.index),
        store.upsert_source(source).sources[source.index] == source,
        store.upsert_source(source).sources.len() == store.sources.len() + (
        if store.sources.contains_key(source.index) {
            0nat
        } else {
            1nat
        }),
{
    assert(store.upsert_source(source).sources.insert(source.index, source)
        =~= store.upsert_source(source).sources);
}

/// Storing a source replaces the source with the same index as a whole; see
/// [`lemma_upsert_sink_replaces`].
pub proof fn lemma_upsert_source_replaces(
    store: InformationView,
    earlier: SourceView,
    later: SourceView,
)
    requires
        earlier.index == later.index,
    ensures
        store.upsert_source(earlier).upsert_source(later) == store.upsert_source(later),
        store.upsert_source(earlier).upsert_source(later).sources[later.index] == later,
{
    assert(store.upsert_source(earlier).sources.insert(later.index, later)
        =~= store.sources.insert(later.index, later));
}

} // verus!
