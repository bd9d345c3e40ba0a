//! The window-manager listener: what it subscribes to, what it reports when an event
//! arrives, and the order in which workspaces are reported.
//!
//! The listener itself does not talk to the window manager.  The caller subscribes to the
//! events that the listener names, hands each event that arrives to [`HyprlandListener::listen`]
//! and emits what it answers.

use vstd::prelude::*;

verus! {

/// What the listener is asked to follow.
#[derive(Clone, Copy, Debug, PartialEq, Eq, Structural)]
pub enum HyprlandOpts {
    Workspace,
    Window,
    Keyboard,
}

/// An event of the window manager.
#[derive(Clone, Copy, Debug, PartialEq, Eq, Structural)]
pub enum HyprlandEvent {
    WorkspaceAdded,
    WorkspaceMoved,
    WorkspaceChanged,
    WorkspaceDestroyed,
    ActiveWindowChanged,
    FullscreenStateChanged,
    WindowOpened,
    WindowClosed,
    WindowMoved,
    KeyboardLayoutChanged,
}

/// What is emitted.
#[derive(Clone, Copy, Debug, PartialEq, Eq, Structural)]
pub enum Report {
    /// Every workspace, marked where it is the active one, in the order of [`arranged`].
    Workspaces,
    /// The class of the active window.
    ActiveWindow,
    /// The first keyboard.
    Keyboard,
}

/// What is emitted for each thing to follow.
pub open spec fn report_for(opts: HyprlandOpts) -> Report {
    match opts {
        HyprlandOpts::Workspace => Report::Workspaces,
        HyprlandOpts::Window => Report::ActiveWindow,
        HyprlandOpts::Keyboard => Report::Keyboard,
    }
}

/// The events after which a report is emitted, in the order of subscription.
pub open spec fn subscriptions(opts: HyprlandOpts) -> Seq<HyprlandEvent> {
    match opts {
        HyprlandOpts::Workspace => seq![
            HyprlandEvent::WorkspaceAdded,
            HyprlandEvent::WorkspaceMoved,
            HyprlandEvent::WorkspaceChanged,
            HyprlandEvent::WorkspaceDestroyed,
            HyprlandEvent::ActiveWindowChanged,
            HyprlandEvent::FullscreenStateChanged,
        ],
        HyprlandOpts::Window => seq![
            HyprlandEvent::WindowOpened,
            HyprlandEvent::WindowClosed,
            HyprlandEvent::WindowMoved,
            HyprlandEvent::ActiveWindowChanged,
        ],
        HyprlandOpts::Keyboard => seq![HyprlandEvent::KeyboardLayoutChanged],
    }
}

/// Whether a first report is emitted before any event arrives.  The active window is
/// reported on events only.
pub open spec fn reports_at_start(opts: HyprlandOpts) -> bool {
    opts != HyprlandOpts::Window
}

/// A listener for one thing to follow.
#[derive(Clone, Debug)]
pub struct HyprlandListener {
    opts: HyprlandOpts,
    events: Vec<HyprlandEvent>,
}

/// Mathematical value of a [`HyprlandListener`].
pub ghost struct HyprlandListenerView {
    pub report: Report,
    pub events: Seq<HyprlandEvent>,
    pub reports_at_start: bool,
}

impl View for HyprlandListener {
    type V = HyprlandListenerView;

    closed spec fn view(&self) -> HyprlandListenerView {
        HyprlandListenerView {
            report: report_for(self.opts),
            events: self.events@,
            reports_at_start: reports_at_start(self.opts),
        }
    }
}

impl HyprlandListener {
    /// The listener that follows `opts`.
    pub fn new(opts: &HyprlandOpts) -> (listener: HyprlandListener)
        ensures
            listener@.report == report_for(*opts),
            listener@.events == subscriptions(*opts),
            listener@.reports_at_start == reports_at_start(*opts),
    {
        let mut events: Vec<HyprlandEvent> = Vec::new();
        match opts {
            HyprlandOpts::Workspace => {
                events.push(HyprlandEvent::WorkspaceAdded);
                events.push(HyprlandEvent::WorkspaceMoved);
                events.push(HyprlandEvent::WorkspaceChanged);
                events.push(HyprlandEvent::WorkspaceDestroyed);
                events.push(HyprlandEvent::ActiveWindowChanged);
                events.push(HyprlandEvent::FullscreenStateChanged);
            },
            HyprlandOpts::Window => {
                events.push(HyprlandEvent::WindowOpened);
                events.push(HyprlandEvent::WindowClosed);
                events.push(HyprlandEvent::WindowMoved);
                events.push(HyprlandEvent::ActiveWindowChanged);
            },
            HyprlandOpts::Keyboard => {
                events.push(HyprlandEvent::KeyboardLayoutChanged);
            },
        }
        assert(events@ =~= subscriptions(*opts));
        HyprlandListener { opts: *opts, events }
    }

    /// What the listener emits.
    pub fn report(&self) -> (report: Report)
        ensures
            report == self@.report,
    {
        match self.opts {
            HyprlandOpts::Workspace => Report::Workspaces,
            HyprlandOpts::Window => Report::ActiveWindow,
            HyprlandOpts::Keyboard => Report::Keyboard,
        }
    }

    /// The events to subscribe to, in the order of subscription.
    pub fn events(&self) -> (events: &Vec<HyprlandEvent>)
        ensures
            events@ == self@.events,
    {
        &self.events
    }

    /// Whether a first report is emitted before any event arrives.
    pub fn reports_at_start(&self) -> (first: bool)
        ensures
            first == self@.reports_at_start,
    {
        match self.opts {
            HyprlandOpts::Window => false,
            _ => true,
        }
    }

    /// Takes one event of the window manager and says what to emit for it: the listener's
    /// report after an event that the listener subscribes to, nothing after any other.
    pub fn listen(&self, event: HyprlandEvent) -> (reaction: Option<Report>)
        ensures
            reaction == (if self@.events.contains(event) {
                Some(self@.report)
            } else {
                None
            }),
    {
        let mut i: usize = 0;
        while i < self.events.len()
            invariant
                i <= self.events.len(),
                forall|j: int| 0 <= j < i ==> self.events@[j] != event,
            decreases self.events.len() - i,
        {
            if self.events[i] == event {
                return Some(self.report());
            }
            i += 1;
        }
        None
    }
}

/// The place of one workspace in a report.
#[derive(Clone, Copy, Debug, PartialEq, Eq, Structural)]
pub struct WorkspaceSlot {
    /// Position of the workspace in the list that the window manager returned.
    pub position: usize,
    /// Whether the workspace is the active one.
    pub is_active: bool,
}

/// Whether the workspace at position `p` is reported before the one at position `q`: the
/// smaller identifier goes first, and of two equal identifiers the one that the window
/// manager listed first.
pub open spec fn reported_before(ids: Seq<i32>, p: int, q: int) -> bool {
    ids[p] < ids[q] || (ids[p] == ids[q] && p < q)
}

/// Whether the workspace at position `p` has a slot.
pub open spec fn has_slot(slots: Seq<WorkspaceSlot>, p: int) -> bool {
    exists|k: int| 0 <= k < slots.len() && (#[trigger] slots[k]).position == p
}

/// `slots` is the report of the workspaces with the identifiers `ids`, of which the workspace
/// with the identifier `active`, if there is one, is the active one: every workspace has one
/// slot, the slots are in the order of [`reported_before`], and a slot is marked active if
/// and only if its workspace has the active identifier.
pub open spec fn arranged(ids: Seq<i32>, active: Option<i32>, slots: Seq<WorkspaceSlot>) -> bool {
    &&& slots.len() == ids.len()
    &&& forall|k: int| 0 <= k < slots.len() ==> 0 <= (#[trigger] slots[k]).position < ids.len()
    &&& forall|p: int| 0 <= p < ids.len() ==> has_slot(slots, p)
    &&& forall|a: int, b: int|
        0 <= a < b < slots.len() ==> reported_before(
            ids,
            (#[trigger] slots[a]).position as int,
            (#[trigger] slots[b]).position as int,
        )
    &&& forall|k: int|
        0 <= k < slots.len() ==> (#[trigger] slots[k]).is_active == (active == Some(
            ids[slots[k].position as int],
        ))
}

/// Arranges the workspaces for a report.  `ids` holds the identifiers of the workspaces as
/// the window manager listed them, `active` the identifier of the active workspace where the
/// window manager could tell it.
pub fn arrange(ids: &Vec<i32>, active: Option<i32>) -> (slots: Vec<WorkspaceSlot>)
    ensures
        arranged(ids@, active, slots@),
{
    let mut slots: Vec<WorkspaceSlot> = Vec::new();
    let mut next: usize = 0;
    while next < ids.len()
        invariant
            next <= ids.len(),
            slots.len() == next,
            forall|k: int| 0 <= k < slots.len() ==> 0 <= (#[trigger] slots[k]).position < next,
            forall|p: int| 0 <= p < next ==> has_slot(slots@, p),
            forall|a: int, b: int|
                0 <= a < b < slots.len() ==> reported_before(
                    ids@,
                    (#[trigger] slots[a]).position as int,
                    (#[trigger] slots[b]).position as int,
                ),
            forall|k: int|
                0 <= k < slots.len() ==> (#[trigger] slots[k]).is_active == (active == Some(
                    ids@[slots[k].position as int],
                )),
        decreases ids.len() - next,
    {
        let id = ids[next];
        let mut at: usize = slots.len();
        while at > 0 && ids[slots[at - 1].position] > id
            invariant
                at <= slots.len(),
                slots.len() == next,
                next < ids.len(),
                id == ids@[next as int],
                forall|k: int| 0 <= k < slots.len() ==> 0 <= (#[trigger] slots[k]).position < next,
                forall|k: int|
                    at <= k < slots.len() ==> ids@[(#[trigger] slots[k]).position as int] > id,
            decreases at,
        {
            at -= 1;
        }
        let is_active = match active {
            Some(active_id) => active_id == id,
            None => false,
        };
        let ghost before = slots@;
        slots.insert(at, WorkspaceSlot { position: next, is_active });
        proof {
            assert forall|a: int, b: int| 0 <= a < b < slots.len() implies reported_before(
                ids@,
                (#[trigger] slots[a]).position as int,
                (#[trigger] slots[b]).position as int,
            ) by {
                if b == at && a < at - 1 {
                    assert(reported_before(
                        ids@,
                        before[a].position as int,
                        before[at - 1].position as int,
                    ));
                }
            }
            assert forall|p: int| 0 <= p < next + 1 implies has_slot(slots@, p) by {
                if p == next {
                    assert(slots[at as int].position == p);
                } else {
                    assert(has_slot(before, p));
                    let k = choose|k: int| 0 <= k < before.len() && (#[trigger] before[k]).position == p;
                    if k < at {
                        assert(slots[k].position == p);
                    } else {
                        assert(slots[k + 1] == before[k]);
                    }
                }
            }
        }
        next += 1;
    }
    slots
}

/// Two reports of the same workspaces agree up to slot `upto`.
proof fn lemma_arrangements_agree(
    ids: Seq<i32>,
    active: Option<i32>,
    first: Seq<WorkspaceSlot>,
    second: Seq<WorkspaceSlot>,
    upto: nat,
)
    requires
        arranged(ids, active, first),
        arranged(ids, active, second),
        upto <= ids.len(),
    ensures
        forall|j: int| 0 <= j < upto ==> first[j] == second[j],
    decreases upto,
{
    if upto > 0 {
        lemma_arrangements_agree(ids, active, first, second, (upto - 1) as nat);
        let i = upto - 1;
        let p = first[i].position as int;
        let q = second[i].position as int;
        assert(has_slot(second, p));
        let m = choose|m: int| 0 <= m < second.len() && (#[trigger] second[m]).position == p;
        assert(has_slot(first, q));
        let n = choose|n: int| 0 <= n < first.len() && (#[trigger] first[n]).position == q;
        if m < i {
            assert(first[m] == second[m]);
            assert(reported_before(ids, first[m].position as int, first[i].position as int));
        }
        if n < i {
            assert(first[n] == second[n]);
            assert(reported_before(ids, second[n].position as int, second[i].position as int));
        }
        if m > i {
            assert(reported_before(ids, second[i].position as int, second[m].position as int));
        }
        if n > i {
            assert(reported_before(ids, first[i].position as int, first[n].position as int));
        }
        assert(p == q);
        assert(first[i].is_active == second[i].is_active);
    }
}

/// The report of the workspaces is determined by their identifiers and the active
/// identifier: two reports that are both [`arranged`] are the same report.
pub proof fn lemma_arrangement_is_unique(
    ids: Seq<i32>,
    active: Option<i32>,
    first: Seq<WorkspaceSlot>,
    second: Seq<WorkspaceSlot>,
)
    requires
        arranged(ids, active, first),
        arranged(ids, active, second),
    ensures
        first == second,
{
    lemma_arrangements_agree(ids, active, first, second, ids.len());
    assert(first =~= second);
}

} // verus!
