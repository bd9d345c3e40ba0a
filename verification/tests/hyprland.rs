use pfui::hyprland::{
    arrange, HyprlandEvent, HyprlandListener, HyprlandOpts, Report, WorkspaceSlot,
};

const EVERY_EVENT: [HyprlandEvent; 10] = [
    HyprlandEvent::WorkspaceAdded,
    HyprlandEvent::WorkspaceMoved,
    HyprlandEvent::WorkspaceChanged,
    HyprlandEvent::WorkspaceDestroyed,
    HyprlandEvent::ActiveWindowChanged,
    HyprlandEvent::FullscreenStateChanged,
    HyprlandEvent::WindowOpened,
    HyprlandEvent::WindowClosed,
    HyprlandEvent::WindowMoved,
    HyprlandEvent::KeyboardLayoutChanged,
];

fn slot(position: usize, is_active: bool) -> WorkspaceSlot {
    WorkspaceSlot { position, is_active }
}

#[test]
fn workspace_listener_subscribes_to_six_events() {
    let listener = HyprlandListener::new(&HyprlandOpts::Workspace);
    assert_eq!(
        listener.events(),
        &vec![
            HyprlandEvent::WorkspaceAdded,
            HyprlandEvent::WorkspaceMoved,
            HyprlandEvent::WorkspaceChanged,
            HyprlandEvent::WorkspaceDestroyed,
            HyprlandEvent::ActiveWindowChanged,
            HyprlandEvent::FullscreenStateChanged,
        ]
    );
    assert_eq!(listener.report(), Report::Workspaces);
    assert!(listener.reports_at_start());
}

#[test]
fn window_listener_subscribes_to_four_events() {
    let listener = HyprlandListener::new(&HyprlandOpts::Window);
    assert_eq!(
        listener.events(),
        &vec![
            HyprlandEvent::WindowOpened,
            HyprlandEvent::WindowClosed,
            HyprlandEvent::WindowMoved,
            HyprlandEvent::ActiveWindowChanged,
        ]
    );
    assert_eq!(listener.report(), Report::ActiveWindow);
    assert!(!listener.reports_at_start());
}

#[test]
fn keyboard_listener_subscribes_to_layout_changes() {
    let listener = HyprlandListener::new(&HyprlandOpts::Keyboard);
    assert_eq!(listener.events(), &vec![HyprlandEvent::KeyboardLayoutChanged]);
    assert_eq!(listener.report(), Report::Keyboard);
    assert!(listener.reports_at_start());
}

#[test]
fn listener_reports_after_subscribed_events_only() {
    for (opts, report) in [
        (HyprlandOpts::Workspace, Report::Workspaces),
        (HyprlandOpts::Window, Report::ActiveWindow),
        (HyprlandOpts::Keyboard, Report::Keyboard),
    ] {
        let listener = HyprlandListener::new(&opts);
        for event in EVERY_EVENT {
            let expected = if listener.events().contains(&event) { Some(report) } else { None };
            assert_eq!(listener.listen(event), expected);
        }
    }
}

#[test]
fn active_window_change_concerns_workspaces_and_windows() {
    let event = HyprlandEvent::ActiveWindowChanged;
    assert_eq!(
        HyprlandListener::new(&HyprlandOpts::Workspace).listen(event),
        Some(Report::Workspaces)
    );
    assert_eq!(
        HyprlandListener::new(&HyprlandOpts::Window).listen(event),
        Some(Report::ActiveWindow)
    );
    assert_eq!(HyprlandListener::new(&HyprlandOpts::Keyboard).listen(event), None);
}

#[test]
fn no_workspaces_give_an_empty_report() {
    assert_eq!(arrange(&vec![], None), vec![]);
    assert_eq!(arrange(&vec![], Some(1)), vec![]);
}

#[test]
fn workspaces_are_reported_by_ascending_identifier() {
    let slots = arrange(&vec![3, 1, 2], Some(2));
    assert_eq!(slots, vec![slot(1, false), slot(2, true), slot(0, false)]);
}

#[test]
fn negative_identifiers_come_first() {
    let slots = arrange(&vec![5, -99, 0, i32::MIN, i32::MAX], Some(-99));
    assert_eq!(
        slots,
        vec![slot(3, false), slot(1, true), slot(2, false), slot(0, false), slot(4, false)]
    );
}

#[test]
fn sorted_workspaces_keep_their_order() {
    let slots = arrange(&vec![1, 2, 3, 4], Some(4));
    assert_eq!(slots, vec![slot(0, false), slot(1, false), slot(2, false), slot(3, true)]);
}

#[test]
fn equal_identifiers_keep_the_listed_order() {
    let slots = arrange(&vec![2, 1, 2, 1], Some(1));
    assert_eq!(slots, vec![slot(1, true), slot(3, true), slot(0, false), slot(2, false)]);
}

#[test]
fn unknown_active_workspace_marks_none() {
    let slots = arrange(&vec![2, 1], None);
    assert_eq!(slots, vec![slot(1, false), slot(0, false)]);
    let slots = arrange(&vec![2, 1], Some(7));
    assert_eq!(slots, vec![slot(1, false), slot(0, false)]);
}
