use widget_core::models::TodoUpdate;
use widget_core::setup::{SetupState, SetupTask};
use widget_core::snap::{SnapEdge, SnapHandler};

#[test]
fn empty_todo_update_changes_nothing() {
    let update = TodoUpdate::default();
    assert!(update.title.is_none());
    assert!(update.description.is_none());
    assert!(update.start_date.is_none());
    assert!(update.end_date.is_none());
    assert!(update.color.is_none());
    assert!(update.status.is_none());
}

#[test]
fn setup_completes_after_both_tasks() {
    let mut state = SetupState::new();
    assert!(!state.frontend_task);
    assert!(!state.backend_task);
    assert!(!state.mark_complete(SetupTask::Frontend));
    assert!(state.frontend_task);
    assert!(state.mark_complete(SetupTask::Backend));
    assert!(state.backend_task);
}

#[test]
fn setup_tasks_stay_completed() {
    let mut state = SetupState::new();
    assert!(!state.mark_complete(SetupTask::Backend));
    assert!(!state.mark_complete(SetupTask::Backend));
    assert!(state.backend_task);
    assert!(!state.frontend_task);
}

#[test]
fn snap_edges_are_detected_in_order() {
    let handler = SnapHandler;
    // The top edge wins even in a corner.
    assert_eq!(handler.detect_edge(5, 5, 1000, 1000), Some(SnapEdge::Top));
    assert_eq!(handler.detect_edge(500, 945, 1000, 1000), Some(SnapEdge::Bottom));
    assert_eq!(handler.detect_edge(5, 500, 1000, 1000), Some(SnapEdge::Left));
    assert_eq!(handler.detect_edge(945, 500, 1000, 1000), Some(SnapEdge::Right));
    assert_eq!(handler.detect_edge(500, 500, 1000, 1000), None);
}

#[test]
fn snap_edge_names() {
    assert_eq!(SnapEdge::Top.as_str(), "top");
    assert_eq!(SnapEdge::Bottom.as_str(), "bottom");
    assert_eq!(SnapEdge::Left.as_str(), "left");
    assert_eq!(SnapEdge::Right.as_str(), "right");
}
