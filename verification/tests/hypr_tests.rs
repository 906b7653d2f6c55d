use hyprdock::hypr::{
    format_workspace_id, get_all_windows_by_class, get_first_window_by_class, route_event,
    sync_timeout_event, CompositorEvent, HyprEvent, InitialSync, WindowInfo, WorkspaceType,
    SYNC_ATTEMPTS, SYNC_RETRY_DELAY_MS,
};

fn win(address: &str, class: &str) -> WindowInfo {
    WindowInfo {
        address: address.to_string(),
        title: format!("{} window", class),
        class: class.to_string(),
        workspace: "1".to_string(),
    }
}

#[test]
fn workspace_names() {
    assert_eq!(format_workspace_id(WorkspaceType::Regular("3".to_string())), "3");
    assert_eq!(format_workspace_id(WorkspaceType::Special(Some("scratch".to_string()))), "scratch");
    assert_eq!(format_workspace_id(WorkspaceType::Special(None)), "Unknown");
}

#[test]
fn workspace_change_is_forwarded_without_refresh() {
    let r = route_event(CompositorEvent::WorkspaceChanged(WorkspaceType::Regular("2".to_string())));
    assert!(matches!(r.forward, Some(HyprEvent::WorkspaceChanged(ref s)) if s == "2"));
    assert!(!r.refresh_windows);
}

#[test]
fn active_window_change_is_forwarded_and_refreshes() {
    let r = route_event(CompositorEvent::ActiveWindowChanged(Some("0x5a1".to_string())));
    assert!(matches!(r.forward, Some(HyprEvent::ActiveWindowChanged(Some(ref t))) if t == "0x5a1"));
    assert!(r.refresh_windows);
}

#[test]
fn window_changes_refresh_only() {
    for ev in [CompositorEvent::WindowOpened, CompositorEvent::WindowClosed, CompositorEvent::WindowMoved] {
        let r = route_event(ev);
        assert!(r.forward.is_none());
        assert!(r.refresh_windows);
    }
}

#[test]
fn first_window_ignores_letter_case() {
    let ws = vec![win("0x1", "kitty"), win("0x2", "Firefox"), win("0x3", "firefox")];
    assert_eq!(get_first_window_by_class(&ws, "FIREFOX"), Some("0x2".to_string()));
    assert_eq!(get_first_window_by_class(&ws, "code"), None);
    assert_eq!(get_all_windows_by_class(&ws, "firefox"), vec!["0x2", "0x3"]);
    assert!(get_all_windows_by_class(&ws, "code").is_empty());
}

#[test]
fn initial_sync_gives_up_after_ten_failures() {
    let mut s = InitialSync::new();
    let mut attempts = 0;
    while s.may_attempt() {
        attempts += 1;
        assert_eq!(s.record_failure(), SYNC_RETRY_DELAY_MS);
    }
    assert_eq!(attempts, 10);
    assert_eq!(SYNC_ATTEMPTS, 10);
    assert_eq!(s.failure_count(), 10);
    assert!(matches!(sync_timeout_event(), HyprEvent::Error(ref m) if m == "Hyprland connection timeout"));
}
