use hyprdock::config::Config;
use hyprdock::hypr::{HyprEvent, WindowInfo, WorkspaceType};
use hyprdock::ui::auto_hide::{
    initial_exclusive_zone, update_input_region, AutoHide, DockAction, PointerEvent, Rect,
    LEAVE_HIDE_DELAY_MS, MENU_CLOSED_HIDE_DELAY_MS,
};
use hyprdock::ui::taskbar::populate_pinned_apps;
use hyprdock::ui::{handle_event, refresh_dock, update_taskbar, DockState, EventEffect, PinMark, TaskItem};

fn win(address: &str, class: &str) -> WindowInfo {
    WindowInfo {
        address: address.to_string(),
        title: class.to_string(),
        class: class.to_string(),
        workspace: "1".to_string(),
    }
}

#[test]
fn window_list_replaces_remembered_windows() {
    let mut st = DockState::new();
    let e = handle_event(HyprEvent::WindowListUpdate(vec![win("0x1", "kitty")]), &mut st);
    assert!(matches!(e, EventEffect::RedrawTaskbar));
    assert_eq!(st.last_windows.len(), 1);
    let e = handle_event(HyprEvent::WindowListUpdate(vec![]), &mut st);
    assert!(matches!(e, EventEffect::RedrawTaskbar));
    assert!(st.last_windows.is_empty());
}

#[test]
fn active_window_is_remembered() {
    let mut st = DockState::new();
    handle_event(HyprEvent::WindowListUpdate(vec![win("0x1", "kitty")]), &mut st);
    let e = handle_event(HyprEvent::ActiveWindowChanged(Some("0x1".to_string())), &mut st);
    assert!(matches!(e, EventEffect::RedrawTaskbar));
    assert_eq!(st.active_address, Some("0x1".to_string()));
    assert_eq!(st.last_windows.len(), 1);
}

#[test]
fn workspace_change_and_errors_leave_state() {
    let mut st = DockState::new();
    let e = handle_event(HyprEvent::WorkspaceChanged("2".to_string()), &mut st);
    assert!(matches!(e, EventEffect::Nothing));
    let e = handle_event(HyprEvent::Error("socket".to_string()), &mut st);
    assert!(matches!(e, EventEffect::Report(ref m) if m == "Hyprland Error: socket"));
    assert!(st.active_address.is_none());
    let _ = WorkspaceType::Special(None);
}

#[test]
fn taskbar_marks_favorites_and_lists_others() {
    let keys = vec!["firefox".to_string(), "alacritty".to_string(), "thunar".to_string()];
    let windows = vec![win("0x1", "Firefox"), win("0x2", "code"), win("0x3", "firefox"), win("0x4", "kitty")];
    let plan = update_taskbar(&keys, &Some("0x3".to_string()), &windows);
    assert_eq!(plan.pins, vec![
        PinMark { open: true, focused: true },
        PinMark { open: false, focused: false },
        PinMark { open: false, focused: false },
    ]);
    assert_eq!(plan.tasks, vec![TaskItem { window: 1, focused: false }, TaskItem { window: 3, focused: false }]);
    let plan = update_taskbar(&keys, &Some("0x4".to_string()), &windows);
    assert_eq!(plan.pins[0], PinMark { open: true, focused: false });
    assert_eq!(plan.tasks[1], TaskItem { window: 3, focused: true });
}

#[test]
fn duplicate_favorite_marks_last_button() {
    let keys = vec!["kitty".to_string(), "kitty".to_string()];
    let windows = vec![win("0x9", "Kitty")];
    let plan = update_taskbar(&keys, &None, &windows);
    assert_eq!(plan.pins, vec![PinMark { open: false, focused: false }, PinMark { open: true, focused: false }]);
    assert!(plan.tasks.is_empty());
}

#[test]
fn refresh_rebuilds_keys_and_taskbar() {
    let mut cfg = Config::default();
    cfg.pinned_apps = vec!["Firefox".to_string(), "Kitty".to_string()];
    assert_eq!(populate_pinned_apps(&cfg), vec!["firefox", "kitty"]);
    let mut st = DockState::new();
    handle_event(HyprEvent::WindowListUpdate(vec![win("0x1", "kitty"), win("0x2", "code")]), &mut st);
    let layout = refresh_dock(&cfg, &st);
    assert_eq!(layout.pin_keys, vec!["firefox", "kitty"]);
    assert_eq!(layout.taskbar.pins[1], PinMark { open: true, focused: false });
    assert_eq!(layout.taskbar.tasks, vec![TaskItem { window: 1, focused: false }]);
}

#[test]
fn dock_reveals_on_trigger_and_hides_after_grace() {
    let mut cfg = Config::default();
    cfg.overlay = false;
    let mut ah = AutoHide::new(&cfg);
    assert!(!ah.is_revealed());
    assert_eq!(ah.exclusive_zone(), 0);
    let a = ah.step(PointerEvent::TriggerEnter);
    assert_eq!(a, vec![DockAction::Reveal(true), DockAction::SetExclusiveZone(60), DockAction::UpdateInputRegion]);
    assert!(ah.is_revealed());
    assert_eq!(ah.exclusive_zone(), 60);
    let a = ah.step(PointerEvent::DockLeave);
    assert_eq!(a, vec![DockAction::StartHideTimer(1500)]);
    assert!(ah.is_hide_pending());
    let a = ah.step(PointerEvent::HideTimeout { launcher_visible: false, context_visible: false });
    assert_eq!(a, vec![DockAction::Reveal(false), DockAction::SetExclusiveZone(0), DockAction::UpdateInputRegion]);
    assert!(!ah.is_revealed());
    assert_eq!(ah.exclusive_zone(), 0);
    assert!(!ah.is_hide_pending());
}

#[test]
fn overlay_dock_never_reserves_space() {
    let cfg = Config::default();
    let mut ah = AutoHide::new(&cfg);
    let a = ah.step(PointerEvent::TriggerEnter);
    assert_eq!(a, vec![DockAction::Reveal(true), DockAction::UpdateInputRegion]);
    assert_eq!(ah.exclusive_zone(), 0);
}

#[test]
fn open_menu_keeps_dock_shown() {
    let cfg = Config::default();
    let mut ah = AutoHide::new(&cfg);
    ah.step(PointerEvent::TriggerEnter);
    ah.step(PointerEvent::DockLeave);
    let a = ah.step(PointerEvent::HideTimeout { launcher_visible: true, context_visible: false });
    assert!(a.is_empty());
    assert!(ah.is_revealed());
    let a = ah.step(PointerEvent::MenuClosed);
    assert_eq!(a, vec![DockAction::StartHideTimer(MENU_CLOSED_HIDE_DELAY_MS)]);
    assert_eq!(MENU_CLOSED_HIDE_DELAY_MS, 100);
    assert_eq!(LEAVE_HIDE_DELAY_MS, 1500);
}

#[test]
fn returning_cancels_hide() {
    let cfg = Config::default();
    let mut ah = AutoHide::new(&cfg);
    ah.step(PointerEvent::TriggerEnter);
    ah.step(PointerEvent::DockLeave);
    let a = ah.step(PointerEvent::DockMotion);
    assert_eq!(a, vec![DockAction::CancelHideTimer, DockAction::UpdateInputRegion]);
    assert!(!ah.is_hide_pending());
    assert!(ah.is_revealed());
    let a = ah.step(PointerEvent::DockLeave);
    let a2 = ah.step(PointerEvent::DockLeave);
    assert_eq!(a, vec![DockAction::StartHideTimer(1500)]);
    assert_eq!(a2, vec![DockAction::CancelHideTimer, DockAction::StartHideTimer(1500)]);
}

#[test]
fn zone_when_always_shown() {
    let mut cfg = Config::default();
    assert_eq!(initial_exclusive_zone(&cfg), 0);
    cfg.auto_hide = false;
    assert_eq!(initial_exclusive_zone(&cfg), 0);
    cfg.overlay = false;
    assert_eq!(initial_exclusive_zone(&cfg), 60);
}

#[test]
fn input_region_parts() {
    let t = Rect { x: 10, y: 90, width: 100, height: 10 };
    let c = Rect { x: 0, y: 0, width: 300, height: 80 };
    assert_eq!(update_input_region(Some(t), Some(c), true), vec![t, c]);
    assert_eq!(update_input_region(Some(t), Some(c), false), vec![t]);
    assert_eq!(update_input_region(None, Some(c), true), vec![c]);
    assert!(update_input_region(None, None, true).is_empty());
}

#[test]
fn active_window_address_marks_focus() {
    let keys = vec!["kitty".to_string()];
    let mut st = DockState::new();
    handle_event(HyprEvent::WindowListUpdate(vec![win("0x1", "kitty"), win("0x2", "code")]), &mut st);
    handle_event(HyprEvent::ActiveWindowChanged(Some("0x1".to_string())), &mut st);
    let plan = update_taskbar(&keys, &st.active_address, &st.last_windows);
    assert_eq!(plan.pins[0], PinMark { open: true, focused: true });
    assert_eq!(plan.tasks, vec![TaskItem { window: 1, focused: false }]);
}
