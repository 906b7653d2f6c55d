//! The dock's user-interface decisions.

pub mod auto_hide;
pub mod context_menu;
pub mod launcher;
pub mod taskbar;
pub mod utils;

use vstd::prelude::*;
use crate::config::Config;
use crate::hypr::{HyprEvent, WindowInfo};
use crate::ui::taskbar::{pin_keys, populate_pinned_apps};
use crate::text::{concat2, contains_string, lowercase, str_eq, strings_view, to_lower};

verus! {

/// What the dock remembers between compositor events: the active window
/// and the last window list received.
pub struct DockState {
    pub active_address: Option<String>,
    pub last_windows: Vec<WindowInfo>,
}

/// What the user interface does after an event.
pub enum EventEffect {
    Nothing,
    /// Redraw the taskbar from the remembered state.
    RedrawTaskbar,
    /// Print this message on standard error.
    Report(String),
}

impl DockState {
    pub fn new() -> (r: DockState)
        ensures
            r.active_address is None,
            r.last_windows@.len() == 0,
    {
        DockState { active_address: None, last_windows: Vec::new() }
    }
}

/// Applies an event of the listener to the dock's state. A new window list
/// replaces the remembered one; a change of active window replaces the
/// remembered active window; both redraw the taskbar. Workspace changes are
/// ignored and errors reported.
pub fn handle_event(event: HyprEvent, state: &mut DockState) -> (effect: EventEffect)
    ensures
        match event {
            HyprEvent::WorkspaceChanged(_) => {
                &&& effect is Nothing
                &&& *final(state) == *old(state)
            },
            HyprEvent::ActiveWindowChanged(a) => {
                &&& effect is RedrawTaskbar
                &&& final(state).active_address == a
                &&& final(state).last_windows == old(state).last_windows
            },
            HyprEvent::WindowListUpdate(ws) => {
                &&& effect is RedrawTaskbar
                &&& final(state).last_windows == ws
                &&& final(state).active_address == old(state).active_address
            },
            HyprEvent::Error(e) => {
                &&& effect matches EventEffect::Report(m) && m@ == "Hyprland Error: "@ + e@
                &&& *final(state) == *old(state)
            },
        },
{
    match event {
        HyprEvent::WorkspaceChanged(_) => EventEffect::Nothing,
        HyprEvent::ActiveWindowChanged(a) => {
            state.active_address = a;
            EventEffect::RedrawTaskbar
        },
        HyprEvent::WindowListUpdate(ws) => {
            state.last_windows = ws;
            EventEffect::RedrawTaskbar
        },
        HyprEvent::Error(e) => EventEffect::Report(concat2("Hyprland Error: ", e.as_str())),
    }
}

/// How a favorite button is marked.
#[derive(Clone, Copy, Debug, PartialEq, Eq, Structural)]
pub struct PinMark {
    /// The application has an open window.
    pub open: bool,
    /// One of its windows is the active one.
    pub focused: bool,
}

/// A window shown in the tasks section, by its position in the window list.
#[derive(Clone, Copy, Debug, PartialEq, Eq, Structural)]
pub struct TaskItem {
    pub window: usize,
    pub focused: bool,
}

/// How the taskbar is drawn: a mark for each favorite button, in order,
/// and the windows shown as tasks.
pub struct TaskbarPlan {
    pub pins: Vec<PinMark>,
    pub tasks: Vec<TaskItem>,
}

/// The favorite at position `j` is the one its key leads to: no later
/// favorite has the same key (a later one replaces it in the lookup).
pub open spec fn key_is_live(keys: Seq<Seq<char>>, j: int) -> bool {
    forall|k: int| j < k < keys.len() ==> keys[k] != keys[j]
}

/// The window is the active one.
pub open spec fn is_focused(active: Option<String>, w: WindowInfo) -> bool {
    active matches Some(a) && a@ == w.address@
}

/// The lookup key of a window.
pub open spec fn window_key(w: WindowInfo) -> Seq<char> {
    lowercase(w.class@)
}

/// Some window has the key.
pub open spec fn key_open(ws: Seq<WindowInfo>, key: Seq<char>) -> bool {
    exists|i: int| 0 <= i < ws.len() && window_key(#[trigger] ws[i]) == key
}

/// Some window with the key is the active one.
pub open spec fn key_focused(ws: Seq<WindowInfo>, key: Seq<char>, active: Option<String>) -> bool {
    exists|i: int|
        0 <= i < ws.len() && window_key(#[trigger] ws[i]) == key && is_focused(active, ws[i])
}

/// The mark of the favorite at position `j`.
pub open spec fn pin_mark(keys: Seq<Seq<char>>, j: int, ws: Seq<WindowInfo>, active: Option<String>) -> PinMark {
    PinMark {
        open: key_is_live(keys, j) && key_open(ws, keys[j]),
        focused: key_is_live(keys, j) && key_focused(ws, keys[j], active),
    }
}

/// The first `n` windows that no favorite stands for, as tasks.
pub open spec fn task_items(keys: Seq<Seq<char>>, ws: Seq<WindowInfo>, active: Option<String>, n: nat) -> Seq<TaskItem>
    decreases n,
{
    if n == 0 {
        Seq::empty()
    } else {
        let rest = task_items(keys, ws, active, (n - 1) as nat);
        let w = ws[n - 1];
        if keys.contains(window_key(w)) {
            rest
        } else {
            rest.push(TaskItem { window: (n - 1) as usize, focused: is_focused(active, w) })
        }
    }
}

/// Whether some window has the key, and whether one of those is active.
fn scan_key(windows: &Vec<WindowInfo>, key: &str, active: &Option<String>) -> (r: (bool, bool))
    ensures
        r.0 == key_open(windows@, key@),
        r.1 == key_focused(windows@, key@, *active),
{
    let mut open = false;
    let mut focused = false;
    let mut i: usize = 0;
    while i < windows.len()
        invariant
            i <= windows.len(),
            open == exists|j: int| 0 <= j < i && window_key(#[trigger] windows@[j]) == key@,
            focused == exists|j: int|
                0 <= j < i && window_key(#[trigger] windows@[j]) == key@ && is_focused(*active, windows@[j]),
        decreases windows.len() - i,
    {
        let k = to_lower(windows[i].class.as_str());
        if str_eq(k.as_str(), key) {
            assert(window_key(windows@[i as int]) == key@);
            open = true;
            let f = match active {
                Some(a) => str_eq(a.as_str(), windows[i].address.as_str()),
                None => false,
            };
            if f {
                assert(is_focused(*active, windows@[i as int]));
                focused = true;
            }
        }
        i += 1;
    }
    (open, focused)
}

/// Whether no later key equals the key at position `j`.
fn is_live_key(keys: &Vec<String>, j: usize) -> (r: bool)
    requires
        j < keys.len(),
    ensures
        r == key_is_live(strings_view(keys@), j as int),
{
    let mut k: usize = j + 1;
    while k < keys.len()
        invariant
            j < k <= keys.len(),
            forall|m: int| j < m < k ==> strings_view(keys@)[m] != strings_view(keys@)[j as int],
        decreases keys.len() - k,
    {
        if str_eq(keys[k].as_str(), keys[j].as_str()) {
            assert(strings_view(keys@)[k as int] == strings_view(keys@)[j as int]);
            return false;
        }
        k += 1;
    }
    true
}

/// Plans the taskbar for a window list: a favorite button is marked open
/// when a window of its class exists and focused when such a window is the
/// active one; every window whose class is not a favorite becomes a task,
/// in list order, marked focused when it is the active one.
pub fn update_taskbar(pin_keys: &Vec<String>, active: &Option<String>, windows: &Vec<WindowInfo>) -> (r: TaskbarPlan)
    ensures
        r.pins@.len() == pin_keys@.len(),
        forall|j: int| 0 <= j < pin_keys@.len() ==> #[trigger] r.pins@[j] == pin_mark(
            strings_view(pin_keys@), j, windows@, *active),
        r.tasks@ == task_items(strings_view(pin_keys@), windows@, *active, windows@.len()),
        forall|k: int|
            0 <= k < r.tasks@.len() ==> (#[trigger] r.tasks@[k]).window < windows@.len() && (
            r.tasks@[k].focused <==> (*active matches Some(a) && a@ == windows@[r.tasks@[k].window as int].address@)),
{
    let ghost keys = strings_view(pin_keys@);
    let mut pins: Vec<PinMark> = Vec::new();
    let mut j: usize = 0;
    while j < pin_keys.len()
        invariant
            j <= pin_keys.len(),
            keys == strings_view(pin_keys@),
            pins@.len() == j,
            forall|m: int| 0 <= m < j ==> #[trigger] pins@[m] == pin_mark(keys, m, windows@, *active),
        decreases pin_keys.len() - j,
    {
        let mark = if is_live_key(pin_keys, j) {
            let (open, focused) = scan_key(windows, pin_keys[j].as_str(), active);
            PinMark { open, focused }
        } else {
            PinMark { open: false, focused: false }
        };
        pins.push(mark);
        j += 1;
    }
    let mut tasks: Vec<TaskItem> = Vec::new();
    let mut i: usize = 0;
    while i < windows.len()
        invariant
            i <= windows.len(),
            keys == strings_view(pin_keys@),
            tasks@ == task_items(keys, windows@, *active, i as nat),
        decreases windows.len() - i,
    {
        let k = to_lower(windows[i].class.as_str());
        if !contains_string(pin_keys, k.as_str()) {
            let f = match active {
                Some(a) => str_eq(a.as_str(), windows[i].address.as_str()),
                None => false,
            };
            tasks.push(TaskItem { window: i, focused: f });
        }
        i += 1;
    }
    proof {
        law_task_focus_is_its_own(keys, windows@, *active);
    }
    TaskbarPlan { pins, tasks }
}

/// The tasks among the first `n` windows are those windows, in increasing
/// order, whose key is not a favorite's.
proof fn lemma_task_items(keys: Seq<Seq<char>>, ws: Seq<WindowInfo>, active: Option<String>, n: nat)
    requires
        n <= ws.len(),
        ws.len() <= usize::MAX,
    ensures
        forall|a: int, b: int|
            0 <= a < b < task_items(keys, ws, active, n).len() ==> (#[trigger] task_items(
                keys,
                ws,
                active,
                n,
            )[a]).window < (#[trigger] task_items(keys, ws, active, n)[b]).window,
        forall|a: int|
            0 <= a < task_items(keys, ws, active, n).len() ==> (#[trigger] task_items(
                keys,
                ws,
                active,
                n,
            )[a]).window < n,
        forall|m: int|
            0 <= m < n ==> ((exists|a: int|
                0 <= a < task_items(keys, ws, active, n).len() && (#[trigger] task_items(
                    keys,
                    ws,
                    active,
                    n,
                )[a]).window == m) <==> !keys.contains(window_key(#[trigger] ws[m]))),
    decreases n,
{
    if n > 0 {
        let prev = task_items(keys, ws, active, (n - 1) as nat);
        let cur = task_items(keys, ws, active, n);
        lemma_task_items(keys, ws, active, (n - 1) as nat);
        assert forall|m: int| 0 <= m < n implies ((exists|a: int|
            0 <= a < cur.len() && (#[trigger] cur[a]).window == m) <==> !keys.contains(
            window_key(#[trigger] ws[m]),
        )) by {
            if m < n - 1 {
                if exists|a: int| 0 <= a < cur.len() && (#[trigger] cur[a]).window == m {
                    let a = choose|a: int| 0 <= a < cur.len() && (#[trigger] cur[a]).window == m;
                    if a < prev.len() {
                        assert(prev[a] == cur[a]);
                    }
                }
                if exists|a: int| 0 <= a < prev.len() && (#[trigger] prev[a]).window == m {
                    let a = choose|a: int| 0 <= a < prev.len() && (#[trigger] prev[a]).window == m;
                    assert(cur[a] == prev[a]);
                }
            } else {
                if !keys.contains(window_key(ws[m])) {
                    assert(cur[cur.len() - 1].window == m);
                } else if exists|a: int| 0 <= a < cur.len() && (#[trigger] cur[a]).window == m {
                    let a = choose|a: int| 0 <= a < cur.len() && (#[trigger] cur[a]).window == m;
                    assert(prev[a] == cur[a]);
                }
            }
        }
    }
}

/// Every window shows up once on the taskbar: as a task of its own exactly
/// when no favorite has its class (letter case aside), and then only once.
pub proof fn law_each_window_shown_once(keys: Seq<Seq<char>>, ws: Seq<WindowInfo>, active: Option<String>, m: int)
    requires
        0 <= m < ws.len(),
        ws.len() <= usize::MAX,
    ensures
        (exists|a: int|
            0 <= a < task_items(keys, ws, active, ws.len()).len()
                && (#[trigger] task_items(keys, ws, active, ws.len())[a]).window == m)
            <==> !keys.contains(window_key(ws[m])),
        forall|a: int, b: int|
            0 <= a < task_items(keys, ws, active, ws.len()).len()
                && 0 <= b < task_items(keys, ws, active, ws.len()).len()
                && (#[trigger] task_items(keys, ws, active, ws.len())[a]).window
                == (#[trigger] task_items(keys, ws, active, ws.len())[b]).window ==> a == b,
{
    lemma_task_items(keys, ws, active, ws.len());
    let t = task_items(keys, ws, active, ws.len());
    assert forall|a: int, b: int|
        0 <= a < t.len() && 0 <= b < t.len() && (#[trigger] t[a]).window == (#[trigger] t[b]).window
        implies a == b by {
        if a < b {
            assert(t[a].window < t[b].window);
        } else if b < a {
            assert(t[b].window < t[a].window);
        }
    }
}

/// A favorite's window always lights a favorite button: when a window's
/// class is a favorite, the button that its key leads to is marked open,
/// and also focused when that window is the active one.
pub proof fn law_open_favorite_is_marked(keys: Seq<Seq<char>>, ws: Seq<WindowInfo>, active: Option<String>, m: int)
    requires
        0 <= m < ws.len(),
        keys.contains(window_key(ws[m])),
    ensures
        exists|j: int|
            0 <= j < keys.len() && keys[j] == window_key(ws[m]) && (#[trigger] pin_mark(keys, j, ws, active)).open
                && (is_focused(active, ws[m]) ==> pin_mark(keys, j, ws, active).focused),
{
    let key = window_key(ws[m]);
    let j0 = choose|j: int| 0 <= j < keys.len() && keys[j] == key;
    let j = last_position(keys, key, j0);
    assert(window_key(ws[m]) == keys[j]);
    assert(pin_mark(keys, j, ws, active).open);
}

/// The last position holding `key`, at or after `j`.
proof fn last_position(keys: Seq<Seq<char>>, key: Seq<char>, j: int) -> (r: int)
    requires
        0 <= j < keys.len(),
        keys[j] == key,
    ensures
        j <= r < keys.len(),
        keys[r] == key,
        key_is_live(keys, r),
    decreases keys.len() - j,
{
    if exists|k: int| j < k < keys.len() && keys[k] == key {
        let k = choose|k: int| j < k < keys.len() && keys[k] == key;
        last_position(keys, key, k)
    } else {
        j
    }
}

/// A favorite button marked focused is marked open too.
pub proof fn law_focused_pin_is_open(keys: Seq<Seq<char>>, ws: Seq<WindowInfo>, active: Option<String>, j: int)
    ensures
        pin_mark(keys, j, ws, active).focused ==> pin_mark(keys, j, ws, active).open,
{
}

/// What the dock shows after its favorites changed: the lookup key of each
/// favorite button and the taskbar drawn from the remembered state.
pub struct DockLayout {
    pub pin_keys: Vec<String>,
    pub taskbar: TaskbarPlan,
}

/// Rebuilds the favorites row from the configuration and redraws the
/// taskbar from the remembered windows and active window.
pub fn refresh_dock(config: &Config, state: &DockState) -> (r: DockLayout)
    ensures
        strings_view(r.pin_keys@) == pin_keys(config@.pinned_apps),
        r.taskbar.pins@.len() == r.pin_keys@.len(),
        forall|j: int| 0 <= j < r.pin_keys@.len() ==> #[trigger] r.taskbar.pins@[j] == pin_mark(
            strings_view(r.pin_keys@), j, state.last_windows@, state.active_address),
        r.taskbar.tasks@ == task_items(
            strings_view(r.pin_keys@),
            state.last_windows@,
            state.active_address,
            state.last_windows@.len(),
        ),
        forall|k: int|
            0 <= k < r.taskbar.tasks@.len() ==> (#[trigger] r.taskbar.tasks@[k]).window
                < state.last_windows@.len() && (r.taskbar.tasks@[k].focused <==> (
            state.active_address matches Some(a) && a@
                == state.last_windows@[r.taskbar.tasks@[k].window as int].address@)),
{
    let keys = populate_pinned_apps(config);
    let taskbar = update_taskbar(&keys, &state.active_address, &state.last_windows);
    DockLayout { pin_keys: keys, taskbar }
}

/// A task is marked focused exactly when its own window's address is the
/// active address; other windows of the same class play no part.
pub proof fn law_task_focus_is_its_own(keys: Seq<Seq<char>>, ws: Seq<WindowInfo>, active: Option<String>)
    requires
        ws.len() <= usize::MAX,
    ensures
        forall|k: int|
            0 <= k < task_items(keys, ws, active, ws.len()).len() ==> (#[trigger] task_items(
                keys,
                ws,
                active,
                ws.len(),
            )[k]).window < ws.len() && (task_items(keys, ws, active, ws.len())[k].focused <==> (
            active matches Some(a) && a@ == ws[task_items(keys, ws, active, ws.len())[k].window as int].address@)),
{
    lemma_task_focus(keys, ws, active, ws.len());
}

proof fn lemma_task_focus(keys: Seq<Seq<char>>, ws: Seq<WindowInfo>, active: Option<String>, n: nat)
    requires
        n <= ws.len(),
        ws.len() <= usize::MAX,
    ensures
        forall|k: int|
            0 <= k < task_items(keys, ws, active, n).len() ==> (#[trigger] task_items(keys, ws, active, n)[k]).window
                < n && (task_items(keys, ws, active, n)[k].focused <==> (active matches Some(a) && a@
                == ws[task_items(keys, ws, active, n)[k].window as int].address@)),
    decreases n,
{
    if n > 0 {
        lemma_task_focus(keys, ws, active, (n - 1) as nat);
        let prev = task_items(keys, ws, active, (n - 1) as nat);
        let cur = task_items(keys, ws, active, n);
        assert forall|k: int| 0 <= k < cur.len() implies (#[trigger] cur[k]).window < n && (cur[k].focused
            <==> (active matches Some(a) && a@ == ws[cur[k].window as int].address@)) by {
            if k < prev.len() {
                assert(cur[k] == prev[k]);
            }
        }
    }
}

} // verus!
