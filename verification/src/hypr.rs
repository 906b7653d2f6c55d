//! What the dock reads from Hyprland: windows, workspaces and events, and
//! the decisions taken on them. The socket itself is driven by the caller.

use vstd::prelude::*;
use crate::text::{lowercase, owned, str_eq, to_lower};

verus! {

/// A window as reported by the compositor.
#[derive(Clone, Debug)]
pub struct WindowInfo {
    pub address: String,
    pub title: String,
    pub class: String,
    pub workspace: String,
}

/// A workspace as the compositor names it in events.
#[derive(Clone, Debug)]
pub enum WorkspaceType {
    /// A named workspace.
    Regular(String),
    /// The special workspace, with its name if it has one.
    Special(Option<String>),
}

/// What the listener hands to the user interface.
#[derive(Clone, Debug)]
pub enum HyprEvent {
    WorkspaceChanged(String),
    ActiveWindowChanged(Option<String>),
    WindowListUpdate(Vec<WindowInfo>),
    Error(String),
}

/// The compositor events that the dock listens to.
#[derive(Clone, Debug)]
pub enum CompositorEvent {
    WorkspaceChanged(WorkspaceType),
    /// The active window changed; carries the new window's address, if any.
    ActiveWindowChanged(Option<String>),
    WindowOpened,
    WindowClosed,
    WindowMoved,
}

/// What to do with one compositor event: an event to forward, and whether
/// the window list is to be fetched and sent again afterwards.
pub struct EventRoute {
    pub forward: Option<HyprEvent>,
    pub refresh_windows: bool,
}

/// The text by which a workspace is shown.
pub open spec fn workspace_label(id: WorkspaceType) -> Seq<char> {
    match id {
        WorkspaceType::Regular(n) => n@,
        WorkspaceType::Special(Some(n)) => n@,
        WorkspaceType::Special(None) => "Unknown"@,
    }
}

pub fn format_workspace_id(id: WorkspaceType) -> (r: String)
    ensures
        r@ == workspace_label(id),
{
    match id {
        WorkspaceType::Regular(n) => n,
        WorkspaceType::Special(Some(n)) => n,
        WorkspaceType::Special(None) => owned("Unknown"),
    }
}

/// Routes a compositor event: workspace and active-window changes are
/// forwarded, and every change to the set, placement or focus of windows
/// asks for a fresh window list.
pub fn route_event(ev: CompositorEvent) -> (r: EventRoute)
    ensures
        match ev {
            CompositorEvent::WorkspaceChanged(id) => {
                &&& r.forward matches Some(HyprEvent::WorkspaceChanged(s))
                &&& s@ == workspace_label(id)
                &&& !r.refresh_windows
            },
            CompositorEvent::ActiveWindowChanged(address) => {
                &&& r.forward == Some(HyprEvent::ActiveWindowChanged(address))
                &&& r.refresh_windows
            },
            _ => r.forward is None && r.refresh_windows,
        },
{
    match ev {
        CompositorEvent::WorkspaceChanged(id) => EventRoute {
            forward: Some(HyprEvent::WorkspaceChanged(format_workspace_id(id))),
            refresh_windows: false,
        },
        CompositorEvent::ActiveWindowChanged(address) => EventRoute {
            forward: Some(HyprEvent::ActiveWindowChanged(address)),
            refresh_windows: true,
        },
        _ => EventRoute { forward: None, refresh_windows: true },
    }
}

/// The window's class equals `class`, letter case aside.
pub open spec fn class_matches(w: WindowInfo, class: Seq<char>) -> bool {
    lowercase(w.class@) == lowercase(class)
}

/// The addresses of the windows of a class, in list order.
pub open spec fn addresses_of_class(ws: Seq<WindowInfo>, class: Seq<char>) -> Seq<Seq<char>>
    decreases ws.len(),
{
    if ws.len() == 0 {
        Seq::empty()
    } else {
        let rest = addresses_of_class(ws.drop_last(), class);
        if class_matches(ws.last(), class) {
            rest.push(ws.last().address@)
        } else {
            rest
        }
    }
}

/// The address of the first window of the given class, letter case aside.
pub fn get_first_window_by_class(windows: &Vec<WindowInfo>, class: &str) -> (r: Option<String>)
    ensures
        match r {
            Some(a) => exists|i: int|
                0 <= i < windows.len() && class_matches(#[trigger] windows@[i], class@)
                    && a@ == windows@[i].address@ && forall|j: int|
                    0 <= j < i ==> !class_matches(#[trigger] windows@[j], class@),
            None => forall|i: int| 0 <= i < windows.len() ==> !class_matches(#[trigger] windows@[i], class@),
        },
{
    let class_lower = to_lower(class);
    let mut i: usize = 0;
    while i < windows.len()
        invariant
            i <= windows.len(),
            class_lower@ == lowercase(class@),
            forall|j: int| 0 <= j < i ==> !class_matches(#[trigger] windows@[j], class@),
        decreases windows.len() - i,
    {
        let c = to_lower(windows[i].class.as_str());
        if str_eq(c.as_str(), class_lower.as_str()) {
            assert(class_matches(windows@[i as int], class@));
            return Some(owned(windows[i].address.as_str()));
        }
        i += 1;
    }
    None
}

/// The addresses of all windows of the given class, letter case aside.
pub fn get_all_windows_by_class(windows: &Vec<WindowInfo>, class: &str) -> (r: Vec<String>)
    ensures
        crate::text::strings_view(r@) == addresses_of_class(windows@, class@),
{
    let class_lower = to_lower(class);
    let mut r: Vec<String> = Vec::new();
    let mut i: usize = 0;
    while i < windows.len()
        invariant
            i <= windows.len(),
            class_lower@ == lowercase(class@),
            crate::text::strings_view(r@) == addresses_of_class(windows@.take(i as int), class@),
        decreases windows.len() - i,
    {
        assert(windows@.take(i + 1).drop_last() =~= windows@.take(i as int));
        let c = to_lower(windows[i].class.as_str());
        if str_eq(c.as_str(), class_lower.as_str()) {
            r.push(owned(windows[i].address.as_str()));
        }
        assert(crate::text::strings_view(r@) =~= addresses_of_class(windows@.take(i + 1), class@));
        i += 1;
    }
    assert(windows@.take(windows.len() as int) =~= windows@);
    r
}

/// How many times the first window list is requested before giving up.
pub const SYNC_ATTEMPTS: u32 = 10;

/// The pause between two requests of the first window list, in
/// milliseconds.
pub const SYNC_RETRY_DELAY_MS: u64 = 500;

/// The retry policy for the first window list, which may fail while the
/// compositor is still starting.
pub struct InitialSync {
    attempts: u32,
}

impl InitialSync {
    #[verifier::type_invariant]
    spec fn within_budget(self) -> bool {
        self.attempts <= SYNC_ATTEMPTS
    }

    /// The number of failed requests so far.
    pub closed spec fn failures(self) -> nat {
        self.attempts as nat
    }

    pub fn new() -> (r: InitialSync)
        ensures
            r.failures() == 0,
    {
        InitialSync { attempts: 0 }
    }

    /// Whether another request may be made.
    pub fn may_attempt(&self) -> (r: bool)
        ensures
            r == (self.failures() < SYNC_ATTEMPTS),
    {
        self.attempts < SYNC_ATTEMPTS
    }

    /// Records a failed request; gives the pause before the next check.
    pub fn record_failure(&mut self) -> (delay_ms: u64)
        requires
            old(self).failures() < SYNC_ATTEMPTS,
        ensures
            final(self).failures() == old(self).failures() + 1,
            delay_ms == SYNC_RETRY_DELAY_MS,
    {
        self.attempts = self.attempts + 1;
        SYNC_RETRY_DELAY_MS
    }

    /// The number of failed requests so far, which never exceeds the
    /// budget.
    pub fn failure_count(&self) -> (n: u32)
        ensures
            n == self.failures(),
            n <= SYNC_ATTEMPTS,
    {
        proof {
            use_type_invariant(self);
        }
        self.attempts
    }
}

/// The event sent when the first window list could not be had.
pub fn sync_timeout_event() -> (r: HyprEvent)
    ensures
        r matches HyprEvent::Error(m) && m@ == "Hyprland connection timeout"@,
{
    HyprEvent::Error(owned("Hyprland connection timeout"))
}

} // verus!
