//! Auto-hide of the dock: the dock slides up when the pointer reaches the
//! trigger strip at the screen's edge and slides away after a grace period
//! once the pointer has left, unless one of its menus is open.

use vstd::prelude::*;
use crate::config::Config;

verus! {

/// The grace period after the pointer leaves the dock, in milliseconds.
pub const LEAVE_HIDE_DELAY_MS: u32 = 1500;

/// The delay before hiding once a menu of the dock has closed, in
/// milliseconds.
pub const MENU_CLOSED_HIDE_DELAY_MS: u32 = 100;

/// What happens under the pointer, and the expiry of the hide timer.
#[derive(Clone, Copy, Debug, PartialEq, Eq, Structural)]
pub enum PointerEvent {
    /// The pointer entered the trigger strip.
    TriggerEnter,
    /// The pointer entered the dock.
    DockEnter,
    /// The pointer moved over the dock.
    DockMotion,
    /// The pointer left the dock.
    DockLeave,
    /// The launcher or the right-click menu closed.
    MenuClosed,
    /// The hide timer expired; tells which menus are open at that moment.
    HideTimeout { launcher_visible: bool, context_visible: bool },
}

/// What the window is to do, in order.
#[derive(Clone, Copy, Debug, PartialEq, Eq, Structural)]
pub enum DockAction {
    /// Remove the pending hide timer.
    CancelHideTimer,
    /// Start a hide timer of this many milliseconds.
    StartHideTimer(u32),
    /// Slide the dock in (`true`) or out (`false`).
    Reveal(bool),
    /// Reserve this much space at the screen's edge.
    SetExclusiveZone(i32),
    /// Recompute the area of the window that takes pointer input.
    UpdateInputRegion,
}

/// The state of the auto-hide logic.
pub struct AutoHideModel {
    pub revealed: bool,
    pub exclusive_zone: i32,
    pub hide_pending: bool,
    pub overlay: bool,
    pub reserved_zone: i32,
}

/// The space reserved at the edge: the configured zone while the dock is
/// shown and does not float over windows, nothing otherwise.
pub open spec fn zone_for(revealed: bool, overlay: bool, reserved_zone: i32) -> i32 {
    if revealed && !overlay {
        reserved_zone
    } else {
        0
    }
}

pub open spec fn consistent(m: AutoHideModel) -> bool {
    m.exclusive_zone == zone_for(m.revealed, m.overlay, m.reserved_zone)
}

/// The actions that remove a pending hide timer.
pub open spec fn cancel_actions(m: AutoHideModel) -> Seq<DockAction> {
    if m.hide_pending {
        seq![DockAction::CancelHideTimer]
    } else {
        Seq::empty()
    }
}

/// The state after an event.
pub open spec fn next_model(m: AutoHideModel, ev: PointerEvent) -> AutoHideModel {
    match ev {
        PointerEvent::TriggerEnter => AutoHideModel {
            revealed: true,
            exclusive_zone: zone_for(true, m.overlay, m.reserved_zone),
            hide_pending: false,
            ..m
        },
        PointerEvent::DockEnter | PointerEvent::DockMotion => AutoHideModel {
            hide_pending: false,
            ..m
        },
        PointerEvent::DockLeave | PointerEvent::MenuClosed => AutoHideModel {
            hide_pending: true,
            ..m
        },
        PointerEvent::HideTimeout { launcher_visible, context_visible } => {
            if m.revealed && !launcher_visible && !context_visible {
                AutoHideModel { revealed: false, exclusive_zone: 0, hide_pending: false, ..m }
            } else {
                AutoHideModel { hide_pending: false, ..m }
            }
        },
    }
}

/// The actions for an event.
pub open spec fn actions_for(m: AutoHideModel, ev: PointerEvent) -> Seq<DockAction> {
    match ev {
        PointerEvent::TriggerEnter => cancel_actions(m) + if m.revealed {
            Seq::empty()
        } else {
            seq![DockAction::Reveal(true)] + (if m.overlay {
                Seq::empty()
            } else {
                seq![DockAction::SetExclusiveZone(m.reserved_zone)]
            }) + seq![DockAction::UpdateInputRegion]
        },
        PointerEvent::DockEnter | PointerEvent::DockMotion => cancel_actions(m) + seq![
            DockAction::UpdateInputRegion,
        ],
        PointerEvent::DockLeave => cancel_actions(m) + seq![
            DockAction::StartHideTimer(LEAVE_HIDE_DELAY_MS),
        ],
        PointerEvent::MenuClosed => cancel_actions(m) + seq![
            DockAction::StartHideTimer(MENU_CLOSED_HIDE_DELAY_MS),
        ],
        PointerEvent::HideTimeout { launcher_visible, context_visible } => {
            if m.revealed && !launcher_visible && !context_visible {
                seq![
                    DockAction::Reveal(false),
                    DockAction::SetExclusiveZone(0),
                    DockAction::UpdateInputRegion,
                ]
            } else {
                Seq::empty()
            }
        },
    }
}

/// The auto-hide logic of one dock window.
pub struct AutoHide {
    revealed: bool,
    exclusive_zone: i32,
    hide_pending: bool,
    overlay: bool,
    reserved_zone: i32,
}

impl View for AutoHide {
    type V = AutoHideModel;

    closed spec fn view(&self) -> AutoHideModel {
        AutoHideModel {
            revealed: self.revealed,
            exclusive_zone: self.exclusive_zone,
            hide_pending: self.hide_pending,
            overlay: self.overlay,
            reserved_zone: self.reserved_zone,
        }
    }
}

impl AutoHide {
    #[verifier::type_invariant]
    spec fn zone_matches(self) -> bool {
        consistent(self@)
    }

    /// The dock starts hidden, reserving no space, with no timer pending;
    /// it floats over windows or reserves the configured zone as the
    /// configuration says.
    pub fn new(config: &Config) -> (r: AutoHide)
        ensures
            r@ == (AutoHideModel {
                revealed: false,
                exclusive_zone: 0,
                hide_pending: false,
                overlay: config.overlay,
                reserved_zone: config.exclusive_zone,
            }),
    {
        AutoHide {
            revealed: false,
            exclusive_zone: 0,
            hide_pending: false,
            overlay: config.overlay,
            reserved_zone: config.exclusive_zone,
        }
    }

    /// Whether the dock is shown.
    pub fn is_revealed(&self) -> (r: bool)
        ensures
            r == self@.revealed,
    {
        self.revealed
    }

    /// The space reserved at the screen's edge, which is the configured
    /// zone while the dock is shown and does not float, and nothing
    /// otherwise.
    pub fn exclusive_zone(&self) -> (z: i32)
        ensures
            z == self@.exclusive_zone,
            z == zone_for(self@.revealed, self@.overlay, self@.reserved_zone),
    {
        proof {
            use_type_invariant(self);
        }
        self.exclusive_zone
    }

    /// Whether a hide timer is pending.
    pub fn is_hide_pending(&self) -> (r: bool)
        ensures
            r == self@.hide_pending,
    {
        self.hide_pending
    }

    /// Takes one event: gives the actions for the window, in order, and
    /// moves to the next state.
    pub fn step(&mut self, ev: PointerEvent) -> (actions: Vec<DockAction>)
        ensures
            final(self)@ == next_model(old(self)@, ev),
            actions@ == actions_for(old(self)@, ev),
            consistent(final(self)@),
    {
        proof {
            use_type_invariant(&*self);
        }
        let ghost m = self@;
        let mut actions: Vec<DockAction> = Vec::new();
        match ev {
            PointerEvent::TriggerEnter => {
                if self.hide_pending {
                    actions.push(DockAction::CancelHideTimer);
                }
                if !self.revealed {
                    actions.push(DockAction::Reveal(true));
                    let zone: i32 = if self.overlay {
                        0
                    } else {
                        actions.push(DockAction::SetExclusiveZone(self.reserved_zone));
                        self.reserved_zone
                    };
                    actions.push(DockAction::UpdateInputRegion);
                    *self = AutoHide {
                        revealed: true,
                        exclusive_zone: zone,
                        hide_pending: false,
                        overlay: self.overlay,
                        reserved_zone: self.reserved_zone,
                    };
                } else {
                    *self = AutoHide {
                        revealed: self.revealed,
                        exclusive_zone: self.exclusive_zone,
                        hide_pending: false,
                        overlay: self.overlay,
                        reserved_zone: self.reserved_zone,
                    };
                }
            },
            PointerEvent::DockEnter | PointerEvent::DockMotion => {
                if self.hide_pending {
                    actions.push(DockAction::CancelHideTimer);
                }
                actions.push(DockAction::UpdateInputRegion);
                *self = AutoHide {
                    revealed: self.revealed,
                    exclusive_zone: self.exclusive_zone,
                    hide_pending: false,
                    overlay: self.overlay,
                    reserved_zone: self.reserved_zone,
                };
            },
            PointerEvent::DockLeave | PointerEvent::MenuClosed => {
                if self.hide_pending {
                    actions.push(DockAction::CancelHideTimer);
                }
                let delay: u32 = match ev {
                    PointerEvent::DockLeave => LEAVE_HIDE_DELAY_MS,
                    _ => MENU_CLOSED_HIDE_DELAY_MS,
                };
                actions.push(DockAction::StartHideTimer(delay));
                *self = AutoHide {
                    revealed: self.revealed,
                    exclusive_zone: self.exclusive_zone,
                    hide_pending: true,
                    overlay: self.overlay,
                    reserved_zone: self.reserved_zone,
                };
            },
            PointerEvent::HideTimeout { launcher_visible, context_visible } => {
                if self.revealed && !launcher_visible && !context_visible {
                    actions.push(DockAction::Reveal(false));
                    actions.push(DockAction::SetExclusiveZone(0));
                    actions.push(DockAction::UpdateInputRegion);
                    *self = AutoHide {
                        revealed: false,
                        exclusive_zone: 0,
                        hide_pending: false,
                        overlay: self.overlay,
                        reserved_zone: self.reserved_zone,
                    };
                } else {
                    *self = AutoHide {
                        revealed: self.revealed,
                        exclusive_zone: self.exclusive_zone,
                        hide_pending: false,
                        overlay: self.overlay,
                        reserved_zone: self.reserved_zone,
                    };
                }
            },
        }
        assert(actions@ =~= actions_for(m, ev));
        actions
    }
}

/// The space reserved when the dock window is built: nothing when the dock
/// hides itself (it reserves space only once shown) or floats over windows,
/// the configured zone when it always shows and does not float.
pub fn initial_exclusive_zone(config: &Config) -> (z: i32)
    ensures
        z == (if config.auto_hide || config.overlay { 0 } else { config.exclusive_zone }),
{
    if config.auto_hide || config.overlay {
        0
    } else {
        config.exclusive_zone
    }
}

/// Every event keeps the reserved space in step with the dock's
/// visibility: the configured zone while shown and not floating, nothing
/// otherwise (so a floating dock never reserves space).
pub proof fn law_zone_follows_visibility(m: AutoHideModel, ev: PointerEvent)
    requires
        consistent(m),
    ensures
        consistent(next_model(m, ev)),
        next_model(m, ev).overlay ==> next_model(m, ev).exclusive_zone == 0,
{
}

/// Reaching the trigger strip always shows the dock and drops a pending
/// hide.
pub proof fn law_trigger_reveals(m: AutoHideModel)
    ensures
        next_model(m, PointerEvent::TriggerEnter).revealed,
        !next_model(m, PointerEvent::TriggerEnter).hide_pending,
{
}

/// While the pointer is on the dock no hide stays pending, and a pending
/// timer is removed.
pub proof fn law_pointer_on_dock_cancels_hide(m: AutoHideModel, ev: PointerEvent)
    requires
        ev == PointerEvent::DockEnter || ev == PointerEvent::DockMotion,
    ensures
        !next_model(m, ev).hide_pending,
        next_model(m, ev).revealed == m.revealed,
        m.hide_pending ==> actions_for(m, ev)[0] == DockAction::CancelHideTimer,
{
}

/// The dock stays shown while the launcher or the right-click menu is
/// open, whatever timer expires.
pub proof fn law_open_menu_keeps_dock(m: AutoHideModel, launcher_visible: bool, context_visible: bool)
    requires
        launcher_visible || context_visible,
    ensures
        next_model(m, PointerEvent::HideTimeout { launcher_visible, context_visible }).revealed
            == m.revealed,
        next_model(m, PointerEvent::HideTimeout { launcher_visible, context_visible }).exclusive_zone
            == m.exclusive_zone,
{
}

/// Leaving the dock starts the grace period; when it expires with no menu
/// open, the dock is hidden and reserves no space.
pub proof fn law_leave_then_expiry_hides(m: AutoHideModel)
    requires
        consistent(m),
        m.revealed,
    ensures
        actions_for(m, PointerEvent::DockLeave).last() == DockAction::StartHideTimer(LEAVE_HIDE_DELAY_MS),
        ({
            let after = next_model(
                next_model(m, PointerEvent::DockLeave),
                PointerEvent::HideTimeout { launcher_visible: false, context_visible: false },
            );
            &&& !after.revealed
            &&& after.exclusive_zone == 0
            &&& !after.hide_pending
        }),
{
}

/// Coming back onto the dock within the grace period removes the timer and
/// keeps the dock shown.
pub proof fn law_return_within_grace_keeps_dock(m: AutoHideModel)
    requires
        m.revealed,
    ensures
        ({
            let left = next_model(m, PointerEvent::DockLeave);
            &&& actions_for(left, PointerEvent::DockEnter)[0] == DockAction::CancelHideTimer
            &&& next_model(left, PointerEvent::DockEnter).revealed
            &&& !next_model(left, PointerEvent::DockEnter).hide_pending
        }),
{
}

/// A rectangle of the window, in window coordinates.
#[derive(Clone, Copy, Debug, PartialEq, Eq, Structural)]
pub struct Rect {
    pub x: i32,
    pub y: i32,
    pub width: i32,
    pub height: i32,
}

/// The rectangles that make up the part of the window that takes pointer
/// input: the trigger strip whenever its bounds are known, and the dock's
/// content while it is shown or sliding in, when its bounds are known.
pub fn update_input_region(trigger: Option<Rect>, content: Option<Rect>, revealing: bool) -> (r: Vec<Rect>)
    ensures
        r@ == (match trigger {
            Some(t) => seq![t],
            None => Seq::empty(),
        }) + (match (revealing, content) {
            (true, Some(c)) => seq![c],
            _ => Seq::empty(),
        }),
{
    let mut r: Vec<Rect> = Vec::new();
    match trigger {
        Some(t) => r.push(t),
        None => {},
    }
    if revealing {
        match content {
            Some(c) => r.push(c),
            None => {},
        }
    }
    assert(r@ =~= (match trigger {
        Some(t) => seq![t],
        None => Seq::<Rect>::empty(),
    }) + (match (revealing, content) {
        (true, Some(c)) => seq![c],
        _ => Seq::<Rect>::empty(),
    }));
    r
}

} // verus!
