//! Interactive front-end state: panel focus, edit modes, key handling, and
//! the shadow copy of the hardware snapshot that observers keep synchronized
//! by applying broadcast events.
//!
//! [`App`] holds everything the rendering layer reads. It never talks to the
//! actor itself: [`App::handle_key`] returns the intent to enqueue, and the
//! surrounding loop feeds every received event into [`App::apply_update`].

use vstd::prelude::*;

use crate::daemon::{
    curves_match, states_match, FanPoint, HardwareIntent, HardwareState, HardwareUpdate,
    PowerProfile,
};

verus! {

/// Which panel is currently focused.
#[derive(Debug, Clone, Copy, PartialEq, Eq, Structural)]
pub enum FocusedPanel {
    PowerProfile,
    Battery,
    FanCurve,
}

impl FocusedPanel {
    /// The successor in the fixed panel cycle.
    pub open spec fn spec_next(self) -> FocusedPanel {
        match self {
            FocusedPanel::PowerProfile => FocusedPanel::Battery,
            FocusedPanel::Battery => FocusedPanel::FanCurve,
            FocusedPanel::FanCurve => FocusedPanel::PowerProfile,
        }
    }

    /// The predecessor in the fixed panel cycle.
    pub open spec fn spec_prev(self) -> FocusedPanel {
        match self {
            FocusedPanel::PowerProfile => FocusedPanel::FanCurve,
            FocusedPanel::Battery => FocusedPanel::PowerProfile,
            FocusedPanel::FanCurve => FocusedPanel::Battery,
        }
    }

    pub fn next(self) -> (r: Self)
        ensures
            r == self.spec_next(),
    {
        match self {
            FocusedPanel::PowerProfile => FocusedPanel::Battery,
            FocusedPanel::Battery => FocusedPanel::FanCurve,
            FocusedPanel::FanCurve => FocusedPanel::PowerProfile,
        }
    }

    pub fn prev(self) -> (r: Self)
        ensures
            r == self.spec_prev(),
    {
        match self {
            FocusedPanel::PowerProfile => FocusedPanel::FanCurve,
            FocusedPanel::Battery => FocusedPanel::PowerProfile,
            FocusedPanel::FanCurve => FocusedPanel::Battery,
        }
    }
}

/// `prev` undoes `next`, and the cycle has period three.
pub proof fn lemma_panel_cycle(p: FocusedPanel)
    ensures
        p.spec_next().spec_prev() == p,
        p.spec_prev().spec_next() == p,
        p.spec_next().spec_next().spec_next() == p,
{
}

/// Edit mode for interactive widgets.
#[derive(Debug, Clone, Copy, PartialEq, Eq, Structural)]
pub enum EditMode {
    Inactive,
    Battery,
    FanCurve { point_index: usize },
}

/// A terminal key, already decoded from the input backend. Only the keys the
/// front end reacts to are distinguished; everything else is `Other`.
#[derive(Debug, Clone, Copy, PartialEq, Eq, Structural)]
pub enum UiKey {
    Char(char),
    Tab,
    BackTab,
    Up,
    Down,
    Left,
    Right,
    Enter,
    Esc,
    Other,
}

/// Selector position of each profile in the panel: Quiet=0, Balanced=1,
/// Performance=2 (unrelated to the wire codes).
pub open spec fn spec_profile_index(p: PowerProfile) -> usize {
    match p {
        PowerProfile::Quiet => 0,
        PowerProfile::Balanced => 1,
        PowerProfile::Performance => 2,
    }
}

/// The profile at a selector position; out-of-range positions fall back to
/// Balanced.
pub open spec fn spec_profile_at(i: usize) -> PowerProfile {
    if i == 0 {
        PowerProfile::Quiet
    } else if i == 1 {
        PowerProfile::Balanced
    } else if i == 2 {
        PowerProfile::Performance
    } else {
        PowerProfile::Balanced
    }
}

pub fn profile_index(p: PowerProfile) -> (r: usize)
    ensures
        r == spec_profile_index(p),
{
    match p {
        PowerProfile::Quiet => 0,
        PowerProfile::Balanced => 1,
        PowerProfile::Performance => 2,
    }
}

pub fn profile_at(i: usize) -> (r: PowerProfile)
    ensures
        r == spec_profile_at(i),
{
    if i == 0 {
        PowerProfile::Quiet
    } else if i == 1 {
        PowerProfile::Balanced
    } else if i == 2 {
        PowerProfile::Performance
    } else {
        PowerProfile::Balanced
    }
}

/// One step down for the charge limit being edited: five less, floored at 20.
pub open spec fn spec_charge_step_down(limit: u8) -> u8 {
    if limit >= 25 {
        (limit - 5) as u8
    } else {
        20
    }
}

/// One step up for the charge limit being edited: five more, capped at 100.
pub open spec fn spec_charge_step_up(limit: u8) -> u8 {
    if limit <= 95 {
        (limit + 5) as u8
    } else {
        100
    }
}

/// One step up for a fan speed being edited: five more, capped at 100.
pub open spec fn spec_speed_step_up(speed: u8) -> u8 {
    if speed <= 95 {
        (speed + 5) as u8
    } else {
        100
    }
}

/// One step down for a fan speed being edited: five less, floored at 0.
pub open spec fn spec_speed_step_down(speed: u8) -> u8 {
    if speed >= 5 {
        (speed - 5) as u8
    } else {
        0
    }
}

/// Main application state: the shadow snapshot plus everything the renderer
/// reads. The snapshot is not authoritative; it echoes user actions
/// immediately and is corrected by the actor's events.
pub struct App {
    /// Shadow copy of the hardware state, for immediate feedback.
    pub state: HardwareState,
    /// Currently focused panel.
    pub focused: FocusedPanel,
    /// Selector position in the profile panel (see [`spec_profile_index`]).
    pub selected_profile: usize,
    /// Current edit mode.
    pub edit_mode: EditMode,
    /// Whether the help popup is visible.
    pub show_help: bool,
    /// Whether the particle background is visible.
    pub sakura_enabled: bool,
    /// Whether the front end should quit.
    pub should_quit: bool,
}

/// Every front-end field except the shadow snapshot, as one tuple, so a
/// transition can pin all of them in a single equality.
pub open spec fn ui_tuple(a: App) -> (FocusedPanel, usize, EditMode, bool, bool, bool) {
    (a.focused, a.selected_profile, a.edit_mode, a.show_help, a.sakura_enabled, a.should_quit)
}

/// Nothing at all changed.
pub open spec fn same_app(pre: App, post: App) -> bool {
    &&& states_match(post.state, pre.state)
    &&& ui_tuple(post) == ui_tuple(pre)
}

/// Key handling while no edit mode is active: panel navigation, selector
/// movement, and activation.
pub open spec fn nav_transition(
    pre: App,
    key: UiKey,
    post: App,
    intent: Option<HardwareIntent>,
) -> bool {
    if key == UiKey::Tab || key == UiKey::Char('L') {
        &&& states_match(post.state, pre.state)
        &&& ui_tuple(post) == (
            pre.focused.spec_next(),
            pre.selected_profile,
            pre.edit_mode,
            pre.show_help,
            pre.sakura_enabled,
            pre.should_quit,
        )
        &&& intent is None
    } else if key == UiKey::BackTab || key == UiKey::Char('H') {
        &&& states_match(post.state, pre.state)
        &&& ui_tuple(post) == (
            pre.focused.spec_prev(),
            pre.selected_profile,
            pre.edit_mode,
            pre.show_help,
            pre.sakura_enabled,
            pre.should_quit,
        )
        &&& intent is None
    } else if key == UiKey::Char('1') || key == UiKey::Char('2') || key == UiKey::Char('3') {
        let target = if key == UiKey::Char('1') {
            FocusedPanel::PowerProfile
        } else if key == UiKey::Char('2') {
            FocusedPanel::Battery
        } else {
            FocusedPanel::FanCurve
        };
        &&& states_match(post.state, pre.state)
        &&& ui_tuple(post) == (
            target,
            pre.selected_profile,
            pre.edit_mode,
            pre.show_help,
            pre.sakura_enabled,
            pre.should_quit,
        )
        &&& intent is None
    } else if key == UiKey::Up || key == UiKey::Char('k') {
        if pre.focused is PowerProfile {
            let moved: usize = if pre.selected_profile > 0 {
                (pre.selected_profile - 1) as usize
            } else {
                0
            };
            &&& states_match(post.state, pre.state)
            &&& ui_tuple(post) == (
                pre.focused,
                moved,
                pre.edit_mode,
                pre.show_help,
                pre.sakura_enabled,
                pre.should_quit,
            )
            &&& intent is None
        } else {
            same_app(pre, post) && intent is None
        }
    } else if key == UiKey::Down || key == UiKey::Char('j') {
        if pre.focused is PowerProfile {
            let moved: usize = if pre.selected_profile < 2 {
                (pre.selected_profile + 1) as usize
            } else {
                2
            };
            &&& states_match(post.state, pre.state)
            &&& ui_tuple(post) == (
                pre.focused,
                moved,
                pre.edit_mode,
                pre.show_help,
                pre.sakura_enabled,
                pre.should_quit,
            )
            &&& intent is None
        } else {
            same_app(pre, post) && intent is None
        }
    } else if key == UiKey::Enter || key == UiKey::Char(' ') {
        match pre.focused {
            FocusedPanel::PowerProfile => {
                let new_profile = spec_profile_at(pre.selected_profile);
                if new_profile != pre.state.power_profile {
                    // Optimistic echo: the shadow adopts the profile at once;
                    // the actor confirms or reports the failure later.
                    &&& post.state.power_profile == new_profile
                    &&& post.state.charge_limit == pre.state.charge_limit
                    &&& curves_match(post.state.fan_curve, pre.state.fan_curve)
                    &&& post.state.connected == pre.state.connected
                    &&& ui_tuple(post) == ui_tuple(pre)
                    &&& intent == Some(HardwareIntent::SetPowerProfile(new_profile))
                } else {
                    same_app(pre, post) && intent is None
                }
            },
            FocusedPanel::Battery => {
                &&& states_match(post.state, pre.state)
                &&& ui_tuple(post) == (
                    pre.focused,
                    pre.selected_profile,
                    EditMode::Battery,
                    pre.show_help,
                    pre.sakura_enabled,
                    pre.should_quit,
                )
                &&& intent is None
            },
            FocusedPanel::FanCurve => {
                &&& states_match(post.state, pre.state)
                &&& ui_tuple(post) == (
                    pre.focused,
                    pre.selected_profile,
                    (EditMode::FanCurve { point_index: 0 }),
                    pre.show_help,
                    pre.sakura_enabled,
                    pre.should_quit,
                )
                &&& intent is None
            },
        }
    } else {
        same_app(pre, post) && intent is None
    }
}

/// Key handling while the battery limit is being edited.
pub open spec fn battery_transition(
    pre: App,
    key: UiKey,
    post: App,
    intent: Option<HardwareIntent>,
) -> bool {
    if key == UiKey::Left || key == UiKey::Char('h') || key == UiKey::Right || key == UiKey::Char(
        'l',
    ) {
        let stepped: u8 = if key == UiKey::Left || key == UiKey::Char('h') {
            spec_charge_step_down(pre.state.charge_limit)
        } else {
            spec_charge_step_up(pre.state.charge_limit)
        };
        &&& post.state.charge_limit == stepped
        &&& post.state.power_profile == pre.state.power_profile
        &&& curves_match(post.state.fan_curve, pre.state.fan_curve)
        &&& post.state.connected == pre.state.connected
        &&& ui_tuple(post) == ui_tuple(pre)
        &&& intent is None
    } else if key is Enter {
        &&& states_match(post.state, pre.state)
        &&& ui_tuple(post) == (
            pre.focused,
            pre.selected_profile,
            EditMode::Inactive,
            pre.show_help,
            pre.sakura_enabled,
            pre.should_quit,
        )
        &&& intent == Some(HardwareIntent::SetChargeLimit(pre.state.charge_limit))
    } else {
        same_app(pre, post) && intent is None
    }
}

/// Key handling while a fan-curve point is being edited. Point movement is
/// bounded by the cpu channel's length; speed nudges touch exactly the
/// selected point and keep its temperature.
pub open spec fn fan_transition(
    pre: App,
    key: UiKey,
    point_index: usize,
    post: App,
    intent: Option<HardwareIntent>,
) -> bool {
    if key == UiKey::Left || key == UiKey::Char('h') {
        if point_index > 0 {
            &&& states_match(post.state, pre.state)
            &&& ui_tuple(post) == (
                pre.focused,
                pre.selected_profile,
                (EditMode::FanCurve { point_index: (point_index - 1) as usize }),
                pre.show_help,
                pre.sakura_enabled,
                pre.should_quit,
            )
            &&& intent is None
        } else {
            same_app(pre, post) && intent is None
        }
    } else if key == UiKey::Right || key == UiKey::Char('l') {
        if point_index + 1 < pre.state.fan_curve.cpu_curve@.len() {
            &&& states_match(post.state, pre.state)
            &&& ui_tuple(post) == (
                pre.focused,
                pre.selected_profile,
                (EditMode::FanCurve { point_index: (point_index + 1) as usize }),
                pre.show_help,
                pre.sakura_enabled,
                pre.should_quit,
            )
            &&& intent is None
        } else {
            same_app(pre, post) && intent is None
        }
    } else if key == UiKey::Up || key == UiKey::Char('k') || key == UiKey::Down || key
        == UiKey::Char('j') {
        if point_index < pre.state.fan_curve.cpu_curve@.len() {
            let point = pre.state.fan_curve.cpu_curve@[point_index as int];
            let stepped: u8 = if key == UiKey::Up || key == UiKey::Char('k') {
                spec_speed_step_up(point.speed)
            } else {
                spec_speed_step_down(point.speed)
            };
            &&& post.state.fan_curve.cpu_curve@ == pre.state.fan_curve.cpu_curve@.update(
                point_index as int,
                (FanPoint { temp: point.temp, speed: stepped }),
            )
            &&& post.state.fan_curve.gpu_curve@ == pre.state.fan_curve.gpu_curve@
            &&& post.state.fan_curve.enabled == pre.state.fan_curve.enabled
            &&& post.state.power_profile == pre.state.power_profile
            &&& post.state.charge_limit == pre.state.charge_limit
            &&& post.state.connected == pre.state.connected
            &&& ui_tuple(post) == ui_tuple(pre)
            &&& intent is None
        } else {
            same_app(pre, post) && intent is None
        }
    } else if key is Enter {
        &&& states_match(post.state, pre.state)
        &&& ui_tuple(post) == (
            pre.focused,
            pre.selected_profile,
            EditMode::Inactive,
            pre.show_help,
            pre.sakura_enabled,
            pre.should_quit,
        )
        &&& (intent matches Some(HardwareIntent::SetFanCurve(c)) && curves_match(
            c,
            pre.state.fan_curve,
        ))
    } else {
        same_app(pre, post) && intent is None
    }
}

/// The complete keyboard decision table. Global keys are tried first ('q',
/// '?', Esc, 'r', 's'), then keys are ignored while the help popup is open,
/// then the active edit mode dispatches.
pub open spec fn key_transition(
    pre: App,
    key: UiKey,
    post: App,
    intent: Option<HardwareIntent>,
) -> bool {
    if key == UiKey::Char('q') && pre.edit_mode is Inactive {
        &&& states_match(post.state, pre.state)
        &&& ui_tuple(post) == (
            pre.focused,
            pre.selected_profile,
            pre.edit_mode,
            pre.show_help,
            pre.sakura_enabled,
            true,
        )
        &&& intent is None
    } else if key == UiKey::Char('?') && pre.edit_mode is Inactive {
        &&& states_match(post.state, pre.state)
        &&& ui_tuple(post) == (
            pre.focused,
            pre.selected_profile,
            pre.edit_mode,
            !pre.show_help,
            pre.sakura_enabled,
            pre.should_quit,
        )
        &&& intent is None
    } else if key is Esc {
        &&& states_match(post.state, pre.state)
        &&& (if pre.show_help {
            ui_tuple(post) == (
                pre.focused,
                pre.selected_profile,
                pre.edit_mode,
                false,
                pre.sakura_enabled,
                pre.should_quit,
            )
        } else if !(pre.edit_mode is Inactive) {
            ui_tuple(post) == (
                pre.focused,
                pre.selected_profile,
                EditMode::Inactive,
                pre.show_help,
                pre.sakura_enabled,
                pre.should_quit,
            )
        } else {
            ui_tuple(post) == ui_tuple(pre)
        })
        &&& intent is None
    } else if key == UiKey::Char('r') && pre.edit_mode is Inactive {
        &&& same_app(pre, post)
        &&& intent == Some(HardwareIntent::RefreshState)
    } else if key == UiKey::Char('s') && pre.edit_mode is Inactive {
        &&& states_match(post.state, pre.state)
        &&& ui_tuple(post) == (
            pre.focused,
            pre.selected_profile,
            pre.edit_mode,
            pre.show_help,
            !pre.sakura_enabled,
            pre.should_quit,
        )
        &&& intent is None
    } else if pre.show_help {
        same_app(pre, post) && intent is None
    } else {
        match pre.edit_mode {
            EditMode::Battery => battery_transition(pre, key, post, intent),
            EditMode::FanCurve { point_index } => fan_transition(
                pre,
                key,
                point_index,
                post,
                intent,
            ),
            EditMode::Inactive => nav_transition(pre, key, post, intent),
        }
    }
}

impl App {
    /// A fresh front end: all-default shadow snapshot, profile panel
    /// focused, Balanced selected, no edit mode, particles on.
    pub fn new() -> (r: Self)
        ensures
            crate::daemon::spec_initial_state(r.state),
            r.focused == FocusedPanel::PowerProfile,
            r.selected_profile == 1,
            r.edit_mode == EditMode::Inactive,
            !r.show_help,
            r.sakura_enabled,
            !r.should_quit,
    {
        App {
            state: HardwareState::default(),
            focused: FocusedPanel::PowerProfile,
            selected_profile: 1,  // Balanced
            edit_mode: EditMode::Inactive,
            show_help: false,
            sakura_enabled: true,
            should_quit: false,
        }
    }

    /// Apply one broadcast event to the shadow state. Observers learn of
    /// state changes only this way; the selector position follows every
    /// profile change so the panel highlights the active profile.
    pub fn apply_update(&mut self, update: &HardwareUpdate)
        ensures
            (*update matches HardwareUpdate::StateRefresh(s) ==> {
                &&& states_match(final(self).state, s)
                &&& ui_tuple(*final(self)) == (
                    old(self).focused,
                    spec_profile_index(s.power_profile),
                    old(self).edit_mode,
                    old(self).show_help,
                    old(self).sakura_enabled,
                    old(self).should_quit,
                )
            }),
            (*update matches HardwareUpdate::PowerProfileChanged(p) ==> {
                &&& final(self).state == (HardwareState { power_profile: p, ..old(self).state })
                &&& ui_tuple(*final(self)) == (
                    old(self).focused,
                    spec_profile_index(p),
                    old(self).edit_mode,
                    old(self).show_help,
                    old(self).sakura_enabled,
                    old(self).should_quit,
                )
            }),
            (*update matches HardwareUpdate::ChargeLimitChanged(n) ==> {
                &&& final(self).state == (HardwareState { charge_limit: n, ..old(self).state })
                &&& ui_tuple(*final(self)) == ui_tuple(*old(self))
            }),
            (*update matches HardwareUpdate::FanCurveChanged(c) ==> {
                &&& curves_match(final(self).state.fan_curve, c)
                &&& final(self).state.power_profile == old(self).state.power_profile
                &&& final(self).state.charge_limit == old(self).state.charge_limit
                &&& final(self).state.connected == old(self).state.connected
                &&& ui_tuple(*final(self)) == ui_tuple(*old(self))
            }),
            (*update matches HardwareUpdate::ConnectionStatus(b) ==> {
                &&& final(self).state == (HardwareState { connected: b, ..old(self).state })
                &&& ui_tuple(*final(self)) == ui_tuple(*old(self))
            }),
            (*update is Error ==> same_app(*old(self), *final(self))),
    {
        match update {
            HardwareUpdate::StateRefresh(s) => {
                self.state = s.clone();
                self.selected_profile = profile_index(s.power_profile);
            },
            HardwareUpdate::PowerProfileChanged(p) => {
                self.state.power_profile = *p;
                self.selected_profile = profile_index(*p);
            },
            HardwareUpdate::ChargeLimitChanged(n) => {
                self.state.charge_limit = *n;
            },
            HardwareUpdate::FanCurveChanged(c) => {
                self.state.fan_curve = c.clone();
            },
            HardwareUpdate::ConnectionStatus(b) => {
                self.state.connected = *b;
            },
            HardwareUpdate::Error(_) => {},
        }
    }

    /// Process one keyboard key and return the intent to enqueue, if any;
    /// the full decision table is [`key_transition`].
    pub fn handle_key(&mut self, key: UiKey) -> (intent: Option<HardwareIntent>)
        ensures
            key_transition(*old(self), key, *final(self), intent),
    {
        if key == UiKey::Char('q') && self.edit_mode == EditMode::Inactive {
            self.should_quit = true;
            None
        } else if key == UiKey::Char('?') && self.edit_mode == EditMode::Inactive {
            self.show_help = !self.show_help;
            None
        } else if key == UiKey::Esc {
            if self.show_help {
                self.show_help = false;
            } else if self.edit_mode != EditMode::Inactive {
                self.edit_mode = EditMode::Inactive;
            }
            None
        } else if key == UiKey::Char('r') && self.edit_mode == EditMode::Inactive {
            Some(HardwareIntent::RefreshState)
        } else if key == UiKey::Char('s') && self.edit_mode == EditMode::Inactive {
            self.sakura_enabled = !self.sakura_enabled;
            None
        } else if self.show_help {
            None
        } else {
            match self.edit_mode {
                EditMode::Battery => self.handle_battery_edit(key),
                EditMode::FanCurve { point_index } => self.handle_fan_curve_edit(key, point_index),
                EditMode::Inactive => self.handle_navigation(key),
            }
        }
    }

    /// Navigation when not in an edit mode.
    fn handle_navigation(&mut self, key: UiKey) -> (intent: Option<HardwareIntent>)
        ensures
            nav_transition(*old(self), key, *final(self), intent),
    {
        if key == UiKey::Tab || key == UiKey::Char('L') {
            self.focused = self.focused.next();
            None
        } else if key == UiKey::BackTab || key == UiKey::Char('H') {
            self.focused = self.focused.prev();
            None
        } else if key == UiKey::Char('1') {
            self.focused = FocusedPanel::PowerProfile;
            None
        } else if key == UiKey::Char('2') {
            self.focused = FocusedPanel::Battery;
            None
        } else if key == UiKey::Char('3') {
            self.focused = FocusedPanel::FanCurve;
            None
        } else if key == UiKey::Up || key == UiKey::Char('k') {
            if self.focused == FocusedPanel::PowerProfile {
                if self.selected_profile > 0 {
                    self.selected_profile = self.selected_profile - 1;
                }
            }
            None
        } else if key == UiKey::Down || key == UiKey::Char('j') {
            if self.focused == FocusedPanel::PowerProfile {
                self.selected_profile = if self.selected_profile < 2 {
                    self.selected_profile + 1
                } else {
                    2
                };
            }
            None
        } else if key == UiKey::Enter || key == UiKey::Char(' ') {
            match self.focused {
                FocusedPanel::PowerProfile => {
                    let new_profile = profile_at(self.selected_profile);
                    if new_profile != self.state.power_profile {
                        // Optimistic echo for immediate feedback.
                        self.state.power_profile = new_profile;
                        Some(HardwareIntent::SetPowerProfile(new_profile))
                    } else {
                        None
                    }
                },
                FocusedPanel::Battery => {
                    self.edit_mode = EditMode::Battery;
                    None
                },
                FocusedPanel::FanCurve => {
                    self.edit_mode = EditMode::FanCurve { point_index: 0 };
                    None
                },
            }
        } else {
            None
        }
    }

    /// Battery edit mode: nudge the shadow limit, confirm with Enter.
    fn handle_battery_edit(&mut self, key: UiKey) -> (intent: Option<HardwareIntent>)
        ensures
            battery_transition(*old(self), key, *final(self), intent),
    {
        if key == UiKey::Left || key == UiKey::Char('h') {
            self.state.charge_limit = if self.state.charge_limit >= 25 {
                self.state.charge_limit - 5
            } else {
                20
            };
            None
        } else if key == UiKey::Right || key == UiKey::Char('l') {
            self.state.charge_limit = if self.state.charge_limit <= 95 {
                self.state.charge_limit + 5
            } else {
                100
            };
            None
        } else if key == UiKey::Enter {
            self.edit_mode = EditMode::Inactive;
            Some(HardwareIntent::SetChargeLimit(self.state.charge_limit))
        } else {
            None
        }
    }

    /// Fan-curve edit mode: move between points, nudge the selected point's
    /// speed, confirm the whole curve with Enter.
    fn handle_fan_curve_edit(&mut self, key: UiKey, point_index: usize) -> (intent: Option<
        HardwareIntent,
    >)
        requires
            old(self).edit_mode == (EditMode::FanCurve { point_index }),
        ensures
            fan_transition(*old(self), key, point_index, *final(self), intent),
    {
        if key == UiKey::Left || key == UiKey::Char('h') {
            if point_index > 0 {
                self.edit_mode = EditMode::FanCurve { point_index: point_index - 1 };
            }
            None
        } else if key == UiKey::Right || key == UiKey::Char('l') {
            let len = self.state.fan_curve.cpu_curve.len();
            if len > 0 && point_index < len - 1 {
                self.edit_mode = EditMode::FanCurve { point_index: point_index + 1 };
            }
            None
        } else if key == UiKey::Up || key == UiKey::Char('k') {
            if point_index < self.state.fan_curve.cpu_curve.len() {
                let point = self.state.fan_curve.cpu_curve[point_index];
                let stepped: u8 = if point.speed <= 95 {
                    point.speed + 5
                } else {
                    100
                };
                self.state.fan_curve.cpu_curve.set(
                    point_index,
                    FanPoint { temp: point.temp, speed: stepped },
                );
            }
            None
        } else if key == UiKey::Down || key == UiKey::Char('j') {
            if point_index < self.state.fan_curve.cpu_curve.len() {
                let point = self.state.fan_curve.cpu_curve[point_index];
                let stepped: u8 = if point.speed >= 5 {
                    point.speed - 5
                } else {
                    0
                };
                self.state.fan_curve.cpu_curve.set(
                    point_index,
                    FanPoint { temp: point.temp, speed: stepped },
                );
            }
            None
        } else if key == UiKey::Enter {
            self.edit_mode = EditMode::Inactive;
            Some(HardwareIntent::SetFanCurve(self.state.fan_curve.clone()))
        } else {
            None
        }
    }
}

} // verus!
