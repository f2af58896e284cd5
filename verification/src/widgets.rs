//! Widget configuration values: the plain data each panel renders from.
//! Rendering itself happens outside the library; these types carry the
//! state and the builder-style switches the renderer reads.

use vstd::prelude::*;

use crate::daemon::{FanCurve, PowerProfile};

verus! {

/// Power profile selector panel configuration.
pub struct PowerProfileSelector<'a> {
    pub current: PowerProfile,
    pub selected: usize,
    pub focused: bool,
    pub title: &'a str,
}

impl<'a> PowerProfileSelector<'a> {
    pub fn new(current: PowerProfile) -> (r: Self)
        ensures
            r.current == current,
            r.selected == current.spec_to_u32(),
            !r.focused,
            r.title@ == " Power Profile "@,
    {
        PowerProfileSelector {
            current,
            selected: current.to_u8() as usize,
            focused: false,
            title: " Power Profile ",
        }
    }

    pub fn selected(self, selected: usize) -> (r: Self)
        ensures
            r == (PowerProfileSelector { selected, ..self }),
    {
        PowerProfileSelector { selected, ..self }
    }

    pub fn focused(self, focused: bool) -> (r: Self)
        ensures
            r == (PowerProfileSelector { focused, ..self }),
    {
        PowerProfileSelector { focused, ..self }
    }
}

/// Battery panel configuration: a sword-shaped charge-limit indicator.
pub struct BatteryKatana {
    pub charge_limit: u8,
    pub focused: bool,
    pub editing: bool,
}

impl BatteryKatana {
    pub fn new(charge_limit: u8) -> (r: Self)
        ensures
            r.charge_limit == charge_limit,
            !r.focused,
            !r.editing,
    {
        BatteryKatana { charge_limit, focused: false, editing: false }
    }

    pub fn focused(self, focused: bool) -> (r: Self)
        ensures
            r == (BatteryKatana { focused, ..self }),
    {
        BatteryKatana { focused, ..self }
    }

    pub fn editing(self, editing: bool) -> (r: Self)
        ensures
            r == (BatteryKatana { editing, ..self }),
    {
        BatteryKatana { editing, ..self }
    }
}

/// Fan-curve graph panel configuration.
pub struct FanCurveGraph<'a> {
    pub curve: &'a FanCurve,
    pub selected_point: Option<usize>,
    pub focused: bool,
    pub editing: bool,
}

impl<'a> FanCurveGraph<'a> {
    pub fn new(curve: &'a FanCurve) -> (r: Self)
        ensures
            r.curve == curve,
            r.selected_point is None,
            !r.focused,
            !r.editing,
    {
        FanCurveGraph { curve, selected_point: None, focused: false, editing: false }
    }

    pub fn selected_point(self, point: Option<usize>) -> (r: Self)
        ensures
            r == (FanCurveGraph { selected_point: point, ..self }),
    {
        FanCurveGraph { selected_point: point, ..self }
    }

    pub fn focused(self, focused: bool) -> (r: Self)
        ensures
            r == (FanCurveGraph { focused, ..self }),
    {
        FanCurveGraph { focused, ..self }
    }

    pub fn editing(self, editing: bool) -> (r: Self)
        ensures
            r == (FanCurveGraph { editing, ..self }),
    {
        FanCurveGraph { editing, ..self }
    }
}

/// Status bar configuration: connection indicator plus an optional transient
/// message.
pub struct StatusBar<'a> {
    pub connected: bool,
    pub message: Option<&'a str>,
}

impl<'a> StatusBar<'a> {
    pub fn new(connected: bool) -> (r: Self)
        ensures
            r.connected == connected,
            r.message is None,
    {
        StatusBar { connected, message: None }
    }

    pub fn message(self, msg: &'a str) -> (r: Self)
        ensures
            r.connected == self.connected,
            r.message == Some(msg),
    {
        StatusBar { connected: self.connected, message: Some(msg) }
    }
}

/// Header banner configuration.
pub struct Header {
    pub compact: bool,
}

impl Header {
    pub fn new() -> (r: Self)
        ensures
            !r.compact,
    {
        Header { compact: false }
    }

    pub fn compact(self, compact: bool) -> (r: Self)
        ensures
            r.compact == compact,
    {
        Header { compact }
    }
}

impl Default for Header {
    fn default() -> (r: Self)
        ensures
            !r.compact,
    {
        Header::new()
    }
}

/// Help popup marker; the popup's content is static.
pub struct HelpPopup;

} // verus!
