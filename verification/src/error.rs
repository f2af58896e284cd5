//! Error taxonomy for the power-management client.
//!
//! Every failure the actor observes is broadcast to observers as an
//! [`crate::daemon::HardwareUpdate::Error`] event carrying one of these
//! values; the actor itself never panics or terminates on a remote failure.

use vstd::prelude::*;

verus! {

/// The ways a remote operation or the surrounding plumbing can fail.
///
/// Detail strings for the bus variants are supplied by the transport layer
/// that performed the call; the library only carries them through.
#[derive(Debug, Clone)]
pub enum HachiError {
    /// The bus was unreachable or the handshake failed.
    DbusConnection(String),
    /// A specific remote operation failed.
    DbusCall(String),
    /// The actor's command channel closed; fatal to the actor.
    ActorChannelClosed,
    /// A profile value was rejected.
    InvalidPowerProfile(String),
    /// A fan-curve operation is not offered by the remote service.
    InvalidFanCurve(String),
    /// A battery limit outside the accepted range.
    BatteryLimitOutOfRange(u8),
    /// A failure in the terminal layer.
    Terminal(String),
}

impl HachiError {
    /// Human-readable description of the error, in place of a Display impl.
    pub fn message(&self) -> (r: String)
        ensures
            (self matches HachiError::DbusConnection(m) ==> r@ == "D-Bus connection failed: "@ + m@),
            (self matches HachiError::DbusCall(m) ==> r@ == "D-Bus method call failed: "@ + m@),
            (self is ActorChannelClosed ==> r@ == "Hardware actor channel closed"@),
            (self matches HachiError::InvalidPowerProfile(m) ==> r@ == "Invalid power profile: "@ + m@),
            (self matches HachiError::InvalidFanCurve(m) ==> r@ == "Invalid fan curve: "@ + m@),
            (self is BatteryLimitOutOfRange ==> r@ == "Battery limit out of range"@),
            (self matches HachiError::Terminal(m) ==> r@ == "Terminal error: "@ + m@),
    {
        match self {
            HachiError::DbusConnection(m) => "D-Bus connection failed: ".to_owned().concat(m.as_str()),
            HachiError::DbusCall(m) => "D-Bus method call failed: ".to_owned().concat(m.as_str()),
            HachiError::ActorChannelClosed => "Hardware actor channel closed".to_owned(),
            HachiError::InvalidPowerProfile(m) => "Invalid power profile: ".to_owned().concat(m.as_str()),
            HachiError::InvalidFanCurve(m) => "Invalid fan curve: ".to_owned().concat(m.as_str()),
            HachiError::BatteryLimitOutOfRange(_) => "Battery limit out of range".to_owned(),
            HachiError::Terminal(m) => "Terminal error: ".to_owned().concat(m.as_str()),
        }
    }
}

} // verus!
