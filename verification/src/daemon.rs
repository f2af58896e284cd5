//! Domain model and synchronization actor for the power-management client.
//!
//! The actor owns the authoritative [`HardwareState`] snapshot and serializes
//! every access to the system-bus gateway. Its logic is a state machine: each
//! step consumes an intent, a gateway outcome, or a bus notification, mutates
//! the snapshot, and yields the events to broadcast together with the next
//! gateway call to perform. The event loop that owns the channels and the bus
//! connection runs outside the library and drives these steps; the library
//! decides everything.

use vstd::prelude::*;

use crate::error::HachiError;

verus! {

/// Power profile modes offered by the platform service.
#[derive(Debug, Clone, Copy, PartialEq, Eq, Structural)]
pub enum PowerProfile {
    Quiet,
    Balanced,
    Performance,
}

impl PowerProfile {
    /// The wire table dictated by the remote service's ABI:
    /// Balanced=0, Performance=1, Quiet=3. Every unrecognized code falls
    /// back to Balanced, so decoding is total and never an error.
    pub open spec fn spec_from_u32(val: u32) -> PowerProfile {
        if val == 0 {
            PowerProfile::Balanced
        } else if val == 1 {
            PowerProfile::Performance
        } else if val == 3 {
            PowerProfile::Quiet
        } else {
            PowerProfile::Balanced
        }
    }

    /// The wire code of a profile, inverse of [`Self::spec_from_u32`] on
    /// the three live codes.
    pub open spec fn spec_to_u32(self) -> u32 {
        match self {
            PowerProfile::Balanced => 0,
            PowerProfile::Performance => 1,
            PowerProfile::Quiet => 3,
        }
    }

    /// The successor in the Quiet -> Balanced -> Performance -> Quiet cycle.
    pub open spec fn spec_cycle_next(self) -> PowerProfile {
        match self {
            PowerProfile::Quiet => PowerProfile::Balanced,
            PowerProfile::Balanced => PowerProfile::Performance,
            PowerProfile::Performance => PowerProfile::Quiet,
        }
    }

    pub fn as_str(&self) -> (r: &'static str)
        ensures
            (*self is Quiet ==> r@ == "Quiet"@),
            (*self is Balanced ==> r@ == "Balanced"@),
            (*self is Performance ==> r@ == "Performance"@),
    {
        match self {
            PowerProfile::Quiet => "Quiet",
            PowerProfile::Balanced => "Balanced",
            PowerProfile::Performance => "Performance",
        }
    }

    pub fn from_u8(val: u8) -> (r: Self)
        ensures
            r == PowerProfile::spec_from_u32(val as u32),
    {
        Self::from_u32(val as u32)
    }

    pub fn from_u32(val: u32) -> (r: Self)
        ensures
            r == PowerProfile::spec_from_u32(val),
    {
        match val {
            0 => PowerProfile::Balanced,
            1 => PowerProfile::Performance,
            3 => PowerProfile::Quiet,
            _ => PowerProfile::Balanced,
        }
    }

    pub fn to_u8(self) -> (r: u8)
        ensures
            r as u32 == self.spec_to_u32(),
    {
        self.to_u32() as u8
    }

    pub fn to_u32(self) -> (r: u32)
        ensures
            r == self.spec_to_u32(),
    {
        match self {
            PowerProfile::Balanced => 0,
            PowerProfile::Performance => 1,
            PowerProfile::Quiet => 3,
        }
    }

    pub fn cycle_next(self) -> (r: Self)
        ensures
            r == self.spec_cycle_next(),
    {
        match self {
            PowerProfile::Quiet => PowerProfile::Balanced,
            PowerProfile::Balanced => PowerProfile::Performance,
            PowerProfile::Performance => PowerProfile::Quiet,
        }
    }
}

impl Default for PowerProfile {
    fn default() -> (r: Self)
        ensures
            r == PowerProfile::Balanced,
    {
        PowerProfile::Balanced
    }
}

/// Decoding is the identity on the three live wire codes, and every other
/// code falls back to Balanced.
pub proof fn lemma_wire_round_trip(val: u32)
    ensures
        (val == 0 || val == 1 || val == 3) ==> PowerProfile::spec_from_u32(
            val,
        ).spec_to_u32() == val,
        !(val == 0 || val == 1 || val == 3) ==> PowerProfile::spec_from_u32(val)
            == PowerProfile::Balanced,
{
}

/// Encoding then decoding returns the original profile.
pub proof fn lemma_profile_round_trip(p: PowerProfile)
    ensures
        PowerProfile::spec_from_u32(p.spec_to_u32()) == p,
{
}

/// Cycling is a 3-cycle permutation: three applications return the
/// original profile.
pub proof fn lemma_cycle_next_period(p: PowerProfile)
    ensures
        p.spec_cycle_next().spec_cycle_next().spec_cycle_next() == p,
        p.spec_cycle_next() != p,
{
}

/// Fan curve point: temperature in degrees Celsius, fan speed in percent.
#[derive(Debug, Clone, Copy, PartialEq, Eq, Structural)]
pub struct FanPoint {
    pub temp: u8,
    pub speed: u8,
}

/// Fan curve data: one ordered point sequence per channel, plus whether the
/// custom curve is enabled.
#[derive(Debug)]
pub struct FanCurve {
    pub cpu_curve: Vec<FanPoint>,
    pub gpu_curve: Vec<FanPoint>,
    pub enabled: bool,
}

/// Two fan curves hold the same points and the same enabled flag.
pub open spec fn curves_match(a: FanCurve, b: FanCurve) -> bool {
    &&& a.cpu_curve@ == b.cpu_curve@
    &&& a.gpu_curve@ == b.gpu_curve@
    &&& a.enabled == b.enabled
}

fn clone_points(v: &Vec<FanPoint>) -> (r: Vec<FanPoint>)
    ensures
        r@ == v@,
{
    let mut r: Vec<FanPoint> = Vec::new();
    let mut i: usize = 0;
    while i < v.len()
        invariant
            i <= v.len(),
            r@ == v@.take(i as int),
        decreases v.len() - i,
    {
        r.push(v[i]);
        proof {
            assert(r@ =~= v@.take(i + 1));
        }
        i = i + 1;
    }
    proof {
        assert(v@.take(v@.len() as int) =~= v@);
    }
    r
}

impl Clone for FanCurve {
    fn clone(&self) -> (r: Self)
        ensures
            curves_match(r, *self),
    {
        FanCurve {
            cpu_curve: clone_points(&self.cpu_curve),
            gpu_curve: clone_points(&self.gpu_curve),
            enabled: self.enabled,
        }
    }
}

impl Default for FanCurve {
    fn default() -> (r: Self)
        ensures
            r.cpu_curve@ == Seq::<FanPoint>::empty(),
            r.gpu_curve@ == Seq::<FanPoint>::empty(),
            !r.enabled,
    {
        let r = FanCurve { cpu_curve: Vec::new(), gpu_curve: Vec::new(), enabled: false };
        proof {
            assert(r.cpu_curve@ =~= Seq::<FanPoint>::empty());
            assert(r.gpu_curve@ =~= Seq::<FanPoint>::empty());
        }
        r
    }
}

impl FanCurve {
    /// The static fallback curve offered when the remote service has no
    /// fan-curve interface: eight points per channel spanning the thermal
    /// range from (30 C, 0%) to (100 C, 100%), disabled by default.
    pub open spec fn spec_default_points() -> Seq<FanPoint> {
        seq![
            FanPoint { temp: 30, speed: 0 },
            FanPoint { temp: 40, speed: 5 },
            FanPoint { temp: 50, speed: 10 },
            FanPoint { temp: 60, speed: 20 },
            FanPoint { temp: 70, speed: 35 },
            FanPoint { temp: 80, speed: 55 },
            FanPoint { temp: 90, speed: 65 },
            FanPoint { temp: 100, speed: 100 },
        ]
    }

    pub fn default_curve() -> (r: Self)
        ensures
            r.cpu_curve@ == FanCurve::spec_default_points(),
            r.gpu_curve@ == FanCurve::spec_default_points(),
            !r.enabled,
    {
        let cpu_curve = default_points();
        let gpu_curve = default_points();
        FanCurve { cpu_curve, gpu_curve, enabled: false }
    }
}

fn default_points() -> (r: Vec<FanPoint>)
    ensures
        r@ == FanCurve::spec_default_points(),
{
    let mut r: Vec<FanPoint> = Vec::new();
    r.push(FanPoint { temp: 30, speed: 0 });
    r.push(FanPoint { temp: 40, speed: 5 });
    r.push(FanPoint { temp: 50, speed: 10 });
    r.push(FanPoint { temp: 60, speed: 20 });
    r.push(FanPoint { temp: 70, speed: 35 });
    r.push(FanPoint { temp: 80, speed: 55 });
    r.push(FanPoint { temp: 90, speed: 65 });
    r.push(FanPoint { temp: 100, speed: 100 });
    proof {
        assert(r@ =~= FanCurve::spec_default_points());
    }
    r
}

/// The fallback curve has exactly eight points per channel, starting at
/// (30, 0) and ending at (100, 100).
pub proof fn lemma_default_curve_shape()
    ensures
        FanCurve::spec_default_points().len() == 8,
        FanCurve::spec_default_points().first() == (FanPoint { temp: 30, speed: 0 }),
        FanCurve::spec_default_points().last() == (FanPoint { temp: 100, speed: 100 }),
{
}

/// Clamp a requested battery charge limit into the safe range [20, 100].
/// The lower bound prevents battery-health-damaging configurations.
pub open spec fn spec_clamp_charge_limit(n: u8) -> u8 {
    if n < 20 {
        20
    } else if n > 100 {
        100
    } else {
        n
    }
}

/// Clamp a requested battery charge limit into [20, 100], applied to every
/// value about to be written to the remote service.
pub fn clamp_charge_limit(n: u8) -> (r: u8)
    ensures
        r == spec_clamp_charge_limit(n),
        20 <= r <= 100,
        20 <= n <= 100 ==> r == n,
{
    if n < 20 {
        20
    } else if n > 100 {
        100
    } else {
        n
    }
}

/// Current hardware state snapshot. The actor holds the authoritative copy;
/// observers only ever see copies delivered inside events.
#[derive(Debug)]
pub struct HardwareState {
    pub power_profile: PowerProfile,
    pub charge_limit: u8,
    pub fan_curve: FanCurve,
    pub connected: bool,
}

/// Two snapshots agree on every field.
pub open spec fn states_match(a: HardwareState, b: HardwareState) -> bool {
    &&& a.power_profile == b.power_profile
    &&& a.charge_limit == b.charge_limit
    &&& curves_match(a.fan_curve, b.fan_curve)
    &&& a.connected == b.connected
}

/// The all-default snapshot the actor starts from.
pub open spec fn spec_initial_state(s: HardwareState) -> bool {
    &&& s.power_profile == PowerProfile::Balanced
    &&& s.charge_limit == 0
    &&& s.fan_curve.cpu_curve@ == Seq::<FanPoint>::empty()
    &&& s.fan_curve.gpu_curve@ == Seq::<FanPoint>::empty()
    &&& !s.fan_curve.enabled
    &&& !s.connected
}

impl Clone for HardwareState {
    fn clone(&self) -> (r: Self)
        ensures
            states_match(r, *self),
    {
        HardwareState {
            power_profile: self.power_profile,
            charge_limit: self.charge_limit,
            fan_curve: self.fan_curve.clone(),
            connected: self.connected,
        }
    }
}

impl Default for HardwareState {
    fn default() -> (r: Self)
        ensures
            spec_initial_state(r),
    {
        HardwareState {
            power_profile: PowerProfile::Balanced,
            charge_limit: 0,
            fan_curve: FanCurve::default(),
            connected: false,
        }
    }
}

/// Intents sent by callers to the actor. Intents are commands, not queries:
/// they carry no response channel, and all outcomes are observed through the
/// event stream.
#[derive(Debug, Clone)]
pub enum HardwareIntent {
    /// Request a full state refresh (re-attempts connect when disconnected).
    RefreshState,
    /// Write a power profile to the remote service.
    SetPowerProfile(PowerProfile),
    /// Write a battery charge limit (clamped to [20, 100] before the write).
    SetChargeLimit(u8),
    /// Request a custom fan curve (unsupported by the remote service;
    /// echoed locally, see [`HardwareActor::on_intent`]).
    SetFanCurve(FanCurve),
    /// Enable or disable custom fan curves (unsupported).
    SetFanCurveEnabled(bool),
    /// Terminate the actor's event loop.
    Shutdown,
}

/// Events broadcast by the actor to every observer.
#[derive(Debug, Clone)]
pub enum HardwareUpdate {
    /// Full state refresh.
    StateRefresh(HardwareState),
    /// Power profile changed, by a confirmed write or an external change.
    PowerProfileChanged(PowerProfile),
    /// Charge limit changed (already clamped).
    ChargeLimitChanged(u8),
    /// Fan curve changed (local echo only, the hardware is untouched).
    FanCurveChanged(FanCurve),
    /// Connection status changed.
    ConnectionStatus(bool),
    /// A remote operation or the connection failed.
    Error(HachiError),
}

/// The gateway call the actor asks its transport to perform next. The
/// transport performs the call and feeds the outcome back into the matching
/// `on_*_outcome` step.
#[derive(Debug, Clone, Copy, PartialEq, Eq, Structural)]
pub enum GatewayAction {
    /// No bus access needed.
    Idle,
    /// Establish the bus connection.
    Connect,
    /// Read the power profile and the charge limit for a full snapshot.
    ReadState,
    /// Write this profile's wire code to the remote service.
    WriteProfile(PowerProfile),
    /// Write this (already clamped) charge limit to the remote service.
    WriteChargeLimit(u8),
}

/// One actor step: the events to broadcast (in order), the gateway call to
/// perform next, and whether the event loop must stop.
#[derive(Debug)]
pub struct StepOutput {
    pub events: Vec<HardwareUpdate>,
    pub action: GatewayAction,
    pub stop: bool,
}

/// A snapshot assembled by a state refresh from the two remote readings:
/// failed readings keep their default value, the fan curve is always the
/// static fallback (the remote service offers no fan-curve interface), and
/// the snapshot is marked connected.
pub open spec fn refreshed_snapshot(
    s: HardwareState,
    profile: Result<u32, String>,
    limit: Result<u8, String>,
) -> bool {
    &&& s.power_profile == (match profile {
        Ok(v) => PowerProfile::spec_from_u32(v),
        Err(_) => PowerProfile::Balanced,
    })
    &&& s.charge_limit == (match limit {
        Ok(v) => v,
        Err(_) => 0u8,
    })
    &&& s.fan_curve.cpu_curve@ == FanCurve::spec_default_points()
    &&& s.fan_curve.gpu_curve@ == FanCurve::spec_default_points()
    &&& !s.fan_curve.enabled
    &&& s.connected
}

/// Refreshing is idempotent: two snapshots assembled from the same remote
/// readings are identical, whatever the actor observed before. Issuing two
/// refreshes against an unchanging remote therefore yields two StateRefresh
/// events with identical payloads.
pub proof fn lemma_refresh_idempotent(
    s1: HardwareState,
    s2: HardwareState,
    profile: Result<u32, String>,
    limit: Result<u8, String>,
)
    requires
        refreshed_snapshot(s1, profile, limit),
        refreshed_snapshot(s2, profile, limit),
    ensures
        states_match(s1, s2),
{
}

/// The synchronization actor: holds the authoritative snapshot and decides,
/// step by step, how intents, gateway outcomes and bus notifications change
/// it and what to broadcast. It suspends nothing itself: the surrounding
/// event loop owns the channels and the bus connection, performs each
/// [`GatewayAction`], and feeds the outcome back in.
pub struct HardwareActor {
    pub state: HardwareState,
}

impl HardwareActor {
    /// A fresh actor: disconnected, with the all-default snapshot.
    pub fn new() -> (r: Self)
        ensures
            spec_initial_state(r.state),
    {
        HardwareActor { state: HardwareState::default() }
    }

    /// Process one intent from the command channel.
    ///
    /// Set* intents issued while disconnected are rejected with an Error
    /// event and perform no local mutation. The fan-curve intents are
    /// permanently unsupported by the remote service: they always yield an
    /// Error naming the limitation, and SetFanCurve additionally echoes the
    /// requested curve as a FanCurveChanged event so observers can keep
    /// reflecting the edit; this deliberate asymmetry is part of the
    /// contract. Writes that reach the gateway are confirmed (and the
    /// snapshot mutated) only by the matching `on_*_outcome` step.
    pub fn on_intent(&mut self, intent: HardwareIntent) -> (out: StepOutput)
        ensures
            (intent is RefreshState ==> {
                &&& out.events@.len() == 0
                &&& out.action == (if old(self).state.connected {
                    GatewayAction::ReadState
                } else {
                    GatewayAction::Connect
                })
                &&& !out.stop
                &&& final(self).state == old(self).state
            }),
            (intent matches HardwareIntent::SetPowerProfile(p) ==> {
                &&& (old(self).state.connected ==> {
                    &&& out.events@.len() == 0
                    &&& out.action == GatewayAction::WriteProfile(p)
                })
                &&& (!old(self).state.connected ==> {
                    &&& out.events@.len() == 1
                    &&& (out.events@[0] matches HardwareUpdate::Error(e)
                        && e matches HachiError::DbusCall(m)
                        && m@ == "Not connected to D-Bus"@)
                    &&& out.action is Idle
                })
                &&& !out.stop
                &&& final(self).state == old(self).state
            }),
            (intent matches HardwareIntent::SetChargeLimit(n) ==> {
                &&& (old(self).state.connected ==> {
                    &&& out.events@.len() == 0
                    &&& out.action == GatewayAction::WriteChargeLimit(spec_clamp_charge_limit(n))
                })
                &&& (!old(self).state.connected ==> {
                    &&& out.events@.len() == 1
                    &&& (out.events@[0] matches HardwareUpdate::Error(e)
                        && e matches HachiError::DbusCall(m)
                        && m@ == "Not connected to D-Bus"@)
                    &&& out.action is Idle
                })
                &&& !out.stop
                &&& final(self).state == old(self).state
            }),
            (intent matches HardwareIntent::SetFanCurve(c) ==> {
                &&& out.events@.len() == 2
                &&& (out.events@[0] matches HardwareUpdate::Error(e)
                    && e matches HachiError::InvalidFanCurve(m)
                    && m@ == "Fan curve control not available"@)
                &&& out.events@[1] == HardwareUpdate::FanCurveChanged(c)
                &&& out.action is Idle
                &&& !out.stop
                &&& final(self).state == old(self).state
            }),
            (intent is SetFanCurveEnabled ==> {
                &&& out.events@.len() == 1
                &&& (out.events@[0] matches HardwareUpdate::Error(e)
                    && e matches HachiError::InvalidFanCurve(m)
                    && m@ == "Fan curve control not available"@)
                &&& out.action is Idle
                &&& !out.stop
                &&& final(self).state == old(self).state
            }),
            (intent is Shutdown ==> {
                &&& out.events@.len() == 0
                &&& out.action is Idle
                &&& out.stop
                &&& final(self).state == old(self).state
            }),
    {
        let mut events: Vec<HardwareUpdate> = Vec::new();
        match intent {
            HardwareIntent::RefreshState => {
                let action = if self.state.connected {
                    GatewayAction::ReadState
                } else {
                    GatewayAction::Connect
                };
                StepOutput { events, action, stop: false }
            },
            HardwareIntent::SetPowerProfile(p) => {
                if self.state.connected {
                    StepOutput { events, action: GatewayAction::WriteProfile(p), stop: false }
                } else {
                    events.push(HardwareUpdate::Error(HachiError::DbusCall(
                        "Not connected to D-Bus".to_owned(),
                    )));
                    StepOutput { events, action: GatewayAction::Idle, stop: false }
                }
            },
            HardwareIntent::SetChargeLimit(n) => {
                if self.state.connected {
                    let clamped: u8 = clamp_charge_limit(n);
                    StepOutput {
                        events,
                        action: GatewayAction::WriteChargeLimit(clamped),
                        stop: false,
                    }
                } else {
                    events.push(HardwareUpdate::Error(HachiError::DbusCall(
                        "Not connected to D-Bus".to_owned(),
                    )));
                    StepOutput { events, action: GatewayAction::Idle, stop: false }
                }
            },
            HardwareIntent::SetFanCurve(c) => {
                events.push(HardwareUpdate::Error(HachiError::InvalidFanCurve(
                    "Fan curve control not available".to_owned(),
                )));
                events.push(HardwareUpdate::FanCurveChanged(c));
                StepOutput { events, action: GatewayAction::Idle, stop: false }
            },
            HardwareIntent::SetFanCurveEnabled(_) => {
                events.push(HardwareUpdate::Error(HachiError::InvalidFanCurve(
                    "Fan curve control not available".to_owned(),
                )));
                StepOutput { events, action: GatewayAction::Idle, stop: false }
            },
            HardwareIntent::Shutdown => {
                StepOutput { events, action: GatewayAction::Idle, stop: true }
            },
        }
    }

    /// Process the outcome of a [`GatewayAction::Connect`].
    ///
    /// On success the actor enters Connected and immediately asks for a full
    /// state fetch; on failure it reports the error, announces the
    /// disconnected status, and stops there (no automatic retry: only a new
    /// RefreshState intent re-attempts connect).
    pub fn on_connect_outcome(&mut self, outcome: Result<(), String>) -> (out: StepOutput)
        ensures
            (outcome is Ok ==> {
                &&& out.events@.len() == 1
                &&& out.events@[0] == HardwareUpdate::ConnectionStatus(true)
                &&& out.action is ReadState
                &&& final(self).state == (HardwareState { connected: true, ..old(self).state })
            }),
            (outcome matches Err(m) ==> {
                &&& out.events@.len() == 2
                &&& out.events@[0] == HardwareUpdate::Error(HachiError::DbusConnection(m))
                &&& out.events@[1] == HardwareUpdate::ConnectionStatus(false)
                &&& out.action is Idle
                &&& final(self).state == (HardwareState { connected: false, ..old(self).state })
            }),
            !out.stop,
    {
        let mut events: Vec<HardwareUpdate> = Vec::new();
        match outcome {
            Ok(_) => {
                self.state.connected = true;
                events.push(HardwareUpdate::ConnectionStatus(true));
                StepOutput { events, action: GatewayAction::ReadState, stop: false }
            },
            Err(m) => {
                self.state.connected = false;
                events.push(HardwareUpdate::Error(HachiError::DbusConnection(m)));
                events.push(HardwareUpdate::ConnectionStatus(false));
                StepOutput { events, action: GatewayAction::Idle, stop: false }
            },
        }
    }

    /// Process the two readings of a [`GatewayAction::ReadState`].
    ///
    /// Aggregation is best-effort, not all-or-nothing: each failed reading
    /// yields an Error event and its field keeps the default value, and one
    /// StateRefresh always closes the step. The assembled snapshot depends
    /// on the readings alone (see [`lemma_refresh_idempotent`]); the actor
    /// adopts it as its own.
    pub fn on_read_outcome(
        &mut self,
        profile: Result<u32, String>,
        limit: Result<u8, String>,
    ) -> (out: StepOutput)
        ensures
            out.events@.len() == 1 + (if profile is Err {
                1int
            } else {
                0int
            }) + (if limit is Err {
                1int
            } else {
                0int
            }),
            (profile matches Err(m) ==> out.events@[0] == HardwareUpdate::Error(
                HachiError::DbusCall(m),
            )),
            (limit matches Err(m) ==> out.events@[out.events@.len() - 2] == HardwareUpdate::Error(
                HachiError::DbusCall(m),
            )),
            (out.events@.last() matches HardwareUpdate::StateRefresh(s) && refreshed_snapshot(
                s,
                profile,
                limit,
            )),
            refreshed_snapshot(final(self).state, profile, limit),
            out.action is Idle,
            !out.stop,
    {
        let mut events: Vec<HardwareUpdate> = Vec::new();
        let power_profile = match profile {
            Ok(v) => PowerProfile::from_u32(v),
            Err(m) => {
                events.push(HardwareUpdate::Error(HachiError::DbusCall(m)));
                PowerProfile::Balanced
            },
        };
        let charge_limit: u8 = match limit {
            Ok(v) => v,
            Err(m) => {
                events.push(HardwareUpdate::Error(HachiError::DbusCall(m)));
                0
            },
        };
        let snapshot = HardwareState {
            power_profile,
            charge_limit,
            fan_curve: FanCurve::default_curve(),
            connected: true,
        };
        self.state = HardwareState {
            power_profile,
            charge_limit,
            fan_curve: FanCurve::default_curve(),
            connected: true,
        };
        events.push(HardwareUpdate::StateRefresh(snapshot));
        StepOutput { events, action: GatewayAction::Idle, stop: false }
    }

    /// Process the outcome of a [`GatewayAction::WriteProfile`] for
    /// `profile`.
    ///
    /// Mutate-on-confirmation: on success the snapshot adopts the profile
    /// and exactly one PowerProfileChanged is broadcast (the sole
    /// confirmation, no snapshot event); on failure an Error is broadcast
    /// and the snapshot is untouched.
    pub fn on_write_profile_outcome(
        &mut self,
        profile: PowerProfile,
        outcome: Result<(), String>,
    ) -> (out: StepOutput)
        ensures
            (outcome is Ok ==> {
                &&& out.events@.len() == 1
                &&& out.events@[0] == HardwareUpdate::PowerProfileChanged(profile)
                &&& final(self).state == (HardwareState {
                    power_profile: profile,
                    ..old(self).state
                })
            }),
            (outcome matches Err(m) ==> {
                &&& out.events@.len() == 1
                &&& out.events@[0] == HardwareUpdate::Error(HachiError::DbusCall(m))
                &&& final(self).state == old(self).state
            }),
            out.action is Idle,
            !out.stop,
    {
        let mut events: Vec<HardwareUpdate> = Vec::new();
        match outcome {
            Ok(_) => {
                self.state.power_profile = profile;
                events.push(HardwareUpdate::PowerProfileChanged(profile));
            },
            Err(m) => {
                events.push(HardwareUpdate::Error(HachiError::DbusCall(m)));
            },
        }
        StepOutput { events, action: GatewayAction::Idle, stop: false }
    }

    /// Process the outcome of a [`GatewayAction::WriteChargeLimit`] for the
    /// already clamped `limit`; mutate-on-confirmation, as for profiles.
    pub fn on_write_charge_limit_outcome(
        &mut self,
        limit: u8,
        outcome: Result<(), String>,
    ) -> (out: StepOutput)
        ensures
            (outcome is Ok ==> {
                &&& out.events@.len() == 1
                &&& out.events@[0] == HardwareUpdate::ChargeLimitChanged(limit)
                &&& final(self).state == (HardwareState { charge_limit: limit, ..old(self).state })
            }),
            (outcome matches Err(m) ==> {
                &&& out.events@.len() == 1
                &&& out.events@[0] == HardwareUpdate::Error(HachiError::DbusCall(m))
                &&& final(self).state == old(self).state
            }),
            out.action is Idle,
            !out.stop,
    {
        let mut events: Vec<HardwareUpdate> = Vec::new();
        match outcome {
            Ok(_) => {
                self.state.charge_limit = limit;
                events.push(HardwareUpdate::ChargeLimitChanged(limit));
            },
            Err(m) => {
                events.push(HardwareUpdate::Error(HachiError::DbusCall(m)));
            },
        }
        StepOutput { events, action: GatewayAction::Idle, stop: false }
    }

    /// Process an external profile-change notification from the bus (for
    /// example a hardware hotkey). The wire value is decoded through the
    /// same total mapping, so this step has no failure mode; it does not go
    /// through the intent path.
    pub fn on_profile_notification(&mut self, wire: u32) -> (out: StepOutput)
        ensures
            out.events@.len() == 1,
            out.events@[0] == HardwareUpdate::PowerProfileChanged(PowerProfile::spec_from_u32(wire)),
            final(self).state == (HardwareState {
                power_profile: PowerProfile::spec_from_u32(wire),
                ..old(self).state
            }),
            out.action is Idle,
            !out.stop,
    {
        let p = PowerProfile::from_u32(wire);
        self.state.power_profile = p;
        let mut events: Vec<HardwareUpdate> = Vec::new();
        events.push(HardwareUpdate::PowerProfileChanged(p));
        StepOutput { events, action: GatewayAction::Idle, stop: false }
    }
}

} // verus!

