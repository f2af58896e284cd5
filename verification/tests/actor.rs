use hachi::daemon::{
    FanCurve, FanPoint, GatewayAction, HardwareActor, HardwareIntent, HardwareUpdate, PowerProfile,
};
use hachi::error::HachiError;

fn custom_curve() -> FanCurve {
    FanCurve {
        cpu_curve: vec![FanPoint { temp: 35, speed: 10 }, FanPoint { temp: 95, speed: 90 }],
        gpu_curve: vec![FanPoint { temp: 35, speed: 15 }],
        enabled: true,
    }
}

fn assert_curves_equal(a: &FanCurve, b: &FanCurve) {
    assert_eq!(a.cpu_curve, b.cpu_curve);
    assert_eq!(a.gpu_curve, b.gpu_curve);
    assert_eq!(a.enabled, b.enabled);
}

/// Scenario: the actor starts Disconnected; a refresh against an unreachable
/// gateway reports the failure and leaves the all-default snapshot; a
/// subsequent SetPowerProfile is rejected without any Changed event.
#[test]
fn refresh_while_gateway_unreachable() {
    let mut actor = HardwareActor::new();
    assert!(!actor.state.connected);

    let out = actor.on_intent(HardwareIntent::RefreshState);
    assert_eq!(out.action, GatewayAction::Connect);
    assert!(out.events.is_empty());
    assert!(!out.stop);

    let out = actor.on_connect_outcome(Err("bus unreachable".to_string()));
    assert_eq!(out.events.len(), 2);
    assert!(matches!(
        &out.events[0],
        HardwareUpdate::Error(HachiError::DbusConnection(m)) if m.as_str() == "bus unreachable"
    ));
    assert!(matches!(out.events[1], HardwareUpdate::ConnectionStatus(false)));
    assert_eq!(out.action, GatewayAction::Idle);

    // The snapshot is still all-default.
    assert_eq!(actor.state.power_profile, PowerProfile::Balanced);
    assert_eq!(actor.state.charge_limit, 0);
    assert!(actor.state.fan_curve.cpu_curve.is_empty());
    assert!(!actor.state.connected);

    // Set intents are rejected while disconnected.
    let out = actor.on_intent(HardwareIntent::SetPowerProfile(PowerProfile::Quiet));
    assert_eq!(out.events.len(), 1);
    assert!(matches!(&out.events[0], HardwareUpdate::Error(HachiError::DbusCall(_))));
    assert_eq!(out.action, GatewayAction::Idle);
    assert_eq!(actor.state.power_profile, PowerProfile::Balanced);

    let out = actor.on_intent(HardwareIntent::SetChargeLimit(80));
    assert_eq!(out.events.len(), 1);
    assert!(matches!(&out.events[0], HardwareUpdate::Error(HachiError::DbusCall(_))));
    assert_eq!(out.action, GatewayAction::Idle);
}

fn connected_actor() -> HardwareActor {
    let mut actor = HardwareActor::new();
    let out = actor.on_intent(HardwareIntent::RefreshState);
    assert_eq!(out.action, GatewayAction::Connect);
    let out = actor.on_connect_outcome(Ok(()));
    assert_eq!(out.events.len(), 1);
    assert!(matches!(out.events[0], HardwareUpdate::ConnectionStatus(true)));
    assert_eq!(out.action, GatewayAction::ReadState);
    actor
}

/// Scenario: while Connected, a refresh that reads profile 1 and limit 80
/// emits exactly one StateRefresh with Performance, 80, the default curve,
/// and connected=true.
#[test]
fn refresh_reads_full_snapshot() {
    let mut actor = connected_actor();
    let out = actor.on_read_outcome(Ok(1), Ok(80));
    assert_eq!(out.events.len(), 1);
    match &out.events[0] {
        HardwareUpdate::StateRefresh(s) => {
            assert_eq!(s.power_profile, PowerProfile::Performance);
            assert_eq!(s.charge_limit, 80);
            assert_curves_equal(&s.fan_curve, &FanCurve::default_curve());
            assert!(s.connected);
        }
        other => panic!("expected StateRefresh, got {:?}", other),
    }
    assert_eq!(actor.state.power_profile, PowerProfile::Performance);
    assert_eq!(actor.state.charge_limit, 80);
}

/// Each failed reading yields an Error event, keeps its default value, and
/// never aborts the refresh: one StateRefresh still closes the step.
#[test]
fn refresh_is_best_effort() {
    let mut actor = connected_actor();
    let out = actor.on_read_outcome(Err("profile read failed".to_string()), Ok(75));
    assert_eq!(out.events.len(), 2);
    assert!(matches!(
        &out.events[0],
        HardwareUpdate::Error(HachiError::DbusCall(m)) if m.as_str() == "profile read failed"
    ));
    match &out.events[1] {
        HardwareUpdate::StateRefresh(s) => {
            assert_eq!(s.power_profile, PowerProfile::Balanced);
            assert_eq!(s.charge_limit, 75);
            assert!(s.connected);
        }
        other => panic!("expected StateRefresh, got {:?}", other),
    }

    let out = actor.on_read_outcome(Err("a".to_string()), Err("b".to_string()));
    assert_eq!(out.events.len(), 3);
    assert!(matches!(&out.events[0], HardwareUpdate::Error(_)));
    assert!(matches!(&out.events[1], HardwareUpdate::Error(_)));
    match &out.events[2] {
        HardwareUpdate::StateRefresh(s) => {
            assert_eq!(s.power_profile, PowerProfile::Balanced);
            assert_eq!(s.charge_limit, 0);
            assert!(s.connected);
        }
        other => panic!("expected StateRefresh, got {:?}", other),
    }
}

/// Issuing RefreshState twice against an unchanging remote yields two
/// StateRefresh events with identical payloads.
#[test]
fn refresh_is_idempotent() {
    let mut actor = connected_actor();
    let first = actor.on_read_outcome(Ok(3), Ok(60));
    let second = actor.on_read_outcome(Ok(3), Ok(60));
    let (s1, s2) = match (&first.events[0], &second.events[0]) {
        (HardwareUpdate::StateRefresh(a), HardwareUpdate::StateRefresh(b)) => (a, b),
        other => panic!("expected two StateRefresh events, got {:?}", other),
    };
    assert_eq!(s1.power_profile, s2.power_profile);
    assert_eq!(s1.charge_limit, s2.charge_limit);
    assert_curves_equal(&s1.fan_curve, &s2.fan_curve);
    assert_eq!(s1.connected, s2.connected);
}

/// Scenario: a confirmed profile write emits exactly one
/// PowerProfileChanged and no StateRefresh.
#[test]
fn confirmed_profile_write() {
    let mut actor = connected_actor();
    let out = actor.on_intent(HardwareIntent::SetPowerProfile(PowerProfile::Quiet));
    assert!(out.events.is_empty());
    assert_eq!(out.action, GatewayAction::WriteProfile(PowerProfile::Quiet));

    let out = actor.on_write_profile_outcome(PowerProfile::Quiet, Ok(()));
    assert_eq!(out.events.len(), 1);
    assert!(matches!(out.events[0], HardwareUpdate::PowerProfileChanged(PowerProfile::Quiet)));
    assert_eq!(actor.state.power_profile, PowerProfile::Quiet);
}

/// A failed write reports the error and leaves the snapshot untouched.
#[test]
fn failed_profile_write_changes_nothing() {
    let mut actor = connected_actor();
    actor.on_read_outcome(Ok(0), Ok(80));
    let out = actor.on_write_profile_outcome(PowerProfile::Quiet, Err("denied".to_string()));
    assert_eq!(out.events.len(), 1);
    assert!(matches!(
        &out.events[0],
        HardwareUpdate::Error(HachiError::DbusCall(m)) if m.as_str() == "denied"
    ));
    assert_eq!(actor.state.power_profile, PowerProfile::Balanced);
}

/// The charge limit is clamped to [20, 100] before it is written, and the
/// confirmation carries the clamped value.
#[test]
fn charge_limit_clamped_before_write() {
    let mut actor = connected_actor();
    let out = actor.on_intent(HardwareIntent::SetChargeLimit(150));
    assert!(out.events.is_empty());
    assert_eq!(out.action, GatewayAction::WriteChargeLimit(100));

    let out = actor.on_intent(HardwareIntent::SetChargeLimit(10));
    assert_eq!(out.action, GatewayAction::WriteChargeLimit(20));

    let out = actor.on_write_charge_limit_outcome(20, Ok(()));
    assert_eq!(out.events.len(), 1);
    assert!(matches!(out.events[0], HardwareUpdate::ChargeLimitChanged(20)));
    assert_eq!(actor.state.charge_limit, 20);

    let out = actor.on_write_charge_limit_outcome(60, Err("denied".to_string()));
    assert_eq!(out.events.len(), 1);
    assert!(matches!(&out.events[0], HardwareUpdate::Error(HachiError::DbusCall(_))));
    assert_eq!(actor.state.charge_limit, 20);
}

/// Scenario: SetFanCurve at any connection state yields exactly two events,
/// an Error naming the unsupported operation and a FanCurveChanged echoing
/// the requested curve.
#[test]
fn fan_curve_unsupported_but_echoed() {
    for connected in [false, true] {
        let mut actor = if connected { connected_actor() } else { HardwareActor::new() };
        let out = actor.on_intent(HardwareIntent::SetFanCurve(custom_curve()));
        assert_eq!(out.events.len(), 2);
        assert!(matches!(
            &out.events[0],
            HardwareUpdate::Error(HachiError::InvalidFanCurve(m))
                if m.as_str() == "Fan curve control not available"
        ));
        match &out.events[1] {
            HardwareUpdate::FanCurveChanged(c) => assert_curves_equal(c, &custom_curve()),
            other => panic!("expected FanCurveChanged, got {:?}", other),
        }
        assert_eq!(out.action, GatewayAction::Idle);
        assert!(!out.stop);
    }
}

/// SetFanCurveEnabled is rejected without an echo.
#[test]
fn fan_curve_toggle_unsupported() {
    let mut actor = connected_actor();
    let out = actor.on_intent(HardwareIntent::SetFanCurveEnabled(true));
    assert_eq!(out.events.len(), 1);
    assert!(matches!(&out.events[0], HardwareUpdate::Error(HachiError::InvalidFanCurve(_))));
    assert_eq!(out.action, GatewayAction::Idle);
}

/// Shutdown stops the loop without any event.
#[test]
fn shutdown_stops_the_loop() {
    let mut actor = connected_actor();
    let out = actor.on_intent(HardwareIntent::Shutdown);
    assert!(out.stop);
    assert!(out.events.is_empty());
    assert_eq!(out.action, GatewayAction::Idle);
}

/// External profile-change notifications decode through the same total
/// mapping and bypass the intent path.
#[test]
fn notification_decodes_wire_value() {
    let mut actor = connected_actor();
    let out = actor.on_profile_notification(3);
    assert_eq!(out.events.len(), 1);
    assert!(matches!(out.events[0], HardwareUpdate::PowerProfileChanged(PowerProfile::Quiet)));
    assert_eq!(actor.state.power_profile, PowerProfile::Quiet);

    // Unknown codes fall back to Balanced, never an error.
    let out = actor.on_profile_notification(2);
    assert_eq!(out.events.len(), 1);
    assert!(matches!(out.events[0], HardwareUpdate::PowerProfileChanged(PowerProfile::Balanced)));
}

#[test]
fn error_messages() {
    assert_eq!(
        HachiError::DbusConnection("no bus".to_string()).message(),
        "D-Bus connection failed: no bus"
    );
    assert_eq!(
        HachiError::DbusCall("denied".to_string()).message(),
        "D-Bus method call failed: denied"
    );
    assert_eq!(HachiError::ActorChannelClosed.message(), "Hardware actor channel closed");
    assert_eq!(
        HachiError::InvalidFanCurve("nope".to_string()).message(),
        "Invalid fan curve: nope"
    );
}
