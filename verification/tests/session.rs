use aicc_core::messages::drive_core::MessageType;
use aicc_core::pwm_driver::PwmChannelArgs;
use aicc_core::pwm_driver::ServoChannel;
use aicc_core::session::{ControlSession, CoreListener, Effect, SessionEvent, SessionState};

// The deployed calibration, in micro-units of duty cycle.
fn steering_config() -> PwmChannelArgs {
    PwmChannelArgs { neutral: 85_000, range: 16_250 }
}

fn throttle_config() -> PwmChannelArgs {
    PwmChannelArgs { neutral: 75_000, range: 25_000 }
}

fn session() -> ControlSession {
    ControlSession::new(100, steering_config(), throttle_config())
}

#[test]
fn end_to_end_scenario() {
    let mut s = session();
    assert_eq!(SessionState::WaitingForClient, s.state());

    // Client connects.
    let effects = s.step(SessionEvent::ClientAccepted);
    assert_eq!(SessionState::Connected, s.state());
    assert!(effects.is_empty());

    // SetSteering(0.5): duty = round((0.085 - 0.5 * 0.01625) * 4096) = 315.
    let effects = s.step(SessionEvent::Received(MessageType::SetSteering(
        0.5f32.to_bits(),
    )));
    assert_eq!(
        effects,
        vec![Effect::HwWrite { channel: ServoChannel::Steering, duty: 315 }]
    );

    // SetThrottle(0.3): duty = round((0.075 + 0.3 * 0.025) * 4096) = 338.
    let effects = s.step(SessionEvent::Received(MessageType::SetThrottle(
        0.3f32.to_bits(),
    )));
    assert_eq!(
        effects,
        vec![Effect::HwWrite { channel: ServoChannel::Throttle, duty: 338 }]
    );

    // Silence past the timeout bound: both channels return to neutral,
    // duty = round(0.085 * 4096) = 348 and round(0.075 * 4096) = 307,
    // and the connection stays open.
    let effects = s.step(SessionEvent::ReadTimedOut);
    assert_eq!(SessionState::Connected, s.state());
    assert_eq!(0, s.steering_bits());
    assert_eq!(0, s.throttle_bits());
    assert_eq!(
        effects,
        vec![
            Effect::HwWrite { channel: ServoChannel::Steering, duty: 348 },
            Effect::HwWrite { channel: ServoChannel::Throttle, duty: 307 },
        ]
    );

    // Bye: the session ends; the values are already neutral, so the
    // failsafe has nothing left to write, and a new client can connect
    // immediately.
    let effects = s.step(SessionEvent::Received(MessageType::Bye));
    assert_eq!(SessionState::WaitingForClient, s.state());
    assert!(effects.is_empty());

    let _ = s.step(SessionEvent::ClientAccepted);
    assert_eq!(SessionState::Connected, s.state());
}

#[test]
fn timeout_drives_both_values_to_zero() {
    let mut s = session();
    s.step(SessionEvent::ClientAccepted);
    s.step(SessionEvent::Received(MessageType::SetSteering(0.5f32.to_bits())));
    s.step(SessionEvent::Received(MessageType::SetThrottle(0.3f32.to_bits())));
    assert_eq!(0.5f32.to_bits(), s.steering_bits());
    assert_eq!(0.3f32.to_bits(), s.throttle_bits());

    s.step(SessionEvent::ReadTimedOut);
    assert_eq!(0, s.steering_bits());
    assert_eq!(0, s.throttle_bits());
    assert_eq!(SessionState::Connected, s.state());
}

#[test]
fn read_failure_ends_the_session_with_failsafe() {
    let mut s = session();
    s.step(SessionEvent::ClientAccepted);
    s.step(SessionEvent::Received(MessageType::SetThrottle(1.0f32.to_bits())));

    let effects = s.step(SessionEvent::ReadFailed);
    assert_eq!(SessionState::WaitingForClient, s.state());
    assert_eq!(0, s.steering_bits());
    assert_eq!(0, s.throttle_bits());
    // Only the throttle had left neutral, so only it is written back.
    assert_eq!(
        effects,
        vec![Effect::HwWrite { channel: ServoChannel::Throttle, duty: 307 }]
    );
}

#[test]
fn repeated_command_notifies_nobody() {
    let mut s = session();
    s.step(SessionEvent::ClientAccepted);
    let first = s.step(SessionEvent::Received(MessageType::SetSteering(0.5f32.to_bits())));
    assert_eq!(1, first.len());
    let again = s.step(SessionEvent::Received(MessageType::SetSteering(0.5f32.to_bits())));
    assert!(again.is_empty());
}

#[test]
fn telemetry_listener_reports_changes() {
    let mut s = session();
    s.add_steering_listener(CoreListener::Logger { id: 7 });
    s.step(SessionEvent::ClientAccepted);

    let bits = 0.25f32.to_bits();
    let effects = s.step(SessionEvent::Received(MessageType::SetSteering(bits)));
    assert_eq!(
        effects,
        vec![
            Effect::HwWrite { channel: ServoChannel::Steering, duty: 332 },
            Effect::LogValue { id: 7, bits },
        ]
    );
}

#[test]
fn detached_binding_writes_nothing() {
    let mut s = session();
    s.add_throttle_listener(CoreListener::Binding {
        channel: ServoChannel::Throttle,
        config: throttle_config(),
        factor_micro: 1_000_000,
        attached: false,
    });
    s.step(SessionEvent::ClientAccepted);

    let effects = s.step(SessionEvent::Received(MessageType::SetThrottle(0.3f32.to_bits())));
    // The live binding writes; the detached one stays silent.
    assert_eq!(
        effects,
        vec![Effect::HwWrite { channel: ServoChannel::Throttle, duty: 338 }]
    );
}
