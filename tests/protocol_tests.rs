use vacuum_launcher::config::Config;
use vacuum_launcher::protocol::{
    action_response, handle_command, validate_command, Action, ConnectionEffect, ConnectionEvent,
    ConnectionState, IpcCommand, IpcResponse, Plan, MAX_MESSAGE_BYTES,
};
use vacuum_launcher::state::VacuumState;

fn decided(c: IpcCommand) -> (ConnectionState, ConnectionEffect) {
    let config = Config::default();
    let (s, e) = ConnectionState::Reading.step(ConnectionEvent::Received(20), &config);
    assert!(matches!(s, ConnectionState::Decoding));
    assert!(matches!(e, ConnectionEffect::Decode(20)));
    s.step(ConnectionEvent::Decoded(Ok(c)), &config)
}

fn error_text(e: &ConnectionEffect) -> String {
    match e {
        ConnectionEffect::Reply(IpcResponse::Error(m)) => m.clone(),
        other => panic!("expected an error reply, got {:?}", other),
    }
}

#[test]
fn volume_above_100_rejected_without_action() {
    let (s, e) = decided(IpcCommand::SetVolume(150));
    assert!(matches!(s, ConnectionState::Closed));
    assert_eq!(error_text(&e), "Volume must be between 0 and 100");
    assert_eq!(
        validate_command(&IpcCommand::SetVolume(101)).unwrap_err(),
        "Volume must be between 0 and 100"
    );
}

#[test]
fn volume_bounds_accepted() {
    for v in [0u8, 100] {
        let (s, e) = decided(IpcCommand::SetVolume(v));
        assert!(matches!(e, ConnectionEffect::Invoke(Action::SetVolume(x)) if x == v));
        assert!(matches!(s, ConnectionState::Acting(Action::SetVolume(x)) if x == v));
        let (s, e) = s.step(ConnectionEvent::ActionFinished(Ok(false)), &Config::default());
        assert!(matches!(s, ConnectionState::Closed));
        assert!(matches!(e, ConnectionEffect::Reply(IpcResponse::Success)));
    }
}

#[test]
fn launch_url_validation() {
    let (_, e) = decided(IpcCommand::LaunchUrl(String::new()));
    assert_eq!(error_text(&e), "URL cannot be empty");
    let (_, e) = decided(IpcCommand::LaunchUrl("ftp://x".to_string()));
    assert_eq!(error_text(&e), "URL must start with http:// or https://");
    let (s, e) = decided(IpcCommand::LaunchUrl("https://example.com".to_string()));
    match e {
        ConnectionEffect::Invoke(Action::LaunchUrl { url, browser }) => {
            assert_eq!(url, "https://example.com");
            assert_eq!(browser, "firefox");
        }
        other => panic!("expected dispatch, got {:?}", other),
    }
    assert!(matches!(s, ConnectionState::Acting(_)));
    assert!(validate_command(&IpcCommand::LaunchUrl("http://a".to_string())).is_ok());
}

#[test]
fn get_state_at_startup_returns_placeholders() {
    let (s, e) = decided(IpcCommand::GetState);
    assert!(matches!(e, ConnectionEffect::ReadStore));
    let (s, e) = s.step(ConnectionEvent::StateRead(VacuumState::default()), &Config::default());
    assert!(matches!(s, ConnectionState::Closed));
    match e {
        ConnectionEffect::Reply(IpcResponse::State(st)) => {
            assert_eq!(st.system_info.os_name, "Loading...");
            assert_eq!(st.volume_state.level_percent, 50);
            assert!(!st.toggles.wifi_enabled);
            assert_eq!(st.weather_info.location_display, "Loading...");
        }
        other => panic!("expected a state reply, got {:?}", other),
    }
}

#[test]
fn malformed_payload_answers_error() {
    let config = Config::default();
    let (s, e) = ConnectionState::Decoding
        .step(ConnectionEvent::Decoded(Err("EOF while parsing".to_string())), &config);
    assert!(matches!(s, ConnectionState::Closed));
    assert_eq!(error_text(&e), "Invalid message format: EOF while parsing");
}

#[test]
fn empty_and_oversized_reads() {
    let config = Config::default();
    let (s, e) = ConnectionState::Reading.step(ConnectionEvent::Received(0), &config);
    assert!(matches!(s, ConnectionState::Closed));
    assert!(matches!(e, ConnectionEffect::Close));
    let (s, e) = ConnectionState::Reading.step(ConnectionEvent::Received(MAX_MESSAGE_BYTES), &config);
    assert!(matches!(s, ConnectionState::Closed));
    assert_eq!(error_text(&e), "Message too large");
    let (_, e) = ConnectionState::Reading.step(ConnectionEvent::Received(4095), &config);
    assert!(matches!(e, ConnectionEffect::Decode(4095)));
}

#[test]
fn out_of_order_event_closes() {
    let config = Config::default();
    let (s, e) = ConnectionState::Reading.step(ConnectionEvent::ActionFinished(Ok(true)), &config);
    assert!(matches!(s, ConnectionState::Closed));
    assert!(matches!(e, ConnectionEffect::Close));
    let (_, e) = ConnectionState::Closed.step(ConnectionEvent::Received(5), &config);
    assert!(matches!(e, ConnectionEffect::Close));
}

#[test]
fn overlay_toggle_acknowledged() {
    let (s, e) = decided(IpcCommand::ToggleOverlay);
    assert!(matches!(s, ConnectionState::Closed));
    assert!(matches!(e, ConnectionEffect::Reply(IpcResponse::Success)));
}

#[test]
fn dispatch_table() {
    let mut config = Config::default();
    assert!(matches!(handle_command(IpcCommand::ToggleMute, &config), Plan::Invoke(Action::ToggleMute)));
    assert!(matches!(handle_command(IpcCommand::ToggleWifi, &config), Plan::Invoke(Action::ToggleWifi)));
    assert!(matches!(
        handle_command(IpcCommand::ToggleBluetooth, &config),
        Plan::Invoke(Action::ToggleBluetooth)
    ));
    assert!(matches!(handle_command(IpcCommand::Logout, &config), Plan::Invoke(Action::Logout)));
    assert!(matches!(handle_command(IpcCommand::Reboot, &config), Plan::Invoke(Action::Reboot)));
    assert!(matches!(handle_command(IpcCommand::Shutdown, &config), Plan::Invoke(Action::Shutdown)));
    match handle_command(IpcCommand::LaunchRofi, &config) {
        Plan::Invoke(Action::LaunchRofi(c)) => assert_eq!(c, "rofi -show drun"),
        other => panic!("unexpected {:?}", other),
    }
    match handle_command(IpcCommand::ToggleVpn, &config) {
        Plan::Invoke(Action::ToggleVpn(n)) => assert_eq!(n, "vpn"),
        other => panic!("unexpected {:?}", other),
    }
    config.network.vpn_name = Some("work".to_string());
    match handle_command(IpcCommand::ToggleVpn, &config) {
        Plan::Invoke(Action::ToggleVpn(n)) => assert_eq!(n, "work"),
        other => panic!("unexpected {:?}", other),
    }
    assert!(matches!(handle_command(IpcCommand::GetState, &config), Plan::ReadState));
}

#[test]
fn action_outcomes() {
    assert!(matches!(
        action_response(&Action::ToggleWifi, Ok(true)),
        IpcResponse::ToggleResult(true)
    ));
    assert!(matches!(
        action_response(&Action::ToggleVpn("v".to_string()), Ok(false)),
        IpcResponse::ToggleResult(false)
    ));
    assert!(matches!(action_response(&Action::Reboot, Ok(true)), IpcResponse::Success));
    match action_response(&Action::ToggleMute, Err("pactl missing".to_string())) {
        IpcResponse::Error(m) => assert_eq!(m, "pactl missing"),
        other => panic!("unexpected {:?}", other),
    }
}
