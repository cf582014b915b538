use discord2::session::{ClientMessage, DiscordDriver, DriverAction, DriverEvent};

fn text_of(a: &DriverAction) -> Option<(String, String)> {
    match a {
        DriverAction::StartSession { message, server_ip } => Some((message.text(), server_ip.clone())),
        DriverAction::EndSession { message } => Some((message.text(), String::new())),
        _ => None,
    }
}

#[test]
fn initial_state() {
    let d = DiscordDriver::new();
    assert!(!d.is_connected);
    assert!(!d.can_send_audio);
    assert_eq!(d.server_ip, "127.0.0.1:3000");
    assert_eq!(d.user_name, "Username Not Set");
    assert!(!d.is_audio_debug);
    assert!(!d.audio_settings_changed);
}

#[test]
fn default_state_is_empty() {
    let d = DiscordDriver::default();
    assert_eq!(d.server_ip, "");
    assert_eq!(d.user_name, "");
    assert!(!d.can_send_audio);
}

#[test]
fn message_texts() {
    assert_eq!(ClientMessage::Username("alice".to_string()).text(), "username:alice");
    assert_eq!(ClientMessage::Heartbeat.text(), "hb");
    assert_eq!(ClientMessage::Disconnect.text(), "disconnect");
}

#[test]
fn connect_binds_then_announces_user() {
    let mut d = DiscordDriver::new();
    d.step(DriverEvent::UsernameSet("bob".to_string()));
    d.step(DriverEvent::ServerIpSet("10.0.0.2:3000".to_string()));
    assert!(matches!(d.step(DriverEvent::ConnectRequested), DriverAction::BindSocket));
    let a = d.step(DriverEvent::SocketBound);
    assert_eq!(text_of(&a), Some(("username:bob".to_string(), "10.0.0.2:3000".to_string())));
    assert!(d.can_send_audio);
}

#[test]
fn second_connect_is_refused() {
    let mut d = DiscordDriver::new();
    d.step(DriverEvent::SocketBound);
    assert!(matches!(d.step(DriverEvent::ConnectRequested), DriverAction::RefuseAlreadySending));
}

#[test]
fn session_check_is_quiet_while_sending() {
    let mut d = DiscordDriver::new();
    d.step(DriverEvent::SocketBound);
    assert!(matches!(d.step(DriverEvent::SessionCheck), DriverAction::Nothing));
}

#[test]
fn disconnect_ends_session_at_next_check() {
    let mut d = DiscordDriver::new();
    d.step(DriverEvent::SocketBound);
    d.is_connected = true;
    assert!(matches!(d.step(DriverEvent::DisconnectRequested), DriverAction::Nothing));
    let a = d.step(DriverEvent::SessionCheck);
    assert_eq!(text_of(&a), Some(("disconnect".to_string(), String::new())));
    assert!(!d.is_connected);
    assert!(matches!(d.step(DriverEvent::ConnectRequested), DriverAction::BindSocket));
}

#[test]
fn device_change_restarts_streams_once() {
    let mut d = DiscordDriver::new();
    d.step(DriverEvent::AudioSettingsChanged);
    assert!(d.audio_settings_changed);
    assert!(matches!(d.step(DriverEvent::SettingsCheck), DriverAction::RestartStreams));
    assert!(matches!(d.step(DriverEvent::SettingsCheck), DriverAction::Nothing));
}

#[test]
fn audio_test_stops_when_asked() {
    let mut d = DiscordDriver::new();
    d.step(DriverEvent::AudioTestStarted);
    assert!(matches!(d.step(DriverEvent::AudioTestCheck), DriverAction::Nothing));
    d.step(DriverEvent::AudioTestStopped);
    assert!(matches!(d.step(DriverEvent::AudioTestCheck), DriverAction::StopAudioTest));
}

#[test]
fn no_session_during_audio_test() {
    let mut d = DiscordDriver::new();
    d.step(DriverEvent::AudioTestStarted);
    assert!(matches!(d.step(DriverEvent::ConnectRequested), DriverAction::RefuseAudioTestRunning));
    assert!(!d.can_send_audio);
    d.step(DriverEvent::AudioTestStopped);
    assert!(matches!(d.step(DriverEvent::ConnectRequested), DriverAction::BindSocket));
}
