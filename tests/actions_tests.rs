use vacuum_launcher::actions::{percent_text, ActionHandler, ExternalCommand};
use vacuum_launcher::visualizer::{AudioVisualizer, FrameKind};

fn parts(c: &ExternalCommand) -> (String, Vec<String>, bool) {
    (c.program.clone(), c.args.clone(), c.detached)
}

fn strs(v: &[&str]) -> Vec<String> {
    v.iter().map(|s| s.to_string()).collect()
}

#[test]
fn power_commands() {
    let a = ActionHandler::new();
    assert_eq!(parts(&a.reboot()), ("systemctl".to_string(), strs(&["reboot"]), false));
    assert_eq!(parts(&a.shutdown()), ("systemctl".to_string(), strs(&["poweroff"]), false));
    assert_eq!(parts(&a.logout("ann")), ("loginctl".to_string(), strs(&["terminate-user", "ann"]), false));
}

#[test]
fn toggles_flip_state() {
    let a = ActionHandler::new();
    let (c, now) = a.toggle_wifi(true);
    assert_eq!(parts(&c), ("nmcli".to_string(), strs(&["radio", "wifi", "off"]), false));
    assert!(!now);
    let (c, now) = a.toggle_bluetooth(false);
    assert_eq!(parts(&c), ("bluetoothctl".to_string(), strs(&["power", "on"]), false));
    assert!(now);
    let (c, now) = a.toggle_vpn("work", true);
    assert_eq!(parts(&c), ("nmcli".to_string(), strs(&["connection", "down", "work"]), false));
    assert!(!now);
    let (c, _) = a.toggle_vpn("work", false);
    assert_eq!(c.args[1], "up");
}

#[test]
fn volume_commands() {
    let a = ActionHandler::new();
    assert_eq!(
        parts(&a.set_volume(75)),
        ("pactl".to_string(), strs(&["set-sink-volume", "@DEFAULT_SINK@", "75%"]), false)
    );
    assert_eq!(a.set_volume(200).args[2], "100%");
    assert_eq!(percent_text(0), "0%");
    assert_eq!(percent_text(7), "7%");
    assert_eq!(percent_text(100), "100%");
    assert_eq!(percent_text(255), "100%");
    assert_eq!(
        parts(&a.toggle_mute()),
        ("pactl".to_string(), strs(&["set-sink-mute", "@DEFAULT_SINK@", "toggle"]), false)
    );
}

#[test]
fn status_outputs() {
    let a = ActionHandler::new();
    assert!(a.check_wifi_status("enabled\n"));
    assert!(!a.check_wifi_status("disabled\n"));
    assert!(a.check_bluetooth_status("Controller X\n\tPowered: yes\n"));
    assert!(!a.check_bluetooth_status("\tPowered: no\n"));
    assert!(a.check_vpn_status("NAME UUID\nwork 1234 vpn\n", "work"));
    assert!(!a.check_vpn_status("NAME UUID\nhome 1234 wifi\n", "work"));
    assert!(a.check_mute_status("Mute: yes\n"));
    assert!(!a.check_mute_status("Mute: no\n"));
}

#[test]
fn launchers_are_detached() {
    let a = ActionHandler::new();
    assert_eq!(parts(&a.launch_rofi("rofi -show drun")), ("sh".to_string(), strs(&["-c", "rofi -show drun"]), true));
    assert_eq!(
        parts(&a.launch_url("https://example.com", "firefox")),
        ("firefox".to_string(), strs(&["https://example.com"]), true)
    );
}

#[test]
fn visualizer_lifecycle() {
    let mut v = AudioVisualizer::new(16);
    assert!(!v.is_enabled());
    assert_eq!(v.next_frame(), FrameKind::Silent);
    assert!(v.initialize().is_ok());
    assert!(v.is_enabled());
    assert_eq!(v.band_count(), 16);
    assert_eq!(v.next_frame(), FrameKind::Animated(16));
}
