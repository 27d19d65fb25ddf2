use vacuum_launcher::config::{Config, LinkConfig};
use vacuum_launcher::state::{
    AudioStatus, DiskInfo, Domain, NetworkStatus, Reading, Toggles, VacuumState, VolumeState,
};
use vacuum_launcher::tasks::{install_shortcuts, PeriodicTask, TaskEvent, TaskKind, TaskStep};

fn disk(dev: &str) -> DiskInfo {
    DiskInfo {
        device: dev.to_string(),
        mountpoint: "/".to_string(),
        fs_type: "unknown".to_string(),
        used_bytes: 10,
        total_bytes: 20,
    }
}

#[test]
fn placeholder_state() {
    let s = VacuumState::default();
    assert_eq!(s.system_info.os_name, "Loading...");
    assert_eq!(s.system_info.hostname, "Loading...");
    assert_eq!(s.system_info.cpu_cores, 0);
    assert_eq!(s.volume_state.level_percent, 50);
    assert!(!s.volume_state.muted);
    assert!(!s.toggles.wifi_enabled);
    assert!(!s.toggles.vpn_connected);
    assert!(!s.toggles.bluetooth_enabled);
    assert!(s.storage_info.is_empty());
    assert_eq!(s.network_status.ip_address, "0.0.0.0");
    assert_eq!(s.network_status.link_state, "disconnected");
    assert_eq!(s.network_traffic.interface, "");
    assert_eq!(s.audio_status.source_name, "No source");
    assert_eq!(s.weather_info.condition, "Unknown");
    assert_eq!(s.user_info.username, "user");
    assert_eq!(s.launcher_shortcuts.left_links.len(), 3);
    assert_eq!(s.launcher_shortcuts.left_links[0].label, "GitHub");
    assert_eq!(s.launcher_shortcuts.rofi_command, "rofi -show drun");
}

#[test]
fn successful_collection_writes_through() {
    let mut s = VacuumState::default();
    s.record(Ok(Reading::Volume(VolumeState { level_percent: 80, muted: true })));
    assert_eq!(s.volume_state.level_percent, 80);
    assert!(s.volume_state.muted);
    s.record(Ok(Reading::Storage(vec![disk("/dev/sda1"), disk("/dev/sdb1")])));
    assert_eq!(s.storage_info.len(), 2);
    assert_eq!(s.storage_info[1].device, "/dev/sdb1");
    // Other domains are untouched.
    assert_eq!(s.system_info.os_name, "Loading...");
}

#[test]
fn failed_collection_keeps_stale_value() {
    let mut s = VacuumState::default();
    s.record(Ok(Reading::Toggles(Toggles { wifi_enabled: true, vpn_connected: false, bluetooth_enabled: true })));
    s.record(Err("nmcli not found".to_string()));
    assert!(s.toggles.wifi_enabled);
    assert!(s.toggles.bluetooth_enabled);
    assert_eq!(s.volume_state.level_percent, 50);
}

#[test]
fn storage_is_replaced_wholesale() {
    let mut s = VacuumState::default();
    s.record(Ok(Reading::Storage(vec![disk("a"), disk("b"), disk("c")])));
    s.record(Ok(Reading::Storage(vec![disk("d")])));
    assert_eq!(s.storage_info.len(), 1);
    assert_eq!(s.storage_info[0].device, "d");
}

#[test]
fn tasks_write_only_their_domains() {
    let mut s = VacuumState::default();
    let audio = PeriodicTask::new(TaskKind::Audio);
    audio.record(&mut s, Ok(Reading::Toggles(Toggles { wifi_enabled: true, vpn_connected: true, bluetooth_enabled: true })));
    assert!(!s.toggles.wifi_enabled);
    audio.record(&mut s, Ok(Reading::Audio(AudioStatus {
        source_name: "spotify".to_string(),
        track_title: "Song".to_string(),
        artist: "Band".to_string(),
        playing: true,
    })));
    assert_eq!(s.audio_status.source_name, "spotify");
    assert!(s.audio_status.playing);
    let network = PeriodicTask::new(TaskKind::Network);
    network.record(&mut s, Ok(Reading::NetworkStatus(NetworkStatus {
        interface: "wlan0".to_string(),
        ip_address: "10.0.0.2".to_string(),
        ssid: Some("home".to_string()),
        link_state: "connected".to_string(),
    })));
    assert_eq!(s.network_status.interface, "wlan0");
    assert!(TaskKind::SystemInfo.owns_domain(Domain::Storage));
    assert!(!TaskKind::Weather.owns_domain(Domain::System));
}

#[test]
fn task_periods() {
    let mut c = Config::default();
    assert_eq!(TaskKind::SystemInfo.interval_secs(&c), 5);
    assert_eq!(TaskKind::Network.interval_secs(&c), 2);
    assert_eq!(TaskKind::Audio.interval_secs(&c), 1);
    assert_eq!(TaskKind::Weather.interval_secs(&c), 900);
    c.weather.update_interval_minutes = 1440;
    assert_eq!(TaskKind::Weather.interval_secs(&c), 86400);
}

#[test]
fn shutdown_stops_task_for_good() {
    let mut t = PeriodicTask::new(TaskKind::Network);
    assert_eq!(t.on_event(TaskEvent::Tick), TaskStep::Collect);
    assert_eq!(t.on_event(TaskEvent::ShutdownSignal), TaskStep::Exit);
    assert_eq!(t.on_event(TaskEvent::Tick), TaskStep::Exit);
    let mut s = VacuumState::default();
    t.record(&mut s, Ok(Reading::NetworkStatus(NetworkStatus {
        interface: "eth0".to_string(),
        ip_address: "1.2.3.4".to_string(),
        ssid: None,
        link_state: "connected".to_string(),
    })));
    assert_eq!(s.network_status.interface, "Loading...");
}

#[test]
fn shortcuts_copied_from_config() {
    let mut c = Config::default();
    c.shortcuts.left_links = vec![LinkConfig {
        label: "Docs".to_string(),
        url: "https://docs.rs".to_string(),
        icon_name: "book".to_string(),
    }];
    c.shortcuts.rofi_command = "wofi --show drun".to_string();
    let mut s = VacuumState::default();
    install_shortcuts(&mut s, &c.shortcuts);
    assert_eq!(s.launcher_shortcuts.left_links.len(), 1);
    assert_eq!(s.launcher_shortcuts.left_links[0].label, "Docs");
    assert_eq!(s.launcher_shortcuts.left_links[0].url, "https://docs.rs");
    assert_eq!(s.launcher_shortcuts.left_links[0].icon_name, "book");
    assert_eq!(s.launcher_shortcuts.rofi_command, "wofi --show drun");
    assert_eq!(s.system_info.os_name, "Loading...");
}
