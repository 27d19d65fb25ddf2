use vacuum_launcher::collectors::{
    audio_from_fields, audio_from_player, disk_row_from_words, check_virtual_fs, connected_status, disk_rows, gpu_from_lspci,
    interface_counters, pretty_name, route_from_output, toggles_from, user_info_from, volume_level,
    wants_ssid,
};
use vacuum_launcher::config::Config;
use vacuum_launcher::traffic::TrafficMeter;

#[test]
fn route_line_parsed() {
    let out = "8.8.8.8 via 192.168.1.1 dev wlp3s0 src 192.168.1.42 uid 1000 \n    cache \n";
    let (iface, ip) = route_from_output(out).unwrap();
    assert_eq!(iface, "wlp3s0");
    assert_eq!(ip, "192.168.1.42");
    assert!(wants_ssid(&iface));
    assert!(!wants_ssid("eth0"));
    let s = connected_status(iface, ip, Some("home".to_string()));
    assert_eq!(s.link_state, "connected");
    assert_eq!(s.ssid.as_deref(), Some("home"));
}

#[test]
fn route_missing_or_partial() {
    assert!(route_from_output("").is_none());
    assert!(route_from_output("unreachable\n").is_none());
    // "dev " and "src " occur but the keys have no value after them.
    let (iface, ip) = route_from_output("x dev y src ").unwrap();
    assert_eq!(iface, "y");
    assert_eq!(ip, "0.0.0.0");
}

#[test]
fn proc_net_dev_counters() {
    let stats = "Inter-|   Receive                                                |  Transmit\n face |bytes    packets errs drop fifo frame compressed multicast|bytes    packets errs drop fifo colls carrier compressed\n    lo: 1000 10 0 0 0 0 0 0 1000 10 0 0 0 0 0 0\n  eth0: 123456 100 0 0 0 0 0 0 654321 90 0 0 0 0 0 0\n";
    assert_eq!(interface_counters(stats, "eth0"), Some((123456, 654321)));
    assert_eq!(interface_counters(stats, "lo"), Some((1000, 1000)));
    assert_eq!(interface_counters(stats, "wlan0"), None);
    assert_eq!(interface_counters("  eth0: 1 2 3\n", "eth0"), None);
    assert_eq!(interface_counters("eth0: x 2 3 4 5 6 7 8 y 10\n", "eth0"), Some((0, 0)));
}

#[test]
fn traffic_tick_without_counters() {
    let mut m = TrafficMeter::new();
    let t = m.sample("eth0", None);
    assert_eq!((t.rx_bytes, t.tx_bytes), (0, 0));
    let t = m.sample("eth0", Some((10, 10)));
    assert_eq!((t.rx_bytes, t.tx_bytes), (0, 0));
    let t = m.sample("eth0", Some((2058, 1034)));
    assert_eq!((t.rx_bytes, t.tx_bytes), (2048, 1024));
}

#[test]
fn sink_volume() {
    let out = "Volume: front-left: 42597 /  65% / -11.23 dB,   front-right: 42597 /  65% / -11.23 dB\n        balance 0.00\n";
    assert_eq!(volume_level(out), 65);
    assert_eq!(volume_level(""), 50);
    assert_eq!(volume_level("Volume: 300% 20%\n"), 20);
    assert_eq!(volume_level("Volume: 150%\n"), 100);
    assert_eq!(volume_level("Volume: 30%\nVolume: 40%\n"), 40);
    assert_eq!(volume_level("Level: 30%\n"), 50);
}

#[test]
fn media_player_line() {
    let a = audio_from_player("spotify|Song|Band|Playing\n").unwrap();
    assert_eq!(a.source_name, "spotify");
    assert_eq!(a.track_title, "Song");
    assert_eq!(a.artist, "Band");
    assert!(a.playing);
    let a = audio_from_player("vlc|T|A|Paused").unwrap();
    assert!(!a.playing);
    assert!(audio_from_player("No players found").is_none());
    assert!(audio_from_player("  \n").is_none());
    assert!(audio_from_player("a|b|c").is_none());
}

#[test]
fn gpu_vendors() {
    let out = "00:02.0 VGA compatible controller: Intel Corporation UHD Graphics 620 (rev 07)\n";
    let (v, m) = gpu_from_lspci(out);
    assert_eq!(v, "Intel");
    assert_eq!(m, "Intel Corporation UHD Graphics 620 (rev 07)");
    let (v, _) = gpu_from_lspci("01:00.0 3D controller: NVIDIA Corporation GA107M\n");
    assert_eq!(v, "NVIDIA");
    let (v, _) = gpu_from_lspci("03:00.0 VGA compatible controller: Advanced Micro Devices [AMD/ATI] Radeon\n");
    assert_eq!(v, "AMD");
    let (v, m) = gpu_from_lspci("00:1f.3 Audio device: Intel\n");
    assert_eq!((v.as_str(), m.as_str()), ("Unknown", "Unknown GPU"));
}

#[test]
fn os_release_name() {
    let c = "NAME=\"Arch Linux\"\nPRETTY_NAME=\"Arch Linux\"\nID=arch\n";
    assert_eq!(pretty_name(c).as_deref(), Some("Arch Linux"));
    assert_eq!(pretty_name("ID=x\n"), None);
    assert_eq!(pretty_name("PRETTY_NAME=Plain\n").as_deref(), Some("Plain"));
}

#[test]
fn df_rows() {
    let out = "Filesystem      Size  Used Use% Mounted on\n/dev/nvme0n1p2  468G  120G  26% /\ntmpfs           7.8G     0   0% /dev/shm\n/dev/nvme0n1p1  511M   64M  13% /boot\nproc 0 0 - /proc\nshort line\n";
    let rows = disk_rows(out);
    assert_eq!(rows.len(), 2);
    assert_eq!(rows[0].device, "/dev/nvme0n1p2");
    assert_eq!(rows[0].size, "468G");
    assert_eq!(rows[0].used, "120G");
    assert_eq!(rows[0].mountpoint, "/");
    assert_eq!(rows[1].mountpoint, "/boot");
    assert!(disk_rows("").is_empty());
    assert!(check_virtual_fs("udev", "/dev"));
    assert!(check_virtual_fs("x", "/run/user"));
    assert!(!check_virtual_fs("/dev/sda1", "/home"));
}

#[test]
fn switches_from_outputs() {
    let t = toggles_from("enabled\n", "Controller\n\tPowered: yes\n", "NAME TYPE\nwg0 wireguard tun0\n");
    assert!(t.wifi_enabled);
    assert!(t.bluetooth_enabled);
    assert!(t.vpn_connected);
    let t = toggles_from("disabled", "Powered: no", "eth0 ethernet");
    assert!(!t.wifi_enabled && !t.bluetooth_enabled && !t.vpn_connected);
}

#[test]
fn user_record() {
    let mut c = Config::default();
    c.user.display_name = Some("Ann".to_string());
    let u = user_info_from("ann".to_string(), &c);
    assert_eq!(u.username, "ann");
    assert_eq!(u.display_name.as_deref(), Some("Ann"));
    assert_eq!(u.email, "user@example.com");
    assert!(u.avatar_path.is_none());
}

#[test]
fn split_results_to_records() {
    let fields: Vec<String> = ["mpv", "Track", "Artist", "Stopped", "extra"].iter().map(|s| s.to_string()).collect();
    let a = audio_from_fields(&fields).unwrap();
    assert_eq!(a.source_name, "mpv");
    assert!(!a.playing);
    assert!(audio_from_fields(&fields[..3].to_vec()).is_none());
    let words: Vec<String> = ["/dev/sda1", "100G", "40G", "40%", "/home"].iter().map(|s| s.to_string()).collect();
    let row = disk_row_from_words(&words).unwrap();
    assert_eq!((row.device.as_str(), row.size.as_str(), row.used.as_str(), row.mountpoint.as_str()), ("/dev/sda1", "100G", "40G", "/home"));
    let words: Vec<String> = ["tmpfs", "1G", "0", "0%", "/tmp"].iter().map(|s| s.to_string()).collect();
    assert!(disk_row_from_words(&words).is_none());
}
