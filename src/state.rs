//! The aggregate state record and the values of each of its domains.

use vstd::prelude::*;
use crate::text::owned;

verus! {

/// Who is logged in, as shown by the front end.
#[derive(Debug, Clone)]
pub struct UserInfo {
    pub username: String,
    pub display_name: Option<String>,
    pub email: String,
    pub github_url: String,
    pub avatar_path: Option<String>,
}

/// A point-in-time description of the machine.
///
/// The CPU frequency is kept in MHz and the CPU load in hundredths of a
/// percent, so that the record holds integers only.
#[derive(Debug, Clone)]
pub struct SystemInfo {
    pub os_name: String,
    pub hostname: String,
    pub cpu_model: String,
    pub cpu_cores: u32,
    pub cpu_freq_mhz: u64,
    pub cpu_load_centipercent: u32,
    pub ram_used_bytes: u64,
    pub ram_total_bytes: u64,
    pub gpu_vendor: String,
    pub gpu_model: String,
    pub gpu_vram_used_bytes: u64,
    pub gpu_vram_total_bytes: u64,
}

/// One mounted file system.
#[derive(Debug, Clone)]
pub struct DiskInfo {
    pub device: String,
    pub mountpoint: String,
    pub fs_type: String,
    pub used_bytes: u64,
    pub total_bytes: u64,
}

/// The interface that carries the default route, and its address.
#[derive(Debug, Clone)]
pub struct NetworkStatus {
    pub interface: String,
    pub ip_address: String,
    pub ssid: Option<String>,
    pub link_state: String,
}

/// Traffic on one interface since the previous sample.
///
/// `rx_bytes` and `tx_bytes` are the byte counts received and sent since the
/// previous sample of the same interface; the rate in kbps per sample is the
/// count divided by 1024.
#[derive(Debug, Clone)]
pub struct NetworkTraffic {
    pub interface: String,
    pub rx_bytes: u64,
    pub tx_bytes: u64,
}

/// What the media player is playing.
#[derive(Debug, Clone)]
pub struct AudioStatus {
    pub source_name: String,
    pub track_title: String,
    pub artist: String,
    pub playing: bool,
}

/// The default sink's volume.
#[derive(Debug, Clone)]
pub struct VolumeState {
    pub level_percent: u8,
    pub muted: bool,
}

/// The weather at the configured location.
#[derive(Debug, Clone)]
pub struct WeatherInfo {
    pub location_display: String,
    pub temperature_c: i32,
    pub condition: String,
    pub icon_name: Option<String>,
}

/// The launcher's link buttons and the application launcher command.
#[derive(Debug, Clone)]
pub struct LauncherShortcuts {
    pub left_links: Vec<LinkButton>,
    pub rofi_command: String,
}

/// One link button of the launcher.
#[derive(Debug, Clone)]
pub struct LinkButton {
    pub label: String,
    pub url: String,
    pub icon_name: String,
}

/// Radio and tunnel switches.
#[derive(Debug, Clone)]
pub struct Toggles {
    pub wifi_enabled: bool,
    pub vpn_connected: bool,
    pub bluetooth_enabled: bool,
}

/// The aggregate record: the latest known value of every domain.
#[derive(Debug, Clone)]
pub struct VacuumState {
    pub user_info: UserInfo,
    pub system_info: SystemInfo,
    pub storage_info: Vec<DiskInfo>,
    pub network_status: NetworkStatus,
    pub network_traffic: NetworkTraffic,
    pub audio_status: AudioStatus,
    pub volume_state: VolumeState,
    pub weather_info: WeatherInfo,
    pub launcher_shortcuts: LauncherShortcuts,
    pub toggles: Toggles,
}

/// The domains that periodic collectors refresh.
#[derive(Debug, Clone, Copy, PartialEq, Eq, Structural)]
pub enum Domain {
    User,
    System,
    Storage,
    NetworkStatus,
    NetworkTraffic,
    Audio,
    Volume,
    Weather,
    Toggles,
}

/// A fresh value of one domain, as a collector returns it.
#[derive(Debug, Clone)]
pub enum Reading {
    User(UserInfo),
    System(SystemInfo),
    Storage(Vec<DiskInfo>),
    NetworkStatus(NetworkStatus),
    NetworkTraffic(NetworkTraffic),
    Audio(AudioStatus),
    Volume(VolumeState),
    Weather(WeatherInfo),
    Toggles(Toggles),
}

impl Reading {
    /// The domain this value belongs to.
    pub open spec fn domain(self) -> Domain {
        match self {
            Reading::User(_) => Domain::User,
            Reading::System(_) => Domain::System,
            Reading::Storage(_) => Domain::Storage,
            Reading::NetworkStatus(_) => Domain::NetworkStatus,
            Reading::NetworkTraffic(_) => Domain::NetworkTraffic,
            Reading::Audio(_) => Domain::Audio,
            Reading::Volume(_) => Domain::Volume,
            Reading::Weather(_) => Domain::Weather,
            Reading::Toggles(_) => Domain::Toggles,
        }
    }

    /// The domain this value belongs to.
    pub fn domain_of(&self) -> (d: Domain)
        ensures
            d == self.domain(),
    {
        match self {
            Reading::User(_) => Domain::User,
            Reading::System(_) => Domain::System,
            Reading::Storage(_) => Domain::Storage,
            Reading::NetworkStatus(_) => Domain::NetworkStatus,
            Reading::NetworkTraffic(_) => Domain::NetworkTraffic,
            Reading::Audio(_) => Domain::Audio,
            Reading::Volume(_) => Domain::Volume,
            Reading::Weather(_) => Domain::Weather,
            Reading::Toggles(_) => Domain::Toggles,
        }
    }
}

impl VacuumState {
    /// The current value of domain `d`.
    pub open spec fn reading_of(self, d: Domain) -> Reading {
        match d {
            Domain::User => Reading::User(self.user_info),
            Domain::System => Reading::System(self.system_info),
            Domain::Storage => Reading::Storage(self.storage_info),
            Domain::NetworkStatus => Reading::NetworkStatus(self.network_status),
            Domain::NetworkTraffic => Reading::NetworkTraffic(self.network_traffic),
            Domain::Audio => Reading::Audio(self.audio_status),
            Domain::Volume => Reading::Volume(self.volume_state),
            Domain::Weather => Reading::Weather(self.weather_info),
            Domain::Toggles => Reading::Toggles(self.toggles),
        }
    }

    /// The record with the domain of `r` replaced wholesale by `r`.
    pub open spec fn with_reading(self, r: Reading) -> VacuumState {
        match r {
            Reading::User(v) => VacuumState { user_info: v, ..self },
            Reading::System(v) => VacuumState { system_info: v, ..self },
            Reading::Storage(v) => VacuumState { storage_info: v, ..self },
            Reading::NetworkStatus(v) => VacuumState { network_status: v, ..self },
            Reading::NetworkTraffic(v) => VacuumState { network_traffic: v, ..self },
            Reading::Audio(v) => VacuumState { audio_status: v, ..self },
            Reading::Volume(v) => VacuumState { volume_state: v, ..self },
            Reading::Weather(v) => VacuumState { weather_info: v, ..self },
            Reading::Toggles(v) => VacuumState { toggles: v, ..self },
        }
    }

    /// The record after a collector's outcome: a fresh value replaces its
    /// domain, a failure leaves the record as it was.
    pub open spec fn after_outcome(self, outcome: Result<Reading, String>) -> VacuumState {
        match outcome {
            Ok(r) => self.with_reading(r),
            Err(_) => self,
        }
    }

    /// Writes a collector's outcome into the record.
    pub fn record(&mut self, outcome: Result<Reading, String>)
        ensures
            *final(self) == old(self).after_outcome(outcome),
    {
        match outcome {
            Ok(Reading::User(v)) => self.user_info = v,
            Ok(Reading::System(v)) => self.system_info = v,
            Ok(Reading::Storage(v)) => self.storage_info = v,
            Ok(Reading::NetworkStatus(v)) => self.network_status = v,
            Ok(Reading::NetworkTraffic(v)) => self.network_traffic = v,
            Ok(Reading::Audio(v)) => self.audio_status = v,
            Ok(Reading::Volume(v)) => self.volume_state = v,
            Ok(Reading::Weather(v)) => self.weather_info = v,
            Ok(Reading::Toggles(v)) => self.toggles = v,
            Err(_) => {},
        }
    }
}

impl Default for UserInfo {
    fn default() -> (r: Self)
        ensures
            r.username@ == "user"@,
            r.display_name is None,
            r.email@ == "user@example.com"@,
            r.github_url@ == "https://github.com"@,
            r.avatar_path is None,
    {
        UserInfo {
            username: owned("user"),
            display_name: None,
            email: owned("user@example.com"),
            github_url: owned("https://github.com"),
            avatar_path: None,
        }
    }
}

impl Default for SystemInfo {
    fn default() -> (r: Self)
        ensures
            r.os_name@ == "Loading..."@,
            r.hostname@ == "Loading..."@,
            r.cpu_model@ == "Loading..."@,
            r.cpu_cores == 0,
            r.cpu_freq_mhz == 0,
            r.cpu_load_centipercent == 0,
            r.ram_used_bytes == 0,
            r.ram_total_bytes == 0,
            r.gpu_vendor@ == "Loading..."@,
            r.gpu_model@ == "Loading..."@,
            r.gpu_vram_used_bytes == 0,
            r.gpu_vram_total_bytes == 0,
    {
        SystemInfo {
            os_name: owned("Loading..."),
            hostname: owned("Loading..."),
            cpu_model: owned("Loading..."),
            cpu_cores: 0,
            cpu_freq_mhz: 0,
            cpu_load_centipercent: 0,
            ram_used_bytes: 0,
            ram_total_bytes: 0,
            gpu_vendor: owned("Loading..."),
            gpu_model: owned("Loading..."),
            gpu_vram_used_bytes: 0,
            gpu_vram_total_bytes: 0,
        }
    }
}

impl Default for NetworkStatus {
    fn default() -> (r: Self)
        ensures
            r.interface@ == "Loading..."@,
            r.ip_address@ == "0.0.0.0"@,
            r.ssid is None,
            r.link_state@ == "disconnected"@,
    {
        NetworkStatus {
            interface: owned("Loading..."),
            ip_address: owned("0.0.0.0"),
            ssid: None,
            link_state: owned("disconnected"),
        }
    }
}

impl Default for NetworkTraffic {
    fn default() -> (r: Self)
        ensures
            r.interface@ == Seq::<char>::empty(),
            r.rx_bytes == 0,
            r.tx_bytes == 0,
    {
        NetworkTraffic { interface: String::new(), rx_bytes: 0, tx_bytes: 0 }
    }
}

impl Default for AudioStatus {
    fn default() -> (r: Self)
        ensures
            r.source_name@ == "No source"@,
            r.track_title@ == "Unknown"@,
            r.artist@ == "Unknown"@,
            !r.playing,
    {
        AudioStatus {
            source_name: owned("No source"),
            track_title: owned("Unknown"),
            artist: owned("Unknown"),
            playing: false,
        }
    }
}

impl Default for VolumeState {
    fn default() -> (r: Self)
        ensures
            r.level_percent == 50,
            !r.muted,
    {
        VolumeState { level_percent: 50, muted: false }
    }
}

impl Default for WeatherInfo {
    fn default() -> (r: Self)
        ensures
            r.location_display@ == "Loading..."@,
            r.temperature_c == 0,
            r.condition@ == "Unknown"@,
            r.icon_name is None,
    {
        WeatherInfo {
            location_display: owned("Loading..."),
            temperature_c: 0,
            condition: owned("Unknown"),
            icon_name: None,
        }
    }
}

impl LinkButton {
    /// The button shows `label`, opens `url` and carries icon `icon`.
    pub open spec fn is(self, label: Seq<char>, url: Seq<char>, icon: Seq<char>) -> bool {
        &&& self.label@ == label
        &&& self.url@ == url
        &&& self.icon_name@ == icon
    }

    /// A button from its three texts.
    pub fn new(label: &str, url: &str, icon_name: &str) -> (r: LinkButton)
        ensures
            r.is(label@, url@, icon_name@),
    {
        LinkButton { label: owned(label), url: owned(url), icon_name: owned(icon_name) }
    }
}

impl Default for LauncherShortcuts {
    fn default() -> (r: Self)
        ensures
            r.left_links@.len() == 3,
            r.left_links@[0].is("GitHub"@, "https://github.com"@, "github"@),
            r.left_links@[1].is("Mail"@, "https://protonmail.com"@, "mail"@),
            r.left_links@[2].is("OSV"@, "https://onyxdigital.dev/OnyxOSV"@, "osv"@),
            r.rofi_command@ == "rofi -show drun"@,
    {
        let mut left_links: Vec<LinkButton> = Vec::new();
        left_links.push(LinkButton::new("GitHub", "https://github.com", "github"));
        left_links.push(LinkButton::new("Mail", "https://protonmail.com", "mail"));
        left_links.push(LinkButton::new("OSV", "https://onyxdigital.dev/OnyxOSV", "osv"));
        LauncherShortcuts { left_links, rofi_command: owned("rofi -show drun") }
    }
}

impl Default for Toggles {
    fn default() -> (r: Self)
        ensures
            !r.wifi_enabled,
            !r.vpn_connected,
            !r.bluetooth_enabled,
    {
        Toggles { wifi_enabled: false, vpn_connected: false, bluetooth_enabled: false }
    }
}

impl VacuumState {
    /// Every domain holds its placeholder: the "Loading..." texts, zeroed
    /// numbers, volume at half, all switches off, no disks, and the built-in
    /// shortcuts.
    pub open spec fn is_placeholder(self) -> bool {
        &&& self.user_info.username@ == "user"@
        &&& self.user_info.display_name is None
        &&& self.user_info.email@ == "user@example.com"@
        &&& self.user_info.github_url@ == "https://github.com"@
        &&& self.user_info.avatar_path is None
        &&& self.system_info.os_name@ == "Loading..."@
        &&& self.system_info.hostname@ == "Loading..."@
        &&& self.system_info.cpu_model@ == "Loading..."@
        &&& self.system_info.cpu_cores == 0
        &&& self.system_info.cpu_freq_mhz == 0
        &&& self.system_info.cpu_load_centipercent == 0
        &&& self.system_info.ram_used_bytes == 0
        &&& self.system_info.ram_total_bytes == 0
        &&& self.system_info.gpu_vendor@ == "Loading..."@
        &&& self.system_info.gpu_model@ == "Loading..."@
        &&& self.system_info.gpu_vram_used_bytes == 0
        &&& self.system_info.gpu_vram_total_bytes == 0
        &&& self.storage_info@.len() == 0
        &&& self.network_status.interface@ == "Loading..."@
        &&& self.network_status.ip_address@ == "0.0.0.0"@
        &&& self.network_status.ssid is None
        &&& self.network_status.link_state@ == "disconnected"@
        &&& self.network_traffic.interface@ == Seq::<char>::empty()
        &&& self.network_traffic.rx_bytes == 0
        &&& self.network_traffic.tx_bytes == 0
        &&& self.audio_status.source_name@ == "No source"@
        &&& self.audio_status.track_title@ == "Unknown"@
        &&& self.audio_status.artist@ == "Unknown"@
        &&& !self.audio_status.playing
        &&& self.volume_state.level_percent == 50
        &&& !self.volume_state.muted
        &&& self.weather_info.location_display@ == "Loading..."@
        &&& self.weather_info.temperature_c == 0
        &&& self.weather_info.condition@ == "Unknown"@
        &&& self.weather_info.icon_name is None
        &&& self.launcher_shortcuts.left_links@.len() == 3
        &&& self.launcher_shortcuts.left_links@[0].is("GitHub"@, "https://github.com"@, "github"@)
        &&& self.launcher_shortcuts.left_links@[1].is("Mail"@, "https://protonmail.com"@, "mail"@)
        &&& self.launcher_shortcuts.left_links@[2].is(
            "OSV"@,
            "https://onyxdigital.dev/OnyxOSV"@,
            "osv"@,
        )
        &&& self.launcher_shortcuts.rofi_command@ == "rofi -show drun"@
        &&& !self.toggles.wifi_enabled
        &&& !self.toggles.vpn_connected
        &&& !self.toggles.bluetooth_enabled
    }
}

impl Default for VacuumState {
    fn default() -> (r: Self)
        ensures
            r.is_placeholder(),
    {
        VacuumState {
            user_info: UserInfo::default(),
            system_info: SystemInfo::default(),
            storage_info: Vec::new(),
            network_status: NetworkStatus::default(),
            network_traffic: NetworkTraffic::default(),
            audio_status: AudioStatus::default(),
            volume_state: VolumeState::default(),
            weather_info: WeatherInfo::default(),
            launcher_shortcuts: LauncherShortcuts::default(),
            toggles: Toggles::default(),
        }
    }
}

/// A refreshed domain holds exactly the collector's value, and every other
/// domain, and the shortcuts, keep theirs.
pub proof fn lemma_write_through(s: VacuumState, r: Reading)
    ensures
        s.with_reading(r).reading_of(r.domain()) == r,
        forall|d: Domain| d != r.domain() ==> s.with_reading(r).reading_of(d) == s.reading_of(d),
        s.with_reading(r).launcher_shortcuts == s.launcher_shortcuts,
{
}

/// A failed collection leaves every domain with the value it had before.
pub proof fn lemma_stale_preservation(s: VacuumState, e: String)
    ensures
        forall|d: Domain| s.after_outcome(Err(e)).reading_of(d) == s.reading_of(d),
{
}

} // verus!
