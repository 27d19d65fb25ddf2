//! The daemon's configuration record, its defaults, and its validation.

use vstd::prelude::*;
use crate::text::{owned, join2, starts_with, contains_char, trim, trimmed};

verus! {

#[derive(Debug, Clone)]
pub struct Config {
    pub user: UserConfig,
    pub weather: WeatherConfig,
    pub shortcuts: ShortcutsConfig,
    pub network: NetworkConfig,
    pub hotkey: HotkeyConfig,
}

#[derive(Debug, Clone)]
pub struct UserConfig {
    pub display_name: Option<String>,
    pub email: String,
    pub github_url: String,
}

#[derive(Debug, Clone)]
pub struct WeatherConfig {
    pub location: String,
    pub api_key: Option<String>,
    pub provider: String,
    pub update_interval_minutes: u32,
}

#[derive(Debug, Clone)]
pub struct ShortcutsConfig {
    pub left_links: Vec<LinkConfig>,
    pub rofi_command: String,
    pub browser_command: String,
}

#[derive(Debug, Clone)]
pub struct LinkConfig {
    pub label: String,
    pub url: String,
    pub icon_name: String,
}

#[derive(Debug, Clone)]
pub struct NetworkConfig {
    pub monitor_interface: Option<String>,
    pub vpn_name: Option<String>,
}

#[derive(Debug, Clone)]
pub struct HotkeyConfig {
    pub toggle_overlay: String,
}

/// Why a configuration was refused. Each carries the offending link's URL.
#[derive(Debug, Clone)]
pub enum ConfigError {
    InvalidUrl(String),
    EmptyLabel(String),
}

impl ConfigError {
    /// A human-readable description of the fault.
    pub fn message(&self) -> (r: String)
        ensures
            r@ == match self {
                ConfigError::InvalidUrl(u) => "Invalid URL in shortcuts: '"@ + u@
                    + "' must start with http:// or https://"@,
                ConfigError::EmptyLabel(u) => "Shortcut label cannot be empty for URL: "@ + u@,
            },
    {
        match self {
            ConfigError::InvalidUrl(u) => {
                let mut r = join2("Invalid URL in shortcuts: '", u.as_str());
                r.append("' must start with http:// or https://");
                r
            },
            ConfigError::EmptyLabel(u) => join2("Shortcut label cannot be empty for URL: ", u.as_str()),
        }
    }
}

/// The smallest and largest accepted weather refresh interval, in minutes.
pub const MIN_WEATHER_INTERVAL_MINUTES: u32 = 1;
pub const MAX_WEATHER_INTERVAL_MINUTES: u32 = 1440;

/// `u` is a web address: it begins with `http://` or `https://`.
pub open spec fn is_web_url(u: Seq<char>) -> bool {
    "http://"@.is_prefix_of(u) || "https://"@.is_prefix_of(u)
}

/// Whether `u` begins with `http://` or `https://`.
pub fn check_web_url(u: &str) -> (r: bool)
    ensures
        r == is_web_url(u@),
{
    starts_with(u, "http://") || starts_with(u, "https://")
}

/// The fault of the first faulty link at or after position `i`, if any.
/// A link is faulty when its URL is not a web address, or else when its
/// label is empty.
pub open spec fn first_fault_from(links: Seq<LinkConfig>, i: int) -> Option<ConfigError>
    decreases links.len() - i,
{
    if i < 0 || i >= links.len() {
        None
    } else if !is_web_url(links[i].url@) {
        Some(ConfigError::InvalidUrl(links[i].url))
    } else if links[i].label@.len() == 0 {
        Some(ConfigError::EmptyLabel(links[i].url))
    } else {
        first_fault_from(links, i + 1)
    }
}

/// The fault of the first faulty link, if any.
pub open spec fn first_fault(links: Seq<LinkConfig>) -> Option<ConfigError> {
    first_fault_from(links, 0)
}

/// The weather interval after repair: 0 becomes 15, anything above a day 60.
pub open spec fn repaired_interval(m: u32) -> u32 {
    if m == 0 {
        15
    } else if m > 1440 {
        60
    } else {
        m
    }
}

/// `b` is `a` repaired: a missing `@` in the e-mail address, a zero or
/// over-long weather interval, and a blank launcher or browser command are
/// replaced by their defaults; nothing else changes.
pub open spec fn is_repaired(a: Config, b: Config) -> bool {
    &&& b.user.display_name == a.user.display_name
    &&& b.user.github_url == a.user.github_url
    &&& b.user.email@ == if a.user.email@.contains('@') {
        a.user.email@
    } else {
        "user@example.com"@
    }
    &&& b.weather.location == a.weather.location
    &&& b.weather.api_key == a.weather.api_key
    &&& b.weather.provider == a.weather.provider
    &&& b.weather.update_interval_minutes == repaired_interval(a.weather.update_interval_minutes)
    &&& b.shortcuts.left_links == a.shortcuts.left_links
    &&& b.shortcuts.rofi_command@ == if trimmed(a.shortcuts.rofi_command@).len() == 0 {
        "rofi -show drun"@
    } else {
        a.shortcuts.rofi_command@
    }
    &&& b.shortcuts.browser_command@ == if trimmed(a.shortcuts.browser_command@).len() == 0 {
        "firefox"@
    } else {
        a.shortcuts.browser_command@
    }
    &&& b.network == a.network
    &&& b.hotkey == a.hotkey
}

/// Checks the shortcuts of `config` and repairs its other fields.
///
/// The first link whose URL is not a web address, or whose label is empty,
/// refuses the whole configuration, which is then left as it was.
/// Otherwise the recoverable fields are repaired (see `is_repaired`).
pub fn validate_and_fix_config(config: &mut Config) -> (r: Result<(), ConfigError>)
    ensures
        match r {
            Err(e) => first_fault(old(config).shortcuts.left_links@) == Some(e) && *final(config)
                == *old(config),
            Ok(()) => first_fault(old(config).shortcuts.left_links@) is None && is_repaired(
                *old(config),
                *final(config),
            ),
        },
        r is Ok ==> MIN_WEATHER_INTERVAL_MINUTES <= final(config).weather.update_interval_minutes
            <= MAX_WEATHER_INTERVAL_MINUTES,
{
    let n = config.shortcuts.left_links.len();
    let mut i: usize = 0;
    while i < n
        invariant
            n == config.shortcuts.left_links@.len(),
            i <= n,
            first_fault_from(config.shortcuts.left_links@, 0) == first_fault_from(
                config.shortcuts.left_links@,
                i as int,
            ),
        decreases n - i,
    {
        let link = &config.shortcuts.left_links[i];
        if !check_web_url(link.url.as_str()) {
            return Err(ConfigError::InvalidUrl(link.url.clone()));
        }
        if link.label.as_str().is_empty() {
            return Err(ConfigError::EmptyLabel(link.url.clone()));
        }
        i = i + 1;
    }
    if !contains_char(config.user.email.as_str(), '@') {
        config.user.email = owned("user@example.com");
    }
    if config.weather.update_interval_minutes == 0 {
        config.weather.update_interval_minutes = 15;
    }
    if config.weather.update_interval_minutes > MAX_WEATHER_INTERVAL_MINUTES {
        config.weather.update_interval_minutes = 60;
    }
    if trim(config.shortcuts.rofi_command.as_str()).is_empty() {
        config.shortcuts.rofi_command = owned("rofi -show drun");
    }
    if trim(config.shortcuts.browser_command.as_str()).is_empty() {
        config.shortcuts.browser_command = owned("firefox");
    }
    Ok(())
}

impl LinkConfig {
    /// The link shows `label`, opens `url` and carries icon `icon`.
    pub open spec fn is(self, label: Seq<char>, url: Seq<char>, icon: Seq<char>) -> bool {
        &&& self.label@ == label
        &&& self.url@ == url
        &&& self.icon_name@ == icon
    }

    /// A link from its three texts.
    pub fn new(label: &str, url: &str, icon_name: &str) -> (r: LinkConfig)
        ensures
            r.is(label@, url@, icon_name@),
    {
        LinkConfig { label: owned(label), url: owned(url), icon_name: owned(icon_name) }
    }
}

impl Default for Config {
    fn default() -> (r: Self)
        ensures
            r.user.display_name is None,
            r.user.email@ == "user@example.com"@,
            r.user.github_url@ == "https://github.com"@,
            r.weather.location@ == "Seattle, WA"@,
            r.weather.api_key is None,
            r.weather.provider@ == "stub"@,
            r.weather.update_interval_minutes == 15,
            r.shortcuts.left_links@.len() == 3,
            r.shortcuts.left_links@[0].is("GitHub"@, "https://github.com"@, "github"@),
            r.shortcuts.left_links@[1].is("Mail"@, "https://protonmail.com"@, "mail"@),
            r.shortcuts.left_links@[2].is("OSV"@, "https://onyxdigital.dev/OnyxOSV"@, "osv"@),
            r.shortcuts.rofi_command@ == "rofi -show drun"@,
            r.shortcuts.browser_command@ == "firefox"@,
            r.network.monitor_interface is None,
            r.network.vpn_name is None,
            r.hotkey.toggle_overlay@ == "Super+Shift+Space"@,
    {
        let mut left_links: Vec<LinkConfig> = Vec::new();
        left_links.push(LinkConfig::new("GitHub", "https://github.com", "github"));
        left_links.push(LinkConfig::new("Mail", "https://protonmail.com", "mail"));
        left_links.push(LinkConfig::new("OSV", "https://onyxdigital.dev/OnyxOSV", "osv"));
        Config {
            user: UserConfig {
                display_name: None,
                email: owned("user@example.com"),
                github_url: owned("https://github.com"),
            },
            weather: WeatherConfig {
                location: owned("Seattle, WA"),
                api_key: None,
                provider: owned("stub"),
                update_interval_minutes: 15,
            },
            shortcuts: ShortcutsConfig {
                left_links,
                rofi_command: owned("rofi -show drun"),
                browser_command: owned("firefox"),
            },
            network: NetworkConfig { monitor_interface: None, vpn_name: None },
            hotkey: HotkeyConfig { toggle_overlay: owned("Super+Shift+Space") },
        }
    }
}

} // verus!
