//! What the collectors make of their probes' outputs: the route, the
//! interface counters, the sink volume, the media player, the GPU, the OS
//! name, the mounted disks, and the switches.

use vstd::prelude::*;
use crate::config::Config;
use crate::parsing::{
    lines_of, words_of, bar_fields_of, colon_fields_of, texts, split_lines, split_words,
    split_bars, split_colons, parse_u64, unsigned_value,
};
use crate::state::{AudioStatus, NetworkStatus, Toggles, UserInfo};
use crate::text::{contains, owned, occurs_in, starts_with, str_eq, trim, trimmed, join2};

verus! {

/// The word after the last `key` among the first `n` words that has a word
/// after it.
pub open spec fn value_after(ws: Seq<Seq<char>>, key: Seq<char>, n: int) -> Option<Seq<char>>
    decreases n,
{
    if n <= 0 {
        None
    } else if ws[n - 1] == key && n < ws.len() {
        Some(ws[n])
    } else {
        value_after(ws, key, n - 1)
    }
}

/// `o`'s text, or `default`.
pub open spec fn or_text(o: Option<Seq<char>>, default: Seq<char>) -> Seq<char> {
    match o {
        Some(t) => t,
        None => default,
    }
}

/// The interface and source address named in a route's words: the word
/// after the last `dev` (else `unknown`) and after the last `src` (else
/// `0.0.0.0`).
pub fn route_from_words(words: &Vec<String>) -> (r: (String, String))
    ensures
        r.0@ == or_text(value_after(texts(words@), "dev"@, words@.len() as int), "unknown"@),
        r.1@ == or_text(value_after(texts(words@), "src"@, words@.len() as int), "0.0.0.0"@),
{
    let mut interface = owned("unknown");
    let mut ip_address = owned("0.0.0.0");
    let n = words.len();
    let mut i: usize = 0;
    while i < n
        invariant
            n == words@.len(),
            i <= n,
            interface@ == or_text(value_after(texts(words@), "dev"@, i as int), "unknown"@),
            ip_address@ == or_text(value_after(texts(words@), "src"@, i as int), "0.0.0.0"@),
        decreases n - i,
    {
        if i + 1 < n {
            if str_eq(words[i].as_str(), "dev") {
                interface = words[i + 1].clone();
            }
            if str_eq(words[i].as_str(), "src") {
                ip_address = words[i + 1].clone();
            }
        }
        assert(texts(words@)[i as int] == words@[i as int]@);
        assert(i + 1 < n ==> texts(words@)[i + 1] == words@[i + 1]@);
        i = i + 1;
    }
    (interface, ip_address)
}

/// A line of the route query names the outgoing device and source address.
pub open spec fn is_route_line(l: Seq<char>) -> bool {
    occurs_in("dev "@, l) && occurs_in("src "@, l)
}

/// The index of the first route line among the first `n` lines, if any.
pub open spec fn first_route_line(ls: Seq<Seq<char>>, n: int) -> Option<int>
    decreases n,
{
    if n <= 0 {
        None
    } else {
        match first_route_line(ls, n - 1) {
            Some(i) => Some(i),
            None => if is_route_line(ls[n - 1]) {
                Some(n - 1)
            } else {
                None
            },
        }
    }
}

/// The interface and address of the default route, from the output of
/// `ip route get`: those of the first line naming both (see
/// `route_from_words`), or `None` where no line does.
pub fn route_from_output(output: &str) -> (r: Option<(String, String)>)
    ensures
        match first_route_line(lines_of(output@), lines_of(output@).len() as int) {
            None => r is None,
            Some(i) => r matches Some(p) && p.0@ == or_text(
                value_after(words_of(lines_of(output@)[i]), "dev"@, words_of(lines_of(output@)[i]).len() as int),
                "unknown"@,
            ) && p.1@ == or_text(
                value_after(words_of(lines_of(output@)[i]), "src"@, words_of(lines_of(output@)[i]).len() as int),
                "0.0.0.0"@,
            ),
        },
{
    let lines = split_lines(output);
    let ghost ls = lines_of(output@);
    let n = lines.len();
    let mut i: usize = 0;
    while i < n
        invariant
            n == lines@.len(),
            texts(lines@) == ls,
            ls == lines_of(output@),
            i <= n,
            first_route_line(ls, i as int) is None,
        decreases n - i,
    {
        let line = lines[i].as_str();
        assert(ls[i as int] == line@);
        if contains(line, "dev ") && contains(line, "src ") {
            let words = split_words(line);
            let r = route_from_words(&words);
            assert(first_route_line(ls, i + 1) == Some(i as int));
            proof {
                lemma_first_stays(ls, i as int + 1, n as int);
                assert(ls.len() == n);
            }
            return Some(r);
        }
        i = i + 1;
    }
    assert(ls.len() == n);
    None
}

/// Once found, the first route line stays the first as more lines are seen.
proof fn lemma_first_stays(ls: Seq<Seq<char>>, m: int, n: int)
    requires
        0 < m <= n,
        first_route_line(ls, m) is Some,
    ensures
        first_route_line(ls, n) == first_route_line(ls, m),
    decreases n - m,
{
    if n > m {
        lemma_first_stays(ls, m, n - 1);
    }
}

/// The SSID is asked for wireless interfaces only: those named `wl...`.
pub fn wants_ssid(interface: &str) -> (r: bool)
    ensures
        r == "wl"@.is_prefix_of(interface@),
{
    starts_with(interface, "wl")
}

/// The status of a connected route.
pub fn connected_status(interface: String, ip_address: String, ssid: Option<String>) -> (r: NetworkStatus)
    ensures
        r.interface == interface,
        r.ip_address == ip_address,
        r.ssid == ssid,
        r.link_state@ == "connected"@,
{
    NetworkStatus { interface, ip_address, ssid, link_state: owned("connected") }
}

/// Received and sent byte counters from the words of an interface's line of
/// the kernel's device statistics: the second and tenth words, 0 where
/// either does not read as a number; `None` for a line of fewer than ten
/// words.
pub open spec fn counters_in(ws: Seq<Seq<char>>) -> Option<(u64, u64)> {
    if ws.len() < 10 {
        None
    } else {
        Some((counter_value(ws[1]), counter_value(ws[9])))
    }
}

/// A counter's value, or 0 where the text is not a number that fits.
pub open spec fn counter_value(w: Seq<char>) -> u64 {
    match unsigned_value(w) {
        Some(v) => if v <= u64::MAX {
            v as u64
        } else {
            0
        },
        None => 0,
    }
}

/// Reads the counters of one line's words (see `counters_in`).
pub fn counters_from_words(words: &Vec<String>) -> (r: Option<(u64, u64)>)
    ensures
        r == counters_in(texts(words@)),
{
    if words.len() < 10 {
        return None;
    }
    assert(texts(words@)[1] == words@[1]@);
    assert(texts(words@)[9] == words@[9]@);
    let rx = match parse_u64(words[1].as_str()) {
        Some(v) => v,
        None => 0,
    };
    let tx = match parse_u64(words[9].as_str()) {
        Some(v) => v,
        None => 0,
    };
    Some((rx, tx))
}

/// The line is `interface`'s: white space aside, it begins with the
/// interface's name and a colon.
pub open spec fn is_interface_line(l: Seq<char>, interface: Seq<char>) -> bool {
    (interface + ":"@).is_prefix_of(trimmed(l))
}

/// The counters of the first of the first `n` lines that is `interface`'s
/// and has enough words.
pub open spec fn counters_upto(ls: Seq<Seq<char>>, interface: Seq<char>, n: int) -> Option<(u64, u64)>
    decreases n,
{
    if n <= 0 {
        None
    } else {
        match counters_upto(ls, interface, n - 1) {
            Some(c) => Some(c),
            None => if is_interface_line(ls[n - 1], interface) {
                counters_in(words_of(ls[n - 1]))
            } else {
                None
            },
        }
    }
}

/// Once found, the counters stay those of the first matching line.
proof fn lemma_counters_stay(ls: Seq<Seq<char>>, interface: Seq<char>, m: int, n: int)
    requires
        0 < m <= n,
        counters_upto(ls, interface, m) is Some,
    ensures
        counters_upto(ls, interface, n) == counters_upto(ls, interface, m),
    decreases n - m,
{
    if n > m {
        lemma_counters_stay(ls, interface, m, n - 1);
    }
}

/// The received and sent counters of `interface` in the kernel's device
/// statistics (see `counters_upto`).
pub fn interface_counters(stats: &str, interface: &str) -> (r: Option<(u64, u64)>)
    ensures
        r == counters_upto(lines_of(stats@), interface@, lines_of(stats@).len() as int),
{
    let prefix = join2(interface, ":");
    let lines = split_lines(stats);
    let ghost ls = lines_of(stats@);
    let n = lines.len();
    let mut i: usize = 0;
    while i < n
        invariant
            n == lines@.len(),
            texts(lines@) == ls,
            ls == lines_of(stats@),
            prefix@ == interface@ + ":"@,
            i <= n,
            counters_upto(ls, interface@, i as int) is None,
        decreases n - i,
    {
        let line = lines[i].as_str();
        assert(ls[i as int] == line@);
        if starts_with(trim(line), prefix.as_str()) {
            let words = split_words(line);
            let c = counters_from_words(&words);
            if c.is_some() {
                assert(counters_upto(ls, interface@, i + 1) == c);
                proof {
                    lemma_counters_stay(ls, interface@, i as int + 1, n as int);
                    assert(ls.len() == n);
                }
                return c;
            }
        }
        i = i + 1;
    }
    assert(ls.len() == n);
    None
}

/// The media player's status from the `|`-separated fields of its line:
/// source, title, artist, and whether the status is `Playing`; `None` for
/// fewer than four fields.
pub fn audio_from_fields(fields: &Vec<String>) -> (r: Option<AudioStatus>)
    ensures
        ({
            let f = texts(fields@);
            if f.len() < 4 {
                r is None
            } else {
                r matches Some(a) && a.source_name@ == f[0] && a.track_title@ == f[1] && a.artist@
                    == f[2] && a.playing == (f[3] == "Playing"@)
            }
        }),
{
    if fields.len() < 4 {
        return None;
    }
    assert(texts(fields@)[0] == fields@[0]@);
    assert(texts(fields@)[1] == fields@[1]@);
    assert(texts(fields@)[2] == fields@[2]@);
    assert(texts(fields@)[3] == fields@[3]@);
    Some(
        AudioStatus {
            source_name: fields[0].clone(),
            track_title: fields[1].clone(),
            artist: fields[2].clone(),
            playing: str_eq(fields[3].as_str(), "Playing"),
        },
    )
}

/// The media player's status from `playerctl`'s `source|title|artist|status`
/// line: `None` where the output, white space aside, is empty or says no
/// player was found; otherwise that of its fields (see `audio_from_fields`).
pub fn audio_from_player(output: &str) -> (r: Option<AudioStatus>)
    ensures
        ({
            let t = trimmed(output@);
            let f = bar_fields_of(t);
            if t.len() == 0 || occurs_in("No players found"@, t) || f.len() < 4 {
                r is None
            } else {
                r matches Some(a) && a.source_name@ == f[0] && a.track_title@ == f[1] && a.artist@
                    == f[2] && a.playing == (f[3] == "Playing"@)
            }
        }),
{
    let t = trim(output);
    if t.is_empty() || contains(t, "No players found") {
        return None;
    }
    let fields = split_bars(t);
    audio_from_fields(&fields)
}

/// The switches from the three status queries' outputs: the radio is on
/// when its query prints `enabled`, white space aside; the controller when
/// its query mentions `Powered: yes`; a VPN is connected when the active
/// connections mention `vpn` or `tun`.
pub fn toggles_from(wifi_output: &str, bluetooth_output: &str, connections_output: &str) -> (r: Toggles)
    ensures
        r.wifi_enabled == (trimmed(wifi_output@) == "enabled"@),
        r.bluetooth_enabled == occurs_in("Powered: yes"@, bluetooth_output@),
        r.vpn_connected == (occurs_in("vpn"@, connections_output@) || occurs_in(
            "tun"@,
            connections_output@,
        )),
{
    Toggles {
        wifi_enabled: str_eq(trim(wifi_output), "enabled"),
        vpn_connected: contains(connections_output, "vpn") || contains(connections_output, "tun"),
        bluetooth_enabled: contains(bluetooth_output, "Powered: yes"),
    }
}

/// The user's record: the login name, and the rest from the configuration.
pub fn user_info_from(username: String, config: &Config) -> (r: UserInfo)
    ensures
        r.username == username,
        r.email == config.user.email,
        r.github_url == config.user.github_url,
        r.avatar_path is None,
        r.display_name is None <==> config.user.display_name is None,
        r.display_name is Some ==> r.display_name == config.user.display_name,
{
    let display_name = match &config.user.display_name {
        Some(d) => Some(d.clone()),
        None => None,
    };
    UserInfo {
        username,
        display_name,
        email: config.user.email.clone(),
        github_url: config.user.github_url.clone(),
        avatar_path: None,
    }
}

/// `w` without its trailing `%` signs.
pub open spec fn without_percents(w: Seq<char>) -> Seq<char>
    decreases w.len(),
{
    if w.len() > 0 && w.last() == '%' {
        without_percents(w.drop_last())
    } else {
        w
    }
}

/// Relies on `str::trim_end_matches` with the pattern `'%'`.
#[verifier::external_body]
fn strip_percents(w: &str) -> (r: &str)
    ensures
        r@ == without_percents(w@),
{
    w.trim_end_matches('%')
}

/// The volume a word gives: a word ending in `%` whose text without the
/// trailing `%` signs reads as a byte-sized number.
pub open spec fn word_volume(w: Seq<char>) -> Option<u8> {
    if "%"@.is_suffix_of(w) {
        match unsigned_value(without_percents(w)) {
            Some(v) => if v <= u8::MAX {
                Some(v as u8)
            } else {
                None
            },
            None => None,
        }
    } else {
        None
    }
}

/// The volume of the first of the first `n` words that gives one.
pub open spec fn first_volume(ws: Seq<Seq<char>>, n: int) -> Option<u8>
    decreases n,
{
    if n <= 0 {
        None
    } else {
        match first_volume(ws, n - 1) {
            Some(v) => Some(v),
            None => word_volume(ws[n - 1]),
        }
    }
}

/// Once found, the first volume stays the first as more words are seen.
proof fn lemma_first_volume_stays(ws: Seq<Seq<char>>, m: int, n: int)
    requires
        0 < m <= n,
        first_volume(ws, m) is Some,
    ensures
        first_volume(ws, n) == first_volume(ws, m),
    decreases n - m,
{
    if n > m {
        lemma_first_volume_stays(ws, m, n - 1);
    }
}

/// The volume after the first `n` lines of the sink query: 50 at first;
/// each line that mentions `Volume:` and has a word giving a volume sets it
/// to its first such volume, at most 100.
pub open spec fn volume_upto(ls: Seq<Seq<char>>, n: int) -> u8
    decreases n,
{
    if n <= 0 {
        50
    } else {
        let prev = volume_upto(ls, n - 1);
        if occurs_in("Volume:"@, ls[n - 1]) {
            match first_volume(words_of(ls[n - 1]), words_of(ls[n - 1]).len() as int) {
                Some(v) => if v > 100 {
                    100
                } else {
                    v
                },
                None => prev,
            }
        } else {
            prev
        }
    }
}

/// The first volume among a line's words (see `first_volume`).
pub fn volume_in_words(words: &Vec<String>) -> (r: Option<u8>)
    ensures
        r == first_volume(texts(words@), words@.len() as int),
{
    let n = words.len();
    let mut i: usize = 0;
    while i < n
        invariant
            n == words@.len(),
            i <= n,
            first_volume(texts(words@), i as int) is None,
        decreases n - i,
    {
        let w = words[i].as_str();
        assert(texts(words@)[i as int] == w@);
        if ends_with_percent(w) {
            if let Some(v) = crate::parsing::parse_u8(strip_percents(w)) {
                proof {
                    lemma_first_volume_stays(texts(words@), i as int + 1, n as int);
                }
                return Some(v);
            }
        }
        i = i + 1;
    }
    None
}

fn ends_with_percent(w: &str) -> (r: bool)
    ensures
        r == "%"@.is_suffix_of(w@),
{
    crate::text::ends_with(w, "%")
}

/// The sink's volume in percent from the output of `pactl
/// get-sink-volume` (see `volume_upto`).
pub fn volume_level(output: &str) -> (r: u8)
    ensures
        r == volume_upto(lines_of(output@), lines_of(output@).len() as int),
        r <= 100,
{
    let lines = split_lines(output);
    let ghost ls = lines_of(output@);
    let n = lines.len();
    let mut level: u8 = 50;
    let mut i: usize = 0;
    while i < n
        invariant
            n == lines@.len(),
            texts(lines@) == ls,
            ls == lines_of(output@),
            i <= n,
            level == volume_upto(ls, i as int),
            level <= 100,
        decreases n - i,
    {
        let line = lines[i].as_str();
        assert(ls[i as int] == line@);
        if contains(line, "Volume:") {
            let words = split_words(line);
            if let Some(v) = volume_in_words(&words) {
                level = if v > 100 {
                    100
                } else {
                    v
                };
            }
        }
        i = i + 1;
    }
    assert(ls.len() == n);
    level
}

/// A line of `lspci` that describes a display controller.
pub open spec fn is_gpu_line(l: Seq<char>) -> bool {
    occurs_in("VGA"@, l) || occurs_in("3D controller"@, l)
}

/// The description of the first display controller among the first `n`
/// lines that has at least three `:`-separated fields: its third field,
/// white space aside.
pub open spec fn gpu_upto(ls: Seq<Seq<char>>, n: int) -> Option<Seq<char>>
    decreases n,
{
    if n <= 0 {
        None
    } else {
        match gpu_upto(ls, n - 1) {
            Some(g) => Some(g),
            None => if is_gpu_line(ls[n - 1]) && colon_fields_of(ls[n - 1]).len() >= 3 {
                Some(trimmed(colon_fields_of(ls[n - 1])[2]))
            } else {
                None
            },
        }
    }
}

proof fn lemma_gpu_stays(ls: Seq<Seq<char>>, m: int, n: int)
    requires
        0 < m <= n,
        gpu_upto(ls, m) is Some,
    ensures
        gpu_upto(ls, n) == gpu_upto(ls, m),
    decreases n - m,
{
    if n > m {
        lemma_gpu_stays(ls, m, n - 1);
    }
}

/// The vendor a GPU description names.
pub open spec fn gpu_vendor(info: Seq<char>) -> Seq<char> {
    if occurs_in("NVIDIA"@, info) {
        "NVIDIA"@
    } else if occurs_in("AMD"@, info) || occurs_in("Radeon"@, info) {
        "AMD"@
    } else if occurs_in("Intel"@, info) {
        "Intel"@
    } else {
        "Unknown"@
    }
}

/// The vendor a GPU description names (see `gpu_vendor`).
pub fn vendor_of(info: &str) -> (r: String)
    ensures
        r@ == gpu_vendor(info@),
{
    if contains(info, "NVIDIA") {
        owned("NVIDIA")
    } else if contains(info, "AMD") || contains(info, "Radeon") {
        owned("AMD")
    } else if contains(info, "Intel") {
        owned("Intel")
    } else {
        owned("Unknown")
    }
}

/// The GPU's vendor and model from the output of `lspci` (see `gpu_upto`),
/// or `Unknown` and `Unknown GPU`.
pub fn gpu_from_lspci(output: &str) -> (r: (String, String))
    ensures
        match gpu_upto(lines_of(output@), lines_of(output@).len() as int) {
            Some(info) => r.0@ == gpu_vendor(info) && r.1@ == info,
            None => r.0@ == "Unknown"@ && r.1@ == "Unknown GPU"@,
        },
{
    let lines = split_lines(output);
    let ghost ls = lines_of(output@);
    let n = lines.len();
    let mut i: usize = 0;
    while i < n
        invariant
            n == lines@.len(),
            texts(lines@) == ls,
            ls == lines_of(output@),
            i <= n,
            gpu_upto(ls, i as int) is None,
        decreases n - i,
    {
        let line = lines[i].as_str();
        assert(ls[i as int] == line@);
        if contains(line, "VGA") || contains(line, "3D controller") {
            let parts = split_colons(line);
            if parts.len() >= 3 {
                assert(texts(parts@)[2] == parts@[2]@);
                let info = trim(parts[2].as_str());
                proof {
                    lemma_gpu_stays(ls, i as int + 1, n as int);
                    assert(ls.len() == n);
                }
                return (vendor_of(info), owned(info));
            }
        }
        i = i + 1;
    }
    assert(ls.len() == n);
    (owned("Unknown"), owned("Unknown GPU"))
}

/// `s` without every leading repetition of the non-empty `p`.
pub open spec fn without_prefixes(s: Seq<char>, p: Seq<char>) -> Seq<char>
    decreases s.len(),
{
    if p.len() > 0 && p.is_prefix_of(s) {
        without_prefixes(s.subrange(p.len() as int, s.len() as int), p)
    } else {
        s
    }
}

/// `s` without leading and trailing double quotes.
pub open spec fn without_quotes(s: Seq<char>) -> Seq<char> {
    without_end_quotes(without_start_quotes(s))
}

pub open spec fn without_start_quotes(s: Seq<char>) -> Seq<char>
    decreases s.len(),
{
    if s.len() > 0 && s[0] == '"' {
        without_start_quotes(s.drop_first())
    } else {
        s
    }
}

pub open spec fn without_end_quotes(s: Seq<char>) -> Seq<char>
    decreases s.len(),
{
    if s.len() > 0 && s.last() == '"' {
        without_end_quotes(s.drop_last())
    } else {
        s
    }
}

/// Relies on `str::trim_start_matches` with a string pattern.
#[verifier::external_body]
fn strip_leading<'a>(s: &'a str, p: &str) -> (r: &'a str)
    requires
        p@.len() > 0,
    ensures
        r@ == without_prefixes(s@, p@),
{
    s.trim_start_matches(p)
}

/// Relies on `str::trim_matches` with the pattern `'"'`.
#[verifier::external_body]
fn strip_quotes(s: &str) -> (r: &str)
    ensures
        r@ == without_quotes(s@),
{
    s.trim_matches('"')
}

/// The name in the first of the first `n` lines of an os-release file that
/// sets `PRETTY_NAME`, without the key and the quotes.
pub open spec fn pretty_name_upto(ls: Seq<Seq<char>>, n: int) -> Option<Seq<char>>
    decreases n,
{
    if n <= 0 {
        None
    } else {
        match pretty_name_upto(ls, n - 1) {
            Some(x) => Some(x),
            None => if "PRETTY_NAME="@.is_prefix_of(ls[n - 1]) {
                Some(without_quotes(without_prefixes(ls[n - 1], "PRETTY_NAME="@)))
            } else {
                None
            },
        }
    }
}

proof fn lemma_pretty_name_stays(ls: Seq<Seq<char>>, m: int, n: int)
    requires
        0 < m <= n,
        pretty_name_upto(ls, m) is Some,
    ensures
        pretty_name_upto(ls, n) == pretty_name_upto(ls, m),
    decreases n - m,
{
    if n > m {
        lemma_pretty_name_stays(ls, m, n - 1);
    }
}

/// The OS's display name from an os-release file (see `pretty_name_upto`).
pub fn pretty_name(content: &str) -> (r: Option<String>)
    ensures
        match pretty_name_upto(lines_of(content@), lines_of(content@).len() as int) {
            Some(x) => r matches Some(t) && t@ == x,
            None => r is None,
        },
{
    let lines = split_lines(content);
    let ghost ls = lines_of(content@);
    let n = lines.len();
    let mut i: usize = 0;
    while i < n
        invariant
            n == lines@.len(),
            texts(lines@) == ls,
            ls == lines_of(content@),
            i <= n,
            pretty_name_upto(ls, i as int) is None,
        decreases n - i,
    {
        let line = lines[i].as_str();
        assert(ls[i as int] == line@);
        if starts_with(line, "PRETTY_NAME=") {
            proof {
                reveal_strlit("PRETTY_NAME=");
            }
            let name = strip_quotes(strip_leading(line, "PRETTY_NAME="));
            proof {
                lemma_pretty_name_stays(ls, i as int + 1, n as int);
                assert(ls.len() == n);
            }
            return Some(owned(name));
        }
        i = i + 1;
    }
    assert(ls.len() == n);
    None
}

/// One line of `df --output=source,size,used,pcent,target`, as read.
#[derive(Debug, Clone)]
pub struct DiskRow {
    pub device: String,
    pub size: String,
    pub used: String,
    pub mountpoint: String,
}

impl DiskRow {
    pub open spec fn texts(self) -> (Seq<char>, Seq<char>, Seq<char>, Seq<char>) {
        (self.device@, self.size@, self.used@, self.mountpoint@)
    }
}

/// A pseudo or runtime file system, which the storage list leaves out.
pub open spec fn is_virtual_fs(device: Seq<char>, mountpoint: Seq<char>) -> bool {
    ||| "/proc"@.is_prefix_of(mountpoint)
    ||| "/sys"@.is_prefix_of(mountpoint)
    ||| "/dev/pts"@.is_prefix_of(mountpoint)
    ||| "/run"@.is_prefix_of(mountpoint)
    ||| "tmpfs"@.is_prefix_of(device)
    ||| "udev"@.is_prefix_of(device)
}

/// Whether a file system is left out (see `is_virtual_fs`).
pub fn check_virtual_fs(device: &str, mountpoint: &str) -> (r: bool)
    ensures
        r == is_virtual_fs(device@, mountpoint@),
{
    starts_with(mountpoint, "/proc") || starts_with(mountpoint, "/sys") || starts_with(
        mountpoint,
        "/dev/pts",
    ) || starts_with(mountpoint, "/run") || starts_with(device, "tmpfs") || starts_with(
        device,
        "udev",
    )
}

/// The row a line's words give: device, size, used, and the fifth word as
/// the mount point, for a line of at least five words that is not a
/// virtual file system.
pub open spec fn row_of(ws: Seq<Seq<char>>) -> Option<(Seq<char>, Seq<char>, Seq<char>, Seq<char>)> {
    if ws.len() >= 5 && !is_virtual_fs(ws[0], ws[4]) {
        Some((ws[0], ws[1], ws[2], ws[4]))
    } else {
        None
    }
}

/// The row of one line's words (see `row_of`).
pub fn disk_row_from_words(words: &Vec<String>) -> (r: Option<DiskRow>)
    ensures
        match row_of(texts(words@)) {
            Some(row) => r matches Some(d) && d.texts() == row,
            None => r is None,
        },
{
    if words.len() < 5 {
        return None;
    }
    let ghost ws = texts(words@);
    assert(ws[0] == words@[0]@ && ws[1] == words@[1]@ && ws[2] == words@[2]@ && ws[4] == words@[4]@);
    if check_virtual_fs(words[0].as_str(), words[4].as_str()) {
        return None;
    }
    Some(
        DiskRow {
            device: words[0].clone(),
            size: words[1].clone(),
            used: words[2].clone(),
            mountpoint: words[4].clone(),
        },
    )
}

/// The rows of lines 1 to `n - 1` (the first line is the header).
pub open spec fn rows_upto(ls: Seq<Seq<char>>, n: int) -> Seq<(Seq<char>, Seq<char>, Seq<char>, Seq<char>)>
    decreases n,
{
    if n <= 1 {
        Seq::empty()
    } else {
        match row_of(words_of(ls[n - 1])) {
            Some(row) => rows_upto(ls, n - 1).push(row),
            None => rows_upto(ls, n - 1),
        }
    }
}

/// The mounted file systems listed by `df`, without the header and the
/// virtual ones (see `rows_upto`), in order.
pub fn disk_rows(output: &str) -> (r: Vec<DiskRow>)
    ensures
        r@.map_values(|d: DiskRow| d.texts()) == rows_upto(lines_of(output@), lines_of(output@).len() as int),
{
    let lines = split_lines(output);
    let ghost ls = lines_of(output@);
    let n = lines.len();
    let mut rows: Vec<DiskRow> = Vec::new();
    if n == 0 {
        assert(rows@.map_values(|d: DiskRow| d.texts()) =~= rows_upto(ls, 0));
        return rows;
    }
    let mut i: usize = 1;
    while i < n
        invariant
            n == lines@.len(),
            texts(lines@) == ls,
            ls == lines_of(output@),
            1 <= i <= n,
            rows@.map_values(|d: DiskRow| d.texts()) == rows_upto(ls, i as int),
        decreases n - i,
    {
        let line = lines[i].as_str();
        assert(ls[i as int] == line@);
        let words = split_words(line);
        let ghost before = rows@;
        if let Some(row) = disk_row_from_words(&words) {
            rows.push(row);
            assert(rows@.map_values(|d: DiskRow| d.texts()) =~= before.map_values(
                |d: DiskRow| d.texts(),
            ).push(rows@.last().texts()));
        }
        i = i + 1;
    }
    assert(ls.len() == n);
    rows
}

} // verus!
