//! The action collaborator's decisions: which external command each action
//! runs, and what the status commands' outputs say. Running the commands is
//! left to the caller.

use vstd::prelude::*;
use crate::text::{contains, ends_with, join2, occurs_in, owned, str_eq, trim, trimmed};

verus! {

/// A program and its arguments, to be run without a shell.
#[derive(Debug, Clone)]
pub struct ExternalCommand {
    pub program: String,
    pub args: Vec<String>,
    /// Started and left running, rather than awaited and checked.
    pub detached: bool,
}

impl ExternalCommand {
    /// The command runs `program` with `args`, awaited unless `detached`.
    pub open spec fn is(self, program: Seq<char>, args: Seq<Seq<char>>, detached: bool) -> bool {
        &&& self.program@ == program
        &&& self.args@.len() == args.len()
        &&& forall|i: int| 0 <= i < args.len() ==> #[trigger] self.args@[i]@ == args[i]
        &&& self.detached == detached
    }
}

/// A command from its program and arguments.
fn command(program: &str, args: &[&str], detached: bool) -> (r: ExternalCommand)
    ensures
        r.is(program@, args@.map_values(|a: &str| a@), detached),
{
    let mut v: Vec<String> = Vec::new();
    let mut i: usize = 0;
    while i < args.len()
        invariant
            i <= args@.len(),
            v@.len() == i,
            forall|j: int| 0 <= j < i ==> #[trigger] v@[j]@ == args@[j]@,
        decreases args@.len() - i,
    {
        v.push(owned(args[i]));
        i = i + 1;
    }
    ExternalCommand { program: owned(program), args: v, detached }
}

/// The decimal text of a digit.
pub open spec fn digit_text(d: nat) -> Seq<char> {
    if d == 0 {
        "0"@
    } else if d == 1 {
        "1"@
    } else if d == 2 {
        "2"@
    } else if d == 3 {
        "3"@
    } else if d == 4 {
        "4"@
    } else if d == 5 {
        "5"@
    } else if d == 6 {
        "6"@
    } else if d == 7 {
        "7"@
    } else if d == 8 {
        "8"@
    } else {
        "9"@
    }
}

/// The decimal text of `n`, without leading zeros.
pub open spec fn decimal(n: nat) -> Seq<char>
    decreases n,
{
    if n < 10 {
        digit_text(n)
    } else {
        decimal(n / 10) + digit_text(n % 10)
    }
}

fn digit(d: u8) -> (r: &'static str)
    requires
        d < 10,
    ensures
        r@ == digit_text(d as nat),
{
    match d {
        0 => "0",
        1 => "1",
        2 => "2",
        3 => "3",
        4 => "4",
        5 => "5",
        6 => "6",
        7 => "7",
        8 => "8",
        _ => "9",
    }
}

/// The volume argument: the percentage, at most 100, followed by `%`.
pub fn percent_text(percent: u8) -> (r: String)
    ensures
        r@ == decimal(if percent > 100 {
            100nat
        } else {
            percent as nat
        }) + "%"@,
{
    let p: u8 = if percent > 100 {
        100
    } else {
        percent
    };
    let mut r: String;
    if p >= 100 {
        r = join2(digit(p / 100), digit((p / 10) % 10));
        r.append(digit(p % 10));
        assert(decimal(p as nat) == decimal((p / 10) as nat) + digit_text((p % 10) as nat));
        assert(decimal((p / 10) as nat) == decimal((p / 100) as nat) + digit_text(
            ((p / 10) % 10) as nat,
        ));
    } else if p >= 10 {
        r = join2(digit(p / 10), digit(p % 10));
        assert(decimal(p as nat) == decimal((p / 10) as nat) + digit_text((p % 10) as nat));
    } else {
        r = owned(digit(p));
    }
    r.append("%");
    r
}

/// Runs the desktop's external commands.
#[derive(Debug, Clone, Copy)]
pub struct ActionHandler;

impl ActionHandler {
    pub fn new() -> (r: ActionHandler) {
        ActionHandler
    }

    /// Ends the session of `user`.
    pub fn logout(&self, user: &str) -> (r: ExternalCommand)
        ensures
            r.is("loginctl"@, seq!["terminate-user"@, user@], false),
    {
        let r = command("loginctl", &["terminate-user", user], false);
        assert(r.args@[1]@ == user@);
        r
    }

    pub fn reboot(&self) -> (r: ExternalCommand)
        ensures
            r.is("systemctl"@, seq!["reboot"@], false),
    {
        command("systemctl", &["reboot"], false)
    }

    pub fn shutdown(&self) -> (r: ExternalCommand)
        ensures
            r.is("systemctl"@, seq!["poweroff"@], false),
    {
        command("systemctl", &["poweroff"], false)
    }

    /// The query whose output `check_wifi_status` reads.
    pub fn wifi_status_query(&self) -> (r: ExternalCommand)
        ensures
            r.is("nmcli"@, seq!["radio"@, "wifi"@], false),
    {
        command("nmcli", &["radio", "wifi"], false)
    }

    /// The radio is on when the query prints exactly `enabled`, white space
    /// aside.
    pub fn check_wifi_status(&self, output: &str) -> (r: bool)
        ensures
            r == (trimmed(output@) == "enabled"@),
    {
        str_eq(trim(output), "enabled")
    }

    /// Switches the radio to the other state; the second result is the new
    /// state.
    pub fn toggle_wifi(&self, enabled_now: bool) -> (r: (ExternalCommand, bool))
        ensures
            r.0.is("nmcli"@, seq!["radio"@, "wifi"@, if enabled_now { "off"@ } else { "on"@ }], false),
            r.1 == !enabled_now,
    {
        let state = if enabled_now {
            "off"
        } else {
            "on"
        };
        (command("nmcli", &["radio", "wifi", state], false), !enabled_now)
    }

    /// The query whose output `check_bluetooth_status` reads.
    pub fn bluetooth_status_query(&self) -> (r: ExternalCommand)
        ensures
            r.is("bluetoothctl"@, seq!["show"@], false),
    {
        command("bluetoothctl", &["show"], false)
    }

    /// The controller is on when the query mentions `Powered: yes`.
    pub fn check_bluetooth_status(&self, output: &str) -> (r: bool)
        ensures
            r == occurs_in("Powered: yes"@, output@),
    {
        contains(output, "Powered: yes")
    }

    /// Powers the controller to the other state; the second result is the
    /// new state.
    pub fn toggle_bluetooth(&self, powered_now: bool) -> (r: (ExternalCommand, bool))
        ensures
            r.0.is("bluetoothctl"@, seq!["power"@, if powered_now { "off"@ } else { "on"@ }], false),
            r.1 == !powered_now,
    {
        let state = if powered_now {
            "off"
        } else {
            "on"
        };
        (command("bluetoothctl", &["power", state], false), !powered_now)
    }

    /// The query whose output `check_vpn_status` reads.
    pub fn vpn_status_query(&self) -> (r: ExternalCommand)
        ensures
            r.is("nmcli"@, seq!["connection"@, "show"@, "--active"@], false),
    {
        command("nmcli", &["connection", "show", "--active"], false)
    }

    /// The connection is up when the list of active ones mentions its name.
    pub fn check_vpn_status(&self, output: &str, vpn_name: &str) -> (r: bool)
        ensures
            r == occurs_in(vpn_name@, output@),
    {
        contains(output, vpn_name)
    }

    /// Brings the named connection down if it is up, up otherwise; the
    /// second result is the new state.
    pub fn toggle_vpn(&self, vpn_name: &str, connected_now: bool) -> (r: (ExternalCommand, bool))
        ensures
            r.0.is(
                "nmcli"@,
                seq!["connection"@, if connected_now { "down"@ } else { "up"@ }, vpn_name@],
                false,
            ),
            r.1 == !connected_now,
    {
        let verb = if connected_now {
            "down"
        } else {
            "up"
        };
        let r = command("nmcli", &["connection", verb, vpn_name], false);
        assert(r.args@[2]@ == vpn_name@);
        (r, !connected_now)
    }

    /// Sets the default sink's volume, clamped to 100 percent.
    pub fn set_volume(&self, percent: u8) -> (r: ExternalCommand)
        ensures
            r.is(
                "pactl"@,
                seq![
                    "set-sink-volume"@,
                    "@DEFAULT_SINK@"@,
                    decimal(if percent > 100 { 100nat } else { percent as nat }) + "%"@,
                ],
                false,
            ),
    {
        let level = percent_text(percent);
        let r = command("pactl", &["set-sink-volume", "@DEFAULT_SINK@", level.as_str()], false);
        assert(r.args@[2]@ == level@);
        r
    }

    /// Flips the default sink's mute switch.
    pub fn toggle_mute(&self) -> (r: ExternalCommand)
        ensures
            r.is("pactl"@, seq!["set-sink-mute"@, "@DEFAULT_SINK@"@, "toggle"@], false),
    {
        command("pactl", &["set-sink-mute", "@DEFAULT_SINK@", "toggle"], false)
    }

    /// The query whose output `check_mute_status` reads.
    pub fn mute_status_query(&self) -> (r: ExternalCommand)
        ensures
            r.is("pactl"@, seq!["get-sink-mute"@, "@DEFAULT_SINK@"@], false),
    {
        command("pactl", &["get-sink-mute", "@DEFAULT_SINK@"], false)
    }

    /// The sink is muted when the query's output, white space aside, ends
    /// in `yes`.
    pub fn check_mute_status(&self, output: &str) -> (r: bool)
        ensures
            r == "yes"@.is_suffix_of(trimmed(output@)),
    {
        ends_with(trim(output), "yes")
    }

    /// Starts the launcher command line through the shell, without waiting.
    pub fn launch_rofi(&self, command_line: &str) -> (r: ExternalCommand)
        ensures
            r.is("sh"@, seq!["-c"@, command_line@], true),
    {
        let r = command("sh", &["-c", command_line], true);
        assert(r.args@[1]@ == command_line@);
        r
    }

    /// Opens `url` with the browser, without waiting.
    pub fn launch_url(&self, url: &str, browser_command: &str) -> (r: ExternalCommand)
        ensures
            r.is(browser_command@, seq![url@], true),
    {
        let r = command(browser_command, &[url], true);
        assert(r.args@[0]@ == url@);
        r
    }
}

} // verus!
