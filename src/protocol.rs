//! The request/response protocol: commands, their validation and dispatch,
//! and the decisions of a connection handler.

use vstd::prelude::*;
use crate::config::{Config, is_web_url, check_web_url};
use crate::state::VacuumState;
use crate::text::{owned, join2};

verus! {

/// A request from a front end. One request per connection.
#[derive(Debug, Clone)]
pub enum IpcCommand {
    ToggleOverlay,
    GetState,
    SetVolume(u8),
    ToggleMute,
    ToggleWifi,
    ToggleBluetooth,
    ToggleVpn,
    Logout,
    Reboot,
    Shutdown,
    LaunchRofi,
    LaunchUrl(String),
}

/// The single answer to a request.
#[derive(Debug, Clone)]
pub enum IpcResponse {
    Success,
    State(VacuumState),
    Error(String),
    ToggleResult(bool),
}

/// An external effect that a command delegates to the action collaborator.
#[derive(Debug, Clone)]
pub enum Action {
    SetVolume(u8),
    ToggleMute,
    ToggleWifi,
    ToggleBluetooth,
    /// Bring the named VPN connection up or down.
    ToggleVpn(String),
    Logout,
    Reboot,
    Shutdown,
    /// Run the launcher command line.
    LaunchRofi(String),
    /// Open `url` with the browser command.
    LaunchUrl { url: String, browser: String },
}

impl Action {
    /// The action reports a new switch state (rather than plain success).
    pub open spec fn reports_state(self) -> bool {
        ||| self is ToggleMute
        ||| self is ToggleWifi
        ||| self is ToggleBluetooth
        ||| self is ToggleVpn
    }

    /// A copy of the action.
    pub fn duplicate(&self) -> (r: Action)
        ensures
            r == *self,
    {
        match self {
            Action::SetVolume(v) => Action::SetVolume(*v),
            Action::ToggleMute => Action::ToggleMute,
            Action::ToggleWifi => Action::ToggleWifi,
            Action::ToggleBluetooth => Action::ToggleBluetooth,
            Action::ToggleVpn(n) => Action::ToggleVpn(n.clone()),
            Action::Logout => Action::Logout,
            Action::Reboot => Action::Reboot,
            Action::Shutdown => Action::Shutdown,
            Action::LaunchRofi(c) => Action::LaunchRofi(c.clone()),
            Action::LaunchUrl { url, browser } => Action::LaunchUrl {
                url: url.clone(),
                browser: browser.clone(),
            },
        }
    }
}

/// What a valid command asks of the handler.
#[derive(Debug, Clone)]
pub enum Plan {
    /// Answer at once.
    Reply(IpcResponse),
    /// Answer with a snapshot of the state record.
    ReadState,
    /// Perform the action and answer with its outcome.
    Invoke(Action),
}

/// Why `c` is refused before dispatch, if it is.
pub open spec fn validation_message(c: IpcCommand) -> Option<Seq<char>> {
    match c {
        IpcCommand::SetVolume(v) => if v > 100 {
            Some("Volume must be between 0 and 100"@)
        } else {
            None
        },
        IpcCommand::LaunchUrl(u) => if u@.len() == 0 {
            Some("URL cannot be empty"@)
        } else if !is_web_url(u@) {
            Some("URL must start with http:// or https://"@)
        } else {
            None
        },
        _ => None,
    }
}

/// Checks the command-specific constraints: a volume of at most 100, and a
/// non-empty web URL to launch. Other commands need no check.
pub fn validate_command(command: &IpcCommand) -> (r: Result<(), String>)
    ensures
        match (r, validation_message(*command)) {
            (Ok(()), None) => true,
            (Err(m), Some(t)) => m@ == t,
            _ => false,
        },
{
    match command {
        IpcCommand::SetVolume(volume) => {
            if *volume > 100 {
                return Err(owned("Volume must be between 0 and 100"));
            }
        },
        IpcCommand::LaunchUrl(url) => {
            if url.as_str().is_empty() {
                return Err(owned("URL cannot be empty"));
            }
            if !check_web_url(url.as_str()) {
                return Err(owned("URL must start with http:// or https://"));
            }
        },
        _ => {},
    }
    Ok(())
}

/// The VPN connection a toggle acts on: the configured one, or `vpn`.
pub open spec fn vpn_name_of(config: Config) -> Seq<char> {
    match config.network.vpn_name {
        Some(n) => n@,
        None => "vpn"@,
    }
}

/// `p` is the plan for `command` under `config`: an overlay toggle is
/// acknowledged, a state query reads the record, and every other command
/// delegates exactly one action.
pub open spec fn plans(command: IpcCommand, config: Config, p: Plan) -> bool {
    match command {
        IpcCommand::ToggleOverlay => p == Plan::Reply(IpcResponse::Success),
        IpcCommand::GetState => p == Plan::ReadState,
        IpcCommand::SetVolume(v) => p == Plan::Invoke(Action::SetVolume(v)),
        IpcCommand::ToggleMute => p == Plan::Invoke(Action::ToggleMute),
        IpcCommand::ToggleWifi => p == Plan::Invoke(Action::ToggleWifi),
        IpcCommand::ToggleBluetooth => p == Plan::Invoke(Action::ToggleBluetooth),
        IpcCommand::ToggleVpn => p matches Plan::Invoke(Action::ToggleVpn(n)) && n@ == vpn_name_of(
            config,
        ),
        IpcCommand::Logout => p == Plan::Invoke(Action::Logout),
        IpcCommand::Reboot => p == Plan::Invoke(Action::Reboot),
        IpcCommand::Shutdown => p == Plan::Invoke(Action::Shutdown),
        IpcCommand::LaunchRofi => p == Plan::Invoke(
            Action::LaunchRofi(config.shortcuts.rofi_command),
        ),
        IpcCommand::LaunchUrl(u) => p == Plan::Invoke(
            Action::LaunchUrl { url: u, browser: config.shortcuts.browser_command },
        ),
    }
}

/// Routes a command (see `plans`).
pub fn handle_command(command: IpcCommand, config: &Config) -> (r: Plan)
    ensures
        plans(command, *config, r),
{
    match command {
        IpcCommand::ToggleOverlay => Plan::Reply(IpcResponse::Success),
        IpcCommand::GetState => Plan::ReadState,
        IpcCommand::SetVolume(v) => Plan::Invoke(Action::SetVolume(v)),
        IpcCommand::ToggleMute => Plan::Invoke(Action::ToggleMute),
        IpcCommand::ToggleWifi => Plan::Invoke(Action::ToggleWifi),
        IpcCommand::ToggleBluetooth => Plan::Invoke(Action::ToggleBluetooth),
        IpcCommand::ToggleVpn => {
            let name = match &config.network.vpn_name {
                Some(n) => n.clone(),
                None => owned("vpn"),
            };
            Plan::Invoke(Action::ToggleVpn(name))
        },
        IpcCommand::Logout => Plan::Invoke(Action::Logout),
        IpcCommand::Reboot => Plan::Invoke(Action::Reboot),
        IpcCommand::Shutdown => Plan::Invoke(Action::Shutdown),
        IpcCommand::LaunchRofi => Plan::Invoke(
            Action::LaunchRofi(config.shortcuts.rofi_command.clone()),
        ),
        IpcCommand::LaunchUrl(url) => Plan::Invoke(
            Action::LaunchUrl { url, browser: config.shortcuts.browser_command.clone() },
        ),
    }
}

/// The answer to a performed action: its failure's message, the new switch
/// state of a toggle, or plain success.
pub open spec fn outcome_response(action: Action, outcome: Result<bool, String>) -> IpcResponse {
    match outcome {
        Err(m) => IpcResponse::Error(m),
        Ok(b) => if action.reports_state() {
            IpcResponse::ToggleResult(b)
        } else {
            IpcResponse::Success
        },
    }
}

/// Turns an action's outcome into the answer (see `outcome_response`).
/// Actions without a state to report hand back `Ok` with any flag.
pub fn action_response(action: &Action, outcome: Result<bool, String>) -> (r: IpcResponse)
    ensures
        r == outcome_response(*action, outcome),
{
    match outcome {
        Err(m) => IpcResponse::Error(m),
        Ok(b) => match action {
            Action::ToggleMute | Action::ToggleWifi | Action::ToggleBluetooth | Action::ToggleVpn(
                _,
            ) => IpcResponse::ToggleResult(b),
            _ => IpcResponse::Success,
        },
    }
}

/// The size of the single read of a request. A read that fills it may be
/// truncated and is refused.
pub const MAX_MESSAGE_BYTES: usize = 4096;

/// Where a connection handler stands.
#[derive(Debug, Clone)]
pub enum ConnectionState {
    /// Waiting for the request's bytes.
    Reading,
    /// Waiting for the request to be decoded.
    Decoding,
    /// Waiting for the action collaborator.
    Acting(Action),
    /// Waiting for a snapshot of the state record.
    Querying,
    /// Done: the connection is closed.
    Closed,
}

/// What the handler's surroundings report.
#[derive(Debug)]
pub enum ConnectionEvent {
    /// The single read returned this many bytes.
    Received(usize),
    /// Decoding the bytes gave a command, or a diagnostic.
    Decoded(Result<IpcCommand, String>),
    /// The delegated action finished.
    ActionFinished(Result<bool, String>),
    /// A snapshot of the state record was taken.
    StateRead(VacuumState),
}

/// What the handler asks of its surroundings next.
#[derive(Debug, Clone)]
pub enum ConnectionEffect {
    /// Decode the first this many bytes of the buffer as one command.
    Decode(usize),
    /// Perform the action.
    Invoke(Action),
    /// Take a snapshot of the state record.
    ReadStore,
    /// Write the response, then close.
    Reply(IpcResponse),
    /// Close without a reply.
    Close,
}

/// `e` answers with an `Error` whose message is `m`, and `s` is closed.
pub open spec fn replies_error(s: ConnectionState, e: ConnectionEffect, m: Seq<char>) -> bool {
    &&& s is Closed
    &&& e matches ConnectionEffect::Reply(IpcResponse::Error(t))
    &&& t@ == m
}

impl ConnectionState {
    /// The next state of the handler and what it asks for, on `event`.
    ///
    /// An empty read closes without a reply; a read that fills the buffer is
    /// answered "Message too large"; a decoding failure, or a command that
    /// fails validation, is answered with an `Error`; a valid command is
    /// dispatched by `handle_command`, and the outcome of its action or
    /// query is the one reply. An event that does not fit the state closes.
    pub fn step(self, event: ConnectionEvent, config: &Config) -> (r: (
        ConnectionState,
        ConnectionEffect,
    ))
        ensures
            match (self, event) {
                (ConnectionState::Reading, ConnectionEvent::Received(n)) => if n == 0 {
                    r == (ConnectionState::Closed, ConnectionEffect::Close)
                } else if n >= MAX_MESSAGE_BYTES {
                    replies_error(r.0, r.1, "Message too large"@)
                } else {
                    r == (ConnectionState::Decoding, ConnectionEffect::Decode(n))
                },
                (ConnectionState::Decoding, ConnectionEvent::Decoded(Err(d))) => replies_error(
                    r.0,
                    r.1,
                    "Invalid message format: "@ + d@,
                ),
                (ConnectionState::Decoding, ConnectionEvent::Decoded(Ok(c))) => match validation_message(
                    c,
                ) {
                    Some(m) => replies_error(r.0, r.1, m),
                    None => match r.1 {
                        ConnectionEffect::Reply(resp) => plans(c, *config, Plan::Reply(resp))
                            && r.0 is Closed,
                        ConnectionEffect::ReadStore => plans(c, *config, Plan::ReadState) && r.0 is Querying,
                        ConnectionEffect::Invoke(a) => plans(c, *config, Plan::Invoke(a)) && r.0
                            == ConnectionState::Acting(a),
                        _ => false,
                    },
                },
                (ConnectionState::Acting(a), ConnectionEvent::ActionFinished(o)) => r == (
                    ConnectionState::Closed,
                    ConnectionEffect::Reply(outcome_response(a, o)),
                ),
                (ConnectionState::Querying, ConnectionEvent::StateRead(s)) => r == (
                    ConnectionState::Closed,
                    ConnectionEffect::Reply(IpcResponse::State(s)),
                ),
                _ => r == (ConnectionState::Closed, ConnectionEffect::Close),
            },
    {
        match (self, event) {
            (ConnectionState::Reading, ConnectionEvent::Received(n)) => {
                if n == 0 {
                    (ConnectionState::Closed, ConnectionEffect::Close)
                } else if n >= MAX_MESSAGE_BYTES {
                    (
                        ConnectionState::Closed,
                        ConnectionEffect::Reply(IpcResponse::Error(owned("Message too large"))),
                    )
                } else {
                    (ConnectionState::Decoding, ConnectionEffect::Decode(n))
                }
            },
            (ConnectionState::Decoding, ConnectionEvent::Decoded(Err(d))) => {
                let m = join2("Invalid message format: ", d.as_str());
                (ConnectionState::Closed, ConnectionEffect::Reply(IpcResponse::Error(m)))
            },
            (ConnectionState::Decoding, ConnectionEvent::Decoded(Ok(c))) => {
                match validate_command(&c) {
                    Err(m) => (ConnectionState::Closed, ConnectionEffect::Reply(IpcResponse::Error(m))),
                    Ok(()) => match handle_command(c, config) {
                        Plan::Reply(resp) => (ConnectionState::Closed, ConnectionEffect::Reply(resp)),
                        Plan::ReadState => (ConnectionState::Querying, ConnectionEffect::ReadStore),
                        Plan::Invoke(a) => {
                            let b = a.duplicate();
                            (ConnectionState::Acting(a), ConnectionEffect::Invoke(b))
                        },
                    },
                }
            },
            (ConnectionState::Acting(a), ConnectionEvent::ActionFinished(o)) => {
                let resp = action_response(&a, o);
                (ConnectionState::Closed, ConnectionEffect::Reply(resp))
            },
            (ConnectionState::Querying, ConnectionEvent::StateRead(s)) => {
                (ConnectionState::Closed, ConnectionEffect::Reply(IpcResponse::State(s)))
            },
            _ => (ConnectionState::Closed, ConnectionEffect::Close),
        }
    }
}

} // verus!
