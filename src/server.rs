//! The socket server's decisions: single-instance startup, the accept loop
//! under the shutdown signal, and where the socket lives.

use vstd::prelude::*;
use crate::text::{ends_with, join2, owned};

verus! {

/// The socket's file name inside its directory.
pub const SOCKET_FILE_NAME: &'static str = "vacuum-launcher.sock";

/// How startup proceeds, given what was found at the socket path.
#[derive(Debug, Clone, Copy, PartialEq, Eq, Structural)]
pub enum StartupStep {
    /// Nothing is there: bind.
    Bind,
    /// A stale socket from an unclean shutdown is there: remove it, then bind.
    RemoveStaleThenBind,
    /// Another instance answers: fail, touching nothing.
    AlreadyRunning,
}

/// Decides startup from whether the socket path exists and, if it does,
/// whether a connection to it succeeded.
pub fn startup_step(socket_exists: bool, peer_answered: bool) -> (r: StartupStep)
    ensures
        !socket_exists ==> r == StartupStep::Bind,
        socket_exists && peer_answered ==> r == StartupStep::AlreadyRunning,
        socket_exists && !peer_answered ==> r == StartupStep::RemoveStaleThenBind,
{
    if !socket_exists {
        StartupStep::Bind
    } else if peer_answered {
        StartupStep::AlreadyRunning
    } else {
        StartupStep::RemoveStaleThenBind
    }
}

/// The message of the startup failure when another instance answers.
pub fn already_running_message() -> (r: String)
    ensures
        r@ == "Daemon already running"@,
{
    owned("Daemon already running")
}

/// What the accept loop sees.
#[derive(Debug, Clone, Copy, PartialEq, Eq, Structural)]
pub enum ServerEvent {
    /// A connection was accepted.
    Accepted,
    /// Accepting failed.
    AcceptFailed,
    /// The shutdown signal arrived.
    ShutdownSignal,
}

/// What the accept loop does next.
#[derive(Debug, Clone, Copy, PartialEq, Eq, Structural)]
pub enum ServerAction {
    /// Hand the connection to a handler of its own, and keep accepting.
    SpawnHandler,
    /// Log the error and keep accepting.
    LogAndContinue,
    /// Drop the connection: the server has stopped.
    Refuse,
    /// Stop accepting and remove the socket file.
    StopAndRemoveSocket,
}

/// The accept loop's control state.
#[derive(Debug, Clone, Copy, PartialEq, Eq, Structural)]
pub struct Server {
    pub accepting: bool,
}

impl Server {
    /// The server after `e`, and what it does. Accept errors never end the
    /// loop; the shutdown signal ends it for good, and the socket file goes
    /// with it, once.
    pub open spec fn next(self, e: ServerEvent) -> (Server, ServerAction) {
        if !self.accepting {
            (self, ServerAction::Refuse)
        } else {
            match e {
                ServerEvent::Accepted => (self, ServerAction::SpawnHandler),
                ServerEvent::AcceptFailed => (self, ServerAction::LogAndContinue),
                ServerEvent::ShutdownSignal => (
                    Server { accepting: false },
                    ServerAction::StopAndRemoveSocket,
                ),
            }
        }
    }

    /// What the server does on each of `es`, in turn.
    pub open spec fn run(self, es: Seq<ServerEvent>) -> Seq<ServerAction>
        decreases es.len(),
    {
        if es.len() == 0 {
            Seq::empty()
        } else {
            let (t, a) = self.next(es[0]);
            seq![a] + t.run(es.drop_first())
        }
    }

    /// A server that accepts connections.
    pub fn new() -> (r: Server)
        ensures
            r.accepting,
    {
        Server { accepting: true }
    }

    /// Reacts to `e` (see `next`).
    pub fn on_event(&mut self, e: ServerEvent) -> (r: ServerAction)
        ensures
            (*final(self), r) == old(self).next(e),
    {
        if !self.accepting {
            return ServerAction::Refuse;
        }
        match e {
            ServerEvent::Accepted => ServerAction::SpawnHandler,
            ServerEvent::AcceptFailed => ServerAction::LogAndContinue,
            ServerEvent::ShutdownSignal => {
                self.accepting = false;
                ServerAction::StopAndRemoveSocket
            },
        }
    }
}

/// The server takes one action per event.
pub proof fn lemma_server_run_len(s: Server, es: Seq<ServerEvent>)
    ensures
        s.run(es).len() == es.len(),
    decreases es.len(),
{
    if es.len() > 0 {
        lemma_server_run_len(s.next(es[0]).0, es.drop_first());
    }
}

/// On the shutdown signal a running server stops and removes its socket;
/// after that it hands no connection to a handler and removes nothing more.
pub proof fn lemma_shutdown_stops_accepting(es: Seq<ServerEvent>)
    ensures
        (Server { accepting: true }).next(ServerEvent::ShutdownSignal).1
            == ServerAction::StopAndRemoveSocket,
        forall|i: int|
            0 <= i < es.len() ==> #[trigger] (Server { accepting: true }).next(
                ServerEvent::ShutdownSignal,
            ).0.run(es)[i] == ServerAction::Refuse,
    decreases es.len(),
{
    let u = Server { accepting: false };
    if es.len() > 0 {
        lemma_shutdown_stops_accepting(es.drop_first());
        lemma_server_run_len(u, es.drop_first());
        assert forall|i: int| 0 <= i < es.len() implies (#[trigger] u.run(es)[i]
            == ServerAction::Refuse) by {
            if i > 0 {
                assert(u.run(es)[i] == u.run(es.drop_first())[i - 1]);
            }
        }
    }
}

/// The directory that holds the socket: the runtime directory, else the
/// cache directory, else `/tmp`.
pub open spec fn socket_dir(runtime_dir: Option<String>, cache_dir: Option<String>) -> Seq<char> {
    match runtime_dir {
        Some(d) => d@,
        None => match cache_dir {
            Some(d) => d@,
            None => "/tmp"@,
        },
    }
}

/// `dir` joined with `name` by one separator.
pub open spec fn joined_path(dir: Seq<char>, name: Seq<char>) -> Seq<char> {
    if dir.len() == 0 || "/"@.is_suffix_of(dir) {
        dir + name
    } else {
        dir + "/"@ + name
    }
}

/// The socket's path (see `socket_dir`).
pub fn socket_path(runtime_dir: Option<String>, cache_dir: Option<String>) -> (r: String)
    ensures
        r@ == joined_path(socket_dir(runtime_dir, cache_dir), SOCKET_FILE_NAME@),
{
    let dir = match runtime_dir {
        Some(d) => d,
        None => match cache_dir {
            Some(d) => d,
            None => owned("/tmp"),
        },
    };
    if dir.as_str().is_empty() || ends_with(dir.as_str(), "/") {
        join2(dir.as_str(), SOCKET_FILE_NAME)
    } else {
        let mut r = join2(dir.as_str(), "/");
        r.append(SOCKET_FILE_NAME);
        r
    }
}

} // verus!
