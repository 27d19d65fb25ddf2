//! Status and control daemon core: the aggregate state record and its
//! per-domain writers, the command protocol, the decisions of the
//! connection handler, the periodic tasks and the socket server, and what
//! the collectors make of their probes' outputs.

pub mod text;
pub mod state;
pub mod config;
pub mod protocol;
pub mod tasks;
pub mod server;
pub mod traffic;
pub mod weather;
pub mod actions;
pub mod visualizer;
pub mod parsing;
pub mod collectors;
