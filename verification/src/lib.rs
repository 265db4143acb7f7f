//! A host-header based reverse proxy core: routing tables, hot-reloadable
//! configuration, HTTP forwarding decisions and WebSocket tunnelling rules.
//!
//! The crate decides; the embedding program owns the sockets, the tasks and
//! the file watcher, and carries the decisions out.

pub mod address;
pub mod config;
pub mod drawbridge;
pub mod service;
pub mod util;

pub use config::Config;
