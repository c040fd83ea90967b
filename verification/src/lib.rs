//! Core of a focus-time tracking daemon.
//!
//! The daemon observes which desktop window currently has focus, turns the
//! stream of focus-change notifications into duration-stamped usage records,
//! buffers them, and persists them in batches to an embedded store.  A
//! one-byte request/response protocol over a local socket lets a short-lived
//! command process ping the daemon, trigger a flush, or stop it.
//!
//! This crate holds the verified engine: the interval tracker, the record
//! buffer and its flush policy, the control-loop state machine, the wire
//! codec, and the batch-insert statement builder.  The surrounding process
//! (socket accept loop, database connection, compositor subscription) drives
//! these functions and performs the I/O they decide on.

pub mod buffer;
pub mod client;
pub mod protocol;
pub mod query;
pub mod records;
pub mod server;
pub mod tracker;

pub use client::Client;
pub use records::AppUsage;
pub use records::Window;
pub use server::Server;

