//! Verified core of a simulated platform geolocation service.
//!
//! The service exposes a small object hierarchy on an inter-process message
//! bus: a manager that allocates per-client sessions, the sessions
//! themselves (a start/stop state machine with a handful of properties),
//! and a read-only location object per session that projects a shared
//! positional fix loaded once at startup.
//!
//! This crate holds the parts with real invariants — path allocation and
//! routing, the session registry, the state machine, and the notification
//! payload built on activation — as verified code. The bus transport and
//! the configuration file reader are unverified collaborators that exchange
//! plain values with this library.

pub mod digits;
pub mod errors;
pub mod fix;
pub mod paths;
pub mod registry;
pub mod router;
pub mod service;
pub mod session;
pub mod signal;
pub mod startup;
