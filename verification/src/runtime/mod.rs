//! The decisions of the connector runtimes: what to check, create, register,
//! publish and report, as functions from plain values to plain values. The
//! runtimes that perform them (clients, streams, timers) drive these.

pub mod context;
pub mod sink;
pub mod source;
