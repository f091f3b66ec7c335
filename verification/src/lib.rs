//! A small telemetry collector core: timestamped sensor readings, the
//! append-only history that holds them, the polling loop's decisions and
//! the start/stop sequencing around it.
//!
//! Everything here works on plain values. Network transfer, JSON text and
//! the host's service manager are the caller's business: the caller performs
//! what the state machines ask for and reports back what happened.

pub mod history;
pub mod lifecycle;
pub mod poller;
pub mod reading;
pub mod sensor;
pub mod service;
pub mod stop;
pub mod trace;
