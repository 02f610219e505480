//! Bootstrap core of a desktop application shell.
//!
//! The library models the composition root of a windowed host process: a
//! builder that accumulates capability registrations (logging, embedded SQL,
//! outbound HTTP) in a declared order, and the terminal decision that maps
//! what the host's run loop reported back to a process outcome. The host
//! framework's event loop itself, and the platform build attributes, live in
//! the surrounding application crate.

pub mod bootstrap;
pub mod capability;
pub mod outcome;
