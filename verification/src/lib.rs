//! Mirror synchronisation of locally cloned repositories to an internal git
//! gateway, written as a state machine that performs no I/O of its own.
//!
//! A driver enumerates the working copies, runs the version-control commands,
//! talks to the record store and to the message bus, and hands every result
//! back as an [`engine::Event`]. Every decision is taken here: which
//! repository is skipped, which address the mirror remote points at, which
//! command comes next, what the record says afterwards and whether an event is
//! announced.

pub mod command;
pub mod engine;
pub mod laws;
pub mod push;
pub mod record;
pub mod remote;
pub mod resolver;
pub mod scan;
