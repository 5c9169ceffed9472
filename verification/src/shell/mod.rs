//! The steps of an invocation. Each of these state machines says what it needs
//! next and decides what follows from the answer; processes, files, locks,
//! standard streams, signals and the clock stay with whoever drives it.

pub mod active;
pub mod cleanup;
pub mod lock;
pub mod owner;
pub mod participants;
pub mod publication;
pub mod replay;
pub mod runner;
pub mod sharing;
pub mod signals;
pub mod store;
pub mod verbose;
