//! Caching of non-interactive command output: the decisions, data formats and
//! protocols of `cacheexec`, free of side effects.
//!
//! Callers observe the world (files, locks, processes, signals, the clock),
//! hand what they observed to this library as plain values, and carry out what
//! it decides.

pub mod bytes;
pub mod cli;
pub mod digest;
pub mod domain;
pub mod error;
pub mod shell;
pub mod text;
pub mod time;
