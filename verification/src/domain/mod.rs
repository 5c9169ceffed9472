//! Decisions: what they depend on is handed in, and what follows from them is
//! handed back.

pub mod cleanup;
pub mod delivery;
pub mod execution;
pub mod key;
pub mod location;
pub mod message;
pub mod policy;
pub mod record;
pub mod shared;
