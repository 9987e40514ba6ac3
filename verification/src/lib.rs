//! The state and rules of a counter contract: one shared signed counter and a
//! per-account table of signed integers.
//!
//! A contract runs inside a host, which knows who issued each call and keeps
//! the storage. The library takes the caller's identity as an argument and
//! owns the table, so that every rule is stated and proved without the host.

pub mod account;
pub mod contract;
pub mod laws;
pub mod mapping;

pub use account::AccountId;
pub use contract::{Incrementer, State};
pub use mapping::AccountMapping;
