//! A shared, hot-reloadable configuration store, and the greeting that goes
//! with it.
//!
//! [`store::ConfigStore`] holds the current configuration snapshot. Any number
//! of threads read it and replace it through a shared reference, without locks.
//! [`history`] says what such a store does, call by call, and proves what
//! every reader can rely on. [`slot`] is the boundary to the `arc_swap` crate.

pub mod greeting;
pub mod history;
pub mod rule;
mod slot;
pub mod store;

pub use greeting::greet;
pub use rule::{Rule, Unrestricted};
pub use store::{ConfigStore, SharedSnapshot, StoreError};
