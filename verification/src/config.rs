//! Configuration entries and what a store of them decides.

pub mod config_entry;
pub mod config_entry_store;
