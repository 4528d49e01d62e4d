//! A coordination-free generator of unique, roughly time-ordered 64-bit
//! identifiers, together with the configuration-entry records that are
//! stamped with them.

pub mod clock;
pub mod codec;
pub mod config;
pub mod error;
pub mod laws;
pub mod registry;
pub mod shared;
pub mod snowflake;

pub use self::config::config_entry::{ConfigEntry, EntryKind};
pub use self::config::config_entry_store::DatabaseError;
