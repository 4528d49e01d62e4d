//! A configuration entry and its kind.

use crate::clock::utc_now_millis;
use std::collections::HashMap;
use vstd::prelude::*;
use vstd::std_specs::convert::TryFromSpecImpl;

verus! {

/// The kind of a configuration entry.
#[derive(Clone, Copy, Debug, PartialEq, Eq, Structural)]
pub enum EntryKind {
    Unknown,
    Kafka,
}

/// The number that stands for a kind on the wire and in the store.
pub open spec fn kind_code(kind: EntryKind) -> i32 {
    match kind {
        EntryKind::Unknown => 0,
        EntryKind::Kafka => 1,
    }
}

/// The kind that a number stands for, where it stands for one.
pub open spec fn kind_of_code(code: i32) -> Option<EntryKind> {
    if code == 0 {
        Some(EntryKind::Unknown)
    } else if code == 1 {
        Some(EntryKind::Kafka)
    } else {
        None
    }
}

/// The name of a kind.
pub open spec fn kind_name(kind: EntryKind) -> Seq<char> {
    match kind {
        EntryKind::Kafka => "KAFKA"@,
        EntryKind::Unknown => "UNKNOWN"@,
    }
}

/// Every kind is found again from its number.
pub proof fn lemma_kind_code_round_trip(kind: EntryKind)
    ensures
        kind_of_code(kind_code(kind)) == Some(kind),
{
}

impl EntryKind {
    /// The name of the kind, in capitals.
    pub fn to_str(&self) -> (r: &str)
        ensures
            r@ == kind_name(*self),
    {
        match self {
            EntryKind::Kafka => "KAFKA",
            _ => "UNKNOWN",
        }
    }

    /// The number that stands for the kind.
    pub fn code(&self) -> (r: i32)
        ensures
            r == kind_code(*self),
    {
        match self {
            EntryKind::Unknown => 0,
            EntryKind::Kafka => 1,
        }
    }
}

impl TryFrom<i32> for EntryKind {
    type Error = ();

    /// The kind that `v` stands for; an error for any other number.
    fn try_from(v: i32) -> (r: Result<Self, Self::Error>) {
        if v == 0 {
            Ok(EntryKind::Unknown)
        } else if v == 1 {
            Ok(EntryKind::Kafka)
        } else {
            Err(())
        }
    }
}

impl TryFromSpecImpl<i32> for EntryKind {
    open spec fn obeys_try_from_spec() -> bool {
        true
    }

    open spec fn try_from_spec(v: i32) -> Result<Self, Self::Error> {
        match kind_of_code(v) {
            Some(kind) => Ok(kind),
            None => Err(()),
        }
    }
}

/// A named set of options, stamped with an identifier and with the times of
/// its creation and last change.
#[derive(Clone, Debug, PartialEq)]
pub struct ConfigEntry {
    /// The identifier of the entry; zero until the store assigns one.
    pub id: i64,
    /// The kind of configuration entry.
    pub kind: EntryKind,
    /// Configuration name.
    pub name: String,
    /// The options of the entry, by key.
    pub meta: HashMap<String, String>,
    /// When the entry was created, in milliseconds since the UNIX epoch.
    pub created_at: i64,
    /// When the entry was last changed, in milliseconds since the UNIX epoch.
    pub updated_at: i64,
}

impl ConfigEntry {
    /// An entry created now: both times are read from the clock, one after
    /// the other.
    pub fn new(id: i64, kind: EntryKind, name: String, meta: HashMap<String, String>) -> (r: Result<
        Self,
        &'static str,
    >)
        ensures
            r is Ok,
            r->Ok_0.id == id,
            r->Ok_0.kind == kind,
            r->Ok_0.name == name,
            r->Ok_0.meta == meta,
    {
        let created_at = utc_now_millis();
        let updated_at = utc_now_millis();
        ConfigEntry::init(id, kind, name, meta, created_at, updated_at)
    }

    /// An entry with every field given.
    pub fn init(
        id: i64,
        kind: EntryKind,
        name: String,
        meta: HashMap<String, String>,
        created_at: i64,
        updated_at: i64,
    ) -> (r: Result<Self, &'static str>)
        ensures
            r == Ok::<Self, &'static str>(
                ConfigEntry { id, kind, name, meta, created_at, updated_at },
            ),
    {
        Ok(ConfigEntry { id, kind, name, meta, created_at, updated_at })
    }
}

} // verus!
