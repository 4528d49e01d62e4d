//! What a store of configuration entries decides, apart from the queries it
//! sends: how a stored row is read as an entry, how a new entry gets its
//! identifier, and what a write reports.

use crate::codec::{datacenter_of, worker_of};
use crate::error::GeneratorError;
use crate::config::config_entry::{ConfigEntry, EntryKind};
use crate::shared::{issued_by, SharedGenerator};
use crate::snowflake::{issues, refuses, SnowflakeGenerator};
use std::collections::HashMap;
use vstd::prelude::*;

verus! {

/// A failed database operation, with the text of the failure.
#[derive(Debug)]
pub struct DatabaseError {
    pub inner: String,
}

impl DatabaseError {
    /// The same sentence for every failure; the detail is in `inner`.
    pub fn message(&self) -> (r: String)
        ensures
            r@ == "Error occurred during the database operation."@,
    {
        "Error occurred during the database operation.".to_owned()
    }
}

/// The columns of one stored row. `meta` is `None` where the row's column
/// could not be read as a map.
pub struct StoredRow {
    pub id: i64,
    pub name: String,
    pub kind: i32,
    pub meta: Option<HashMap<String, String>>,
    pub created_at: i64,
    pub updated_at: i64,
}

/// The kind that a stored number is read as: 1 is Kafka, every other number
/// unknown.
pub open spec fn stored_kind(code: i32) -> EntryKind {
    if code == 1 {
        EntryKind::Kafka
    } else {
        EntryKind::Unknown
    }
}

/// `entry` is what `row` is read as: the same id, name and times, the kind
/// that the number stands for, and the row's options, or none where the row
/// has no readable map.
pub open spec fn reads_as(row: StoredRow, entry: ConfigEntry) -> bool {
    &&& entry.id == row.id
    &&& entry.kind == stored_kind(row.kind)
    &&& entry.name@ == row.name@
    &&& entry.meta@ == match row.meta {
        Some(meta) => meta@,
        None => Map::<String, String>::empty(),
    }
    &&& entry.created_at == row.created_at
    &&& entry.updated_at == row.updated_at
}

/// Reads one stored row as an entry.
pub fn from_row(row: &StoredRow) -> (entry: ConfigEntry)
    ensures
        reads_as(*row, entry),
{
    let kind = if row.kind == 1 {
        EntryKind::Kafka
    } else {
        EntryKind::Unknown
    };
    let meta: HashMap<String, String> = match &row.meta {
        Some(meta) => meta.clone(),
        None => HashMap::new(),
    };
    ConfigEntry {
        id: row.id,
        kind,
        name: row.name.clone(),
        meta,
        created_at: row.created_at,
        updated_at: row.updated_at,
    }
}

/// Reads every row of a listing as an entry, in the order of the rows.
pub fn list_entries(rows: &Vec<StoredRow>) -> (entries: Vec<ConfigEntry>)
    ensures
        entries@.len() == rows@.len(),
        forall|k: int| 0 <= k < rows@.len() ==> reads_as(rows@[k], #[trigger] entries@[k]),
{
    let mut entries: Vec<ConfigEntry> = Vec::new();
    let mut i: usize = 0;
    while i < rows.len()
        invariant
            i <= rows@.len(),
            entries@.len() == i,
            forall|k: int| 0 <= k < i ==> reads_as(rows@[k], #[trigger] entries@[k]),
        decreases rows@.len() - i,
    {
        let entry = from_row(&rows[i]);
        entries.push(entry);
        i = i + 1;
    }
    entries
}

/// The entry that a lookup found: none where no row came back, else the
/// first row read as an entry.
pub fn first_entry(rows: &Vec<StoredRow>) -> (found: Option<ConfigEntry>)
    ensures
        rows@.len() == 0 <==> found is None,
        found matches Some(entry) ==> reads_as(rows@[0], entry),
{
    if rows.len() == 0 {
        return None;
    }
    Some(from_row(&rows[0]))
}

/// `stamped` is `entry` with `id` in place of its own.
pub open spec fn stamped_with(entry: ConfigEntry, id: i64, stamped: ConfigEntry) -> bool {
    &&& stamped.id == id
    &&& stamped.kind == entry.kind
    &&& stamped.name == entry.name
    &&& stamped.meta == entry.meta
    &&& stamped.created_at == entry.created_at
    &&& stamped.updated_at == entry.updated_at
}

/// Gives a new entry its identifier before it is written: exactly one
/// identifier is taken from the generator. Where the generator fails, the
/// failure is handed on, nothing is taken, and there is no entry to write.
pub fn stamp_entry(generator: &mut SnowflakeGenerator, entry: ConfigEntry) -> (r: Result<
    ConfigEntry,
    GeneratorError,
>)
    requires
        old(generator).wf(),
    ensures
        final(generator).wf(),
        final(generator).config() == old(generator).config(),
        r matches Ok(stamped) ==> 0 <= stamped.id && stamped_with(entry, stamped.id, stamped)
            && issues(
            old(generator).config(),
            old(generator).state(),
            final(generator).state(),
            stamped.id as u64,
        ),
        r matches Err(e) ==> final(generator).state() == old(generator).state() && refuses(
            old(generator).config(),
            old(generator).state(),
            e,
        ),
{
    match generator.next_id() {
        Ok(id) => Ok(
            ConfigEntry {
                id: id as i64,
                kind: entry.kind,
                name: entry.name,
                meta: entry.meta,
                created_at: entry.created_at,
                updated_at: entry.updated_at,
            },
        ),
        Err(e) => Err(e),
    }
}

/// Gives a new entry its identifier from a generator that other callers
/// share. The identifier holds that generator's datacenter and worker ids;
/// where the generator fails, the failure is handed on and there is no entry
/// to write.
pub fn stamp_entry_shared(generator: &SharedGenerator, entry: ConfigEntry) -> (r: Result<
    ConfigEntry,
    GeneratorError,
>)
    requires
        generator.wf(),
    ensures
        r matches Ok(stamped) ==> {
            &&& 0 <= stamped.id
            &&& stamped_with(entry, stamped.id, stamped)
            &&& issued_by(generator.config(), stamped.id as u64)
            &&& datacenter_of(stamped.id as int) == generator.config().datacenter_id
            &&& worker_of(stamped.id as int) == generator.config().worker_id
        },
        r matches Err(e) ==> e is ClockRegression && e->observed <= e->last
            && generator.config().epoch_millis <= e->last,
{
    match generator.next_id() {
        Ok(id) => Ok(
            ConfigEntry {
                id: id as i64,
                kind: entry.kind,
                name: entry.name,
                meta: entry.meta,
                created_at: entry.created_at,
                updated_at: entry.updated_at,
            },
        ),
        Err(e) => Err(e),
    }
}

/// The words with which a store reports that no identifier could be had.
pub open spec fn stamp_failure_text() -> Seq<char> {
    "The identifier generator could not issue an identifier."@
}

/// What an insertion goes on with once the generator has answered: the
/// stamped entry, or, where the generator failed, a database error that says
/// so, to be returned before anything is written.
pub fn stamped_or_failure(stamped: Result<ConfigEntry, GeneratorError>) -> (r: Result<
    ConfigEntry,
    DatabaseError,
>)
    ensures
        stamped matches Ok(entry) ==> r == Ok::<ConfigEntry, DatabaseError>(entry),
        stamped is Err ==> r is Err && r->Err_0.inner@ == stamp_failure_text(),
{
    match stamped {
        Ok(entry) => Ok(entry),
        Err(_) => Err(
            DatabaseError {
                inner: "The identifier generator could not issue an identifier.".to_owned(),
            },
        ),
    }
}

/// What a write reports: the id of the entry where the database accepted
/// it, else an error that holds the database's own words.
pub fn write_outcome(id: i64, failure: Option<String>) -> (r: Result<i64, DatabaseError>)
    ensures
        failure is None ==> r == Ok::<i64, DatabaseError>(id),
        failure matches Some(text) ==> r == Err::<i64, DatabaseError>(
            DatabaseError { inner: text },
        ),
{
    match failure {
        None => Ok(id),
        Some(text) => Err(DatabaseError { inner: text }),
    }
}

} // verus!
