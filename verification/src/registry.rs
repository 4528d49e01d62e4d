//! What the registry's endpoints decide once the store has answered: which
//! message goes back to the caller, or why none does.

use crate::config::config_entry::{kind_code, ConfigEntry};
use crate::config::config_entry_store::DatabaseError;
use std::collections::HashMap;
use vstd::prelude::*;

verus! {

/// The endpoints of the configurations service.
#[derive(Debug)]
pub struct ConfigurationsEndpoints;

impl Default for ConfigurationsEndpoints {
    fn default() -> (r: Self)
        ensures
            r == ConfigurationsEndpoints,
    {
        ConfigurationsEndpoints
    }
}

/// The endpoints that a server is built around.
pub fn make_configuration_service() -> (r: ConfigurationsEndpoints)
    ensures
        r == ConfigurationsEndpoints,
{
    ConfigurationsEndpoints::default()
}

/// A configuration entry as it is sent to a caller.
pub struct ConfigMessage {
    pub id: i64,
    pub kind: i32,
    pub name: String,
    pub metadata: HashMap<String, String>,
    pub created_at: u64,
    pub updated_at: u64,
}

/// The answer to a listing.
pub struct ListConfigsReply {
    pub configs: Vec<ConfigMessage>,
    pub next_page_token: String,
}

/// Why an endpoint sends no message back.
#[derive(Clone, Copy, Debug, PartialEq, Eq, Structural)]
pub enum Refusal {
    /// The store holds no such entry.
    NotFound,
    /// The store did not accept the write.
    FailedPrecondition,
}

/// The words that go with a refusal.
pub open spec fn refusal_text(refusal: Refusal) -> Seq<char> {
    match refusal {
        Refusal::NotFound => "unable to find config"@,
        Refusal::FailedPrecondition => "error occurred during create"@,
    }
}

impl Refusal {
    /// The words that go with the refusal.
    pub fn message(&self) -> (r: &'static str)
        ensures
            r@ == refusal_text(*self),
    {
        match self {
            Refusal::NotFound => "unable to find config",
            Refusal::FailedPrecondition => "error occurred during create",
        }
    }
}

/// A signed millisecond count as the unsigned number with the same 64 bits.
pub open spec fn unsigned_millis(millis: i64) -> int {
    if millis >= 0 {
        millis as int
    } else {
        millis + 0x1_0000_0000_0000_0000
    }
}

/// The unsigned number with the same 64 bits as `millis`.
pub fn to_unsigned_millis(millis: i64) -> (r: u64)
    ensures
        r == unsigned_millis(millis),
{
    if millis >= 0 {
        millis as u64
    } else {
        let below: i64 = -(millis + 1);
        u64::MAX - (below as u64)
    }
}

/// `message` is what is sent for `entry` under the identifier `id`.
pub open spec fn sent_as(entry: ConfigEntry, id: i64, message: ConfigMessage) -> bool {
    &&& message.id == id
    &&& message.kind == kind_code(entry.kind)
    &&& message.name@ == entry.name@
    &&& message.metadata@ == entry.meta@
    &&& message.created_at == unsigned_millis(entry.created_at)
    &&& message.updated_at == unsigned_millis(entry.updated_at)
}

/// The message for an entry, under the entry's own identifier.
pub fn message_of(entry: &ConfigEntry) -> (message: ConfigMessage)
    ensures
        sent_as(*entry, entry.id, message),
{
    ConfigMessage {
        id: entry.id,
        kind: entry.kind.code(),
        name: entry.name.clone(),
        metadata: entry.meta.clone(),
        created_at: to_unsigned_millis(entry.created_at),
        updated_at: to_unsigned_millis(entry.updated_at),
    }
}

impl ConfigurationsEndpoints {
    /// The answer to a listing: one message for each entry that the store
    /// returned, in the store's order, and no token for a next page.
    pub fn list_configs(&self, stored: &Vec<ConfigEntry>) -> (reply: ListConfigsReply)
        ensures
            reply.configs@.len() == stored@.len(),
            forall|k: int|
                0 <= k < stored@.len() ==> sent_as(
                    stored@[k],
                    stored@[k].id,
                    #[trigger] reply.configs@[k],
                ),
            reply.next_page_token@.len() == 0,
    {
        let mut configs: Vec<ConfigMessage> = Vec::new();
        let mut i: usize = 0;
        while i < stored.len()
            invariant
                i <= stored@.len(),
                configs@.len() == i,
                forall|k: int|
                    0 <= k < i ==> sent_as(stored@[k], stored@[k].id, #[trigger] configs@[k]),
            decreases stored@.len() - i,
        {
            let message = message_of(&stored[i]);
            configs.push(message);
            i = i + 1;
        }
        ListConfigsReply { configs, next_page_token: String::new() }
    }

    /// The answer to a lookup: the entry's message where the store found
    /// one, else `NotFound`.
    pub fn get_config(&self, found: Option<ConfigEntry>) -> (r: Result<ConfigMessage, Refusal>)
        ensures
            found matches Some(entry) ==> r is Ok && sent_as(entry, entry.id, r->Ok_0),
            found is None ==> r == Err::<ConfigMessage, Refusal>(Refusal::NotFound),
    {
        match found {
            Some(entry) => Ok(message_of(&entry)),
            None => Err(Refusal::NotFound),
        }
    }

    /// The answer to a creation: where the store wrote the entry, its
    /// message under the identifier that the store assigned, else
    /// `FailedPrecondition`.
    pub fn create_config(&self, config: ConfigEntry, written: Result<i64, DatabaseError>) -> (r:
        Result<ConfigMessage, Refusal>)
        ensures
            written matches Ok(id) ==> r is Ok && sent_as(config, id, r->Ok_0),
            written is Err ==> r == Err::<ConfigMessage, Refusal>(Refusal::FailedPrecondition),
    {
        match written {
            Ok(id) => {
                let message = message_of(&config);
                Ok(
                    ConfigMessage {
                        id,
                        kind: message.kind,
                        name: message.name,
                        metadata: message.metadata,
                        created_at: message.created_at,
                        updated_at: message.updated_at,
                    },
                )
            },
            Err(_) => Err(Refusal::FailedPrecondition),
        }
    }

    /// The entry that an update writes: the stored entry with the new
    /// options, or `NotFound` where the store holds no such entry.
    pub fn revise_config(&self, found: Option<ConfigEntry>, metadata: HashMap<String, String>) -> (r:
        Result<ConfigEntry, Refusal>)
        ensures
            found matches Some(entry) ==> r == Ok::<ConfigEntry, Refusal>(
                ConfigEntry {
                    id: entry.id,
                    kind: entry.kind,
                    name: entry.name,
                    meta: metadata,
                    created_at: entry.created_at,
                    updated_at: entry.updated_at,
                },
            ),
            found is None ==> r == Err::<ConfigEntry, Refusal>(Refusal::NotFound),
    {
        match found {
            Some(entry) => Ok(
                ConfigEntry {
                    id: entry.id,
                    kind: entry.kind,
                    name: entry.name,
                    meta: metadata,
                    created_at: entry.created_at,
                    updated_at: entry.updated_at,
                },
            ),
            None => Err(Refusal::NotFound),
        }
    }

    /// The answer to an update: where the store wrote the revised entry, its
    /// message, else `FailedPrecondition`.
    pub fn update_config(&self, config: ConfigEntry, written: Result<i64, DatabaseError>) -> (r:
        Result<ConfigMessage, Refusal>)
        ensures
            written is Ok ==> r is Ok && sent_as(config, config.id, r->Ok_0),
            written is Err ==> r == Err::<ConfigMessage, Refusal>(Refusal::FailedPrecondition),
    {
        match written {
            Ok(_) => Ok(message_of(&config)),
            Err(_) => Err(Refusal::FailedPrecondition),
        }
    }
}

} // verus!
