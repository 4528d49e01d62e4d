use galactus_core::registry::{
    make_configuration_service, message_of, to_unsigned_millis, ConfigMessage,
    ConfigurationsEndpoints, ListConfigsReply, Refusal,
};
use galactus_core::{ConfigEntry, DatabaseError, EntryKind};
use std::collections::HashMap;

fn entry(id: i64, kind: EntryKind) -> ConfigEntry {
    let mut meta: HashMap<String, String> = HashMap::new();
    meta.insert("acks".to_string(), "all".to_string());
    ConfigEntry { id, kind, name: format!("entry-{}", id), meta, created_at: 1_000, updated_at: -1 }
}

fn failure() -> DatabaseError {
    DatabaseError { inner: "no hosts".to_string() }
}

#[test]
fn unsigned_millis_keep_the_bits() {
    assert_eq!(to_unsigned_millis(0), 0);
    assert_eq!(to_unsigned_millis(1_577_836_800_000), 1_577_836_800_000);
    assert_eq!(to_unsigned_millis(i64::MAX), 9_223_372_036_854_775_807);
    assert_eq!(to_unsigned_millis(-1), u64::MAX);
    assert_eq!(to_unsigned_millis(-2), u64::MAX - 1);
    assert_eq!(to_unsigned_millis(i64::MIN), 9_223_372_036_854_775_808);
}

#[test]
fn message_of_an_entry() {
    let message: ConfigMessage = message_of(&entry(5, EntryKind::Kafka));
    assert_eq!(message.id, 5);
    assert_eq!(message.kind, 1);
    assert_eq!(message.name, "entry-5");
    assert_eq!(message.metadata, entry(5, EntryKind::Kafka).meta);
    assert_eq!(message.created_at, 1_000);
    assert_eq!(message.updated_at, u64::MAX);
    assert_eq!(message_of(&entry(5, EntryKind::Unknown)).kind, 0);
}

#[test]
fn refusal_messages() {
    assert_eq!(Refusal::NotFound.message(), "unable to find config");
    assert_eq!(Refusal::FailedPrecondition.message(), "error occurred during create");
}

#[test]
fn list_configs_answers_in_the_store_order() {
    let endpoints: ConfigurationsEndpoints = make_configuration_service();
    let stored: Vec<ConfigEntry> = vec![entry(3, EntryKind::Kafka), entry(1, EntryKind::Unknown)];
    let reply: ListConfigsReply = endpoints.list_configs(&stored);
    assert_eq!(reply.configs.len(), 2);
    assert_eq!(reply.configs[0].id, 3);
    assert_eq!(reply.configs[0].kind, 1);
    assert_eq!(reply.configs[1].id, 1);
    assert_eq!(reply.configs[1].kind, 0);
    assert_eq!(reply.next_page_token, "");
    assert!(endpoints.list_configs(&Vec::new()).configs.is_empty());
}

#[test]
fn get_config_found_and_missing() {
    let endpoints: ConfigurationsEndpoints = ConfigurationsEndpoints::default();
    let message: ConfigMessage = endpoints.get_config(Some(entry(4, EntryKind::Kafka))).ok().unwrap();
    assert_eq!(message.id, 4);
    assert_eq!(message.name, "entry-4");
    assert_eq!(endpoints.get_config(None).err(), Some(Refusal::NotFound));
}

#[test]
fn create_config_answers_with_the_assigned_id() {
    let endpoints: ConfigurationsEndpoints = ConfigurationsEndpoints::default();
    let message: ConfigMessage =
        endpoints.create_config(entry(0, EntryKind::Kafka), Ok(4_333_568)).ok().unwrap();
    assert_eq!(message.id, 4_333_568);
    assert_eq!(message.kind, 1);
    assert_eq!(message.name, "entry-0");
    assert_eq!(message.created_at, 1_000);
    assert_eq!(
        endpoints.create_config(entry(0, EntryKind::Kafka), Err(failure())).err(),
        Some(Refusal::FailedPrecondition)
    );
}

#[test]
fn revise_config_replaces_the_options() {
    let endpoints: ConfigurationsEndpoints = ConfigurationsEndpoints::default();
    let mut metadata: HashMap<String, String> = HashMap::new();
    metadata.insert("acks".to_string(), "1".to_string());
    let revised: ConfigEntry =
        endpoints.revise_config(Some(entry(6, EntryKind::Kafka)), metadata.clone()).ok().unwrap();
    assert_eq!(revised.id, 6);
    assert_eq!(revised.name, "entry-6");
    assert_eq!(revised.meta, metadata);
    assert_eq!(revised.created_at, 1_000);
    assert_eq!(endpoints.revise_config(None, metadata).err(), Some(Refusal::NotFound));
}

#[test]
fn update_config_answers_with_the_entry_itself() {
    let endpoints: ConfigurationsEndpoints = ConfigurationsEndpoints::default();
    let message: ConfigMessage =
        endpoints.update_config(entry(6, EntryKind::Kafka), Ok(99)).ok().unwrap();
    assert_eq!(message.id, 6);
    assert_eq!(
        endpoints.update_config(entry(6, EntryKind::Kafka), Err(failure())).err(),
        Some(Refusal::FailedPrecondition)
    );
}
