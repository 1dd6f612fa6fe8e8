use asterisk_bridge::convert::{category_text, parse_category, parse_source, source_text};
use asterisk_bridge::store::{InMemoryStore, VaultStore};
use asterisk_bridge::timestamp::Timestamp;
use asterisk_bridge::vault::{
    Confidence, Provenance, ProvenanceSource, VaultCategory, VaultError, VaultItem, VaultMetadata,
};
use asterisk_bridge::wire::{ProvenanceJson, VaultItemJson, VaultMetadataJson};

fn create_test_item(key: &str) -> VaultItem {
    VaultItem::new(
        key,
        "test_value",
        "Test Label",
        VaultCategory::Contact,
        Provenance {
            source: ProvenanceSource::UserEntered,
            timestamp: Timestamp::now(),
            confidence: Confidence { bits: 1.0f64.to_bits() },
            origin: None,
        },
    )
}

fn item_json(key: &str) -> VaultItemJson {
    VaultItemJson {
        key: key.to_string(),
        value: "a@b.com".to_string(),
        label: "Email".to_string(),
        category: "contact".to_string(),
        provenance: ProvenanceJson {
            source: "user_entered".to_string(),
            timestamp: "2024-01-02T03:04:05Z".to_string(),
            confidence: Confidence { bits: 0.5f64.to_bits() },
            origin: Some("https://example.org/form".to_string()),
        },
        metadata: VaultMetadataJson {
            created: "2024-01-02T03:04:05+00:00".to_string(),
            updated: "2024-01-02T04:04:05+01:00".to_string(),
            last_used: Some("2024-02-01T00:00:00.250Z".to_string()),
            usage_count: 7,
        },
    }
}

#[test]
fn test_in_memory_store_crud() {
    let mut store = InMemoryStore::new();

    // Create
    let item = create_test_item("email");
    store.set("email".to_string(), item.clone()).unwrap();

    // Read
    let retrieved = store.get("email").unwrap().unwrap();
    assert_eq!(retrieved.key, "email");
    assert_eq!(retrieved.value, "test_value");

    // Update
    let mut updated_item = item.clone();
    updated_item.update_value("new_value");
    store.set("email".to_string(), updated_item).unwrap();

    let retrieved = store.get("email").unwrap().unwrap();
    assert_eq!(retrieved.value, "new_value");

    // Delete
    store.delete("email").unwrap();
    assert!(store.get("email").unwrap().is_none());
}

#[test]
fn test_list_items() {
    let mut store = InMemoryStore::new();

    store.set("email".to_string(), create_test_item("email")).unwrap();
    store.set("phone".to_string(), create_test_item("phone")).unwrap();

    let items = store.list().unwrap();
    assert_eq!(items.len(), 2);
}

#[test]
fn test_delete_nonexistent() {
    let mut store = InMemoryStore::new();
    assert!(store.delete("nonexistent").is_err());
}

#[test]
fn test_empty_key() {
    let mut store = InMemoryStore::new();
    let item = create_test_item("");
    assert!(store.set("".to_string(), item).is_err());
}

#[test]
fn test_mark_used() {
    let mut item = create_test_item("test");
    assert_eq!(item.metadata.usage_count, 0);
    assert!(item.metadata.last_used.is_none());

    item.mark_used();
    assert_eq!(item.metadata.usage_count, 1);
    assert!(item.metadata.last_used.is_some());
}

#[test]
fn test_vault_item_update() {
    let mut item = create_test_item("test");
    let original_updated = item.metadata.updated;

    // Wait until the clock has moved on, so that the timestamp changes.
    while !Timestamp::now().is_after(&original_updated) {}

    item.update_value("new_value");
    assert_eq!(item.value, "new_value");
    assert!(item.metadata.updated.is_after(&original_updated));
}

#[test]
fn set_then_get_returns_the_item_unchanged() {
    let mut store = InMemoryStore::new();
    let mut item = create_test_item("email");
    item.provenance.origin = Some("import.csv".to_string());
    item.metadata.usage_count = 41;
    store.set("mail".to_string(), item.clone()).unwrap();
    let back = store.get("mail").unwrap().unwrap();
    assert_eq!(back.key, "email");
    assert_eq!(back.value, item.value);
    assert_eq!(back.label, "Test Label");
    assert_eq!(back.category, VaultCategory::Contact);
    assert_eq!(back.provenance.source, ProvenanceSource::UserEntered);
    assert_eq!(back.provenance.origin, Some("import.csv".to_string()));
    assert_eq!(back.provenance.confidence.bits, 1.0f64.to_bits());
    assert_eq!(back.provenance.timestamp.unix_seconds(), item.provenance.timestamp.unix_seconds());
    assert_eq!(back.metadata.usage_count, 41);
    assert_eq!(back.metadata.created.subsec_nanos(), item.metadata.created.subsec_nanos());
}

#[test]
fn empty_key_is_invalid_and_changes_nothing() {
    let mut store = InMemoryStore::new();
    store.set("phone".to_string(), create_test_item("phone")).unwrap();
    match store.set(String::new(), create_test_item("x")) {
        Err(VaultError::InvalidKey(why)) => assert_eq!(why, "Key cannot be empty"),
        other => panic!("expected InvalidKey, got {:?}", other),
    }
    assert_eq!(store.len(), 1);
    assert!(store.has_key("phone"));
    assert!(!store.has_key(""));
}

#[test]
fn delete_of_absent_key_is_not_found_and_changes_nothing() {
    let mut store = InMemoryStore::new();
    store.set("phone".to_string(), create_test_item("phone")).unwrap();
    match store.delete("email") {
        Err(VaultError::NotFound(which)) => assert_eq!(which, "email"),
        other => panic!("expected NotFound, got {:?}", other),
    }
    assert_eq!(store.len(), 1);
    assert!(store.get("phone").unwrap().is_some());
}

#[test]
fn delete_of_present_key_removes_only_that_key() {
    let mut store = InMemoryStore::new();
    store.set("a".to_string(), create_test_item("a")).unwrap();
    store.set("b".to_string(), create_test_item("b")).unwrap();
    store.set("c".to_string(), create_test_item("c")).unwrap();
    store.delete("b").unwrap();
    assert!(store.get("b").unwrap().is_none());
    assert_eq!(store.get("a").unwrap().unwrap().key, "a");
    assert_eq!(store.get("c").unwrap().unwrap().key, "c");
    assert_eq!(store.len(), 2);
}

#[test]
fn set_replaces_the_whole_item() {
    let mut store = InMemoryStore::new();
    let mut first = create_test_item("email");
    first.metadata.usage_count = 9;
    store.set("email".to_string(), first).unwrap();
    let second = VaultItem::new(
        "email",
        "other",
        "Other",
        VaultCategory::Custom,
        Provenance {
            source: ProvenanceSource::Imported,
            timestamp: Timestamp::now(),
            confidence: Confidence { bits: 0.25f64.to_bits() },
            origin: None,
        },
    );
    store.set("email".to_string(), second).unwrap();
    let back = store.get("email").unwrap().unwrap();
    assert_eq!(back.value, "other");
    assert_eq!(back.category, VaultCategory::Custom);
    assert_eq!(back.metadata.usage_count, 0);
    assert_eq!(store.len(), 1);
}

#[test]
fn clear_removes_everything() {
    let mut store = InMemoryStore::with_items(vec![create_test_item("a"), create_test_item("b")]);
    assert_eq!(store.len(), 2);
    assert!(!store.is_empty());
    store.clear().unwrap();
    assert!(store.is_empty());
    assert_eq!(store.len(), 0);
    assert!(store.list().unwrap().is_empty());
    store.clear().unwrap();
    assert!(store.is_empty());
}

#[test]
fn with_items_skips_empty_keys_and_keeps_the_later_of_two() {
    let mut later = create_test_item("a");
    later.value = "later".to_string();
    let store = InMemoryStore::with_items(vec![
        create_test_item("a"),
        create_test_item(""),
        later,
        create_test_item("b"),
    ]);
    assert_eq!(store.len(), 2);
    assert_eq!(store.get("a").unwrap().unwrap().value, "later");
    assert!(store.has_key("b"));
}

#[test]
fn default_store_is_empty() {
    let store = InMemoryStore::default();
    assert!(store.is_empty());
    assert!(!store.has_key("anything"));
}

#[test]
fn error_messages_name_their_kind() {
    assert_eq!(VaultError::NotFound("k".to_string()).message(), "Item not found: k");
    assert_eq!(VaultError::InvalidKey("bad".to_string()).message(), "Invalid key: bad");
    assert_eq!(
        VaultError::SerializationError("x".to_string()).message(),
        "Serialization error: x"
    );
    assert_eq!(VaultError::StorageError("disk".to_string()).message(), "Storage error: disk");
}

#[test]
fn new_item_has_fresh_metadata() {
    let item = create_test_item("k");
    assert_eq!(item.metadata.usage_count, 0);
    assert!(item.metadata.last_used.is_none());
    assert_eq!(item.metadata.created.unix_seconds(), item.metadata.updated.unix_seconds());
    assert_eq!(item.metadata.created.subsec_nanos(), item.metadata.updated.subsec_nanos());
    let meta = VaultMetadata::default();
    assert_eq!(meta.usage_count, 0);
    assert!(meta.last_used.is_none());
}

#[test]
fn mark_used_at_counts_and_stamps() {
    let mut item = create_test_item("k");
    let at = Timestamp::from_unix(1_700_000_000, 5).unwrap();
    item.mark_used_at(at);
    item.mark_used_at(at);
    assert_eq!(item.metadata.usage_count, 2);
    let used = item.metadata.last_used.unwrap();
    assert_eq!(used.unix_seconds(), 1_700_000_000);
    assert_eq!(used.subsec_nanos(), 5);
    assert_eq!(item.value, "test_value");
}

#[test]
fn names_of_categories_and_sources() {
    assert_eq!(category_text(VaultCategory::Identity), "identity");
    assert_eq!(category_text(VaultCategory::Contact), "contact");
    assert_eq!(category_text(VaultCategory::Address), "address");
    assert_eq!(category_text(VaultCategory::Financial), "financial");
    assert_eq!(category_text(VaultCategory::Custom), "custom");
    assert_eq!(parse_category("financial"), Some(VaultCategory::Financial));
    assert_eq!(parse_category("Financial"), None);
    assert_eq!(source_text(ProvenanceSource::UserEntered), "user_entered");
    assert_eq!(source_text(ProvenanceSource::Imported), "imported");
    assert_eq!(source_text(ProvenanceSource::Autofilled), "autofilled");
    assert_eq!(parse_source("autofilled"), Some(ProvenanceSource::Autofilled));
    assert_eq!(parse_source(""), None);
}

#[test]
fn item_decodes_from_its_wire_form() {
    let item = VaultItem::try_from(item_json("email")).unwrap();
    assert_eq!(item.key, "email");
    assert_eq!(item.value, "a@b.com");
    assert_eq!(item.label, "Email");
    assert_eq!(item.category, VaultCategory::Contact);
    assert_eq!(item.provenance.source, ProvenanceSource::UserEntered);
    assert_eq!(item.provenance.timestamp.unix_seconds(), 1_704_164_645);
    assert_eq!(item.provenance.confidence.bits, 0.5f64.to_bits());
    assert_eq!(item.provenance.origin, Some("https://example.org/form".to_string()));
    assert_eq!(item.metadata.created.unix_seconds(), 1_704_164_645);
    assert_eq!(item.metadata.updated.unix_seconds(), 1_704_164_645);
    let used = item.metadata.last_used.unwrap();
    assert_eq!(used.unix_seconds(), 1_706_745_600);
    assert_eq!(used.subsec_nanos(), 250_000_000);
    assert_eq!(item.metadata.usage_count, 7);
}

#[test]
fn item_shows_as_its_wire_form() {
    let item = VaultItem::try_from(item_json("email")).unwrap();
    let json = VaultItemJson::from(item);
    assert_eq!(json.key, "email");
    assert_eq!(json.category, "contact");
    assert_eq!(json.provenance.source, "user_entered");
    assert_eq!(json.provenance.timestamp, "2024-01-02T03:04:05+00:00");
    assert_eq!(json.provenance.confidence.bits, 0.5f64.to_bits());
    assert_eq!(json.metadata.created, "2024-01-02T03:04:05+00:00");
    assert_eq!(json.metadata.updated, "2024-01-02T03:04:05+00:00");
    assert_eq!(json.metadata.last_used, Some("2024-02-01T00:00:00.250+00:00".to_string()));
    assert_eq!(json.metadata.usage_count, 7);
}

#[test]
fn faults_of_a_wire_item_are_reported_in_order() {
    let mut json = item_json("k");
    json.category = "secret".to_string();
    json.provenance.source = "nowhere".to_string();
    assert_eq!(VaultItem::try_from(json).unwrap_err(), "Invalid category: secret");

    let mut json = item_json("k");
    json.provenance.source = "nowhere".to_string();
    json.provenance.timestamp = "yesterday".to_string();
    assert_eq!(VaultItem::try_from(json).unwrap_err(), "Invalid source: nowhere");

    let mut json = item_json("k");
    json.provenance.timestamp = "yesterday".to_string();
    assert_eq!(
        VaultItem::try_from(json).unwrap_err(),
        "Invalid timestamp: premature end of input"
    );

    let mut json = item_json("k");
    json.metadata.created = "2024-13-02T03:04:05Z".to_string();
    assert_eq!(
        VaultItem::try_from(json).unwrap_err(),
        "Invalid created timestamp: input is out of range"
    );

    let mut json = item_json("k");
    json.metadata.updated = "2024-01-02T03:04:05Zzz".to_string();
    assert_eq!(
        VaultItem::try_from(json).unwrap_err(),
        "Invalid updated timestamp: trailing input"
    );

    let mut json = item_json("k");
    json.metadata.last_used = Some("2024-01-02 03:04:05".to_string());
    assert_eq!(
        VaultItem::try_from(json).unwrap_err(),
        "Invalid last_used timestamp: premature end of input"
    );

    let mut json = item_json("k");
    json.metadata.last_used = None;
    assert!(VaultItem::try_from(json).unwrap().metadata.last_used.is_none());
}
