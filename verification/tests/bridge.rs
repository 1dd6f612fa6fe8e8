use asterisk_bridge::bridge::{
    answer_commands, answer_commands_now, answer_plain, answer_snapshots, answer_unavailable,
    answer_vault, respond, respond_now, Body, Content, Reply,
};
use asterisk_bridge::desk::{vault_delete, vault_get, vault_list, vault_set, AppState};
use asterisk_bridge::queue::FillCommandState;
use asterisk_bridge::route::{
    domain_of, route, CommandRoute, PlainRoute, Route, SnapshotRoute, VaultRoute,
};
use asterisk_bridge::snapshot::FormSnapshotState;
use asterisk_bridge::store::{InMemoryStore, VaultStore};
use asterisk_bridge::timestamp::Timestamp;
use asterisk_bridge::vault::Confidence;
use asterisk_bridge::wire::{
    FieldFillJson, FillCommandJson, FormFingerprintJson, FormSnapshotJson, ProvenanceJson,
    VaultItemJson, VaultMetadataJson,
};

struct Leaves {
    vault: InMemoryStore,
    snapshots: FormSnapshotState,
    commands: FillCommandState,
}

fn leaves() -> Leaves {
    Leaves {
        vault: InMemoryStore::new(),
        snapshots: FormSnapshotState::new(),
        commands: FillCommandState::new(),
    }
}

fn item_json(key: &str, value: &str) -> VaultItemJson {
    VaultItemJson {
        key: key.to_string(),
        value: value.to_string(),
        label: "Label".to_string(),
        category: "contact".to_string(),
        provenance: ProvenanceJson {
            source: "user_entered".to_string(),
            timestamp: "2024-01-02T03:04:05Z".to_string(),
            confidence: Confidence { bits: 1.0f64.to_bits() },
            origin: None,
        },
        metadata: VaultMetadataJson {
            created: "2024-01-02T03:04:05Z".to_string(),
            updated: "2024-01-02T03:04:05Z".to_string(),
            last_used: None,
            usage_count: 0,
        },
    }
}

fn command(id: &str, domain: &str, expires_at: &str) -> FillCommandJson {
    FillCommandJson {
        id: id.to_string(),
        target_domain: domain.to_string(),
        target_url: None,
        fills: vec![FieldFillJson { field_id: "f1".to_string(), value: "a@b.com".to_string() }],
        created_at: "2024-01-01T00:00:00+00:00".to_string(),
        expires_at: expires_at.to_string(),
    }
}

fn snapshot(url: &str) -> FormSnapshotJson {
    FormSnapshotJson {
        url: url.to_string(),
        domain: "x.com".to_string(),
        title: "T".to_string(),
        captured_at: "2024-01-01T00:00:00Z".to_string(),
        fingerprint: FormFingerprintJson {
            field_count: 0,
            field_types: Vec::new(),
            required_count: 0,
            hash: "h".to_string(),
        },
        fields: Vec::new(),
    }
}

fn now() -> Timestamp {
    Timestamp::parse_rfc3339(NOW_TEXT).unwrap()
}

fn header_pairs(reply: &Reply) -> Vec<(String, String)> {
    reply.headers()
}

fn cors() -> Vec<(String, String)> {
    vec![
        ("Access-Control-Allow-Origin".to_string(), "*".to_string()),
        ("Access-Control-Allow-Methods".to_string(), "GET, POST, DELETE, OPTIONS".to_string()),
        ("Access-Control-Allow-Headers".to_string(), "Content-Type".to_string()),
    ]
}

fn json_headers() -> Vec<(String, String)> {
    let mut h = vec![("Content-Type".to_string(), "application/json".to_string())];
    h.extend(cors());
    h
}

const NOW_TEXT: &str = "2024-06-01T12:00:00+00:00";

#[test]
fn routes_are_matched_by_method_and_address() {
    assert!(matches!(route("OPTIONS", "/anything/at/all"), Route::Plain(PlainRoute::Preflight)));
    assert!(matches!(route("OPTIONS", "/v1/vault"), Route::Plain(PlainRoute::Preflight)));
    assert!(matches!(route("GET", "/health"), Route::Plain(PlainRoute::Health)));
    assert!(matches!(route("GET", "/v1/form-snapshots"), Route::Snapshots(SnapshotRoute::Get)));
    assert!(matches!(route("POST", "/v1/form-snapshots"), Route::Snapshots(SnapshotRoute::Post)));
    assert!(matches!(route("GET", "/v1/vault"), Route::Vault(VaultRoute::List)));
    assert!(matches!(route("POST", "/v1/vault"), Route::Vault(VaultRoute::Post)));
    assert!(matches!(route("POST", "/v1/fill-commands"), Route::Commands(CommandRoute::Post)));
    match route("DELETE", "/v1/vault?key=my%20key") {
        Route::Vault(VaultRoute::Delete { key }) => assert_eq!(key, "my%20key"),
        other => panic!("unexpected route {:?}", other),
    }
    match route("DELETE", "/v1/vault?key=") {
        Route::Vault(VaultRoute::Delete { key }) => assert_eq!(key, ""),
        other => panic!("unexpected route {:?}", other),
    }
    match route("DELETE", "/v1/fill-commands?id=abc-1") {
        Route::Commands(CommandRoute::Ack { id }) => assert_eq!(id, "abc-1"),
        other => panic!("unexpected route {:?}", other),
    }
    match route("GET", "/v1/fill-commands?domain=x.com") {
        Route::Commands(CommandRoute::Poll { domain }) => assert_eq!(domain, Some("x.com".to_string())),
        other => panic!("unexpected route {:?}", other),
    }
    match route("GET", "/v1/fill-commands") {
        Route::Commands(CommandRoute::Poll { domain }) => assert_eq!(domain, None),
        other => panic!("unexpected route {:?}", other),
    }
}

#[test]
fn unmatched_requests_are_not_found() {
    assert!(matches!(route("GET", "/"), Route::Plain(PlainRoute::NotFound)));
    assert!(matches!(route("GET", "/health/"), Route::Plain(PlainRoute::NotFound)));
    assert!(matches!(route("POST", "/health"), Route::Plain(PlainRoute::NotFound)));
    assert!(matches!(route("get", "/health"), Route::Plain(PlainRoute::NotFound)));
    assert!(matches!(route("DELETE", "/v1/vault"), Route::Plain(PlainRoute::NotFound)));
    assert!(matches!(route("DELETE", "/v1/fill-commands"), Route::Plain(PlainRoute::NotFound)));
    assert!(matches!(route("PUT", "/v1/vault"), Route::Plain(PlainRoute::NotFound)));
    assert!(matches!(route("GET", "/v1/vault?key=a"), Route::Plain(PlainRoute::NotFound)));
    assert!(matches!(route("POST", "/v1/fill-commands?domain=x"), Route::Plain(PlainRoute::NotFound)));
}

#[test]
fn poll_address_names_the_domain_between_marks() {
    assert_eq!(domain_of("/v1/fill-commands?domain=a?domain=b"), Some("a".to_string()));
    assert_eq!(domain_of("/v1/fill-commands?domain="), Some(String::new()));
    assert_eq!(domain_of("/v1/fill-commands?id=3"), None);
    assert_eq!(domain_of("?domain=x%2Ecom&y=1"), Some("x%2Ecom&y=1".to_string()));
    assert!(matches!(
        route("GET", "/v1/fill-commands-extra"),
        Route::Commands(CommandRoute::Poll { domain: None })
    ));
}

#[test]
fn preflight_health_and_unknown_answers() {
    let mut l = leaves();
    let r = respond(&mut l.vault, &mut l.snapshots, &mut l.commands, Route::Plain(PlainRoute::Preflight), Body::Absent, now());
    assert_eq!(r.status, 204);
    assert_eq!(r.text(), Some(String::new()));
    assert_eq!(header_pairs(&r), cors());
    let r = respond(&mut l.vault, &mut l.snapshots, &mut l.commands, Route::Plain(PlainRoute::Health), Body::Absent, now());
    assert_eq!(r.status, 200);
    assert_eq!(r.text(), Some("OK".to_string()));
    assert!(!r.announces_json());
    assert_eq!(header_pairs(&r), cors());
    let r = respond(&mut l.vault, &mut l.snapshots, &mut l.commands, Route::Plain(PlainRoute::NotFound), Body::Absent, now());
    assert_eq!(r.status, 404);
    assert_eq!(r.text(), Some("Not Found".to_string()));
    assert_eq!(header_pairs(&r), cors());
}

#[test]
fn snapshot_is_published_and_read_back() {
    let mut l = leaves();
    {
        let r = respond(&mut l.vault, &mut l.snapshots, &mut l.commands, Route::Snapshots(SnapshotRoute::Get), Body::Absent, now());
        assert_eq!(r.status, 200);
        assert!(matches!(r.content, Content::Snapshot(None)));
        assert_eq!(header_pairs(&r), json_headers());
        assert_eq!(r.text(), None);
    }
    {
        let r = respond(
            &mut l.vault,
            &mut l.snapshots,
            &mut l.commands,
            Route::Snapshots(SnapshotRoute::Post),
            Body::Snapshot(snapshot("https://x.com/1")),
            now(),
        );
        assert_eq!(r.status, 200);
        assert_eq!(r.text(), Some("{\"status\":\"ok\"}".to_string()));
        assert_eq!(header_pairs(&r), json_headers());
    }
    {
        let _ = respond(
            &mut l.vault,
            &mut l.snapshots,
            &mut l.commands,
            Route::Snapshots(SnapshotRoute::Post),
            Body::Snapshot(snapshot("https://x.com/2")),
            now(),
        );
    }
    let r = respond(&mut l.vault, &mut l.snapshots, &mut l.commands, Route::Snapshots(SnapshotRoute::Get), Body::Absent, now());
    match r.content {
        Content::Snapshot(Some(s)) => assert_eq!(s.url, "https://x.com/2"),
        other => panic!("unexpected content {:?}", other),
    }
}

#[test]
fn unusable_bodies_are_bad_requests() {
    let mut l = leaves();
    for which in 0..3 {
        let r = respond(
            &mut l.vault,
            &mut l.snapshots,
            &mut l.commands,
            match which {
                0 => Route::Snapshots(SnapshotRoute::Post),
                1 => Route::Vault(VaultRoute::Post),
                _ => Route::Commands(CommandRoute::Post),
            },
            Body::Malformed("expected value at line 1 column 1".to_string()),
            now(),
        );
        assert_eq!(r.status, 400);
        assert_eq!(
            r.text(),
            Some("{\"error\":\"expected value at line 1 column 1\"}".to_string())
        );
        assert_eq!(header_pairs(&r), json_headers());
    }
    for which in 0..3 {
        let r = respond(
            &mut l.vault,
            &mut l.snapshots,
            &mut l.commands,
            match which {
                0 => Route::Snapshots(SnapshotRoute::Post),
                1 => Route::Vault(VaultRoute::Post),
                _ => Route::Commands(CommandRoute::Post),
            },
            Body::Unreadable,
            now(),
        );
        assert_eq!(r.status, 400);
        assert_eq!(r.text(), Some("Bad Request".to_string()));
        assert_eq!(header_pairs(&r), cors());
    }
    let r = respond(
        &mut l.vault,
        &mut l.snapshots,
        &mut l.commands,
        Route::Snapshots(SnapshotRoute::Post),
        Body::FillCommand(command("c", "x.com", "2999-01-01T00:00:00Z")),
        now(),
    );
    assert_eq!(r.status, 400);
    assert_eq!(r.text(), Some("Bad Request".to_string()));
    assert!(l.snapshots.latest().is_none());
    assert!(l.commands.commands.is_empty());
    assert!(l.vault.is_empty());
}

#[test]
fn vault_items_are_stored_listed_and_deleted() {
    let mut l = leaves();
    let r = respond(
        &mut l.vault,
        &mut l.snapshots,
        &mut l.commands,
        Route::Vault(VaultRoute::Post),
        Body::VaultItem(item_json("my key", "a@b.com")),
        now(),
    );
    assert_eq!(r.status, 200);
    assert_eq!(r.text(), Some("{\"status\":\"ok\"}".to_string()));
    assert_eq!(l.vault.get("my key").unwrap().unwrap().value, "a@b.com");

    let r = respond(&mut l.vault, &mut l.snapshots, &mut l.commands, Route::Vault(VaultRoute::List), Body::Absent, now());
    assert_eq!(r.status, 200);
    assert_eq!(header_pairs(&r), json_headers());
    match r.content {
        Content::VaultItems(items) => {
            assert_eq!(items.len(), 1);
            assert_eq!(items[0].key, "my key");
            assert_eq!(items[0].category, "contact");
            assert_eq!(items[0].metadata.created, "2024-01-02T03:04:05+00:00");
        },
        other => panic!("unexpected content {:?}", other),
    }

    let r = respond(
        &mut l.vault,
        &mut l.snapshots,
        &mut l.commands,
        route("DELETE", "/v1/vault?key=my%20key"),
        Body::Absent,
        now(),
    );
    assert_eq!(r.status, 200);
    assert_eq!(r.text(), Some("{\"status\":\"ok\"}".to_string()));
    assert!(l.vault.is_empty());

    let r = respond(
        &mut l.vault,
        &mut l.snapshots,
        &mut l.commands,
        route("DELETE", "/v1/vault?key=absent"),
        Body::Absent,
        now(),
    );
    assert_eq!(r.status, 200);
    assert_eq!(r.text(), Some("{\"status\":\"ok\"}".to_string()));
}

#[test]
fn vault_item_with_a_fault_is_refused() {
    let mut l = leaves();
    let mut json = item_json("k", "v");
    json.category = "secret".to_string();
    let r = respond(
        &mut l.vault,
        &mut l.snapshots,
        &mut l.commands,
        Route::Vault(VaultRoute::Post),
        Body::VaultItem(json),
        now(),
    );
    assert_eq!(r.status, 400);
    assert_eq!(r.text(), Some("{\"error\":\"Invalid category: secret\"}".to_string()));
    assert!(l.vault.is_empty());
}

#[test]
fn vault_item_with_an_empty_key_is_refused_as_invalid() {
    let mut l = leaves();
    l.vault.set(
        "phone".to_string(),
        asterisk_bridge::vault::VaultItem::try_from(item_json("phone", "1")).unwrap(),
    )
    .unwrap();
    let r = respond(
        &mut l.vault,
        &mut l.snapshots,
        &mut l.commands,
        Route::Vault(VaultRoute::Post),
        Body::VaultItem(item_json("", "v")),
        now(),
    );
    assert_eq!(r.status, 400);
    assert_eq!(r.text(), Some("{\"error\":\"Invalid key: Key cannot be empty\"}".to_string()));
    assert_eq!(header_pairs(&r), json_headers());
    assert_eq!(l.vault.len(), 1);
    assert!(l.vault.has_key("phone"));
}

#[test]
fn error_bodies_are_json_whatever_the_message_holds() {
    let mut l = leaves();
    let message = "invalid type: string \"x\", expected u32 at line 1 column 9\n\\";
    let r = respond(
        &mut l.vault,
        &mut l.snapshots,
        &mut l.commands,
        Route::Snapshots(SnapshotRoute::Post),
        Body::Malformed(message.to_string()),
        now(),
    );
    assert_eq!(r.status, 400);
    let text = r.text().unwrap();
    assert_eq!(
        text,
        "{\"error\":\"invalid type: string \\\"x\\\", expected u32 at line 1 column 9\\u000a\\\\\"}"
    );
    let read: serde_json::Value = serde_json::from_str(&text).unwrap();
    assert_eq!(read.get("error").and_then(|e| e.as_str()), Some(message));

    let mut json = item_json("k", "v");
    json.category = "se\"cret".to_string();
    let r = respond(
        &mut l.vault,
        &mut l.snapshots,
        &mut l.commands,
        Route::Vault(VaultRoute::Post),
        Body::VaultItem(json),
        now(),
    );
    assert_eq!(r.status, 400);
    let read: serde_json::Value = serde_json::from_str(&r.text().unwrap()).unwrap();
    assert_eq!(read.get("error").and_then(|e| e.as_str()), Some("Invalid category: se\"cret"));
    assert!(l.vault.is_empty());
}

#[test]
fn unreachable_state_is_answered_with_an_error() {
    let r = answer_unavailable("poisoned lock: another task failed inside");
    assert_eq!(r.status, 500);
    assert_eq!(
        r.text(),
        Some("{\"error\":\"poisoned lock: another task failed inside\"}".to_string())
    );
    assert_eq!(header_pairs(&r), json_headers());
}

#[test]
fn poll_compares_the_expiry_as_time() {
    let mut l = leaves();
    l.commands.publish(command("c", "x.com", "2030-01-01T00:00:00Z"));
    {
        let r = respond(
            &mut l.vault,
            &mut l.snapshots,
            &mut l.commands,
            route("GET", "/v1/fill-commands?domain=x.com"),
            Body::Absent,
            Timestamp::parse_rfc3339("2030-01-01T00:00:00.500+00:00").unwrap(),
        );
        assert!(matches!(r.content, Content::Commands(ref found) if found.is_empty()));
    }
    let r = respond(
        &mut l.vault,
        &mut l.snapshots,
        &mut l.commands,
        route("GET", "/v1/fill-commands"),
        Body::Absent,
        Timestamp::parse_rfc3339("2030-01-01T00:59:59+01:00").unwrap(),
    );
    assert!(matches!(r.content, Content::Commands(ref found) if found.len() == 1));
}

#[test]
fn fill_command_is_polled_until_acknowledged() {
    let mut l = leaves();
    l.vault.set(
        "email".to_string(),
        asterisk_bridge::vault::VaultItem::try_from(item_json("email", "a@b.com")).unwrap(),
    )
    .unwrap();
    let now = Timestamp::now();
    let in_an_hour = Timestamp::from_unix(now.unix_seconds() + 3600, 0).unwrap().to_rfc3339();
    {
        let r = respond_now(
            &mut l.vault,
            &mut l.snapshots,
            &mut l.commands,
            route("POST", "/v1/fill-commands"),
            Body::FillCommand(command("cmd-1", "x.com", &in_an_hour)),
        );
        assert_eq!(r.status, 200);
        assert_eq!(r.text(), Some("{\"status\":\"ok\"}".to_string()));
    }
    {
        let r = respond_now(
            &mut l.vault,
            &mut l.snapshots,
            &mut l.commands,
            route("GET", "/v1/fill-commands?domain=x.com"),
            Body::Absent,
        );
        assert_eq!(r.status, 200);
        assert_eq!(header_pairs(&r), json_headers());
        match r.content {
            Content::Commands(found) => {
                assert_eq!(found.len(), 1);
                assert_eq!(found[0].id, "cmd-1");
                assert_eq!(found[0].target_domain, "x.com");
                assert_eq!(found[0].fills.len(), 1);
                assert_eq!(found[0].fills[0].field_id, "f1");
                assert_eq!(found[0].fills[0].value, "a@b.com");
                assert_eq!(found[0].expires_at, in_an_hour);
            },
            other => panic!("unexpected content {:?}", other),
        }
    }
    {
        let r = respond_now(
            &mut l.vault,
            &mut l.snapshots,
            &mut l.commands,
            route("DELETE", "/v1/fill-commands?id=cmd-1"),
            Body::Absent,
        );
        assert_eq!(r.status, 200);
        assert_eq!(r.text(), Some("{\"status\":\"ok\"}".to_string()));
    }
    let r = respond_now(
        &mut l.vault,
        &mut l.snapshots,
        &mut l.commands,
        route("GET", "/v1/fill-commands?domain=x.com"),
        Body::Absent,
    );
    assert!(matches!(r.content, Content::Commands(ref found) if found.is_empty()));
}

#[test]
fn poll_decodes_the_domain_and_hides_expired_commands() {
    let mut l = leaves();
    l.commands.publish(command("1", "my site", "2024-06-01T12:00:01+00:00"));
    l.commands.publish(command("2", "my site", "2024-06-01T12:00:00+00:00"));
    l.commands.publish(command("3", "other", "2024-06-01T12:00:01+00:00"));
    {
        let r = respond(
            &mut l.vault,
            &mut l.snapshots,
            &mut l.commands,
            route("GET", "/v1/fill-commands?domain=my%20site"),
            Body::Absent,
            now(),
        );
        match r.content {
            Content::Commands(found) => {
                assert_eq!(found.len(), 1);
                assert_eq!(found[0].id, "1");
            },
            other => panic!("unexpected content {:?}", other),
        }
    }
    let r = respond(
        &mut l.vault,
        &mut l.snapshots,
        &mut l.commands,
        route("GET", "/v1/fill-commands"),
        Body::Absent,
        now(),
    );
    match r.content {
        Content::Commands(found) => assert_eq!(found.len(), 2),
        other => panic!("unexpected content {:?}", other),
    }
    assert_eq!(l.commands.commands.len(), 3);
}

#[test]
fn acknowledging_decodes_the_id() {
    let mut l = leaves();
    l.commands.publish(command("a b", "x.com", "2999-01-01T00:00:00Z"));
    let _ = respond(
        &mut l.vault,
        &mut l.snapshots,
        &mut l.commands,
        route("DELETE", "/v1/fill-commands?id=a%20b"),
        Body::Absent,
        now(),
    );
    assert!(l.commands.commands.is_empty());
}

#[test]
fn desktop_calls_reach_the_same_vault() {
    let mut state = AppState { vault: InMemoryStore::new() };
    vault_set("email".to_string(), item_json("email", "a@b.com"), &mut state).unwrap();
    let got = vault_get("email".to_string(), &state).unwrap().unwrap();
    assert_eq!(got.value, "a@b.com");
    assert_eq!(got.provenance.timestamp, "2024-01-02T03:04:05+00:00");
    assert!(vault_get("phone".to_string(), &state).unwrap().is_none());
    assert_eq!(vault_list(&state).unwrap().len(), 1);
    vault_delete("email".to_string(), &mut state).unwrap();
    assert!(vault_list(&state).unwrap().is_empty());
}

#[test]
fn desktop_calls_report_errors_in_words() {
    let mut state = AppState { vault: InMemoryStore::new() };
    assert_eq!(
        vault_set(String::new(), item_json("", "v"), &mut state),
        Err("Invalid key: Key cannot be empty".to_string())
    );
    let mut bad = item_json("k", "v");
    bad.provenance.source = "guess".to_string();
    assert_eq!(
        vault_set("k".to_string(), bad, &mut state),
        Err("Invalid source: guess".to_string())
    );
    assert_eq!(
        vault_delete("nope".to_string(), &mut state),
        Err("Item not found: nope".to_string())
    );
    assert!(state.vault.is_empty());
}

#[test]
fn each_part_of_the_state_answers_for_itself() {
    let mut l = leaves();
    assert_eq!(answer_plain(PlainRoute::Health).text(), Some("OK".to_string()));
    assert_eq!(answer_plain(PlainRoute::Preflight).status, 204);
    {
        let r = answer_snapshots(&mut l.snapshots, SnapshotRoute::Post, Body::Absent);
        assert_eq!(r.status, 400);
        assert_eq!(r.text(), Some("Bad Request".to_string()));
    }
    {
        let r = answer_vault(&mut l.vault, VaultRoute::Post, Body::VaultItem(item_json("k", "v")));
        assert_eq!(r.status, 200);
    }
    assert!(l.vault.has_key("k"));
    {
        let r = answer_commands(
            &mut l.commands,
            CommandRoute::Post,
            Body::FillCommand(command("c", "x.com", "2024-06-01T12:00:01+00:00")),
            now(),
        );
        assert_eq!(r.status, 200);
    }
    {
        let r = answer_commands(&mut l.commands, CommandRoute::Poll { domain: None }, Body::Absent, now());
        assert!(matches!(r.content, Content::Commands(ref found) if found.len() == 1));
    }
    let r = answer_commands_now(&mut l.commands, CommandRoute::Poll { domain: None }, Body::Absent);
    assert!(matches!(r.content, Content::Commands(ref found) if found.is_empty()));
}
