//! The data watcher: bootstrap replay, live projection, claims handling, and
//! the subjects and subscriptions around it.

use wasmbus_core::host::HostState;
use wasmbus_core::json::json_encode;
use wasmbus_core::store::{DataWatcher, Entry, EntryOp, MemStore};
use wasmbus_core::subject::{subject_tail, subscription_plan};
use wasmbus_core::types::dec_str;

fn test_host() -> HostState {
    HostState::new(
        "NHOST".to_string(),
        "default".to_string(),
        "host".to_string(),
        "1.0.0".to_string(),
        Vec::new(),
    )
}

fn put(key: &str, value: &[u8]) -> Entry {
    Entry { key: key.to_string(), value: value.to_vec(), op: EntryOp::Put }
}

#[test]
fn replay_suppresses_events_live_does_not() {
    let mut state = test_host();
    let mut watcher = DataWatcher::new();
    let entry = put(
        "COMPONENT_c1",
        br#"{"reference":"oci://demo:1","max_instances":3}"#,
    );
    let out = watcher.on_entry(&mut state, &entry);
    assert!(out.events.is_empty(), "the bootstrap replay must not emit");
    assert!(out.soft_error.is_none());
    assert_eq!(state.components.len(), 1);
    watcher.finish_replay();
    let entry2 = put(
        "COMPONENT_c2",
        br#"{"reference":"oci://demo:2","max_instances":1}"#,
    );
    let out = watcher.on_entry(&mut state, &entry2);
    assert_eq!(out.events.len(), 1);
    assert_eq!(out.events[0].0, "component_scaled");
    let data: serde_json::Value = serde_json::from_slice(&json_encode(&out.events[0].1)).unwrap();
    assert_eq!(data.get("component_id").and_then(|c| c.as_str()), Some("c2"));
    assert_eq!(data.get("image_ref").and_then(|c| c.as_str()), Some("oci://demo:2"));
    assert_eq!(data.get("max_instances").and_then(|c| c.as_u64()), Some(1));
    assert_eq!(data.get("host_id").and_then(|c| c.as_str()), Some("NHOST"));
}

#[test]
fn bucket_replay_shows_in_inventory() {
    let mut state = test_host();
    let watcher = DataWatcher::new();
    watcher.on_entry(
        &mut state,
        &put("COMPONENT_c1", br#"{"reference":"oci://demo:1","max_instances":3}"#),
    );
    let inv: serde_json::Value =
        serde_json::from_slice(&json_encode(&state.handle_inventory())).unwrap();
    let comps = inv.get("components").and_then(|c| c.as_array()).expect("components listed");
    assert_eq!(comps.len(), 1);
    assert_eq!(comps[0].get("id").and_then(|i| i.as_str()), Some("c1"));
    assert_eq!(comps[0].get("max_instances").and_then(|m| m.as_u64()), Some(3));
}

#[test]
fn component_delete_removes_projection() {
    let mut state = test_host();
    let watcher = DataWatcher::new();
    watcher.on_entry(
        &mut state,
        &put("COMPONENT_c1", br#"{"reference":"oci://demo:1","max_instances":3}"#),
    );
    assert_eq!(state.components.len(), 1);
    let del = Entry { key: "COMPONENT_c1".to_string(), value: Vec::new(), op: EntryOp::Delete };
    let out = watcher.on_entry(&mut state, &del);
    assert!(out.events.is_empty());
    assert!(state.components.is_empty());
}

#[test]
fn claims_with_matching_subject_are_kept() {
    let mut state = test_host();
    let watcher = DataWatcher::new();
    let out = watcher.on_entry(
        &mut state,
        &put(
            "CLAIMS_NKEY",
            br#"{"kind":"component","subject":"NKEY","issuer":"NISSUER","not_before":12}"#,
        ),
    );
    assert!(out.soft_error.is_none());
    assert_eq!(state.claims_components.len(), 1);
    assert_eq!(state.claims_components[0].1.issuer, "NISSUER");
    let claims: serde_json::Value =
        serde_json::from_slice(&json_encode(&state.handle_claims())).unwrap();
    let list = claims.get("claims").and_then(|c| c.as_array()).expect("claims listed");
    assert_eq!(list.len(), 1);
    assert_eq!(list[0].get("subject").and_then(|s| s.as_str()), Some("NKEY"));
    assert_eq!(list[0].get("not_before_human").and_then(|s| s.as_str()), Some("12"));
    assert_eq!(list[0].get("expires_human").and_then(|s| s.as_str()), Some("never"));
}

#[test]
fn claims_with_wrong_subject_are_discarded() {
    let mut state = test_host();
    let watcher = DataWatcher::new();
    let out = watcher.on_entry(
        &mut state,
        &put(
            "CLAIMS_NKEY",
            br#"{"kind":"component","subject":"OTHER","issuer":"NISSUER"}"#,
        ),
    );
    assert!(out.soft_error.is_some());
    assert!(state.claims_components.is_empty());
}

#[test]
fn linkdef_and_refmap_entries_are_ignored() {
    let mut state = test_host();
    let watcher = DataWatcher::new();
    let out = watcher.on_entry(&mut state, &put("LINKDEF_x", b"{}"));
    assert!(out.soft_error.is_none());
    assert!(out.events.is_empty());
    let out = watcher.on_entry(&mut state, &put("REFMAP_x", b"{}"));
    assert!(out.soft_error.is_none());
    let out = watcher.on_entry(&mut state, &put("ODD_x", b"{}"));
    assert!(out.soft_error.is_some(), "an unknown prefix is a soft error");
    let out = watcher.on_entry(&mut state, &put("nounderscore", b"{}"));
    assert!(out.soft_error.is_some());
}

#[test]
fn undecodable_component_entry_is_a_soft_error() {
    let mut state = test_host();
    let watcher = DataWatcher::new();
    let out = watcher.on_entry(&mut state, &put("COMPONENT_c1", b"not json"));
    assert!(out.soft_error.is_some());
    assert!(state.components.is_empty());
}

#[test]
fn claims_delete_clears_both_maps() {
    let mut state = test_host();
    let watcher = DataWatcher::new();
    watcher.on_entry(
        &mut state,
        &put(
            "CLAIMS_NKEY",
            br#"{"kind":"provider","subject":"NKEY","issuer":"NISSUER"}"#,
        ),
    );
    assert_eq!(state.claims_providers.len(), 1);
    let del = Entry { key: "CLAIMS_NKEY".to_string(), value: Vec::new(), op: EntryOp::Delete };
    let out = watcher.on_entry(&mut state, &del);
    assert!(out.soft_error.is_none());
    assert!(state.claims_components.is_empty());
    assert!(state.claims_providers.is_empty());
}

#[test]
fn mem_store_holds_and_forgets() {
    let mut store = MemStore::new();
    store.put("k1".to_string(), b"v1".to_vec());
    store.put("k1".to_string(), b"v2".to_vec());
    assert_eq!(store.get(&"k1".to_string()).map(|v| v.as_slice()), Some(b"v2".as_slice()));
    assert_eq!(store.keys(), vec!["k1".to_string()]);
    store.del(&"k1".to_string());
    assert!(store.get(&"k1".to_string()).is_none());
    store.del(&"k1".to_string());
    assert!(store.keys().is_empty());
}

#[test]
fn subject_tail_drops_prefix_version_and_lattice() {
    assert_eq!(
        subject_tail("wasmbus.ctl.v1.default.config.put.k1"),
        vec!["config".to_string(), "put".to_string(), "k1".to_string()]
    );
    assert_eq!(subject_tail("wasmbus.ctl.v1.default.nope"), vec!["nope".to_string()]);
    assert_eq!(subject_tail("short"), Vec::<String>::new());
}

#[test]
fn subscription_plan_matches_the_table() {
    let plan = subscription_plan(
        &"wasmbus.ctl".to_string(),
        &"default".to_string(),
        &"NHOST".to_string(),
        true,
        false,
    );
    assert_eq!(plan.len(), 10);
    assert_eq!(plan[0].0, "wasmbus.ctl.v1.default.registry.put");
    assert_eq!(plan[0].1, None);
    assert_eq!(plan[2].0, "wasmbus.ctl.v1.default.link.*");
    assert_eq!(plan[2].1, Some("wasmbus.ctl.v1.default.link".to_string()));
    assert_eq!(plan[3].0, "wasmbus.ctl.v1.default.claims.get");
    assert_eq!(plan[3].1, Some("wasmbus.ctl.v1.default.claims".to_string()));
    assert_eq!(plan[4].0, "wasmbus.ctl.v1.default.component.*.NHOST");
    assert_eq!(plan[8].0, "wasmbus.ctl.v1.default.config.>");
    assert_eq!(plan[8].1, Some("wasmbus.ctl.v1.default.config".to_string()));
    assert_eq!(plan[9].0, "wasmbus.ctl.v1.default.component.auction");
    let both = subscription_plan(
        &"wasmbus.ctl".to_string(),
        &"default".to_string(),
        &"NHOST".to_string(),
        true,
        true,
    );
    assert_eq!(both.len(), 11);
    assert_eq!(both[10].0, "wasmbus.ctl.v1.default.provider.auction");
    let neither = subscription_plan(
        &"wasmbus.ctl".to_string(),
        &"default".to_string(),
        &"NHOST".to_string(),
        false,
        false,
    );
    assert_eq!(neither.len(), 9);
}

#[test]
fn decimal_rendering_is_exact() {
    assert_eq!(dec_str(0), "0");
    assert_eq!(dec_str(7), "7");
    assert_eq!(dec_str(10), "10");
    assert_eq!(dec_str(1234567890), "1234567890");
    assert_eq!(dec_str(u64::MAX), "18446744073709551615");
}

#[test]
fn feature_flags_are_additive_and_unknown_is_rejected() {
    let ok = wasmbus_core::builder::Features::from_flag_names(&vec![
        "builtin_http_server".to_string(),
        "messaging_v3".to_string(),
    ])
    .expect("known flags must parse");
    assert!(ok.builtin_http_server);
    assert!(!ok.builtin_messaging);
    assert!(ok.messaging_v3);
    let err = wasmbus_core::builder::Features::from_flag_names(&vec!["warp_drive".to_string()]);
    assert!(err.is_err());
}

#[test]
fn bucket_names_follow_the_lattice() {
    assert_eq!(
        wasmbus_core::builder::lattice_data_bucket(&"default".to_string()),
        "LATTICEDATA_default"
    );
    assert_eq!(
        wasmbus_core::builder::config_data_bucket(&"default".to_string()),
        "CONFIGDATA_default"
    );
    assert!(wasmbus_core::builder::validate_secrets_topic_prefix(&"".to_string()).is_err());
    assert!(wasmbus_core::builder::validate_secrets_topic_prefix(&"s".to_string()).is_ok());
}
