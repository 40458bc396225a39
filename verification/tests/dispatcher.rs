//! The dispatcher end to end: routing, envelopes, and the per-verb handlers,
//! driven through real JSON bytes.

use wasmbus_core::builder::HostBuilder;
use wasmbus_core::ctl::{handle_ctl_message, CtlOutcome, CtlReply};
use wasmbus_core::host::HostState;
use wasmbus_core::json::json_encode;
use wasmbus_core::policy::DefaultPolicyManager;
use wasmbus_core::types::StoreOp;

fn test_host() -> HostState {
    HostState::new(
        "NHOST".to_string(),
        "default".to_string(),
        "calm-haze-1234".to_string(),
        "1.0.0".to_string(),
        vec![("kind".to_string(), "test".to_string())],
    )
}

fn dispatch(state: &mut HostState, subject: &str, payload: &[u8]) -> CtlOutcome {
    let policy = DefaultPolicyManager::new();
    handle_ctl_message(state, subject, &payload.to_vec(), &policy, 7)
}

fn reply_json(out: &CtlOutcome) -> serde_json::Value {
    match &out.reply {
        CtlReply::Bytes(b) => serde_json::from_slice(b).expect("reply must be JSON"),
        other => panic!("expected an encoded reply, got {:?}", std::mem::discriminant(other)),
    }
}

fn event_json(ev: &(String, wasmbus_core::json::JVal)) -> serde_json::Value {
    serde_json::from_slice(&json_encode(&ev.1)).expect("event payload must encode")
}

#[test]
fn unknown_subject_is_rejected() {
    let mut state = test_host();
    let out = dispatch(&mut state, "wasmbus.ctl.v1.default.nope", b"{}");
    let v = reply_json(&out);
    assert_eq!(v.get("success").and_then(|s| s.as_bool()), Some(false));
    assert_eq!(
        v.get("error").and_then(|e| e.as_str()),
        Some("unsupported subject")
    );
    assert!(out.events.is_empty());
    assert!(out.ops.is_empty());
}

#[test]
fn scale_round_trip_writes_component() {
    let mut state = test_host();
    let out = dispatch(
        &mut state,
        "wasmbus.ctl.v1.default.component.scale.NHOST",
        br#"{"component_id":"c1","reference":"oci://demo:1","max_instances":3}"#,
    );
    let v = reply_json(&out);
    assert_eq!(v.get("success").and_then(|s| s.as_bool()), Some(true));
    assert!(v.get("response").is_some());
    assert!(out.events.is_empty());
    assert_eq!(out.ops.len(), 1);
    match &out.ops[0] {
        StoreOp::PutData(key, value) => {
            assert_eq!(key, "COMPONENT_c1");
            let stored: serde_json::Value =
                serde_json::from_slice(value).expect("stored spec must be JSON");
            assert_eq!(
                stored.get("reference").and_then(|r| r.as_str()),
                Some("oci://demo:1")
            );
            assert_eq!(
                stored.get("max_instances").and_then(|m| m.as_u64()),
                Some(3)
            );
        }
        _ => panic!("scale must write the component spec"),
    }
}

#[test]
fn scale_rejects_changing_reference_and_count_at_once() {
    let mut state = test_host();
    // First scale: c1 at oci://demo:1 with 3 instances, echoed into the projection.
    let out = dispatch(
        &mut state,
        "wasmbus.ctl.v1.default.component.scale.NHOST",
        br#"{"component_id":"c1","reference":"oci://demo:1","max_instances":3}"#,
    );
    let (key, value) = match &out.ops[0] {
        StoreOp::PutData(k, v) => (k.clone(), v.clone()),
        _ => panic!("scale must write the component spec"),
    };
    let watcher = wasmbus_core::store::DataWatcher::new();
    let entry = wasmbus_core::store::Entry {
        key,
        value,
        op: wasmbus_core::store::EntryOp::Put,
    };
    watcher.on_entry(&mut state, &entry);
    // Now a scale that changes both the reference and the count must fail
    // and announce component_scale_failed with a non-empty error.
    let out = dispatch(
        &mut state,
        "wasmbus.ctl.v1.default.component.scale.NHOST",
        br#"{"component_id":"c1","reference":"oci://demo:2","max_instances":5}"#,
    );
    let v = reply_json(&out);
    assert_eq!(v.get("success").and_then(|s| s.as_bool()), Some(false));
    assert!(!v.get("error").and_then(|e| e.as_str()).expect("error text").is_empty());
    assert_eq!(out.events.len(), 1);
    assert_eq!(out.events[0].0, "component_scale_failed");
    let data = event_json(&out.events[0]);
    assert_eq!(data.get("component_id").and_then(|c| c.as_str()), Some("c1"));
    assert!(!data.get("error").and_then(|e| e.as_str()).expect("event error").is_empty());
    assert!(out.ops.is_empty());
}

#[test]
fn scale_decode_error_reports_message() {
    let mut state = test_host();
    let out = dispatch(
        &mut state,
        "wasmbus.ctl.v1.default.component.scale.NHOST",
        br#"{"component_id":"c1"}"#,
    );
    let v = reply_json(&out);
    assert_eq!(v.get("success").and_then(|s| s.as_bool()), Some(false));
    assert!(!v.get("error").and_then(|e| e.as_str()).expect("error text").is_empty());
    assert!(out.events.is_empty());
    assert!(out.ops.is_empty());
}

#[test]
fn link_dedupe_and_delete() {
    let mut state = test_host();
    let put = br#"{"source_id":"s1","target":"t1","name":"default","wit_namespace":"wasi","wit_package":"http"}"#;
    let out1 = dispatch(&mut state, "wasmbus.ctl.v1.default.link.put", put);
    assert_eq!(out1.events.len(), 1);
    assert_eq!(out1.events[0].0, "linkdef_set");
    let out2 = dispatch(&mut state, "wasmbus.ctl.v1.default.link.put", put);
    assert_eq!(out2.events.len(), 1);
    assert_eq!(out2.events[0].0, "linkdef_set");
    assert_eq!(state.links.len(), 1);
    let del = br#"{"source_id":"s1","name":"default","wit_namespace":"wasi","wit_package":"http"}"#;
    let out3 = dispatch(&mut state, "wasmbus.ctl.v1.default.link.del", del);
    assert_eq!(out3.events.len(), 1);
    assert_eq!(out3.events[0].0, "linkdef_deleted");
    let data = event_json(&out3.events[0]);
    assert_eq!(data.get("target").and_then(|t| t.as_str()), Some("t1"));
    assert!(state.links.is_empty());
    let get = dispatch(&mut state, "wasmbus.ctl.v1.default.link.get", b"");
    let v = reply_json(&get);
    assert_eq!(v.get("links").and_then(|l| l.as_array()).map(|a| a.len()), Some(0));
}

#[test]
fn link_delete_of_absent_link_degrades_event() {
    let mut state = test_host();
    let del = br#"{"source_id":"s1","name":"default","wit_namespace":"wasi","wit_package":"http"}"#;
    let out = dispatch(&mut state, "wasmbus.ctl.v1.default.link.del", del);
    let v = reply_json(&out);
    assert_eq!(v.get("success").and_then(|s| s.as_bool()), Some(true));
    assert_eq!(out.events.len(), 1);
    let data = event_json(&out.events[0]);
    assert!(data.get("target").is_none());
    assert!(data.get("interfaces").is_none());
    assert_eq!(data.get("source_id").and_then(|s| s.as_str()), Some("s1"));
}

#[test]
fn auction_without_matching_labels_stays_silent() {
    let mut state = test_host();
    let out = dispatch(
        &mut state,
        "wasmbus.ctl.v1.default.component.auction",
        br#"{"component_ref":"oci://demo:1","component_id":"c1","constraints":{"zone":"east"}}"#,
    );
    assert!(matches!(out.reply, CtlReply::NoReply));
    assert!(out.events.is_empty());
    assert!(out.ops.is_empty());
}

#[test]
fn auction_with_matching_labels_bids() {
    let mut state = test_host();
    let out = dispatch(
        &mut state,
        "wasmbus.ctl.v1.default.component.auction",
        br#"{"component_ref":"oci://demo:1","component_id":"c1","constraints":{"kind":"test"}}"#,
    );
    let v = reply_json(&out);
    assert_eq!(v.get("success").and_then(|s| s.as_bool()), Some(true));
    let ack = v.get("response").expect("bid must carry the acknowledgement");
    assert_eq!(ack.get("component_id").and_then(|c| c.as_str()), Some("c1"));
    assert_eq!(ack.get("host_id").and_then(|h| h.as_str()), Some("NHOST"));
}

#[test]
fn ping_reports_identity_uptime_and_labels() {
    let mut state = test_host();
    let out = dispatch(&mut state, "wasmbus.ctl.v1.default.host.ping", b"");
    let v = reply_json(&out);
    let resp = v.get("response").expect("ping must respond");
    assert_eq!(resp.get("id").and_then(|i| i.as_str()), Some("NHOST"));
    assert_eq!(resp.get("uptime_seconds").and_then(|u| u.as_u64()), Some(7));
    assert_eq!(resp.get("lattice").and_then(|l| l.as_str()), Some("default"));
    assert_eq!(resp.get("version").and_then(|l| l.as_str()), Some("1.0.0"));
    assert_eq!(
        resp.get("labels").and_then(|l| l.get("kind")).and_then(|k| k.as_str()),
        Some("test")
    );
}

#[test]
fn labels_put_and_del_announce_full_map() {
    let mut state = test_host();
    let out = dispatch(
        &mut state,
        "wasmbus.ctl.v1.default.label.put.NHOST",
        br#"{"key":"zone","value":"east"}"#,
    );
    assert_eq!(out.events.len(), 1);
    assert_eq!(out.events[0].0, "labels_changed");
    let data = event_json(&out.events[0]);
    assert_eq!(
        data.get("labels").and_then(|l| l.get("zone")).and_then(|z| z.as_str()),
        Some("east")
    );
    let out = dispatch(
        &mut state,
        "wasmbus.ctl.v1.default.label.del.NHOST",
        br#"{"key":"zone"}"#,
    );
    let data = event_json(&out.events[0]);
    assert!(data.get("labels").and_then(|l| l.get("zone")).is_none());
    assert_eq!(out.events[0].0, "labels_changed");
}

#[test]
fn provider_start_is_idempotent_and_stop_announces() {
    let mut state = test_host();
    let start = br#"{"provider_id":"p1","provider_ref":"oci://prov:1"}"#;
    let out1 = dispatch(&mut state, "wasmbus.ctl.v1.default.provider.start.NHOST", start);
    assert_eq!(reply_json(&out1).get("success").and_then(|s| s.as_bool()), Some(true));
    assert_eq!(out1.events.len(), 1);
    assert_eq!(out1.events[0].0, "provider_started");
    let out2 = dispatch(&mut state, "wasmbus.ctl.v1.default.provider.start.NHOST", start);
    assert_eq!(reply_json(&out2).get("success").and_then(|s| s.as_bool()), Some(true));
    assert!(out2.events.is_empty(), "a repeated start must not duplicate the instance");
    assert_eq!(state.providers.len(), 1);
    let out3 = dispatch(
        &mut state,
        "wasmbus.ctl.v1.default.provider.stop.NHOST",
        br#"{"provider_id":"p1"}"#,
    );
    assert_eq!(out3.events.len(), 1);
    assert_eq!(out3.events[0].0, "provider_stopped");
    let data = event_json(&out3.events[0]);
    assert_eq!(data.get("reason").and_then(|r| r.as_str()), Some("stop"));
    assert!(state.providers.is_empty());
}

#[test]
fn stop_host_records_deadline() {
    let mut state = test_host();
    let out = dispatch(
        &mut state,
        "wasmbus.ctl.v1.default.host.stop.NHOST",
        br#"{"timeout":500}"#,
    );
    assert_eq!(reply_json(&out).get("success").and_then(|s| s.as_bool()), Some(true));
    assert_eq!(state.stop_deadline, Some(500));
}

#[test]
fn config_put_get_del_flow() {
    let mut state = test_host();
    let out = dispatch(
        &mut state,
        "wasmbus.ctl.v1.default.config.put.k1",
        br#"{"a":"1"}"#,
    );
    assert_eq!(reply_json(&out).get("success").and_then(|s| s.as_bool()), Some(true));
    assert_eq!(out.events.len(), 1);
    assert_eq!(out.events[0].0, "config_set");
    assert!(matches!(&out.ops[0], StoreOp::PutConfig(name, _) if name == "k1"));
    let out = dispatch(&mut state, "wasmbus.ctl.v1.default.config.get.k1", b"");
    assert!(matches!(&out.reply, CtlReply::ConfigValue(name) if name == "k1"));
    let out = dispatch(&mut state, "wasmbus.ctl.v1.default.config.del.k1", b"");
    assert_eq!(out.events[0].0, "config_deleted");
    assert!(matches!(&out.ops[0], StoreOp::DelConfig(name) if name == "k1"));
}

#[test]
fn config_put_rejects_non_map_payload() {
    let mut state = test_host();
    let out = dispatch(
        &mut state,
        "wasmbus.ctl.v1.default.config.put.k1",
        br#"{"a":1}"#,
    );
    let v = reply_json(&out);
    assert_eq!(v.get("success").and_then(|s| s.as_bool()), Some(false));
    assert!(out.events.is_empty());
    assert!(out.ops.is_empty());
}

#[test]
fn registry_put_replaces_credentials() {
    let mut state = test_host();
    let out = dispatch(
        &mut state,
        "wasmbus.ctl.v1.default.registry.put",
        br#"{"ghcr.io":{"username":"u","password":"SECRET-REDACTED","allow_latest":true}}"#,
    );
    assert_eq!(reply_json(&out).get("success").and_then(|s| s.as_bool()), Some(true));
    assert_eq!(state.registry_config.len(), 1);
    assert_eq!(state.registry_config[0].0, "ghcr.io");
    assert!(state.registry_config[0].1.allow_latest);
    assert!(!state.registry_config[0].1.allow_insecure);
}

#[test]
fn update_component_is_noop_on_same_reference() {
    let mut state = test_host();
    let out = dispatch(
        &mut state,
        "wasmbus.ctl.v1.default.component.scale.NHOST",
        br#"{"component_id":"c1","reference":"oci://demo:1","max_instances":3}"#,
    );
    let (key, value) = match &out.ops[0] {
        StoreOp::PutData(k, v) => (k.clone(), v.clone()),
        _ => panic!("scale must write"),
    };
    let watcher = wasmbus_core::store::DataWatcher::new();
    watcher.on_entry(
        &mut state,
        &wasmbus_core::store::Entry { key, value, op: wasmbus_core::store::EntryOp::Put },
    );
    let out = dispatch(
        &mut state,
        "wasmbus.ctl.v1.default.component.update.NHOST",
        br#"{"component_id":"c1","new_reference":"oci://demo:1"}"#,
    );
    assert_eq!(reply_json(&out).get("success").and_then(|s| s.as_bool()), Some(true));
    assert!(out.ops.is_empty(), "updating to the same reference must write nothing");
    let out = dispatch(
        &mut state,
        "wasmbus.ctl.v1.default.component.update.NHOST",
        br#"{"component_id":"c1","new_reference":"oci://demo:2"}"#,
    );
    assert_eq!(out.ops.len(), 1);
    match &out.ops[0] {
        StoreOp::PutData(key, value) => {
            assert_eq!(key, "COMPONENT_c1");
            let stored: serde_json::Value = serde_json::from_slice(value).unwrap();
            assert_eq!(stored.get("reference").and_then(|r| r.as_str()), Some("oci://demo:2"));
            assert_eq!(stored.get("max_instances").and_then(|m| m.as_u64()), Some(3));
        }
        _ => panic!("update must write the new spec"),
    }
}

#[test]
fn stop_of_absent_provider_succeeds_quietly() {
    let mut state = test_host();
    let out = dispatch(
        &mut state,
        "wasmbus.ctl.v1.default.provider.stop.NHOST",
        br#"{"provider_id":"ghost"}"#,
    );
    assert_eq!(reply_json(&out).get("success").and_then(|s| s.as_bool()), Some(true));
    assert!(out.events.is_empty());
}

#[test]
fn scale_rejects_oversized_instance_count() {
    let mut state = test_host();
    let out = dispatch(
        &mut state,
        "wasmbus.ctl.v1.default.component.scale.NHOST",
        br#"{"component_id":"c1","reference":"oci://demo:1","max_instances":4294967296}"#,
    );
    let v = reply_json(&out);
    assert_eq!(v.get("success").and_then(|s| s.as_bool()), Some(false));
    assert!(out.ops.is_empty());
}

#[test]
fn link_put_with_empty_source_announces_failure() {
    let mut state = test_host();
    let out = dispatch(
        &mut state,
        "wasmbus.ctl.v1.default.link.put",
        br#"{"source_id":"","target":"t1","wit_namespace":"wasi","wit_package":"http"}"#,
    );
    let v = reply_json(&out);
    assert_eq!(v.get("success").and_then(|s| s.as_bool()), Some(false));
    assert_eq!(out.events.len(), 1);
    assert_eq!(out.events[0].0, "linkdef_set_failed");
    assert!(state.links.is_empty());
    assert!(out.ops.is_empty());
}

#[test]
fn auction_declines_when_component_already_runs() {
    let mut state = test_host();
    let out = dispatch(
        &mut state,
        "wasmbus.ctl.v1.default.component.scale.NHOST",
        br#"{"component_id":"c1","reference":"oci://demo:1","max_instances":1}"#,
    );
    let (key, value) = match &out.ops[0] {
        StoreOp::PutData(k, v) => (k.clone(), v.clone()),
        _ => panic!("scale must write"),
    };
    let watcher = wasmbus_core::store::DataWatcher::new();
    watcher.on_entry(
        &mut state,
        &wasmbus_core::store::Entry { key, value, op: wasmbus_core::store::EntryOp::Put },
    );
    let out = dispatch(
        &mut state,
        "wasmbus.ctl.v1.default.component.auction",
        br#"{"component_ref":"oci://demo:1","component_id":"c1","constraints":{"kind":"test"}}"#,
    );
    assert!(matches!(out.reply, CtlReply::NoReply));
}

#[test]
fn claims_get_merges_component_and_provider_claims() {
    let mut state = test_host();
    let watcher = wasmbus_core::store::DataWatcher::new();
    watcher.on_entry(
        &mut state,
        &wasmbus_core::store::Entry {
            key: "CLAIMS_A".to_string(),
            value: br#"{"kind":"component","subject":"A","issuer":"I1"}"#.to_vec(),
            op: wasmbus_core::store::EntryOp::Put,
        },
    );
    watcher.on_entry(
        &mut state,
        &wasmbus_core::store::Entry {
            key: "CLAIMS_B".to_string(),
            value: br#"{"kind":"provider","subject":"B","issuer":"I2"}"#.to_vec(),
            op: wasmbus_core::store::EntryOp::Put,
        },
    );
    let out = dispatch(&mut state, "wasmbus.ctl.v1.default.claims.get", b"");
    let v = reply_json(&out);
    let list = v
        .get("response")
        .and_then(|r| r.get("claims"))
        .and_then(|c| c.as_array())
        .expect("claims listed");
    assert_eq!(list.len(), 2);
    assert_eq!(list[0].get("subject").and_then(|s| s.as_str()), Some("A"));
    assert_eq!(list[1].get("subject").and_then(|s| s.as_str()), Some("B"));
}

#[test]
fn builder_defaults_compose_a_working_host() {
    let builder = HostBuilder::new(
        "NHOST".to_string(),
        "default".to_string(),
        "host".to_string(),
        "1.0.0".to_string(),
        Vec::new(),
    );
    let host = builder.build();
    assert_eq!(host.state.host_id, "NHOST");
    assert!(host.state.components.is_empty());
    assert!(host.config_store.entries.is_empty());
    assert!(host.data_store.entries.is_empty());
}
