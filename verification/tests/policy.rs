//! Policy decisions at the handler seam: a transport with its own policy
//! manager calls the handlers directly with its decision, so the deny paths
//! are driven here without a dispatcher.

use wasmbus_core::host::HostState;
use wasmbus_core::json::{json_decode, json_encode};
use wasmbus_core::policy::{DefaultPolicyManager, PolicyDecision, PolicyRequest};
use wasmbus_core::store::{DataWatcher, Entry, EntryOp};

fn test_host() -> HostState {
    HostState::new(
        "NHOST".to_string(),
        "default".to_string(),
        "host".to_string(),
        "1.0.0".to_string(),
        Vec::new(),
    )
}

#[test]
fn default_policy_permits_everything() {
    let policy = DefaultPolicyManager::new();
    let decision = policy.evaluate(&PolicyRequest {
        action: "start_component".to_string(),
        subject_id: "c1".to_string(),
        reference: "oci://demo:1".to_string(),
    });
    assert!(matches!(decision, PolicyDecision::Allow));
}

#[test]
fn denied_scale_fails_and_announces() {
    let state = test_host();
    let payload = json_decode(
        &br#"{"component_id":"c1","reference":"oci://demo:1","max_instances":3}"#.to_vec(),
    )
    .expect("payload must parse");
    let deny = PolicyDecision::Deny("quota exhausted".to_string());
    let (res, events, ops) = state.handle_scale_component(&payload, &deny);
    let err = res.expect_err("a denied scale must fail");
    assert!(!err.is_empty());
    assert!(ops.is_empty(), "a denied scale must write nothing");
    assert_eq!(events.len(), 1);
    assert_eq!(events[0].0, "component_scale_failed");
    let data: serde_json::Value = serde_json::from_slice(&json_encode(&events[0].1)).unwrap();
    let event_err = data.get("error").and_then(|e| e.as_str()).expect("event error");
    assert!(!event_err.is_empty());
    assert_eq!(event_err, err);
    assert_eq!(data.get("component_id").and_then(|c| c.as_str()), Some("c1"));
}

#[test]
fn denied_provider_start_fails_and_announces() {
    let mut state = test_host();
    let payload = json_decode(
        &br#"{"provider_id":"p1","provider_ref":"oci://prov:1"}"#.to_vec(),
    )
    .expect("payload must parse");
    let deny = PolicyDecision::Deny("not on this host".to_string());
    let (res, events) = state.handle_start_provider(&payload, &deny);
    assert!(res.is_err());
    assert!(state.providers.is_empty());
    assert_eq!(events.len(), 1);
    assert_eq!(events[0].0, "provider_start_failed");
    let data: serde_json::Value = serde_json::from_slice(&json_encode(&events[0].1)).unwrap();
    assert_eq!(data.get("provider_id").and_then(|p| p.as_str()), Some("p1"));
    assert!(!data.get("error").and_then(|e| e.as_str()).expect("event error").is_empty());
}

#[test]
fn component_scaled_event_carries_known_claims() {
    let mut state = test_host();
    let mut watcher = DataWatcher::new();
    watcher.finish_replay();
    let out = watcher.on_entry(
        &mut state,
        &Entry {
            key: "CLAIMS_c1".to_string(),
            value: br#"{"kind":"component","subject":"c1","issuer":"NISSUER","expires":99,"metadata":{"name":"demo","version":"0.1.0","tags":["web"],"call_alias":"demo"}}"#.to_vec(),
            op: EntryOp::Put,
        },
    );
    assert!(out.soft_error.is_none());
    let out = watcher.on_entry(
        &mut state,
        &Entry {
            key: "COMPONENT_c1".to_string(),
            value: br#"{"reference":"oci://demo:1","max_instances":2}"#.to_vec(),
            op: EntryOp::Put,
        },
    );
    assert_eq!(out.events.len(), 1);
    let data: serde_json::Value = serde_json::from_slice(&json_encode(&out.events[0].1)).unwrap();
    assert_eq!(data.get("public_key").and_then(|p| p.as_str()), Some("c1"));
    let claims = data.get("claims").expect("claims embedded");
    assert_eq!(claims.get("issuer").and_then(|i| i.as_str()), Some("NISSUER"));
    assert_eq!(claims.get("name").and_then(|n| n.as_str()), Some("demo"));
    assert_eq!(claims.get("version").and_then(|v| v.as_str()), Some("0.1.0"));
    assert_eq!(claims.get("not_before_human").and_then(|v| v.as_str()), Some("never"));
    assert_eq!(claims.get("expires_human").and_then(|v| v.as_str()), Some("99"));
    assert_eq!(
        claims.get("tags").and_then(|t| t.as_array()).map(|a| a.len()),
        Some(1)
    );
}

#[test]
fn provider_started_event_carries_known_claims() {
    let mut state = test_host();
    let watcher = DataWatcher::new();
    watcher.on_entry(
        &mut state,
        &Entry {
            key: "CLAIMS_p1".to_string(),
            value: br#"{"kind":"provider","subject":"p1","issuer":"NISSUER","metadata":{"name":"kv"}}"#.to_vec(),
            op: EntryOp::Put,
        },
    );
    assert_eq!(state.claims_providers.len(), 1);
    let payload = json_decode(
        &br#"{"provider_id":"p1","provider_ref":"oci://prov:1"}"#.to_vec(),
    )
    .expect("payload must parse");
    let (res, events) = state.handle_start_provider(&payload, &PolicyDecision::Allow);
    assert!(res.is_ok());
    let data: serde_json::Value = serde_json::from_slice(&json_encode(&events[0].1)).unwrap();
    let claims = data.get("claims").expect("claims embedded");
    assert_eq!(claims.get("name").and_then(|n| n.as_str()), Some("kv"));
    assert!(claims.get("tags").expect("tags field present").is_null());
    assert_eq!(data.get("link_name").and_then(|l| l.as_str()), Some("default"));
}
