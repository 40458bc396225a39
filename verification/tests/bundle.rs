//! Configuration bundles: merged views, override order, and emission only on
//! change.

use wasmbus_core::config::{BundleGenerator, ConfigBundle};
use wasmbus_core::store::{EntryOp, MemStore};

fn strmap(bundle: &ConfigBundle) -> std::collections::BTreeMap<String, String> {
    bundle.merged.iter().cloned().collect()
}

#[test]
fn config_watch_emits_only_on_change() {
    let mut store = MemStore::new();
    store.put("k1".to_string(), br#"{"a":"1"}"#.to_vec());
    let gen = BundleGenerator::new();
    let mut bundle = gen
        .generate(vec!["k1".to_string()], &store)
        .expect("generation must resolve k1");
    assert_eq!(strmap(&bundle).get("a").map(String::as_str), Some("1"));
    let changed = bundle
        .apply_entry(&"k1".to_string(), EntryOp::Put, &br#"{"a":"2"}"#.to_vec())
        .expect("update must decode");
    assert!(changed, "a new value must emit");
    assert_eq!(strmap(&bundle).get("a").map(String::as_str), Some("2"));
    let changed = bundle
        .apply_entry(&"k1".to_string(), EntryOp::Put, &br#"{"a":"2"}"#.to_vec())
        .expect("update must decode");
    assert!(!changed, "a byte-equal map must not emit");
}

#[test]
fn later_names_override_earlier_ones() {
    let mut store = MemStore::new();
    store.put("base".to_string(), br#"{"a":"1","b":"1"}"#.to_vec());
    store.put("over".to_string(), br#"{"b":"2"}"#.to_vec());
    let gen = BundleGenerator::new();
    let bundle = gen
        .generate(vec!["base".to_string(), "over".to_string()], &store)
        .expect("generation must resolve both");
    let m = strmap(&bundle);
    assert_eq!(m.get("a").map(String::as_str), Some("1"));
    assert_eq!(m.get("b").map(String::as_str), Some("2"));
}

#[test]
fn delete_zeroes_the_partial() {
    let mut store = MemStore::new();
    store.put("k1".to_string(), br#"{"a":"1"}"#.to_vec());
    let gen = BundleGenerator::new();
    let mut bundle = gen.generate(vec!["k1".to_string()], &store).expect("generation");
    let changed = bundle
        .apply_entry(&"k1".to_string(), EntryOp::Delete, &Vec::new())
        .expect("a delete always applies");
    assert!(changed);
    assert!(strmap(&bundle).is_empty());
    let changed = bundle
        .apply_entry(&"k1".to_string(), EntryOp::Purge, &Vec::new())
        .expect("a purge always applies");
    assert!(!changed, "zeroing twice must not emit twice");
}

#[test]
fn unwatched_names_change_nothing() {
    let mut store = MemStore::new();
    store.put("k1".to_string(), br#"{"a":"1"}"#.to_vec());
    let gen = BundleGenerator::new();
    let mut bundle = gen.generate(vec!["k1".to_string()], &store).expect("generation");
    let changed = bundle
        .apply_entry(&"other".to_string(), EntryOp::Put, &br#"{"a":"9"}"#.to_vec())
        .expect("an unwatched name is simply ignored");
    assert!(!changed);
    assert_eq!(strmap(&bundle).get("a").map(String::as_str), Some("1"));
}

#[test]
fn undecodable_update_is_rejected_and_keeps_state() {
    let mut store = MemStore::new();
    store.put("k1".to_string(), br#"{"a":"1"}"#.to_vec());
    let gen = BundleGenerator::new();
    let mut bundle = gen.generate(vec!["k1".to_string()], &store).expect("generation");
    let res = bundle.apply_entry(&"k1".to_string(), EntryOp::Put, &br#"{"a":3}"#.to_vec());
    assert!(res.is_err());
    assert_eq!(strmap(&bundle).get("a").map(String::as_str), Some("1"));
}

#[test]
fn generation_fails_on_undecodable_entry() {
    let mut store = MemStore::new();
    store.put("k1".to_string(), b"not json".to_vec());
    let gen = BundleGenerator::new();
    assert!(gen.generate(vec!["k1".to_string()], &store).is_err());
}

#[test]
fn missing_names_contribute_nothing() {
    let store = MemStore::new();
    let gen = BundleGenerator::new();
    let bundle = gen.generate(vec!["absent".to_string()], &store).expect("generation");
    assert!(strmap(&bundle).is_empty());
}
