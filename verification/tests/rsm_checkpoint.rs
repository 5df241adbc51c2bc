use paxos_core::assoc_map::AssocMap;
use paxos_core::rsm::checkpoint::{
    CheckpointManifest, CheckpointState, RsmCheckpoint, RsmCheckpointState,
};
use paxos_core::rsm::entry::KVEntry;
use paxos_core::rsm::types::{KVValue, KVVersion};
use sha2::{Digest, Sha256};
use std::cmp::Ordering;
use uuid::Uuid;

fn new_id() -> u128 {
    Uuid::new_v4().as_u128()
}

fn store_with(key: &str, value: usize, version: usize) -> AssocMap<String, KVEntry> {
    let mut kv = AssocMap::new();
    kv.insert(
        key.to_string(),
        KVEntry { value: KVValue(value), version: KVVersion(version) },
    );
    kv
}

fn hex_sha256(text: &str) -> String {
    Sha256::digest(text.as_bytes())
        .iter()
        .map(|b| format!("{:02x}", b))
        .collect()
}

fn manifest(config_id: u64, epoch: u64, slot: Option<usize>) -> CheckpointManifest {
    CheckpointManifest::new(new_id(), new_id(), config_id, epoch, slot, 1_742_123_456_789)
}

#[test]
fn checksum_changes_when_state_changes() {
    let source_node = new_id();
    let snapshot_id = new_id();

    let state_a = CheckpointState::new(
        RsmCheckpointState::new(store_with("alpha", 7, 2)),
        AssocMap::new(),
    );
    let ckpt_a = RsmCheckpoint::new(
        CheckpointManifest::new(snapshot_id, source_node, 3, 9, Some(17), 1_742_123_456_789),
        state_a,
    );

    let state_b = CheckpointState::new(
        RsmCheckpointState::new(store_with("alpha", 8, 2)),
        AssocMap::new(),
    );
    let ckpt_b = RsmCheckpoint::new(
        CheckpointManifest::new(snapshot_id, source_node, 3, 9, Some(17), 1_742_123_456_789),
        state_b,
    );

    assert_ne!(ckpt_a.manifest().checksum(), ckpt_b.manifest().checksum());
}

#[test]
fn checksum_is_the_sha256_of_the_canonical_state() {
    let state = CheckpointState::new(
        RsmCheckpointState::new(store_with("alpha", 7, 2)),
        AssocMap::new(),
    );
    let checksum = RsmCheckpoint::compute_checksum(&state);
    assert_eq!(
        checksum,
        hex_sha256(r#"{"kv_store":{"alpha":{"value":7,"version":2}},"client_dedup_watermark":{}}"#)
    );
    assert_eq!(checksum.len(), 64);
}

#[test]
fn checksum_orders_keys_and_names_clients_by_uuid() {
    let mut kv = store_with("zeta", 1, 1);
    kv.insert("alpha".to_string(), KVEntry { value: KVValue(3), version: KVVersion(4) });
    let client = 0x0011_2233_4455_6677_8899_aabb_ccdd_eeffu128;
    let mut watermark = AssocMap::new();
    watermark.insert(client, 42u64);
    let state = CheckpointState::new(RsmCheckpointState::new(kv), watermark);

    let text = format!(
        "{}{}",
        r#"{"kv_store":{"alpha":{"value":3,"version":4},"zeta":{"value":1,"version":1}},"#,
        r#""client_dedup_watermark":{"00112233-4455-6677-8899-aabbccddeeff":42}}"#
    );
    let expected = hex_sha256(&text);
    assert_eq!(RsmCheckpoint::compute_checksum(&state), expected);
}

#[test]
fn checksum_escapes_keys_as_json_strings() {
    let state = CheckpointState::new(
        RsmCheckpointState::new(store_with("a\"b", 1, 1)),
        AssocMap::new(),
    );
    let expected = hex_sha256(
        r#"{"kv_store":{"a\"b":{"value":1,"version":1}},"client_dedup_watermark":{}}"#,
    );
    assert_eq!(RsmCheckpoint::compute_checksum(&state), expected);
}

#[test]
fn new_checkpoint_keeps_manifest_fields_and_state() {
    let snapshot_id = new_id();
    let source_node = new_id();
    let client = new_id();
    let mut watermark = AssocMap::new();
    watermark.insert(client, 42u64);
    let state = CheckpointState::new(RsmCheckpointState::new(store_with("alpha", 7, 2)), watermark);
    let checkpoint = RsmCheckpoint::new(
        CheckpointManifest::new(snapshot_id, source_node, 3, 9, None, 1_742_123_456_789),
        state,
    );

    let m = checkpoint.manifest();
    assert_eq!(m.snapshot_id(), snapshot_id);
    assert_eq!(m.source_node(), source_node);
    assert_eq!(m.config_id(), 3);
    assert_eq!(m.epoch(), 9);
    assert_eq!(m.last_applied_slot(), None);
    assert_eq!(m.created_at_ms(), 1_742_123_456_789);
    assert_eq!(m.checksum().len(), 64);
    let entry = checkpoint.state().kv_store().get(&"alpha".to_string()).expect("alpha key missing");
    assert_eq!(entry.value, KVValue(7));
    assert_eq!(entry.version, KVVersion(2));
    assert_eq!(checkpoint.state().client_dedup_watermark().get(&client), Some(&42));
}

#[test]
fn checkpoints_order_by_epoch_then_config_then_slot() {
    assert_eq!(manifest(5, 1, Some(9)).order_against(&manifest(1, 2, None)), Ordering::Less);
    assert_eq!(manifest(1, 2, Some(9)).order_against(&manifest(2, 2, None)), Ordering::Less);
    assert_eq!(manifest(2, 2, None).order_against(&manifest(2, 2, Some(0))), Ordering::Less);
    assert_eq!(manifest(2, 2, Some(4)).order_against(&manifest(2, 2, Some(3))), Ordering::Greater);
    assert_eq!(manifest(2, 2, Some(4)).order_against(&manifest(2, 2, Some(4))), Ordering::Equal);
}

#[test]
fn restored_checkpoint_keeps_its_stored_checksum() {
    let stored = "ab".repeat(32);
    let m = CheckpointManifest::restore(new_id(), new_id(), 3, 4, Some(9), 17, stored.clone());
    let state = CheckpointState::new(RsmCheckpointState::new(store_with("k", 1, 1)), AssocMap::new());
    let c = RsmCheckpoint::restore(m, state);
    assert_eq!(c.manifest().checksum(), stored);
    assert_eq!(c.manifest().config_id(), 3);
    assert_eq!(c.manifest().epoch(), 4);
    assert_eq!(c.manifest().last_applied_slot(), Some(9));
}
