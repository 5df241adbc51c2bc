//! Checkpoints of the replicated state machine: the key-value store and the
//! highest applied request per client, with a manifest that identifies the
//! snapshot and carries the checksum of the state. Checkpoints are ordered by
//! epoch, then configuration, then last applied slot.
use vstd::prelude::*;

use crate::assoc_map::{distinct_keys, lemma_view_of_listing, AssocMap};
use crate::rsm::canonical::{
    canonical_state,
    checksum_of,
    enumerates,
    hex_text,
    key_sorted,
    kv_fragments,
    lemma_kv_fragments_of_contents,
    lemma_watermark_fragments_of_contents,
    lemma_sorted_enumeration_unique,
    sha256_digest,
    watermark_fragments,
};
use crate::rsm::entry::KVEntry;

verus! {

/// The key-value store of a state machine, as a checkpoint takes it.
pub struct RsmCheckpointState {
    kv_store: AssocMap<String, KVEntry>,
}

impl RsmCheckpointState {
    pub closed spec fn store(&self) -> AssocMap<String, KVEntry> {
        self.kv_store
    }

    pub fn new(kv_store: AssocMap<String, KVEntry>) -> (r: RsmCheckpointState)
        ensures
            r.store() == kv_store,
    {
        RsmCheckpointState { kv_store }
    }

    pub fn into_kv_store(self) -> (r: AssocMap<String, KVEntry>)
        ensures
            r == self.store(),
    {
        self.kv_store
    }
}

impl Default for RsmCheckpointState {
    fn default() -> (r: RsmCheckpointState)
        ensures
            r.store()@ == Map::<Seq<char>, KVEntry>::empty(),
    {
        RsmCheckpointState { kv_store: AssocMap::new() }
    }
}

/// The state a checkpoint carries.
pub struct CheckpointState {
    kv_store: AssocMap<String, KVEntry>,
    /// Highest applied request id per client, to suppress retried duplicates
    /// after a restore without replaying earlier writes.
    client_dedup_watermark: AssocMap<u128, u64>,
}

impl CheckpointState {
    pub closed spec fn store(&self) -> AssocMap<String, KVEntry> {
        self.kv_store
    }

    pub closed spec fn watermark(&self) -> AssocMap<u128, u64> {
        self.client_dedup_watermark
    }

    pub fn new(rsm_state: RsmCheckpointState, client_dedup_watermark: AssocMap<u128, u64>) -> (r:
        CheckpointState)
        ensures
            r.store() == rsm_state.store(),
            r.watermark() == client_dedup_watermark,
    {
        CheckpointState { kv_store: rsm_state.into_kv_store(), client_dedup_watermark }
    }

    pub fn kv_store(&self) -> (r: &AssocMap<String, KVEntry>)
        ensures
            *r == self.store(),
    {
        &self.kv_store
    }

    pub fn client_dedup_watermark(&self) -> (r: &AssocMap<u128, u64>)
        ensures
            *r == self.watermark(),
    {
        &self.client_dedup_watermark
    }
}

impl Default for CheckpointState {
    fn default() -> (r: CheckpointState)
        ensures
            r.store()@ == Map::<Seq<char>, KVEntry>::empty(),
            r.watermark()@ == Map::<u128, u64>::empty(),
    {
        CheckpointState { kv_store: AssocMap::new(), client_dedup_watermark: AssocMap::new() }
    }
}

/// The checksum of a checkpoint state (see `checksum_of`).
pub open spec fn state_checksum(state: CheckpointState, text: Seq<char>) -> bool {
    exists|kv: Seq<(Seq<u8>, Seq<u8>)>, wm: Seq<(Seq<u8>, Seq<u8>)>|
        #![trigger canonical_state(kv, wm)]
        key_sorted(kv) && enumerates(kv, kv_fragments(state.store().listing())) && key_sorted(wm)
            && enumerates(wm, watermark_fragments(state.watermark().listing())) && text == hex_text(
            sha256_digest(canonical_state(kv, wm)),
        )
}

pub struct CheckpointManifest {
    snapshot_id: u128,
    source_node: u128,
    config_id: u64,
    epoch: u64,
    last_applied_slot: Option<usize>,
    created_at_ms: u64,
    checksum: String,
}

pub struct ManifestView {
    pub snapshot_id: u128,
    pub source_node: u128,
    pub config_id: u64,
    pub epoch: u64,
    pub last_applied_slot: Option<usize>,
    pub created_at_ms: u64,
    pub checksum: Seq<char>,
}

impl View for CheckpointManifest {
    type V = ManifestView;

    closed spec fn view(&self) -> ManifestView {
        ManifestView {
            snapshot_id: self.snapshot_id,
            source_node: self.source_node,
            config_id: self.config_id,
            epoch: self.epoch,
            last_applied_slot: self.last_applied_slot,
            created_at_ms: self.created_at_ms,
            checksum: self.checksum@,
        }
    }
}

/// `None` before every slot, then slots by number.
pub open spec fn slot_before(a: Option<usize>, b: Option<usize>) -> bool {
    match (a, b) {
        (None, Some(_)) => true,
        (Some(x), Some(y)) => x < y,
        _ => false,
    }
}

/// Manifests ordered by epoch, then configuration, then last applied slot.
pub open spec fn manifest_before(a: ManifestView, b: ManifestView) -> bool {
    ||| a.epoch < b.epoch
    ||| (a.epoch == b.epoch && a.config_id < b.config_id)
    ||| (a.epoch == b.epoch && a.config_id == b.config_id && slot_before(
        a.last_applied_slot,
        b.last_applied_slot,
    ))
}

/// Whether two manifests sit at the same place in that order.
pub open spec fn manifest_level(a: ManifestView, b: ManifestView) -> bool {
    a.epoch == b.epoch && a.config_id == b.config_id && a.last_applied_slot == b.last_applied_slot
}

/// A state's checksum depends only on the entries it encodes, not on the
/// order they were written in: two states whose stores and watermarks encode
/// the same entries have the same checksum.
pub proof fn lemma_checksum_determined(
    a: CheckpointState,
    b: CheckpointState,
    ta: Seq<char>,
    tb: Seq<char>,
)
    requires
        kv_fragments(a.store().listing()) == kv_fragments(b.store().listing()),
        watermark_fragments(a.watermark().listing()) == watermark_fragments(b.watermark().listing()),
        state_checksum(a, ta),
        state_checksum(b, tb),
    ensures
        ta == tb,
{
    let (kva, wma) = choose|kv: Seq<(Seq<u8>, Seq<u8>)>, wm: Seq<(Seq<u8>, Seq<u8>)>|
        #![trigger canonical_state(kv, wm)]
        key_sorted(kv) && enumerates(kv, kv_fragments(a.store().listing())) && key_sorted(wm)
            && enumerates(wm, watermark_fragments(a.watermark().listing())) && ta == hex_text(
            sha256_digest(canonical_state(kv, wm)),
        );
    let (kvb, wmb) = choose|kv: Seq<(Seq<u8>, Seq<u8>)>, wm: Seq<(Seq<u8>, Seq<u8>)>|
        #![trigger canonical_state(kv, wm)]
        key_sorted(kv) && enumerates(kv, kv_fragments(b.store().listing())) && key_sorted(wm)
            && enumerates(wm, watermark_fragments(b.watermark().listing())) && tb == hex_text(
            sha256_digest(canonical_state(kv, wm)),
        );
    lemma_sorted_enumeration_unique(kva, kvb, kv_fragments(a.store().listing()));
    lemma_sorted_enumeration_unique(wma, wmb, watermark_fragments(a.watermark().listing()));
}

/// A state's checksum depends only on its contents: two states whose stores
/// hold the same entries and whose watermarks hold the same clients and
/// requests have the same checksum, whatever order their entries were
/// inserted in. (Every map's listing has distinct keys.)
pub proof fn lemma_checksum_of_contents(a: CheckpointState, b: CheckpointState, ta: Seq<char>, tb: Seq<
    char,
>)
    requires
        distinct_keys(a.store().listing()),
        distinct_keys(b.store().listing()),
        distinct_keys(a.watermark().listing()),
        distinct_keys(b.watermark().listing()),
        a.store()@ == b.store()@,
        a.watermark()@ == b.watermark()@,
        state_checksum(a, ta),
        state_checksum(b, tb),
    ensures
        ta == tb,
{
    lemma_view_of_listing(a.store());
    lemma_view_of_listing(b.store());
    lemma_view_of_listing(a.watermark());
    lemma_view_of_listing(b.watermark());
    lemma_kv_fragments_of_contents(a.store().listing(), b.store().listing());
    lemma_watermark_fragments_of_contents(a.watermark().listing(), b.watermark().listing());
    lemma_checksum_determined(a, b, ta, tb);
}

/// Manifests are totally ordered: of "before", "level" and "after" exactly one
/// holds for any two, and "before" is transitive.
pub proof fn lemma_manifest_order(a: ManifestView, b: ManifestView, c: ManifestView)
    ensures
        !manifest_before(a, a),
        manifest_before(a, b) || manifest_level(a, b) || manifest_before(b, a),
        !(manifest_before(a, b) && manifest_before(b, a)),
        !(manifest_before(a, b) && manifest_level(a, b)),
        manifest_before(a, b) && manifest_before(b, c) ==> manifest_before(a, c),
{
}

impl CheckpointManifest {
    /// A manifest as it was stored, checksum included.
    pub fn restore(
        snapshot_id: u128,
        source_node: u128,
        config_id: u64,
        epoch: u64,
        last_applied_slot: Option<usize>,
        created_at_ms: u64,
        checksum: String,
    ) -> (m: CheckpointManifest)
        ensures
            m@ == (ManifestView {
                snapshot_id,
                source_node,
                config_id,
                epoch,
                last_applied_slot,
                created_at_ms,
                checksum: checksum@,
            }),
    {
        CheckpointManifest {
            snapshot_id,
            source_node,
            config_id,
            epoch,
            last_applied_slot,
            created_at_ms,
            checksum,
        }
    }

    pub fn new(
        snapshot_id: u128,
        source_node: u128,
        config_id: u64,
        epoch: u64,
        last_applied_slot: Option<usize>,
        created_at_ms: u64,
    ) -> (m: CheckpointManifest)
        ensures
            m@ == (ManifestView {
                snapshot_id,
                source_node,
                config_id,
                epoch,
                last_applied_slot,
                created_at_ms,
                checksum: Seq::empty(),
            }),
    {
        CheckpointManifest {
            snapshot_id,
            source_node,
            config_id,
            epoch,
            last_applied_slot,
            created_at_ms,
            checksum: String::new(),
        }
    }

    pub fn snapshot_id(&self) -> (r: u128)
        ensures
            r == self@.snapshot_id,
    {
        self.snapshot_id
    }

    pub fn source_node(&self) -> (r: u128)
        ensures
            r == self@.source_node,
    {
        self.source_node
    }

    pub fn config_id(&self) -> (r: u64)
        ensures
            r == self@.config_id,
    {
        self.config_id
    }

    pub fn epoch(&self) -> (r: u64)
        ensures
            r == self@.epoch,
    {
        self.epoch
    }

    pub fn last_applied_slot(&self) -> (r: Option<usize>)
        ensures
            r == self@.last_applied_slot,
    {
        self.last_applied_slot
    }

    pub fn created_at_ms(&self) -> (r: u64)
        ensures
            r == self@.created_at_ms,
    {
        self.created_at_ms
    }

    pub fn checksum(&self) -> (r: &str)
        ensures
            r@ == self@.checksum,
    {
        self.checksum.as_str()
    }

    fn set_checksum(&mut self, checksum: String)
        ensures
            final(self)@ == (ManifestView { checksum: checksum@, ..old(self)@ }),
    {
        self.checksum = checksum;
    }

    /// Where this manifest stands against `other`.
    pub fn order_against(&self, other: &CheckpointManifest) -> (r: std::cmp::Ordering)
        ensures
            (r == std::cmp::Ordering::Less) == manifest_before(self@, other@),
            (r == std::cmp::Ordering::Equal) == manifest_level(self@, other@),
            (r == std::cmp::Ordering::Greater) == manifest_before(other@, self@),
    {
        if self.epoch != other.epoch {
            return if self.epoch < other.epoch {
                std::cmp::Ordering::Less
            } else {
                std::cmp::Ordering::Greater
            };
        }
        if self.config_id != other.config_id {
            return if self.config_id < other.config_id {
                std::cmp::Ordering::Less
            } else {
                std::cmp::Ordering::Greater
            };
        }
        match (self.last_applied_slot, other.last_applied_slot) {
            (None, None) => std::cmp::Ordering::Equal,
            (None, Some(_)) => std::cmp::Ordering::Less,
            (Some(_), None) => std::cmp::Ordering::Greater,
            (Some(a), Some(b)) => if a < b {
                std::cmp::Ordering::Less
            } else if a == b {
                std::cmp::Ordering::Equal
            } else {
                std::cmp::Ordering::Greater
            },
        }
    }
}

pub struct RsmCheckpoint {
    manifest: CheckpointManifest,
    state: CheckpointState,
}

impl RsmCheckpoint {
    pub closed spec fn manifest_view(&self) -> ManifestView {
        self.manifest@
    }

    pub closed spec fn state_value(&self) -> CheckpointState {
        self.state
    }

    /// A checkpoint of `state`, whose manifest carries the state's checksum.
    pub fn new(manifest: CheckpointManifest, state: CheckpointState) -> (c: RsmCheckpoint)
        ensures
            c.manifest_view() == (ManifestView { checksum: c.manifest_view().checksum, ..manifest@ }),
            state_checksum(state, c.manifest_view().checksum),
            c.manifest_view().checksum.len() == 64,
            c.state_value() == state,
    {
        let mut manifest = manifest;
        let checksum = RsmCheckpoint::compute_checksum(&state);
        manifest.set_checksum(checksum);
        RsmCheckpoint { manifest, state }
    }

    /// A checkpoint as it was stored: the manifest keeps the checksum it was
    /// stored with.
    pub fn restore(manifest: CheckpointManifest, state: CheckpointState) -> (c: RsmCheckpoint)
        ensures
            c.manifest_view() == manifest@,
            c.state_value() == state,
    {
        RsmCheckpoint { manifest, state }
    }

    pub fn manifest(&self) -> (m: &CheckpointManifest)
        ensures
            m@ == self.manifest_view(),
    {
        &self.manifest
    }

    pub fn state(&self) -> (s: &CheckpointState)
        ensures
            *s == self.state_value(),
    {
        &self.state
    }

    /// Checkpoints are ordered by their manifests.
    pub fn order_against(&self, other: &RsmCheckpoint) -> (r: std::cmp::Ordering)
        ensures
            (r == std::cmp::Ordering::Less) == manifest_before(self.manifest_view(), other.manifest_view()),
            (r == std::cmp::Ordering::Equal) == manifest_level(self.manifest_view(), other.manifest_view()),
            (r == std::cmp::Ordering::Greater) == manifest_before(other.manifest_view(), self.manifest_view()),
    {
        self.manifest.order_against(&other.manifest)
    }

    /// The hexadecimal SHA-256 digest of the state's canonical encoding.
    pub fn compute_checksum(state: &CheckpointState) -> (r: String)
        ensures
            state_checksum(*state, r@),
            r@.len() == 64,
    {
        checksum_of(&state.kv_store, &state.client_dedup_watermark)
    }
}

} // verus!
