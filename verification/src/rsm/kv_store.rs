//! The replicated state machine: a key-value store of versioned entries.
//! Persisting the store after a write is the node's job.
use vstd::prelude::*;

use crate::assoc_map::AssocMap;
use crate::paxos_command::{CommandView, PaxosCommand};
use crate::rsm::checkpoint::RsmCheckpointState;
use crate::rsm::entry::KVEntry;
use crate::rsm::types::{ClerkResponseError, KVResult, KVValue, KVVersion};

verus! {

#[derive(Debug, Clone, Copy, PartialEq, Eq, Structural)]
pub enum ReplyOutcome {
    GetOk { value: KVValue, version: KVVersion },
    /// A PUT or ADD took effect.
    WriteOk { version: KVVersion },
    /// A command with nothing to report.
    Done,
    Error(ClerkResponseError),
}

pub struct KVStore {
    data: AssocMap<String, KVEntry>,
}

/// The key an operation touches, if it touches one.
pub open spec fn touched_key(op: CommandView) -> Option<Seq<char>> {
    match op {
        CommandView::GET { key } => Some(key),
        CommandView::PUT { key, .. } => Some(key),
        CommandView::ADD { key, .. } => Some(key),
        _ => None,
    }
}

/// A GET right after a PUT reads the value the PUT wrote, at the version the
/// PUT reported, and changes nothing.
pub proof fn lemma_get_after_put(m: Map<Seq<char>, KVEntry>, key: Seq<char>, version: usize, value: usize)
    ensures
        ({
            let (m1, put) = apply_outcome(m, CommandView::PUT { key, version, value });
            let (m2, get) = apply_outcome(m1, CommandView::GET { key });
            &&& put matches Ok(ReplyOutcome::WriteOk { version: v }) && get == Ok::<
                ReplyOutcome,
                ClerkResponseError,
            >(ReplyOutcome::GetOk { value: KVValue(value), version: v })
            &&& m2 == m1
        }),
{
}

/// An ADD at the entry's current version adds its value to the entry's
/// value and keeps the version, reporting that version; an ADD at another
/// version, or on a missing key, changes nothing and fails.
pub proof fn lemma_add_adds(m: Map<Seq<char>, KVEntry>, key: Seq<char>, version: usize, value: usize)
    ensures
        ({
            let (m1, r) = apply_outcome(m, CommandView::ADD { key, version, value });
            &&& (m.contains_key(key) && m[key].version.0 == version && m[key].value.0 + value
                <= usize::MAX) ==> {
                &&& m1.contains_key(key)
                &&& m1[key].value.0 == m[key].value.0 + value
                &&& m1[key].version == m[key].version
                &&& r == Ok::<ReplyOutcome, ClerkResponseError>(
                    ReplyOutcome::WriteOk { version: m[key].version },
                )
            }
            &&& !(m.contains_key(key) && m[key].version.0 == version) ==> m1 == m && r is Err
        }),
{
}

/// A PUT of `v`, then an ADD of `d` at the version the PUT reported, then a
/// GET reads `v + d` at that version.
pub proof fn lemma_get_after_put_then_add(
    m: Map<Seq<char>, KVEntry>,
    key: Seq<char>,
    put_version: usize,
    v: usize,
    d: usize,
)
    requires
        v + d <= usize::MAX,
    ensures
        ({
            let (m1, put) = apply_outcome(m, CommandView::PUT { key, version: put_version, value: v });
            let w = put->Ok_0->WriteOk_version;
            let (m2, add) = apply_outcome(m1, CommandView::ADD { key, version: w.0, value: d });
            let (m3, get) = apply_outcome(m2, CommandView::GET { key });
            &&& put matches Ok(ReplyOutcome::WriteOk { .. })
            &&& add == Ok::<ReplyOutcome, ClerkResponseError>(ReplyOutcome::WriteOk { version: w })
            &&& get == Ok::<ReplyOutcome, ClerkResponseError>(
                ReplyOutcome::GetOk { value: KVValue((v + d) as usize), version: w },
            )
        }),
{
    let (m1, put) = apply_outcome(m, CommandView::PUT { key, version: put_version, value: v });
    lemma_get_after_put(m, key, put_version, v);
    let w = put->Ok_0->WriteOk_version;
    lemma_add_adds(m1, key, w.0, d);
}

/// An operation that fails changes nothing, a GET never changes anything, and
/// no operation changes a key other than the one it names.
pub proof fn lemma_apply_frame(m: Map<Seq<char>, KVEntry>, op: CommandView, other: Seq<char>)
    ensures
        apply_outcome(m, op).1 is Err ==> apply_outcome(m, op).0 == m,
        op is GET ==> apply_outcome(m, op).0 == m,
        touched_key(op) != Some(other) ==> (apply_outcome(m, op).0.contains_key(other)
            == m.contains_key(other) && (m.contains_key(other) ==> apply_outcome(m, op).0[other]
            == m[other])),
{
}

/// Whether applying `op` to a store with contents `m` stays within the
/// machine's integers.
pub open spec fn op_fits(m: Map<Seq<char>, KVEntry>, op: CommandView) -> bool {
    match op {
        CommandView::ADD { key, version, value } => m.contains_key(key) && m[key].version.0
            == version ==> m[key].value.0 + value <= usize::MAX && m[key].version.0 < usize::MAX,
        _ => true,
    }
}

/// The contents after an operation and its result: GET reads, PUT sets (an
/// existing entry keeps its version, a new one starts at version 1), ADD adds
/// at the entry's current version; other commands change nothing.
pub open spec fn apply_outcome(m: Map<Seq<char>, KVEntry>, op: CommandView) -> (
    Map<Seq<char>, KVEntry>,
    KVResult<ReplyOutcome>,
) {
    match op {
        CommandView::GET { key } => (
            m,
            if m.contains_key(key) {
                Ok(ReplyOutcome::GetOk { value: m[key].value, version: m[key].version })
            } else {
                Err(ClerkResponseError::ErrKey)
            },
        ),
        CommandView::PUT { key, value, .. } => {
            let version = if m.contains_key(key) {
                m[key].version
            } else {
                KVVersion(1)
            };
            (m.insert(key, KVEntry { value: KVValue(value), version }), Ok(ReplyOutcome::WriteOk { version }))
        },
        CommandView::ADD { key, version, value } => if !m.contains_key(key) {
            (m, Err(ClerkResponseError::ErrKey))
        } else if m[key].version.0 != version {
            (m, Err(ClerkResponseError::ErrVersion { version: m[key].version }))
        } else {
            (
                m.insert(
                    key,
                    KVEntry {
                        value: KVValue((m[key].value.0 + value) as usize),
                        version: KVVersion(version),
                    },
                ),
                Ok(ReplyOutcome::WriteOk { version: KVVersion(version) }),
            )
        },
        _ => (m, Ok(ReplyOutcome::Done)),
    }
}

impl KVStore {
    pub fn new(data: AssocMap<String, KVEntry>) -> (s: KVStore)
        ensures
            s@ == data@,
    {
        KVStore { data }
    }

    /// The entries in insertion order.
    pub closed spec fn listing(&self) -> Seq<(String, KVEntry)> {
        self.data.listing()
    }

    pub fn entries(&self) -> (d: &AssocMap<String, KVEntry>)
        ensures
            d@ == self@,
            d.listing() == self.listing(),
    {
        &self.data
    }

    pub fn get(&self, key: &str) -> (r: KVResult<ReplyOutcome>)
        ensures
            self@.contains_key(key@) ==> r == Ok::<ReplyOutcome, ClerkResponseError>(
                ReplyOutcome::GetOk {
                    value: self@[key@].value,
                    version: self@[key@].version,
                },
            ),
            !self@.contains_key(key@) ==> r == Err::<ReplyOutcome, ClerkResponseError>(
                ClerkResponseError::ErrKey,
            ),
    {
        let k = key.to_owned();
        match self.data.get(&k) {
            Some(entry) => Ok(ReplyOutcome::GetOk { value: entry.value, version: entry.version }),
            None => Err(ClerkResponseError::ErrKey),
        }
    }

    /// Sets the value of `key`, keeping the version of an existing entry; a
    /// new key starts at version 1.
    pub fn set(&mut self, key: &str, value: KVValue) -> (r: KVResult<ReplyOutcome>)
        ensures
            old(self)@.contains_key(key@) ==> final(self)@ == old(self)@.insert(
                key@,
                KVEntry { value, version: old(self)@[key@].version },
            ) && r == Ok::<ReplyOutcome, ClerkResponseError>(
                ReplyOutcome::WriteOk { version: old(self)@[key@].version },
            ),
            !old(self)@.contains_key(key@) ==> final(self)@ == old(self)@.insert(
                key@,
                KVEntry { value, version: KVVersion(1) },
            ) && r == Ok::<ReplyOutcome, ClerkResponseError>(
                ReplyOutcome::WriteOk { version: KVVersion(1) },
            ),
    {
        let k = key.to_owned();
        let entry = match self.data.get(&k) {
            Some(existing) => KVEntry { value, version: existing.version },
            None => KVEntry::new(value),
        };
        self.data.insert(k, entry);
        Ok(ReplyOutcome::WriteOk { version: entry.version })
    }

    /// Adds to the value of `key` if `version` is its version, and returns the
    /// entry's version.
    pub fn add(&mut self, key: &str, value: KVValue, version: KVVersion) -> (r: KVResult<KVVersion>)
        requires
            op_fits(old(self)@, CommandView::ADD { key: key@, version: version.0, value: value.0 }),
        ensures
            !old(self)@.contains_key(key@) ==> r == Err::<KVVersion, ClerkResponseError>(
                ClerkResponseError::ErrKey,
            ) && final(self)@ == old(self)@,
            old(self)@.contains_key(key@) && old(self)@[key@].version != version ==> r == Err::<
                KVVersion,
                ClerkResponseError,
            >(ClerkResponseError::ErrVersion { version: old(self)@[key@].version }) && final(self)@
                == old(self)@,
            old(self)@.contains_key(key@) && old(self)@[key@].version == version ==> r == Ok::<
                KVVersion,
                ClerkResponseError,
            >(version) && final(self)@ == old(self)@.insert(
                key@,
                KVEntry { value: KVValue((old(self)@[key@].value.0 + value.0) as usize), version },
            ),
    {
        let k = key.to_owned();
        let mut entry = match self.data.get(&k) {
            Some(existing) => *existing,
            None => return Err(ClerkResponseError::ErrKey),
        };
        match entry.add(value, version) {
            Ok(()) => {},
            Err(e) => return Err(e),
        }
        let v = entry.version;
        self.data.insert(k, entry);
        Ok(v)
    }

    pub fn delete(&mut self, key: &str) -> (r: KVResult<()>)
        ensures
            old(self)@.contains_key(key@) ==> r == Ok::<(), ClerkResponseError>(()),
            !old(self)@.contains_key(key@) ==> r == Err::<(), ClerkResponseError>(
                ClerkResponseError::ErrKey,
            ),
            final(self)@ == old(self)@.remove(key@),
    {
        let k = key.to_owned();
        match self.data.remove(&k) {
            Some(_) => Ok(()),
            None => Err(ClerkResponseError::ErrKey),
        }
    }

    /// Applies the operation under any client wrapper (see `apply_outcome`).
    pub fn apply(&mut self, cmd: &PaxosCommand) -> (r: KVResult<ReplyOutcome>)
        requires
            op_fits(old(self)@, cmd@.operation()),
        ensures
            (final(self)@, r) == apply_outcome(old(self)@, cmd@.operation()),
    {
        match cmd.operation() {
            PaxosCommand::GET { key } => self.get(key.as_str()),
            PaxosCommand::PUT { key, value, .. } => self.set(key.as_str(), KVValue(*value)),
            PaxosCommand::ADD { key, version, value } => {
                match self.add(key.as_str(), KVValue(*value), KVVersion(*version)) {
                    Ok(v) => Ok(ReplyOutcome::WriteOk { version: v }),
                    Err(e) => Err(e),
                }
            },
            _ => Ok(ReplyOutcome::Done),
        }
    }
}

impl KVStore {
    /// A copy of the store's entries, for a checkpoint.
    pub fn emit_checkpoint_state(&self) -> (r: RsmCheckpointState)
        ensures
            r.store()@ == self@,
    {
        RsmCheckpointState::new(self.data.duplicate())
    }

    /// Whether `cmd` can be applied without leaving the machine's integers.
    pub fn fits(&self, cmd: &PaxosCommand) -> (b: bool)
        ensures
            b == op_fits(self@, cmd@.operation()),
    {
        match cmd.operation() {
            PaxosCommand::ADD { key, version, value } => {
                match self.data.get(key) {
                    Some(entry) => if entry.version.0 == *version {
                        entry.value.0 <= usize::MAX - *value && entry.version.0 < usize::MAX
                    } else {
                        true
                    },
                    None => true,
                }
            },
            _ => true,
        }
    }
}

impl View for KVStore {
    type V = Map<Seq<char>, KVEntry>;

    closed spec fn view(&self) -> Map<Seq<char>, KVEntry> {
        self.data@
    }
}

} // verus!
