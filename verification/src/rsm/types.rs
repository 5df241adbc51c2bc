//! Values, versions and errors of the replicated key-value store.
use vstd::prelude::*;

verus! {

#[derive(Debug, Clone, Copy, PartialEq, Eq, Structural)]
pub enum ClerkResponseError {
    Maybe,
    NotLeader { leader_hint: usize },
    ErrVersion { version: KVVersion },
    ErrKey,
}

pub type KVResult<T> = Result<T, ClerkResponseError>;

#[derive(Clone, Copy, Debug, PartialEq, Eq, Structural, Hash, PartialOrd, Ord)]
pub struct KVVersion(pub usize);

impl KVVersion {
    pub fn next(self) -> (r: Self)
        requires
            self.0 < usize::MAX,
        ensures
            r.0 == self.0 + 1,
    {
        KVVersion(self.0 + 1)
    }
}

impl Default for KVVersion {
    fn default() -> (r: KVVersion)
        ensures
            r.0 == 0,
    {
        KVVersion(0)
    }
}

impl From<usize> for KVVersion {
    fn from(value: usize) -> (r: KVVersion) {
        KVVersion(value)
    }
}

impl vstd::std_specs::convert::FromSpecImpl<usize> for KVVersion {
    open spec fn obeys_from_spec() -> bool {
        true
    }

    open spec fn from_spec(v: usize) -> KVVersion {
        KVVersion(v)
    }
}

impl From<KVVersion> for usize {
    fn from(value: KVVersion) -> (r: usize) {
        value.0
    }
}

impl vstd::std_specs::convert::FromSpecImpl<KVVersion> for usize {
    open spec fn obeys_from_spec() -> bool {
        true
    }

    open spec fn from_spec(v: KVVersion) -> usize {
        v.0
    }
}

#[derive(Clone, Copy, Debug, PartialEq, Eq, Structural, Hash, PartialOrd, Ord)]
pub struct KVValue(pub usize);

impl Default for KVValue {
    fn default() -> (r: KVValue)
        ensures
            r.0 == 0,
    {
        KVValue(0)
    }
}

impl From<usize> for KVValue {
    fn from(value: usize) -> (r: KVValue) {
        KVValue(value)
    }
}

impl vstd::std_specs::convert::FromSpecImpl<usize> for KVValue {
    open spec fn obeys_from_spec() -> bool {
        true
    }

    open spec fn from_spec(v: usize) -> KVValue {
        KVValue(v)
    }
}

impl From<KVValue> for usize {
    fn from(value: KVValue) -> (r: usize) {
        value.0
    }
}

impl vstd::std_specs::convert::FromSpecImpl<KVValue> for usize {
    open spec fn obeys_from_spec() -> bool {
        true
    }

    open spec fn from_spec(v: KVValue) -> usize {
        v.0
    }
}

} // verus!
