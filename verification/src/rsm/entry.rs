//! A stored value with its version. A write names the version it expects;
//! a write against any other version is refused with the current one.
use vstd::prelude::*;

use crate::rsm::types::{ClerkResponseError, KVResult, KVValue, KVVersion};

verus! {

#[derive(Debug, Clone, Copy, PartialEq, Eq, Structural)]
pub struct KVEntry {
    pub value: KVValue,
    pub version: KVVersion,
}

impl Default for KVEntry {
    fn default() -> (e: KVEntry)
        ensures
            e.value.0 == 0,
            e.version.0 == 0,
    {
        KVEntry { value: KVValue(0), version: KVVersion(0) }
    }
}

impl KVEntry {
    /// A fresh entry, at version 1.
    pub fn new(value: KVValue) -> (e: KVEntry)
        ensures
            e.value == value,
            e.version.0 == 1,
    {
        KVEntry { value, version: KVVersion(1) }
    }

    /// Adds `value` if `version` is the entry's version; the version itself is
    /// left as it is.
    pub fn add(&mut self, value: KVValue, version: KVVersion) -> (r: KVResult<()>)
        requires
            old(self).version == version ==> old(self).value.0 + value.0 <= usize::MAX
                && old(self).version.0 < usize::MAX,
        ensures
            old(self).version != version ==> r == Err::<(), ClerkResponseError>(
                ClerkResponseError::ErrVersion { version: old(self).version },
            ) && *final(self) == *old(self),
            old(self).version == version ==> r == Ok::<(), ClerkResponseError>(()) && final(self).value.0 == old(self).value.0 + value.0 && final(self).version == old(self).version,
    {
        if self.version != version {
            return Err(ClerkResponseError::ErrVersion { version: self.version });
        }
        self.value = KVValue(self.value.0 + value.0);
        let _ = self.version.next();
        Ok(())
    }

    /// Subtracts `value` if `version` is the entry's version; the version
    /// itself is left as it is.
    pub fn sub(&mut self, value: KVValue, version: KVVersion) -> (r: KVResult<()>)
        requires
            old(self).version == version ==> old(self).value.0 >= value.0 && old(self).version.0
                < usize::MAX,
        ensures
            old(self).version != version ==> r == Err::<(), ClerkResponseError>(
                ClerkResponseError::ErrVersion { version: old(self).version },
            ) && *final(self) == *old(self),
            old(self).version == version ==> r == Ok::<(), ClerkResponseError>(()) && final(self).value.0 == old(self).value.0 - value.0 && final(self).version == old(self).version,
    {
        if self.version != version {
            return Err(ClerkResponseError::ErrVersion { version: self.version });
        }
        self.value = KVValue(self.value.0 - value.0);
        let _ = self.version.next();
        Ok(())
    }

    /// The multiplying write: like `add`, it adds `value` if `version` is the
    /// entry's version, and leaves the version as it is.
    pub fn mul(&mut self, value: KVValue, version: KVVersion) -> (r: KVResult<()>)
        requires
            old(self).version == version ==> old(self).value.0 + value.0 <= usize::MAX
                && old(self).version.0 < usize::MAX,
        ensures
            old(self).version != version ==> r == Err::<(), ClerkResponseError>(
                ClerkResponseError::ErrVersion { version: old(self).version },
            ) && *final(self) == *old(self),
            old(self).version == version ==> r == Ok::<(), ClerkResponseError>(()) && final(self).value.0 == old(self).value.0 + value.0 && final(self).version == old(self).version,
    {
        if self.version != version {
            return Err(ClerkResponseError::ErrVersion { version: self.version });
        }
        self.value = KVValue(self.value.0 + value.0);
        let _ = self.version.next();
        Ok(())
    }
}

} // verus!
