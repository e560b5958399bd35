//! The store over a platform that keeps what it is given.
//!
//! A vault is what such a platform holds: at most one value per identity.
//! Its operations are those of the store, made of the same decisions
//! (`protocol`), with the vault's answers in place of the platform's. They
//! say what a caller sees when nothing else writes to the platform between
//! the calls; `laws` proves what follows.

use vstd::prelude::*;
use crate::error::StoreError;
use crate::protocol::{
    create_outcome,
    identity_outcome,
    lookup_outcome,
    next_step,
    valid_identity,
    Step,
};

verus! {

/// The key of a credential: a service and an account, compared as they are.
pub struct Identity {
    pub service: Seq<char>,
    pub account: Seq<char>,
}

impl Identity {
    /// Both parts are non-empty.
    pub open spec fn valid(self) -> bool {
        valid_identity(self.service, self.account)
    }
}

/// What the platform holds: the value of each identity that has one. `V` is
/// `Seq<char>` for passwords and `Seq<u8>` for secrets.
#[verifier::ext_equal]
pub struct Vault<V> {
    pub entries: Map<Identity, V>,
}

/// The vault after an operation, and what the operation returned.
#[verifier::ext_equal]
pub struct After<V, T> {
    pub vault: Vault<V>,
    pub result: Result<T, StoreError>,
}

impl<V> Vault<V> {
    /// Whether `id` has a value.
    pub open spec fn holds(self, id: Identity) -> bool {
        self.entries.contains_key(id)
    }

    /// The platform's answer to a read.
    pub open spec fn read(self, id: Identity) -> Result<V, StoreError> {
        if self.holds(id) {
            Ok(self.entries[id])
        } else {
            Err(StoreError::NotFound)
        }
    }

    /// The platform's answer to a write: it goes through and replaces what
    /// was there.
    pub open spec fn write(self, id: Identity, value: V) -> After<V, ()> {
        After { vault: Vault { entries: self.entries.insert(id, value) }, result: Ok(()) }
    }

    /// The platform's answer to a removal: where there is nothing to
    /// remove, it says so and changes nothing.
    pub open spec fn erase(self, id: Identity) -> After<V, ()> {
        if self.holds(id) {
            After { vault: Vault { entries: self.entries.remove(id) }, result: Ok(()) }
        } else {
            After { vault: self, result: Err(StoreError::NotFound) }
        }
    }

    /// `get`: the identity is checked, then the vault is read. A `get`
    /// returns no vault: it changes none.
    pub open spec fn get(self, id: Identity) -> Result<Option<V>, StoreError> {
        match identity_outcome(id.service, id.account) {
            Ok(()) => lookup_outcome(self.read(id)),
            Err(e) => Err(e),
        }
    }

    /// `set`: the identity is checked, then the value is written.
    pub open spec fn set(self, id: Identity, value: V) -> After<V, ()> {
        match identity_outcome(id.service, id.account) {
            Ok(()) => self.write(id, value),
            Err(e) => After { vault: self, result: Err(e) },
        }
    }

    /// `delete`: the identity is checked, then the entry is removed.
    pub open spec fn delete(self, id: Identity) -> After<V, ()> {
        match identity_outcome(id.service, id.account) {
            Ok(()) => self.erase(id),
            Err(e) => After { vault: self, result: Err(e) },
        }
    }

    /// `get_or_set`: a `get`, and only where it finds nothing, a `set` of
    /// the fallback.
    pub open spec fn get_or_set(self, id: Identity, fallback: V) -> After<V, V> {
        match next_step(self.get(id)) {
            Step::Return(result) => After { vault: self, result },
            Step::Create => {
                let written = self.set(id, fallback);
                After { vault: written.vault, result: create_outcome(written.result, fallback) }
            },
        }
    }
}

} // verus!
