//! What a caller of the store can rely on, as long as the platform keeps
//! what it is given and nothing else writes to it between the calls.
//!
//! Each statement is about the operations of a `Vault`, for every vault,
//! every identity and every value, of either kind: a password is a value of
//! type `Seq<char>`, a secret one of type `Seq<u8>`.

use vstd::prelude::*;
use crate::error::StoreError;
use crate::model::{After, Identity, Vault};

verus! {

/// A value that was set is the value that is read.
pub proof fn set_then_get<V>(vault: Vault<V>, id: Identity, value: V)
    requires
        id.valid(),
    ensures
        vault.set(id, value).result == Ok::<(), StoreError>(()),
        vault.set(id, value).vault.get(id) == Ok::<Option<V>, StoreError>(Some(value)),
{
}

/// An identity that holds nothing reads as `None`, not as an error.
pub proof fn get_of_absent<V>(vault: Vault<V>, id: Identity)
    requires
        id.valid(),
        !vault.holds(id),
    ensures
        vault.get(id) == Ok::<Option<V>, StoreError>(None),
{
}

/// After a delete the identity reads as `None`, whether or not it held a
/// value before.
pub proof fn get_after_delete<V>(vault: Vault<V>, id: Identity)
    requires
        id.valid(),
    ensures
        vault.delete(id).vault.get(id) == Ok::<Option<V>, StoreError>(None),
{
}

/// Of two values set one after the other, the second is the one that is
/// read.
pub proof fn set_overwrites<V>(vault: Vault<V>, id: Identity, first: V, second: V)
    requires
        id.valid(),
    ensures
        vault.set(id, first).vault.set(id, second).vault.get(id) == Ok::<Option<V>, StoreError>(
            Some(second),
        ),
{
}

/// Setting the same value again changes nothing.
pub proof fn set_is_idempotent<V>(vault: Vault<V>, id: Identity, value: V)
    ensures
        vault.set(id, value).vault.set(id, value) == vault.set(id, value),
{
    let once = vault.set(id, value).vault;
    assert(once.set(id, value).vault.entries =~= once.entries);
}

/// On an identity that holds nothing, get-or-set returns the fallback, and
/// the fallback is what is read afterwards.
pub proof fn get_or_set_of_absent<V>(vault: Vault<V>, id: Identity, fallback: V)
    requires
        id.valid(),
        !vault.holds(id),
    ensures
        vault.get_or_set(id, fallback).result == Ok::<V, StoreError>(fallback),
        vault.get_or_set(id, fallback).vault.get(id) == Ok::<Option<V>, StoreError>(
            Some(fallback),
        ),
{
}

/// On an identity that holds a value, get-or-set returns that value,
/// whatever the fallback, and leaves the vault as it was.
pub proof fn get_or_set_of_present<V>(vault: Vault<V>, id: Identity, fallback: V)
    requires
        id.valid(),
        vault.holds(id),
    ensures
        vault.get_or_set(id, fallback).result == Ok::<V, StoreError>(vault.entries[id]),
        vault.get_or_set(id, fallback).vault == vault,
{
}

/// A value that was set and then deleted is gone: the delete succeeds, and
/// the identity reads as `None`.
pub proof fn set_then_delete<V>(vault: Vault<V>, id: Identity, value: V)
    requires
        id.valid(),
    ensures
        vault.set(id, value).vault.delete(id).result == Ok::<(), StoreError>(()),
        vault.set(id, value).vault.delete(id).vault.get(id) == Ok::<Option<V>, StoreError>(None),
{
}

/// Deleting an identity that holds nothing is an error, and changes
/// nothing.
pub proof fn delete_of_absent<V>(vault: Vault<V>, id: Identity)
    requires
        id.valid(),
        !vault.holds(id),
    ensures
        vault.delete(id).result == Err::<(), StoreError>(StoreError::NotFound),
        vault.delete(id).vault == vault,
{
}

/// No operation on one identity changes what another identity reads.
pub proof fn other_identities_untouched<V>(
    vault: Vault<V>,
    id: Identity,
    other: Identity,
    value: V,
)
    requires
        other != id,
    ensures
        vault.set(id, value).vault.get(other) == vault.get(other),
        vault.delete(id).vault.get(other) == vault.get(other),
        vault.get_or_set(id, value).vault.get(other) == vault.get(other),
{
}

/// An identity with an empty part is refused by every operation, and the
/// vault stays as it was.
pub proof fn invalid_identity_refused<V>(vault: Vault<V>, id: Identity, value: V)
    requires
        !id.valid(),
    ensures
        vault.get(id) == Err::<Option<V>, StoreError>(StoreError::InvalidIdentity),
        vault.set(id, value) == (After {
            vault,
            result: Err::<(), StoreError>(StoreError::InvalidIdentity),
        }),
        vault.delete(id) == (After {
            vault,
            result: Err::<(), StoreError>(StoreError::InvalidIdentity),
        }),
        vault.get_or_set(id, value) == (After {
            vault,
            result: Err::<V, StoreError>(StoreError::InvalidIdentity),
        }),
{
}

} // verus!
