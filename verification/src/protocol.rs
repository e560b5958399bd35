//! The decisions of the store, apart from the calls that feed them: which
//! identities are accepted, how an answer to a read becomes presence or
//! absence, and the two steps of get-or-set.
//!
//! Every function here takes what the platform answered as an argument and
//! says exactly what follows from it.

use vstd::prelude::*;
use crate::error::StoreError;

verus! {

/// An identity is a service and an account, both non-empty. Nothing is
/// normalised: two identities are the same when both texts are.
pub open spec fn valid_identity(service: Seq<char>, account: Seq<char>) -> bool {
    service.len() > 0 && account.len() > 0
}

/// What the check of an identity gives.
pub open spec fn identity_outcome(service: Seq<char>, account: Seq<char>) -> Result<
    (),
    StoreError,
> {
    if valid_identity(service, account) {
        Ok(())
    } else {
        Err(StoreError::InvalidIdentity)
    }
}

/// What a lookup gives for an answer of the platform to a read: absence is
/// a result, every other failure stays the failure it is.
pub open spec fn lookup_outcome<V>(answer: Result<V, StoreError>) -> Result<Option<V>, StoreError> {
    match answer {
        Ok(value) => Ok(Some(value)),
        Err(StoreError::NotFound) => Ok(None),
        Err(e) => Err(e),
    }
}

/// What get-or-set does once its lookup has answered.
pub enum Step<V> {
    /// Nothing is written; this is the result.
    Return(Result<V, StoreError>),
    /// The identity holds nothing: the fallback is to be written.
    Create,
}

/// The step that follows a lookup: a value that is there is returned as it
/// is, a failure is returned as it is, and only absence leads to a write.
pub open spec fn next_step<V>(looked_up: Result<Option<V>, StoreError>) -> Step<V> {
    match looked_up {
        Ok(Some(existing)) => Step::Return(Ok(existing)),
        Ok(None) => Step::Create,
        Err(e) => Step::Return(Err(e)),
    }
}

/// What get-or-set gives after the write of the fallback: the fallback if
/// the write went through, else the failure of the write.
pub open spec fn create_outcome<V>(written: Result<(), StoreError>, fallback: V) -> Result<
    V,
    StoreError,
> {
    match written {
        Ok(()) => Ok(fallback),
        Err(e) => Err(e),
    }
}

/// What get-or-set gives as a whole, for the answer to its lookup and the
/// answer to the write that follows an absence. Where the lookup finds a
/// value or fails, `written` plays no part.
pub open spec fn get_or_set_outcome<V>(
    looked_up: Result<Option<V>, StoreError>,
    written: Result<(), StoreError>,
    fallback: V,
) -> Result<V, StoreError> {
    match next_step(looked_up) {
        Step::Return(r) => r,
        Step::Create => create_outcome(written, fallback),
    }
}

/// Accepts an identity whose service and account are both non-empty.
pub fn check_identity(service: &str, account: &str) -> (r: Result<(), StoreError>)
    ensures
        r == identity_outcome(service@, account@),
{
    if service.is_empty() || account.is_empty() {
        Err(StoreError::InvalidIdentity)
    } else {
        Ok(())
    }
}

/// Turns the platform's answer to a read into presence or absence.
pub fn present_or_absent<V>(answer: Result<V, StoreError>) -> (r: Result<Option<V>, StoreError>)
    ensures
        r == lookup_outcome(answer),
{
    match answer {
        Ok(value) => Ok(Some(value)),
        Err(StoreError::NotFound) => Ok(None),
        Err(e) => Err(e),
    }
}

/// Decides, from the answer to the lookup, whether get-or-set is done or
/// has to write the fallback.
pub fn after_lookup<V>(looked_up: Result<Option<V>, StoreError>) -> (step: Step<V>)
    ensures
        step == next_step(looked_up),
{
    match looked_up {
        Ok(Some(existing)) => Step::Return(Ok(existing)),
        Ok(None) => Step::Create,
        Err(e) => Step::Return(Err(e)),
    }
}

/// Finishes get-or-set after the write of the fallback.
pub fn after_create<V>(written: Result<(), StoreError>, fallback: V) -> (r: Result<V, StoreError>)
    ensures
        r == create_outcome(written, fallback),
{
    match written {
        Ok(()) => Ok(fallback),
        Err(e) => Err(e),
    }
}

} // verus!
