//! The credential store: eight operations over the platform store, for
//! passwords and for binary secrets.
//!
//! The store keeps nothing between calls. An operation checks the identity,
//! then makes at most one read and one write against the platform. What the
//! platform answers is not the store's to promise, so each contract here
//! says what holds of every answer: an empty service or user is refused
//! before the platform is asked; otherwise only a removal can fail with
//! `NotFound`, and every other failure is the platform's, under `Backend`.
//! What the store makes of a given answer is stated, exactly, on the
//! functions of `protocol`.

use vstd::prelude::*;
use vstd::slice::slice_to_vec;
use crate::error::StoreError;
use crate::platform::{
    delete,
    platform_answer,
    read_password,
    succeeds_or_backend,
    read_secret,
    write_password,
    write_secret,
};
use crate::protocol::{
    after_create,
    after_lookup,
    check_identity,
    present_or_absent,
    valid_identity,
    Step,
};

verus! {

/// Access to the credentials that the platform keeps.
#[derive(Clone, Copy, Debug)]
pub struct Keyring {}

/// Makes the store. It is made once and shared; it has no state of its own.
pub fn init() -> (r: Result<Keyring, StoreError>)
    ensures
        r == Ok::<Keyring, StoreError>(Keyring {}),
{
    Ok(Keyring {})
}

impl Keyring {
    /// Looks up the password of (service, user). An identity that holds
    /// nothing gives `Ok(None)`: absence is never an error here.
    pub fn get_password(&self, service: &str, user: &str) -> (r: Result<Option<String>, StoreError>)
        ensures
            !valid_identity(service@, user@) ==> r == Err::<Option<String>, StoreError>(
                StoreError::InvalidIdentity,
            ),
            valid_identity(service@, user@) ==> succeeds_or_backend(r),
    {
        check_identity(service, user)?;
        present_or_absent(read_password(service, user))
    }

    /// Returns the password of (service, user) if there is one; if there is
    /// none, stores `password` and returns it. The lookup and the write are
    /// two calls, not one transaction.
    pub fn get_or_set_password(&self, service: &str, user: &str, password: &str) -> (r: Result<
        String,
        StoreError,
    >)
        ensures
            !valid_identity(service@, user@) ==> r == Err::<String, StoreError>(
                StoreError::InvalidIdentity,
            ),
            valid_identity(service@, user@) ==> succeeds_or_backend(r),
    {
        match after_lookup(self.get_password(service, user)) {
            Step::Return(r) => r,
            Step::Create => {
                let written = self.set_password(service, user, password);
                after_create(written, password.to_owned())
            },
        }
    }

    /// Stores `password` for (service, user), over whatever was there.
    pub fn set_password(&self, service: &str, user: &str, password: &str) -> (r: Result<
        (),
        StoreError,
    >)
        ensures
            !valid_identity(service@, user@) ==> r == Err::<(), StoreError>(
                StoreError::InvalidIdentity,
            ),
            valid_identity(service@, user@) ==> succeeds_or_backend(r),
    {
        check_identity(service, user)?;
        write_password(service, user, password)
    }

    /// Removes the entry of (service, user). Where there is none, the
    /// platform's answer is passed on: `NotFound` is an error here.
    pub fn delete_password(&self, service: &str, user: &str) -> (r: Result<(), StoreError>)
        ensures
            !valid_identity(service@, user@) ==> r == Err::<(), StoreError>(
                StoreError::InvalidIdentity,
            ),
            valid_identity(service@, user@) ==> platform_answer(r),
    {
        check_identity(service, user)?;
        delete(service, user)
    }

    /// Looks up the secret of (service, user). An identity that holds
    /// nothing gives `Ok(None)`: absence is never an error here.
    pub fn get_secret(&self, service: &str, user: &str) -> (r: Result<Option<Vec<u8>>, StoreError>)
        ensures
            !valid_identity(service@, user@) ==> r == Err::<Option<Vec<u8>>, StoreError>(
                StoreError::InvalidIdentity,
            ),
            valid_identity(service@, user@) ==> succeeds_or_backend(r),
    {
        check_identity(service, user)?;
        present_or_absent(read_secret(service, user))
    }

    /// Returns the secret of (service, user) if there is one; if there is
    /// none, stores `secret` and returns it. The lookup and the write are
    /// two calls, not one transaction.
    pub fn get_or_set_secret(&self, service: &str, user: &str, secret: &[u8]) -> (r: Result<
        Vec<u8>,
        StoreError,
    >)
        ensures
            !valid_identity(service@, user@) ==> r == Err::<Vec<u8>, StoreError>(
                StoreError::InvalidIdentity,
            ),
            valid_identity(service@, user@) ==> succeeds_or_backend(r),
    {
        match after_lookup(self.get_secret(service, user)) {
            Step::Return(r) => r,
            Step::Create => {
                let written = self.set_secret(service, user, secret);
                after_create(written, slice_to_vec(secret))
            },
        }
    }

    /// Stores `secret` for (service, user), over whatever was there.
    pub fn set_secret(&self, service: &str, user: &str, secret: &[u8]) -> (r: Result<
        (),
        StoreError,
    >)
        ensures
            !valid_identity(service@, user@) ==> r == Err::<(), StoreError>(
                StoreError::InvalidIdentity,
            ),
            valid_identity(service@, user@) ==> succeeds_or_backend(r),
    {
        check_identity(service, user)?;
        write_secret(service, user, secret)
    }

    /// Removes the entry of (service, user). Where there is none, the
    /// platform's answer is passed on: `NotFound` is an error here.
    pub fn delete_secret(&self, service: &str, user: &str) -> (r: Result<(), StoreError>)
        ensures
            !valid_identity(service@, user@) ==> r == Err::<(), StoreError>(
                StoreError::InvalidIdentity,
            ),
            valid_identity(service@, user@) ==> platform_answer(r),
    {
        check_identity(service, user)?;
        delete(service, user)
    }
}

} // verus!
