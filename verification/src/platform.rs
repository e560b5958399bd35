//! The platform store, reached through the `keyring` crate: five primitives
//! addressed by (service, account). What they answer depends on what the
//! platform holds at the moment of the call, so each contract states only
//! what holds of every answer.

use vstd::prelude::*;
use crate::error::StoreError;

verus! {

/// `keyring::Entry`, the handle by which one identity is addressed in the
/// platform store.
#[verifier::external_type_specification]
#[verifier::external_body]
pub struct ExPlatformEntry(keyring::Entry);

/// `keyring::Entry::new` makes the handle for (service, user) with the
/// default credential builder. Which names a platform refuses is the
/// platform's matter, so nothing is claimed of the result. The call panics
/// only where keyring's own lock on the default builder is poisoned, which
/// no argument decides.
pub assume_specification[ keyring::Entry::new ](service: &str, user: &str) -> (r: Result<
    keyring::Entry,
    keyring::Error,
>);

/// `keyring::Entry::get_password` asks the platform for the value stored
/// under the entry, as text. Nothing is claimed of the result: it is
/// whatever the platform holds and answers at that moment.
pub assume_specification[ keyring::Entry::get_password ](entry: &keyring::Entry) -> (r: Result<
    String,
    keyring::Error,
>);

/// `keyring::Entry::set_password` asks the platform to store text under the
/// entry. Nothing is claimed of the result, nor of what the platform holds
/// afterwards.
pub assume_specification[ keyring::Entry::set_password ](
    entry: &keyring::Entry,
    password: &str,
) -> (r: Result<(), keyring::Error>);

/// `keyring::Entry::get_secret` asks the platform for the value stored under
/// the entry, as bytes. Nothing is claimed of the result: it is whatever the
/// platform holds and answers at that moment.
pub assume_specification[ keyring::Entry::get_secret ](entry: &keyring::Entry) -> (r: Result<
    Vec<u8>,
    keyring::Error,
>);

/// `keyring::Entry::set_secret` asks the platform to store bytes under the
/// entry. Nothing is claimed of the result, nor of what the platform holds
/// afterwards.
pub assume_specification[ keyring::Entry::set_secret ](
    entry: &keyring::Entry,
    secret: &[u8],
) -> (r: Result<(), keyring::Error>);

/// `keyring::Entry::delete_credential` asks the platform to remove what is
/// stored under the entry. Nothing is claimed of the result, nor of what the
/// platform holds afterwards.
pub assume_specification[ keyring::Entry::delete_credential ](entry: &keyring::Entry) -> (r:
    Result<(), keyring::Error>);

/// Whether `answer` can come from the platform store: a success, or an error
/// that is not the store's own `InvalidIdentity`.
pub open spec fn platform_answer<T>(answer: Result<T, StoreError>) -> bool {
    answer matches Err(e) ==> e.is_platform()
}

/// Whether `answer` is a success or a `Backend` failure. This is all that
/// opening an entry or writing to it can give: absence is an answer to a
/// read or to a removal only.
pub open spec fn succeeds_or_backend<T>(answer: Result<T, StoreError>) -> bool {
    answer matches Err(e) ==> e is Backend
}

/// The answer that a reply of `keyring` stands for where the call cannot
/// mean absence: a success as it is, any report kept whole under `Backend`.
pub open spec fn unclassified<T>(reply: Result<T, keyring::Error>) -> Result<T, StoreError> {
    match reply {
        Ok(v) => Ok(v),
        Err(report) => Err(StoreError::Backend(report)),
    }
}

/// Turns a reply to a call that cannot mean absence into the store's
/// answer.
fn failure_of<T>(reply: Result<T, keyring::Error>) -> (answer: Result<T, StoreError>)
    ensures
        answer == unclassified(reply),
{
    match reply {
        Ok(v) => Ok(v),
        Err(report) => Err(StoreError::Backend(report)),
    }
}

/// The answer that a reply to a read or to a removal stands for: a success
/// as it is, a report classified.
fn answer_of<T>(reply: Result<T, keyring::Error>) -> (answer: Result<T, StoreError>)
    ensures
        platform_answer(answer),
        reply matches Ok(v) ==> answer == Ok::<T, StoreError>(v),
        reply matches Err(report) ==> answer matches Err(e) && (e is NotFound || e
            == StoreError::Backend(report)),
{
    match reply {
        Ok(v) => Ok(v),
        Err(report) => Err(StoreError::of_report(report)),
    }
}

/// Opens the entry of (service, account). No value is read or written yet,
/// so a refusal here is never absence: it is a `Backend` failure, with the
/// platform's report.
fn open(service: &str, account: &str) -> (r: Result<keyring::Entry, StoreError>)
    ensures
        succeeds_or_backend(r),
{
    failure_of(keyring::Entry::new(service, account))
}

/// Reads the password stored for (service, account). The platform decides
/// the answer: the value, `NotFound` where it reports that there is none, or
/// a `Backend` failure.
pub(crate) fn read_password(service: &str, account: &str) -> (answer: Result<String, StoreError>)
    ensures
        platform_answer(answer),
{
    let entry = open(service, account)?;
    answer_of(entry.get_password())
}

/// Stores `password` for (service, account), over whatever was there. A
/// write that fails is a `Backend` failure, whatever the platform reports.
pub(crate) fn write_password(service: &str, account: &str, password: &str) -> (answer: Result<
    (),
    StoreError,
>)
    ensures
        succeeds_or_backend(answer),
{
    let entry = open(service, account)?;
    failure_of(entry.set_password(password))
}

/// Reads the secret stored for (service, account). The platform decides the
/// answer: the value, `NotFound` where it reports that there is none, or a
/// `Backend` failure.
pub(crate) fn read_secret(service: &str, account: &str) -> (answer: Result<Vec<u8>, StoreError>)
    ensures
        platform_answer(answer),
{
    let entry = open(service, account)?;
    answer_of(entry.get_secret())
}

/// Stores `secret` for (service, account), over whatever was there. A write
/// that fails is a `Backend` failure, whatever the platform reports.
pub(crate) fn write_secret(service: &str, account: &str, secret: &[u8]) -> (answer: Result<
    (),
    StoreError,
>)
    ensures
        succeeds_or_backend(answer),
{
    let entry = open(service, account)?;
    failure_of(entry.set_secret(secret))
}

/// Removes what is stored for (service, account). The platform decides the
/// answer: success, `NotFound` where it reports that there was nothing to
/// remove, or a `Backend` failure.
pub(crate) fn delete(service: &str, account: &str) -> (answer: Result<(), StoreError>)
    ensures
        platform_answer(answer),
{
    let entry = open(service, account)?;
    answer_of(entry.delete_credential())
}

} // verus!
