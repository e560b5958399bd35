//! The errors of the store, and how a report of the platform store is
//! sorted into them.

use vstd::prelude::*;

verus! {

/// `keyring::Error`, the report that the platform store gives when a call
/// fails. It is declared without its variants: the store carries a report
/// through as it came, and the verifier sees nothing inside it.
#[verifier::external_type_specification]
#[verifier::external_body]
pub struct ExPlatformReport(keyring::Error);

/// Why an operation of the store did not succeed.
#[derive(Debug)]
pub enum StoreError {
    /// The identity has no stored entry.
    NotFound,
    /// The platform store rejected the operation. The report is the one the
    /// platform gave, unchanged.
    Backend(keyring::Error),
    /// The service or the account is empty.
    InvalidIdentity,
}

/// Tells `keyring::Error::NoEntry`, the variant by which the platform store
/// says that an identity holds nothing, from the other variants of
/// `keyring::Error`. The verifier cannot look into a report, so nothing is
/// claimed of the answer.
#[verifier::external_body]
fn is_no_entry(report: &keyring::Error) -> (absent: bool) {
    matches!(report, keyring::Error::NoEntry)
}

impl StoreError {
    /// The error that stands for a platform report, given whether the report
    /// says that the entry is absent.
    pub open spec fn classified(absent: bool, report: keyring::Error) -> StoreError {
        if absent {
            StoreError::NotFound
        } else {
            StoreError::Backend(report)
        }
    }

    /// Whether this error can come out of the platform store: every error
    /// but `InvalidIdentity`, which the store raises itself before it calls
    /// the platform.
    pub open spec fn is_platform(self) -> bool {
        !(self is InvalidIdentity)
    }

    /// Classifies a platform report: absence becomes `NotFound`, every other
    /// report is kept whole under `Backend`.
    pub fn classify(absent: bool, report: keyring::Error) -> (e: StoreError)
        ensures
            e == StoreError::classified(absent, report),
    {
        if absent {
            StoreError::NotFound
        } else {
            StoreError::Backend(report)
        }
    }

    /// The error for a report that the platform store just gave.
    pub(crate) fn of_report(report: keyring::Error) -> (e: StoreError)
        ensures
            e is NotFound || e == StoreError::Backend(report),
    {
        let absent = is_no_entry(&report);
        StoreError::classify(absent, report)
    }
}

} // verus!
