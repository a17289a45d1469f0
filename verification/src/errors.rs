use vstd::prelude::*;

verus! {

/// Reply code with which the host encodes the creation service's report that
/// an account already exists at the requested address (custom service code 0).
pub const ACCOUNT_IN_USE_CODE: u64 = 0x1_0000_0000;

/// Reply code with which the host encodes the creation service's report that
/// the payer cannot fund the new account (custom service code 1).
pub const NEGATIVE_LAMPORTS_CODE: u64 = 0x1;

/// Reply code with which the host reports that a required signature — here,
/// the proof of derivation standing in for one — was not accepted.
pub const MISSING_SIGNATURE_CODE: u64 = 0x8_0000_0000;

/// The ways a create-account invocation can fail.
///
/// The first two arise in this library; the rest report the reply of the
/// external account-creation service, surfaced unchanged.
#[derive(Clone, Copy, Debug, PartialEq, Eq, Structural)]
pub enum CoreError {
    /// The supplied account list held fewer than the three required entries.
    MissingAccount,
    /// No bump value in 0..=255 yielded an off-curve address.
    AddressDerivationExhausted,
    /// The external service rejected the proof of derivation for the
    /// requested address.
    AuthorityMismatch,
    /// The external service found an account already at the requested
    /// address.
    AccountAlreadyExists,
    /// The payer could not fund the new account.
    InsufficientFunds,
    /// Any other reply code reported by the external service.
    ServiceFailure(u64),
}

/// How a reply code of the external creation service reads as a `CoreError`.
pub open spec fn spec_classify_service_error(code: u64) -> CoreError {
    if code == ACCOUNT_IN_USE_CODE {
        CoreError::AccountAlreadyExists
    } else if code == NEGATIVE_LAMPORTS_CODE {
        CoreError::InsufficientFunds
    } else if code == MISSING_SIGNATURE_CODE {
        CoreError::AuthorityMismatch
    } else {
        CoreError::ServiceFailure(code)
    }
}

/// Interpret a reply code of the external account-creation service.
///
/// The service reports "account already in use" as its custom code 0 and
/// "result with negative lamports" as its custom code 1; the host encodes
/// custom code 0 as `0x1_0000_0000`, any other custom code as itself, and a
/// rejected signature as `0x8_0000_0000`. Every other code is surfaced
/// unchanged as `ServiceFailure`.
pub fn classify_service_error(code: u64) -> (r: CoreError)
    ensures
        r == spec_classify_service_error(code),
{
    if code == ACCOUNT_IN_USE_CODE {
        CoreError::AccountAlreadyExists
    } else if code == NEGATIVE_LAMPORTS_CODE {
        CoreError::InsufficientFunds
    } else if code == MISSING_SIGNATURE_CODE {
        CoreError::AuthorityMismatch
    } else {
        CoreError::ServiceFailure(code)
    }
}

} // verus!
