use vstd::prelude::*;

use crate::address::Address;

verus! {

/// Fixed funding policy: the balance the new account is created with.
pub const CREATION_LAMPORTS: u64 = 1_000_000_000;

/// Fixed allocation policy: the new account's storage size in bytes.
pub const ACCOUNT_SPACE: u64 = 8;

/// The parameters of one call to the external account-creation service:
/// who pays, where the account is created, how it is funded and sized, and
/// which program identity owns it. Built once per invocation and consumed
/// immediately.
#[derive(Debug)]
pub struct AccountCreationRequest {
    pub payer: Address,
    pub new_account: Address,
    pub lamports: u64,
    pub space: u64,
    pub owner: Address,
}

/// Pure construction of a creation request from its parts; every field is
/// carried over unchanged. Nothing is validated here beyond shape, which
/// the types already guarantee: no field can be absent.
pub fn build_request(
    payer: &Address,
    new_account: &Address,
    lamports: u64,
    space: u64,
    owner: &Address,
) -> (r: AccountCreationRequest)
    ensures
        r.payer == *payer,
        r.new_account == *new_account,
        r.lamports == lamports,
        r.space == space,
        r.owner == *owner,
{
    AccountCreationRequest {
        payer: *payer,
        new_account: *new_account,
        lamports,
        space,
        owner: *owner,
    }
}

} // verus!
