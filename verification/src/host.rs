//! What the library takes from the hosting ledger's SDK: the address type,
//! carried through as an opaque value.

use vstd::prelude::*;

verus! {

/// `soroban_sdk::Address`, the ledger's identifier of an account or a contract.
/// Nothing inside it is visible to the proofs: an address is only moved,
/// duplicated and compared for identity in contracts.
#[verifier::external_type_specification]
#[verifier::external_body]
pub struct ExAddress(soroban_sdk::Address);

/// `Clone::clone` of `soroban_sdk::Address`, which the SDK derives: the
/// duplicate holds the same environment handle and the same object handle,
/// so it is the same address.
pub assume_specification[ <soroban_sdk::Address as Clone>::clone ](
    address: &soroban_sdk::Address,
) -> (duplicate: soroban_sdk::Address)
    ensures
        duplicate == *address,
;

} // verus!
