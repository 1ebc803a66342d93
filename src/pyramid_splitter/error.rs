use vstd::prelude::*;

verus! {

#[derive(Debug)]
pub enum ContractError {
    Unauthorized {},
    AlreadyMember {},
    ReferrerNotFound {},
    InvalidPayment { expected: u128, received: u128, denom: String },
    NoPayment {},
    SelfReferral {},
    InsufficientBalance { needed: u128, available: u128 },
    NftContractNotConfigured {},
    NoNftOwnership {},
    /// A counter or a total would leave the range of its integer type.
    Overflow {},
}

} // verus!
