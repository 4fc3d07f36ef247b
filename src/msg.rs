use vstd::prelude::*;

verus! {

/// An amount of one token denomination.
#[derive(Clone, Debug, PartialEq, Eq)]
pub struct Coin {
    pub denom: String,
    pub amount: u128,
}

/// The creation request: the unlock time, in seconds, and the validator the
/// deposit is to be staked with.
#[derive(Clone, Debug, PartialEq, Eq)]
pub struct InitMsg {
    pub retrieval_time: u64,
    pub validator: String,
}

/// The state-changing operations.
#[derive(Clone, Copy, Debug, PartialEq, Eq, Structural)]
pub enum HandleMsg {
    RetrieveFunds {},
    CompoundFunds {},
    Unstake {},
}

/// The answer to a successful operation.
#[derive(Clone, Copy, Debug, PartialEq, Eq, Structural)]
pub enum HandleAnswer {
    FundsRetrieved {},
    FundsCompounded {},
    FundsUnstaked {},
}

/// The read-only requests.
#[derive(Clone, Copy, Debug, PartialEq, Eq, Structural)]
pub enum QueryMsg {
    FundsStatus { block_time: u64 },
}

/// The answer to a status request.
#[derive(Clone, Copy, Debug, PartialEq, Eq, Structural)]
pub enum QueryAnswer {
    FundsStatus {
        /// whether the lock has expired
        retrievable: bool,
        /// seconds until the lock expires, zero once it has
        remaining_time: u64,
    },
}

} // verus!
