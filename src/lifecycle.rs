//! Laws of the escrow's life cycle, stated over the decision functions that
//! the handlers' contracts use.
use vstd::prelude::*;

use crate::contract::{
    active_guard, compound_spec, retrieve_spec, unstake_spec, ContractError,
};
use crate::msg::Coin;
use crate::state::ConfigModel;

verus! {

/// Before the unlock time a retrieval always fails: the owner gets
/// `TooEarly`, anyone else `Unauthorized`.
pub proof fn retrieve_locked_before_time(c: ConfigModel, sender: Seq<u8>, block_time: u64)
    requires
        block_time < c.retrieval_time,
    ensures
        retrieve_spec(c, sender, block_time) == if sender == c.owner {
            Err::<ConfigModel, ContractError>(ContractError::TooEarly)
        } else {
            Err::<ConfigModel, ContractError>(ContractError::Unauthorized)
        },
{
}

/// A successful retrieval marks the funds as retrieved, and every later
/// retrieval fails; the owner, once the unlock time is reached, gets
/// `AlreadyRetrieved`.
pub proof fn retrieve_only_once(
    c: ConfigModel,
    sender: Seq<u8>,
    block_time: u64,
    later_sender: Seq<u8>,
    later_time: u64,
)
    requires
        retrieve_spec(c, sender, block_time) is Ok,
    ensures
        retrieve_spec(c, sender, block_time)->Ok_0.funds_retrieved,
        retrieve_spec(retrieve_spec(c, sender, block_time)->Ok_0, later_sender, later_time) is Err,
        later_sender == c.owner && later_time >= c.retrieval_time ==> retrieve_spec(
            retrieve_spec(c, sender, block_time)->Ok_0,
            later_sender,
            later_time,
        ) == Err::<ConfigModel, ContractError>(ContractError::AlreadyRetrieved),
{
}

/// After a successful retrieval, the owner's compounding fails with
/// `AlreadyRetrieved`, whatever the staking module reports.
pub proof fn compound_after_retrieve(
    c: ConfigModel,
    sender: Seq<u8>,
    block_time: u64,
    reward: Option<Coin>,
)
    requires
        retrieve_spec(c, sender, block_time) is Ok,
    ensures
        compound_spec(retrieve_spec(c, sender, block_time)->Ok_0, c.owner, reward) == Err::<
            ConfigModel,
            ContractError,
        >(ContractError::AlreadyRetrieved),
{
}

/// After a successful unstaking, the owner's compounding fails with
/// `AlreadyUnstaked`, whatever the staking module reports.
pub proof fn compound_after_unstake(c: ConfigModel, sender: Seq<u8>, reward: Option<Coin>)
    requires
        unstake_spec(c, sender) is Ok,
    ensures
        compound_spec(unstake_spec(c, sender)->Ok_0, c.owner, reward) == Err::<
            ConfigModel,
            ContractError,
        >(ContractError::AlreadyUnstaked),
{
}

/// Unstaking succeeds exactly for the owner on a record that is neither
/// retrieved nor unstaked, so never for want of time, and a second
/// unstaking by the owner fails with `AlreadyUnstaked`.
pub proof fn unstake_once_and_untimed(c: ConfigModel, sender: Seq<u8>)
    ensures
        unstake_spec(c, sender) is Ok <==> (sender == c.owner && !c.funds_retrieved
            && !c.funds_unstaked),
        unstake_spec(c, sender) != Err::<ConfigModel, ContractError>(ContractError::TooEarly),
        unstake_spec(c, sender) is Ok ==> unstake_spec(unstake_spec(c, sender)->Ok_0, c.owner)
            == Err::<ConfigModel, ContractError>(ContractError::AlreadyUnstaked),
{
}

/// `after` keeps the identity of `before` (owner, validator, unlock time)
/// and never clears a flag that `before` had set.
pub open spec fn keeps_identity_and_flags(before: ConfigModel, after: ConfigModel) -> bool {
    &&& after.owner == before.owner
    &&& after.validator == before.validator
    &&& after.retrieval_time == before.retrieval_time
    &&& before.funds_retrieved ==> after.funds_retrieved
    &&& before.funds_unstaked ==> after.funds_unstaked
}

/// No operation changes the owner, the validator or the unlock time, and
/// the retrieved and unstaked flags only ever go from false to true.
pub proof fn operations_keep_identity_and_flags(
    c: ConfigModel,
    sender: Seq<u8>,
    block_time: u64,
    reward: Option<Coin>,
)
    ensures
        retrieve_spec(c, sender, block_time) matches Ok(n) ==> keeps_identity_and_flags(c, n),
        compound_spec(c, sender, reward) matches Ok(n) ==> keeps_identity_and_flags(c, n),
        unstake_spec(c, sender) matches Ok(n) ==> keeps_identity_and_flags(c, n),
{
}

/// Once the funds are retrieved, no operation succeeds: retrieval is the
/// terminal state.
pub proof fn retrieved_is_terminal(
    c: ConfigModel,
    sender: Seq<u8>,
    block_time: u64,
    reward: Option<Coin>,
)
    requires
        c.funds_retrieved,
    ensures
        retrieve_spec(c, sender, block_time) is Err,
        compound_spec(c, sender, reward) is Err,
        unstake_spec(c, sender) is Err,
        active_guard(c, sender) is Err,
{
}

} // verus!
