use vstd::prelude::*;

use crate::msg::{Coin, HandleAnswer, HandleMsg, InitMsg, QueryAnswer, QueryMsg};
use crate::state::{native_denom, native_denom_string, same_address, Config, ConfigModel};

verus! {

/// Why an operation was refused. A refused operation changes nothing.
#[derive(Clone, Copy, Debug, PartialEq, Eq, Structural)]
pub enum ContractError {
    /// the creation deposit is not exactly one positive amount of the native token
    InvalidFunds,
    /// the caller is not the owner
    Unauthorized,
    /// the unlock time has not been reached
    TooEarly,
    /// the funds have already been withdrawn
    AlreadyRetrieved,
    /// undelegation has already been requested
    AlreadyUnstaked,
    /// the staking module holds no delegation record for this escrow
    NoRewards,
    /// the accrued reward is not in the native token
    UnexpectedDenom,
}

/// An outgoing message for the host to execute after the operation commits.
#[derive(Clone, Debug, PartialEq, Eq)]
pub enum CosmosIntent {
    /// send `amount` from the escrow's own account to the canonical address `to`
    BankSend { to: Vec<u8>, amount: Coin },
    /// undelegate `amount` from `validator` back to the escrow's liquid balance
    Undelegate { validator: String, amount: Coin },
    /// withdraw the reward accrued with `validator` to the escrow's own account
    WithdrawRewards { validator: String },
}

/// What a successful operation hands back to the host.
#[derive(Clone, Debug, PartialEq, Eq)]
pub struct HandleResponse {
    pub messages: Vec<CosmosIntent>,
    pub answer: HandleAnswer,
}

/// A deposit is accepted when it is one positive amount of the native token.
pub open spec fn funds_valid(funds: Seq<Coin>) -> bool {
    &&& funds.len() == 1
    &&& funds[0].amount > 0
    &&& funds[0].denom@ == native_denom()
}

/// The record that creation writes.
pub open spec fn initial_config(owner: Seq<u8>, msg: InitMsg, deposit: u128) -> ConfigModel {
    ConfigModel {
        owner,
        validator: msg.validator@,
        retrieval_time: msg.retrieval_time,
        amount: deposit,
        funds_retrieved: false,
        funds_unstaked: false,
    }
}

/// Retrieval: its guards in order, then the record it leaves.
pub open spec fn retrieve_spec(c: ConfigModel, sender: Seq<u8>, block_time: u64) -> Result<
    ConfigModel,
    ContractError,
> {
    if sender != c.owner {
        Err(ContractError::Unauthorized)
    } else if block_time < c.retrieval_time {
        Err(ContractError::TooEarly)
    } else if c.funds_retrieved {
        Err(ContractError::AlreadyRetrieved)
    } else {
        Ok(ConfigModel { funds_retrieved: true, ..c })
    }
}

/// The guards that compounding and unstaking share, in order.
pub open spec fn active_guard(c: ConfigModel, sender: Seq<u8>) -> Result<(), ContractError> {
    if sender != c.owner {
        Err(ContractError::Unauthorized)
    } else if c.funds_retrieved {
        Err(ContractError::AlreadyRetrieved)
    } else if c.funds_unstaked {
        Err(ContractError::AlreadyUnstaked)
    } else {
        Ok(())
    }
}

/// Compounding, given what the staking module reported as the accrued reward
/// (`None`: no delegation record).
pub open spec fn compound_spec(c: ConfigModel, sender: Seq<u8>, reward: Option<Coin>) -> Result<
    ConfigModel,
    ContractError,
> {
    match active_guard(c, sender) {
        Err(e) => Err(e),
        Ok(_) => match reward {
            None => Err(ContractError::NoRewards),
            Some(r) => if r.denom@ != native_denom() {
                Err(ContractError::UnexpectedDenom)
            } else {
                Ok(ConfigModel { amount: (c.amount + r.amount) as u128, ..c })
            },
        },
    }
}

/// Adding a native-token reward to `amount` stays within `u128`.
pub open spec fn reward_fits(amount: u128, reward: Option<Coin>) -> bool {
    match reward {
        Some(w) => w.denom@ == native_denom() ==> amount + w.amount <= u128::MAX,
        None => true,
    }
}

/// Unstaking: the shared guards, then the record it leaves.
pub open spec fn unstake_spec(c: ConfigModel, sender: Seq<u8>) -> Result<ConfigModel, ContractError> {
    match active_guard(c, sender) {
        Err(e) => Err(e),
        Ok(_) => Ok(ConfigModel { funds_unstaked: true, ..c }),
    }
}

/// An operation's outcome on the record: the new record, or the error.
pub open spec fn outcome(r: Result<HandleResponse, ContractError>, after: Config) -> Result<
    ConfigModel,
    ContractError,
> {
    match r {
        Ok(_) => Ok(after@),
        Err(e) => Err(e),
    }
}

/// `m` is the one coin of `amount` native tokens.
pub open spec fn native_coin(m: Coin, amount: u128) -> bool {
    m.denom@ == native_denom() && m.amount == amount
}

/// `i` sends `amount` native tokens to `to`.
pub open spec fn is_send(i: CosmosIntent, to: Seq<u8>, amount: u128) -> bool {
    match i {
        CosmosIntent::BankSend { to: t, amount: m } => t@ == to && native_coin(m, amount),
        _ => false,
    }
}

/// `i` undelegates `amount` native tokens from `validator`.
pub open spec fn is_undelegate(i: CosmosIntent, validator: Seq<char>, amount: u128) -> bool {
    match i {
        CosmosIntent::Undelegate { validator: v, amount: m } => v@ == validator && native_coin(
            m,
            amount,
        ),
        _ => false,
    }
}

/// `i` withdraws the reward accrued with `validator`.
pub open spec fn is_withdraw(i: CosmosIntent, validator: Seq<char>) -> bool {
    match i {
        CosmosIntent::WithdrawRewards { validator: v } => v@ == validator,
        _ => false,
    }
}

/// Validates the deposit attached to the creation call and builds the
/// initial record, owned by `sender` (a canonical address).
pub fn init(sender: Vec<u8>, sent_funds: &Vec<Coin>, msg: InitMsg) -> (r: Result<
    Config,
    ContractError,
>)
    ensures
        r is Ok <==> funds_valid(sent_funds@),
        r is Err ==> r == Err::<Config, ContractError>(ContractError::InvalidFunds),
        r matches Ok(c) ==> c@ == initial_config(sender@, msg, sent_funds@[0].amount),
{
    if sent_funds.len() == 0 {
        return Err(ContractError::InvalidFunds);
    }
    if sent_funds.len() > 1 {
        return Err(ContractError::InvalidFunds);
    }
    if sent_funds[0].amount < 1 {
        return Err(ContractError::InvalidFunds);
    }
    let native = native_denom_string();
    if sent_funds[0].denom != native {
        return Err(ContractError::InvalidFunds);
    }
    Ok(
        Config {
            owner: sender,
            retrieval_time: msg.retrieval_time,
            funds_retrieved: false,
            funds_unstaked: false,
            amount: sent_funds[0].amount,
            validator: msg.validator,
        },
    )
}

/// Routes an operation to its handler. `reward` is the staking module's
/// answer for the accrued reward; only compounding reads it.
pub fn handle(
    config: &mut Config,
    sender: &Vec<u8>,
    block_time: u64,
    reward: Option<Coin>,
    msg: HandleMsg,
) -> (r: Result<HandleResponse, ContractError>)
    requires
        reward_fits(old(config).amount, reward),
    ensures
        outcome(r, *final(config)) == match msg {
            HandleMsg::RetrieveFunds {  } => retrieve_spec(old(config)@, sender@, block_time),
            HandleMsg::CompoundFunds {  } => compound_spec(old(config)@, sender@, reward),
            HandleMsg::Unstake {  } => unstake_spec(old(config)@, sender@),
        },
        r is Err ==> *final(config) == *old(config),
        r matches Ok(resp) ==> resp.messages@.len() == 1 && match msg {
            HandleMsg::RetrieveFunds {  } => is_send(
                resp.messages@[0],
                old(config).owner@,
                old(config).amount,
            ) && resp.answer == HandleAnswer::FundsRetrieved {  },
            HandleMsg::CompoundFunds {  } => is_withdraw(
                resp.messages@[0],
                old(config).validator@,
            ) && resp.answer == HandleAnswer::FundsCompounded {  },
            HandleMsg::Unstake {  } => is_undelegate(
                resp.messages@[0],
                old(config).validator@,
                old(config).amount,
            ) && resp.answer == HandleAnswer::FundsUnstaked {  },
        },
{
    match msg {
        HandleMsg::RetrieveFunds {  } => handle_retrieve_funds(config, sender, block_time),
        HandleMsg::CompoundFunds {  } => handle_compound_funds(config, sender, reward),
        HandleMsg::Unstake {  } => handle_unstake(config, sender),
    }
}

/// Pays the whole bookkept amount out to the owner, once the unlock time has
/// been reached, and marks the funds as retrieved.
pub fn handle_retrieve_funds(config: &mut Config, sender: &Vec<u8>, block_time: u64) -> (r: Result<
    HandleResponse,
    ContractError,
>)
    ensures
        outcome(r, *final(config)) == retrieve_spec(old(config)@, sender@, block_time),
        r is Err ==> *final(config) == *old(config),
        r matches Ok(resp) ==> {
            &&& resp.messages@.len() == 1
            &&& is_send(resp.messages@[0], old(config).owner@, old(config).amount)
            &&& resp.answer == HandleAnswer::FundsRetrieved {  }
        },
{
    if !same_address(&config.owner, sender) {
        return Err(ContractError::Unauthorized);
    }
    if config.retrieval_time > block_time {
        return Err(ContractError::TooEarly);
    }
    if config.funds_retrieved {
        return Err(ContractError::AlreadyRetrieved);
    }
    let send = CosmosIntent::BankSend {
        to: config.owner.clone(),
        amount: Coin { denom: native_denom_string(), amount: config.amount },
    };
    config.funds_retrieved = true;
    Ok(HandleResponse { messages: vec![send], answer: HandleAnswer::FundsRetrieved {  } })
}

/// Checks the guards that compounding and unstaking share: the caller is the
/// owner, and the funds are neither retrieved nor unstaked.
pub fn check_active(config: &Config, sender: &Vec<u8>) -> (r: Result<(), ContractError>)
    ensures
        r == active_guard(config@, sender@),
{
    if !same_address(&config.owner, sender) {
        return Err(ContractError::Unauthorized);
    }
    if config.funds_retrieved {
        return Err(ContractError::AlreadyRetrieved);
    }
    if config.funds_unstaked {
        return Err(ContractError::AlreadyUnstaked);
    }
    Ok(())
}

/// Adds the accrued staking reward to the bookkept amount and asks the
/// staking module to withdraw it to the escrow's own account. `reward` is
/// the staking module's answer (`None`: no delegation record).
pub fn handle_compound_funds(config: &mut Config, sender: &Vec<u8>, reward: Option<Coin>) -> (r:
    Result<HandleResponse, ContractError>)
    requires
        reward_fits(old(config).amount, reward),
    ensures
        outcome(r, *final(config)) == compound_spec(old(config)@, sender@, reward),
        r is Err ==> *final(config) == *old(config),
        r matches Ok(resp) ==> {
            &&& resp.messages@.len() == 1
            &&& is_withdraw(resp.messages@[0], old(config).validator@)
            &&& resp.answer == HandleAnswer::FundsCompounded {  }
        },
{
    match check_active(config, sender) {
        Err(e) => {
            return Err(e);
        },
        Ok(_) => {},
    }
    let reward = match reward {
        None => {
            return Err(ContractError::NoRewards);
        },
        Some(w) => w,
    };
    let native = native_denom_string();
    if reward.denom != native {
        return Err(ContractError::UnexpectedDenom);
    }
    let withdraw = CosmosIntent::WithdrawRewards { validator: config.validator.clone() };
    config.amount = config.amount + reward.amount;
    Ok(HandleResponse { messages: vec![withdraw], answer: HandleAnswer::FundsCompounded {  } })
}

/// Asks the staking module to undelegate the whole bookkept amount, and
/// marks the funds as unstaked. The unlock time plays no part.
pub fn handle_unstake(config: &mut Config, sender: &Vec<u8>) -> (r: Result<
    HandleResponse,
    ContractError,
>)
    ensures
        outcome(r, *final(config)) == unstake_spec(old(config)@, sender@),
        r is Err ==> *final(config) == *old(config),
        r matches Ok(resp) ==> {
            &&& resp.messages@.len() == 1
            &&& is_undelegate(resp.messages@[0], old(config).validator@, old(config).amount)
            &&& resp.answer == HandleAnswer::FundsUnstaked {  }
        },
{
    match check_active(config, sender) {
        Err(e) => {
            return Err(e);
        },
        Ok(_) => {},
    }
    let undelegate = CosmosIntent::Undelegate {
        validator: config.validator.clone(),
        amount: Coin { denom: native_denom_string(), amount: config.amount },
    };
    config.funds_unstaked = true;
    Ok(HandleResponse { messages: vec![undelegate], answer: HandleAnswer::FundsUnstaked {  } })
}

/// The status a caller sees at `block_time`: the seconds left until the
/// unlock time (never below zero) and whether the lock has expired.
pub open spec fn funds_status(c: ConfigModel, block_time: u64) -> QueryAnswer {
    let remaining_time = if c.retrieval_time > block_time {
        (c.retrieval_time - block_time) as u64
    } else {
        0u64
    };
    QueryAnswer::FundsStatus { retrievable: remaining_time == 0, remaining_time }
}

/// Answers a read-only request; nothing is changed.
pub fn query(config: &Config, msg: QueryMsg) -> (r: QueryAnswer)
    ensures
        r == match msg {
            QueryMsg::FundsStatus { block_time } => funds_status(config@, block_time),
        },
{
    match msg {
        QueryMsg::FundsStatus { block_time } => query_funds_status(config, block_time),
    }
}

/// The status of the lock at `block_time`.
pub fn query_funds_status(config: &Config, block_time: u64) -> (r: QueryAnswer)
    ensures
        r == funds_status(config@, block_time),
{
    let remaining_time: u64 = if config.retrieval_time > block_time {
        config.retrieval_time - block_time
    } else {
        0
    };
    let retrievable = remaining_time == 0;
    QueryAnswer::FundsStatus { remaining_time, retrievable }
}

} // verus!
