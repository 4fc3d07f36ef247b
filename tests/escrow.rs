use timelock_staking::contract::{
    check_active, handle, handle_compound_funds, handle_retrieve_funds, handle_unstake, init,
    query, query_funds_status, ContractError, CosmosIntent, HandleResponse,
};
use timelock_staking::msg::{Coin, HandleAnswer, HandleMsg, InitMsg, QueryAnswer, QueryMsg};
use timelock_staking::state::{native_denom_string, same_address, Config};

fn owner() -> Vec<u8> {
    b"owner-canonical".to_vec()
}

fn stranger() -> Vec<u8> {
    b"someone-else".to_vec()
}

fn coin(denom: &str, amount: u128) -> Coin {
    Coin { denom: denom.to_string(), amount }
}

fn init_msg(retrieval_time: u64) -> InitMsg {
    InitMsg { retrieval_time, validator: "validator-one".to_string() }
}

fn created(amount: u128, retrieval_time: u64) -> Config {
    init(owner(), &vec![coin("uscrt", amount)], init_msg(retrieval_time)).unwrap()
}

fn single(resp: &HandleResponse) -> &CosmosIntent {
    assert_eq!(resp.messages.len(), 1);
    &resp.messages[0]
}

#[test]
fn init_accepts_one_positive_native_coin() {
    let c = created(500, 1000);
    assert_eq!(c.owner, owner());
    assert_eq!(c.validator, "validator-one");
    assert_eq!(c.retrieval_time, 1000);
    assert_eq!(c.amount, 500);
    assert!(!c.funds_retrieved);
    assert!(!c.funds_unstaked);
}

#[test]
fn init_rejects_no_coins() {
    assert_eq!(init(owner(), &vec![], init_msg(10)), Err(ContractError::InvalidFunds));
}

#[test]
fn init_rejects_two_coins() {
    let funds = vec![coin("uscrt", 5), coin("uscrt", 7)];
    assert_eq!(init(owner(), &funds, init_msg(10)), Err(ContractError::InvalidFunds));
}

#[test]
fn init_rejects_zero_amount() {
    let funds = vec![coin("uscrt", 0)];
    assert_eq!(init(owner(), &funds, init_msg(10)), Err(ContractError::InvalidFunds));
}

#[test]
fn init_rejects_other_denom() {
    let funds = vec![coin("uatom", 5)];
    assert_eq!(init(owner(), &funds, init_msg(10)), Err(ContractError::InvalidFunds));
    let funds = vec![coin("USCRT", 5)];
    assert_eq!(init(owner(), &funds, init_msg(10)), Err(ContractError::InvalidFunds));
}

#[test]
fn init_accepts_largest_amount() {
    let c = created(u128::MAX, 0);
    assert_eq!(c.amount, u128::MAX);
}

#[test]
fn retrieve_before_time_is_too_early_for_owner() {
    let mut c = created(500, 1000);
    let before = c.clone();
    assert_eq!(handle_retrieve_funds(&mut c, &owner(), 999), Err(ContractError::TooEarly));
    assert_eq!(c, before);
}

#[test]
fn retrieve_by_stranger_is_unauthorized_first() {
    let mut c = created(500, 1000);
    assert_eq!(handle_retrieve_funds(&mut c, &stranger(), 999), Err(ContractError::Unauthorized));
    assert_eq!(handle_retrieve_funds(&mut c, &stranger(), 5000), Err(ContractError::Unauthorized));
    assert!(!c.funds_retrieved);
}

#[test]
fn retrieve_succeeds_once() {
    let mut c = created(500, 1000);
    let resp = handle_retrieve_funds(&mut c, &owner(), 1000).unwrap();
    assert_eq!(resp.answer, HandleAnswer::FundsRetrieved {});
    assert_eq!(
        single(&resp),
        &CosmosIntent::BankSend { to: owner(), amount: coin("uscrt", 500) }
    );
    assert!(c.funds_retrieved);
    let before = c.clone();
    assert_eq!(
        handle_retrieve_funds(&mut c, &owner(), 2000),
        Err(ContractError::AlreadyRetrieved)
    );
    assert_eq!(c, before);
}

#[test]
fn compound_adds_reward_and_withdraws() {
    let mut c = created(500, 1000);
    let resp = handle_compound_funds(&mut c, &owner(), Some(coin("uscrt", 25))).unwrap();
    assert_eq!(resp.answer, HandleAnswer::FundsCompounded {});
    assert_eq!(
        single(&resp),
        &CosmosIntent::WithdrawRewards { validator: "validator-one".to_string() }
    );
    assert_eq!(c.amount, 525);
    assert!(!c.funds_retrieved);
    assert!(!c.funds_unstaked);
}

#[test]
fn compound_without_delegation_has_no_rewards() {
    let mut c = created(500, 1000);
    assert_eq!(handle_compound_funds(&mut c, &owner(), None), Err(ContractError::NoRewards));
    assert_eq!(c.amount, 500);
}

#[test]
fn compound_with_foreign_reward_is_unexpected_denom() {
    let mut c = created(500, 1000);
    assert_eq!(
        handle_compound_funds(&mut c, &owner(), Some(coin("uatom", 25))),
        Err(ContractError::UnexpectedDenom)
    );
    assert_eq!(c.amount, 500);
}

#[test]
fn compound_by_stranger_is_unauthorized() {
    let mut c = created(500, 1000);
    assert_eq!(
        handle_compound_funds(&mut c, &stranger(), Some(coin("uscrt", 25))),
        Err(ContractError::Unauthorized)
    );
}

#[test]
fn compound_after_retrieve_is_already_retrieved() {
    let mut c = created(500, 1000);
    handle_retrieve_funds(&mut c, &owner(), 1000).unwrap();
    assert_eq!(
        handle_compound_funds(&mut c, &owner(), Some(coin("uscrt", 25))),
        Err(ContractError::AlreadyRetrieved)
    );
    assert_eq!(handle_unstake(&mut c, &owner()), Err(ContractError::AlreadyRetrieved));
}

#[test]
fn compound_after_unstake_is_already_unstaked() {
    let mut c = created(500, 1000);
    handle_unstake(&mut c, &owner()).unwrap();
    assert_eq!(
        handle_compound_funds(&mut c, &owner(), Some(coin("uscrt", 25))),
        Err(ContractError::AlreadyUnstaked)
    );
    assert_eq!(c.amount, 500);
}

#[test]
fn unstake_twice_is_already_unstaked_and_ignores_time() {
    let mut c = created(500, u64::MAX);
    let resp = handle_unstake(&mut c, &owner()).unwrap();
    assert_eq!(resp.answer, HandleAnswer::FundsUnstaked {});
    assert_eq!(
        single(&resp),
        &CosmosIntent::Undelegate {
            validator: "validator-one".to_string(),
            amount: coin("uscrt", 500)
        }
    );
    assert!(c.funds_unstaked);
    assert_eq!(handle_unstake(&mut c, &owner()), Err(ContractError::AlreadyUnstaked));
    assert_eq!(handle_unstake(&mut c, &stranger()), Err(ContractError::Unauthorized));
}

#[test]
fn check_active_reports_guards_in_order() {
    let mut c = created(500, 1000);
    assert_eq!(check_active(&c, &owner()), Ok(()));
    assert_eq!(check_active(&c, &stranger()), Err(ContractError::Unauthorized));
    c.funds_unstaked = true;
    assert_eq!(check_active(&c, &owner()), Err(ContractError::AlreadyUnstaked));
    c.funds_retrieved = true;
    assert_eq!(check_active(&c, &owner()), Err(ContractError::AlreadyRetrieved));
}

#[test]
fn query_status_at_boundaries() {
    let c = created(500, 1000);
    assert_eq!(
        query_funds_status(&c, 1000),
        QueryAnswer::FundsStatus { retrievable: true, remaining_time: 0 }
    );
    assert_eq!(
        query_funds_status(&c, 999),
        QueryAnswer::FundsStatus { retrievable: false, remaining_time: 1 }
    );
    assert_eq!(
        query_funds_status(&c, 2000),
        QueryAnswer::FundsStatus { retrievable: true, remaining_time: 0 }
    );
    assert_eq!(
        query(&c, QueryMsg::FundsStatus { block_time: 0 }),
        QueryAnswer::FundsStatus { retrievable: false, remaining_time: 1000 }
    );
}

#[test]
fn end_to_end_unstake_then_retrieve() {
    let t: u64 = 1_700_000_000;
    let mut c = created(500, t);
    let resp = handle(&mut c, &owner(), t - 100, None, HandleMsg::Unstake {}).unwrap();
    assert_eq!(
        single(&resp),
        &CosmosIntent::Undelegate {
            validator: "validator-one".to_string(),
            amount: coin("uscrt", 500)
        }
    );
    assert_eq!(
        handle(&mut c, &owner(), t - 50, Some(coin("uscrt", 3)), HandleMsg::CompoundFunds {}),
        Err(ContractError::AlreadyUnstaked)
    );
    let resp = handle(&mut c, &owner(), t, None, HandleMsg::RetrieveFunds {}).unwrap();
    assert_eq!(resp.answer, HandleAnswer::FundsRetrieved {});
    assert_eq!(
        single(&resp),
        &CosmosIntent::BankSend { to: owner(), amount: coin("uscrt", 500) }
    );
    assert!(c.funds_retrieved);
    assert_eq!(
        handle(&mut c, &owner(), t + 1, None, HandleMsg::RetrieveFunds {}),
        Err(ContractError::AlreadyRetrieved)
    );
}

#[test]
fn native_denom_and_address_helpers() {
    assert_eq!(native_denom_string(), "uscrt");
    assert!(same_address(&owner(), &owner()));
    assert!(!same_address(&owner(), &stranger()));
    assert!(!same_address(&b"ab".to_vec(), &b"abc".to_vec()));
}
