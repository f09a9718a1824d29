use cosmwasm_std::{attr, coins, BankMsg, SubMsg};
use counter::contract::{execute, instantiate, try_token_distribute};
use counter::error::ContractError;
use counter::msg::{ExecuteMsg, InstantiateMsg};
use counter::payout::{distribute_tokens_to_whitelist, required_funds, transfer_plan, Transfer};
use counter::state::{State, Store};

fn state_with(whitelist: &[&str]) -> State {
    State {
        count: 0,
        owner: "owner".to_string(),
        whitelist: whitelist.iter().map(|name| name.to_string()).collect(),
    }
}

fn transfer(recipient: &str, amount: u128, denom: &str) -> Transfer {
    Transfer { recipient: recipient.to_string(), amount, denom: denom.to_string() }
}

fn send(recipient: &str, amount: u128, denom: &str) -> SubMsg {
    SubMsg::new(BankMsg::Send { to_address: recipient.to_string(), amount: coins(amount, denom) })
}

#[test]
fn payout_needs_the_balance_to_cover_the_total() {
    let state = state_with(&["a", "b"]);

    let plan = transfer_plan(&state, "owner", 100, "token", 200).unwrap();
    assert_eq!(vec![transfer("a", 100, "token"), transfer("b", 100, "token")], plan);

    let plan = transfer_plan(&state, "owner", 100, "token", 201).unwrap();
    assert_eq!(2, plan.len());

    assert_eq!(
        Err(ContractError::InsufficientFunds),
        transfer_plan(&state, "owner", 100, "token", 150)
    );
    assert_eq!(
        Err(ContractError::InsufficientFunds),
        transfer_plan(&state, "owner", 100, "token", 199)
    );
    assert_eq!(
        Err(ContractError::InsufficientFunds),
        distribute_tokens_to_whitelist(&state, "owner", 100, "token", 150)
    );
}

#[test]
fn payout_through_the_contract() {
    let mut store = Store::new();
    let msg = InstantiateMsg { count: 0, whitelist: vec!["a".to_string(), "b".to_string()] };
    instantiate(&mut store, "owner", msg).unwrap();
    let before = store.record().cloned();

    assert!(try_token_distribute(&store, "owner", 100, "token", 200).is_ok());
    assert_eq!(
        Err(ContractError::InsufficientFunds),
        try_token_distribute(&store, "owner", 100, "token", 150)
    );

    let msg = ExecuteMsg::Distribute { amount: 100, denom: "token".to_string() };
    let res = execute(&mut store, "owner", msg, 200).unwrap();
    assert_eq!(res.attributes, vec![attr("method", "try_token_distribute")]);
    assert_eq!(0, res.messages.len());

    let msg = ExecuteMsg::Distribute { amount: 100, denom: "token".to_string() };
    assert_eq!(Err(ContractError::InsufficientFunds), execute(&mut store, "owner", msg, 150));

    // a payout moves nothing in the record
    assert_eq!(before, store.record().cloned());
}

#[test]
fn required_funds_is_amount_times_recipients() {
    assert_eq!(Ok(200), required_funds(&state_with(&["a", "b"]), "owner", 100));
    assert_eq!(Ok(0), required_funds(&state_with(&[]), "owner", 100));
    assert_eq!(Ok(0), required_funds(&state_with(&["a", "b"]), "owner", 0));
    assert_eq!(Ok(21), required_funds(&state_with(&["a", "a", "a"]), "owner", 7));
    assert_eq!(Ok(u128::MAX), required_funds(&state_with(&["a"]), "owner", u128::MAX));
    assert_eq!(
        Err(ContractError::Unauthorized),
        required_funds(&state_with(&["a", "b"]), "anyone", 100)
    );
}

#[test]
fn a_total_that_does_not_fit_is_refused() {
    let state = state_with(&["a", "b"]);
    let half = u128::MAX / 2;

    assert_eq!(Ok(u128::MAX - 1), required_funds(&state, "owner", half));
    assert_eq!(Err(ContractError::Overflow), required_funds(&state, "owner", half + 1));
    assert_eq!(Err(ContractError::Overflow), required_funds(&state, "owner", u128::MAX));
    assert_eq!(
        Err(ContractError::Overflow),
        transfer_plan(&state, "owner", u128::MAX, "token", u128::MAX)
    );
    assert_eq!(
        Err(ContractError::Overflow),
        distribute_tokens_to_whitelist(&state, "owner", u128::MAX, "token", u128::MAX)
    );

    let mut store = Store::holding(state);
    assert_eq!(
        Err(ContractError::Overflow),
        try_token_distribute(&store, "owner", u128::MAX, "token", u128::MAX)
    );
    let msg = ExecuteMsg::Distribute { amount: u128::MAX, denom: "token".to_string() };
    assert_eq!(Err(ContractError::Overflow), execute(&mut store, "owner", msg, u128::MAX));
}

#[test]
fn a_stranger_is_refused_before_anything_is_counted() {
    let state = state_with(&["a", "b"]);
    assert_eq!(
        Err(ContractError::Unauthorized),
        transfer_plan(&state, "anyone", u128::MAX, "token", 0)
    );
    assert_eq!(
        Err(ContractError::Unauthorized),
        distribute_tokens_to_whitelist(&state, "anyone", 100, "token", 1000)
    );
}

#[test]
fn an_address_listed_twice_is_paid_twice() {
    let state = state_with(&["a", "b", "a"]);

    assert_eq!(
        Err(ContractError::InsufficientFunds),
        transfer_plan(&state, "owner", 10, "coin", 29)
    );
    let plan = transfer_plan(&state, "owner", 10, "coin", 30).unwrap();
    assert_eq!(
        vec![transfer("a", 10, "coin"), transfer("b", 10, "coin"), transfer("a", 10, "coin")],
        plan
    );

    let res = distribute_tokens_to_whitelist(&state, "owner", 10, "coin", 30).unwrap();
    assert_eq!(
        vec![send("a", 10, "coin"), send("b", 10, "coin"), send("a", 10, "coin")],
        res.messages
    );
    assert_eq!(res.attributes, vec![attr("action", "distribute_tokens_to_whitelist")]);
}

#[test]
fn an_empty_whitelist_pays_nobody() {
    let state = state_with(&[]);
    assert_eq!(Ok(vec![]), transfer_plan(&state, "owner", 100, "token", 0));

    let res = distribute_tokens_to_whitelist(&state, "owner", 100, "token", 0).unwrap();
    assert_eq!(0, res.messages.len());
    assert_eq!(res.attributes, vec![attr("action", "distribute_tokens_to_whitelist")]);
}

#[test]
fn the_plan_leaves_the_state_alone() {
    let state = state_with(&["a", "b"]);
    let before = state.clone();
    let _ = transfer_plan(&state, "owner", 100, "token", 1000);
    let _ = distribute_tokens_to_whitelist(&state, "owner", 100, "token", 1000);
    assert_eq!(before, state);
}
