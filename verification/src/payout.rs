//! The payout: every address on the whitelist is to receive the same amount
//! out of the balance that is held for the contract.
//!
//! The total is computed in `u128`, the width of the amounts themselves. A
//! total that does not fit is refused with `Overflow`; it never wraps.

use crate::error::ContractError;
use crate::response::{
    add_attribute, add_transfer, new_response, response_attributes, response_messages,
};
use crate::state::{State, StateView};
use cosmwasm_std::Response;
use vstd::prelude::*;

verus! {

/// One instruction of a payout: `amount` of `denom` goes to `recipient`.
#[derive(Debug, PartialEq, Eq)]
pub struct Transfer {
    pub recipient: String,
    pub amount: u128,
    pub denom: String,
}

impl View for Transfer {
    type V = (Seq<char>, u128, Seq<char>);

    open spec fn view(&self) -> (Seq<char>, u128, Seq<char>) {
        (self.recipient@, self.amount, self.denom@)
    }
}

impl DeepView for Transfer {
    type V = (Seq<char>, u128, Seq<char>);

    open spec fn deep_view(&self) -> (Seq<char>, u128, Seq<char>) {
        self@
    }
}

/// What a payout of `amount` to each of `recipients` addresses takes.
pub open spec fn total_due(amount: u128, recipients: nat) -> int {
    amount * recipients
}

/// The plan of a payout: one instruction for each entry of the whitelist, in
/// the order of the whitelist. An address that occurs twice is paid twice.
pub open spec fn plan_for(whitelist: Seq<Seq<char>>, amount: u128, denom: Seq<char>) -> Seq<
    (Seq<char>, u128, Seq<char>),
> {
    Seq::new(whitelist.len(), |i: int| (whitelist[i], amount, denom))
}

/// What a plan pays out in all.
pub open spec fn plan_total(plan: Seq<(Seq<char>, u128, Seq<char>)>) -> int
    decreases plan.len(),
{
    if plan.len() == 0 {
        0
    } else {
        plan_total(plan.drop_last()) + plan.last().1
    }
}

/// The balance that a payout of `amount` to every address on the whitelist
/// needs, when `sender` asks for it. Only the owner may ask, and the total must
/// fit in `u128`.
pub open spec fn funds_needed(state: StateView, sender: Seq<char>, amount: u128) -> Result<
    u128,
    ContractError,
> {
    if sender != state.owner {
        Err(ContractError::Unauthorized)
    } else if total_due(amount, state.whitelist.len()) > u128::MAX {
        Err(ContractError::Overflow)
    } else {
        Ok(total_due(amount, state.whitelist.len()) as u128)
    }
}

/// How a request for a payout ends: where the funds needed can be told and
/// `balance` covers them, in the plan; else in the refusal.
pub open spec fn payout(
    state: StateView,
    sender: Seq<char>,
    amount: u128,
    denom: Seq<char>,
    balance: u128,
) -> Result<Seq<(Seq<char>, u128, Seq<char>)>, ContractError> {
    match funds_needed(state, sender, amount) {
        Err(error) => Err(error),
        Ok(total) => if balance < total {
            Err(ContractError::InsufficientFunds)
        } else {
            Ok(plan_for(state.whitelist, amount, denom))
        },
    }
}

/// The balance that a payout of `amount` to each address needs. It is the
/// question to settle before the balance is looked up: whether `sender` may
/// ask at all, and whether the total can be told.
pub fn required_funds(state: &State, sender: &str, amount: u128) -> (result: Result<
    u128,
    ContractError,
>)
    ensures
        result == funds_needed(state@, sender@, amount),
{
    if !state.is_owner(sender) {
        return Err(ContractError::Unauthorized);
    }
    match amount.checked_mul(state.whitelist.len() as u128) {
        Some(total) => Ok(total),
        None => Err(ContractError::Overflow),
    }
}

/// The plan of a payout, as plain instructions, or the reason why there is
/// none. Nothing is moved and the state is not changed.
pub fn transfer_plan(
    state: &State,
    sender: &str,
    amount: u128,
    denom: &str,
    balance: u128,
) -> (result: Result<Vec<Transfer>, ContractError>)
    ensures
        match payout(state@, sender@, amount, denom@, balance) {
            Ok(plan) => result matches Ok(made) && made.deep_view() == plan,
            Err(error) => result == Err::<Vec<Transfer>, ContractError>(error),
        },
{
    let total = required_funds(state, sender, amount)?;
    if balance < total {
        return Err(ContractError::InsufficientFunds);
    }
    let ghost whitelist = state@.whitelist;
    let mut plan: Vec<Transfer> = Vec::new();
    let mut i: usize = 0;
    while i < state.whitelist.len()
        invariant
            i <= state.whitelist.len(),
            whitelist == state.whitelist.deep_view(),
            plan.deep_view() =~= plan_for(whitelist.take(i as int), amount, denom@),
        decreases state.whitelist.len() - i,
    {
        let ghost before = plan.deep_view();
        let recipient = state.whitelist[i].clone();
        plan.push(Transfer { recipient, amount, denom: denom.to_owned() });
        assert(plan.deep_view() =~= before.push((whitelist[i as int], amount, denom@)));
        i += 1;
    }
    assert(whitelist.take(i as int) == whitelist);
    Ok(plan)
}

/// Answers a request for a payout with a response that carries the plan: one
/// bank message for each instruction, in the order of the plan, and the
/// attribute `action`. It fails exactly where [`transfer_plan`] fails.
pub fn distribute_tokens_to_whitelist(
    state: &State,
    sender: &str,
    amount: u128,
    denom: &str,
    balance: u128,
) -> (result: Result<Response, ContractError>)
    ensures
        match payout(state@, sender@, amount, denom@, balance) {
            Ok(plan) => result matches Ok(response) && response_messages(response) == plan
                && response_attributes(response) == seq![
                ("action"@, "distribute_tokens_to_whitelist"@),
            ],
            Err(error) => result == Err::<Response, ContractError>(error),
        },
{
    let plan = transfer_plan(state, sender, amount, denom, balance)?;
    let mut response = new_response();
    let mut i: usize = 0;
    while i < plan.len()
        invariant
            i <= plan.len(),
            response_messages(response) =~= plan.deep_view().take(i as int),
            response_attributes(response) == Seq::<(Seq<char>, Seq<char>)>::empty(),
        decreases plan.len() - i,
    {
        let transfer = &plan[i];
        response = add_transfer(
            response,
            transfer.recipient.as_str(),
            transfer.amount,
            transfer.denom.as_str(),
        );
        i += 1;
    }
    assert(plan.deep_view().take(i as int) == plan.deep_view());
    proof {
        reveal_strlit("action");
    }
    let response = add_attribute(response, "action", "distribute_tokens_to_whitelist");
    assert(response_attributes(response) =~= seq![
        ("action"@, "distribute_tokens_to_whitelist"@),
    ]);
    Ok(response)
}

} // verus!
