//! The entry points of the contract. Each one works on the store that it is
//! handed: it loads the record, decides, and saves only when the request is
//! granted. A request that is refused leaves the store exactly as it was.

use crate::addresses::clone_addresses;
use crate::decimal::{decimal, to_decimal};
use crate::error::ContractError;
use crate::msg::{
    Answer, CountResponse, ExecuteMsg, InstantiateMsg, QueryMsg, QueryResponse, WhitelistResponse,
};
use crate::payout::{payout, required_funds};
use crate::response::{add_attribute, new_response, response_attributes, response_messages};
use crate::state::{yields, State, StateView, Store};
use crate::whitelist::{add_to_whitelist, remove_from_whitelist};
use cosmwasm_std::Response;
use vstd::prelude::*;

verus! {

/// The record that `msg` sets up when `sender` sends it.
pub open spec fn initial(sender: Seq<char>, msg: InstantiateMsg) -> StateView {
    StateView { count: msg.count as int, owner: sender, whitelist: msg.whitelist.deep_view() }
}

/// What becomes of the record when `sender` sends `msg`: the record that
/// follows, or the reason why the request is refused. `balance` is what is
/// held for the contract in the denomination that `msg` names; only a
/// payout reads it. A payout moves nothing, so the record follows itself.
pub open spec fn step(
    state: StateView,
    sender: Seq<char>,
    msg: ExecuteMsg,
    balance: u128,
) -> Result<StateView, ContractError> {
    match msg {
        ExecuteMsg::Increment {  } => state.increment(),
        ExecuteMsg::Reset { count } => state.reset(sender, count as int),
        ExecuteMsg::Add { whitelist } => state.add(sender, whitelist.deep_view()),
        ExecuteMsg::Remove { whitelist } => state.remove(sender, whitelist.deep_view()),
        ExecuteMsg::Distribute { amount, denom } => distribute(
            state,
            sender,
            amount,
            denom@,
            balance,
        ),
    }
}

/// What becomes of the record when `sender` asks for a payout: where the
/// payout is granted the record stays as it is, for a payout moves nothing in
/// it; else the payout's refusal.
pub open spec fn distribute(
    state: StateView,
    sender: Seq<char>,
    amount: u128,
    denom: Seq<char>,
    balance: u128,
) -> Result<StateView, ContractError> {
    match payout(state, sender, amount, denom, balance) {
        Ok(_) => Ok(state),
        Err(error) => Err(error),
    }
}

/// One request as it reaches the contract: who sends what, and the balance
/// that is held in the denomination it names.
pub struct Request {
    pub sender: Seq<char>,
    pub msg: ExecuteMsg,
    pub balance: u128,
}

/// The record once `request` has been served: the record that follows where
/// the request is granted, the record itself where it is refused.
pub open spec fn after(state: StateView, request: Request) -> StateView {
    match step(state, request.sender, request.msg, request.balance) {
        Ok(next) => next,
        Err(_) => state,
    }
}

/// The record once `requests` have been served, one after the other.
pub open spec fn after_all(state: StateView, requests: Seq<Request>) -> StateView
    decreases requests.len(),
{
    if requests.len() == 0 {
        state
    } else {
        after(after_all(state, requests.drop_last()), requests.last())
    }
}

/// The value of the attribute `method` in the response to `msg`.
pub open spec fn method(msg: ExecuteMsg) -> Seq<char> {
    match msg {
        ExecuteMsg::Increment {  } => "try_increment"@,
        ExecuteMsg::Reset { .. } => "reset"@,
        ExecuteMsg::Add { .. } => "try_add_whitelist"@,
        ExecuteMsg::Remove { .. } => "try_remove_whitelist"@,
        ExecuteMsg::Distribute { .. } => "try_token_distribute"@,
    }
}

/// `result` grants the request: its response names `method` in its only
/// attribute and carries no message.
pub open spec fn answered(result: Result<Response, ContractError>, method: Seq<char>) -> bool {
    &&& result matches Ok(response)
    &&& response_attributes(response) == seq![("method"@, method)]
    &&& response_messages(response).len() == 0
}

/// What is owed for a request whose outcome on the record is `outcome`, asked
/// of a store that held `before`: where there is no record, the refusal
/// `StoreUnavailable`; where the request is granted, the record that follows
/// in the store and a response that names `method`; where it is refused, the
/// refusal.
pub open spec fn served(
    before: Option<StateView>,
    outcome: spec_fn(StateView) -> Result<StateView, ContractError>,
    method: Seq<char>,
    after: Option<StateView>,
    result: Result<Response, ContractError>,
) -> bool {
    match before {
        None => result == Err::<Response, ContractError>(ContractError::StoreUnavailable),
        Some(state) => match outcome(state) {
            Ok(next) => after == Some(next) && answered(result, method),
            Err(error) => result == Err::<Response, ContractError>(error),
        },
    }
}

/// What a query finds in a store.
pub open spec fn reading(store: Option<StateView>, msg: QueryMsg) -> Result<Answer, ContractError> {
    match store {
        None => Err(ContractError::StoreUnavailable),
        Some(state) => match msg {
            QueryMsg::GetCount {  } => Ok(Answer::Count(state.count)),
            QueryMsg::GetWhitelist {  } => Ok(Answer::Whitelist(state.whitelist)),
        },
    }
}

/// What the result of a query says.
pub open spec fn answer_of(result: Result<QueryResponse, ContractError>) -> Result<
    Answer,
    ContractError,
> {
    match result {
        Ok(response) => Ok(response@),
        Err(error) => Err(error),
    }
}

fn method_response(method: &str) -> (response: Response)
    ensures
        answered(Ok(response), method@),
{
    proof {
        reveal_strlit("method");
    }
    let response = add_attribute(new_response(), "method", method);
    assert(response_attributes(response) =~= seq![("method"@, method@)]);
    response
}

/// Sets the contract up: the store gets its record, with `sender` as the
/// owner and the counter and the whitelist as `msg` gives them. The entries
/// of the whitelist are taken as they come. A store that holds a record
/// already is not set up again.
pub fn instantiate(store: &mut Store, sender: &str, msg: InstantiateMsg) -> (result: Result<
    Response,
    ContractError,
>)
    ensures
        match old(store)@ {
            Some(_) => result == Err::<Response, ContractError>(ContractError::AlreadyInitialized)
                && *final(store) == *old(store),
            None => {
                &&& final(store)@ == Some(initial(sender@, msg))
                &&& result matches Ok(response)
                &&& response_attributes(response) == seq![
                    ("method"@, "instantiate"@),
                    ("owner"@, sender@),
                    ("count"@, decimal(msg.count as int)),
                ]
                &&& response_messages(response).len() == 0
            },
        },
{
    if store.record().is_some() {
        return Err(ContractError::AlreadyInitialized);
    }
    let count = msg.count;
    store.save(State { count, owner: sender.to_owned(), whitelist: msg.whitelist });
    proof {
        reveal_strlit("method");
        reveal_strlit("owner");
        reveal_strlit("count");
    }
    let response = add_attribute(new_response(), "method", "instantiate");
    let response = add_attribute(response, "owner", sender);
    let response = add_attribute(response, "count", to_decimal(count).as_str());
    assert(response_attributes(response) =~= seq![
        ("method"@, "instantiate"@),
        ("owner"@, sender@),
        ("count"@, decimal(count as int)),
    ]);
    Ok(response)
}

/// Serves `msg` as sent by `sender`. `balance` is what is held for the
/// contract in the denomination that `msg` names; only `Distribute` reads
/// it.
pub fn execute(store: &mut Store, sender: &str, msg: ExecuteMsg, balance: u128) -> (result: Result<
    Response,
    ContractError,
>)
    ensures
        served(
            old(store)@,
            |state: StateView| step(state, sender@, msg, balance),
            method(msg),
            final(store)@,
            result,
        ),
        result is Err ==> *final(store) == *old(store),
        old(store)@ matches Some(state) ==> final(store)@ == Some(
            after(state, (Request { sender: sender@, msg, balance })),
        ),
{
    match msg {
        ExecuteMsg::Increment {  } => try_increment(store),
        ExecuteMsg::Reset { count } => try_reset(store, sender, count),
        ExecuteMsg::Add { whitelist } => try_add_whitelist(store, sender, whitelist),
        ExecuteMsg::Remove { whitelist } => try_remove_whitelist(store, sender, whitelist),
        ExecuteMsg::Distribute { amount, denom } => try_token_distribute(
            store,
            sender,
            amount,
            denom.as_str(),
            balance,
        ),
    }
}

/// Adds one to the counter, for whoever asks. At the largest value of the
/// counter's type the request is refused with `Overflow`.
pub fn try_increment(store: &mut Store) -> (result: Result<Response, ContractError>)
    ensures
        served(
            old(store)@,
            |state: StateView| state.increment(),
            "try_increment"@,
            final(store)@,
            result,
        ),
        result is Err ==> *final(store) == *old(store),
{
    store.update(
        |state: State| -> (changed: Result<State, ContractError>)
            ensures
                yields(changed, state@.increment())
            {
                let mut state = state;
                match state.increment() {
                    Ok(()) => Ok(state),
                    Err(error) => Err(error),
                }
            },
    )?;
    Ok(method_response("try_increment"))
}

/// Sets the counter to `count`, for the owner.
pub fn try_reset(store: &mut Store, sender: &str, count: i32) -> (result: Result<
    Response,
    ContractError,
>)
    ensures
        served(
            old(store)@,
            |state: StateView| state.reset(sender@, count as int),
            "reset"@,
            final(store)@,
            result,
        ),
        result is Err ==> *final(store) == *old(store),
{
    store.update(
        |state: State| -> (changed: Result<State, ContractError>)
            ensures
                yields(changed, state@.reset(sender@, count as int))
            {
                let mut state = state;
                match state.reset(sender, count) {
                    Ok(()) => Ok(state),
                    Err(error) => Err(error),
                }
            },
    )?;
    Ok(method_response("reset"))
}

/// Puts `addresses` behind the whitelist, for the owner.
pub fn try_add_whitelist(
    store: &mut Store,
    sender: &str,
    addresses: Vec<String>,
) -> (result: Result<Response, ContractError>)
    ensures
        served(
            old(store)@,
            |state: StateView| state.add(sender@, addresses.deep_view()),
            "try_add_whitelist"@,
            final(store)@,
            result,
        ),
        result is Err ==> *final(store) == *old(store),
{
    let ghost added = addresses.deep_view();
    store.update(
        |state: State| -> (changed: Result<State, ContractError>)
            ensures
                yields(changed, state@.add(sender@, added))
            {
                let mut state = state;
                match add_to_whitelist(&mut state, sender, addresses) {
                    Ok(()) => Ok(state),
                    Err(error) => Err(error),
                }
            },
    )?;
    Ok(method_response("try_add_whitelist"))
}

/// Takes every address of `addresses` off the whitelist, for the owner.
pub fn try_remove_whitelist(store: &mut Store, sender: &str, addresses: Vec<String>) -> (result:
    Result<Response, ContractError>)
    ensures
        served(
            old(store)@,
            |state: StateView| state.remove(sender@, addresses.deep_view()),
            "try_remove_whitelist"@,
            final(store)@,
            result,
        ),
        result is Err ==> *final(store) == *old(store),
{
    let ghost removed = addresses.deep_view();
    store.update(
        |state: State| -> (changed: Result<State, ContractError>)
            ensures
                yields(changed, state@.remove(sender@, removed))
            {
                let mut state = state;
                match remove_from_whitelist(&mut state, sender, addresses) {
                    Ok(()) => Ok(state),
                    Err(error) => Err(error),
                }
            },
    )?;
    Ok(method_response("try_remove_whitelist"))
}

/// Checks a payout of `amount` of `denom` to every address on the whitelist
/// against `balance`, for the owner. The store is only read. The response
/// names the method and carries no message: the plan is not handed on for
/// execution here. [`crate::payout::transfer_plan`] gives the plan itself, and
/// [`crate::payout::distribute_tokens_to_whitelist`] a response that carries
/// it.
pub fn try_token_distribute(
    store: &Store,
    sender: &str,
    amount: u128,
    denom: &str,
    balance: u128,
) -> (result: Result<Response, ContractError>)
    ensures
        served(
            store@,
            |state: StateView| distribute(state, sender@, amount, denom@, balance),
            "try_token_distribute"@,
            store@,
            result,
        ),
{
    let state = match store.record() {
        Some(state) => state,
        None => {
            return Err(ContractError::StoreUnavailable);
        },
    };
    let total = required_funds(state, sender, amount)?;
    if balance < total {
        return Err(ContractError::InsufficientFunds);
    }
    Ok(method_response("try_token_distribute"))
}

/// Answers `msg` from the store, which it only reads.
pub fn query(store: &Store, msg: QueryMsg) -> (result: Result<QueryResponse, ContractError>)
    ensures
        answer_of(result) == reading(store@, msg),
{
    match msg {
        QueryMsg::GetCount {  } => match query_count(store) {
            Ok(response) => Ok(QueryResponse::Count(response)),
            Err(error) => Err(error),
        },
        QueryMsg::GetWhitelist {  } => match query_whitelist(store) {
            Ok(response) => Ok(QueryResponse::Whitelist(response)),
            Err(error) => Err(error),
        },
    }
}

/// The counter as the store holds it.
pub fn query_count(store: &Store) -> (result: Result<CountResponse, ContractError>)
    ensures
        match store@ {
            None => result == Err::<CountResponse, ContractError>(ContractError::StoreUnavailable),
            Some(state) => result matches Ok(response) && response.count == state.count,
        },
{
    match store.record() {
        Some(state) => Ok(CountResponse { count: state.count }),
        None => Err(ContractError::StoreUnavailable),
    }
}

/// The whitelist as the store holds it, in its order.
pub fn query_whitelist(store: &Store) -> (result: Result<WhitelistResponse, ContractError>)
    ensures
        match store@ {
            None => result == Err::<WhitelistResponse, ContractError>(
                ContractError::StoreUnavailable,
            ),
            Some(state) => result matches Ok(response) && response.whitelist.deep_view()
                == state.whitelist,
        },
{
    match store.record() {
        Some(state) => Ok(WhitelistResponse { whitelist: clone_addresses(&state.whitelist) }),
        None => Err(ContractError::StoreUnavailable),
    }
}

} // verus!
