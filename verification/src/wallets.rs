//! A registry of wallet addresses that its issuer keeps, and the token
//! transfers and balance questions that go with it.

use crate::addresses::clone_addresses;
use crate::error::ContractError;
use crate::response::{add_transfer, new_response, response_attributes, response_messages};
use cosmwasm_std::Response;
use vstd::prelude::*;

verus! {

/// The wallet addresses on record, in the order in which they were given.
#[derive(Debug, PartialEq, Eq)]
pub struct Wallets {
    pub addresses: Vec<String>,
}

impl View for Wallets {
    type V = Seq<Seq<char>>;

    open spec fn view(&self) -> Seq<Seq<char>> {
        self.addresses.deep_view()
    }
}

impl Clone for Wallets {
    fn clone(&self) -> (copy: Wallets)
        ensures
            copy@ == self@,
    {
        Wallets { addresses: clone_addresses(&self.addresses) }
    }
}

/// What the registry starts with.
#[derive(Debug, PartialEq, Eq)]
pub struct InstantiateMsg {
    pub wallet: String,
    pub wallets: Wallets,
}

/// Sets the registry up. It starts with the one wallet that `msg` names;
/// `msg.wallets` is not read. The response is empty.
pub fn instantiate(msg: InstantiateMsg) -> (started: (Wallets, Response))
    ensures
        started.0@ == seq![msg.wallet@],
        response_attributes(started.1).len() == 0,
        response_messages(started.1).len() == 0,
{
    let mut addresses: Vec<String> = Vec::new();
    addresses.push(msg.wallet);
    let wallets = Wallets { addresses };
    assert(wallets@ =~= seq![msg.wallet@]);
    (wallets, new_response())
}

/// Decides whether `sender` may put `wallets` on record in place of what is
/// there: only the issuer may. What comes back is the record to keep.
pub fn store_wallets(issuer: &str, sender: &str, wallets: Wallets) -> (result: Result<
    Wallets,
    ContractError,
>)
    ensures
        match result {
            Ok(kept) => sender@ == issuer@ && kept == wallets,
            Err(error) => sender@ != issuer@ && error == ContractError::Unauthorized,
        },
{
    if sender.to_owned() == issuer.to_owned() {
        Ok(wallets)
    } else {
        Err(ContractError::Unauthorized)
    }
}

/// The wallets on record, given what the store holds for them: nothing on
/// record means no wallets.
pub fn get_wallets(stored: Option<Wallets>) -> (wallets: Wallets)
    ensures
        match stored {
            Some(kept) => wallets == kept,
            None => wallets@ == Seq::<Seq<char>>::empty(),
        },
{
    match stored {
        Some(kept) => kept,
        None => Wallets { addresses: Vec::new() },
    }
}

/// Decides whether `sender` may learn the balance that is held for the
/// contract at `contract_address`: only the contract itself may. `balance`
/// is what the ledger reports, and it is handed on as it is.
pub fn query_token_balance(sender: &str, contract_address: &str, balance: u128) -> (result: Result<
    u128,
    ContractError,
>)
    ensures
        match result {
            Ok(reported) => sender@ == contract_address@ && reported == balance,
            Err(error) => sender@ != contract_address@ && error == ContractError::Unauthorized,
        },
{
    if sender.to_owned() == contract_address.to_owned() {
        Ok(balance)
    } else {
        Err(ContractError::Unauthorized)
    }
}

/// The response that orders one transfer: `amount` of `TOKEN_SYMBOL` to
/// `recipient`.
pub fn perform_token_transfer(recipient: &str, amount: u128) -> (response: Response)
    ensures
        response_messages(response) == seq![(recipient@, amount, "TOKEN_SYMBOL"@)],
        response_attributes(response).len() == 0,
{
    let response = add_transfer(new_response(), recipient, amount, "TOKEN_SYMBOL");
    assert(response_messages(response) =~= seq![(recipient@, amount, "TOKEN_SYMBOL"@)]);
    response
}

} // verus!
