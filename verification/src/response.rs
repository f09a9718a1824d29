//! The contract's answers are `cosmwasm_std::Response` values. This module is
//! the only place that touches that type; what it claims of it is believed,
//! not proved.

use cosmwasm_std::{coins, BankMsg, Empty, Response};
use vstd::prelude::*;

verus! {

/// `cosmwasm_std::Response`, carried through as it is. The proofs see
/// nothing inside it but what the two names below stand for.
#[verifier::external_type_specification]
#[verifier::external_body]
#[verifier::reject_recursive_types(T)]
pub struct ExResponse<T>(Response<T>);

/// `cosmwasm_std::Empty`, which stands in a `Response` for the custom
/// messages that this contract does not have.
#[verifier::external_type_specification]
#[verifier::external_body]
pub struct ExEmpty(Empty);

/// The field `attributes` of a response: its attributes in the order in
/// which they were added, each as its key and its value.
pub uninterp spec fn response_attributes(response: Response) -> Seq<(Seq<char>, Seq<char>)>;

/// The field `messages` of a response: one entry for each message, in the
/// order in which they were added. The entry of a bank message that sends one
/// coin is its recipient, the amount and the denomination. Of the entry of
/// any other message nothing is said; this library adds none.
pub uninterp spec fn response_messages(response: Response) -> Seq<(Seq<char>, u128, Seq<char>)>;

/// `Response::new`: a response without attributes and without messages.
#[verifier::external_body]
pub(crate) fn new_response() -> (response: Response)
    ensures
        response_attributes(response) == Seq::<(Seq<char>, Seq<char>)>::empty(),
        response_messages(response) == Seq::<(Seq<char>, u128, Seq<char>)>::empty(),
{
    Response::new()
}

/// `Response::add_attribute`: the attribute is put behind those that are
/// there, and the messages stay. A key that starts with an underscore makes
/// it panic in a debug build, so such a key is not admitted.
#[verifier::external_body]
pub(crate) fn add_attribute(response: Response, key: &str, value: &str) -> (out: Response)
    requires
        key@.len() == 0 || key@[0] != '_',
    ensures
        response_attributes(out) == response_attributes(response).push((key@, value@)),
        response_messages(out) == response_messages(response),
{
    response.add_attribute(key, value)
}

/// `Response::add_message` with a `BankMsg::Send` of one coin: the message
/// is put behind those that are there, and the attributes stay.
#[verifier::external_body]
pub(crate) fn add_transfer(
    response: Response,
    recipient: &str,
    amount: u128,
    denom: &str,
) -> (out: Response)
    ensures
        response_messages(out) == response_messages(response).push((recipient@, amount, denom@)),
        response_attributes(out) == response_attributes(response),
{
    let send = BankMsg::Send { to_address: recipient.into(), amount: coins(amount, denom) };
    response.add_message(send)
}

} // verus!
