//! The owner's changes to the whitelist.

use crate::addresses::remove_all;
use crate::error::ContractError;
use crate::state::State;
use vstd::prelude::*;

verus! {

/// Puts `addresses` behind the whitelist, in their order. Nothing is
/// checked or merged: an address that is there already is there once more
/// afterwards. Only the owner may do so.
pub fn add_to_whitelist(state: &mut State, sender: &str, addresses: Vec<String>) -> (result: Result<
    (),
    ContractError,
>)
    ensures
        match old(state)@.add(sender@, addresses.deep_view()) {
            Ok(next) => result is Ok && final(state)@ == next,
            Err(error) => result == Err::<(), ContractError>(error) && *final(state) == *old(state),
        },
{
    if !state.is_owner(sender) {
        return Err(ContractError::Unauthorized);
    }
    let mut addresses = addresses;
    let ghost before = state.whitelist.deep_view();
    let ghost added = addresses.deep_view();
    state.whitelist.append(&mut addresses);
    assert(state.whitelist.deep_view() =~= before + added);
    Ok(())
}

/// Takes every entry that equals one of `addresses` off the whitelist, however
/// often it occurs. An address that is not on the whitelist changes nothing.
/// Only the owner may do so.
pub fn remove_from_whitelist(state: &mut State, sender: &str, addresses: Vec<String>) -> (result:
    Result<(), ContractError>)
    ensures
        match old(state)@.remove(sender@, addresses.deep_view()) {
            Ok(next) => result is Ok && final(state)@ == next,
            Err(error) => result == Err::<(), ContractError>(error) && *final(state) == *old(state),
        },
{
    if !state.is_owner(sender) {
        return Err(ContractError::Unauthorized);
    }
    let mut whitelist: Vec<String> = Vec::new();
    core::mem::swap(&mut state.whitelist, &mut whitelist);
    state.whitelist = remove_all(whitelist, &addresses);
    Ok(())
}

} // verus!
