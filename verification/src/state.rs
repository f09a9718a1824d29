//! The one record that the contract keeps, and the store that holds it.

use crate::addresses::{clone_addresses, without};
use crate::error::ContractError;
use vstd::prelude::*;

verus! {

/// The persisted record: a counter, the identity that owns the contract, and
/// the addresses that a payout goes to. The whitelist keeps the order in
/// which addresses were added and may hold an address more than once.
#[derive(Debug, PartialEq, Eq)]
pub struct State {
    pub count: i32,
    pub owner: String,
    pub whitelist: Vec<String>,
}

/// What a [`State`] stands for: identities and addresses as the text they hold.
pub struct StateView {
    pub count: int,
    pub owner: Seq<char>,
    pub whitelist: Seq<Seq<char>>,
}

impl View for State {
    type V = StateView;

    open spec fn view(&self) -> StateView {
        StateView {
            count: self.count as int,
            owner: self.owner@,
            whitelist: self.whitelist.deep_view(),
        }
    }
}

impl StateView {
    /// The record after one increment.
    pub open spec fn incremented(self) -> StateView {
        StateView { count: self.count + 1, ..self }
    }

    /// The record with the counter set to `count`.
    pub open spec fn with_count(self, count: int) -> StateView {
        StateView { count, ..self }
    }

    /// The record with `addresses` put behind the whitelist, in their order
    /// and whether or not the whitelist holds them already.
    pub open spec fn with_added(self, addresses: Seq<Seq<char>>) -> StateView {
        StateView { whitelist: self.whitelist + addresses, ..self }
    }

    /// The record with every occurrence of each of `addresses` taken off the
    /// whitelist.
    pub open spec fn with_removed(self, addresses: Seq<Seq<char>>) -> StateView {
        StateView { whitelist: without(self.whitelist, addresses), ..self }
    }

    /// How an increment ends. Anyone may ask for it; it is refused only where
    /// the counter has no room left.
    pub open spec fn increment(self) -> Result<StateView, ContractError> {
        if self.count < i32::MAX {
            Ok(self.incremented())
        } else {
            Err(ContractError::Overflow)
        }
    }

    /// How a reset to `count` ends when `sender` asks for it: it is granted to
    /// the owner and to nobody else, whatever `count` is.
    pub open spec fn reset(self, sender: Seq<char>, count: int) -> Result<
        StateView,
        ContractError,
    > {
        if sender == self.owner {
            Ok(self.with_count(count))
        } else {
            Err(ContractError::Unauthorized)
        }
    }

    /// How adding `addresses` to the whitelist ends when `sender` asks for it.
    pub open spec fn add(self, sender: Seq<char>, addresses: Seq<Seq<char>>) -> Result<
        StateView,
        ContractError,
    > {
        if sender == self.owner {
            Ok(self.with_added(addresses))
        } else {
            Err(ContractError::Unauthorized)
        }
    }

    /// How taking `addresses` off the whitelist ends when `sender` asks for it.
    pub open spec fn remove(self, sender: Seq<char>, addresses: Seq<Seq<char>>) -> Result<
        StateView,
        ContractError,
    > {
        if sender == self.owner {
            Ok(self.with_removed(addresses))
        } else {
            Err(ContractError::Unauthorized)
        }
    }
}

/// `changed` is what `outcome` asks for: the record that follows, or the
/// refusal.
pub open spec fn yields(
    changed: Result<State, ContractError>,
    outcome: Result<StateView, ContractError>,
) -> bool {
    match outcome {
        Ok(next) => changed matches Ok(state) && state@ == next,
        Err(error) => changed == Err::<State, ContractError>(error),
    }
}

impl Clone for State {
    fn clone(&self) -> (copy: State)
        ensures
            copy@ == self@,
    {
        State {
            count: self.count,
            owner: self.owner.clone(),
            whitelist: clone_addresses(&self.whitelist),
        }
    }
}

impl State {
    /// Whether `sender` is the identity that owns the contract. Identities are
    /// equal when their text is the same, character for character.
    pub fn is_owner(&self, sender: &str) -> (owns: bool)
        ensures
            owns == (sender@ == self@.owner),
    {
        sender.to_owned() == self.owner
    }

    /// Adds one to the counter. Anyone may do so. A counter that is at the
    /// largest value of its type stays there, and the call fails.
    pub fn increment(&mut self) -> (result: Result<(), ContractError>)
        ensures
            match old(self)@.increment() {
                Ok(next) => result is Ok && final(self)@ == next,
                Err(error) => result == Err::<(), ContractError>(error) && *final(self) == *old(
                    self,
                ),
            },
    {
        match self.count.checked_add(1) {
            Some(count) => {
                self.count = count;
                Ok(())
            },
            None => Err(ContractError::Overflow),
        }
    }

    /// Sets the counter to `count`, whatever it was. Only the owner may do so.
    pub fn reset(&mut self, sender: &str, count: i32) -> (result: Result<(), ContractError>)
        ensures
            match old(self)@.reset(sender@, count as int) {
                Ok(next) => result is Ok && final(self)@ == next,
                Err(error) => result == Err::<(), ContractError>(error) && *final(self) == *old(
                    self,
                ),
            },
    {
        if !self.is_owner(sender) {
            return Err(ContractError::Unauthorized);
        }
        self.count = count;
        Ok(())
    }
}

/// The store of the contract. It holds the record or nothing: there is never
/// more than one record, and an operation that fails leaves the store as it
/// found it.
#[derive(Debug, PartialEq, Eq)]
pub struct Store {
    record: Option<State>,
}

impl View for Store {
    type V = Option<StateView>;

    closed spec fn view(&self) -> Option<StateView> {
        match self.record {
            Some(state) => Some(state@),
            None => None,
        }
    }
}

impl Store {
    /// A store that holds no record yet.
    pub fn new() -> (store: Store)
        ensures
            store@ is None,
    {
        Store { record: None }
    }

    /// A store that holds `state`.
    pub fn holding(state: State) -> (store: Store)
        ensures
            store@ == Some(state@),
    {
        Store { record: Some(state) }
    }

    /// A copy of the record, or `StoreUnavailable` if there is none.
    pub fn load(&self) -> (loaded: Result<State, ContractError>)
        ensures
            match loaded {
                Ok(state) => self@ == Some(state@),
                Err(error) => self@ is None && error == ContractError::StoreUnavailable,
            },
    {
        match &self.record {
            Some(state) => Ok(state.clone()),
            None => Err(ContractError::StoreUnavailable),
        }
    }

    /// Puts `state` in the place of whatever the store held.
    pub fn save(&mut self, state: State)
        ensures
            final(self)@ == Some(state@),
    {
        self.record = Some(state);
    }

    /// Loads the record, hands a copy of it to `action`, and saves what
    /// `action` gives back. Where there is no record, or `action` refuses,
    /// nothing is saved and the store stays as it was: no half-done change
    /// is ever to be seen.
    pub fn update<F: FnOnce(State) -> Result<State, ContractError>>(
        &mut self,
        action: F,
    ) -> (result: Result<(), ContractError>)
        requires
            forall|loaded: State| old(self)@ == Some(loaded@) ==> call_requires(action, (loaded,)),
        ensures
            match result {
                Ok(()) => exists|loaded: State, next: State|
                    {
                        &&& old(self)@ == Some(loaded@)
                        &&& call_ensures(action, (loaded,), Ok::<State, ContractError>(next))
                        &&& final(self)@ == Some(next@)
                    },
                Err(error) => *final(self) == *old(self) && if old(self)@ is None {
                    error == ContractError::StoreUnavailable
                } else {
                    exists|loaded: State|
                        {
                            &&& old(self)@ == Some(loaded@)
                            &&& call_ensures(
                                action,
                                (loaded,),
                                Err::<State, ContractError>(error),
                            )
                        }
                },
            },
    {
        let loaded = self.load()?;
        let next = action(loaded)?;
        self.save(next);
        Ok(())
    }

    /// The record as it stands, if there is one.
    pub fn record(&self) -> (record: Option<&State>)
        ensures
            match record {
                Some(state) => self@ == Some(state@),
                None => self@ is None,
            },
    {
        self.record.as_ref()
    }

    /// Gives the record up, for whoever persists it.
    pub fn into_record(self) -> (record: Option<State>)
        ensures
            match record {
                Some(state) => self@ == Some(state@),
                None => self@ is None,
            },
    {
        self.record
    }
}

} // verus!
