//! What callers send to the contract and what they get back from a query.

use vstd::prelude::*;

verus! {

/// What the contract starts with. The caller who sends it becomes the owner.
#[derive(Debug, PartialEq, Eq)]
pub struct InstantiateMsg {
    pub count: i32,
    pub whitelist: Vec<String>,
}

/// A request that may change the state or asks for a payout.
#[derive(Debug, PartialEq, Eq)]
pub enum ExecuteMsg {
    /// Add one to the counter. Anyone may ask.
    Increment {},
    /// Set the counter to `count`. Owner only.
    Reset { count: i32 },
    /// Put `whitelist` behind the whitelist. Owner only.
    Add { whitelist: Vec<String> },
    /// Take every address of `whitelist` off the whitelist. Owner only.
    Remove { whitelist: Vec<String> },
    /// Pay `amount` of `denom` to every address on the whitelist. Owner only.
    Distribute { amount: u128, denom: String },
}

/// A question that changes nothing. Anyone may ask.
#[derive(Debug, Clone, Copy, PartialEq, Eq)]
pub enum QueryMsg {
    GetCount {},
    GetWhitelist {},
}

/// The answer to `GetCount`.
#[derive(Debug, Clone, Copy, PartialEq, Eq)]
pub struct CountResponse {
    pub count: i32,
}

/// The answer to `GetWhitelist`.
#[derive(Debug, PartialEq, Eq)]
pub struct WhitelistResponse {
    pub whitelist: Vec<String>,
}

/// The answer to a query, by the question that was asked.
#[derive(Debug, PartialEq, Eq)]
pub enum QueryResponse {
    Count(CountResponse),
    Whitelist(WhitelistResponse),
}

/// What an answer says, with addresses as the text they hold.
pub enum Answer {
    Count(int),
    Whitelist(Seq<Seq<char>>),
}

impl View for QueryResponse {
    type V = Answer;

    open spec fn view(&self) -> Answer {
        match self {
            QueryResponse::Count(response) => Answer::Count(response.count as int),
            QueryResponse::Whitelist(response) => Answer::Whitelist(response.whitelist.deep_view()),
        }
    }
}

} // verus!
