//! What holds of the contract whatever it is asked. Each law is stated over
//! the functions by which the entry points say what they do, and proved.

use crate::addresses::{staying, without};
use crate::contract::{after, after_all, answer_of, initial, reading, step, Request};
use crate::error::ContractError;
use crate::msg::{InstantiateMsg, QueryMsg, QueryResponse};
use crate::payout::{payout, plan_for, plan_total, total_due};
use crate::state::StateView;
use vstd::prelude::*;

verus! {

/// A query has the store by shared reference and so cannot change it. What
/// it answers depends on the store and the question alone: two answers to
/// one question, read from one store, say the same.
pub proof fn lemma_reads_agree(
    store: Option<StateView>,
    msg: QueryMsg,
    first: Result<QueryResponse, ContractError>,
    second: Result<QueryResponse, ContractError>,
)
    requires
        answer_of(first) == reading(store, msg),
        answer_of(second) == reading(store, msg),
    ensures
        answer_of(first) == answer_of(second),
{
}

/// A request that is refused leaves the record as it was, so a query answers
/// after it as before.
pub proof fn lemma_refusal_changes_no_answer(state: StateView, request: Request, msg: QueryMsg)
    requires
        step(state, request.sender, request.msg, request.balance) is Err,
    ensures
        after(state, request) == state,
        reading(Some(after(state, request)), msg) == reading(Some(state), msg),
{
}

/// No request changes the owner, whether it is granted or refused.
pub proof fn lemma_owner_survives(state: StateView, request: Request)
    ensures
        after(state, request).owner == state.owner,
{
}

/// Whatever is asked, by whomever and however often, the owner stays who it
/// was.
pub proof fn lemma_owner_never_changes(state: StateView, requests: Seq<Request>)
    ensures
        after_all(state, requests).owner == state.owner,
    decreases requests.len(),
{
    if requests.len() > 0 {
        lemma_owner_never_changes(state, requests.drop_last());
        lemma_owner_survives(after_all(state, requests.drop_last()), requests.last());
    }
}

/// The owner is the one who set the contract up, after any requests.
pub proof fn lemma_owner_is_who_set_up(
    sender: Seq<char>,
    msg: InstantiateMsg,
    requests: Seq<Request>,
)
    ensures
        after_all(initial(sender, msg), requests).owner == sender,
{
    lemma_owner_never_changes(initial(sender, msg), requests);
}

/// Anything but an increment is refused as unauthorized when it comes from
/// someone other than the owner, and then the record stays as it was.
pub proof fn lemma_strangers_are_refused(state: StateView, request: Request)
    requires
        request.sender != state.owner,
        !(request.msg is Increment),
    ensures
        step(state, request.sender, request.msg, request.balance) == Err::<
            StateView,
            ContractError,
        >(ContractError::Unauthorized),
        after(state, request) == state,
{
}

/// Increments add up: as long as the counter has room for them, as many
/// increments as are asked for are added to it, whoever asks, and nothing else
/// changes.
pub proof fn lemma_increments_add_up(state: StateView, requests: Seq<Request>)
    requires
        forall|i: int| 0 <= i < requests.len() ==> (#[trigger] requests[i]).msg is Increment,
        state.count + requests.len() <= i32::MAX,
    ensures
        after_all(state, requests) == state.with_count(state.count + requests.len()),
    decreases requests.len(),
{
    if requests.len() > 0 {
        let earlier = requests.drop_last();
        assert forall|i: int| 0 <= i < earlier.len() implies (#[trigger] earlier[i]).msg
            is Increment by {
            assert(earlier[i] == requests[i]);
        }
        lemma_increments_add_up(state, earlier);
        assert(requests.last() == requests[requests.len() - 1]);
    }
}

/// Adding puts the new addresses behind the old ones and drops none: the
/// whitelist grows by as many entries as are added, duplicates included.
pub proof fn lemma_adding_appends(state: StateView, addresses: Seq<Seq<char>>)
    ensures
        state.with_added(addresses).whitelist.len() == state.whitelist.len() + addresses.len(),
        state.with_added(addresses).whitelist.take(state.whitelist.len() as int)
            == state.whitelist,
        state.with_added(addresses).whitelist.skip(state.whitelist.len() as int) == addresses,
{
    let grown = state.with_added(addresses).whitelist;
    assert(grown.take(state.whitelist.len() as int) =~= state.whitelist);
    assert(grown.skip(state.whitelist.len() as int) =~= addresses);
}

/// What is left after a removal: exactly the addresses that were on the list
/// and are none of those removed.
pub proof fn lemma_removed_are_gone(
    list: Seq<Seq<char>>,
    removal: Seq<Seq<char>>,
    address: Seq<char>,
)
    ensures
        without(list, removal).contains(address) <==> list.contains(address) && !removal.contains(
            address,
        ),
    decreases list.len(),
{
    reveal(Seq::filter);
    if list.len() > 0 {
        let earlier = list.drop_last();
        lemma_removed_are_gone(earlier, removal, address);
        assert(list =~= earlier.push(list.last()));
        earlier.lemma_filter_push(list.last(), staying(removal));
        let kept = without(earlier, removal);
        if list.contains(address) {
            let i = choose|i: int| 0 <= i < list.len() && list[i] == address;
            if i < earlier.len() {
                assert(earlier[i] == address);
            }
        }
        if earlier.contains(address) {
            let i = choose|i: int| 0 <= i < earlier.len() && earlier[i] == address;
            assert(list[i] == address);
        }
        if staying(removal)(list.last()) {
            let grown = kept.push(list.last());
            assert(grown[kept.len() as int] == list.last());
            if kept.contains(address) {
                let i = choose|i: int| 0 <= i < kept.len() && kept[i] == address;
                assert(grown[i] == address);
            }
            if grown.contains(address) {
                let i = choose|i: int| 0 <= i < grown.len() && grown[i] == address;
                if i < kept.len() {
                    assert(kept[i] == address);
                }
            }
        }
    }
}

/// Removing addresses of which none is on the list changes nothing.
pub proof fn lemma_removing_absent_changes_nothing(list: Seq<Seq<char>>, removal: Seq<Seq<char>>)
    requires
        forall|i: int| 0 <= i < list.len() ==> !removal.contains(#[trigger] list[i]),
    ensures
        without(list, removal) == list,
    decreases list.len(),
{
    reveal(Seq::filter);
    if list.len() > 0 {
        let earlier = list.drop_last();
        assert forall|i: int| 0 <= i < earlier.len() implies !removal.contains(
            #[trigger] earlier[i],
        ) by {
            assert(earlier[i] == list[i]);
        }
        lemma_removing_absent_changes_nothing(earlier, removal);
        assert(list =~= earlier.push(list.last()));
        earlier.lemma_filter_push(list.last(), staying(removal));
        assert(list.last() == list[list.len() - 1]);
    }
}

/// The plan for a whitelist pays out the amount times the number of its
/// entries.
pub proof fn lemma_plan_pays_the_total(whitelist: Seq<Seq<char>>, amount: u128, denom: Seq<char>)
    ensures
        plan_total(plan_for(whitelist, amount, denom)) == total_due(amount, whitelist.len()),
    decreases whitelist.len(),
{
    let plan = plan_for(whitelist, amount, denom);
    if whitelist.len() == 0 {
        assert(amount * whitelist.len() == 0) by (nonlinear_arith)
            requires
                whitelist.len() == 0,
        ;
    } else {
        let earlier = whitelist.drop_last();
        lemma_plan_pays_the_total(earlier, amount, denom);
        assert(plan.drop_last() =~= plan_for(earlier, amount, denom));
        assert(plan.last().1 == amount);
        assert(amount * whitelist.len() == amount * earlier.len() + amount) by (nonlinear_arith)
            requires
                whitelist.len() == earlier.len() + 1,
        ;
    }
}

/// A payout that is granted never pays out more than the balance holds.
pub proof fn lemma_payout_stays_within_balance(
    state: StateView,
    sender: Seq<char>,
    amount: u128,
    denom: Seq<char>,
    balance: u128,
)
    ensures
        payout(state, sender, amount, denom, balance) matches Ok(plan) ==> plan_total(plan)
            <= balance,
{
    lemma_plan_pays_the_total(state.whitelist, amount, denom);
}

/// A payout that is granted pays every entry of the whitelist once, in the
/// order of the whitelist, each the same amount of the same denomination; and
/// it is granted exactly when the owner asks and the balance covers the total.
pub proof fn lemma_payout_is_covered(
    state: StateView,
    sender: Seq<char>,
    amount: u128,
    denom: Seq<char>,
    balance: u128,
)
    ensures
        payout(state, sender, amount, denom, balance) is Ok <==> sender == state.owner
            && total_due(amount, state.whitelist.len()) <= balance,
        payout(state, sender, amount, denom, balance) matches Ok(plan) ==> {
            &&& plan == plan_for(state.whitelist, amount, denom)
            &&& plan.len() == state.whitelist.len()
            &&& forall|i: int|
                0 <= i < plan.len() ==> #[trigger] plan[i] == (state.whitelist[i], amount, denom)
        },
{
}

} // verus!
