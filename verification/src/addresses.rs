//! Arithmetic on lists of addresses. An address is the text it holds; two
//! addresses are the same when their text is the same.

use vstd::prelude::*;

verus! {

/// The test that an address passes when it is none of `removal`.
pub open spec fn staying(removal: Seq<Seq<char>>) -> spec_fn(Seq<char>) -> bool {
    |address: Seq<char>| !removal.contains(address)
}

/// `list` without every entry that equals some entry of `removal`. What stays
/// keeps its order and its multiplicity.
pub open spec fn without(list: Seq<Seq<char>>, removal: Seq<Seq<char>>) -> Seq<Seq<char>> {
    list.filter(staying(removal))
}

/// Taking the first `n + 1` entries of a list is taking the first `n` and
/// then the one at `n`.
proof fn lemma_take_next(list: Seq<Seq<char>>, n: int)
    requires
        0 <= n < list.len(),
    ensures
        list.take(n + 1) == list.take(n).push(list[n]),
{
    assert(list.take(n + 1) =~= list.take(n).push(list[n]));
}

/// A copy of a list of addresses: the same text in the same order.
pub fn clone_addresses(addresses: &Vec<String>) -> (copy: Vec<String>)
    ensures
        copy.deep_view() == addresses.deep_view(),
{
    let mut copy: Vec<String> = Vec::new();
    let mut i: usize = 0;
    while i < addresses.len()
        invariant
            i <= addresses.len(),
            copy@ == addresses@.take(i as int),
        decreases addresses.len() - i,
    {
        copy.push(addresses[i].clone());
        i += 1;
    }
    assert(copy@ == addresses@);
    copy
}

/// Whether `address` occurs in `list`.
pub fn contains(list: &Vec<String>, address: &String) -> (found: bool)
    ensures
        found == list.deep_view().contains(address@),
{
    let mut i: usize = 0;
    while i < list.len()
        invariant
            i <= list.len(),
            forall|j: int| 0 <= j < i ==> list.deep_view()[j] != address@,
        decreases list.len() - i,
    {
        if list[i] == *address {
            assert(list.deep_view()[i as int] == address@);
            return true;
        }
        i += 1;
    }
    false
}

/// The entries of `list` that are none of `removal`, in their order.
pub fn remove_all(list: Vec<String>, removal: &Vec<String>) -> (kept: Vec<String>)
    ensures
        kept.deep_view() == without(list.deep_view(), removal.deep_view()),
{
    let ghost all = list.deep_view();
    let ghost gone = removal.deep_view();
    let mut kept: Vec<String> = Vec::new();
    proof {
        reveal(Seq::filter);
        assert(all.take(0).len() == 0);
    }
    for address in entries: list
        invariant
            entries.seq() == list@,
            all == list.deep_view(),
            gone == removal.deep_view(),
            kept.deep_view() == without(all.take(entries.index() as int), gone),
    {
        let ghost before = kept.deep_view();
        let ghost i = entries.index() as int;
        proof {
            lemma_take_next(all, i);
            all.take(i).lemma_filter_push(all[i], staying(gone));
        }
        if !contains(removal, &address) {
            kept.push(address);
            assert(kept.deep_view() =~= before.push(all[i]));
        }
    }
    assert(all.take(list.len() as int) == all);
    kept
}

} // verus!
