//! A merge sort of ranking entries: best score first, equal scores by
//! position in the collection.

use crate::rank::Score;
use vstd::multiset::Multiset;
use vstd::prelude::*;
use vstd::seq_lib::*;

verus! {

/// A score paired with the position of its candidate.
pub type Entry = (Score, usize);

/// `a` may stand before `b` in a ranking: its score is higher, or the scores
/// are equal and its candidate does not come later in the collection.
pub open spec fn may_precede(a: Entry, b: Entry) -> bool {
    a.0.value > b.0.value || (a.0.value == b.0.value && a.1 <= b.1)
}

/// Every entry may stand before all entries behind it.
pub open spec fn in_order(s: Seq<Entry>) -> bool {
    forall|i: int, j: int|
        #![trigger s[i], s[j]]
        0 <= i < j < s.len() ==> may_precede(s[i], s[j])
}

/// Every entry may stand before all entries in front of it.
pub open spec fn in_reverse_order(s: Seq<Entry>) -> bool {
    forall|i: int, j: int|
        #![trigger s[i], s[j]]
        0 <= i < j < s.len() ==> may_precede(s[j], s[i])
}

/// Every entry of `low` may stand before every entry of `high`.
pub open spec fn all_precede(low: Seq<Entry>, high: Seq<Entry>) -> bool {
    forall|i: int, j: int|
        #![trigger low[i], high[j]]
        0 <= i < low.len() && 0 <= j < high.len() ==> may_precede(low[i], high[j])
}

fn stands_before(a: &Entry, b: &Entry) -> (before: bool)
    ensures
        before == may_precede(*a, *b),
{
    a.0.value > b.0.value || (a.0.value == b.0.value && a.1 <= b.1)
}

/// A run without entries has the empty multiset.
proof fn lemma_empty_run(s: Seq<Entry>)
    requires
        s.len() == 0,
    ensures
        s.to_multiset() =~= Multiset::<Entry>::empty(),
{
    broadcast use group_to_multiset_ensures;
    broadcast use vstd::multiset::group_multiset_axioms;
}

/// The entries of `v`, last first.
fn reversed(v: Vec<Entry>) -> (out: Vec<Entry>)
    ensures
        out@ == v@.reverse(),
{
    let mut v = v;
    let ghost start = v@;
    let mut out: Vec<Entry> = Vec::with_capacity(v.len());
    while v.len() > 0
        invariant
            v@.len() + out@.len() == start.len(),
            v@ == start.subrange(0, v@.len() as int),
            forall|k: int| 0 <= k < out@.len() ==> out@[k] == start[start.len() - 1 - k],
        decreases v@.len(),
    {
        let last = v.pop().unwrap();
        out.push(last);
    }
    out
}

/// Merges two ordered runs into one.
fn merge(left: Vec<Entry>, right: Vec<Entry>) -> (out: Vec<Entry>)
    requires
        in_order(left@),
        in_order(right@),
    ensures
        in_order(out@),
        out@.to_multiset() == left@.to_multiset().add(right@.to_multiset()),
{
    let mut left = left;
    let mut right = right;
    let ghost total = left@.to_multiset().add(right@.to_multiset());
    // The entries that stand last are taken first, so `back` fills in reverse.
    let mut back: Vec<Entry> = Vec::new();
    proof {
        lemma_empty_run(back@);
    }
    while left.len() > 0 || right.len() > 0
        invariant
            in_order(left@),
            in_order(right@),
            in_reverse_order(back@),
            all_precede(left@, back@),
            all_precede(right@, back@),
            back@.to_multiset().add(left@.to_multiset()).add(right@.to_multiset()) == total,
        decreases left@.len() + right@.len(),
    {
        let from_right = if left.len() == 0 {
            true
        } else if right.len() == 0 {
            false
        } else {
            stands_before(&left[left.len() - 1], &right[right.len() - 1])
        };
        let ghost before_left = left@;
        let ghost before_right = right@;
        let ghost before_back = back@;
        let last = if from_right {
            right.pop().unwrap()
        } else {
            left.pop().unwrap()
        };
        let ghost taken = last;
        back.push(last);
        proof {
            // `taken` has moved from the end of its run to the end of `back`.
            if from_right {
                assert(before_right =~= right@.push(taken));
                to_multiset_build(right@, taken);
            } else {
                assert(before_left =~= left@.push(taken));
                to_multiset_build(left@, taken);
            }
            to_multiset_build(before_back, taken);
            assert(back@.to_multiset().add(left@.to_multiset()).add(right@.to_multiset())
                =~= total);
        }
    }
    let out = reversed(back);
    proof {
        back@.lemma_reverse_to_multiset();
        lemma_empty_run(left@);
        lemma_empty_run(right@);
    }
    out
}

/// Sorts the entries: best score first, equal scores by position.
pub(crate) fn sort(entries: Vec<Entry>) -> (out: Vec<Entry>)
    ensures
        in_order(out@),
        out@.to_multiset() == entries@.to_multiset(),
    decreases entries@.len(),
{
    let mut left = entries;
    if left.len() <= 1 {
        return left;
    }
    let middle: usize = left.len() / 2;
    let right = left.split_off(middle);
    proof {
        assert(entries@ =~= left@ + right@);
        lemma_multiset_commutative(left@, right@);
    }
    let left = sort(left);
    let right = sort(right);
    merge(left, right)
}

} // verus!
