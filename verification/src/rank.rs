//! Scoring every candidate against a query and ordering the candidates by
//! descending score.

use fuzzy_matcher::skim::SkimMatcherV2;
use fuzzy_matcher::FuzzyMatcher;
use crate::fuzzer::Fuzzable;
use crate::sort::{in_order, may_precede, sort, Entry};
use vstd::prelude::*;
use vstd::seq_lib::*;

verus! {

/// How well one candidate matched: the matcher's confidence and the positions
/// in the candidate's text that took part in the match.
#[derive(Debug)]
pub struct Score {
    pub value: i64,
    pub indices: Vec<usize>,
}

/// The mathematical value of a [`Score`].
pub struct Hit {
    pub value: i64,
    pub indices: Seq<usize>,
}

impl View for Score {
    type V = Hit;

    open spec fn view(&self) -> Hit {
        Hit { value: self.value, indices: self.indices@ }
    }
}

/// The score of a candidate that did not match: zero, with no positions.
pub open spec fn no_hit() -> Hit {
    Hit { value: 0, indices: Seq::empty() }
}

impl Default for Score {
    fn default() -> (score: Score)
        ensures
            score@ == no_hit(),
    {
        Score { value: 0, indices: Vec::new() }
    }
}

impl Clone for Score {
    fn clone(&self) -> (copy: Score)
        ensures
            copy@ == self@,
    {
        Score { value: self.value, indices: self.indices.clone() }
    }
}

impl Score {
    pub fn new(value: i64, indices: Vec<usize>) -> (score: Score)
        ensures
            score.value == value,
            score.indices == indices,
    {
        Score { value, indices }
    }
}

/// What the skim matcher answers when the text `choice` is matched against
/// `query`: the score and the positions in `choice` that matched, or nothing
/// where the two do not match. The matcher is one in its default
/// configuration that has matched nothing before.
pub uninterp spec fn skim_match(choice: Seq<char>, query: Seq<char>) -> Option<(i64, Seq<usize>)>;

/// Calls `FuzzyMatcher::fuzzy_indices` on a fresh `SkimMatcherV2::default()`.
///
/// A matcher keeps its scratch buffers from one call to the next, and what
/// they hold can show in a later answer. A matcher that is built for one call
/// starts from empty buffers.
///
/// Trusted: what such a matcher returns depends on the two texts alone; that
/// answer is named [`skim_match`]. Nothing is claimed about when a match is
/// found or what the score is.
#[verifier::external_body]
fn fuzzy_indices(choice: &str, query: &str) -> (found: Option<(i64, Vec<usize>)>)
    ensures
        match found {
            Some((value, indices)) => skim_match(choice@, query@) == Some((value, indices@)),
            None => skim_match(choice@, query@) is None,
        },
{
    SkimMatcherV2::default().fuzzy_indices(choice, query)
}

/// The score that a matcher's answer stands for: the match it found, or
/// [`no_hit`] where it found none.
pub open spec fn hit_of_match(found: Option<(i64, Seq<usize>)>) -> Hit {
    match found {
        Some((value, indices)) => Hit { value, indices },
        None => no_hit(),
    }
}

/// The score of a candidate whose text is `pattern` under `query`.
pub open spec fn hit_of(pattern: Seq<char>, query: Seq<char>) -> Hit {
    hit_of_match(skim_match(pattern, query))
}

/// The scores of all candidates, in collection order.
pub open spec fn hits_of(patterns: Seq<Seq<char>>, query: Seq<char>) -> Seq<Hit> {
    Seq::new(patterns.len(), |i: int| hit_of(patterns[i], query))
}

impl Score {
    /// Turns a matcher's answer into a score; an absent match scores zero with
    /// no positions.
    pub fn from_match(found: Option<(i64, Vec<usize>)>) -> (score: Score)
        ensures
            score@ == hit_of_match(
                match found {
                    Some((value, indices)) => Some((value, indices@)),
                    None => None,
                },
            ),
    {
        match found {
            Some((value, indices)) => Score::new(value, indices),
            None => Score::default(),
        }
    }
}

/// One entry of a ranking, as a mathematical value: a score and the position
/// of its candidate in the collection.
pub type Ranked = (Hit, usize);

/// The mathematical value of a ranking held in a vector.
pub open spec fn ranking_view(entries: Seq<(Score, usize)>) -> Seq<Ranked> {
    Seq::new(entries.len(), |i: int| (entries[i].0@, entries[i].1))
}

/// Every entry carries the score of the candidate it points at.
pub open spec fn scores_agree(ranking: Seq<Ranked>, hits: Seq<Hit>) -> bool {
    forall|i: int|
        0 <= i < ranking.len() ==> (#[trigger] ranking[i]).1 < hits.len() && ranking[i].0
            == hits[ranking[i].1 as int]
}

/// The candidate at position `k` of the collection has an entry in `ranking`.
pub open spec fn occurs(ranking: Seq<Ranked>, k: int) -> bool {
    exists|i: int| 0 <= i < ranking.len() && (#[trigger] ranking[i]).1 == k
}

/// The candidate positions in `ranking` are a permutation of `0..n`: there
/// are `n` entries, no position occurs twice, and every position occurs.
pub open spec fn is_permutation(ranking: Seq<Ranked>, n: nat) -> bool {
    &&& ranking.len() == n
    &&& forall|i: int| 0 <= i < ranking.len() ==> (#[trigger] ranking[i]).1 < n
    &&& forall|i: int, j: int|
        0 <= i < j < ranking.len() ==> (#[trigger] ranking[i]).1 != (#[trigger] ranking[j]).1
    &&& forall|k: int| 0 <= k < n ==> #[trigger] occurs(ranking, k)
}

/// No entry has a lower score than one that comes after it.
pub open spec fn is_descending(ranking: Seq<Ranked>) -> bool {
    forall|i: int, j: int|
        0 <= i < j < ranking.len() ==> (#[trigger] ranking[i]).0.value >= (
        #[trigger] ranking[j]).0.value
}

/// Entries with equal scores stand in collection order.
pub open spec fn ties_keep_order(ranking: Seq<Ranked>) -> bool {
    forall|i: int, j: int|
        0 <= i < j < ranking.len() && (#[trigger] ranking[i]).0.value == (
        #[trigger] ranking[j]).0.value ==> ranking[i].1 < ranking[j].1
}

/// `ranking` is the ranking of the candidates whose scores are `hits`: each
/// candidate once with its own score, best first, ties in collection order.
pub open spec fn is_ranking(ranking: Seq<Ranked>, hits: Seq<Hit>) -> bool {
    &&& is_permutation(ranking, hits.len())
    &&& scores_agree(ranking, hits)
    &&& is_descending(ranking)
    &&& ties_keep_order(ranking)
}

/// The scores of a vector of candidates' scores, as mathematical values.
pub open spec fn hits(scores: Seq<Score>) -> Seq<Hit> {
    Seq::new(scores.len(), |i: int| scores[i]@)
}

/// Each score with the position it holds in `scores`.
pub open spec fn paired(scores: Seq<Score>) -> Seq<Entry> {
    Seq::new(scores.len(), |i: int| (scores[i], i as usize))
}

/// Entries that are in order and are, as a multiset, the scores paired with
/// their positions form the ranking of those scores.
proof fn lemma_sorted_is_ranking(out: Seq<Entry>, scores: Seq<Score>)
    requires
        in_order(out),
        out.to_multiset() == paired(scores).to_multiset(),
        scores.len() <= usize::MAX,
    ensures
        is_ranking(ranking_view(out), hits(scores)),
{
    broadcast use group_to_multiset_ensures;

    let pairs = paired(scores);
    let ranking = ranking_view(out);
    let n = scores.len();
    assert(out.len() == n) by {
        assert(pairs.to_multiset().len() == pairs.len());
    }
    // Each entry is one of the pairs.
    assert forall|i: int| 0 <= i < n implies (#[trigger] out[i]).1 < n && out[i].0
        == scores[out[i].1 as int] by {
        assert(pairs.to_multiset().count(out[i]) > 0);
        let k = choose|k: int| 0 <= k < pairs.len() && pairs[k] == out[i];
        assert(out[i] == (scores[k], k as usize));
    }
    // Each pair is one of the entries.
    assert forall|k: int| 0 <= k < n implies #[trigger] occurs(ranking, k) by {
        assert(out.to_multiset().count(pairs[k]) > 0);
        let i = choose|i: int| 0 <= i < out.len() && out[i] == pairs[k];
        assert(ranking[i].1 == k);
    }
    // No pair occurs twice, so no entry does, and no position.
    assert(pairs.no_duplicates());
    pairs.lemma_multiset_has_no_duplicates();
    out.lemma_multiset_has_no_duplicates_conv();
    assert forall|i: int, j: int| 0 <= i < j < n implies (#[trigger] ranking[i]).1 != (
    #[trigger] ranking[j]).1 by {
        assert(out[i] != out[j]);
    }
    // With the positions distinct, the order of the entries is the order of
    // a ranking.
    assert(is_descending(ranking));
    assert(ties_keep_order(ranking));
    assert(scores_agree(ranking, hits(scores)));
}

/// Ranks candidates by their scores: every candidate appears once, with its
/// own score and its position in `scores`; a higher score comes first, and
/// candidates with equal scores keep their collection order.
pub fn rank(scores: Vec<Score>) -> (ranking: Vec<(Score, usize)>)
    ensures
        is_ranking(ranking_view(ranking@), hits(scores@)),
{
    let mut rest = scores;
    let mut entries: Vec<Entry> = Vec::with_capacity(rest.len());
    while rest.len() > 0
        invariant
            rest@.len() + entries@.len() == scores@.len(),
            rest@ == scores@.subrange(0, rest@.len() as int),
            forall|k: int|
                0 <= k < entries@.len() ==> entries@[k] == paired(scores@)[scores@.len() - 1 - k],
        decreases rest@.len(),
    {
        let index: usize = rest.len() - 1;
        let score = rest.pop().unwrap();
        entries.push((score, index));
    }
    proof {
        assert(entries@ =~= paired(scores@).reverse());
        paired(scores@).lemma_reverse_to_multiset();
    }
    let ranking = sort(entries);
    proof {
        lemma_sorted_is_ranking(ranking@, scores@);
    }
    ranking
}

/// Two rankings of the same scores agree up to `k`.
proof fn lemma_same_prefix(a: Seq<Ranked>, b: Seq<Ranked>, hits: Seq<Hit>, k: int)
    requires
        is_ranking(a, hits),
        is_ranking(b, hits),
        0 <= k <= hits.len(),
    ensures
        forall|i: int| 0 <= i < k ==> a[i] == b[i],
    decreases k,
{
    if k > 0 {
        lemma_same_prefix(a, b, hits, k - 1);
        let i = k - 1;
        let x = a[i].1 as int;
        let y = b[i].1 as int;
        if x != y {
            if hits[x].value > hits[y].value || (hits[x].value == hits[y].value && x < y) {
                // `x` stands before `y` in `b`, where `a` has it too, and
                // then `a` would hold it twice.
                assert(occurs(b, x));
                let m = choose|m: int| 0 <= m < b.len() && (#[trigger] b[m]).1 == x;
                assert(m < i);
                assert(a[m].1 == a[i].1);
            } else {
                assert(occurs(a, y));
                let m = choose|m: int| 0 <= m < a.len() && (#[trigger] a[m]).1 == y;
                assert(m < i);
                assert(b[m].1 == b[i].1);
            }
        }
        assert(a[i] == b[i]);
    }
}

/// Scores have one ranking only: the order of a ranking, ties included, is
/// fixed by the scores.
pub proof fn ranking_is_unique(a: Seq<Ranked>, b: Seq<Ranked>, hits: Seq<Hit>)
    requires
        is_ranking(a, hits),
        is_ranking(b, hits),
    ensures
        a == b,
{
    lemma_same_prefix(a, b, hits, hits.len() as int);
}

/// The texts of the candidates, in collection order.
pub open spec fn patterns_of<T: Fuzzable>(choices: Seq<T>) -> Seq<Seq<char>> {
    Seq::new(choices.len(), |i: int| choices[i].pattern_text())
}

/// Owns the candidates and ranks them against a query. A ranking depends on
/// the candidates and the query alone: asked twice for the same query, the
/// ranker gives the same ranking twice.
pub struct Ranker<T> {
    choices: Vec<T>,
}

impl<T> View for Ranker<T> {
    type V = Seq<T>;

    /// The candidates, in collection order.
    closed spec fn view(&self) -> Seq<T> {
        self.choices@
    }
}

impl<T: Fuzzable> Ranker<T> {
    /// The texts of the candidates, in collection order.
    pub open spec fn patterns(&self) -> Seq<Seq<char>> {
        patterns_of(self@)
    }

    pub fn new(choices: Vec<T>) -> (ranker: Self)
        ensures
            ranker@ == choices@,
    {
        Ranker { choices }
    }

    pub fn choices(&self) -> (all: &[T])
        ensures
            all@ == self@,
    {
        self.choices.as_slice()
    }

    /// Scores every candidate against `input` and returns the ranking of the
    /// scores: all candidates, best first, ties in collection order.
    pub fn rankings_of(&mut self, input: &str) -> (ranking: Vec<(Score, usize)>)
        ensures
            *final(self) == *old(self),
            is_ranking(ranking_view(ranking@), hits_of(old(self).patterns(), input@)),
    {
        let count: usize = self.choices.len();
        let mut scores: Vec<Score> = Vec::with_capacity(count);
        let mut index: usize = 0;
        while index < count
            invariant
                count == self.choices@.len(),
                index <= count,
                scores@.len() == index,
                forall|k: int|
                    0 <= k < index ==> (#[trigger] scores@[k])@ == hit_of(
                        self.choices@[k].pattern_text(),
                        input@,
                    ),
            decreases count - index,
        {
            let text = self.choices[index].pattern();
            let found = fuzzy_indices(text.as_str(), input);
            scores.push(Score::from_match(found));
            index += 1;
        }
        assert(hits(scores@) =~= hits_of(self.patterns(), input@));
        rank(scores)
    }
}

} // verus!
