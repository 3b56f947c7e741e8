//! The search session: a query that the caller edits, and a ranking of the
//! candidates that is computed again only when the query has changed.

use crate::rank::{hits_of, is_ranking, patterns_of, ranking_view, Ranked, Ranker, Score};
use std::borrow::Cow;
use std::rc::Rc;
use vstd::prelude::*;

verus! {

/// What can be searched for: a value that has a text to match against.
///
/// The text is a function of the value: `pattern` returns the same text each
/// time it is asked of the same value. A cached ranking relies on that.
pub trait Fuzzable {
    /// The text this value is matched by.
    spec fn pattern_text(&self) -> Seq<char>;

    fn pattern(&self) -> (text: String)
        ensures
            text@ == self.pattern_text(),
    ;
}

impl Fuzzable for String {
    open spec fn pattern_text(&self) -> Seq<char> {
        self@
    }

    fn pattern(&self) -> (text: String) {
        self.clone()
    }
}

/// A match as a mathematical value: the candidate, its score and the
/// positions in its text that matched.
pub struct Found<T> {
    pub item: T,
    pub score: i64,
    pub indices: Seq<usize>,
}

/// A match that owns its candidate and positions.
pub struct MatchOwned<T> {
    pub item: T,
    pub score: i64,
    pub indices: Vec<usize>,
}

/// A match whose candidate is borrowed from the engine.
pub struct Match<'a, T> {
    pub item: &'a T,
    pub score: i64,
    pub indices: Cow<'a, Vec<usize>>,
}

impl<T> View for MatchOwned<T> {
    type V = Found<T>;

    open spec fn view(&self) -> Found<T> {
        Found { item: self.item, score: self.score, indices: self.indices@ }
    }
}

impl<'a, T> View for Match<'a, T> {
    type V = Found<T>;

    open spec fn view(&self) -> Found<T> {
        Found { item: *self.item, score: self.score, indices: self.indices@ }
    }
}

/// `copy` is an independent copy of `found`: its candidate is a clone of the
/// other's, its score and positions are the same.
pub open spec fn is_copy_of<T: Clone>(copy: Found<T>, found: Found<T>) -> bool {
    &&& cloned(found.item, copy.item)
    &&& copy.score == found.score
    &&& copy.indices == found.indices
}

impl<T> MatchOwned<T> {
    /// A borrowed match onto this one: the same candidate, score and
    /// positions, nothing copied.
    pub fn borrowed(&self) -> (view: Match<'_, T>)
        ensures
            view@ == self@,
    {
        Match { item: &self.item, score: self.score, indices: Cow::Borrowed(&self.indices) }
    }
}

impl<'a, T: Clone> Match<'a, T> {
    /// An independent copy: the candidate cloned, the score and positions
    /// the same.
    pub fn owned(&self) -> (copy: MatchOwned<T>)
        ensures
            is_copy_of(copy@, self@),
    {
        let indices = match &self.indices {
            Cow::Borrowed(positions) => (*positions).clone(),
            Cow::Owned(positions) => positions.clone(),
        };
        MatchOwned { item: self.item.clone(), score: self.score, indices }
    }
}

/// The match that a ranking entry stands for.
pub open spec fn found_at<T>(candidates: Seq<T>, entry: Ranked) -> Found<T> {
    Found { item: candidates[entry.1 as int], score: entry.0.value, indices: entry.0.indices }
}

/// The matches that the entries of `ranking` from `from` on resolve to, in
/// ranking order. An entry that points outside the candidates resolves to
/// nothing and is passed over.
pub open spec fn resolved<T>(candidates: Seq<T>, ranking: Seq<Ranked>, from: int) -> Seq<Found<T>>
    decreases ranking.len() - from,
{
    if from < 0 || from >= ranking.len() {
        Seq::empty()
    } else if ranking[from].1 < candidates.len() {
        seq![found_at(candidates, ranking[from])] + resolved(candidates, ranking, from + 1)
    } else {
        resolved(candidates, ranking, from + 1)
    }
}

/// The matches that all entries of `ranking` stand for, in ranking order.
pub open spec fn found_all<T>(candidates: Seq<T>, ranking: Seq<Ranked>) -> Seq<Found<T>> {
    Seq::new(ranking.len(), |i: int| found_at(candidates, ranking[i]))
}

/// Where every entry points at a candidate, none is passed over.
pub proof fn lemma_resolved_all<T>(candidates: Seq<T>, ranking: Seq<Ranked>, from: int)
    requires
        0 <= from <= ranking.len(),
        forall|i: int| 0 <= i < ranking.len() ==> (#[trigger] ranking[i]).1 < candidates.len(),
    ensures
        resolved(candidates, ranking, from) == found_all(candidates, ranking).skip(from),
    decreases ranking.len() - from,
{
    if from < ranking.len() {
        lemma_resolved_all(candidates, ranking, from + 1);
    }
}

/// The matches of one ranking, handed out one at a time, best first.
pub struct Matches<'a, T> {
    ranker: &'a Ranker<T>,
    rankings: Rc<Vec<(Score, usize)>>,
    idx: usize,
}

impl<'a, T: Fuzzable> Matches<'a, T> {
    /// The candidates that the ranking points into.
    pub closed spec fn candidates(&self) -> Seq<T> {
        self.ranker@
    }

    /// The ranking that is walked.
    pub closed spec fn ranking(&self) -> Seq<Ranked> {
        ranking_view(self.rankings@)
    }

    /// How many entries of the ranking have been passed.
    pub closed spec fn position(&self) -> nat {
        self.idx as nat
    }

    /// The matches still to come, in the order in which they come.
    pub open spec fn remaining(&self) -> Seq<Found<T>> {
        resolved(self.candidates(), self.ranking(), self.position() as int)
    }

    /// The next match, or `None` when the ranking is used up.
    pub fn next(&mut self) -> (result: Option<Match<'a, T>>)
        ensures
            final(self).candidates() == old(self).candidates(),
            final(self).ranking() == old(self).ranking(),
            match result {
                Some(found) => old(self).remaining().len() > 0 && found@ == old(self).remaining()[0]
                    && final(self).remaining() == old(self).remaining().skip(1),
                None => old(self).remaining().len() == 0 && final(self).remaining().len() == 0,
            },
    {
        let ranker: &'a Ranker<T> = self.ranker;
        let choices = ranker.choices();
        while self.idx < self.rankings.len()
            invariant
                choices@ == self.candidates(),
                self.candidates() == old(self).candidates(),
                self.ranking() == old(self).ranking(),
                self.remaining() == old(self).remaining(),
            decreases self.rankings@.len() - self.idx,
        {
            let entry = &self.rankings[self.idx];
            let item: usize = entry.1;
            let score = entry.0.clone();
            self.idx += 1;
            if item < choices.len() {
                let found = Match {
                    item: &choices[item],
                    score: score.value,
                    indices: Cow::Owned(score.indices),
                };
                proof {
                    assert(old(self).remaining().skip(1) =~= self.remaining());
                }
                return Some(found);
            }
        }
        None
    }
}

/// Calls `Rc::clone`: another pointer to the same ranking.
///
/// Trusted: the clone of a reference-counted pointer points at the value the
/// original points at.
#[verifier::external_body]
fn share(ranking: &Rc<Vec<(Score, usize)>>) -> (shared: Rc<Vec<(Score, usize)>>)
    ensures
        shared == *ranking,
{
    Rc::clone(ranking)
}

/// A search session over a fixed collection of candidates.
pub struct Fuzzer<T> {
    ranker: Ranker<T>,
    input: String,
    last_input: String,
    rankings: Option<Rc<Vec<(Score, usize)>>>,
}

impl<T: Fuzzable> Fuzzer<T> {
    /// The candidates, in collection order.
    pub closed spec fn candidates(&self) -> Seq<T> {
        self.ranker@
    }

    /// The query as the caller last left it.
    pub closed spec fn query(&self) -> Seq<char> {
        self.input@
    }

    /// The query that the cached ranking was computed for.
    pub closed spec fn ranked_query(&self) -> Seq<char> {
        self.last_input@
    }

    /// The cached ranking, if one has been computed.
    pub closed spec fn cached(&self) -> Option<Seq<Ranked>> {
        match self.rankings {
            Some(ranking) => Some(ranking_view(ranking@)),
            None => None,
        }
    }

    /// `ranking` is the ranking of the candidates under `query`.
    pub open spec fn ranks(&self, ranking: Seq<Ranked>, query: Seq<char>) -> bool {
        is_ranking(ranking, hits_of(patterns_of(self.candidates()), query))
    }

    /// A cached ranking is the ranking for the query it was computed for.
    pub open spec fn wf(&self) -> bool {
        self.cached() matches Some(ranking) ==> self.ranks(ranking, self.ranked_query())
    }

    /// The cache answers the present query: there is a cached ranking, and
    /// the query has not changed since it was computed.
    pub open spec fn is_current(&self) -> bool {
        self.cached() is Some && self.ranked_query() == self.query()
    }

    pub fn new(items: Vec<T>) -> (fuzzer: Self)
        ensures
            fuzzer.wf(),
            fuzzer.candidates() == items@,
            fuzzer.query() == Seq::<char>::empty(),
            fuzzer.ranked_query() == Seq::<char>::empty(),
            fuzzer.cached() is None,
    {
        Fuzzer {
            ranker: Ranker::new(items),
            input: String::new(),
            last_input: String::new(),
            rankings: None,
        }
    }

    pub fn input(&self) -> (query: &str)
        ensures
            query@ == self.query(),
    {
        self.input.as_str()
    }

    /// The query buffer, for the caller to edit. Nothing but the query
    /// changes through it.
    pub fn input_mut(&mut self) -> (buffer: &mut String)
        ensures
            buffer@ == old(self).query(),
            final(self).query() == final(buffer)@,
            final(self).candidates() == old(self).candidates(),
            final(self).ranked_query() == old(self).ranked_query(),
            final(self).cached() == old(self).cached(),
    {
        &mut self.input
    }

    /// What a request for matches does to the engine: `after` is the engine
    /// that `before` becomes, `ranking` the ranking that is handed out.
    ///
    /// The ranking is the one for the present query and is what the cache
    /// then holds. Candidates and query stay. Where the cache already
    /// answered the present query, the engine is left as it was: nothing is
    /// scored again. Otherwise the cache is replaced and remembers the
    /// present query.
    pub open spec fn serves(before: Self, after: Self, ranking: Seq<Ranked>) -> bool {
        &&& after.wf()
        &&& after.is_current()
        &&& after.candidates() == before.candidates()
        &&& after.query() == before.query()
        &&& after.cached() == Some(ranking)
        &&& after.ranks(ranking, before.query())
        &&& before.is_current() ==> after == before
    }

    /// The ranking for the present query, shared with the cache. It is
    /// computed only where the cache does not answer the present query, and
    /// then replaces what the cache held.
    pub fn get_rankings(&mut self) -> (ranking: Rc<Vec<(Score, usize)>>)
        requires
            old(self).wf(),
        ensures
            Self::serves(*old(self), *final(self), ranking_view(ranking@)),
    {
        if let Some(ranking) = &self.rankings {
            if self.last_input == self.input {
                return share(ranking);
            }
        }
        self.last_input = self.input.clone();
        let ranking = Rc::new(self.ranker.rankings_of(self.input.as_str()));
        let shared = share(&ranking);
        self.rankings = Some(ranking);
        shared
    }

    /// The matches for the present query, best first: one for every
    /// candidate, in the order of the ranking.
    pub fn matches(&mut self) -> (matches: Matches<'_, T>)
        requires
            old(self).wf(),
        ensures
            Self::serves(*old(self), *final(self), matches.ranking()),
            matches.candidates() == old(self).candidates(),
            matches.position() == 0,
            matches.remaining() == found_all(matches.candidates(), matches.ranking()),
    {
        let rankings = self.get_rankings();
        proof {
            lemma_resolved_all(self.candidates(), ranking_view(rankings@), 0);
            assert(resolved(self.candidates(), ranking_view(rankings@), 0) =~= found_all(
                self.candidates(),
                ranking_view(rankings@),
            ));
        }
        Matches { rankings, ranker: &self.ranker, idx: 0 }
    }
}

/// `list` holds what is shown of the matches `found`: copies of the matches
/// at the head of `found` that are worth showing, up to the first that is
/// not. With `all`, every match is worth showing; otherwise those with a
/// score above zero are.
pub open spec fn is_shown<T: Clone>(list: Seq<Found<T>>, found: Seq<Found<T>>, all: bool) -> bool {
    &&& list.len() <= found.len()
    &&& forall|i: int|
        0 <= i < list.len() ==> is_copy_of(#[trigger] list[i], found[i]) && (all || found[i].score
            > 0)
    &&& list.len() < found.len() ==> !all && found[list.len() as int].score <= 0
}

/// The mathematical values of a vector of matches.
pub open spec fn found_owned<T>(list: Seq<MatchOwned<T>>) -> Seq<Found<T>> {
    Seq::new(list.len(), |i: int| list[i]@)
}

impl<T: Fuzzable + Clone> Fuzzer<T> {
    /// The matches that are worth showing for the present query, best
    /// first, as independent copies: all of them while the query is empty,
    /// otherwise those at the head of the ranking that score above zero.
    #[verifier::loop_isolation(false)]
    pub fn shown(&mut self) -> (list: Vec<MatchOwned<T>>)
        requires
            old(self).wf(),
        ensures
            final(self).cached() matches Some(ranking) && Self::serves(
                *old(self),
                *final(self),
                ranking,
            ) && is_shown(
                found_owned(list@),
                found_all(old(self).candidates(), ranking),
                old(self).query().len() == 0,
            ),
    {
        let all = self.input.as_str().is_empty();
        let mut list: Vec<MatchOwned<T>> = Vec::new();
        let mut matches = self.matches();
        let ghost found = matches.remaining();
        let mut more = true;
        while more
            invariant
                list@.len() <= found.len(),
                more ==> matches.remaining() == found.skip(list@.len() as int),
                forall|i: int|
                    0 <= i < list@.len() ==> is_copy_of((#[trigger] list@[i])@, found[i]) && (all
                        || found[i].score > 0),
                !more && list@.len() < found.len() ==> !all && found[list@.len() as int].score
                    <= 0,
            decreases found.len() - list@.len() + (if more { 1int } else { 0int }),
        {
            match matches.next() {
                Some(found_next) => {
                    if found_next.score > 0 || all {
                        list.push(found_next.owned());
                    } else {
                        more = false;
                    }
                },
                None => {
                    more = false;
                },
            }
        }
        list
    }
}

/// Asking for matches twice without touching the query in between hands out
/// the same ranking twice, and the second request leaves the engine as the
/// first left it: the cached ranking is served and nothing is scored again.
pub proof fn unchanged_query_reuses_cache<T: Fuzzable>(
    start: Fuzzer<T>,
    once: Fuzzer<T>,
    first: Seq<Ranked>,
    twice: Fuzzer<T>,
    second: Seq<Ranked>,
)
    requires
        Fuzzer::serves(start, once, first),
        Fuzzer::serves(once, twice, second),
    ensures
        second == first,
        twice == once,
{
}

/// After the query was edited to a different text, a request for matches does
/// not serve what the cache held: the cache did not answer the new query, and
/// what is handed out and cached is the ranking for the new query.
pub proof fn changed_query_replaces_cache<T: Fuzzable>(
    once: Fuzzer<T>,
    edited: Fuzzer<T>,
    twice: Fuzzer<T>,
    second: Seq<Ranked>,
)
    requires
        once.is_current(),
        edited.candidates() == once.candidates(),
        edited.ranked_query() == once.ranked_query(),
        edited.cached() == once.cached(),
        edited.query() != once.query(),
        Fuzzer::serves(edited, twice, second),
    ensures
        !edited.is_current(),
        twice.ranks(second, edited.query()),
        twice.ranked_query() == edited.query(),
        twice.cached() == Some(second),
{
}

/// Cloning a candidate keeps its text.
pub open spec fn clone_keeps_text<T: Fuzzable + Clone>() -> bool {
    forall|a: T, b: T| #[trigger] cloned(a, b) ==> a.pattern_text() == b.pattern_text()
}

/// Cloning a `String` keeps its text: the clone is the same string.
pub proof fn string_clone_keeps_text()
    ensures
        clone_keeps_text::<String>(),
{
}

/// A match made independent and then borrowed again has the score and the
/// positions it had, and its candidate is a clone of the one it had; where
/// cloning keeps a candidate's text, the candidate has the text it had.
pub proof fn owned_then_borrowed_is_same<T: Fuzzable + Clone>(
    found: Found<T>,
    copy: Found<T>,
    back: Found<T>,
)
    requires
        is_copy_of(copy, found),
        back == copy,
    ensures
        back.score == found.score,
        back.indices == found.indices,
        cloned(found.item, back.item),
        clone_keeps_text::<T>() ==> back.item.pattern_text() == found.item.pattern_text(),
{
}

} // verus!

