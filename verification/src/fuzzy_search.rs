//! Approximate matching by trigrams: how well a query matches a text, and
//! the ranking of a list of candidates by that score.

use crate::order::{lemma_stably_sorted_unique, stable_sort, stably_sorted, Precedence};
use crate::text::{chars_of, lowercase, lowercase_of, render_duration, rendered_duration};
use crate::track::Music;
use vstd::prelude::*;

verus! {

/// Three characters in a row.
pub type Trigram = (char, char, char);

/// `s` between two leading blanks and one trailing blank.
pub open spec fn padded(s: Seq<char>) -> Seq<char> {
    seq![' ', ' '] + s + seq![' ']
}

/// The trigrams of `s`: each window of three characters of `padded(s)`.
pub open spec fn trigrams_of(s: Seq<char>) -> Seq<Trigram> {
    Seq::new(s.len() + 1, |i: int| (padded(s)[i], padded(s)[i + 1], padded(s)[i + 2]))
}

/// How many trigrams of `query` occur among those of `candidate`. One that
/// `query` holds twice counts twice.
pub open spec fn matching(query: Seq<Trigram>, candidate: Seq<Trigram>) -> nat {
    query.filter(|t: Trigram| candidate.contains(t)).len()
}

/// The number of matched trigrams when `query` is held against
/// `candidate`, both in lower case.
pub open spec fn similarity_hits(query: Seq<char>, candidate: Seq<char>) -> nat {
    matching(trigrams_of(lowercase_of(query)), trigrams_of(lowercase_of(candidate)))
}

/// The number of trigrams of `query` in lower case: its length and one.
pub open spec fn similarity_parts(query: Seq<char>) -> nat {
    lowercase_of(query).len() + 1
}

/// A score between 0 and 1 as a fraction: `matches` of `total`.
#[derive(Debug, Copy, Clone, PartialEq, Eq, Structural)]
pub struct Score {
    pub matches: usize,
    pub total: usize,
}

impl Score {
    /// The numerator of the score's value. A fraction that is not between
    /// 0 and 1 counts as 0.
    pub open spec fn hits(self) -> int {
        if self.total == 0 || self.matches > self.total {
            0
        } else {
            self.matches as int
        }
    }

    /// The denominator of the score's value.
    pub open spec fn parts(self) -> int {
        if self.total == 0 {
            1
        } else {
            self.total as int
        }
    }

    /// The value of `self` is less than that of `other`.
    pub open spec fn below(self, other: Score) -> bool {
        self.hits() * other.parts() < other.hits() * self.parts()
    }

    /// The score is that of `query` held against `candidate`.
    pub open spec fn rates(self, query: Seq<char>, candidate: Seq<char>) -> bool {
        &&& self.matches == similarity_hits(query, candidate)
        &&& self.total == similarity_parts(query)
    }

    /// The score 0.
    pub fn none() -> (r: Score)
        ensures
            r.matches == 0,
            r.total == 1,
    {
        Score { matches: 0, total: 1 }
    }

    /// The score 1.
    pub fn full() -> (r: Score)
        ensures
            r.matches == 1,
            r.total == 1,
    {
        Score { matches: 1, total: 1 }
    }

    fn numerator(&self) -> (r: usize)
        ensures
            r == self.hits(),
    {
        if self.total == 0 || self.matches > self.total {
            0
        } else {
            self.matches
        }
    }

    fn denominator(&self) -> (r: usize)
        ensures
            r == self.parts(),
    {
        if self.total == 0 {
            1
        } else {
            self.total
        }
    }

    /// Whether the value of `self` is less than that of `other`.
    pub fn less_than(&self, other: &Score) -> (r: bool)
        ensures
            r == self.below(*other),
    {
        let a = self.numerator();
        let b = other.denominator();
        let c = other.numerator();
        let d = self.denominator();
        assert(a * b <= u128::MAX && c * d <= u128::MAX) by (nonlinear_arith)
            requires
                0 <= a <= u64::MAX,
                0 <= b <= u64::MAX,
                0 <= c <= u64::MAX,
                0 <= d <= u64::MAX,
        ;
        (a as u128) * (b as u128) < (c as u128) * (d as u128)
    }

    /// Whether the score is 1.
    pub fn is_full(&self) -> (r: bool)
        ensures
            r == (self.hits() == self.parts()),
    {
        self.numerator() == self.denominator()
    }

    /// Whether the score is 0.
    pub fn is_none(&self) -> (r: bool)
        ensures
            r == (self.hits() == 0),
    {
        self.numerator() == 0
    }
}

/// `below` is a strict weak order on scores.
pub proof fn lemma_below_order(a: Score, b: Score, c: Score)
    ensures
        !a.below(a),
        a.below(b) && b.below(c) ==> a.below(c),
        !a.below(b) && !b.below(c) ==> !a.below(c),
{
    let (h1, d1) = (a.hits(), a.parts());
    let (h2, d2) = (b.hits(), b.parts());
    let (h3, d3) = (c.hits(), c.parts());
    assert(h1 * d2 < h2 * d1 && h2 * d3 < h3 * d2 ==> h1 * d3 < h3 * d1) by (nonlinear_arith)
        requires
            d1 > 0,
            d2 > 0,
            d3 > 0,
            h1 >= 0,
            h2 >= 0,
            h3 >= 0,
    {
        if h1 * d2 < h2 * d1 && h2 * d3 < h3 * d2 {
            assert((h1 * d2) * d3 < (h2 * d1) * d3);
            assert((h2 * d3) * d1 < (h3 * d2) * d1);
            assert((h1 * d3) * d2 < (h3 * d1) * d2);
        }
    }
    assert(h1 * d2 >= h2 * d1 && h2 * d3 >= h3 * d2 ==> h1 * d3 >= h3 * d1) by (nonlinear_arith)
        requires
            d1 > 0,
            d2 > 0,
            d3 > 0,
            h1 >= 0,
            h2 >= 0,
            h3 >= 0,
    {
        if h1 * d2 >= h2 * d1 && h2 * d3 >= h3 * d2 {
            assert((h1 * d2) * d3 >= (h2 * d1) * d3);
            assert((h2 * d3) * d1 >= (h3 * d2) * d1);
            assert((h1 * d3) * d2 >= (h3 * d1) * d2);
        }
    }
}

/// The trigrams of `s`.
pub fn trigrams(s: &str) -> (r: Vec<Trigram>)
    ensures
        r@ == trigrams_of(s@),
{
    let chars = chars_of(s);
    let ghost p = padded(s@);
    let mut r: Vec<Trigram> = Vec::new();
    let mut first = ' ';
    let mut second = ' ';
    let mut i: usize = 0;
    while i < chars.len()
        invariant
            i <= chars.len(),
            chars@ == s@,
            p == padded(s@),
            first == p[i as int],
            second == p[i + 1],
            r@.len() == i,
            forall|k: int| 0 <= k < i ==> #[trigger] r@[k] == (p[k], p[k + 1], p[k + 2]),
        decreases chars.len() - i,
    {
        let c = chars[i];
        r.push((first, second, c));
        first = second;
        second = c;
        i += 1;
    }
    r.push((first, second, ' '));
    assert(r@ =~= trigrams_of(s@));
    r
}

fn holds(list: &Vec<Trigram>, t: Trigram) -> (r: bool)
    ensures
        r == list@.contains(t),
{
    let mut j: usize = 0;
    while j < list.len()
        invariant
            j <= list.len(),
            forall|k: int| 0 <= k < j ==> list@[k] != t,
        decreases list.len() - j,
    {
        let u = list[j];
        if u.0 == t.0 && u.1 == t.1 && u.2 == t.2 {
            return true;
        }
        j += 1;
    }
    false
}

/// The score of `query` against `candidate`, both taken as they are.
pub fn score_folded(query: &str, candidate: &str) -> (r: Score)
    ensures
        r.matches == matching(trigrams_of(query@), trigrams_of(candidate@)),
        r.total == query@.len() + 1,
        r.matches <= r.total,
{
    let q = trigrams(query);
    let c = trigrams(candidate);
    let ghost pred = |t: Trigram| c@.contains(t);
    let mut found: usize = 0;
    let mut i: usize = 0;
    while i < q.len()
        invariant
            i <= q.len(),
            pred == |t: Trigram| c@.contains(t),
            found == q@.take(i as int).filter(pred).len(),
            found <= i,
        decreases q.len() - i,
    {
        let hit = holds(&c, q[i]);
        proof {
            reveal(Seq::filter);
            assert(q@.take(i + 1).drop_last() =~= q@.take(i as int));
            assert(q@.take(i + 1).last() == q@[i as int]);
        }
        if hit {
            found += 1;
        }
        i += 1;
    }
    assert(q@.take(i as int) =~= q@);
    Score { matches: found, total: q.len() }
}

/// How well `a` matches `b`, from 0 (no trigram of `a` occurs in `b`) to 1
/// (all do). Case is ignored.
pub fn fuzzy_compare(a: &str, b: &str) -> (r: Score)
    ensures
        r.rates(a@, b@),
        0 <= r.matches <= r.total,
        r.total > 0,
        a@ == b@ ==> r.matches == r.total,
{
    let x = lowercase(a);
    let y = lowercase(b);
    proof {
        lemma_similarity_reflexive(a@);
    }
    score_folded(x.as_str(), y.as_str())
}

/// How well the query `a` matches the rendered playing time `b`.
pub fn fuzzy_compare_durations(a: &str, b: &str) -> (r: Score)
    ensures
        r.rates(a@, b@),
        0 <= r.matches <= r.total,
        r.total > 0,
        a@ == b@ ==> r.matches == r.total,
{
    fuzzy_compare(a, b)
}

/// A text matches itself fully.
pub proof fn lemma_similarity_reflexive(a: Seq<char>)
    ensures
        similarity_hits(a, a) == similarity_parts(a),
{
    let t = trigrams_of(lowercase_of(a));
    lemma_matching_all(t, t, t.len() as int);
    assert(t.take(t.len() as int) =~= t);
}

/// A score is never above 1.
pub proof fn lemma_similarity_bounded(a: Seq<char>, b: Seq<char>)
    ensures
        similarity_hits(a, b) <= similarity_parts(a),
{
    let t = trigrams_of(lowercase_of(a));
    let u = trigrams_of(lowercase_of(b));
    t.lemma_filter_len(|x: Trigram| u.contains(x));
}

proof fn lemma_matching_all(q: Seq<Trigram>, c: Seq<Trigram>, n: int)
    requires
        0 <= n <= q.len(),
        forall|i: int| 0 <= i < n ==> c.contains(#[trigger] q[i]),
    ensures
        matching(q.take(n), c) == n,
    decreases n,
{
    reveal(Seq::filter);
    if n > 0 {
        lemma_matching_all(q, c, n - 1);
        assert(q.take(n).drop_last() =~= q.take(n - 1));
    }
}

/// The rule that puts the higher score first.
pub struct ByScore;

impl<T> Precedence<(T, Score)> for ByScore {
    open spec fn decides(&self) -> bool {
        true
    }

    open spec fn after(&self, a: (T, Score), b: (T, Score)) -> bool {
        a.1.below(b.1)
    }

    fn comes_after(&self, a: &(T, Score), b: &(T, Score)) -> (r: bool) {
        a.1.less_than(&b.1)
    }

    proof fn lemma_weak_order(&self, a: (T, Score), b: (T, Score), c: (T, Score)) {
        lemma_below_order(a.1, b.1, c.1);
    }
}

/// `out` pairs each item with the score of `query` against the item's
/// text, in the items' order.
pub open spec fn scored<T>(
    query: Seq<char>,
    items: Seq<T>,
    text: spec_fn(T) -> Seq<char>,
    out: Seq<(T, Score)>,
) -> bool {
    &&& out.len() == items.len()
    &&& forall|i: int|
        0 <= i < items.len() ==> (#[trigger] out[i]).0 == items[i] && out[i].1.rates(
            query,
            text(items[i]),
        )
}

/// `out` is the scored list with the best score first, items of one score
/// in the items' order.
pub open spec fn ranked<T>(
    query: Seq<char>,
    items: Seq<T>,
    text: spec_fn(T) -> Seq<char>,
    out: Seq<(T, Score)>,
) -> bool {
    exists|all: Seq<(T, Score)>| scored(query, items, text, all) && stably_sorted(ByScore, all, out)
}

/// `out` is the first `n` entries of the ranked list, or all of it where it
/// has fewer.
pub open spec fn best<T>(
    query: Seq<char>,
    items: Seq<T>,
    text: spec_fn(T) -> Seq<char>,
    n: nat,
    out: Seq<(T, Score)>,
) -> bool {
    exists|all: Seq<(T, Score)>|
        ranked(query, items, text, all) && out == all.take(
            if n <= items.len() {
                n as int
            } else {
                items.len() as int
            },
        )
}

/// The first `n` entries of `all`, or all of it where it has fewer.
fn leading<T>(all: Vec<(T, Score)>, n: usize) -> (r: Vec<(T, Score)>)
    ensures
        r@ == all@.take(
            if n <= all@.len() {
                n as int
            } else {
                all@.len() as int
            },
        ),
{
    let mut r = all;
    if n < r.len() {
        r.truncate(n);
    }
    assert(r@ =~= all@.take(if n <= all@.len() { n as int } else { all@.len() as int }));
    r
}

/// The text of a string.
pub open spec fn string_text() -> spec_fn(String) -> Seq<char> {
    |s: String| s@
}

/// Each string of `list` with the score of `s` against it.
pub fn fuzzy_search(s: &str, list: &[String]) -> (r: Vec<(String, Score)>)
    ensures
        scored(s@, list@, string_text(), r@),
{
    let mut r: Vec<(String, Score)> = Vec::new();
    let mut i: usize = 0;
    while i < list.len()
        invariant
            i <= list.len(),
            scored(s@, list@.take(i as int), string_text(), r@),
        decreases list.len() - i,
    {
        let score = fuzzy_compare(s, list[i].as_str());
        r.push((list[i].clone(), score));
        i += 1;
    }
    assert(list@.take(i as int) =~= list@);
    r
}

/// The strings of `list` by falling score.
pub fn fuzzy_search_sorted(s: &str, list: &[String]) -> (r: Vec<(String, Score)>)
    ensures
        ranked(s@, list@, string_text(), r@),
        r@.len() == list@.len(),
{
    let mut r = fuzzy_search(s, list);
    stable_sort(&mut r, &ByScore);
    r
}

/// The strings of `list` whose score is at least `threshold`, in the
/// list's order.
pub fn fuzzy_search_threshold(s: &str, list: &[String], threshold: Score) -> (r: Vec<
    (String, Score),
>)
    ensures
        exists|all: Seq<(String, Score)>|
            scored(s@, list@, string_text(), all) && r@ == all.filter(
                |e: (String, Score)| !e.1.below(threshold),
            ),
{
    let all = fuzzy_search(s, list);
    let ghost keep = |e: (String, Score)| !e.1.below(threshold);
    let mut r: Vec<(String, Score)> = Vec::new();
    let mut i: usize = 0;
    while i < all.len()
        invariant
            i <= all.len(),
            keep == |e: (String, Score)| !e.1.below(threshold),
            r@ == all@.take(i as int).filter(keep),
        decreases all.len() - i,
    {
        proof {
            reveal(Seq::filter);
            assert(all@.take(i + 1).drop_last() =~= all@.take(i as int));
        }
        if !all[i].1.less_than(&threshold) {
            r.push((all[i].0.clone(), all[i].1));
        }
        i += 1;
    }
    assert(all@.take(i as int) =~= all@);
    r
}

/// The `n` best strings of `list`.
pub fn fuzzy_search_best_n(s: &str, list: &[String], n: usize) -> (r: Vec<(String, Score)>)
    ensures
        best(s@, list@, string_text(), n as nat, r@),
{
    let all = fuzzy_search_sorted(s, list);
    proof {
        lemma_ranked_len(s@, list@, string_text(), all@);
    }
    leading(all, n)
}

/// There is one ranked list of the items: two lists that both are the
/// items ranked are the same list.
pub proof fn lemma_ranked_unique<T>(
    query: Seq<char>,
    items: Seq<T>,
    text: spec_fn(T) -> Seq<char>,
    a: Seq<(T, Score)>,
    b: Seq<(T, Score)>,
)
    requires
        ranked(query, items, text, a),
        ranked(query, items, text, b),
    ensures
        a == b,
{
    let x = choose|x: Seq<(T, Score)>| scored(query, items, text, x) && stably_sorted(ByScore, x, a);
    let y = choose|y: Seq<(T, Score)>| scored(query, items, text, y) && stably_sorted(ByScore, y, b);
    assert(x =~= y);
    lemma_stably_sorted_unique(ByScore, x, a, b);
}

/// The best `n` are the first `n` of the ranked list, or all of it where
/// it has fewer: given the ranked list `all` and a list `out` of the best
/// `n`, `out` is that prefix of `all`.
pub proof fn lemma_best_is_prefix_of_ranked<T>(
    query: Seq<char>,
    items: Seq<T>,
    text: spec_fn(T) -> Seq<char>,
    n: nat,
    all: Seq<(T, Score)>,
    out: Seq<(T, Score)>,
)
    requires
        ranked(query, items, text, all),
        best(query, items, text, n, out),
    ensures
        all.len() == items.len(),
        out == all.take(
            if n <= items.len() {
                n as int
            } else {
                items.len() as int
            },
        ),
{
    let other = choose|other: Seq<(T, Score)>|
        ranked(query, items, text, other) && out == other.take(
            if n <= items.len() {
                n as int
            } else {
                items.len() as int
            },
        );
    lemma_ranked_unique(query, items, text, all, other);
}

/// A ranked list has an entry for each item.
pub proof fn lemma_ranked_len<T>(
    query: Seq<char>,
    items: Seq<T>,
    text: spec_fn(T) -> Seq<char>,
    out: Seq<(T, Score)>,
)
    requires
        ranked(query, items, text, out),
    ensures
        out.len() == items.len(),
{
}

/// The text of a track that a query is held against.
#[derive(Debug, Copy, Clone, PartialEq, Eq, Structural)]
pub enum Criterion {
    Title,
    Artist,
    Duration,
}

impl Criterion {
    /// The text of `m` that the criterion picks. The playing time is taken
    /// as it is shown: `mm:ss`.
    pub open spec fn text_of(self, m: Music) -> Seq<char> {
        match self {
            Criterion::Title => m@.title,
            Criterion::Artist => m@.artist,
            Criterion::Duration => rendered_duration(m.length.secs as nat),
        }
    }

    pub open spec fn text(self) -> spec_fn(Music) -> Seq<char> {
        |m: Music| self.text_of(m)
    }

    /// The score of `s` against the text of `m` that the criterion picks.
    pub fn rate(self, s: &str, m: &Music) -> (r: Score)
        ensures
            r.rates(s@, self.text_of(*m)),
            r.matches <= r.total,
    {
        match self {
            Criterion::Title => fuzzy_compare(s, m.title.as_str()),
            Criterion::Artist => fuzzy_compare(s, m.artist.as_str()),
            Criterion::Duration => {
                let shown = render_duration(m.length.as_secs());
                fuzzy_compare_durations(s, shown.as_str())
            },
        }
    }

    /// Each track of `list` with its score.
    pub fn search(self, s: &str, list: &Vec<Music>) -> (r: Vec<(Music, Score)>)
        ensures
            scored(s@, list@, self.text(), r@),
    {
        let mut r: Vec<(Music, Score)> = Vec::new();
        let mut i: usize = 0;
        while i < list.len()
            invariant
                i <= list.len(),
                scored(s@, list@.take(i as int), self.text(), r@),
            decreases list.len() - i,
        {
            let score = self.rate(s, &list[i]);
            r.push((list[i].clone(), score));
            i += 1;
        }
        assert(list@.take(i as int) =~= list@);
        r
    }

    /// The tracks of `list` by falling score.
    pub fn search_sorted(self, s: &str, list: &Vec<Music>) -> (r: Vec<(Music, Score)>)
        ensures
            ranked(s@, list@, self.text(), r@),
            r@.len() == list@.len(),
    {
        let mut r = self.search(s, list);
        stable_sort(&mut r, &ByScore);
        r
    }

    /// The `n` best tracks of `list`.
    pub fn search_best_n(self, s: &str, list: &Vec<Music>, n: usize) -> (r: Vec<(Music, Score)>)
        ensures
            best(s@, list@, self.text(), n as nat, r@),
    {
        let all = self.search_sorted(s, list);
        proof {
            lemma_ranked_len(s@, list@, self.text(), all@);
        }
        leading(all, n)
    }
}

pub fn fuzzy_search_musics_by_title(s: &str, list: &Vec<Music>) -> (r: Vec<(Music, Score)>)
    ensures
        scored(s@, list@, Criterion::Title.text(), r@),
{
    Criterion::Title.search(s, list)
}

pub fn fuzzy_search_music_titles_sorted(s: &str, list: &Vec<Music>) -> (r: Vec<(Music, Score)>)
    ensures
        ranked(s@, list@, Criterion::Title.text(), r@),
        r@.len() == list@.len(),
{
    Criterion::Title.search_sorted(s, list)
}

pub fn fuzzy_search_music_titles_best_n(s: &str, list: &Vec<Music>, n: usize) -> (r: Vec<
    (Music, Score),
>)
    ensures
        best(s@, list@, Criterion::Title.text(), n as nat, r@),
{
    Criterion::Title.search_best_n(s, list, n)
}

pub fn fuzzy_search_music_duration_best_n(s: &str, list: &Vec<Music>, n: usize) -> (r: Vec<
    (Music, Score),
>)
    ensures
        best(s@, list@, Criterion::Duration.text(), n as nat, r@),
{
    Criterion::Duration.search_best_n(s, list, n)
}

pub fn fuzzy_search_music_artist_best_n(s: &str, list: &Vec<Music>, n: usize) -> (r: Vec<
    (Music, Score),
>)
    ensures
        best(s@, list@, Criterion::Artist.text(), n as nat, r@),
{
    Criterion::Artist.search_best_n(s, list, n)
}

} // verus!
