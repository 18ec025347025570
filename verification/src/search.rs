//! The per-keystroke fuzzy-filter pipeline.
//!
//! Catalog entries are scored against the query by a fuzzy matcher;
//! entries without a match are excluded and the rest are ordered by
//! descending score, ties broken by ascending title. An empty query keeps
//! the whole catalog in its original order.

use vstd::prelude::*;
use vstd::relations::sorted_by;

use crate::anime::{anime_wf, catalog_wf, clone_animes, Anime, AnimeView};

verus! {

broadcast use vstd::seq_lib::group_to_multiset_ensures;

/// Longest accepted query, in characters.
pub const MAX_QUERY: usize = 80;

/// Whether the search screen is editing the query or choosing a result.
#[derive(Clone, Copy, PartialEq, Eq, Structural, Debug)]
pub enum SearchState {
    Searching,
    Choosing,
}

/// The code point of `c` with an ASCII capital letter lowered.
pub open spec fn ascii_lower(c: char) -> int {
    if 65 <= c as u32 <= 90 {
        c as u32 + 32
    } else {
        c as u32 as int
    }
}

/// Equal up to ASCII case.
pub open spec fn chars_match_nocase(a: char, b: char) -> bool {
    ascii_lower(a) == ascii_lower(b)
}

/// The pattern is an ASCII-case-insensitive subsequence of the choice,
/// matched greedily from the left.
pub open spec fn subsequence_matches(pattern: Seq<char>, choice: Seq<char>) -> bool
    decreases choice.len(),
{
    if pattern.len() == 0 {
        true
    } else if choice.len() == 0 {
        false
    } else if chars_match_nocase(pattern[0], choice[0]) {
        subsequence_matches(pattern.drop_first(), choice.drop_first())
    } else {
        subsequence_matches(pattern, choice.drop_first())
    }
}

/// The score the fuzzy matcher gives a choice against a pattern; a value
/// of the two character sequences alone.
pub uninterp spec fn fuzzy_score_of(choice: Seq<char>, pattern: Seq<char>) -> Option<i64>;

/// Relies on `fuzzy_matcher::clangd::fuzzy_match`: the score depends on
/// the two character sequences alone, and a score exists exactly when the
/// pattern is an ASCII-case-insensitive subsequence of the choice (the
/// matcher's `cheap_matches` precheck, run with case ignored).
#[verifier::external_body]
fn fuzzy_score(choice: &str, pattern: &Vec<char>) -> (r: Option<i64>)
    ensures
        r == fuzzy_score_of(choice@, pattern@),
        r is Some <==> subsequence_matches(pattern@, choice@),
{
    let p: String = pattern.iter().collect();
    fuzzy_matcher::clangd::fuzzy_match(choice, &p)
}

/// The entry's title earns a score against the query.
pub open spec fn matches_query(a: AnimeView, q: Seq<char>) -> bool {
    fuzzy_score_of(a.names[0], q) is Some
}

/// The score of the entry's title against the query.
pub open spec fn score_of(a: AnimeView, q: Seq<char>) -> int {
    fuzzy_score_of(a.names[0], q)->Some_0 as int
}

/// Lexicographic order on character sequences, by code point, with a
/// prefix ordered before its extensions.
pub open spec fn lex_leq(a: Seq<char>, b: Seq<char>) -> bool
    decreases a.len(),
{
    if a.len() == 0 {
        true
    } else if b.len() == 0 {
        false
    } else if (a[0] as u32) < (b[0] as u32) {
        true
    } else if (a[0] as u32) > (b[0] as u32) {
        false
    } else {
        lex_leq(a.drop_first(), b.drop_first())
    }
}

/// Any two character sequences are lexicographically comparable.
pub proof fn lemma_lex_leq_total(a: Seq<char>, b: Seq<char>)
    ensures
        lex_leq(a, b) || lex_leq(b, a),
    decreases a.len(),
{
    if a.len() == 0 || b.len() == 0 {
    } else if a[0] as u32 == b[0] as u32 {
        lemma_lex_leq_total(a.drop_first(), b.drop_first());
    }
}

/// Lexicographic order is transitive.
pub proof fn lemma_lex_leq_trans(a: Seq<char>, b: Seq<char>, c: Seq<char>)
    requires
        lex_leq(a, b),
        lex_leq(b, c),
    ensures
        lex_leq(a, c),
    decreases a.len(),
{
    if a.len() == 0 || b.len() == 0 || c.len() == 0 {
    } else if a[0] as u32 == b[0] as u32 && b[0] as u32 == c[0] as u32 {
        lemma_lex_leq_trans(a.drop_first(), b.drop_first(), c.drop_first());
    }
}

/// Skipping an equal prefix does not change the lexicographic verdict.
proof fn lemma_lex_leq_skip(a: Seq<char>, b: Seq<char>, i: int)
    requires
        0 <= i <= a.len(),
        i <= b.len(),
        forall|j: int| 0 <= j < i ==> a[j] == b[j],
    ensures
        lex_leq(a, b) == lex_leq(a.skip(i), b.skip(i)),
    decreases i,
{
    if i == 0 {
        assert(a.skip(0) =~= a);
        assert(b.skip(0) =~= b);
    } else {
        assert(a.drop_first() =~= a.skip(1));
        assert(b.drop_first() =~= b.skip(1));
        lemma_lex_leq_skip(a.skip(1), b.skip(1), i - 1);
        assert(a.skip(1).skip(i - 1) =~= a.skip(i));
        assert(b.skip(1).skip(i - 1) =~= b.skip(i));
    }
}

/// Whether `a` is lexicographically no later than `b`.
pub fn lex_leq_str(a: &str, b: &str) -> (r: bool)
    ensures
        r == lex_leq(a@, b@),
{
    let al = a.unicode_len();
    let bl = b.unicode_len();
    let mut i: usize = 0;
    while i < al && i < bl
        invariant
            al == a@.len(),
            bl == b@.len(),
            i <= al,
            i <= bl,
            forall|j: int| 0 <= j < i ==> a@[j] == b@[j],
        decreases al - i,
    {
        let ca = a.get_char(i);
        let cb = b.get_char(i);
        if (ca as u32) < (cb as u32) {
            proof {
                lemma_lex_leq_skip(a@, b@, i as int);
                assert(a@.skip(i as int)[0] == a@[i as int]);
                assert(b@.skip(i as int)[0] == b@[i as int]);
            }
            return true;
        }
        if (ca as u32) > (cb as u32) {
            proof {
                lemma_lex_leq_skip(a@, b@, i as int);
                assert(a@.skip(i as int)[0] == a@[i as int]);
                assert(b@.skip(i as int)[0] == b@[i as int]);
            }
            return false;
        }
        proof {
            assert(a@[i as int] as u32 == b@[i as int] as u32);
            assert(a@[i as int] == b@[i as int]);
        }
        i = i + 1;
    }
    proof {
        lemma_lex_leq_skip(a@, b@, i as int);
        if i == al {
            assert(a@.skip(i as int).len() == 0);
        } else {
            assert(b@.skip(i as int).len() == 0);
            assert(a@.skip(i as int).len() > 0);
        }
    }
    i == al
}

/// The ranking the filter sorts by: descending score, ties broken by
/// ascending title.
pub open spec fn rank_leq(q: Seq<char>) -> spec_fn(AnimeView, AnimeView) -> bool {
    |a: AnimeView, b: AnimeView|
        score_of(a, q) > score_of(b, q) || (score_of(a, q) == score_of(b, q) && lex_leq(
            a.names[0],
            b.names[0],
        ))
}

/// Any two entries are comparable under the ranking.
pub proof fn lemma_rank_total(q: Seq<char>, a: AnimeView, b: AnimeView)
    ensures
        rank_leq(q)(a, b) || rank_leq(q)(b, a),
{
    lemma_lex_leq_total(a.names[0], b.names[0]);
}

/// The ranking is transitive.
pub proof fn lemma_rank_trans(q: Seq<char>, a: AnimeView, b: AnimeView, c: AnimeView)
    requires
        rank_leq(q)(a, b),
        rank_leq(q)(b, c),
    ensures
        rank_leq(q)(a, c),
{
    if score_of(a, q) == score_of(b, q) && score_of(b, q) == score_of(c, q) {
        lemma_lex_leq_trans(a.names[0], b.names[0], c.names[0]);
    }
}

/// Whether `a` ranks no later than `b` against the query.
fn rank_leq_exec(a: &Anime, b: &Anime, query: &Vec<char>) -> (r: bool)
    requires
        anime_wf(a@),
        anime_wf(b@),
        matches_query(a@, query@),
        matches_query(b@, query@),
    ensures
        r == rank_leq(query@)(a@, b@),
{
    let sa = match fuzzy_score(a.names[0].as_str(), query) {
        Option::Some(s) => s,
        Option::None => 0,  // unreachable: the entry matches
    };
    let sb = match fuzzy_score(b.names[0].as_str(), query) {
        Option::Some(s) => s,
        Option::None => 0,  // unreachable: the entry matches
    };
    if sa > sb {
        true
    } else if sa < sb {
        false
    } else {
        lex_leq_str(a.names[0].as_str(), b.names[0].as_str())
    }
}

/// Every entry is well formed and earns a score against the query.
pub open spec fn all_match(s: Seq<AnimeView>, q: Seq<char>) -> bool {
    forall|i: int| 0 <= i < s.len() ==> matches_query(#[trigger] s[i], q)
}

/// Sorts matching entries by the ranking, keeping exactly the same
/// entries.
fn sort_by_rank(v: Vec<Anime>, query: &Vec<char>) -> (r: Vec<Anime>)
    requires
        catalog_wf(v.deep_view()),
        all_match(v.deep_view(), query@),
    ensures
        r.deep_view().to_multiset() == v.deep_view().to_multiset(),
        sorted_by(r.deep_view(), rank_leq(query@)),
        catalog_wf(r.deep_view()),
        all_match(r.deep_view(), query@),
{
    let ghost order = rank_leq(query@);
    let mut r: Vec<Anime> = Vec::new();
    let mut i: usize = 0;
    while i < v.len()
        invariant
            i <= v@.len(),
            catalog_wf(v.deep_view()),
            all_match(v.deep_view(), query@),
            order == rank_leq(query@),
            r.deep_view().to_multiset() == v.deep_view().take(i as int).to_multiset(),
            sorted_by(r.deep_view(), order),
            catalog_wf(r.deep_view()),
            all_match(r.deep_view(), query@),
        decreases v@.len() - i,
    {
        let x = v[i].clone();
        proof {
            assert(x@ == v.deep_view()[i as int]);
            assert forall|k: int| 0 <= k < r@.len() implies anime_wf(#[trigger] r@[k]@)
                && matches_query(r@[k]@, query@) by {
                assert(r.deep_view()[k] == r@[k]@);
            }
        }
        let mut j: usize = 0;
        while j < r.len() && rank_leq_exec(&r[j], &x, query)
            invariant
                j <= r@.len(),
                forall|k: int| 0 <= k < r@.len() ==> anime_wf(#[trigger] r@[k]@) && matches_query(
                    r@[k]@,
                    query@,
                ),
                anime_wf(x@),
                matches_query(x@, query@),
                order == rank_leq(query@),
                forall|k: int| 0 <= k < j ==> order(#[trigger] r@[k]@, x@),
            decreases r@.len() - j,
        {
            j = j + 1;
        }
        proof {
            assert forall|k: int| 0 <= k < j implies order(#[trigger] r.deep_view()[k], x@) by {
                assert(r.deep_view()[k] == r@[k]@);
            }
            if j < r.len() {
                assert(r.deep_view()[j as int] == r@[j as int]@);
            }
            // every entry at or after the insertion point ranks after `x`
            if j < r.deep_view().len() {
                lemma_rank_total(query@, r.deep_view()[j as int], x@);
                assert forall|k: int| j <= k < r.deep_view().len() implies order(
                    x@,
                    r.deep_view()[k],
                ) by {
                    if k > j {
                        assert(order(r.deep_view()[j as int], r.deep_view()[k]));
                        lemma_rank_trans(query@, x@, r.deep_view()[j as int], r.deep_view()[k]);
                    }
                }
            }
        }
        let ghost before = r.deep_view();
        r.insert(j, x);
        proof {
            assert(r.deep_view() =~= before.insert(j as int, x@));
            assert(r@[j as int] == x);
            // sortedness of the extended sequence, pair by pair
            assert forall|k1: int, k2: int| 0 <= k1 < k2 < r.deep_view().len() implies order(
                r.deep_view()[k1],
                r.deep_view()[k2],
            ) by {
                let s = r.deep_view();
                if k2 < j {
                    assert(s[k1] == before[k1] && s[k2] == before[k2]);
                } else if k1 > j {
                    assert(s[k1] == before[k1 - 1] && s[k2] == before[k2 - 1]);
                } else if k1 == j {
                    assert(s[k1] == x@ && s[k2] == before[k2 - 1]);
                } else if k2 == j {
                    assert(s[k1] == before[k1] && s[k2] == x@);
                } else {
                    // k1 < j < k2
                    assert(s[k1] == before[k1] && s[k2] == before[k2 - 1]);
                    assert(order(before[k1], x@));
                    assert(order(x@, before[k2 - 1]));
                    lemma_rank_trans(query@, before[k1], x@, before[k2 - 1]);
                }
            }
            // the processed prefix grew by exactly `x`
            assert(v.deep_view().take(i + 1) =~= v.deep_view().take(i as int).push(x@));
            assert(before.insert(j as int, x@).to_multiset() == before.to_multiset().insert(x@));
            assert(v.deep_view().take(i as int).push(x@).to_multiset() == v.deep_view().take(
                i as int,
            ).to_multiset().insert(x@));
            assert(r.deep_view().to_multiset() == v.deep_view().take(i + 1).to_multiset());
        }
        i = i + 1;
    }
    proof {
        assert(v.deep_view().take(v.deep_view().len() as int) =~= v.deep_view());
    }
    r
}

/// What ranking a catalog against a query returns: an empty query keeps
/// the whole catalog in its original order; a non-empty query keeps
/// exactly the matching entries, ordered by descending score, ties broken
/// by ascending title.
pub open spec fn filter_post(catalog: Seq<AnimeView>, q: Seq<char>, r: Seq<AnimeView>) -> bool {
    &&& (q.len() == 0 ==> r == catalog)
    &&& (q.len() > 0 ==> r.to_multiset() == catalog.filter(
        |a: AnimeView| matches_query(a, q),
    ).to_multiset())
    &&& (q.len() > 0 ==> sorted_by(r, rank_leq(q)))
    &&& catalog_wf(r)
}

/// Ranks the catalog against a query.
///
/// An empty query returns the whole catalog in its original order. A
/// non-empty query keeps exactly the entries whose title the fuzzy
/// matcher accepts, ordered by descending score, ties broken by ascending
/// title.
pub fn filter_animes(catalog: &Vec<Anime>, query: &Vec<char>) -> (r: Vec<Anime>)
    requires
        catalog_wf(catalog.deep_view()),
    ensures
        filter_post(catalog.deep_view(), query@, r.deep_view()),
{
    if query.len() == 0 {
        return clone_animes(catalog);
    }
    let ghost pred = |a: AnimeView| matches_query(a, query@);
    let mut matched: Vec<Anime> = Vec::new();
    let mut i: usize = 0;
    while i < catalog.len()
        invariant
            i <= catalog@.len(),
            catalog_wf(catalog.deep_view()),
            pred == (|a: AnimeView| matches_query(a, query@)),
            matched.deep_view() =~= catalog.deep_view().take(i as int).filter(pred),
            catalog_wf(matched.deep_view()),
            all_match(matched.deep_view(), query@),
        decreases catalog@.len() - i,
    {
        let ghost prefix = catalog.deep_view().take(i as int);
        let ghost extended = catalog.deep_view().take(i + 1);
        proof {
            assert(extended.drop_last() =~= prefix);
            assert(extended.last() == catalog.deep_view()[i as int]);
            reveal_with_fuel(Seq::filter, 2);
        }
        let ghost before = matched.deep_view();
        if fuzzy_score(catalog[i].names[0].as_str(), query).is_some() {
            matched.push(catalog[i].clone());
            proof {
                assert(matched.deep_view() =~= before.push(catalog.deep_view()[i as int]));
            }
        }
        i = i + 1;
    }
    proof {
        assert(catalog.deep_view().take(catalog.deep_view().len() as int) =~= catalog.deep_view());
    }
    sort_by_rank(matched, query)
}

} // verus!
