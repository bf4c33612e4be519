//! The fuzzy filter engine: scores a candidate's search text against a query
//! and pins down the relevance order of the matching candidates.
//!
//! The score itself comes from the `nucleo_matcher` crate and is only named
//! here ([`score_of`]); everything about the order built from the scores is
//! specified and proved.

use vstd::prelude::*;

verus! {

/// What `nucleo_matcher` gives a (query, text) pair: `None` where the text
/// does not match the query, a relevance score where it does. The score is a
/// pure function of the two strings under the crate's default configuration
/// and case-insensitive parsing.
pub uninterp spec fn score_of(q: Seq<char>, t: Seq<char>) -> Option<u32>;

/// The text matches the query under the fuzzy rule.
pub open spec fn matches_query(q: Seq<char>, t: Seq<char>) -> bool {
    score_of(q, t) is Some
}

/// A text the scorer accepts: its match functions assert that the haystack
/// holds at most `u32::MAX` codepoints and panic beyond that.
pub open spec fn scorable(t: Seq<char>) -> bool {
    t.len() <= u32::MAX
}

/// Relies on `nucleo_matcher::pattern::Pattern::parse` (case-insensitive,
/// smart normalization) and `Pattern::score` under `Config::DEFAULT`: the
/// returned score depends on the two strings alone. The crate's match
/// functions refuse haystacks of more than `u32::MAX` codepoints, so the text
/// must stay under that machine limit.
#[verifier::external_body]
pub fn score_query(query: &str, text: &str) -> (r: Option<u32>)
    requires
        scorable(text@),
    ensures
        r == score_of(query@, text@),
{
    let pattern = nucleo_matcher::pattern::Pattern::parse(
        query,
        nucleo_matcher::pattern::CaseMatching::Ignore,
        nucleo_matcher::pattern::Normalization::Smart,
    );
    let mut matcher = nucleo_matcher::Matcher::new(nucleo_matcher::Config::DEFAULT);
    let mut buf = Vec::new();
    pattern.score(nucleo_matcher::Utf32Str::new(text, &mut buf), &mut matcher)
}

/// The candidate at `a` ranks strictly before the candidate at `b`: higher
/// score first, ties by original position.
pub open spec fn pair_lt(a: (usize, u32), b: (usize, u32)) -> bool {
    a.1 > b.1 || (a.1 == b.1 && a.0 < b.0)
}

/// Strictly sorted by [`pair_lt`].
pub open spec fn ranked(s: Seq<(usize, u32)>) -> bool {
    forall|a: int, b: int| 0 <= a < b < s.len() ==> pair_lt(#[trigger] s[a], #[trigger] s[b])
}

/// Every recorded position is under `n`.
pub open spec fn bounded(s: Seq<(usize, u32)>, n: int) -> bool {
    forall|k: int| 0 <= k < s.len() ==> (#[trigger] s[k]).0 < n
}

/// `x` inserted into `s` just before the first entry it outranks by score; on
/// score ties the existing entries stay first.
pub open spec fn ordered_insert(s: Seq<(usize, u32)>, x: (usize, u32)) -> Seq<(usize, u32)>
    decreases s.len(),
{
    if s.len() == 0 {
        seq![x]
    } else if x.1 > s[0].1 {
        seq![x] + s
    } else {
        seq![s[0]] + ordered_insert(s.drop_first(), x)
    }
}

/// The entries of an insertion are the old entries plus the new one.
pub proof fn lemma_ordered_insert_membership(s: Seq<(usize, u32)>, x: (usize, u32), y: (usize, u32))
    ensures
        ordered_insert(s, x).contains(y) <==> (s.contains(y) || y == x),
    decreases s.len(),
{
    let r = ordered_insert(s, x);
    if s.len() == 0 {
        assert(r =~= seq![x]);
        assert(r.contains(y) <==> r[0] == y);
    } else if x.1 > s[0].1 {
        assert(r == seq![x] + s);
        assert(r.contains(y) <==> (y == x || s.contains(y))) by {
            if r.contains(y) {
                let k = choose|k: int| 0 <= k < r.len() && r[k] == y;
                if k > 0 {
                    assert(s[k - 1] == y);
                }
            }
            if s.contains(y) {
                let k = choose|k: int| 0 <= k < s.len() && s[k] == y;
                assert(r[k + 1] == y);
            }
            if y == x {
                assert(r[0] == y);
            }
        }
    } else {
        lemma_ordered_insert_membership(s.drop_first(), x, y);
        let rest = ordered_insert(s.drop_first(), x);
        assert(r == seq![s[0]] + rest);
        assert(r.contains(y) <==> (y == s[0] || rest.contains(y))) by {
            if r.contains(y) {
                let k = choose|k: int| 0 <= k < r.len() && r[k] == y;
                if k > 0 {
                    assert(rest[k - 1] == y);
                }
            }
            if rest.contains(y) {
                let k = choose|k: int| 0 <= k < rest.len() && rest[k] == y;
                assert(r[k + 1] == y);
            }
        }
        assert(s.contains(y) <==> (y == s[0] || s.drop_first().contains(y))) by {
            if s.contains(y) {
                let k = choose|k: int| 0 <= k < s.len() && s[k] == y;
                if k > 0 {
                    assert(s.drop_first()[k - 1] == y);
                }
            }
            if s.drop_first().contains(y) {
                let k = choose|k: int| 0 <= k < s.drop_first().len() && s.drop_first()[k] == y;
                assert(s[k + 1] == y);
            }
        }
    }
}

/// Inserting an entry whose position is above all recorded ones keeps the
/// ranking strict.
pub proof fn lemma_ordered_insert_ranked(s: Seq<(usize, u32)>, x: (usize, u32))
    requires
        ranked(s),
        bounded(s, x.0 as int),
    ensures
        ranked(ordered_insert(s, x)),
        bounded(ordered_insert(s, x), x.0 as int + 1),
    decreases s.len(),
{
    let r = ordered_insert(s, x);
    if s.len() == 0 {
        assert(r =~= seq![x]);
    } else if x.1 > s[0].1 {
        assert(r == seq![x] + s);
        assert forall|a: int, b: int| 0 <= a < b < r.len() implies pair_lt(r[a], r[b]) by {
            if a == 0 {
                assert(r[b] == s[b - 1]);
                if b - 1 > 0 {
                    assert(pair_lt(s[0], s[b - 1]));
                }
                assert(x.1 > s[b - 1].1);
            } else {
                assert(r[a] == s[a - 1] && r[b] == s[b - 1]);
            }
        }
        assert(bounded(r, x.0 as int + 1)) by {
            assert forall|k: int| 0 <= k < r.len() implies (#[trigger] r[k]).0 < x.0 as int
                + 1 by {
                if k > 0 {
                    assert(r[k] == s[k - 1]);
                }
            }
        }
    } else {
        assert(ranked(s.drop_first())) by {
            assert forall|a: int, b: int|
                0 <= a < b < s.drop_first().len() implies pair_lt(
                #[trigger] s.drop_first()[a],
                #[trigger] s.drop_first()[b],
            ) by {
                assert(s.drop_first()[a] == s[a + 1] && s.drop_first()[b] == s[b + 1]);
            }
        }
        assert(bounded(s.drop_first(), x.0 as int)) by {
            assert forall|k: int|
                0 <= k < s.drop_first().len() implies (#[trigger] s.drop_first()[k]).0
                < x.0 as int by {
                assert(s.drop_first()[k] == s[k + 1]);
            }
        }
        lemma_ordered_insert_ranked(s.drop_first(), x);
        let rest = ordered_insert(s.drop_first(), x);
        assert(r == seq![s[0]] + rest);
        assert(pair_lt(s[0], x)) by {
            assert(s[0].0 < x.0);
        }
        assert forall|a: int, b: int| 0 <= a < b < r.len() implies pair_lt(r[a], r[b]) by {
            if a == 0 {
                assert(r[b] == rest[b - 1]);
                assert(rest.contains(rest[b - 1]));
                lemma_ordered_insert_membership(s.drop_first(), x, rest[b - 1]);
                if rest[b - 1] == x {
                    assert(pair_lt(s[0], x));
                } else {
                    let k = choose|k: int|
                        0 <= k < s.drop_first().len() && s.drop_first()[k] == rest[b - 1];
                    assert(s[k + 1] == rest[b - 1]);
                    assert(pair_lt(s[0], s[k + 1]));
                }
            } else {
                assert(r[a] == rest[a - 1] && r[b] == rest[b - 1]);
            }
        }
        assert(bounded(r, x.0 as int + 1)) by {
            assert forall|k: int| 0 <= k < r.len() implies (#[trigger] r[k]).0 < x.0 as int
                + 1 by {
                if k > 0 {
                    assert(r[k] == rest[k - 1]);
                }
            }
        }
    }
}

/// Where the first insertion point is known, the recursive insertion is one
/// sequence insertion.
pub proof fn lemma_ordered_insert_at(s: Seq<(usize, u32)>, x: (usize, u32), pos: int)
    requires
        0 <= pos <= s.len(),
        forall|k: int| 0 <= k < pos ==> !(x.1 > (#[trigger] s[k]).1),
        pos < s.len() ==> x.1 > s[pos as int].1,
    ensures
        ordered_insert(s, x) == s.insert(pos, x),
    decreases s.len(),
{
    if pos == 0 {
        if s.len() == 0 {
            assert(ordered_insert(s, x) =~= s.insert(0, x));
        } else {
            assert(x.1 > s[0].1);
            assert(seq![x] + s =~= s.insert(0, x));
        }
    } else {
        assert(!(x.1 > s[0].1));
        assert(forall|k: int|
            0 <= k < pos - 1 ==> !(x.1 > (#[trigger] s.drop_first()[k]).1)) by {
            assert(forall|k: int|
                0 <= k < s.drop_first().len() ==> #[trigger] s.drop_first()[k] == s[k + 1]);
        }
        assert(pos - 1 < s.drop_first().len() ==> x.1 > s.drop_first()[pos - 1].1) by {
            if pos - 1 < s.drop_first().len() {
                assert(s.drop_first()[pos - 1] == s[pos as int]);
            }
        }
        lemma_ordered_insert_at(s.drop_first(), x, pos - 1);
        assert(seq![s[0]] + s.drop_first().insert(pos - 1, x) =~= s.insert(pos, x));
    }
}

/// The scored, ordered entries of the candidates whose text matches the
/// query: position and score of each matching candidate, highest score first,
/// ties in original order.
pub open spec fn scored_of(texts: Seq<Seq<char>>, q: Seq<char>) -> Seq<(usize, u32)>
    decreases texts.len(),
{
    if texts.len() == 0 {
        Seq::<(usize, u32)>::empty()
    } else {
        let prefix = scored_of(texts.drop_last(), q);
        match score_of(q, texts.last()) {
            Some(sc) => ordered_insert(prefix, ((texts.len() - 1) as usize, sc)),
            None => prefix,
        }
    }
}

/// The scored entries are ranked, their positions lie under the candidate
/// count, and each entry records the score of its candidate.
pub proof fn lemma_scored_of_sound(texts: Seq<Seq<char>>, q: Seq<char>)
    requires
        texts.len() <= usize::MAX,
    ensures
        ranked(scored_of(texts, q)),
        bounded(scored_of(texts, q), texts.len() as int),
        forall|k: int|
            0 <= k < scored_of(texts, q).len() ==> score_of(
                q,
                texts[(#[trigger] scored_of(texts, q)[k]).0 as int],
            ) == Some(scored_of(texts, q)[k].1),
    decreases texts.len(),
{
    if texts.len() > 0 {
        lemma_scored_of_sound(texts.drop_last(), q);
        let prefix = scored_of(texts.drop_last(), q);
        let n = texts.len() - 1;
        assert(forall|k: int|
            0 <= k < texts.drop_last().len() ==> #[trigger] texts.drop_last()[k] == texts[k]);
        match score_of(q, texts.last()) {
            Some(sc) => {
                let x = (n as usize, sc);
                lemma_ordered_insert_ranked(prefix, x);
                let r = ordered_insert(prefix, x);
                assert forall|k: int|
                    0 <= k < r.len() implies score_of(q, texts[(#[trigger] r[k]).0 as int])
                    == Some(r[k].1) by {
                    assert(r.contains(r[k]));
                    lemma_ordered_insert_membership(prefix, x, r[k]);
                    if r[k] == x {
                        assert(texts[x.0 as int] == texts.last());
                    } else {
                        let j = choose|j: int| 0 <= j < prefix.len() && prefix[j] == r[k];
                        assert(score_of(q, texts.drop_last()[prefix[j].0 as int]) == Some(
                            prefix[j].1,
                        ));
                        assert(texts.drop_last()[prefix[j].0 as int] == texts[prefix[j].0 as int]);
                    }
                }
            },
            None => {},
        }
    }
}

/// Every matching candidate is recorded, with its score.
pub proof fn lemma_scored_of_complete(texts: Seq<Seq<char>>, q: Seq<char>, j: int)
    requires
        texts.len() <= usize::MAX,
        0 <= j < texts.len(),
        matches_query(q, texts[j]),
    ensures
        scored_of(texts, q).contains((j as usize, score_of(q, texts[j]).unwrap())),
    decreases texts.len(),
{
    let prefix = scored_of(texts.drop_last(), q);
    let y = (j as usize, score_of(q, texts[j]).unwrap());
    if j == texts.len() - 1 {
        assert(texts.last() == texts[j]);
        let sc = score_of(q, texts.last()).unwrap();
        lemma_ordered_insert_membership(prefix, (j as usize, sc), y);
    } else {
        assert(texts.drop_last()[j] == texts[j]);
        lemma_scored_of_complete(texts.drop_last(), q, j);
        match score_of(q, texts.last()) {
            Some(sc) => {
                lemma_ordered_insert_membership(prefix, ((texts.len() - 1) as usize, sc), y);
            },
            None => {},
        }
    }
}

/// The filtered order of the candidates with these search texts under this
/// query: the identity order for an empty query, else the positions of the
/// matching candidates by descending score, ties in original order.
pub open spec fn filter_order(texts: Seq<Seq<char>>, q: Seq<char>) -> Seq<usize> {
    if q.len() == 0 {
        Seq::new(texts.len(), |i: int| i as usize)
    } else {
        scored_of(texts, q).map_values(|p: (usize, u32)| p.0)
    }
}

/// The candidate at position `i` ranks strictly before the one at `j`: its
/// score is higher, or equal with `i` first in the original order.
pub open spec fn outranks(q: Seq<char>, texts: Seq<Seq<char>>, i: int, j: int) -> bool {
    let si = score_of(q, texts[i]).unwrap();
    let sj = score_of(q, texts[j]).unwrap();
    si > sj || (si == sj && i < j)
}

/// Every position in the order is a valid candidate whose text matches the
/// query.
pub open spec fn order_sound(texts: Seq<Seq<char>>, q: Seq<char>, order: Seq<usize>) -> bool {
    forall|k: int|
        0 <= k < order.len() ==> (#[trigger] order[k]) < texts.len() && matches_query(
            q,
            texts[order[k] as int],
        )
}

/// Every matching candidate's position is in the order: none is dropped.
pub open spec fn order_complete(texts: Seq<Seq<char>>, q: Seq<char>, order: Seq<usize>) -> bool {
    forall|j: int|
        0 <= j < texts.len() && matches_query(q, #[trigger] texts[j]) ==> order.contains(j as usize)
}

/// The order runs by descending score, ties in original order.
pub open spec fn order_ranked(texts: Seq<Seq<char>>, q: Seq<char>, order: Seq<usize>) -> bool {
    forall|a: int, b: int|
        0 <= a < b < order.len() ==> outranks(
            q,
            texts,
            (#[trigger] order[a]) as int,
            (#[trigger] order[b]) as int,
        )
}

/// No position repeats.
pub open spec fn order_distinct(order: Seq<usize>) -> bool {
    forall|a: int, b: int| 0 <= a < b < order.len() ==> #[trigger] order[a] != #[trigger] order[b]
}

/// Every position in the filtered order is a distinct valid candidate whose
/// text matches the query (soundness), every matching candidate's position is
/// in it (completeness), and it is ordered by descending score with ties in
/// original order.
pub proof fn lemma_filter_order_props(texts: Seq<Seq<char>>, q: Seq<char>)
    requires
        texts.len() <= usize::MAX,
        q.len() != 0,
    ensures
        order_sound(texts, q, filter_order(texts, q)),
        order_complete(texts, q, filter_order(texts, q)),
        order_ranked(texts, q, filter_order(texts, q)),
        order_distinct(filter_order(texts, q)),
{
    let s = scored_of(texts, q);
    let order = filter_order(texts, q);
    lemma_scored_of_sound(texts, q);
    assert(order.len() == s.len());
    assert(forall|k: int| 0 <= k < order.len() ==> #[trigger] order[k] == s[k].0);
    assert forall|j: int|
        0 <= j < texts.len() && matches_query(q, #[trigger] texts[j]) implies order.contains(
        j as usize,
    ) by {
        lemma_scored_of_complete(texts, q, j);
        let y = (j as usize, score_of(q, texts[j]).unwrap());
        let k = choose|k: int| 0 <= k < s.len() && s[k] == y;
        assert(order[k] == j as usize);
    }
    assert forall|a: int, b: int| 0 <= a < b < order.len() implies outranks(
        q,
        texts,
        (#[trigger] order[a]) as int,
        (#[trigger] order[b]) as int,
    ) && order[a] != order[b] by {
        assert(pair_lt(s[a], s[b]));
        assert(score_of(q, texts[s[a].0 as int]) == Some(s[a].1));
        assert(score_of(q, texts[s[b].0 as int]) == Some(s[b].1));
    }
}

/// The identity branch: with an empty query the filtered order is `0..n` in
/// place.
pub proof fn lemma_filter_order_identity(texts: Seq<Seq<char>>, q: Seq<char>)
    requires
        q.len() == 0,
    ensures
        filter_order(texts, q).len() == texts.len(),
        forall|k: int| 0 <= k < texts.len() ==> #[trigger] filter_order(texts, q)[k] == k as usize,
{
}

} // verus!
