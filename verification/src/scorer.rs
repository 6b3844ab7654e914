//! The fuzzy scorer: from an item collection and a query to the ordered
//! sequence of matching indices. Items whose name does not match the query
//! are dropped; the rest are ordered by descending match score, and equal
//! scores keep the original collection order. An empty query short-circuits
//! to the identity ordering.

use vstd::prelude::*;

use crate::item::Item;

verus! {

/// What `SkimMatcherV2::fuzzy_match` (default configuration) returns for a
/// name and a query: `None` when the query does not match the name, else
/// the match score. The score itself is left unnamed beyond this: it is a
/// deterministic function of the two strings.
pub uninterp spec fn fuzzy_score_of(name: Seq<char>, query: Seq<char>) -> Option<i64>;

/// Relies on fuzzy_matcher's `SkimMatcherV2::fuzzy_match` with the default
/// configuration: its result depends on the two strings alone (its caches
/// are per-thread scratch space, cleared on every call).
#[verifier::external_body]
fn fuzzy_match_score(name: &str, query: &str) -> (r: Option<i64>)
    ensures
        r == fuzzy_score_of(name@, query@),
{
    let matcher = fuzzy_matcher::skim::SkimMatcherV2::default();
    fuzzy_matcher::FuzzyMatcher::fuzzy_match(&matcher, name, query)
}

/// Whether the scorer keeps item `i`: its name matches the query.
pub open spec fn matches_at(items: Seq<Item>, query: Seq<char>, i: int) -> bool {
    fuzzy_score_of(items[i].name@, query) is Some
}

/// The match score of item `i` (meaningful only when `matches_at` holds).
pub open spec fn score_at(items: Seq<Item>, query: Seq<char>, i: int) -> i64 {
    fuzzy_score_of(items[i].name@, query)->0
}

/// Item `a` is ranked strictly before item `b`: a higher score, or an equal
/// score and an earlier position in the collection.
pub open spec fn ranks_before(items: Seq<Item>, query: Seq<char>, a: int, b: int) -> bool {
    score_at(items, query, a) > score_at(items, query, b)
    || (score_at(items, query, a) == score_at(items, query, b) && a < b)
}

/// `v` inserted into `s` right before the first element that `v` is ranked
/// before.
pub open spec fn insert_ranked(
    items: Seq<Item>,
    query: Seq<char>,
    s: Seq<usize>,
    v: usize,
) -> Seq<usize>
    decreases s.len(),
{
    if s.len() == 0 {
        seq![v]
    } else if ranks_before(items, query, v as int, s[0] as int) {
        seq![v] + s
    } else {
        seq![s[0]] + insert_ranked(items, query, s.drop_first(), v)
    }
}

/// The ranked result over the first `n` items: each matching index in turn
/// inserted at its rank.
pub open spec fn ranked_prefix(items: Seq<Item>, query: Seq<char>, n: int) -> Seq<usize>
    decreases n,
{
    if n <= 0 {
        Seq::empty()
    } else {
        let rest = ranked_prefix(items, query, n - 1);
        if matches_at(items, query, n - 1) {
            insert_ranked(items, query, rest, (n - 1) as usize)
        } else {
            rest
        }
    }
}

/// The identity index sequence `0, 1, ..., n-1`.
pub open spec fn identity_indices(n: int) -> Seq<usize> {
    Seq::new(n as nat, |i: int| i as usize)
}

/// What filtering returns: the identity ordering for the empty query, else
/// the matching indices ordered by descending score with ties in collection
/// order.
pub open spec fn spec_filter(items: Seq<Item>, query: Seq<char>) -> Seq<usize> {
    if query.len() == 0 {
        identity_indices(items.len() as int)
    } else {
        ranked_prefix(items, query, items.len() as int)
    }
}

/// Every element is a position inside a collection of `n` items.
pub open spec fn valid_indices(s: Seq<usize>, n: int) -> bool {
    forall|k: int| 0 <= k < s.len() ==> (s[k] as int) < n
}

/// No index occurs twice.
pub open spec fn distinct_indices(s: Seq<usize>) -> bool {
    forall|k1: int, k2: int| 0 <= k1 < k2 < s.len() ==> s[k1] != s[k2]
}

/// The sequence is strictly ordered by rank: descending score, ties in
/// collection order.
pub open spec fn ranked(items: Seq<Item>, query: Seq<char>, s: Seq<usize>) -> bool {
    forall|k1: int, k2: int|
        0 <= k1 < k2 < s.len() ==> ranks_before(items, query, s[k1] as int, s[k2] as int)
}

/// The identity index vector `0, 1, ..., n-1`.
fn identity_up_to(n: usize) -> (r: Vec<usize>)
    ensures
        r@ == identity_indices(n as int),
{
    let mut r: Vec<usize> = Vec::new();
    let mut i: usize = 0;
    while i < n
        invariant
            i <= n,
            r@.len() == i as int,
            forall|k: int| 0 <= k < i as int ==> r@[k] == k as usize,
        decreases n - i,
    {
        r.push(i);
        i = i + 1;
    }
    proof {
        assert(r@ =~= identity_indices(n as int));
    }
    r
}

/// Where `v` lands in `s`: inserting before the first strictly lower score
/// realizes the ranked order, provided every element of `s` stands earlier
/// in the collection than `v`.
proof fn lemma_insert_ranked_at(
    items: Seq<Item>,
    query: Seq<char>,
    s: Seq<usize>,
    v: usize,
    p: int,
)
    requires
        0 <= p <= s.len(),
        forall|k: int| 0 <= k < s.len() ==> (s[k] as int) < v as int,
        forall|k: int|
            0 <= k < p ==> score_at(items, query, s[k] as int) >= score_at(
                items,
                query,
                v as int,
            ),
        p < s.len() ==> score_at(items, query, s[p] as int) < score_at(items, query, v as int),
    ensures
        insert_ranked(items, query, s, v) == s.insert(p, v),
    decreases p + s.len(),
{
    if p == 0 {
        if s.len() == 0 {
            assert(insert_ranked(items, query, s, v) =~= s.insert(0, v));
        } else {
            assert(ranks_before(items, query, v as int, s[0] as int));
            assert(seq![v] + s =~= s.insert(0, v));
        }
    } else {
        assert(!ranks_before(items, query, v as int, s[0] as int));
        lemma_insert_ranked_at(items, query, s.drop_first(), v, p - 1);
        assert(seq![s[0]] + s.drop_first().insert(p - 1, v) =~= s.insert(p, v));
    }
}

/// Two distinct positions always compare under the rank order, one way or
/// the other.
proof fn lemma_ranks_total(items: Seq<Item>, query: Seq<char>, a: int, b: int)
    requires
        a != b,
    ensures
        ranks_before(items, query, a, b) || ranks_before(items, query, b, a),
{
}

/// Inserting `v` adds exactly `v` to the contents of `s`.
proof fn lemma_insert_ranked_contains(items: Seq<Item>, query: Seq<char>, s: Seq<usize>, v: usize)
    ensures
        insert_ranked(items, query, s, v).len() == s.len() + 1,
        forall|x: usize|
            #[trigger] insert_ranked(items, query, s, v).contains(x) <==> (s.contains(x) || x
                == v),
    decreases s.len(),
{
    let r = insert_ranked(items, query, s, v);
    if s.len() == 0 {
        assert forall|x: usize| r.contains(x) <==> (s.contains(x) || x == v) by {
            assert(r[0] == v);
        }
    } else if ranks_before(items, query, v as int, s[0] as int) {
        assert forall|x: usize| r.contains(x) <==> (s.contains(x) || x == v) by {
            assert(r[0] == v);
            if s.contains(x) {
                let j = choose|j: int| 0 <= j < s.len() && s[j] == x;
                assert(r[j + 1] == x);
            }
            if r.contains(x) && x != v {
                let j = choose|j: int| 0 <= j < r.len() && r[j] == x;
                assert(s[j - 1] == x);
            }
        }
    } else {
        let tail = s.drop_first();
        lemma_insert_ranked_contains(items, query, tail, v);
        let rt = insert_ranked(items, query, tail, v);
        assert forall|x: usize| r.contains(x) <==> (s.contains(x) || x == v) by {
            assert(r[0] == s[0]);
            if s.contains(x) {
                let j = choose|j: int| 0 <= j < s.len() && s[j] == x;
                if j == 0 {
                    assert(r[0] == x);
                } else {
                    assert(tail[j - 1] == x);
                    assert(tail.contains(x));
                    assert(rt.contains(x));
                    let j2 = choose|j2: int| 0 <= j2 < rt.len() && rt[j2] == x;
                    assert(r[j2 + 1] == x);
                }
            }
            if x == v {
                assert(rt.contains(x));
                let j2 = choose|j2: int| 0 <= j2 < rt.len() && rt[j2] == x;
                assert(r[j2 + 1] == x);
            }
            if r.contains(x) && x != v {
                let j = choose|j: int| 0 <= j < r.len() && r[j] == x;
                if j == 0 {
                    assert(s[0] == x);
                } else {
                    assert(rt[j - 1] == x);
                    assert(rt.contains(x));
                    assert(tail.contains(x));
                    let j2 = choose|j2: int| 0 <= j2 < tail.len() && tail[j2] == x;
                    assert(s[j2 + 1] == x);
                    assert(s.contains(x));
                }
            }
        }
    }
}

/// Inserting a fresh `v` into a rank-ordered sequence keeps it rank-ordered.
proof fn lemma_insert_ranked_sorted(items: Seq<Item>, query: Seq<char>, s: Seq<usize>, v: usize)
    requires
        ranked(items, query, s),
        forall|k: int| 0 <= k < s.len() ==> s[k] != v,
    ensures
        ranked(items, query, insert_ranked(items, query, s, v)),
    decreases s.len(),
{
    let r = insert_ranked(items, query, s, v);
    if s.len() == 0 {
    } else if ranks_before(items, query, v as int, s[0] as int) {
        assert forall|k1: int, k2: int| 0 <= k1 < k2 < r.len() implies ranks_before(
            items,
            query,
            r[k1] as int,
            r[k2] as int,
        ) by {
            if k1 == 0 {
                if k2 > 1 {
                    assert(ranks_before(items, query, s[0] as int, s[k2 - 1] as int));
                }
            } else {
                assert(ranks_before(items, query, s[k1 - 1] as int, s[k2 - 1] as int));
            }
        }
    } else {
        let tail = s.drop_first();
        let rt = insert_ranked(items, query, tail, v);
        assert forall|k: int| 0 <= k < tail.len() implies ranks_before(
            items,
            query,
            s[0] as int,
            tail[k] as int,
        ) by {
            assert(tail[k] == s[k + 1]);
        }
        lemma_insert_ranked_sorted(items, query, tail, v);
        lemma_insert_ranked_contains(items, query, tail, v);
        lemma_ranks_total(items, query, s[0] as int, v as int);
        assert forall|k1: int, k2: int| 0 <= k1 < k2 < r.len() implies ranks_before(
            items,
            query,
            r[k1] as int,
            r[k2] as int,
        ) by {
            if k1 == 0 {
                let x = r[k2];
                assert(rt[k2 - 1] == x);
                assert(rt.contains(x));
                if tail.contains(x) {
                    let j = choose|j: int| 0 <= j < tail.len() && tail[j] == x;
                    assert(ranks_before(items, query, s[0] as int, tail[j] as int));
                } else {
                    assert(x == v);
                }
            } else {
                assert(ranks_before(items, query, rt[k1 - 1] as int, rt[k2 - 1] as int));
            }
        }
    }
}

/// The ranked result over the first `n` items is rank-ordered and holds
/// exactly the matching positions below `n`.
proof fn lemma_ranked_prefix_props(items: Seq<Item>, query: Seq<char>, n: int)
    requires
        0 <= n <= usize::MAX,
    ensures
        ranked(items, query, ranked_prefix(items, query, n)),
        forall|x: usize|
            #[trigger] ranked_prefix(items, query, n).contains(x) <==> ((x as int) < n
                && matches_at(items, query, x as int)),
    decreases n,
{
    if n > 0 {
        lemma_ranked_prefix_props(items, query, n - 1);
        let rest = ranked_prefix(items, query, n - 1);
        if matches_at(items, query, n - 1) {
            let v = (n - 1) as usize;
            assert(v as int == n - 1);
            assert forall|k: int| 0 <= k < rest.len() implies rest[k] != v by {
                assert(rest.contains(rest[k]));
            }
            lemma_insert_ranked_sorted(items, query, rest, v);
            lemma_insert_ranked_contains(items, query, rest, v);
        }
    }
}

/// A rank-ordered sequence holds no index twice: the rank order is strict.
proof fn lemma_ranked_distinct(items: Seq<Item>, query: Seq<char>, s: Seq<usize>)
    requires
        ranked(items, query, s),
    ensures
        distinct_indices(s),
{
    assert forall|k1: int, k2: int| 0 <= k1 < k2 < s.len() implies s[k1] != s[k2] by {
        assert(ranks_before(items, query, s[k1] as int, s[k2] as int));
    }
}

/// Soundness of the filter result, for every collection and every query:
/// each index lies inside the collection and none occurs twice; for a
/// non-empty query exactly the matching items are kept, ordered by
/// non-increasing match score with ties in collection order; the empty
/// query keeps the identity ordering.
pub proof fn lemma_filter_sound(items: Seq<Item>, query: Seq<char>)
    requires
        items.len() <= usize::MAX,
    ensures
        valid_indices(spec_filter(items, query), items.len() as int),
        distinct_indices(spec_filter(items, query)),
        query.len() > 0 ==> ranked(items, query, spec_filter(items, query)),
        query.len() > 0 ==> forall|k1: int, k2: int|
            0 <= k1 <= k2 < spec_filter(items, query).len() ==> score_at(
                items,
                query,
                spec_filter(items, query)[k1] as int,
            ) >= score_at(items, query, spec_filter(items, query)[k2] as int),
        query.len() > 0 ==> forall|x: usize|
            #[trigger] spec_filter(items, query).contains(x) <==> ((x as int) < items.len()
                && matches_at(items, query, x as int)),
        query.len() == 0 ==> spec_filter(items, query) == identity_indices(items.len() as int),
{
    let r = spec_filter(items, query);
    if query.len() == 0 {
        let n = items.len() as int;
        assert forall|k: int| 0 <= k < r.len() implies (r[k] as int) < items.len() by {
            assert(identity_indices(n)[k] == k as usize);
        }
        assert forall|k1: int, k2: int| 0 <= k1 < k2 < r.len() implies r[k1] != r[k2] by {
            assert(identity_indices(n)[k1] == k1 as usize);
            assert(identity_indices(n)[k2] == k2 as usize);
        }
    } else {
        assert(r == ranked_prefix(items, query, items.len() as int));
        lemma_ranked_prefix_props(items, query, items.len() as int);
        lemma_ranked_distinct(items, query, r);
        assert forall|k: int| 0 <= k < r.len() implies (r[k] as int) < items.len() by {
            assert(r.contains(r[k]));
            assert((r[k] as int) < items.len() && matches_at(items, query, r[k] as int));
        }
        assert forall|k1: int, k2: int| 0 <= k1 <= k2 < r.len() implies score_at(
            items,
            query,
            r[k1] as int,
        ) >= score_at(items, query, r[k2] as int) by {
            if k1 < k2 {
                assert(ranks_before(items, query, r[k1] as int, r[k2] as int));
            }
        }
    }
}

/// Filter `items` against `query`: the indices of the matching items,
/// ordered by descending match score, ties in collection order; the whole
/// collection in its original order when the query is empty.
pub fn filter_sync(items: &Vec<Item>, query: &str) -> (r: Vec<usize>)
    ensures
        r@ == spec_filter(items@, query@),
        items@.len() <= usize::MAX,
{
    let n = items.len();
    if query.is_empty() {
        return identity_up_to(n);
    }
    let mut result: Vec<usize> = Vec::new();
    let mut scores: Vec<i64> = Vec::new();
    let mut i: usize = 0;
    while i < n
        invariant
            i <= n,
            n == items@.len(),
            scores@.len() == result@.len(),
            result@ == ranked_prefix(items@, query@, i as int),
            forall|k: int| 0 <= k < result@.len() ==> (result@[k] as int) < i as int,
            forall|k: int|
                0 <= k < result@.len() ==> scores@[k] == score_at(
                    items@,
                    query@,
                    result@[k] as int,
                ),
        decreases n - i,
    {
        let sc_opt = fuzzy_match_score(items[i].name.as_str(), query);
        match sc_opt {
            Some(sc) => {
                let mut p: usize = 0;
                while p < result.len() && scores[p] >= sc
                    invariant
                        p <= result@.len(),
                        scores@.len() == result@.len(),
                        i < n,
                        n == items@.len(),
                        sc == score_at(items@, query@, i as int),
                        forall|k: int| 0 <= k < result@.len() ==> (result@[k] as int) < i as int,
                        forall|k: int|
                            0 <= k < result@.len() ==> scores@[k] == score_at(
                                items@,
                                query@,
                                result@[k] as int,
                            ),
                        forall|k: int| 0 <= k < p as int ==> scores@[k] >= sc,
                    decreases result@.len() - p,
                {
                    p = p + 1;
                }
                proof {
                    assert forall|k: int| 0 <= k < p as int implies score_at(
                        items@,
                        query@,
                        result@[k] as int,
                    ) >= score_at(items@, query@, i as int) by {
                        assert(scores@[k] >= sc);
                        assert(scores@[k] == score_at(items@, query@, result@[k] as int));
                    }
                    lemma_insert_ranked_at(items@, query@, result@, i, p as int);
                    assert(matches_at(items@, query@, i as int));
                }
                let ghost prev_result = result@;
                let ghost prev_scores = scores@;
                result.insert(p, i);
                scores.insert(p, sc);
                proof {
                    prev_result.insert_ensures(p as int, i);
                    prev_scores.insert_ensures(p as int, sc);
                    assert(result@ == ranked_prefix(items@, query@, i as int + 1));
                    assert forall|k: int| 0 <= k < result@.len() implies scores@[k] == score_at(
                        items@,
                        query@,
                        result@[k] as int,
                    ) by {
                        if k < p as int {
                            assert(result@[k] == prev_result[k]);
                            assert(scores@[k] == prev_scores[k]);
                        } else if k > p as int {
                            assert(result@[k] == prev_result[k - 1]);
                            assert(scores@[k] == prev_scores[k - 1]);
                        }
                    }
                }
            },
            None => {
                proof {
                    assert(result@ == ranked_prefix(items@, query@, i as int + 1));
                }
            },
        }
        i = i + 1;
    }
    result
}

} // verus!
