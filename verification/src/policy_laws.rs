//! Properties of policy resolution: the effective policy is the most
//! restrictive combination of the tenant and user levels.

use vstd::prelude::*;
use crate::mime::{
    is_wildcard, mime_base, lemma_common_allowed_overlap, lemma_narrower_allows, list_allows, mimes_overlap,
    narrower, pattern_allows,
};
use crate::policy::{
    add_unique, covers, effective_allows, find_mime, intersect_all, intersect_row, lemma_find_mime,
    level_allows, merged_meta, merged_mimes, merged_per_mime, min_limit, min_limit_u32, restricted,
    tighten, union_min, wildcard_cap, MetadataLimits,
};

verus! {

/// Membership in one row of the intersection.
proof fn lemma_row_members(acc: Seq<Seq<char>>, a: Seq<char>, us: Seq<Seq<char>>, x: Seq<char>)
    ensures
        intersect_row(acc, a, us).contains(x) == (acc.contains(x) || exists|j: int|
            0 <= j < us.len() && mimes_overlap(a, #[trigger] us[j]) && x == narrower(a, us[j])),
    decreases us.len(),
{
    if us.len() > 0 {
        let d = us.drop_last();
        lemma_row_members(acc, a, d, x);
        let r = intersect_row(acc, a, d);
        let b = us.last();
        if mimes_overlap(a, b) {
            let n = narrower(a, b);
            assert(add_unique(r, n).contains(x) == (r.contains(x) || x == n)) by {
                if !r.contains(n) {
                    if r.push(n).contains(x) && x != n {
                        let k = choose|k: int| 0 <= k < r.push(n).len() && r.push(n)[k] == x;
                        assert(r[k] == x);
                    }
                    if r.contains(x) {
                        let k = choose|k: int| 0 <= k < r.len() && r[k] == x;
                        assert(r.push(n)[k] == x);
                    }
                    if x == n {
                        assert(r.push(n)[r.len() as int] == x);
                    }
                }
            }
        }
        if exists|j: int| 0 <= j < us.len() && mimes_overlap(a, #[trigger] us[j]) && x == narrower(a, us[j]) {
            let j = choose|j: int| 0 <= j < us.len() && mimes_overlap(a, #[trigger] us[j]) && x == narrower(a, us[j]);
            if j < us.len() - 1 {
                assert(d[j] == us[j]);
            }
        }
        if exists|j: int| 0 <= j < d.len() && mimes_overlap(a, #[trigger] d[j]) && x == narrower(a, d[j]) {
            let j = choose|j: int| 0 <= j < d.len() && mimes_overlap(a, #[trigger] d[j]) && x == narrower(a, d[j]);
            assert(us[j] == d[j]);
        }
    }
}

/// Membership in the intersection of two allow-lists: exactly the narrower
/// pattern of each overlapping pair.
pub proof fn lemma_intersect_members(ts: Seq<Seq<char>>, us: Seq<Seq<char>>, x: Seq<char>)
    ensures
        intersect_all(ts, us).contains(x) == exists|i: int, j: int|
            0 <= i < ts.len() && 0 <= j < us.len() && mimes_overlap(#[trigger] ts[i], #[trigger] us[j])
                && x == narrower(ts[i], us[j]),
    decreases ts.len(),
{
    if ts.len() > 0 {
        let d = ts.drop_last();
        lemma_intersect_members(d, us, x);
        lemma_row_members(intersect_all(d, us), ts.last(), us, x);
        if exists|i: int, j: int|
            0 <= i < ts.len() && 0 <= j < us.len() && mimes_overlap(#[trigger] ts[i], #[trigger] us[j])
                && x == narrower(ts[i], us[j]) {
            let (i, j) = choose|i: int, j: int|
                0 <= i < ts.len() && 0 <= j < us.len() && mimes_overlap(#[trigger] ts[i], #[trigger] us[j])
                    && x == narrower(ts[i], us[j]);
            if i < ts.len() - 1 {
                assert(d[i] == ts[i]);
            } else {
                assert(mimes_overlap(ts.last(), us[j]));
            }
        }
        if exists|i: int, j: int|
            0 <= i < d.len() && 0 <= j < us.len() && mimes_overlap(#[trigger] d[i], #[trigger] us[j])
                && x == narrower(d[i], us[j]) {
            let (i, j) = choose|i: int, j: int|
                0 <= i < d.len() && 0 <= j < us.len() && mimes_overlap(#[trigger] d[i], #[trigger] us[j])
                    && x == narrower(d[i], us[j]);
            assert(ts[i] == d[i]);
        }
        if exists|j: int| 0 <= j < us.len() && mimes_overlap(ts.last(), #[trigger] us[j]) && x == narrower(ts.last(), us[j]) {
            let j = choose|j: int| 0 <= j < us.len() && mimes_overlap(ts.last(), #[trigger] us[j]) && x == narrower(ts.last(), us[j]);
            assert(ts[ts.len() - 1] == ts.last());
        }
    }
}

/// The intersection of two allow-lists admits exactly the MIME types that
/// both lists admit.
pub proof fn law_intersection_admits_common(ts: Seq<Seq<char>>, us: Seq<Seq<char>>, m: Seq<char>)
    ensures
        list_allows(intersect_all(ts, us), m) == (list_allows(ts, m) && list_allows(us, m)),
{
    let r = intersect_all(ts, us);
    if list_allows(r, m) {
        let k = choose|k: int| 0 <= k < r.len() && pattern_allows(#[trigger] r[k], m);
        assert(r.contains(r[k]));
        lemma_intersect_members(ts, us, r[k]);
        let (i, j) = choose|i: int, j: int|
            0 <= i < ts.len() && 0 <= j < us.len() && mimes_overlap(#[trigger] ts[i], #[trigger] us[j])
                && r[k] == narrower(ts[i], us[j]);
        lemma_narrower_allows(ts[i], us[j], m);
        assert(pattern_allows(ts[i], m));
        assert(pattern_allows(us[j], m));
    }
    if list_allows(ts, m) && list_allows(us, m) {
        let i = choose|i: int| 0 <= i < ts.len() && pattern_allows(#[trigger] ts[i], m);
        let j = choose|j: int| 0 <= j < us.len() && pattern_allows(#[trigger] us[j], m);
        lemma_common_allowed_overlap(ts[i], us[j], m);
        lemma_narrower_allows(ts[i], us[j], m);
        let x = narrower(ts[i], us[j]);
        lemma_intersect_members(ts, us, x);
        assert(r.contains(x));
        let k = choose|k: int| 0 <= k < r.len() && r[k] == x;
        assert(pattern_allows(r[k], m));
    }
}

/// A MIME type is allowed by the effective policy exactly when every level
/// allows it: an unrestricted level allows everything, a restricted level
/// only what its list admits.
pub proof fn law_effective_mime_most_restrictive(
    t: Option<Seq<Seq<char>>>,
    u: Option<Seq<Seq<char>>>,
    m: Seq<char>,
)
    ensures
        effective_allows(merged_mimes(t, u), m) == (level_allows(t, m) && level_allows(u, m)),
{
    if restricted(t) && restricted(u) {
        law_intersection_admits_common(t->0, u->0, m);
    }
}

/// The effective global size limit is at most every level's limit, exists
/// when some level sets one, and does not depend on which level is which.
pub proof fn law_global_limit_most_restrictive(a: Option<u64>, b: Option<u64>)
    ensures
        (min_limit(a, b) is None) == (a is None && b is None),
        a is Some ==> min_limit(a, b)->0 <= a->0,
        b is Some ==> min_limit(a, b)->0 <= b->0,
        min_limit(a, b) is Some ==> (min_limit(a, b) == a || min_limit(a, b) == b),
        min_limit(a, b) == min_limit(b, a),
{
}

/// Every metadata limit is the most restrictive of the two levels' values.
pub proof fn law_metadata_most_restrictive(t: Option<MetadataLimits>, u: Option<MetadataLimits>)
    ensures
        merged_meta(t, u) == merged_meta(u, t),
        t is Some && t->0.max_pairs is Some ==> merged_meta(t, u).max_pairs->0 <= t->0.max_pairs->0,
        u is Some && u->0.max_pairs is Some ==> merged_meta(t, u).max_pairs->0 <= u->0.max_pairs->0,
        t is Some && t->0.max_key_len is Some ==> merged_meta(t, u).max_key_len->0
            <= t->0.max_key_len->0,
        u is Some && u->0.max_key_len is Some ==> merged_meta(t, u).max_key_len->0
            <= u->0.max_key_len->0,
        t is Some && t->0.max_value_len is Some ==> merged_meta(t, u).max_value_len->0
            <= t->0.max_value_len->0,
        u is Some && u->0.max_value_len is Some ==> merged_meta(t, u).max_value_len->0
            <= u->0.max_value_len->0,
        t is Some && t->0.max_total_bytes is Some ==> merged_meta(t, u).max_total_bytes->0
            <= t->0.max_total_bytes->0,
        u is Some && u->0.max_total_bytes is Some ==> merged_meta(t, u).max_total_bytes->0
            <= u->0.max_total_bytes->0,
{
}

/// With no policy at either level, nothing is restricted.
pub proof fn law_no_policy_is_permissive()
    ensures
        merged_mimes(None, None) is None,
        min_limit(None, None) is None,
        merged_per_mime(Seq::empty(), Seq::empty()).len() == 0,
        merged_meta(None, None) == (MetadataLimits {
            max_pairs: None,
            max_key_len: None,
            max_value_len: None,
            max_total_bytes: None,
        }),
{
}

// ── per-pattern overrides ───────────────────────────────────────────────────

/// `r2` keeps every entry of `r` at its index with the same pattern and a cap
/// no larger.
pub open spec fn keeps_tighter(r: Seq<(Seq<char>, u64)>, r2: Seq<(Seq<char>, u64)>) -> bool {
    &&& r2.len() >= r.len()
    &&& forall|k: int| 0 <= k < r.len() ==> (#[trigger] r2[k]).0 == r[k].0 && r2[k].1 <= r[k].1
}

/// `r` has an entry for pattern `e.0` whose cap is at most `e.1`.
pub open spec fn has_tighter(r: Seq<(Seq<char>, u64)>, e: (Seq<char>, u64)) -> bool {
    exists|k: int| 0 <= k < r.len() && (#[trigger] r[k]).0 == e.0 && r[k].1 <= e.1
}

/// Pattern `m` is the pattern of some entry of either level.
pub open spec fn from_levels(ts: Seq<(Seq<char>, u64)>, us: Seq<(Seq<char>, u64)>, m: Seq<char>) -> bool {
    (exists|i: int| 0 <= i < ts.len() && (#[trigger] ts[i]).0 == m) || (exists|j: int|
        0 <= j < us.len() && (#[trigger] us[j]).0 == m)
}

proof fn lemma_union_dominates(ts: Seq<(Seq<char>, u64)>, us: Seq<(Seq<char>, u64)>)
    ensures
        keeps_tighter(ts, union_min(ts, us)),
        forall|j: int| 0 <= j < us.len() ==> has_tighter(union_min(ts, us), #[trigger] us[j]),
        forall|k: int| 0 <= k < union_min(ts, us).len() ==> from_levels(ts, us, #[trigger] union_min(ts, us)[k].0),
    decreases us.len(),
{
    if us.len() > 0 {
        let d = us.drop_last();
        lemma_union_dominates(ts, d);
        let r = union_min(ts, d);
        let u = us.last();
        let r2 = union_min(ts, us);
        lemma_find_mime(r, u.0);
        let f = find_mime(r, u.0);
        assert(keeps_tighter(r, r2));
        assert forall|j: int| 0 <= j < us.len() implies has_tighter(r2, #[trigger] us[j]) by {
            if j < us.len() - 1 {
                assert(us[j] == d[j]);
                assert(has_tighter(r, d[j]));
                let k = choose|k: int| 0 <= k < r.len() && (#[trigger] r[k]).0 == d[j].0 && r[k].1 <= d[j].1;
                assert(r2[k].0 == us[j].0 && r2[k].1 <= us[j].1);
            } else if f >= 0 {
                assert(r2[f].0 == us[j].0 && r2[f].1 <= us[j].1);
            } else {
                assert(r2[r.len() as int] == us[j]);
            }
        }
        assert forall|k: int| 0 <= k < r2.len() implies from_levels(ts, us, #[trigger] r2[k].0) by {
            if k < r.len() {
                assert(r2[k].0 == r[k].0);
                assert(from_levels(ts, d, r[k].0));
                if exists|j: int| 0 <= j < d.len() && (#[trigger] d[j]).0 == r[k].0 {
                    let j = choose|j: int| 0 <= j < d.len() && (#[trigger] d[j]).0 == r[k].0;
                    assert(us[j] == d[j]);
                }
            } else {
                assert(us[us.len() - 1].0 == r2[k].0);
            }
        }
        assert(keeps_tighter(ts, r2)) by {
            assert forall|k: int| 0 <= k < ts.len() implies (#[trigger] r2[k]).0 == ts[k].0 && r2[k].1
                <= ts[k].1 by {
                assert(r[k].0 == ts[k].0 && r[k].1 <= ts[k].1);
            }
        }
    }
}

proof fn lemma_cap_of_wildcard_is_none(r: Seq<(Seq<char>, u64)>, m: Seq<char>)
    requires
        is_wildcard(m),
    ensures
        wildcard_cap(r, m) is None,
    decreases r.len(),
{
    if r.len() > 0 {
        lemma_cap_of_wildcard_is_none(r.drop_last(), m);
    }
}

proof fn lemma_cap_bounded(r: Seq<(Seq<char>, u64)>, m: Seq<char>, w: int)
    requires
        0 <= w < r.len(),
        covers(r[w].0, m),
    ensures
        wildcard_cap(r, m) is Some,
        wildcard_cap(r, m)->0 <= r[w].1,
    decreases r.len(),
{
    let d = r.drop_last();
    if w < r.len() - 1 {
        assert(d[w] == r[w]);
        lemma_cap_bounded(d, m, w);
    }
}

/// Merged per-pattern overrides are most restrictive per pattern: every
/// level's entry is matched by a result entry for the same pattern with a cap
/// no larger, every result pattern comes from some level, and a specific
/// pattern never exceeds the cap of a wildcard that covers it.
pub proof fn law_per_mime_most_restrictive(ts: Seq<(Seq<char>, u64)>, us: Seq<(Seq<char>, u64)>)
    ensures
        forall|i: int| 0 <= i < ts.len() ==> has_tighter(merged_per_mime(ts, us), #[trigger] ts[i]),
        forall|j: int| 0 <= j < us.len() ==> has_tighter(merged_per_mime(ts, us), #[trigger] us[j]),
        forall|k: int| 0 <= k < merged_per_mime(ts, us).len() ==> from_levels(ts, us, #[trigger] merged_per_mime(ts, us)[k].0),
        forall|k: int, w: int|
            0 <= k < merged_per_mime(ts, us).len() && 0 <= w < merged_per_mime(ts, us).len()
                && covers(#[trigger] merged_per_mime(ts, us)[w].0, #[trigger] merged_per_mime(
                ts,
                us,
            )[k].0) ==> merged_per_mime(ts, us)[k].1 <= merged_per_mime(ts, us)[w].1,
{
    let r = union_min(ts, us);
    let res = merged_per_mime(ts, us);
    lemma_union_dominates(ts, us);
    assert(res == tighten(r));
    assert forall|k: int| 0 <= k < r.len() implies (#[trigger] res[k]).0 == r[k].0 && res[k].1 <= r[k].1 by {}
    assert forall|i: int| 0 <= i < ts.len() implies has_tighter(res, #[trigger] ts[i]) by {
        assert(res[i].0 == ts[i].0 && res[i].1 <= ts[i].1);
    }
    assert forall|j: int| 0 <= j < us.len() implies has_tighter(res, #[trigger] us[j]) by {
        assert(has_tighter(r, us[j]));
        let k = choose|k: int| 0 <= k < r.len() && (#[trigger] r[k]).0 == us[j].0 && r[k].1 <= us[j].1;
        assert(res[k].0 == us[j].0 && res[k].1 <= us[j].1);
    }
    assert forall|k: int| 0 <= k < res.len() implies from_levels(ts, us, #[trigger] res[k].0) by {
        assert(res[k].0 == r[k].0);
        assert(from_levels(ts, us, r[k].0));
    }
    assert forall|k: int, w: int|
        0 <= k < res.len() && 0 <= w < res.len() && covers(#[trigger] res[w].0, #[trigger] res[k].0)
            implies res[k].1 <= res[w].1 by {
        assert(res[w].0 == r[w].0);
        assert(res[k].0 == r[k].0);
        lemma_cap_of_wildcard_is_none(r, r[w].0);
        assert(res[w].1 == r[w].1);
        lemma_cap_bounded(r, r[k].0, w);
    }
}

/// `e` carries the pattern and the cap of some entry of either level.
pub open spec fn cap_from_levels(
    ts: Seq<(Seq<char>, u64)>,
    us: Seq<(Seq<char>, u64)>,
    e: (Seq<char>, u64),
) -> bool {
    (exists|i: int| 0 <= i < ts.len() && (#[trigger] ts[i]).0 == e.0 && ts[i].1 == e.1) || (exists|
        j: int,
    | 0 <= j < us.len() && (#[trigger] us[j]).0 == e.0 && us[j].1 == e.1)
}

proof fn lemma_union_caps_from_levels(ts: Seq<(Seq<char>, u64)>, us: Seq<(Seq<char>, u64)>)
    ensures
        forall|k: int|
            0 <= k < union_min(ts, us).len() ==> cap_from_levels(ts, us, #[trigger] union_min(ts, us)[k]),
    decreases us.len(),
{
    if us.len() > 0 {
        let d = us.drop_last();
        lemma_union_caps_from_levels(ts, d);
        let r = union_min(ts, d);
        let u = us.last();
        let r2 = union_min(ts, us);
        lemma_find_mime(r, u.0);
        let f = find_mime(r, u.0);
        assert forall|k: int| 0 <= k < r2.len() implies cap_from_levels(ts, us, #[trigger] r2[k]) by {
            if k < r.len() && (f < 0 || k != f || r[f].1 <= u.1) {
                assert(r2[k] == r[k]);
                assert(cap_from_levels(ts, d, r[k]));
                if exists|j: int| 0 <= j < d.len() && (#[trigger] d[j]).0 == r[k].0 && d[j].1 == r[k].1 {
                    let j = choose|j: int| 0 <= j < d.len() && (#[trigger] d[j]).0 == r[k].0 && d[j].1
                        == r[k].1;
                    assert(us[j] == d[j]);
                }
            } else {
                assert(r2[k] == u);
                assert(us[us.len() - 1] == u);
            }
        }
    }
}

proof fn lemma_cap_is_a_covering_cap(r: Seq<(Seq<char>, u64)>, m: Seq<char>)
    ensures
        wildcard_cap(r, m) matches Some(c) ==> exists|w: int|
            0 <= w < r.len() && covers(#[trigger] r[w].0, m) && r[w].1 == c,
    decreases r.len(),
{
    if r.len() > 0 {
        let d = r.drop_last();
        lemma_cap_is_a_covering_cap(d, m);
        if let Some(c) = wildcard_cap(d, m) {
            let w = choose|w: int| 0 <= w < d.len() && covers(#[trigger] d[w].0, m) && d[w].1 == c;
            assert(r[w] == d[w]);
        }
        if covers(r.last().0, m) {
            assert(r[r.len() - 1] == r.last());
        }
    }
}

/// Every merged per-pattern cap is a cap one of the levels set for that
/// pattern, lowered only by a `type/*` wildcard of the same type: the
/// result keeps the union's patterns in order, each cap at most the union's,
/// and a cap below the union's is exactly the cap of a wildcard whose type
/// is the pattern's own. A wildcard of another type never lowers a cap.
pub proof fn law_per_mime_only_own_type_tightens(ts: Seq<(Seq<char>, u64)>, us: Seq<(Seq<char>, u64)>)
    ensures
        forall|k: int|
            0 <= k < union_min(ts, us).len() ==> cap_from_levels(ts, us, #[trigger] union_min(ts, us)[k]),
        merged_per_mime(ts, us).len() == union_min(ts, us).len(),
        forall|k: int|
            0 <= k < merged_per_mime(ts, us).len() ==> (#[trigger] merged_per_mime(ts, us)[k]).0
                == union_min(ts, us)[k].0 && merged_per_mime(ts, us)[k].1 <= union_min(ts, us)[k].1,
        forall|k: int|
            0 <= k < merged_per_mime(ts, us).len() && (#[trigger] merged_per_mime(ts, us)[k]).1
                < union_min(ts, us)[k].1 ==> exists|w: int|
                0 <= w < union_min(ts, us).len() && is_wildcard(#[trigger] union_min(ts, us)[w].0)
                    && !is_wildcard(union_min(ts, us)[k].0) && mime_base(union_min(ts, us)[w].0)
                    == mime_base(union_min(ts, us)[k].0) && union_min(ts, us)[w].1 == merged_per_mime(
                    ts,
                    us,
                )[k].1,
{
    lemma_union_caps_from_levels(ts, us);
    let r = union_min(ts, us);
    let res = merged_per_mime(ts, us);
    assert(res == tighten(r));
    assert forall|k: int| 0 <= k < res.len() && (#[trigger] res[k]).1 < r[k].1 implies exists|w: int|
        0 <= w < r.len() && is_wildcard(#[trigger] r[w].0) && !is_wildcard(r[k].0) && mime_base(r[w].0)
            == mime_base(r[k].0) && r[w].1 == res[k].1 by {
        lemma_cap_is_a_covering_cap(r, r[k].0);
        let c = wildcard_cap(r, r[k].0)->0;
        let w = choose|w: int| 0 <= w < r.len() && covers(#[trigger] r[w].0, r[k].0) && r[w].1 == c;
        assert(is_wildcard(r[w].0));
    }
}

} // verus!
