//! MIME type patterns: `type/subtype` strings where the subtype `*` stands for
//! every subtype of the type. Only a well-formed `type/*` is a wildcard; a
//! string without a `/` is an ordinary (exact) pattern.

use vstd::prelude::*;
use vstd::string::*;

verus! {

/// Index of the first `/` in `m`, or `-1` when there is none.
pub open spec fn first_slash(m: Seq<char>) -> int
    decreases m.len(),
{
    if m.len() == 0 {
        -1
    } else if m[0] == '/' {
        0
    } else {
        let k = first_slash(m.drop_first());
        if k < 0 {
            -1
        } else {
            k + 1
        }
    }
}

/// The type part of a MIME string: everything before the first `/`, or the
/// whole string when it holds no `/`.
pub open spec fn mime_base(m: Seq<char>) -> Seq<char> {
    let k = first_slash(m);
    if k < 0 {
        m
    } else {
        m.take(k)
    }
}

/// The subtype part: everything after the first `/`, if there is one.
pub open spec fn mime_sub(m: Seq<char>) -> Option<Seq<char>> {
    let k = first_slash(m);
    if k < 0 {
        None
    } else {
        Some(m.skip(k + 1))
    }
}

/// `type/*`: a pattern that stands for every subtype of its type.
pub open spec fn is_wildcard(m: Seq<char>) -> bool {
    mime_sub(m) == Some(seq!['*'])
}

/// Two patterns admit a common MIME type.
pub open spec fn mimes_overlap(a: Seq<char>, b: Seq<char>) -> bool {
    a == b || (mime_base(a) == mime_base(b) && (is_wildcard(a) || is_wildcard(b)))
}

/// Of two overlapping patterns, the one that admits less: a wildcard gives way
/// to the specific pattern it covers.
pub open spec fn narrower(a: Seq<char>, b: Seq<char>) -> Seq<char> {
    if a == b {
        a
    } else if is_wildcard(a) && mime_base(a) == mime_base(b) {
        b
    } else {
        a
    }
}

/// A single allow-list entry admits a MIME type: exact match, or a
/// `type/*` wildcard over the same type.
pub open spec fn pattern_allows(p: Seq<char>, m: Seq<char>) -> bool {
    p == m || (is_wildcard(p) && mime_base(p) == mime_base(m))
}

/// Some entry of an allow-list admits `m`.
pub open spec fn list_allows(l: Seq<Seq<char>>, m: Seq<char>) -> bool {
    exists|i: int| 0 <= i < l.len() && pattern_allows(#[trigger] l[i], m)
}

/// Characterisation of `first_slash`.
pub proof fn lemma_first_slash(m: Seq<char>)
    ensures
        -1 <= first_slash(m) < m.len(),
        first_slash(m) < 0 ==> forall|j: int| 0 <= j < m.len() ==> m[j] != '/',
        first_slash(m) >= 0 ==> m[first_slash(m)] == '/' && forall|j: int|
            0 <= j < first_slash(m) ==> m[j] != '/',
    decreases m.len(),
{
    if m.len() > 0 && m[0] != '/' {
        lemma_first_slash(m.drop_first());
        assert forall|j: int| 1 <= j < m.len() implies m[j] == m.drop_first()[j - 1] by {}
    }
}

/// The first slash is the unique index that holds a `/` with none before it.
pub proof fn lemma_first_slash_unique(m: Seq<char>, k: int)
    requires
        0 <= k < m.len(),
        m[k] == '/',
        forall|j: int| 0 <= j < k ==> m[j] != '/',
    ensures
        first_slash(m) == k,
{
    lemma_first_slash(m);
    if first_slash(m) < 0 {
        assert(m[k] != '/');
    } else if first_slash(m) < k {
        assert(m[first_slash(m)] != '/');
    } else if first_slash(m) > k {
        assert(m[k] != '/');
    }
}

/// Index of the first `/` of a string.
pub fn find_slash(m: &str) -> (r: Option<usize>)
    ensures
        match r {
            Some(k) => k as int == first_slash(m@),
            None => first_slash(m@) < 0,
        },
{
    let n = m.unicode_len();
    let mut i: usize = 0;
    while i < n
        invariant
            n as int == m@.len(),
            i <= n,
            forall|j: int| 0 <= j < i ==> m@[j] != '/',
        decreases n - i,
    {
        if m.get_char(i) == '/' {
            proof {
                lemma_first_slash_unique(m@, i as int);
            }
            return Some(i);
        }
        i = i + 1;
    }
    proof {
        lemma_first_slash(m@);
        if first_slash(m@) >= 0 {
            assert(m@[first_slash(m@)] != '/');
        }
    }
    None
}

/// Characters `[from, to)` of `a` and of `b` agree.
fn same_chars(a: &str, b: &str, from: usize, to: usize) -> (r: bool)
    requires
        from <= to,
        to <= a@.len(),
        to <= b@.len(),
    ensures
        r == (a@.subrange(from as int, to as int) == b@.subrange(from as int, to as int)),
{
    let mut i = from;
    while i < to
        invariant
            from <= i <= to,
            to <= a@.len(),
            to <= b@.len(),
            forall|j: int| from <= j < i ==> a@[j] == b@[j],
        decreases to - i,
    {
        if a.get_char(i) != b.get_char(i) {
            assert(a@.subrange(from as int, to as int)[i - from] != b@.subrange(
                from as int,
                to as int,
            )[i - from]);
            return false;
        }
        i = i + 1;
    }
    assert(a@.subrange(from as int, to as int) =~= b@.subrange(from as int, to as int));
    true
}

/// Whether two MIME strings have the same type part.
pub fn same_base(a: &str, b: &str) -> (r: bool)
    ensures
        r == (mime_base(a@) == mime_base(b@)),
{
    proof {
        lemma_first_slash(a@);
        lemma_first_slash(b@);
    }
    let la = match find_slash(a) {
        Some(k) => k,
        None => a.unicode_len(),
    };
    let lb = match find_slash(b) {
        Some(k) => k,
        None => b.unicode_len(),
    };
    assert(mime_base(a@) =~= a@.subrange(0, la as int));
    assert(mime_base(b@) =~= b@.subrange(0, lb as int));
    if la != lb {
        return false;
    }
    same_chars(a, b, 0, la)
}

/// Whether a pattern is the wildcard `type/*`.
pub fn is_wildcard_pattern(p: &str) -> (r: bool)
    ensures
        r == is_wildcard(p@),
{
    proof {
        lemma_first_slash(p@);
    }
    match find_slash(p) {
        None => false,
        Some(k) => {
            let n = p.unicode_len();
            if n - k == 2 && p.get_char(k + 1) == '*' {
                assert(p@.skip(k + 1) =~= seq!['*']);
                true
            } else {
                if n - k == 2 {
                    assert(p@.skip(k + 1)[0] != '*');
                } else {
                    assert(p@.skip(k + 1).len() != 1);
                }
                false
            }
        },
    }
}

/// Split a MIME string into its type and, when it has a `/`, its subtype.
pub fn split_mime(mime: &str) -> (r: (&str, Option<&str>))
    ensures
        r.0@ == mime_base(mime@),
        match r.1 {
            Some(sub) => mime_sub(mime@) == Some(sub@),
            None => mime_sub(mime@) is None,
        },
{
    proof {
        lemma_first_slash(mime@);
    }
    let n = mime.unicode_len();
    match find_slash(mime) {
        None => {
            let base = mime.substring_char(0, n);
            assert(base@ =~= mime@);
            (base, None)
        },
        Some(k) => {
            let base = mime.substring_char(0, k);
            let sub = mime.substring_char(k + 1, n);
            assert(base@ =~= mime@.take(k as int));
            assert(sub@ =~= mime@.skip(k + 1));
            (base, Some(sub))
        },
    }
}

/// Whether two patterns admit a common MIME type.
pub fn mime_matches(a: &str, b: &str) -> (r: bool)
    ensures
        r == mimes_overlap(a@, b@),
{
    if crate::text::str_eq(a, b) {
        return true;
    }
    if !same_base(a, b) {
        return false;
    }
    is_wildcard_pattern(a) || is_wildcard_pattern(b)
}

/// Whether a single allow-list entry admits `mime`.
pub fn pattern_admits(pattern: &str, mime: &str) -> (r: bool)
    ensures
        r == pattern_allows(pattern@, mime@),
{
    if crate::text::str_eq(pattern, mime) {
        return true;
    }
    is_wildcard_pattern(pattern) && same_base(pattern, mime)
}

/// The narrower of two overlapping patterns keeps exactly the MIME types that
/// both admit.
pub proof fn lemma_narrower_allows(a: Seq<char>, b: Seq<char>, m: Seq<char>)
    requires
        mimes_overlap(a, b),
    ensures
        pattern_allows(narrower(a, b), m) == (pattern_allows(a, m) && pattern_allows(b, m)),
{
}

/// Two patterns that admit one common MIME type overlap.
pub proof fn lemma_common_allowed_overlap(a: Seq<char>, b: Seq<char>, m: Seq<char>)
    requires
        pattern_allows(a, m),
        pattern_allows(b, m),
    ensures
        mimes_overlap(a, b),
{
    if a != b && !is_wildcard(a) && !is_wildcard(b) {
        assert(a == m && b == m);
    }
}

/// A pattern without a `/` is no wildcard: it admits exactly itself.
pub proof fn law_slashless_pattern_is_exact(p: Seq<char>, m: Seq<char>)
    requires
        first_slash(p) < 0,
    ensures
        !is_wildcard(p),
        pattern_allows(p, m) == (p == m),
{
}

/// A wildcard `type/*` admits exactly the MIME strings of its type.
pub proof fn law_wildcard_admits_its_type(p: Seq<char>, m: Seq<char>)
    requires
        is_wildcard(p),
    ensures
        pattern_allows(p, m) == (mime_base(p) == mime_base(m)),
{
}

} // verus!
