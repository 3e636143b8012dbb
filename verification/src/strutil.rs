//! Character-level string operations, specified over `Seq<char>` views.
use vstd::prelude::*;

verus! {

/// What `str::to_lowercase` returns for a given string: a fixed function
/// of the characters alone.
pub uninterp spec fn lower_of(s: Seq<char>) -> Seq<char>;

/// Relies on `str::to_lowercase`: its result depends on the characters of
/// the input alone, and an empty string stays empty.
#[verifier::external_body]
pub(crate) fn to_lower(s: &str) -> (r: String)
    ensures
        r@ == lower_of(s@),
        s@.len() == 0 ==> r@.len() == 0,
{
    s.to_lowercase()
}

/// `pat` occurs in `s` starting at index `i`.
pub open spec fn match_at(s: Seq<char>, pat: Seq<char>, i: int) -> bool {
    0 <= i && i + pat.len() <= s.len() && s.subrange(i, i + pat.len()) == pat
}

/// `pat` occurs somewhere in `s`.
pub open spec fn contains_seq(s: Seq<char>, pat: Seq<char>) -> bool {
    exists|i: int| match_at(s, pat, i)
}

/// `s` ends with `pat`.
pub open spec fn ends_with_seq(s: Seq<char>, pat: Seq<char>) -> bool {
    pat.len() <= s.len() && s.subrange(s.len() - pat.len(), s.len() as int) == pat
}

/// Character-by-character string equality; two strings are equal exactly
/// when their views are.
pub fn str_eq(a: &str, b: &str) -> (r: bool)
    ensures
        r == (a@ == b@),
{
    let alen = a.unicode_len();
    let blen = b.unicode_len();
    if alen != blen {
        return false;
    }
    let mut i: usize = 0;
    while i < alen
        invariant
            i <= alen,
            alen == a@.len(),
            alen == b@.len(),
            forall|j: int| 0 <= j < i ==> a@[j] == b@[j],
        decreases alen - i,
    {
        if a.get_char(i) != b.get_char(i) {
            return false;
        }
        i += 1;
    }
    proof {
        assert(a@ =~= b@);
    }
    true
}

/// Whether `pat` matches `s` at position `from`.
pub fn match_at_exec(s: &str, pat: &str, from: usize) -> (r: bool)
    requires
        from + pat@.len() <= s@.len(),
    ensures
        r == match_at(s@, pat@, from as int),
{
    let n = s.unicode_len();
    let m = pat.unicode_len();
    let mut j: usize = 0;
    while j < m
        invariant
            j <= m,
            n == s@.len(),
            m == pat@.len(),
            from + m <= n,
            forall|k: int| 0 <= k < j ==> s@[from + k] == pat@[k],
        decreases m - j,
    {
        if s.get_char(from + j) != pat.get_char(j) {
            proof {
                assert(s@.subrange(from as int, from + m) != pat@) by {
                    assert(s@.subrange(from as int, from + m)[j as int] == s@[from + j]);
                }
            }
            return false;
        }
        j += 1;
    }
    proof {
        assert(s@.subrange(from as int, from + m) =~= pat@);
    }
    true
}

/// Substring search; returns whether `pat` occurs anywhere in `s`.
pub fn str_contains(s: &str, pat: &str) -> (r: bool)
    ensures
        r == contains_seq(s@, pat@),
{
    let n = s.unicode_len();
    let m = pat.unicode_len();
    if m > n {
        proof {
            assert(forall|i: int| !match_at(s@, pat@, i));
        }
        return false;
    }
    let bound = n - m;
    let mut i: usize = 0;
    loop
        invariant
            m <= n,
            n == s@.len(),
            m == pat@.len(),
            bound == n - m,
            i <= bound,
            forall|k: int| 0 <= k < i ==> !match_at(s@, pat@, k),
        decreases bound - i,
    {
        if match_at_exec(s, pat, i) {
            return true;
        }
        if i == bound {
            proof {
                assert(forall|k: int| k > bound ==> !match_at(s@, pat@, k));
            }
            return false;
        }
        i += 1;
    }
}

/// Suffix test; returns whether `s` ends with `pat`.
pub fn str_ends_with(s: &str, pat: &str) -> (r: bool)
    ensures
        r == ends_with_seq(s@, pat@),
{
    let n = s.unicode_len();
    let m = pat.unicode_len();
    if m > n {
        return false;
    }
    let r = match_at_exec(s, pat, n - m);
    proof {
        assert(ends_with_seq(s@, pat@) == match_at(s@, pat@, n - m));
    }
    r
}

} // verus!
