//! Deriving a numeric version from an artifact filename: the first run of
//! consecutive decimal digits, read as an unsigned integer.
use vstd::prelude::*;

verus! {

/// `c` is a decimal digit.
pub open spec fn is_digit(c: char) -> bool {
    '0' as int <= c as int && c as int <= '9' as int
}

/// The numeric value of a digit.
pub open spec fn digit_val(c: char) -> int {
    c as int - '0' as int
}

/// The value of a string of decimal digits, most significant first.
pub open spec fn digits_val(s: Seq<char>) -> int
    decreases s.len(),
{
    if s.len() == 0 {
        0
    } else {
        digits_val(s.drop_last()) * 10 + digit_val(s.last())
    }
}

/// `s` holds no decimal digit at all.
pub open spec fn no_digits(s: Seq<char>) -> bool {
    forall|k: int| 0 <= k < s.len() ==> !is_digit(s[k])
}

/// `s[i..j]` is the first maximal digit run of `s`: nonempty, all digits,
/// nothing but non-digits before it, and not extendable to the right.
pub open spec fn is_first_digit_run(s: Seq<char>, i: int, j: int) -> bool {
    &&& 0 <= i < j <= s.len()
    &&& (forall|k: int| 0 <= k < i ==> !is_digit(s[k]))
    &&& (forall|k: int| i <= k < j ==> is_digit(s[k]))
    &&& (j == s.len() || !is_digit(s[j]))
}

/// A digit run that cannot be extended to the right, and has only
/// non-digits before its start, is the first maximal run.
proof fn lemma_grow_digit_run(s: Seq<char>, i: int, j: int)
    requires
        0 <= i < j <= s.len(),
        forall|k: int| 0 <= k < i ==> !is_digit(s[k]),
        forall|k: int| i <= k < j ==> is_digit(s[k]),
    ensures
        exists|i2: int, j2: int| is_first_digit_run(s, i2, j2),
    decreases s.len() - j,
{
    if j == s.len() || !is_digit(s[j]) {
        assert(is_first_digit_run(s, i, j));
    } else {
        lemma_grow_digit_run(s, i, j + 1);
    }
}

/// Walking left from any digit reaches one with no digit before it.
proof fn lemma_leftmost_digit(s: Seq<char>, k: int)
    requires
        0 <= k < s.len(),
        is_digit(s[k]),
    ensures
        exists|i2: int, j2: int| is_first_digit_run(s, i2, j2),
    decreases k,
{
    if forall|t: int| 0 <= t < k ==> !is_digit(s[t]) {
        lemma_grow_digit_run(s, k, k + 1);
    } else {
        let t = choose|t: int| 0 <= t < k && is_digit(s[t]);
        lemma_leftmost_digit(s, t);
    }
}

/// Every string with a digit has a first maximal digit run, so the
/// clauses of `extract_version` characterize its result on every
/// input: the run exists exactly when the scan does not ask for
/// interactive input.
pub proof fn lemma_first_digit_run_exists(s: Seq<char>)
    requires
        !no_digits(s),
    ensures
        exists|i: int, j: int| is_first_digit_run(s, i, j),
{
    let k = choose|k: int| 0 <= k < s.len() && is_digit(s[k]);
    lemma_leftmost_digit(s, k);
}

/// What scanning a filename for a version yields.
#[derive(Clone, Copy, Debug, PartialEq, Eq, Structural)]
pub enum VersionScan {
    /// The name holds no digit at all; the version must be asked for.
    NoDigits,
    /// The first digit run, parsed.
    Found(u32),
    /// The first digit run does not fit an unsigned 32-bit integer.
    TooLarge,
}

/// `c` is a decimal digit (executable form).
pub fn is_digit_char(c: char) -> (r: bool)
    ensures
        r == is_digit(c),
{
    let u = c as u32;
    48 <= u && u <= 57
}

/// The value of a digit string never shrinks as more digits follow.
proof fn lemma_digits_val_grows(s: Seq<char>, k: int, j: int)
    requires
        0 <= k <= j <= s.len(),
        forall|t: int| 0 <= t < s.len() ==> is_digit(s[t]),
    ensures
        digits_val(s.subrange(0, j)) >= digits_val(s.subrange(0, k)),
        digits_val(s.subrange(0, k)) >= 0,
    decreases j - k,
{
    if k == j {
        lemma_digits_val_nonneg(s.subrange(0, k));
    } else {
        lemma_digits_val_grows(s, k, j - 1);
        let prev = s.subrange(0, j - 1);
        let cur = s.subrange(0, j);
        assert(cur.drop_last() =~= prev);
        lemma_digits_val_nonneg(prev);
        assert(digit_val(cur.last()) >= 0);
    }
}

/// A digit string's value is never negative.
proof fn lemma_digits_val_nonneg(s: Seq<char>)
    requires
        forall|t: int| 0 <= t < s.len() ==> is_digit(s[t]),
    ensures
        digits_val(s) >= 0,
    decreases s.len(),
{
    if s.len() > 0 {
        lemma_digits_val_nonneg(s.drop_last());
    }
}

/// Parse a full string of digits into a `u32`, watching for overflow.
/// Returns `None` exactly when the value exceeds `u32::MAX`.
fn parse_digit_run(s: &str, i: usize, j: usize) -> (r: Option<u32>)
    requires
        0 <= i < j <= s@.len(),
        forall|k: int| i <= k < j ==> is_digit(s@[k]),
    ensures
        match r {
            Some(v) => digits_val(s@.subrange(i as int, j as int)) == v as int,
            None => digits_val(s@.subrange(i as int, j as int)) > u32::MAX as int,
        },
{
    let ghost run = s@.subrange(i as int, j as int);
    let mut val: u64 = 0;
    let mut k: usize = i;
    while k < j
        invariant
            i <= k <= j <= s@.len(),
            forall|t: int| i <= t < j ==> is_digit(s@[t]),
            run == s@.subrange(i as int, j as int),
            val as int == digits_val(run.subrange(0, k - i)),
            val <= u32::MAX,
        decreases j - k,
    {
        let c = s.get_char(k);
        proof {
            assert(run[k - i] == s@[k as int]);
            assert(is_digit(run[k - i]));
        }
        let d: u64 = (c as u32 - 48) as u64;
        let next: u64 = val * 10 + d;
        proof {
            let pre = run.subrange(0, k - i);
            let post = run.subrange(0, k + 1 - i);
            assert(post.drop_last() =~= pre);
            assert(post.last() == run[k - i]);
            assert(digits_val(post) == digits_val(pre) * 10 + digit_val(run[k - i]));
        }
        if next > u32::MAX as u64 {
            proof {
                assert(forall|t: int| 0 <= t < run.len() ==> is_digit(run[t]));
                lemma_digits_val_grows(run, k + 1 - i, run.len() as int);
                assert(run.subrange(0, run.len() as int) =~= run);
            }
            return None;
        }
        val = next;
        k += 1;
    }
    proof {
        assert(run.subrange(0, (j - i) as int) =~= run);
    }
    Some(val as u32)
}

/// Scan a filename for its version: the first maximal run of decimal
/// digits, parsed as an unsigned integer.  `NoDigits` asks the caller to
/// fall back to interactive input; `TooLarge` is fatal for the target.
pub fn extract_version(name: &str) -> (r: VersionScan)
    ensures
        (r is NoDigits) <==> no_digits(name@),
        forall|i: int, j: int|
            is_first_digit_run(name@, i, j) ==> r == (
            if digits_val(name@.subrange(i, j)) <= u32::MAX as int {
                VersionScan::Found(digits_val(name@.subrange(i, j)) as u32)
            } else {
                VersionScan::TooLarge
            }),
{
    let n = name.unicode_len();
    let mut i: usize = 0;
    while i < n && !is_digit_char(name.get_char(i))
        invariant
            i <= n,
            n == name@.len(),
            forall|k: int| 0 <= k < i ==> !is_digit(name@[k]),
        decreases n - i,
    {
        i += 1;
    }
    if i == n {
        return VersionScan::NoDigits;
    }
    let mut j: usize = i + 1;
    while j < n && is_digit_char(name.get_char(j))
        invariant
            i < j <= n,
            n == name@.len(),
            is_digit(name@[i as int]),
            forall|k: int| i <= k < j ==> is_digit(name@[k]),
        decreases n - j,
    {
        j += 1;
    }
    proof {
        assert(is_first_digit_run(name@, i as int, j as int));
        assert(!no_digits(name@));
        assert forall|i2: int, j2: int| is_first_digit_run(name@, i2, j2)
            implies i2 == i as int && j2 == j as int by {
            if i2 < i {
                assert(is_digit(name@[i2]));
            } else if i2 > i {
                assert(!is_digit(name@[i as int]));
            }
            if j2 < j {
                assert(!is_digit(name@[j2]));
            } else if j2 > j {
                assert(is_digit(name@[j as int]));
            }
        }
    }
    match parse_digit_run(name, i, j) {
        Some(v) => VersionScan::Found(v),
        None => VersionScan::TooLarge,
    }
}

/// `s` is a plain digit string whose value fits a `u32`: the accepted
/// form of an interactively supplied version.
pub open spec fn valid_version_str(s: Seq<char>) -> bool {
    s.len() > 0 && (forall|k: int| 0 <= k < s.len() ==> is_digit(s[k]))
        && digits_val(s) <= u32::MAX as int
}

/// Parse an interactively supplied version string: all decimal digits,
/// nonempty, fitting a `u32`; anything else is rejected.
pub fn parse_version_input(s: &str) -> (r: Option<u32>)
    ensures
        match r {
            Some(v) => valid_version_str(s@) && v as int == digits_val(s@),
            None => !valid_version_str(s@),
        },
{
    let n = s.unicode_len();
    if n == 0 {
        return None;
    }
    let mut k: usize = 0;
    while k < n
        invariant
            k <= n,
            n == s@.len(),
            forall|t: int| 0 <= t < k ==> is_digit(s@[t]),
        decreases n - k,
    {
        if !is_digit_char(s.get_char(k)) {
            return None;
        }
        k += 1;
    }
    let r = parse_digit_run(s, 0, n);
    proof {
        assert(s@.subrange(0, n as int) =~= s@);
    }
    r
}

} // verus!
