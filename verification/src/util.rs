//! Path helpers.
use vstd::prelude::*;
use crate::strutil::str_eq;

verus! {

/// The leaf name of a directory path: everything after the last `/`,
/// or the whole string when it holds none.
pub open spec fn leaf_of(s: Seq<char>) -> Seq<char>
    decreases s.len(),
{
    if s.len() == 0 {
        s
    } else if s.last() == '/' {
        Seq::empty()
    } else {
        leaf_of(s.drop_last()).push(s.last())
    }
}

/// A run of non-`/` characters that reaches the end of `s` and starts
/// right after a `/` (or at the start) is exactly the leaf name.
proof fn lemma_leaf_chars(s: Seq<char>, i: int)
    requires
        0 <= i <= s.len(),
        forall|k: int| i <= k < s.len() ==> s[k] != '/',
        i == 0 || s[i - 1] == '/',
    ensures
        leaf_of(s) == s.subrange(i, s.len() as int),
    decreases s.len() - i,
{
    if i == s.len() {
        if i > 0 {
            assert(s.last() == '/');
        }
        assert(s.subrange(i, s.len() as int) =~= Seq::empty());
    } else {
        assert(s.last() != '/');
        lemma_leaf_chars(s.drop_last(), i);
        assert(s.subrange(i, s.len() as int) =~= s.drop_last().subrange(
            i,
            s.drop_last().len() as int,
        ).push(s.last()));
    }
}

/// The leaf name of the working directory, used as the path component
/// of published URLs.  For `.` the leaf cannot be read off the string:
/// the caller must resolve the process's current directory itself and
/// is handed `None`.
pub fn get_dir_name(dir: &str) -> (r: Option<String>)
    ensures
        dir@ == "."@ ==> r is None,
        dir@ != "."@ ==> (r matches Some(s) && s@ == leaf_of(dir@)),
{
    if str_eq(dir, ".") {
        return None;
    }
    let n = dir.unicode_len();
    let mut i: usize = n;
    while i > 0 && dir.get_char(i - 1) != '/'
        invariant
            i <= n,
            n == dir@.len(),
            forall|k: int| i <= k < n ==> dir@[k] != '/',
        decreases i,
    {
        i -= 1;
    }
    let leaf = dir.substring_char(i, n);
    proof {
        lemma_leaf_chars(dir@, i as int);
        assert(leaf@ == leaf_of(dir@));
    }
    Some(leaf.to_owned())
}

} // verus!
