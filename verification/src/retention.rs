//! Retiring superseded artifacts: every candidate other than the chosen
//! latest one, deleted only after explicit confirmation.
use vstd::prelude::*;
use crate::scan::Artifact;
use crate::strutil::str_eq;
use crate::target::Target;

verus! {

/// The names of the candidates that retention would delete: every
/// candidate whose name differs from the latest artifact's, in order.
pub open spec fn removal_names(entries: Seq<Artifact>, latest_name: Seq<char>) -> Seq<Seq<char>> {
    entries.filter(|a: Artifact| a.name@ != latest_name).map_values(|a: Artifact| a.name@)
}

/// What the retention step decides before any file is touched.
pub enum RetentionPlan {
    /// The removal feature flag is off: report and do nothing.
    Skipped,
    /// At most one candidate exists: nothing to remove, no prompt.
    NothingToRemove,
    /// Removal wants confirmation (defaulting to no); on acceptance the
    /// `doomed` files are deleted, each deletion independent.
    Confirm { count: usize, doomed: Vec<String> },
}

impl Target {
    /// Decide the retention step: skipped when the flag is off, a no-op
    /// when only one candidate exists, otherwise the exact set of files
    /// to delete after confirmation — every candidate whose name differs
    /// from the latest artifact's.
    pub fn rm_old_files(&self, entries: &Vec<Artifact>, latest: &Artifact, rm: bool) -> (r:
        RetentionPlan)
        ensures
            (r is Skipped) <==> !rm,
            rm ==> ((r is NothingToRemove) <==> entries@.len() <= 1),
            rm && entries@.len() > 1 ==> (r matches RetentionPlan::Confirm { count, doomed }
                && doomed.deep_view() == removal_names(entries@, latest.name@)
                && count == doomed@.len()),
    {
        if !rm {
            return RetentionPlan::Skipped;
        }
        if entries.len() <= 1 {
            return RetentionPlan::NothingToRemove;
        }
        let ghost lname = latest.name@;
        let ghost pred = |a: Artifact| a.name@ != lname;
        let mut doomed: Vec<String> = Vec::new();
        let mut idx: usize = 0;
        while idx < entries.len()
            invariant
                idx <= entries@.len(),
                lname == latest.name@,
                pred == (|a: Artifact| a.name@ != lname),
                doomed.deep_view() == removal_names(entries@.take(idx as int), lname),
            decreases entries@.len() - idx,
        {
            let a = &entries[idx];
            let ghost pre = entries@.take(idx as int);
            let ghost post = entries@.take(idx + 1);
            proof {
                reveal(Seq::filter);
                assert(post.drop_last() =~= pre);
                assert(post.last() == entries@[idx as int]);
            }
            if !str_eq(a.name.as_str(), latest.name.as_str()) {
                let ghost old_deep = doomed.deep_view();
                doomed.push(a.name.clone());
                proof {
                    assert(pred(post.last()));
                    assert(post.filter(pred) =~= pre.filter(pred).push(post.last()));
                    assert(doomed.deep_view() =~= removal_names(post, lname)) by {
                        assert(doomed.deep_view() =~= old_deep.push(a.name@));
                        assert(removal_names(post, lname) =~= removal_names(pre, lname).push(
                            a.name@));
                    }
                }
            } else {
                proof {
                    assert(!pred(post.last()));
                    assert(post.filter(pred) =~= pre.filter(pred));
                    assert(removal_names(post, lname) =~= removal_names(pre, lname));
                }
            }
            idx += 1;
        }
        proof {
            assert(entries@.take(entries@.len() as int) =~= entries@);
        }
        let count = doomed.len();
        RetentionPlan::Confirm { count, doomed }
    }
}

/// Where no candidate bears the latest name, retention would delete all
/// of them.
proof fn lemma_removal_keeps_none(entries: Seq<Artifact>, latest_name: Seq<char>)
    requires
        forall|i: int| 0 <= i < entries.len() ==> entries[i].name@ != latest_name,
    ensures
        removal_names(entries, latest_name).len() == entries.len(),
    decreases entries.len(),
{
    reveal(Seq::filter);
    if entries.len() > 0 {
        lemma_removal_keeps_none(entries.drop_last(), latest_name);
    }
}

/// With more than one candidate, pairwise-distinct names, and the latest
/// artifact among them, exactly all but one candidate are deleted: the
/// doomed set has one fewer member than the candidate set.
pub proof fn lemma_removal_count(entries: Seq<Artifact>, latest_name: Seq<char>)
    requires
        entries.len() >= 1,
        exists|i: int| 0 <= i < entries.len() && entries[i].name@ == latest_name,
        forall|i: int, j: int|
            0 <= i < entries.len() && 0 <= j < entries.len() && i != j ==> entries[i].name@
                != entries[j].name@,
    ensures
        removal_names(entries, latest_name).len() == entries.len() - 1,
    decreases entries.len(),
{
    reveal(Seq::filter);
    let rest = entries.drop_last();
    if entries.last().name@ == latest_name {
        assert forall|i: int| 0 <= i < rest.len() implies rest[i].name@ != latest_name by {
            assert(entries[i].name@ != entries[entries.len() - 1].name@);
        }
        lemma_removal_keeps_none(rest, latest_name);
    } else {
        let i = choose|i: int| 0 <= i < entries.len() && entries[i].name@ == latest_name;
        assert(0 <= i < rest.len());
        assert(rest[i].name@ == latest_name);
        lemma_removal_count(rest, latest_name);
    }
}

} // verus!
