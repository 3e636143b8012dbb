//! Finding a target's candidate artifacts in a directory listing and
//! picking the most recently modified one.
use vstd::prelude::*;
use crate::PipelineError;
use crate::strutil::{ends_with_seq, str_ends_with};
use crate::target::Target;

verus! {

/// One entry of a directory listing, as plain values: its filename,
/// whether it is a regular file, and — where its own (non-following)
/// metadata could be read — whether it is a symlink.
pub struct ScanEntry {
    /// The entry's filename, without directory components.
    pub name: String,
    /// The entry is a regular file (following symlinks).
    pub is_file: bool,
    /// The entry's own metadata could be read; entries without it are
    /// silently excluded rather than failing the scan.
    pub meta_known: bool,
    /// The entry itself is a symlink, such as a previous run's
    /// `latest.*` link; symlinks are never candidates.
    pub is_symlink: bool,
}

/// An artifact candidate: a filename and its modification timestamp.
pub struct Artifact {
    /// The artifact's filename, without directory components.
    pub name: String,
    /// The filesystem modification time, as nanoseconds of an epoch;
    /// only its order matters.
    pub mtime: u64,
}

/// A listing entry is a candidate for a suffix: a regular, non-symlink
/// file with readable metadata whose name ends with the suffix.
pub open spec fn is_candidate(e: ScanEntry, suffix: Seq<char>) -> bool {
    e.is_file && e.meta_known && !e.is_symlink && ends_with_seq(e.name@, suffix)
}

/// The names of the candidates among a listing, in listing order.
pub open spec fn candidate_names(entries: Seq<ScanEntry>, suffix: Seq<char>) -> Seq<Seq<char>> {
    entries.filter(|e: ScanEntry| is_candidate(e, suffix)).map_values(|e: ScanEntry| e.name@)
}

impl Target {
    /// Filter a directory listing down to this target's candidate set:
    /// regular non-symlink files whose name ends with the target's
    /// suffix, in listing order.
    pub fn find_files_without_link(&self, entries: &Vec<ScanEntry>) -> (r: Vec<String>)
        ensures
            r.deep_view() == candidate_names(entries@, self.suffix_spec()),
    {
        let suffix = self.suffix();
        let ghost sfx = self.suffix_spec();
        let ghost pred = |e: ScanEntry| is_candidate(e, sfx);
        let mut out: Vec<String> = Vec::new();
        let mut idx: usize = 0;
        while idx < entries.len()
            invariant
                idx <= entries@.len(),
                suffix@ == sfx,
                pred == (|e: ScanEntry| is_candidate(e, sfx)),
                out.deep_view() == candidate_names(entries@.take(idx as int), sfx),
            decreases entries@.len() - idx,
        {
            let e = &entries[idx];
            let ghost pre = entries@.take(idx as int);
            let ghost post = entries@.take(idx + 1);
            proof {
                assert(post.drop_last() =~= pre);
                assert(post.last() == entries@[idx as int]);
            }
            let keep = e.is_file && e.meta_known && !e.is_symlink
                && str_ends_with(e.name.as_str(), suffix);
            if keep {
                let ghost old_deep = out.deep_view();
                out.push(e.name.clone());
                proof {
                    reveal(Seq::filter);
                    assert(pred(post.last()));
                    assert(post.filter(pred) =~= pre.filter(pred).push(post.last()));
                    assert(out.deep_view() =~= candidate_names(post, sfx)) by {
                        assert(out.deep_view() =~= old_deep.push(e.name@));
                        assert(candidate_names(post, sfx) =~= candidate_names(pre, sfx).push(
                            e.name@));
                    }
                }
            } else {
                proof {
                    reveal(Seq::filter);
                    assert(!pred(post.last()));
                    assert(post.filter(pred) =~= pre.filter(pred));
                    assert(candidate_names(post, sfx) =~= candidate_names(pre, sfx));
                }
            }
            idx += 1;
        }
        proof {
            assert(entries@.take(entries@.len() as int) =~= entries@);
        }
        out
    }
}

/// Pick the most recently modified artifact: the first index holding the
/// maximum modification time, so the first seen wins all ties.  An empty
/// candidate set is a hard error for the target.
pub fn get_latest_file(entries: &Vec<Artifact>) -> (r: Result<usize, PipelineError>)
    ensures
        (r is Err) <==> entries@.len() == 0,
        entries@.len() == 0 ==> r == Result::<usize, PipelineError>::Err(PipelineError::EmptyCandidates),
        match r {
            Ok(idx) => {
                &&& 0 <= idx < entries@.len()
                &&& (forall|j: int|
                    0 <= j < entries@.len() ==> entries@[j].mtime <= entries@[idx as int].mtime)
                &&& (forall|j: int| 0 <= j < idx ==> entries@[j].mtime < entries@[idx as int].mtime)
            },
            Err(e) => e is EmptyCandidates,
        },
{
    if entries.len() == 0 {
        return Err(PipelineError::EmptyCandidates);
    }
    let mut best: usize = 0;
    let mut best_time: u64 = entries[0].mtime;
    let mut j: usize = 1;
    while j < entries.len()
        invariant
            0 < entries@.len(),
            best < j,
            1 <= j <= entries@.len(),
            best_time == entries@[best as int].mtime,
            forall|k: int| 0 <= k < j ==> entries@[k].mtime <= best_time,
            forall|k: int| 0 <= k < best ==> entries@[k].mtime < best_time,
        decreases entries@.len() - j,
    {
        let t = entries[j].mtime;
        if t > best_time {
            best = j;
            best_time = t;
        }
        j += 1;
    }
    Ok(best)
}

} // verus!
