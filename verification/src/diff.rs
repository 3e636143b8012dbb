//! The line-paired diff shown before a manifest write: old and new
//! serializations are split into lines, corresponding lines are paired
//! positionally, and each pair is diffed on its own, printing additions
//! and removals and suppressing unchanged text.
use vstd::prelude::*;
use vstd::string::StringExecFns;
use crate::strutil::str_eq;

verus! {

/// One fine-grained change within a paired line.
pub enum LineChange {
    /// Text present in both lines (not printed).
    Same(String),
    /// Text only in the new line.
    Add(String),
    /// Text only in the old line.
    Rem(String),
}

/// A change as plain values.
pub enum LineChangeView {
    /// Text present in both lines (not printed).
    Same(Seq<char>),
    /// Text only in the new line.
    Add(Seq<char>),
    /// Text only in the old line.
    Rem(Seq<char>),
}

impl DeepView for LineChange {
    type V = LineChangeView;

    open spec fn deep_view(&self) -> LineChangeView {
        match self {
            LineChange::Same(s) => LineChangeView::Same(s@),
            LineChange::Add(s) => LineChangeView::Add(s@),
            LineChange::Rem(s) => LineChangeView::Rem(s@),
        }
    }
}

/// What diffing one pair of newline-free lines yields: the whole line
/// unchanged when the two are equal, else the removal of the nonempty
/// old line followed by the addition of the nonempty new line.
pub open spec fn line_changes_spec(o: Seq<char>, n: Seq<char>) -> Seq<LineChangeView> {
    if o == n {
        if o.len() == 0 {
            Seq::empty()
        } else {
            seq![LineChangeView::Same(o)]
        }
    } else {
        (if o.len() > 0 {
            seq![LineChangeView::Rem(o)]
        } else {
            Seq::<LineChangeView>::empty()
        }) + (if n.len() > 0 {
            seq![LineChangeView::Add(n)]
        } else {
            Seq::<LineChangeView>::empty()
        })
    }
}

/// Relies on `difference::Changeset::new` with the line separator: for
/// two single lines it yields the line as unchanged when both are
/// equal, and otherwise the removal of the old line followed by the
/// addition of the new one, empty sides left out.
#[verifier::external_body]
fn line_diff(old_line: &str, new_line: &str) -> (r: Vec<LineChange>)
    requires
        forall|k: int| 0 <= k < old_line@.len() ==> old_line@[k] != '\n',
        forall|k: int| 0 <= k < new_line@.len() ==> new_line@[k] != '\n',
    ensures
        r.deep_view() == line_changes_spec(old_line@, new_line@),
{
    let cs = difference::Changeset::new(old_line, new_line, "\n");
    let mut out = Vec::new();
    for d in cs.diffs {
        out.push(
            match d {
                difference::Difference::Same(s) => LineChange::Same(s),
                difference::Difference::Add(s) => LineChange::Add(s),
                difference::Difference::Rem(s) => LineChange::Rem(s),
            },
        );
    }
    out
}

/// The printed form of one change: additions and removals prefixed,
/// unchanged text suppressed.
pub open spec fn rendered_change(c: LineChangeView) -> Seq<Seq<char>> {
    match c {
        LineChangeView::Same(_) => Seq::empty(),
        LineChangeView::Add(s) => seq!["+  "@ + s],
        LineChangeView::Rem(s) => seq!["-  "@ + s],
    }
}

/// The printed form of a list of changes, in order.
pub open spec fn rendered_changes(cs: Seq<LineChangeView>) -> Seq<Seq<char>>
    decreases cs.len(),
{
    if cs.len() == 0 {
        Seq::empty()
    } else {
        rendered_changes(cs.drop_last()) + rendered_change(cs.last())
    }
}

/// The printed diff of one line pair.
pub open spec fn diff_pair_lines(o: Seq<char>, n: Seq<char>) -> Seq<Seq<char>> {
    if o == n {
        Seq::empty()
    } else {
        (if o.len() > 0 {
            seq!["-  "@ + o]
        } else {
            Seq::<Seq<char>>::empty()
        }) + (if n.len() > 0 {
            seq!["+  "@ + n]
        } else {
            Seq::<Seq<char>>::empty()
        })
    }
}

/// Rendering the changes of one pair prints exactly that pair's diff.
proof fn lemma_rendered_pair(o: Seq<char>, n: Seq<char>)
    ensures
        rendered_changes(line_changes_spec(o, n)) == diff_pair_lines(o, n),
{
    let cs = line_changes_spec(o, n);
    assert(rendered_changes(Seq::<LineChangeView>::empty()) =~= Seq::<Seq<char>>::empty());
    if cs.len() == 1 {
        assert(cs.drop_last() =~= Seq::<LineChangeView>::empty());
        assert(rendered_changes(cs) =~= rendered_change(cs.last()));
    }
    if cs.len() == 2 {
        let first = cs.drop_last();
        assert(first =~= seq![cs[0]]);
        assert(first.drop_last() =~= Seq::<LineChangeView>::empty());
        assert(rendered_changes(first) =~= rendered_change(cs[0]));
        assert(rendered_changes(cs) =~= rendered_change(cs[0]) + rendered_change(cs[1]));
    }
    assert(rendered_changes(cs) =~= diff_pair_lines(o, n));
}

/// The printed diff of two line lists, paired positionally; unpaired
/// trailing lines (of texts with unequal line counts) are not printed.
pub open spec fn diff_output_from(o: Seq<Seq<char>>, n: Seq<Seq<char>>, i: int) -> Seq<Seq<char>>
    decreases o.len() + n.len() - i,
{
    if 0 <= i < o.len() && i < n.len() {
        diff_pair_lines(o[i], n[i]) + diff_output_from(o, n, i + 1)
    } else {
        Seq::empty()
    }
}

/// The printed diff of two texts' line lists.
pub open spec fn diff_output(o: Seq<Seq<char>>, n: Seq<Seq<char>>) -> Seq<Seq<char>> {
    diff_output_from(o, n, 0)
}

/// Render the changes of one line pair as the printed lines.
fn render_pair(old_line: &str, new_line: &str) -> (r: Vec<String>)
    requires
        forall|k: int| 0 <= k < old_line@.len() ==> old_line@[k] != '\n',
        forall|k: int| 0 <= k < new_line@.len() ==> new_line@[k] != '\n',
    ensures
        r.deep_view() == diff_pair_lines(old_line@, new_line@),
{
    let changes = line_diff(old_line, new_line);
    let mut out: Vec<String> = Vec::new();
    let mut i: usize = 0;
    while i < changes.len()
        invariant
            i <= changes@.len(),
            changes.deep_view() == line_changes_spec(old_line@, new_line@),
            changes.deep_view().len() == changes@.len(),
            out.deep_view() == rendered_changes(changes.deep_view().take(i as int)),
        decreases changes@.len() - i,
    {
        let ghost pre = changes.deep_view().take(i as int);
        let ghost post = changes.deep_view().take(i + 1);
        proof {
            assert(post.drop_last() =~= pre);
            assert(post.last() == changes.deep_view()[i as int]);
        }
        let ghost old_deep = out.deep_view();
        match &changes[i] {
            LineChange::Same(_) => {
                proof {
                    assert(out.deep_view() =~= rendered_changes(post));
                }
            },
            LineChange::Add(s) => {
                let line = "+  ".to_owned();
                let line = line.concat(s.as_str());
                proof {
                    reveal_strlit("+  ");
                }
                out.push(line);
                proof {
                    assert(out.deep_view() =~= old_deep.push("+  "@ + s@));
                    assert(out.deep_view() =~= rendered_changes(post));
                }
            },
            LineChange::Rem(s) => {
                let line = "-  ".to_owned();
                let line = line.concat(s.as_str());
                proof {
                    reveal_strlit("-  ");
                }
                out.push(line);
                proof {
                    assert(out.deep_view() =~= old_deep.push("-  "@ + s@));
                    assert(out.deep_view() =~= rendered_changes(post));
                }
            },
        }
        i += 1;
    }
    proof {
        assert(changes.deep_view().take(changes@.len() as int) =~= changes.deep_view());
        lemma_rendered_pair(old_line@, new_line@);
    }
    out
}

/// The lines of a text, split at `'\n'`: one more line than the text
/// has newlines, so a trailing newline yields a final empty line.
pub open spec fn lines_of(s: Seq<char>) -> Seq<Seq<char>>
    decreases s.len(),
{
    if s.len() == 0 {
        seq![Seq::<char>::empty()]
    } else {
        let rest = lines_of(s.drop_first());
        if s[0] == '\n' {
            seq![Seq::<char>::empty()] + rest
        } else {
            seq![seq![s[0]] + rest[0]] + rest.drop_first()
        }
    }
}

/// A text's first line runs to its first newline (or to the end), and
/// the remaining lines are those of the text after that newline.
proof fn lemma_lines_first_seg(t: Seq<char>, j: int)
    requires
        0 <= j <= t.len(),
        forall|k: int| 0 <= k < j ==> t[k] != '\n',
        j == t.len() || t[j] == '\n',
    ensures
        j == t.len() ==> lines_of(t) == seq![t],
        j < t.len() ==> lines_of(t) == seq![t.subrange(0, j)] + lines_of(
            t.subrange(j + 1, t.len() as int),
        ),
    decreases j,
{
    if j == 0 {
        if t.len() == 0 {
            assert(t =~= Seq::<char>::empty());
            assert(lines_of(t) =~= seq![t]);
        } else if j < t.len() {
            assert(t[0] == '\n');
            assert(t.subrange(0, 0) =~= Seq::<char>::empty());
            assert(t.subrange(1, t.len() as int) =~= t.drop_first());
            assert(lines_of(t) =~= seq![t.subrange(0, 0)] + lines_of(
                t.subrange(1, t.len() as int),
            ));
        }
    } else {
        let df = t.drop_first();
        assert(t[0] != '\n');
        assert forall|k: int| 0 <= k < j - 1 implies df[k] != '\n' by {
            assert(df[k] == t[k + 1]);
        }
        lemma_lines_first_seg(df, j - 1);
        let rest = lines_of(df);
        if j == t.len() {
            assert(rest == seq![df]);
            assert(rest[0] == df);
            assert(seq![t[0]] + df =~= t);
            assert(rest.drop_first() =~= Seq::<Seq<char>>::empty());
            assert(lines_of(t) == seq![seq![t[0]] + rest[0]] + rest.drop_first());
            assert(lines_of(t) =~~= seq![t]);
        } else {
            let tail = lines_of(df.subrange(j, df.len() as int));
            assert(rest == seq![df.subrange(0, j - 1)] + tail);
            assert(rest[0] == df.subrange(0, j - 1));
            assert(seq![t[0]] + df.subrange(0, j - 1) =~= t.subrange(0, j));
            assert(rest.drop_first() =~= tail);
            assert(df.subrange(j, df.len() as int) =~= t.subrange(j + 1, t.len() as int));
            assert(lines_of(t) =~= seq![t.subrange(0, j)] + lines_of(
                t.subrange(j + 1, t.len() as int),
            ));
        }
    }
}

/// Split a text into its lines at `'\n'`; no line holds a newline.
pub fn split_lines(s: &str) -> (r: Vec<String>)
    ensures
        r.deep_view() == lines_of(s@),
        forall|i: int, k: int|
            0 <= i < r.deep_view().len() && 0 <= k < r.deep_view()[i].len()
                ==> r.deep_view()[i][k] != '\n',
{
    let n = s.unicode_len();
    let mut out: Vec<String> = Vec::new();
    let mut start: usize = 0;
    let mut i: usize = 0;
    proof {
        assert(s@.subrange(0, n as int) =~= s@);
        assert(Seq::<Seq<char>>::empty() + lines_of(s@) =~= lines_of(s@));
    }
    while i < n
        invariant
            start <= i <= n,
            n == s@.len(),
            forall|k: int| start <= k < i ==> s@[k] != '\n',
            lines_of(s@) == out.deep_view() + lines_of(s@.subrange(start as int, n as int)),
            forall|p: int, k: int|
                0 <= p < out.deep_view().len() && 0 <= k < out.deep_view()[p].len()
                    ==> out.deep_view()[p][k] != '\n',
        decreases n - i,
    {
        if s.get_char(i) == '\n' {
            let seg = s.substring_char(start, i);
            let ghost old_deep = out.deep_view();
            out.push(seg.to_owned());
            proof {
                let t = s@.subrange(start as int, n as int);
                lemma_lines_first_seg(t, i - start);
                assert(t.subrange(0, i - start) =~= s@.subrange(start as int, i as int));
                assert(t.subrange(i - start + 1, t.len() as int) =~= s@.subrange(
                    i + 1,
                    n as int,
                ));
                assert(out.deep_view() =~= old_deep.push(seg@));
                assert(out.deep_view() + lines_of(s@.subrange(i + 1, n as int)) =~= old_deep
                    + lines_of(t));
            }
            start = i + 1;
        }
        i += 1;
    }
    let seg = s.substring_char(start, n);
    let ghost old_deep = out.deep_view();
    out.push(seg.to_owned());
    proof {
        let t = s@.subrange(start as int, n as int);
        lemma_lines_first_seg(t, n - start);
        assert(out.deep_view() =~= old_deep.push(seg@));
        assert(out.deep_view() =~= old_deep + seq![t]);
    }
    out
}

/// Render the whole diff of two texts' lines, paired positionally.
pub fn render_diff(old_lines: &Vec<String>, new_lines: &Vec<String>) -> (r: Vec<String>)
    requires
        forall|i: int, k: int|
            0 <= i < old_lines.deep_view().len() && 0 <= k < old_lines.deep_view()[i].len()
                ==> old_lines.deep_view()[i][k] != '\n',
        forall|i: int, k: int|
            0 <= i < new_lines.deep_view().len() && 0 <= k < new_lines.deep_view()[i].len()
                ==> new_lines.deep_view()[i][k] != '\n',
    ensures
        r.deep_view() == diff_output(old_lines.deep_view(), new_lines.deep_view()),
{
    let ghost od = old_lines.deep_view();
    let ghost nd = new_lines.deep_view();
    let m: usize = if old_lines.len() <= new_lines.len() {
        old_lines.len()
    } else {
        new_lines.len()
    };
    let mut out: Vec<String> = Vec::new();
    let mut i: usize = 0;
    while i < m
        invariant
            i <= m,
            od == old_lines.deep_view(),
            nd == new_lines.deep_view(),
            m <= od.len(),
            m <= nd.len(),
            m == od.len() || m == nd.len(),
            forall|j: int, k: int|
                0 <= j < od.len() && 0 <= k < od[j].len() ==> od[j][k] != '\n',
            forall|j: int, k: int|
                0 <= j < nd.len() && 0 <= k < nd[j].len() ==> nd[j][k] != '\n',
            diff_output(od, nd) == out.deep_view() + diff_output_from(od, nd, i as int),
        decreases m - i,
    {
        proof {
            assert(od[i as int] == old_lines@[i as int]@);
            assert(nd[i as int] == new_lines@[i as int]@);
        }
        let pair = render_pair(old_lines[i].as_str(), new_lines[i].as_str());
        let mut j: usize = 0;
        let ghost mid = out.deep_view();
        while j < pair.len()
            invariant
                j <= pair@.len(),
                pair.deep_view().len() == pair@.len(),
                out.deep_view() == mid + pair.deep_view().take(j as int),
            decreases pair@.len() - j,
        {
            let ghost pre_out = out.deep_view();
            out.push(pair[j].clone());
            proof {
                assert(out.deep_view() =~= pre_out.push(pair.deep_view()[j as int]));
                assert(out.deep_view() =~= mid + pair.deep_view().take(j + 1));
            }
            j += 1;
        }
        proof {
            assert(pair.deep_view().take(pair@.len() as int) =~= pair.deep_view());
            assert(out.deep_view() =~= mid + diff_pair_lines(od[i as int], nd[i as int]));
            assert(diff_output_from(od, nd, i as int) == diff_pair_lines(od[i as int], nd[i as int])
                + diff_output_from(od, nd, i + 1));
            assert(diff_output(od, nd) =~= out.deep_view() + diff_output_from(od, nd, i + 1));
        }
        i += 1;
    }
    proof {
        assert(diff_output_from(od, nd, m as int) =~= Seq::<Seq<char>>::empty());
        assert(out.deep_view() =~= out.deep_view() + Seq::<Seq<char>>::empty());
    }
    out
}

} // verus!
