//! The resolved run configuration and the parsing of command-line
//! tokens into it.
use vstd::prelude::*;
use crate::strutil::str_eq;

verus! {

/// The resolved configuration of one run: which targets to process,
/// where, and which of the three optional steps to perform.
pub struct Ctx {
    /// Delete superseded artifacts after confirmation.
    pub rm_old_files: bool,
    /// The target tokens, in the order given.
    pub targets: Vec<String>,
    /// Maintain the `latest.<suffix>` symlink.
    pub link: bool,
    /// Update the JSON manifest.
    pub change_json: bool,
    /// The working directory.
    pub dir: String,
}

/// The configuration as plain mathematical values.
pub struct CtxView {
    /// Delete superseded artifacts after confirmation.
    pub rm_old_files: bool,
    /// The target tokens, in the order given.
    pub targets: Seq<Seq<char>>,
    /// Maintain the `latest.<suffix>` symlink.
    pub link: bool,
    /// Update the JSON manifest.
    pub change_json: bool,
    /// The working directory.
    pub dir: Seq<char>,
}

impl View for Ctx {
    type V = CtxView;

    open spec fn view(&self) -> CtxView {
        CtxView {
            rm_old_files: self.rm_old_files,
            targets: self.targets.deep_view(),
            link: self.link,
            change_json: self.change_json,
            dir: self.dir@,
        }
    }
}

/// The configuration before any token is read: all three steps on, the
/// current directory, no targets.
pub open spec fn default_ctx() -> CtxView {
    CtxView {
        rm_old_files: true,
        targets: Seq::empty(),
        link: true,
        change_json: true,
        dir: "."@,
    }
}

/// One left-to-right pass over the tokens: the three step flags are
/// switches, `-d`/`--dir` consumes the following token as the
/// directory (and is ignored without one), and every other token is a
/// target.
pub open spec fn parse_rec(acc: CtxView, args: Seq<Seq<char>>, i: int) -> CtxView
    decreases args.len() - i,
{
    if i < 0 || i >= args.len() {
        acc
    } else {
        let a = args[i];
        if a == "-r"@ || a == "--rm-old-files"@ {
            parse_rec(CtxView { rm_old_files: true, ..acc }, args, i + 1)
        } else if a == "-l"@ || a == "--link"@ {
            parse_rec(CtxView { link: true, ..acc }, args, i + 1)
        } else if a == "-c"@ || a == "--change-json"@ {
            parse_rec(CtxView { change_json: true, ..acc }, args, i + 1)
        } else if a == "-d"@ || a == "--dir"@ {
            if i + 1 < args.len() {
                parse_rec(CtxView { dir: args[i + 1], ..acc }, args, i + 2)
            } else {
                parse_rec(acc, args, i + 1)
            }
        } else {
            parse_rec(CtxView { targets: acc.targets.push(a), ..acc }, args, i + 1)
        }
    }
}

/// What parsing a whole token list yields.
pub open spec fn parse_from_spec(args: Seq<Seq<char>>) -> CtxView {
    parse_rec(default_ctx(), args, 0)
}

impl Ctx {
    /// Parse command-line tokens into a configuration, left to right,
    /// starting from the defaults.
    pub fn parse_from(args: &[&str]) -> (r: Ctx)
        ensures
            r@ == parse_from_spec(args.deep_view()),
    {
        let ghost view_args = args.deep_view();
        let mut rm_old_files: bool = true;
        let mut targets: Vec<String> = Vec::new();
        let mut link: bool = true;
        let mut change_json: bool = true;
        let mut dir: String = ".".to_owned();
        let mut i: usize = 0;
        proof {
            assert(view_args.len() == args@.len());
            assert(targets.deep_view() =~= Seq::<Seq<char>>::empty());
            assert(CtxView {
                rm_old_files,
                targets: targets.deep_view(),
                link,
                change_json,
                dir: dir@,
            } == default_ctx());
        }
        while i < args.len()
            invariant
                i <= args@.len(),
                view_args == args.deep_view(),
                view_args.len() == args@.len(),
                parse_from_spec(view_args) == parse_rec(
                    CtxView {
                        rm_old_files,
                        targets: targets.deep_view(),
                        link,
                        change_json,
                        dir: dir@,
                    },
                    view_args,
                    i as int,
                ),
            decreases args@.len() - i,
        {
            let a: &str = args[i];
            proof {
                assert(view_args[i as int] == a@);
            }
            if str_eq(a, "-r") || str_eq(a, "--rm-old-files") {
                rm_old_files = true;
                i += 1;
            } else if str_eq(a, "-l") || str_eq(a, "--link") {
                link = true;
                i += 1;
            } else if str_eq(a, "-c") || str_eq(a, "--change-json") {
                change_json = true;
                i += 1;
            } else if str_eq(a, "-d") || str_eq(a, "--dir") {
                if i + 1 < args.len() {
                    let d: &str = args[i + 1];
                    proof {
                        assert(view_args[i + 1] == d@);
                    }
                    dir = d.to_owned();
                    i += 2;
                } else {
                    i += 1;
                }
            } else {
                let ghost old_targets = targets.deep_view();
                targets.push(a.to_owned());
                proof {
                    assert(targets.deep_view() =~= old_targets.push(a@));
                }
                i += 1;
            }
        }
        let r = Ctx { rm_old_files, targets, link, change_json, dir };
        r
    }
}

} // verus!
