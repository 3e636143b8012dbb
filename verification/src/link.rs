//! Keeping the stable `latest.<suffix>` symlink pointing at the chosen
//! artifact, re-creating it only when it is stale.
use vstd::prelude::*;
use vstd::string::StringExecFns;
use crate::strutil::str_eq;
use crate::target::Target;

verus! {

/// A link payload resolves to the chosen artifact: it is the artifact's
/// bare filename (read relative to the link's own directory), or, where
/// the working directory is an absolute path, that filename qualified
/// with it.  A relative qualified payload is not counted: read from the
/// link's directory it would reach a different path, so such a link is
/// stale and gets re-created.
pub open spec fn resolves_to(payload: Seq<char>, dir: Seq<char>, name: Seq<char>) -> bool {
    payload == name || (dir.len() > 0 && dir[0] == '/' && payload == dir + "/"@ + name)
}

/// An existing link, read as plain values: `None` where there is no
/// symlink to read (absent, a regular file, or unreadable), otherwise
/// its raw payload.
pub open spec fn link_is_current(payload: Option<&String>, dir: Seq<char>, name: Seq<char>) -> bool {
    match payload {
        Some(p) => resolves_to(p@, dir, name),
        None => false,
    }
}

/// What the symlink reconciliation decides before anything is touched.
pub enum LinkAction {
    /// The linking feature flag is off: report and do nothing.
    Skipped,
    /// The link already resolves to the artifact: no prompt, no change.
    AlreadyCorrect,
    /// Replace the link after confirmation (defaulting to yes); the
    /// payload to write is exactly the artifact's own filename.
    Replace(String),
    /// The artifact's filename is empty, so no link payload can be
    /// derived: report a failure and leave the link untouched.
    NoFileName,
}

impl Target {
    /// The stable link's path for this target: `<dir>/latest.<suffix>`.
    pub fn link_file(&self, dir: &str) -> (r: String)
        ensures
            r@ == dir@ + "/latest."@ + self.suffix_spec(),
    {
        let s = dir.to_owned();
        let s = s.concat("/latest.");
        let s = s.concat(self.suffix());
        proof {
            reveal_strlit("/latest.");
        }
        s
    }

    /// Decide the symlink step for an existing payload: already correct
    /// links are left silently; otherwise the link is to be replaced,
    /// with the artifact's bare filename as the new payload, so the link
    /// stays valid when the directory is relocated.
    pub fn set_link(&self, enabled: bool, payload: Option<&String>, dir: &str, name: &str) -> (r:
        LinkAction)
        ensures
            (r is Skipped) <==> !enabled,
            enabled ==> ((r is AlreadyCorrect) <==> link_is_current(payload, dir@, name@)),
            enabled && !link_is_current(payload, dir@, name@) ==> (if name@.len() == 0 {
                r is NoFileName
            } else {
                r matches LinkAction::Replace(s) && s@ == name@
            }),
    {
        if !enabled {
            return LinkAction::Skipped;
        }
        let current = match payload {
            Some(p) => {
                if str_eq(p.as_str(), name) {
                    true
                } else if dir.unicode_len() > 0 && dir.get_char(0) == '/' {
                    let joined = dir.to_owned();
                    let joined = joined.concat("/");
                    let joined = joined.concat(name);
                    proof {
                        reveal_strlit("/");
                    }
                    str_eq(p.as_str(), joined.as_str())
                } else {
                    false
                }
            },
            None => false,
        };
        if current {
            return LinkAction::AlreadyCorrect;
        }
        if name.unicode_len() == 0 {
            return LinkAction::NoFileName;
        }
        LinkAction::Replace(name.to_owned())
    }
}

} // verus!
