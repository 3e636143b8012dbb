//! Release-artifact bookkeeping for a multi-target build: pick the newest
//! artifact per platform, record its version and download URL in a JSON
//! manifest, keep a `latest.<suffix>` symlink fresh, and retire superseded
//! files.  Every decision the tool makes is computed here over plain values;
//! the thin binary around this library only performs the file-system and
//! console actions that the decisions call for.
use vstd::prelude::*;

pub mod arch;
pub mod cli;
pub mod diff;
pub mod link;
pub mod manifest;
pub mod prompt;
pub mod retention;
pub mod scan;
pub mod strutil;
pub mod target;
pub mod util;
pub mod version;

verus! {

use crate::link::resolves_to;
use crate::manifest::{parsed_of, parses_as_json, recorded_version};
use crate::target::Target;

/// Running the pipeline a second time with no new artifacts changes
/// nothing.  The premises are what a confirmed first run leaves behind,
/// as `Target::change_json`'s contract states them of the text it hands
/// over for writing: the text is valid JSON, it parses back to the
/// updated document, and that document records the artifact's version.
/// The conclusions are the second run's guards, computed on what that
/// run finds: parsing the written text yields a document whose recorded
/// version equals the extracted one, so the manifest step skips with no
/// prompt and no write (and the later steps are shortcut with it); and
/// the link payload the first run wrote — the artifact's bare filename
/// — resolves to the artifact, so the link step skips too.  Retention's
/// guard needs no law of its own: a single remaining candidate is
/// `NothingToRemove` directly by `Target::rm_old_files`'s contract.
pub proof fn lemma_second_run_makes_no_changes(
    v: serde_json::Value,
    new_text: Seq<char>,
    target: Target,
    version: u32,
    dir: Seq<char>,
    name: Seq<char>,
)
    requires
        parses_as_json(new_text),
        parsed_of(new_text) == v,
        recorded_version(v, target.name_spec()) == version as u64,
    ensures
        recorded_version(parsed_of(new_text), target.name_spec()) == version as u64,
        resolves_to(name, dir, name),
{
}

/// The failures that can cut a single target's pipeline short.
#[derive(Clone, Copy, Debug, PartialEq, Eq, Structural)]
pub enum PipelineError {
    /// No candidate artifact was found for the target.
    EmptyCandidates,
    /// The manifest file is not valid JSON.
    ManifestParse,
    /// The manifest is valid JSON but a value on `build.last` or `urls`
    /// has a shape that cannot hold the update.
    ManifestStructure,
}

impl PipelineError {
    /// A short diagnostic line for the operator.
    pub fn message(&self) -> (r: &'static str)
        ensures
            r@.len() > 0,
    {
        let m: &'static str = match self {
            PipelineError::EmptyCandidates => "no matching artifact files were found",
            PipelineError::ManifestParse => "the manifest is not valid JSON",
            PipelineError::ManifestStructure => "the manifest cannot hold this update",
        };
        proof {
            reveal_strlit("no matching artifact files were found");
            reveal_strlit("the manifest is not valid JSON");
            reveal_strlit("the manifest cannot hold this update");
        }
        m
    }
}

} // verus!
