//! The JSON manifest: reading the recorded version, writing the new
//! version and download URL, and preparing the confirmation diff.  The
//! document itself is held as a `serde_json` value and touched only
//! through the trusted wrappers below; every decision around them is
//! verified.
use vstd::prelude::*;
use vstd::string::StringExecFns;
use crate::PipelineError;
use crate::diff::{diff_output, lines_of, render_diff, split_lines};
use crate::target::Target;
use crate::version::{
    digits_val, extract_version, is_first_digit_run, no_digits, parse_version_input,
    valid_version_str, VersionScan,
};

verus! {

#[verifier::external_type_specification]
#[verifier::external_body]
pub struct ExValue(serde_json::Value);

#[verifier::external_type_specification]
#[verifier::external_body]
pub struct ExJsonError(serde_json::Error);

/// Whether `serde_json` parses a text as a JSON document; a fixed
/// function of the text alone.
pub uninterp spec fn parses_as_json(s: Seq<char>) -> bool;

/// The value `serde_json` parses a text into, where it parses at all; a
/// fixed function of the text alone.
pub uninterp spec fn parsed_of(s: Seq<char>) -> serde_json::Value;

/// The rest of a manifest document, seen apart from one target's two
/// update slots: the value with the entries at `build.last.<target>`
/// and `urls.<target>.<arch>` removed, every object on those two paths
/// that is then (or was already) empty or null removed as well, and a
/// null root taken as an empty object.  A fixed function of its
/// arguments; the update wrappers leave it unchanged, which is how the
/// contracts say that nothing but the two slots is touched.
pub uninterp spec fn others_of(
    v: serde_json::Value,
    target: Seq<char>,
    arch: Seq<char>,
) -> serde_json::Value;

/// The version a manifest value records at `build.last.<target>`, with
/// 0 where that path is absent or not an unsigned integer — the reading
/// the tool's idempotence guard compares against.
pub uninterp spec fn recorded_version(v: serde_json::Value, target: Seq<char>) -> u64;

/// The string a manifest value holds at `urls.<target>.<arch>`, or
/// `None` where that path is absent or not a string.
pub uninterp spec fn recorded_url(v: serde_json::Value, target: Seq<char>, arch: Seq<char>) -> Option<
    Seq<char>,
>;

/// The pretty-printed serialization of a manifest value; a fixed
/// function of the value alone.
pub uninterp spec fn pretty_text(v: serde_json::Value) -> Seq<char>;

/// Every value on the path `build.last` is an object, null or absent,
/// so a version can be written without disturbing anything else.
pub uninterp spec fn build_slot_writable(v: serde_json::Value) -> bool;

/// Every value on the path `urls.<target>` is an object, null or
/// absent, so a URL can be written without disturbing anything else.
pub uninterp spec fn url_slot_writable(v: serde_json::Value, target: Seq<char>) -> bool;

/// Relies on `serde_json::from_str`: whether a text parses, and what
/// value it parses into, are fixed functions of the text.
#[verifier::external_body]
fn parse_manifest_raw(s: &str) -> (r: Result<serde_json::Value, serde_json::Error>)
    ensures
        (r is Ok) <==> parses_as_json(s@),
        r matches Ok(v) ==> v == parsed_of(s@),
{
    serde_json::from_str::<serde_json::Value>(s)
}

/// Relies on `serde_json::Value::get` and `Value::as_u64`: reads the
/// unsigned integer at `build.last.<name>`, 0 where the path is absent
/// or holds something else — as the idempotence guard defines it.
#[verifier::external_body]
fn get_recorded_version(v: &serde_json::Value, name: &str) -> (r: u64)
    ensures
        r == recorded_version(*v, name@),
{
    let last = match v.get("build") { Some(b) => b.get("last"), None => None };
    let slot = match last { Some(l) => l.get(name), None => None };
    match slot {
        Some(x) => x.as_u64().unwrap_or(0),
        None => 0,
    }
}

/// Relies on `serde_json`'s index assignment: writes the version at
/// `build.last.<name>`, creating the two objects as needed.  The write
/// happens only when every existing value on the path is an object or
/// null (else index assignment would panic); nothing else in the
/// document — other targets' versions, all URLs — changes, and a
/// refusal leaves the value untouched.
#[verifier::external_body]
fn set_recorded_version(v: &mut serde_json::Value, name: &str, ver: u32) -> (ok: bool)
    ensures
        ok == build_slot_writable(*old(v)),
        ok ==> recorded_version(*final(v), name@) == ver as u64,
        ok ==> forall|t: Seq<char>|
            t != name@ ==> recorded_version(*final(v), t) == recorded_version(*old(v), t),
        ok ==> forall|t: Seq<char>, a: Seq<char>|
            recorded_url(*final(v), t, a) == recorded_url(*old(v), t, a),
        ok ==> forall|t: Seq<char>|
            url_slot_writable(*final(v), t) == url_slot_writable(*old(v), t),
        ok ==> forall|a: Seq<char>|
            others_of(*final(v), name@, a) == others_of(*old(v), name@, a),
        !ok ==> *final(v) == *old(v),
{
    let root_ok = v.is_object() || v.is_null();
    let build_ok = match v.get("build") { None => true, Some(x) => x.is_object() || x.is_null() };
    let last = match v.get("build") { Some(b) => b.get("last"), None => None };
    let last_ok = match last { None => true, Some(x) => x.is_object() || x.is_null() };
    if !(root_ok && build_ok && last_ok) {
        return false;
    }
    v["build"]["last"][name] = serde_json::Value::from(ver);
    true
}

/// Relies on `serde_json`'s index assignment: writes the URL string at
/// `urls.<name>.<arch>`, creating the two objects as needed.  The write
/// happens only when every existing value on the path is an object or
/// null (else index assignment would panic); nothing else in the
/// document — every recorded version, every other URL — changes, and a
/// refusal leaves the value untouched.
#[verifier::external_body]
fn set_recorded_url(v: &mut serde_json::Value, name: &str, arch: &str, url: &str) -> (ok: bool)
    ensures
        ok == url_slot_writable(*old(v), name@),
        ok ==> recorded_url(*final(v), name@, arch@) == Some(url@),
        ok ==> forall|t: Seq<char>, a: Seq<char>|
            !(t == name@ && a == arch@) ==> recorded_url(*final(v), t, a) == recorded_url(
                *old(v),
                t,
                a,
            ),
        ok ==> forall|t: Seq<char>|
            recorded_version(*final(v), t) == recorded_version(*old(v), t),
        ok ==> others_of(*final(v), name@, arch@) == others_of(*old(v), name@, arch@),
        !ok ==> *final(v) == *old(v),
{
    let root_ok = v.is_object() || v.is_null();
    let urls_ok = match v.get("urls") { None => true, Some(x) => x.is_object() || x.is_null() };
    let slot = match v.get("urls") { Some(u) => u.get(name), None => None };
    let slot_ok = match slot { None => true, Some(x) => x.is_object() || x.is_null() };
    if !(root_ok && urls_ok && slot_ok) {
        return false;
    }
    v["urls"][name][arch] = serde_json::Value::from(url);
    true
}

/// Relies on `serde_json::to_string_pretty` and `from_str`: the pretty
/// serialization is a fixed function of the value, it is valid JSON,
/// and parsing it back recovers the value (object keys are plain map
/// entries, numbers are finite, and strings round-trip through
/// escaping).  Serializing a `Value` cannot fail (its keys are strings
/// and its own `Serialize` never errors), so the error arm is
/// unreachable.
#[verifier::external_body]
fn to_pretty(v: &serde_json::Value) -> (r: String)
    ensures
        r@ == pretty_text(*v),
        parses_as_json(r@),
        parsed_of(r@) == *v,
{
    match serde_json::to_string_pretty(v) {
        Ok(s) => s,
        Err(_) => String::new(),
    }
}

/// Parse the manifest file's text.  A text that does not parse is
/// fatal for the whole run: the caller gets the parse error and no
/// value to work on.
pub fn parse_manifest(s: &str) -> (r: Result<serde_json::Value, PipelineError>)
    ensures
        (r is Ok) <==> parses_as_json(s@),
        r matches Ok(v) ==> v == parsed_of(s@),
        r matches Err(e) ==> e is ManifestParse,
{
    match parse_manifest_raw(s) {
        Ok(v) => Ok(v),
        Err(_) => Err(PipelineError::ManifestParse),
    }
}

/// The download URL published for an artifact: the CDN host, the
/// working directory's leaf name, and the artifact's filename.
pub open spec fn url_of(dir_leaf: Seq<char>, file_name: Seq<char>) -> Seq<char> {
    "https://cdn.lolli.tech/"@ + dir_leaf + "/"@ + file_name
}

/// Build the download URL for an artifact.
pub fn build_url(dir_leaf: &str, file_name: &str) -> (r: String)
    ensures
        r@ == url_of(dir_leaf@, file_name@),
{
    let s = "https://cdn.lolli.tech/".to_owned();
    let s = s.concat(dir_leaf);
    let s = s.concat("/");
    let s = s.concat(file_name);
    s
}

/// What the manifest step decides before any prompt, diff or write.
#[derive(Clone, Copy, Debug, PartialEq, Eq, Structural)]
pub enum ChangeStep {
    /// The update feature flag is off: report and change nothing.
    Skipped,
    /// The filename holds no digit: the version must be typed in.
    NeedsVersion,
    /// The version does not fit an unsigned 32-bit integer: fatal for
    /// this target.
    BadVersion,
    /// The manifest already records exactly this version: the rest of
    /// the update — diff, prompt, write — is skipped, and so are the
    /// target's later pipeline steps.
    UpToDate(u32),
    /// The manifest records another version: proceed to update with
    /// this one.
    Proceed(u32),
}

/// A prepared manifest update, awaiting the operator's confirmation:
/// the new text to write and the diff lines to show first.
pub struct UpdatePlan {
    /// The updated manifest, pretty-printed.
    pub new_text: String,
    /// The `+`/`-` lines of the line-paired diff of old and new text.
    pub diff_lines: Vec<String>,
}

impl Target {
    /// The idempotence guard: whether the manifest already records
    /// exactly this version for the target, in which case the rest of
    /// the update — diff, prompt, write — is skipped.
    pub fn version_up_to_date(&self, v: &serde_json::Value, version: u32) -> (r: bool)
        ensures
            r == (recorded_version(*v, self.name_spec()) == version as u64),
    {
        get_recorded_version(v, self.name()) == version as u64
    }

    /// Begin the manifest step: read the version off the filename and
    /// compare it with the recorded one.  With the flag off the step is
    /// skipped outright.  A filename with a digit run never asks for
    /// input: its first maximal run is the version, and `BadVersion`
    /// comes exactly when that run exceeds an unsigned 32-bit integer.
    /// Only a filename without any digit hands the decision back for an
    /// interactive version (`NeedsVersion`).
    pub fn plan_change(
        &self,
        enabled: bool,
        v: Option<&serde_json::Value>,
        file_name: &str,
    ) -> (r: ChangeStep)
        requires
            enabled ==> v is Some,
        ensures
            (r is Skipped) <==> !enabled,
            enabled ==> ((r is NeedsVersion) <==> no_digits(file_name@)),
            enabled ==> forall|i: int, j: int|
                is_first_digit_run(file_name@, i, j) ==> (v matches Some(m) && r == {
                    let val = digits_val(file_name@.subrange(i, j));
                    if val > u32::MAX as int {
                        ChangeStep::BadVersion
                    } else if recorded_version(*m, self.name_spec()) == (val as u32) as u64 {
                        ChangeStep::UpToDate(val as u32)
                    } else {
                        ChangeStep::Proceed(val as u32)
                    }
                }),
    {
        if !enabled {
            return ChangeStep::Skipped;
        }
        let doc = match v {
            Some(d) => d,
            None => {
                proof {
                    assert(false);
                }
                return ChangeStep::Skipped;
            },
        };
        match extract_version(file_name) {
            VersionScan::NoDigits => ChangeStep::NeedsVersion,
            VersionScan::TooLarge => ChangeStep::BadVersion,
            VersionScan::Found(ver) => {
                if self.version_up_to_date(doc, ver) {
                    ChangeStep::UpToDate(ver)
                } else {
                    ChangeStep::Proceed(ver)
                }
            },
        }
    }

    /// Resume the manifest step with an interactively typed version: a
    /// nonempty digit string that fits is the version, compared with
    /// the recorded one as `plan_change` does; anything else is
    /// `BadVersion`, fatal for the target.
    pub fn plan_change_with_input(&self, v: &serde_json::Value, typed: &str) -> (r: ChangeStep)
        ensures
            !valid_version_str(typed@) ==> r is BadVersion,
            valid_version_str(typed@) ==> r == {
                let val = digits_val(typed@);
                if recorded_version(*v, self.name_spec()) == val as u64 {
                    ChangeStep::UpToDate(val as u32)
                } else {
                    ChangeStep::Proceed(val as u32)
                }
            },
    {
        match parse_version_input(typed) {
            None => ChangeStep::BadVersion,
            Some(ver) => {
                if self.version_up_to_date(v, ver) {
                    ChangeStep::UpToDate(ver)
                } else {
                    ChangeStep::Proceed(ver)
                }
            },
        }
    }

    /// Apply this target's update to the manifest value: record the
    /// version at `build.last.<name>`, and for URL-publishing targets
    /// the download URL at `urls.<name>.<arch>`; then serialize the
    /// result and prepare the line-paired diff against the old text.
    /// Nothing else in the document changes.  A value whose `build` or
    /// `urls` paths cannot take the write is a structure error; the
    /// version write, coming first, is then the only change that may
    /// already have happened.
    pub fn change_json(
        &self,
        v: &mut serde_json::Value,
        file_name: &str,
        version: u32,
        arch: Option<&String>,
        dir_leaf: &str,
        old_text: &str,
    ) -> (r: Result<UpdatePlan, PipelineError>)
        requires
            self.publishes_url_spec() ==> arch is Some,
        ensures
            (r is Ok) <==> (build_slot_writable(*old(v)) && (self.publishes_url_spec()
                ==> url_slot_writable(*old(v), self.name_spec()))),
            r matches Err(e) ==> e is ManifestStructure,
            r is Err && !build_slot_writable(*old(v)) ==> *final(v) == *old(v),
            r is Ok ==> recorded_version(*final(v), self.name_spec()) == version as u64,
            r is Ok ==> forall|t: Seq<char>|
                t != self.name_spec() ==> recorded_version(*final(v), t) == recorded_version(
                    *old(v),
                    t,
                ),
            r is Ok && self.publishes_url_spec() ==> (arch matches Some(a) && recorded_url(
                *final(v),
                self.name_spec(),
                a@,
            ) == Some(url_of(dir_leaf@, file_name@))),
            r is Ok && self.publishes_url_spec() ==> (arch matches Some(a) && forall|
                t: Seq<char>,
                ar: Seq<char>,
            |
                !(t == self.name_spec() && ar == a@) ==> recorded_url(*final(v), t, ar)
                    == recorded_url(*old(v), t, ar)),
            r is Ok && self.publishes_url_spec() ==> (arch matches Some(a) && others_of(
                *final(v),
                self.name_spec(),
                a@,
            ) == others_of(*old(v), self.name_spec(), a@)),
            r is Ok && !self.publishes_url_spec() ==> forall|t: Seq<char>, a: Seq<char>|
                recorded_url(*final(v), t, a) == recorded_url(*old(v), t, a),
            r is Ok && !self.publishes_url_spec() ==> forall|a: Seq<char>|
                others_of(*final(v), self.name_spec(), a) == others_of(*old(v), self.name_spec(), a),
            r matches Ok(plan) ==> plan.new_text@ == pretty_text(*final(v)),
            r matches Ok(plan) ==> parses_as_json(plan.new_text@) && parsed_of(plan.new_text@)
                == *final(v),
            r matches Ok(plan) ==> plan.diff_lines.deep_view() == diff_output(
                lines_of(old_text@),
                lines_of(pretty_text(*final(v))),
            ),
    {
        let name = self.name();
        if !set_recorded_version(v, name, version) {
            return Err(PipelineError::ManifestStructure);
        }
        if self.publishes_url() {
            if let Some(a) = arch {
                let url = build_url(dir_leaf, file_name);
                if !set_recorded_url(v, name, a.as_str(), url.as_str()) {
                    return Err(PipelineError::ManifestStructure);
                }
            }
        }
        let new_text = to_pretty(v);
        let old_lines = split_lines(old_text);
        let new_lines = split_lines(new_text.as_str());
        let diff_lines = render_diff(&old_lines, &new_lines);
        Ok(UpdatePlan { new_text, diff_lines })
    }
}

} // verus!
