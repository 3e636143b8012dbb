//! CPU architecture tags read out of artifact filenames.
use vstd::prelude::*;
use crate::strutil::{contains_seq, lower_of, str_contains, to_lower};

verus! {

/// The closed set of CPU architectures an artifact name can carry.
#[derive(Clone, Copy, Debug, PartialEq, Eq, Structural)]
pub enum Arch {
    Arm64,
    Amd64,
    Arm,
}

/// Which architecture a lowercase filename names: the `arm64` and `amd64`
/// tokens are tested before the bare `arm` token, so a name holding
/// `arm64` is never taken for plain `arm`.
pub open spec fn classify_spec(lower: Seq<char>) -> Option<Arch> {
    if contains_seq(lower, "arm64"@) {
        Some(Arch::Arm64)
    } else if contains_seq(lower, "amd64"@) {
        Some(Arch::Amd64)
    } else if contains_seq(lower, "arm"@) {
        Some(Arch::Arm)
    } else {
        None
    }
}

impl Arch {
    /// The canonical lowercase token of this architecture.
    pub open spec fn token_spec(self) -> Seq<char> {
        match self {
            Arch::Arm64 => "arm64"@,
            Arch::Amd64 => "amd64"@,
            Arch::Arm => "arm"@,
        }
    }

    /// The canonical lowercase token, as used in manifest keys.
    pub fn token(&self) -> (r: &'static str)
        ensures
            r@ == self.token_spec(),
    {
        match self {
            Arch::Arm64 => "arm64",
            Arch::Amd64 => "amd64",
            Arch::Arm => "arm",
        }
    }

    /// Classify an already-lowercased filename by substring containment,
    /// in the fixed priority order of `classify_spec`.
    pub fn classify_lower(lower: &str) -> (r: Option<Arch>)
        ensures
            r == classify_spec(lower@),
    {
        if str_contains(lower, "arm64") {
            Some(Arch::Arm64)
        } else if str_contains(lower, "amd64") {
            Some(Arch::Amd64)
        } else if str_contains(lower, "arm") {
            Some(Arch::Arm)
        } else {
            None
        }
    }

    /// Case-insensitive classification of a filename: the name is folded
    /// to lowercase, then classified by token containment.
    pub fn from_str(s: &str) -> (r: Option<Arch>)
        ensures
            r == classify_spec(lower_of(s@)),
    {
        let lower = to_lower(s);
        Self::classify_lower(lower.as_str())
    }
}

} // verus!
