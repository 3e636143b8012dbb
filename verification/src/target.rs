//! The closed set of target platforms and their static attributes.
use vstd::prelude::*;
use crate::strutil::str_eq;

verus! {

/// A target platform of the build, the closed set the tool knows.
#[derive(Clone, Copy, Debug, PartialEq, Eq, Structural)]
pub enum Target {
    Android,
    Ios,
    Mac,
    Linux,
    Windows,
}

impl Target {
    /// The canonical lowercase name: the manifest key and the CLI token.
    pub open spec fn name_spec(self) -> Seq<char> {
        match self {
            Target::Android => "android"@,
            Target::Ios => "ios"@,
            Target::Mac => "mac"@,
            Target::Linux => "linux"@,
            Target::Windows => "windows"@,
        }
    }

    /// The canonical lowercase name of this target.
    pub fn name(&self) -> (r: &'static str)
        ensures
            r@ == self.name_spec(),
    {
        match self {
            Target::Android => "android",
            Target::Ios => "ios",
            Target::Mac => "mac",
            Target::Linux => "linux",
            Target::Windows => "windows",
        }
    }

    /// The filename suffix of this target's artifacts.
    pub open spec fn suffix_spec(self) -> Seq<char> {
        match self {
            Target::Android => "apk"@,
            Target::Ios => "ipa"@,
            Target::Mac => "app.zip"@,
            Target::Linux => "AppImage"@,
            Target::Windows => "win.zip"@,
        }
    }

    /// The filename suffix of this target's artifacts.
    pub fn suffix(&self) -> (r: &'static str)
        ensures
            r@ == self.suffix_spec(),
    {
        match self {
            Target::Android => "apk",
            Target::Ios => "ipa",
            Target::Mac => "app.zip",
            Target::Linux => "AppImage",
            Target::Windows => "win.zip",
        }
    }

    /// Whether the manifest publishes a download URL for this target.
    pub open spec fn publishes_url_spec(self) -> bool {
        match self {
            Target::Android | Target::Linux | Target::Windows => true,
            Target::Ios | Target::Mac => false,
        }
    }

    /// Whether the manifest publishes a download URL for this target.
    pub fn publishes_url(&self) -> (r: bool)
        ensures
            r == self.publishes_url_spec(),
    {
        match self {
            Target::Android | Target::Linux | Target::Windows => true,
            Target::Ios | Target::Mac => false,
        }
    }

    /// Which target a CLI token names, if any.
    pub open spec fn from_name_spec(s: Seq<char>) -> Option<Target> {
        if s == "android"@ {
            Some(Target::Android)
        } else if s == "ios"@ {
            Some(Target::Ios)
        } else if s == "mac"@ {
            Some(Target::Mac)
        } else if s == "linux"@ {
            Some(Target::Linux)
        } else if s == "windows"@ {
            Some(Target::Windows)
        } else {
            None
        }
    }

    /// Parse a CLI token into a target; an unknown token yields `None`
    /// and is to be reported and dropped by the caller.
    pub fn from_name(s: &str) -> (r: Option<Target>)
        ensures
            r == Self::from_name_spec(s@),
    {
        if str_eq(s, "android") {
            Some(Target::Android)
        } else if str_eq(s, "ios") {
            Some(Target::Ios)
        } else if str_eq(s, "mac") {
            Some(Target::Mac)
        } else if str_eq(s, "linux") {
            Some(Target::Linux)
        } else if str_eq(s, "windows") {
            Some(Target::Windows)
        } else {
            None
        }
    }
}

} // verus!
