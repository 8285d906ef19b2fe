//! Semantic versions: the key under which an install is recorded.

use vstd::prelude::*;
use vstd::std_specs::cmp::PartialEqSpecImpl;

verus! {

/// A semantic version: `major.minor.patch`, then the pre-release tag and the
/// build metadata as text, each empty where the version has none.
///
/// The two texts are compared, never read into.
#[derive(Debug)]
pub struct Version {
    pub major: u64,
    pub minor: u64,
    pub patch: u64,
    pub pre: String,
    pub build: String,
}

/// The mathematical value of a [`Version`]: its five components.
pub struct VersionView {
    pub major: u64,
    pub minor: u64,
    pub patch: u64,
    pub pre: Seq<char>,
    pub build: Seq<char>,
}

impl View for Version {
    type V = VersionView;

    open spec fn view(&self) -> VersionView {
        VersionView {
            major: self.major,
            minor: self.minor,
            patch: self.patch,
            pre: self.pre@,
            build: self.build@,
        }
    }
}

impl Version {
    /// The release `major.minor.patch`, with no pre-release tag and no build
    /// metadata.
    pub fn new(major: u64, minor: u64, patch: u64) -> (version: Version)
        ensures
            version@ == (VersionView {
                major,
                minor,
                patch,
                pre: Seq::<char>::empty(),
                build: Seq::<char>::empty(),
            }),
    {
        Version { major, minor, patch, pre: String::new(), build: String::new() }
    }

    /// Whether this is the version `other`: two versions are the same only
    /// when all five components are.
    pub fn same_as(&self, other: &Version) -> (same: bool)
        ensures
            same == (self@ == other@),
    {
        self.major == other.major && self.minor == other.minor && self.patch == other.patch
            && self.pre == other.pre && self.build == other.build
    }
}

impl PartialEq for Version {
    /// `==` is [`Version::same_as`].
    fn eq(&self, other: &Self) -> (equal: bool) {
        self.same_as(other)
    }
}

impl PartialEqSpecImpl for Version {
    open spec fn obeys_eq_spec() -> bool {
        true
    }

    open spec fn eq_spec(&self, other: &Self) -> bool {
        self@ == other@
    }
}

impl Eq for Version {

}

impl Clone for Version {
    fn clone(&self) -> (copy: Self)
        ensures
            copy == *self,
    {
        Version {
            major: self.major,
            minor: self.minor,
            patch: self.patch,
            pre: self.pre.clone(),
            build: self.build.clone(),
        }
    }
}

} // verus!
