//! Semantic version triple shared by bridge capabilities, applications and delivery bundles.
//!
//! Comparison is lexicographic with `major` taking priority. Pre-release suffixes are not
//! expressed in the triple.
use std::cmp::Ordering;
use vstd::prelude::*;
use vstd::std_specs::cmp::PartialOrdSpecImpl;

verus! {

/// Semantic version triple.
#[derive(Clone, Copy, Debug, PartialEq, Eq, Structural, Ord)]
pub struct Version {
    /// Major version component.
    pub major: u32,
    /// Minor version component.
    pub minor: u32,
    /// Patch version component.
    pub patch: u32,
}

/// Lexicographic order of version triples, `major` first.
pub open spec fn version_ordering(a: Version, b: Version) -> Ordering {
    if a.major != b.major {
        if a.major < b.major { Ordering::Less } else { Ordering::Greater }
    } else if a.minor != b.minor {
        if a.minor < b.minor { Ordering::Less } else { Ordering::Greater }
    } else if a.patch != b.patch {
        if a.patch < b.patch { Ordering::Less } else { Ordering::Greater }
    } else {
        Ordering::Equal
    }
}

/// Strict lexicographic precedence of version triples.
pub open spec fn precedes(a: Version, b: Version) -> bool {
    a.major < b.major || (a.major == b.major && (a.minor < b.minor || (a.minor == b.minor
        && a.patch < b.patch)))
}

impl Version {
    /// Constructs a version from its three components.
    pub fn new(major: u32, minor: u32, patch: u32) -> (version: Self)
        ensures
            version == (Version { major, minor, patch }),
    {
        Version { major, minor, patch }
    }
}

impl Default for Version {
    fn default() -> (version: Self)
        ensures
            version == (Version { major: 0, minor: 0, patch: 0 }),
    {
        Version { major: 0, minor: 0, patch: 0 }
    }
}

impl PartialOrd for Version {
    fn partial_cmp(&self, other: &Self) -> (result: Option<Ordering>) {
        if self.major != other.major {
            if self.major < other.major { Some(Ordering::Less) } else { Some(Ordering::Greater) }
        } else if self.minor != other.minor {
            if self.minor < other.minor { Some(Ordering::Less) } else { Some(Ordering::Greater) }
        } else if self.patch != other.patch {
            if self.patch < other.patch { Some(Ordering::Less) } else { Some(Ordering::Greater) }
        } else {
            Some(Ordering::Equal)
        }
    }
}

impl PartialOrdSpecImpl for Version {
    open spec fn obeys_partial_cmp_spec() -> bool {
        true
    }

    open spec fn partial_cmp_spec(&self, other: &Self) -> Option<Ordering> {
        Some(version_ordering(*self, *other))
    }
}

/// The order is lexicographic with `major` taking priority, and total: of two versions exactly
/// one precedes the other, or they are equal.
pub proof fn lemma_version_order_is_lexicographic(a: Version, b: Version)
    ensures
        (version_ordering(a, b) == Ordering::Less) == precedes(a, b),
        (version_ordering(a, b) == Ordering::Greater) == precedes(b, a),
        (version_ordering(a, b) == Ordering::Equal) == (a == b),
        precedes(a, b) || precedes(b, a) || a == b,
        !(precedes(a, b) && precedes(b, a)),
{
}

/// Precedence is transitive.
pub proof fn lemma_precedes_transitive(a: Version, b: Version, c: Version)
    requires
        precedes(a, b),
        precedes(b, c),
    ensures
        precedes(a, c),
{
}

} // verus!
