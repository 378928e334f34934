//! The HTTP protocol version: a closed set of five tags with a
//! canonical textual form, totally ordered by protocol generation so
//! that version-negotiation comparisons ("at least HTTP/2") work.

use vstd::prelude::*;

use vstd::std_specs::cmp::PartialOrdSpec;

verus! {

/// A version of the HTTP protocol, ordered oldest to newest.
#[derive(Debug, Clone, Copy, PartialEq, Eq, Structural, Hash)]
pub enum Version {
    Http09,
    Http10,
    Http11,
    H2,
    H3,
}

/// The protocol generation of a version: the rank that orders the
/// five tags as `Http09 < Http10 < Http11 < H2 < H3`.
pub open spec fn generation(v: Version) -> int {
    match v {
        Version::Http09 => 0,
        Version::Http10 => 1,
        Version::Http11 => 2,
        Version::H2 => 3,
        Version::H3 => 4,
    }
}

/// The canonical textual form of each version.
pub open spec fn version_text(v: Version) -> Seq<char> {
    match v {
        Version::Http09 => "HTTP/0.9"@,
        Version::Http10 => "HTTP/1.0"@,
        Version::Http11 => "HTTP/1.1"@,
        Version::H2 => "HTTP/2.0"@,
        Version::H3 => "HTTP/3.0"@,
    }
}

impl Version {
    /// The protocol generation as a number, usable for comparisons.
    pub fn generation_number(&self) -> (r: u8)
        ensures
            r == generation(*self),
    {
        match self {
            Version::Http09 => 0,
            Version::Http10 => 1,
            Version::Http11 => 2,
            Version::H2 => 3,
            Version::H3 => 4,
        }
    }

    /// The canonical textual form, `"HTTP/0.9"` through `"HTTP/3.0"`.
    pub fn to_text(&self) -> (r: &'static str)
        ensures
            r@ == version_text(*self),
    {
        match self {
            Version::Http09 => "HTTP/0.9",
            Version::Http10 => "HTTP/1.0",
            Version::Http11 => "HTTP/1.1",
            Version::H2 => "HTTP/2.0",
            Version::H3 => "HTTP/3.0",
        }
    }
}

impl Default for Version {
    /// The default version is HTTP/1.1.
    fn default() -> (r: Self)
        ensures
            r is Http11,
    {
        Version::Http11
    }
}

impl PartialOrd for Version {
    fn partial_cmp(&self, other: &Version) -> (r: Option<core::cmp::Ordering>) {
        let a = self.generation_number();
        let b = other.generation_number();
        if a < b {
            Some(core::cmp::Ordering::Less)
        } else if a == b {
            Some(core::cmp::Ordering::Equal)
        } else {
            Some(core::cmp::Ordering::Greater)
        }
    }
}

impl vstd::std_specs::cmp::PartialOrdSpecImpl for Version {
    open spec fn obeys_partial_cmp_spec() -> bool {
        true
    }

    open spec fn partial_cmp_spec(&self, other: &Version) -> Option<core::cmp::Ordering> {
        if generation(*self) < generation(*other) {
            Some(core::cmp::Ordering::Less)
        } else if generation(*self) == generation(*other) {
            Some(core::cmp::Ordering::Equal)
        } else {
            Some(core::cmp::Ordering::Greater)
        }
    }
}

/// Law: the comparison on versions is exactly the order of protocol
/// generations, so `Http09 < Http10 < Http11 < H2 < H3` holds for all
/// pairwise comparisons and the order is total.
pub proof fn lemma_version_order()
    ensures
        forall|a: Version, b: Version|
            #[trigger] a.partial_cmp_spec(&b) == Some(core::cmp::Ordering::Less) <==> generation(
                a,
            ) < generation(b),
        forall|a: Version, b: Version|
            #[trigger] a.partial_cmp_spec(&b) == Some(core::cmp::Ordering::Equal) <==> a == b,
        generation(Version::Http09) < generation(Version::Http10) < generation(Version::Http11)
            < generation(Version::H2) < generation(Version::H3),
{
    assert forall|a: Version, b: Version|
        #[trigger] a.partial_cmp_spec(&b) == Some(core::cmp::Ordering::Equal) <==> a == b by {
        if generation(a) == generation(b) {
            assert(a == b);
        }
    }
}

} // verus!
