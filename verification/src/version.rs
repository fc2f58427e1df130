//! The closed, ordered set of supported API revisions.
//!
//! Every request against the local APIs names one of these dated revisions;
//! any other string is rejected.  The enumeration maps bidirectionally to a
//! canonical dashed-date string.

use vstd::prelude::*;

verus! {

use crate::error::{Error, ErrorKind};
use crate::strutil::str_eq;

/// A dated revision of the wire contract for the local APIs.
/// Ordered by release date; only the listed values exist.
#[derive(Clone, Copy, Debug, PartialEq, Eq, Structural)]
pub enum Version {
    Version2018_06_28,
    Version2018_12_30,
}

/// The newest revision this daemon speaks.
pub const CURRENT: Version = Version::Version2018_12_30;

/// The canonical dashed-date string of a revision.
pub open spec fn version_str(v: Version) -> Seq<char> {
    match v {
        Version::Version2018_06_28 => "2018-06-28"@,
        Version::Version2018_12_30 => "2018-12-30"@,
    }
}

/// The revision a string names, if any.
pub open spec fn spec_parse_version(s: Seq<char>) -> Option<Version> {
    if s == version_str(Version::Version2018_06_28) {
        Some(Version::Version2018_06_28)
    } else if s == version_str(Version::Version2018_12_30) {
        Some(Version::Version2018_12_30)
    } else {
        None
    }
}

/// Release-date position of a revision, for the total order.
pub open spec fn version_rank(v: Version) -> int {
    match v {
        Version::Version2018_06_28 => 0,
        Version::Version2018_12_30 => 1,
    }
}

impl Version {
    /// Parses a dashed-date string into a revision; any string outside the
    /// enumeration fails with `UnsupportedApiVersion`.
    pub fn parse(s: &str) -> (r: Result<Version, Error>)
        ensures
            match r {
                Ok(v) => spec_parse_version(s@) == Some(v),
                Err(e) => spec_parse_version(s@) is None && e.kind == ErrorKind::UnsupportedApiVersion,
            },
    {
        if str_eq(s, "2018-06-28") {
            Ok(Version::Version2018_06_28)
        } else if str_eq(s, "2018-12-30") {
            Ok(Version::Version2018_12_30)
        } else {
            Err(Error::new(ErrorKind::UnsupportedApiVersion))
        }
    }

    /// Renders a revision as its canonical dashed-date string.
    pub fn render(&self) -> (r: String)
        ensures
            r@ == version_str(*self),
    {
        match self {
            Version::Version2018_06_28 => "2018-06-28".to_owned(),
            Version::Version2018_12_30 => "2018-12-30".to_owned(),
        }
    }

    /// Whether `self` was released no later than `other`.
    pub fn le(&self, other: &Version) -> (r: bool)
        ensures
            r == (version_rank(*self) <= version_rank(*other)),
    {
        match self {
            Version::Version2018_06_28 => true,
            Version::Version2018_12_30 => match other {
                Version::Version2018_06_28 => false,
                Version::Version2018_12_30 => true,
            },
        }
    }
}

/// Version round-trip: rendering a revision and parsing it back yields the
/// same revision, and a string parses to a revision only when it is that
/// revision's canonical string.
pub proof fn lemma_version_round_trip(v: Version)
    ensures
        spec_parse_version(version_str(v)) == Some(v),
        forall|s: Seq<char>| spec_parse_version(s) == Some(v) ==> s == version_str(v),
{
    reveal_strlit("2018-06-28");
    reveal_strlit("2018-12-30");
    assert("2018-06-28"@[5] != "2018-12-30"@[5]);
}

} // verus!
