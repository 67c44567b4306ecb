//! The semver questions the module matcher asks, answered by the
//! `nodejs-semver` crate behind named results.
//!
//! Whether a range string parses, whether a version string parses, and
//! whether a parsed version lies in a parsed range are all functions of the
//! two strings alone; this module gives each a name and routes the one
//! library call through a trusted wrapper speaking over those names.

use vstd::prelude::*;

verus! {

/// Whether `nodejs_semver::Range::parse` accepts the range source `r`.
pub uninterp spec fn range_parses(r: Seq<char>) -> bool;

/// Whether `nodejs_semver::Version::parse` accepts the version source `v`.
pub uninterp spec fn version_parses(v: Seq<char>) -> bool;

/// Whether the version written `v` satisfies the range written `r`, as
/// `nodejs_semver::Version::satisfies` decides it.
pub uninterp spec fn version_in_range(v: Seq<char>, r: Seq<char>) -> bool;

/// The error `nodejs-semver` reports for an unparseable range or version.
#[verifier::external_type_specification]
#[verifier::external_body]
pub struct ExSemverError(nodejs_semver::SemverError);

/// Relies on `nodejs_semver::Range::parse`: whether a range source is
/// accepted depends on the text alone.
#[verifier::external_body]
pub fn check_range(range_src: &str) -> (r: Result<(), nodejs_semver::SemverError>)
    ensures
        r is Ok <==> range_parses(range_src@),
{
    match nodejs_semver::Range::parse(range_src) {
        Ok(_) => Ok(()),
        Err(e) => Err(e),
    }
}

/// Relies on `nodejs_semver::Version::parse`, `nodejs_semver::Range::parse`
/// and `nodejs_semver::Version::satisfies`: all three are functions of the
/// two strings alone. Answers `false` whenever either string fails to parse.
#[verifier::external_body]
pub fn semver_satisfies(version: &str, range_src: &str) -> (r: bool)
    ensures
        r == (range_parses(range_src@) && version_parses(version@) && version_in_range(
            version@,
            range_src@,
        )),
{
    match nodejs_semver::Range::parse(range_src) {
        Err(_) => false,
        Ok(range) => match nodejs_semver::Version::parse(version) {
            Err(_) => false,
            Ok(v) => v.satisfies(&range),
        },
    }
}

} // verus!
