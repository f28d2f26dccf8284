//! Semantic versions, through the `semver` crate, and their decimal text.
use vstd::prelude::*;

verus! {

#[verifier::external_type_specification]
#[verifier::external_body]
pub struct ExSemVerError(semver::SemVerError);

/// The numeric fields that `semver::Version::parse` reads from `text`, or
/// `None` where it refuses the text.
pub uninterp spec fn parsed_version(text: Seq<char>) -> Option<(u64, u64, u64)>;

/// A release version: its pre-release and build parts are never kept.
#[derive(Debug, Clone, Copy, PartialEq, Eq, Structural)]
pub struct SemanticVersion {
    pub major: u64,
    pub minor: u64,
    pub patch: u64,
}

/// The character of the decimal digit `d`.
pub open spec fn digit(d: nat) -> char {
    seq!['0', '1', '2', '3', '4', '5', '6', '7', '8', '9'][d as int]
}

/// `n` in decimal, without leading zeros.
pub open spec fn decimal(n: nat) -> Seq<char>
    decreases n,
{
    if n < 10 {
        seq![digit(n)]
    } else {
        decimal(n / 10).push(digit(n % 10))
    }
}

/// The release form `MAJOR.MINOR.PATCH`.
pub open spec fn version_text(major: nat, minor: nat, patch: nat) -> Seq<char> {
    decimal(major) + seq!['.'] + decimal(minor) + seq!['.'] + decimal(patch)
}

/// Relies on `semver::Version::parse`, of whose result the numeric fields are kept.
#[verifier::external_body]
pub(crate) fn parse_version(text: &str) -> (r: Result<SemanticVersion, semver::SemVerError>)
    ensures
        match r {
            Ok(v) => parsed_version(text@) == Some((v.major, v.minor, v.patch)),
            Err(_) => parsed_version(text@) is None,
        },
{
    match semver::Version::parse(text) {
        Ok(v) => Ok(SemanticVersion { major: v.major, minor: v.minor, patch: v.patch }),
        Err(e) => Err(e),
    }
}

/// Relies on `semver::Version::new` and its `Display`: a version without
/// pre-release or build parts prints as its three fields in decimal, joined by dots.
#[verifier::external_body]
pub(crate) fn render(v: SemanticVersion) -> (r: String)
    ensures
        r@ == version_text(v.major as nat, v.minor as nat, v.patch as nat),
{
    semver::Version::new(v.major, v.minor, v.patch).to_string()
}

/// Relies on `usize`'s `to_string`: the number in decimal.
#[verifier::external_body]
pub(crate) fn count_text(n: usize) -> (r: String)
    ensures
        r@ == decimal(n as nat),
{
    n.to_string()
}

} // verus!
