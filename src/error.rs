//! Errors of version resolution.
use vstd::prelude::*;

verus! {

/// The mathematical form of an error: what contracts speak of.
pub enum Failure {
    Unknown,
    Library(Seq<char>),
    InvalidPattern(Seq<char>),
    InvalidVersion(Seq<char>),
    NoCommitsOnRelease,
}

/// Why a resolution failed.
#[derive(PartialEq, Debug, Clone)]
pub enum CalcverErrorReason {
    /// A bump mode reached the bumper without naming a concrete bump.
    Unknown,
    /// A collaborator outside the resolver failed; the text describes it.
    Library(String),
    /// The configured pattern does not compile as a regular expression.
    InvalidPattern(String),
    /// The text taken from the tag is no semantic version, or cannot be bumped.
    InvalidVersion(String),
    /// A release was asked for with no commits to release.
    NoCommitsOnRelease,
}

impl View for CalcverErrorReason {
    type V = Failure;

    open spec fn view(&self) -> Failure {
        match self {
            CalcverErrorReason::Unknown => Failure::Unknown,
            CalcverErrorReason::Library(s) => Failure::Library(s@),
            CalcverErrorReason::InvalidPattern(s) => Failure::InvalidPattern(s@),
            CalcverErrorReason::InvalidVersion(s) => Failure::InvalidVersion(s@),
            CalcverErrorReason::NoCommitsOnRelease => Failure::NoCommitsOnRelease,
        }
    }
}

/// The error that every fallible operation of the crate returns.
#[derive(Debug, PartialEq)]
pub struct CalcverError {
    pub reason: CalcverErrorReason,
}

impl View for CalcverError {
    type V = Failure;

    open spec fn view(&self) -> Failure {
        self.reason@
    }
}

impl CalcverError {
    pub fn of(e: CalcverErrorReason) -> (r: CalcverError)
        ensures
            r.reason == e,
    {
        CalcverError { reason: e }
    }

    /// An error raised by a collaborator, carried as its description.
    pub fn with(cause: String) -> (r: CalcverError)
        ensures
            r@ == Failure::Library(cause@),
    {
        CalcverError::of(CalcverErrorReason::Library(cause))
    }
}

/// The mathematical form of a result that carries a string.
pub open spec fn outcome(r: Result<String, CalcverError>) -> Result<Seq<char>, Failure> {
    match r {
        Ok(s) => Ok(s@),
        Err(e) => Err(e@),
    }
}

} // verus!
