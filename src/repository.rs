//! Where commits and tags come from: a version-control collaborator that
//! users of the crate implement.
use vstd::prelude::*;

verus! {

/// A source of the last release tag and of the commits made since.
pub trait Repository {
    /// The last tag, if there is one.
    fn get_last_tag(&self) -> Option<&str>;

    /// The messages of the commits made since the last tag, in full.
    fn get_commits_since_last_tag(&self) -> &Vec<String>;
}

} // verus!
