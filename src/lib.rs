//! Computes the next semantic version of a project from the commit messages
//! written since its last release tag, after the Conventional Commits style.
use vstd::prelude::*;

pub mod config;
pub mod error;
pub mod laws;
pub mod pattern;
pub mod project;
pub mod repository;
pub mod semantic;
pub mod version;

verus! {

/// How the version is to be bumped: `Auto` derives the bump from the commits,
/// the other variants name it outright. `NoBump`, `Patch`, `Minor` and `Major`
/// double as the severity that classifying commits produces.
#[derive(Debug, Clone, Copy, PartialEq, Eq, Structural)]
pub enum VersionBumpBehavior {
    NoBump,
    Auto,
    Major,
    Minor,
    Patch,
}

/// The next version of the project that `config` describes, from the commits
/// and the last tag that `repo` reports: the resolution of
/// `version::get_next_version` over whatever `repo` hands over.
pub fn get_version<R: repository::Repository>(
    config: &config::ProjectConfig,
    repo: &R,
    bump_behavior: VersionBumpBehavior,
    release: bool,
) -> (r: Result<String, error::CalcverError>)
    ensures
        exists|commits: Seq<Seq<char>>, last_tag: Option<Seq<char>>|
            #[trigger] version::resolve(config.rules(), bump_behavior, commits, last_tag, release)
                == error::outcome(r),
{
    let commits = repo.get_commits_since_last_tag();
    let last_tag = repo.get_last_tag();
    let r = version::resolve_with(
        &config.tag_regex,
        &config.major_regex,
        &config.minor_regex,
        &config.patch_regex,
        &config.prerelease_prefix,
        bump_behavior,
        commits,
        last_tag,
        release,
    );
    assert(version::resolve(
        config.rules(),
        bump_behavior,
        version::texts(commits@),
        version::tag_view(last_tag),
        release,
    ) == error::outcome(r));
    r
}

} // verus!
