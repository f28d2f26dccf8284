//! Resolution of the next version: the tag is read for the current version,
//! the commits are classified into a bump, the bump is applied, and a
//! pre-release label is added when no release is cut.
use vstd::prelude::*;
use crate::VersionBumpBehavior;
use crate::error::{CalcverError, CalcverErrorReason, Failure};
use crate::pattern::Pattern;
use crate::semantic::{SemanticVersion, parse_version, render, count_text};

verus! {

/// The settings that resolution reads, as mathematical strings.
pub struct Rules {
    pub tag_regex: Seq<char>,
    pub major_regex: Seq<char>,
    pub minor_regex: Seq<char>,
    pub patch_regex: Seq<char>,
    pub prerelease_prefix: Seq<char>,
}

/// The texts of a list of strings.
pub open spec fn texts(v: Seq<String>) -> Seq<Seq<char>> {
    v.map_values(|s: String| s@)
}

/// The text of an optional string slice.
pub open spec fn tag_view(t: Option<&str>) -> Option<Seq<char>> {
    match t {
        Some(s) => Some(s@),
        None => None,
    }
}

/// The version assumed where no tag gives one.
pub open spec fn zero_version() -> Seq<char> {
    seq!['0', '.', '0', '.', '0']
}

/// The version text that the tag pattern finds in the last tag.
pub open spec fn extract_version(tag_regex: Seq<char>, last_tag: Option<Seq<char>>) -> Result<
    Seq<char>,
    Failure,
> {
    if !crate::pattern::pattern_compiles(tag_regex) {
        Err(Failure::InvalidPattern(tag_regex))
    } else {
        match last_tag {
            None => Ok(zero_version()),
            Some(t) => match crate::pattern::leftmost_match(tag_regex, t) {
                Some(m) => Ok(m),
                None => Ok(zero_version()),
            },
        }
    }
}

/// Some commit of the list matches `pattern`.
pub open spec fn any_matches(pattern: Seq<char>, commits: Seq<Seq<char>>) -> bool {
    exists|j: int|
        0 <= j < commits.len() && #[trigger] crate::pattern::matches_anywhere(pattern, commits[j])
}

/// The bump that a list of commits calls for: none for no commits; major if
/// any commit matches the major pattern; else minor if any matches the minor
/// pattern; else patch, whether a commit matches the patch pattern or nothing.
pub open spec fn classify(
    major_regex: Seq<char>,
    minor_regex: Seq<char>,
    commits: Seq<Seq<char>>,
) -> VersionBumpBehavior {
    if commits.len() == 0 {
        VersionBumpBehavior::NoBump
    } else if any_matches(major_regex, commits) {
        VersionBumpBehavior::Major
    } else if any_matches(minor_regex, commits) {
        VersionBumpBehavior::Minor
    } else {
        VersionBumpBehavior::Patch
    }
}

/// Classification, once the three patterns are known to compile; the first of
/// them that does not is the error.
pub open spec fn severity(
    major_regex: Seq<char>,
    minor_regex: Seq<char>,
    patch_regex: Seq<char>,
    commits: Seq<Seq<char>>,
) -> Result<VersionBumpBehavior, Failure> {
    if !crate::pattern::pattern_compiles(major_regex) {
        Err(Failure::InvalidPattern(major_regex))
    } else if !crate::pattern::pattern_compiles(minor_regex) {
        Err(Failure::InvalidPattern(minor_regex))
    } else if !crate::pattern::pattern_compiles(patch_regex) {
        Err(Failure::InvalidPattern(patch_regex))
    } else {
        Ok(classify(major_regex, minor_regex, commits))
    }
}

/// The fields after a bump; `None` for `Auto`, which names no bump.
pub open spec fn bumped(b: VersionBumpBehavior, major: int, minor: int, patch: int) -> Option<
    (int, int, int),
> {
    match b {
        VersionBumpBehavior::Major => Some((major + 1, 0, 0)),
        VersionBumpBehavior::Minor => Some((major, minor + 1, 0)),
        VersionBumpBehavior::Patch => Some((major, minor, patch + 1)),
        VersionBumpBehavior::NoBump => Some((major, minor, patch)),
        VersionBumpBehavior::Auto => None,
    }
}

/// Whether each field fits the 64 bits that a version field has.
pub open spec fn fits(v: (int, int, int)) -> bool {
    0 <= v.0 <= u64::MAX && 0 <= v.1 <= u64::MAX && 0 <= v.2 <= u64::MAX
}

/// The release form of `text` after the bump `b`.
pub open spec fn bump_outcome(b: VersionBumpBehavior, text: Seq<char>) -> Result<Seq<char>, Failure> {
    match crate::semantic::parsed_version(text) {
        None => Err(Failure::InvalidVersion(text)),
        Some(v) => match bumped(b, v.0 as int, v.1 as int, v.2 as int) {
            None => Err(Failure::Unknown),
            Some(n) => if fits(n) {
                Ok(crate::semantic::version_text(n.0 as nat, n.1 as nat, n.2 as nat))
            } else {
                Err(Failure::InvalidVersion(text))
            },
        },
    }
}

/// The pre-release label `-{prefix}.{count}`.
pub open spec fn prerelease_label(prefix: Seq<char>, count: nat) -> Seq<char> {
    seq!['-'] + prefix + seq!['.'] + crate::semantic::decimal(count)
}

/// The output form of a bumped version: a release, or a resolution over no
/// commits, is the version itself; otherwise the label counts the commits.
pub open spec fn compose(bumped: Seq<char>, prefix: Seq<char>, count: nat, release: bool) -> Seq<char> {
    if release || count == 0 {
        bumped
    } else {
        bumped + prerelease_label(prefix, count)
    }
}

/// The release form of the next version, before any label.
pub open spec fn next_release(
    rules: Rules,
    mode: VersionBumpBehavior,
    commits: Seq<Seq<char>>,
    last_tag: Option<Seq<char>>,
) -> Result<Seq<char>, Failure> {
    let sev = if mode is Auto {
        severity(rules.major_regex, rules.minor_regex, rules.patch_regex, commits)
    } else {
        Ok(mode)
    };
    match sev {
        Err(e) => Err(e),
        Ok(b) => match extract_version(rules.tag_regex, last_tag) {
            Err(e) => Err(e),
            Ok(current) => bump_outcome(b, current),
        },
    }
}

/// The whole resolution: a release over no commits is refused at once;
/// otherwise the next release version, labelled unless a release is cut.
pub open spec fn resolve(
    rules: Rules,
    mode: VersionBumpBehavior,
    commits: Seq<Seq<char>>,
    last_tag: Option<Seq<char>>,
    release: bool,
) -> Result<Seq<char>, Failure> {
    if release && commits.len() == 0 {
        Err(Failure::NoCommitsOnRelease)
    } else {
        match next_release(rules, mode, commits, last_tag) {
            Err(e) => Err(e),
            Ok(b) => Ok(compose(b, rules.prerelease_prefix, commits.len(), release)),
        }
    }
}

/// The text `0.0.0`.
fn zero() -> (r: String)
    ensures
        r@ == zero_version(),
{
    let r = String::from_str("0.0.0");
    proof {
        reveal_strlit("0.0.0");
        assert(r@ =~= zero_version());
    }
    r
}

/// Compiles `pattern`, with a refusal turned into an error that names it.
fn compile_pattern(pattern: &String) -> (r: Result<Pattern, CalcverError>)
    ensures
        match r {
            Ok(p) => crate::pattern::pattern_compiles(pattern@) && p@ == pattern@,
            Err(e) => !crate::pattern::pattern_compiles(pattern@) && e@ == Failure::InvalidPattern(
                pattern@,
            ),
        },
{
    match Pattern::compile(pattern.as_str()) {
        Ok(p) => Ok(p),
        Err(_) => Err(CalcverError::of(CalcverErrorReason::InvalidPattern(pattern.clone()))),
    }
}

/// The version that a tag holds: the first match of the tag pattern in it,
/// verbatim, or `0.0.0` where there is no tag or no match.
pub fn get_current_version(tag_regex: &String, last_tag: Option<&str>) -> (r: Result<
    String,
    CalcverError,
>)
    ensures
        crate::error::outcome(r) == extract_version(tag_regex@, tag_view(last_tag)),
{
    let re = match compile_pattern(tag_regex) {
        Ok(p) => p,
        Err(e) => return Err(e),
    };
    match last_tag {
        Some(tag) => match re.find_in(tag) {
            Some(m) => Ok(m),
            None => Ok(zero()),
        },
        None => Ok(zero()),
    }
}


/// The bump that `commits` call for under the three patterns. A commit that
/// matches the major pattern settles the result at once; one that matches the
/// minor pattern raises it to minor; any other raises it to patch, never
/// lowering a minor.
pub fn get_bump_behavior(
    major_regex: &String,
    minor_regex: &String,
    patch_regex: &String,
    commits: &Vec<String>,
) -> (r: Result<VersionBumpBehavior, CalcverError>)
    ensures
        match r {
            Ok(b) => severity(major_regex@, minor_regex@, patch_regex@, texts(commits@)) == Ok::<
                VersionBumpBehavior,
                Failure,
            >(b),
            Err(e) => severity(major_regex@, minor_regex@, patch_regex@, texts(commits@)) == Err::<
                VersionBumpBehavior,
                Failure,
            >(e@),
        },
{
    let major = match compile_pattern(major_regex) {
        Ok(p) => p,
        Err(e) => return Err(e),
    };
    let minor = match compile_pattern(minor_regex) {
        Ok(p) => p,
        Err(e) => return Err(e),
    };
    match compile_pattern(patch_regex) {
        Ok(_) => {},
        Err(e) => return Err(e),
    }
    let ghost all = texts(commits@);
    let mut b = VersionBumpBehavior::NoBump;
    let mut i: usize = 0;
    while i < commits.len()
        invariant
            i <= commits.len(),
            all == texts(commits@),
            all.len() == commits.len(),
            crate::pattern::pattern_compiles(major_regex@),
            crate::pattern::pattern_compiles(minor_regex@),
            crate::pattern::pattern_compiles(patch_regex@),
            major@ == major_regex@,
            minor@ == minor_regex@,
            forall|j: int|
                0 <= j < i ==> !#[trigger] crate::pattern::matches_anywhere(major_regex@, all[j]),
            b == (if i == 0 {
                VersionBumpBehavior::NoBump
            } else if any_matches(minor_regex@, all.subrange(0, i as int)) {
                VersionBumpBehavior::Minor
            } else {
                VersionBumpBehavior::Patch
            }),
        decreases commits.len() - i,
    {
        let msg = commits[i].as_str();
        assert(all[i as int] == msg@);
        let ghost seen = all.subrange(0, i as int);
        let ghost next = all.subrange(0, i + 1);
        if major.is_match(msg) {
            assert(crate::pattern::matches_anywhere(major_regex@, all[i as int]));
            assert(any_matches(major_regex@, all));
            return Ok(VersionBumpBehavior::Major);
        }
        assert forall|j: int| 0 <= j < seen.len() implies next[j] == seen[j] by {}
        assert(next[i as int] == all[i as int]);
        if minor.is_match(msg) {
            assert(crate::pattern::matches_anywhere(minor_regex@, next[i as int]));
            b = VersionBumpBehavior::Minor;
        } else {
            proof {
                if any_matches(minor_regex@, next) {
                    let j = choose|j: int|
                        0 <= j < next.len() && #[trigger] crate::pattern::matches_anywhere(
                            minor_regex@,
                            next[j],
                        );
                    assert(crate::pattern::matches_anywhere(minor_regex@, seen[j]));
                }
                if any_matches(minor_regex@, seen) {
                    let j = choose|j: int|
                        0 <= j < seen.len() && #[trigger] crate::pattern::matches_anywhere(
                            minor_regex@,
                            seen[j],
                        );
                    assert(crate::pattern::matches_anywhere(minor_regex@, next[j]));
                }
            }
            if let VersionBumpBehavior::NoBump = b {
                b = VersionBumpBehavior::Patch;
            }
        }
        i = i + 1;
    }
    proof {
        assert(all.subrange(0, all.len() as int) =~= all);
    }
    Ok(b)
}


/// Applies the bump `b` to the semantic version `current`. The result is the
/// release form: pre-release and build parts of `current` do not survive.
pub fn bump_version(b: VersionBumpBehavior, current: &str) -> (r: Result<String, CalcverError>)
    ensures
        crate::error::outcome(r) == bump_outcome(b, current@),
{
    let v = match parse_version(current) {
        Ok(v) => v,
        Err(_) => {
            return Err(
                CalcverError::of(CalcverErrorReason::InvalidVersion(String::from_str(current))),
            )
        },
    };
    let next = match b {
        VersionBumpBehavior::Major => {
            if v.major == u64::MAX {
                return Err(
                    CalcverError::of(
                        CalcverErrorReason::InvalidVersion(String::from_str(current)),
                    ),
                );
            }
            SemanticVersion { major: v.major + 1, minor: 0, patch: 0 }
        },
        VersionBumpBehavior::Minor => {
            if v.minor == u64::MAX {
                return Err(
                    CalcverError::of(
                        CalcverErrorReason::InvalidVersion(String::from_str(current)),
                    ),
                );
            }
            SemanticVersion { major: v.major, minor: v.minor + 1, patch: 0 }
        },
        VersionBumpBehavior::Patch => {
            if v.patch == u64::MAX {
                return Err(
                    CalcverError::of(
                        CalcverErrorReason::InvalidVersion(String::from_str(current)),
                    ),
                );
            }
            SemanticVersion { major: v.major, minor: v.minor, patch: v.patch + 1 }
        },
        VersionBumpBehavior::NoBump => v,
        VersionBumpBehavior::Auto => {
            return Err(CalcverError::of(CalcverErrorReason::Unknown));
        },
    };
    Ok(render(next))
}

/// Appends the label `-{prefix}.{count}` to `version`.
fn add_prerelease(version: String, prefix: &str, count: usize) -> (r: String)
    ensures
        r@ == version@ + prerelease_label(prefix@, count as nat),
{
    let mut r = version;
    let number = count_text(count);
    proof {
        reveal_strlit("-");
        reveal_strlit(".");
    }
    r.append("-");
    r.append(prefix);
    r.append(".");
    r.append(number.as_str());
    proof {
        assert(r@ =~= version@ + prerelease_label(prefix@, count as nat));
    }
    r
}

/// Resolution over settings given one by one.
pub(crate) fn resolve_with(
    tag_regex: &String,
    major_regex: &String,
    minor_regex: &String,
    patch_regex: &String,
    prerelease_prefix: &String,
    bump_behavior: VersionBumpBehavior,
    commits: &Vec<String>,
    last_tag: Option<&str>,
    release: bool,
) -> (r: Result<String, CalcverError>)
    ensures
        crate::error::outcome(r) == resolve(
            Rules {
                tag_regex: tag_regex@,
                major_regex: major_regex@,
                minor_regex: minor_regex@,
                patch_regex: patch_regex@,
                prerelease_prefix: prerelease_prefix@,
            },
            bump_behavior,
            texts(commits@),
            tag_view(last_tag),
            release,
        ),
{
    if commits.len() == 0 && release {
        return Err(CalcverError::of(CalcverErrorReason::NoCommitsOnRelease));
    }
    let normalized = match bump_behavior {
        VersionBumpBehavior::Auto => match get_bump_behavior(
            major_regex,
            minor_regex,
            patch_regex,
            commits,
        ) {
            Ok(b) => b,
            Err(e) => return Err(e),
        },
        _ => bump_behavior,
    };
    let current = match get_current_version(tag_regex, last_tag) {
        Ok(c) => c,
        Err(e) => return Err(e),
    };
    let next = match bump_version(normalized, current.as_str()) {
        Ok(n) => n,
        Err(e) => return Err(e),
    };
    if release || commits.len() == 0 {
        Ok(next)
    } else {
        Ok(add_prerelease(next, prerelease_prefix.as_str(), commits.len()))
    }
}

/// The next version of `repo`, given the commits since its last tag and that
/// tag: under `Auto` the commits decide the bump, any other mode is applied as
/// it stands. A release over no commits is an error; outside a release, a
/// version over some commits carries the label `-{prefix}.{number of commits}`.
pub fn get_next_version(
    repo: &crate::project::Project,
    bump_behavior: VersionBumpBehavior,
    commits: &Vec<String>,
    last_tag: Option<&str>,
    release: bool,
) -> (r: Result<String, CalcverError>)
    ensures
        crate::error::outcome(r) == resolve(
            repo.rules(),
            bump_behavior,
            texts(commits@),
            tag_view(last_tag),
            release,
        ),
{
    resolve_with(
        &repo.tag_regex,
        &repo.major_regex,
        &repo.minor_regex,
        &repo.patch_regex,
        &repo.prerelease_prefix,
        bump_behavior,
        commits,
        last_tag,
        release,
    )
}

} // verus!
