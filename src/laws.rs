//! Laws of version resolution, proved over the specifications that the
//! functions' contracts use.
use vstd::prelude::*;
use crate::VersionBumpBehavior;
use crate::error::Failure;
use crate::version::Rules;

verus! {

/// With no tag, the current version is `0.0.0`.
pub proof fn lemma_absent_tag_is_zero(tag_regex: Seq<char>)
    requires
        crate::pattern::pattern_compiles(tag_regex),
    ensures
        crate::version::extract_version(tag_regex, None) == Ok::<Seq<char>, Failure>(
            crate::version::zero_version(),
        ),
{
}

/// A tag in which the tag pattern matches nowhere gives the version `0.0.0`.
pub proof fn lemma_unmatched_tag_is_zero(tag_regex: Seq<char>, tag: Seq<char>)
    requires
        crate::pattern::pattern_compiles(tag_regex),
        !crate::pattern::matches_anywhere(tag_regex, tag),
    ensures
        crate::version::extract_version(tag_regex, Some(tag)) == Ok::<Seq<char>, Failure>(
            crate::version::zero_version(),
        ),
{
}

/// One commit that matches the major pattern makes the bump major, whatever
/// the other commits say and wherever that commit stands among them.
pub proof fn lemma_major_wins(
    major_regex: Seq<char>,
    minor_regex: Seq<char>,
    patch_regex: Seq<char>,
    commits: Seq<Seq<char>>,
    i: int,
)
    requires
        crate::pattern::pattern_compiles(major_regex),
        crate::pattern::pattern_compiles(minor_regex),
        crate::pattern::pattern_compiles(patch_regex),
        0 <= i < commits.len(),
        crate::pattern::matches_anywhere(major_regex, commits[i]),
    ensures
        crate::version::severity(major_regex, minor_regex, patch_regex, commits) == Ok::<
            VersionBumpBehavior,
            Failure,
        >(VersionBumpBehavior::Major),
{
    assert(crate::version::any_matches(major_regex, commits));
}

/// No commits call for no bump.
pub proof fn lemma_no_commits_no_bump(
    major_regex: Seq<char>,
    minor_regex: Seq<char>,
    patch_regex: Seq<char>,
)
    requires
        crate::pattern::pattern_compiles(major_regex),
        crate::pattern::pattern_compiles(minor_regex),
        crate::pattern::pattern_compiles(patch_regex),
    ensures
        crate::version::severity(major_regex, minor_regex, patch_regex, Seq::empty()) == Ok::<
            VersionBumpBehavior,
            Failure,
        >(VersionBumpBehavior::NoBump),
{
}

/// Bumping by nothing keeps the three fields of a valid version.
pub proof fn lemma_no_bump_keeps_version(text: Seq<char>)
    requires
        crate::semantic::parsed_version(text) is Some,
    ensures
        ({
            let v = crate::semantic::parsed_version(text)->0;
            crate::version::bump_outcome(VersionBumpBehavior::NoBump, text) == Ok::<
                Seq<char>,
                Failure,
            >(crate::semantic::version_text(v.0 as nat, v.1 as nat, v.2 as nat))
        }),
{
}

/// A major bump sets minor and patch to zero; a minor bump sets patch to zero.
pub proof fn lemma_bump_resets_lower_fields(text: Seq<char>)
    requires
        crate::semantic::parsed_version(text) is Some,
    ensures
        ({
            let v = crate::semantic::parsed_version(text)->0;
            &&& v.0 < u64::MAX ==> crate::version::bump_outcome(VersionBumpBehavior::Major, text)
                == Ok::<Seq<char>, Failure>(
                crate::semantic::version_text(v.0 as nat + 1, 0, 0),
            )
            &&& v.1 < u64::MAX ==> crate::version::bump_outcome(VersionBumpBehavior::Minor, text)
                == Ok::<Seq<char>, Failure>(
                crate::semantic::version_text(v.0 as nat, v.1 as nat + 1, 0),
            )
        }),
{
}

/// A decimal digit is neither `-` nor `+`.
proof fn lemma_digit_unsigned(d: nat)
    requires
        d < 10,
    ensures
        crate::semantic::digit(d) != '-' && crate::semantic::digit(d) != '+',
{
    let ds = seq!['0', '1', '2', '3', '4', '5', '6', '7', '8', '9'];
    assert(ds[0] == '0' && ds[1] == '1' && ds[2] == '2' && ds[3] == '3' && ds[4] == '4');
    assert(ds[5] == '5' && ds[6] == '6' && ds[7] == '7' && ds[8] == '8' && ds[9] == '9');
}

/// The decimal digits of a number hold neither `-` nor `+`.
proof fn lemma_decimal_unsigned(n: nat)
    ensures
        forall|k: int|
            0 <= k < crate::semantic::decimal(n).len() ==> #[trigger] crate::semantic::decimal(
                n,
            )[k] != '-' && crate::semantic::decimal(n)[k] != '+',
    decreases n,
{
    lemma_digit_unsigned(n % 10);
    if n >= 10 {
        lemma_decimal_unsigned(n / 10);
        let head = crate::semantic::decimal(n / 10);
        let all = crate::semantic::decimal(n);
        assert forall|k: int| 0 <= k < all.len() implies #[trigger] all[k] != '-' && all[k]
            != '+' by {
            if k < head.len() {
                assert(all[k] == head[k]);
            }
        }
    }
}

/// What a bump returns is a release version: pre-release and build parts,
/// which `-` and `+` introduce, never survive it.
pub proof fn lemma_bump_drops_metadata(b: VersionBumpBehavior, text: Seq<char>)
    ensures
        crate::version::bump_outcome(b, text) matches Ok(s) ==> forall|k: int|
            0 <= k < s.len() ==> #[trigger] s[k] != '-' && s[k] != '+',
{
    if let Ok(s) = crate::version::bump_outcome(b, text) {
        let v = crate::semantic::parsed_version(text)->0;
        let n = crate::version::bumped(b, v.0 as int, v.1 as int, v.2 as int)->0;
        lemma_decimal_unsigned(n.0 as nat);
        lemma_decimal_unsigned(n.1 as nat);
        lemma_decimal_unsigned(n.2 as nat);
        let a = crate::semantic::decimal(n.0 as nat);
        let m = crate::semantic::decimal(n.1 as nat);
        let p = crate::semantic::decimal(n.2 as nat);
        assert forall|k: int| 0 <= k < s.len() implies #[trigger] s[k] != '-' && s[k] != '+' by {
            if k < a.len() {
                assert(s[k] == a[k]);
            } else if k == a.len() {
                assert(s[k] == '.');
            } else if k < a.len() + 1 + m.len() {
                assert(s[k] == m[k - a.len() - 1]);
            } else if k == a.len() + 1 + m.len() {
                assert(s[k] == '.');
            } else {
                assert(s[k] == p[k - a.len() - 2 - m.len()]);
            }
        }
    }
}

/// A release over no commits fails, whatever the mode and the tag.
pub proof fn lemma_release_needs_commits(
    rules: Rules,
    mode: VersionBumpBehavior,
    last_tag: Option<Seq<char>>,
)
    ensures
        crate::version::resolve(rules, mode, Seq::empty(), last_tag, true) == Err::<
            Seq<char>,
            Failure,
        >(Failure::NoCommitsOnRelease),
{
}

/// Outside a release, resolution over some commits gives the release version
/// with `-{prefix}.{number of commits}` appended; over no commits it gives the
/// bumped version with nothing appended.
pub proof fn lemma_prerelease_suffix(
    rules: Rules,
    mode: VersionBumpBehavior,
    commits: Seq<Seq<char>>,
    last_tag: Option<Seq<char>>,
)
    ensures
        commits.len() > 0 ==> crate::version::resolve(rules, mode, commits, last_tag, false) == (
        match crate::version::resolve(rules, mode, commits, last_tag, true) {
            Ok(s) => Ok(
                s + crate::version::prerelease_label(rules.prerelease_prefix, commits.len()),
            ),
            Err(e) => Err(e),
        }),
        commits.len() == 0 ==> crate::version::resolve(rules, mode, commits, last_tag, false)
            == crate::version::next_release(rules, mode, commits, last_tag),
{
}

} // verus!
