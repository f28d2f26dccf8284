use calcver::project;
use calcver::version::{bump_version, get_bump_behavior, get_current_version};
use calcver::error::{CalcverError, CalcverErrorReason};
use calcver::VersionBumpBehavior;

fn get_project() -> project::Project {
    project::Project::from(".").finalize()
}

fn classify(p: &project::Project, commits: &Vec<String>) -> VersionBumpBehavior {
    get_bump_behavior(&p.major_regex, &p.minor_regex, &p.patch_regex, commits).unwrap()
}

#[test]
fn empty_tag_is_version_0() {
    assert_eq!("0.0.0", get_current_version(&get_project().tag_regex, None).unwrap());
}

#[test]
fn unmatched_tag_is_version_0() {
    assert_eq!("0.0.0", get_current_version(&get_project().tag_regex, Some("unrelated-tag")).unwrap());
}

#[test]
fn last_tag_has_value() {
    assert_eq!("1.2.3", get_current_version(&get_project().tag_regex, Some("1.2.3")).unwrap());
}

#[test]
fn tag_match_is_taken_out_of_the_tag() {
    let p = get_project();
    assert_eq!("10.20.30", get_current_version(&p.tag_regex, Some("release/v10.20.30-rc.1")).unwrap());
    assert_eq!("1.2.3", get_current_version(&p.tag_regex, Some("v1.2.3 then 4.5.6")).unwrap());
}

#[test]
fn tag_match_is_verbatim() {
    let pattern = String::from(r"\d+\.\d+\.\d+-\w+");
    assert_eq!("01.2.3-beta", get_current_version(&pattern, Some("v01.2.3-beta")).unwrap());
}

#[test]
fn absent_or_unmatched_tag_is_zero_under_any_valid_pattern() {
    for pattern in [r"\d+", "^release$", "x"] {
        assert_eq!("0.0.0", get_current_version(&String::from(pattern), None).unwrap());
        assert_eq!("0.0.0", get_current_version(&String::from(pattern), Some("no digits at all here")).unwrap());
    }
}

#[test]
fn invalid_tag_pattern_fails_even_without_tag() {
    let e = get_current_version(&String::from("[a-"), None).unwrap_err();
    assert_eq!(CalcverErrorReason::InvalidPattern(String::from("[a-")), e.reason);
}

#[test]
fn bump_behavior_minor() {
    let tae = vec!["feat".to_string(), "fix".to_string(), "poop".to_string()];
    let repo = get_project();

    assert_eq!(VersionBumpBehavior::Minor, classify(&repo, &tae));
}

#[test]
fn bump_behavior_major() {
    let tae = vec!["feat: messsage\n\ndesc\n\nBREAKING CHANGE: some breaking change".to_string(), "fix: message".to_string(), "feat: message\n\n".to_string()];
    let repo = get_project();

    assert_eq!(VersionBumpBehavior::Major, classify(&repo, &tae));
}

#[test]
fn bump_behavior_patch() {
    let tae = vec!["docs: messsage\n\ndesc\n\ncloses #5".to_string(), "fix: message".to_string(), "fix: message\n\n".to_string()];
    let repo = get_project();

    assert_eq!(VersionBumpBehavior::Patch, classify(&repo, &tae));
}

#[test]
fn bump_behavior_patch_if_no_matches() {
    let tae = vec!["poop".to_string()];
    let repo = get_project();

    assert_eq!(VersionBumpBehavior::Patch, classify(&repo, &tae));
}

#[test]
fn no_commits_no_bump() {
    let tae: Vec<String> = vec![];
    assert_eq!(VersionBumpBehavior::NoBump, classify(&get_project(), &tae));
}

#[test]
fn major_wins_wherever_it_stands() {
    let p = get_project();
    let breaking = "fix: y\n\nBREAKING CHANGE: z".to_string();
    for at in 0..4 {
        let mut tae = vec!["feat: a".to_string(), "docs: b".to_string(), "fix: c".to_string()];
        tae.insert(at, breaking.clone());
        assert_eq!(VersionBumpBehavior::Major, classify(&p, &tae));
    }
}

#[test]
fn patch_does_not_lower_minor() {
    let tae = vec!["feat: a".to_string(), "fix: b".to_string(), "chore: c".to_string()];
    assert_eq!(VersionBumpBehavior::Minor, classify(&get_project(), &tae));
}

#[test]
fn minor_pattern_is_anchored_by_its_caret() {
    let tae = vec!["docs: feat".to_string()];
    assert_eq!(VersionBumpBehavior::Patch, classify(&get_project(), &tae));
}

#[test]
fn first_invalid_classification_pattern_is_reported() {
    let tae = vec!["feat: a".to_string()];
    let r = get_bump_behavior(&String::from("ok"), &String::from("(a"), &String::from("[b"), &tae);
    assert_eq!(Err(CalcverError::of(CalcverErrorReason::InvalidPattern(String::from("(a")))), r);
    let r = get_bump_behavior(&String::from("ok"), &String::from("a"), &String::from("[b"), &tae);
    assert_eq!(Err(CalcverError::of(CalcverErrorReason::InvalidPattern(String::from("[b")))), r);
}

#[test]
fn bump_no_bump_keeps_version() {
    assert_eq!("1.2.3", bump_version(VersionBumpBehavior::NoBump, "1.2.3").unwrap());
    assert_eq!("1.2.3", bump_version(VersionBumpBehavior::NoBump, "1.2.3-rc.1+abc").unwrap());
}

#[test]
fn bump_major_and_minor_reset_lower_fields() {
    assert_eq!("2.0.0", bump_version(VersionBumpBehavior::Major, "1.2.3").unwrap());
    assert_eq!("1.3.0", bump_version(VersionBumpBehavior::Minor, "1.2.3").unwrap());
    assert_eq!("1.2.4", bump_version(VersionBumpBehavior::Patch, "1.2.3").unwrap());
    assert_eq!("10.0.0", bump_version(VersionBumpBehavior::Major, "9.99.999").unwrap());
}

#[test]
fn bump_drops_metadata() {
    assert_eq!("1.2.4", bump_version(VersionBumpBehavior::Patch, "1.2.3-beta.11+sha").unwrap());
}

#[test]
fn bump_rejects_invalid_version() {
    let e = bump_version(VersionBumpBehavior::Patch, "1.2").unwrap_err();
    assert_eq!(CalcverErrorReason::InvalidVersion(String::from("1.2")), e.reason);
}

#[test]
fn bump_auto_is_unknown() {
    let e = bump_version(VersionBumpBehavior::Auto, "1.2.3").unwrap_err();
    assert_eq!(CalcverErrorReason::Unknown, e.reason);
}

#[test]
fn bump_at_largest_field_is_refused() {
    let top = format!("{}.0.0", u64::MAX);
    let e = bump_version(VersionBumpBehavior::Major, &top).unwrap_err();
    assert_eq!(CalcverErrorReason::InvalidVersion(top.clone()), e.reason);
    assert_eq!(top, bump_version(VersionBumpBehavior::NoBump, &top).unwrap());
    assert_eq!(format!("{}.1.0", u64::MAX), bump_version(VersionBumpBehavior::Minor, &top).unwrap());
}

#[test]
fn library_error_carries_description() {
    let e = CalcverError::with(String::from("repository not found"));
    assert_eq!(CalcverErrorReason::Library(String::from("repository not found")), e.reason);
}
