//! The settings that resolution reads, and their defaults.
use vstd::prelude::*;
use crate::version::Rules;

verus! {

/// The commit message template; resolution does not read it.
pub const COMMIT_TEMPLATE_DEFAULT: &'static str = "{{message_type}}{{#if scope}}({{ scope }}){{/if}}: {{short_description}}\n\n{{description}}\n\n{{foot}}";

/// Finds the version in a tag: three dot-separated numbers, anywhere in it.
pub const TAG_REGEX_DEFAULT: &'static str = "\\d+\\.\\d+\\.\\d+";

/// A commit that calls for a major bump.
pub const MAJOR_REGEX_DEFAULT: &'static str = "BREAKING CHANGE:";

/// A commit that calls for a minor bump.
pub const MINOR_REGEX_DEFAULT: &'static str = "^feat";

/// A commit that calls for a patch bump.
pub const PATCH_REGEX_DEFAULT: &'static str = "^fix";

/// The label of a version that is not a release.
pub const PRERELEASE_PREFIX_DEFAULT: &'static str = "alpha";

/// The default settings, as mathematical strings.
pub open spec fn default_rules() -> Rules {
    Rules {
        tag_regex: TAG_REGEX_DEFAULT@,
        major_regex: MAJOR_REGEX_DEFAULT@,
        minor_regex: MINOR_REGEX_DEFAULT@,
        patch_regex: PATCH_REGEX_DEFAULT@,
        prerelease_prefix: PRERELEASE_PREFIX_DEFAULT@,
    }
}

/// The settings of one resolution; read only.
pub struct ProjectConfig {
    pub commit_template: String,
    pub prerelease_prefix: String,
    pub tag_regex: String,
    pub major_regex: String,
    pub minor_regex: String,
    pub patch_regex: String,
}

impl ProjectConfig {
    /// The settings that resolution reads.
    pub open spec fn rules(&self) -> Rules {
        Rules {
            tag_regex: self.tag_regex@,
            major_regex: self.major_regex@,
            minor_regex: self.minor_regex@,
            patch_regex: self.patch_regex@,
            prerelease_prefix: self.prerelease_prefix@,
        }
    }

    /// The settings with every field at its default.
    pub fn from_defaults() -> (r: ProjectConfig)
        ensures
            r.rules() == default_rules(),
            r.commit_template@ == COMMIT_TEMPLATE_DEFAULT@,
    {
        ProjectConfig {
            commit_template: String::from_str(COMMIT_TEMPLATE_DEFAULT),
            prerelease_prefix: String::from_str(PRERELEASE_PREFIX_DEFAULT),
            tag_regex: String::from_str(TAG_REGEX_DEFAULT),
            major_regex: String::from_str(MAJOR_REGEX_DEFAULT),
            minor_regex: String::from_str(MINOR_REGEX_DEFAULT),
            patch_regex: String::from_str(PATCH_REGEX_DEFAULT),
        }
    }
}

} // verus!
