//! A project and the builder that sets up its settings.
use vstd::prelude::*;
use crate::version::Rules;

verus! {

/// The settings of a project at `path`.
pub struct Project {
    pub path: String,
    pub commit_template: String,
    pub prerelease_prefix: String,
    pub tag_regex: String,
    pub major_regex: String,
    pub minor_regex: String,
    pub patch_regex: String,
}

impl Project {
    /// The settings that resolution reads.
    pub open spec fn rules(&self) -> Rules {
        Rules {
            tag_regex: self.tag_regex@,
            major_regex: self.major_regex@,
            minor_regex: self.minor_regex@,
            patch_regex: self.patch_regex@,
            prerelease_prefix: self.prerelease_prefix@,
        }
    }
}


/// What a builder holds, as mathematical strings.
pub struct BuilderState {
    pub path: Seq<char>,
    pub commit_template: Seq<char>,
    pub rules: Rules,
}

/// Sets up the settings of a `Project`, starting from the defaults.
pub struct ProjectBuilder {
    path: String,
    commit_template: String,
    prerelease_prefix: String,
    tag_regex: String,
    major_regex: String,
    minor_regex: String,
    patch_regex: String,
}

impl View for ProjectBuilder {
    type V = BuilderState;

    closed spec fn view(&self) -> BuilderState {
        BuilderState {
            path: self.path@,
            commit_template: self.commit_template@,
            rules: Rules {
                tag_regex: self.tag_regex@,
                major_regex: self.major_regex@,
                minor_regex: self.minor_regex@,
                patch_regex: self.patch_regex@,
                prerelease_prefix: self.prerelease_prefix@,
            },
        }
    }
}

impl Project {
    /// A builder for the project at `path`, with the default settings.
    pub fn from(path: &str) -> (r: ProjectBuilder)
        ensures
            r@ == (BuilderState {
                path: path@,
                commit_template: crate::config::COMMIT_TEMPLATE_DEFAULT@,
                rules: crate::config::default_rules(),
            }),
    {
        ProjectBuilder {
            path: String::from_str(path),
            commit_template: String::from_str(crate::config::COMMIT_TEMPLATE_DEFAULT),
            prerelease_prefix: String::from_str(crate::config::PRERELEASE_PREFIX_DEFAULT),
            tag_regex: String::from_str(crate::config::TAG_REGEX_DEFAULT),
            major_regex: String::from_str(crate::config::MAJOR_REGEX_DEFAULT),
            minor_regex: String::from_str(crate::config::MINOR_REGEX_DEFAULT),
            patch_regex: String::from_str(crate::config::PATCH_REGEX_DEFAULT),
        }
    }
}

impl ProjectBuilder {
    /// Sets the commit message template.
    pub fn with_template(&mut self, commit: &str) -> (r: &mut ProjectBuilder)
        ensures
            r@ == (BuilderState { commit_template: commit@, ..old(self)@ }),
            *final(self) == *final(r),
    {
        self.commit_template = String::from_str(commit);
        self
    }

    /// Sets the tag pattern and the three patterns that classify commits.
    pub fn with_regex(&mut self, tag: &str, major: &str, minor: &str, patch: &str) -> (r:
        &mut ProjectBuilder)
        ensures
            r@ == (BuilderState {
                rules: Rules {
                    tag_regex: tag@,
                    major_regex: major@,
                    minor_regex: minor@,
                    patch_regex: patch@,
                    prerelease_prefix: old(self)@.rules.prerelease_prefix,
                },
                ..old(self)@
            }),
            *final(self) == *final(r),
    {
        self.tag_regex = String::from_str(tag);
        self.major_regex = String::from_str(major);
        self.minor_regex = String::from_str(minor);
        self.patch_regex = String::from_str(patch);
        self
    }

    /// The project with the settings built so far.
    pub fn finalize(self) -> (r: Project)
        ensures
            r.path@ == self@.path,
            r.commit_template@ == self@.commit_template,
            r.rules() == self@.rules,
    {
        Project {
            path: self.path,
            commit_template: self.commit_template,
            prerelease_prefix: self.prerelease_prefix,
            tag_regex: self.tag_regex,
            major_regex: self.major_regex,
            minor_regex: self.minor_regex,
            patch_regex: self.patch_regex,
        }
    }
}

} // verus!
