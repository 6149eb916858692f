//! Semantic versions as the release tooling reads, prints and compares them.
use vstd::prelude::*;
use crate::text::{decimal, push_char, push_decimal, replace_all, replace_text, same_text};

verus! {

/// The parts of a semantic version: `major.minor.patch`, an optional
/// pre-release tag and optional build metadata (empty when absent).
#[derive(Debug)]
pub struct SemVer {
    pub major: u64,
    pub minor: u64,
    pub patch: u64,
    pub pre: String,
    pub build: String,
}

/// The plain value of a version: its three numbers, pre-release text and
/// build-metadata text.
pub type VersionParts = (u64, u64, u64, Seq<char>, Seq<char>);

impl View for SemVer {
    type V = VersionParts;

    open spec fn view(&self) -> VersionParts {
        (self.major, self.minor, self.patch, self.pre@, self.build@)
    }
}

/// What `semver::Version::parse` makes of a text: the parts of the version,
/// or `None` where it reports an error.
pub uninterp spec fn semver_parse(text: Seq<char>) -> Option<VersionParts>;

/// Parses a version with `semver::Version::parse`.
///
/// The contract claims that the result is the one that `semver_parse` names
/// for the text (its parts copied one for one, `None` for an error), and
/// that an empty text is refused, as the first check of the parser does.
#[verifier::external_body]
fn parse_semver(text: &str) -> (r: Option<SemVer>)
    ensures
        semver_parse(text@) == (match r {
            Some(v) => Some(v@),
            None => None::<VersionParts>,
        }),
        text@.len() == 0 ==> r is None,
{
    match semver::Version::parse(text) {
        Ok(v) => Some(
            SemVer {
                major: v.major,
                minor: v.minor,
                patch: v.patch,
                pre: v.pre.as_str().to_string(),
                build: v.build.as_str().to_string(),
            },
        ),
        Err(_) => None,
    }
}

/// How a version is written: `major.minor.patch`, then `-pre` when there is
/// a pre-release tag and `+build` when there is build metadata.
pub open spec fn version_text(v: VersionParts) -> Seq<char> {
    decimal(v.0 as nat) + seq!['.'] + decimal(v.1 as nat) + seq!['.'] + decimal(v.2 as nat) + (
    if v.3.len() > 0 {
        seq!['-'] + v.3
    } else {
        Seq::<char>::empty()
    }) + (if v.4.len() > 0 {
        seq!['+'] + v.4
    } else {
        Seq::<char>::empty()
    })
}

impl SemVer {
    /// Writes the version as semver displays it.
    pub fn to_text(&self) -> (r: String)
        ensures
            r@ == version_text(self@),
    {
        let mut s = String::new();
        self.push_text(&mut s);
        assert(s@ =~= version_text(self@));
        s
    }

    /// Appends the written version to `s`.
    pub fn push_text(&self, s: &mut String)
        ensures
            final(s)@ == old(s)@ + version_text(self@),
    {
        let ghost start = s@;
        push_decimal(s, self.major);
        push_char(s, '.');
        push_decimal(s, self.minor);
        push_char(s, '.');
        push_decimal(s, self.patch);
        let ghost numbers = s@;
        if self.pre.unicode_len() > 0 {
            push_char(s, '-');
            s.append(self.pre.as_str());
        }
        let ghost with_pre = s@;
        if self.build.unicode_len() > 0 {
            push_char(s, '+');
            s.append(self.build.as_str());
        }
        assert(s@ =~= start + version_text(self@));
    }

    /// Whether two versions are equal in every part, as semver compares them
    /// with `==`.
    pub fn same_as(&self, other: &SemVer) -> (r: bool)
        ensures
            r == (self@ == other@),
    {
        self.major == other.major && self.minor == other.minor && self.patch == other.patch
            && same_text(self.pre.as_str(), other.pre.as_str()) && same_text(
            self.build.as_str(),
            other.build.as_str(),
        )
    }

    /// A copy of this version.
    pub fn duplicate(&self) -> (r: SemVer)
        ensures
            r@ == self@,
    {
        SemVer {
            major: self.major,
            minor: self.minor,
            patch: self.patch,
            pre: self.pre.clone(),
            build: self.build.clone(),
        }
    }
}

/// The version that a release tag names: the tag with every `v` removed,
/// read by semver (`None` where semver refuses it).
pub fn release_version(tag_name: &str) -> (r: Option<SemVer>)
    ensures
        semver_parse(replace_all(tag_name@, "v"@, ""@)) == (match r {
            Some(v) => Some(v@),
            None => None::<VersionParts>,
        }),
{
    proof {
        reveal_strlit("v");
    }
    let plain = replace_text(tag_name, "v", "");
    parse_semver(plain.as_str())
}

} // verus!
