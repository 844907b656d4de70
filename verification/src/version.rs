//! Semantic versions, as the `semver` crate parses and matches them.

use vstd::prelude::*;
use crate::text::{append_decimal, append_str, decimal, push_char};

verus! {

#[verifier::external_type_specification]
#[verifier::external_body]
pub struct ExSemverError(semver::Error);

/// A parsed semantic version: three numbers, a pre-release tag and build
/// metadata (either may be empty).
#[derive(Debug, Clone, PartialEq, Eq)]
pub struct SemVersion {
    pub major: u64,
    pub minor: u64,
    pub patch: u64,
    pub pre: String,
    pub build: String,
}

/// The mathematical value of a [`SemVersion`].
pub struct SemVersionView {
    pub major: u64,
    pub minor: u64,
    pub patch: u64,
    pub pre: Seq<char>,
    pub build: Seq<char>,
}

impl View for SemVersion {
    type V = SemVersionView;

    open spec fn view(&self) -> SemVersionView {
        SemVersionView {
            major: self.major,
            minor: self.minor,
            patch: self.patch,
            pre: self.pre@,
            build: self.build@,
        }
    }
}

/// A text that is not a semantic version.
#[derive(Debug, Clone, PartialEq, Eq)]
pub struct InvalidVersion {
    pub text: String,
}

/// The version that `semver` reads from a text, if the text is one.
pub uninterp spec fn semver_parse(text: Seq<char>) -> Option<SemVersionView>;

/// Whether a version requirement admits a version, both given as text, as
/// `semver` decides it; `None` where either text does not parse.
pub uninterp spec fn semver_req_matches(req: Seq<char>, version: Seq<char>) -> Option<bool>;

/// Reads a version with `semver::Version::from_str` and hands its five parts
/// over as plain values. The contract claims only that the outcome is the one
/// `semver_parse` names for the text.
#[verifier::external_body]
fn semver_version_from_str(text: &str) -> (r: Result<SemVersion, semver::Error>)
    ensures
        r is Ok <==> semver_parse(text@) is Some,
        r matches Ok(v) ==> v@ == semver_parse(text@)->0,
{
    match <semver::Version as std::str::FromStr>::from_str(text) {
        Ok(v) => Ok(SemVersion {
            major: v.major,
            minor: v.minor,
            patch: v.patch,
            pre: v.pre.as_str().to_string(),
            build: v.build.as_str().to_string(),
        }),
        Err(e) => Err(e),
    }
}

/// Asks `semver::VersionReq::matches` whether the requirement admits the
/// version, after reading both from their text with `semver`'s parsers. The
/// contract claims that the answer is the one `semver_req_matches` names, and
/// that there is no answer where the version text is not a version.
#[verifier::external_body]
fn semver_requirement_matches(req: &str, version: &str) -> (r: Option<bool>)
    ensures
        r == semver_req_matches(req@, version@),
        semver_parse(version@) is None ==> r is None,
{
    match (semver::VersionReq::parse(req), semver::Version::parse(version)) {
        (Ok(req), Ok(version)) => Some(req.matches(&version)),
        _ => None,
    }
}

/// Reads a semantic version from its text.
pub fn parse_version(text: &String) -> (r: Result<SemVersion, InvalidVersion>)
    ensures
        r is Ok <==> semver_parse(text@) is Some,
        r matches Ok(v) ==> v@ == semver_parse(text@)->0,
        r matches Err(e) ==> e.text@ == text@,
{
    match semver_version_from_str(text.as_str()) {
        Ok(v) => Ok(v),
        Err(_) => Err(InvalidVersion { text: text.clone() }),
    }
}

/// Whether the requirement `req` admits the version `version`; `None` where
/// either text does not parse.
pub fn requirement_matches(req: &String, version: &String) -> (r: Option<bool>)
    ensures
        r == semver_req_matches(req@, version@),
        semver_parse(version@) is None ==> r is None,
{
    semver_requirement_matches(req.as_str(), version.as_str())
}

/// Two versions are equal when all five parts are.
pub fn versions_equal(a: &SemVersion, b: &SemVersion) -> (r: bool)
    ensures
        r == (a@ == b@),
{
    let same = a.major == b.major && a.minor == b.minor && a.patch == b.patch && a.pre == b.pre
        && a.build == b.build;
    proof {
        if same {
            assert(a@.pre =~= b@.pre);
            assert(a@.build =~= b@.build);
        }
    }
    same
}

/// The text of a version: `major.minor.patch`, then `-pre` and `+build` where
/// those parts are not empty.
pub open spec fn version_text(v: SemVersionView) -> Seq<char> {
    let core = decimal(v.major as nat) + seq!['.'] + decimal(v.minor as nat) + seq!['.']
        + decimal(v.patch as nat);
    let with_pre = if v.pre.len() == 0 {
        core
    } else {
        core + seq!['-'] + v.pre
    };
    if v.build.len() == 0 {
        with_pre
    } else {
        with_pre + seq!['+'] + v.build
    }
}

/// Renders a version as text.
pub fn display_version(v: &SemVersion) -> (s: String)
    ensures
        s@ == version_text(v@),
{
    let mut s = String::new();
    append_decimal(&mut s, v.major);
    push_char(&mut s, '.');
    append_decimal(&mut s, v.minor);
    push_char(&mut s, '.');
    append_decimal(&mut s, v.patch);
    let ghost core = s@;
    if !v.pre.as_str().is_empty() {
        push_char(&mut s, '-');
        append_str(&mut s, v.pre.as_str());
    }
    let ghost with_pre = s@;
    if !v.build.as_str().is_empty() {
        push_char(&mut s, '+');
        append_str(&mut s, v.build.as_str());
    }
    assert(s@ =~= version_text(v@));
    s
}

} // verus!
