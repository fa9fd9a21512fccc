//! Zallet release versions, read with the `semver` crate.

use vstd::prelude::*;

verus! {

#[verifier::external_type_specification]
#[verifier::external_body]
pub struct ExSemverVersion(semver::Version);

/// Whether `semver::Version::parse` accepts the text.
pub uninterp spec fn semver_accepts(text: Seq<char>) -> bool;

/// Whether the version that `semver::Version::parse` reads from `latest` is
/// greater than or equal to (`>=`) the one it reads from `minimum`.
pub uninterp spec fn semver_at_least(latest: Seq<char>, minimum: Seq<char>) -> bool;

/// A release version together with the text it was read from.
///
/// Its view is that text: two versions read from the same text are the same.
pub struct ParsedVersion {
    version: semver::Version,
    text: String,
}

impl View for ParsedVersion {
    type V = Seq<char>;

    closed spec fn view(&self) -> Seq<char> {
        self.text@
    }
}

/// Reads a version with `semver::Version::parse`.
///
/// Trusted: the result is `Some` exactly when the parser accepts the text (the
/// grammar of SemVer 2.0 is left to the name `semver_accepts`), and a parsed
/// version remembers the text it came from.
#[verifier::external_body]
fn semver_parse(text: &str) -> (parsed: Option<ParsedVersion>)
    ensures
        parsed is Some <==> semver_accepts(text@),
        parsed matches Some(v) ==> v@ == text@,
{
    match semver::Version::parse(text) {
        Ok(version) => Some(ParsedVersion { version, text: text.to_string() }),
        Err(_) => None,
    }
}

/// Compares two versions with the `>=` of `semver::Version` (its derived
/// order: major, minor, patch, pre-release, build metadata).
///
/// Trusted: the result is the name `semver_at_least` of the two texts; a
/// version read from the same text as another is `>=` it (the order is
/// reflexive); and `>=` passes through any version in between (the order,
/// derived `Ord`, is transitive).
#[verifier::external_body]
fn semver_ge(latest: &ParsedVersion, minimum: &ParsedVersion) -> (at_least: bool)
    ensures
        at_least == semver_at_least(latest@, minimum@),
        latest@ == minimum@ ==> at_least,
        forall|middle: Seq<char>|
            #![trigger semver_at_least(latest@, middle), semver_at_least(middle, minimum@)]
            semver_accepts(middle) && semver_at_least(latest@, middle) && semver_at_least(middle, minimum@)
                ==> at_least,
{
    latest.version >= minimum.version
}

impl ParsedVersion {
    /// Reads a release version; `None` when the text is not a SemVer version.
    pub fn parse(text: &str) -> (parsed: Option<ParsedVersion>)
        ensures
            parsed is Some <==> semver_accepts(text@),
            parsed matches Some(v) ==> v@ == text@,
    {
        semver_parse(text)
    }

    /// Whether this version is at least `minimum` in SemVer order.
    pub fn at_least(&self, minimum: &ParsedVersion) -> (at_least: bool)
        ensures
            at_least == semver_at_least(self@, minimum@),
            self@ == minimum@ ==> at_least,
            forall|middle: Seq<char>|
                #![trigger semver_at_least(self@, middle), semver_at_least(middle, minimum@)]
                semver_accepts(middle) && semver_at_least(self@, middle) && semver_at_least(middle, minimum@)
                    ==> at_least,
    {
        semver_ge(self, minimum)
    }
}

} // verus!
