//! Semantic versions, parsed and ordered by the `semver` crate.
use vstd::prelude::*;

verus! {

#[verifier::external_type_specification]
#[verifier::external_body]
pub struct ExSemverVersion(semver::Version);

#[verifier::external_type_specification]
#[verifier::external_body]
pub struct ExSemverError(semver::Error);

/// What `semver::Version::parse` makes of a text: major, minor, patch,
/// pre-release and build metadata, or `None` where it refuses the text.
pub uninterp spec fn semver_parse(text: Seq<char>) -> Option<(u64, u64, u64, Seq<char>, Seq<char>)>;

/// Whether the first version sorts strictly before the second one in the
/// order of `semver::Version` (precedence, then build metadata).
pub uninterp spec fn semver_less(
    a: (u64, u64, u64, Seq<char>, Seq<char>),
    b: (u64, u64, u64, Seq<char>, Seq<char>),
) -> bool;

/// Lexicographic order of the numeric triples.
pub open spec fn triple_less(
    a: (u64, u64, u64, Seq<char>, Seq<char>),
    b: (u64, u64, u64, Seq<char>, Seq<char>),
) -> bool {
    ||| a.0 < b.0
    ||| a.0 == b.0 && a.1 < b.1
    ||| a.0 == b.0 && a.1 == b.1 && a.2 < b.2
}

/// `w` is the parts of some version that `semver::Version::parse` accepts.
pub open spec fn is_parsed(w: (u64, u64, u64, Seq<char>, Seq<char>)) -> bool {
    exists|t: Seq<char>| semver_parse(t) == Some(w)
}

/// The order of `semver_less` around `v`: no version sorts before itself,
/// any two parsed versions with different parts are ordered one way or the
/// other, and sorting before `v` and then after it is sorting before.
pub open spec fn ordered_around(v: (u64, u64, u64, Seq<char>, Seq<char>)) -> bool {
    &&& !semver_less(v, v)
    &&& forall|w: (u64, u64, u64, Seq<char>, Seq<char>)|
        #[trigger] is_parsed(w) && w != v ==> semver_less(v, w) || semver_less(w, v)
    &&& forall|a: (u64, u64, u64, Seq<char>, Seq<char>), b: (u64, u64, u64, Seq<char>, Seq<char>)|
        #[trigger] is_parsed(a) && #[trigger] is_parsed(b) && semver_less(a, v) && semver_less(v, b)
            ==> semver_less(a, b)
}

/// A parsed semantic version.
///
/// The numeric and textual parts are kept beside the parsed value; a `SemVer`
/// is only made by [`SemVer::parse`], which fills both from one parse.
#[derive(Debug)]
pub struct SemVer {
    major: u64,
    minor: u64,
    patch: u64,
    pre: String,
    build: String,
    parsed: semver::Version,
}

/// `Clone` on `semver::Version`: the derived field-by-field copy.
pub assume_specification[ <semver::Version as Clone>::clone ](v: &semver::Version) -> (r:
    semver::Version)
    ensures
        r == *v,
;

impl Clone for SemVer {
    fn clone(&self) -> (r: SemVer)
        ensures
            r == *self,
    {
        SemVer {
            major: self.major,
            minor: self.minor,
            patch: self.patch,
            pre: self.pre.clone(),
            build: self.build.clone(),
            parsed: self.parsed.clone(),
        }
    }
}

impl View for SemVer {
    type V = (u64, u64, u64, Seq<char>, Seq<char>);

    closed spec fn view(&self) -> (u64, u64, u64, Seq<char>, Seq<char>) {
        (self.major, self.minor, self.patch, self.pre@, self.build@)
    }
}

impl SemVer {
    /// `semver::Version::parse`.
    ///
    /// Trusted: the result is `Ok` exactly where the crate accepts the text,
    /// and its parts are the crate's `major`, `minor`, `patch`, `pre` and
    /// `build`, named by `semver_parse`. The grammar itself is not restated.
    /// Of the parsed version, it also states what `Version`'s derived `Ord`
    /// (with the hand-written `Ord` of `Prerelease` and `BuildMetadata`,
    /// which compare equal only equal identifiers) gives: it does not sort
    /// before itself, it is ordered against every other parsed version with
    /// different parts, and the order is transitive through it.
    #[verifier::external_body]
    pub(crate) fn parse(text: &str) -> (r: Result<SemVer, semver::Error>)
        ensures
            r is Ok <==> semver_parse(text@) is Some,
            r matches Ok(v) ==> semver_parse(text@) == Some(v@),
            r is Ok ==> !semver_less(r->Ok_0@, r->Ok_0@),
            r is Ok ==> forall|w: (u64, u64, u64, Seq<char>, Seq<char>)|
                #[trigger] is_parsed(w) && w != r->Ok_0@ ==> semver_less(r->Ok_0@, w)
                    || semver_less(w, r->Ok_0@),
            r is Ok ==> forall|
                a: (u64, u64, u64, Seq<char>, Seq<char>),
                b: (u64, u64, u64, Seq<char>, Seq<char>),
            |
                #[trigger] is_parsed(a) && #[trigger] is_parsed(b) && semver_less(a, r->Ok_0@)
                    && semver_less(r->Ok_0@, b) ==> semver_less(a, b),
    {
        match semver::Version::parse(text) {
            Ok(v) => Ok(SemVer {
                major: v.major,
                minor: v.minor,
                patch: v.patch,
                pre: v.pre.as_str().to_string(),
                build: v.build.as_str().to_string(),
                parsed: v,
            }),
            Err(e) => Err(e),
        }
    }

    /// `<` on `semver::Version`.
    ///
    /// Trusted: the result is named by `semver_less` on the two versions'
    /// parts; the crate's derived order compares major, minor and patch
    /// first, no version sorts before itself, and where one version sorts
    /// before another the other does not sort before it. How pre-release
    /// and build identifiers are ordered is left to the name.
    #[verifier::external_body]
    pub(crate) fn precedes(&self, other: &SemVer) -> (r: bool)
        ensures
            r == semver_less(self@, other@),
            (self@.0, self@.1, self@.2) != (other@.0, other@.1, other@.2) ==> r == triple_less(
                self@,
                other@,
            ),
            self@ == other@ ==> !r,
            r ==> !semver_less(other@, self@),
    {
        self.parsed < other.parsed
    }

    pub fn major(&self) -> (r: u64)
        ensures
            r == self@.0,
    {
        self.major
    }

    pub fn minor(&self) -> (r: u64)
        ensures
            r == self@.1,
    {
        self.minor
    }

    pub fn patch(&self) -> (r: u64)
        ensures
            r == self@.2,
    {
        self.patch
    }

    pub fn pre(&self) -> (r: &str)
        ensures
            r@ == self@.3,
    {
        self.pre.as_str()
    }

    pub fn build(&self) -> (r: &str)
        ensures
            r@ == self@.4,
    {
        self.build.as_str()
    }

    /// The version as `Display` on `semver::Version` writes it:
    /// `major.minor.patch`, then `-pre` and `+build` where present.
    pub fn text(&self) -> (r: String)
        ensures
            r@ == version_text(self@),
    {
        let mut r = crate::text::decimal_string(self.major);
        crate::text::push_char(&mut r, '.');
        let m = crate::text::decimal_string(self.minor);
        crate::text::push_str(&mut r, m.as_str());
        crate::text::push_char(&mut r, '.');
        let p = crate::text::decimal_string(self.patch);
        crate::text::push_str(&mut r, p.as_str());
        if !self.pre.as_str().is_empty() {
            crate::text::push_char(&mut r, '-');
            crate::text::push_str(&mut r, self.pre.as_str());
        }
        if !self.build.as_str().is_empty() {
            crate::text::push_char(&mut r, '+');
            crate::text::push_str(&mut r, self.build.as_str());
        }
        r
    }
}

/// `major.minor.patch[-pre][+build]`.
pub open spec fn version_text(v: (u64, u64, u64, Seq<char>, Seq<char>)) -> Seq<char> {
    let base = crate::text::decimal(v.0 as nat) + seq!['.'] + crate::text::decimal(v.1 as nat)
        + seq!['.'] + crate::text::decimal(v.2 as nat);
    let with_pre = if v.3.len() == 0 {
        base
    } else {
        base + seq!['-'] + v.3
    };
    if v.4.len() == 0 {
        with_pre
    } else {
        with_pre + seq!['+'] + v.4
    }
}

} // verus!
