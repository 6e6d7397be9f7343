//! Semantic versions, read and ordered by the `semver` crate.

use vstd::prelude::*;

verus! {

/// The error with which `semver` refuses a text.
#[verifier::external_type_specification]
#[verifier::external_body]
pub struct ExSemverError(semver::Error);

/// The parts of a semantic version, as plain values.
#[derive(Debug, Clone, PartialEq, Eq)]
pub struct VersionParts {
    /// The major number.
    pub major: u64,
    /// The minor number.
    pub minor: u64,
    /// The patch number.
    pub patch: u64,
    /// The pre-release identifiers, without the leading hyphen; empty for a
    /// release.
    pub pre: String,
    /// The build metadata, without the leading plus sign; empty where there
    /// is none.
    pub build: String,
}

/// What [`VersionParts`] stands for.
pub struct PartsModel {
    pub major: u64,
    pub minor: u64,
    pub patch: u64,
    pub pre: Seq<char>,
    pub build: Seq<char>,
}

impl View for VersionParts {
    type V = PartsModel;

    open spec fn view(&self) -> PartsModel {
        PartsModel {
            major: self.major,
            minor: self.minor,
            patch: self.patch,
            pre: self.pre@,
            build: self.build@,
        }
    }
}

impl VersionParts {
    /// Whether the five parts are those of `other`.
    pub fn same_as(&self, other: &VersionParts) -> (same: bool)
        ensures
            same == (self@ == other@),
    {
        self.major == other.major && self.minor == other.minor && self.patch == other.patch
            && self.pre == other.pre && self.build == other.build
    }
}

/// The parts that `semver` reads from `text`; `None` where it refuses the
/// text.
pub uninterp spec fn semver_parsed(text: Seq<char>) -> Option<PartsModel>;

/// Whether the version written as `first` is greater than the version
/// written as `second` in the total order of `semver`; `None` where one of
/// the two texts is no version.
pub uninterp spec fn semver_exceeds(first: Seq<char>, second: Seq<char>) -> Option<bool>;

/// Calls `semver::Version::parse` and hands out the fields of the version
/// that it returns.
///
/// The contract claims that the outcome depends on the text alone: success
/// and the five fields are those named by [`semver_parsed`].
#[verifier::external_body]
fn parse_parts(text: &str) -> (outcome: Result<VersionParts, semver::Error>)
    ensures
        outcome matches Ok(parts) ==> semver_parsed(text@) == Some(parts@),
        outcome is Err ==> semver_parsed(text@) is None,
{
    let version = semver::Version::parse(text)?;
    Ok(
        VersionParts {
            major: version.major,
            minor: version.minor,
            patch: version.patch,
            pre: version.pre.as_str().to_owned(),
            build: version.build.as_str().to_owned(),
        },
    )
}

/// Calls `semver::Version::parse` on both texts and compares the two
/// versions with `>`, the total order that `semver` implements for
/// `Version`.
///
/// The contract claims that the answer depends on the two texts alone, as
/// named by [`semver_exceeds`], and that there is an answer exactly when
/// `semver` accepts both texts.
#[verifier::external_body]
fn exceeds_text(first: &str, second: &str) -> (greater: Option<bool>)
    ensures
        greater == semver_exceeds(first@, second@),
        greater is Some <==> (semver_parsed(first@) is Some && semver_parsed(second@) is Some),
{
    match (semver::Version::parse(first), semver::Version::parse(second)) {
        (Ok(a), Ok(b)) => Some(a > b),
        _ => None,
    }
}

/// A text that is no semantic version. The field holds the text.
#[derive(Debug, Clone, PartialEq, Eq)]
pub struct InvalidVersion(pub String);

/// A semantic version.
#[derive(Debug, PartialEq, Eq, Hash)]
pub struct Version {
    text: String,
}

impl View for Version {
    type V = Seq<char>;

    closed spec fn view(&self) -> Seq<char> {
        self.text@
    }
}

impl Version {
    #[verifier::type_invariant]
    spec fn accepted(self) -> bool {
        semver_parsed(self.text@) is Some
    }

    /// The parts of this version.
    pub open spec fn parts(&self) -> PartsModel {
        semver_parsed(self@)->0
    }

    /// Reads a version. Fails on a text that `semver` does not accept.
    pub fn parse(text: &str) -> (outcome: Result<Version, InvalidVersion>)
        ensures
            outcome is Ok <==> semver_parsed(text@) is Some,
            outcome matches Ok(version) ==> version@ == text@,
            outcome matches Err(error) ==> error.0@ == text@,
    {
        match parse_parts(text) {
            Ok(_) => Ok(Version { text: text.to_owned() }),
            Err(_) => Err(InvalidVersion(text.to_owned())),
        }
    }

    /// The version as it was written.
    pub fn as_str(&self) -> (text: &str)
        ensures
            text@ == self@,
            semver_parsed(text@) is Some,
    {
        proof {
            use_type_invariant(self);
        }
        self.text.as_str()
    }

    /// A copy of this version.
    pub fn duplicate(&self) -> (copy: Version)
        ensures
            copy@ == self@,
    {
        proof {
            use_type_invariant(self);
        }
        Version { text: self.text.clone() }
    }

    /// The major, minor and patch number, the pre-release identifiers and the
    /// build metadata of this version.
    pub fn to_parts(&self) -> (parts: VersionParts)
        ensures
            parts@ == self.parts(),
    {
        proof {
            use_type_invariant(self);
        }
        match parse_parts(self.text.as_str()) {
            Ok(parts) => parts,
            Err(_) => {
                proof {
                    assert(false);
                }
                VersionParts { major: 0, minor: 0, patch: 0, pre: String::new(), build: String::new() }
            },
        }
    }

    /// Whether this version is greater than `other` in the total order of
    /// semantic versions.
    pub fn exceeds(&self, other: &Version) -> (greater: bool)
        ensures
            semver_exceeds(self@, other@) == Some(greater),
    {
        proof {
            use_type_invariant(self);
            use_type_invariant(other);
        }
        match exceeds_text(self.text.as_str(), other.text.as_str()) {
            Some(greater) => greater,
            None => {
                proof {
                    assert(false);
                }
                false
            },
        }
    }

    /// Whether this version is greater than the version written as `other`;
    /// `None` where `other` is no version.
    pub fn exceeds_text(&self, other: &str) -> (greater: Option<bool>)
        ensures
            greater == semver_exceeds(self@, other@),
            greater is Some <==> semver_parsed(other@) is Some,
    {
        proof {
            use_type_invariant(self);
        }
        exceeds_text(self.text.as_str(), other)
    }

    /// Whether this version and `other` have the same five parts.
    pub fn same_as(&self, other: &Version) -> (same: bool)
        ensures
            same == (self.parts() == other.parts()),
    {
        let a = self.to_parts();
        let b = other.to_parts();
        a.same_as(&b)
    }
}

impl Clone for Version {
    fn clone(&self) -> (copy: Version)
        ensures
            copy@ == self@,
    {
        self.duplicate()
    }
}

} // verus!
