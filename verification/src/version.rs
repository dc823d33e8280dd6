//! The version guard: it records which code created the container, under
//! which name and version, and lets the container be upgraded only by newer
//! code of the same name.

use vstd::prelude::*;
use vstd::string::*;
use crate::error::ContractError;
use crate::response::{decimal, decimal_string};

verus! {

/// A release version `major.minor.patch`.
#[derive(Clone, Copy, Debug, PartialEq, Eq, Structural)]
pub struct SemanticVersion {
    pub major: u64,
    pub minor: u64,
    pub patch: u64,
}

impl SemanticVersion {
    /// Precedence of versions: by major, then minor, then patch.
    pub open spec fn precedes(self, other: SemanticVersion) -> bool {
        ||| self.major < other.major
        ||| self.major == other.major && self.minor < other.minor
        ||| self.major == other.major && self.minor == other.minor && self.patch < other.patch
    }

    pub fn new(major: u64, minor: u64, patch: u64) -> (version: SemanticVersion)
        ensures
            version == (SemanticVersion { major, minor, patch }),
    {
        SemanticVersion { major, minor, patch }
    }

    /// The version as text: its three numbers in decimal, with dots between.
    pub open spec fn text(self) -> Seq<char> {
        decimal(self.major as nat) + "."@ + decimal(self.minor as nat) + "."@ + decimal(
            self.patch as nat,
        )
    }

    /// Writes the version as text.
    pub fn to_text(&self) -> (text: String)
        ensures
            text@ == self.text(),
    {
        let mut text = decimal_string(self.major);
        text.append(".");
        text.append(decimal_string(self.minor).as_str());
        text.append(".");
        text.append(decimal_string(self.patch).as_str());
        text
    }

    /// Reads a release version from text. `None` where the text is no
    /// version, or is one with a pre-release or build tag.
    pub fn parse(text: &str) -> (version: Option<SemanticVersion>)
        ensures
            version == release_in(text@),
    {
        match semver_parse(text) {
            Ok(parts) => parts.release(),
            Err(_) => None,
        }
    }

    /// Whether `self` is strictly older than `other`.
    pub fn is_older_than(&self, other: &SemanticVersion) -> (older: bool)
        ensures
            older == self.precedes(*other),
    {
        if self.major != other.major {
            self.major < other.major
        } else if self.minor != other.minor {
            self.minor < other.minor
        } else {
            self.patch < other.patch
        }
    }
}

/// Precedence is a strict total order on versions.
pub proof fn lemma_precedence_is_strict_total_order(
    a: SemanticVersion,
    b: SemanticVersion,
    c: SemanticVersion,
)
    ensures
        !a.precedes(a),
        a.precedes(b) ==> !b.precedes(a),
        a.precedes(b) && b.precedes(c) ==> a.precedes(c),
        a.precedes(b) || b.precedes(a) || a == b,
{
}

/// A version as it is read from text: the three numbers, and the pre-release
/// and build tags that may follow them.
#[derive(Debug, PartialEq, Eq)]
pub struct VersionParts {
    pub major: u64,
    pub minor: u64,
    pub patch: u64,
    pub pre: String,
    pub build: String,
}

/// The parts of a version over the characters of its tags.
pub struct VersionPartsView {
    pub major: u64,
    pub minor: u64,
    pub patch: u64,
    pub pre: Seq<char>,
    pub build: Seq<char>,
}

impl View for VersionParts {
    type V = VersionPartsView;

    open spec fn view(&self) -> VersionPartsView {
        VersionPartsView {
            major: self.major,
            minor: self.minor,
            patch: self.patch,
            pre: self.pre@,
            build: self.build@,
        }
    }
}

impl VersionPartsView {
    /// The release version that the parts make up, if they carry no tag.
    pub open spec fn release(self) -> Option<SemanticVersion> {
        if self.pre.len() == 0 && self.build.len() == 0 {
            Some(SemanticVersion { major: self.major, minor: self.minor, patch: self.patch })
        } else {
            None
        }
    }
}

impl VersionParts {
    /// The release version that the parts make up, if they carry no tag.
    pub fn release(&self) -> (version: Option<SemanticVersion>)
        ensures
            version == self@.release(),
    {
        if self.pre.as_str().is_empty() && self.build.as_str().is_empty() {
            Some(SemanticVersion { major: self.major, minor: self.minor, patch: self.patch })
        } else {
            None
        }
    }
}

/// What `semver::Version::parse` reads from a text: the parts of the
/// version, or `None` where the text is no version.
pub uninterp spec fn semver_parts(text: Seq<char>) -> Option<VersionPartsView>;

/// The release version that a text holds, if it holds one.
pub open spec fn release_in(text: Seq<char>) -> Option<SemanticVersion> {
    match semver_parts(text) {
        Some(parts) => parts.release(),
        None => None,
    }
}

/// The error of `semver::Version::parse`, carried through without a look
/// inside.
#[verifier::external_type_specification]
#[verifier::external_body]
pub struct ExSemverError(semver::Error);

/// Calls `semver::Version::parse`. Trusted: whether the text is a version,
/// and which parts it has, depends on the text alone.
#[verifier::external_body]
fn semver_parse(text: &str) -> (parsed: Result<VersionParts, semver::Error>)
    ensures
        match parsed {
            Ok(parts) => semver_parts(text@) == Some(parts@),
            Err(_) => semver_parts(text@) is None,
        },
{
    let version = semver::Version::parse(text)?;
    Ok(
        VersionParts {
            major: version.major,
            minor: version.minor,
            patch: version.patch,
            pre: version.pre.as_str().to_owned(),
            build: version.build.as_str().to_owned(),
        },
    )
}

/// The name of the code that created a container, and the version of the
/// code that last wrote it.
#[derive(Debug, PartialEq, Eq)]
pub struct VersionRecord {
    pub name: String,
    pub version: SemanticVersion,
}

/// A version record over the characters of its name.
pub struct VersionRecordView {
    pub name: Seq<char>,
    pub version: SemanticVersion,
}

impl View for VersionRecord {
    type V = VersionRecordView;

    open spec fn view(&self) -> VersionRecordView {
        VersionRecordView { name: self.name@, version: self.version }
    }
}

impl Clone for VersionRecord {
    fn clone(&self) -> (copy: Self)
        ensures
            copy == *self,
    {
        VersionRecord { name: self.name.clone(), version: self.version }
    }
}

impl VersionRecord {
    pub fn new(name: &str, version: SemanticVersion) -> (record: VersionRecord)
        ensures
            record@ == (VersionRecordView { name: name@, version }),
    {
        VersionRecord { name: name.to_owned(), version }
    }
}

/// The guard's state: `None` until a version is recorded, then the record.
pub type GuardView = Option<VersionRecordView>;

/// Why an upgrade to `expected_version` by code named `expected_name` is
/// refused, if it is: the names must be equal, and the stored version must
/// be strictly older than the expected one.
pub open spec fn upgrade_refusal(
    stored: GuardView,
    expected_name: Seq<char>,
    expected_version: SemanticVersion,
) -> Option<ContractError> {
    match stored {
        None => Some(ContractError::StorageFailure),
        Some(record) => if record.name != expected_name {
            Some(ContractError::NameMismatch)
        } else if !record.version.precedes(expected_version) {
            Some(ContractError::VersionNotNewer)
        } else {
            None
        },
    }
}

/// The version guard. It alone writes the version record.
#[derive(Debug, PartialEq, Eq)]
pub struct VersionGuard {
    /// The stored record; `None` until a version has been recorded.
    pub record: Option<VersionRecord>,
}

impl View for VersionGuard {
    type V = GuardView;

    open spec fn view(&self) -> GuardView {
        match self.record {
            Some(record) => Some(record@),
            None => None,
        }
    }
}

impl Clone for VersionGuard {
    fn clone(&self) -> (copy: Self)
        ensures
            copy == *self,
    {
        VersionGuard {
            record: match &self.record {
                Some(record) => Some(record.clone()),
                None => None,
            },
        }
    }
}

impl VersionGuard {
    /// A guard without a record.
    pub fn new() -> (guard: VersionGuard)
        ensures
            guard@ is None,
    {
        VersionGuard { record: None }
    }

    /// Records the name and version of the code that creates the container.
    pub fn record_version(&mut self, name: &str, version: SemanticVersion)
        ensures
            final(self)@ == Some(VersionRecordView { name: name@, version }),
    {
        self.record = Some(VersionRecord::new(name, version));
    }

    /// Checks that the stored container may be upgraded by code named
    /// `expected_name` at `expected_version`, and if so records that version.
    /// A refused upgrade changes nothing.
    pub fn check_and_upgrade(
        &mut self,
        expected_name: &str,
        expected_version: SemanticVersion,
    ) -> (result: Result<(), ContractError>)
        ensures
            match result {
                Ok(()) => {
                    &&& upgrade_refusal(old(self)@, expected_name@, expected_version) is None
                    &&& final(self)@ == Some(
                        VersionRecordView { name: expected_name@, version: expected_version },
                    )
                },
                Err(error) => {
                    &&& upgrade_refusal(old(self)@, expected_name@, expected_version) == Some(error)
                    &&& final(self)@ == old(self)@
                },
            },
            // code of another name never upgrades the container
            old(self)@ is Some && old(self)@->0.name != expected_name@
                ==> result == Err::<(), ContractError>(ContractError::NameMismatch)
                    && final(self)@ == old(self)@,
            // the name stays, and the version only moves forward
            old(self)@ is Some ==> final(self)@ is Some
                && final(self)@->0.name == old(self)@->0.name
                && (final(self)@->0.version == old(self)@->0.version
                    || old(self)@->0.version.precedes(final(self)@->0.version)),
    {
        match &mut self.record {
            None => Err(ContractError::StorageFailure),
            Some(record) => {
                if !string_eq(&record.name, expected_name) {
                    return Err(ContractError::NameMismatch);
                }
                if !record.version.is_older_than(&expected_version) {
                    return Err(ContractError::VersionNotNewer);
                }
                record.version = expected_version;
                Ok(())
            },
        }
    }

    /// The stored record. `StorageFailure` if there is none.
    pub fn query(&self) -> (result: Result<VersionRecord, ContractError>)
        ensures
            match result {
                Ok(record) => self@ == Some(record@),
                Err(error) => error == ContractError::StorageFailure && self@ is None,
            },
    {
        match &self.record {
            None => Err(ContractError::StorageFailure),
            Some(record) => Ok(record.clone()),
        }
    }
}

fn string_eq(stored: &String, expected: &str) -> (equal: bool)
    ensures
        equal == (stored@ == expected@),
{
    let expected = expected.to_owned();
    *stored == expected
}

} // verus!
