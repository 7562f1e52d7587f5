//! Interface versions, and how a declared one stands to the launcher's own.
//!
//! A caller may declare the version of the launcher interface it was written
//! for. The launcher supports the caret range of its own version: the same major
//! version, and a release that is not older.

use vstd::prelude::*;
use vstd::string::*;
use crate::text::{decimal, decimal_text};
use semver::{BuildMetadata, Comparator, Op, Prerelease, Version, VersionReq};

verus! {

/// Major number of the interface version that the launcher implements.
pub const OWN_MAJOR: u64 = 1;

/// Minor number of the interface version that the launcher implements.
pub const OWN_MINOR: u64 = 0;

/// Patch number of the interface version that the launcher implements.
pub const OWN_PATCH: u64 = 0;

/// A semantic version, as plain values.
#[derive(Clone, Debug, PartialEq, Eq)]
pub struct InterfaceVersion {
    pub major: u64,
    pub minor: u64,
    pub patch: u64,
    /// The pre-release identifiers, without the hyphen in front; empty for a release.
    pub pre: String,
    /// The build metadata, without the plus sign in front; empty if there is none.
    pub build: String,
}

/// The mathematical value of an [`InterfaceVersion`].
pub struct VersionView {
    pub major: nat,
    pub minor: nat,
    pub patch: nat,
    pub pre: Seq<char>,
    pub build: Seq<char>,
}

impl View for InterfaceVersion {
    type V = VersionView;

    open spec fn view(&self) -> VersionView {
        VersionView {
            major: self.major as nat,
            minor: self.minor as nat,
            patch: self.patch as nat,
            pre: self.pre@,
            build: self.build@,
        }
    }
}

impl DeepView for InterfaceVersion {
    type V = VersionView;

    open spec fn deep_view(&self) -> VersionView {
        self@
    }
}

/// How a declared version stands to the launcher's own.
#[derive(Clone, Copy, Debug, PartialEq, Eq, Structural)]
pub enum Standing {
    /// The caller declared no version.
    Undeclared,
    /// The caller declared exactly the launcher's own version.
    Identical,
    /// The declared version is in the supported range and is not the launcher's own.
    Compatible,
    /// The declared version is outside the supported range.
    Unsupported,
}

/// Whether the caret range of the release `major.minor.patch` admits `v`: `v`
/// has the same major number, is no older by minor and patch number, and is no
/// pre-release.
pub open spec fn caret_admits(major: nat, minor: nat, patch: nat, v: VersionView) -> bool {
    &&& v.major == major
    &&& (v.minor > minor || (v.minor == minor && v.patch >= patch))
    &&& v.pre.len() == 0
}

/// Whether `v` is in the range that the launcher supports.
pub open spec fn is_supported(v: VersionView) -> bool {
    caret_admits(OWN_MAJOR as nat, OWN_MINOR as nat, OWN_PATCH as nat, v)
}

/// Whether `v` is the launcher's own version: the same numbers, no pre-release
/// identifiers and no build metadata.
pub open spec fn is_own(v: VersionView) -> bool {
    &&& v.major == OWN_MAJOR
    &&& v.minor == OWN_MINOR
    &&& v.patch == OWN_PATCH
    &&& v.pre.len() == 0
    &&& v.build.len() == 0
}

/// The standing of what the caller declared.
pub open spec fn standing_of(declared: Option<VersionView>) -> Standing {
    match declared {
        None => Standing::Undeclared,
        Some(v) => if !is_supported(v) {
            Standing::Unsupported
        } else if is_own(v) {
            Standing::Identical
        } else {
            Standing::Compatible
        },
    }
}

/// The text of a version: the three numbers with dots between, then a hyphen and
/// the pre-release identifiers if there are any, then a plus sign and the build
/// metadata if there is any.
pub open spec fn version_text(v: VersionView) -> Seq<char> {
    let numbers = decimal(v.major) + seq!['.'] + decimal(v.minor) + seq!['.'] + decimal(v.patch);
    let pre = if v.pre.len() > 0 {
        seq!['-'] + v.pre
    } else {
        Seq::<char>::empty()
    };
    let build = if v.build.len() > 0 {
        seq!['+'] + v.build
    } else {
        Seq::<char>::empty()
    };
    numbers + pre + build
}

/// The text of the supported range: a caret and the launcher's own version.
pub open spec fn supported_range_text() -> Seq<char> {
    seq!['^'] + decimal(OWN_MAJOR as nat) + seq!['.'] + decimal(OWN_MINOR as nat) + seq!['.']
        + decimal(OWN_PATCH as nat)
}

/// The message for a declared version that is outside the supported range.
pub open spec fn unsupported_message_of(v: VersionView) -> Seq<char> {
    "Error: Unsupported interface version "@ + version_text(v) + ". Supported versions: "@
        + supported_range_text()
}

/// Asks `semver::VersionReq::matches` whether the caret requirement on the
/// release `base_major.base_minor.base_patch` is met by the version with the
/// given numbers and pre-release identifiers.
///
/// The answer is `None` where `semver::Prerelease::new` does not accept the
/// identifiers, which never happens for the empty text. Otherwise it is what
/// semver documents for a caret requirement with a major number above zero: the
/// same major number, minor and patch number not below the base, and no
/// pre-release, since the requirement names none. Build metadata plays no part
/// in matching and is not handed over.
#[verifier::external_body]
fn caret_matches(
    base_major: u64,
    base_minor: u64,
    base_patch: u64,
    major: u64,
    minor: u64,
    patch: u64,
    pre: &str,
) -> (r: Option<bool>)
    requires
        base_major > 0,
    ensures
        r is None ==> pre@.len() > 0,
        r matches Some(b) ==> b == (major == base_major && (minor > base_minor || (minor
            == base_minor && patch >= base_patch)) && pre@.len() == 0),
{
    let pre = Prerelease::new(pre).ok()?;
    let comparator = Comparator {
        op: Op::Caret,
        major: base_major,
        minor: Some(base_minor),
        patch: Some(base_patch),
        pre: Prerelease::EMPTY,
    };
    let requirement = VersionReq { comparators: vec![comparator] };
    Some(requirement.matches(&Version { major, minor, patch, pre, build: BuildMetadata::EMPTY }))
}

impl InterfaceVersion {
    /// The release `major.minor.patch`.
    pub fn release(major: u64, minor: u64, patch: u64) -> (v: InterfaceVersion)
        ensures
            v.major == major,
            v.minor == minor,
            v.patch == patch,
            v.pre@.len() == 0,
            v.build@.len() == 0,
    {
        InterfaceVersion { major, minor, patch, pre: String::new(), build: String::new() }
    }

    /// The version of the interface that the launcher implements.
    pub fn own() -> (v: InterfaceVersion)
        ensures
            is_own(v@),
    {
        InterfaceVersion::release(OWN_MAJOR, OWN_MINOR, OWN_PATCH)
    }

    /// Whether this is the launcher's own version.
    pub fn is_own(&self) -> (r: bool)
        ensures
            r == is_own(self@),
    {
        self.major == OWN_MAJOR && self.minor == OWN_MINOR && self.patch == OWN_PATCH
            && self.pre.as_str().is_empty() && self.build.as_str().is_empty()
    }

    /// Whether this version is in the range that the launcher supports.
    pub fn is_supported(&self) -> (r: bool)
        ensures
            r == is_supported(self@),
    {
        match caret_matches(
            OWN_MAJOR,
            OWN_MINOR,
            OWN_PATCH,
            self.major,
            self.minor,
            self.patch,
            self.pre.as_str(),
        ) {
            Some(admitted) => admitted,
            None => false,
        }
    }

    /// The text of this version.
    pub fn text(&self) -> (s: String)
        ensures
            s@ == version_text(self@),
    {
        proof {
            reveal_strlit(".");
            reveal_strlit("-");
            reveal_strlit("+");
        }
        let mut s = decimal_text(self.major);
        s.append(".");
        s.append(decimal_text(self.minor).as_str());
        s.append(".");
        s.append(decimal_text(self.patch).as_str());
        assert(s@ =~= decimal(self@.major) + seq!['.'] + decimal(self@.minor) + seq!['.']
            + decimal(self@.patch));
        if !self.pre.as_str().is_empty() {
            s.append("-");
            s.append(self.pre.as_str());
        }
        if !self.build.as_str().is_empty() {
            s.append("+");
            s.append(self.build.as_str());
        }
        s
    }
}

/// Finds how the declared version stands to the launcher's own.
pub fn standing(declared: Option<&InterfaceVersion>) -> (r: Standing)
    ensures
        r == standing_of(declared.deep_view()),
{
    match declared {
        None => Standing::Undeclared,
        Some(v) => if !v.is_supported() {
            Standing::Unsupported
        } else if v.is_own() {
            Standing::Identical
        } else {
            Standing::Compatible
        },
    }
}

/// The text of the range of versions that the launcher supports.
pub fn supported_range() -> (s: String)
    ensures
        s@ == supported_range_text(),
{
    proof {
        reveal_strlit("^");
        reveal_strlit(".");
    }
    let mut s = String::from_str("^");
    s.append(decimal_text(OWN_MAJOR).as_str());
    s.append(".");
    s.append(decimal_text(OWN_MINOR).as_str());
    s.append(".");
    s.append(decimal_text(OWN_PATCH).as_str());
    s
}

/// Writes the message for a declared version that is outside the supported range.
pub fn unsupported_message(declared: &InterfaceVersion) -> (s: String)
    ensures
        s@ == unsupported_message_of(declared@),
{
    let mut s = String::from_str("Error: Unsupported interface version ");
    s.append(declared.text().as_str());
    s.append(". Supported versions: ");
    s.append(supported_range().as_str());
    s
}

/// The launcher's own version is in the range it supports, and an identical
/// version is therefore never unsupported.
pub proof fn lemma_own_version_is_supported(v: VersionView)
    requires
        is_own(v),
    ensures
        is_supported(v),
        standing_of(Some(v)) == Standing::Identical,
{
}

/// A version with another major number, or with pre-release identifiers, is
/// outside the supported range.
pub proof fn lemma_unsupported_versions(v: VersionView)
    requires
        v.major != OWN_MAJOR || v.pre.len() > 0,
    ensures
        standing_of(Some(v)) == Standing::Unsupported,
{
}

} // verus!
