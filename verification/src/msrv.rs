//! Compiler versions, and the versions from which the predicates that a
//! rule suggests can be used.

use rustc_semver::{RustcVersion, SpecialVersion};
use vstd::prelude::*;

verus! {

/// A version of the compiler: a release, or one of the three pre-releases
/// of 1.0.0.
#[derive(Clone, Copy, Debug, PartialEq, Eq, Structural)]
pub enum Version {
    Normal { major: u32, minor: u32, patch: u32 },
    Alpha,
    Alpha2,
    Beta,
}

/// Something a rule may suggest only from some release on.
#[derive(Clone, Copy, Debug, PartialEq, Eq, Structural)]
pub enum Capability {
    /// The predicates `is_ascii_digit` and its kin.
    IsAsciiDigit,
    /// The same predicates in code that is evaluated at compile time.
    IsAsciiDigitConst,
}

/// `version` meets the requirement `^major.minor.patch`: it is a release of
/// the same major version, not older than the requirement, and where the
/// requirement starts with zeros its first part that is not zero is
/// unchanged. A pre-release meets no release.
pub open spec fn meets(version: Version, major: u32, minor: u32, patch: u32) -> bool {
    match version {
        Version::Normal { major: a, minor: b, patch: c } => {
            &&& a == major
            &&& (b > minor || (b == minor && c >= patch))
            &&& (major == 0 ==> b == minor && (minor == 0 ==> c == patch))
        },
        _ => false,
    }
}

impl Capability {
    /// The release that brought the capability, as major, minor and patch.
    pub open spec fn spec_since(self) -> (u32, u32, u32) {
        match self {
            Capability::IsAsciiDigit => (1u32, 24u32, 0u32),
            Capability::IsAsciiDigitConst => (1u32, 47u32, 0u32),
        }
    }

    #[verifier::when_used_as_spec(spec_since)]
    pub fn since(self) -> (release: (u32, u32, u32))
        ensures
            release == self.spec_since(),
    {
        match self {
            Capability::IsAsciiDigit => (1, 24, 0),
            Capability::IsAsciiDigitConst => (1, 47, 0),
        }
    }
}

/// Whether code that must build with `msrv` may use `capability`. Without a
/// configured version every capability may be used.
pub open spec fn msrv_allows(msrv: Option<Version>, capability: Capability) -> bool {
    match msrv {
        Some(version) => meets(
            version,
            capability.spec_since().0,
            capability.spec_since().1,
            capability.spec_since().2,
        ),
        None => true,
    }
}

/// Whether `version` meets the requirement `major.minor.patch`, as
/// `RustcVersion::meets` of the crate `rustc-semver` decides it.
///
/// The body is not verified. The contract claims of `RustcVersion::meets`
/// that, against a requirement built by `RustcVersion::new` (none of whose
/// parts counts as left out), it returns what `meets` spells out: for a
/// release the comparison of caret requirements, and `false` for a
/// pre-release, which equals no release.
#[verifier::external_body]
fn version_meets(version: Version, major: u32, minor: u32, patch: u32) -> (met: bool)
    ensures
        met == meets(version, major, minor, patch),
{
    let version = match version {
        Version::Normal { major, minor, patch } => RustcVersion::new(major, minor, patch),
        Version::Alpha => RustcVersion::Special(SpecialVersion::Alpha),
        Version::Alpha2 => RustcVersion::Special(SpecialVersion::Alpha2),
        Version::Beta => RustcVersion::Special(SpecialVersion::Beta),
    };
    version.meets(RustcVersion::new(major, minor, patch))
}

/// Whether code that must build with `msrv` may use `capability`.
pub fn meets_msrv(msrv: Option<Version>, capability: Capability) -> (allowed: bool)
    ensures
        allowed == msrv_allows(msrv, capability),
{
    match msrv {
        Some(version) => {
            let (major, minor, patch) = capability.since();
            version_meets(version, major, minor, patch)
        },
        None => true,
    }
}

} // verus!
