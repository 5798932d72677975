//! Whether the build tool at hand is recent enough. Versions are read and
//! ordered by the `semver` crate.

use vstd::prelude::*;

verus! {

/// The oldest version of the build tool that is supported: its major number.
pub const MINIMUM_MAJOR: u64 = 1;

/// The oldest version of the build tool that is supported: its minor number.
pub const MINIMUM_MINOR: u64 = 5;

/// The oldest version of the build tool that is supported: its patch number.
pub const MINIMUM_PATCH: u64 = 0;

/// Whether `semver::Version::parse` reads `text` as a version.
pub uninterp spec fn semver_parses(text: Seq<char>) -> bool;

/// Whether the version that `semver::Version::parse` reads from `text`
/// comes before the release `major.minor.patch` in the order of
/// `semver::Version`.
pub uninterp spec fn semver_precedes(text: Seq<char>, major: u64, minor: u64, patch: u64) -> bool;

/// Reads a version from `text` with `semver::Version::parse` and compares
/// it, with `<` of `semver::Version`, to the release that
/// `semver::Version::new` makes of the three numbers. The answer is `None`
/// where `text` is no version. Nothing is proved of either: the contract
/// gives the two results their names.
#[verifier::external_body]
pub(crate) fn precedes(text: &str, major: u64, minor: u64, patch: u64) -> (older: Option<bool>)
    ensures
        older is Some <==> semver_parses(text@),
        older matches Some(before) ==> before == semver_precedes(text@, major, minor, patch),
{
    match semver::Version::parse(text) {
        Ok(version) => Some(version < semver::Version::new(major, minor, patch)),
        Err(_) => None,
    }
}

/// What is found of the build tool's version.
#[derive(Debug, Clone, Copy, PartialEq, Eq, Structural)]
pub enum ToolCheck {
    /// What the tool printed is no version.
    Unreadable,
    /// The tool is older than the oldest supported version.
    TooOld,
    /// The tool is recent enough.
    Supported,
}

/// What is found where the comparison with the oldest supported version
/// gave `older`: `None` for a text that is no version.
pub open spec fn judged(older: Option<bool>) -> ToolCheck {
    match older {
        None => ToolCheck::Unreadable,
        Some(before) => if before {
            ToolCheck::TooOld
        } else {
            ToolCheck::Supported
        },
    }
}

/// What is found of the version `text`.
pub open spec fn tool_check(text: Seq<char>) -> ToolCheck {
    if !semver_parses(text) {
        ToolCheck::Unreadable
    } else if semver_precedes(text, MINIMUM_MAJOR, MINIMUM_MINOR, MINIMUM_PATCH) {
        ToolCheck::TooOld
    } else {
        ToolCheck::Supported
    }
}

/// Says what is found where the comparison gave `older`.
pub fn judge(older: Option<bool>) -> (found: ToolCheck)
    ensures
        found == judged(older),
{
    match older {
        None => ToolCheck::Unreadable,
        Some(before) => {
            if before {
                ToolCheck::TooOld
            } else {
                ToolCheck::Supported
            }
        },
    }
}

/// Says whether the build tool of version `text` is recent enough.
pub fn check_tool_version(text: &str) -> (found: ToolCheck)
    ensures
        found == tool_check(text@),
{
    judge(precedes(text, MINIMUM_MAJOR, MINIMUM_MINOR, MINIMUM_PATCH))
}

} // verus!
