use crate::error::UpgradeError;
use crate::tag::{find_version, tag_version};
use crate::version::{parse_version, precedence, semver_of, SemVer, Version};
use core::cmp::Ordering;
use vstd::prelude::*;

verus! {

/// What the resolver settles on.
pub enum Resolution {
    /// The running version already is the one wanted: nothing to do.
    AlreadyCurrent,
    /// Install this version.
    Install(Version),
}

pub enum ResolutionModel {
    AlreadyCurrent,
    Install(SemVer),
}

impl View for Resolution {
    type V = ResolutionModel;

    open spec fn view(&self) -> ResolutionModel {
        match self {
            Resolution::AlreadyCurrent => ResolutionModel::AlreadyCurrent,
            Resolution::Install(v) => ResolutionModel::Install(v@),
        }
    }
}

/// An explicitly requested version is installed unless it is the running
/// one and the install is not forced.
pub open spec fn requested_decision(current: SemVer, requested: SemVer, force: bool) -> ResolutionModel {
    if !force && precedence(current, requested) == Ordering::Equal {
        ResolutionModel::AlreadyCurrent
    } else {
        ResolutionModel::Install(requested)
    }
}

/// The latest release is installed only where it is newer than the running
/// version, or the install is forced.
pub open spec fn latest_decision(current: SemVer, latest: SemVer, force: bool) -> ResolutionModel {
    if !force && precedence(current, latest) != Ordering::Less {
        ResolutionModel::AlreadyCurrent
    } else {
        ResolutionModel::Install(latest)
    }
}

/// The release page names a tag that is a semantic version.
pub open spec fn latest_parses(page: Seq<char>) -> bool {
    match tag_version(page) {
        Some(t) => semver_of(t) is Some,
        None => false,
    }
}

/// The error that resolving against a release page gives: no tag, or a tag
/// that is no semantic version.
pub open spec fn latest_failure(page: Seq<char>, e: UpgradeError) -> bool {
    match e {
        UpgradeError::NotFound => tag_version(page) is None,
        UpgradeError::InvalidLatest => match tag_version(page) {
            Some(t) => semver_of(t) is None,
            None => false,
        },
        _ => false,
    }
}

/// Decides on an explicitly requested version.
pub fn decide_requested(current: &Version, requested: Version, force: bool) -> (r: Resolution)
    ensures
        r@ == requested_decision(current@, requested@, force),
{
    if !force {
        match current.precedence_cmp(&requested) {
            Ordering::Equal => {
                return Resolution::AlreadyCurrent;
            },
            _ => {},
        }
    }
    Resolution::Install(requested)
}

/// Decides on the latest published version.
pub fn decide_latest(current: &Version, latest: Version, force: bool) -> (r: Resolution)
    ensures
        r@ == latest_decision(current@, latest@, force),
{
    if !force {
        match current.precedence_cmp(&latest) {
            Ordering::Less => {},
            _ => {
                return Resolution::AlreadyCurrent;
            },
        }
    }
    Resolution::Install(latest)
}

/// Resolves an explicitly requested version string.
pub fn resolve_requested(current: &Version, requested: &str, force: bool) -> (r: Result<
    Resolution,
    UpgradeError,
>)
    ensures
        match semver_of(requested@) {
            None => r matches Err(e) && e == UpgradeError::InvalidVersion,
            Some(v) => r matches Ok(res) && res@ == requested_decision(current@, v, force),
        },
{
    match parse_version(requested) {
        Some(v) => Ok(decide_requested(current, v, force)),
        None => Err(UpgradeError::InvalidVersion),
    }
}

/// Resolves against the text of the latest-release page.
pub fn resolve_latest(current: &Version, page: &str, force: bool) -> (r: Result<
    Resolution,
    UpgradeError,
>)
    ensures
        r matches Ok(res) ==> tag_version(page@) matches Some(t) && semver_of(t) matches Some(
            lv,
        ) && res@ == latest_decision(current@, lv, force),
        r is Ok <==> latest_parses(page@),
        r matches Err(e) ==> latest_failure(page@, e),
{
    let tag = find_version(page)?;
    match parse_version(tag.as_str()) {
        Some(v) => Ok(decide_latest(current, v, force)),
        None => Err(UpgradeError::InvalidLatest),
    }
}

} // verus!
