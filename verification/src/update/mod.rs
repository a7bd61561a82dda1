//! The decisions of the self-update: whether to look for a release, whether
//! a release is newer than what runs, and whether a download is the file
//! that the release names.

use vstd::prelude::*;

use sha2::Digest;

use crate::config::UpdateSettings;
use crate::error::UpdateError;
use crate::error::UpdateFailure;
use crate::text::chars_of;
use crate::text::join;
use crate::text::same_text;

verus! {

/// A version number as the `semver` crate holds it.
#[verifier::external_type_specification]
#[verifier::external_body]
pub struct ExVersion(semver::Version);

/// The SHA-256 digest of `data`, written as 64 lower-case hexadecimal digits.
pub uninterp spec fn sha256_hex(data: Seq<u8>) -> Seq<char>;

/// The lower-case form of a text, as `str::to_lowercase` gives it.
pub uninterp spec fn lowercase(text: Seq<char>) -> Seq<char>;

/// The version that `semver` reads from a text, or the text of its error.
pub uninterp spec fn version_of(text: Seq<char>) -> Result<semver::Version, Seq<char>>;

/// Whether `a <= b` in the order that `semver::Version` implements.
pub uninterp spec fn version_at_most(a: semver::Version, b: semver::Version) -> bool;

/// One downloadable file of a release.
#[derive(Debug, Clone, PartialEq, Eq)]
pub struct Asset {
    pub url: String,
    /// The SHA-256 digest of the file in hexadecimal, with or without a
    /// leading `sha256:`.
    pub checksum: String,
}

/// The files of a release, by platform.
#[derive(Debug, Clone, PartialEq, Eq)]
pub struct Assets {
    pub macos_aarch64: Option<Asset>,
    pub macos_x86_64: Option<Asset>,
    pub windows_x86_64: Option<Asset>,
}

/// The file of a release for the platform with the given names of operating
/// system and processor, or why there is none.
pub open spec fn asset_for(assets: Assets, os: Seq<char>, arch: Seq<char>) -> Result<
    Asset,
    UpdateFailure,
> {
    if os == "macos"@ && arch == "aarch64"@ {
        match assets.macos_aarch64 {
            Some(asset) => Ok(asset),
            None => Err(UpdateFailure::CheckFailed("No macOS ARM64 asset found"@)),
        }
    } else if os == "macos"@ && arch == "x86_64"@ {
        match assets.macos_x86_64 {
            Some(asset) => Ok(asset),
            None => Err(UpdateFailure::CheckFailed("No macOS x86_64 asset found"@)),
        }
    } else if os == "windows"@ && arch == "x86_64"@ {
        match assets.windows_x86_64 {
            Some(asset) => Ok(asset),
            None => Err(UpdateFailure::CheckFailed("No Windows x86_64 asset found"@)),
        }
    } else {
        Err(UpdateFailure::CheckFailed("Unsupported platform for auto-update"@))
    }
}

/// A decision or a failure, with the texts of the failure by their characters.
pub open spec fn decision_view<T>(r: Result<T, UpdateError>) -> Result<T, UpdateFailure> {
    match r {
        Ok(decision) => Ok(decision),
        Err(e) => Err(e@),
    }
}

/// A parsed version or the text of an error, with the text by its characters.
pub open spec fn version_view(r: Result<semver::Version, String>) -> Result<
    semver::Version,
    Seq<char>,
> {
    match r {
        Ok(version) => Ok(version),
        Err(text) => Err(text@),
    }
}

/// Whether to look for a release at all: not when updates are switched off
/// and not forced; and there must be an address to ask.
pub open spec fn wanted(settings: UpdateSettings, force: bool) -> Result<bool, UpdateFailure> {
    if !settings.enabled && !force {
        Ok(false)
    } else if settings.update_url@.len() == 0 {
        Err(UpdateFailure::CheckFailed("No update URL configured"@))
    } else {
        Ok(true)
    }
}

/// How the version that runs and the version of the latest release compare.
#[derive(Debug, Clone, PartialEq, Eq)]
pub enum VersionCheck {
    /// The version that runs could not be read; the text says why.
    CurrentUnreadable(String),
    /// The version of the release could not be read; the text says why.
    LatestUnreadable(String),
    /// Both were read; `newer` says whether the release is the later one.
    Compared { newer: bool },
}

/// A comparison, with its texts as sequences of characters.
pub enum VersionCheckView {
    CurrentUnreadable(Seq<char>),
    LatestUnreadable(Seq<char>),
    Compared { newer: bool },
}

impl View for VersionCheck {
    type V = VersionCheckView;

    open spec fn view(&self) -> VersionCheckView {
        match self {
            VersionCheck::CurrentUnreadable(text) => VersionCheckView::CurrentUnreadable(text@),
            VersionCheck::LatestUnreadable(text) => VersionCheckView::LatestUnreadable(text@),
            VersionCheck::Compared { newer } => VersionCheckView::Compared { newer: *newer },
        }
    }
}

/// How two version numbers compare, over what `semver` makes of them. The
/// version that runs is read first.
pub open spec fn compared(current: Seq<char>, latest: Seq<char>) -> VersionCheckView {
    match version_of(current) {
        Err(text) => VersionCheckView::CurrentUnreadable(text),
        Ok(running) => match version_of(latest) {
            Err(text) => VersionCheckView::LatestUnreadable(text),
            Ok(released) => VersionCheckView::Compared {
                newer: !version_at_most(released, running),
            },
        },
    }
}

/// Whether the latest release is to be installed over what runs: when it is
/// newer, or in any case when forced. Both version numbers must be readable.
pub open spec fn due_after(check: VersionCheckView, force: bool) -> Result<bool, UpdateFailure> {
    match check {
        VersionCheckView::CurrentUnreadable(text) => Err(
            UpdateFailure::InvalidVersion("Current: "@ + text),
        ),
        VersionCheckView::LatestUnreadable(text) => Err(
            UpdateFailure::InvalidVersion("Latest: "@ + text),
        ),
        VersionCheckView::Compared { newer } => Ok(force || newer),
    }
}

/// Whether the latest release is to be installed over what runs.
pub open spec fn due(current: Seq<char>, latest: Seq<char>, force: bool) -> Result<
    bool,
    UpdateFailure,
> {
    due_after(compared(current, latest), force)
}

/// The digest that a release names: the text without a leading `sha256:`,
/// in lower case.
pub open spec fn named_digest(expected: Seq<char>) -> Seq<char> {
    if expected.len() >= 7 && expected.take(7) == "sha256:"@ {
        lowercase(expected.skip(7))
    } else {
        lowercase(expected)
    }
}

/// Whether two digests are the same, and both of them if not.
pub open spec fn digests_compared(actual: Seq<char>, expected: Seq<char>) -> Result<
    (),
    UpdateFailure,
> {
    if actual == expected {
        Ok(())
    } else {
        Err(UpdateFailure::ChecksumMismatch { expected, actual })
    }
}

/// Whether `data` is the file that a release names by `expected`.
pub open spec fn checksum_outcome(data: Seq<u8>, expected: Seq<char>) -> Result<(), UpdateFailure> {
    digests_compared(sha256_hex(data), named_digest(expected))
}

/// Calls `sha2::Sha256::digest` and writes the digest with the `{:x}` format.
#[verifier::external_body]
fn digest_hex(data: &[u8]) -> (r: String)
    ensures
        r@ == sha256_hex(data@),
{
    format!("{:x}", sha2::Sha256::digest(data))
}

/// Calls `str::to_lowercase`.
#[verifier::external_body]
fn to_lowercase(text: &str) -> (r: String)
    ensures
        r@ == lowercase(text@),
{
    text.to_lowercase()
}

/// Calls `semver::Version::parse` and hands back the version, or the text
/// of the error.
#[verifier::external_body]
fn parse_version(text: &str) -> (r: Result<semver::Version, String>)
    ensures
        version_view(r) == version_of(text@),
{
    semver::Version::parse(text).map_err(|e| e.to_string())
}

/// Compares two versions with `<=`, in the order that `semver::Version`
/// implements.
#[verifier::external_body]
fn at_most(a: &semver::Version, b: &semver::Version) -> (r: bool)
    ensures
        r == version_at_most(*a, *b),
{
    a <= b
}

/// Decides whether to look for a release.
pub fn update_wanted(settings: &UpdateSettings, force: bool) -> (r: Result<bool, UpdateError>)
    ensures
        decision_view(r) == wanted(*settings, force),
{
    if !settings.enabled && !force {
        Ok(false)
    } else if settings.update_url.as_str().is_empty() {
        Err(UpdateError::CheckFailed(String::from_str("No update URL configured")))
    } else {
        Ok(true)
    }
}

/// Reads both version numbers and compares them.
pub fn compare_versions(current: &str, latest: &str) -> (check: VersionCheck)
    ensures
        check@ == compared(current@, latest@),
{
    let running = match parse_version(current) {
        Ok(version) => version,
        Err(text) => {
            return VersionCheck::CurrentUnreadable(text);
        },
    };
    let released = match parse_version(latest) {
        Ok(version) => version,
        Err(text) => {
            return VersionCheck::LatestUnreadable(text);
        },
    };
    VersionCheck::Compared { newer: !at_most(&released, &running) }
}

/// Decides from a comparison whether the latest release is to be installed.
pub fn due_from(check: &VersionCheck, force: bool) -> (r: Result<bool, UpdateError>)
    ensures
        decision_view(r) == due_after(check@, force),
{
    match check {
        VersionCheck::CurrentUnreadable(text) => Err(
            UpdateError::InvalidVersion(join("Current: ", text.as_str())),
        ),
        VersionCheck::LatestUnreadable(text) => Err(
            UpdateError::InvalidVersion(join("Latest: ", text.as_str())),
        ),
        VersionCheck::Compared { newer } => Ok(force || *newer),
    }
}

/// Decides whether the latest release is to be installed over what runs.
pub fn update_due(current: &str, latest: &str, force: bool) -> (r: Result<bool, UpdateError>)
    ensures
        decision_view(r) == due(current@, latest@, force),
{
    let check = compare_versions(current, latest);
    due_from(&check, force)
}

fn missing(what: &str) -> (r: Result<&Asset, UpdateError>)
    ensures
        r matches Err(e) && e@ == UpdateFailure::CheckFailed(what@),
{
    Err(UpdateError::CheckFailed(String::from_str(what)))
}

/// Picks the file of a release for a platform, named as the standard library
/// names the operating system and the processor it was built for.
pub fn get_platform_asset<'a>(assets: &'a Assets, os: &str, arch: &str) -> (r: Result<
    &'a Asset,
    UpdateError,
>)
    ensures
        match r {
            Ok(asset) => asset_for(*assets, os@, arch@) == Ok::<Asset, UpdateFailure>(*asset),
            Err(e) => asset_for(*assets, os@, arch@) == Err::<Asset, UpdateFailure>(e@),
        },
{
    let macos = same_text(os, "macos");
    let windows = same_text(os, "windows");
    let aarch64 = same_text(arch, "aarch64");
    let x86_64 = same_text(arch, "x86_64");
    if macos && aarch64 {
        match &assets.macos_aarch64 {
            Some(asset) => Ok(asset),
            None => missing("No macOS ARM64 asset found"),
        }
    } else if macos && x86_64 {
        match &assets.macos_x86_64 {
            Some(asset) => Ok(asset),
            None => missing("No macOS x86_64 asset found"),
        }
    } else if windows && x86_64 {
        match &assets.windows_x86_64 {
            Some(asset) => Ok(asset),
            None => missing("No Windows x86_64 asset found"),
        }
    } else {
        missing("Unsupported platform for auto-update")
    }
}

/// Reads the digest that a release names.
fn expected_digest(expected: &str) -> (r: String)
    ensures
        r@ == named_digest(expected@),
{
    let chars = chars_of(expected);
    proof {
        reveal_strlit("sha256:");
    }
    if chars.len() >= 7 && chars[0] == 's' && chars[1] == 'h' && chars[2] == 'a' && chars[3] == '2'
        && chars[4] == '5' && chars[5] == '6' && chars[6] == ':' {
        assert(expected@.take(7) =~= "sha256:"@);
        assert(expected@.skip(7) =~= expected@.subrange(7, expected@.len() as int));
        to_lowercase(expected.substring_char(7, chars.len()))
    } else {
        assert(expected@.len() >= 7 ==> expected@.take(7) != "sha256:"@) by {
            if expected@.len() >= 7 && expected@.take(7) == "sha256:"@ {
                assert(expected@.take(7)[0] == 's');
                assert(expected@.take(7)[1] == 'h');
                assert(expected@.take(7)[2] == 'a');
                assert(expected@.take(7)[3] == '2');
                assert(expected@.take(7)[4] == '5');
                assert(expected@.take(7)[5] == '6');
                assert(expected@.take(7)[6] == ':');
            }
        }
        to_lowercase(expected)
    }
}

/// Compares the digest of a download with the digest that was expected.
pub fn compare_digests(actual: String, expected: String) -> (r: Result<(), UpdateError>)
    ensures
        decision_view(r) == digests_compared(actual@, expected@),
{
    if actual != expected {
        return Err(UpdateError::ChecksumMismatch { expected, actual });
    }
    Ok(())
}

/// Checks a download against the digest that the release names.
pub fn verify_checksum(data: &[u8], expected: &str) -> (r: Result<(), UpdateError>)
    ensures
        decision_view(r) == checksum_outcome(data@, expected@),
{
    let expected_hash = expected_digest(expected);
    let actual_hash = digest_hex(data);
    compare_digests(actual_hash, expected_hash)
}

} // verus!
