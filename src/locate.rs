use crate::error::UpgradeError;
use crate::version::{version_text, SemVer, Version};
use vstd::prelude::*;

verus! {

#[verifier::external_type_specification]
#[verifier::external_body]
pub struct ExUrlParseError(url::ParseError);

/// The serialization that the url crate gives to a parsed text; `None` where
/// `Url::parse` refuses it.
pub uninterp spec fn url_parse_of(s: Seq<char>) -> Option<Seq<char>>;

/// Relies on url::Url::parse, and on `From<Url> for String`, which hands out
/// the serialization; the result depends on the text alone.
#[verifier::external_body]
fn parse_url(s: &str) -> (r: Result<String, url::ParseError>)
    ensures
        r is Ok <==> url_parse_of(s@) is Some,
        r is Ok ==> url_parse_of(s@) == Some(r->Ok_0@),
{
    url::Url::parse(s).map(String::from)
}

/// File name of the release archive for a platform: `deno-<target>.zip`.
pub open spec fn archive_name_text(target: Seq<char>) -> Seq<char> {
    "deno-"@ + target + ".zip"@
}

/// Where the archive of a release for a platform is published.
pub open spec fn download_location(v: SemVer, target: Seq<char>) -> Seq<char> {
    "https://github.com/denoland/deno/releases/download/v"@ + version_text(v) + "/"@
        + archive_name_text(target)
}

/// The release archive's file name for the platform `target`.
pub fn archive_name(target: &str) -> (r: String)
    ensures
        r@ == archive_name_text(target@),
{
    let mut s = String::from_str("deno-");
    s.append(target);
    s.append(".zip");
    s
}

/// The download URL of the release archive of `version` for `target`.
pub fn compose_url_to_exec(version: &Version, target: &str) -> (r: Result<String, UpgradeError>)
    ensures
        r is Ok <==> url_parse_of(download_location(version@, target@)) is Some,
        r matches Ok(u) ==> url_parse_of(download_location(version@, target@)) == Some(u@),
        r matches Err(e) ==> e == UpgradeError::InvalidUrl,
{
    let mut s = String::from_str("https://github.com/denoland/deno/releases/download/v");
    version.write_text(&mut s);
    s.append("/");
    let name = archive_name(target);
    s.append(name.as_str());
    assert(s@ =~= download_location(version@, target@));
    match parse_url(s.as_str()) {
        Ok(u) => Ok(u),
        Err(_) => Err(UpgradeError::InvalidUrl),
    }
}

/// Two compositions from one version and one platform give the same text,
/// and the same URL.
pub proof fn lemma_url_deterministic(a: SemVer, b: SemVer, ta: Seq<char>, tb: Seq<char>)
    requires
        a == b,
        ta == tb,
    ensures
        download_location(a, ta) == download_location(b, tb),
        url_parse_of(download_location(a, ta)) == url_parse_of(download_location(b, tb)),
{
}

} // verus!
