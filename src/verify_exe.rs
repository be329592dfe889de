use crate::error::Defect;
use crate::version::{version_text, Version};
use vstd::prelude::*;

verus! {

/// A character of Unicode's White_Space property.
pub open spec fn is_white_space(c: char) -> bool {
    ||| ('\u{9}' <= c && c <= '\u{d}')
    ||| c == ' '
    ||| c == '\u{85}'
    ||| c == '\u{a0}'
    ||| c == '\u{1680}'
    ||| ('\u{2000}' <= c && c <= '\u{200a}')
    ||| c == '\u{2028}'
    ||| c == '\u{2029}'
    ||| c == '\u{202f}'
    ||| c == '\u{205f}'
    ||| c == '\u{3000}'
}

pub open spec fn trim_start_of(s: Seq<char>) -> Seq<char>
    decreases s.len(),
{
    if s.len() > 0 && is_white_space(s[0]) {
        trim_start_of(s.drop_first())
    } else {
        s
    }
}

pub open spec fn trim_end_of(s: Seq<char>) -> Seq<char>
    decreases s.len(),
{
    if s.len() > 0 && is_white_space(s.last()) {
        trim_end_of(s.drop_last())
    } else {
        s
    }
}

/// A text without its leading and trailing white space.
pub open spec fn trim_of(s: Seq<char>) -> Seq<char> {
    trim_end_of(trim_start_of(s))
}

/// Relies on str::trim: the text without the leading and trailing
/// characters of Unicode's White_Space property.
#[verifier::external_body]
fn trim_text(s: &str) -> (r: &str)
    ensures
        r@ == trim_of(s@),
{
    s.trim()
}

/// The line that the executable of `v` prints when asked for its version.
pub open spec fn version_line(v: crate::version::SemVer) -> Seq<char> {
    "deno "@ + version_text(v)
}

/// The line that the executable of `v` prints when asked for its version.
pub fn expected_version_line(v: &Version) -> (r: String)
    ensures
        r@ == version_line(v@),
{
    let mut s = String::from_str("deno ");
    v.write_text(&mut s);
    s
}

/// The verdict on a new executable's answer to a version query, given the
/// answer trimmed of white space.
pub open spec fn version_verdict(
    status_ok: bool,
    trimmed: Seq<char>,
    expected: crate::version::SemVer,
) -> Result<(), Defect> {
    if !status_ok {
        Err(Defect::VersionQueryFailed)
    } else if trimmed != version_line(expected) {
        Err(Defect::VersionMismatch)
    } else {
        Ok(())
    }
}

/// Judges the answer of a new executable asked for its version, given the
/// answer already trimmed: it must have succeeded, and named `expected`.
pub fn judge_version_report(status_ok: bool, trimmed: &str, expected: &Version) -> (r: Result<
    (),
    Defect,
>)
    ensures
        r == version_verdict(status_ok, trimmed@, expected@),
{
    if !status_ok {
        return Err(Defect::VersionQueryFailed);
    }
    let line = expected_version_line(expected);
    if crate::unpack::same_text(trimmed, line.as_str()) {
        Ok(())
    } else {
        Err(Defect::VersionMismatch)
    }
}

/// Judges what a new executable printed when asked for its version: the
/// installation goes on only where it succeeded and, white space around
/// aside, printed `deno <expected>`.
pub fn check_version_output(status_ok: bool, stdout: &str, expected: &Version) -> (r: Result<
    (),
    Defect,
>)
    ensures
        r == version_verdict(status_ok, trim_of(stdout@), expected@),
{
    judge_version_report(status_ok, trim_text(stdout), expected)
}

/// An executable that reports any other version than the expected one is
/// never accepted, whether or not its process succeeded.
pub proof fn lemma_mismatch_rejected(
    status_ok: bool,
    trimmed: Seq<char>,
    expected: crate::version::SemVer,
)
    requires
        trimmed != version_line(expected),
    ensures
        version_verdict(status_ok, trimmed, expected) is Err,
{
}

} // verus!
