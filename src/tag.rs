use crate::error::UpgradeError;
use vstd::prelude::*;

verus! {

#[verifier::external_type_specification]
#[verifier::external_body]
pub struct ExRegexError(regex::Error);

pub open spec fn is_digit(c: char) -> bool {
    '0' <= c && c <= '9'
}

/// A character that may stand in a version token: an ASCII letter or digit,
/// `.`, `-` or `+`.
pub open spec fn is_token_char(c: char) -> bool {
    ||| is_digit(c)
    ||| ('a' <= c && c <= 'z')
    ||| ('A' <= c && c <= 'Z')
    ||| c == '.'
    ||| c == '-'
    ||| c == '+'
}

/// `t[i..=j]` is a tag reference: a `v`, a version token that starts with a
/// digit, then the closing double quote.
pub open spec fn tag_span(t: Seq<char>, i: int, j: int) -> bool {
    &&& 0 <= i
    &&& i + 1 < j < t.len()
    &&& t[i] == 'v'
    &&& is_digit(t[i + 1])
    &&& t[j] == '"'
    &&& forall|k: int| i < k < j ==> is_token_char(#[trigger] t[k])
}

/// The leftmost tag reference.
pub open spec fn first_tag_span(t: Seq<char>, i: int, j: int) -> bool {
    &&& tag_span(t, i, j)
    &&& forall|i2: int, j2: int| #[trigger] tag_span(t, i2, j2) ==> i <= i2
}

/// The version that a release page names: the token of its first tag
/// reference.
pub open spec fn tag_version(t: Seq<char>) -> Option<Seq<char>> {
    if exists|i: int, j: int| first_tag_span(t, i, j) {
        let (i, j) = choose|i: int, j: int| first_tag_span(t, i, j);
        Some(t.subrange(i + 1, j))
    } else {
        None
    }
}

/// Relies on regex::Regex::new and Regex::find with the tag pattern
/// `v([0-9][0-9A-Za-z.+-]*)"`: the pattern is valid and small, so it
/// compiles; and `find` gives the leftmost match. The token class holds no
/// quote, so a match from a given `v` can only end at the first character
/// after its token.
#[verifier::external_body]
fn find_tag_match(pattern: &str, text: &str) -> (r: Result<Option<String>, regex::Error>)
    requires
        pattern@ == "v([0-9][0-9A-Za-z.+-]*)\""@,
    ensures
        r is Ok,
        r matches Ok(None) ==> !exists|i: int, j: int| tag_span(text@, i, j),
        r matches Ok(Some(m)) ==> exists|i: int, j: int|
            first_tag_span(text@, i, j) && m@ == text@.subrange(i, j + 1),
{
    regex::Regex::new(pattern).map(|re| re.find(text).map(|m| m.as_str().to_string()))
}

proof fn lemma_span_end_unique(t: Seq<char>, i: int, j: int, j2: int)
    requires
        tag_span(t, i, j),
        tag_span(t, i, j2),
    ensures
        j == j2,
{
    if j < j2 {
        assert(is_token_char(t[j]));
    } else if j2 < j {
        assert(is_token_char(t[j2]));
    }
}

proof fn lemma_first_span_unique(t: Seq<char>, i: int, j: int, i2: int, j2: int)
    requires
        first_tag_span(t, i, j),
        first_tag_span(t, i2, j2),
    ensures
        i == i2 && j == j2,
{
    assert(tag_span(t, i2, j2));
    assert(tag_span(t, i, j));
    lemma_span_end_unique(t, i, j, j2);
}

/// Strips the leading `v` and the closing quote from a tag match.
pub fn version_in_match(m: &str) -> (r: String)
    requires
        m@.len() >= 2,
    ensures
        r@ == m@.subrange(1, m@.len() - 1),
{
    let n = m.unicode_len();
    let s = m.substring_char(1, n - 1);
    String::from_str(s)
}

/// Extracts the version from the text of the latest-release page.
pub fn find_version(text: &str) -> (r: Result<String, UpgradeError>)
    ensures
        r is Ok <==> tag_version(text@) is Some,
        r matches Ok(v) ==> tag_version(text@) == Some(v@),
        r matches Err(e) ==> e == UpgradeError::NotFound,
{
    match find_tag_match("v([0-9][0-9A-Za-z.+-]*)\"", text) {
        Ok(Some(m)) => {
            let ghost (i, j) = choose|i: int, j: int|
                first_tag_span(text@, i, j) && m@ == text@.subrange(i, j + 1);
            proof {
                let (i2, j2) = choose|i: int, j: int| first_tag_span(text@, i, j);
                lemma_first_span_unique(text@, i, j, i2, j2);
            }
            let v = version_in_match(m.as_str());
            assert(v@ =~= text@.subrange(i + 1, j));
            Ok(v)
        },
        _ => Err(UpgradeError::NotFound),
    }
}

/// A page that holds the tag reference `v<ver>"`, where `ver` is a version
/// token, after markup that holds no tag reference and does not end in a
/// token character, names exactly `ver`, whatever follows.
pub proof fn lemma_tag_extracted(prefix: Seq<char>, ver: Seq<char>, suffix: Seq<char>)
    requires
        ver.len() > 0,
        is_digit(ver[0]),
        forall|k: int| 0 <= k < ver.len() ==> is_token_char(#[trigger] ver[k]),
        forall|i: int, j: int| !tag_span(prefix, i, j),
        prefix.len() > 0 ==> !is_token_char(prefix.last()),
    ensures
        tag_version(prefix + seq!['v'] + ver + seq!['"'] + suffix) == Some(ver),
{
    let t = prefix + seq!['v'] + ver + seq!['"'] + suffix;
    let n = prefix.len() as int;
    let i0 = n;
    let j0 = i0 + 1 + ver.len();
    assert(t[i0] == 'v');
    assert(t[j0] == '"');
    assert(t[i0 + 1] == ver[0]);
    assert forall|k: int| i0 < k < j0 implies is_token_char(#[trigger] t[k]) by {
        assert(t[k] == ver[k - i0 - 1]);
    }
    assert(tag_span(t, i0, j0));
    assert forall|i2: int, j2: int| #[trigger] tag_span(t, i2, j2) implies i0 <= i2 by {
        if i2 < i0 {
            if j2 >= n {
                assert(t[n - 1] == prefix.last());
                if i2 < n - 1 {
                    assert(is_token_char(t[n - 1]));
                } else {
                    assert(t[i2] == 'v');
                }
            } else {
                assert forall|k: int| i2 < k < j2 implies is_token_char(#[trigger] prefix[k]) by {
                    assert(t[k] == prefix[k]);
                    assert(is_token_char(t[k]));
                }
                assert(t[i2] == prefix[i2]);
                assert(t[i2 + 1] == prefix[i2 + 1]);
                assert(t[j2] == prefix[j2]);
                assert(tag_span(prefix, i2, j2));
            }
        }
    }
    assert(first_tag_span(t, i0, j0));
    let (i, j) = choose|i: int, j: int| first_tag_span(t, i, j);
    lemma_first_span_unique(t, i, j, i0, j0);
    assert(t.subrange(i0 + 1, j0) =~= ver);
}

/// What a release page names is always a version token: not empty, starting
/// with a digit, and made of letters, digits, `.`, `-` and `+` only.
pub proof fn lemma_tag_is_token(t: Seq<char>)
    ensures
        tag_version(t) matches Some(v) ==> v.len() > 0 && is_digit(v[0]) && forall|k: int|
            0 <= k < v.len() ==> is_token_char(#[trigger] v[k]),
{
    if exists|i: int, j: int| first_tag_span(t, i, j) {
        let (i, j) = choose|i: int, j: int| first_tag_span(t, i, j);
        let v = t.subrange(i + 1, j);
        assert(v[0] == t[i + 1]);
        assert forall|k: int| 0 <= k < v.len() implies is_token_char(#[trigger] v[k]) by {
            assert(v[k] == t[i + 1 + k]);
        }
    }
}

} // verus!
