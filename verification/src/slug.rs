//! Derivation of URL slugs from declared entity names.
//!
//! A declared name such as `"BlogPost"` is first converted to a
//! hyphen-separated lowercase form and then percent-encoded, so that the
//! result is safe to embed as one path segment.  The derivation is a pure
//! function of the name, so route registration and link generation always
//! agree on the segment.

use vstd::prelude::*;
use vstd::string::*;

verus! {

/// The hyphen-separated lowercase form of a string, as the case conversion
/// library computes it.  The result depends on the characters of the input
/// alone.
pub uninterp spec fn kebab_of(s: Seq<char>) -> Seq<char>;

/// The percent-encoded form of a string: every byte of its UTF-8 encoding
/// outside the unreserved set is replaced by `%` and two hex digits.  The
/// result depends on the characters of the input alone.
pub uninterp spec fn percent_encoded_of(s: Seq<char>) -> Seq<char>;

/// The slug of a declared entity name: its lowercase hyphen-separated form,
/// percent-encoded.
pub open spec fn slug_of(s: Seq<char>) -> Seq<char> {
    percent_encoded_of(kebab_of(s))
}

/// A character the percent encoder passes through unchanged.
pub open spec fn is_unreserved(c: char) -> bool {
    ('a' <= c && c <= 'z') || ('A' <= c && c <= 'Z') || ('0' <= c && c <= '9') || c == '-'
        || c == '.' || c == '_' || c == '~'
}

/// Every character of `s` is passed through unchanged by the percent encoder.
pub open spec fn all_unreserved(s: Seq<char>) -> bool {
    forall|i: int| 0 <= i < s.len() ==> is_unreserved(#[trigger] s[i])
}

/// A lowercase ASCII letter.
pub open spec fn is_lower(c: char) -> bool {
    'a' <= c && c <= 'z'
}

/// An ASCII digit.
pub open spec fn is_digit(c: char) -> bool {
    '0' <= c && c <= '9'
}

/// A string already in normalized slug shape: words separated by single
/// hyphens, no word empty, each word made of lowercase ASCII letters only or
/// of digits only.  Letters and digits never touch, since the case converter
/// would put a word boundary between them.
pub open spec fn is_normalized(s: Seq<char>) -> bool {
    &&& forall|i: int|
        0 <= i < s.len() ==> is_lower(#[trigger] s[i]) || is_digit(s[i]) || s[i] == '-'
    &&& s.len() > 0 ==> s[0] != '-' && s[s.len() - 1] != '-'
    &&& forall|i: int| 0 <= i < s.len() - 1 ==> !(#[trigger] s[i] == '-' && s[i + 1] == '-')
    &&& forall|i: int|
        0 <= i < s.len() - 1 ==> !(is_lower(#[trigger] s[i]) && is_digit(s[i + 1])) && !(is_digit(
            s[i],
        ) && is_lower(s[i + 1]))
}

/// Relies on convert_case's `Casing::to_case` with `Case::Kebab`: the input is
/// split into words at hyphens, underscores, spaces, case changes and
/// letter-digit changes, each word is lowercased, and the words are joined
/// with hyphens.  On a string already in that shape the split returns exactly
/// its words and lowercasing changes nothing, so the string comes back
/// unchanged.
#[verifier::external_body]
fn to_kebab(s: &str) -> (r: String)
    ensures
        r@ == kebab_of(s@),
        is_normalized(s@) ==> r@ == s@,
{
    convert_case::Casing::to_case(&s, convert_case::Case::Kebab)
}

/// Relies on urlencoding's `encode`: every byte except ASCII alphanumerics
/// and `-`, `.`, `_`, `~` is percent-encoded, and a string made only of such
/// unreserved characters is returned unchanged.
#[verifier::external_body]
fn percent_encode(s: &str) -> (r: String)
    ensures
        r@ == percent_encoded_of(s@),
        all_unreserved(s@) ==> r@ == s@,
{
    urlencoding::encode(s).into_owned()
}

/// Derives the URL path segment for a declared entity name.
///
/// The derivation is case-normalizing and deterministic, and a name already
/// in normalized slug shape is its own slug, so deriving a slug twice yields
/// the slug of the first derivation.
pub fn slug(name: &str) -> (r: String)
    ensures
        r@ == slug_of(name@),
        is_normalized(name@) ==> r@ == name@,
{
    let k = to_kebab(name);
    proof {
        if is_normalized(name@) {
            assert forall|i: int| 0 <= i < k@.len() implies is_unreserved(#[trigger] k@[i]) by {
                assert(is_lower(k@[i]) || is_digit(k@[i]) || k@[i] == '-');
            }
        }
    }
    percent_encode(k.as_str())
}

} // verus!
