//! Unicode case mapping and compatibility normalisation, as the standard
//! library and the `unicode-normalization` crate compute them.
//!
//! Their tables are not restated here: each result is given a name, and the
//! contracts of the functions that use it speak of that name.
use vstd::prelude::*;
use unicode_normalization::UnicodeNormalization;

verus! {

/// The full lowercase mapping of a string (`str::to_lowercase`).
pub uninterp spec fn spec_lowercase(s: Seq<char>) -> Seq<char>;

/// NFKC normalisation of a string (`UnicodeNormalization::nfkc` on `&str`).
pub uninterp spec fn spec_nfkc(s: Seq<char>) -> Seq<char>;

/// NFKC normalisation of one character (`UnicodeNormalization::nfkc` on `char`).
pub uninterp spec fn spec_nfkc_char(c: char) -> Seq<char>;

/// Calls `str::to_lowercase`. Its result is the name `spec_lowercase` of the
/// argument; nothing more is claimed about the mapping.
#[verifier::external_body]
pub(crate) fn to_lowercase(s: &str) -> (r: String)
    ensures
        r@ == spec_lowercase(s@),
{
    s.to_lowercase()
}

/// Collects `unicode_normalization`'s NFKC iterator over a string. Its result
/// is the name `spec_nfkc` of the argument; nothing more is claimed.
#[verifier::external_body]
pub(crate) fn nfkc_str(s: &str) -> (r: String)
    ensures
        r@ == spec_nfkc(s@),
{
    s.nfkc().collect()
}

/// Collects `unicode_normalization`'s NFKC iterator over one character. Its
/// result is the name `spec_nfkc_char` of the argument; nothing more is claimed.
#[verifier::external_body]
pub(crate) fn nfkc_char(c: char) -> (r: String)
    ensures
        r@ == spec_nfkc_char(c),
{
    c.nfkc().collect()
}

/// What `String::from_utf8_lossy` makes of a byte sequence (invalid
/// sequences become U+FFFD).
pub uninterp spec fn spec_utf8_lossy(b: Seq<u8>) -> Seq<char>;

/// Calls `std::str::from_utf8` and copies the text out. Claims: the result is
/// present exactly when the bytes are valid UTF-8, and then it is their decoding.
#[verifier::external_body]
pub(crate) fn utf8_decode(b: &[u8]) -> (r: Option<String>)
    ensures
        r is Some <==> vstd::utf8::valid_utf8(b@),
        r matches Some(s) ==> s@ == vstd::utf8::decode_utf8(b@),
{
    std::str::from_utf8(b).ok().map(|s| s.to_string())
}

/// Calls `String::from_utf8_lossy` and copies the text out. Claims: the result
/// is the name `spec_utf8_lossy` of the bytes, and for valid UTF-8 it is their
/// decoding (the documentation says valid input is returned unchanged).
#[verifier::external_body]
pub(crate) fn utf8_lossy(b: &[u8]) -> (r: String)
    ensures
        r@ == spec_utf8_lossy(b@),
        vstd::utf8::valid_utf8(b@) ==> r@ == vstd::utf8::decode_utf8(b@),
{
    String::from_utf8_lossy(b).to_string()
}

/// The full uppercase mapping of one character (`char::to_uppercase`).
pub uninterp spec fn spec_uppercase_char(c: char) -> Seq<char>;

/// Collects `char::to_uppercase`. Its result is the name `spec_uppercase_char`
/// of the argument; nothing more is claimed about the mapping.
#[verifier::external_body]
pub(crate) fn to_uppercase_char(c: char) -> (r: String)
    ensures
        r@ == spec_uppercase_char(c),
{
    c.to_uppercase().collect()
}

} // verus!
