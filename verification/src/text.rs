//! Text operations of the standard library that the rest of the crate relies on,
//! each with what is taken for granted about it.

use vstd::prelude::*;
use vstd::utf8::*;

verus! {

/// What `str::to_uppercase` makes of a string.
pub uninterp spec fn uppercase_of(s: Seq<char>) -> Seq<char>;

/// What `str::to_lowercase` makes of a string.
pub uninterp spec fn lowercase_of(s: Seq<char>) -> Seq<char>;

/// What `str::trim` leaves of a string: the string without the white space at
/// its two ends.
pub uninterp spec fn trimmed_of(s: Seq<char>) -> Seq<char>;

/// What `String::from_utf8_lossy` reads in a byte string.
pub uninterp spec fn utf8_lossy_of(bytes: Seq<u8>) -> Seq<char>;

/// `str::to_uppercase`.
#[verifier::external_body]
pub(crate) fn to_uppercase(s: &str) -> (upper: String)
    ensures
        upper@ == uppercase_of(s@),
{
    s.to_uppercase()
}

/// `str::to_lowercase`.
#[verifier::external_body]
pub(crate) fn to_lowercase(s: &str) -> (lower: String)
    ensures
        lower@ == lowercase_of(s@),
{
    s.to_lowercase()
}

/// `str::trim`, copied into a string of its own.
#[verifier::external_body]
pub(crate) fn trim(s: &str) -> (trimmed: String)
    ensures
        trimmed@ == trimmed_of(s@),
{
    s.trim().to_string()
}

/// `str::starts_with` with a string as the pattern.
#[verifier::external_body]
pub(crate) fn starts_with(s: &str, prefix: &str) -> (b: bool)
    ensures
        b == prefix@.is_prefix_of(s@),
{
    s.starts_with(prefix)
}

/// `String::from_utf8_lossy`, copied into a string of its own. Bytes that are
/// UTF-8 are read as what they encode; for others the standard library puts a
/// replacement character in place of each part it cannot read.
#[verifier::external_body]
pub(crate) fn from_utf8_lossy(bytes: &[u8]) -> (text: String)
    ensures
        text@ == utf8_lossy_of(bytes@),
        valid_utf8(bytes@) ==> text@ == decode_utf8(bytes@),
{
    String::from_utf8_lossy(bytes).into_owned()
}

} // verus!
