//! Text operations of the standard library that the proxy relies on.
//!
//! Nothing in this file is proved. Each function calls one function of `std` and
//! states what that function's documentation promises.

use vstd::prelude::*;
use vstd::utf8::valid_utf8;

verus! {

/// The lower-case form of a text, as `str::to_lowercase` computes it.
pub uninterp spec fn lowercase(text: Seq<char>) -> Seq<char>;

/// The upper-case form of a text, as `str::to_uppercase` computes it.
pub uninterp spec fn uppercase(text: Seq<char>) -> Seq<char>;

/// Calls `str::to_lowercase`. Its result depends on the characters alone, and is
/// known here only under the name [`lowercase`].
#[verifier::external_body]
pub(crate) fn to_lowercase(text: &str) -> (folded: String)
    ensures
        folded@ == lowercase(text@),
{
    text.to_lowercase()
}

/// Calls `str::to_uppercase`. Its result depends on the characters alone, and is
/// known here only under the name [`uppercase`].
#[verifier::external_body]
pub(crate) fn to_uppercase(text: &str) -> (folded: String)
    ensures
        folded@ == uppercase(text@),
{
    text.to_uppercase()
}

/// Calls `==` on two string slices, which holds exactly when they consist of the
/// same characters.
#[verifier::external_body]
pub(crate) fn same_text(left: &str, right: &str) -> (same: bool)
    ensures
        same == (left@ == right@),
{
    left == right
}

/// Calls `core::str::from_utf8`, which succeeds exactly on well-formed UTF-8.
#[verifier::external_body]
pub(crate) fn is_text(bytes: &[u8]) -> (ok: bool)
    ensures
        ok == valid_utf8(bytes@),
{
    core::str::from_utf8(bytes).is_ok()
}

} // verus!
