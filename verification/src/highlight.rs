//! Mention detection: a chat message is highlighted exactly when its
//! case-folded content contains the case-folded local display name.

use vstd::prelude::*;

use crate::strutil::{contains_seq, str_contains};

verus! {

/// The case folding performed by `str::to_lowercase`. Its full definition
/// is the Unicode lowercase mapping, so it is only named here; it depends on
/// the characters alone.
pub uninterp spec fn lower_of(s: Seq<char>) -> Seq<char>;

/// Relies on str::to_lowercase: the Unicode lowercase mapping of the
/// string, a function of its characters alone.
#[verifier::external_body]
fn lowercase(s: &str) -> (r: String)
    ensures
        r@ == lower_of(s@),
{
    s.to_lowercase()
}

/// Whether a message with this content mentions the local user: true iff
/// the case-folded content contains the case-folded name as a substring.
pub fn is_highlighted(content: &str, name: &str) -> (r: bool)
    ensures
        r == contains_seq(lower_of(content@), lower_of(name@)),
{
    let folded_content = lowercase(content);
    let folded_name = lowercase(name);
    str_contains(folded_content.as_str(), folded_name.as_str())
}

} // verus!
