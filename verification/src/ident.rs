//! Identifiers of rows.

use vstd::prelude::*;

verus! {

/// Whether `c` is one of `0`..`9`, `a`..`f`.
pub open spec fn is_lower_hex(c: char) -> bool {
    ('0' <= c && c <= '9') || ('a' <= c && c <= 'f')
}

/// Whether `text` has the shape of an identifier: thirty-two lower-case
/// hexadecimal digits in groups of 8, 4, 4, 4 and 12, with a hyphen between
/// the groups.
pub open spec fn is_id_text(text: Seq<char>) -> bool {
    &&& text.len() == 36
    &&& forall|i: int|
        0 <= i < 36 ==> if i == 8 || i == 13 || i == 18 || i == 23 {
            text[i] == '-'
        } else {
            is_lower_hex(#[trigger] text[i])
        }
}

/// A new identifier, drawn at random.
///
/// Calls `uuid::Uuid::new_v4` and `to_string` on the result. The contract
/// claims the shape of the text, which is the hyphenated lower-case form in
/// which a `Uuid` displays; it claims nothing of which identifier comes out.
#[verifier::external_body]
pub(crate) fn fresh_id() -> (r: String)
    ensures
        is_id_text(r@),
{
    uuid::Uuid::new_v4().to_string()
}

} // verus!
