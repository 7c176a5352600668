//! Fresh identifiers for deliveries.

use vstd::prelude::*;

verus! {

/// Whether `c` is a lower-case hexadecimal digit.
pub open spec fn is_hex_digit(c: char) -> bool {
    ('0' <= c && c <= '9') || ('a' <= c && c <= 'f')
}

/// The shape of a random identifier: thirty-six characters, hyphens after the
/// eighth, twelfth, sixteenth and twentieth digit, lower-case hexadecimal
/// digits elsewhere, the version digit `4` and a variant digit from `8` to `b`.
pub open spec fn is_identifier(id: Seq<char>) -> bool {
    &&& id.len() == 36
    &&& forall|i: int|
        0 <= i < 36 ==> if i == 8 || i == 13 || i == 18 || i == 23 {
            #[trigger] id[i] == '-'
        } else {
            is_hex_digit(id[i])
        }
    &&& id[14] == '4'
    &&& (id[19] == '8' || id[19] == '9' || id[19] == 'a' || id[19] == 'b')
}

/// Calls `uuid::Uuid::new_v4` and writes the identifier out with its
/// `Display`. Which identifier comes back is left open: the contract states
/// only the hyphenated lower-case form, which every version 4 identifier of
/// the RFC 4122 variant has.
#[verifier::external_body]
pub(crate) fn new_identifier() -> (id: String)
    ensures
        is_identifier(id@),
{
    uuid::Uuid::new_v4().to_string()
}

} // verus!
