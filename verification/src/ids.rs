//! Random identifiers: version 4 UUIDs in their hyphenated text form.

use vstd::prelude::*;

verus! {

pub open spec fn is_lower_hex_digit(c: char) -> bool {
    ('0' <= c <= '9') || ('a' <= c <= 'f')
}

/// The text form `Uuid` displays: 36 characters, lower-case hexadecimal
/// digits in groups of 8-4-4-4-12 separated by `-`.
pub open spec fn hyphenated_uuid(s: Seq<char>) -> bool {
    &&& s.len() == 36
    &&& forall|i: int| 0 <= i < 36 ==> (if i == 8 || i == 13 || i == 18 || i == 23 {
        s[i] == '-'
    } else {
        is_lower_hex_digit(#[trigger] s[i])
    })
}

/// A fresh random identifier.
///
/// Calls `uuid::Uuid::new_v4` and formats it with `to_string`. The contract
/// claims only the shape of the text, which `uuid`'s hyphenated formatting
/// fixes; the digits are random.
#[verifier::external_body]
pub(crate) fn new_uuid_string() -> (s: String)
    ensures
        hyphenated_uuid(s@),
{
    uuid::Uuid::new_v4().to_string()
}

} // verus!
