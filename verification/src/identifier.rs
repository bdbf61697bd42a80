//! The ids under which users are stored: random UUIDs in their usual
//! written form.

use vstd::prelude::*;

verus! {

/// A digit of lower-case hexadecimal.
pub open spec fn is_lower_hex(c: char) -> bool {
    ||| c == '0' || c == '1' || c == '2' || c == '3'
    ||| c == '4' || c == '5' || c == '6' || c == '7'
    ||| c == '8' || c == '9' || c == 'a' || c == 'b'
    ||| c == 'c' || c == 'd' || c == 'e' || c == 'f'
}

/// Where the written form of a UUID has its hyphens.
pub open spec fn is_hyphen_position(i: int) -> bool {
    i == 8 || i == 13 || i == 18 || i == 23
}

/// The written form of a random (version 4) UUID: 36 characters, hyphens
/// after the 8th, 12th, 16th and 20th digit, lower-case hexadecimal digits
/// elsewhere, the version digit `4` and a variant digit of `8` to `b`.
pub open spec fn is_identifier(text: Seq<char>) -> bool {
    &&& text.len() == 36
    &&& forall|i: int|
        0 <= i < 36 ==> if is_hyphen_position(i) {
            #[trigger] text[i] == '-'
        } else {
            is_lower_hex(text[i])
        }
    &&& text[14] == '4'
    &&& (text[19] == '8' || text[19] == '9' || text[19] == 'a' || text[19] == 'b')
}

/// Makes a new id with `uuid::Uuid::new_v4` and writes it out with the
/// UUID's `to_string`.
///
/// Trusted: the sixteen bytes are random but for the version and variant
/// bits that `new_v4` sets, and `to_string` writes them as lower-case
/// hexadecimal digits in hyphenated groups of 8, 4, 4, 4 and 12. Two calls
/// may return the same id, so nothing is promised about freshness.
/// `new_v4` gives up with a panic where the operating system hands out no
/// random bytes.
#[verifier::external_body]
pub(crate) fn fresh_identifier() -> (id: String)
    ensures
        is_identifier(id@),
{
    uuid::Uuid::new_v4().to_string()
}

} // verus!
