//! Values that come from outside the program: a random identifier and the
//! current time. Nothing is proved of how they are made.

use vstd::prelude::*;

verus! {

/// A decimal digit or one of the letters `a` to `f`.
pub open spec fn is_lower_hex_digit(c: char) -> bool {
    ('0' <= c && c <= '9') || ('a' <= c && c <= 'f')
}

/// The text of a random (version 4) UUID: 32 lower-case hexadecimal digits
/// in groups of 8, 4, 4, 4 and 12 with a hyphen between groups, the third
/// group starting with `4` and the fourth with `8`, `9`, `a` or `b`.
pub open spec fn is_random_uuid(text: Seq<char>) -> bool {
    &&& text.len() == 36
    &&& forall|i: int|
        0 <= i < 36 ==> if i == 8 || i == 13 || i == 18 || i == 23 {
            #[trigger] text[i] == '-'
        } else {
            is_lower_hex_digit(text[i])
        }
    &&& text[14] == '4'
    &&& (text[19] == '8' || text[19] == '9' || text[19] == 'a' || text[19] == 'b')
}

/// `uuid::Uuid::new_v4` followed by `to_string`: a fresh random UUID in its
/// hyphenated lower-case form. The contract claims the shape of the text
/// and nothing of its randomness. The call panics where the operating
/// system offers no random bytes.
#[verifier::external_body]
pub(crate) fn random_identifier() -> (id: String)
    ensures
        is_random_uuid(id@),
{
    uuid::Uuid::new_v4().to_string()
}

/// `chrono::Utc::now`, as a date and time of day in UTC. Nothing is claimed
/// of the value. The call panics where the system clock is set before 1970.
#[verifier::external_body]
pub(crate) fn current_time() -> (now: chrono::NaiveDateTime) {
    chrono::Utc::now().naive_utc()
}

} // verus!
