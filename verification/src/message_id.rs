//! Message identifiers: random version-4 UUIDs in their hyphenated form.

use uuid::Uuid;
use vstd::prelude::*;

verus! {

/// Whether `c` is a digit or one of the letters `a` to `f`.
pub open spec fn is_lower_hex(c: char) -> bool {
    ('0' <= c && c <= '9') || ('a' <= c && c <= 'f')
}

/// The shape of a message id: 36 characters, hyphens after the 8th, 12th,
/// 16th and 20th digit, lower-case hexadecimal digits everywhere else.
pub open spec fn is_message_id(id: Seq<char>) -> bool {
    &&& id.len() == 36
    &&& forall|i: int|
        0 <= i < 36 ==> if i == 8 || i == 13 || i == 18 || i == 23 {
            #[trigger] id[i] == '-'
        } else {
            is_lower_hex(id[i])
        }
}

/// `Uuid::new_v4` and its `to_string`: a random identifier in hyphenated
/// lower-case form. Which identifier comes back is up to the system's random
/// source, so only its shape is stated. The call panics if the system cannot
/// supply random bytes.
#[verifier::external_body]
pub(crate) fn new_message_id() -> (id: String)
    ensures
        is_message_id(id@),
{
    Uuid::new_v4().to_string()
}

} // verus!
