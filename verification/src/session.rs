//! Session identifiers: the one that a transport asks for, or a fresh one.

use vstd::prelude::*;

verus! {

/// A lower-case hexadecimal digit.
pub open spec fn is_lower_hex(c: char) -> bool {
    ('0' <= c <= '9') || ('a' <= c <= 'f')
}

/// The text form of a random (version 4) UUID: 36 characters, hyphens after
/// the 8th, 12th, 16th and 20th digit, lower-case hexadecimal digits
/// elsewhere, the version digit `4` and a variant digit of `8` to `b`.
pub open spec fn is_uuid_v4_text(id: Seq<char>) -> bool {
    &&& id.len() == 36
    &&& id[8] == '-' && id[13] == '-' && id[18] == '-' && id[23] == '-'
    &&& forall|i: int|
        0 <= i < 36 && i != 8 && i != 13 && i != 18 && i != 23 ==> is_lower_hex(#[trigger] id[i])
    &&& id[14] == '4'
    &&& (id[19] == '8' || id[19] == '9' || id[19] == 'a' || id[19] == 'b')
}

/// Mints a fresh session identifier.
///
/// Wraps `uuid::Uuid::new_v4` and the text form of its result. Of the
/// random value only its shape is claimed: the hyphenated lower-case form
/// of a version 4 UUID. Two calls may give any two such values.
#[verifier::external_body]
fn fresh_uuid_text() -> (id: String)
    ensures
        is_uuid_v4_text(id@),
{
    uuid::Uuid::new_v4().to_string()
}

/// The identifier of the session that a transport attaches to: the one it
/// asked for, or a fresh UUID if it asked for none.
pub fn session_id_or_fresh(requested: Option<String>) -> (id: String)
    ensures
        match requested {
            Some(r) => id@ == r@,
            None => is_uuid_v4_text(id@),
        },
{
    match requested {
        Some(r) => r,
        None => fresh_uuid_text(),
    }
}

} // verus!
