//! Identifiers of chat completions.
use crate::text::joined;
use vstd::prelude::*;

verus! {

/// A lower-case hexadecimal digit.
pub open spec fn is_hex_digit(c: char) -> bool {
    '0' <= c <= '9' || 'a' <= c <= 'f'
}

/// The text of a random (version 4) UUID: five groups of lower-case hexadecimal digits, joined by
/// hyphens, with the version and the variant in their places.
pub open spec fn is_random_uuid_text(s: Seq<char>) -> bool {
    &&& s.len() == 36
    &&& forall|i: int|
        0 <= i < 36 ==> if i == 8 || i == 13 || i == 18 || i == 23 {
            #[trigger] s[i] == '-'
        } else {
            is_hex_digit(s[i])
        }
    &&& s[14] == '4'
    &&& s[19] == '8' || s[19] == '9' || s[19] == 'a' || s[19] == 'b'
}

/// `text` is the text of a UUID that was drawn.
pub closed spec fn is_drawn(text: Seq<char>) -> bool {
    exists|uuid: String| #[trigger] call_ensures(random_uuid, (), uuid) && uuid@ == text
}

/// An identifier of a chat completion: `chatcmpl-` and the text of a random UUID that was drawn.
pub open spec fn is_completion_id(s: Seq<char>) -> bool {
    exists|uuid: Seq<char>| #[trigger]
        is_drawn(uuid) && is_random_uuid_text(uuid) && s == "chatcmpl-"@ + uuid
}

/// Wraps `uuid::Uuid::new_v4` and the `Display` of its result. Each call draws a new UUID, so only
/// the shape of its text is claimed, not which one it is.
#[verifier::external_body]
fn random_uuid() -> (text: String)
    ensures
        is_random_uuid_text(text@),
{
    uuid::Uuid::new_v4().to_string()
}

/// The identifier of the completion whose UUID reads `uuid`.
pub fn completion_id_of(uuid: &str) -> (id: String)
    ensures
        id@ == "chatcmpl-"@ + uuid@,
{
    joined("chatcmpl-", uuid)
}

/// A new identifier of a chat completion.
pub fn new_completion_id() -> (id: String)
    ensures
        is_completion_id(id@),
{
    let uuid: String = random_uuid();
    assert(is_drawn(uuid@));
    completion_id_of(uuid.as_str())
}

} // verus!
