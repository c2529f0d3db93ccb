//! Fresh random tokens for party identifiers.

use vstd::prelude::*;
use vstd::string::*;

verus! {

/// Whether `c` is one of `0`..`9`, `a`..`f`.
pub open spec fn is_lower_hex(c: char) -> bool {
    ('0' as u32 <= c as u32 <= '9' as u32) || ('a' as u32 <= c as u32 <= 'f' as u32)
}

/// The hyphenated lower-case text of a random (version 4) UUID:
/// `xxxxxxxx-xxxx-4xxx-yxxx-xxxxxxxxxxxx`, each `x` a hex digit and `y` one of
/// `8`, `9`, `a`, `b`.
pub open spec fn is_random_uuid_text(s: Seq<char>) -> bool {
    &&& s.len() == 36
    &&& forall|i: int|
        0 <= i < 36 ==> if i == 8 || i == 13 || i == 18 || i == 23 {
            #[trigger] s[i] == '-'
        } else {
            is_lower_hex(s[i])
        }
    &&& s[14] == '4'
    &&& s[19] == '8' || s[19] == '9' || s[19] == 'a' || s[19] == 'b'
}

/// The text that every party identifier begins with.
pub open spec fn party_prefix() -> Seq<char> {
    "hytale-party-"@
}

/// The party identifier made from `token`.
pub open spec fn party_id(token: Seq<char>) -> Seq<char> {
    party_prefix() + token
}

/// Whether `id` is a party identifier made from a random UUID.
pub open spec fn is_fresh_party_id(id: Seq<char>) -> bool {
    exists|token: Seq<char>| is_random_uuid_text(token) && id == #[trigger] party_id(token)
}

/// Draws a random UUID with `uuid::Uuid::new_v4` and renders it with the
/// `Display` impl of `uuid::Uuid`.
///
/// Trusted: the text has the hyphenated lower-case form of a version 4 UUID. Which
/// digits it holds depends on the operating system's random source, so nothing is
/// claimed of them, and two calls are not assumed to agree. `new_v4` panics if the
/// operating system cannot supply random bytes.
#[verifier::external_body]
fn random_uuid_text() -> (text: String)
    ensures
        is_random_uuid_text(text@),
{
    uuid::Uuid::new_v4().to_string()
}

/// Prefixes `token` to make a party identifier.
pub fn party_id_from_token(token: &str) -> (id: String)
    ensures
        id@ == party_id(token@),
{
    "hytale-party-".to_owned().concat(token)
}

/// A party identifier made from a freshly drawn random UUID.
pub fn fresh_party_id() -> (id: String)
    ensures
        is_fresh_party_id(id@),
{
    let token = random_uuid_text();
    party_id_from_token(token.as_str())
}

} // verus!
