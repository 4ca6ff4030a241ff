//! The few places where the library leans on code Verus does not read:
//! character/string conversions of std and the random token generator of uuid.
use vstd::prelude::*;

verus! {

/// Relies on str::chars: yields exactly the characters of the string, in order.
#[verifier::external_body]
pub fn str_chars(s: &str) -> (r: Vec<char>)
    ensures
        r@ == s@,
{
    s.chars().collect()
}

/// Relies on String::from_iter over chars: builds the string of exactly the
/// given characters, in order.
#[verifier::external_body]
pub fn chars_to_string(v: &Vec<char>) -> (r: String)
    ensures
        r@ == v@,
{
    v.iter().collect()
}

/// Relies on char::from_u32: `Some` exactly on valid Unicode scalar values,
/// returning the character with that code.
#[verifier::external_body]
pub fn char_from_code(x: u32) -> (r: Option<char>)
    ensures
        r == (if x < 0xD800 || (0xE000 <= x && x <= 0x10FFFF) {
            Some(x as char)
        } else {
            None::<char>
        }),
{
    char::from_u32(x)
}

/// Relies on uuid::Uuid::new_v4 and its Display form: a freshly generated
/// random identifier, always rendered as 36 characters. Nothing can be
/// promised about the value itself; uniqueness is statistical.
#[verifier::external_body]
pub fn fresh_token() -> (r: String)
    ensures
        r@.len() == 36,
{
    uuid::Uuid::new_v4().to_string()
}

} // verus!
