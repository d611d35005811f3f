//! Text as it crosses a C boundary: bytes that must be UTF-8 on the way in,
//! and strings that must be free of NUL bytes on the way out.

use vstd::prelude::*;
use vstd::utf8::*;

verus! {

/// The error of `core::str::from_utf8`.
#[verifier::external_type_specification]
#[verifier::external_body]
pub struct ExUtf8Error(core::str::Utf8Error);

/// Trusted: `core::str::from_utf8` accepts exactly the byte slices that are
/// UTF-8, and the string slice it returns is made of the bytes it was given.
pub assume_specification<'a>[ core::str::from_utf8 ](v: &'a [u8]) -> (checked: Result<
    &'a str,
    core::str::Utf8Error,
>)
    ensures
        checked is Ok <==> valid_utf8(v@),
        checked matches Ok(text) ==> encode_utf8(text@) == v@,
;

/// Some byte is NUL.
pub open spec fn has_nul(bytes: Seq<u8>) -> bool {
    exists|i: int| 0 <= i < bytes.len() && bytes[i] == 0u8
}

/// A text can be handed out as a C string: none of its UTF-8 bytes is NUL, the
/// byte that ends a C string.
pub open spec fn c_representable(text: Seq<char>) -> bool {
    !has_nul(encode_utf8(text))
}

/// Reads bytes as UTF-8 text; `None` where they are not UTF-8.
pub fn text_of(bytes: &[u8]) -> (text: Option<&str>)
    ensures
        text is Some <==> valid_utf8(bytes@),
        text matches Some(t) ==> t@ == decode_utf8(bytes@) && encode_utf8(t@) == bytes@,
{
    match core::str::from_utf8(bytes) {
        Ok(t) => {
            proof {
                encode_utf8_decode_utf8(t@);
            }
            Some(t)
        },
        Err(_) => None,
    }
}

/// Tells whether a byte slice holds a NUL byte.
pub fn contains_nul(bytes: &[u8]) -> (found: bool)
    ensures
        found == has_nul(bytes@),
{
    let mut i: usize = 0;
    while i < bytes.len()
        invariant
            i <= bytes.len(),
            forall|j: int| 0 <= j < i ==> bytes@[j] != 0u8,
        decreases bytes.len() - i,
    {
        if bytes[i] == 0 {
            return true;
        }
        i += 1;
    }
    false
}

} // verus!
