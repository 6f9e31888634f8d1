//! The credential container of the `secure-string` crate, as the library sees
//! it: a byte buffer that holds the UTF-8 encoding of a string.

use vstd::prelude::*;
use vstd::utf8::{decode_utf8, encode_utf8, encode_utf8_decode_utf8};
use secure_string::SecureString;

verus! {

/// `secure_string::SecureString`, held opaquely.
#[verifier::external_type_specification]
#[verifier::external_body]
pub struct ExSecureString(SecureString);

/// The bytes that a `SecureString` holds (its inner `SecureVec<u8>`).
pub uninterp spec fn secure_bytes(s: SecureString) -> Seq<u8>;

/// The text that a `SecureString` holds: its bytes read as UTF-8.
pub open spec fn secure_text(s: SecureString) -> Seq<char> {
    decode_utf8(secure_bytes(s))
}

/// `SecureString::from` on a `String`: the source stores `s.into_bytes()`,
/// the UTF-8 encoding of the string, in a locked buffer.
#[verifier::external_body]
pub(crate) fn secure_from_string(s: String) -> (r: SecureString)
    ensures
        secure_bytes(r) == encode_utf8(s@),
{
    SecureString::from(s)
}

/// `SecureString::clone` (derived): the source copies the held bytes into a
/// new locked buffer.
#[verifier::external_body]
pub(crate) fn secure_clone(s: &SecureString) -> (r: SecureString)
    ensures
        secure_bytes(r) == secure_bytes(*s),
{
    s.clone()
}

/// `SecureString::into_unsecure`: the source hands the held bytes back as a
/// `String` (through `String::from_utf8_unchecked`), so the string's UTF-8
/// encoding is exactly those bytes.
#[verifier::external_body]
pub(crate) fn secure_into_unsecure(s: SecureString) -> (r: String)
    ensures
        encode_utf8(r@) == secure_bytes(s),
{
    s.into_unsecure()
}

/// A string stored in a `SecureString` reads back as the same text.
pub proof fn lemma_secure_text_of_string(s: SecureString, text: Seq<char>)
    requires
        secure_bytes(s) == encode_utf8(text),
    ensures
        secure_text(s) == text,
{
    encode_utf8_decode_utf8(text);
}

/// Stores `s` in a new `SecureString`.
pub fn secure_string_from(s: String) -> (r: SecureString)
    ensures
        secure_text(r) == s@,
{
    let r = secure_from_string(s);
    proof {
        lemma_secure_text_of_string(r, s@);
    }
    r
}

/// A plain copy of the text that `s` holds.
pub fn unsecure_copy(s: &SecureString) -> (r: String)
    ensures
        r@ == secure_text(*s),
{
    let c = secure_clone(s);
    let r = secure_into_unsecure(c);
    proof {
        lemma_secure_text_of_string(c, r@);
    }
    r
}

} // verus!
