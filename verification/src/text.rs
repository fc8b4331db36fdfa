//! Turning raw bytes back into text. The engine stores countdown names as
//! UTF-8 bytes on disk and rebuilds strings from them; the formatters build
//! their digits as ASCII bytes first.

use vstd::prelude::*;
use vstd::utf8::decode_utf8;
use vstd::utf8::encode_utf8;
use vstd::utf8::is_ascii_chars;
use vstd::utf8::valid_utf8;

verus! {

/// What `String::from_utf8_lossy` returns for the given bytes. Its value is
/// pinned down only for valid UTF-8 input (see [`bytes_to_string_lossy`]);
/// for invalid input, the substitution of replacement characters is left
/// behind this name.
pub uninterp spec fn lossy_of(bytes: Seq<u8>) -> Seq<char>;

/// Relies on `String::from_utf8_lossy`, whose documentation states that
/// valid UTF-8 input is returned decoded and unchanged, and that invalid
/// sequences are replaced; the replacement is not stated beyond the name
/// `lossy_of`.
#[verifier::external_body]
pub(crate) fn bytes_to_string_lossy(bytes: &[u8]) -> (r: String)
    ensures
        r@ == lossy_of(bytes@),
        valid_utf8(bytes@) ==> r@ == decode_utf8(bytes@),
{
    String::from_utf8_lossy(bytes).into_owned()
}

/// The characters that a sequence of ASCII bytes spells.
pub open spec fn chars_of_bytes(bytes: Seq<u8>) -> Seq<char> {
    bytes.map_values(|b: u8| b as char)
}

/// Bytes below 0x80 are valid UTF-8 and decode to themselves, byte for
/// character.
pub proof fn lemma_ascii_bytes_decode(bytes: Seq<u8>)
    requires
        forall|i: int| 0 <= i < bytes.len() ==> bytes[i] < 128,
    ensures
        valid_utf8(bytes),
        decode_utf8(bytes) == chars_of_bytes(bytes),
{
    let chars = chars_of_bytes(bytes);
    assert forall|i: int| 0 <= i < chars.len() implies '\0' <= #[trigger] chars[i] <= '\u{7f}' by {
        assert(chars[i] == bytes[i] as char);
        assert(bytes[i] < 128);
    }
    assert(is_ascii_chars(chars));
    vstd::utf8::is_ascii_chars_encode_utf8(chars);
    assert(encode_utf8(chars) =~= bytes) by {
        assert forall|i: int| 0 <= i < chars.len() implies chars[i] as u8 == bytes[i] by {
            assert(chars[i] == bytes[i] as char);
        }
    }
    vstd::utf8::encode_utf8_valid_utf8(chars);
    vstd::utf8::encode_utf8_decode_utf8(chars);
}

/// Build a `String` from bytes that are all ASCII.
pub(crate) fn ascii_to_string(bytes: &Vec<u8>) -> (r: String)
    requires
        forall|i: int| 0 <= i < bytes@.len() ==> bytes@[i] < 128,
    ensures
        r@ == chars_of_bytes(bytes@),
{
    proof {
        lemma_ascii_bytes_decode(bytes@);
    }
    bytes_to_string_lossy(bytes.as_slice())
}

} // verus!
