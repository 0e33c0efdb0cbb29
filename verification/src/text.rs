//! File content as text: the bytes of a payload, and the text of loaded bytes.

use vstd::prelude::*;
use vstd::utf8::{decode_utf8, encode_utf8, valid_utf8};
use vstd::utf8::{encode_utf8_decode_utf8, encode_utf8_valid_utf8, decode_utf8_encode_utf8};

verus! {

/// The bytes that stand for `text` in a file: its UTF-8 encoding, with no
/// other conversion.
pub open spec fn encoded(text: Seq<char>) -> Seq<u8> {
    encode_utf8(text)
}

/// The text that `bytes` stand for, where they are well-formed UTF-8; nothing
/// otherwise. There is no lossy or partial reading.
pub open spec fn decoded(bytes: Seq<u8>) -> Option<Seq<char>> {
    if valid_utf8(bytes) {
        Some(decode_utf8(bytes))
    } else {
        None
    }
}

/// `String::from_utf8` of std, with its error dropped. It succeeds on
/// well-formed UTF-8 and on nothing else, and the string it gives is made of
/// the very bytes it was given.
#[verifier::external_body]
fn string_from_utf8(bytes: Vec<u8>) -> (r: Option<String>)
    ensures
        r is Some <==> valid_utf8(bytes@),
        r matches Some(s) ==> encode_utf8(s@) == bytes@,
{
    String::from_utf8(bytes).ok()
}

/// The bytes to write for `content`.
pub fn encode(content: &str) -> (bytes: Vec<u8>)
    ensures
        bytes@ == encoded(content@),
{
    content.as_bytes_vec()
}

/// The text of `bytes` that were read from a file.
pub fn decode(bytes: Vec<u8>) -> (text: Option<String>)
    ensures
        text.deep_view() == decoded(bytes@),
{
    let text = string_from_utf8(bytes);
    proof {
        if text is Some {
            encode_utf8_decode_utf8(text.unwrap()@);
        }
    }
    text
}

/// Text that is encoded and decoded again comes back exactly.
pub proof fn lemma_decoded_encoded(text: Seq<char>)
    ensures
        decoded(encoded(text)) == Some(text),
{
    encode_utf8_valid_utf8(text);
    encode_utf8_decode_utf8(text);
}

/// Decoding loses nothing: bytes decode to a text only if they are that
/// text's encoding, so no byte of a file is dropped or replaced on the way.
pub proof fn lemma_encoded_decoded(bytes: Seq<u8>, text: Seq<char>)
    requires
        decoded(bytes) == Some(text),
    ensures
        encoded(text) == bytes,
{
    decode_utf8_encode_utf8(bytes);
}

} // verus!
