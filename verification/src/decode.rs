//! The payload decoder: bytes to text, without ever failing.
//!
//! Bytes that are valid UTF-8 decode to the text they encode. Any other
//! bytes decode to the empty text, so that one malformed payload does not
//! break the stream.

use crate::stream::payloads_of;
use std::string::FromUtf8Error;
use vstd::prelude::*;
use vstd::utf8::{
    decode_utf8, decode_utf8_encode_utf8, encode_utf8, encode_utf8_decode_utf8,
    encode_utf8_valid_utf8, valid_utf8,
};

verus! {

/// The error of `String::from_utf8`, carried through as an opaque value.
#[verifier::external_type_specification]
#[verifier::external_body]
pub struct ExFromUtf8Error(std::string::FromUtf8Error);

/// `String::from_utf8` succeeds exactly on the byte vectors that are valid
/// UTF-8, and the string it then returns holds exactly the bytes given.
pub assume_specification[ String::from_utf8 ](bytes: Vec<u8>) -> (text: Result<
    String,
    FromUtf8Error,
>)
    ensures
        text is Ok <==> valid_utf8(bytes@),
        text matches Ok(s) ==> encode_utf8(s@) == bytes@,
;

/// The text that a payload decodes to.
pub open spec fn decoded(bytes: Seq<u8>) -> Seq<char> {
    if valid_utf8(bytes) {
        decode_utf8(bytes)
    } else {
        Seq::empty()
    }
}

/// The decoded form of one item of a stream: a payload is decoded, an error
/// stays as it is.
pub open spec fn decoded_item<E>(item: Result<Seq<u8>, E>) -> Result<Seq<char>, E> {
    match item {
        Ok(bytes) => Ok(decoded(bytes)),
        Err(e) => Err(e),
    }
}

/// The decoded form of a sequence of items, item by item.
pub open spec fn decoded_items<E>(items: Seq<Result<Seq<u8>, E>>) -> Seq<Result<Seq<char>, E>> {
    items.map_values(|item: Result<Seq<u8>, E>| decoded_item(item))
}

/// The mathematical value of a sequence of decoded items.
pub open spec fn texts_of<E>(items: Seq<Result<String, E>>) -> Seq<Result<Seq<char>, E>> {
    items.map_values(
        |item: Result<String, E>|
            match item {
                Ok(text) => Ok(text@),
                Err(e) => Err(e),
            },
    )
}

/// Decoding is defined on every byte sequence and is exact on UTF-8: valid
/// bytes decode to the text whose encoding they are, every text is what its
/// own encoding decodes to, and bytes that are not valid decode to the empty
/// text.
pub proof fn law_decoder_round_trip(bytes: Seq<u8>, text: Seq<char>)
    ensures
        valid_utf8(bytes) ==> encode_utf8(decoded(bytes)) == bytes,
        !valid_utf8(bytes) ==> decoded(bytes) == Seq::<char>::empty(),
        decoded(encode_utf8(text)) == text,
{
    if valid_utf8(bytes) {
        decode_utf8_encode_utf8(bytes);
    }
    encode_utf8_valid_utf8(text);
    encode_utf8_decode_utf8(text);
}

/// Decodes one payload as UTF-8 text; a payload that is not valid UTF-8
/// gives the empty string.
pub fn payload2string(payload: Vec<u8>) -> (text: String)
    ensures
        text@ == decoded(payload@),
{
    match String::from_utf8(payload) {
        Ok(text) => {
            proof {
                encode_utf8_decode_utf8(text@);
            }
            text
        },
        Err(_) => String::new(),
    }
}

/// Converts the payloads assuming they are UTF-8 strings: every payload is
/// decoded, every error is passed on unchanged, and the order is kept.
pub fn payloads2strings<E>(payloads: Vec<Result<Vec<u8>, E>>) -> (strings: Vec<Result<String, E>>)
    ensures
        texts_of(strings@) == decoded_items(payloads_of(payloads@)),
{
    let mut strings: Vec<Result<String, E>> = Vec::new();
    for item in it: payloads
        invariant
            it.seq() == payloads@,
            strings@.len() == it.index(),
            texts_of(strings@) == decoded_items(payloads_of(payloads@.take(it.index() as int))),
    {
        let ghost before = strings@;
        let ghost at = it.index() as int;
        let decoded_item: Result<String, E> = match item {
            Ok(payload) => Ok(payload2string(payload)),
            Err(e) => Err(e),
        };
        strings.push(decoded_item);
        proof {
            let shorter = payloads@.take(at);
            let longer = payloads@.take(at + 1);
            assert forall|i: int| 0 <= i < at + 1 implies texts_of(strings@)[i] == decoded_items(
                payloads_of(longer),
            )[i] by {
                if i < at {
                    assert(texts_of(before)[i] == decoded_items(payloads_of(shorter))[i]);
                }
            }
        }
    }
    strings
}

} // verus!
