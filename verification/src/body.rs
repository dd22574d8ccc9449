//! Response bodies: bytes that are read as UTF-8 text.

use crate::exceptions::{internal_fault, Fault, HTTPException};
use vstd::prelude::*;
use vstd::utf8::{
    decode_utf8, decode_utf8_encode_utf8, encode_utf8, encode_utf8_decode_utf8,
    encode_utf8_valid_utf8, valid_utf8,
};

verus! {

#[verifier::external_type_specification]
#[verifier::external_body]
pub struct ExUtf8Error(core::str::Utf8Error);

/// The `Display` text of a `core::str::Utf8Error`.
pub uninterp spec fn utf8_error_text(e: core::str::Utf8Error) -> Seq<char>;

/// The text of the error that `core::str::from_utf8` gives for `bytes`, where
/// they are no UTF-8.
pub uninterp spec fn utf8_failure_text(bytes: Seq<u8>) -> Seq<char>;

/// `core::str::from_utf8`: the bytes as a string slice if they are valid
/// UTF-8, and else an error that depends on the bytes alone.
#[verifier::external_body]
pub(crate) fn str_from_utf8(bytes: &[u8]) -> (r: Result<&str, core::str::Utf8Error>)
    ensures
        r is Ok <==> valid_utf8(bytes@),
        r is Ok ==> encode_utf8(r->Ok_0@) == bytes@,
        r is Err ==> utf8_error_text(r->Err_0) == utf8_failure_text(bytes@),
{
    core::str::from_utf8(bytes)
}

/// The `Display` text of a `core::str::Utf8Error`: it tells where the bytes
/// stop being UTF-8.
#[verifier::external_body]
pub(crate) fn utf8_error_describe(e: &core::str::Utf8Error) -> (s: String)
    ensures
        s@ == utf8_error_text(*e),
{
    format!("{}", e)
}

/// What a response body means: no bytes are no body, bytes of valid UTF-8 are
/// the text that they encode, and any other bytes are a failure with the
/// decoder's message.
pub open spec fn decoded(bytes: Seq<u8>) -> Result<Option<Seq<char>>, Fault> {
    if bytes.len() == 0 {
        Ok(None)
    } else if valid_utf8(bytes) {
        Ok(Some(decode_utf8(bytes)))
    } else {
        Err(internal_fault(utf8_failure_text(bytes)))
    }
}

/// Reads a response body. See [`decoded`].
pub fn decode_body(bytes: &[u8]) -> (r: Result<Option<String>, HTTPException>)
    ensures
        match decoded(bytes@) {
            Ok(None) => r is Ok && r->Ok_0 is None,
            Ok(Some(text)) => r is Ok && r->Ok_0 is Some && r->Ok_0->Some_0@ == text,
            Err(fault) => r is Err && r->Err_0@ == fault,
        },
{
    if bytes.len() == 0 {
        return Ok(None);
    }
    match str_from_utf8(bytes) {
        Ok(text) => {
            proof {
                encode_utf8_decode_utf8(text@);
            }
            Ok(Some(text.to_owned()))
        },
        Err(e) => Err(HTTPException::from(e)),
    }
}

/// A body that decodes to a text holds exactly the bytes of that text:
/// nothing is lost on the way.
pub proof fn lemma_decoded_text_keeps_bytes(bytes: Seq<u8>)
    requires
        decoded(bytes) is Ok,
        decoded(bytes)->Ok_0 is Some,
    ensures
        encode_utf8(decoded(bytes)->Ok_0->Some_0) == bytes,
{
    decode_utf8_encode_utf8(bytes);
}

/// The bytes of any text that is not empty decode to that text.
pub proof fn lemma_encoded_text_decodes(text: Seq<char>)
    requires
        text.len() > 0,
    ensures
        decoded(encode_utf8(text)) == Ok::<Option<Seq<char>>, Fault>(Some(text)),
{
    encode_utf8_valid_utf8(text);
    encode_utf8_decode_utf8(text);
    lemma_encoding_is_not_empty(text);
}

/// A text that is not empty has bytes.
proof fn lemma_encoding_is_not_empty(text: Seq<char>)
    requires
        text.len() > 0,
    ensures
        encode_utf8(text).len() > 0,
{
    encode_utf8_decode_utf8(text);
    if encode_utf8(text).len() == 0 {
        assert(decode_utf8(encode_utf8(text)) =~= Seq::<char>::empty());
    }
}

} // verus!
