//! The stored form of the document: the body as UTF-8, and nothing else. No
//! header, no metadata, no version.

use vstd::prelude::*;
use vstd::string::*;
use vstd::utf8::*;
use crate::error::BoardError;

verus! {

/// `String::from_utf8`, with its error dropped.
///
/// Trusted, not proved: the conversion succeeds exactly on valid UTF-8, and the
/// string it gives is made of the very bytes it was given.
#[verifier::external_body]
fn string_from_utf8(bytes: Vec<u8>) -> (text: Option<String>)
    ensures
        text is Some <==> valid_utf8(bytes@),
        text is Some ==> encode_utf8(text.unwrap()@) == bytes@,
{
    String::from_utf8(bytes).ok()
}

/// The bytes that store `body`.
pub fn encode(body: &str) -> (bytes: Vec<u8>)
    ensures
        bytes@ == encode_utf8(body@),
{
    body.as_bytes_vec()
}

/// The body that stored bytes hold, where they hold one.
pub open spec fn decoded(bytes: Seq<u8>) -> Result<Seq<char>, BoardError> {
    if valid_utf8(bytes) {
        Ok(decode_utf8(bytes))
    } else {
        Err(BoardError::StorageFailure)
    }
}

/// The body that stored bytes hold. Bytes that are no UTF-8 are not a document:
/// the storage has failed.
pub fn decode(bytes: Vec<u8>) -> (body: Result<String, BoardError>)
    ensures
        match decoded(bytes@) {
            Ok(text) => body is Ok && body.unwrap()@ == text,
            Err(error) => body == Err::<String, BoardError>(error),
        },
{
    match string_from_utf8(bytes) {
        Some(text) => {
            proof {
                encode_utf8_decode_utf8(text@);
            }
            Ok(text)
        },
        None => Err(BoardError::StorageFailure),
    }
}

/// What is stored for a body reads back as that body, character for
/// character.
pub proof fn stored_body_reads_back(body: Seq<char>)
    ensures
        decoded(encode_utf8(body)) == Ok::<Seq<char>, BoardError>(body),
{
    encode_utf8_valid_utf8(body);
    encode_utf8_decode_utf8(body);
}

} // verus!
