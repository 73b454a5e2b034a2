//! The wire format between broker and worker: one line of text each way.

use vstd::prelude::*;
use vstd::string::*;
use vstd::utf8::*;
use crate::error::{BrokerError, Failure};

verus! {

/// The byte that ends a request line.
pub const LINE_END: u8 = 0x0A;

/// The bytes written to the worker for a request: the payload as UTF-8,
/// then one newline.
pub open spec fn request_line(payload: Seq<char>) -> Seq<u8> {
    encode_utf8(payload).push(LINE_END)
}

/// Builds the line to write to the worker for `payload`. The payload is
/// not inspected.
pub fn frame_request(payload: &str) -> (line: Vec<u8>)
    ensures
        line@ == request_line(payload@),
{
    let mut line = payload.as_bytes_vec();
    line.push(LINE_END);
    line
}

/// The text with which the standard library describes why `bytes` is not
/// valid UTF-8.
pub uninterp spec fn utf8_error_text(bytes: Seq<u8>) -> Seq<char>;

/// What a response line means: its text where it is valid UTF-8, a decode
/// failure where it is not.
pub open spec fn decode_reply(bytes: Seq<u8>) -> Result<Seq<char>, Failure> {
    if valid_utf8(bytes) {
        Ok(decode_utf8(bytes))
    } else {
        Err(Failure::Decode(utf8_error_text(bytes)))
    }
}

/// The mathematical content of a call's result.
pub open spec fn reply_view(reply: Result<String, BrokerError>) -> Result<Seq<char>, Failure> {
    match reply {
        Ok(text) => Ok(text@),
        Err(error) => Err(error@),
    }
}

/// `String::from_utf8` of the standard library, with its error given as
/// text. Trusted: valid UTF-8 gives the string those bytes encode; anything
/// else gives the library's description of the fault, which depends on the
/// bytes alone.
#[verifier::external_body]
fn string_from_utf8(bytes: Vec<u8>) -> (r: Result<String, String>)
    ensures
        match r {
            Ok(text) => valid_utf8(bytes@) && text@ == decode_utf8(bytes@),
            Err(why) => !valid_utf8(bytes@) && why@ == utf8_error_text(bytes@),
        },
{
    match String::from_utf8(bytes) {
        Ok(text) => Ok(text),
        Err(e) => Err(e.to_string()),
    }
}

/// Decodes a response line from the worker.
pub fn decode_line(bytes: Vec<u8>) -> (reply: Result<String, BrokerError>)
    ensures
        reply_view(reply) == decode_reply(bytes@),
{
    match string_from_utf8(bytes) {
        Ok(text) => Ok(text),
        Err(why) => Err(BrokerError::DecodeFailure(why)),
    }
}

} // verus!
