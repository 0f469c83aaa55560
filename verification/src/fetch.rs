//! The one-shot fetch: what is asked of the remote endpoint, how much of the
//! answer is kept, and how the kept bytes become the text that is shown.

use vstd::prelude::*;
use vstd::slice::slice_subrange;
use vstd::string::StringSliceAdditionalSpecFns;
use vstd::utf8::*;
use crate::text::{sanitize, sanitized, DEGREE_SIGN};

verus! {

/// The endpoint that is asked, with a GET request.
pub const FETCH_URL: &'static str = "https://wttr.in/?format=1";

/// Name of the one request header.
pub const ACCEPT_HEADER_NAME: &'static str = "accept";

/// Value of the one request header.
pub const ACCEPT_HEADER_VALUE: &'static str = "text/plain";

/// Size of the buffer that receives the response body. Whatever the
/// endpoint sends beyond it is dropped.
pub const BODY_CAPACITY: usize = 1024;

/// The text that stands for a body that is not UTF-8.
pub const FALLBACK_TEXT: &'static str = "error";

/// The error of `core::str::from_utf8`. Nothing is read from it.
#[verifier::external_type_specification]
#[verifier::external_body]
pub struct ExUtf8Error(core::str::Utf8Error);

/// `core::str::from_utf8` of std succeeds on the byte sequences that are
/// well-formed UTF-8 and on no others, and the string slice that it gives
/// consists of the very bytes that it was given.
pub assume_specification[ core::str::from_utf8 ](v: &[u8]) -> (r: Result<
    &str,
    core::str::Utf8Error,
>)
    ensures
        r is Ok <==> valid_utf8(v@),
        r matches Ok(s) ==> s.spec_bytes() == v@,
;

/// The part of a response body that is kept: all of it, or its first
/// [`BODY_CAPACITY`] bytes.
pub open spec fn body_prefix(payload: Seq<u8>) -> Seq<u8> {
    if payload.len() <= BODY_CAPACITY {
        payload
    } else {
        payload.take(BODY_CAPACITY as int)
    }
}

/// The text that a response body stands for.
pub open spec fn text_of_body(payload: Seq<u8>) -> Seq<char> {
    let kept = body_prefix(payload);
    if valid_utf8(kept) {
        sanitized(decode_utf8(kept))
    } else {
        FALLBACK_TEXT@
    }
}

/// A decoded text has at most one character for each byte.
proof fn lemma_decoded_length(bytes: Seq<u8>)
    requires
        valid_utf8(bytes),
    ensures
        decode_utf8(bytes).len() <= bytes.len(),
    decreases bytes.len(),
{
    if bytes.len() > 0 {
        lemma_decoded_length(pop_first_scalar(bytes));
    }
}

/// The text of a body fits the buffer and holds no degree sign.
pub proof fn lemma_text_fits_display(payload: Seq<u8>)
    ensures
        text_of_body(payload).len() <= BODY_CAPACITY,
        !text_of_body(payload).contains(DEGREE_SIGN),
{
    reveal_strlit("error");
    let kept = body_prefix(payload);
    if valid_utf8(kept) {
        lemma_decoded_length(kept);
    }
}

/// Turns a response body into the text to show.
///
/// A body that fits the buffer and is UTF-8 is shown as it is, but for its
/// degree signs. Of a longer body only the first [`BODY_CAPACITY`] bytes
/// count. Where the bytes that count are not UTF-8, the text is
/// [`FALLBACK_TEXT`].
pub fn body_text(payload: &[u8]) -> (text: String)
    ensures
        text@ == text_of_body(payload@),
        payload@.len() <= BODY_CAPACITY && valid_utf8(payload@) ==> text@ == sanitized(
            decode_utf8(payload@),
        ),
        !valid_utf8(body_prefix(payload@)) ==> text@ == FALLBACK_TEXT@,
        payload@.len() > BODY_CAPACITY ==> text@ == text_of_body(
            payload@.take(BODY_CAPACITY as int),
        ),
        text@.len() <= BODY_CAPACITY,
        !text@.contains(DEGREE_SIGN),
{
    let kept = if payload.len() <= BODY_CAPACITY {
        payload
    } else {
        slice_subrange(payload, 0, BODY_CAPACITY)
    };
    proof {
        lemma_text_fits_display(payload@);
    }
    match core::str::from_utf8(kept) {
        Ok(decoded) => {
            proof {
                encode_utf8_decode_utf8(decoded@);
            }
            sanitize(decoded)
        },
        Err(_) => FALLBACK_TEXT.to_owned(),
    }
}

} // verus!
