//! Header values, as the `http` crate that `reqwest` re-exports accepts them.

use vstd::prelude::*;
use vstd::utf8::encode_utf8;
use reqwest::header::{HeaderValue, InvalidHeaderValue};

verus! {

/// A value of a header, held by the `http` crate.
#[verifier::external_type_specification]
#[verifier::external_body]
pub struct ExHeaderValue(HeaderValue);

/// The error with which the `http` crate refuses a text as a header value.
#[verifier::external_type_specification]
#[verifier::external_body]
pub struct ExInvalidHeaderValue(InvalidHeaderValue);

/// True for the bytes that may stand in the value of a header: the tab, and
/// every byte from the space on but the delete character.
pub open spec fn header_byte_ok(byte: u8) -> bool {
    byte >= 32 && byte != 127 || byte == 9
}

/// True where every byte of the UTF-8 form of `text` may stand in the value
/// of a header.
pub open spec fn header_text_ok(text: Seq<char>) -> bool {
    forall|i: int|
        0 <= i < encode_utf8(text).len() ==> header_byte_ok(#[trigger] encode_utf8(text)[i])
}

/// `HeaderValue::from_str` accepts a text exactly where each of its bytes
/// may stand in the value of a header, as its source tests them one by one.
/// Nothing is claimed here of the value it then returns.
pub assume_specification[ HeaderValue::from_str ](src: &str) -> (r: Result<
    HeaderValue,
    InvalidHeaderValue,
>)
    ensures
        r is Ok <==> header_text_ok(src@),
;

} // verus!
