//! Inbound messages: a topic and a payload read as text.
use vstd::prelude::*;
use vstd::string::StringSliceAdditionalSpecFns;
use vstd::utf8::{decode_utf8, encode_utf8_decode_utf8, valid_utf8};

verus! {

/// Stands in for a payload that is no valid UTF-8.
pub const INVALID_TEXT: &'static str = "<Invalid UTF-8>";

/// `core::str::from_utf8`, with its error dropped: the bytes as text if they
/// are valid UTF-8, and nothing if they are not. The text is made of the same
/// bytes.
#[verifier::external_body]
fn utf8_text<'a>(bytes: &'a [u8]) -> (text: Option<&'a str>)
    ensures
        text is Some <==> valid_utf8(bytes@),
        text matches Some(t) ==> t.spec_bytes() == bytes@,
{
    core::str::from_utf8(bytes).ok()
}

/// The text in which a payload is handed on: its characters where it is
/// valid UTF-8, the marker `<Invalid UTF-8>` where it is not.
pub open spec fn payload_text(payload: Seq<u8>) -> Seq<char> {
    if valid_utf8(payload) {
        decode_utf8(payload)
    } else {
        INVALID_TEXT@
    }
}

/// A message as it is handed on: the topic it came on and its payload as
/// text.
#[derive(Debug, Clone, Copy, PartialEq, Eq)]
pub struct InboundMessage<'a> {
    pub topic: &'a str,
    pub text: &'a str,
}

impl<'a> InboundMessage<'a> {
    /// Reads a received payload. Every payload gives a message: one that is
    /// no valid UTF-8 is handed on under the marker text.
    pub fn decode(topic: &'a str, payload: &'a [u8]) -> (message: InboundMessage<'a>)
        ensures
            message.topic@ == topic@,
            message.text@ == payload_text(payload@),
            valid_utf8(payload@) ==> message.text.spec_bytes() == payload@,
    {
        match utf8_text(payload) {
            Some(text) => {
                proof {
                    encode_utf8_decode_utf8(text@);
                }
                InboundMessage { topic, text }
            },
            None => InboundMessage { topic, text: INVALID_TEXT },
        }
    }
}

} // verus!
