use vstd::prelude::*;
use reqwest::header::{HeaderValue, InvalidHeaderValue};

verus! {

/// An HTTP header value, carried through as is.
#[verifier::external_type_specification]
#[verifier::external_body]
pub struct ExHeaderValue(HeaderValue);

/// The error of a text that is no valid HTTP header value.
#[verifier::external_type_specification]
#[verifier::external_body]
pub struct ExInvalidHeaderValue(InvalidHeaderValue);

/// A byte that may stand in an HTTP header value: a tab, or anything from 32 up but 127.
pub open spec fn header_value_byte(b: u8) -> bool {
    (b >= 32 && b != 127) || b == 9
}

/// A text whose UTF-8 bytes may all stand in an HTTP header value.
pub open spec fn header_value_text(text: Seq<char>) -> bool {
    let bytes = vstd::utf8::encode_utf8(text);
    forall|i: int| 0 <= i < bytes.len() ==> header_value_byte(#[trigger] bytes[i])
}

/// An HTTP header value together with the text it was made from. Only
/// [`header_value_from_str`] makes one, so the record of its origin cannot be forged.
pub struct TokenValue {
    pub value: HeaderValue,
    made_from: Ghost<(Seq<char>, HeaderValue)>,
}

impl TokenValue {
    /// The text the value was made from.
    pub closed spec fn text(&self) -> Seq<char> {
        self.made_from@.0
    }

    /// The value is still the one made from `text`: its bytes are the UTF-8 bytes of
    /// `text`.
    pub closed spec fn carries(&self, text: Seq<char>) -> bool {
        self.made_from@.0 == text && self.made_from@.1 == self.value
    }
}

/// Calls `HeaderValue::from_str` (re-exported by reqwest from http), which checks every
/// byte of its argument, fails exactly when one may not stand in a header value, and
/// otherwise makes a value that holds exactly the argument's bytes
/// (`Bytes::copy_from_slice(src.as_bytes())`); the result records that it was made from
/// the argument.
#[verifier::external_body]
pub(crate) fn header_value_from_str(src: &str) -> (r: Result<TokenValue, InvalidHeaderValue>)
    ensures
        r is Ok <==> header_value_text(src@),
        r matches Ok(t) ==> t.carries(src@) && t.text() == src@,
{
    match HeaderValue::from_str(src) {
        Ok(value) => {
            let made_from = Ghost((src@, value));
            Ok(TokenValue { value, made_from })
        },
        Err(e) => Err(e),
    }
}

} // verus!
