use vstd::prelude::*;
use vstd::slice::slice_to_vec;
use vstd::utf8::{decode_utf8, encode_utf8, valid_utf8};

verus! {

/// One unit of telemetry payload, in exactly one of three representations.
pub enum Value<T> {
    /// An opaque byte sequence.
    Bytes(Vec<u8>),
    /// Decoded text.
    String(String),
    /// A record of the caller's chosen shape.
    StructuredString(T),
}

/// Relies on `std::str::from_utf8`: it succeeds exactly on well-formed UTF-8,
/// and the text it returns is what those bytes encode.
#[verifier::external_body]
fn utf8_text(bytes: &Vec<u8>) -> (r: Option<String>)
    ensures
        r is Some <==> valid_utf8(bytes@),
        r matches Some(s) ==> s@ == decode_utf8(bytes@),
{
    match std::str::from_utf8(bytes.as_slice()) {
        Ok(s) => Some(s.to_owned()),
        Err(_) => None,
    }
}

/// What the cascade yields for decoded `text`, given what `parse` may return on it.
pub open spec fn text_outcome<T, F: Fn(&String) -> Option<T>>(
    parse: F,
    text: String,
    r: Value<T>,
) -> bool {
    match r {
        Value::StructuredString(x) => parse.ensures((&text,), Some(x)),
        Value::String(s) => s@ == text@ && parse.ensures((&text,), None),
        Value::Bytes(_) => false,
    }
}

/// Classifies decoded text: a structured record when `parse` accepts it,
/// the text itself otherwise.
pub fn decode_text<T, F: Fn(&String) -> Option<T>>(text: String, parse: F) -> (r: Value<T>)
    requires
        forall|s: &String| parse.requires((s,)),
    ensures
        text_outcome(parse, text, r),
{
    match parse(&text) {
        Some(record) => Value::StructuredString(record),
        None => Value::String(text),
    }
}

/// What the receive-path cascade yields for `bytes`.
pub open spec fn received_outcome<T, F: Fn(&String) -> Option<T>>(
    parse: F,
    bytes: Seq<u8>,
    r: Value<T>,
) -> bool {
    if valid_utf8(bytes) {
        exists|t: String| t@ == decode_utf8(bytes) && #[trigger] text_outcome(parse, t, r)
    } else {
        r matches Value::Bytes(b) && b@ == bytes
    }
}

/// The receive-path cascade: bytes that are not UTF-8 stay bytes; UTF-8 is
/// offered to `parse` and kept as text when `parse` declines it.
pub fn decode_received<T, F: Fn(&String) -> Option<T>>(bytes: Vec<u8>, parse: F) -> (r: Value<T>)
    requires
        forall|s: &String| parse.requires((s,)),
    ensures
        received_outcome(parse, bytes@, r),
{
    match utf8_text(&bytes) {
        Some(text) => {
            let ghost t = text;
            let r = decode_text(text, parse);
            assert(text_outcome(parse, t, r));
            r
        },
        None => Value::Bytes(bytes),
    }
}

/// The bytes that carry `v` on a byte stream: bytes as they are, text as
/// UTF-8, and a record as the UTF-8 of what `render` makes of it.
pub fn payload_bytes<O, F: Fn(&O) -> String>(v: &Value<O>, render: F) -> (r: Vec<u8>)
    requires
        forall|o: &O| render.requires((o,)),
    ensures
        match v {
            Value::Bytes(b) => r@ == b@,
            Value::String(s) => r@ == encode_utf8(s@),
            Value::StructuredString(o) => exists|t: String|
                render.ensures((o,), t) && r@ == encode_utf8(t@),
        },
{
    match v {
        Value::Bytes(b) => slice_to_vec(b.as_slice()),
        Value::String(s) => slice_to_vec(s.as_str().as_bytes()),
        Value::StructuredString(o) => {
            let t = render(o);
            slice_to_vec(t.as_str().as_bytes())
        },
    }
}

/// UTF-8 whose decoded text `parse` always accepts comes out of the
/// cascade as a structured record, never as text or bytes.
pub proof fn lemma_accepted_text_is_structured<T, F: Fn(&String) -> Option<T>>(
    parse: F,
    bytes: Seq<u8>,
    r: Value<T>,
)
    requires
        valid_utf8(bytes),
        forall|t: String, o: Option<T>|
            t@ == decode_utf8(bytes) && #[trigger] parse.ensures((&t,), o) ==> o is Some,
        received_outcome(parse, bytes, r),
    ensures
        r is StructuredString,
{
}

/// UTF-8 whose decoded text `parse` always declines comes out of the cascade
/// as text equal to the decoded string.
pub proof fn lemma_declined_text_is_text<T, F: Fn(&String) -> Option<T>>(
    parse: F,
    bytes: Seq<u8>,
    r: Value<T>,
)
    requires
        valid_utf8(bytes),
        forall|t: String, o: Option<T>|
            t@ == decode_utf8(bytes) && #[trigger] parse.ensures((&t,), o) ==> o is None,
        received_outcome(parse, bytes, r),
    ensures
        r matches Value::String(s) && s@ == decode_utf8(bytes),
{
}

/// Bytes that are not UTF-8 come out of the cascade as those same bytes.
pub proof fn lemma_invalid_utf8_is_bytes<T, F: Fn(&String) -> Option<T>>(
    parse: F,
    bytes: Seq<u8>,
    r: Value<T>,
)
    requires
        !valid_utf8(bytes),
        received_outcome(parse, bytes, r),
    ensures
        r matches Value::Bytes(b) && b@ == bytes,
{
}

/// A WebSocket message as the sinks see it.
pub enum Frame {
    /// A text frame.
    Text(String),
    /// A binary frame.
    Binary(Vec<u8>),
    /// A ping, pong, close or other control frame.
    Control,
}

/// The frame that carries `v`: bytes in a binary frame, text and rendered
/// records in a text frame.
pub fn frame_of<O, F: Fn(&O) -> String>(v: Value<O>, render: F) -> (r: Frame)
    requires
        forall|o: &O| render.requires((o,)),
    ensures
        match v {
            Value::Bytes(b) => r == Frame::Binary(b),
            Value::String(s) => r == Frame::Text(s),
            Value::StructuredString(o) => r matches Frame::Text(t) && render.ensures((&o,), t),
        },
{
    match v {
        Value::Bytes(b) => Frame::Binary(b),
        Value::String(s) => Frame::Text(s),
        Value::StructuredString(o) => Frame::Text(render(&o)),
    }
}

/// What a received frame becomes: a text frame goes through the structured
/// and text steps of the cascade, a binary frame stays bytes, and a control
/// frame yields nothing.
pub fn decode_frame<T, F: Fn(&String) -> Option<T>>(frame: Frame, parse: F) -> (r: Option<Value<T>>)
    requires
        forall|s: &String| parse.requires((s,)),
    ensures
        match frame {
            Frame::Text(s) => r matches Some(v) && text_outcome(parse, s, v),
            Frame::Binary(b) => r == Some(Value::<T>::Bytes(b)),
            Frame::Control => r is None,
        },
{
    match frame {
        Frame::Text(s) => Some(decode_text(s, parse)),
        Frame::Binary(b) => Some(Value::Bytes(b)),
        Frame::Control => None,
    }
}

} // verus!
