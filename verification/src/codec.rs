//! The framing codec: a call becomes one frame, a frame's payload becomes a
//! response.

use crate::call::{envelope_of, Call};
use crate::error::{BusError, BusFailure};
use crate::frame::{frame, frame_of, scan, sentinel_free, FrameModel, SENTINEL};
use crate::json::{json_parse, json_text, Json, JsonValue};
use crate::response::{delivers, interpret, response_of, MessageType, Response, RpcFailure};
use crate::response::RPCError;
use crate::text::utf8_text;
use arrayvec::ArrayString;
use vstd::prelude::*;
use vstd::string::StringExecFns;
use vstd::string::StringSliceAdditionalSpecFns;
use vstd::utf8::*;

verus! {

/// The size of the working buffer in which the JSON text of a call is
/// held: a call whose text takes more bytes than this is not sent.
pub const CAPACITY: usize = 4096;

/// Fixed-capacity strings as `arrayvec` holds them.
#[verifier::external_type_specification]
#[verifier::external_body]
pub struct ExArrayString<const CAP: usize>(ArrayString<CAP>);

/// The text that a working buffer holds.
pub uninterp spec fn buffer_text(buffer: ArrayString<4096>) -> Seq<char>;

/// An empty working buffer, from `ArrayString::new`.
#[verifier::external_body]
fn buffer_new() -> (buffer: ArrayString<4096>)
    ensures
        buffer_text(buffer) == Seq::<char>::empty(),
{
    ArrayString::new()
}

/// Appends a text to a working buffer with `ArrayString::try_push_str`,
/// which compares the byte length of the text with the room that is left
/// and either appends all of it or leaves the buffer as it was.
#[verifier::external_body]
fn buffer_push(buffer: &mut ArrayString<4096>, text: &str) -> (fits: bool)
    ensures
        fits == (encode_utf8(buffer_text(*old(buffer))).len() + encode_utf8(text@).len() <= 4096),
        buffer_text(*final(buffer)) == if fits {
            buffer_text(*old(buffer)) + text@
        } else {
            buffer_text(*old(buffer))
        },
{
    buffer.try_push_str(text).is_ok()
}

/// The text in a working buffer, from `ArrayString::as_str`.
#[verifier::external_body]
fn buffer_str(buffer: &ArrayString<4096>) -> (text: &str)
    ensures
        text@ == buffer_text(*buffer),
{
    buffer.as_str()
}

/// The text of an envelope: an object that holds the member `type` first
/// and, where there is a payload, the member `data` after it. The name of
/// the type and the payload stand in it as their JSON texts.
pub open spec fn envelope_text(msg_type: MessageType, data: Option<JsonValue>) -> Seq<char> {
    let head = "{\"type\":"@ + json_text(JsonValue::Text(msg_type.name()));
    match data {
        Some(payload) => head + ",\"data\":"@ + json_text(payload) + "}"@,
        None => head + "}"@,
    }
}

/// The bytes of the text of an envelope.
pub open spec fn payload_of(msg_type: MessageType, data: Option<JsonValue>) -> Seq<u8> {
    encode_utf8(envelope_text(msg_type, data))
}

/// The bytes of two texts in a row are the bytes of the first and then the
/// bytes of the second.
pub proof fn lemma_encode_concat(first: Seq<char>, second: Seq<char>)
    ensures
        encode_utf8(first + second) == encode_utf8(first) + encode_utf8(second),
    decreases first.len(),
{
    if first.len() == 0 {
        assert(first + second =~= second);
        assert(encode_utf8(first) + encode_utf8(second) =~= encode_utf8(second));
    } else {
        let whole = first + second;
        assert(whole[0] == first[0]);
        assert(whole.drop_first() =~= first.drop_first() + second);
        lemma_encode_concat(first.drop_first(), second);
        assert(encode_utf8(whole) =~= encode_utf8(first) + encode_utf8(second));
    }
}

/// Two texts whose bytes hold no sentinel make a text whose bytes hold
/// none.
pub proof fn lemma_sentinel_free_concat(first: Seq<char>, second: Seq<char>)
    requires
        sentinel_free(encode_utf8(first)),
        sentinel_free(encode_utf8(second)),
    ensures
        sentinel_free(encode_utf8(first + second)),
{
    lemma_encode_concat(first, second);
}

/// The punctuation of an envelope holds no sentinel.
pub proof fn lemma_punctuation_sentinel_free()
    ensures
        sentinel_free(encode_utf8("{\"type\":"@)),
        sentinel_free(encode_utf8(",\"data\":"@)),
        sentinel_free(encode_utf8("}"@)),
{
    reveal_strlit("{\"type\":");
    reveal_strlit(",\"data\":");
    reveal_strlit("}");
    let open = "{\"type\":"@;
    let middle = ",\"data\":"@;
    let close = "}"@;
    assert(open.len() == 8 && middle.len() == 8 && close.len() == 1);
    assert(open[0] == '{' && open[1] == '"' && open[2] == 't' && open[3] == 'y' && open[4] == 'p'
        && open[5] == 'e' && open[6] == '"' && open[7] == ':');
    assert(middle[0] == ',' && middle[1] == '"' && middle[2] == 'd' && middle[3] == 'a'
        && middle[4] == 't' && middle[5] == 'a' && middle[6] == '"' && middle[7] == ':');
    assert(close[0] == '}');
    assert(is_ascii_chars(open));
    assert(is_ascii_chars(middle));
    assert(is_ascii_chars(close));
    is_ascii_chars_encode_utf8(open);
    is_ascii_chars_encode_utf8(middle);
    is_ascii_chars_encode_utf8(close);
    assert forall|i: int| 0 <= i < encode_utf8(open).len() implies encode_utf8(open)[i]
        != SENTINEL by {
        assert(open[i] as u8 == encode_utf8(open)[i]);
    }
    assert forall|i: int| 0 <= i < encode_utf8(middle).len() implies encode_utf8(middle)[i]
        != SENTINEL by {
        assert(middle[i] as u8 == encode_utf8(middle)[i]);
    }
    assert forall|i: int| 0 <= i < encode_utf8(close).len() implies encode_utf8(close)[i]
        != SENTINEL by {
        assert(close[i] as u8 == encode_utf8(close)[i]);
    }
}

/// Writes the text of the envelope of a call: `type` first, then `data`.
pub fn envelope(call: Call) -> (text: String)
    ensures
        text@ == envelope_text(call.msg_type, call.payload()),
        sentinel_free(encode_utf8(text@)),
{
    proof {
        lemma_punctuation_sentinel_free();
    }
    let name = Json::text(call.msg_type.as_ref()).to_text();
    let mut text = String::from_str("{\"type\":");
    proof {
        lemma_sentinel_free_concat(text@, name@);
    }
    text.append(name.as_str());
    match call.data {
        Some(data) => {
            let payload = data.to_text();
            proof {
                lemma_sentinel_free_concat(text@, ",\"data\":"@);
                lemma_sentinel_free_concat(text@ + ",\"data\":"@, payload@);
            }
            text.append(",\"data\":");
            text.append(payload.as_str());
        },
        None => {},
    }
    proof {
        lemma_sentinel_free_concat(text@, "}"@);
    }
    text.append("}");
    text
}

/// Turns a call into the frame that carries it.
///
/// The text of the envelope has to fit the working buffer. A call whose
/// text does not fit fails with `MessageTooLarge`, and no frame, nor any
/// part of one, comes into being.
pub fn encode(call: Call) -> (r: Result<Vec<u8>, BusError>)
    ensures
        match r {
            Ok(framed) => {
                &&& payload_of(call.msg_type, call.payload()).len() <= CAPACITY
                &&& sentinel_free(payload_of(call.msg_type, call.payload()))
                &&& framed@ == frame_of(payload_of(call.msg_type, call.payload()))
            },
            Err(e) => {
                &&& payload_of(call.msg_type, call.payload()).len() > CAPACITY
                &&& e@ == BusFailure::Rpc(RpcFailure::MessageTooLarge)
            },
        },
{
    let text = envelope(call);
    let mut buffer = buffer_new();
    if buffer_push(&mut buffer, text.as_str()) {
        let held = buffer_str(&buffer);
        assert(held@ =~= text@);
        Ok(frame(held.as_bytes()))
    } else {
        Err(BusError::Rpc(RPCError::MessageTooLarge))
    }
}

/// What the payload of a frame says as a response.
///
/// The payload has to be UTF-8, or the stream is out of step; its text has
/// to be JSON; and the JSON is read as [`response_of`] says.
pub open spec fn decoded(payload: Seq<u8>) -> Result<(MessageType, JsonValue), BusFailure> {
    if !valid_utf8(payload) {
        Err(BusFailure::Framing)
    } else {
        match json_parse(decode_utf8(payload)) {
            Some(doc) => response_of(doc),
            None => Err(BusFailure::Protocol),
        }
    }
}

/// Reads the payload of a frame as a response.
///
/// A document is taken apart level by level, and so is a document that is
/// let go of: one that is nested many thousands of levels deep can use up
/// the stack.
pub fn decode(payload: &[u8]) -> (r: Result<Response<Json>, BusError>)
    ensures
        delivers(r, decoded(payload@)),
{
    match utf8_text(payload) {
        None => Err(BusError::Framing),
        Some(text) => match Json::parse(text) {
            None => Err(BusError::Protocol),
            Some(doc) => interpret(doc),
        },
    }
}

/// An envelope with a payload is read back as a response of the same type
/// with the same payload, whenever the type is one that a successful
/// response may carry.
pub proof fn lemma_envelope_round_trip(msg_type: MessageType, data: JsonValue)
    requires
        msg_type == MessageType::List || msg_type == MessageType::Methods || msg_type
            == MessageType::Result,
    ensures
        response_of(envelope_of(msg_type, Some(data))) == Ok::<_, BusFailure>((msg_type, data)),
{
    crate::response::lemma_name_round_trip(msg_type);
    lemma_type_is_not_data();
}

/// The two member names of an envelope differ.
pub proof fn lemma_type_is_not_data()
    ensures
        "type"@ != "data"@,
{
    reveal_strlit("type");
    reveal_strlit("data");
    assert("type"@[0] == 't' && "data"@[0] == 'd');
}

/// The round trip of a payload over the wire is lossless.
///
/// Take the envelope of a response type around any payload, write its
/// text, frame the bytes, and feed the frame to the decoder. Wherever the
/// JSON library reads the text of the envelope as the object with these two
/// members, the decoder finds the frame complete and delivers the same type
/// and payload.
pub proof fn lemma_wire_round_trip(msg_type: MessageType, data: JsonValue)
    requires
        msg_type == MessageType::List || msg_type == MessageType::Methods || msg_type
            == MessageType::Result,
    ensures
        ({
            let text = envelope_text(msg_type, Some(data));
            let payload = payload_of(msg_type, Some(data));
            json_parse(text) == Some(envelope_of(msg_type, Some(data))) && sentinel_free(payload)
                ==> {
                &&& scan(frame_of(payload)) == FrameModel::Frame(payload)
                &&& decoded(payload) == Ok::<_, BusFailure>((msg_type, data))
            }
        }),
{
    let text = envelope_text(msg_type, Some(data));
    let payload = payload_of(msg_type, Some(data));
    if json_parse(text) == Some(envelope_of(msg_type, Some(data))) && sentinel_free(payload) {
        crate::frame::lemma_frame_round_trip(payload);
        encode_utf8_valid_utf8(text);
        encode_utf8_decode_utf8(text);
        lemma_envelope_round_trip(msg_type, data);
    }
}

} // verus!
