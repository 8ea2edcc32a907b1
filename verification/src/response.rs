//! Response envelopes and how they are read.

use crate::error::{BusError, BusFailure};
use crate::json::{Json, JsonValue};
use crate::text::str_eq;
use vstd::prelude::*;
use vstd::string::StringExecFns;

verus! {

/// The `type` of an envelope.
#[derive(Debug, Clone, Copy, PartialEq, Eq, Structural)]
pub enum MessageType {
    List,
    Methods,
    Result,
    Error,
    /// Only ever sent, never received.
    Invoke,
}

impl MessageType {
    /// The name this type goes by on the wire.
    pub open spec fn name(self) -> Seq<char> {
        match self {
            MessageType::List => "list"@,
            MessageType::Methods => "methods"@,
            MessageType::Result => "result"@,
            MessageType::Error => "error"@,
            MessageType::Invoke => "invoke"@,
        }
    }

    /// The type that goes by `name`, if any does.
    pub open spec fn named(name: Seq<char>) -> Option<MessageType> {
        if name == "list"@ {
            Some(MessageType::List)
        } else if name == "methods"@ {
            Some(MessageType::Methods)
        } else if name == "result"@ {
            Some(MessageType::Result)
        } else if name == "error"@ {
            Some(MessageType::Error)
        } else if name == "invoke"@ {
            Some(MessageType::Invoke)
        } else {
            None
        }
    }

    /// Whether a response may carry this type.
    pub open spec fn is_received(self) -> bool {
        self != MessageType::Invoke
    }

    pub fn as_ref(&self) -> (name: &'static str)
        ensures
            name@ == self.name(),
    {
        match self {
            MessageType::List => "list",
            MessageType::Methods => "methods",
            MessageType::Result => "result",
            MessageType::Error => "error",
            MessageType::Invoke => "invoke",
        }
    }

    /// Reads a type from its wire name.
    pub fn from_name(name: &str) -> (r: Option<MessageType>)
        ensures
            r == MessageType::named(name@),
    {
        if str_eq(name, "list") {
            Some(MessageType::List)
        } else if str_eq(name, "methods") {
            Some(MessageType::Methods)
        } else if str_eq(name, "result") {
            Some(MessageType::Result)
        } else if str_eq(name, "error") {
            Some(MessageType::Error)
        } else if str_eq(name, "invoke") {
            Some(MessageType::Invoke)
        } else {
            None
        }
    }

    /// The wire name in double quotes, as the type is shown to a reader.
    pub fn to_string(&self) -> (shown: String)
        ensures
            shown@ == quoted(self.name()),
    {
        quote(self.as_ref())
    }
}

/// A text between two double quotes.
pub open spec fn quoted(text: Seq<char>) -> Seq<char> {
    "\""@ + text + "\""@
}

/// Puts a text between two double quotes.
pub fn quote(text: &str) -> (shown: String)
    ensures
        shown@ == quoted(text@),
{
    let mut shown = String::from_str("\"");
    shown.append(text);
    shown.append("\"");
    shown
}

/// Each type is read back from its own name.
pub proof fn lemma_name_round_trip(t: MessageType)
    ensures
        MessageType::named(t.name()) == Some(t),
{
    reveal_strlit("list");
    reveal_strlit("methods");
    reveal_strlit("result");
    reveal_strlit("error");
    reveal_strlit("invoke");
    assert("list"@.len() == 4 && "methods"@.len() == 7 && "result"@.len() == 6);
    assert("error"@.len() == 5 && "invoke"@.len() == 6);
    assert("result"@[0] == 'r' && "invoke"@[0] == 'i');
}

/// A name is read as a type only if it is that type's name.
pub proof fn lemma_named_is_name(name: Seq<char>)
    ensures
        MessageType::named(name) matches Some(t) ==> t.name() == name,
{
}

/// A failure that the remote side reports.
#[derive(Debug, Clone, PartialEq, Eq)]
pub enum RPCError {
    MessageTooLarge,
    UnknownMessageType,
    UnknownDevice,
    UnknownMethod,
    InvalidParameterSignature,
    /// Any message that is not one of the known ones.
    Other(String),
}

/// The model of an [`RPCError`].
pub enum RpcFailure {
    MessageTooLarge,
    UnknownMessageType,
    UnknownDevice,
    UnknownMethod,
    InvalidParameterSignature,
    Other(Seq<char>),
}

impl View for RPCError {
    type V = RpcFailure;

    open spec fn view(&self) -> RpcFailure {
        match self {
            RPCError::MessageTooLarge => RpcFailure::MessageTooLarge,
            RPCError::UnknownMessageType => RpcFailure::UnknownMessageType,
            RPCError::UnknownDevice => RpcFailure::UnknownDevice,
            RPCError::UnknownMethod => RpcFailure::UnknownMethod,
            RPCError::InvalidParameterSignature => RpcFailure::InvalidParameterSignature,
            RPCError::Other(message) => RpcFailure::Other(message@),
        }
    }
}

impl RpcFailure {
    /// The message that reports this failure.
    pub open spec fn message(self) -> Seq<char> {
        match self {
            RpcFailure::MessageTooLarge => "message too large"@,
            RpcFailure::UnknownMessageType => "unknown message type"@,
            RpcFailure::UnknownDevice => "unknown device"@,
            RpcFailure::UnknownMethod => "unknown method"@,
            RpcFailure::InvalidParameterSignature => "invalid parameter signature"@,
            RpcFailure::Other(message) => message,
        }
    }

    /// The failure that a message reports: the known one whose message it
    /// is, letter for letter, and `Other` with the message itself if there
    /// is none.
    pub open spec fn reported(message: Seq<char>) -> RpcFailure {
        if message == "message too large"@ {
            RpcFailure::MessageTooLarge
        } else if message == "unknown message type"@ {
            RpcFailure::UnknownMessageType
        } else if message == "unknown device"@ {
            RpcFailure::UnknownDevice
        } else if message == "unknown method"@ {
            RpcFailure::UnknownMethod
        } else if message == "invalid parameter signature"@ {
            RpcFailure::InvalidParameterSignature
        } else {
            RpcFailure::Other(message)
        }
    }
}

impl RPCError {
    pub fn as_ref(&self) -> (message: &str)
        ensures
            message@ == self@.message(),
    {
        match self {
            RPCError::MessageTooLarge => "message too large",
            RPCError::UnknownMessageType => "unknown message type",
            RPCError::UnknownDevice => "unknown device",
            RPCError::UnknownMethod => "unknown method",
            RPCError::InvalidParameterSignature => "invalid parameter signature",
            RPCError::Other(message) => message.as_str(),
        }
    }

    /// Reads a failure from the message that reports it.
    pub fn from_message(message: &str) -> (e: RPCError)
        ensures
            e@ == RpcFailure::reported(message@),
    {
        if str_eq(message, "message too large") {
            RPCError::MessageTooLarge
        } else if str_eq(message, "unknown message type") {
            RPCError::UnknownMessageType
        } else if str_eq(message, "unknown device") {
            RPCError::UnknownDevice
        } else if str_eq(message, "unknown method") {
            RPCError::UnknownMethod
        } else if str_eq(message, "invalid parameter signature") {
            RPCError::InvalidParameterSignature
        } else {
            RPCError::Other(String::from_str(message))
        }
    }

    /// The message in double quotes, as the failure is shown to a reader.
    pub fn to_string(&self) -> (shown: String)
        ensures
            shown@ == quoted(self@.message()),
    {
        quote(self.as_ref())
    }
}

/// Every failure that is read from a message reports that message.
pub proof fn lemma_reported_message(message: Seq<char>)
    ensures
        RpcFailure::reported(message).message() == message,
{
}

/// The response to a call.
#[derive(Debug, PartialEq, Eq)]
pub struct Response<T> {
    pub msg_type: MessageType,
    pub data: T,
}

/// What a call comes to: a response, or the failure that the remote side
/// reported.
pub type RPCResult<T> = Result<Response<T>, RPCError>;

/// What a JSON document says as a response envelope.
///
/// The document has to be an object whose member `type` names a type that
/// a response may carry. With the type `error`, the member `data` has to be
/// a string, and the call fails with what that string reports. With any
/// other type the response carries the member `data`; only a `result` may
/// do without one, and then carries `null`.
pub open spec fn response_of(doc: JsonValue) -> Result<(MessageType, JsonValue), BusFailure> {
    match doc {
        JsonValue::Object(members) => {
            if members.contains_key("type"@) {
                match members["type"@] {
                    JsonValue::Text(name) => match MessageType::named(name) {
                        Some(MessageType::Invoke) => Err(BusFailure::Protocol),
                        Some(MessageType::Error) => {
                            if members.contains_key("data"@) {
                                match members["data"@] {
                                    JsonValue::Text(message) => Err(
                                        BusFailure::Rpc(RpcFailure::reported(message)),
                                    ),
                                    _ => Err(BusFailure::Protocol),
                                }
                            } else {
                                Err(BusFailure::Protocol)
                            }
                        },
                        Some(msg_type) => {
                            if members.contains_key("data"@) {
                                Ok((msg_type, members["data"@]))
                            } else if msg_type == MessageType::Result {
                                Ok((msg_type, JsonValue::Null))
                            } else {
                                Err(BusFailure::Protocol)
                            }
                        },
                        None => Err(BusFailure::Protocol),
                    },
                    _ => Err(BusFailure::Protocol),
                }
            } else {
                Err(BusFailure::Protocol)
            }
        },
        _ => Err(BusFailure::Protocol),
    }
}

/// Whether what a call returned is what the model says it returns.
pub open spec fn delivers(
    returned: Result<Response<Json>, BusError>,
    model: Result<(MessageType, JsonValue), BusFailure>,
) -> bool {
    match model {
        Ok((msg_type, data)) => returned matches Ok(response) && response.msg_type == msg_type
            && response.data@ == data,
        Err(failure) => returned matches Err(e) && e@ == failure,
    }
}

/// Reads a JSON document as a response envelope.
pub fn interpret(doc: Json) -> (r: Result<Response<Json>, BusError>)
    ensures
        delivers(r, response_of(doc@)),
{
    let msg_type = match doc.get("type") {
        Some(named) => match named.as_str() {
            Some(name) => MessageType::from_name(name),
            None => None,
        },
        None => None,
    };
    match msg_type {
        None => Err(BusError::Protocol),
        Some(MessageType::Invoke) => Err(BusError::Protocol),
        Some(MessageType::Error) => match doc.get("data") {
            Some(data) => match data.as_str() {
                Some(message) => Err(BusError::Rpc(RPCError::from_message(message))),
                None => Err(BusError::Protocol),
            },
            None => Err(BusError::Protocol),
        },
        Some(msg_type) => match doc.into_member("data") {
            Some(data) => Ok(Response { msg_type, data }),
            None => {
                if msg_type == MessageType::Result {
                    Ok(Response { msg_type, data: Json::Null })
                } else {
                    Err(BusError::Protocol)
                }
            },
        },
    }
}

} // verus!
