//! Request envelopes.

use crate::json::{array, items_view, object, put, Json, JsonValue};
use std::marker::PhantomData;
use crate::response::MessageType;
use vstd::prelude::*;
use vstd::string::StringExecFns;

verus! {

/// The envelope of type `msg_type` around `data`, as the JSON document
/// that a reader of its text finds: an object with the member `type` and,
/// where there is a payload, the member `data`.
pub open spec fn envelope_of(msg_type: MessageType, data: Option<JsonValue>) -> JsonValue {
    let bare = Map::<Seq<char>, JsonValue>::empty().insert(
        "type"@,
        JsonValue::Text(msg_type.name()),
    );
    match data {
        Some(payload) => JsonValue::Object(bare.insert("data"@, payload)),
        None => JsonValue::Object(bare),
    }
}

/// The payload that asks the device `device_id` to run its method `name`
/// on `parameters`.
pub open spec fn invocation_of(
    device_id: Seq<char>,
    name: Seq<char>,
    parameters: Seq<JsonValue>,
) -> JsonValue {
    JsonValue::Object(
        Map::<Seq<char>, JsonValue>::empty().insert("deviceId"@, JsonValue::Text(device_id)).insert(
            "name"@,
            JsonValue::Text(name),
        ).insert("parameters"@, JsonValue::Array(parameters)),
    )
}

/// A call: a type and, for every call but `list`, a payload.
#[derive(Debug, PartialEq, Eq)]
pub struct Call {
    pub msg_type: MessageType,
    pub data: Option<Json>,
}

/// The payload of an `invoke` call.
#[derive(Debug, PartialEq, Eq)]
pub struct InvokeCall {
    device_id: String,
    method_name: String,
    parameters: Vec<Json>,
}

impl InvokeCall {
    /// The JSON document that this payload is sent as.
    pub closed spec fn json(&self) -> JsonValue {
        invocation_of(self.device_id@, self.method_name@, items_view(self.parameters@))
    }

    pub fn new(device_id: &str, method_name: &str, parameters: Vec<Json>) -> (invoke: InvokeCall)
        ensures
            invoke.json() == invocation_of(device_id@, method_name@, items_view(parameters@)),
    {
        InvokeCall {
            device_id: String::from_str(device_id),
            method_name: String::from_str(method_name),
            parameters,
        }
    }

    /// Gives up the payload for the JSON document that it is sent as.
    pub fn into_json(self) -> (doc: Json)
        ensures
            doc@ == self.json(),
    {
        let mut members: Vec<(String, Json)> = Vec::new();
        assert(crate::json::members_view(members@) =~= Seq::empty());
        put(&mut members, "deviceId", Json::Text(self.device_id));
        put(&mut members, "name", Json::Text(self.method_name));
        put(&mut members, "parameters", array(self.parameters));
        object(members)
    }
}

impl Call {
    /// The payload by its model.
    pub open spec fn payload(&self) -> Option<JsonValue> {
        match self.data {
            Some(data) => Some(data@),
            None => None,
        }
    }

    /// The call that asks for the device directory.
    pub fn list() -> (call: Call)
        ensures
            call.msg_type == MessageType::List,
            call.payload() is None,
    {
        Call { msg_type: MessageType::List, data: None }
    }

    /// The call that asks for the methods of the device `device_id`.
    pub fn methods(device_id: &str) -> (call: Call)
        ensures
            call.msg_type == MessageType::Methods,
            call.payload() == Some(JsonValue::Text(device_id@)),
    {
        Call { msg_type: MessageType::Methods, data: Some(Json::text(device_id)) }
    }

    /// The call that asks the device `device_id` to run its method
    /// `method_name` on `parameters`.
    pub fn invoke(device_id: &str, method_name: &str, parameters: Vec<Json>) -> (call: Call)
        ensures
            call.msg_type == MessageType::Invoke,
            call.payload() == Some(
                invocation_of(device_id@, method_name@, items_view(parameters@)),
            ),
    {
        let invoke = InvokeCall::new(device_id, method_name, parameters);
        Call { msg_type: MessageType::Invoke, data: Some(invoke.into_json()) }
    }
}

/// A call together with the type of the answer that is expected to it.
#[derive(Debug)]
pub struct Request<R> {
    pub call: Call,
    pub answer: PhantomData<R>,
}

impl<R> Request<R> {
    /// Whether this request asks the device `device_id` to run its method
    /// `name` on `parameters`.
    pub open spec fn asks(
        &self,
        device_id: Seq<char>,
        name: Seq<char>,
        parameters: Seq<JsonValue>,
    ) -> bool {
        self.call.msg_type == MessageType::Invoke && self.call.payload() == Some(
            invocation_of(device_id, name, parameters),
        )
    }

    /// The request that asks the device `device_id` to run its method
    /// `method_name` on `parameters`.
    pub fn invoke(device_id: &str, method_name: &str, parameters: Vec<Json>) -> (request: Request<R>)
        ensures
            request.asks(device_id@, method_name@, items_view(parameters@)),
    {
        Request { call: Call::invoke(device_id, method_name, parameters), answer: PhantomData }
    }
}

/// No parameters.
pub fn no_parameters() -> (parameters: Vec<Json>)
    ensures
        items_view(parameters@) == Seq::<JsonValue>::empty(),
{
    let parameters: Vec<Json> = Vec::new();
    assert(items_view(parameters@) =~= Seq::<JsonValue>::empty());
    parameters
}

/// One parameter.
pub fn one_parameter(first: Json) -> (parameters: Vec<Json>)
    ensures
        items_view(parameters@) == seq![first@],
{
    let mut parameters: Vec<Json> = Vec::new();
    parameters.push(first);
    assert(items_view(parameters@) =~= seq![first@]);
    parameters
}

/// Two parameters.
pub fn two_parameters(first: Json, second: Json) -> (parameters: Vec<Json>)
    ensures
        items_view(parameters@) == seq![first@, second@],
{
    let mut parameters: Vec<Json> = Vec::new();
    parameters.push(first);
    parameters.push(second);
    assert(items_view(parameters@) =~= seq![first@, second@]);
    parameters
}

/// Three parameters.
pub fn three_parameters(first: Json, second: Json, third: Json) -> (parameters: Vec<Json>)
    ensures
        items_view(parameters@) == seq![first@, second@, third@],
{
    let mut parameters: Vec<Json> = Vec::new();
    parameters.push(first);
    parameters.push(second);
    parameters.push(third);
    assert(items_view(parameters@) =~= seq![first@, second@, third@]);
    parameters
}

} // verus!
