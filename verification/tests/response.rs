use miku_rpc::error::BusError;
use miku_rpc::json::Json;
use miku_rpc::response::{interpret, quote, MessageType, RPCError, Response};

fn read(text: &str) -> Result<Response<Json>, BusError> {
    interpret(Json::parse(text).unwrap())
}

#[test]
fn message_types_go_by_their_wire_names() {
    assert_eq!(MessageType::List.as_ref(), "list");
    assert_eq!(MessageType::Methods.as_ref(), "methods");
    assert_eq!(MessageType::Result.as_ref(), "result");
    assert_eq!(MessageType::Error.as_ref(), "error");
    assert_eq!(MessageType::Invoke.as_ref(), "invoke");
}

#[test]
fn message_types_are_read_from_their_wire_names() {
    assert_eq!(MessageType::from_name("list"), Some(MessageType::List));
    assert_eq!(MessageType::from_name("methods"), Some(MessageType::Methods));
    assert_eq!(MessageType::from_name("result"), Some(MessageType::Result));
    assert_eq!(MessageType::from_name("error"), Some(MessageType::Error));
    assert_eq!(MessageType::from_name("invoke"), Some(MessageType::Invoke));
    assert_eq!(MessageType::from_name("List"), None);
    assert_eq!(MessageType::from_name(""), None);
    assert_eq!(MessageType::from_name("results"), None);
}

#[test]
fn every_message_type_is_read_back_from_its_name() {
    let all = [
        MessageType::List,
        MessageType::Methods,
        MessageType::Result,
        MessageType::Error,
        MessageType::Invoke,
    ];
    for t in all {
        assert_eq!(MessageType::from_name(t.as_ref()), Some(t));
    }
}

#[test]
fn message_types_are_shown_in_quotes() {
    assert_eq!(MessageType::List.to_string(), "\"list\"");
    assert_eq!(MessageType::Invoke.to_string(), "\"invoke\"");
    assert_eq!(quote("a b"), "\"a b\"");
    assert_eq!(quote(""), "\"\"");
}

#[test]
fn known_failures_are_read_from_their_messages() {
    assert_eq!(RPCError::from_message("message too large"), RPCError::MessageTooLarge);
    assert_eq!(RPCError::from_message("unknown message type"), RPCError::UnknownMessageType);
    assert_eq!(RPCError::from_message("unknown device"), RPCError::UnknownDevice);
    assert_eq!(RPCError::from_message("unknown method"), RPCError::UnknownMethod);
    assert_eq!(
        RPCError::from_message("invalid parameter signature"),
        RPCError::InvalidParameterSignature
    );
}

#[test]
fn any_other_message_is_kept_as_it_is() {
    assert_eq!(RPCError::from_message("bogus"), RPCError::Other("bogus".to_string()));
    assert_eq!(RPCError::from_message(""), RPCError::Other(String::new()));
    assert_eq!(
        RPCError::from_message("Unknown device"),
        RPCError::Other("Unknown device".to_string())
    );
    assert_eq!(
        RPCError::from_message("unknown device "),
        RPCError::Other("unknown device ".to_string())
    );
}

#[test]
fn failures_report_their_messages() {
    assert_eq!(RPCError::MessageTooLarge.as_ref(), "message too large");
    assert_eq!(RPCError::UnknownMessageType.as_ref(), "unknown message type");
    assert_eq!(RPCError::UnknownDevice.as_ref(), "unknown device");
    assert_eq!(RPCError::UnknownMethod.as_ref(), "unknown method");
    assert_eq!(RPCError::InvalidParameterSignature.as_ref(), "invalid parameter signature");
    assert_eq!(RPCError::Other("x y".to_string()).as_ref(), "x y");
    assert_eq!(RPCError::UnknownMethod.to_string(), "\"unknown method\"");
    assert_eq!(RPCError::Other("x".to_string()).to_string(), "\"x\"");
}

#[test]
fn every_failure_is_read_back_from_its_message() {
    let all = [
        RPCError::MessageTooLarge,
        RPCError::UnknownMessageType,
        RPCError::UnknownDevice,
        RPCError::UnknownMethod,
        RPCError::InvalidParameterSignature,
        RPCError::Other("something else".to_string()),
    ];
    for e in all {
        assert_eq!(RPCError::from_message(e.as_ref()), e);
    }
}

#[test]
fn a_result_without_data_is_a_success_with_null() {
    assert_eq!(
        read("{\"type\":\"result\"}"),
        Ok(Response { msg_type: MessageType::Result, data: Json::Null })
    );
}

#[test]
fn a_result_with_data_carries_it() {
    assert_eq!(
        read("{\"type\":\"result\",\"data\":15}"),
        Ok(Response { msg_type: MessageType::Result, data: Json::Unsigned(15) })
    );
    assert_eq!(
        read("{\"data\":null,\"type\":\"result\"}"),
        Ok(Response { msg_type: MessageType::Result, data: Json::Null })
    );
}

#[test]
fn an_error_response_fails_with_what_it_reports() {
    assert_eq!(
        read("{\"type\":\"error\",\"data\":\"unknown device\"}"),
        Err(BusError::Rpc(RPCError::UnknownDevice))
    );
    assert_eq!(
        read("{\"type\":\"error\",\"data\":\"bogus\"}"),
        Err(BusError::Rpc(RPCError::Other("bogus".to_string())))
    );
}

#[test]
fn an_error_response_is_read_the_same_with_its_members_in_either_order() {
    assert_eq!(
        read("{\"data\":\"unknown method\",\"type\":\"error\"}"),
        Err(BusError::Rpc(RPCError::UnknownMethod))
    );
}

#[test]
fn an_error_response_needs_a_string() {
    assert_eq!(read("{\"type\":\"error\"}"), Err(BusError::Protocol));
    assert_eq!(read("{\"type\":\"error\",\"data\":5}"), Err(BusError::Protocol));
    assert_eq!(read("{\"type\":\"error\",\"data\":null}"), Err(BusError::Protocol));
}

#[test]
fn list_and_methods_need_data() {
    assert_eq!(read("{\"type\":\"list\"}"), Err(BusError::Protocol));
    assert_eq!(read("{\"type\":\"methods\"}"), Err(BusError::Protocol));
    assert_eq!(
        read("{\"type\":\"list\",\"data\":[]}"),
        Ok(Response { msg_type: MessageType::List, data: Json::Array(vec![]) })
    );
    assert_eq!(
        read("{\"type\":\"methods\",\"data\":[\"a\"]}"),
        Ok(Response {
            msg_type: MessageType::Methods,
            data: Json::Array(vec![Json::Text("a".to_string())])
        })
    );
}

#[test]
fn a_response_needs_a_type_that_responses_carry() {
    assert_eq!(read("{\"data\":1}"), Err(BusError::Protocol));
    assert_eq!(read("{\"type\":7,\"data\":1}"), Err(BusError::Protocol));
    assert_eq!(read("{\"type\":\"bogus\",\"data\":1}"), Err(BusError::Protocol));
    assert_eq!(read("{\"type\":\"invoke\",\"data\":1}"), Err(BusError::Protocol));
    assert_eq!(read("{}"), Err(BusError::Protocol));
}

#[test]
fn a_response_has_to_be_an_object() {
    assert_eq!(read("[]"), Err(BusError::Protocol));
    assert_eq!(read("\"result\""), Err(BusError::Protocol));
    assert_eq!(read("null"), Err(BusError::Protocol));
    assert_eq!(interpret(Json::Unsigned(1)), Err(BusError::Protocol));
}

#[test]
fn members_that_are_not_part_of_the_envelope_are_passed_over() {
    assert_eq!(
        read("{\"id\":3,\"type\":\"result\",\"data\":true,\"extra\":[1]}"),
        Ok(Response { msg_type: MessageType::Result, data: Json::Bool(true) })
    );
}

#[test]
fn the_last_of_two_members_with_one_name_counts() {
    let doc = Json::Object(vec![
        ("type".to_string(), Json::Text("list".to_string())),
        ("data".to_string(), Json::Unsigned(1)),
        ("type".to_string(), Json::Text("result".to_string())),
        ("data".to_string(), Json::Unsigned(2)),
    ]);
    assert_eq!(
        interpret(doc),
        Ok(Response { msg_type: MessageType::Result, data: Json::Unsigned(2) })
    );
}
