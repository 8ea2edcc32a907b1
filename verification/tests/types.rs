use miku_rpc::convert::FromJson;
use miku_rpc::error::BusError;
use miku_rpc::json::Json;
use miku_rpc::response::{MessageType, Response};
use miku_rpc::types::{DeviceData, ImportFileInfo, MoveDirection, RobotActionResult, RotationDirection};

fn doc(text: &str) -> Json {
    Json::parse(text).unwrap()
}

#[test]
fn a_directory_entry_is_read_from_its_object() {
    assert_eq!(
        DeviceData::from_json(&doc("{\"deviceId\":\"a\",\"typeNames\":[\"x\",\"y\"]}")),
        Some(DeviceData {
            device_id: "a".to_string(),
            type_names: vec!["x".to_string(), "y".to_string()]
        })
    );
    assert_eq!(
        DeviceData::from_json(&doc("{\"typeNames\":[],\"extra\":1,\"deviceId\":\"\"}")),
        Some(DeviceData { device_id: String::new(), type_names: vec![] })
    );
}

#[test]
fn a_directory_entry_needs_both_members() {
    assert_eq!(DeviceData::from_json(&doc("{\"deviceId\":\"a\"}")), None);
    assert_eq!(DeviceData::from_json(&doc("{\"typeNames\":[\"x\"]}")), None);
    assert_eq!(DeviceData::from_json(&doc("{\"deviceId\":1,\"typeNames\":[\"x\"]}")), None);
    assert_eq!(DeviceData::from_json(&doc("{\"deviceId\":\"a\",\"typeNames\":[1]}")), None);
    assert_eq!(DeviceData::from_json(&doc("{\"deviceId\":\"a\",\"typeNames\":\"x\"}")), None);
    assert_eq!(DeviceData::from_json(&doc("[]")), None);
    assert_eq!(DeviceData::from_json(&doc("null")), None);
}

#[test]
fn a_directory_is_read_from_a_list_response() {
    let response = Response {
        msg_type: MessageType::List,
        data: doc("[{\"deviceId\":\"a\",\"typeNames\":[\"x\",\"y\"]},{\"deviceId\":\"b\",\"typeNames\":[\"y\"]}]"),
    };
    let list = response.decode::<Vec<DeviceData>>().unwrap();
    assert_eq!(list.msg_type, MessageType::List);
    assert_eq!(
        list.data,
        vec![
            DeviceData {
                device_id: "a".to_string(),
                type_names: vec!["x".to_string(), "y".to_string()]
            },
            DeviceData { device_id: "b".to_string(), type_names: vec!["y".to_string()] },
        ]
    );
}

#[test]
fn a_payload_of_another_shape_is_a_protocol_failure() {
    let response = Response { msg_type: MessageType::Result, data: doc("\"fifteen\"") };
    assert_eq!(response.decode::<i32>(), Err(BusError::Protocol));
    let response = Response { msg_type: MessageType::Result, data: Json::Null };
    assert_eq!(response.decode::<i32>(), Err(BusError::Protocol));
    assert_eq!(
        response.decode::<Option<i32>>(),
        Ok(Response { msg_type: MessageType::Result, data: None })
    );
    assert_eq!(
        response.decode::<Option<()>>(),
        Ok(Response { msg_type: MessageType::Result, data: None })
    );
}

#[test]
fn file_info_is_read_from_its_object() {
    assert_eq!(
        ImportFileInfo::from_json(&doc("{\"name\":\"a.txt\",\"size\":12}")),
        Some(ImportFileInfo { name: "a.txt".to_string(), size: 12 })
    );
    assert_eq!(ImportFileInfo::from_json(&doc("{\"name\":\"a.txt\",\"size\":-1}")), None);
    assert_eq!(ImportFileInfo::from_json(&doc("{\"name\":\"a.txt\"}")), None);
    assert_eq!(ImportFileInfo::from_json(&doc("{\"size\":1}")), None);
    assert_eq!(<Option<ImportFileInfo>>::from_json(&doc("null")), Some(None));
}

#[test]
fn action_results_are_read_from_their_names() {
    assert_eq!(RobotActionResult::from_name("INCOMPLETE"), Some(RobotActionResult::Incomplete));
    assert_eq!(RobotActionResult::from_name("SUCCESS"), Some(RobotActionResult::Success));
    assert_eq!(RobotActionResult::from_name("FAILURE"), Some(RobotActionResult::Failure));
    assert_eq!(RobotActionResult::from_name("success"), None);
    assert_eq!(RobotActionResult::from_name(""), None);
    assert_eq!(
        RobotActionResult::from_json(&doc("\"SUCCESS\"")),
        Some(RobotActionResult::Success)
    );
    assert_eq!(RobotActionResult::from_json(&doc("\"DONE\"")), None);
    assert_eq!(RobotActionResult::from_json(&doc("1")), None);
}

#[test]
fn waiting_for_an_action_ends_with_success_or_failure() {
    assert_eq!(RobotActionResult::Incomplete.outcome(), None);
    assert_eq!(RobotActionResult::Success.outcome(), Some(true));
    assert_eq!(RobotActionResult::Failure.outcome(), Some(false));
}

#[test]
fn directions_go_by_their_wire_names() {
    assert_eq!(MoveDirection::Forward.as_ref(), "forward");
    assert_eq!(MoveDirection::Backward.as_ref(), "backward");
    assert_eq!(MoveDirection::Upward.as_ref(), "upward");
    assert_eq!(MoveDirection::Downward.as_ref(), "downward");
    assert_eq!(MoveDirection::Left.as_ref(), "left");
    assert_eq!(MoveDirection::Right.as_ref(), "right");
    assert_eq!(RotationDirection::Left.as_ref(), "left");
    assert_eq!(RotationDirection::Right.as_ref(), "right");
    assert_eq!(MoveDirection::Upward.to_json(), Json::Text("upward".to_string()));
    assert_eq!(RotationDirection::Right.to_json(), Json::Text("right".to_string()));
}

#[test]
fn integers_are_read_within_their_range() {
    assert_eq!(i32::from_json(&Json::Unsigned(0)), Some(0));
    assert_eq!(i32::from_json(&Json::Unsigned(2147483647)), Some(i32::MAX));
    assert_eq!(i32::from_json(&Json::Unsigned(2147483648)), None);
    assert_eq!(i32::from_json(&Json::Signed(-2147483648)), Some(i32::MIN));
    assert_eq!(i32::from_json(&Json::Signed(-2147483649)), None);
    assert_eq!(i32::from_json(&Json::Signed(7)), Some(7));
    assert_eq!(i32::from_json(&doc("-15")), Some(-15));
    assert_eq!(i32::from_json(&Json::Text("1".to_string())), None);

    assert_eq!(u64::from_json(&Json::Unsigned(u64::MAX)), Some(u64::MAX));
    assert_eq!(u64::from_json(&Json::Signed(-1)), None);
    assert_eq!(u64::from_json(&Json::Signed(3)), Some(3));

    assert_eq!(u8::from_json(&Json::Unsigned(255)), Some(255));
    assert_eq!(u8::from_json(&Json::Unsigned(256)), None);
    assert_eq!(u8::from_json(&Json::Signed(-1)), None);
}

#[test]
fn plain_values_are_read_from_their_documents() {
    assert_eq!(bool::from_json(&Json::Bool(true)), Some(true));
    assert_eq!(bool::from_json(&Json::Unsigned(1)), None);
    assert_eq!(String::from_json(&Json::Text("s".to_string())), Some("s".to_string()));
    assert_eq!(String::from_json(&Json::Null), None);
    assert_eq!(<()>::from_json(&Json::Null), Some(()));
    assert_eq!(<()>::from_json(&Json::Bool(false)), None);
    assert_eq!(<Option<bool>>::from_json(&Json::Null), Some(None));
    assert_eq!(<Option<bool>>::from_json(&Json::Bool(false)), Some(Some(false)));
    assert_eq!(<Option<bool>>::from_json(&Json::Unsigned(0)), None);
    assert_eq!(<Vec<u8>>::from_json(&doc("[0,1,255]")), Some(vec![0, 1, 255]));
    assert_eq!(<Vec<u8>>::from_json(&doc("[0,256]")), None);
    assert_eq!(<Vec<u8>>::from_json(&doc("[]")), Some(vec![]));
    assert_eq!(<Vec<String>>::from_json(&doc("[\"a\",\"b\"]")), Some(vec!["a".to_string(), "b".to_string()]));
    assert_eq!(<Vec<String>>::from_json(&doc("{\"a\":1}")), None);
    assert_eq!(Json::from_json(&doc("[1,{\"a\":null}]")), Some(doc("[1,{\"a\":null}]")));
}

#[test]
fn values_are_written_as_documents() {
    assert_eq!(Json::text("side"), Json::Text("side".to_string()));
    assert_eq!(Json::integer(0), Json::Unsigned(0));
    assert_eq!(Json::integer(15), Json::Unsigned(15));
    assert_eq!(Json::integer(i32::MAX), Json::Unsigned(2147483647));
    assert_eq!(Json::integer(-1), Json::Signed(-1));
    assert_eq!(Json::integer(i32::MIN), Json::Signed(-2147483648));
    assert_eq!(
        Json::bytes(&[0, 7, 255]),
        Json::Array(vec![Json::Unsigned(0), Json::Unsigned(7), Json::Unsigned(255)])
    );
    assert_eq!(Json::bytes(&[]), Json::Array(vec![]));
}

#[test]
fn a_copy_of_a_document_is_the_document() {
    let original = doc("{\"a\":[1,-2,\"x\",null,true,{\"b\":[]}],\"c\":{}}");
    assert_eq!(original.duplicate(), original);
    assert_eq!(Json::Null.duplicate(), Json::Null);
}

#[test]
fn the_parts_of_a_document_are_reached_by_name_and_kind() {
    let d = doc("{\"a\":[1,2],\"b\":\"t\"}");
    assert_eq!(d.get("a").unwrap().as_array().unwrap().len(), 2);
    assert_eq!(d.get("b").unwrap().as_str(), Some("t"));
    assert_eq!(d.get("a").unwrap().as_str(), None);
    assert_eq!(d.get("b").unwrap().as_array(), None);
    assert_eq!(Json::Null.get("a"), None);
    assert_eq!(d.into_member("b"), Some(Json::Text("t".to_string())));
    assert_eq!(doc("{\"a\":1}").into_member("b"), None);
    assert_eq!(doc("[1]").into_member("a"), None);
}
