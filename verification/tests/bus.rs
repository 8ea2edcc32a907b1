use miku_rpc::bus::{BusAction, BusEvent, BusState, DeviceBus};
use miku_rpc::call::Call;
use miku_rpc::error::BusError;
use miku_rpc::json::Json;
use miku_rpc::response::{MessageType, RPCError, Response};
use miku_rpc::types::DeviceData;
use miku_rpc::wrappers::{RPCDevice, RedstoneDevice, SoundCard};

fn directory() -> Vec<DeviceData> {
    vec![
        DeviceData {
            device_id: "a".to_string(),
            type_names: vec!["x".to_string(), "y".to_string()],
        },
        DeviceData { device_id: "b".to_string(), type_names: vec!["y".to_string()] },
    ]
}

#[test]
fn find_returns_the_first_entry_that_offers_the_kind() {
    assert_eq!(DeviceBus::find(&directory(), "y"), Some("a".to_string()));
    assert_eq!(DeviceBus::find(&directory(), "x"), Some("a".to_string()));
}

#[test]
fn find_returns_none_when_no_entry_offers_the_kind() {
    assert_eq!(DeviceBus::find(&directory(), "z"), None);
    assert_eq!(DeviceBus::find(&vec![], "y"), None);
    assert_eq!(DeviceBus::find(&directory(), ""), None);
}

#[test]
fn find_goes_by_the_order_of_the_directory() {
    let mut reversed = directory();
    reversed.reverse();
    assert_eq!(DeviceBus::find(&reversed, "y"), Some("b".to_string()));
    assert_eq!(DeviceBus::find(&reversed, "x"), Some("a".to_string()));
}

#[test]
fn find_matches_the_whole_name() {
    assert_eq!(DeviceBus::find(&directory(), "yy"), None);
    assert_eq!(DeviceBus::find(&directory(), "Y"), None);
}

#[test]
fn wrap_finds_the_device_of_a_type() {
    let devices = vec![
        DeviceData { device_id: "s1".to_string(), type_names: vec!["sound".to_string()] },
        DeviceData {
            device_id: "r1".to_string(),
            type_names: vec!["block".to_string(), "redstone".to_string()],
        },
        DeviceData { device_id: "r2".to_string(), type_names: vec!["redstone".to_string()] },
    ];
    assert_eq!(DeviceBus::wrap::<RedstoneDevice>(&devices), Some(RedstoneDevice("r1".to_string())));
    assert_eq!(DeviceBus::wrap::<SoundCard>(&devices).unwrap().id(), "s1");
    assert_eq!(DeviceBus::wrap::<RedstoneDevice>(&devices[..1].to_vec()), None);
}

#[test]
fn a_new_bus_is_idle() {
    let bus = DeviceBus::new();
    assert!(bus.is_idle());
    assert_eq!(bus.state(), BusState::Idle);
    assert!(!bus.accepts(&BusEvent::Failed));
    assert!(!bus.accepts(&BusEvent::Readable(false)));
}

#[test]
fn a_call_goes_from_draining_over_sending_to_awaiting_and_back() {
    let mut bus = DeviceBus::new();
    assert_eq!(bus.call(Call::list()), Ok(BusAction::Poll));
    assert_eq!(bus.state(), BusState::Draining);

    assert_eq!(bus.step(BusEvent::Readable(false)), BusAction::Write(b"\0{\"type\":\"list\"}\0".to_vec()));
    assert_eq!(bus.state(), BusState::Sending);

    assert_eq!(bus.step(BusEvent::Written), BusAction::Receive);
    assert_eq!(bus.state(), BusState::AwaitingResponse);

    let response = b"\0{\"type\":\"list\",\"data\":[]}\0".to_vec();
    assert_eq!(
        bus.step(BusEvent::Chunk(response)),
        BusAction::Done(Ok(Response { msg_type: MessageType::List, data: Json::Array(vec![]) }))
    );
    assert!(bus.is_idle());
}

#[test]
fn draining_throws_away_what_is_pending_and_ends_when_nothing_is() {
    let mut bus = DeviceBus::new();
    assert_eq!(bus.call(Call::list()), Ok(BusAction::Poll));
    for _ in 0..3 {
        assert_eq!(bus.step(BusEvent::Readable(true)), BusAction::Discard);
        assert_eq!(bus.state(), BusState::Draining);
        assert_eq!(bus.step(BusEvent::Discarded(7)), BusAction::Poll);
        assert_eq!(bus.state(), BusState::Draining);
    }
    assert!(matches!(bus.step(BusEvent::Readable(false)), BusAction::Write(_)));
    assert_eq!(bus.state(), BusState::Sending);
}

#[test]
fn draining_ends_when_a_read_returns_nothing() {
    let mut bus = DeviceBus::new();
    assert_eq!(bus.call(Call::list()), Ok(BusAction::Poll));
    assert_eq!(bus.step(BusEvent::Readable(true)), BusAction::Discard);
    assert_eq!(bus.step(BusEvent::Discarded(12)), BusAction::Poll);
    assert_eq!(bus.step(BusEvent::Readable(true)), BusAction::Discard);
    assert_eq!(bus.step(BusEvent::Discarded(0)), BusAction::Done(Err(BusError::Io)));
    assert!(bus.is_idle());
    assert!(!bus.accepts(&BusEvent::Readable(true)));
    assert_eq!(bus.call(Call::list()), Ok(BusAction::Poll));
}

#[test]
fn a_response_in_two_chunks_is_the_response_in_one() {
    let mut one = DeviceBus::new();
    one.call(Call::list()).unwrap();
    one.step(BusEvent::Readable(false));
    one.step(BusEvent::Written);
    let whole = one.step(BusEvent::Chunk(b"\0{\"type\":\"result\",\"data\":[1,2]}\0".to_vec()));

    let mut two = DeviceBus::new();
    two.call(Call::list()).unwrap();
    two.step(BusEvent::Readable(false));
    two.step(BusEvent::Written);
    assert_eq!(two.step(BusEvent::Chunk(b"\0{\"type\":\"res".to_vec())), BusAction::Receive);
    assert_eq!(two.state(), BusState::AwaitingResponse);
    let split = two.step(BusEvent::Chunk(b"ult\",\"data\":[1,2]}\0".to_vec()));

    assert_eq!(
        whole,
        BusAction::Done(Ok(Response {
            msg_type: MessageType::Result,
            data: Json::Array(vec![Json::Unsigned(1), Json::Unsigned(2)])
        }))
    );
    assert_eq!(split, whole);
    assert!(one.is_idle());
    assert!(two.is_idle());
}

#[test]
fn a_call_that_is_too_large_fails_before_anything_is_written() {
    let mut bus = DeviceBus::new();
    let call = Call::methods(&"x".repeat(5000));
    assert_eq!(bus.call(call), Err(BusError::Rpc(RPCError::MessageTooLarge)));
    assert!(bus.is_idle());
    assert_eq!(bus.call(Call::list()), Ok(BusAction::Poll));
}

#[test]
fn a_failure_of_the_device_ends_the_call_in_every_state() {
    let mut bus = DeviceBus::new();
    bus.call(Call::list()).unwrap();
    assert_eq!(bus.step(BusEvent::Failed), BusAction::Done(Err(BusError::Io)));
    assert!(bus.is_idle());

    bus.call(Call::list()).unwrap();
    bus.step(BusEvent::Readable(false));
    assert_eq!(bus.step(BusEvent::Failed), BusAction::Done(Err(BusError::Io)));
    assert!(bus.is_idle());

    bus.call(Call::list()).unwrap();
    bus.step(BusEvent::Readable(false));
    bus.step(BusEvent::Written);
    bus.step(BusEvent::Chunk(b"\0{\"ty".to_vec()));
    assert_eq!(bus.step(BusEvent::Failed), BusAction::Done(Err(BusError::Io)));
    assert!(bus.is_idle());
}

#[test]
fn what_was_read_of_a_failed_call_does_not_leak_into_the_next() {
    let mut bus = DeviceBus::new();
    bus.call(Call::list()).unwrap();
    bus.step(BusEvent::Readable(false));
    bus.step(BusEvent::Written);
    bus.step(BusEvent::Chunk(b"\0{\"type\":\"error\",\"da".to_vec()));
    bus.step(BusEvent::Failed);

    bus.call(Call::list()).unwrap();
    bus.step(BusEvent::Readable(false));
    bus.step(BusEvent::Written);
    assert_eq!(
        bus.step(BusEvent::Chunk(b"\0{\"type\":\"result\"}\0".to_vec())),
        BusAction::Done(Ok(Response { msg_type: MessageType::Result, data: Json::Null }))
    );
}

#[test]
fn a_broken_frame_ends_the_call_with_a_framing_failure() {
    let mut bus = DeviceBus::new();
    bus.call(Call::list()).unwrap();
    bus.step(BusEvent::Readable(false));
    bus.step(BusEvent::Written);
    assert_eq!(
        bus.step(BusEvent::Chunk(b"garbage\0".to_vec())),
        BusAction::Done(Err(BusError::Framing))
    );
    assert!(bus.is_idle());

    bus.call(Call::list()).unwrap();
    bus.step(BusEvent::Readable(false));
    bus.step(BusEvent::Written);
    bus.step(BusEvent::Chunk(b"\0{\"type\"".to_vec()));
    assert_eq!(bus.step(BusEvent::Chunk(vec![])), BusAction::Done(Err(BusError::Framing)));
    assert!(bus.is_idle());
}

#[test]
fn a_frame_that_is_not_utf8_ends_the_call_with_a_framing_failure() {
    let mut bus = DeviceBus::new();
    bus.call(Call::list()).unwrap();
    bus.step(BusEvent::Readable(false));
    bus.step(BusEvent::Written);
    assert_eq!(
        bus.step(BusEvent::Chunk(vec![0, b'"', 0xff, b'"', 0])),
        BusAction::Done(Err(BusError::Framing))
    );
}

#[test]
fn a_frame_that_is_not_a_response_ends_the_call_with_a_protocol_failure() {
    let mut bus = DeviceBus::new();
    bus.call(Call::list()).unwrap();
    bus.step(BusEvent::Readable(false));
    bus.step(BusEvent::Written);
    assert_eq!(
        bus.step(BusEvent::Chunk(b"\0{\"type\":\0".to_vec())),
        BusAction::Done(Err(BusError::Protocol))
    );
    assert!(bus.is_idle());
}

#[test]
fn a_reported_failure_ends_the_call_with_that_failure() {
    let mut bus = DeviceBus::new();
    bus.call(Call::invoke("nobody", "m", vec![])).unwrap();
    bus.step(BusEvent::Readable(false));
    bus.step(BusEvent::Written);
    assert_eq!(
        bus.step(BusEvent::Chunk(b"\0{\"type\":\"error\",\"data\":\"unknown device\"}\0".to_vec())),
        BusAction::Done(Err(BusError::Rpc(RPCError::UnknownDevice)))
    );
}

#[test]
fn each_state_accepts_only_what_the_driver_was_asked_for() {
    let mut bus = DeviceBus::new();
    bus.call(Call::list()).unwrap();
    assert!(bus.accepts(&BusEvent::Readable(true)));
    assert!(bus.accepts(&BusEvent::Readable(false)));
    assert!(bus.accepts(&BusEvent::Discarded(0)));
    assert!(bus.accepts(&BusEvent::Failed));
    assert!(!bus.accepts(&BusEvent::Written));
    assert!(!bus.accepts(&BusEvent::Chunk(vec![0])));

    bus.step(BusEvent::Readable(false));
    assert!(bus.accepts(&BusEvent::Written));
    assert!(bus.accepts(&BusEvent::Failed));
    assert!(!bus.accepts(&BusEvent::Readable(true)));
    assert!(!bus.accepts(&BusEvent::Discarded(0)));
    assert!(!bus.accepts(&BusEvent::Chunk(vec![0])));

    bus.step(BusEvent::Written);
    assert!(bus.accepts(&BusEvent::Chunk(vec![])));
    assert!(bus.accepts(&BusEvent::Failed));
    assert!(!bus.accepts(&BusEvent::Written));
    assert!(!bus.accepts(&BusEvent::Readable(false)));
    assert!(!bus.accepts(&BusEvent::Discarded(0)));
}

#[test]
fn a_frame_put_together_by_the_caller_is_written_as_it_is() {
    let mut bus = DeviceBus::new();
    assert_eq!(bus.call_preserialized(b"\0{\"type\":\"list\"}\0"), BusAction::Poll);
    assert_eq!(bus.state(), BusState::Draining);
    assert_eq!(
        bus.step(BusEvent::Readable(false)),
        BusAction::Write(b"\0{\"type\":\"list\"}\0".to_vec())
    );
}
