//! The values that devices commonly answer with.

use crate::convert::FromJson;
use crate::json::{Json, JsonValue};
use crate::response::Response;
use crate::text::str_eq;
use vstd::prelude::*;

verus! {

/// One entry of the device directory: a device and the kinds it offers.
#[derive(Debug, Clone, PartialEq, Eq)]
pub struct DeviceData {
    pub device_id: String,
    pub type_names: Vec<String>,
}

/// The response to a `list` call.
pub type DeviceList = Response<Vec<DeviceData>>;

impl DeviceData {
    /// Whether the device offers the kind `kind`.
    pub open spec fn offers(&self, kind: Seq<char>) -> bool {
        exists|i: int| 0 <= i < self.type_names.len() && (#[trigger] self.type_names[i])@ == kind
    }

    /// Whether the device offers the kind `kind`.
    pub fn has_type(&self, kind: &str) -> (found: bool)
        ensures
            found == self.offers(kind@),
    {
        let mut i: usize = 0;
        while i < self.type_names.len()
            invariant
                i <= self.type_names.len(),
                forall|j: int| 0 <= j < i ==> (#[trigger] self.type_names[j])@ != kind@,
            decreases self.type_names.len() - i,
        {
            if str_eq(self.type_names[i].as_str(), kind) {
                return true;
            }
            i = i + 1;
        }
        false
    }
}

/// An object with a string `deviceId` and a list of strings `typeNames`;
/// other members are passed over.
impl FromJson for DeviceData {
    open spec fn readable(doc: JsonValue) -> bool {
        doc matches JsonValue::Object(members) && members.contains_key("deviceId"@)
            && <String as FromJson>::readable(members["deviceId"@]) && members.contains_key(
            "typeNames"@,
        ) && <Vec<String> as FromJson>::readable(members["typeNames"@])
    }

    open spec fn decodes(doc: JsonValue, value: DeviceData) -> bool {
        doc matches JsonValue::Object(members) && <String as FromJson>::decodes(
            members["deviceId"@],
            value.device_id,
        ) && <Vec<String> as FromJson>::decodes(members["typeNames"@], value.type_names)
    }

    fn from_json(doc: &Json) -> (r: Option<DeviceData>) {
        let device_id = match doc.get("deviceId") {
            Some(member) => <String as FromJson>::from_json(member),
            None => None,
        };
        let type_names = match doc.get("typeNames") {
            Some(member) => <Vec<String> as FromJson>::from_json(member),
            None => None,
        };
        match (device_id, type_names) {
            (Some(device_id), Some(type_names)) => Some(DeviceData { device_id, type_names }),
            _ => None,
        }
    }
}

/// What the file card says of the file it is about to hand over.
#[derive(Debug, Clone, PartialEq, Eq)]
pub struct ImportFileInfo {
    pub name: String,
    pub size: u64,
}

/// An object with a string `name` and a non-negative integer `size`; other
/// members are passed over.
impl FromJson for ImportFileInfo {
    open spec fn readable(doc: JsonValue) -> bool {
        doc matches JsonValue::Object(members) && members.contains_key("name"@)
            && <String as FromJson>::readable(members["name"@]) && members.contains_key("size"@)
            && <u64 as FromJson>::readable(members["size"@])
    }

    open spec fn decodes(doc: JsonValue, value: ImportFileInfo) -> bool {
        doc matches JsonValue::Object(members) && <String as FromJson>::decodes(
            members["name"@],
            value.name,
        ) && <u64 as FromJson>::decodes(members["size"@], value.size)
    }

    fn from_json(doc: &Json) -> (r: Option<ImportFileInfo>) {
        let name = match doc.get("name") {
            Some(member) => <String as FromJson>::from_json(member),
            None => None,
        };
        let size = match doc.get("size") {
            Some(member) => <u64 as FromJson>::from_json(member),
            None => None,
        };
        match (name, size) {
            (Some(name), Some(size)) => Some(ImportFileInfo { name, size }),
            _ => None,
        }
    }
}

/// How an action that a robot was asked for has ended, if it has.
#[derive(Debug, Clone, Copy, PartialEq, Eq, Structural)]
pub enum RobotActionResult {
    Incomplete,
    Success,
    Failure,
}

impl RobotActionResult {
    /// The result that goes by `name`, if any does.
    pub open spec fn named(name: Seq<char>) -> Option<RobotActionResult> {
        if name == "INCOMPLETE"@ {
            Some(RobotActionResult::Incomplete)
        } else if name == "SUCCESS"@ {
            Some(RobotActionResult::Success)
        } else if name == "FAILURE"@ {
            Some(RobotActionResult::Failure)
        } else {
            None
        }
    }

    /// Reads a result from its name.
    pub fn from_name(name: &str) -> (r: Option<RobotActionResult>)
        ensures
            r == RobotActionResult::named(name@),
    {
        if str_eq(name, "INCOMPLETE") {
            Some(RobotActionResult::Incomplete)
        } else if str_eq(name, "SUCCESS") {
            Some(RobotActionResult::Success)
        } else if str_eq(name, "FAILURE") {
            Some(RobotActionResult::Failure)
        } else {
            None
        }
    }

    /// What to make of a result while waiting for an action: `None` while
    /// the action is not complete, and whether it succeeded once it is.
    pub fn outcome(self) -> (done: Option<bool>)
        ensures
            done == match self {
                RobotActionResult::Incomplete => None::<bool>,
                RobotActionResult::Success => Some(true),
                RobotActionResult::Failure => Some(false),
            },
    {
        match self {
            RobotActionResult::Incomplete => None,
            RobotActionResult::Success => Some(true),
            RobotActionResult::Failure => Some(false),
        }
    }
}

/// A string that names a result.
impl FromJson for RobotActionResult {
    open spec fn readable(doc: JsonValue) -> bool {
        doc matches JsonValue::Text(name) && RobotActionResult::named(name) is Some
    }

    open spec fn decodes(doc: JsonValue, value: RobotActionResult) -> bool {
        doc matches JsonValue::Text(name) && RobotActionResult::named(name) == Some(value)
    }

    fn from_json(doc: &Json) -> (r: Option<RobotActionResult>) {
        match doc.as_str() {
            Some(name) => RobotActionResult::from_name(name),
            None => None,
        }
    }
}

/// A direction in which a robot moves.
#[derive(Debug, Clone, Copy, PartialEq, Eq, Structural)]
pub enum MoveDirection {
    Forward,
    Backward,
    Upward,
    Downward,
    Left,
    Right,
}

impl MoveDirection {
    /// The name this direction goes by on the wire.
    pub open spec fn name(self) -> Seq<char> {
        match self {
            MoveDirection::Forward => "forward"@,
            MoveDirection::Backward => "backward"@,
            MoveDirection::Upward => "upward"@,
            MoveDirection::Downward => "downward"@,
            MoveDirection::Left => "left"@,
            MoveDirection::Right => "right"@,
        }
    }

    pub fn as_ref(&self) -> (name: &'static str)
        ensures
            name@ == self.name(),
    {
        match self {
            MoveDirection::Forward => "forward",
            MoveDirection::Backward => "backward",
            MoveDirection::Upward => "upward",
            MoveDirection::Downward => "downward",
            MoveDirection::Left => "left",
            MoveDirection::Right => "right",
        }
    }

    /// The JSON string that holds this direction's name.
    pub fn to_json(&self) -> (doc: Json)
        ensures
            doc@ == JsonValue::Text(self.name()),
    {
        Json::text(self.as_ref())
    }
}

/// A direction in which a robot turns.
#[derive(Debug, Clone, Copy, PartialEq, Eq, Structural)]
pub enum RotationDirection {
    Left,
    Right,
}

impl RotationDirection {
    /// The name this direction goes by on the wire.
    pub open spec fn name(self) -> Seq<char> {
        match self {
            RotationDirection::Left => "left"@,
            RotationDirection::Right => "right"@,
        }
    }

    pub fn as_ref(&self) -> (name: &'static str)
        ensures
            name@ == self.name(),
    {
        match self {
            RotationDirection::Left => "left",
            RotationDirection::Right => "right",
        }
    }

    /// The JSON string that holds this direction's name.
    pub fn to_json(&self) -> (doc: Json)
        ensures
            doc@ == JsonValue::Text(self.name()),
    {
        Json::text(self.as_ref())
    }
}

} // verus!
