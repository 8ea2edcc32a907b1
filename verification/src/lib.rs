//! Transport core for remote procedure calls to virtual hardware devices
//! over a raw serial link: JSON envelopes framed by NUL sentinels, the
//! drain / send / await protocol, and the device directory.

pub mod bus;
pub mod call;
pub mod codec;
pub mod convert;
pub mod error;
pub mod frame;
pub mod json;
pub mod response;
pub mod text;
pub mod types;
pub mod wrappers;

pub use bus::{BusAction, BusEvent, BusState, DeviceBus};
pub use call::{Call, InvokeCall, Request};
pub use error::BusError;
pub use json::Json;
pub use response::{MessageType, RPCError, RPCResult, Response};
