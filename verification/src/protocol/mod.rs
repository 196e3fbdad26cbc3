//! The earbud wire protocol: constants, value types, packets and TLV
//! payloads.
use vstd::prelude::*;

pub mod constants;
pub mod gestures;
pub mod packet;
pub mod tlv;
pub mod types;

pub use gestures::{GestureFunction, TouchGesture, TouchSensitivity};
pub use packet::{Packet, PacketView};
pub use tlv::TlvParser;
pub use types::{AncMode, BatteryLevel, ConnectionState, MacAddress, MessageType};

verus! {

} // verus!
