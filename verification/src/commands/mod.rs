//! Typed earbud commands: how each one is encoded for the wire and how its
//! response payload is decoded.
use crate::error::Error;
use vstd::prelude::*;

pub mod anc;
pub mod controllers;
pub mod eq;
pub mod features;
pub mod find;

pub use anc::{AncCommand, AncResponse};
pub use controllers::{
    BatteryController, DeviceInfoController, FactoryResetController, FindDeviceController,
    KeySettingsController, WorkModeController,
};
pub use eq::{EqCommand, EqPreset, EqResponse, EqState};
pub use features::{FeatureCommand, FeatureResponse};
pub use find::FindDeviceCommand;

verus! {

/// A typed BLE command that knows how to encode itself for the wire and
/// decode its own response.
pub trait BleCommand: Send {
    /// The value returned when this command succeeds.
    type Response: Send + 'static;

    /// BLE command ID byte.
    fn cmd_id(&self) -> u8;

    /// Encode the command into a payload byte vector.
    fn encode(&self) -> Vec<u8>;

    /// Decode a response payload into the typed response.
    fn decode(&self, payload: &[u8]) -> Result<Self::Response, Error>;
}

/// A command that uses the handshake mechanism (TLV query/response).
pub trait BleQuery: BleCommand {
    /// The info IDs to query in the handshake request.
    fn query_info_ids(&self) -> Vec<u8>;
}

/// A command given by its ID and payload, sent as it is; no reply is
/// decoded.
#[derive(Debug)]
pub struct RawCommand {
    pub cmd_id: u8,
    pub payload: Vec<u8>,
}

impl BleCommand for RawCommand {
    type Response = ();

    fn cmd_id(&self) -> (r: u8)
        ensures
            r == self.cmd_id,
    {
        self.cmd_id
    }

    fn encode(&self) -> (r: Vec<u8>)
        ensures
            r@ == self.payload@,
    {
        self.payload.clone()
    }

    fn decode(&self, _payload: &[u8]) -> (r: Result<(), Error>)
        ensures
            r is Ok,
    {
        Ok(())
    }
}

} // verus!
