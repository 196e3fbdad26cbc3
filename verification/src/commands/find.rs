//! "Find my earbuds": makes the earbuds beep.
use super::BleCommand;
use crate::error::Error;
use crate::protocol::constants::CMD_FIND_DEVICE;
use vstd::prelude::*;

verus! {

/// Starts (`enable`) or stops the beep on the earbuds.
#[derive(Debug, Clone, Copy, PartialEq, Eq, Structural)]
pub struct FindDeviceCommand {
    pub enable: bool,
}

impl BleCommand for FindDeviceCommand {
    type Response = ();

    fn cmd_id(&self) -> (r: u8)
        ensures
            r == CMD_FIND_DEVICE,
    {
        CMD_FIND_DEVICE
    }

    fn encode(&self) -> (r: Vec<u8>)
        ensures
            r@ == seq![if self.enable { 1u8 } else { 0u8 }],
    {
        let r = vec![
            if self.enable {
                1
            } else {
                0
            },
        ];
        assert(r@ =~= seq![if self.enable { 1u8 } else { 0u8 }]);
        r
    }

    fn decode(&self, _payload: &[u8]) -> (r: Result<(), Error>)
        ensures
            r is Ok,
    {
        Ok(())
    }
}

} // verus!
