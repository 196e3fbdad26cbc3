//! Verified protocol logic for Oraimo SpaceBuds earbuds.
use vstd::prelude::*;

pub mod beacon;
pub mod cli;
pub mod commands;
pub mod connection;
pub mod device;
pub mod device_profile;
pub mod error;
pub mod ipc;
pub mod log;
pub mod protocol;
pub mod text;
pub mod ui;

pub use device::{ConnectionConfig, SpaceBuds, SpaceBudsBuilder};
pub use error::{Error, Result};

verus! {

} // verus!
