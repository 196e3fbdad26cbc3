//! Logic of the desktop app: what it stores, how it words states and
//! errors, and the choices its tray menu offers.
pub mod controls;
pub mod eq;
pub mod setup;
pub mod storage;
pub mod tray;
