//! The daemon's IPC vocabulary (commands, status records) and the decisions
//! the daemon takes on them: which device operation a command asks for, and
//! what each outcome is answered.
use crate::commands::eq::EqState;
use crate::error::Error;
use crate::protocol::types::{AncMode, BatteryLevel, ConnectionState};
use crate::text::{dec_nat, push_decimal_u64};
use std::collections::HashMap;
use vstd::prelude::*;
use vstd::string::*;

verus! {

/// Where the daemon listens.
pub const DEFAULT_SOCKET_PATH: &'static str = "/tmp/spacepods.sock";

// ── Service Commands ──

/// A request to the daemon.
#[derive(Debug, Clone)]
pub enum ServiceCommand {
    Ping,
    GetStatus,
    SetAncMode { mode: String },
    SetLevel { level: u8 },
    Scan { timeout_secs: u64 },
    Connect { address: String },
    SetEqPreset { preset: u8 },
    SetAdaptiveAnc { enabled: bool },
    SetDualDevice { enabled: bool },
    Subscribe,
    Unsubscribe,
    /// Disconnect from the current device.
    Disconnect,
    /// Send a raw BLE command by its command ID.
    Custom { command_id: u8, payload: Vec<u8> },
}

// ── Scanned Device ──

/// A device found by a scan.
#[derive(Debug, Clone)]
pub struct ScannedDevice {
    pub name: String,
    pub address: String,
    /// Product name from the beacon (e.g. "SpaceBuds Neo 2")
    pub product_name: Option<String>,
    /// Product ID from the beacon
    pub product_id: Option<u16>,
    /// Real Bluetooth MAC from the beacon (de-obfuscated)
    pub real_mac: Option<String>,
    /// Beacon version (1-4)
    pub beacon_version: Option<u8>,
    /// Battery levels from the beacon (V1 only)
    pub battery_left: Option<u8>,
    pub battery_right: Option<u8>,
    pub battery_case: Option<u8>,
    /// Whether the device is currently connected to another phone
    pub already_connected: bool,
    /// Signal strength in dBm (closer to 0 = stronger)
    pub rssi: Option<i16>,
}

impl ScannedDevice {
    /// A device found by a scan, named `Unknown` when it advertises no
    /// name.
    pub fn from_peripheral(local_name: Option<String>, address: String) -> (d: Self)
        ensures
            d.name@ == match local_name {
                Some(n) => n@,
                None => "Unknown"@,
            },
            d.address@ == address@,
            d.product_name is None,
            d.product_id is None,
            d.real_mac is None,
            d.beacon_version is None,
            d.battery_left is None,
            d.battery_right is None,
            d.battery_case is None,
            !d.already_connected,
            d.rssi is None,
    {
        let name = match local_name {
            Some(n) => n,
            None => String::from_str("Unknown"),
        };
        Self::new(name, address)
    }

    /// A device known only by its name and address.
    pub fn new(name: String, address: String) -> (d: Self)
        ensures
            d.name@ == name@,
            d.address@ == address@,
            d.product_name is None,
            d.product_id is None,
            d.real_mac is None,
            d.beacon_version is None,
            d.battery_left is None,
            d.battery_right is None,
            d.battery_case is None,
            !d.already_connected,
            d.rssi is None,
    {
        Self {
            name,
            address,
            product_name: None,
            product_id: None,
            real_mac: None,
            beacon_version: None,
            battery_left: None,
            battery_right: None,
            battery_case: None,
            already_connected: false,
            rssi: None,
        }
    }
}

// ── Device Status ──

/// Everything the daemon knows about the earbuds.
#[derive(Debug, Clone)]
pub struct DeviceStatus {
    pub connection: ConnectionInfo,
    pub anc: AncInfo,
    pub eq: Option<EqInfo>,
    pub battery: BatteryInfo,
    pub features: FeatureInfo,
    pub product_id: Option<u16>,
    /// Current key/gesture mappings: key_type -> function
    pub key_settings: Option<HashMap<u8, u8>>,
}

#[derive(Debug, Clone)]
pub struct ConnectionInfo {
    pub connected: bool,
    pub address: Option<String>,
    pub state: ConnectionState,
}

#[derive(Debug, Clone, Copy, PartialEq, Eq, Structural)]
pub struct AncInfo {
    pub mode: AncMode,
    pub level: u8,
    pub max_level: u8,
}

#[derive(Debug, Clone)]
pub struct EqInfo {
    pub mode: u8,
    pub name: String,
    pub description: String,
    pub gains: Vec<i8>,
}

#[derive(Debug, Clone, Copy, PartialEq, Eq, Structural)]
pub struct BatteryInfo {
    pub left: Option<u8>,
    pub right: Option<u8>,
    pub case: Option<u8>,
}

#[derive(Debug, Clone, Copy, PartialEq, Eq, Structural)]
pub struct FeatureInfo {
    pub adaptive_anc: Option<bool>,
    pub dual_device: Option<bool>,
}

impl EqInfo {
    /// The status record of an EQ state.
    pub fn from_state(eq: EqState) -> (info: Self)
        ensures
            info.mode == eq.mode,
            info.name@ == eq.name@,
            info.description@ == eq.description@,
            info.gains@ == eq.gains@,
    {
        Self { mode: eq.mode, name: eq.name, description: eq.description, gains: eq.gains }
    }
}

impl DeviceStatus {
    /// The status of a handle that has never connected: disconnected, ANC
    /// off at level 0 of 0, everything else unknown.
    pub fn default_disconnected() -> (s: Self)
        ensures
            !s.connection.connected,
            s.connection.address is None,
            s.connection.state == ConnectionState::Disconnected,
            s.anc == (AncInfo { mode: AncMode::Off, level: 0, max_level: 0 }),
            s.eq is None,
            s.battery == (BatteryInfo { left: None, right: None, case: None }),
            s.features == (FeatureInfo { adaptive_anc: None, dual_device: None }),
            s.product_id is None,
            s.key_settings is None,
    {
        Self {
            connection: ConnectionInfo {
                connected: false,
                address: None,
                state: ConnectionState::Disconnected,
            },
            anc: AncInfo { mode: AncMode::Off, level: 0, max_level: 0 },
            eq: None,
            battery: BatteryInfo { left: None, right: None, case: None },
            features: FeatureInfo { adaptive_anc: None, dual_device: None },
            product_id: None,
            key_settings: None,
        }
    }

    /// Records that the link is down.
    pub fn mark_disconnected(&mut self)
        ensures
            !final(self).connection.connected,
            final(self).connection.state == ConnectionState::Disconnected,
            final(self).connection.address == old(self).connection.address,
            final(self).anc == old(self).anc,
            final(self).eq == old(self).eq,
            final(self).battery == old(self).battery,
            final(self).features == old(self).features,
            final(self).product_id == old(self).product_id,
            final(self).key_settings == old(self).key_settings,
    {
        self.connection.connected = false;
        self.connection.state = ConnectionState::Disconnected;
    }

    /// Records fresh battery levels; nothing else changes.
    pub fn apply_battery(&mut self, battery: BatteryLevel)
        ensures
            final(self).battery == (BatteryInfo {
                left: battery.left,
                right: battery.right,
                case: battery.case,
            }),
            final(self).connection == old(self).connection,
            final(self).anc == old(self).anc,
            final(self).eq == old(self).eq,
            final(self).features == old(self).features,
            final(self).product_id == old(self).product_id,
            final(self).key_settings == old(self).key_settings,
    {
        self.battery.left = battery.left;
        self.battery.right = battery.right;
        self.battery.case = battery.case;
    }

    /// Records the ANC mode read back after a mode change.
    pub fn apply_anc_mode(&mut self, mode: AncMode)
        ensures
            final(self).anc == (AncInfo { mode: mode, ..old(self).anc }),
            final(self).connection == old(self).connection,
            final(self).eq == old(self).eq,
            final(self).battery == old(self).battery,
            final(self).features == old(self).features,
            final(self).product_id == old(self).product_id,
            final(self).key_settings == old(self).key_settings,
    {
        self.anc.mode = mode;
    }

    /// Records the level and maximum read back after a level change.
    pub fn apply_level(&mut self, level: u8, max_level: u8)
        ensures
            final(self).anc == (AncInfo { mode: old(self).anc.mode, level: level, max_level: max_level }),
            final(self).connection == old(self).connection,
            final(self).eq == old(self).eq,
            final(self).battery == old(self).battery,
            final(self).features == old(self).features,
            final(self).product_id == old(self).product_id,
            final(self).key_settings == old(self).key_settings,
    {
        self.anc.level = level;
        self.anc.max_level = max_level;
    }

    /// Records the EQ state read back after a preset change.
    pub fn apply_eq(&mut self, eq: EqState)
        ensures
            final(self).eq matches Some(i) && i.mode == eq.mode && i.name@ == eq.name@
                && i.description@ == eq.description@ && i.gains@ == eq.gains@,
            final(self).connection == old(self).connection,
            final(self).anc == old(self).anc,
            final(self).battery == old(self).battery,
            final(self).features == old(self).features,
            final(self).product_id == old(self).product_id,
            final(self).key_settings == old(self).key_settings,
    {
        self.eq = Some(EqInfo::from_state(eq));
    }

    /// Records whether adaptive ANC is on, as read back after a change.
    pub fn apply_adaptive_anc(&mut self, enabled: bool)
        ensures
            final(self).features == (FeatureInfo {
                adaptive_anc: Some(enabled),
                dual_device: old(self).features.dual_device,
            }),
            final(self).connection == old(self).connection,
            final(self).anc == old(self).anc,
            final(self).eq == old(self).eq,
            final(self).battery == old(self).battery,
            final(self).product_id == old(self).product_id,
            final(self).key_settings == old(self).key_settings,
    {
        self.features.adaptive_anc = Some(enabled);
    }

    /// Records whether dual-device mode is on, as read back after a change.
    pub fn apply_dual_device(&mut self, enabled: bool)
        ensures
            final(self).features == (FeatureInfo {
                adaptive_anc: old(self).features.adaptive_anc,
                dual_device: Some(enabled),
            }),
            final(self).connection == old(self).connection,
            final(self).anc == old(self).anc,
            final(self).eq == old(self).eq,
            final(self).battery == old(self).battery,
            final(self).product_id == old(self).product_id,
            final(self).key_settings == old(self).key_settings,
    {
        self.features.dual_device = Some(enabled);
    }

    /// Records the result of a full refresh of a connected device. An EQ
    /// state that could not be read leaves the last known one in place.
    pub fn apply_full_refresh(
        &mut self,
        address: Option<String>,
        anc: AncInfo,
        eq: Option<EqState>,
        features: FeatureInfo,
        battery: BatteryLevel,
    )
        ensures
            final(self).connection.connected,
            final(self).connection.address == address,
            final(self).connection.state == ConnectionState::Connected,
            final(self).anc == anc,
            match eq {
                Some(e) => final(self).eq matches Some(i) && i.mode == e.mode && i.name@
                    == e.name@ && i.description@ == e.description@ && i.gains@ == e.gains@,
                None => final(self).eq == old(self).eq,
            },
            final(self).features == features,
            final(self).battery == (BatteryInfo {
                left: battery.left,
                right: battery.right,
                case: battery.case,
            }),
            final(self).product_id == old(self).product_id,
            final(self).key_settings == old(self).key_settings,
    {
        self.connection.connected = true;
        self.connection.address = address;
        self.connection.state = ConnectionState::Connected;
        self.anc = anc;
        if let Some(e) = eq {
            self.eq = Some(EqInfo::from_state(e));
        }
        self.features = features;
        self.apply_battery(battery);
    }
}

// ── Command decisions ──

/// How the daemon answers a request, apart from status pushes.
#[derive(Debug, Clone)]
pub enum ServiceReply {
    Success(Option<String>),
    Failure(String),
}

/// What the daemon does for a request.
#[derive(Debug, Clone)]
pub enum CommandPlan {
    /// Answer right away.
    Reply(ServiceReply),
    /// Answer with the current status.
    ReportStatus,
    /// Scan for this many seconds and answer with the devices found.
    Scan(u64),
    /// Connect unless already connected.
    Connect,
    SetAnc(AncMode),
    SetLevel(u8),
    SetEq(u8),
    SetAdaptive(bool),
    SetDual(bool),
    /// Disconnect from the current device.
    Disconnect,
    /// Send this command ID with this payload to the earbuds as it stands.
    SendRaw(u8, Vec<u8>),
}

/// The ANC mode a request's mode word names: `off`/`0`, `on`/`1`/`anc`,
/// `transparency`/`2`.
pub open spec fn anc_mode_named(w: Seq<char>) -> Option<AncMode> {
    if w == "off"@ || w == "0"@ {
        Some(AncMode::Off)
    } else if w == "on"@ || w == "1"@ || w == "anc"@ {
        Some(AncMode::Active)
    } else if w == "transparency"@ || w == "2"@ {
        Some(AncMode::Transparency)
    } else {
        None
    }
}

fn word_is(w: &String, lit: &str) -> (r: bool)
    ensures
        r == (w@ == lit@),
{
    *w == String::from_str(lit)
}

/// Reads the mode word of an ANC request.
pub fn parse_anc_mode(mode: &str) -> (r: Option<AncMode>)
    ensures
        r == anc_mode_named(mode@),
{
    let w = String::from_str(mode);
    if word_is(&w, "off") || word_is(&w, "0") {
        Some(AncMode::Off)
    } else if word_is(&w, "on") || word_is(&w, "1") || word_is(&w, "anc") {
        Some(AncMode::Active)
    } else if word_is(&w, "transparency") || word_is(&w, "2") {
        Some(AncMode::Transparency)
    } else {
        None
    }
}

/// The per-connection state of a daemon client.
#[derive(Debug, Clone, Copy)]
pub struct ClientSession {
    pub subscribed: bool,
}

impl ClientSession {
    /// A client that is not subscribed to status pushes.
    pub fn new() -> (s: Self)
        ensures
            !s.subscribed,
    {
        Self { subscribed: false }
    }

    /// Decides what a request asks for. Subscribing and unsubscribing
    /// change the session and are answered at once; an unknown ANC mode word
    /// is refused; a disconnect and a raw command are handed on to the
    /// earbuds, the raw command with its own ID and payload.
    pub fn plan(&mut self, cmd: &ServiceCommand) -> (p: CommandPlan)
        ensures
            match cmd {
                ServiceCommand::Subscribe => final(self).subscribed && (p matches CommandPlan::Reply(
                    ServiceReply::Success(Some(m)),
                ) && m@ == "Subscribed to status updates"@),
                ServiceCommand::Unsubscribe => !final(self).subscribed && (p matches CommandPlan::Reply(
                    ServiceReply::Success(Some(m)),
                ) && m@ == "Unsubscribed from status updates"@),
                _ => final(self).subscribed == old(self).subscribed && (match cmd {
                    ServiceCommand::Ping => p matches CommandPlan::Reply(
                        ServiceReply::Success(Some(m)),
                    ) && m@ == "pong"@,
                    ServiceCommand::GetStatus => p is ReportStatus,
                    ServiceCommand::Scan { timeout_secs } => p == CommandPlan::Scan(*timeout_secs),
                    ServiceCommand::Connect { .. } => p is Connect,
                    ServiceCommand::SetAncMode { mode } => match anc_mode_named(mode@) {
                        Some(m) => p == CommandPlan::SetAnc(m),
                        None => p matches CommandPlan::Reply(ServiceReply::Failure(e)) && e@
                            == "Invalid ANC mode: "@ + mode@,
                    },
                    ServiceCommand::SetLevel { level } => p == CommandPlan::SetLevel(*level),
                    ServiceCommand::SetEqPreset { preset } => p == CommandPlan::SetEq(*preset),
                    ServiceCommand::SetAdaptiveAnc { enabled } => p == CommandPlan::SetAdaptive(
                        *enabled,
                    ),
                    ServiceCommand::SetDualDevice { enabled } => p == CommandPlan::SetDual(
                        *enabled,
                    ),
                    ServiceCommand::Disconnect => p is Disconnect,
                    ServiceCommand::Custom { command_id, payload } => p matches CommandPlan::SendRaw(
                        id,
                        bytes,
                    ) && id == *command_id && bytes@ == payload@,
                    _ => false,
                }),
            },
    {
        match cmd {
            ServiceCommand::Subscribe => {
                self.subscribed = true;
                CommandPlan::Reply(
                    ServiceReply::Success(Some(String::from_str("Subscribed to status updates"))),
                )
            },
            ServiceCommand::Unsubscribe => {
                self.subscribed = false;
                CommandPlan::Reply(
                    ServiceReply::Success(
                        Some(String::from_str("Unsubscribed from status updates")),
                    ),
                )
            },
            ServiceCommand::Ping => CommandPlan::Reply(
                ServiceReply::Success(Some(String::from_str("pong"))),
            ),
            ServiceCommand::GetStatus => CommandPlan::ReportStatus,
            ServiceCommand::Scan { timeout_secs } => CommandPlan::Scan(*timeout_secs),
            ServiceCommand::Connect { .. } => CommandPlan::Connect,
            ServiceCommand::SetAncMode { mode } => match parse_anc_mode(mode.as_str()) {
                Some(m) => CommandPlan::SetAnc(m),
                None => {
                    let mut e = String::from_str("Invalid ANC mode: ");
                    e.append(mode.as_str());
                    CommandPlan::Reply(ServiceReply::Failure(e))
                },
            },
            ServiceCommand::SetLevel { level } => CommandPlan::SetLevel(*level),
            ServiceCommand::SetEqPreset { preset } => CommandPlan::SetEq(*preset),
            ServiceCommand::SetAdaptiveAnc { enabled } => CommandPlan::SetAdaptive(*enabled),
            ServiceCommand::SetDualDevice { enabled } => CommandPlan::SetDual(*enabled),
            ServiceCommand::Disconnect => CommandPlan::Disconnect,
            ServiceCommand::Custom { command_id, payload } => CommandPlan::SendRaw(
                *command_id,
                payload.clone(),
            ),
        }
    }
}

fn text_with(prefix: &str, detail: &str) -> (s: String)
    ensures
        s@ == prefix@ + detail@,
{
    let mut s = String::from_str(prefix);
    s.append(detail);
    s
}

fn text_with_number(prefix: &str, n: u8) -> (s: String)
    ensures
        s@ == prefix@ + dec_nat(n as nat),
{
    let mut s = String::from_str(prefix);
    push_decimal_u64(&mut s, n as u64);
    s
}

/// The answer to a disconnect request, by the outcome of the disconnect.
pub fn disconnect_reply(result: Result<(), String>) -> (r: ServiceReply)
    ensures
        match result {
            Ok(()) => r matches ServiceReply::Success(Some(m)) && m@ == "Disconnected"@,
            Err(e) => r matches ServiceReply::Failure(m) && m@ == "Disconnect failed: "@ + e@,
        },
{
    match result {
        Ok(()) => ServiceReply::Success(Some(String::from_str("Disconnected"))),
        Err(e) => ServiceReply::Failure(text_with("Disconnect failed: ", e.as_str())),
    }
}

/// The answer to a raw command, by the outcome of writing it to the earbuds.
pub fn raw_reply(result: Result<(), String>) -> (r: ServiceReply)
    ensures
        match result {
            Ok(()) => r matches ServiceReply::Success(Some(m)) && m@ == "Command sent"@,
            Err(e) => r matches ServiceReply::Failure(m) && m@ == "Failed to send command: "@
                + e@,
        },
{
    match result {
        Ok(()) => ServiceReply::Success(Some(String::from_str("Command sent"))),
        Err(e) => ServiceReply::Failure(text_with("Failed to send command: ", e.as_str())),
    }
}

/// The answer to a connect request: `None` when the device was already
/// connected (no attempt made), else the attempt's outcome with the error's
/// text.
pub fn connect_reply(attempt: Option<Result<(), String>>) -> (r: ServiceReply)
    ensures
        match attempt {
            None => r matches ServiceReply::Success(Some(m)) && m@ == "Already connected"@,
            Some(Ok(())) => r matches ServiceReply::Success(Some(m)) && m@ == "Connected"@,
            Some(Err(e)) => r matches ServiceReply::Failure(m) && m@ == "Connection failed: "@
                + e@,
        },
{
    match attempt {
        None => ServiceReply::Success(Some(String::from_str("Already connected"))),
        Some(Ok(())) => ServiceReply::Success(Some(String::from_str("Connected"))),
        Some(Err(e)) => ServiceReply::Failure(text_with("Connection failed: ", e.as_str())),
    }
}

/// The answer to a failed scan.
pub fn scan_failed_reply(error: &str) -> (r: ServiceReply)
    ensures
        r matches ServiceReply::Failure(m) && m@ == "Scan failed: "@ + error@,
{
    ServiceReply::Failure(text_with("Scan failed: ", error))
}

/// The answer to an ANC mode request, echoing the mode word.
pub fn anc_reply(mode: &str, result: Result<(), String>) -> (r: ServiceReply)
    ensures
        match result {
            Ok(()) => r matches ServiceReply::Success(Some(m)) && m@ == "ANC mode set to "@
                + mode@,
            Err(e) => r matches ServiceReply::Failure(m) && m@ == "Failed to set ANC mode: "@
                + e@,
        },
{
    match result {
        Ok(()) => ServiceReply::Success(Some(text_with("ANC mode set to ", mode))),
        Err(e) => ServiceReply::Failure(text_with("Failed to set ANC mode: ", e.as_str())),
    }
}

/// The answer to a level request: the device refuses a level while ANC is
/// off (`Ok(false)`).
pub fn level_reply(level: u8, result: Result<bool, String>) -> (r: ServiceReply)
    ensures
        match result {
            Ok(true) => r matches ServiceReply::Success(Some(m)) && m@ == "Level set to "@
                + dec_nat(level as nat),
            Ok(false) => r matches ServiceReply::Failure(m) && m@
                == "Cannot set level when ANC is off"@,
            Err(e) => r matches ServiceReply::Failure(m) && m@ == "Failed to set level: "@ + e@,
        },
{
    match result {
        Ok(true) => ServiceReply::Success(Some(text_with_number("Level set to ", level))),
        Ok(false) => ServiceReply::Failure(String::from_str("Cannot set level when ANC is off")),
        Err(e) => ServiceReply::Failure(text_with("Failed to set level: ", e.as_str())),
    }
}

/// The answer to an EQ preset request.
pub fn eq_reply(preset: u8, result: Result<(), String>) -> (r: ServiceReply)
    ensures
        match result {
            Ok(()) => r matches ServiceReply::Success(Some(m)) && m@ == "EQ preset set to "@
                + dec_nat(preset as nat),
            Err(e) => r matches ServiceReply::Failure(m) && m@ == "Failed to set EQ preset: "@
                + e@,
        },
{
    match result {
        Ok(()) => ServiceReply::Success(Some(text_with_number("EQ preset set to ", preset))),
        Err(e) => ServiceReply::Failure(text_with("Failed to set EQ preset: ", e.as_str())),
    }
}

/// The answer to an adaptive-ANC request.
pub fn adaptive_reply(enabled: bool, result: Result<(), String>) -> (r: ServiceReply)
    ensures
        match result {
            Ok(()) => r matches ServiceReply::Success(Some(m)) && m@ == (if enabled {
                "Adaptive ANC enabled"@
            } else {
                "Adaptive ANC disabled"@
            }),
            Err(e) => r matches ServiceReply::Failure(m) && m@ == "Failed to set adaptive ANC: "@
                + e@,
        },
{
    match result {
        Ok(()) => ServiceReply::Success(
            Some(
                if enabled {
                    String::from_str("Adaptive ANC enabled")
                } else {
                    String::from_str("Adaptive ANC disabled")
                },
            ),
        ),
        Err(e) => ServiceReply::Failure(text_with("Failed to set adaptive ANC: ", e.as_str())),
    }
}

/// The answer to a dual-device request.
pub fn dual_reply(enabled: bool, result: Result<(), String>) -> (r: ServiceReply)
    ensures
        match result {
            Ok(()) => r matches ServiceReply::Success(Some(m)) && m@ == (if enabled {
                "Dual device enabled"@
            } else {
                "Dual device disabled"@
            }),
            Err(e) => r matches ServiceReply::Failure(m) && m@ == "Failed to set dual device: "@
                + e@,
        },
{
    match result {
        Ok(()) => ServiceReply::Success(
            Some(
                if enabled {
                    String::from_str("Dual device enabled")
                } else {
                    String::from_str("Dual device disabled")
                },
            ),
        ),
        Err(e) => ServiceReply::Failure(text_with("Failed to set dual device: ", e.as_str())),
    }
}

/// The answer to a line that is not a command, with the reader's error.
pub fn invalid_command_reply(error: &str) -> (r: ServiceReply)
    ensures
        r matches ServiceReply::Failure(m) && m@ == "Invalid command: "@ + error@,
{
    ServiceReply::Failure(text_with("Invalid command: ", error))
}

impl ServiceReply {
    /// What a client makes of a reply: a failure becomes an IPC error with
    /// its message, a success gives its message.
    pub fn into_result(self) -> (r: Result<Option<String>, Error>)
        ensures
            match self {
                ServiceReply::Success(m) => r matches Ok(got) && got == m,
                ServiceReply::Failure(m) => r matches Err(Error::Ipc(e)) && e@ == m@,
            },
    {
        match self {
            ServiceReply::Success(m) => Ok(m),
            ServiceReply::Failure(m) => Err(Error::Ipc(m)),
        }
    }
}

/// The ids a client gives its requests: from 1, wrapping after the
/// largest `u64`.
#[derive(Debug, Clone, Copy)]
pub struct RequestIds {
    next: u64,
}

impl RequestIds {
    /// The id the next request gets.
    pub closed spec fn peek(self) -> u64 {
        self.next
    }

    /// Ids starting at 1.
    pub fn new() -> (r: Self)
        ensures
            r.peek() == 1,
    {
        RequestIds { next: 1 }
    }

    /// Hands out the next id.
    pub fn next_id(&mut self) -> (id: u64)
        ensures
            id == old(self).peek(),
            final(self).peek() == (if id == u64::MAX {
                0
            } else {
                (id + 1) as u64
            }),
    {
        let id = self.next;
        self.next = id.wrapping_add(1);
        id
    }
}

/// Whether a ping was answered: a success whose message is `pong`.
pub fn is_pong(message: &Option<String>) -> (r: bool)
    ensures
        r == (message matches Some(m) && m@ == "pong"@),
{
    match message {
        Some(m) => word_is(m, "pong"),
        None => false,
    }
}

} // verus!
