//! The device handle: connection settings, the connection state machine and
//! access to the typed controllers.
use crate::commands::anc::{AncCommand, AncResponse};
use crate::commands::eq::EqController;
use crate::commands::features::FeatureResponse;
use crate::error::Error;
use crate::protocol::types::AncMode;
use std::collections::HashMap;
use crate::protocol::constants::CMD_HANDSHAKE;
use crate::protocol::types::{connection_state_eq, ConnectionState};
use std::time::Duration;
use vstd::prelude::*;

verus! {

/// The duration of a whole number of seconds.
pub uninterp spec fn secs_duration(secs: u64) -> Duration;

/// A duration of whole seconds.
///
/// Trusted: calls `Duration::from_secs`; the result is named
/// `secs_duration`, and nothing further is claimed about it.
#[verifier::external_body]
pub(crate) fn duration_from_secs(secs: u64) -> (d: Duration)
    ensures
        d == secs_duration(secs),
{
    Duration::from_secs(secs)
}

/// Connection settings.
#[derive(Debug, Clone, Copy)]
pub struct ConnectionConfig {
    pub scan_timeout: Duration,
    pub max_retries: usize,
    pub reconnect_delay: Duration,
}

impl Default for ConnectionConfig {
    /// Scan for 10 s, retry 3 times, wait 1 s between reconnection attempts.
    fn default() -> (c: Self)
        ensures
            c.scan_timeout == secs_duration(10),
            c.max_retries == 3,
            c.reconnect_delay == secs_duration(1),
    {
        Self {
            scan_timeout: duration_from_secs(10),
            max_retries: 3,
            reconnect_delay: duration_from_secs(1),
        }
    }
}

/// A state change of the link to the earbuds.
#[derive(Debug, Clone, Copy, PartialEq, Eq, Structural)]
pub enum LinkEvent {
    ScanStarted,
    ConnectStarted,
    Connected,
    Disconnected,
    ReconnectStarted,
}

/// The connection state that a link event leads to.
pub open spec fn state_after(e: LinkEvent) -> ConnectionState {
    match e {
        LinkEvent::ScanStarted => ConnectionState::Scanning,
        LinkEvent::ConnectStarted => ConnectionState::Connecting,
        LinkEvent::Connected => ConnectionState::Connected,
        LinkEvent::Disconnected => ConnectionState::Disconnected,
        LinkEvent::ReconnectStarted => ConnectionState::Reconnecting,
    }
}

/// A handle to a pair of SpaceBuds: its settings and where its connection
/// stands.
#[derive(Debug)]
pub struct SpaceBuds {
    config: ConnectionConfig,
    state: ConnectionState,
}

impl SpaceBuds {
    /// The connection settings.
    pub closed spec fn spec_config(&self) -> ConnectionConfig {
        self.config
    }

    /// The connection state.
    pub closed spec fn spec_state(&self) -> ConnectionState {
        self.state
    }

    /// A disconnected handle with default settings.
    pub fn new_disconnected() -> (b: Self)
        ensures
            b.spec_config().scan_timeout == secs_duration(10),
            b.spec_config().max_retries == 3,
            b.spec_config().reconnect_delay == secs_duration(1),
            b.spec_state() == ConnectionState::Disconnected,
    {
        Self { config: ConnectionConfig::default(), state: ConnectionState::Disconnected }
    }

    /// A builder for fine-grained configuration.
    pub fn builder() -> (b: SpaceBudsBuilder)
        ensures
            b.spec_config().scan_timeout == secs_duration(10),
            b.spec_config().max_retries == 3,
            b.spec_config().reconnect_delay == secs_duration(1),
            !b.spec_auto_connect(),
    {
        SpaceBudsBuilder::new()
    }

    /// The connection settings.
    pub fn config(&self) -> (c: ConnectionConfig)
        ensures
            c == self.spec_config(),
    {
        self.config
    }

    /// The current connection state.
    pub fn state(&self) -> (s: ConnectionState)
        ensures
            connection_state_eq(s, self.spec_state()),
    {
        self.state.clone_state()
    }

    /// Records a link event; the state follows it.
    pub fn record(&mut self, event: LinkEvent)
        ensures
            final(self).spec_state() == state_after(event),
            final(self).spec_config() == old(self).spec_config(),
    {
        self.state = match event {
            LinkEvent::ScanStarted => ConnectionState::Scanning,
            LinkEvent::ConnectStarted => ConnectionState::Connecting,
            LinkEvent::Connected => ConnectionState::Connected,
            LinkEvent::Disconnected => ConnectionState::Disconnected,
            LinkEvent::ReconnectStarted => ConnectionState::Reconnecting,
        };
    }

    /// Access to ANC controls.
    pub fn anc(&self) -> (c: AncController<'_>)
        ensures
            c.buds == self,
    {
        AncController { buds: self }
    }

    /// Access to EQ controls.
    pub fn eq(&self) -> (c: EqController<'_>)
        ensures
            c.buds == self,
    {
        EqController { buds: self }
    }

    /// Access to feature controls (adaptive ANC, dual device).
    pub fn features(&self) -> (c: FeatureController<'_>)
        ensures
            c.buds == self,
    {
        FeatureController { buds: self }
    }
}

impl ConnectionState {
    /// A copy of this state.
    pub fn clone_state(&self) -> (s: Self)
        ensures
            connection_state_eq(s, *self),
    {
        match self {
            Self::Disconnected => Self::Disconnected,
            Self::Scanning => Self::Scanning,
            Self::Connecting => Self::Connecting,
            Self::Connected => Self::Connected,
            Self::Reconnecting => Self::Reconnecting,
            Self::Failed(msg) => Self::Failed(msg.clone()),
        }
    }
}

/// The ANC controls of a device handle.
pub struct AncController<'a> {
    pub buds: &'a SpaceBuds,
}

impl<'a> AncController<'a> {
    /// The mode a mode query's reply reports; any other reply is a parse
    /// error.
    pub fn mode_from(resp: AncResponse) -> (r: Result<AncMode, Error>)
        ensures
            match resp {
                AncResponse::Mode(m) => r == Ok::<AncMode, Error>(m),
                _ => r matches Err(Error::Parse(msg)) && msg@
                    == "Unexpected response type for get_mode"@,
            },
    {
        match resp {
            AncResponse::Mode(m) => Ok(m),
            _ => Err(Error::Parse("Unexpected response type for get_mode")),
        }
    }

    /// The (current, maximum) level a level query's reply reports; any
    /// other reply is a parse error.
    pub fn level_from(resp: AncResponse) -> (r: Result<(u8, u8), Error>)
        ensures
            match resp {
                AncResponse::Level { current, max } => r == Ok::<(u8, u8), Error>((current, max)),
                _ => r matches Err(Error::Parse(msg)) && msg@
                    == "Unexpected response type for get_level"@,
            },
    {
        match resp {
            AncResponse::Level { current, max } => Ok((current, max)),
            _ => Err(Error::Parse("Unexpected response type for get_level")),
        }
    }

    /// The level to ask for given the device's maximum: none when the
    /// device has no levels (maximum 0), else the request capped at the
    /// maximum.
    pub fn level_to_send(level: u8, max_level: u8) -> (r: Option<u8>)
        ensures
            max_level == 0 ==> r is None,
            max_level > 0 ==> r == Some(if level <= max_level { level } else { max_level }),
    {
        if max_level == 0 {
            None
        } else if level <= max_level {
            Some(level)
        } else {
            Some(max_level)
        }
    }

    /// The command that sets a level in the current mode: the ANC level
    /// when ANC is on, the transparency level in transparency, none when
    /// ANC is off.
    pub fn level_command(level: u8, mode: AncMode) -> (r: Option<AncCommand>)
        ensures
            r == match mode {
                AncMode::Active => Some(AncCommand::SetAncLevel(level)),
                AncMode::Transparency => Some(AncCommand::SetTransparencyLevel(level)),
                AncMode::Off => None::<AncCommand>,
            },
    {
        match mode {
            AncMode::Active => Some(AncCommand::SetAncLevel(level)),
            AncMode::Transparency => Some(AncCommand::SetTransparencyLevel(level)),
            AncMode::Off => None,
        }
    }
}

/// The feature controls of a device handle.
pub struct FeatureController<'a> {
    pub buds: &'a SpaceBuds,
}

impl<'a> FeatureController<'a> {
    /// Whether adaptive ANC is on, from a query's reply; any other reply is
    /// a parse error.
    pub fn adaptive_anc_from(resp: FeatureResponse) -> (r: Result<bool, Error>)
        ensures
            match resp {
                FeatureResponse::AdaptiveAnc(v) => r == Ok::<bool, Error>(v),
                _ => r matches Err(Error::Parse(msg)) && msg@
                    == "Unexpected response for get_adaptive_anc"@,
            },
    {
        match resp {
            FeatureResponse::AdaptiveAnc(v) => Ok(v),
            _ => Err(Error::Parse("Unexpected response for get_adaptive_anc")),
        }
    }

    /// Whether dual-device mode is on, from a query's reply; any other
    /// reply is a parse error.
    pub fn dual_device_from(resp: FeatureResponse) -> (r: Result<bool, Error>)
        ensures
            match resp {
                FeatureResponse::DualDevice(v) => r == Ok::<bool, Error>(v),
                _ => r matches Err(Error::Parse(msg)) && msg@
                    == "Unexpected response for get_dual_device"@,
            },
    {
        match resp {
            FeatureResponse::DualDevice(v) => Ok(v),
            _ => Err(Error::Parse("Unexpected response for get_dual_device")),
        }
    }

    /// The gesture mapping from a query's reply; any other reply is a parse
    /// error.
    pub fn key_settings_from(resp: FeatureResponse) -> (r: Result<HashMap<u8, u8>, Error>)
        ensures
            match resp {
                FeatureResponse::KeySettings(m) => r matches Ok(k) && k@ == m@,
                _ => r matches Err(Error::Parse(msg)) && msg@
                    == "Unexpected response for get_key_settings"@,
            },
    {
        match resp {
            FeatureResponse::KeySettings(m) => Ok(m),
            _ => Err(Error::Parse("Unexpected response for get_key_settings")),
        }
    }
}

/// Whether a command waits for a TLV reply: handshake queries do; other
/// commands are fire-and-forget.
pub fn awaits_reply(cmd_id: u8) -> (r: bool)
    ensures
        r == (cmd_id == CMD_HANDSHAKE),
{
    cmd_id == CMD_HANDSHAKE
}

/// The delay before the next reconnection attempt: double the last one,
/// at most 30 s.
pub fn next_reconnect_delay_secs(secs: u64) -> (r: u64)
    ensures
        r == if 2 * secs > 30 { 30 } else { 2 * secs },
{
    if secs > 15 {
        30
    } else {
        secs * 2
    }
}

// ── Builder ──

/// Builder for configuring a `SpaceBuds` handle.
pub struct SpaceBudsBuilder {
    config: ConnectionConfig,
    auto_connect: bool,
}

impl SpaceBudsBuilder {
    /// The settings so far.
    pub closed spec fn spec_config(&self) -> ConnectionConfig {
        self.config
    }

    /// Whether the handle should connect as soon as it is built.
    pub closed spec fn spec_auto_connect(&self) -> bool {
        self.auto_connect
    }

    pub fn new() -> (b: Self)
        ensures
            b.spec_config().scan_timeout == secs_duration(10),
            b.spec_config().max_retries == 3,
            b.spec_config().reconnect_delay == secs_duration(1),
            !b.spec_auto_connect(),
    {
        Self { config: ConnectionConfig::default(), auto_connect: false }
    }

    /// Sets the BLE scan timeout.
    pub fn scan_timeout(self, timeout: Duration) -> (b: Self)
        ensures
            b.spec_config() == (ConnectionConfig { scan_timeout: timeout, ..self.spec_config() }),
            b.spec_auto_connect() == self.spec_auto_connect(),
    {
        let mut s = self;
        s.config.scan_timeout = timeout;
        s
    }

    /// Sets the maximum number of reconnection retries.
    pub fn max_retries(self, retries: usize) -> (b: Self)
        ensures
            b.spec_config() == (ConnectionConfig { max_retries: retries, ..self.spec_config() }),
            b.spec_auto_connect() == self.spec_auto_connect(),
    {
        let mut s = self;
        s.config.max_retries = retries;
        s
    }

    /// Sets the delay between reconnection attempts.
    pub fn reconnect_delay(self, delay: Duration) -> (b: Self)
        ensures
            b.spec_config() == (ConnectionConfig { reconnect_delay: delay, ..self.spec_config() }),
            b.spec_auto_connect() == self.spec_auto_connect(),
    {
        let mut s = self;
        s.config.reconnect_delay = delay;
        s
    }

    /// Whether to connect as soon as the handle is built.
    pub fn auto_connect(self, enabled: bool) -> (b: Self)
        ensures
            b.spec_config() == self.spec_config(),
            b.spec_auto_connect() == enabled,
    {
        let mut s = self;
        s.auto_connect = enabled;
        s
    }

    /// The configured (disconnected) handle, and whether it should be
    /// connected right away.
    pub fn build(self) -> (r: (SpaceBuds, bool))
        ensures
            r.0.spec_config() == self.spec_config(),
            r.0.spec_state() == ConnectionState::Disconnected,
            r.1 == self.spec_auto_connect(),
    {
        (SpaceBuds { config: self.config, state: ConnectionState::Disconnected }, self.auto_connect)
    }
}

impl Default for SpaceBudsBuilder {
    fn default() -> (b: Self)
        ensures
            b.spec_config().scan_timeout == secs_duration(10),
            b.spec_config().max_retries == 3,
            b.spec_config().reconnect_delay == secs_duration(1),
            !b.spec_auto_connect(),
    {
        Self::new()
    }
}

} // verus!
