//! The library's error type.
use crate::text::{dec_nat, hex_lower, hex_lower_char, push_char, push_decimal_u64};
use std::time::Duration;
use vstd::prelude::*;
use vstd::string::*;

verus! {

/// Everything that can go wrong while talking to the earbuds or the daemon.
///
/// Errors that originate in I/O layers carry their rendered message.
#[derive(Debug)]
pub enum Error {
    /// A Bluetooth stack failure, with the stack's message.
    Bluetooth(String),
    DeviceNotFound { retries: usize },
    NotConnected,
    ConnectionLost,
    WriteCharNotFound,
    NotifyCharNotFound,
    InvalidMessageType(u8),
    UnknownAncMode(u8),
    Parse(&'static str),
    CommandFailed(String),
    InvalidPreset(u8),
    Timeout(Duration),
    Ipc(String),
    /// An I/O failure, with its message.
    Io(String),
    /// A JSON (de)serialisation failure, with its message.
    Serde(String),
    ServiceStopped,
}

/// Result type used throughout the library.
pub type Result<T, E = Error> = std::result::Result<T, E>;

/// The debug rendering of a duration, as `{:?}` writes it (`3s`, `1.5s`,
/// `250ms`).
pub uninterp spec fn duration_debug_text(d: Duration) -> Seq<char>;

/// Renders a duration as `{:?}` does.
///
/// Trusted: formats the duration with its `Debug` implementation; the
/// result is named `duration_debug_text`, whose rules (units, decimals) are
/// std's and are not written out here.
#[verifier::external_body]
fn duration_debug(d: Duration) -> (s: String)
    ensures
        s@ == duration_debug_text(d),
{
    format!("{:?}", d)
}

/// A byte in lower-case hex with a `0x` prefix and no leading zeros, as
/// `{:#x}` writes it.
pub open spec fn alt_hex(b: u8) -> Seq<char> {
    if b < 16 {
        "0x"@ + seq![hex_lower(b as int)]
    } else {
        "0x"@ + seq![hex_lower(b as int / 16), hex_lower(b as int % 16)]
    }
}

/// The message of an error.
pub open spec fn error_text(e: Error) -> Seq<char> {
    match e {
        Error::Bluetooth(m) => "Bluetooth error: "@ + m@,
        Error::DeviceNotFound { retries } => "Device not found after "@ + dec_nat(retries as nat)
            + " retries"@,
        Error::NotConnected => "Not connected to any device"@,
        Error::ConnectionLost => "Connection lost"@,
        Error::WriteCharNotFound => "Write characteristic not found"@,
        Error::NotifyCharNotFound => "Notify characteristic not found"@,
        Error::InvalidMessageType(t) => "Invalid message type: "@ + alt_hex(t),
        Error::UnknownAncMode(m) => "Unknown ANC mode: "@ + dec_nat(m as nat),
        Error::Parse(m) => "Parse error: "@ + m@,
        Error::CommandFailed(m) => "Command failed: "@ + m@,
        Error::InvalidPreset(p) => "Invalid preset ID: "@ + dec_nat(p as nat),
        Error::Timeout(d) => "Timeout after "@ + duration_debug_text(d),
        Error::Ipc(m) => "IPC error: "@ + m@,
        Error::Io(m) => "IO error: "@ + m@,
        Error::Serde(m) => "Serialization error: "@ + m@,
        Error::ServiceStopped => "Service stopped"@,
    }
}

fn with_text(prefix: &str, detail: &str) -> (s: String)
    ensures
        s@ == prefix@ + detail@,
{
    let mut s = String::from_str(prefix);
    s.append(detail);
    s
}

fn with_number(prefix: &str, n: u64) -> (s: String)
    ensures
        s@ == prefix@ + dec_nat(n as nat),
{
    let mut s = String::from_str(prefix);
    push_decimal_u64(&mut s, n);
    s
}

impl Error {
    /// The message of the error.
    pub fn message(&self) -> (s: String)
        ensures
            s@ == error_text(*self),
    {
        match self {
            Error::Bluetooth(m) => with_text("Bluetooth error: ", m.as_str()),
            Error::DeviceNotFound { retries } => {
                let mut s = with_number("Device not found after ", *retries as u64);
                s.append(" retries");
                s
            },
            Error::NotConnected => String::from_str("Not connected to any device"),
            Error::ConnectionLost => String::from_str("Connection lost"),
            Error::WriteCharNotFound => String::from_str("Write characteristic not found"),
            Error::NotifyCharNotFound => String::from_str("Notify characteristic not found"),
            Error::InvalidMessageType(t) => {
                let mut s = String::from_str("Invalid message type: 0x");
                if *t >= 16 {
                    push_char(&mut s, hex_lower_char(*t / 16));
                }
                push_char(&mut s, hex_lower_char(*t % 16));
                proof {
                    reveal_strlit("0x");
                    reveal_strlit("Invalid message type: ");
                    reveal_strlit("Invalid message type: 0x");
                }
                assert(s@ =~= "Invalid message type: "@ + alt_hex(*t));
                s
            },
            Error::UnknownAncMode(m) => with_number("Unknown ANC mode: ", *m as u64),
            Error::Parse(m) => with_text("Parse error: ", m),
            Error::CommandFailed(m) => with_text("Command failed: ", m.as_str()),
            Error::InvalidPreset(p) => with_number("Invalid preset ID: ", *p as u64),
            Error::Timeout(d) => with_text("Timeout after ", duration_debug(*d).as_str()),
            Error::Ipc(m) => with_text("IPC error: ", m.as_str()),
            Error::Io(m) => with_text("IO error: ", m.as_str()),
            Error::Serde(m) => with_text("Serialization error: ", m.as_str()),
            Error::ServiceStopped => String::from_str("Service stopped"),
        }
    }
}

} // verus!
