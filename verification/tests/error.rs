use spacepods::Error;
use std::time::Duration;

#[test]
fn error_messages() {
    assert_eq!(Error::DeviceNotFound { retries: 3 }.message(), "Device not found after 3 retries");
    assert_eq!(Error::NotConnected.message(), "Not connected to any device");
    assert_eq!(Error::InvalidMessageType(0x1F).message(), "Invalid message type: 0x1f");
    assert_eq!(Error::InvalidMessageType(5).message(), "Invalid message type: 0x5");
    assert_eq!(Error::UnknownAncMode(7).message(), "Unknown ANC mode: 7");
    assert_eq!(Error::Parse("bad").message(), "Parse error: bad");
    assert_eq!(Error::InvalidPreset(9).message(), "Invalid preset ID: 9");
    assert_eq!(Error::Timeout(Duration::from_secs(3)).message(), "Timeout after 3s");
    assert_eq!(Error::Ipc("x".into()).message(), "IPC error: x");
    assert_eq!(Error::Bluetooth("adapter".into()).message(), "Bluetooth error: adapter");
    assert_eq!(Error::Serde("eof".into()).message(), "Serialization error: eof");
    assert_eq!(Error::ServiceStopped.message(), "Service stopped");
}
