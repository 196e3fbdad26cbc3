//! Command IDs, info IDs and other fixed values of the earbud protocol.
use vstd::prelude::*;

verus! {

// ── Command IDs, sent as the command byte of a request ──

pub const CMD_EQ_SETTING: u8 = 0x20;
pub const CMD_KEY: u8 = 0x22;
pub const CMD_AUTO_SHUTDOWN: u8 = 0x23;  // 35
pub const CMD_FACTORY_RESET: u8 = 0x24;  // 36
pub const CMD_WORK_MODE: u8 = 0x25;
pub const CMD_IN_EAR_DETECT: u8 = 0x26;
pub const CMD_DEVICE_INFO: u8 = 0x27;
pub const CMD_NOTIFY: u8 = 0x28;
pub const CMD_LANGUAGE: u8 = 0x29;
pub const CMD_FIND_DEVICE: u8 = 0x2A;
pub const CMD_AUTO_ANSWER: u8 = 0x2B;
pub const CMD_ANC_MODE: u8 = 0x2C;
pub const CMD_BLUETOOTH_NAME: u8 = 0x2D;
pub const CMD_LED_MODE: u8 = 0x2E;
pub const CMD_CLEAR_PAIR_RECORD: u8 = 0x2F;  // 47
pub const CMD_ANC_GAIN: u8 = 0x30;
pub const CMD_TRANS_GAIN: u8 = 0x31;
pub const CMD_SOUND_EFFECT_3D: u8 = 0x32;
pub const CMD_DUAL_DEVICE: u8 = 0x33;
pub const CMD_AREA_TAP: u8 = 0x34;
pub const CMD_CHAT_MODE: u8 = 0x35;
pub const CMD_SPACE_AUDIO: u8 = 0x36;
pub const CMD_ENV_ADAPTIVE: u8 = 0x37;
pub const CMD_LONG_ENDURANCE_MODE: u8 = 0x38;
pub const CMD_TWS_PAIRING: u8 = 0x39;  // 57
pub const CMD_VOICE_PROMPT: u8 = 0x3A;
pub const CMD_LED_INFO: u8 = 0x3B;
pub const CMD_KARAOKE_EFFECT: u8 = 0x3C;
pub const CMD_STEP_COUNT_SWITCH: u8 = 0x3D;  // 61
pub const CMD_SYNC_TIME: u8 = 0x3E;  // 62
pub const CMD_RESET_SPORT: u8 = 0x3F;  // 63
pub const CMD_SPORT_HISTORY_DATA: u8 = 0x40;  // 64
pub const CMD_BASS_EQ_SWITCH: u8 = 0x41;
pub const CMD_CANCEL_OTA: u8 = 0x42;  // 66
pub const CMD_TONE_VOLUME: u8 = 0x43;
pub const CMD_HEARING_CARE: u8 = 0x44;
pub const CMD_ADAPTIVE_VOLUME: u8 = 0x45;

// The handshake (TLV query) is the device-info command.
pub const CMD_HANDSHAKE: u8 = CMD_DEVICE_INFO; // 0x27

// ── Info IDs (for TLV queries via handshake/device_info) ──
// Sent as TLV tags in handshake queries to read device state.

pub const ID_DEVICE_POWER: u8 = 0x01;
pub const ID_FIRMWARE_VERSION: u8 = 0x02;
pub const ID_BLUETOOTH_NAME: u8 = 0x03;
pub const ID_EQ_SETTING: u8 = 0x04;
pub const ID_KEY_SETTINGS: u8 = 0x05;
pub const ID_DEVICE_VOLUME: u8 = 0x06;
pub const ID_PLAY_STATE: u8 = 0x07;
pub const ID_WORK_MODE: u8 = 0x08;
pub const ID_IN_EAR_STATUS: u8 = 0x09;
pub const ID_LANGUAGE_SETTING: u8 = 0x0A;  // 10
pub const ID_AUTO_ANSWER: u8 = 0x0B;  // 11
pub const ID_ANC_MODE: u8 = 0x0C;
pub const ID_IS_TWS: u8 = 0x0D;  // 13
pub const ID_TWS_CONNECTED: u8 = 0x0E;  // 14
pub const ID_LED_SWITCH: u8 = 0x0F;
pub const ID_FW_CHECKSUM: u8 = 0x10;  // 16
pub const ID_ANC_GAIN: u8 = 0x11;
pub const ID_TRANS_GAIN: u8 = 0x12;
pub const ID_ANC_MAX: u8 = 0x13;
pub const ID_TRANS_MAX: u8 = 0x14;
pub const ID_ALL_EQ_SETTINGS: u8 = 0x15;  // 21
pub const ID_MAIN_SIDE: u8 = 0x16;  // 22
pub const ID_PRODUCT_COLOR: u8 = 0x17;  // 23
pub const ID_SOUND_EFFECT_3D: u8 = 0x18;
pub const ID_DUAL_DEVICE: u8 = 0x19;
pub const ID_MULTIPOINT_INFO: u8 = 0x1A;  // 26
pub const ID_AREA_TAP: u8 = 0x1D;
pub const ID_CHAT_MODE: u8 = 0x1F;
pub const ID_SPACE_AUDIO: u8 = 0x20;
pub const ID_ENV_ADAPTIVE: u8 = 0x21;
pub const ID_LONG_ENDURANCE_MODE: u8 = 0x22;  // 34
pub const ID_TWS_PAIRING: u8 = 0x23;  // 35
pub const ID_VOICE_PROMPT: u8 = 0x24;
pub const ID_LED_INFO: u8 = 0x25;
pub const ID_KARAOKE_EFFECT: u8 = 0x26;
pub const ID_STEP_COUNT_SWITCH: u8 = 0x27;  // 39
pub const ID_TONE_VOLUME: u8 = 0x2C;
pub const ID_HEARING_CARE: u8 = 0x2D;
pub const ID_ADAPTIVE_VOLUME: u8 = 0x2E;
pub const ID_BASS_EQ_SWITCH: u8 = 0x2B;

// ── BLE characteristic and service UUIDs, as 128-bit values ──

pub const UUID_WRITE: u128 = 0x0000ff17_0000_1000_8000_00805f9b34fb;
pub const UUID_NOTIFY: u128 = 0x0000ff18_0000_1000_8000_00805f9b34fb;
pub const UUID_FAST_PAIR: u128 = 0x0000fe2c_0000_1000_8000_00805f9b34fb;
pub const UUID_BATTERY_SERVICE: u128 = 0x0000180f_0000_1000_8000_00805f9b34fb;
pub const UUID_BATTERY_LEVEL: u128 = 0x00002a19_0000_1000_8000_00805f9b34fb;
/// GAP "Device Name" characteristic.
pub const UUID_GAP_DEVICE_NAME: u128 = 0x00002a00_0000_1000_8000_00805f9b34fb;

// Aliases used for scan filtering
pub const UUID_FF17: u128 = UUID_WRITE;
pub const UUID_FE2C: u128 = UUID_FAST_PAIR;

// ── Handshake prefix bytes ──
pub const HANDSHAKE_PREFIX: [u8; 2] = [0xFF, 0x00];

// Battery info ID used by handshake battery queries
pub const ID_BATTERY: u8 = 0x01;

// Message types
pub const TYPE_REQUEST: u8 = 0x01;
pub const TYPE_RESPONSE: u8 = 0x02;

// ANC modes
pub const MODE_OFF: u8 = 0;
pub const MODE_ANC: u8 = 1;
pub const MODE_TRANSPARENCY: u8 = 2;

// Key settings command (gesture remapping)
pub const CMD_KEY_SETTINGS: u8 = 34;

// Mapped key types
pub const KEY_LEFT_SINGLE_TAP: u8 = 1;
pub const KEY_RIGHT_SINGLE_TAP: u8 = 2;
pub const KEY_LEFT_DOUBLE_TAP: u8 = 3;
pub const KEY_RIGHT_DOUBLE_TAP: u8 = 4;
pub const KEY_LEFT_TRIPLE_TAP: u8 = 5;
pub const KEY_RIGHT_TRIPLE_TAP: u8 = 6;
pub const KEY_LEFT_LONG_PRESS: u8 = 7;
pub const KEY_RIGHT_LONG_PRESS: u8 = 8;

// Mapped key functions
pub const KEY_FUNCTION_NONE: u8 = 0;
pub const KEY_FUNCTION_RECALL: u8 = 1;
pub const KEY_FUNCTION_ASSISTANT: u8 = 2;
pub const KEY_FUNCTION_PREVIOUS: u8 = 3;
pub const KEY_FUNCTION_NEXT: u8 = 4;
pub const KEY_FUNCTION_VOLUME_UP: u8 = 5;
pub const KEY_FUNCTION_VOLUME_DOWN: u8 = 6;
pub const KEY_FUNCTION_PLAY_PAUSE: u8 = 7;
pub const KEY_FUNCTION_GAME_MODE: u8 = 8;
pub const KEY_FUNCTION_ANC_MODE: u8 = 9;

} // verus!
