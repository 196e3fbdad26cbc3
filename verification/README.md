# spacepods

Control logic for Oraimo SpaceBuds earbuds, written in Verus: every function
under `src/` carries a contract that Verus proves, except six small wrappers
around standard-library and `uuid` calls (string pushes, lower-casing, UTF-8
decoding, UUID formatting, durations), whose contracts are believed as their
documentation states them.

## Layout

- `src/protocol/` — the wire protocol: command and info IDs, packets
  (encode/decode, proved to round-trip), TLV payload reading, value types.
- `src/beacon.rs`, `src/beacon/scanner.rs` — the manufacturer-data beacon
  (versions 1–4, address de-obfuscation) and matching beacons to scanned
  peripherals.
- `src/commands/` — typed commands (ANC, EQ, features, find, raw) with their
  payloads and reply decoding; EQ presets; per-feature request builders.
- `src/connection.rs` — the link decisions: recognising earbuds among scanned
  devices, choosing characteristics, routing notifications, reading battery
  levels, naming devices, sequence numbers.
- `src/device.rs` — the device handle, its connection state machine, the
  builder, and the decisions of the ANC and feature controls.
- `src/device_profile.rs` — per-model feature profiles.
- `src/ipc.rs` — the daemon's vocabulary (commands, status) and its decisions:
  what a request asks for and how each outcome is answered.
- `src/cli.rs` — the interactive command line: word splitting, number
  reading, command recognition, status rendering.
- `src/ui/` — the desktop app's logic: remembered devices and settings, error
  and signal wording, tray menu state, gesture and EQ page choices.
- `src/error.rs`, `src/log.rs`, `src/text.rs` — errors with their messages,
  log levels, text helpers.
- `app/` — the `libspacepods` program around the library: the Unix-socket
  daemon, the client, the line editor and the Bluetooth stack access.
- `tests/` — tests of the library.
