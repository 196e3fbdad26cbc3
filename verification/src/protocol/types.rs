//! Value types of the earbud protocol: ANC modes, message types, MAC
//! addresses, connection states and battery levels.
use crate::error::Error;
use crate::text::{dec_nat, hex_byte_upper, push_char, push_decimal_u64, push_hex_byte_upper};
use vstd::prelude::*;
use vstd::string::*;

verus! {

// ── ANC Mode ──

/// Active noise cancellation mode. Wire values: Off = 0, Active = 1,
/// Transparency = 2.
#[derive(Debug, Clone, Copy, PartialEq, Eq, Structural)]
pub enum AncMode {
    Off,
    Active,
    Transparency,
}

/// The wire value of an ANC mode.
pub open spec fn anc_mode_value(m: AncMode) -> u8 {
    match m {
        AncMode::Off => 0,
        AncMode::Active => 1,
        AncMode::Transparency => 2,
    }
}

/// The ANC mode with a given wire value, if any.
pub open spec fn anc_mode_of(v: u8) -> Option<AncMode> {
    if v == 0 {
        Some(AncMode::Off)
    } else if v == 1 {
        Some(AncMode::Active)
    } else if v == 2 {
        Some(AncMode::Transparency)
    } else {
        None
    }
}

impl AncMode {
    pub fn from_u8(value: u8) -> (r: Option<Self>)
        ensures
            r == anc_mode_of(value),
    {
        match value {
            0 => Some(Self::Off),
            1 => Some(Self::Active),
            2 => Some(Self::Transparency),
            _ => None,
        }
    }

    /// The wire value of this mode.
    pub fn as_u8(self) -> (v: u8)
        ensures
            v == anc_mode_value(self),
    {
        match self {
            Self::Off => 0,
            Self::Active => 1,
            Self::Transparency => 2,
        }
    }

    /// The display text of this mode: `OFF`, `ANC` or `TRANSPARENCY`.
    pub fn to_string(&self) -> (s: String)
        ensures
            s@ == anc_mode_text(*self),
    {
        match self {
            Self::Off => String::from_str("OFF"),
            Self::Active => String::from_str("ANC"),
            Self::Transparency => String::from_str("TRANSPARENCY"),
        }
    }
}

/// Display text of an ANC mode.
pub open spec fn anc_mode_text(m: AncMode) -> Seq<char> {
    match m {
        AncMode::Off => "OFF"@,
        AncMode::Active => "ANC"@,
        AncMode::Transparency => "TRANSPARENCY"@,
    }
}

impl From<AncMode> for u8 {
    fn from(m: AncMode) -> (v: u8) {
        m.as_u8()
    }
}

impl vstd::std_specs::convert::FromSpecImpl<AncMode> for u8 {
    open spec fn obeys_from_spec() -> bool {
        true
    }

    open spec fn from_spec(m: AncMode) -> u8 {
        anc_mode_value(m)
    }
}

impl TryFrom<u8> for AncMode {
    type Error = Error;

    fn try_from(value: u8) -> (r: Result<Self, Error>) {
        match Self::from_u8(value) {
            Some(m) => Ok(m),
            None => Err(Error::UnknownAncMode(value)),
        }
    }
}

impl vstd::std_specs::convert::TryFromSpecImpl<u8> for AncMode {
    open spec fn obeys_try_from_spec() -> bool {
        true
    }

    open spec fn try_from_spec(v: u8) -> Result<AncMode, Error> {
        match anc_mode_of(v) {
            Some(m) => Ok(m),
            None => Err(Error::UnknownAncMode(v)),
        }
    }
}

// ── Message Type ──

/// Kind of a protocol packet. Wire values: Request = 1, Response = 2,
/// Notify = 3.
#[derive(Debug, Clone, Copy, PartialEq, Eq, Structural)]
pub enum MessageType {
    Request,
    Response,
    Notify,
}

/// The wire value of a message type.
pub open spec fn message_type_value(m: MessageType) -> u8 {
    match m {
        MessageType::Request => 1,
        MessageType::Response => 2,
        MessageType::Notify => 3,
    }
}

/// The message type with a given wire value, if any.
pub open spec fn message_type_of(v: u8) -> Option<MessageType> {
    if v == 1 {
        Some(MessageType::Request)
    } else if v == 2 {
        Some(MessageType::Response)
    } else if v == 3 {
        Some(MessageType::Notify)
    } else {
        None
    }
}

impl MessageType {
    pub fn from_u8(value: u8) -> (r: Option<Self>)
        ensures
            r == message_type_of(value),
    {
        match value {
            1 => Some(Self::Request),
            2 => Some(Self::Response),
            3 => Some(Self::Notify),
            _ => None,
        }
    }

    /// The wire value of this message type.
    pub fn as_u8(self) -> (v: u8)
        ensures
            v == message_type_value(self),
    {
        match self {
            Self::Request => 1,
            Self::Response => 2,
            Self::Notify => 3,
        }
    }
}

impl From<MessageType> for u8 {
    fn from(m: MessageType) -> (v: u8) {
        m.as_u8()
    }
}

impl vstd::std_specs::convert::FromSpecImpl<MessageType> for u8 {
    open spec fn obeys_from_spec() -> bool {
        true
    }

    open spec fn from_spec(m: MessageType) -> u8 {
        message_type_value(m)
    }
}

impl TryFrom<u8> for MessageType {
    type Error = Error;

    fn try_from(value: u8) -> (r: Result<Self, Error>) {
        match Self::from_u8(value) {
            Some(m) => Ok(m),
            None => Err(Error::InvalidMessageType(value)),
        }
    }
}

impl vstd::std_specs::convert::TryFromSpecImpl<u8> for MessageType {
    open spec fn obeys_try_from_spec() -> bool {
        true
    }

    open spec fn try_from_spec(v: u8) -> Result<MessageType, Error> {
        match message_type_of(v) {
            Some(m) => Ok(m),
            None => Err(Error::InvalidMessageType(v)),
        }
    }
}

/// Decoding an ANC mode's wire value gives the mode back, and a byte decodes
/// to a mode exactly when it is that mode's wire value.
pub proof fn lemma_anc_mode_roundtrip(m: AncMode, v: u8)
    ensures
        anc_mode_of(anc_mode_value(m)) == Some(m),
        anc_mode_of(v) == Some(m) <==> anc_mode_value(m) == v,
        anc_mode_of(v) is Some <==> v <= 2,
{
}

/// Decoding a message type's wire value gives the type back, and a byte
/// decodes to a type exactly when it is that type's wire value.
pub proof fn lemma_message_type_roundtrip(m: MessageType, v: u8)
    ensures
        message_type_of(message_type_value(m)) == Some(m),
        message_type_of(v) == Some(m) <==> message_type_value(m) == v,
        message_type_of(v) is Some <==> 1 <= v <= 3,
{
}

// ── Mac Address ──

/// A Bluetooth MAC address, most significant byte first.
#[derive(Debug, Clone, Copy, PartialEq, Eq, Hash)]
pub struct MacAddress(pub [u8; 6]);

/// Colon-separated upper-case hex rendering of six bytes, e.g.
/// `AA:BB:CC:DD:EE:FF`.
pub open spec fn mac_text(a: Seq<u8>) -> Seq<char> {
    hex_byte_upper(a[0]) + seq![':'] + hex_byte_upper(a[1]) + seq![':'] + hex_byte_upper(a[2])
        + seq![':'] + hex_byte_upper(a[3]) + seq![':'] + hex_byte_upper(a[4]) + seq![':']
        + hex_byte_upper(a[5])
}

/// Renders six address bytes as `XX:XX:XX:XX:XX:XX`.
pub fn format_mac(a: &[u8; 6]) -> (s: String)
    ensures
        s@ == mac_text(a@),
{
    let mut s = String::new();
    let mut i: usize = 0;
    while i < 6
        invariant
            i <= 6,
            s@ == mac_prefix(a@, i as int),
        decreases 6 - i,
    {
        if i > 0 {
            push_char(&mut s, ':');
        }
        push_hex_byte_upper(&mut s, a[i]);
        i = i + 1;
    }
    assert(mac_prefix(a@, 6) =~= mac_text(a@)) by {
        reveal_with_fuel(mac_prefix, 7);
    }
    s
}

/// The rendering of the first `n` bytes of an address.
pub open spec fn mac_prefix(a: Seq<u8>, n: int) -> Seq<char>
    decreases n,
{
    if n <= 0 {
        seq![]
    } else if n == 1 {
        hex_byte_upper(a[0])
    } else {
        mac_prefix(a, n - 1) + seq![':'] + hex_byte_upper(a[n - 1])
    }
}

impl MacAddress {
    /// The address made of the first six bytes, if there are at least six.
    pub fn from_bytes(bytes: &[u8]) -> (r: Option<Self>)
        ensures
            bytes@.len() >= 6 <==> r is Some,
            r matches Some(m) ==> m.0@ == bytes@.subrange(0, 6),
    {
        if bytes.len() >= 6 {
            let addr = [bytes[0], bytes[1], bytes[2], bytes[3], bytes[4], bytes[5]];
            assert(addr@ =~= bytes@.subrange(0, 6));
            Some(Self(addr))
        } else {
            None
        }
    }

    /// `XX:XX:XX:XX:XX:XX` in upper-case hex.
    pub fn to_string(&self) -> (s: String)
        ensures
            s@ == mac_text(self.0@),
    {
        format_mac(&self.0)
    }
}

// ── Connection State ──

/// Where a connection to the earbuds stands.
#[derive(Debug, Clone)]
pub enum ConnectionState {
    Disconnected,
    Scanning,
    Connecting,
    Connected,
    Reconnecting,
    Failed(String),
}

/// Display text of a connection state.
pub open spec fn connection_state_text(s: ConnectionState) -> Seq<char> {
    match s {
        ConnectionState::Disconnected => "Disconnected"@,
        ConnectionState::Scanning => "Scanning"@,
        ConnectionState::Connecting => "Connecting"@,
        ConnectionState::Connected => "Connected"@,
        ConnectionState::Reconnecting => "Reconnecting"@,
        ConnectionState::Failed(msg) => "Failed: "@ + msg@,
    }
}

/// Two connection states are equal when they are the same variant and, for
/// `Failed`, carry the same message.
pub open spec fn connection_state_eq(a: ConnectionState, b: ConnectionState) -> bool {
    match (a, b) {
        (ConnectionState::Disconnected, ConnectionState::Disconnected) => true,
        (ConnectionState::Scanning, ConnectionState::Scanning) => true,
        (ConnectionState::Connecting, ConnectionState::Connecting) => true,
        (ConnectionState::Connected, ConnectionState::Connected) => true,
        (ConnectionState::Reconnecting, ConnectionState::Reconnecting) => true,
        (ConnectionState::Failed(x), ConnectionState::Failed(y)) => x@ == y@,
        _ => false,
    }
}

impl PartialEq for ConnectionState {
    fn eq(&self, other: &Self) -> (r: bool) {
        match (self, other) {
            (Self::Disconnected, Self::Disconnected) => true,
            (Self::Scanning, Self::Scanning) => true,
            (Self::Connecting, Self::Connecting) => true,
            (Self::Connected, Self::Connected) => true,
            (Self::Reconnecting, Self::Reconnecting) => true,
            (Self::Failed(x), Self::Failed(y)) => x.eq(y),
            _ => false,
        }
    }
}

impl vstd::std_specs::cmp::PartialEqSpecImpl for ConnectionState {
    open spec fn obeys_eq_spec() -> bool {
        true
    }

    open spec fn eq_spec(&self, other: &Self) -> bool {
        connection_state_eq(*self, *other)
    }
}

impl ConnectionState {
    /// The display text: the variant's name, or `Failed: <message>`.
    pub fn to_string(&self) -> (s: String)
        ensures
            s@ == connection_state_text(*self),
    {
        match self {
            Self::Disconnected => String::from_str("Disconnected"),
            Self::Scanning => String::from_str("Scanning"),
            Self::Connecting => String::from_str("Connecting"),
            Self::Connected => String::from_str("Connected"),
            Self::Reconnecting => String::from_str("Reconnecting"),
            Self::Failed(msg) => {
                let mut s = String::from_str("Failed: ");
                s.append(msg.as_str());
                s
            },
        }
    }
}

// ── Battery Level ──

/// Battery percentages of the left bud, the right bud and the case; `None`
/// where unknown.
#[derive(Debug, Clone, Copy, PartialEq, Eq, Structural)]
pub struct BatteryLevel {
    pub left: Option<u8>,
    pub right: Option<u8>,
    pub case: Option<u8>,
}

/// A percentage capped at 100.
pub open spec fn cap_percent(v: Option<u8>) -> Option<u8> {
    match v {
        Some(x) => Some(if x > 100 { 100u8 } else { x }),
        None => None,
    }
}

fn cap(v: Option<u8>) -> (r: Option<u8>)
    ensures
        r == cap_percent(v),
{
    match v {
        Some(x) => Some(if x > 100 { 100u8 } else { x }),
        None => None,
    }
}

/// One labelled part of a battery rendering, such as `L:80%`.
pub open spec fn battery_part(label: Seq<char>, v: Option<u8>) -> Seq<Seq<char>> {
    match v {
        Some(x) => seq![label + dec_nat(x as nat) + seq!['%']],
        None => seq![],
    }
}

/// Parts joined with a separator.
pub open spec fn join_parts(parts: Seq<Seq<char>>, sep: Seq<char>) -> Seq<char>
    decreases parts.len(),
{
    if parts.len() == 0 {
        seq![]
    } else if parts.len() == 1 {
        parts[0]
    } else {
        join_parts(parts.drop_last(), sep) + sep + parts.last()
    }
}

/// Display text of a battery level: the known parts joined by two spaces,
/// or `Unknown`.
pub open spec fn battery_text(b: BatteryLevel) -> Seq<char> {
    let parts = battery_part("L:"@, b.left) + battery_part("R:"@, b.right) + battery_part(
        "Case:"@,
        b.case,
    );
    if parts.len() == 0 {
        "Unknown"@
    } else {
        join_parts(parts, "  "@)
    }
}

fn push_part(parts: &mut Vec<String>, label: &str, v: Option<u8>)
    ensures
        final(parts)@.len() == old(parts)@.len() + battery_part(label@, v).len(),
        forall|i: int| 0 <= i < old(parts)@.len() ==> #[trigger] final(parts)@[i] == old(parts)@[i],
        forall|i: int|
            0 <= i < battery_part(label@, v).len() ==> #[trigger] final(parts)@[old(
                parts,
            )@.len() + i]@ == battery_part(label@, v)[i],
{
    if let Some(x) = v {
        let mut s = String::from_str(label);
        push_decimal_u64(&mut s, x as u64);
        push_char(&mut s, '%');
        parts.push(s);
    }
}

impl BatteryLevel {
    /// A battery level with each known percentage capped at 100.
    pub fn new(left: Option<u8>, right: Option<u8>, case: Option<u8>) -> (b: Self)
        ensures
            b.left == cap_percent(left),
            b.right == cap_percent(right),
            b.case == cap_percent(case),
    {
        Self { left: cap(left), right: cap(right), case: cap(case) }
    }

    /// Whether at least one percentage is known.
    pub fn is_known(&self) -> (r: bool)
        ensures
            r == (self.left is Some || self.right is Some || self.case is Some),
    {
        self.left.is_some() || self.right.is_some() || self.case.is_some()
    }

    /// The display text, e.g. `L:80%  R:75%  Case:40%`, or `Unknown`.
    pub fn to_string(&self) -> (s: String)
        ensures
            s@ == battery_text(*self),
    {
        let mut parts: Vec<String> = Vec::new();
        push_part(&mut parts, "L:", self.left);
        let ghost p1 = parts@;
        push_part(&mut parts, "R:", self.right);
        let ghost p2 = parts@;
        push_part(&mut parts, "Case:", self.case);
        let ghost spec_parts = battery_part("L:"@, self.left) + battery_part("R:"@, self.right)
            + battery_part("Case:"@, self.case);
        assert(parts@.len() == spec_parts.len());
        assert forall|i: int| 0 <= i < parts@.len() implies #[trigger] parts@[i]@
            == spec_parts[i] by {
            let a = battery_part("L:"@, self.left).len();
            let b = battery_part("R:"@, self.right).len();
            if i < a {
                assert(p1[0 + i]@ == battery_part("L:"@, self.left)[i]);
                assert(p2[i] == p1[i]);
            } else if i < a + b {
                assert(p2[a + (i - a)]@ == battery_part("R:"@, self.right)[i - a]);
            } else {
                assert(parts@[a + b + (i - a - b)]@ == battery_part("Case:"@, self.case)[i - a
                    - b]);
            }
        }
        if parts.len() == 0 {
            return String::from_str("Unknown");
        }
        join_strings(&parts, "  ", Ghost(spec_parts))
    }
}

/// Joins strings with a separator.
fn join_strings(parts: &Vec<String>, sep: &str, Ghost(spec_parts): Ghost<Seq<Seq<char>>>) -> (s:
    String)
    requires
        parts@.len() == spec_parts.len(),
        forall|i: int| 0 <= i < parts@.len() ==> #[trigger] parts@[i]@ == spec_parts[i],
    ensures
        s@ == join_parts(spec_parts, sep@),
{
    let mut s = String::new();
    let mut i: usize = 0;
    while i < parts.len()
        invariant
            i <= parts@.len(),
            parts@.len() == spec_parts.len(),
            forall|k: int| 0 <= k < parts@.len() ==> #[trigger] parts@[k]@ == spec_parts[k],
            s@ == join_parts(spec_parts.subrange(0, i as int), sep@),
        decreases parts@.len() - i,
    {
        let ghost before = spec_parts.subrange(0, i as int);
        if i > 0 {
            s.append(sep);
        }
        s.append(parts[i].as_str());
        i = i + 1;
        let ghost after = spec_parts.subrange(0, i as int);
        assert(after.drop_last() =~= before);
        if i == 1 {
            assert(s@ =~= join_parts(after, sep@));
        } else {
            assert(s@ =~= join_parts(after, sep@));
        }
    }
    assert(spec_parts.subrange(0, i as int) =~= spec_parts);
    s
}

} // verus!
