//! Decisions of the BLE link: recognising earbuds among scanned devices and
//! reading battery levels from characteristics and advertisements.
use crate::error::Error;
use crate::protocol::constants::{UUID_BATTERY_LEVEL, UUID_NOTIFY, UUID_WRITE};
use crate::protocol::packet::{parse_packet, Packet};
use crate::protocol::types::{cap_percent, BatteryLevel};
use crate::text::{chars_of, has_substring, hex_lower, lowercase, push_char, str_contains, to_lowercase};
use vstd::prelude::*;
use vstd::string::*;
use vstd::utf8::{decode_utf8, valid_utf8};

verus! {

/// The hex digit of a 128-bit value at position `k` (0 = most significant).
pub open spec fn nibble(v: u128, k: int) -> int {
    ((v >> ((124 - 4 * k) as u128)) & 0xFu128) as int
}

/// The index among the 32 hex digits of position `i` of a hyphenated UUID.
pub open spec fn uuid_digit_index(i: int) -> int {
    if i < 8 {
        i
    } else if i < 13 {
        i - 1
    } else if i < 18 {
        i - 2
    } else if i < 23 {
        i - 3
    } else {
        i - 4
    }
}

/// The hyphenated lower-case text of a UUID:
/// `xxxxxxxx-xxxx-xxxx-xxxx-xxxxxxxxxxxx`, most significant digit first.
pub open spec fn uuid_text(v: u128) -> Seq<char> {
    Seq::new(
        36,
        |i: int|
            if i == 8 || i == 13 || i == 18 || i == 23 {
                '-'
            } else {
                hex_lower(nibble(v, uuid_digit_index(i)))
            },
    )
}

/// The hyphenated text of a UUID given as a 128-bit value.
///
/// Trusted: calls `uuid::Uuid::from_u128` and its `Display`, which writes
/// the 16 big-endian bytes as 32 lower-case hex digits with hyphens after
/// the 8th, 12th, 16th and 20th digit.
#[verifier::external_body]
fn uuid_string(value: u128) -> (s: String)
    ensures
        s@ == uuid_text(value),
{
    uuid::Uuid::from_u128(value).to_string()
}

/// Whether a service UUID marks a SpaceBuds device: its lower-cased text
/// contains `ff17` or `fe2c`.
pub open spec fn spacebuds_service(v: u128) -> bool {
    has_substring(lowercase(uuid_text(v)), "ff17"@) || has_substring(
        lowercase(uuid_text(v)),
        "fe2c"@,
    )
}

/// Scans for SpaceBuds devices.
pub struct DeviceScanner;

impl DeviceScanner {
    /// Whether any advertised service UUID is SpaceBuds-compatible.
    pub fn is_spacebuds(services: &[u128]) -> (r: bool)
        ensures
            r == exists|i: int| 0 <= i < services@.len() && spacebuds_service(#[trigger] services@[i]),
    {
        let mut i: usize = 0;
        while i < services.len()
            invariant
                i <= services@.len(),
                forall|k: int| 0 <= k < i ==> !spacebuds_service(#[trigger] services@[k]),
            decreases services@.len() - i,
        {
            let text = uuid_string(services[i]);
            let lower = to_lowercase(text.as_str());
            if str_contains(lower.as_str(), "ff17") || str_contains(lower.as_str(), "fe2c") {
                assert(spacebuds_service(services@[i as int]));
                return true;
            }
            i = i + 1;
        }
        false
    }

    /// Whether two addresses are the same once lower-cased.
    pub fn same_address(a: &str, b: &str) -> (r: bool)
        ensures
            r == (lowercase(a@) == lowercase(b@)),
    {
        to_lowercase(a) == to_lowercase(b)
    }

    /// Whether a peripheral the system is already connected to can be
    /// reused: its address is the one asked for (ignoring case), if one is,
    /// and it has both the write and the notify characteristic or
    /// advertises a SpaceBuds service.
    pub fn is_reusable_connection(
        target: Option<&str>,
        address: &str,
        characteristics: &[u128],
        services: &[u128],
    ) -> (r: bool)
        ensures
            r == ((match target {
                Some(t) => lowercase(address@) == lowercase(t@),
                None => true,
            }) && ((!lacks(characteristics@, UUID_WRITE) && !lacks(characteristics@, UUID_NOTIFY))
                || exists|i: int| 0 <= i < services@.len() && spacebuds_service(#[trigger] services@[i]))),
    {
        if let Some(t) = target {
            if !Self::same_address(address, t) {
                return false;
            }
        }
        let has_write = find_uuid(characteristics, UUID_WRITE).is_some();
        let has_notify = find_uuid(characteristics, UUID_NOTIFY).is_some();
        if has_write && has_notify {
            return true;
        }
        Self::is_spacebuds(services)
    }

    /// What follows a failed scan attempt (counted from 1): another attempt
    /// while attempts remain, else "device not found" naming the number
    /// of attempts allowed.
    pub fn after_failed_attempt(attempt: usize, max_retries: usize) -> (r: Option<Error>)
        ensures
            attempt < max_retries ==> r is None,
            attempt >= max_retries ==> (r matches Some(Error::DeviceNotFound { retries })
                && retries == max_retries),
    {
        if attempt < max_retries {
            None
        } else {
            Some(Error::DeviceNotFound { retries: max_retries })
        }
    }

    /// Whether to wait for late advertisement names: some found device has
    /// no advertised name, or an empty one.
    pub fn needs_name_wait(local_names: &Vec<Option<String>>) -> (r: bool)
        ensures
            r == exists|i: int|
                0 <= i < local_names@.len() && match #[trigger] local_names@[i] {
                    Some(n) => n@.len() == 0,
                    None => true,
                },
    {
        let mut i: usize = 0;
        while i < local_names.len()
            invariant
                i <= local_names@.len(),
                forall|k: int|
                    0 <= k < i ==> match #[trigger] local_names@[k] {
                        Some(n) => n@.len() != 0,
                        None => false,
                    },
            decreases local_names@.len() - i,
        {
            match &local_names[i] {
                Some(n) => {
                    if n.as_str().unicode_len() == 0 {
                        return true;
                    }
                },
                None => {
                    return true;
                },
            }
            i += 1;
        }
        false
    }

    /// The name a scanned device is shown with: its advertised name if it
    /// has a non-empty one; else the GAP device name read from it, if that
    /// is valid UTF-8 and not empty once NULs at either end are dropped;
    /// else its address.
    pub fn resolve_device_name(
        local_name: Option<String>,
        gap_value: Option<Vec<u8>>,
        address: String,
    ) -> (r: String)
        ensures
            r@ == device_name(
                match local_name {
                    Some(n) => Some(n@),
                    None => None,
                },
                match gap_value {
                    Some(v) => Some(v@),
                    None => None,
                },
                address@,
            ),
    {
        if let Some(n) = local_name {
            if n.as_str().unicode_len() > 0 {
                return n;
            }
        }
        if let Some(v) = gap_value {
            if let Some(text) = utf8_text(v) {
                let trimmed = trim_nul(text.as_str());
                if trimmed.as_str().unicode_len() > 0 {
                    return trimmed;
                }
            }
        }
        address
    }
}

/// The text a UTF-8 byte string encodes, if it is valid UTF-8.
///
/// Trusted: calls `String::from_utf8`, which std documents as succeeding
/// exactly on valid UTF-8 and keeping the bytes as the string's contents;
/// the contract states this with vstd's UTF-8 definitions.
#[verifier::external_body]
fn utf8_text(bytes: Vec<u8>) -> (r: Option<String>)
    ensures
        match r {
            Some(s) => valid_utf8(bytes@) && s@ == decode_utf8(bytes@),
            None => !valid_utf8(bytes@),
        },
{
    String::from_utf8(bytes).ok()
}

/// `s` without its leading NUL characters.
pub open spec fn strip_leading_nul(s: Seq<char>) -> Seq<char>
    decreases s.len(),
{
    if s.len() > 0 && s[0] == '\0' {
        strip_leading_nul(s.drop_first())
    } else {
        s
    }
}

/// `s` without its trailing NUL characters.
pub open spec fn strip_trailing_nul(s: Seq<char>) -> Seq<char>
    decreases s.len(),
{
    if s.len() > 0 && s.last() == '\0' {
        strip_trailing_nul(s.drop_last())
    } else {
        s
    }
}

/// `s` without NUL characters at either end.
pub open spec fn strip_nul(s: Seq<char>) -> Seq<char> {
    strip_trailing_nul(strip_leading_nul(s))
}

proof fn lemma_strip_leading(s: Seq<char>, i: int)
    requires
        0 <= i <= s.len(),
        forall|k: int| 0 <= k < i ==> s[k] == '\0',
        i < s.len() ==> s[i] != '\0',
    ensures
        strip_leading_nul(s) == s.subrange(i, s.len() as int),
    decreases i,
{
    if i == 0 {
        if s.len() == 0 {
            assert(s.subrange(0, 0) =~= s);
        } else {
            assert(s.subrange(0, s.len() as int) =~= s);
        }
    } else {
        let t = s.drop_first();
        assert forall|k: int| 0 <= k < i - 1 implies t[k] == '\0' by {
            assert(t[k] == s[k + 1]);
        }
        lemma_strip_leading(t, i - 1);
        assert(t.subrange(i - 1, t.len() as int) =~= s.subrange(i, s.len() as int));
    }
}

proof fn lemma_strip_trailing(s: Seq<char>, j: int)
    requires
        0 <= j <= s.len(),
        forall|k: int| j <= k < s.len() ==> s[k] == '\0',
        j > 0 ==> s[j - 1] != '\0',
    ensures
        strip_trailing_nul(s) == s.subrange(0, j),
    decreases s.len() - j,
{
    if j == s.len() {
        assert(s.subrange(0, j) =~= s);
    } else {
        let t = s.drop_last();
        lemma_strip_trailing(t, j);
        assert(t.subrange(0, j) =~= s.subrange(0, j));
    }
}

/// Drops the NUL characters at both ends of a text.
fn trim_nul(text: &str) -> (r: String)
    ensures
        r@ == strip_nul(text@),
{
    let c = chars_of(text);
    let n = c.len();
    let mut i: usize = 0;
    while i < n && c[i] == '\0'
        invariant
            i <= n,
            n == c@.len(),
            forall|k: int| 0 <= k < i ==> c@[k] == '\0',
        decreases n - i,
    {
        i += 1;
    }
    let mut j: usize = n;
    while j > i && c[j - 1] == '\0'
        invariant
            i <= j <= n,
            n == c@.len(),
            forall|k: int| j <= k < n ==> c@[k] == '\0',
        decreases j,
    {
        j -= 1;
    }
    proof {
        lemma_strip_leading(c@, i as int);
        let t = c@.subrange(i as int, n as int);
        assert forall|k: int| j - i <= k < t.len() implies t[k] == '\0' by {
            assert(t[k] == c@[k + i]);
        }
        if j > i {
            assert(t[j - i - 1] == c@[j - 1]);
        }
        lemma_strip_trailing(t, j - i);
        assert(t.subrange(0, j - i) =~= c@.subrange(i as int, j as int));
    }
    let mut r = String::new();
    let mut k: usize = i;
    while k < j
        invariant
            i <= k <= j <= n,
            n == c@.len(),
            r@ == c@.subrange(i as int, k as int),
        decreases j - k,
    {
        push_char(&mut r, c[k]);
        assert(c@.subrange(i as int, k + 1) =~= c@.subrange(i as int, k as int).push(c@[k as int]));
        k += 1;
    }
    r
}

/// The name a scanned device is shown with: its advertised name if it has
/// a non-empty one; else the GAP device name read from it, if that is valid
/// UTF-8 and not empty once NULs at either end are dropped; else its
/// address.
pub open spec fn device_name(
    local_name: Option<Seq<char>>,
    gap_value: Option<Seq<u8>>,
    address: Seq<char>,
) -> Seq<char> {
    if local_name is Some && local_name->0.len() > 0 {
        local_name->0
    } else if gap_value is Some && valid_utf8(gap_value->0) && strip_nul(
        decode_utf8(gap_value->0),
    ).len() > 0 {
        strip_nul(decode_utf8(gap_value->0))
    } else {
        address
    }
}

/// A counter of request sequence numbers; it wraps after 255.
#[derive(Debug, Clone, Copy)]
pub struct SequenceCounter {
    next: u8,
}

impl SequenceCounter {
    /// The number the next request gets.
    pub closed spec fn peek(self) -> u8 {
        self.next
    }

    /// A counter starting at 0.
    pub fn new() -> (c: Self)
        ensures
            c.peek() == 0,
    {
        SequenceCounter { next: 0 }
    }

    /// Hands out the next sequence number.
    pub fn next_seq(&mut self) -> (s: u8)
        ensures
            s == old(self).peek(),
            final(self).peek() == (if s == 255 {
                0
            } else {
                s + 1
            }),
    {
        let current = self.next;
        self.next = current.wrapping_add(1);
        current
    }
}

/// The level a battery characteristic or notification reports: its first
/// byte, capped at 100, for both buds; no case level.
pub open spec fn characteristic_battery(v: Seq<u8>) -> Option<BatteryLevel> {
    if v.len() == 0 {
        None
    } else {
        let l = cap_percent(Some(v[0]));
        Some(BatteryLevel { left: l, right: l, case: None })
    }
}

/// Reads a battery characteristic value (or notification).
pub fn battery_from_characteristic(value: &[u8]) -> (r: Option<BatteryLevel>)
    ensures
        r == characteristic_battery(value@),
{
    if value.is_empty() {
        return None;
    }
    let v = value[0];
    let level = if v > 100 {
        100
    } else {
        v
    };
    Some(BatteryLevel::new(Some(level), Some(level), None))
}

/// The levels carried in one manufacturer-data entry: entries of at least
/// four bytes starting 0x06 or 0x07 hold left, right and case levels in
/// bytes 1-3, each capped at 100.
pub open spec fn advertised_battery(d: Seq<u8>) -> Option<BatteryLevel> {
    if d.len() >= 4 && (d[0] == 0x06 || d[0] == 0x07) {
        Some(
            BatteryLevel {
                left: cap_percent(Some(d[1])),
                right: cap_percent(Some(d[2])),
                case: cap_percent(Some(d[3])),
            },
        )
    } else {
        None
    }
}

/// Reads battery levels from one manufacturer-data entry.
pub fn battery_from_manufacturer_data(data: &[u8]) -> (r: Option<BatteryLevel>)
    ensures
        r == advertised_battery(data@),
{
    if data.len() >= 4 && (data[0] == 0x06 || data[0] == 0x07) {
        Some(BatteryLevel::new(Some(data[1]), Some(data[2]), Some(data[3])))
    } else {
        None
    }
}

// ── Characteristics and notifications ──

/// The characteristics a connection uses, by their index in the discovered
/// list: where commands are written, where replies arrive, and the battery
/// level if the device has one.
#[derive(Debug, Clone, Copy, PartialEq, Eq, Structural)]
pub struct CharacteristicPlan {
    pub write: usize,
    pub notify: usize,
    pub battery: Option<usize>,
}

/// Whether `k` is the first index in `uuids` holding `u`.
pub open spec fn first_with(uuids: Seq<u128>, u: u128, k: int) -> bool {
    0 <= k < uuids.len() && uuids[k] == u && forall|j: int| 0 <= j < k ==> uuids[j] != u
}

/// Whether no entry of `uuids` is `u`.
pub open spec fn lacks(uuids: Seq<u128>, u: u128) -> bool {
    forall|j: int| 0 <= j < uuids.len() ==> uuids[j] != u
}

fn find_uuid(uuids: &[u128], u: u128) -> (r: Option<usize>)
    ensures
        match r {
            Some(k) => first_with(uuids@, u, k as int),
            None => lacks(uuids@, u),
        },
{
    let mut i: usize = 0;
    while i < uuids.len()
        invariant
            i <= uuids@.len(),
            forall|j: int| 0 <= j < i ==> uuids@[j] != u,
        decreases uuids@.len() - i,
    {
        if uuids[i] == u {
            return Some(i);
        }
        i += 1;
    }
    None
}

/// Picks the characteristics of a connection from the discovered UUIDs:
/// the first write and notify characteristics are required, in that order;
/// the first battery level characteristic is used if there is one.
pub fn plan_characteristics(uuids: &[u128]) -> (r: Result<CharacteristicPlan, Error>)
    ensures
        lacks(uuids@, UUID_WRITE) ==> r matches Err(Error::WriteCharNotFound),
        !lacks(uuids@, UUID_WRITE) && lacks(uuids@, UUID_NOTIFY) ==> r matches Err(
            Error::NotifyCharNotFound,
        ),
        !lacks(uuids@, UUID_WRITE) && !lacks(uuids@, UUID_NOTIFY) ==> (r matches Ok(p) && first_with(
            uuids@,
            UUID_WRITE,
            p.write as int,
        ) && first_with(uuids@, UUID_NOTIFY, p.notify as int) && match p.battery {
            Some(b) => first_with(uuids@, UUID_BATTERY_LEVEL, b as int),
            None => lacks(uuids@, UUID_BATTERY_LEVEL),
        }),
{
    let write = match find_uuid(uuids, UUID_WRITE) {
        Some(w) => w,
        None => return Err(Error::WriteCharNotFound),
    };
    let notify = match find_uuid(uuids, UUID_NOTIFY) {
        Some(n) => n,
        None => return Err(Error::NotifyCharNotFound),
    };
    let battery = find_uuid(uuids, UUID_BATTERY_LEVEL);
    Ok(CharacteristicPlan { write, notify, battery })
}

/// Whether the battery characteristic is subscribed to: when it notifies
/// or indicates.
pub fn battery_subscribable(notify: bool, indicate: bool) -> (r: bool)
    ensures
        r == (notify || indicate),
{
    notify || indicate
}

/// What a notification carries.
#[derive(Debug)]
pub enum Notification {
    /// A battery level from the battery characteristic.
    Battery(BatteryLevel),
    /// A reply packet from the notify characteristic.
    Response(Packet),
    /// Anything else: another characteristic, an empty battery value or
    /// bytes that are not a packet.
    Ignored,
}

/// Sorts a notification by the characteristic it came from.
pub fn route_notification(uuid: u128, value: &[u8]) -> (r: Notification)
    ensures
        uuid == UUID_BATTERY_LEVEL ==> match characteristic_battery(value@) {
            Some(b) => r == Notification::Battery(b),
            None => r is Ignored,
        },
        uuid != UUID_BATTERY_LEVEL && uuid == UUID_NOTIFY ==> match parse_packet(value@) {
            Some(pv) => r matches Notification::Response(p) && p@ == pv,
            None => r is Ignored,
        },
        uuid != UUID_BATTERY_LEVEL && uuid != UUID_NOTIFY ==> r is Ignored,
{
    if uuid == UUID_BATTERY_LEVEL {
        match battery_from_characteristic(value) {
            Some(b) => Notification::Battery(b),
            None => Notification::Ignored,
        }
    } else if uuid == UUID_NOTIFY {
        match Packet::from_bytes(value) {
            Some(p) => Notification::Response(p),
            None => Notification::Ignored,
        }
    } else {
        Notification::Ignored
    }
}

/// The battery level of a connected device: the first non-empty value read
/// from a battery characteristic; failing that, the first manufacturer-data
/// entry carrying levels; failing that, unknown.
pub open spec fn battery_from_sources(reads: Seq<Seq<u8>>, adverts: Seq<Seq<u8>>) -> BatteryLevel
    decreases reads.len() + adverts.len(),
{
    if reads.len() > 0 {
        match characteristic_battery(reads[0]) {
            Some(b) => b,
            None => battery_from_sources(reads.drop_first(), adverts),
        }
    } else if adverts.len() > 0 {
        match advertised_battery(adverts[0]) {
            Some(b) => b,
            None => battery_from_sources(reads, adverts.drop_first()),
        }
    } else {
        BatteryLevel { left: None, right: None, case: None }
    }
}

/// The views of a list of byte strings.
pub open spec fn byte_views(v: Seq<Vec<u8>>) -> Seq<Seq<u8>> {
    v.map_values(|e: Vec<u8>| e@)
}

/// Works out the battery level from the values read from battery
/// characteristics and the manufacturer-data entries.
pub fn battery_level_from(reads: &Vec<Vec<u8>>, adverts: &Vec<Vec<u8>>) -> (r: BatteryLevel)
    ensures
        r == battery_from_sources(byte_views(reads@), byte_views(adverts@)),
{
    let ghost rv = byte_views(reads@);
    let ghost av = byte_views(adverts@);
    let mut i: usize = 0;
    assert(rv.subrange(0, rv.len() as int) =~= rv);
    while i < reads.len()
        invariant
            i <= reads@.len(),
            rv == byte_views(reads@),
            av == byte_views(adverts@),
            battery_from_sources(rv, av) == battery_from_sources(rv.subrange(i as int, rv.len() as int), av),
        decreases reads@.len() - i,
    {
        let ghost rest = rv.subrange(i as int, rv.len() as int);
        assert(rest[0] == reads@[i as int]@);
        assert(rest.drop_first() =~= rv.subrange(i + 1, rv.len() as int));
        if let Some(b) = battery_from_characteristic(reads[i].as_slice()) {
            return b;
        }
        i += 1;
    }
    let ghost none: Seq<Seq<u8>> = seq![];
    assert(rv.subrange(rv.len() as int, rv.len() as int) =~= none);
    let mut j: usize = 0;
    assert(av.subrange(0, av.len() as int) =~= av);
    while j < adverts.len()
        invariant
            j <= adverts@.len(),
            av == byte_views(adverts@),
            rv == byte_views(reads@),
            none.len() == 0,
            battery_from_sources(rv, av) == battery_from_sources(none, av.subrange(j as int, av.len() as int)),
        decreases adverts@.len() - j,
    {
        let ghost rest = av.subrange(j as int, av.len() as int);
        assert(rest[0] == adverts@[j as int]@);
        assert(rest.drop_first() =~= av.subrange(j + 1, av.len() as int));
        if let Some(b) = battery_from_manufacturer_data(adverts[j].as_slice()) {
            return b;
        }
        j += 1;
    }
    BatteryLevel::new(None, None, None)
}

} // verus!
