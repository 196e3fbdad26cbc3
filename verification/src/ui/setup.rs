//! Wording of the setup screen: errors, signal strength and how long ago a
//! device was used.
use crate::ipc::ScannedDevice;
use crate::text::{dec_nat, has_substring, lowercase, push_decimal_u64, str_contains, to_lowercase};
use vstd::prelude::*;
use vstd::string::*;

verus! {

/// What the setup screen tells the user for an error text. The checks run
/// in order on the lower-cased text; an error matching none is shown with
/// its details.
pub open spec fn friendly_error_text(err: Seq<char>) -> Seq<char> {
    let l = lowercase(err);
    if has_substring(l, "connection refused"@) || has_substring(l, "no such file"@) {
        "SpacePods service isn't running.\nStart it with: spacepods service"@
    } else if has_substring(l, "timeout"@) || has_substring(l, "timed out"@) {
        "The operation took too long.\nMake sure your earbuds are nearby and in pairing mode."@
    } else if has_substring(l, "not found"@) || has_substring(l, "device not found"@) {
        "No SpaceBuds found.\nMake sure they're in pairing mode (LED flashing) and nearby."@
    } else if has_substring(l, "permission"@) || has_substring(l, "denied"@) {
        "Bluetooth permission issue.\nCheck that Bluetooth is enabled and accessible."@
    } else if has_substring(l, "bluetooth"@) || has_substring(l, "adapter"@) {
        "A Bluetooth error occurred.\nTry toggling Bluetooth off and on again."@
    } else if has_substring(l, "not connected"@) {
        "Not connected to earbuds.\nSelect a device and tap Connect."@
    } else {
        "Something went wrong.\n\nDetails: "@ + err
    }
}

/// Turns an error text into advice for the user.
pub fn friendly_error(err: &str) -> (r: String)
    ensures
        r@ == friendly_error_text(err@),
{
    let lower = to_lowercase(err);
    let l = lower.as_str();
    if str_contains(l, "connection refused") || str_contains(l, "no such file") {
        String::from_str("SpacePods service isn't running.\nStart it with: spacepods service")
    } else if str_contains(l, "timeout") || str_contains(l, "timed out") {
        String::from_str(
            "The operation took too long.\nMake sure your earbuds are nearby and in pairing mode.",
        )
    } else if str_contains(l, "not found") || str_contains(l, "device not found") {
        String::from_str(
            "No SpaceBuds found.\nMake sure they're in pairing mode (LED flashing) and nearby.",
        )
    } else if str_contains(l, "permission") || str_contains(l, "denied") {
        String::from_str("Bluetooth permission issue.\nCheck that Bluetooth is enabled and accessible.")
    } else if str_contains(l, "bluetooth") || str_contains(l, "adapter") {
        String::from_str("A Bluetooth error occurred.\nTry toggling Bluetooth off and on again.")
    } else if str_contains(l, "not connected") {
        String::from_str("Not connected to earbuds.\nSelect a device and tap Connect.")
    } else {
        let mut s = String::from_str("Something went wrong.\n\nDetails: ");
        s.append(err);
        s
    }
}

/// The first line of the advice for an error text.
pub open spec fn friendly_error_title(err: Seq<char>) -> Seq<char> {
    let l = lowercase(err);
    if has_substring(l, "connection refused"@) || has_substring(l, "no such file"@) {
        "SpacePods service isn't running."@
    } else if has_substring(l, "timeout"@) || has_substring(l, "timed out"@) {
        "The operation took too long."@
    } else if has_substring(l, "not found"@) || has_substring(l, "device not found"@) {
        "No SpaceBuds found."@
    } else if has_substring(l, "permission"@) || has_substring(l, "denied"@) {
        "Bluetooth permission issue."@
    } else if has_substring(l, "bluetooth"@) || has_substring(l, "adapter"@) {
        "A Bluetooth error occurred."@
    } else if has_substring(l, "not connected"@) {
        "Not connected to earbuds."@
    } else {
        "Something went wrong."@
    }
}

/// The status line the setup screen shows for an error: the first line
/// of the advice, then the error itself.
pub fn error_status_text(err: &str) -> (r: String)
    ensures
        r@ == friendly_error_title(err@) + ": "@ + err@,
{
    let lower = to_lowercase(err);
    let l = lower.as_str();
    let title = if str_contains(l, "connection refused") || str_contains(l, "no such file") {
        "SpacePods service isn't running."
    } else if str_contains(l, "timeout") || str_contains(l, "timed out") {
        "The operation took too long."
    } else if str_contains(l, "not found") || str_contains(l, "device not found") {
        "No SpaceBuds found."
    } else if str_contains(l, "permission") || str_contains(l, "denied") {
        "Bluetooth permission issue."
    } else if str_contains(l, "bluetooth") || str_contains(l, "adapter") {
        "A Bluetooth error occurred."
    } else if str_contains(l, "not connected") {
        "Not connected to earbuds."
    } else {
        "Something went wrong."
    };
    let mut s = String::from_str(title);
    s.append(": ");
    s.append(err);
    s
}

/// How near a device is, by its signal strength in dBm.
pub open spec fn rssi_label_text(rssi: Option<i16>) -> Seq<char> {
    match rssi {
        None => ""@,
        Some(v) => if v >= -50 {
            "Very close"@
        } else if v >= -65 {
            "Near"@
        } else if v >= -80 {
            "Far"@
        } else {
            "Distant"@
        },
    }
}

/// The style class that colours the signal label.
pub open spec fn rssi_css_class(rssi: Option<i16>) -> Seq<char> {
    match rssi {
        None => "dim-label"@,
        Some(v) => if v >= -50 {
            "success"@
        } else if v >= -65 {
            "accent"@
        } else if v >= -80 {
            "warning"@
        } else {
            "dim-label"@
        },
    }
}

/// Words how near a device is.
pub fn rssi_label(rssi: Option<i16>) -> (r: &'static str)
    ensures
        r@ == rssi_label_text(rssi),
{
    match rssi {
        None => "",
        Some(v) => if v >= -50 {
            "Very close"
        } else if v >= -65 {
            "Near"
        } else if v >= -80 {
            "Far"
        } else {
            "Distant"
        },
    }
}

/// Picks the style class of the signal label.
pub fn rssi_css(rssi: Option<i16>) -> (r: &'static str)
    ensures
        r@ == rssi_css_class(rssi),
{
    match rssi {
        None => "dim-label",
        Some(v) => if v >= -50 {
            "success"
        } else if v >= -65 {
            "accent"
        } else if v >= -80 {
            "warning"
        } else {
            "dim-label"
        },
    }
}

/// How long ago a device was last used, seen at `now` (both in seconds
/// since the Unix epoch). Past a week the count of months is taken from
/// the timestamp itself.
pub open spec fn last_used_text(timestamp: u64, now: u64) -> Seq<char> {
    let diff: int = if now >= timestamp {
        now - timestamp
    } else {
        0
    };
    if diff < 60 {
        "Just now"@
    } else if diff < 3600 {
        dec_nat((diff / 60) as nat) + "m ago"@
    } else if diff < 86400 {
        dec_nat((diff / 3600) as nat) + "h ago"@
    } else if diff < 604800 {
        dec_nat((diff / 86400) as nat) + "d ago"@
    } else {
        let months = (timestamp / 86400) / 30;
        if months < 12 {
            dec_nat(months as nat) + "mo ago"@
        } else {
            dec_nat((months / 12) as nat) + "y ago"@
        }
    }
}

fn count_with_unit(n: u64, unit: &str) -> (s: String)
    ensures
        s@ == dec_nat(n as nat) + unit@,
{
    let mut s = String::new();
    push_decimal_u64(&mut s, n);
    s.append(unit);
    s
}

/// Words how long ago a device was last used.
pub fn format_last_used(timestamp: u64, now: u64) -> (r: String)
    ensures
        r@ == last_used_text(timestamp, now),
{
    let diff = now.saturating_sub(timestamp);
    if diff < 60 {
        String::from_str("Just now")
    } else if diff < 3600 {
        count_with_unit(diff / 60, "m ago")
    } else if diff < 86400 {
        count_with_unit(diff / 3600, "h ago")
    } else if diff < 604800 {
        count_with_unit(diff / 86400, "d ago")
    } else {
        let months = (timestamp / 86400) / 30;
        if months < 12 {
            count_with_unit(months, "mo ago")
        } else {
            count_with_unit(months / 12, "y ago")
        }
    }
}

// ── Scanned devices ──

/// The name a scanned device is listed under: its product name, unless
/// that is unknown, empty or the generic `Oraimo SpaceBuds`, in which case
/// its advertised name.
pub open spec fn display_name_of(d: ScannedDevice) -> Seq<char> {
    let product = match d.product_name {
        Some(p) => p@,
        None => "SpaceBuds"@,
    };
    if product == "Oraimo SpaceBuds"@ || product.len() == 0 {
        d.name@
    } else {
        product
    }
}

/// Names a scanned device.
pub fn display_name(d: &ScannedDevice) -> (r: String)
    ensures
        r@ == display_name_of(*d),
{
    let product = match &d.product_name {
        Some(p) => p.clone(),
        None => String::from_str("SpaceBuds"),
    };
    if product == String::from_str("Oraimo SpaceBuds") || product.as_str().unicode_len() == 0 {
        d.name.clone()
    } else {
        product
    }
}

/// The second line of a scanned device's row: its advertised name when
/// that is not what it is listed under, else its address.
pub fn detail_line(d: &ScannedDevice) -> (r: String)
    ensures
        r@ == (if d.name@ != display_name_of(*d) {
            d.name@
        } else {
            d.address@
        }),
{
    let shown = display_name(d);
    if d.name != shown {
        d.name.clone()
    } else {
        d.address.clone()
    }
}

/// A battery level, or `?` when unknown.
pub open spec fn level_or_unknown(v: Option<u8>) -> Seq<char> {
    match v {
        Some(b) => dec_nat(b as nat),
        None => "?"@,
    }
}

/// The battery text of a scanned device: the buds' levels when either is
/// known, with the case's when known.
pub open spec fn scan_battery_text(d: ScannedDevice) -> Option<Seq<char>> {
    if d.battery_left is Some || d.battery_right is Some {
        let buds = "L:"@ + level_or_unknown(d.battery_left) + "% / R:"@ + level_or_unknown(
            d.battery_right,
        ) + "%"@;
        Some(
            match d.battery_case {
                Some(c) => buds + "  C:"@ + dec_nat(c as nat) + "%"@,
                None => buds,
            },
        )
    } else {
        None
    }
}

fn push_level_or_unknown(s: &mut String, v: Option<u8>)
    ensures
        final(s)@ == old(s)@ + level_or_unknown(v),
{
    match v {
        Some(b) => push_decimal_u64(s, b as u64),
        None => s.append("?"),
    }
}

/// Words the battery levels a scanned device advertises.
pub fn scan_battery_line(d: &ScannedDevice) -> (r: Option<String>)
    ensures
        match scan_battery_text(*d) {
            Some(t) => r matches Some(s) && s@ == t,
            None => r is None,
        },
{
    if d.battery_left.is_some() || d.battery_right.is_some() {
        let mut s = String::from_str("L:");
        push_level_or_unknown(&mut s, d.battery_left);
        s.append("% / R:");
        push_level_or_unknown(&mut s, d.battery_right);
        s.append("%");
        if let Some(c) = d.battery_case {
            s.append("  C:");
            push_decimal_u64(&mut s, c as u64);
            s.append("%");
        }
        Some(s)
    } else {
        None
    }
}

/// The label of a beacon version: `V` and the number.
pub fn beacon_version_label(v: u8) -> (r: String)
    ensures
        r@ == "V"@ + dec_nat(v as nat),
{
    let mut s = String::from_str("V");
    push_decimal_u64(&mut s, v as u64);
    s
}

/// The signal strength a device is sorted by; unknown counts as -100 dBm.
pub open spec fn signal_of(d: ScannedDevice) -> i16 {
    match d.rssi {
        Some(v) => v,
        None => -100i16,
    }
}

/// `s` with `d` placed before the first entry whose signal is not
/// stronger than `d`'s.
pub open spec fn insert_by_signal(s: Seq<ScannedDevice>, d: ScannedDevice) -> Seq<ScannedDevice>
    decreases s.len(),
{
    if s.len() == 0 {
        seq![d]
    } else if signal_of(s[0]) <= signal_of(d) {
        seq![d] + s
    } else {
        seq![s[0]] + insert_by_signal(s.drop_first(), d)
    }
}

/// The scan results ordered by proximity: strongest signal first, and
/// among equal signals the one found later first, as sorting by signal
/// (stably, weakest first) and then reversing orders them.
pub open spec fn by_proximity(s: Seq<ScannedDevice>) -> Seq<ScannedDevice>
    decreases s.len(),
{
    if s.len() == 0 {
        s
    } else {
        insert_by_signal(by_proximity(s.drop_last()), s.last())
    }
}

proof fn lemma_insert_signal_at(s: Seq<ScannedDevice>, d: ScannedDevice, k: int)
    requires
        0 <= k <= s.len(),
        forall|i: int| 0 <= i < k ==> signal_of(s[i]) > signal_of(d),
        k < s.len() ==> signal_of(s[k]) <= signal_of(d),
    ensures
        insert_by_signal(s, d) == s.insert(k, d),
    decreases k,
{
    if s.len() == 0 {
        assert(s.insert(k, d) =~= seq![d]);
    } else if k == 0 {
        assert(s.insert(0, d) =~= seq![d] + s);
    } else {
        let t = s.drop_first();
        assert forall|i: int| 0 <= i < k - 1 implies signal_of(t[i]) > signal_of(d) by {
            assert(t[i] == s[i + 1]);
        }
        lemma_insert_signal_at(t, d, k - 1);
        assert(s.insert(k, d) =~= seq![s[0]] + t.insert(k - 1, d));
    }
}

/// Strongest signal first.
pub open spec fn is_by_signal(s: Seq<ScannedDevice>) -> bool {
    forall|i: int, j: int| 0 <= i < j < s.len() ==> signal_of(s[i]) >= signal_of(s[j])
}

proof fn lemma_insert_signal_contents(s: Seq<ScannedDevice>, d: ScannedDevice)
    ensures
        insert_by_signal(s, d).len() == s.len() + 1,
        forall|x: ScannedDevice| #[trigger]
            insert_by_signal(s, d).contains(x) ==> (x == d || s.contains(x)),
    decreases s.len(),
{
    if s.len() > 0 && signal_of(s[0]) > signal_of(d) {
        let t = s.drop_first();
        lemma_insert_signal_contents(t, d);
        let r = insert_by_signal(s, d);
        assert forall|x: ScannedDevice| #[trigger] r.contains(x) implies (x == d || s.contains(x)) by {
            let i = choose|i: int| 0 <= i < r.len() && r[i] == x;
            if i == 0 {
                assert(s[0] == x);
            } else {
                assert(insert_by_signal(t, d)[i - 1] == x);
                assert(insert_by_signal(t, d).contains(x));
                if x != d {
                    let j = choose|j: int| 0 <= j < t.len() && t[j] == x;
                    assert(s[j + 1] == x);
                }
            }
        }
    } else if s.len() > 0 {
        let r = insert_by_signal(s, d);
        assert forall|x: ScannedDevice| #[trigger] r.contains(x) implies (x == d || s.contains(x)) by {
            let i = choose|i: int| 0 <= i < r.len() && r[i] == x;
            if i > 0 {
                assert(s[i - 1] == x);
            }
        }
    } else {
        let r = insert_by_signal(s, d);
        assert forall|x: ScannedDevice| #[trigger] r.contains(x) implies (x == d || s.contains(x)) by {
            let i = choose|i: int| 0 <= i < r.len() && r[i] == x;
            assert(r[i] == d);
        }
    }
}

proof fn lemma_insert_signal_ordered(s: Seq<ScannedDevice>, d: ScannedDevice)
    requires
        is_by_signal(s),
    ensures
        is_by_signal(insert_by_signal(s, d)),
    decreases s.len(),
{
    lemma_insert_signal_contents(s, d);
    let r = insert_by_signal(s, d);
    if s.len() > 0 && signal_of(s[0]) > signal_of(d) {
        let t = s.drop_first();
        lemma_insert_signal_ordered(t, d);
        lemma_insert_signal_contents(t, d);
        let rt = insert_by_signal(t, d);
        assert forall|i: int, j: int| 0 <= i < j < r.len() implies signal_of(r[i]) >= signal_of(
            r[j],
        ) by {
            assert(r[j] == rt[j - 1]);
            if i == 0 {
                assert(rt.contains(rt[j - 1]));
                if rt[j - 1] != d {
                    let k = choose|k: int| 0 <= k < t.len() && t[k] == rt[j - 1];
                    assert(s[k + 1] == t[k]);
                }
            } else {
                assert(r[i] == rt[i - 1]);
            }
        }
    } else if s.len() > 0 {
        assert forall|i: int, j: int| 0 <= i < j < r.len() implies signal_of(r[i]) >= signal_of(
            r[j],
        ) by {
            assert(r[j] == s[j - 1]);
            if i > 0 {
                assert(r[i] == s[i - 1]);
            } else {
                assert(signal_of(s[0]) >= signal_of(s[j - 1]));
            }
        }
    }
}

/// Scan results ordered by proximity are strongest first and keep their
/// number.
pub proof fn law_proximity_order(s: Seq<ScannedDevice>)
    ensures
        is_by_signal(by_proximity(s)),
        by_proximity(s).len() == s.len(),
    decreases s.len(),
{
    if s.len() > 0 {
        law_proximity_order(s.drop_last());
        lemma_insert_signal_ordered(by_proximity(s.drop_last()), s.last());
        lemma_insert_signal_contents(by_proximity(s.drop_last()), s.last());
    }
}

fn signal(d: &ScannedDevice) -> (v: i16)
    ensures
        v == signal_of(*d),
{
    match d.rssi {
        Some(v) => v,
        None => -100,
    }
}

/// Orders scan results by proximity: strongest signal first, and among
/// equal signals the one found later first.
pub fn sort_by_proximity(devices: Vec<ScannedDevice>) -> (r: Vec<ScannedDevice>)
    ensures
        r@ == by_proximity(devices@),
{
    let ghost all = devices@;
    let n = devices.len();
    let mut rest = devices;
    let mut out: Vec<ScannedDevice> = Vec::new();
    let mut i: usize = 0;
    while rest.len() > 0
        invariant
            i <= all.len(),
            all.len() == n,
            rest@ == all.subrange(i as int, all.len() as int),
            out@ == by_proximity(all.subrange(0, i as int)),
        decreases rest@.len(),
    {
        let d = rest.remove(0);
        assert(d == all[i as int]);
        let mut k: usize = 0;
        while k < out.len() && signal(&out[k]) > signal(&d)
            invariant
                k <= out@.len(),
                forall|j: int| 0 <= j < k ==> signal_of(out@[j]) > signal_of(d),
            decreases out@.len() - k,
        {
            k += 1;
        }
        proof {
            lemma_insert_signal_at(out@, d, k as int);
            assert(all.subrange(0, i + 1).drop_last() =~= all.subrange(0, i as int));
            assert(rest@ =~= all.subrange(i + 1, all.len() as int));
        }
        out.insert(k, d);
        i += 1;
    }
    assert(all.subrange(0, i as int) =~= all);
    out
}

/// The heading over the scan results.
pub fn found_label(count: usize) -> (r: String)
    ensures
        r@ == "Found ("@ + dec_nat(count as nat) + ")"@,
{
    let mut s = String::from_str("Found (");
    push_decimal_u64(&mut s, count as u64);
    s.append(")");
    s
}

/// The status line after a scan: how many devices were found, or advice
/// to try again when none were.
pub fn scan_status_text(count: usize) -> (r: String)
    ensures
        count == 0 ==> r@ == "No devices found — try again"@,
        count > 0 ==> r@ == dec_nat(count as nat) + " device(s) — sorted by proximity"@,
{
    if count == 0 {
        return String::from_str("No devices found — try again");
    }
    let mut s = String::new();
    push_decimal_u64(&mut s, count as u64);
    s.append(" device(s) — sorted by proximity");
    s
}

} // verus!
