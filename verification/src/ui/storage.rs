//! What the desktop app remembers between runs: the devices it connected to
//! (most recent first, at most ten) and its settings. Reading and writing
//! the files is the app's business; these functions decide the contents.
use vstd::prelude::*;

verus! {

/// How many remembered devices are kept.
pub const MAX_KNOWN_DEVICES: usize = 10;

/// A device the app has connected to.
#[derive(Debug)]
pub struct KnownDevice {
    pub name: String,
    pub address: String,
    /// Seconds since the Unix epoch of the last connection.
    pub last_connected: u64,
}

impl Clone for KnownDevice {
    fn clone(&self) -> (d: Self)
        ensures
            d == *self,
    {
        KnownDevice {
            name: self.name.clone(),
            address: self.address.clone(),
            last_connected: self.last_connected,
        }
    }
}

/// The app's settings.
#[derive(Debug, Clone, Copy, PartialEq, Eq, Structural)]
pub struct AppSettings {
    pub last_anc_mode: u8,
    pub last_anc_level: u8,
    pub last_eq_preset: u8,
    pub adaptive_anc_enabled: bool,
    pub dual_device_enabled: bool,
    pub autostart: bool,
    pub disclaimer_dismissed: bool,
}

impl Default for AppSettings {
    /// ANC on at level 3, the first EQ preset, every switch off.
    fn default() -> (s: Self)
        ensures
            s == (AppSettings {
                last_anc_mode: 1,
                last_anc_level: 3,
                last_eq_preset: 0,
                adaptive_anc_enabled: false,
                dual_device_enabled: false,
                autostart: false,
                disclaimer_dismissed: false,
            }),
    {
        AppSettings {
            last_anc_mode: 1,
            last_anc_level: 3,
            last_eq_preset: 0,
            adaptive_anc_enabled: false,
            dual_device_enabled: false,
            autostart: false,
            disclaimer_dismissed: false,
        }
    }
}

/// The entries of `s` whose address is not `address`, in order.
pub open spec fn without_address(s: Seq<KnownDevice>, address: Seq<char>) -> Seq<KnownDevice>
    decreases s.len(),
{
    if s.len() == 0 {
        s
    } else {
        let rest = without_address(s.drop_last(), address);
        if s.last().address@ == address {
            rest
        } else {
            rest.push(s.last())
        }
    }
}

/// `s` with `d` placed before the first entry used less recently than `d`
/// (after every entry used at the same time or later).
pub open spec fn insert_by_recency(s: Seq<KnownDevice>, d: KnownDevice) -> Seq<KnownDevice>
    decreases s.len(),
{
    if s.len() == 0 {
        seq![d]
    } else if s[0].last_connected < d.last_connected {
        seq![d] + s
    } else {
        seq![s[0]] + insert_by_recency(s.drop_first(), d)
    }
}

/// `s` ordered most recent first; entries used at the same time keep their
/// order (a stable sort).
pub open spec fn sort_by_recency(s: Seq<KnownDevice>) -> Seq<KnownDevice>
    decreases s.len(),
{
    if s.len() == 0 {
        s
    } else {
        insert_by_recency(sort_by_recency(s.drop_last()), s.last())
    }
}

/// Most recent first.
pub open spec fn is_by_recency(s: Seq<KnownDevice>) -> bool {
    forall|i: int, j: int| 0 <= i < j < s.len() ==> s[i].last_connected >= s[j].last_connected
}

/// No address occurs twice.
pub open spec fn addresses_distinct(s: Seq<KnownDevice>) -> bool {
    forall|i: int, j: int|
        0 <= i < j < s.len() ==> #[trigger] s[i].address@ != #[trigger] s[j].address@
}

/// The list after connecting to `added.address` at `added.last_connected`:
/// the old entry of that address goes, the new one joins, the list is
/// ordered most recent first and cut to ten.
pub open spec fn devices_after_connect(devices: Seq<KnownDevice>, added: KnownDevice) -> Seq<
    KnownDevice,
> {
    let all = sort_by_recency(without_address(devices, added.address@).push(added));
    if all.len() <= MAX_KNOWN_DEVICES {
        all
    } else {
        all.subrange(0, MAX_KNOWN_DEVICES as int)
    }
}

/// The device the app reconnects to at start: the first remembered one.
pub open spec fn last_connected_of(devices: Seq<KnownDevice>) -> Option<KnownDevice> {
    if devices.len() == 0 {
        None
    } else {
        Some(devices[0])
    }
}

proof fn lemma_insert_at(s: Seq<KnownDevice>, d: KnownDevice, k: int)
    requires
        0 <= k <= s.len(),
        forall|i: int| 0 <= i < k ==> s[i].last_connected >= d.last_connected,
        k < s.len() ==> s[k].last_connected < d.last_connected,
    ensures
        insert_by_recency(s, d) == s.insert(k, d),
    decreases k,
{
    if s.len() == 0 {
        assert(s.insert(k, d) =~= seq![d]);
    } else if k == 0 {
        assert(s.insert(0, d) =~= seq![d] + s);
    } else {
        let t = s.drop_first();
        assert forall|i: int| 0 <= i < k - 1 implies t[i].last_connected >= d.last_connected by {
            assert(t[i] == s[i + 1]);
        }
        lemma_insert_at(t, d, k - 1);
        assert(s.insert(k, d) =~= seq![s[0]] + t.insert(k - 1, d));
    }
}

/// The entries of `insert_by_recency(s, d)` are `d` and those of `s`.
proof fn lemma_insert_contents(s: Seq<KnownDevice>, d: KnownDevice)
    ensures
        insert_by_recency(s, d).len() == s.len() + 1,
        forall|x: KnownDevice| #[trigger]
            insert_by_recency(s, d).contains(x) <==> (x == d || s.contains(x)),
    decreases s.len(),
{
    if s.len() == 0 {
        assert forall|x: KnownDevice| #[trigger]
            insert_by_recency(s, d).contains(x) <==> (x == d || s.contains(x)) by {
            if x == d {
                assert(insert_by_recency(s, d)[0] == x);
            }
        }
    } else if s[0].last_connected < d.last_connected {
        let r = seq![d] + s;
        assert forall|x: KnownDevice| #[trigger] r.contains(x) <==> (x == d || s.contains(x)) by {
            if x == d {
                assert(r[0] == x);
            }
            if s.contains(x) {
                let i = choose|i: int| 0 <= i < s.len() && s[i] == x;
                assert(r[i + 1] == x);
            }
            if r.contains(x) {
                let i = choose|i: int| 0 <= i < r.len() && r[i] == x;
                if i > 0 {
                    assert(s[i - 1] == x);
                }
            }
        }
    } else {
        let t = s.drop_first();
        lemma_insert_contents(t, d);
        let r = seq![s[0]] + insert_by_recency(t, d);
        assert forall|x: KnownDevice| #[trigger] r.contains(x) <==> (x == d || s.contains(x)) by {
            if x == d {
                assert(insert_by_recency(t, d).contains(x));
                let i = choose|i: int|
                    0 <= i < insert_by_recency(t, d).len() && insert_by_recency(t, d)[i] == x;
                assert(r[i + 1] == x);
            }
            if s.contains(x) {
                let i = choose|i: int| 0 <= i < s.len() && s[i] == x;
                if i == 0 {
                    assert(r[0] == x);
                } else {
                    assert(t[i - 1] == x);
                    assert(insert_by_recency(t, d).contains(x));
                    let j = choose|j: int|
                        0 <= j < insert_by_recency(t, d).len() && insert_by_recency(t, d)[j] == x;
                    assert(r[j + 1] == x);
                }
            }
            if r.contains(x) {
                let i = choose|i: int| 0 <= i < r.len() && r[i] == x;
                if i == 0 {
                    assert(s[0] == x);
                } else {
                    assert(insert_by_recency(t, d)[i - 1] == x);
                    assert(insert_by_recency(t, d).contains(x));
                    if x != d {
                        let j = choose|j: int| 0 <= j < t.len() && t[j] == x;
                        assert(s[j + 1] == x);
                    }
                }
            }
        }
    }
}

/// Sorting keeps the entries and the length.
proof fn lemma_sort_contents(s: Seq<KnownDevice>)
    ensures
        sort_by_recency(s).len() == s.len(),
        forall|x: KnownDevice| #[trigger] sort_by_recency(s).contains(x) <==> s.contains(x),
    decreases s.len(),
{
    if s.len() > 0 {
        let t = s.drop_last();
        lemma_sort_contents(t);
        lemma_insert_contents(sort_by_recency(t), s.last());
        assert forall|x: KnownDevice| #[trigger] sort_by_recency(s).contains(x) <==> s.contains(
            x,
        ) by {
            if s.contains(x) {
                let i = choose|i: int| 0 <= i < s.len() && s[i] == x;
                if i < s.len() - 1 {
                    assert(t[i] == x);
                }
            }
            if t.contains(x) {
                let i = choose|i: int| 0 <= i < t.len() && t[i] == x;
                assert(s[i] == x);
            }
        }
    }
}

/// Inserting keeps an ordered list ordered.
proof fn lemma_insert_ordered(s: Seq<KnownDevice>, d: KnownDevice)
    requires
        is_by_recency(s),
    ensures
        is_by_recency(insert_by_recency(s, d)),
    decreases s.len(),
{
    lemma_insert_contents(s, d);
    if s.len() > 0 && s[0].last_connected >= d.last_connected {
        let t = s.drop_first();
        lemma_insert_ordered(t, d);
        lemma_insert_contents(t, d);
        let r = insert_by_recency(s, d);
        let rt = insert_by_recency(t, d);
        assert(r == seq![s[0]] + rt);
        assert forall|i: int, j: int| 0 <= i < j < r.len() implies r[i].last_connected
            >= r[j].last_connected by {
            if i == 0 {
                assert(r[j] == rt[j - 1]);
                assert(rt.contains(rt[j - 1]));
                if rt[j - 1] != d {
                    let k = choose|k: int| 0 <= k < t.len() && t[k] == rt[j - 1];
                    assert(s[k + 1] == t[k]);
                }
            } else {
                assert(r[i] == rt[i - 1]);
                assert(r[j] == rt[j - 1]);
            }
        }
    } else if s.len() > 0 {
        let r = insert_by_recency(s, d);
        assert forall|i: int, j: int| 0 <= i < j < r.len() implies r[i].last_connected
            >= r[j].last_connected by {
            assert(r[j] == s[j - 1]);
            if i > 0 {
                assert(r[i] == s[i - 1]);
            } else {
                assert(s[0].last_connected >= s[j - 1].last_connected);
            }
        }
    }
}

/// Inserting a device whose address is new keeps the addresses distinct.
proof fn lemma_insert_distinct(s: Seq<KnownDevice>, d: KnownDevice)
    requires
        addresses_distinct(s),
        forall|i: int| 0 <= i < s.len() ==> s[i].address@ != d.address@,
    ensures
        addresses_distinct(insert_by_recency(s, d)),
    decreases s.len(),
{
    lemma_insert_contents(s, d);
    let r = insert_by_recency(s, d);
    if s.len() > 0 && s[0].last_connected >= d.last_connected {
        let t = s.drop_first();
        assert forall|i: int, j: int| 0 <= i < j < t.len() implies #[trigger] t[i].address@
            != #[trigger] t[j].address@ by {
            assert(t[i] == s[i + 1] && t[j] == s[j + 1]);
        }
        lemma_insert_distinct(t, d);
        lemma_insert_contents(t, d);
        let rt = insert_by_recency(t, d);
        assert forall|i: int, j: int| 0 <= i < j < r.len() implies #[trigger] r[i].address@
            != #[trigger] r[j].address@ by {
            assert(r[j] == rt[j - 1]);
            if i == 0 {
                assert(rt.contains(rt[j - 1]));
                if rt[j - 1] != d {
                    let k = choose|k: int| 0 <= k < t.len() && t[k] == rt[j - 1];
                    assert(s[k + 1] == t[k]);
                }
            } else {
                assert(r[i] == rt[i - 1]);
            }
        }
    } else if s.len() > 0 {
        assert forall|i: int, j: int| 0 <= i < j < r.len() implies #[trigger] r[i].address@
            != #[trigger] r[j].address@ by {
            assert(r[j] == s[j - 1]);
            if i > 0 {
                assert(r[i] == s[i - 1]);
            }
        }
    }
}

/// Sorting orders the list.
proof fn lemma_sort_ordered(s: Seq<KnownDevice>)
    ensures
        is_by_recency(sort_by_recency(s)),
    decreases s.len(),
{
    if s.len() > 0 {
        lemma_sort_ordered(s.drop_last());
        lemma_insert_ordered(sort_by_recency(s.drop_last()), s.last());
    }
}

/// Sorting keeps distinct addresses distinct.
proof fn lemma_sort_distinct(s: Seq<KnownDevice>)
    requires
        addresses_distinct(s),
    ensures
        addresses_distinct(sort_by_recency(s)),
    decreases s.len(),
{
    if s.len() > 0 {
        let t = s.drop_last();
        assert forall|i: int, j: int| 0 <= i < j < t.len() implies #[trigger] t[i].address@
            != #[trigger] t[j].address@ by {
            assert(t[i] == s[i] && t[j] == s[j]);
        }
        lemma_sort_distinct(t);
        lemma_sort_contents(t);
        let st = sort_by_recency(t);
        assert forall|i: int| 0 <= i < st.len() implies st[i].address@ != s.last().address@ by {
            assert(st.contains(st[i]));
            let k = choose|k: int| 0 <= k < t.len() && t[k] == st[i];
            assert(s[k] == t[k]);
        }
        lemma_insert_distinct(st, s.last());
    }
}

/// The entries of `without_address(s, a)` are those of `s` whose address
/// is not `a`.
proof fn lemma_without_contents(s: Seq<KnownDevice>, a: Seq<char>)
    ensures
        forall|x: KnownDevice| #[trigger]
            without_address(s, a).contains(x) <==> (s.contains(x) && x.address@ != a),
        without_address(s, a).len() <= s.len(),
    decreases s.len(),
{
    if s.len() > 0 {
        let t = s.drop_last();
        lemma_without_contents(t, a);
        let w = without_address(s, a);
        let wt = without_address(t, a);
        assert forall|x: KnownDevice| #[trigger] w.contains(x) <==> (s.contains(x) && x.address@
            != a) by {
            if w.contains(x) {
                let i = choose|i: int| 0 <= i < w.len() && w[i] == x;
                if i < wt.len() {
                    assert(wt[i] == x);
                    assert(wt.contains(x));
                    let k = choose|k: int| 0 <= k < t.len() && t[k] == x;
                    assert(s[k] == x);
                } else {
                    assert(x == s.last());
                    assert(s[s.len() - 1] == x);
                }
            }
            if s.contains(x) && x.address@ != a {
                let k = choose|k: int| 0 <= k < s.len() && s[k] == x;
                if k < s.len() - 1 {
                    assert(t[k] == x);
                    assert(wt.contains(x));
                    let i = choose|i: int| 0 <= i < wt.len() && wt[i] == x;
                    assert(w[i] == x);
                } else {
                    assert(w[w.len() - 1] == x);
                }
            }
        }
    }
}

/// Without one address, the rest stay distinct.
proof fn lemma_without_distinct(s: Seq<KnownDevice>, a: Seq<char>)
    requires
        addresses_distinct(s),
    ensures
        addresses_distinct(without_address(s, a)),
    decreases s.len(),
{
    if s.len() > 0 {
        let t = s.drop_last();
        assert forall|i: int, j: int| 0 <= i < j < t.len() implies #[trigger] t[i].address@
            != #[trigger] t[j].address@ by {
            assert(t[i] == s[i] && t[j] == s[j]);
        }
        lemma_without_distinct(t, a);
        lemma_without_contents(t, a);
        let wt = without_address(t, a);
        let w = without_address(s, a);
        if s.last().address@ != a {
            assert forall|i: int, j: int| 0 <= i < j < w.len() implies #[trigger] w[i].address@
                != #[trigger] w[j].address@ by {
                if j == w.len() - 1 {
                    assert(w[i] == wt[i]);
                    assert(wt.contains(wt[i]));
                    let k = choose|k: int| 0 <= k < t.len() && t[k] == wt[i];
                    assert(s[k] == t[k]);
                    assert(s[s.len() - 1] == s.last());
                } else {
                    assert(w[i] == wt[i] && w[j] == wt[j]);
                }
            }
        }
    }
}

/// The remembered list stays ordered most recent first and holds at most
/// ten devices.
pub proof fn law_known_devices_ordered(devices: Seq<KnownDevice>, added: KnownDevice)
    ensures
        is_by_recency(devices_after_connect(devices, added)),
        devices_after_connect(devices, added).len() <= MAX_KNOWN_DEVICES,
{
    let all = sort_by_recency(without_address(devices, added.address@).push(added));
    lemma_sort_ordered(without_address(devices, added.address@).push(added));
}

/// Connecting never makes an address occur twice in the remembered list.
pub proof fn law_known_devices_distinct(devices: Seq<KnownDevice>, added: KnownDevice)
    requires
        addresses_distinct(devices),
    ensures
        addresses_distinct(devices_after_connect(devices, added)),
{
    let w = without_address(devices, added.address@);
    lemma_without_distinct(devices, added.address@);
    lemma_without_contents(devices, added.address@);
    let p = w.push(added);
    assert forall|i: int, j: int| 0 <= i < j < p.len() implies #[trigger] p[i].address@
        != #[trigger] p[j].address@ by {
        if j == p.len() - 1 {
            assert(p[i] == w[i]);
            assert(w.contains(w[i]));
        } else {
            assert(p[i] == w[i] && p[j] == w[j]);
        }
    }
    lemma_sort_distinct(p);
}

/// Every remembered device is the one just connected or was remembered
/// before under another address.
pub proof fn law_known_devices_from_before(devices: Seq<KnownDevice>, added: KnownDevice)
    ensures
        forall|i: int|
            0 <= i < devices_after_connect(devices, added).len() ==> {
                let x = #[trigger] devices_after_connect(devices, added)[i];
                x == added || (devices.contains(x) && x.address@ != added.address@)
            },
{
    let w = without_address(devices, added.address@);
    let p = w.push(added);
    lemma_without_contents(devices, added.address@);
    lemma_sort_contents(p);
    let all = sort_by_recency(p);
    let r = devices_after_connect(devices, added);
    assert forall|i: int| 0 <= i < r.len() implies ({
        let x = #[trigger] r[i];
        x == added || (devices.contains(x) && x.address@ != added.address@)
    }) by {
        assert(r[i] == all[i]);
        assert(all.contains(all[i]));
        assert(p.contains(all[i]));
        let k = choose|k: int| 0 <= k < p.len() && p[k] == all[i];
        if k < w.len() {
            assert(w[k] == p[k]);
            assert(w.contains(p[k]));
        }
    }
}

/// A device connected later than every remembered one comes first.
pub proof fn law_new_device_first(devices: Seq<KnownDevice>, added: KnownDevice)
    requires
        forall|i: int| 0 <= i < devices.len() ==> devices[i].last_connected
            < added.last_connected,
    ensures
        devices_after_connect(devices, added).len() > 0,
        devices_after_connect(devices, added)[0] == added,
{
    let w = without_address(devices, added.address@);
    let p = w.push(added);
    lemma_without_contents(devices, added.address@);
    lemma_sort_contents(w);
    assert(p.drop_last() =~= w);
    let sw = sort_by_recency(w);
    if sw.len() > 0 {
        assert(sw.contains(sw[0]));
        let k = choose|k: int| 0 <= k < w.len() && w[k] == sw[0];
        assert(w.contains(w[k]));
        let j = choose|j: int| 0 <= j < devices.len() && devices[j] == w[k];
    }
}

/// At most one entry of `s` has address `a`.
pub open spec fn address_at_most_once(s: Seq<KnownDevice>, a: Seq<char>) -> bool {
    forall|i: int, j: int|
        0 <= i < j < s.len() ==> !(#[trigger] s[i].address@ == a && #[trigger] s[j].address@ == a)
}

/// Whether a device has an address other than `a`.
pub open spec fn other_address(a: Seq<char>) -> spec_fn(KnownDevice) -> bool {
    |x: KnownDevice| x.address@ != a
}

/// Dropping the entries of one address is filtering by the other addresses.
proof fn lemma_without_is_filter(s: Seq<KnownDevice>, a: Seq<char>)
    ensures
        without_address(s, a) == s.filter(other_address(a)),
    decreases s.len(),
{
    reveal(Seq::filter);
    if s.len() > 0 {
        lemma_without_is_filter(s.drop_last(), a);
    }
}

/// Inserting keeps address `a` at most once, when `d` brings no second one.
proof fn lemma_insert_once(s: Seq<KnownDevice>, d: KnownDevice, a: Seq<char>)
    requires
        address_at_most_once(s, a),
        d.address@ == a ==> forall|i: int| 0 <= i < s.len() ==> s[i].address@ != a,
    ensures
        address_at_most_once(insert_by_recency(s, d), a),
    decreases s.len(),
{
    lemma_insert_contents(s, d);
    let r = insert_by_recency(s, d);
    if s.len() > 0 && s[0].last_connected >= d.last_connected {
        let t = s.drop_first();
        assert forall|i: int, j: int| 0 <= i < j < t.len() implies !(#[trigger] t[i].address@
            == a && #[trigger] t[j].address@ == a) by {
            assert(t[i] == s[i + 1] && t[j] == s[j + 1]);
        }
        lemma_insert_once(t, d, a);
        lemma_insert_contents(t, d);
        let rt = insert_by_recency(t, d);
        assert forall|i: int, j: int| 0 <= i < j < r.len() implies !(#[trigger] r[i].address@
            == a && #[trigger] r[j].address@ == a) by {
            assert(r[j] == rt[j - 1]);
            if i == 0 {
                assert(r[0] == s[0]);
                assert(rt.contains(rt[j - 1]));
                if rt[j - 1] != d {
                    let k = choose|k: int| 0 <= k < t.len() && t[k] == rt[j - 1];
                    assert(s[k + 1] == t[k]);
                }
            } else {
                assert(r[i] == rt[i - 1]);
            }
        }
    } else if s.len() > 0 {
        assert forall|i: int, j: int| 0 <= i < j < r.len() implies !(#[trigger] r[i].address@
            == a && #[trigger] r[j].address@ == a) by {
            assert(r[j] == s[j - 1]);
            if i > 0 {
                assert(r[i] == s[i - 1]);
            } else {
                assert(r[0] == d);
            }
        }
    }
}

/// Sorting keeps address `a` at most once.
proof fn lemma_sort_once(s: Seq<KnownDevice>, a: Seq<char>)
    requires
        address_at_most_once(s, a),
    ensures
        address_at_most_once(sort_by_recency(s), a),
    decreases s.len(),
{
    if s.len() > 0 {
        let t = s.drop_last();
        assert forall|i: int, j: int| 0 <= i < j < t.len() implies !(#[trigger] t[i].address@
            == a && #[trigger] t[j].address@ == a) by {
            assert(t[i] == s[i] && t[j] == s[j]);
        }
        lemma_sort_once(t, a);
        lemma_sort_contents(t);
        let st = sort_by_recency(t);
        if s.last().address@ == a {
            assert forall|i: int| 0 <= i < st.len() implies st[i].address@ != a by {
                assert(st.contains(st[i]));
                let k = choose|k: int| 0 <= k < t.len() && t[k] == st[i];
                assert(s[k] == t[k]);
                assert(s[s.len() - 1] == s.last());
            }
        }
        lemma_insert_once(st, s.last(), a);
    }
}

/// After a connect the remembered list holds the new device and the others
/// (those of another address), cut to ten: its length is
/// `min(10, 1 + the number of others)`, and the connected address occurs at
/// most once, only as the new entry.
pub proof fn law_known_devices_after_connect(devices: Seq<KnownDevice>, added: KnownDevice)
    ensures
        ({
            let others = devices.filter(other_address(added.address@)).len();
            devices_after_connect(devices, added).len() == if others + 1 <= MAX_KNOWN_DEVICES {
                (others + 1) as int
            } else {
                MAX_KNOWN_DEVICES as int
            }
        }),
        address_at_most_once(devices_after_connect(devices, added), added.address@),
        forall|i: int|
            0 <= i < devices_after_connect(devices, added).len()
                && #[trigger] devices_after_connect(devices, added)[i].address@ == added.address@
                ==> devices_after_connect(devices, added)[i] == added,
{
    let a = added.address@;
    let w = without_address(devices, a);
    let p = w.push(added);
    lemma_without_is_filter(devices, a);
    lemma_without_contents(devices, a);
    lemma_sort_contents(p);
    assert forall|i: int, j: int| 0 <= i < j < p.len() implies !(#[trigger] p[i].address@ == a
        && #[trigger] p[j].address@ == a) by {
        assert(p[i] == w[i]);
        assert(w.contains(w[i]));
    }
    lemma_sort_once(p, a);
    let all = sort_by_recency(p);
    let r = devices_after_connect(devices, added);
    assert forall|i: int, j: int| 0 <= i < j < r.len() implies !(#[trigger] r[i].address@ == a
        && #[trigger] r[j].address@ == a) by {
        assert(r[i] == all[i] && r[j] == all[j]);
    }
    law_known_devices_from_before(devices, added);
    assert forall|i: int| 0 <= i < r.len() && #[trigger] r[i].address@ == a implies r[i]
        == added by {
        let x = r[i];
        assert(x == added || (devices.contains(x) && x.address@ != a));
    }
}

/// The entries of `devices` whose address is not `address`.
pub fn remove_known_device(devices: Vec<KnownDevice>, address: &str) -> (r: Vec<KnownDevice>)
    ensures
        r@ == without_address(devices@, address@),
{
    let a = String::from_str(address);
    let mut kept: Vec<KnownDevice> = Vec::new();
    let mut i: usize = 0;
    while i < devices.len()
        invariant
            i <= devices.len(),
            a@ == address@,
            kept@ == without_address(devices@.take(i as int), address@),
        decreases devices.len() - i,
    {
        proof {
            assert(devices@.take(i + 1).drop_last() =~= devices@.take(i as int));
        }
        if devices[i].address != a {
            kept.push(devices[i].clone());
        }
        i += 1;
    }
    assert(devices@.take(devices.len() as int) =~= devices@);
    kept
}

fn sort_devices_by_recency(devices: Vec<KnownDevice>) -> (r: Vec<KnownDevice>)
    ensures
        r@ == sort_by_recency(devices@),
{
    let mut sorted: Vec<KnownDevice> = Vec::new();
    let mut i: usize = 0;
    while i < devices.len()
        invariant
            i <= devices.len(),
            sorted@ == sort_by_recency(devices@.take(i as int)),
        decreases devices.len() - i,
    {
        let d = devices[i].clone();
        let mut k: usize = 0;
        while k < sorted.len() && sorted[k].last_connected >= d.last_connected
            invariant
                k <= sorted.len(),
                forall|j: int| 0 <= j < k ==> sorted@[j].last_connected >= d.last_connected,
            decreases sorted.len() - k,
        {
            k += 1;
        }
        proof {
            lemma_insert_at(sorted@, d, k as int);
            assert(devices@.take(i + 1).drop_last() =~= devices@.take(i as int));
        }
        sorted.insert(k, d);
        i += 1;
    }
    assert(devices@.take(devices.len() as int) =~= devices@);
    sorted
}

/// The list after connecting to `address` at `now` (seconds since the Unix
/// epoch): its old entry goes, the new one joins, the list is ordered most
/// recent first and cut to ten.
pub fn add_known_device(devices: Vec<KnownDevice>, name: String, address: String, now: u64) -> (r:
    Vec<KnownDevice>)
    ensures
        r@ == devices_after_connect(
            devices@,
            KnownDevice { name: name, address: address, last_connected: now },
        ),
{
    let ghost added = KnownDevice { name: name, address: address, last_connected: now };
    let mut kept = remove_known_device(devices, address.as_str());
    kept.push(KnownDevice { name, address, last_connected: now });
    let mut sorted = sort_devices_by_recency(kept);
    sorted.truncate(MAX_KNOWN_DEVICES);
    sorted
}

/// The device the app reconnects to at start: the first remembered one.
pub fn get_last_connected_device(devices: Vec<KnownDevice>) -> (r: Option<KnownDevice>)
    ensures
        r == last_connected_of(devices@),
{
    if devices.len() > 0 {
        Some(devices[0].clone())
    } else {
        None
    }
}

} // verus!
