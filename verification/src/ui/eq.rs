//! The EQ page: the presets it offers, how it labels a gain, and the
//! user's own presets, kept by name.
use crate::text::{dec_nat, push_char, push_decimal_u64};
use vstd::prelude::*;
use vstd::string::*;

verus! {

/// How many bands the EQ has.
pub const BAND_COUNT: usize = 7;

/// A preset built into the page: the number the earbuds know it by, its
/// name and its gains in dB, lowest band first.
#[derive(Debug, Clone, Copy)]
pub struct BuiltinPreset {
    pub id: u8,
    pub name: &'static str,
    pub gains: [i8; 7],
}

/// The built-in presets, in page order.
pub open spec fn builtin_table() -> Seq<(u8, Seq<char>, Seq<i8>)> {
    seq![
        (0u8, "Flat"@, seq![0i8, 0i8, 0i8, 0i8, 0i8, 0i8, 0i8]),
        (1u8, "Bass Boost"@, seq![6i8, 4i8, 1i8, 0i8, 0i8, 1i8, 2i8]),
        (2u8, "Rock"@, seq![4i8, 3i8, -1i8, -1i8, 2i8, 4i8, 5i8]),
        (3u8, "Jazz"@, seq![2i8, 2i8, 1i8, 1i8, -1i8, 2i8, 4i8]),
        (4u8, "Vocal"@, seq![-2i8, -1i8, 0i8, 4i8, 3i8, 1i8, 1i8]),
        (5u8, "Treble Boost"@, seq![-2i8, -1i8, 0i8, 1i8, 3i8, 5i8, 7i8]),
    ]
}

/// The built-in presets, in page order.
pub fn builtin_presets() -> (v: Vec<BuiltinPreset>)
    ensures
        v@.len() == builtin_table().len(),
        forall|i: int|
            0 <= i < v@.len() ==> (#[trigger] v@[i]).id == builtin_table()[i].0 && v@[i].name@
                == builtin_table()[i].1 && v@[i].gains@ == builtin_table()[i].2,
{
    let v = vec![
        BuiltinPreset { id: 0, name: "Flat", gains: [0, 0, 0, 0, 0, 0, 0] },
        BuiltinPreset { id: 1, name: "Bass Boost", gains: [6, 4, 1, 0, 0, 1, 2] },
        BuiltinPreset { id: 2, name: "Rock", gains: [4, 3, -1, -1, 2, 4, 5] },
        BuiltinPreset { id: 3, name: "Jazz", gains: [2, 2, 1, 1, -1, 2, 4] },
        BuiltinPreset { id: 4, name: "Vocal", gains: [-2, -1, 0, 4, 3, 1, 1] },
        BuiltinPreset { id: 5, name: "Treble Boost", gains: [-2, -1, 0, 1, 3, 5, 7] },
    ];
    assert(v@[0].gains@ =~= builtin_table()[0].2);
    assert(v@[1].gains@ =~= builtin_table()[1].2);
    assert(v@[2].gains@ =~= builtin_table()[2].2);
    assert(v@[3].gains@ =~= builtin_table()[3].2);
    assert(v@[4].gains@ =~= builtin_table()[4].2);
    assert(v@[5].gains@ =~= builtin_table()[5].2);
    v
}

/// The band labels, lowest band first.
pub open spec fn band_label_table() -> Seq<Seq<char>> {
    seq!["50Hz"@, "100Hz"@, "400Hz"@, "1kHz"@, "2.5kHz"@, "6.3kHz"@, "16kHz"@]
}

/// The band labels, lowest band first.
pub fn band_labels() -> (v: Vec<&'static str>)
    ensures
        v@.len() == BAND_COUNT,
        forall|i: int| 0 <= i < v@.len() ==> (#[trigger] v@[i])@ == band_label_table()[i],
{
    vec!["50Hz", "100Hz", "400Hz", "1kHz", "2.5kHz", "6.3kHz", "16kHz"]
}

/// How a slider labels its gain: signed, in dB (`+0 dB` for none).
pub open spec fn gain_label_text(v: i8) -> Seq<char> {
    (if v >= 0 {
        seq!['+'] + dec_nat(v as nat)
    } else {
        seq!['-'] + dec_nat((-v) as nat)
    }) + " dB"@
}

/// Labels a slider's gain.
pub fn gain_label(v: i8) -> (s: String)
    ensures
        s@ == gain_label_text(v),
{
    let mut s = String::new();
    if v >= 0 {
        push_char(&mut s, '+');
        push_decimal_u64(&mut s, v as u64);
    } else {
        push_char(&mut s, '-');
        let m: i16 = -(v as i16);
        push_decimal_u64(&mut s, m as u64);
    }
    s.append(" dB");
    s
}

// ── Custom presets ──

/// A preset the user saved under a name.
#[derive(Debug)]
pub struct CustomPreset {
    pub name: String,
    pub gains: [i8; 7],
}

impl Clone for CustomPreset {
    fn clone(&self) -> (p: Self)
        ensures
            p == *self,
    {
        CustomPreset { name: self.name.clone(), gains: self.gains }
    }
}

/// The presets of `s` not named `name`, in order.
pub open spec fn without_name(s: Seq<CustomPreset>, name: Seq<char>) -> Seq<CustomPreset>
    decreases s.len(),
{
    if s.len() == 0 {
        s
    } else {
        let rest = without_name(s.drop_last(), name);
        if s.last().name@ == name {
            rest
        } else {
            rest.push(s.last())
        }
    }
}

/// No name occurs twice.
pub open spec fn names_distinct(s: Seq<CustomPreset>) -> bool {
    forall|i: int, j: int| 0 <= i < j < s.len() ==> #[trigger] s[i].name@ != #[trigger] s[j].name@
}

/// Whether `r` is the list `s` after saving `gains` under `name`: an empty
/// name saves nothing; otherwise a preset of that name is replaced by the
/// new one, which goes last.
pub open spec fn saved_as(r: Seq<CustomPreset>, s: Seq<CustomPreset>, name: Seq<char>, gains: [i8; 7]) -> bool {
    if name.len() == 0 {
        r == s
    } else {
        &&& r.len() > 0
        &&& r.drop_last() == without_name(s, name)
        &&& r.last().name@ == name
        &&& r.last().gains == gains
    }
}

/// The index of the first preset named `name`, if any.
pub open spec fn first_named(s: Seq<CustomPreset>, name: Seq<char>, i: int) -> bool {
    0 <= i < s.len() && s[i].name@ == name && forall|j: int| 0 <= j < i ==> s[j].name@ != name
}

fn find_named(presets: &Vec<CustomPreset>, name: &String) -> (r: Option<usize>)
    ensures
        match r {
            Some(i) => first_named(presets@, name@, i as int),
            None => forall|j: int| 0 <= j < presets@.len() ==> presets@[j].name@ != name@,
        },
{
    let mut i: usize = 0;
    while i < presets.len()
        invariant
            i <= presets@.len(),
            forall|j: int| 0 <= j < i ==> presets@[j].name@ != name@,
        decreases presets.len() - i,
    {
        if presets[i].name == *name {
            return Some(i);
        }
        i += 1;
    }
    None
}

/// The presets not named `name`.
pub fn delete_custom_preset(presets: Vec<CustomPreset>, name: &str) -> (r: Vec<CustomPreset>)
    ensures
        r@ == without_name(presets@, name@),
{
    let n = String::from_str(name);
    let mut kept: Vec<CustomPreset> = Vec::new();
    let mut i: usize = 0;
    while i < presets.len()
        invariant
            i <= presets.len(),
            n@ == name@,
            kept@ == without_name(presets@.take(i as int), name@),
        decreases presets.len() - i,
    {
        proof {
            assert(presets@.take(i + 1).drop_last() =~= presets@.take(i as int));
        }
        if presets[i].name != n {
            kept.push(presets[i].clone());
        }
        i += 1;
    }
    assert(presets@.take(presets.len() as int) =~= presets@);
    kept
}

/// Saves `gains` under `name` (already trimmed): an empty name saves
/// nothing; otherwise a preset of that name is replaced by the new one,
/// which goes last.
pub fn save_custom_preset(presets: Vec<CustomPreset>, name: &str, gains: [i8; 7]) -> (r: Vec<
    CustomPreset,
>)
    ensures
        saved_as(r@, presets@, name@, gains),
{
    if name.unicode_len() == 0 {
        return presets;
    }
    let mut kept = delete_custom_preset(presets, name);
    let ghost w = kept@;
    kept.push(CustomPreset { name: String::from_str(name), gains });
    assert(kept@.drop_last() =~= w);
    kept
}

/// Overwrites the gains of the first preset named `name`; tells whether
/// there was one.
pub fn overwrite_custom_preset(presets: &mut Vec<CustomPreset>, name: &str, gains: [i8; 7]) -> (found:
    bool)
    ensures
        found == exists|i: int| first_named(old(presets)@, name@, i),
        found ==> exists|i: int|
            #[trigger] first_named(old(presets)@, name@, i) && final(presets)@ == old(
                presets,
            )@.update(i, CustomPreset { name: old(presets)@[i].name, gains: gains }),
        !found ==> final(presets)@ == old(presets)@,
{
    let n = String::from_str(name);
    match find_named(presets, &n) {
        Some(i) => {
            let old_name = presets[i].name.clone();
            let ghost before = presets@;
            presets.set(i, CustomPreset { name: old_name, gains });
            assert(first_named(before, name@, i as int));
            true
        },
        None => {
            assert forall|i: int| !first_named(presets@, name@, i) by {}
            false
        },
    }
}

proof fn lemma_without_name_contents(s: Seq<CustomPreset>, n: Seq<char>)
    ensures
        forall|i: int| 0 <= i < without_name(s, n).len() ==> #[trigger] without_name(s, n)[i].name@ != n,
        forall|i: int|
            0 <= i < without_name(s, n).len() ==> s.contains(#[trigger] without_name(s, n)[i]),
    decreases s.len(),
{
    if s.len() > 0 {
        let t = s.drop_last();
        lemma_without_name_contents(t, n);
        let w = without_name(s, n);
        let wt = without_name(t, n);
        assert forall|i: int| 0 <= i < w.len() implies s.contains(#[trigger] w[i]) by {
            if i < wt.len() {
                assert(w[i] == wt[i]);
                assert(t.contains(wt[i]));
                let k = choose|k: int| 0 <= k < t.len() && t[k] == wt[i];
                assert(s[k] == t[k]);
            } else {
                assert(s[s.len() - 1] == w[i]);
            }
        }
        assert forall|i: int| 0 <= i < w.len() implies #[trigger] w[i].name@ != n by {
            if i < wt.len() {
                assert(w[i] == wt[i]);
            }
        }
    }
}

proof fn lemma_without_name_distinct(s: Seq<CustomPreset>, n: Seq<char>)
    requires
        names_distinct(s),
    ensures
        names_distinct(without_name(s, n)),
    decreases s.len(),
{
    if s.len() > 0 {
        let t = s.drop_last();
        assert forall|i: int, j: int| 0 <= i < j < t.len() implies #[trigger] t[i].name@
            != #[trigger] t[j].name@ by {
            assert(t[i] == s[i] && t[j] == s[j]);
        }
        lemma_without_name_distinct(t, n);
        lemma_without_name_contents(t, n);
        let wt = without_name(t, n);
        let w = without_name(s, n);
        if s.last().name@ != n {
            assert forall|i: int, j: int| 0 <= i < j < w.len() implies #[trigger] w[i].name@
                != #[trigger] w[j].name@ by {
                if j == w.len() - 1 {
                    assert(w[i] == wt[i]);
                    assert(t.contains(wt[i]));
                    let k = choose|k: int| 0 <= k < t.len() && t[k] == wt[i];
                    assert(s[k] == t[k]);
                    assert(s[s.len() - 1] == s.last());
                } else {
                    assert(w[i] == wt[i] && w[j] == wt[j]);
                }
            }
        }
    }
}

/// Saving keeps preset names distinct.
pub proof fn law_save_keeps_names_distinct(
    r: Seq<CustomPreset>,
    s: Seq<CustomPreset>,
    name: Seq<char>,
    gains: [i8; 7],
)
    requires
        names_distinct(s),
        saved_as(r, s, name, gains),
    ensures
        names_distinct(r),
{
    if name.len() > 0 {
        lemma_without_name_distinct(s, name);
        lemma_without_name_contents(s, name);
        let w = without_name(s, name);
        assert forall|i: int, j: int| 0 <= i < j < r.len() implies #[trigger] r[i].name@
            != #[trigger] r[j].name@ by {
            if j == r.len() - 1 {
                assert(r[i] == w[i]);
            } else {
                assert(r[i] == w[i] && r[j] == w[j]);
            }
        }
    }
}

/// After deleting a name, no preset has it.
pub proof fn law_delete_removes_name(s: Seq<CustomPreset>, name: Seq<char>)
    ensures
        forall|i: int|
            0 <= i < without_name(s, name).len() ==> #[trigger] without_name(s, name)[i].name@
                != name,
{
    lemma_without_name_contents(s, name);
}

} // verus!
