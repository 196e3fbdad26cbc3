//! Equaliser presets and the EQ get/set commands.
use super::BleCommand;
use crate::error::Error;
use crate::protocol::constants::{CMD_EQ_SETTING, CMD_HANDSHAKE, ID_EQ_SETTING};
use crate::protocol::tlv::{tlv_find_bytes, TlvParser};
use crate::text::{dec_int, push_decimal_i64};
use vstd::prelude::*;
use vstd::string::*;

verus! {

// ── EQ Preset ──

/// A named equaliser curve: ten band gains in dB.
#[derive(Debug, Clone, Copy)]
pub struct EqPreset {
    pub id: u8,
    pub name: &'static str,
    pub description: &'static str,
    pub gains: [i8; 10],
}

/// The content of a preset.
pub struct EqPresetView {
    pub id: u8,
    pub name: Seq<char>,
    pub description: Seq<char>,
    pub gains: Seq<i8>,
}

impl View for EqPreset {
    type V = EqPresetView;

    open spec fn view(&self) -> EqPresetView {
        EqPresetView {
            id: self.id,
            name: self.name@,
            description: self.description@,
            gains: self.gains@,
        }
    }
}

/// A preset's content from its parts.
pub open spec fn preset_view(
    id: u8,
    name: Seq<char>,
    description: Seq<char>,
    gains: Seq<i8>,
) -> EqPresetView {
    EqPresetView { id, name, description, gains }
}

/// The preset with a given ID: the standard presets 0-6 and the special
/// presets 10-13.
pub open spec fn preset_of(id: u8) -> Option<EqPresetView> {
    if id == 0 {
        Some(preset_view(0, "Flat"@, "Neutral, uncolored sound"@, seq![0i8, 0i8, 0i8, 0i8, 0i8, 0i8, 0i8, 0i8, 0i8, 0i8]))
    } else if id == 1 {
        Some(preset_view(1, "Bass Boost"@, "Warm, punchy bass (Harman headphone curve inspired)"@, seq![6i8, 4i8, 1i8, 0i8, 0i8, 1i8, 2i8, 0i8, 0i8, 0i8]))
    } else if id == 2 {
        Some(preset_view(2, "Rock"@, "Energetic V-shape for guitars and drums"@, seq![4i8, 3i8, -1i8, -1i8, 2i8, 4i8, 5i8, 0i8, 0i8, 0i8]))
    } else if id == 3 {
        Some(preset_view(3, "Jazz"@, "Smooth mids, detailed cymbals"@, seq![2i8, 2i8, 1i8, 1i8, -1i8, 2i8, 4i8, 0i8, 0i8, 0i8]))
    } else if id == 4 {
        Some(preset_view(4, "Vocal"@, "Enhanced presence for vocals and speech"@, seq![-2i8, -1i8, 0i8, 4i8, 3i8, 1i8, 1i8, 0i8, 0i8, 0i8]))
    } else if id == 5 {
        Some(preset_view(5, "Treble Boost"@, "Crisp highs for classical and acoustic"@, seq![-2i8, -1i8, 0i8, 1i8, 3i8, 5i8, 7i8, 0i8, 0i8, 0i8]))
    } else if id == 6 {
        Some(preset_view(6, "Custom"@, "User-defined EQ curve"@, seq![0i8, 0i8, 0i8, 0i8, 0i8, 0i8, 0i8, 0i8, 0i8, 0i8]))
    } else if id == 10 {
        Some(preset_view(10, "Harman AE/OE"@, "Research-optimized consumer curve"@, seq![4i8, 3i8, 1i8, 0i8, -1i8, 1i8, 3i8, 0i8, 0i8, 0i8]))
    } else if id == 11 {
        Some(preset_view(11, "Cinema"@, "Enhanced for movies and dialogue"@, seq![2i8, 2i8, 0i8, 3i8, 2i8, 0i8, 2i8, 0i8, 0i8, 0i8]))
    } else if id == 12 {
        Some(preset_view(12, "Podcast"@, "Clear speech, reduced sibilance"@, seq![-1i8, 0i8, 2i8, 5i8, 2i8, -1i8, -2i8, 0i8, 0i8, 0i8]))
    } else if id == 13 {
        Some(preset_view(13, "Night Listening"@, "Reduced dynamics for quiet environments"@, seq![-3i8, -2i8, -1i8, 0i8, 0i8, -1i8, -2i8, 0i8, 0i8, 0i8]))
    } else {
        None
    }
}

/// The gains of bands `lo..hi` are 0 dB.
pub open spec fn flat_between(g: Seq<i8>, lo: int, hi: int) -> bool {
    forall|i: int| lo <= i < hi ==> g[i] == 0
}

/// Band `k` is at least as loud as every band `0..7`.
pub open spec fn peaks_at(g: Seq<i8>, k: int) -> bool {
    forall|i: int| 0 <= i < 7 ==> g[i] <= g[k]
}

/// What each preset curve is: ten bands, the last three flat, all within
/// ±12 dB, and shaped as its name says. "Flat" and "Custom" are 0 dB
/// throughout; "Bass Boost" peaks at the lowest band and lifts its bass
/// (bands 0-1) above its treble (bands 5-6); "Treble Boost" rises band by
/// band from the lowest band to band 6, so its treble is above its bass;
/// "Rock" is a V: both ends above the middle; "Jazz" peaks at band 6;
/// "Vocal", "Cinema" and "Podcast" peak at the midrange band 3; "Harman
/// AE/OE" peaks at the lowest band; "Night Listening" cuts or holds every
/// band.
pub proof fn law_preset_curves(id: u8)
    requires
        preset_of(id) is Some,
    ensures
        ({
            let p = preset_of(id).unwrap();
            let g = p.gains;
            &&& p.id == id
            &&& g.len() == 10
            &&& flat_between(g, 7, 10)
            &&& forall|i: int| 0 <= i < 10 ==> -12 <= #[trigger] g[i] <= 12
            &&& (p.name == "Flat"@ || p.name == "Custom"@) ==> flat_between(g, 0, 10)
            &&& p.name == "Bass Boost"@ ==> peaks_at(g, 0) && g[0] + g[1] > g[5] + g[6]
            &&& p.name == "Treble Boost"@ ==> (forall|i: int| 0 <= i < 6 ==> #[trigger] g[i]
                < g[i + 1]) && g[5] + g[6] > g[0] + g[1]
            &&& p.name == "Rock"@ ==> g[0] > g[2] && g[0] > g[3] && g[6] > g[2] && g[6] > g[3]
            &&& p.name == "Jazz"@ ==> peaks_at(g, 6)
            &&& (p.name == "Vocal"@ || p.name == "Cinema"@ || p.name == "Podcast"@) ==> peaks_at(
                g,
                3,
            )
            &&& p.name == "Harman AE/OE"@ ==> peaks_at(g, 0)
            &&& p.name == "Night Listening"@ ==> forall|i: int| 0 <= i < 10 ==> #[trigger] g[i]
                <= 0
        }),
{
    reveal_strlit("Flat");
    reveal_strlit("Bass Boost");
    reveal_strlit("Rock");
    reveal_strlit("Jazz");
    reveal_strlit("Vocal");
    reveal_strlit("Treble Boost");
    reveal_strlit("Custom");
    reveal_strlit("Harman AE/OE");
    reveal_strlit("Cinema");
    reveal_strlit("Podcast");
    reveal_strlit("Night Listening");
    let p = preset_of(id).unwrap();
    let g = p.gains;
    if id == 0 {
        assert(p.name == "Flat"@);
        assert("Bass Boost"@.len() == 10 && p.name.len() == 4);
        assert("Rock"@[0] == 'R' && p.name[0] == 'F');
        assert("Jazz"@[0] == 'J' && p.name[0] == 'F');
        assert("Vocal"@.len() == 5 && p.name.len() == 4);
        assert("Treble Boost"@.len() == 12 && p.name.len() == 4);
        assert("Custom"@.len() == 6 && p.name.len() == 4);
        assert("Harman AE/OE"@.len() == 12 && p.name.len() == 4);
        assert("Cinema"@.len() == 6 && p.name.len() == 4);
        assert("Podcast"@.len() == 7 && p.name.len() == 4);
        assert("Night Listening"@.len() == 15 && p.name.len() == 4);
        assert(g =~= seq![0i8, 0i8, 0i8, 0i8, 0i8, 0i8, 0i8, 0i8, 0i8, 0i8]);
    } else if id == 1 {
        assert(p.name == "Bass Boost"@);
        assert("Flat"@.len() == 4 && p.name.len() == 10);
        assert("Rock"@.len() == 4 && p.name.len() == 10);
        assert("Jazz"@.len() == 4 && p.name.len() == 10);
        assert("Vocal"@.len() == 5 && p.name.len() == 10);
        assert("Treble Boost"@.len() == 12 && p.name.len() == 10);
        assert("Custom"@.len() == 6 && p.name.len() == 10);
        assert("Harman AE/OE"@.len() == 12 && p.name.len() == 10);
        assert("Cinema"@.len() == 6 && p.name.len() == 10);
        assert("Podcast"@.len() == 7 && p.name.len() == 10);
        assert("Night Listening"@.len() == 15 && p.name.len() == 10);
        assert(g =~= seq![6i8, 4i8, 1i8, 0i8, 0i8, 1i8, 2i8, 0i8, 0i8, 0i8]);
    } else if id == 2 {
        assert(p.name == "Rock"@);
        assert("Flat"@[0] == 'F' && p.name[0] == 'R');
        assert("Bass Boost"@.len() == 10 && p.name.len() == 4);
        assert("Jazz"@[0] == 'J' && p.name[0] == 'R');
        assert("Vocal"@.len() == 5 && p.name.len() == 4);
        assert("Treble Boost"@.len() == 12 && p.name.len() == 4);
        assert("Custom"@.len() == 6 && p.name.len() == 4);
        assert("Harman AE/OE"@.len() == 12 && p.name.len() == 4);
        assert("Cinema"@.len() == 6 && p.name.len() == 4);
        assert("Podcast"@.len() == 7 && p.name.len() == 4);
        assert("Night Listening"@.len() == 15 && p.name.len() == 4);
        assert(g =~= seq![4i8, 3i8, -1i8, -1i8, 2i8, 4i8, 5i8, 0i8, 0i8, 0i8]);
    } else if id == 3 {
        assert(p.name == "Jazz"@);
        assert("Flat"@[0] == 'F' && p.name[0] == 'J');
        assert("Bass Boost"@.len() == 10 && p.name.len() == 4);
        assert("Rock"@[0] == 'R' && p.name[0] == 'J');
        assert("Vocal"@.len() == 5 && p.name.len() == 4);
        assert("Treble Boost"@.len() == 12 && p.name.len() == 4);
        assert("Custom"@.len() == 6 && p.name.len() == 4);
        assert("Harman AE/OE"@.len() == 12 && p.name.len() == 4);
        assert("Cinema"@.len() == 6 && p.name.len() == 4);
        assert("Podcast"@.len() == 7 && p.name.len() == 4);
        assert("Night Listening"@.len() == 15 && p.name.len() == 4);
        assert(g =~= seq![2i8, 2i8, 1i8, 1i8, -1i8, 2i8, 4i8, 0i8, 0i8, 0i8]);
    } else if id == 4 {
        assert(p.name == "Vocal"@);
        assert("Flat"@.len() == 4 && p.name.len() == 5);
        assert("Bass Boost"@.len() == 10 && p.name.len() == 5);
        assert("Rock"@.len() == 4 && p.name.len() == 5);
        assert("Jazz"@.len() == 4 && p.name.len() == 5);
        assert("Treble Boost"@.len() == 12 && p.name.len() == 5);
        assert("Custom"@.len() == 6 && p.name.len() == 5);
        assert("Harman AE/OE"@.len() == 12 && p.name.len() == 5);
        assert("Cinema"@.len() == 6 && p.name.len() == 5);
        assert("Podcast"@.len() == 7 && p.name.len() == 5);
        assert("Night Listening"@.len() == 15 && p.name.len() == 5);
        assert(g =~= seq![-2i8, -1i8, 0i8, 4i8, 3i8, 1i8, 1i8, 0i8, 0i8, 0i8]);
    } else if id == 5 {
        assert(p.name == "Treble Boost"@);
        assert("Flat"@.len() == 4 && p.name.len() == 12);
        assert("Bass Boost"@.len() == 10 && p.name.len() == 12);
        assert("Rock"@.len() == 4 && p.name.len() == 12);
        assert("Jazz"@.len() == 4 && p.name.len() == 12);
        assert("Vocal"@.len() == 5 && p.name.len() == 12);
        assert("Custom"@.len() == 6 && p.name.len() == 12);
        assert("Harman AE/OE"@[0] == 'H' && p.name[0] == 'T');
        assert("Cinema"@.len() == 6 && p.name.len() == 12);
        assert("Podcast"@.len() == 7 && p.name.len() == 12);
        assert("Night Listening"@.len() == 15 && p.name.len() == 12);
        assert(g =~= seq![-2i8, -1i8, 0i8, 1i8, 3i8, 5i8, 7i8, 0i8, 0i8, 0i8]);
    } else if id == 6 {
        assert(p.name == "Custom"@);
        assert("Flat"@.len() == 4 && p.name.len() == 6);
        assert("Bass Boost"@.len() == 10 && p.name.len() == 6);
        assert("Rock"@.len() == 4 && p.name.len() == 6);
        assert("Jazz"@.len() == 4 && p.name.len() == 6);
        assert("Vocal"@.len() == 5 && p.name.len() == 6);
        assert("Treble Boost"@.len() == 12 && p.name.len() == 6);
        assert("Harman AE/OE"@.len() == 12 && p.name.len() == 6);
        assert("Cinema"@[1] == 'i' && p.name[1] == 'u');
        assert("Podcast"@.len() == 7 && p.name.len() == 6);
        assert("Night Listening"@.len() == 15 && p.name.len() == 6);
        assert(g =~= seq![0i8, 0i8, 0i8, 0i8, 0i8, 0i8, 0i8, 0i8, 0i8, 0i8]);
    } else if id == 10 {
        assert(p.name == "Harman AE/OE"@);
        assert("Flat"@.len() == 4 && p.name.len() == 12);
        assert("Bass Boost"@.len() == 10 && p.name.len() == 12);
        assert("Rock"@.len() == 4 && p.name.len() == 12);
        assert("Jazz"@.len() == 4 && p.name.len() == 12);
        assert("Vocal"@.len() == 5 && p.name.len() == 12);
        assert("Treble Boost"@[0] == 'T' && p.name[0] == 'H');
        assert("Custom"@.len() == 6 && p.name.len() == 12);
        assert("Cinema"@.len() == 6 && p.name.len() == 12);
        assert("Podcast"@.len() == 7 && p.name.len() == 12);
        assert("Night Listening"@.len() == 15 && p.name.len() == 12);
        assert(g =~= seq![4i8, 3i8, 1i8, 0i8, -1i8, 1i8, 3i8, 0i8, 0i8, 0i8]);
    } else if id == 11 {
        assert(p.name == "Cinema"@);
        assert("Flat"@.len() == 4 && p.name.len() == 6);
        assert("Bass Boost"@.len() == 10 && p.name.len() == 6);
        assert("Rock"@.len() == 4 && p.name.len() == 6);
        assert("Jazz"@.len() == 4 && p.name.len() == 6);
        assert("Vocal"@.len() == 5 && p.name.len() == 6);
        assert("Treble Boost"@.len() == 12 && p.name.len() == 6);
        assert("Custom"@[1] == 'u' && p.name[1] == 'i');
        assert("Harman AE/OE"@.len() == 12 && p.name.len() == 6);
        assert("Podcast"@.len() == 7 && p.name.len() == 6);
        assert("Night Listening"@.len() == 15 && p.name.len() == 6);
        assert(g =~= seq![2i8, 2i8, 0i8, 3i8, 2i8, 0i8, 2i8, 0i8, 0i8, 0i8]);
    } else if id == 12 {
        assert(p.name == "Podcast"@);
        assert("Flat"@.len() == 4 && p.name.len() == 7);
        assert("Bass Boost"@.len() == 10 && p.name.len() == 7);
        assert("Rock"@.len() == 4 && p.name.len() == 7);
        assert("Jazz"@.len() == 4 && p.name.len() == 7);
        assert("Vocal"@.len() == 5 && p.name.len() == 7);
        assert("Treble Boost"@.len() == 12 && p.name.len() == 7);
        assert("Custom"@.len() == 6 && p.name.len() == 7);
        assert("Harman AE/OE"@.len() == 12 && p.name.len() == 7);
        assert("Cinema"@.len() == 6 && p.name.len() == 7);
        assert("Night Listening"@.len() == 15 && p.name.len() == 7);
        assert(g =~= seq![-1i8, 0i8, 2i8, 5i8, 2i8, -1i8, -2i8, 0i8, 0i8, 0i8]);
    } else if id == 13 {
        assert(p.name == "Night Listening"@);
        assert("Flat"@.len() == 4 && p.name.len() == 15);
        assert("Bass Boost"@.len() == 10 && p.name.len() == 15);
        assert("Rock"@.len() == 4 && p.name.len() == 15);
        assert("Jazz"@.len() == 4 && p.name.len() == 15);
        assert("Vocal"@.len() == 5 && p.name.len() == 15);
        assert("Treble Boost"@.len() == 12 && p.name.len() == 15);
        assert("Custom"@.len() == 6 && p.name.len() == 15);
        assert("Harman AE/OE"@.len() == 12 && p.name.len() == 15);
        assert("Cinema"@.len() == 6 && p.name.len() == 15);
        assert("Podcast"@.len() == 7 && p.name.len() == 15);
        assert(g =~= seq![-3i8, -2i8, -1i8, 0i8, 0i8, -1i8, -2i8, 0i8, 0i8, 0i8]);
    }
}

/// IDs of the standard presets, in listing order.
pub open spec fn standard_ids() -> Seq<u8> {
    seq![0u8, 1, 2, 3, 4, 5, 6]
}

/// IDs of the special presets, in listing order.
pub open spec fn special_ids() -> Seq<u8> {
    seq![10u8, 11, 12, 13]
}

/// Integer division rounding toward zero, as Rust's `/` does.
pub open spec fn trunc_div(a: int, b: int) -> int {
    if a >= 0 {
        a / b
    } else {
        -((-a) / b)
    }
}

/// The gains for which `gains_description` computes without overflow: the
/// band sums stay within `i8`.
pub open spec fn gains_summable(g: Seq<i8>) -> bool {
    &&& -128 <= g[0] + g[1] <= 127
    &&& -128 <= g[2] + g[3] <= 127
    &&& -128 <= g[2] + g[3] + g[4] <= 127
    &&& -128 <= g[5] + g[6] <= 127
}

/// `Bass: <b>dB, Mid: <m>dB, Treble: <t>dB`, with bass the average of the
/// first two bands, mid of the next three and treble of the two after,
/// each rounded toward zero.
pub open spec fn gains_text(g: Seq<i8>) -> Seq<char> {
    "Bass: "@ + dec_int(trunc_div(g[0] + g[1], 2)) + "dB, Mid: "@ + dec_int(
        trunc_div(g[2] + g[3] + g[4], 3),
    ) + "dB, Treble: "@ + dec_int(trunc_div(g[5] + g[6], 2)) + "dB"@
}

fn div_toward_zero(a: i32, b: i32) -> (q: i32)
    requires
        b > 0,
        -1000 <= a <= 1000,
    ensures
        q == trunc_div(a as int, b as int),
{
    if a >= 0 {
        a / b
    } else {
        -((-a) / b)
    }
}

impl EqPreset {
    pub fn new(id: u8, name: &'static str, description: &'static str, gains: [i8; 10]) -> (p: Self)
        ensures
            p.id == id,
            p.name == name,
            p.description == description,
            p.gains == gains,
    {
        Self { id, name, description, gains }
    }

    /// The preset with the given ID, among the standard and special presets.
    pub fn find(id: u8) -> (r: Option<Self>)
        ensures
            r is Some == preset_of(id) is Some,
            r matches Some(p) ==> Some(p@) == preset_of(id),
    {
        let r = match id {
            0 => Some(Self::new(0, "Flat", "Neutral, uncolored sound", [0, 0, 0, 0, 0, 0, 0, 0, 0, 0])),
            1 => Some(Self::new(1, "Bass Boost", "Warm, punchy bass (Harman headphone curve inspired)", [6, 4, 1, 0, 0, 1, 2, 0, 0, 0])),
            2 => Some(Self::new(2, "Rock", "Energetic V-shape for guitars and drums", [4, 3, -1, -1, 2, 4, 5, 0, 0, 0])),
            3 => Some(Self::new(3, "Jazz", "Smooth mids, detailed cymbals", [2, 2, 1, 1, -1, 2, 4, 0, 0, 0])),
            4 => Some(Self::new(4, "Vocal", "Enhanced presence for vocals and speech", [-2, -1, 0, 4, 3, 1, 1, 0, 0, 0])),
            5 => Some(Self::new(5, "Treble Boost", "Crisp highs for classical and acoustic", [-2, -1, 0, 1, 3, 5, 7, 0, 0, 0])),
            6 => Some(Self::new(6, "Custom", "User-defined EQ curve", [0, 0, 0, 0, 0, 0, 0, 0, 0, 0])),
            10 => Some(Self::new(10, "Harman AE/OE", "Research-optimized consumer curve", [4, 3, 1, 0, -1, 1, 3, 0, 0, 0])),
            11 => Some(Self::new(11, "Cinema", "Enhanced for movies and dialogue", [2, 2, 0, 3, 2, 0, 2, 0, 0, 0])),
            12 => Some(Self::new(12, "Podcast", "Clear speech, reduced sibilance", [-1, 0, 2, 5, 2, -1, -2, 0, 0, 0])),
            13 => Some(Self::new(13, "Night Listening", "Reduced dynamics for quiet environments", [-3, -2, -1, 0, 0, -1, -2, 0, 0, 0])),
            _ => None,
        };
        proof {
            if let Some(p) = r {
                assert(p@.gains =~= preset_of(id).unwrap().gains);
            }
        }
        r
    }

    /// A one-line summary of a gain curve:
    /// `Bass: <b>dB, Mid: <m>dB, Treble: <t>dB`.
    pub fn gains_description(gains: &[i8; 10]) -> (s: String)
        requires
            gains_summable(gains@),
        ensures
            s@ == gains_text(gains@),
    {
        let bass = div_toward_zero(gains[0] as i32 + gains[1] as i32, 2);
        let mid = div_toward_zero(gains[2] as i32 + gains[3] as i32 + gains[4] as i32, 3);
        let treble = div_toward_zero(gains[5] as i32 + gains[6] as i32, 2);
        let mut s = String::from_str("Bass: ");
        push_decimal_i64(&mut s, bass as i64);
        s.append("dB, Mid: ");
        push_decimal_i64(&mut s, mid as i64);
        s.append("dB, Treble: ");
        push_decimal_i64(&mut s, treble as i64);
        s.append("dB");
        s
    }
}

/// The standard presets, in order of ID.
pub fn eq_presets() -> (v: Vec<EqPreset>)
    ensures
        v@.len() == standard_ids().len(),
        forall|i: int| 0 <= i < v@.len() ==> Some(#[trigger] v@[i]@) == preset_of(standard_ids()[i]),
{
    let ids: [u8; 7] = [0, 1, 2, 3, 4, 5, 6];
    presets_for(&ids)
}

/// The special presets, in order of ID.
pub fn special_presets() -> (v: Vec<EqPreset>)
    ensures
        v@.len() == special_ids().len(),
        forall|i: int| 0 <= i < v@.len() ==> Some(#[trigger] v@[i]@) == preset_of(special_ids()[i]),
{
    let ids: [u8; 4] = [10, 11, 12, 13];
    presets_for(&ids)
}

fn presets_for(ids: &[u8]) -> (v: Vec<EqPreset>)
    requires
        forall|i: int| 0 <= i < ids@.len() ==> (#[trigger] preset_of(ids@[i])) is Some,
    ensures
        v@.len() == ids@.len(),
        forall|i: int| 0 <= i < v@.len() ==> Some(#[trigger] v@[i]@) == preset_of(ids@[i]),
{
    let mut v: Vec<EqPreset> = Vec::new();
    let mut i: usize = 0;
    while i < ids.len()
        invariant
            i <= ids@.len(),
            v@.len() == i,
            forall|k: int| 0 <= k < ids@.len() ==> (#[trigger] preset_of(ids@[k])) is Some,
            forall|k: int| 0 <= k < i ==> Some(#[trigger] v@[k]@) == preset_of(ids@[k]),
        decreases ids@.len() - i,
    {
        let id = ids[i];
        assert(preset_of(ids@[i as int]) is Some);
        match EqPreset::find(id) {
            Some(p) => {
                v.push(p);
            },
            None => {
                assert(false);
            },
        }
        i = i + 1;
    }
    v
}

// ── EQ State ──

/// The equaliser state reported by the earbuds.
#[derive(Debug, Clone)]
pub struct EqState {
    pub mode: u8,
    pub name: String,
    pub description: String,
    pub gains: Vec<i8>,
}

/// The content of an EQ state.
pub struct EqStateView {
    pub mode: u8,
    pub name: Seq<char>,
    pub description: Seq<char>,
    pub gains: Seq<i8>,
}

impl View for EqState {
    type V = EqStateView;

    open spec fn view(&self) -> EqStateView {
        EqStateView {
            mode: self.mode,
            name: self.name@,
            description: self.description@,
            gains: self.gains@,
        }
    }
}

impl EqState {
    /// Whether the mode is the custom curve (6) or a special preset (10+).
    pub fn is_custom(&self) -> (r: bool)
        ensures
            r == (self.mode == 6 || self.mode >= 10),
    {
        self.mode == 6 || self.mode >= 10
    }
}

// ── Gain wire representation ──

/// The wire byte of a gain: two's complement.
pub open spec fn gain_byte(g: i8) -> u8 {
    if g < 0 {
        (g + 256) as u8
    } else {
        g as u8
    }
}

/// The gain that a wire byte carries: two's complement.
pub open spec fn byte_gain(b: u8) -> i8 {
    if b < 128 {
        b as i8
    } else {
        (b - 256) as i8
    }
}

/// Converts an i8 gain value to its u8 wire representation.
pub fn gain_to_u8(gain: i8) -> (b: u8)
    ensures
        b == gain_byte(gain),
{
    if gain < 0 {
        (gain as i16 + 256) as u8
    } else {
        gain as u8
    }
}

/// Converts a u8 wire value back to an i8 gain value.
pub fn u8_to_gain(byte: u8) -> (g: i8)
    ensures
        g == byte_gain(byte),
{
    if byte < 128 {
        byte as i8
    } else {
        (byte as i16 - 256) as i8
    }
}

/// A gain survives the trip to its wire byte and back, and so does a byte.
pub proof fn lemma_gain_roundtrip(g: i8, b: u8)
    ensures
        byte_gain(gain_byte(g)) == g,
        gain_byte(byte_gain(b)) == b,
{
}

/// The TLV entry a device reports its EQ setting in.
pub open spec fn eq_entry(v: Seq<u8>) -> Seq<u8> {
    seq![ID_EQ_SETTING, v.len() as u8] + v
}

/// What a custom curve reads back as: a device that reports the setting a
/// custom-curve request sent is read as the custom preset with the curve's
/// ten gains (the given ones, cut or padded with zeros).
pub proof fn law_custom_curve_read_back(g: Seq<i8>)
    ensures
        eq_state_of(eq_entry(set_custom_payload(g))) == Some(
            EqStateView {
                mode: 6,
                name: "Custom"@,
                description: "User-defined EQ curve"@,
                gains: ten_gains(g),
            },
        ),
{
    let v = set_custom_payload(g);
    let d = eq_entry(v);
    assert(v.len() == 12);
    assert(d.subrange(2, 14) =~= v);
    let e = tlv_find_bytes(d, 0, ID_EQ_SETTING).0.unwrap();
    assert(e == v);
    let gains = Seq::new((e.len() - 2) as nat, |i: int| byte_gain(e[i + 2]));
    assert forall|i: int| 0 <= i < 10 implies gains[i] == ten_gains(g)[i] by {
        assert(e[i + 2] == gain_byte(ten_gains(g)[i]));
        lemma_gain_roundtrip(ten_gains(g)[i], 0);
    }
    assert(gains =~= ten_gains(g));
}

/// What a preset reads back as: a device that reports the setting a preset
/// request sent is read as that preset, with its name, description and
/// gains.
pub proof fn law_preset_read_back(id: u8)
    requires
        preset_of(id) is Some,
    ensures
        eq_state_of(eq_entry(set_preset_payload(id))) == Some(
            EqStateView {
                mode: id,
                name: preset_of(id).unwrap().name,
                description: preset_of(id).unwrap().description,
                gains: preset_of(id).unwrap().gains,
            },
        ),
{
    let p = preset_of(id).unwrap();
    let v = set_preset_payload(id);
    let d = eq_entry(v);
    assert(v.len() == 12);
    assert(d.subrange(2, 14) =~= v);
    let e = tlv_find_bytes(d, 0, ID_EQ_SETTING).0.unwrap();
    assert(e == v);
    let gains = Seq::new((e.len() - 2) as nat, |i: int| byte_gain(e[i + 2]));
    assert forall|i: int| 0 <= i < 10 implies gains[i] == p.gains[i] by {
        assert(e[i + 2] == gain_byte(p.gains[i]));
        lemma_gain_roundtrip(p.gains[i], 0);
    }
    assert(gains =~= p.gains);
}

// ── EqCommand ──

/// EQ requests.
#[derive(Debug, Clone)]
pub enum EqCommand {
    GetState,
    SetPreset(u8),
    SetCustom(Vec<i8>),
}

/// Decoded EQ responses.
#[derive(Debug, Clone)]
pub enum EqResponse {
    State(Option<EqState>),
    Ack,
}

/// The wire bytes of a gain sequence.
pub open spec fn gain_bytes(g: Seq<i8>) -> Seq<u8> {
    Seq::new(g.len(), |i: int| gain_byte(g[i]))
}

/// Ten gains: the given ones, cut or padded with zeros.
pub open spec fn ten_gains(g: Seq<i8>) -> Seq<i8> {
    Seq::new(10, |i: int| if i < g.len() { g[i] } else { 0i8 })
}

/// The payload that sets a preset: `[10, id, gains...]`, or nothing for an
/// unknown ID.
pub open spec fn set_preset_payload(id: u8) -> Seq<u8> {
    match preset_of(id) {
        Some(p) => seq![10u8, id] + gain_bytes(p.gains),
        None => seq![],
    }
}

/// The payload that sets a custom curve: `[10, 6, ten gains...]`.
pub open spec fn set_custom_payload(g: Seq<i8>) -> Seq<u8> {
    seq![10u8, 6u8] + gain_bytes(ten_gains(g))
}

/// The EQ state read from a response: the first EQ entry, when it holds
/// at least two bytes, gives the mode (its second byte) and the gains (the
/// bytes after); the name and description come from the preset table.
pub open spec fn eq_state_of(d: Seq<u8>) -> Option<EqStateView> {
    match tlv_find_bytes(d, 0, ID_EQ_SETTING).0 {
        Some(e) => if e.len() >= 2 {
            Some(
                EqStateView {
                    mode: e[1],
                    name: match preset_of(e[1]) {
                        Some(p) => p.name,
                        None => "Unknown"@,
                    },
                    description: match preset_of(e[1]) {
                        Some(p) => p.description,
                        None => "Unknown preset"@,
                    },
                    gains: Seq::new((e.len() - 2) as nat, |i: int| byte_gain(e[i + 2])),
                },
            )
        } else {
            None
        },
        None => None,
    }
}

fn push_gain_bytes(payload: &mut Vec<u8>, gains: &[i8])
    ensures
        final(payload)@ == old(payload)@ + gain_bytes(gains@),
{
    let mut i: usize = 0;
    while i < gains.len()
        invariant
            i <= gains@.len(),
            payload@ == old(payload)@ + gain_bytes(gains@.subrange(0, i as int)),
        decreases gains@.len() - i,
    {
        payload.push(gain_to_u8(gains[i]));
        i = i + 1;
        assert(payload@ =~= old(payload)@ + gain_bytes(gains@.subrange(0, i as int)));
    }
    assert(gains@.subrange(0, i as int) =~= gains@);
}

impl EqCommand {
    /// The command byte: a handshake query for `GetState`, the EQ setting
    /// command otherwise.
    pub open spec fn spec_cmd_id(&self) -> u8 {
        match self {
            EqCommand::GetState => CMD_HANDSHAKE,
            _ => CMD_EQ_SETTING,
        }
    }

    /// The request payload.
    pub open spec fn spec_payload(&self) -> Seq<u8> {
        match self {
            EqCommand::GetState => seq![0xFFu8, 0x00u8, ID_EQ_SETTING, 0x00u8],
            EqCommand::SetPreset(id) => set_preset_payload(*id),
            EqCommand::SetCustom(g) => set_custom_payload(g@),
        }
    }
}

impl BleCommand for EqCommand {
    type Response = EqResponse;

    fn cmd_id(&self) -> (r: u8)
        ensures
            r == self.spec_cmd_id(),
    {
        match self {
            Self::GetState => CMD_HANDSHAKE,
            Self::SetPreset(_) | Self::SetCustom(_) => CMD_EQ_SETTING,
        }
    }

    fn encode(&self) -> (r: Vec<u8>)
        ensures
            r@ == self.spec_payload(),
    {
        match self {
            Self::GetState => {
                let r = vec![0xFF, 0x00, ID_EQ_SETTING, 0x00];
                assert(r@ =~= self.spec_payload());
                r
            },
            Self::SetPreset(preset_id) => {
                if let Some(preset) = EqPreset::find(*preset_id) {
                    let mut payload = vec![10, preset.id];
                    push_gain_bytes(&mut payload, preset.gains.as_slice());
                    assert(payload@ =~= self.spec_payload());
                    payload
                } else {
                    let r: Vec<u8> = Vec::new();
                    assert(r@ =~= self.spec_payload());
                    r
                }
            },
            Self::SetCustom(gains) => {
                let mut final_gains: Vec<i8> = Vec::new();
                let mut i: usize = 0;
                while i < 10
                    invariant
                        i <= 10,
                        final_gains@ == ten_gains(gains@).subrange(0, i as int),
                    decreases 10 - i,
                {
                    if i < gains.len() {
                        final_gains.push(gains[i]);
                    } else {
                        final_gains.push(0);
                    }
                    i = i + 1;
                    assert(final_gains@ =~= ten_gains(gains@).subrange(0, i as int));
                }
                assert(final_gains@ =~= ten_gains(gains@));
                let mut payload = vec![10, 6];
                push_gain_bytes(&mut payload, final_gains.as_slice());
                assert(payload@ =~= self.spec_payload());
                payload
            },
        }
    }

    fn decode(&self, payload: &[u8]) -> (r: Result<EqResponse, Error>)
        ensures
            match self {
                EqCommand::GetState => r matches Ok(EqResponse::State(s)) && match eq_state_of(
                    payload@,
                ) {
                    Some(v) => s matches Some(st) && st@ == v,
                    None => s is None,
                },
                _ => r matches Ok(EqResponse::Ack),
            },
    {
        match self {
            Self::GetState => {
                let mut parser = TlvParser::new(payload);
                if let Some(eq_data) = parser.get_bytes(ID_EQ_SETTING) {
                    if eq_data.len() >= 2 {
                        let mode = eq_data[1];
                        let mut gains: Vec<i8> = Vec::new();
                        let mut i: usize = 2;
                        while i < eq_data.len()
                            invariant
                                2 <= i <= eq_data@.len(),
                                gains@ == Seq::new(
                                    (i - 2) as nat,
                                    |k: int| byte_gain(eq_data@[k + 2]),
                                ),
                            decreases eq_data@.len() - i,
                        {
                            gains.push(u8_to_gain(eq_data[i]));
                            i = i + 1;
                            assert(gains@ =~= Seq::new(
                                (i - 2) as nat,
                                |k: int| byte_gain(eq_data@[k + 2]),
                            ));
                        }
                        let (name, description) = match EqPreset::find(mode) {
                            Some(p) => (String::from_str(p.name), String::from_str(p.description)),
                            None => (String::from_str("Unknown"), String::from_str("Unknown preset")),
                        };
                        let st = EqState { mode, name, description, gains };
                        assert(Some(st@) == eq_state_of(payload@));
                        return Ok(EqResponse::State(Some(st)));
                    }
                }
                Ok(EqResponse::State(None))
            },
            Self::SetPreset(_) | Self::SetCustom(_) => Ok(EqResponse::Ack),
        }
    }
}

// ── Preset listing ──

/// One row of the preset listing: ID, name, description and gain summary.
pub open spec fn listing_row(p: EqPresetView, special: bool) -> (u8, Seq<char>, Seq<char>, Seq<char>) {
    (
        p.id,
        if special { p.name + " (Special)"@ } else { p.name },
        p.description,
        gains_text(p.gains),
    )
}

/// The listing of every preset: the standard ones, then the special ones
/// with ` (Special)` after the name.
pub open spec fn preset_listing() -> Seq<(u8, Seq<char>, Seq<char>, Seq<char>)> {
    Seq::new(
        11,
        |i: int|
            if i < 7 {
                listing_row(preset_of(standard_ids()[i]).unwrap(), false)
            } else {
                listing_row(preset_of(special_ids()[i - 7]).unwrap(), true)
            },
    )
}

fn listing_entry(p: &EqPreset, special: bool) -> (r: (u8, String, String, String))
    requires
        gains_summable(p.gains@),
    ensures
        (r.0, r.1@, r.2@, r.3@) == listing_row(p@, special),
{
    let mut name = String::from_str(p.name);
    if special {
        name.append(" (Special)");
    }
    (p.id, name, String::from_str(p.description), EqPreset::gains_description(&p.gains))
}

/// Marker for the EQ controls of a device handle.
pub struct EqController<'a> {
    pub buds: &'a crate::device::SpaceBuds,
}

impl<'a> EqController<'a> {
    /// The EQ state a state query's reply reports; any other reply is a
    /// parse error.
    pub fn state_from(resp: EqResponse) -> (r: Result<Option<EqState>, Error>)
        ensures
            match resp {
                EqResponse::State(st) => r matches Ok(got) && got == st,
                _ => r matches Err(Error::Parse(msg)) && msg@
                    == "Unexpected response type for get_state"@,
            },
    {
        match resp {
            EqResponse::State(st) => Ok(st),
            _ => Err(Error::Parse("Unexpected response type for get_state")),
        }
    }

    /// The request that selects a preset; an unknown preset ID is refused.
    pub fn preset_request(preset_id: u8) -> (r: Result<EqCommand, Error>)
        ensures
            preset_of(preset_id) is Some ==> (r matches Ok(c) && c == EqCommand::SetPreset(
                preset_id,
            )),
            preset_of(preset_id) is None ==> (r matches Err(Error::InvalidPreset(id)) && id
                == preset_id),
    {
        if EqPreset::find(preset_id).is_none() {
            return Err(Error::InvalidPreset(preset_id));
        }
        Ok(EqCommand::SetPreset(preset_id))
    }

    /// Every preset as (id, name, description, gain summary): the standard
    /// presets, then the special ones marked ` (Special)`.
    pub fn list_presets() -> (v: Vec<(u8, String, String, String)>)
        ensures
            v@.len() == preset_listing().len(),
            forall|i: int|
                0 <= i < v@.len() ==> ((#[trigger] v@[i]).0, v@[i].1@, v@[i].2@, v@[i].3@)
                    == preset_listing()[i],
    {
        let standard = eq_presets();
        let special = special_presets();
        let mut v: Vec<(u8, String, String, String)> = Vec::new();
        let mut i: usize = 0;
        while i < standard.len()
            invariant
                i <= 7,
                standard@.len() == 7,
                forall|k: int| 0 <= k < 7 ==> Some(#[trigger] standard@[k]@) == preset_of(standard_ids()[k]),
                v@.len() == i,
                forall|k: int|
                    0 <= k < i ==> ((#[trigger] v@[k]).0, v@[k].1@, v@[k].2@, v@[k].3@)
                        == preset_listing()[k],
            decreases 7 - i,
        {
            assert(Some(standard@[i as int]@) == preset_of(standard_ids()[i as int]));
            v.push(listing_entry(&standard[i], false));
            i = i + 1;
        }
        let mut j: usize = 0;
        while j < special.len()
            invariant
                j <= 4,
                special@.len() == 4,
                forall|k: int| 0 <= k < 4 ==> Some(#[trigger] special@[k]@) == preset_of(special_ids()[k]),
                v@.len() == 7 + j,
                forall|k: int|
                    0 <= k < 7 + j ==> ((#[trigger] v@[k]).0, v@[k].1@, v@[k].2@, v@[k].3@)
                        == preset_listing()[k],
            decreases 4 - j,
        {
            assert(Some(special@[j as int]@) == preset_of(special_ids()[j as int]));
            v.push(listing_entry(&special[j], true));
            j = j + 1;
        }
        v
    }
}

} // verus!
