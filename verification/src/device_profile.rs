//! Device profiles for the Oraimo product lineup: which features each model
//! supports, looked up by the product ID from the beacon advertisement or by
//! the advertised name.
use crate::text::{has_substring, lowercase, str_contains, to_lowercase};
use vstd::prelude::*;
use vstd::string::*;

verus! {

// ── Product IDs ──

pub const PID_SPACEBUDS_NEO_2: u16 = 64;
pub const PID_OPENSNAP_HAYATO: u16 = 4100;
pub const PID_SPACEBUDS_2: u16 = 65;
pub const PID_627S: u16 = 55;
pub const PID_OPN671: u16 = 4101;

// ── Detail features ──

/// A user-facing feature that a model may support.
#[derive(Debug, Clone, Copy, PartialEq, Eq, PartialOrd, Ord, Structural)]
pub enum DetailFeature {
    Noise,
    NoiseAdjust,
    ChatMode,
    DualDeviceInfo,
    DualDeviceSwitch,
    GameMode,
    SpaceAudio,
    Led,
    Care,
    EarControl,
    KeySetting,
    FirmwareUpgrade,
    ToneVolume,
    AdaptiveVolume,
    VoicePrompt,
    Sport,
    EarDetection,
    EarAuto,
    CustomTone,
    AiTone,
    ModifyName,
    FindEar,
    EqSwitch,
    DefaultEqHavyBass,
    ShowDiscoverUi,
    Location,
    BassEqSwitch,
    LongEndurance,
    Karaoke,
    VoiceControl,
    Ldac,
    SoundEffect3D,
    HearingCare,
    AreaTap,
    ClearPairRecord,
    BluetoothName,
    InEarDetection,
    AutoAnswer,
    FindDevice,
}

/// The position of a feature in declaration order, which is also its sort
/// order.
pub open spec fn feature_rank(f: DetailFeature) -> int {
    match f {
        DetailFeature::Noise => 0,
        DetailFeature::NoiseAdjust => 1,
        DetailFeature::ChatMode => 2,
        DetailFeature::DualDeviceInfo => 3,
        DetailFeature::DualDeviceSwitch => 4,
        DetailFeature::GameMode => 5,
        DetailFeature::SpaceAudio => 6,
        DetailFeature::Led => 7,
        DetailFeature::Care => 8,
        DetailFeature::EarControl => 9,
        DetailFeature::KeySetting => 10,
        DetailFeature::FirmwareUpgrade => 11,
        DetailFeature::ToneVolume => 12,
        DetailFeature::AdaptiveVolume => 13,
        DetailFeature::VoicePrompt => 14,
        DetailFeature::Sport => 15,
        DetailFeature::EarDetection => 16,
        DetailFeature::EarAuto => 17,
        DetailFeature::CustomTone => 18,
        DetailFeature::AiTone => 19,
        DetailFeature::ModifyName => 20,
        DetailFeature::FindEar => 21,
        DetailFeature::EqSwitch => 22,
        DetailFeature::DefaultEqHavyBass => 23,
        DetailFeature::ShowDiscoverUi => 24,
        DetailFeature::Location => 25,
        DetailFeature::BassEqSwitch => 26,
        DetailFeature::LongEndurance => 27,
        DetailFeature::Karaoke => 28,
        DetailFeature::VoiceControl => 29,
        DetailFeature::Ldac => 30,
        DetailFeature::SoundEffect3D => 31,
        DetailFeature::HearingCare => 32,
        DetailFeature::AreaTap => 33,
        DetailFeature::ClearPairRecord => 34,
        DetailFeature::BluetoothName => 35,
        DetailFeature::InEarDetection => 36,
        DetailFeature::AutoAnswer => 37,
        DetailFeature::FindDevice => 38,
    }
}

/// A list of features without repeats, in declaration order.
pub open spec fn feature_list_ok(s: Seq<DetailFeature>) -> bool {
    forall|i: int, j: int| 0 <= i < j < s.len() ==> feature_rank(#[trigger] s[i]) < feature_rank(#[trigger] s[j])
}

/// Chip vendor of a model.
#[derive(Debug, Clone, Copy, PartialEq, Eq, Structural)]
pub enum ChipPlatform {
    Bluetrum,
    JieLi,
}

/// How a model sits in or on the ear.
#[derive(Debug, Clone, Copy, PartialEq, Eq, Structural)]
pub enum FormFactor {
    InEar,
    HalfInEar,
    OpenEar,
    Headphones,
}

/// What one model of earbuds supports.
#[derive(Debug, Clone)]
pub struct DeviceProfile {
    pub product_id: u16,
    pub name: &'static str,
    pub model: &'static str,
    pub chip: ChipPlatform,
    pub form: FormFactor,
    /// Supported features, without repeats, in declaration order.
    pub features: Vec<DetailFeature>,
}

/// The content of a profile.
pub struct ProfileView {
    pub product_id: u16,
    pub name: Seq<char>,
    pub model: Seq<char>,
    pub chip: ChipPlatform,
    pub form: FormFactor,
    pub features: Seq<DetailFeature>,
}

impl View for DeviceProfile {
    type V = ProfileView;

    open spec fn view(&self) -> ProfileView {
        ProfileView {
            product_id: self.product_id,
            name: self.name@,
            model: self.model@,
            chip: self.chip,
            form: self.form,
            features: self.features@,
        }
    }
}

impl DeviceProfile {
    /// Whether this model supports a feature.
    pub fn has_feature(&self, feature: DetailFeature) -> (r: bool)
        ensures
            r == self.features@.contains(feature),
    {
        let mut i: usize = 0;
        while i < self.features.len()
            invariant
                i <= self.features@.len(),
                forall|k: int| 0 <= k < i ==> self.features@[k] != feature,
            decreases self.features@.len() - i,
        {
            if self.features[i] == feature {
                return true;
            }
            i = i + 1;
        }
        false
    }
}

/// A profile's content from its parts.
pub open spec fn profile_view(
    product_id: u16,
    name: Seq<char>,
    model: Seq<char>,
    chip: ChipPlatform,
    form: FormFactor,
    features: Seq<DetailFeature>,
) -> ProfileView {
    ProfileView { product_id, name, model, chip, form, features }
}

/// The known profiles, in lookup order.
pub open spec fn known_profiles() -> Seq<ProfileView> {
    seq![
        profile_view(64, "oraimo SpaceBuds Neo 2"@, "321"@, ChipPlatform::Bluetrum, FormFactor::InEar, seq![DetailFeature::KeySetting, DetailFeature::ToneVolume, DetailFeature::ModifyName, DetailFeature::FindEar, DetailFeature::DefaultEqHavyBass, DetailFeature::ShowDiscoverUi, DetailFeature::HearingCare]),
        profile_view(65, "oraimo SpaceBuds 2"@, "631_star"@, ChipPlatform::JieLi, FormFactor::HalfInEar, seq![DetailFeature::Noise, DetailFeature::NoiseAdjust, DetailFeature::DualDeviceSwitch, DetailFeature::GameMode, DetailFeature::SpaceAudio, DetailFeature::Led, DetailFeature::EarControl, DetailFeature::CustomTone, DetailFeature::AiTone, DetailFeature::ModifyName, DetailFeature::FindEar, DetailFeature::DefaultEqHavyBass, DetailFeature::ShowDiscoverUi, DetailFeature::HearingCare]),
        profile_view(4100, "oraimo OpenSnap Hayato"@, "OPN371_FF"@, ChipPlatform::JieLi, FormFactor::OpenEar, seq![DetailFeature::DualDeviceInfo, DetailFeature::GameMode, DetailFeature::SpaceAudio, DetailFeature::EarControl, DetailFeature::ToneVolume, DetailFeature::AdaptiveVolume, DetailFeature::ModifyName, DetailFeature::FindEar, DetailFeature::DefaultEqHavyBass, DetailFeature::ShowDiscoverUi]),
        profile_view(55, "627S"@, "627S"@, ChipPlatform::JieLi, FormFactor::InEar, seq![DetailFeature::GameMode, DetailFeature::EarControl]),
        profile_view(4101, "OPN671"@, "OPN671"@, ChipPlatform::JieLi, FormFactor::HalfInEar, seq![DetailFeature::EarControl]),
    ]
}

/// The fallback profile for unknown products.
pub open spec fn generic_view() -> ProfileView {
    profile_view(0, "Oraimo SpaceBuds"@, "generic"@, ChipPlatform::Bluetrum, FormFactor::InEar, seq![DetailFeature::Noise, DetailFeature::ChatMode, DetailFeature::DualDeviceSwitch, DetailFeature::GameMode, DetailFeature::SpaceAudio, DetailFeature::Led, DetailFeature::EarControl, DetailFeature::KeySetting, DetailFeature::ToneVolume, DetailFeature::AdaptiveVolume, DetailFeature::VoicePrompt, DetailFeature::ModifyName, DetailFeature::FindEar, DetailFeature::EqSwitch, DetailFeature::DefaultEqHavyBass, DetailFeature::ShowDiscoverUi, DetailFeature::LongEndurance, DetailFeature::SoundEffect3D, DetailFeature::HearingCare, DetailFeature::AreaTap, DetailFeature::ClearPairRecord, DetailFeature::BluetoothName, DetailFeature::InEarDetection, DetailFeature::AutoAnswer, DetailFeature::FindDevice])
}

/// Builds the list of known profiles.
pub fn build_profiles() -> (v: Vec<DeviceProfile>)
    ensures
        v@.len() == known_profiles().len(),
        forall|i: int| 0 <= i < v@.len() ==> (#[trigger] v@[i])@ == known_profiles()[i],
{
    let v = vec![
        DeviceProfile { product_id: PID_SPACEBUDS_NEO_2, name: "oraimo SpaceBuds Neo 2", model: "321", chip: ChipPlatform::Bluetrum, form: FormFactor::InEar, features: vec![DetailFeature::KeySetting, DetailFeature::ToneVolume, DetailFeature::ModifyName, DetailFeature::FindEar, DetailFeature::DefaultEqHavyBass, DetailFeature::ShowDiscoverUi, DetailFeature::HearingCare] },
        DeviceProfile { product_id: PID_SPACEBUDS_2, name: "oraimo SpaceBuds 2", model: "631_star", chip: ChipPlatform::JieLi, form: FormFactor::HalfInEar, features: vec![DetailFeature::Noise, DetailFeature::NoiseAdjust, DetailFeature::DualDeviceSwitch, DetailFeature::GameMode, DetailFeature::SpaceAudio, DetailFeature::Led, DetailFeature::EarControl, DetailFeature::CustomTone, DetailFeature::AiTone, DetailFeature::ModifyName, DetailFeature::FindEar, DetailFeature::DefaultEqHavyBass, DetailFeature::ShowDiscoverUi, DetailFeature::HearingCare] },
        DeviceProfile { product_id: PID_OPENSNAP_HAYATO, name: "oraimo OpenSnap Hayato", model: "OPN371_FF", chip: ChipPlatform::JieLi, form: FormFactor::OpenEar, features: vec![DetailFeature::DualDeviceInfo, DetailFeature::GameMode, DetailFeature::SpaceAudio, DetailFeature::EarControl, DetailFeature::ToneVolume, DetailFeature::AdaptiveVolume, DetailFeature::ModifyName, DetailFeature::FindEar, DetailFeature::DefaultEqHavyBass, DetailFeature::ShowDiscoverUi] },
        DeviceProfile { product_id: PID_627S, name: "627S", model: "627S", chip: ChipPlatform::JieLi, form: FormFactor::InEar, features: vec![DetailFeature::GameMode, DetailFeature::EarControl] },
        DeviceProfile { product_id: PID_OPN671, name: "OPN671", model: "OPN671", chip: ChipPlatform::JieLi, form: FormFactor::HalfInEar, features: vec![DetailFeature::EarControl] },
    ];
    proof {
        assert(v@[0].features@ =~= known_profiles()[0].features);
        assert(v@[0]@ =~= known_profiles()[0]);
        assert(v@[1].features@ =~= known_profiles()[1].features);
        assert(v@[1]@ =~= known_profiles()[1]);
        assert(v@[2].features@ =~= known_profiles()[2].features);
        assert(v@[2]@ =~= known_profiles()[2]);
        assert(v@[3].features@ =~= known_profiles()[3].features);
        assert(v@[3]@ =~= known_profiles()[3]);
        assert(v@[4].features@ =~= known_profiles()[4].features);
        assert(v@[4]@ =~= known_profiles()[4]);
    }
    v
}

/// The known profiles, in lookup order.
pub fn profiles() -> (v: Vec<DeviceProfile>)
    ensures
        v@.len() == known_profiles().len(),
        forall|i: int| 0 <= i < v@.len() ==> (#[trigger] v@[i])@ == known_profiles()[i],
{
    build_profiles()
}

/// The fallback profile for unknown products.
pub fn generic_profile() -> (p: DeviceProfile)
    ensures
        p@ == generic_view(),
{
    let features = vec![DetailFeature::Noise, DetailFeature::ChatMode, DetailFeature::DualDeviceSwitch, DetailFeature::GameMode, DetailFeature::SpaceAudio, DetailFeature::Led, DetailFeature::EarControl, DetailFeature::KeySetting, DetailFeature::ToneVolume, DetailFeature::AdaptiveVolume, DetailFeature::VoicePrompt, DetailFeature::ModifyName, DetailFeature::FindEar, DetailFeature::EqSwitch, DetailFeature::DefaultEqHavyBass, DetailFeature::ShowDiscoverUi, DetailFeature::LongEndurance, DetailFeature::SoundEffect3D, DetailFeature::HearingCare, DetailFeature::AreaTap, DetailFeature::ClearPairRecord, DetailFeature::BluetoothName, DetailFeature::InEarDetection, DetailFeature::AutoAnswer, DetailFeature::FindDevice];
    let p = DeviceProfile { product_id: 0, name: "Oraimo SpaceBuds", model: "generic", chip: ChipPlatform::Bluetrum, form: FormFactor::InEar, features };
    assert(p.features@ =~= generic_view().features);
    assert(p@ =~= generic_view());
    p
}

/// The fallback profile for unknown products.
pub fn generic_static() -> (p: DeviceProfile)
    ensures
        p@ == generic_view(),
{
    generic_profile()
}

/// The profile of a product ID: the first known profile with that ID.
pub open spec fn profile_of(pid: u16) -> ProfileView {
    if exists|i: int| 0 <= i < known_profiles().len() && known_profiles()[i].product_id == pid {
        let i = choose|i: int|
            0 <= i < known_profiles().len() && known_profiles()[i].product_id == pid && forall|j: int|
                0 <= j < i ==> known_profiles()[j].product_id != pid;
        known_profiles()[i]
    } else {
        generic_view()
    }
}

/// The profile for a product ID, or the generic fallback.
pub fn profile_for_product(product_id: u16) -> (p: DeviceProfile)
    ensures
        p@ == profile_of(product_id),
{
    let all = profiles();
    let mut i: usize = 0;
    while i < all.len()
        invariant
            i <= all@.len(),
            all@.len() == known_profiles().len(),
            forall|k: int| 0 <= k < all@.len() ==> (#[trigger] all@[k])@ == known_profiles()[k],
            forall|k: int| 0 <= k < i ==> known_profiles()[k].product_id != product_id,
        decreases all@.len() - i,
    {
        if all[i].product_id == product_id {
            let p = all[i].clone_profile();
            assert(all@[i as int]@ == known_profiles()[i as int]);
            return p;
        }
        i = i + 1;
    }
    generic_static()
}

/// Whether a profile matches a lower-cased device name: its lower-cased name
/// equals the name, or the name contains its lower-cased model.
pub open spec fn name_matches(lower_name: Seq<char>, p: ProfileView) -> bool {
    lowercase(p.name) == lower_name || has_substring(lower_name, lowercase(p.model))
}

impl DeviceProfile {
    /// A copy of this profile.
    pub fn clone_profile(&self) -> (p: Self)
        ensures
            p@ == self@,
    {
        Self {
            product_id: self.product_id,
            name: self.name,
            model: self.model,
            chip: self.chip,
            form: self.form,
            features: self.features.clone(),
        }
    }
}

/// Whether the connected product supports a feature: its profile (or the
/// generic one) lists it; with no product detected, nothing is supported.
pub fn product_has_feature(product_id: Option<u16>, feature: DetailFeature) -> (r: bool)
    ensures
        r == match product_id {
            Some(pid) => profile_of(pid).features.contains(feature),
            None => false,
        },
{
    match product_id {
        Some(pid) => profile_for_product(pid).has_feature(feature),
        None => false,
    }
}

/// The first known profile whose name or model matches a device name,
/// ignoring case.
pub fn profile_for_name(name: &str) -> (r: Option<DeviceProfile>)
    ensures
        r matches Some(p) ==> exists|i: int|
            0 <= i < known_profiles().len() && p@ == known_profiles()[i] && name_matches(
                lowercase(name@),
                known_profiles()[i],
            ) && forall|j: int|
                0 <= j < i ==> !name_matches(lowercase(name@), #[trigger] known_profiles()[j]),
        r is None ==> forall|i: int|
            0 <= i < known_profiles().len() ==> !name_matches(
                lowercase(name@),
                #[trigger] known_profiles()[i],
            ),
{
    let lower = to_lowercase(name);
    let all = profiles();
    let mut i: usize = 0;
    while i < all.len()
        invariant
            i <= all@.len(),
            lower@ == lowercase(name@),
            all@.len() == known_profiles().len(),
            forall|k: int| 0 <= k < all@.len() ==> (#[trigger] all@[k])@ == known_profiles()[k],
            forall|k: int| 0 <= k < i ==> !name_matches(lowercase(name@), #[trigger] known_profiles()[k]),
        decreases all@.len() - i,
    {
        let p_name = to_lowercase(all[i].name);
        let p_model = to_lowercase(all[i].model);
        assert(all@[i as int]@ == known_profiles()[i as int]);
        if p_name == lower || str_contains(lower.as_str(), p_model.as_str()) {
            return Some(all[i].clone_profile());
        }
        i = i + 1;
    }
    None
}

/// The product ID in manufacturer data (bytes 1-2, little-endian) when it
/// belongs to a known profile.
pub open spec fn detected_pid(d: Seq<u8>) -> Option<u16> {
    if d.len() < 3 {
        None
    } else {
        let pid = (d[1] as int + 256 * d[2] as int) as u16;
        if exists|i: int| 0 <= i < known_profiles().len() && known_profiles()[i].product_id == pid {
            Some(pid)
        } else {
            None
        }
    }
}

/// Detects a known product from the manufacturer-specific data of an
/// advertisement.
pub fn detect_product_id(manufacturer_data: &[u8]) -> (r: Option<u16>)
    ensures
        r == detected_pid(manufacturer_data@),
{
    if manufacturer_data.len() < 3 {
        return None;
    }
    let product_id: u16 = (manufacturer_data[1] as u16) + (manufacturer_data[2] as u16) * 256;
    let all = profiles();
    let mut i: usize = 0;
    while i < all.len()
        invariant
            i <= all@.len(),
            all@.len() == known_profiles().len(),
            forall|k: int| 0 <= k < all@.len() ==> (#[trigger] all@[k])@ == known_profiles()[k],
            forall|k: int| 0 <= k < i ==> known_profiles()[k].product_id != product_id,
            manufacturer_data@.len() >= 3,
            product_id == (manufacturer_data@[1] as int + 256 * manufacturer_data@[2] as int) as u16,
        decreases all@.len() - i,
    {
        if all[i].product_id == product_id {
            assert(all@[i as int]@ == known_profiles()[i as int]);
            assert(known_profiles()[i as int].product_id == product_id);
            assert(product_id == (manufacturer_data@[1] as int + 256 * manufacturer_data@[2] as int) as u16);
            return Some(product_id);
        }
        i = i + 1;
    }
    None
}

/// Every profile lists its features without repeats, in declaration order,
/// as a set would hold them.
pub proof fn lemma_profiles_well_formed()
    ensures
        forall|i: int| 0 <= i < known_profiles().len() ==> feature_list_ok(#[trigger] known_profiles()[i].features),
        feature_list_ok(generic_view().features),
{
}

} // verus!
