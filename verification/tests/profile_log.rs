use spacepods::device_profile::product_has_feature;
use spacepods::device_profile::{build_profiles, detect_product_id, generic_profile, profile_for_name, profile_for_product, profiles, DetailFeature};
use spacepods::log::{LogLevel, LogState};

#[test]
fn known_products() {
    assert_eq!(profiles().len(), 5);
    assert_eq!(build_profiles().len(), 5);
    let p = profile_for_product(65);
    assert_eq!(p.name, "oraimo SpaceBuds 2");
    assert!(p.has_feature(DetailFeature::Noise));
    assert!(!p.has_feature(DetailFeature::KeySetting));
    let g = profile_for_product(999);
    assert_eq!(g.product_id, generic_profile().product_id);
    assert_eq!(g.name, "Oraimo SpaceBuds");
}

#[test]
fn profiles_by_name() {
    assert_eq!(profile_for_name("ORAIMO SpaceBuds 2").unwrap().product_id, 65);
    assert_eq!(profile_for_name("buds opn671 x").unwrap().product_id, 4101);
    assert!(profile_for_name("nothing here").is_none());
}

#[test]
fn product_from_advert() {
    assert_eq!(detect_product_id(&[0, 64, 0]), Some(64));
    assert_eq!(detect_product_id(&[0, 0x04, 0x10]), Some(4100));
    assert_eq!(detect_product_id(&[0, 1, 0]), None);
    assert_eq!(detect_product_id(&[0, 64]), None);
}

#[test]
fn log_levels() {
    assert_eq!(LogLevel::from_str("FULL"), LogLevel::Full);
    assert_eq!(LogLevel::from_str("warn"), LogLevel::Warn);
    assert_eq!(LogLevel::from_str("verbose"), LogLevel::Info);
    assert_eq!(LogLevel::from_rank(7), LogLevel::Full);
    assert_eq!(LogLevel::Warn.as_u8(), 1);
    assert!(LogLevel::Full.shows(LogLevel::Warn));
    assert!(!LogLevel::Info.shows(LogLevel::Warn));
    let mut s = LogState::new();
    assert_eq!(s.level(), LogLevel::Info);
    s.set_log_level(LogLevel::Warn);
    assert_eq!(s.level(), LogLevel::Warn);
    assert!(s.shows(LogLevel::Warn));
    assert!(!s.shows(LogLevel::Full));
}

#[test]
fn feature_gating_by_product() {
    assert!(product_has_feature(Some(64), DetailFeature::KeySetting));
    assert!(!product_has_feature(Some(64), DetailFeature::Noise));
    assert!(product_has_feature(Some(1234), DetailFeature::FindDevice));
    assert!(!product_has_feature(None, DetailFeature::Noise));
}
