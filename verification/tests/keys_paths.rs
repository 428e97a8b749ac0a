//! Key path rendering: role names, denotators, prefixes, full paths, and
//! glob patterns, each with its exact expected text.

use statedir::keys::{
    HsNickname, HsSvcHsIdKeyRole, HsSvcKeyRoleWithTimePeriod, HsSvcKeySpecifier, KeyDenotator,
    TimePeriod,
};
use statedir::numfmt::u64_to_decimal;

#[test]
fn decimal_rendering() {
    assert_eq!(u64_to_decimal(0), "0");
    assert_eq!(u64_to_decimal(7), "7");
    assert_eq!(u64_to_decimal(10), "10");
    assert_eq!(u64_to_decimal(1440), "1440");
    assert_eq!(u64_to_decimal(1234567890), "1234567890");
    assert_eq!(u64_to_decimal(u64::MAX), "18446744073709551615");
}

#[test]
fn time_period_accessors_and_display() {
    let tp = TimePeriod::new(2, 1440, 0);
    assert_eq!(tp.interval_num(), 2);
    assert_eq!(tp.length(), 1440);
    assert_eq!(tp.epoch_offset_in_sec(), 0);
    assert_eq!(tp.display(), "2_1440_0");
    assert_eq!(TimePeriod::new(365, 60, 86340).display(), "365_60_86340");
    assert_eq!(TimePeriod::glob(), "*_*_*");
}

#[test]
fn unit_denotator_is_empty() {
    assert_eq!(().display(), "");
    assert_eq!(<()>::glob(), "");
}

#[test]
fn arti_path_prefix_renders_nickname_and_role() {
    let nick = HsNickname::new("shadow".to_string());
    assert_eq!(
        HsSvcKeySpecifier::arti_path_prefix(&nick, HsSvcHsIdKeyRole::HsIdPublicKey),
        "hs/shadow/KP_hs_id",
    );
    assert_eq!(
        HsSvcKeySpecifier::arti_path_prefix(&nick, HsSvcHsIdKeyRole::HsIdKeypair),
        "hs/shadow/KS_hs_id",
    );
    assert_eq!(
        HsSvcKeySpecifier::arti_path_prefix(&nick, HsSvcKeyRoleWithTimePeriod::BlindIdKeypair),
        "hs/shadow/KS_hs_blind_id",
    );
    assert_eq!(
        HsSvcKeySpecifier::arti_path_prefix(&nick, HsSvcKeyRoleWithTimePeriod::BlindIdPublicKey),
        "hs/shadow/KP_hs_blind_id",
    );
    assert_eq!(
        HsSvcKeySpecifier::arti_path_prefix(&nick, HsSvcKeyRoleWithTimePeriod::DescSigningKeypair),
        "hs/shadow/KS_hs_desc_sign",
    );
}

#[test]
fn arti_path_without_denotator_is_the_prefix() {
    let nick = HsNickname::new("shadow".to_string());
    let spec = HsSvcKeySpecifier::new(&nick, HsSvcHsIdKeyRole::HsIdKeypair);
    assert_eq!(spec.arti_path().as_str(), "hs/shadow/KS_hs_id");
}

#[test]
fn arti_path_with_denotator_appends_it() {
    let nick = HsNickname::new("shadow".to_string());
    let spec = HsSvcKeySpecifier::with_denotators(
        &nick,
        HsSvcKeyRoleWithTimePeriod::BlindIdKeypair,
        TimePeriod::new(2, 1440, 0),
    );
    assert_eq!(spec.arti_path().as_str(), "hs/shadow/KS_hs_blind_id_2_1440_0");
}

#[test]
fn arti_pattern_uses_the_denotator_glob() {
    let nick = HsNickname::new("shadow".to_string());
    assert_eq!(
        HsSvcKeySpecifier::arti_pattern(&nick, HsSvcKeyRoleWithTimePeriod::DescSigningKeypair)
            .as_str(),
        "hs/shadow/KS_hs_desc_sign_*_*_*",
    );
    assert_eq!(
        HsSvcKeySpecifier::arti_pattern(&nick, HsSvcHsIdKeyRole::HsIdPublicKey).as_str(),
        "hs/shadow/KP_hs_id_",
    );
}
