//! Closed enumerations: every declared integer decodes and round-trips;
//! anything outside the declared set fails.

use bungie_client::schema::{
    BungieMembershipType, DamageType, DestinyActivityModeType, DestinyComponentType,
    DestinyItemType, TierType,
};

#[test]
fn damage_type_declared_codes_round_trip() {
    for code in 0u8..=7 {
        let v = DamageType::from_code(code).expect("a declared code decodes");
        assert_eq!(v.code(), code);
    }
}

#[test]
fn damage_type_rejects_undeclared_codes() {
    assert!(DamageType::from_code(8).is_none());
    assert!(DamageType::from_code(255).is_none());
}

#[test]
fn item_type_has_gaps_in_its_declared_set() {
    assert_eq!(DestinyItemType::from_code(3), Some(DestinyItemType::Weapon));
    assert_eq!(DestinyItemType::from_code(30), Some(DestinyItemType::Pattern));
    // 4, 5 and 6 are not declared.
    assert!(DestinyItemType::from_code(4).is_none());
    assert!(DestinyItemType::from_code(5).is_none());
    assert!(DestinyItemType::from_code(6).is_none());
    assert!(DestinyItemType::from_code(31).is_none());
}

#[test]
fn component_type_spans_the_full_range() {
    assert_eq!(DestinyComponentType::from_code(0), Some(DestinyComponentType::NoneValue));
    assert_eq!(DestinyComponentType::from_code(100), Some(DestinyComponentType::Profiles));
    assert_eq!(
        DestinyComponentType::from_code(1400),
        Some(DestinyComponentType::SocialCommendations)
    );
    assert!(DestinyComponentType::from_code(1401).is_none());
    assert!(DestinyComponentType::from_code(99).is_none());
    assert_eq!(DestinyComponentType::Craftables.code(), 1300);
}

#[test]
fn membership_type_accepts_negative_codes() {
    assert_eq!(BungieMembershipType::from_code(-1), Some(BungieMembershipType::All));
    assert_eq!(BungieMembershipType::from_code(0), Some(BungieMembershipType::NoneValue));
    assert_eq!(BungieMembershipType::from_code(3), Some(BungieMembershipType::TigerSteam));
    assert_eq!(BungieMembershipType::from_code(254), Some(BungieMembershipType::BungieNext));
    assert!(BungieMembershipType::from_code(7).is_none());
    assert!(BungieMembershipType::from_code(-2).is_none());
    assert_eq!(BungieMembershipType::All.code(), -1);
}

#[test]
fn tier_type_round_trips() {
    for code in 0u8..=6 {
        let v = TierType::from_code(code).expect("a declared tier decodes");
        assert_eq!(v.code(), code);
    }
    assert!(TierType::from_code(7).is_none());
}

#[test]
fn activity_mode_round_trips() {
    assert_eq!(DestinyActivityModeType::from_code(4), Some(DestinyActivityModeType::Raid));
    assert_eq!(DestinyActivityModeType::Raid.code(), 4);
    assert!(DestinyActivityModeType::from_code(1).is_none());
}
