//! Record codecs: decoding the encoded image gives the value back, and
//! the field policies hold on the wire.

use bungie_client::codecs::{
    decode_destiny_item_quantity, decode_destiny_objective_progress,
    decode_destiny_profile_transitory_tracking_entry, decode_dye_reference,
    decode_image_pyramid_entry, decode_user_info_card, encode_destiny_item_quantity,
    encode_destiny_objective_progress, encode_destiny_profile_transitory_tracking_entry,
    encode_dye_reference, encode_image_pyramid_entry, encode_user_info_card,
};
use bungie_client::schema::{
    BungieMembershipType, DestinyItemQuantity, DestinyObjectiveProgress,
    DestinyProfileTransitoryTrackingEntry, DyeReference, FloatText, ImagePyramidEntry, Timestamp,
    UserInfoCard,
};
use bungie_client::wire::parse_json;
use bungie_client::JsonValue;

#[test]
fn dye_reference_round_trips() {
    let v = DyeReference { channel_hash: 7, dye_hash: 4294967295 };
    let decoded = decode_dye_reference(&encode_dye_reference(&v)).expect("its image decodes");
    assert_eq!(decoded, v);
}

#[test]
fn dye_reference_rejects_an_unknown_field() {
    let doc = parse_json(r#"{"channelHash": 1, "dyeHash": 2, "other": 3}"#).unwrap();
    assert!(decode_dye_reference(&doc).is_err());
}

#[test]
fn dye_reference_rejects_a_missing_field() {
    let doc = parse_json(r#"{"channelHash": 1}"#).unwrap();
    assert!(decode_dye_reference(&doc).is_err());
}

#[test]
fn dye_reference_rejects_a_wrong_type() {
    let doc = parse_json(r#"{"channelHash": "1", "dyeHash": 2}"#).unwrap();
    assert!(decode_dye_reference(&doc).is_err());
}

#[test]
fn objective_progress_tolerates_unknown_fields() {
    let doc = parse_json(
        r#"{"objectiveHash": 1, "destinationHash": 2, "activityHash": 3,
            "progress": -4, "completionValue": 5, "complete": false, "visible": true,
            "somethingNew": {"deep": []}}"#,
    )
    .unwrap();
    let v = decode_destiny_objective_progress(&doc).expect("unknown fields are tolerated here");
    assert_eq!(v.progress, -4);
    assert!(v.visible);
}

#[test]
fn objective_progress_round_trips() {
    let v = DestinyObjectiveProgress {
        objective_hash: 10,
        destination_hash: 20,
        activity_hash: 30,
        progress: -7,
        completion_value: 100,
        complete: false,
        visible: true,
    };
    let decoded = decode_destiny_objective_progress(&encode_destiny_objective_progress(&v))
        .expect("its image decodes");
    assert_eq!(decoded, v);
}

#[test]
fn item_quantity_round_trips_with_and_without_instance() {
    let with = DestinyItemQuantity {
        item_hash: 999,
        item_instance_id: Some(-3),
        quantity: 2,
        has_conditional_visibility: true,
    };
    let without = DestinyItemQuantity {
        item_hash: 999,
        item_instance_id: None,
        quantity: 2,
        has_conditional_visibility: false,
    };
    assert_eq!(decode_destiny_item_quantity(&encode_destiny_item_quantity(&with)), Ok(with));
    assert_eq!(decode_destiny_item_quantity(&encode_destiny_item_quantity(&without)), Ok(without));
}

#[test]
fn item_quantity_accepts_a_null_instance() {
    let doc = parse_json(
        r#"{"itemHash": 1, "itemInstanceId": null, "quantity": 1,
            "hasConditionalVisibility": false}"#,
    )
    .unwrap();
    let v = decode_destiny_item_quantity(&doc).expect("null maps to no value");
    assert_eq!(v.item_instance_id, None);
}

#[test]
fn tracking_entry_round_trips_with_its_timestamp() {
    let v = DestinyProfileTransitoryTrackingEntry {
        location_hash: 1,
        item_hash: 2,
        objective_hash: 3,
        activity_hash: 4,
        questline_item_hash: 5,
        tracked_date: Timestamp::parse("2023-03-01T12:30:00Z".to_string())
            .expect("valid timestamp text"),
    };
    let decoded = decode_destiny_profile_transitory_tracking_entry(
        &encode_destiny_profile_transitory_tracking_entry(&v),
    )
    .expect("its image decodes");
    assert_eq!(decoded, v);
}

#[test]
fn tracking_entry_rejects_invalid_timestamp_text() {
    let doc = parse_json(
        r#"{"locationHash": 1, "itemHash": 2, "objectiveHash": 3,
            "activityHash": 4, "questlineItemHash": 5, "trackedDate": "not a date"}"#,
    )
    .unwrap();
    assert!(decode_destiny_profile_transitory_tracking_entry(&doc).is_err());
    assert!(Timestamp::parse("not a date".to_string()).is_none());
}

#[test]
fn image_pyramid_entry_keeps_float_text() {
    let v = ImagePyramidEntry {
        name: "small".to_string(),
        factor: FloatText { text: "0.5".to_string() },
    };
    let decoded =
        decode_image_pyramid_entry(&encode_image_pyramid_entry(&v)).expect("its image decodes");
    assert_eq!(decoded, v);

    let doc = parse_json(r#"{"name": "big", "factor": 1.25}"#).unwrap();
    let from_wire = decode_image_pyramid_entry(&doc).expect("a float factor decodes");
    assert_eq!(from_wire.factor.text, "1.25");

    let doc = parse_json(r#"{"name": "whole", "factor": 2}"#).unwrap();
    let from_int = decode_image_pyramid_entry(&doc).expect("an integer factor decodes");
    assert_eq!(from_int.factor.text, "2");
}

fn sample_card() -> UserInfoCard {
    UserInfoCard {
        supplemental_display_name: None,
        icon_path: Some("/img/icon.png".to_string()),
        cross_save_override: BungieMembershipType::NoneValue,
        applicable_membership_types: vec![
            BungieMembershipType::TigerSteam,
            BungieMembershipType::TigerPsn,
        ],
        is_public: true,
        membership_type: BungieMembershipType::TigerSteam,
        membership_id: u64::MAX,
        display_name: Some("guardian".to_string()),
        bungie_global_display_name: Some("guardian".to_string()),
        bungie_global_display_name_code: Some(1234),
    }
}

#[test]
fn user_info_card_round_trips() {
    let v = sample_card();
    let decoded = decode_user_info_card(&encode_user_info_card(&v)).expect("its image decodes");
    assert_eq!(decoded, v);
}

#[test]
fn membership_id_crosses_the_wire_as_decimal_text() {
    let v = sample_card();
    let image = encode_user_info_card(&v);
    match image.get("membershipId") {
        Some(JsonValue::Str(s)) => assert_eq!(s, "18446744073709551615"),
        _ => panic!("the membership id must be encoded as a string"),
    }
    let decoded = decode_user_info_card(&image).expect("its image decodes");
    assert_eq!(decoded.membership_id, u64::MAX);
}

#[test]
fn user_info_card_rejects_a_numeric_membership_id() {
    let doc = parse_json(
        r#"{"crossSaveOverride": 0, "isPublic": true, "membershipType": 3,
            "membershipId": 42}"#,
    )
    .unwrap();
    assert!(decode_user_info_card(&doc).is_err());
}

#[test]
fn user_info_card_defaults_the_membership_type_list() {
    // The list is absent on the wire: it becomes empty, not an error.
    let doc = parse_json(
        r#"{"crossSaveOverride": 0, "isPublic": false, "membershipType": 2,
            "membershipId": "4611686018467284839"}"#,
    )
    .unwrap();
    let v = decode_user_info_card(&doc).expect("absent collections default to empty");
    assert_eq!(v.applicable_membership_types, vec![]);
    assert_eq!(v.membership_id, 4611686018467284839);
    assert_eq!(v.supplemental_display_name, None);
}

#[test]
fn user_info_card_rejects_an_undeclared_membership_type() {
    let doc = parse_json(
        r#"{"crossSaveOverride": 0, "isPublic": false, "membershipType": 7,
            "membershipId": "1"}"#,
    )
    .unwrap();
    assert!(decode_user_info_card(&doc).is_err());
}
