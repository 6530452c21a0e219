//! Decode failures carry their diagnostics: the offending value and the
//! target enumeration by name, and the path of the failing field.

use bungie_client::client::get_bungie_response;
use bungie_client::codecs as c;
use bungie_client::schema::{
    BungieMembershipType, DamageType, DestinyComponentType, DestinyItemSubType, DestinyItemType,
    DestinyTalentNodeState,
};
use bungie_client::transport::RawResponse;
use bungie_client::wire::parse_json;
use bungie_client::Error;

#[test]
fn damage_type_failure_names_the_value_and_the_enumeration() {
    let e = DamageType::decode_code(8).unwrap_err();
    assert_eq!(e.message, "Unknown DamageType variant: 8");
    assert_eq!(e.path, "");
    assert!(DamageType::decode_code(7).is_ok());
}

#[test]
fn item_sub_type_failure_uses_its_own_wording() {
    let e = DestinyItemSubType::decode_code(3).unwrap_err();
    assert_eq!(e.message, "Could not deserialize u8 '3' to DestinyItemSubType");
    assert_eq!(
        DestinyItemSubType::decode_code(33),
        Ok(DestinyItemSubType::Glaive)
    );
}

#[test]
fn component_type_failure_names_the_code() {
    let e = DestinyComponentType::decode_code(99).unwrap_err();
    assert_eq!(e.message, "Unknown DestinyComponentType: 99");
    assert!(DestinyComponentType::decode_code(1400).is_ok());
}

#[test]
fn membership_type_failure_carries_negative_codes_too() {
    assert_eq!(
        BungieMembershipType::decode_code(7).unwrap_err().message,
        "unknown BungieMembershipType: 7"
    );
    assert_eq!(
        BungieMembershipType::decode_code(-2).unwrap_err().message,
        "unknown BungieMembershipType: -2"
    );
}

#[test]
fn item_type_gap_values_are_named() {
    for code in [4u8, 5, 6, 31] {
        let e = DestinyItemType::decode_code(code).unwrap_err();
        assert_eq!(e.message, format!("Unknown DestinyItemType: {code}"));
    }
}

#[test]
fn talent_node_state_failure_is_named() {
    let e = DestinyTalentNodeState::decode_code(14).unwrap_err();
    assert_eq!(e.message, "Unknown DestinyTalentNodeState: 14");
}

#[test]
fn record_failure_names_the_enum_field_and_its_message() {
    let doc = parse_json(
        r#"{"energyTypeHash": 1, "energyType": 7, "energyCapacity": 1,
            "energyUsed": 0, "energyUnused": 1}"#,
    )
    .unwrap();
    let e = c::decode_destiny_item_instance_energy(&doc).unwrap_err();
    assert_eq!(e.path, "energyType");
    assert_eq!(e.message, "Unknown DestinyEnergyType: 7");
}

#[test]
fn nested_failure_paths_carry_the_position() {
    let doc = parse_json(
        r#"{"currentStepStats": [{"statHash": 1, "value": 2},
            {"statHash": 1, "value": "ten"}], "nextStepStats": []}"#,
    )
    .unwrap();
    let e = c::decode_destiny_talent_node_stat_block(&doc).unwrap_err();
    assert_eq!(e.path, "currentStepStats[1].value");
}

#[test]
fn unknown_field_failures_name_the_field() {
    let doc = parse_json(r#"{"channelHash": 1, "dyeHash": 2, "other": 3}"#).unwrap();
    let e = c::decode_dye_reference(&doc).unwrap_err();
    assert_eq!(e.path, "other");
}

#[test]
fn envelope_failure_names_the_envelope_field() {
    let res = RawResponse {
        status: 200,
        content_type: Some("application/json".to_string()),
        body: r#"{"Response": 1, "ErrorCode": "one", "ThrottleSeconds": 0,
            "ErrorStatus": "x", "Message": "y", "MessageData": {}}"#
            .to_string(),
    };
    match get_bungie_response(res) {
        Err(Error::SerdeJson(e)) => assert_eq!(e.path, "ErrorCode"),
        _ => panic!("a non-numeric error code must fail with its field named"),
    }
}

#[test]
fn manifest_entry_failures_name_the_entry() {
    let doc = parse_json(
        r#"{"209": {"displayProperties": {"iconHash": 0, "description": "", "name": "n",
            "icon": null, "highResIcon": null, "hasIcon": false},
            "uiCategoryStyle": 1, "categoryStyle": 99, "hash": 209, "index": 0,
            "redacted": false}}"#,
    )
    .unwrap();
    let e = c::decode_destiny_socket_category_definition_manifest(&doc).unwrap_err();
    assert_eq!(e.path, "209.categoryStyle");
    assert_eq!(e.message, "Unknown DestinySocketCategoryStyle variant: 99");
}
