//! Codecs over collections: arrays of hashes, integer-keyed mappings,
//! nested records, and the envelope itself.

use bungie_client::codecs::{
    decode_destiny_currencies_component, decode_destiny_item_gearset_block_definition,
    decode_destiny_talent_node_stat_block, encode_destiny_currencies_component,
    encode_destiny_item_gearset_block_definition, encode_destiny_talent_node_stat_block,
};
use bungie_client::envelope::{decode_envelope, encode_envelope};
use bungie_client::schema::{
    DestinyCurrenciesComponent, DestinyItemGearsetBlockDefinition, DestinyStat,
    DestinyTalentNodeStatBlock,
};
use bungie_client::wire::parse_json;
use bungie_client::{BungieResponse, JsonValue, PlatformErrorCodes};

#[test]
fn gearset_block_round_trips_its_item_list() {
    let v = DestinyItemGearsetBlockDefinition {
        tracking_value_max: -1,
        item_list: vec![1, 2, 4294967295],
    };
    let decoded =
        decode_destiny_item_gearset_block_definition(&encode_destiny_item_gearset_block_definition(
            &v,
        ))
        .expect("its image decodes");
    assert_eq!(decoded, v);
}

#[test]
fn gearset_block_rejects_a_non_integer_element() {
    let doc = parse_json(r#"{"trackingValueMax": 0, "itemList": [1, "2"]}"#).unwrap();
    assert!(decode_destiny_item_gearset_block_definition(&doc).is_err());
}

#[test]
fn currencies_component_keys_its_map_by_decimal_text() {
    let v = DestinyCurrenciesComponent {
        item_quantities: vec![(1022552290, 7), (3159615086, 25000)],
    };
    let image = encode_destiny_currencies_component(&v);
    let decoded = decode_destiny_currencies_component(&image).expect("its image decodes");
    assert_eq!(decoded, v);

    // The parser hands object fields back sorted by key, so a body with
    // the same entries yields the same image.
    let doc = parse_json(r#"{"itemQuantities": {"3159615086": 25000, "1022552290": 7}}"#).unwrap();
    assert_eq!(image, doc);
}

#[test]
fn currencies_component_rejects_a_non_numeric_key() {
    let doc = parse_json(r#"{"itemQuantities": {"gold": 5}}"#).unwrap();
    assert!(decode_destiny_currencies_component(&doc).is_err());
}

#[test]
fn currencies_component_rejects_a_key_beyond_the_hash_range() {
    let doc = parse_json(r#"{"itemQuantities": {"4294967296": 5}}"#).unwrap();
    assert!(decode_destiny_currencies_component(&doc).is_err());
}

#[test]
fn stat_block_round_trips_its_nested_records() {
    let v = DestinyTalentNodeStatBlock {
        current_step_stats: vec![
            DestinyStat { stat_hash: 1, value: 10 },
            DestinyStat { stat_hash: 2, value: -3 },
        ],
        next_step_stats: vec![DestinyStat { stat_hash: 1, value: 12 }],
    };
    let decoded = decode_destiny_talent_node_stat_block(&encode_destiny_talent_node_stat_block(&v))
        .expect("its image decodes");
    assert_eq!(decoded, v);
}

#[test]
fn stat_block_fails_when_a_nested_record_fails() {
    let doc = parse_json(
        r#"{"currentStepStats": [{"statHash": 1, "value": "ten"}], "nextStepStats": []}"#,
    )
    .unwrap();
    assert!(decode_destiny_talent_node_stat_block(&doc).is_err());
}

#[test]
fn envelope_round_trips_through_its_image() {
    let env = BungieResponse {
        response: JsonValue::Int(42),
        error_code: PlatformErrorCodes::Unknown(99),
        throttle_seconds: 3,
        error_status: "SystemDisabled".to_string(),
        message: "down".to_string(),
        message_data: vec![("k".to_string(), "v".to_string())],
        detailed_error_trace: None,
    };
    let image = encode_envelope(&env);
    let decoded = decode_envelope(&image).expect("its image decodes");
    assert_eq!(decoded.response, env.response);
    assert_eq!(decoded.error_code, env.error_code);
    assert_eq!(decoded.throttle_seconds, env.throttle_seconds);
    assert_eq!(decoded.error_status, env.error_status);
    assert_eq!(decoded.message, env.message);
    assert_eq!(decoded.message_data, env.message_data);
    assert_eq!(decoded.detailed_error_trace, env.detailed_error_trace);
}

#[test]
fn assoc_index_finds_the_first_matching_key() {
    let map: Vec<(String, i32)> =
        vec![("en".to_string(), 1), ("fr".to_string(), 2), ("en".to_string(), 3)];
    assert_eq!(bungie_client::schema::assoc_index(&map, "fr"), Some(1));
    assert_eq!(bungie_client::schema::assoc_index(&map, "en"), Some(0));
    assert_eq!(bungie_client::schema::assoc_index(&map, "de"), None);
}
