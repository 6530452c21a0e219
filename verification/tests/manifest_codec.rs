//! The manifest record: nested maps of content paths.

use bungie_client::codecs::{decode_destiny_manifest, decode_destiny_plug_set_definition,
    decode_destiny_socket_category_definition, encode_destiny_manifest,
    encode_destiny_plug_set_definition, encode_destiny_socket_category_definition};
use bungie_client::schema::{assoc_index, DestinyManifest, GearAssetDataBaseDefinition};
use bungie_client::wire::parse_json;

fn sample_manifest() -> DestinyManifest {
    DestinyManifest {
        version: "95154.25.07.1".to_string(),
        mobile_asset_content_path: "/common/destiny2_content/sqlite/asset.content".to_string(),
        mobile_gear_asset_data_bases: vec![GearAssetDataBaseDefinition {
            version: 2,
            path: "/common/destiny2_content/sqlite/asset_sql.content".to_string(),
        }],
        mobile_world_content_paths: vec![(
            "en".to_string(),
            "/common/destiny2_content/sqlite/en/world.content".to_string(),
        )],
        json_world_content_paths: vec![(
            "en".to_string(),
            "/common/destiny2_content/json/en/aggregate.json".to_string(),
        )],
        json_world_component_content_paths: vec![(
            "en".to_string(),
            vec![(
                "DestinyInventoryItemDefinition".to_string(),
                "/common/destiny2_content/json/en/items.json".to_string(),
            )],
        )],
        mobile_clan_banner_database_path: "/common/destiny2_content/clan/banner.content"
            .to_string(),
        mobile_gear_c_d_n: vec![("Geometry".to_string(), "/common/geometry".to_string())],
        icon_image_pyramid_info: vec![],
    }
}

#[test]
fn manifest_round_trips_its_nested_maps() {
    let v = sample_manifest();
    let decoded = decode_destiny_manifest(&encode_destiny_manifest(&v)).expect("its image decodes");
    assert_eq!(decoded, v);
}

#[test]
fn manifest_component_paths_can_be_looked_up() {
    let v = sample_manifest();
    let by_locale = &v.json_world_component_content_paths;
    let i = assoc_index(by_locale, "en").expect("the locale is present");
    let j = assoc_index(&by_locale[i].1, "DestinyInventoryItemDefinition")
        .expect("the component is present");
    assert_eq!(by_locale[i].1[j].1, "/common/destiny2_content/json/en/items.json");
}

#[test]
fn manifest_decodes_from_wire_text() {
    let body = r#"{
        "version": "1.0",
        "mobileAssetContentPath": "/a",
        "mobileGearAssetDataBases": [{"version": 0, "path": "/b"}],
        "mobileWorldContentPaths": {"en": "/c", "fr": "/d"},
        "jsonWorldContentPaths": {"en": "/e"},
        "jsonWorldComponentContentPaths": {"en": {"DestinyPlugSetDefinition": "/f"}},
        "mobileClanBannerDatabasePath": "/g",
        "mobileGearCDN": {"Gear": "/h"},
        "iconImagePyramidInfo": [{"name": "half", "factor": 0.5}]
    }"#;
    let doc = parse_json(body).unwrap();
    let v = decode_destiny_manifest(&doc).expect("the manifest decodes");
    assert_eq!(v.version, "1.0");
    assert_eq!(v.mobile_world_content_paths.len(), 2);
    assert_eq!(v.json_world_component_content_paths[0].1[0].1, "/f");
    assert_eq!(v.icon_image_pyramid_info[0].factor.text, "0.5");
}

#[test]
fn manifest_rejects_a_non_string_path() {
    let body = r#"{
        "version": "1.0",
        "mobileAssetContentPath": "/a",
        "mobileGearAssetDataBases": [],
        "mobileWorldContentPaths": {"en": 5},
        "jsonWorldContentPaths": {},
        "jsonWorldComponentContentPaths": {},
        "mobileClanBannerDatabasePath": "/g",
        "mobileGearCDN": {},
        "iconImagePyramidInfo": []
    }"#;
    let doc = parse_json(body).unwrap();
    assert!(decode_destiny_manifest(&doc).is_err());
}

#[test]
fn socket_category_definition_decodes_from_wire_text() {
    let body = r#"{
        "displayProperties": {"iconHash": 0, "description": "", "name": "WEAPON PERKS",
            "icon": null, "highResIcon": null, "hasIcon": false},
        "uiCategoryStyle": 2656457638,
        "categoryStyle": 1,
        "hash": 4241085061,
        "index": 4,
        "redacted": false
    }"#;
    let doc = bungie_client::wire::parse_json(body).unwrap();
    let v = decode_destiny_socket_category_definition(&doc).expect("the definition decodes");
    assert_eq!(v.display_properties.name, "WEAPON PERKS");
    assert_eq!(v.hash, 4241085061);
    let again = decode_destiny_socket_category_definition(
        &encode_destiny_socket_category_definition(&v),
    )
    .expect("its image decodes");
    assert_eq!(again, v);
}

#[test]
fn plug_set_definition_defaults_and_round_trips() {
    let body = r#"{
        "displayProperties": null,
        "reusablePlugItems": [
            {"craftingRequirements": null, "weight": 1.5, "alternateWeight": 0,
             "currentlyCanRoll": true, "plugItemHash": 3}
        ],
        "isFakePlugSet": false,
        "hash": 1,
        "index": 0,
        "redacted": false
    }"#;
    let doc = bungie_client::wire::parse_json(body).unwrap();
    let v = decode_destiny_plug_set_definition(&doc).expect("the plug set decodes");
    assert_eq!(v.display_properties, None);
    assert_eq!(v.reusable_plug_items[0].weight.text, "1.5");
    assert_eq!(v.reusable_plug_items[0].crafting_requirements, None);
    let again = decode_destiny_plug_set_definition(&encode_destiny_plug_set_definition(&v))
        .expect("its image decodes");
    assert_eq!(again, v);
}
