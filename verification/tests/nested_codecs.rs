//! Codecs whose records carry enumeration fields, bit-flag fields, or
//! other records.

use bungie_client::codecs::{
    decode_destiny_artifact_character_scoped, decode_destiny_collectible_component,
    decode_destiny_display_properties_definition, decode_destiny_item_instance_energy,
    decode_destiny_presentation_node_component, encode_destiny_artifact_character_scoped,
    encode_destiny_item_instance_energy, encode_destiny_presentation_node_component,
};
use bungie_client::schema::{
    DestinyArtifactCharacterScoped, DestinyArtifactTier, DestinyArtifactTierItem,
    DestinyCollectibleState, DestinyEnergyType, DestinyItemInstanceEnergy, DestinyObjectiveProgress,
    DestinyPresentationNodeComponent, DestinyPresentationNodeState,
};
use bungie_client::codecs as c;
use bungie_client::schema as t;
use bungie_client::wire::parse_json;

#[test]
fn instance_energy_round_trips_its_enum_field() {
    let v = DestinyItemInstanceEnergy {
        energy_type_hash: 728825102,
        energy_type: DestinyEnergyType::Stasis,
        energy_capacity: 10,
        energy_used: 7,
        energy_unused: 3,
    };
    let decoded = decode_destiny_item_instance_energy(&encode_destiny_item_instance_energy(&v))
        .expect("its image decodes");
    assert_eq!(decoded, v);
}

#[test]
fn instance_energy_rejects_an_undeclared_enum_code() {
    let doc = parse_json(
        r#"{"energyTypeHash": 1, "energyType": 7, "energyCapacity": 1,
            "energyUsed": 0, "energyUnused": 1}"#,
    )
    .unwrap();
    assert!(decode_destiny_item_instance_energy(&doc).is_err());
}

#[test]
fn collectible_component_truncates_unknown_state_bits() {
    let doc = parse_json(r#"{"state": 255}"#).unwrap();
    let v = decode_destiny_collectible_component(&doc).expect("unknown bits are no error");
    assert_eq!(v.state.bits, 127);
    assert_eq!(v.state, DestinyCollectibleState::from_bits_truncate(255));
}

#[test]
fn presentation_node_component_round_trips_its_nested_record() {
    let v = DestinyPresentationNodeComponent {
        state: DestinyPresentationNodeState { bits: 2 },
        objective: DestinyObjectiveProgress {
            objective_hash: 1,
            destination_hash: 2,
            activity_hash: 3,
            progress: 4,
            completion_value: 5,
            complete: false,
            visible: true,
        },
        progress_value: 4,
        completion_value: 5,
        record_category_score: 0,
    };
    let decoded = decode_destiny_presentation_node_component(
        &encode_destiny_presentation_node_component(&v),
    )
    .expect("its image decodes");
    assert_eq!(decoded, v);
}

#[test]
fn artifact_round_trips_two_levels_of_nesting() {
    let v = DestinyArtifactCharacterScoped {
        artifact_hash: 1387688628,
        points_used: 12,
        reset_count: 1,
        tiers: vec![DestinyArtifactTier {
            tier_hash: 1,
            is_unlocked: true,
            points_to_unlock: 0,
            items: vec![
                DestinyArtifactTierItem { item_hash: 10, is_active: true },
                DestinyArtifactTierItem { item_hash: 11, is_active: false },
            ],
        }],
    };
    let decoded = decode_destiny_artifact_character_scoped(
        &encode_destiny_artifact_character_scoped(&v),
    )
    .expect("its image decodes");
    assert_eq!(decoded, v);
}

#[test]
fn display_properties_default_their_icon_sequences() {
    let doc = parse_json(
        r#"{"iconHash": 0, "description": "d", "name": "n", "icon": null,
            "highResIcon": null, "hasIcon": false}"#,
    )
    .unwrap();
    let v = decode_destiny_display_properties_definition(&doc)
        .expect("an absent collection defaults to empty");
    assert_eq!(v.icon_sequences, vec![]);
    assert_eq!(v.name, "n");
    assert_eq!(v.icon, None);
}

#[test]
fn socket_entry_definition_round_trips_with_plug_sources() {
    let v = t::DestinyItemSocketEntryDefinition {
        socket_type_hash: 1282012138,
        single_initial_item_hash: 0,
        reusable_plug_items: vec![t::DestinyItemSocketEntryPlugItemDefinition {
            plug_item_hash: 1498917124,
        }],
        prevent_initialization_on_vendor_purchase: false,
        prevent_initialization_when_versioning: false,
        hide_perks_in_item_tooltip: false,
        plug_sources: t::SocketPlugSources::from_bits_truncate(
            t::SocketPlugSources::REUSABLE_PLUG_ITEMS,
        ),
        reusable_plug_set_hash: None,
        randomized_plug_set_hash: Some(2),
        overrides_ui_appearance: false,
        default_visible: true,
    };
    let decoded = c::decode_destiny_item_socket_entry_definition(
        &c::encode_destiny_item_socket_entry_definition(&v),
    )
    .expect("its image decodes");
    assert_eq!(decoded, v);
}

#[test]
fn action_block_round_trips_its_reward_lists() {
    let v = t::DestinyItemActionBlockDefinition {
        verb_name: "Dismantle".to_string(),
        verb_description: String::new(),
        is_positive: false,
        overlay_screen_name: None,
        overlay_icon: None,
        required_cooldown_seconds: 0,
        required_items: vec![t::DestinyItemActionRequiredItemDefinition {
            count: 1,
            item_hash: 2,
            delete_on_action: true,
        }],
        progression_rewards: vec![],
        reward_sheet_hash: 0,
        reward_item_hash: 0,
        reward_site_hash: 0,
        action_type_label: Some("dismantle".to_string()),
        required_location: None,
        required_cooldown_hash: 0,
        delete_on_action: true,
        consume_entire_stack: false,
        use_on_acquire: false,
    };
    let decoded = c::decode_destiny_item_action_block_definition(
        &c::encode_destiny_item_action_block_definition(&v),
    )
    .expect("its image decodes");
    assert_eq!(decoded, v);
}

#[test]
fn activity_history_results_decode_from_wire_text() {
    let body = r#"{"activities": [{
        "period": "2023-03-01T12:30:00Z",
        "activityDetails": {
            "referenceId": 1, "directorActivityHash": 2,
            "instanceId": "13840487526", "mode": 4, "modes": [7, 4],
            "isPrivate": false, "membershipType": 3
        },
        "values": {
            "kills": {"statId": "kills",
                "basic": {"value": 21.0, "displayValue": "21"}}
        }
    }]}"#;
    let doc = parse_json(body).unwrap();
    let v = c::decode_destiny_activity_history_results(&doc).expect("the page decodes");
    assert_eq!(v.activities.len(), 1);
    let entry = &v.activities[0];
    assert_eq!(entry.activity_details.instance_id, 13840487526);
    assert_eq!(entry.activity_details.mode, t::DestinyActivityModeType::Raid);
    assert_eq!(entry.activity_details.modes.len(), 2);
    assert_eq!(entry.values[0].0, "kills");
    assert_eq!(entry.values[0].1.basic.display_value, "21");

    let bad = parse_json(r#"{"activities": [{"period": "not a date"}]}"#).unwrap();
    let e = c::decode_destiny_activity_history_results(&bad).unwrap_err();
    assert_eq!(e.path, "activities[0].period");
}

#[test]
fn item_definition_decodes_a_full_record() {
    let body = r#"{
        "displayProperties": {"iconHash": 0, "description": "d", "name": "Izanagi",
            "icon": "/i.png", "highResIcon": null, "hasIcon": true},
        "collectibleHash": 1, "iconWatermark": null, "iconWatermarkShelved": null,
        "iconWatermarkFeatured": null, "secondaryIcon": null, "secondaryOverlay": null,
        "secondarySpecial": null, "backgroundColor": null, "isFeaturedItem": false,
        "isHolofoil": false, "isAdept": true, "screenshot": null,
        "itemTypeDisplayName": "Sniper Rifle", "flavorText": null,
        "uiItemDisplayStyle": null, "itemTypeAndTierDisplayName": null,
        "displaySource": null, "tooltipStyle": null, "action": null, "crafting": null,
        "inventory": {"stackUniqueLabel": null, "maxStackSize": 1, "bucketTypeHash": 2,
            "recoveryBucketTypeHash": 3, "tierTypeHash": 4, "isInstanceItem": true,
            "nonTransferrableOriginal": false, "tierTypeName": "Exotic", "tierType": 6,
            "expirationTooltip": null, "expiredInActivityMessage": null,
            "expiredInOrbitMessage": null,
            "suppressExpirationWhenObjectivesComplete": false, "recipeItemHash": null},
        "setData": null, "stats": {"disablePrimaryStatDisplay": false,
            "statGroupHash": 5, "stats": {"155624089": {"statHash": 155624089,
                "value": 90, "minimum": 0, "maximum": 100, "displayMaximum": null}},
            "hasDisplayableStats": true, "primaryBaseStatHash": 155624089},
        "emblemObjectiveHash": null, "equippingBlock": null, "translationBlock": null,
        "preview": null, "quality": null, "value": null, "sourceData": null,
        "objectives": null, "metrics": null, "plug": null, "gearset": null,
        "sack": null, "sockets": null, "summary": null, "talentGrid": null,
        "acquireRewardSiteHash": 0, "acquireUnlockHash": 0,
        "loreHash": null, "summaryItemHash": null, "allowActions": true,
        "doesPostmasterPullHaveSideEffects": false, "nonTransferrable": false,
        "specialItemType": 9, "itemType": 3, "itemSubType": 12, "classType": 3,
        "breakerType": 0, "breakerTypeHash": null, "equippable": true,
        "damageTypes": [1], "defaultDamageType": 1, "defaultDamageTypeHash": null,
        "seasonHash": null, "isWrapper": false, "hash": 3211806999, "index": 7,
        "redacted": false, "blacklisted": false
    }"#;
    let doc = parse_json(body).unwrap();
    let v = c::decode_destiny_inventory_item_definition(&doc).expect("the item decodes");
    assert_eq!(v.display_properties.name, "Izanagi");
    assert_eq!(v.item_type, t::DestinyItemType::Weapon);
    assert_eq!(v.item_sub_type, t::DestinyItemSubType::SniperRifle);
    assert_eq!(v.inventory.tier_type, t::TierType::Exotic);
    assert_eq!(v.stats.as_ref().unwrap().stats[0].0, 155624089);
    assert_eq!(v.damage_types, vec![t::DamageType::Kinetic]);
    // The collections with a default policy were absent and became empty.
    assert_eq!(v.tooltip_notifications, vec![]);
    assert_eq!(v.trait_ids, Vec::<String>::new());
    assert_eq!(v.hash, 3211806999);

    let bad = parse_json(r#"{"hash": "nope"}"#).unwrap();
    let e = c::decode_destiny_inventory_item_definition(&bad).unwrap_err();
    assert_eq!(e.path, "displayProperties");
}
