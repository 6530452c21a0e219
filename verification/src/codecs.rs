//! Codecs for schema records.
//!
//! Each record's mapping to its wire JSON shape is given four faces: the
//! spec-level wire image of a value, the well-formedness of a document
//! that decodes, the relation a decoded value bears to its document, and
//! what a decode failure names.  Decoding fails with a [`DecodeError`]
//! whose path points at a field that is indeed not decodable, and an
//! undeclared enumeration code is reported with the enumeration's own
//! message, naming the offending value.  A round-trip lemma per record
//! states that decoding the encoded image gives the value back.

use vstd::prelude::*;

use crate::error::DecodeError;
use crate::json::{jview, spec_lookup, str_eq, Json, JsonValue};
use crate::num::{dec_string, int_dec_string, is_u64_text, i64_to_string,
    lemma_u64_text_round_trip, u64_text_val, u64_to_string};
use crate::transport::spec_starts_with;
use crate::wire::rfc3339_ok;
use crate::schema::{BungieMembershipType, DamageType, DestinyActivityHistoryResults,
    DestinyActivityModeType, DestinyAmmunitionType, DestinyAnimationReference,
    DestinyArtifactCharacterScoped, DestinyArtifactTier, DestinyArtifactTierItem,
    DestinyBreakerType, DestinyChallengeStatus, DestinyCharacterCustomization,
    DestinyCharacterPeerView, DestinyClass, DestinyCollectibleComponent,
    DestinyCollectibleState, DestinyColor, DestinyCraftableComponent,
    DestinyCraftableSocketComponent, DestinyCraftableSocketPlugComponent,
    DestinyCurrenciesComponent, DestinyDerivedItemCategoryDefinition,
    DestinyDerivedItemDefinition, DestinyDisplayPropertiesDefinition,
    DestinyEnergyCapacityEntry, DestinyEnergyCostEntry, DestinyEnergyType,
    DestinyEquippingBlockDefinition, DestinyGamePrivacySetting,
    DestinyGearArtArrangementReference, DestinyHistoricalStatsActivity,
    DestinyHistoricalStatsPeriodGroup, DestinyHistoricalStatsValue,
    DestinyHistoricalStatsValuePair, DestinyIconSequenceDefinition,
    DestinyInsertPlugActionDefinition, DestinyInventoryItemDefinition,
    DestinyInventoryItemStatDefinition, DestinyItemActionBlockDefinition,
    DestinyItemActionRequiredItemDefinition, DestinyItemCraftingBlockBonusPlugDefinition,
    DestinyItemCraftingBlockDefinition, DestinyItemGearsetBlockDefinition,
    DestinyItemInstanceEnergy, DestinyItemIntrinsicSocketEntryDefinition,
    DestinyItemInventoryBlockDefinition, DestinyItemInvestmentStatDefinition,
    DestinyItemMetricBlockDefinition, DestinyItemObjectiveBlockDefinition, DestinyItemPeerView,
    DestinyItemPerkEntryDefinition, DestinyItemPlugDefinition,
    DestinyItemPreviewBlockDefinition, DestinyItemQualityBlockDefinition, DestinyItemQuantity,
    DestinyItemSackBlockDefinition, DestinyItemSetBlockDefinition,
    DestinyItemSetBlockEntryDefinition, DestinyItemSocketBlockDefinition,
    DestinyItemSocketCategoryDefinition, DestinyItemSocketEntryDefinition,
    DestinyItemSocketEntryPlugItemDefinition,
    DestinyItemSocketEntryPlugItemRandomizedDefinition, DestinyItemSocketState,
    DestinyItemSourceBlockDefinition, DestinyItemSourceDefinition,
    DestinyItemStatBlockDefinition, DestinyItemSubType, DestinyItemSummaryBlockDefinition,
    DestinyItemTalentGridBlockDefinition, DestinyItemTooltipNotification,
    DestinyItemTranslationBlockDefinition, DestinyItemType, DestinyItemValueBlockDefinition,
    DestinyItemVendorSourceReference, DestinyItemVersionDefinition, DestinyJoinClosedReasons,
    DestinyKioskItem, DestinyLoadoutComponent, DestinyLoadoutItemComponent,
    DestinyLoadoutsComponent, DestinyManifest, DestinyMaterialRequirement,
    DestinyMetricComponent, DestinyMilestoneActivityCompletionStatus,
    DestinyMilestoneActivityPhase, DestinyMilestoneActivityVariant,
    DestinyMilestoneRewardEntry, DestinyMilestoneVendor, DestinyObjectiveDisplayProperties,
    DestinyObjectiveProgress, DestinyParentItemOverride, DestinyPartyMemberStates,
    DestinyPerkReference, DestinyPlugItemCraftingRequirements,
    DestinyPlugItemCraftingUnlockRequirement, DestinyPlugRuleDefinition,
    DestinyPlugSetDefinition, DestinyPlugWhitelistEntryDefinition,
    DestinyPresentationNodeComponent, DestinyPresentationNodeState,
    DestinyProfileTransitoryJoinability, DestinyProfileTransitoryPartyMember,
    DestinyProfileTransitoryTrackingEntry, DestinyProgressionResetEntry,
    DestinyProgressionRewardDefinition, DestinyPublicMilestoneChallenge,
    DestinyPublicMilestoneVendor, DestinySocketCategoryDefinition, DestinySocketCategoryStyle,
    DestinySocketTypeDefinition, DestinySocketTypeScalarMaterialRequirementEntry,
    DestinySocketVisibility, DestinyStat, DestinyTalentNodeStatBlock, DestinyUnlockStatus,
    DyeReference, EquippingItemBlockAttributes, FloatText, GearAssetDataBaseDefinition,
    HyperlinkReference, ImagePyramidEntry, ItemPerkVisibility, PlugAvailabilityMode,
    PlugUiStyles, SocketPlugSources, SocketTypeActionType, SpecialItemType, TierType,
    Timestamp, UserInfoCard};

verus! {

/// Looking up the key at position `i` finds exactly that position's
/// value when no earlier field shares the key.
pub proof fn lemma_lookup_at(fields: Seq<(Seq<char>, Json)>, i: int)
    requires
        0 <= i < fields.len(),
        forall|j: int| 0 <= j < i ==> (#[trigger] fields[j]).0 != fields[i].0,
    ensures
        spec_lookup(fields, fields[i].0) == Some(fields[i].1),
    decreases i,
{
    if i > 0 {
        assert(forall|j: int| 0 <= j < i - 1
            ==> (#[trigger] fields.skip(1)[j]) == fields[j + 1]);
        assert(fields.skip(1)[i - 1] == fields[i]);
        lemma_lookup_at(fields.skip(1), i - 1);
    }
}

/// Two string mappings carry the same entries, key and value text alike.
pub open spec fn string_map_view_eq(a: Seq<(String, String)>, b: Seq<(String, String)>) -> bool {
    &&& a.len() == b.len()
    &&& forall|i: int| 0 <= i < a.len()
        ==> #[trigger] a[i].0@ == b[i].0@ && a[i].1@ == b[i].1@
}

/// Two mappings of string mappings carry the same entries throughout.
pub open spec fn nested_string_map_view_eq(
    a: Seq<(String, Vec<(String, String)>)>,
    b: Seq<(String, Vec<(String, String)>)>,
) -> bool {
    &&& a.len() == b.len()
    &&& forall|i: int| 0 <= i < a.len()
        ==> #[trigger] a[i].0@ == b[i].0@ && string_map_view_eq(a[i].1@, b[i].1@)
}

/// Two string-mapping records that decode from the same wire object
/// carry the same entries.
pub proof fn lemma_string_map_entries_eq(
    entries: Seq<(Seq<char>, Json)>,
    a: Seq<(String, String)>,
    b: Seq<(String, String)>,
)
    requires
        a.len() == entries.len(),
        forall|i: int| 0 <= i < entries.len()
            ==> #[trigger] entries[i] == (a[i].0@, Json::Str(a[i].1@)),
        b.len() == entries.len(),
        forall|i: int| 0 <= i < entries.len()
            ==> #[trigger] entries[i] == (b[i].0@, Json::Str(b[i].1@)),
    ensures
        string_map_view_eq(a, b),
{
    assert forall|i: int| 0 <= i < a.len()
        implies #[trigger] a[i].0@ == b[i].0@ && a[i].1@ == b[i].1@ by {
        assert(entries[i] == (a[i].0@, Json::Str(a[i].1@)));
        assert(entries[i] == (b[i].0@, Json::Str(b[i].1@)));
    }
}

/// A decode failure of the document as a whole: the path is empty.
fn root_error(message: &str) -> (r: DecodeError)
    ensures
        r.path@.len() == 0,
        r.message@ == message@,
{
    DecodeError { path: String::new(), message: message.to_owned() }
}

/// A decode failure at a named field: the path is exactly that field.
fn field_error(path: &str, message: &str) -> (r: DecodeError)
    ensures
        r.path@ == path@,
        r.message@ == message@,
{
    DecodeError { path: path.to_owned(), message: message.to_owned() }
}

/// Re-roots a failure at a named field, keeping its message.
fn rekey_error(key: &str, e: DecodeError) -> (r: DecodeError)
    ensures
        r.path@ == key@,
        r.message@ == e.message@,
{
    DecodeError { path: key.to_owned(), message: e.message }
}

/// Prefixes a nested failure's path with the field it sits under.
fn nested_error(key: &str, e: DecodeError) -> (r: DecodeError)
    ensures
        spec_starts_with(r.path@, key@),
        r.message@ == e.message@,
{
    if e.path.as_str().is_empty() {
        let path = key.to_owned();
        proof {
            assert(path@.take(key@.len() as int) =~= key@);
        }
        DecodeError { path, message: e.message }
    } else {
        let mut path = key.to_owned();
        path.append(".");
        path.append(e.path.as_str());
        proof {
            assert(path@.take(key@.len() as int) =~= key@);
        }
        DecodeError { path, message: e.message }
    }
}

/// Prefixes a nested failure's path with the array field and position
/// it sits under.
fn indexed_error(key: &str, index: usize, e: DecodeError) -> (r: DecodeError)
    ensures
        spec_starts_with(r.path@, key@),
        r.message@ == e.message@,
{
    let mut path = key.to_owned();
    path.append("[");
    path.append(u64_to_string(index as u64).as_str());
    path.append("]");
    if !e.path.as_str().is_empty() {
        path.append(".");
        path.append(e.path.as_str());
    }
    proof {
        assert(path@.take(key@.len() as int) =~= key@);
    }
    DecodeError { path, message: e.message }
}

/// The wire image of this record.
pub open spec fn destiny_stat_json(v: DestinyStat) -> Json {
    Json::Obj(
        seq![
            ("statHash"@, Json::Int(v.stat_hash as int)),
            ("value"@, Json::Int(v.value as int)),
        ],
    )
}

/// Whether a document decodes as this record: an object with exactly these fields.
pub open spec fn destiny_stat_wf(j: Json) -> bool {
    &&& j matches Json::Obj(fields)
    &&& spec_lookup(fields, "statHash"@) matches Some(Json::Int(n)) && 0 <= n <= u32::MAX as int
    &&& spec_lookup(fields, "value"@) matches Some(Json::Int(n)) && i32::MIN as int <= n <= i32::MAX as int
    &&& forall|i: int| 0 <= i < fields.len()
        ==> ((#[trigger] fields[i]).0 == "statHash"@ || fields[i].0 == "value"@)
}

/// How a decoded record relates to the document it came from.
pub open spec fn destiny_stat_fields_match(fields: Seq<(Seq<char>, Json)>, w: DestinyStat) -> bool {
    &&& spec_lookup(fields, "statHash"@) == Some(Json::Int(w.stat_hash as int))
    &&& spec_lookup(fields, "value"@) == Some(Json::Int(w.value as int))
}

/// What a decode failure names: its path points at a field of the
/// document that is indeed not decodable, and an undeclared
/// enumeration code is reported with the enumeration's own message.
pub open spec fn destiny_stat_err_ok(j: Json, e: DecodeError) -> bool {
    &&& !(j matches Json::Obj(_)) ==> e.path@.len() == 0
    &&& j matches Json::Obj(fields) ==> (
        (e.path@ == "statHash"@ && !(spec_lookup(fields, "statHash"@) matches Some(Json::Int(n)) && 0 <= n <= u32::MAX as int))
        || (e.path@ == "value"@ && !(spec_lookup(fields, "value"@) matches Some(Json::Int(n)) && i32::MIN as int <= n <= i32::MAX as int))
        || (exists|i: int| 0 <= i < fields.len() && (#[trigger] fields[i]).0 == e.path@ && !((fields[i].0 == "statHash"@ || fields[i].0 == "value"@))))
}

pub fn encode_destiny_stat(v: &DestinyStat) -> (r: JsonValue)
    ensures
        jview(r) == destiny_stat_json(*v),
{
    let mut fields: Vec<(String, JsonValue)> = Vec::new();
    fields.push(("statHash".to_owned(), JsonValue::Int(v.stat_hash as i64)));
    fields.push(("value".to_owned(), JsonValue::Int(v.value as i64)));
    let r = JsonValue::Obj(fields);
    proof {
        assert(jview(fields@[0].1) == destiny_stat_json(*v)->Obj_0[0].1);
        assert(jview(fields@[1].1) == destiny_stat_json(*v)->Obj_0[1].1);
        assert(jview(r)->Obj_0 =~= destiny_stat_json(*v)->Obj_0);
    }
    r
}

/// Decodes this record; a failure names the offending field in its
/// path and says what was expected of it.
#[verifier::loop_isolation(false)]
pub fn decode_destiny_stat(j: &JsonValue) -> (r: Result<DestinyStat, DecodeError>)
    ensures
        r is Ok <==> destiny_stat_wf(jview(*j)),
        r matches Ok(w) ==> (jview(*j) matches Json::Obj(fields)
            && destiny_stat_fields_match(fields, w)),
        r matches Err(e) ==> destiny_stat_err_ok(jview(*j), e),
{
    let fields = match j {
        JsonValue::Obj(fields) => fields,
        _ => {
            return Err(root_error("an object"));
        },
    };
    let ghost gf = jview(*j)->Obj_0;
    let stat_hash = match j.get("statHash") {
        Some(v) => match v.to_i64() {
            Some(n) if 0 <= n && n <= u32::MAX as i64 => n as u32,
            _ => {
                return Err(field_error("statHash", "a 32-bit unsigned integer"));
            },
        },
        _ => {
            return Err(field_error("statHash", "a 32-bit unsigned integer"));
        },
    };
    let value = match j.get("value") {
        Some(v) => match v.to_i64() {
            Some(n) if i32::MIN as i64 <= n && n <= i32::MAX as i64 => n as i32,
            _ => {
                return Err(field_error("value", "a 32-bit integer"));
            },
        },
        _ => {
            return Err(field_error("value", "a 32-bit integer"));
        },
    };
    let mut i: usize = 0;
    while i < fields.len()
        invariant
            i <= fields.len(),
            gf.len() == fields@.len(),
            forall|k: int| 0 <= k < gf.len()
                ==> #[trigger] gf[k] == (fields@[k].0@, jview(fields@[k].1)),
            forall|k: int| 0 <= k < i
                ==> ((#[trigger] gf[k]).0 == "statHash"@ || gf[k].0 == "value"@),
        decreases fields.len() - i,
    {
        let name = fields[i].0.as_str();
        if !(str_eq(name, "statHash") || str_eq(name, "value")) {
            proof {
                assert(gf[i as int].0 == fields@[i as int].0@);
                assert(!destiny_stat_wf(jview(*j)));
            }
            return Err(field_error(fields[i].0.as_str(), "an unknown field"));
        }
        i = i + 1;
    }
    Ok(DestinyStat { stat_hash, value })
}

/// The wire image of a record is well formed and matched by the
/// record itself: encoding loses nothing that decoding reads.
pub proof fn lemma_destiny_stat_image(v: DestinyStat)
    ensures
        destiny_stat_wf(destiny_stat_json(v)),
        destiny_stat_json(v) matches Json::Obj(fields) && destiny_stat_fields_match(fields, v),
{
    reveal_strlit("statHash");
    reveal_strlit("value");
    let fields = destiny_stat_json(v)->Obj_0;
    assert("statHash"@.len() == 8);
    assert("value"@.len() == 5);
    assert("statHash"@ != "value"@);
    lemma_lookup_at(fields, 0);
    lemma_lookup_at(fields, 1);
}

/// Decoding the encoded image of a record yields a record whose
/// every field carries the same content as the one encoded.
pub proof fn lemma_destiny_stat_round_trip(v: DestinyStat, w: DestinyStat)
    requires
        destiny_stat_json(v) matches Json::Obj(fields) && destiny_stat_fields_match(fields, w),
    ensures
        destiny_stat_wf(destiny_stat_json(v)),
        w.stat_hash == v.stat_hash,
        w.value == v.value,
{
    lemma_destiny_stat_image(v);
    let fields = destiny_stat_json(v)->Obj_0;
    reveal_strlit("statHash");
    reveal_strlit("value");
    assert("statHash"@.len() == 8);
    assert("value"@.len() == 5);
    assert("statHash"@ != "value"@);
    lemma_lookup_at(fields, 0);
    lemma_lookup_at(fields, 1);
}

/// The wire image of this record.
pub open spec fn destiny_objective_progress_json(v: DestinyObjectiveProgress) -> Json {
    Json::Obj(
        seq![
            ("objectiveHash"@, Json::Int(v.objective_hash as int)),
            ("destinationHash"@, Json::Int(v.destination_hash as int)),
            ("activityHash"@, Json::Int(v.activity_hash as int)),
            ("progress"@, Json::Int(v.progress as int)),
            ("completionValue"@, Json::Int(v.completion_value as int)),
            ("complete"@, Json::Bool(v.complete)),
            ("visible"@, Json::Bool(v.visible)),
        ],
    )
}

/// Whether a document decodes as this record: unknown fields are tolerated.
pub open spec fn destiny_objective_progress_wf(j: Json) -> bool {
    &&& j matches Json::Obj(fields)
    &&& spec_lookup(fields, "objectiveHash"@) matches Some(Json::Int(n)) && 0 <= n <= u32::MAX as int
    &&& spec_lookup(fields, "destinationHash"@) matches Some(Json::Int(n)) && 0 <= n <= u32::MAX as int
    &&& spec_lookup(fields, "activityHash"@) matches Some(Json::Int(n)) && 0 <= n <= u32::MAX as int
    &&& spec_lookup(fields, "progress"@) matches Some(Json::Int(n)) && i32::MIN as int <= n <= i32::MAX as int
    &&& spec_lookup(fields, "completionValue"@) matches Some(Json::Int(n)) && i32::MIN as int <= n <= i32::MAX as int
    &&& spec_lookup(fields, "complete"@) matches Some(Json::Bool(_))
    &&& spec_lookup(fields, "visible"@) matches Some(Json::Bool(_))
}

/// How a decoded record relates to the document it came from.
pub open spec fn destiny_objective_progress_fields_match(fields: Seq<(Seq<char>, Json)>, w: DestinyObjectiveProgress) -> bool {
    &&& spec_lookup(fields, "objectiveHash"@) == Some(Json::Int(w.objective_hash as int))
    &&& spec_lookup(fields, "destinationHash"@) == Some(Json::Int(w.destination_hash as int))
    &&& spec_lookup(fields, "activityHash"@) == Some(Json::Int(w.activity_hash as int))
    &&& spec_lookup(fields, "progress"@) == Some(Json::Int(w.progress as int))
    &&& spec_lookup(fields, "completionValue"@) == Some(Json::Int(w.completion_value as int))
    &&& spec_lookup(fields, "complete"@) == Some(Json::Bool(w.complete))
    &&& spec_lookup(fields, "visible"@) == Some(Json::Bool(w.visible))
}

/// What a decode failure names: its path points at a field of the
/// document that is indeed not decodable, and an undeclared
/// enumeration code is reported with the enumeration's own message.
pub open spec fn destiny_objective_progress_err_ok(j: Json, e: DecodeError) -> bool {
    &&& !(j matches Json::Obj(_)) ==> e.path@.len() == 0
    &&& j matches Json::Obj(fields) ==> (
        (e.path@ == "objectiveHash"@ && !(spec_lookup(fields, "objectiveHash"@) matches Some(Json::Int(n)) && 0 <= n <= u32::MAX as int))
        || (e.path@ == "destinationHash"@ && !(spec_lookup(fields, "destinationHash"@) matches Some(Json::Int(n)) && 0 <= n <= u32::MAX as int))
        || (e.path@ == "activityHash"@ && !(spec_lookup(fields, "activityHash"@) matches Some(Json::Int(n)) && 0 <= n <= u32::MAX as int))
        || (e.path@ == "progress"@ && !(spec_lookup(fields, "progress"@) matches Some(Json::Int(n)) && i32::MIN as int <= n <= i32::MAX as int))
        || (e.path@ == "completionValue"@ && !(spec_lookup(fields, "completionValue"@) matches Some(Json::Int(n)) && i32::MIN as int <= n <= i32::MAX as int))
        || (e.path@ == "complete"@ && !(spec_lookup(fields, "complete"@) matches Some(Json::Bool(_))))
        || (e.path@ == "visible"@ && !(spec_lookup(fields, "visible"@) matches Some(Json::Bool(_)))))
}

pub fn encode_destiny_objective_progress(v: &DestinyObjectiveProgress) -> (r: JsonValue)
    ensures
        jview(r) == destiny_objective_progress_json(*v),
{
    let mut fields: Vec<(String, JsonValue)> = Vec::new();
    fields.push(("objectiveHash".to_owned(), JsonValue::Int(v.objective_hash as i64)));
    fields.push(("destinationHash".to_owned(), JsonValue::Int(v.destination_hash as i64)));
    fields.push(("activityHash".to_owned(), JsonValue::Int(v.activity_hash as i64)));
    fields.push(("progress".to_owned(), JsonValue::Int(v.progress as i64)));
    fields.push(("completionValue".to_owned(), JsonValue::Int(v.completion_value as i64)));
    fields.push(("complete".to_owned(), JsonValue::Bool(v.complete)));
    fields.push(("visible".to_owned(), JsonValue::Bool(v.visible)));
    let r = JsonValue::Obj(fields);
    proof {
        assert(jview(fields@[0].1) == destiny_objective_progress_json(*v)->Obj_0[0].1);
        assert(jview(fields@[1].1) == destiny_objective_progress_json(*v)->Obj_0[1].1);
        assert(jview(fields@[2].1) == destiny_objective_progress_json(*v)->Obj_0[2].1);
        assert(jview(fields@[3].1) == destiny_objective_progress_json(*v)->Obj_0[3].1);
        assert(jview(fields@[4].1) == destiny_objective_progress_json(*v)->Obj_0[4].1);
        assert(jview(fields@[5].1) == destiny_objective_progress_json(*v)->Obj_0[5].1);
        assert(jview(fields@[6].1) == destiny_objective_progress_json(*v)->Obj_0[6].1);
        assert(jview(r)->Obj_0 =~= destiny_objective_progress_json(*v)->Obj_0);
    }
    r
}

/// Decodes this record; a failure names the offending field in its
/// path and says what was expected of it.
#[verifier::loop_isolation(false)]
pub fn decode_destiny_objective_progress(j: &JsonValue) -> (r: Result<DestinyObjectiveProgress, DecodeError>)
    ensures
        r is Ok <==> destiny_objective_progress_wf(jview(*j)),
        r matches Ok(w) ==> (jview(*j) matches Json::Obj(fields)
            && destiny_objective_progress_fields_match(fields, w)),
        r matches Err(e) ==> destiny_objective_progress_err_ok(jview(*j), e),
{
    let fields = match j {
        JsonValue::Obj(fields) => fields,
        _ => {
            return Err(root_error("an object"));
        },
    };
    let ghost gf = jview(*j)->Obj_0;
    let objective_hash = match j.get("objectiveHash") {
        Some(v) => match v.to_i64() {
            Some(n) if 0 <= n && n <= u32::MAX as i64 => n as u32,
            _ => {
                return Err(field_error("objectiveHash", "a 32-bit unsigned integer"));
            },
        },
        _ => {
            return Err(field_error("objectiveHash", "a 32-bit unsigned integer"));
        },
    };
    let destination_hash = match j.get("destinationHash") {
        Some(v) => match v.to_i64() {
            Some(n) if 0 <= n && n <= u32::MAX as i64 => n as u32,
            _ => {
                return Err(field_error("destinationHash", "a 32-bit unsigned integer"));
            },
        },
        _ => {
            return Err(field_error("destinationHash", "a 32-bit unsigned integer"));
        },
    };
    let activity_hash = match j.get("activityHash") {
        Some(v) => match v.to_i64() {
            Some(n) if 0 <= n && n <= u32::MAX as i64 => n as u32,
            _ => {
                return Err(field_error("activityHash", "a 32-bit unsigned integer"));
            },
        },
        _ => {
            return Err(field_error("activityHash", "a 32-bit unsigned integer"));
        },
    };
    let progress = match j.get("progress") {
        Some(v) => match v.to_i64() {
            Some(n) if i32::MIN as i64 <= n && n <= i32::MAX as i64 => n as i32,
            _ => {
                return Err(field_error("progress", "a 32-bit integer"));
            },
        },
        _ => {
            return Err(field_error("progress", "a 32-bit integer"));
        },
    };
    let completion_value = match j.get("completionValue") {
        Some(v) => match v.to_i64() {
            Some(n) if i32::MIN as i64 <= n && n <= i32::MAX as i64 => n as i32,
            _ => {
                return Err(field_error("completionValue", "a 32-bit integer"));
            },
        },
        _ => {
            return Err(field_error("completionValue", "a 32-bit integer"));
        },
    };
    let complete = match j.get("complete") {
        Some(JsonValue::Bool(b)) => *b,
        _ => {
            return Err(field_error("complete", "a boolean"));
        },
    };
    let visible = match j.get("visible") {
        Some(JsonValue::Bool(b)) => *b,
        _ => {
            return Err(field_error("visible", "a boolean"));
        },
    };
    Ok(DestinyObjectiveProgress { objective_hash, destination_hash, activity_hash, progress, completion_value, complete, visible })
}

/// The wire image of a record is well formed and matched by the
/// record itself: encoding loses nothing that decoding reads.
pub proof fn lemma_destiny_objective_progress_image(v: DestinyObjectiveProgress)
    ensures
        destiny_objective_progress_wf(destiny_objective_progress_json(v)),
        destiny_objective_progress_json(v) matches Json::Obj(fields) && destiny_objective_progress_fields_match(fields, v),
{
    reveal_strlit("objectiveHash");
    reveal_strlit("destinationHash");
    reveal_strlit("activityHash");
    reveal_strlit("progress");
    reveal_strlit("completionValue");
    reveal_strlit("complete");
    reveal_strlit("visible");
    let fields = destiny_objective_progress_json(v)->Obj_0;
    assert("objectiveHash"@.len() == 13);
    assert("destinationHash"@.len() == 15);
    assert("activityHash"@.len() == 12);
    assert("progress"@.len() == 8);
    assert("completionValue"@.len() == 15);
    assert("complete"@.len() == 8);
    assert("visible"@.len() == 7);
    assert("objectiveHash"@ != "destinationHash"@);
    assert("objectiveHash"@ != "activityHash"@);
    assert("objectiveHash"@ != "progress"@);
    assert("objectiveHash"@ != "completionValue"@);
    assert("objectiveHash"@ != "complete"@);
    assert("objectiveHash"@ != "visible"@);
    assert("destinationHash"@ != "activityHash"@);
    assert("destinationHash"@ != "progress"@);
    assert(("destinationHash"@)[0] != ("completionValue"@)[0]);
    assert("destinationHash"@ != "completionValue"@);
    assert("destinationHash"@ != "complete"@);
    assert("destinationHash"@ != "visible"@);
    assert("activityHash"@ != "progress"@);
    assert("activityHash"@ != "completionValue"@);
    assert("activityHash"@ != "complete"@);
    assert("activityHash"@ != "visible"@);
    assert("progress"@ != "completionValue"@);
    assert(("progress"@)[0] != ("complete"@)[0]);
    assert("progress"@ != "complete"@);
    assert("progress"@ != "visible"@);
    assert("completionValue"@ != "complete"@);
    assert("completionValue"@ != "visible"@);
    assert("complete"@ != "visible"@);
    lemma_lookup_at(fields, 0);
    lemma_lookup_at(fields, 1);
    lemma_lookup_at(fields, 2);
    lemma_lookup_at(fields, 3);
    lemma_lookup_at(fields, 4);
    lemma_lookup_at(fields, 5);
    lemma_lookup_at(fields, 6);
}

/// Decoding the encoded image of a record yields a record whose
/// every field carries the same content as the one encoded.
pub proof fn lemma_destiny_objective_progress_round_trip(v: DestinyObjectiveProgress, w: DestinyObjectiveProgress)
    requires
        destiny_objective_progress_json(v) matches Json::Obj(fields) && destiny_objective_progress_fields_match(fields, w),
    ensures
        destiny_objective_progress_wf(destiny_objective_progress_json(v)),
        w.objective_hash == v.objective_hash,
        w.destination_hash == v.destination_hash,
        w.activity_hash == v.activity_hash,
        w.progress == v.progress,
        w.completion_value == v.completion_value,
        w.complete == v.complete,
        w.visible == v.visible,
{
    lemma_destiny_objective_progress_image(v);
    let fields = destiny_objective_progress_json(v)->Obj_0;
    reveal_strlit("objectiveHash");
    reveal_strlit("destinationHash");
    reveal_strlit("activityHash");
    reveal_strlit("progress");
    reveal_strlit("completionValue");
    reveal_strlit("complete");
    reveal_strlit("visible");
    assert("objectiveHash"@.len() == 13);
    assert("destinationHash"@.len() == 15);
    assert("activityHash"@.len() == 12);
    assert("progress"@.len() == 8);
    assert("completionValue"@.len() == 15);
    assert("complete"@.len() == 8);
    assert("visible"@.len() == 7);
    assert("objectiveHash"@ != "destinationHash"@);
    assert("objectiveHash"@ != "activityHash"@);
    assert("objectiveHash"@ != "progress"@);
    assert("objectiveHash"@ != "completionValue"@);
    assert("objectiveHash"@ != "complete"@);
    assert("objectiveHash"@ != "visible"@);
    assert("destinationHash"@ != "activityHash"@);
    assert("destinationHash"@ != "progress"@);
    assert(("destinationHash"@)[0] != ("completionValue"@)[0]);
    assert("destinationHash"@ != "completionValue"@);
    assert("destinationHash"@ != "complete"@);
    assert("destinationHash"@ != "visible"@);
    assert("activityHash"@ != "progress"@);
    assert("activityHash"@ != "completionValue"@);
    assert("activityHash"@ != "complete"@);
    assert("activityHash"@ != "visible"@);
    assert("progress"@ != "completionValue"@);
    assert(("progress"@)[0] != ("complete"@)[0]);
    assert("progress"@ != "complete"@);
    assert("progress"@ != "visible"@);
    assert("completionValue"@ != "complete"@);
    assert("completionValue"@ != "visible"@);
    assert("complete"@ != "visible"@);
    lemma_lookup_at(fields, 0);
    lemma_lookup_at(fields, 1);
    lemma_lookup_at(fields, 2);
    lemma_lookup_at(fields, 3);
    lemma_lookup_at(fields, 4);
    lemma_lookup_at(fields, 5);
    lemma_lookup_at(fields, 6);
}

/// The wire image of this record.
pub open spec fn destiny_profile_transitory_tracking_entry_json(v: DestinyProfileTransitoryTrackingEntry) -> Json {
    Json::Obj(
        seq![
            ("locationHash"@, Json::Int(v.location_hash as int)),
            ("itemHash"@, Json::Int(v.item_hash as int)),
            ("objectiveHash"@, Json::Int(v.objective_hash as int)),
            ("activityHash"@, Json::Int(v.activity_hash as int)),
            ("questlineItemHash"@, Json::Int(v.questline_item_hash as int)),
            ("trackedDate"@, Json::Str(v.tracked_date.raw@)),
        ],
    )
}

/// Whether a document decodes as this record: an object with exactly these fields.
pub open spec fn destiny_profile_transitory_tracking_entry_wf(j: Json) -> bool {
    &&& j matches Json::Obj(fields)
    &&& spec_lookup(fields, "locationHash"@) matches Some(Json::Int(n)) && 0 <= n <= u32::MAX as int
    &&& spec_lookup(fields, "itemHash"@) matches Some(Json::Int(n)) && 0 <= n <= u32::MAX as int
    &&& spec_lookup(fields, "objectiveHash"@) matches Some(Json::Int(n)) && 0 <= n <= u32::MAX as int
    &&& spec_lookup(fields, "activityHash"@) matches Some(Json::Int(n)) && 0 <= n <= u32::MAX as int
    &&& spec_lookup(fields, "questlineItemHash"@) matches Some(Json::Int(n)) && 0 <= n <= u32::MAX as int
    &&& spec_lookup(fields, "trackedDate"@) matches Some(Json::Str(s)) && rfc3339_ok(s)
    &&& forall|i: int| 0 <= i < fields.len()
        ==> ((#[trigger] fields[i]).0 == "locationHash"@ || fields[i].0 == "itemHash"@ || fields[i].0 == "objectiveHash"@ || fields[i].0 == "activityHash"@ || fields[i].0 == "questlineItemHash"@ || fields[i].0 == "trackedDate"@)
}

/// How a decoded record relates to the document it came from.
pub open spec fn destiny_profile_transitory_tracking_entry_fields_match(fields: Seq<(Seq<char>, Json)>, w: DestinyProfileTransitoryTrackingEntry) -> bool {
    &&& spec_lookup(fields, "locationHash"@) == Some(Json::Int(w.location_hash as int))
    &&& spec_lookup(fields, "itemHash"@) == Some(Json::Int(w.item_hash as int))
    &&& spec_lookup(fields, "objectiveHash"@) == Some(Json::Int(w.objective_hash as int))
    &&& spec_lookup(fields, "activityHash"@) == Some(Json::Int(w.activity_hash as int))
    &&& spec_lookup(fields, "questlineItemHash"@) == Some(Json::Int(w.questline_item_hash as int))
    &&& spec_lookup(fields, "trackedDate"@) == Some(Json::Str(w.tracked_date.raw@)) && w.tracked_date.wf()
}

/// What a decode failure names: its path points at a field of the
/// document that is indeed not decodable, and an undeclared
/// enumeration code is reported with the enumeration's own message.
pub open spec fn destiny_profile_transitory_tracking_entry_err_ok(j: Json, e: DecodeError) -> bool {
    &&& !(j matches Json::Obj(_)) ==> e.path@.len() == 0
    &&& j matches Json::Obj(fields) ==> (
        (e.path@ == "locationHash"@ && !(spec_lookup(fields, "locationHash"@) matches Some(Json::Int(n)) && 0 <= n <= u32::MAX as int))
        || (e.path@ == "itemHash"@ && !(spec_lookup(fields, "itemHash"@) matches Some(Json::Int(n)) && 0 <= n <= u32::MAX as int))
        || (e.path@ == "objectiveHash"@ && !(spec_lookup(fields, "objectiveHash"@) matches Some(Json::Int(n)) && 0 <= n <= u32::MAX as int))
        || (e.path@ == "activityHash"@ && !(spec_lookup(fields, "activityHash"@) matches Some(Json::Int(n)) && 0 <= n <= u32::MAX as int))
        || (e.path@ == "questlineItemHash"@ && !(spec_lookup(fields, "questlineItemHash"@) matches Some(Json::Int(n)) && 0 <= n <= u32::MAX as int))
        || (e.path@ == "trackedDate"@ && !(spec_lookup(fields, "trackedDate"@) matches Some(Json::Str(s)) && rfc3339_ok(s)))
        || (exists|i: int| 0 <= i < fields.len() && (#[trigger] fields[i]).0 == e.path@ && !((fields[i].0 == "locationHash"@ || fields[i].0 == "itemHash"@ || fields[i].0 == "objectiveHash"@ || fields[i].0 == "activityHash"@ || fields[i].0 == "questlineItemHash"@ || fields[i].0 == "trackedDate"@))))
}

pub fn encode_destiny_profile_transitory_tracking_entry(v: &DestinyProfileTransitoryTrackingEntry) -> (r: JsonValue)
    ensures
        jview(r) == destiny_profile_transitory_tracking_entry_json(*v),
{
    let mut fields: Vec<(String, JsonValue)> = Vec::new();
    fields.push(("locationHash".to_owned(), JsonValue::Int(v.location_hash as i64)));
    fields.push(("itemHash".to_owned(), JsonValue::Int(v.item_hash as i64)));
    fields.push(("objectiveHash".to_owned(), JsonValue::Int(v.objective_hash as i64)));
    fields.push(("activityHash".to_owned(), JsonValue::Int(v.activity_hash as i64)));
    fields.push(("questlineItemHash".to_owned(), JsonValue::Int(v.questline_item_hash as i64)));
    fields.push(("trackedDate".to_owned(), JsonValue::Str(v.tracked_date.raw.clone())));
    let r = JsonValue::Obj(fields);
    proof {
        assert(jview(fields@[0].1) == destiny_profile_transitory_tracking_entry_json(*v)->Obj_0[0].1);
        assert(jview(fields@[1].1) == destiny_profile_transitory_tracking_entry_json(*v)->Obj_0[1].1);
        assert(jview(fields@[2].1) == destiny_profile_transitory_tracking_entry_json(*v)->Obj_0[2].1);
        assert(jview(fields@[3].1) == destiny_profile_transitory_tracking_entry_json(*v)->Obj_0[3].1);
        assert(jview(fields@[4].1) == destiny_profile_transitory_tracking_entry_json(*v)->Obj_0[4].1);
        assert(jview(fields@[5].1) == destiny_profile_transitory_tracking_entry_json(*v)->Obj_0[5].1);
        assert(jview(r)->Obj_0 =~= destiny_profile_transitory_tracking_entry_json(*v)->Obj_0);
    }
    r
}

/// Decodes this record; a failure names the offending field in its
/// path and says what was expected of it.
#[verifier::loop_isolation(false)]
pub fn decode_destiny_profile_transitory_tracking_entry(j: &JsonValue) -> (r: Result<DestinyProfileTransitoryTrackingEntry, DecodeError>)
    ensures
        r is Ok <==> destiny_profile_transitory_tracking_entry_wf(jview(*j)),
        r matches Ok(w) ==> (jview(*j) matches Json::Obj(fields)
            && destiny_profile_transitory_tracking_entry_fields_match(fields, w)),
        r matches Err(e) ==> destiny_profile_transitory_tracking_entry_err_ok(jview(*j), e),
{
    let fields = match j {
        JsonValue::Obj(fields) => fields,
        _ => {
            return Err(root_error("an object"));
        },
    };
    let ghost gf = jview(*j)->Obj_0;
    let location_hash = match j.get("locationHash") {
        Some(v) => match v.to_i64() {
            Some(n) if 0 <= n && n <= u32::MAX as i64 => n as u32,
            _ => {
                return Err(field_error("locationHash", "a 32-bit unsigned integer"));
            },
        },
        _ => {
            return Err(field_error("locationHash", "a 32-bit unsigned integer"));
        },
    };
    let item_hash = match j.get("itemHash") {
        Some(v) => match v.to_i64() {
            Some(n) if 0 <= n && n <= u32::MAX as i64 => n as u32,
            _ => {
                return Err(field_error("itemHash", "a 32-bit unsigned integer"));
            },
        },
        _ => {
            return Err(field_error("itemHash", "a 32-bit unsigned integer"));
        },
    };
    let objective_hash = match j.get("objectiveHash") {
        Some(v) => match v.to_i64() {
            Some(n) if 0 <= n && n <= u32::MAX as i64 => n as u32,
            _ => {
                return Err(field_error("objectiveHash", "a 32-bit unsigned integer"));
            },
        },
        _ => {
            return Err(field_error("objectiveHash", "a 32-bit unsigned integer"));
        },
    };
    let activity_hash = match j.get("activityHash") {
        Some(v) => match v.to_i64() {
            Some(n) if 0 <= n && n <= u32::MAX as i64 => n as u32,
            _ => {
                return Err(field_error("activityHash", "a 32-bit unsigned integer"));
            },
        },
        _ => {
            return Err(field_error("activityHash", "a 32-bit unsigned integer"));
        },
    };
    let questline_item_hash = match j.get("questlineItemHash") {
        Some(v) => match v.to_i64() {
            Some(n) if 0 <= n && n <= u32::MAX as i64 => n as u32,
            _ => {
                return Err(field_error("questlineItemHash", "a 32-bit unsigned integer"));
            },
        },
        _ => {
            return Err(field_error("questlineItemHash", "a 32-bit unsigned integer"));
        },
    };
    let tracked_date = match j.get("trackedDate") {
        Some(JsonValue::Str(s)) => match Timestamp::parse(s.clone()) {
            Some(t) => t,
            Option::None => {
                return Err(field_error("trackedDate", "RFC 3339 date-time text"));
            },
        },
        _ => {
            return Err(field_error("trackedDate", "RFC 3339 date-time text"));
        },
    };
    let mut i: usize = 0;
    while i < fields.len()
        invariant
            i <= fields.len(),
            gf.len() == fields@.len(),
            forall|k: int| 0 <= k < gf.len()
                ==> #[trigger] gf[k] == (fields@[k].0@, jview(fields@[k].1)),
            forall|k: int| 0 <= k < i
                ==> ((#[trigger] gf[k]).0 == "locationHash"@ || gf[k].0 == "itemHash"@ || gf[k].0 == "objectiveHash"@ || gf[k].0 == "activityHash"@ || gf[k].0 == "questlineItemHash"@ || gf[k].0 == "trackedDate"@),
        decreases fields.len() - i,
    {
        let name = fields[i].0.as_str();
        if !(str_eq(name, "locationHash") || str_eq(name, "itemHash") || str_eq(name, "objectiveHash") || str_eq(name, "activityHash") || str_eq(name, "questlineItemHash") || str_eq(name, "trackedDate")) {
            proof {
                assert(gf[i as int].0 == fields@[i as int].0@);
                assert(!destiny_profile_transitory_tracking_entry_wf(jview(*j)));
            }
            return Err(field_error(fields[i].0.as_str(), "an unknown field"));
        }
        i = i + 1;
    }
    Ok(DestinyProfileTransitoryTrackingEntry { location_hash, item_hash, objective_hash, activity_hash, questline_item_hash, tracked_date })
}

/// The wire image of a record is well formed and matched by the
/// record itself: encoding loses nothing that decoding reads.
pub proof fn lemma_destiny_profile_transitory_tracking_entry_image(v: DestinyProfileTransitoryTrackingEntry)
    requires
        v.tracked_date.wf(),
    ensures
        destiny_profile_transitory_tracking_entry_wf(destiny_profile_transitory_tracking_entry_json(v)),
        destiny_profile_transitory_tracking_entry_json(v) matches Json::Obj(fields) && destiny_profile_transitory_tracking_entry_fields_match(fields, v),
{
    reveal_strlit("locationHash");
    reveal_strlit("itemHash");
    reveal_strlit("objectiveHash");
    reveal_strlit("activityHash");
    reveal_strlit("questlineItemHash");
    reveal_strlit("trackedDate");
    let fields = destiny_profile_transitory_tracking_entry_json(v)->Obj_0;
    assert("locationHash"@.len() == 12);
    assert("itemHash"@.len() == 8);
    assert("objectiveHash"@.len() == 13);
    assert("activityHash"@.len() == 12);
    assert("questlineItemHash"@.len() == 17);
    assert("trackedDate"@.len() == 11);
    assert("locationHash"@ != "itemHash"@);
    assert("locationHash"@ != "objectiveHash"@);
    assert(("locationHash"@)[0] != ("activityHash"@)[0]);
    assert("locationHash"@ != "activityHash"@);
    assert("locationHash"@ != "questlineItemHash"@);
    assert("locationHash"@ != "trackedDate"@);
    assert("itemHash"@ != "objectiveHash"@);
    assert("itemHash"@ != "activityHash"@);
    assert("itemHash"@ != "questlineItemHash"@);
    assert("itemHash"@ != "trackedDate"@);
    assert("objectiveHash"@ != "activityHash"@);
    assert("objectiveHash"@ != "questlineItemHash"@);
    assert("objectiveHash"@ != "trackedDate"@);
    assert("activityHash"@ != "questlineItemHash"@);
    assert("activityHash"@ != "trackedDate"@);
    assert("questlineItemHash"@ != "trackedDate"@);
    lemma_lookup_at(fields, 0);
    lemma_lookup_at(fields, 1);
    lemma_lookup_at(fields, 2);
    lemma_lookup_at(fields, 3);
    lemma_lookup_at(fields, 4);
    lemma_lookup_at(fields, 5);
}

/// Decoding the encoded image of a record yields a record whose
/// every field carries the same content as the one encoded.
pub proof fn lemma_destiny_profile_transitory_tracking_entry_round_trip(v: DestinyProfileTransitoryTrackingEntry, w: DestinyProfileTransitoryTrackingEntry)
    requires
        v.tracked_date.wf(),
        destiny_profile_transitory_tracking_entry_json(v) matches Json::Obj(fields) && destiny_profile_transitory_tracking_entry_fields_match(fields, w),
    ensures
        destiny_profile_transitory_tracking_entry_wf(destiny_profile_transitory_tracking_entry_json(v)),
        w.location_hash == v.location_hash,
        w.item_hash == v.item_hash,
        w.objective_hash == v.objective_hash,
        w.activity_hash == v.activity_hash,
        w.questline_item_hash == v.questline_item_hash,
        w.tracked_date.raw@ == v.tracked_date.raw@,
{
    lemma_destiny_profile_transitory_tracking_entry_image(v);
    let fields = destiny_profile_transitory_tracking_entry_json(v)->Obj_0;
    reveal_strlit("locationHash");
    reveal_strlit("itemHash");
    reveal_strlit("objectiveHash");
    reveal_strlit("activityHash");
    reveal_strlit("questlineItemHash");
    reveal_strlit("trackedDate");
    assert("locationHash"@.len() == 12);
    assert("itemHash"@.len() == 8);
    assert("objectiveHash"@.len() == 13);
    assert("activityHash"@.len() == 12);
    assert("questlineItemHash"@.len() == 17);
    assert("trackedDate"@.len() == 11);
    assert("locationHash"@ != "itemHash"@);
    assert("locationHash"@ != "objectiveHash"@);
    assert(("locationHash"@)[0] != ("activityHash"@)[0]);
    assert("locationHash"@ != "activityHash"@);
    assert("locationHash"@ != "questlineItemHash"@);
    assert("locationHash"@ != "trackedDate"@);
    assert("itemHash"@ != "objectiveHash"@);
    assert("itemHash"@ != "activityHash"@);
    assert("itemHash"@ != "questlineItemHash"@);
    assert("itemHash"@ != "trackedDate"@);
    assert("objectiveHash"@ != "activityHash"@);
    assert("objectiveHash"@ != "questlineItemHash"@);
    assert("objectiveHash"@ != "trackedDate"@);
    assert("activityHash"@ != "questlineItemHash"@);
    assert("activityHash"@ != "trackedDate"@);
    assert("questlineItemHash"@ != "trackedDate"@);
    lemma_lookup_at(fields, 0);
    lemma_lookup_at(fields, 1);
    lemma_lookup_at(fields, 2);
    lemma_lookup_at(fields, 3);
    lemma_lookup_at(fields, 4);
    lemma_lookup_at(fields, 5);
}

/// The wire image of this record.
pub open spec fn image_pyramid_entry_json(v: ImagePyramidEntry) -> Json {
    Json::Obj(
        seq![
            ("name"@, Json::Str(v.name@)),
            ("factor"@, Json::Float(v.factor.text@)),
        ],
    )
}

/// Whether a document decodes as this record: unknown fields are tolerated.
pub open spec fn image_pyramid_entry_wf(j: Json) -> bool {
    &&& j matches Json::Obj(fields)
    &&& spec_lookup(fields, "name"@) matches Some(Json::Str(_))
    &&& match spec_lookup(fields, "factor"@) { Some(Json::Float(_)) => true, Some(Json::Int(_)) => true, _ => false }
}

/// How a decoded record relates to the document it came from.
pub open spec fn image_pyramid_entry_fields_match(fields: Seq<(Seq<char>, Json)>, w: ImagePyramidEntry) -> bool {
    &&& spec_lookup(fields, "name"@) == Some(Json::Str(w.name@))
    &&& match spec_lookup(fields, "factor"@) { Some(Json::Float(t)) => w.factor.text@ == t, Some(Json::Int(n)) => w.factor.text@ == int_dec_string(n), _ => false }
}

/// What a decode failure names: its path points at a field of the
/// document that is indeed not decodable, and an undeclared
/// enumeration code is reported with the enumeration's own message.
pub open spec fn image_pyramid_entry_err_ok(j: Json, e: DecodeError) -> bool {
    &&& !(j matches Json::Obj(_)) ==> e.path@.len() == 0
    &&& j matches Json::Obj(fields) ==> (
        (e.path@ == "name"@ && !(spec_lookup(fields, "name"@) matches Some(Json::Str(_))))
        || (e.path@ == "factor"@ && !(match spec_lookup(fields, "factor"@) { Some(Json::Float(_)) => true, Some(Json::Int(_)) => true, _ => false })))
}

pub fn encode_image_pyramid_entry(v: &ImagePyramidEntry) -> (r: JsonValue)
    ensures
        jview(r) == image_pyramid_entry_json(*v),
{
    let mut fields: Vec<(String, JsonValue)> = Vec::new();
    fields.push(("name".to_owned(), JsonValue::Str(v.name.clone())));
    fields.push(("factor".to_owned(), JsonValue::Float(v.factor.text.clone())));
    let r = JsonValue::Obj(fields);
    proof {
        assert(jview(fields@[0].1) == image_pyramid_entry_json(*v)->Obj_0[0].1);
        assert(jview(fields@[1].1) == image_pyramid_entry_json(*v)->Obj_0[1].1);
        assert(jview(r)->Obj_0 =~= image_pyramid_entry_json(*v)->Obj_0);
    }
    r
}

/// Decodes this record; a failure names the offending field in its
/// path and says what was expected of it.
#[verifier::loop_isolation(false)]
pub fn decode_image_pyramid_entry(j: &JsonValue) -> (r: Result<ImagePyramidEntry, DecodeError>)
    ensures
        r is Ok <==> image_pyramid_entry_wf(jview(*j)),
        r matches Ok(w) ==> (jview(*j) matches Json::Obj(fields)
            && image_pyramid_entry_fields_match(fields, w)),
        r matches Err(e) ==> image_pyramid_entry_err_ok(jview(*j), e),
{
    let fields = match j {
        JsonValue::Obj(fields) => fields,
        _ => {
            return Err(root_error("an object"));
        },
    };
    let ghost gf = jview(*j)->Obj_0;
    let name = match j.get("name") {
        Some(JsonValue::Str(s)) => s.clone(),
        _ => {
            return Err(field_error("name", "a string"));
        },
    };
    let factor = match j.get("factor") {
        Some(JsonValue::Float(t)) => FloatText { text: t.clone() },
        Some(JsonValue::Int(n)) => FloatText { text: i64_to_string(*n) },
        Some(JsonValue::UInt(u)) => FloatText { text: u64_to_string(*u) },
        _ => {
            return Err(field_error("factor", "a number"));
        },
    };
    Ok(ImagePyramidEntry { name, factor })
}

/// The wire image of a record is well formed and matched by the
/// record itself: encoding loses nothing that decoding reads.
pub proof fn lemma_image_pyramid_entry_image(v: ImagePyramidEntry)
    ensures
        image_pyramid_entry_wf(image_pyramid_entry_json(v)),
        image_pyramid_entry_json(v) matches Json::Obj(fields) && image_pyramid_entry_fields_match(fields, v),
{
    reveal_strlit("name");
    reveal_strlit("factor");
    let fields = image_pyramid_entry_json(v)->Obj_0;
    assert("name"@.len() == 4);
    assert("factor"@.len() == 6);
    assert("name"@ != "factor"@);
    lemma_lookup_at(fields, 0);
    lemma_lookup_at(fields, 1);
}

/// Decoding the encoded image of a record yields a record whose
/// every field carries the same content as the one encoded.
pub proof fn lemma_image_pyramid_entry_round_trip(v: ImagePyramidEntry, w: ImagePyramidEntry)
    requires
        image_pyramid_entry_json(v) matches Json::Obj(fields) && image_pyramid_entry_fields_match(fields, w),
    ensures
        image_pyramid_entry_wf(image_pyramid_entry_json(v)),
        w.name@ == v.name@,
        w.factor.text@ == v.factor.text@,
{
    lemma_image_pyramid_entry_image(v);
    let fields = image_pyramid_entry_json(v)->Obj_0;
    reveal_strlit("name");
    reveal_strlit("factor");
    assert("name"@.len() == 4);
    assert("factor"@.len() == 6);
    assert("name"@ != "factor"@);
    lemma_lookup_at(fields, 0);
    lemma_lookup_at(fields, 1);
}

/// The wire image of this record.
pub open spec fn gear_asset_data_base_definition_json(v: GearAssetDataBaseDefinition) -> Json {
    Json::Obj(
        seq![
            ("version"@, Json::Int(v.version as int)),
            ("path"@, Json::Str(v.path@)),
        ],
    )
}

/// Whether a document decodes as this record: unknown fields are tolerated.
pub open spec fn gear_asset_data_base_definition_wf(j: Json) -> bool {
    &&& j matches Json::Obj(fields)
    &&& spec_lookup(fields, "version"@) matches Some(Json::Int(n)) && i32::MIN as int <= n <= i32::MAX as int
    &&& spec_lookup(fields, "path"@) matches Some(Json::Str(_))
}

/// How a decoded record relates to the document it came from.
pub open spec fn gear_asset_data_base_definition_fields_match(fields: Seq<(Seq<char>, Json)>, w: GearAssetDataBaseDefinition) -> bool {
    &&& spec_lookup(fields, "version"@) == Some(Json::Int(w.version as int))
    &&& spec_lookup(fields, "path"@) == Some(Json::Str(w.path@))
}

/// What a decode failure names: its path points at a field of the
/// document that is indeed not decodable, and an undeclared
/// enumeration code is reported with the enumeration's own message.
pub open spec fn gear_asset_data_base_definition_err_ok(j: Json, e: DecodeError) -> bool {
    &&& !(j matches Json::Obj(_)) ==> e.path@.len() == 0
    &&& j matches Json::Obj(fields) ==> (
        (e.path@ == "version"@ && !(spec_lookup(fields, "version"@) matches Some(Json::Int(n)) && i32::MIN as int <= n <= i32::MAX as int))
        || (e.path@ == "path"@ && !(spec_lookup(fields, "path"@) matches Some(Json::Str(_)))))
}

pub fn encode_gear_asset_data_base_definition(v: &GearAssetDataBaseDefinition) -> (r: JsonValue)
    ensures
        jview(r) == gear_asset_data_base_definition_json(*v),
{
    let mut fields: Vec<(String, JsonValue)> = Vec::new();
    fields.push(("version".to_owned(), JsonValue::Int(v.version as i64)));
    fields.push(("path".to_owned(), JsonValue::Str(v.path.clone())));
    let r = JsonValue::Obj(fields);
    proof {
        assert(jview(fields@[0].1) == gear_asset_data_base_definition_json(*v)->Obj_0[0].1);
        assert(jview(fields@[1].1) == gear_asset_data_base_definition_json(*v)->Obj_0[1].1);
        assert(jview(r)->Obj_0 =~= gear_asset_data_base_definition_json(*v)->Obj_0);
    }
    r
}

/// Decodes this record; a failure names the offending field in its
/// path and says what was expected of it.
#[verifier::loop_isolation(false)]
pub fn decode_gear_asset_data_base_definition(j: &JsonValue) -> (r: Result<GearAssetDataBaseDefinition, DecodeError>)
    ensures
        r is Ok <==> gear_asset_data_base_definition_wf(jview(*j)),
        r matches Ok(w) ==> (jview(*j) matches Json::Obj(fields)
            && gear_asset_data_base_definition_fields_match(fields, w)),
        r matches Err(e) ==> gear_asset_data_base_definition_err_ok(jview(*j), e),
{
    let fields = match j {
        JsonValue::Obj(fields) => fields,
        _ => {
            return Err(root_error("an object"));
        },
    };
    let ghost gf = jview(*j)->Obj_0;
    let version = match j.get("version") {
        Some(v) => match v.to_i64() {
            Some(n) if i32::MIN as i64 <= n && n <= i32::MAX as i64 => n as i32,
            _ => {
                return Err(field_error("version", "a 32-bit integer"));
            },
        },
        _ => {
            return Err(field_error("version", "a 32-bit integer"));
        },
    };
    let path = match j.get("path") {
        Some(JsonValue::Str(s)) => s.clone(),
        _ => {
            return Err(field_error("path", "a string"));
        },
    };
    Ok(GearAssetDataBaseDefinition { version, path })
}

/// The wire image of a record is well formed and matched by the
/// record itself: encoding loses nothing that decoding reads.
pub proof fn lemma_gear_asset_data_base_definition_image(v: GearAssetDataBaseDefinition)
    ensures
        gear_asset_data_base_definition_wf(gear_asset_data_base_definition_json(v)),
        gear_asset_data_base_definition_json(v) matches Json::Obj(fields) && gear_asset_data_base_definition_fields_match(fields, v),
{
    reveal_strlit("version");
    reveal_strlit("path");
    let fields = gear_asset_data_base_definition_json(v)->Obj_0;
    assert("version"@.len() == 7);
    assert("path"@.len() == 4);
    assert("version"@ != "path"@);
    lemma_lookup_at(fields, 0);
    lemma_lookup_at(fields, 1);
}

/// Decoding the encoded image of a record yields a record whose
/// every field carries the same content as the one encoded.
pub proof fn lemma_gear_asset_data_base_definition_round_trip(v: GearAssetDataBaseDefinition, w: GearAssetDataBaseDefinition)
    requires
        gear_asset_data_base_definition_json(v) matches Json::Obj(fields) && gear_asset_data_base_definition_fields_match(fields, w),
    ensures
        gear_asset_data_base_definition_wf(gear_asset_data_base_definition_json(v)),
        w.version == v.version,
        w.path@ == v.path@,
{
    lemma_gear_asset_data_base_definition_image(v);
    let fields = gear_asset_data_base_definition_json(v)->Obj_0;
    reveal_strlit("version");
    reveal_strlit("path");
    assert("version"@.len() == 7);
    assert("path"@.len() == 4);
    assert("version"@ != "path"@);
    lemma_lookup_at(fields, 0);
    lemma_lookup_at(fields, 1);
}

/// The wire image of this record.
pub open spec fn hyperlink_reference_json(v: HyperlinkReference) -> Json {
    Json::Obj(
        seq![
            ("title"@, Json::Str(v.title@)),
            ("url"@, Json::Str(v.url@)),
        ],
    )
}

/// Whether a document decodes as this record: unknown fields are tolerated.
pub open spec fn hyperlink_reference_wf(j: Json) -> bool {
    &&& j matches Json::Obj(fields)
    &&& spec_lookup(fields, "title"@) matches Some(Json::Str(_))
    &&& spec_lookup(fields, "url"@) matches Some(Json::Str(_))
}

/// How a decoded record relates to the document it came from.
pub open spec fn hyperlink_reference_fields_match(fields: Seq<(Seq<char>, Json)>, w: HyperlinkReference) -> bool {
    &&& spec_lookup(fields, "title"@) == Some(Json::Str(w.title@))
    &&& spec_lookup(fields, "url"@) == Some(Json::Str(w.url@))
}

/// What a decode failure names: its path points at a field of the
/// document that is indeed not decodable, and an undeclared
/// enumeration code is reported with the enumeration's own message.
pub open spec fn hyperlink_reference_err_ok(j: Json, e: DecodeError) -> bool {
    &&& !(j matches Json::Obj(_)) ==> e.path@.len() == 0
    &&& j matches Json::Obj(fields) ==> (
        (e.path@ == "title"@ && !(spec_lookup(fields, "title"@) matches Some(Json::Str(_))))
        || (e.path@ == "url"@ && !(spec_lookup(fields, "url"@) matches Some(Json::Str(_)))))
}

pub fn encode_hyperlink_reference(v: &HyperlinkReference) -> (r: JsonValue)
    ensures
        jview(r) == hyperlink_reference_json(*v),
{
    let mut fields: Vec<(String, JsonValue)> = Vec::new();
    fields.push(("title".to_owned(), JsonValue::Str(v.title.clone())));
    fields.push(("url".to_owned(), JsonValue::Str(v.url.clone())));
    let r = JsonValue::Obj(fields);
    proof {
        assert(jview(fields@[0].1) == hyperlink_reference_json(*v)->Obj_0[0].1);
        assert(jview(fields@[1].1) == hyperlink_reference_json(*v)->Obj_0[1].1);
        assert(jview(r)->Obj_0 =~= hyperlink_reference_json(*v)->Obj_0);
    }
    r
}

/// Decodes this record; a failure names the offending field in its
/// path and says what was expected of it.
#[verifier::loop_isolation(false)]
pub fn decode_hyperlink_reference(j: &JsonValue) -> (r: Result<HyperlinkReference, DecodeError>)
    ensures
        r is Ok <==> hyperlink_reference_wf(jview(*j)),
        r matches Ok(w) ==> (jview(*j) matches Json::Obj(fields)
            && hyperlink_reference_fields_match(fields, w)),
        r matches Err(e) ==> hyperlink_reference_err_ok(jview(*j), e),
{
    let fields = match j {
        JsonValue::Obj(fields) => fields,
        _ => {
            return Err(root_error("an object"));
        },
    };
    let ghost gf = jview(*j)->Obj_0;
    let title = match j.get("title") {
        Some(JsonValue::Str(s)) => s.clone(),
        _ => {
            return Err(field_error("title", "a string"));
        },
    };
    let url = match j.get("url") {
        Some(JsonValue::Str(s)) => s.clone(),
        _ => {
            return Err(field_error("url", "a string"));
        },
    };
    Ok(HyperlinkReference { title, url })
}

/// The wire image of a record is well formed and matched by the
/// record itself: encoding loses nothing that decoding reads.
pub proof fn lemma_hyperlink_reference_image(v: HyperlinkReference)
    ensures
        hyperlink_reference_wf(hyperlink_reference_json(v)),
        hyperlink_reference_json(v) matches Json::Obj(fields) && hyperlink_reference_fields_match(fields, v),
{
    reveal_strlit("title");
    reveal_strlit("url");
    let fields = hyperlink_reference_json(v)->Obj_0;
    assert("title"@.len() == 5);
    assert("url"@.len() == 3);
    assert("title"@ != "url"@);
    lemma_lookup_at(fields, 0);
    lemma_lookup_at(fields, 1);
}

/// Decoding the encoded image of a record yields a record whose
/// every field carries the same content as the one encoded.
pub proof fn lemma_hyperlink_reference_round_trip(v: HyperlinkReference, w: HyperlinkReference)
    requires
        hyperlink_reference_json(v) matches Json::Obj(fields) && hyperlink_reference_fields_match(fields, w),
    ensures
        hyperlink_reference_wf(hyperlink_reference_json(v)),
        w.title@ == v.title@,
        w.url@ == v.url@,
{
    lemma_hyperlink_reference_image(v);
    let fields = hyperlink_reference_json(v)->Obj_0;
    reveal_strlit("title");
    reveal_strlit("url");
    assert("title"@.len() == 5);
    assert("url"@.len() == 3);
    assert("title"@ != "url"@);
    lemma_lookup_at(fields, 0);
    lemma_lookup_at(fields, 1);
}

/// The wire image of this record.
pub open spec fn destiny_color_json(v: DestinyColor) -> Json {
    Json::Obj(
        seq![
            ("red"@, Json::Int(v.red as int)),
            ("green"@, Json::Int(v.green as int)),
            ("blue"@, Json::Int(v.blue as int)),
            ("alpha"@, Json::Int(v.alpha as int)),
        ],
    )
}

/// Whether a document decodes as this record: unknown fields are tolerated.
pub open spec fn destiny_color_wf(j: Json) -> bool {
    &&& j matches Json::Obj(fields)
    &&& spec_lookup(fields, "red"@) matches Some(Json::Int(n)) && 0 <= n <= u8::MAX as int
    &&& spec_lookup(fields, "green"@) matches Some(Json::Int(n)) && 0 <= n <= u8::MAX as int
    &&& spec_lookup(fields, "blue"@) matches Some(Json::Int(n)) && 0 <= n <= u8::MAX as int
    &&& spec_lookup(fields, "alpha"@) matches Some(Json::Int(n)) && 0 <= n <= u8::MAX as int
}

/// How a decoded record relates to the document it came from.
pub open spec fn destiny_color_fields_match(fields: Seq<(Seq<char>, Json)>, w: DestinyColor) -> bool {
    &&& spec_lookup(fields, "red"@) == Some(Json::Int(w.red as int))
    &&& spec_lookup(fields, "green"@) == Some(Json::Int(w.green as int))
    &&& spec_lookup(fields, "blue"@) == Some(Json::Int(w.blue as int))
    &&& spec_lookup(fields, "alpha"@) == Some(Json::Int(w.alpha as int))
}

/// What a decode failure names: its path points at a field of the
/// document that is indeed not decodable, and an undeclared
/// enumeration code is reported with the enumeration's own message.
pub open spec fn destiny_color_err_ok(j: Json, e: DecodeError) -> bool {
    &&& !(j matches Json::Obj(_)) ==> e.path@.len() == 0
    &&& j matches Json::Obj(fields) ==> (
        (e.path@ == "red"@ && !(spec_lookup(fields, "red"@) matches Some(Json::Int(n)) && 0 <= n <= u8::MAX as int))
        || (e.path@ == "green"@ && !(spec_lookup(fields, "green"@) matches Some(Json::Int(n)) && 0 <= n <= u8::MAX as int))
        || (e.path@ == "blue"@ && !(spec_lookup(fields, "blue"@) matches Some(Json::Int(n)) && 0 <= n <= u8::MAX as int))
        || (e.path@ == "alpha"@ && !(spec_lookup(fields, "alpha"@) matches Some(Json::Int(n)) && 0 <= n <= u8::MAX as int)))
}

pub fn encode_destiny_color(v: &DestinyColor) -> (r: JsonValue)
    ensures
        jview(r) == destiny_color_json(*v),
{
    let mut fields: Vec<(String, JsonValue)> = Vec::new();
    fields.push(("red".to_owned(), JsonValue::Int(v.red as i64)));
    fields.push(("green".to_owned(), JsonValue::Int(v.green as i64)));
    fields.push(("blue".to_owned(), JsonValue::Int(v.blue as i64)));
    fields.push(("alpha".to_owned(), JsonValue::Int(v.alpha as i64)));
    let r = JsonValue::Obj(fields);
    proof {
        assert(jview(fields@[0].1) == destiny_color_json(*v)->Obj_0[0].1);
        assert(jview(fields@[1].1) == destiny_color_json(*v)->Obj_0[1].1);
        assert(jview(fields@[2].1) == destiny_color_json(*v)->Obj_0[2].1);
        assert(jview(fields@[3].1) == destiny_color_json(*v)->Obj_0[3].1);
        assert(jview(r)->Obj_0 =~= destiny_color_json(*v)->Obj_0);
    }
    r
}

/// Decodes this record; a failure names the offending field in its
/// path and says what was expected of it.
#[verifier::loop_isolation(false)]
pub fn decode_destiny_color(j: &JsonValue) -> (r: Result<DestinyColor, DecodeError>)
    ensures
        r is Ok <==> destiny_color_wf(jview(*j)),
        r matches Ok(w) ==> (jview(*j) matches Json::Obj(fields)
            && destiny_color_fields_match(fields, w)),
        r matches Err(e) ==> destiny_color_err_ok(jview(*j), e),
{
    let fields = match j {
        JsonValue::Obj(fields) => fields,
        _ => {
            return Err(root_error("an object"));
        },
    };
    let ghost gf = jview(*j)->Obj_0;
    let red = match j.get("red") {
        Some(v) => match v.to_i64() {
            Some(n) if 0 <= n && n <= u8::MAX as i64 => n as u8,
            _ => {
                return Err(field_error("red", "an 8-bit unsigned integer"));
            },
        },
        _ => {
            return Err(field_error("red", "an 8-bit unsigned integer"));
        },
    };
    let green = match j.get("green") {
        Some(v) => match v.to_i64() {
            Some(n) if 0 <= n && n <= u8::MAX as i64 => n as u8,
            _ => {
                return Err(field_error("green", "an 8-bit unsigned integer"));
            },
        },
        _ => {
            return Err(field_error("green", "an 8-bit unsigned integer"));
        },
    };
    let blue = match j.get("blue") {
        Some(v) => match v.to_i64() {
            Some(n) if 0 <= n && n <= u8::MAX as i64 => n as u8,
            _ => {
                return Err(field_error("blue", "an 8-bit unsigned integer"));
            },
        },
        _ => {
            return Err(field_error("blue", "an 8-bit unsigned integer"));
        },
    };
    let alpha = match j.get("alpha") {
        Some(v) => match v.to_i64() {
            Some(n) if 0 <= n && n <= u8::MAX as i64 => n as u8,
            _ => {
                return Err(field_error("alpha", "an 8-bit unsigned integer"));
            },
        },
        _ => {
            return Err(field_error("alpha", "an 8-bit unsigned integer"));
        },
    };
    Ok(DestinyColor { red, green, blue, alpha })
}

/// The wire image of a record is well formed and matched by the
/// record itself: encoding loses nothing that decoding reads.
pub proof fn lemma_destiny_color_image(v: DestinyColor)
    ensures
        destiny_color_wf(destiny_color_json(v)),
        destiny_color_json(v) matches Json::Obj(fields) && destiny_color_fields_match(fields, v),
{
    reveal_strlit("red");
    reveal_strlit("green");
    reveal_strlit("blue");
    reveal_strlit("alpha");
    let fields = destiny_color_json(v)->Obj_0;
    assert("red"@.len() == 3);
    assert("green"@.len() == 5);
    assert("blue"@.len() == 4);
    assert("alpha"@.len() == 5);
    assert("red"@ != "green"@);
    assert("red"@ != "blue"@);
    assert("red"@ != "alpha"@);
    assert("green"@ != "blue"@);
    assert(("green"@)[0] != ("alpha"@)[0]);
    assert("green"@ != "alpha"@);
    assert("blue"@ != "alpha"@);
    lemma_lookup_at(fields, 0);
    lemma_lookup_at(fields, 1);
    lemma_lookup_at(fields, 2);
    lemma_lookup_at(fields, 3);
}

/// Decoding the encoded image of a record yields a record whose
/// every field carries the same content as the one encoded.
pub proof fn lemma_destiny_color_round_trip(v: DestinyColor, w: DestinyColor)
    requires
        destiny_color_json(v) matches Json::Obj(fields) && destiny_color_fields_match(fields, w),
    ensures
        destiny_color_wf(destiny_color_json(v)),
        w.red == v.red,
        w.green == v.green,
        w.blue == v.blue,
        w.alpha == v.alpha,
{
    lemma_destiny_color_image(v);
    let fields = destiny_color_json(v)->Obj_0;
    reveal_strlit("red");
    reveal_strlit("green");
    reveal_strlit("blue");
    reveal_strlit("alpha");
    assert("red"@.len() == 3);
    assert("green"@.len() == 5);
    assert("blue"@.len() == 4);
    assert("alpha"@.len() == 5);
    assert("red"@ != "green"@);
    assert("red"@ != "blue"@);
    assert("red"@ != "alpha"@);
    assert("green"@ != "blue"@);
    assert(("green"@)[0] != ("alpha"@)[0]);
    assert("green"@ != "alpha"@);
    assert("blue"@ != "alpha"@);
    lemma_lookup_at(fields, 0);
    lemma_lookup_at(fields, 1);
    lemma_lookup_at(fields, 2);
    lemma_lookup_at(fields, 3);
}

/// The wire image of this record.
pub open spec fn destiny_progression_reset_entry_json(v: DestinyProgressionResetEntry) -> Json {
    Json::Obj(
        seq![
            ("season"@, Json::Int(v.season as int)),
            ("resets"@, Json::Int(v.resets as int)),
        ],
    )
}

/// Whether a document decodes as this record: unknown fields are tolerated.
pub open spec fn destiny_progression_reset_entry_wf(j: Json) -> bool {
    &&& j matches Json::Obj(fields)
    &&& spec_lookup(fields, "season"@) matches Some(Json::Int(n)) && i32::MIN as int <= n <= i32::MAX as int
    &&& spec_lookup(fields, "resets"@) matches Some(Json::Int(n)) && i32::MIN as int <= n <= i32::MAX as int
}

/// How a decoded record relates to the document it came from.
pub open spec fn destiny_progression_reset_entry_fields_match(fields: Seq<(Seq<char>, Json)>, w: DestinyProgressionResetEntry) -> bool {
    &&& spec_lookup(fields, "season"@) == Some(Json::Int(w.season as int))
    &&& spec_lookup(fields, "resets"@) == Some(Json::Int(w.resets as int))
}

/// What a decode failure names: its path points at a field of the
/// document that is indeed not decodable, and an undeclared
/// enumeration code is reported with the enumeration's own message.
pub open spec fn destiny_progression_reset_entry_err_ok(j: Json, e: DecodeError) -> bool {
    &&& !(j matches Json::Obj(_)) ==> e.path@.len() == 0
    &&& j matches Json::Obj(fields) ==> (
        (e.path@ == "season"@ && !(spec_lookup(fields, "season"@) matches Some(Json::Int(n)) && i32::MIN as int <= n <= i32::MAX as int))
        || (e.path@ == "resets"@ && !(spec_lookup(fields, "resets"@) matches Some(Json::Int(n)) && i32::MIN as int <= n <= i32::MAX as int)))
}

pub fn encode_destiny_progression_reset_entry(v: &DestinyProgressionResetEntry) -> (r: JsonValue)
    ensures
        jview(r) == destiny_progression_reset_entry_json(*v),
{
    let mut fields: Vec<(String, JsonValue)> = Vec::new();
    fields.push(("season".to_owned(), JsonValue::Int(v.season as i64)));
    fields.push(("resets".to_owned(), JsonValue::Int(v.resets as i64)));
    let r = JsonValue::Obj(fields);
    proof {
        assert(jview(fields@[0].1) == destiny_progression_reset_entry_json(*v)->Obj_0[0].1);
        assert(jview(fields@[1].1) == destiny_progression_reset_entry_json(*v)->Obj_0[1].1);
        assert(jview(r)->Obj_0 =~= destiny_progression_reset_entry_json(*v)->Obj_0);
    }
    r
}

/// Decodes this record; a failure names the offending field in its
/// path and says what was expected of it.
#[verifier::loop_isolation(false)]
pub fn decode_destiny_progression_reset_entry(j: &JsonValue) -> (r: Result<DestinyProgressionResetEntry, DecodeError>)
    ensures
        r is Ok <==> destiny_progression_reset_entry_wf(jview(*j)),
        r matches Ok(w) ==> (jview(*j) matches Json::Obj(fields)
            && destiny_progression_reset_entry_fields_match(fields, w)),
        r matches Err(e) ==> destiny_progression_reset_entry_err_ok(jview(*j), e),
{
    let fields = match j {
        JsonValue::Obj(fields) => fields,
        _ => {
            return Err(root_error("an object"));
        },
    };
    let ghost gf = jview(*j)->Obj_0;
    let season = match j.get("season") {
        Some(v) => match v.to_i64() {
            Some(n) if i32::MIN as i64 <= n && n <= i32::MAX as i64 => n as i32,
            _ => {
                return Err(field_error("season", "a 32-bit integer"));
            },
        },
        _ => {
            return Err(field_error("season", "a 32-bit integer"));
        },
    };
    let resets = match j.get("resets") {
        Some(v) => match v.to_i64() {
            Some(n) if i32::MIN as i64 <= n && n <= i32::MAX as i64 => n as i32,
            _ => {
                return Err(field_error("resets", "a 32-bit integer"));
            },
        },
        _ => {
            return Err(field_error("resets", "a 32-bit integer"));
        },
    };
    Ok(DestinyProgressionResetEntry { season, resets })
}

/// The wire image of a record is well formed and matched by the
/// record itself: encoding loses nothing that decoding reads.
pub proof fn lemma_destiny_progression_reset_entry_image(v: DestinyProgressionResetEntry)
    ensures
        destiny_progression_reset_entry_wf(destiny_progression_reset_entry_json(v)),
        destiny_progression_reset_entry_json(v) matches Json::Obj(fields) && destiny_progression_reset_entry_fields_match(fields, v),
{
    reveal_strlit("season");
    reveal_strlit("resets");
    let fields = destiny_progression_reset_entry_json(v)->Obj_0;
    assert("season"@.len() == 6);
    assert("resets"@.len() == 6);
    assert(("season"@)[0] != ("resets"@)[0]);
    assert("season"@ != "resets"@);
    lemma_lookup_at(fields, 0);
    lemma_lookup_at(fields, 1);
}

/// Decoding the encoded image of a record yields a record whose
/// every field carries the same content as the one encoded.
pub proof fn lemma_destiny_progression_reset_entry_round_trip(v: DestinyProgressionResetEntry, w: DestinyProgressionResetEntry)
    requires
        destiny_progression_reset_entry_json(v) matches Json::Obj(fields) && destiny_progression_reset_entry_fields_match(fields, w),
    ensures
        destiny_progression_reset_entry_wf(destiny_progression_reset_entry_json(v)),
        w.season == v.season,
        w.resets == v.resets,
{
    lemma_destiny_progression_reset_entry_image(v);
    let fields = destiny_progression_reset_entry_json(v)->Obj_0;
    reveal_strlit("season");
    reveal_strlit("resets");
    assert("season"@.len() == 6);
    assert("resets"@.len() == 6);
    assert(("season"@)[0] != ("resets"@)[0]);
    assert("season"@ != "resets"@);
    lemma_lookup_at(fields, 0);
    lemma_lookup_at(fields, 1);
}

/// The wire image of this record.
pub open spec fn destiny_item_quantity_json(v: DestinyItemQuantity) -> Json {
    Json::Obj(
        seq![
            ("itemHash"@, Json::Int(v.item_hash as int)),
            ("itemInstanceId"@, (match v.item_instance_id { Some(x) => Json::Int(x as int), Option::None => Json::Null })),
            ("quantity"@, Json::Int(v.quantity as int)),
            ("hasConditionalVisibility"@, Json::Bool(v.has_conditional_visibility)),
        ],
    )
}

/// Whether a document decodes as this record: an object with exactly these fields.
pub open spec fn destiny_item_quantity_wf(j: Json) -> bool {
    &&& j matches Json::Obj(fields)
    &&& spec_lookup(fields, "itemHash"@) matches Some(Json::Int(n)) && 0 <= n <= u32::MAX as int
    &&& match spec_lookup(fields, "itemInstanceId"@) { Option::None => true, Some(Json::Null) => true, Some(Json::Int(n)) => i64::MIN <= n <= i64::MAX, _ => false }
    &&& spec_lookup(fields, "quantity"@) matches Some(Json::Int(n)) && i32::MIN as int <= n <= i32::MAX as int
    &&& spec_lookup(fields, "hasConditionalVisibility"@) matches Some(Json::Bool(_))
    &&& forall|i: int| 0 <= i < fields.len()
        ==> ((#[trigger] fields[i]).0 == "itemHash"@ || fields[i].0 == "itemInstanceId"@ || fields[i].0 == "quantity"@ || fields[i].0 == "hasConditionalVisibility"@)
}

/// How a decoded record relates to the document it came from.
pub open spec fn destiny_item_quantity_fields_match(fields: Seq<(Seq<char>, Json)>, w: DestinyItemQuantity) -> bool {
    &&& spec_lookup(fields, "itemHash"@) == Some(Json::Int(w.item_hash as int))
    &&& match w.item_instance_id { Some(x) => spec_lookup(fields, "itemInstanceId"@) == Some(Json::Int(x as int)), Option::None => spec_lookup(fields, "itemInstanceId"@) is None || spec_lookup(fields, "itemInstanceId"@) == Some(Json::Null) }
    &&& spec_lookup(fields, "quantity"@) == Some(Json::Int(w.quantity as int))
    &&& spec_lookup(fields, "hasConditionalVisibility"@) == Some(Json::Bool(w.has_conditional_visibility))
}

/// What a decode failure names: its path points at a field of the
/// document that is indeed not decodable, and an undeclared
/// enumeration code is reported with the enumeration's own message.
pub open spec fn destiny_item_quantity_err_ok(j: Json, e: DecodeError) -> bool {
    &&& !(j matches Json::Obj(_)) ==> e.path@.len() == 0
    &&& j matches Json::Obj(fields) ==> (
        (e.path@ == "itemHash"@ && !(spec_lookup(fields, "itemHash"@) matches Some(Json::Int(n)) && 0 <= n <= u32::MAX as int))
        || (e.path@ == "itemInstanceId"@ && !(match spec_lookup(fields, "itemInstanceId"@) { Option::None => true, Some(Json::Null) => true, Some(Json::Int(n)) => i64::MIN <= n <= i64::MAX, _ => false }))
        || (e.path@ == "quantity"@ && !(spec_lookup(fields, "quantity"@) matches Some(Json::Int(n)) && i32::MIN as int <= n <= i32::MAX as int))
        || (e.path@ == "hasConditionalVisibility"@ && !(spec_lookup(fields, "hasConditionalVisibility"@) matches Some(Json::Bool(_))))
        || (exists|i: int| 0 <= i < fields.len() && (#[trigger] fields[i]).0 == e.path@ && !((fields[i].0 == "itemHash"@ || fields[i].0 == "itemInstanceId"@ || fields[i].0 == "quantity"@ || fields[i].0 == "hasConditionalVisibility"@))))
}

pub fn encode_destiny_item_quantity(v: &DestinyItemQuantity) -> (r: JsonValue)
    ensures
        jview(r) == destiny_item_quantity_json(*v),
{
    let mut fields: Vec<(String, JsonValue)> = Vec::new();
    fields.push(("itemHash".to_owned(), JsonValue::Int(v.item_hash as i64)));
    fields.push(("itemInstanceId".to_owned(), match &v.item_instance_id {
        Some(x) => JsonValue::Int(*x as i64),
        Option::None => JsonValue::Null,
    }));
    fields.push(("quantity".to_owned(), JsonValue::Int(v.quantity as i64)));
    fields.push(("hasConditionalVisibility".to_owned(), JsonValue::Bool(v.has_conditional_visibility)));
    let r = JsonValue::Obj(fields);
    proof {
        assert(jview(fields@[0].1) == destiny_item_quantity_json(*v)->Obj_0[0].1);
        assert(jview(fields@[1].1) == destiny_item_quantity_json(*v)->Obj_0[1].1);
        assert(jview(fields@[2].1) == destiny_item_quantity_json(*v)->Obj_0[2].1);
        assert(jview(fields@[3].1) == destiny_item_quantity_json(*v)->Obj_0[3].1);
        assert(jview(r)->Obj_0 =~= destiny_item_quantity_json(*v)->Obj_0);
    }
    r
}

/// Decodes this record; a failure names the offending field in its
/// path and says what was expected of it.
#[verifier::loop_isolation(false)]
pub fn decode_destiny_item_quantity(j: &JsonValue) -> (r: Result<DestinyItemQuantity, DecodeError>)
    ensures
        r is Ok <==> destiny_item_quantity_wf(jview(*j)),
        r matches Ok(w) ==> (jview(*j) matches Json::Obj(fields)
            && destiny_item_quantity_fields_match(fields, w)),
        r matches Err(e) ==> destiny_item_quantity_err_ok(jview(*j), e),
{
    let fields = match j {
        JsonValue::Obj(fields) => fields,
        _ => {
            return Err(root_error("an object"));
        },
    };
    let ghost gf = jview(*j)->Obj_0;
    let item_hash = match j.get("itemHash") {
        Some(v) => match v.to_i64() {
            Some(n) if 0 <= n && n <= u32::MAX as i64 => n as u32,
            _ => {
                return Err(field_error("itemHash", "a 32-bit unsigned integer"));
            },
        },
        _ => {
            return Err(field_error("itemHash", "a 32-bit unsigned integer"));
        },
    };
    let item_instance_id = match j.get("itemInstanceId") {
        Option::None => Option::None,
        Some(JsonValue::Null) => Option::None,
        Some(v) => match v.to_i64() {
            Some(n) => Some(n),
            _ => {
                return Err(field_error("itemInstanceId", "a 64-bit integer or null"));
            },
        },
    };
    let quantity = match j.get("quantity") {
        Some(v) => match v.to_i64() {
            Some(n) if i32::MIN as i64 <= n && n <= i32::MAX as i64 => n as i32,
            _ => {
                return Err(field_error("quantity", "a 32-bit integer"));
            },
        },
        _ => {
            return Err(field_error("quantity", "a 32-bit integer"));
        },
    };
    let has_conditional_visibility = match j.get("hasConditionalVisibility") {
        Some(JsonValue::Bool(b)) => *b,
        _ => {
            return Err(field_error("hasConditionalVisibility", "a boolean"));
        },
    };
    let mut i: usize = 0;
    while i < fields.len()
        invariant
            i <= fields.len(),
            gf.len() == fields@.len(),
            forall|k: int| 0 <= k < gf.len()
                ==> #[trigger] gf[k] == (fields@[k].0@, jview(fields@[k].1)),
            forall|k: int| 0 <= k < i
                ==> ((#[trigger] gf[k]).0 == "itemHash"@ || gf[k].0 == "itemInstanceId"@ || gf[k].0 == "quantity"@ || gf[k].0 == "hasConditionalVisibility"@),
        decreases fields.len() - i,
    {
        let name = fields[i].0.as_str();
        if !(str_eq(name, "itemHash") || str_eq(name, "itemInstanceId") || str_eq(name, "quantity") || str_eq(name, "hasConditionalVisibility")) {
            proof {
                assert(gf[i as int].0 == fields@[i as int].0@);
                assert(!destiny_item_quantity_wf(jview(*j)));
            }
            return Err(field_error(fields[i].0.as_str(), "an unknown field"));
        }
        i = i + 1;
    }
    Ok(DestinyItemQuantity { item_hash, item_instance_id, quantity, has_conditional_visibility })
}

/// The wire image of a record is well formed and matched by the
/// record itself: encoding loses nothing that decoding reads.
pub proof fn lemma_destiny_item_quantity_image(v: DestinyItemQuantity)
    ensures
        destiny_item_quantity_wf(destiny_item_quantity_json(v)),
        destiny_item_quantity_json(v) matches Json::Obj(fields) && destiny_item_quantity_fields_match(fields, v),
{
    reveal_strlit("itemHash");
    reveal_strlit("itemInstanceId");
    reveal_strlit("quantity");
    reveal_strlit("hasConditionalVisibility");
    let fields = destiny_item_quantity_json(v)->Obj_0;
    assert("itemHash"@.len() == 8);
    assert("itemInstanceId"@.len() == 14);
    assert("quantity"@.len() == 8);
    assert("hasConditionalVisibility"@.len() == 24);
    assert("itemHash"@ != "itemInstanceId"@);
    assert(("itemHash"@)[0] != ("quantity"@)[0]);
    assert("itemHash"@ != "quantity"@);
    assert("itemHash"@ != "hasConditionalVisibility"@);
    assert("itemInstanceId"@ != "quantity"@);
    assert("itemInstanceId"@ != "hasConditionalVisibility"@);
    assert("quantity"@ != "hasConditionalVisibility"@);
    lemma_lookup_at(fields, 0);
    lemma_lookup_at(fields, 1);
    lemma_lookup_at(fields, 2);
    lemma_lookup_at(fields, 3);
}

/// Decoding the encoded image of a record yields a record whose
/// every field carries the same content as the one encoded.
pub proof fn lemma_destiny_item_quantity_round_trip(v: DestinyItemQuantity, w: DestinyItemQuantity)
    requires
        destiny_item_quantity_json(v) matches Json::Obj(fields) && destiny_item_quantity_fields_match(fields, w),
    ensures
        destiny_item_quantity_wf(destiny_item_quantity_json(v)),
        w.item_hash == v.item_hash,
        w.item_instance_id == v.item_instance_id,
        w.quantity == v.quantity,
        w.has_conditional_visibility == v.has_conditional_visibility,
{
    lemma_destiny_item_quantity_image(v);
    let fields = destiny_item_quantity_json(v)->Obj_0;
    reveal_strlit("itemHash");
    reveal_strlit("itemInstanceId");
    reveal_strlit("quantity");
    reveal_strlit("hasConditionalVisibility");
    assert("itemHash"@.len() == 8);
    assert("itemInstanceId"@.len() == 14);
    assert("quantity"@.len() == 8);
    assert("hasConditionalVisibility"@.len() == 24);
    assert("itemHash"@ != "itemInstanceId"@);
    assert(("itemHash"@)[0] != ("quantity"@)[0]);
    assert("itemHash"@ != "quantity"@);
    assert("itemHash"@ != "hasConditionalVisibility"@);
    assert("itemInstanceId"@ != "quantity"@);
    assert("itemInstanceId"@ != "hasConditionalVisibility"@);
    assert("quantity"@ != "hasConditionalVisibility"@);
    lemma_lookup_at(fields, 0);
    lemma_lookup_at(fields, 1);
    lemma_lookup_at(fields, 2);
    lemma_lookup_at(fields, 3);
}

/// The wire image of this record.
pub open spec fn destiny_unlock_status_json(v: DestinyUnlockStatus) -> Json {
    Json::Obj(
        seq![
            ("unlockHash"@, Json::Int(v.unlock_hash as int)),
            ("isSet"@, Json::Bool(v.is_set)),
        ],
    )
}

/// Whether a document decodes as this record: an object with exactly these fields.
pub open spec fn destiny_unlock_status_wf(j: Json) -> bool {
    &&& j matches Json::Obj(fields)
    &&& spec_lookup(fields, "unlockHash"@) matches Some(Json::Int(n)) && 0 <= n <= u32::MAX as int
    &&& spec_lookup(fields, "isSet"@) matches Some(Json::Bool(_))
    &&& forall|i: int| 0 <= i < fields.len()
        ==> ((#[trigger] fields[i]).0 == "unlockHash"@ || fields[i].0 == "isSet"@)
}

/// How a decoded record relates to the document it came from.
pub open spec fn destiny_unlock_status_fields_match(fields: Seq<(Seq<char>, Json)>, w: DestinyUnlockStatus) -> bool {
    &&& spec_lookup(fields, "unlockHash"@) == Some(Json::Int(w.unlock_hash as int))
    &&& spec_lookup(fields, "isSet"@) == Some(Json::Bool(w.is_set))
}

/// What a decode failure names: its path points at a field of the
/// document that is indeed not decodable, and an undeclared
/// enumeration code is reported with the enumeration's own message.
pub open spec fn destiny_unlock_status_err_ok(j: Json, e: DecodeError) -> bool {
    &&& !(j matches Json::Obj(_)) ==> e.path@.len() == 0
    &&& j matches Json::Obj(fields) ==> (
        (e.path@ == "unlockHash"@ && !(spec_lookup(fields, "unlockHash"@) matches Some(Json::Int(n)) && 0 <= n <= u32::MAX as int))
        || (e.path@ == "isSet"@ && !(spec_lookup(fields, "isSet"@) matches Some(Json::Bool(_))))
        || (exists|i: int| 0 <= i < fields.len() && (#[trigger] fields[i]).0 == e.path@ && !((fields[i].0 == "unlockHash"@ || fields[i].0 == "isSet"@))))
}

pub fn encode_destiny_unlock_status(v: &DestinyUnlockStatus) -> (r: JsonValue)
    ensures
        jview(r) == destiny_unlock_status_json(*v),
{
    let mut fields: Vec<(String, JsonValue)> = Vec::new();
    fields.push(("unlockHash".to_owned(), JsonValue::Int(v.unlock_hash as i64)));
    fields.push(("isSet".to_owned(), JsonValue::Bool(v.is_set)));
    let r = JsonValue::Obj(fields);
    proof {
        assert(jview(fields@[0].1) == destiny_unlock_status_json(*v)->Obj_0[0].1);
        assert(jview(fields@[1].1) == destiny_unlock_status_json(*v)->Obj_0[1].1);
        assert(jview(r)->Obj_0 =~= destiny_unlock_status_json(*v)->Obj_0);
    }
    r
}

/// Decodes this record; a failure names the offending field in its
/// path and says what was expected of it.
#[verifier::loop_isolation(false)]
pub fn decode_destiny_unlock_status(j: &JsonValue) -> (r: Result<DestinyUnlockStatus, DecodeError>)
    ensures
        r is Ok <==> destiny_unlock_status_wf(jview(*j)),
        r matches Ok(w) ==> (jview(*j) matches Json::Obj(fields)
            && destiny_unlock_status_fields_match(fields, w)),
        r matches Err(e) ==> destiny_unlock_status_err_ok(jview(*j), e),
{
    let fields = match j {
        JsonValue::Obj(fields) => fields,
        _ => {
            return Err(root_error("an object"));
        },
    };
    let ghost gf = jview(*j)->Obj_0;
    let unlock_hash = match j.get("unlockHash") {
        Some(v) => match v.to_i64() {
            Some(n) if 0 <= n && n <= u32::MAX as i64 => n as u32,
            _ => {
                return Err(field_error("unlockHash", "a 32-bit unsigned integer"));
            },
        },
        _ => {
            return Err(field_error("unlockHash", "a 32-bit unsigned integer"));
        },
    };
    let is_set = match j.get("isSet") {
        Some(JsonValue::Bool(b)) => *b,
        _ => {
            return Err(field_error("isSet", "a boolean"));
        },
    };
    let mut i: usize = 0;
    while i < fields.len()
        invariant
            i <= fields.len(),
            gf.len() == fields@.len(),
            forall|k: int| 0 <= k < gf.len()
                ==> #[trigger] gf[k] == (fields@[k].0@, jview(fields@[k].1)),
            forall|k: int| 0 <= k < i
                ==> ((#[trigger] gf[k]).0 == "unlockHash"@ || gf[k].0 == "isSet"@),
        decreases fields.len() - i,
    {
        let name = fields[i].0.as_str();
        if !(str_eq(name, "unlockHash") || str_eq(name, "isSet")) {
            proof {
                assert(gf[i as int].0 == fields@[i as int].0@);
                assert(!destiny_unlock_status_wf(jview(*j)));
            }
            return Err(field_error(fields[i].0.as_str(), "an unknown field"));
        }
        i = i + 1;
    }
    Ok(DestinyUnlockStatus { unlock_hash, is_set })
}

/// The wire image of a record is well formed and matched by the
/// record itself: encoding loses nothing that decoding reads.
pub proof fn lemma_destiny_unlock_status_image(v: DestinyUnlockStatus)
    ensures
        destiny_unlock_status_wf(destiny_unlock_status_json(v)),
        destiny_unlock_status_json(v) matches Json::Obj(fields) && destiny_unlock_status_fields_match(fields, v),
{
    reveal_strlit("unlockHash");
    reveal_strlit("isSet");
    let fields = destiny_unlock_status_json(v)->Obj_0;
    assert("unlockHash"@.len() == 10);
    assert("isSet"@.len() == 5);
    assert("unlockHash"@ != "isSet"@);
    lemma_lookup_at(fields, 0);
    lemma_lookup_at(fields, 1);
}

/// Decoding the encoded image of a record yields a record whose
/// every field carries the same content as the one encoded.
pub proof fn lemma_destiny_unlock_status_round_trip(v: DestinyUnlockStatus, w: DestinyUnlockStatus)
    requires
        destiny_unlock_status_json(v) matches Json::Obj(fields) && destiny_unlock_status_fields_match(fields, w),
    ensures
        destiny_unlock_status_wf(destiny_unlock_status_json(v)),
        w.unlock_hash == v.unlock_hash,
        w.is_set == v.is_set,
{
    lemma_destiny_unlock_status_image(v);
    let fields = destiny_unlock_status_json(v)->Obj_0;
    reveal_strlit("unlockHash");
    reveal_strlit("isSet");
    assert("unlockHash"@.len() == 10);
    assert("isSet"@.len() == 5);
    assert("unlockHash"@ != "isSet"@);
    lemma_lookup_at(fields, 0);
    lemma_lookup_at(fields, 1);
}

/// The wire image of this record.
pub open spec fn destiny_animation_reference_json(v: DestinyAnimationReference) -> Json {
    Json::Obj(
        seq![
            ("animName"@, Json::Str(v.anim_name@)),
            ("animIdentifier"@, Json::Str(v.anim_identifier@)),
            ("path"@, Json::Str(v.path@)),
        ],
    )
}

/// Whether a document decodes as this record: an object with exactly these fields.
pub open spec fn destiny_animation_reference_wf(j: Json) -> bool {
    &&& j matches Json::Obj(fields)
    &&& spec_lookup(fields, "animName"@) matches Some(Json::Str(_))
    &&& spec_lookup(fields, "animIdentifier"@) matches Some(Json::Str(_))
    &&& spec_lookup(fields, "path"@) matches Some(Json::Str(_))
    &&& forall|i: int| 0 <= i < fields.len()
        ==> ((#[trigger] fields[i]).0 == "animName"@ || fields[i].0 == "animIdentifier"@ || fields[i].0 == "path"@)
}

/// How a decoded record relates to the document it came from.
pub open spec fn destiny_animation_reference_fields_match(fields: Seq<(Seq<char>, Json)>, w: DestinyAnimationReference) -> bool {
    &&& spec_lookup(fields, "animName"@) == Some(Json::Str(w.anim_name@))
    &&& spec_lookup(fields, "animIdentifier"@) == Some(Json::Str(w.anim_identifier@))
    &&& spec_lookup(fields, "path"@) == Some(Json::Str(w.path@))
}

/// What a decode failure names: its path points at a field of the
/// document that is indeed not decodable, and an undeclared
/// enumeration code is reported with the enumeration's own message.
pub open spec fn destiny_animation_reference_err_ok(j: Json, e: DecodeError) -> bool {
    &&& !(j matches Json::Obj(_)) ==> e.path@.len() == 0
    &&& j matches Json::Obj(fields) ==> (
        (e.path@ == "animName"@ && !(spec_lookup(fields, "animName"@) matches Some(Json::Str(_))))
        || (e.path@ == "animIdentifier"@ && !(spec_lookup(fields, "animIdentifier"@) matches Some(Json::Str(_))))
        || (e.path@ == "path"@ && !(spec_lookup(fields, "path"@) matches Some(Json::Str(_))))
        || (exists|i: int| 0 <= i < fields.len() && (#[trigger] fields[i]).0 == e.path@ && !((fields[i].0 == "animName"@ || fields[i].0 == "animIdentifier"@ || fields[i].0 == "path"@))))
}

pub fn encode_destiny_animation_reference(v: &DestinyAnimationReference) -> (r: JsonValue)
    ensures
        jview(r) == destiny_animation_reference_json(*v),
{
    let mut fields: Vec<(String, JsonValue)> = Vec::new();
    fields.push(("animName".to_owned(), JsonValue::Str(v.anim_name.clone())));
    fields.push(("animIdentifier".to_owned(), JsonValue::Str(v.anim_identifier.clone())));
    fields.push(("path".to_owned(), JsonValue::Str(v.path.clone())));
    let r = JsonValue::Obj(fields);
    proof {
        assert(jview(fields@[0].1) == destiny_animation_reference_json(*v)->Obj_0[0].1);
        assert(jview(fields@[1].1) == destiny_animation_reference_json(*v)->Obj_0[1].1);
        assert(jview(fields@[2].1) == destiny_animation_reference_json(*v)->Obj_0[2].1);
        assert(jview(r)->Obj_0 =~= destiny_animation_reference_json(*v)->Obj_0);
    }
    r
}

/// Decodes this record; a failure names the offending field in its
/// path and says what was expected of it.
#[verifier::loop_isolation(false)]
pub fn decode_destiny_animation_reference(j: &JsonValue) -> (r: Result<DestinyAnimationReference, DecodeError>)
    ensures
        r is Ok <==> destiny_animation_reference_wf(jview(*j)),
        r matches Ok(w) ==> (jview(*j) matches Json::Obj(fields)
            && destiny_animation_reference_fields_match(fields, w)),
        r matches Err(e) ==> destiny_animation_reference_err_ok(jview(*j), e),
{
    let fields = match j {
        JsonValue::Obj(fields) => fields,
        _ => {
            return Err(root_error("an object"));
        },
    };
    let ghost gf = jview(*j)->Obj_0;
    let anim_name = match j.get("animName") {
        Some(JsonValue::Str(s)) => s.clone(),
        _ => {
            return Err(field_error("animName", "a string"));
        },
    };
    let anim_identifier = match j.get("animIdentifier") {
        Some(JsonValue::Str(s)) => s.clone(),
        _ => {
            return Err(field_error("animIdentifier", "a string"));
        },
    };
    let path = match j.get("path") {
        Some(JsonValue::Str(s)) => s.clone(),
        _ => {
            return Err(field_error("path", "a string"));
        },
    };
    let mut i: usize = 0;
    while i < fields.len()
        invariant
            i <= fields.len(),
            gf.len() == fields@.len(),
            forall|k: int| 0 <= k < gf.len()
                ==> #[trigger] gf[k] == (fields@[k].0@, jview(fields@[k].1)),
            forall|k: int| 0 <= k < i
                ==> ((#[trigger] gf[k]).0 == "animName"@ || gf[k].0 == "animIdentifier"@ || gf[k].0 == "path"@),
        decreases fields.len() - i,
    {
        let name = fields[i].0.as_str();
        if !(str_eq(name, "animName") || str_eq(name, "animIdentifier") || str_eq(name, "path")) {
            proof {
                assert(gf[i as int].0 == fields@[i as int].0@);
                assert(!destiny_animation_reference_wf(jview(*j)));
            }
            return Err(field_error(fields[i].0.as_str(), "an unknown field"));
        }
        i = i + 1;
    }
    Ok(DestinyAnimationReference { anim_name, anim_identifier, path })
}

/// The wire image of a record is well formed and matched by the
/// record itself: encoding loses nothing that decoding reads.
pub proof fn lemma_destiny_animation_reference_image(v: DestinyAnimationReference)
    ensures
        destiny_animation_reference_wf(destiny_animation_reference_json(v)),
        destiny_animation_reference_json(v) matches Json::Obj(fields) && destiny_animation_reference_fields_match(fields, v),
{
    reveal_strlit("animName");
    reveal_strlit("animIdentifier");
    reveal_strlit("path");
    let fields = destiny_animation_reference_json(v)->Obj_0;
    assert("animName"@.len() == 8);
    assert("animIdentifier"@.len() == 14);
    assert("path"@.len() == 4);
    assert("animName"@ != "animIdentifier"@);
    assert("animName"@ != "path"@);
    assert("animIdentifier"@ != "path"@);
    lemma_lookup_at(fields, 0);
    lemma_lookup_at(fields, 1);
    lemma_lookup_at(fields, 2);
}

/// Decoding the encoded image of a record yields a record whose
/// every field carries the same content as the one encoded.
pub proof fn lemma_destiny_animation_reference_round_trip(v: DestinyAnimationReference, w: DestinyAnimationReference)
    requires
        destiny_animation_reference_json(v) matches Json::Obj(fields) && destiny_animation_reference_fields_match(fields, w),
    ensures
        destiny_animation_reference_wf(destiny_animation_reference_json(v)),
        w.anim_name@ == v.anim_name@,
        w.anim_identifier@ == v.anim_identifier@,
        w.path@ == v.path@,
{
    lemma_destiny_animation_reference_image(v);
    let fields = destiny_animation_reference_json(v)->Obj_0;
    reveal_strlit("animName");
    reveal_strlit("animIdentifier");
    reveal_strlit("path");
    assert("animName"@.len() == 8);
    assert("animIdentifier"@.len() == 14);
    assert("path"@.len() == 4);
    assert("animName"@ != "animIdentifier"@);
    assert("animName"@ != "path"@);
    assert("animIdentifier"@ != "path"@);
    lemma_lookup_at(fields, 0);
    lemma_lookup_at(fields, 1);
    lemma_lookup_at(fields, 2);
}

/// The wire image of this record.
pub open spec fn destiny_perk_reference_json(v: DestinyPerkReference) -> Json {
    Json::Obj(
        seq![
            ("perkHash"@, Json::Int(v.perk_hash as int)),
            ("iconPath"@, Json::Str(v.icon_path@)),
            ("isActive"@, Json::Bool(v.is_active)),
            ("visible"@, Json::Bool(v.visible)),
        ],
    )
}

/// Whether a document decodes as this record: an object with exactly these fields.
pub open spec fn destiny_perk_reference_wf(j: Json) -> bool {
    &&& j matches Json::Obj(fields)
    &&& spec_lookup(fields, "perkHash"@) matches Some(Json::Int(n)) && 0 <= n <= u32::MAX as int
    &&& spec_lookup(fields, "iconPath"@) matches Some(Json::Str(_))
    &&& spec_lookup(fields, "isActive"@) matches Some(Json::Bool(_))
    &&& spec_lookup(fields, "visible"@) matches Some(Json::Bool(_))
    &&& forall|i: int| 0 <= i < fields.len()
        ==> ((#[trigger] fields[i]).0 == "perkHash"@ || fields[i].0 == "iconPath"@ || fields[i].0 == "isActive"@ || fields[i].0 == "visible"@)
}

/// How a decoded record relates to the document it came from.
pub open spec fn destiny_perk_reference_fields_match(fields: Seq<(Seq<char>, Json)>, w: DestinyPerkReference) -> bool {
    &&& spec_lookup(fields, "perkHash"@) == Some(Json::Int(w.perk_hash as int))
    &&& spec_lookup(fields, "iconPath"@) == Some(Json::Str(w.icon_path@))
    &&& spec_lookup(fields, "isActive"@) == Some(Json::Bool(w.is_active))
    &&& spec_lookup(fields, "visible"@) == Some(Json::Bool(w.visible))
}

/// What a decode failure names: its path points at a field of the
/// document that is indeed not decodable, and an undeclared
/// enumeration code is reported with the enumeration's own message.
pub open spec fn destiny_perk_reference_err_ok(j: Json, e: DecodeError) -> bool {
    &&& !(j matches Json::Obj(_)) ==> e.path@.len() == 0
    &&& j matches Json::Obj(fields) ==> (
        (e.path@ == "perkHash"@ && !(spec_lookup(fields, "perkHash"@) matches Some(Json::Int(n)) && 0 <= n <= u32::MAX as int))
        || (e.path@ == "iconPath"@ && !(spec_lookup(fields, "iconPath"@) matches Some(Json::Str(_))))
        || (e.path@ == "isActive"@ && !(spec_lookup(fields, "isActive"@) matches Some(Json::Bool(_))))
        || (e.path@ == "visible"@ && !(spec_lookup(fields, "visible"@) matches Some(Json::Bool(_))))
        || (exists|i: int| 0 <= i < fields.len() && (#[trigger] fields[i]).0 == e.path@ && !((fields[i].0 == "perkHash"@ || fields[i].0 == "iconPath"@ || fields[i].0 == "isActive"@ || fields[i].0 == "visible"@))))
}

pub fn encode_destiny_perk_reference(v: &DestinyPerkReference) -> (r: JsonValue)
    ensures
        jview(r) == destiny_perk_reference_json(*v),
{
    let mut fields: Vec<(String, JsonValue)> = Vec::new();
    fields.push(("perkHash".to_owned(), JsonValue::Int(v.perk_hash as i64)));
    fields.push(("iconPath".to_owned(), JsonValue::Str(v.icon_path.clone())));
    fields.push(("isActive".to_owned(), JsonValue::Bool(v.is_active)));
    fields.push(("visible".to_owned(), JsonValue::Bool(v.visible)));
    let r = JsonValue::Obj(fields);
    proof {
        assert(jview(fields@[0].1) == destiny_perk_reference_json(*v)->Obj_0[0].1);
        assert(jview(fields@[1].1) == destiny_perk_reference_json(*v)->Obj_0[1].1);
        assert(jview(fields@[2].1) == destiny_perk_reference_json(*v)->Obj_0[2].1);
        assert(jview(fields@[3].1) == destiny_perk_reference_json(*v)->Obj_0[3].1);
        assert(jview(r)->Obj_0 =~= destiny_perk_reference_json(*v)->Obj_0);
    }
    r
}

/// Decodes this record; a failure names the offending field in its
/// path and says what was expected of it.
#[verifier::loop_isolation(false)]
pub fn decode_destiny_perk_reference(j: &JsonValue) -> (r: Result<DestinyPerkReference, DecodeError>)
    ensures
        r is Ok <==> destiny_perk_reference_wf(jview(*j)),
        r matches Ok(w) ==> (jview(*j) matches Json::Obj(fields)
            && destiny_perk_reference_fields_match(fields, w)),
        r matches Err(e) ==> destiny_perk_reference_err_ok(jview(*j), e),
{
    let fields = match j {
        JsonValue::Obj(fields) => fields,
        _ => {
            return Err(root_error("an object"));
        },
    };
    let ghost gf = jview(*j)->Obj_0;
    let perk_hash = match j.get("perkHash") {
        Some(v) => match v.to_i64() {
            Some(n) if 0 <= n && n <= u32::MAX as i64 => n as u32,
            _ => {
                return Err(field_error("perkHash", "a 32-bit unsigned integer"));
            },
        },
        _ => {
            return Err(field_error("perkHash", "a 32-bit unsigned integer"));
        },
    };
    let icon_path = match j.get("iconPath") {
        Some(JsonValue::Str(s)) => s.clone(),
        _ => {
            return Err(field_error("iconPath", "a string"));
        },
    };
    let is_active = match j.get("isActive") {
        Some(JsonValue::Bool(b)) => *b,
        _ => {
            return Err(field_error("isActive", "a boolean"));
        },
    };
    let visible = match j.get("visible") {
        Some(JsonValue::Bool(b)) => *b,
        _ => {
            return Err(field_error("visible", "a boolean"));
        },
    };
    let mut i: usize = 0;
    while i < fields.len()
        invariant
            i <= fields.len(),
            gf.len() == fields@.len(),
            forall|k: int| 0 <= k < gf.len()
                ==> #[trigger] gf[k] == (fields@[k].0@, jview(fields@[k].1)),
            forall|k: int| 0 <= k < i
                ==> ((#[trigger] gf[k]).0 == "perkHash"@ || gf[k].0 == "iconPath"@ || gf[k].0 == "isActive"@ || gf[k].0 == "visible"@),
        decreases fields.len() - i,
    {
        let name = fields[i].0.as_str();
        if !(str_eq(name, "perkHash") || str_eq(name, "iconPath") || str_eq(name, "isActive") || str_eq(name, "visible")) {
            proof {
                assert(gf[i as int].0 == fields@[i as int].0@);
                assert(!destiny_perk_reference_wf(jview(*j)));
            }
            return Err(field_error(fields[i].0.as_str(), "an unknown field"));
        }
        i = i + 1;
    }
    Ok(DestinyPerkReference { perk_hash, icon_path, is_active, visible })
}

/// The wire image of a record is well formed and matched by the
/// record itself: encoding loses nothing that decoding reads.
pub proof fn lemma_destiny_perk_reference_image(v: DestinyPerkReference)
    ensures
        destiny_perk_reference_wf(destiny_perk_reference_json(v)),
        destiny_perk_reference_json(v) matches Json::Obj(fields) && destiny_perk_reference_fields_match(fields, v),
{
    reveal_strlit("perkHash");
    reveal_strlit("iconPath");
    reveal_strlit("isActive");
    reveal_strlit("visible");
    let fields = destiny_perk_reference_json(v)->Obj_0;
    assert("perkHash"@.len() == 8);
    assert("iconPath"@.len() == 8);
    assert("isActive"@.len() == 8);
    assert("visible"@.len() == 7);
    assert(("perkHash"@)[0] != ("iconPath"@)[0]);
    assert("perkHash"@ != "iconPath"@);
    assert(("perkHash"@)[0] != ("isActive"@)[0]);
    assert("perkHash"@ != "isActive"@);
    assert("perkHash"@ != "visible"@);
    assert(("iconPath"@)[1] != ("isActive"@)[1]);
    assert("iconPath"@ != "isActive"@);
    assert("iconPath"@ != "visible"@);
    assert("isActive"@ != "visible"@);
    lemma_lookup_at(fields, 0);
    lemma_lookup_at(fields, 1);
    lemma_lookup_at(fields, 2);
    lemma_lookup_at(fields, 3);
}

/// Decoding the encoded image of a record yields a record whose
/// every field carries the same content as the one encoded.
pub proof fn lemma_destiny_perk_reference_round_trip(v: DestinyPerkReference, w: DestinyPerkReference)
    requires
        destiny_perk_reference_json(v) matches Json::Obj(fields) && destiny_perk_reference_fields_match(fields, w),
    ensures
        destiny_perk_reference_wf(destiny_perk_reference_json(v)),
        w.perk_hash == v.perk_hash,
        w.icon_path@ == v.icon_path@,
        w.is_active == v.is_active,
        w.visible == v.visible,
{
    lemma_destiny_perk_reference_image(v);
    let fields = destiny_perk_reference_json(v)->Obj_0;
    reveal_strlit("perkHash");
    reveal_strlit("iconPath");
    reveal_strlit("isActive");
    reveal_strlit("visible");
    assert("perkHash"@.len() == 8);
    assert("iconPath"@.len() == 8);
    assert("isActive"@.len() == 8);
    assert("visible"@.len() == 7);
    assert(("perkHash"@)[0] != ("iconPath"@)[0]);
    assert("perkHash"@ != "iconPath"@);
    assert(("perkHash"@)[0] != ("isActive"@)[0]);
    assert("perkHash"@ != "isActive"@);
    assert("perkHash"@ != "visible"@);
    assert(("iconPath"@)[1] != ("isActive"@)[1]);
    assert("iconPath"@ != "isActive"@);
    assert("iconPath"@ != "visible"@);
    assert("isActive"@ != "visible"@);
    lemma_lookup_at(fields, 0);
    lemma_lookup_at(fields, 1);
    lemma_lookup_at(fields, 2);
    lemma_lookup_at(fields, 3);
}

/// The wire image of this record.
pub open spec fn destiny_material_requirement_json(v: DestinyMaterialRequirement) -> Json {
    Json::Obj(
        seq![
            ("itemHash"@, Json::Int(v.item_hash as int)),
            ("deleteOnAction"@, Json::Bool(v.delete_on_action)),
            ("count"@, Json::Int(v.count as int)),
            ("countIsConstant"@, Json::Bool(v.count_is_constant)),
            ("omitFromRequirements"@, Json::Bool(v.omit_from_requirements)),
        ],
    )
}

/// Whether a document decodes as this record: an object with exactly these fields.
pub open spec fn destiny_material_requirement_wf(j: Json) -> bool {
    &&& j matches Json::Obj(fields)
    &&& spec_lookup(fields, "itemHash"@) matches Some(Json::Int(n)) && 0 <= n <= u32::MAX as int
    &&& spec_lookup(fields, "deleteOnAction"@) matches Some(Json::Bool(_))
    &&& spec_lookup(fields, "count"@) matches Some(Json::Int(n)) && i32::MIN as int <= n <= i32::MAX as int
    &&& spec_lookup(fields, "countIsConstant"@) matches Some(Json::Bool(_))
    &&& spec_lookup(fields, "omitFromRequirements"@) matches Some(Json::Bool(_))
    &&& forall|i: int| 0 <= i < fields.len()
        ==> ((#[trigger] fields[i]).0 == "itemHash"@ || fields[i].0 == "deleteOnAction"@ || fields[i].0 == "count"@ || fields[i].0 == "countIsConstant"@ || fields[i].0 == "omitFromRequirements"@)
}

/// How a decoded record relates to the document it came from.
pub open spec fn destiny_material_requirement_fields_match(fields: Seq<(Seq<char>, Json)>, w: DestinyMaterialRequirement) -> bool {
    &&& spec_lookup(fields, "itemHash"@) == Some(Json::Int(w.item_hash as int))
    &&& spec_lookup(fields, "deleteOnAction"@) == Some(Json::Bool(w.delete_on_action))
    &&& spec_lookup(fields, "count"@) == Some(Json::Int(w.count as int))
    &&& spec_lookup(fields, "countIsConstant"@) == Some(Json::Bool(w.count_is_constant))
    &&& spec_lookup(fields, "omitFromRequirements"@) == Some(Json::Bool(w.omit_from_requirements))
}

/// What a decode failure names: its path points at a field of the
/// document that is indeed not decodable, and an undeclared
/// enumeration code is reported with the enumeration's own message.
pub open spec fn destiny_material_requirement_err_ok(j: Json, e: DecodeError) -> bool {
    &&& !(j matches Json::Obj(_)) ==> e.path@.len() == 0
    &&& j matches Json::Obj(fields) ==> (
        (e.path@ == "itemHash"@ && !(spec_lookup(fields, "itemHash"@) matches Some(Json::Int(n)) && 0 <= n <= u32::MAX as int))
        || (e.path@ == "deleteOnAction"@ && !(spec_lookup(fields, "deleteOnAction"@) matches Some(Json::Bool(_))))
        || (e.path@ == "count"@ && !(spec_lookup(fields, "count"@) matches Some(Json::Int(n)) && i32::MIN as int <= n <= i32::MAX as int))
        || (e.path@ == "countIsConstant"@ && !(spec_lookup(fields, "countIsConstant"@) matches Some(Json::Bool(_))))
        || (e.path@ == "omitFromRequirements"@ && !(spec_lookup(fields, "omitFromRequirements"@) matches Some(Json::Bool(_))))
        || (exists|i: int| 0 <= i < fields.len() && (#[trigger] fields[i]).0 == e.path@ && !((fields[i].0 == "itemHash"@ || fields[i].0 == "deleteOnAction"@ || fields[i].0 == "count"@ || fields[i].0 == "countIsConstant"@ || fields[i].0 == "omitFromRequirements"@))))
}

pub fn encode_destiny_material_requirement(v: &DestinyMaterialRequirement) -> (r: JsonValue)
    ensures
        jview(r) == destiny_material_requirement_json(*v),
{
    let mut fields: Vec<(String, JsonValue)> = Vec::new();
    fields.push(("itemHash".to_owned(), JsonValue::Int(v.item_hash as i64)));
    fields.push(("deleteOnAction".to_owned(), JsonValue::Bool(v.delete_on_action)));
    fields.push(("count".to_owned(), JsonValue::Int(v.count as i64)));
    fields.push(("countIsConstant".to_owned(), JsonValue::Bool(v.count_is_constant)));
    fields.push(("omitFromRequirements".to_owned(), JsonValue::Bool(v.omit_from_requirements)));
    let r = JsonValue::Obj(fields);
    proof {
        assert(jview(fields@[0].1) == destiny_material_requirement_json(*v)->Obj_0[0].1);
        assert(jview(fields@[1].1) == destiny_material_requirement_json(*v)->Obj_0[1].1);
        assert(jview(fields@[2].1) == destiny_material_requirement_json(*v)->Obj_0[2].1);
        assert(jview(fields@[3].1) == destiny_material_requirement_json(*v)->Obj_0[3].1);
        assert(jview(fields@[4].1) == destiny_material_requirement_json(*v)->Obj_0[4].1);
        assert(jview(r)->Obj_0 =~= destiny_material_requirement_json(*v)->Obj_0);
    }
    r
}

/// Decodes this record; a failure names the offending field in its
/// path and says what was expected of it.
#[verifier::loop_isolation(false)]
pub fn decode_destiny_material_requirement(j: &JsonValue) -> (r: Result<DestinyMaterialRequirement, DecodeError>)
    ensures
        r is Ok <==> destiny_material_requirement_wf(jview(*j)),
        r matches Ok(w) ==> (jview(*j) matches Json::Obj(fields)
            && destiny_material_requirement_fields_match(fields, w)),
        r matches Err(e) ==> destiny_material_requirement_err_ok(jview(*j), e),
{
    let fields = match j {
        JsonValue::Obj(fields) => fields,
        _ => {
            return Err(root_error("an object"));
        },
    };
    let ghost gf = jview(*j)->Obj_0;
    let item_hash = match j.get("itemHash") {
        Some(v) => match v.to_i64() {
            Some(n) if 0 <= n && n <= u32::MAX as i64 => n as u32,
            _ => {
                return Err(field_error("itemHash", "a 32-bit unsigned integer"));
            },
        },
        _ => {
            return Err(field_error("itemHash", "a 32-bit unsigned integer"));
        },
    };
    let delete_on_action = match j.get("deleteOnAction") {
        Some(JsonValue::Bool(b)) => *b,
        _ => {
            return Err(field_error("deleteOnAction", "a boolean"));
        },
    };
    let count = match j.get("count") {
        Some(v) => match v.to_i64() {
            Some(n) if i32::MIN as i64 <= n && n <= i32::MAX as i64 => n as i32,
            _ => {
                return Err(field_error("count", "a 32-bit integer"));
            },
        },
        _ => {
            return Err(field_error("count", "a 32-bit integer"));
        },
    };
    let count_is_constant = match j.get("countIsConstant") {
        Some(JsonValue::Bool(b)) => *b,
        _ => {
            return Err(field_error("countIsConstant", "a boolean"));
        },
    };
    let omit_from_requirements = match j.get("omitFromRequirements") {
        Some(JsonValue::Bool(b)) => *b,
        _ => {
            return Err(field_error("omitFromRequirements", "a boolean"));
        },
    };
    let mut i: usize = 0;
    while i < fields.len()
        invariant
            i <= fields.len(),
            gf.len() == fields@.len(),
            forall|k: int| 0 <= k < gf.len()
                ==> #[trigger] gf[k] == (fields@[k].0@, jview(fields@[k].1)),
            forall|k: int| 0 <= k < i
                ==> ((#[trigger] gf[k]).0 == "itemHash"@ || gf[k].0 == "deleteOnAction"@ || gf[k].0 == "count"@ || gf[k].0 == "countIsConstant"@ || gf[k].0 == "omitFromRequirements"@),
        decreases fields.len() - i,
    {
        let name = fields[i].0.as_str();
        if !(str_eq(name, "itemHash") || str_eq(name, "deleteOnAction") || str_eq(name, "count") || str_eq(name, "countIsConstant") || str_eq(name, "omitFromRequirements")) {
            proof {
                assert(gf[i as int].0 == fields@[i as int].0@);
                assert(!destiny_material_requirement_wf(jview(*j)));
            }
            return Err(field_error(fields[i].0.as_str(), "an unknown field"));
        }
        i = i + 1;
    }
    Ok(DestinyMaterialRequirement { item_hash, delete_on_action, count, count_is_constant, omit_from_requirements })
}

/// The wire image of a record is well formed and matched by the
/// record itself: encoding loses nothing that decoding reads.
pub proof fn lemma_destiny_material_requirement_image(v: DestinyMaterialRequirement)
    ensures
        destiny_material_requirement_wf(destiny_material_requirement_json(v)),
        destiny_material_requirement_json(v) matches Json::Obj(fields) && destiny_material_requirement_fields_match(fields, v),
{
    reveal_strlit("itemHash");
    reveal_strlit("deleteOnAction");
    reveal_strlit("count");
    reveal_strlit("countIsConstant");
    reveal_strlit("omitFromRequirements");
    let fields = destiny_material_requirement_json(v)->Obj_0;
    assert("itemHash"@.len() == 8);
    assert("deleteOnAction"@.len() == 14);
    assert("count"@.len() == 5);
    assert("countIsConstant"@.len() == 15);
    assert("omitFromRequirements"@.len() == 20);
    assert("itemHash"@ != "deleteOnAction"@);
    assert("itemHash"@ != "count"@);
    assert("itemHash"@ != "countIsConstant"@);
    assert("itemHash"@ != "omitFromRequirements"@);
    assert("deleteOnAction"@ != "count"@);
    assert("deleteOnAction"@ != "countIsConstant"@);
    assert("deleteOnAction"@ != "omitFromRequirements"@);
    assert("count"@ != "countIsConstant"@);
    assert("count"@ != "omitFromRequirements"@);
    assert("countIsConstant"@ != "omitFromRequirements"@);
    lemma_lookup_at(fields, 0);
    lemma_lookup_at(fields, 1);
    lemma_lookup_at(fields, 2);
    lemma_lookup_at(fields, 3);
    lemma_lookup_at(fields, 4);
}

/// Decoding the encoded image of a record yields a record whose
/// every field carries the same content as the one encoded.
pub proof fn lemma_destiny_material_requirement_round_trip(v: DestinyMaterialRequirement, w: DestinyMaterialRequirement)
    requires
        destiny_material_requirement_json(v) matches Json::Obj(fields) && destiny_material_requirement_fields_match(fields, w),
    ensures
        destiny_material_requirement_wf(destiny_material_requirement_json(v)),
        w.item_hash == v.item_hash,
        w.delete_on_action == v.delete_on_action,
        w.count == v.count,
        w.count_is_constant == v.count_is_constant,
        w.omit_from_requirements == v.omit_from_requirements,
{
    lemma_destiny_material_requirement_image(v);
    let fields = destiny_material_requirement_json(v)->Obj_0;
    reveal_strlit("itemHash");
    reveal_strlit("deleteOnAction");
    reveal_strlit("count");
    reveal_strlit("countIsConstant");
    reveal_strlit("omitFromRequirements");
    assert("itemHash"@.len() == 8);
    assert("deleteOnAction"@.len() == 14);
    assert("count"@.len() == 5);
    assert("countIsConstant"@.len() == 15);
    assert("omitFromRequirements"@.len() == 20);
    assert("itemHash"@ != "deleteOnAction"@);
    assert("itemHash"@ != "count"@);
    assert("itemHash"@ != "countIsConstant"@);
    assert("itemHash"@ != "omitFromRequirements"@);
    assert("deleteOnAction"@ != "count"@);
    assert("deleteOnAction"@ != "countIsConstant"@);
    assert("deleteOnAction"@ != "omitFromRequirements"@);
    assert("count"@ != "countIsConstant"@);
    assert("count"@ != "omitFromRequirements"@);
    assert("countIsConstant"@ != "omitFromRequirements"@);
    lemma_lookup_at(fields, 0);
    lemma_lookup_at(fields, 1);
    lemma_lookup_at(fields, 2);
    lemma_lookup_at(fields, 3);
    lemma_lookup_at(fields, 4);
}

/// The wire image of this record.
pub open spec fn destiny_item_socket_entry_plug_item_definition_json(v: DestinyItemSocketEntryPlugItemDefinition) -> Json {
    Json::Obj(
        seq![
            ("plugItemHash"@, Json::Int(v.plug_item_hash as int)),
        ],
    )
}

/// Whether a document decodes as this record: an object with exactly these fields.
pub open spec fn destiny_item_socket_entry_plug_item_definition_wf(j: Json) -> bool {
    &&& j matches Json::Obj(fields)
    &&& spec_lookup(fields, "plugItemHash"@) matches Some(Json::Int(n)) && 0 <= n <= u32::MAX as int
    &&& forall|i: int| 0 <= i < fields.len()
        ==> ((#[trigger] fields[i]).0 == "plugItemHash"@)
}

/// How a decoded record relates to the document it came from.
pub open spec fn destiny_item_socket_entry_plug_item_definition_fields_match(fields: Seq<(Seq<char>, Json)>, w: DestinyItemSocketEntryPlugItemDefinition) -> bool {
    &&& spec_lookup(fields, "plugItemHash"@) == Some(Json::Int(w.plug_item_hash as int))
}

/// What a decode failure names: its path points at a field of the
/// document that is indeed not decodable, and an undeclared
/// enumeration code is reported with the enumeration's own message.
pub open spec fn destiny_item_socket_entry_plug_item_definition_err_ok(j: Json, e: DecodeError) -> bool {
    &&& !(j matches Json::Obj(_)) ==> e.path@.len() == 0
    &&& j matches Json::Obj(fields) ==> (
        (e.path@ == "plugItemHash"@ && !(spec_lookup(fields, "plugItemHash"@) matches Some(Json::Int(n)) && 0 <= n <= u32::MAX as int))
        || (exists|i: int| 0 <= i < fields.len() && (#[trigger] fields[i]).0 == e.path@ && !((fields[i].0 == "plugItemHash"@))))
}

pub fn encode_destiny_item_socket_entry_plug_item_definition(v: &DestinyItemSocketEntryPlugItemDefinition) -> (r: JsonValue)
    ensures
        jview(r) == destiny_item_socket_entry_plug_item_definition_json(*v),
{
    let mut fields: Vec<(String, JsonValue)> = Vec::new();
    fields.push(("plugItemHash".to_owned(), JsonValue::Int(v.plug_item_hash as i64)));
    let r = JsonValue::Obj(fields);
    proof {
        assert(jview(fields@[0].1) == destiny_item_socket_entry_plug_item_definition_json(*v)->Obj_0[0].1);
        assert(jview(r)->Obj_0 =~= destiny_item_socket_entry_plug_item_definition_json(*v)->Obj_0);
    }
    r
}

/// Decodes this record; a failure names the offending field in its
/// path and says what was expected of it.
#[verifier::loop_isolation(false)]
pub fn decode_destiny_item_socket_entry_plug_item_definition(j: &JsonValue) -> (r: Result<DestinyItemSocketEntryPlugItemDefinition, DecodeError>)
    ensures
        r is Ok <==> destiny_item_socket_entry_plug_item_definition_wf(jview(*j)),
        r matches Ok(w) ==> (jview(*j) matches Json::Obj(fields)
            && destiny_item_socket_entry_plug_item_definition_fields_match(fields, w)),
        r matches Err(e) ==> destiny_item_socket_entry_plug_item_definition_err_ok(jview(*j), e),
{
    let fields = match j {
        JsonValue::Obj(fields) => fields,
        _ => {
            return Err(root_error("an object"));
        },
    };
    let ghost gf = jview(*j)->Obj_0;
    let plug_item_hash = match j.get("plugItemHash") {
        Some(v) => match v.to_i64() {
            Some(n) if 0 <= n && n <= u32::MAX as i64 => n as u32,
            _ => {
                return Err(field_error("plugItemHash", "a 32-bit unsigned integer"));
            },
        },
        _ => {
            return Err(field_error("plugItemHash", "a 32-bit unsigned integer"));
        },
    };
    let mut i: usize = 0;
    while i < fields.len()
        invariant
            i <= fields.len(),
            gf.len() == fields@.len(),
            forall|k: int| 0 <= k < gf.len()
                ==> #[trigger] gf[k] == (fields@[k].0@, jview(fields@[k].1)),
            forall|k: int| 0 <= k < i
                ==> ((#[trigger] gf[k]).0 == "plugItemHash"@),
        decreases fields.len() - i,
    {
        let name = fields[i].0.as_str();
        if !(str_eq(name, "plugItemHash")) {
            proof {
                assert(gf[i as int].0 == fields@[i as int].0@);
                assert(!destiny_item_socket_entry_plug_item_definition_wf(jview(*j)));
            }
            return Err(field_error(fields[i].0.as_str(), "an unknown field"));
        }
        i = i + 1;
    }
    Ok(DestinyItemSocketEntryPlugItemDefinition { plug_item_hash })
}

/// The wire image of a record is well formed and matched by the
/// record itself: encoding loses nothing that decoding reads.
pub proof fn lemma_destiny_item_socket_entry_plug_item_definition_image(v: DestinyItemSocketEntryPlugItemDefinition)
    ensures
        destiny_item_socket_entry_plug_item_definition_wf(destiny_item_socket_entry_plug_item_definition_json(v)),
        destiny_item_socket_entry_plug_item_definition_json(v) matches Json::Obj(fields) && destiny_item_socket_entry_plug_item_definition_fields_match(fields, v),
{
    reveal_strlit("plugItemHash");
    let fields = destiny_item_socket_entry_plug_item_definition_json(v)->Obj_0;
    assert("plugItemHash"@.len() == 12);
    lemma_lookup_at(fields, 0);
}

/// Decoding the encoded image of a record yields a record whose
/// every field carries the same content as the one encoded.
pub proof fn lemma_destiny_item_socket_entry_plug_item_definition_round_trip(v: DestinyItemSocketEntryPlugItemDefinition, w: DestinyItemSocketEntryPlugItemDefinition)
    requires
        destiny_item_socket_entry_plug_item_definition_json(v) matches Json::Obj(fields) && destiny_item_socket_entry_plug_item_definition_fields_match(fields, w),
    ensures
        destiny_item_socket_entry_plug_item_definition_wf(destiny_item_socket_entry_plug_item_definition_json(v)),
        w.plug_item_hash == v.plug_item_hash,
{
    lemma_destiny_item_socket_entry_plug_item_definition_image(v);
    let fields = destiny_item_socket_entry_plug_item_definition_json(v)->Obj_0;
    reveal_strlit("plugItemHash");
    assert("plugItemHash"@.len() == 12);
    lemma_lookup_at(fields, 0);
}

/// The wire image of this record.
pub open spec fn destiny_item_tooltip_notification_json(v: DestinyItemTooltipNotification) -> Json {
    Json::Obj(
        seq![
            ("displayString"@, Json::Str(v.display_string@)),
            ("displayStyle"@, Json::Str(v.display_style@)),
        ],
    )
}

/// Whether a document decodes as this record: an object with exactly these fields.
pub open spec fn destiny_item_tooltip_notification_wf(j: Json) -> bool {
    &&& j matches Json::Obj(fields)
    &&& spec_lookup(fields, "displayString"@) matches Some(Json::Str(_))
    &&& spec_lookup(fields, "displayStyle"@) matches Some(Json::Str(_))
    &&& forall|i: int| 0 <= i < fields.len()
        ==> ((#[trigger] fields[i]).0 == "displayString"@ || fields[i].0 == "displayStyle"@)
}

/// How a decoded record relates to the document it came from.
pub open spec fn destiny_item_tooltip_notification_fields_match(fields: Seq<(Seq<char>, Json)>, w: DestinyItemTooltipNotification) -> bool {
    &&& spec_lookup(fields, "displayString"@) == Some(Json::Str(w.display_string@))
    &&& spec_lookup(fields, "displayStyle"@) == Some(Json::Str(w.display_style@))
}

/// What a decode failure names: its path points at a field of the
/// document that is indeed not decodable, and an undeclared
/// enumeration code is reported with the enumeration's own message.
pub open spec fn destiny_item_tooltip_notification_err_ok(j: Json, e: DecodeError) -> bool {
    &&& !(j matches Json::Obj(_)) ==> e.path@.len() == 0
    &&& j matches Json::Obj(fields) ==> (
        (e.path@ == "displayString"@ && !(spec_lookup(fields, "displayString"@) matches Some(Json::Str(_))))
        || (e.path@ == "displayStyle"@ && !(spec_lookup(fields, "displayStyle"@) matches Some(Json::Str(_))))
        || (exists|i: int| 0 <= i < fields.len() && (#[trigger] fields[i]).0 == e.path@ && !((fields[i].0 == "displayString"@ || fields[i].0 == "displayStyle"@))))
}

pub fn encode_destiny_item_tooltip_notification(v: &DestinyItemTooltipNotification) -> (r: JsonValue)
    ensures
        jview(r) == destiny_item_tooltip_notification_json(*v),
{
    let mut fields: Vec<(String, JsonValue)> = Vec::new();
    fields.push(("displayString".to_owned(), JsonValue::Str(v.display_string.clone())));
    fields.push(("displayStyle".to_owned(), JsonValue::Str(v.display_style.clone())));
    let r = JsonValue::Obj(fields);
    proof {
        assert(jview(fields@[0].1) == destiny_item_tooltip_notification_json(*v)->Obj_0[0].1);
        assert(jview(fields@[1].1) == destiny_item_tooltip_notification_json(*v)->Obj_0[1].1);
        assert(jview(r)->Obj_0 =~= destiny_item_tooltip_notification_json(*v)->Obj_0);
    }
    r
}

/// Decodes this record; a failure names the offending field in its
/// path and says what was expected of it.
#[verifier::loop_isolation(false)]
pub fn decode_destiny_item_tooltip_notification(j: &JsonValue) -> (r: Result<DestinyItemTooltipNotification, DecodeError>)
    ensures
        r is Ok <==> destiny_item_tooltip_notification_wf(jview(*j)),
        r matches Ok(w) ==> (jview(*j) matches Json::Obj(fields)
            && destiny_item_tooltip_notification_fields_match(fields, w)),
        r matches Err(e) ==> destiny_item_tooltip_notification_err_ok(jview(*j), e),
{
    let fields = match j {
        JsonValue::Obj(fields) => fields,
        _ => {
            return Err(root_error("an object"));
        },
    };
    let ghost gf = jview(*j)->Obj_0;
    let display_string = match j.get("displayString") {
        Some(JsonValue::Str(s)) => s.clone(),
        _ => {
            return Err(field_error("displayString", "a string"));
        },
    };
    let display_style = match j.get("displayStyle") {
        Some(JsonValue::Str(s)) => s.clone(),
        _ => {
            return Err(field_error("displayStyle", "a string"));
        },
    };
    let mut i: usize = 0;
    while i < fields.len()
        invariant
            i <= fields.len(),
            gf.len() == fields@.len(),
            forall|k: int| 0 <= k < gf.len()
                ==> #[trigger] gf[k] == (fields@[k].0@, jview(fields@[k].1)),
            forall|k: int| 0 <= k < i
                ==> ((#[trigger] gf[k]).0 == "displayString"@ || gf[k].0 == "displayStyle"@),
        decreases fields.len() - i,
    {
        let name = fields[i].0.as_str();
        if !(str_eq(name, "displayString") || str_eq(name, "displayStyle")) {
            proof {
                assert(gf[i as int].0 == fields@[i as int].0@);
                assert(!destiny_item_tooltip_notification_wf(jview(*j)));
            }
            return Err(field_error(fields[i].0.as_str(), "an unknown field"));
        }
        i = i + 1;
    }
    Ok(DestinyItemTooltipNotification { display_string, display_style })
}

/// The wire image of a record is well formed and matched by the
/// record itself: encoding loses nothing that decoding reads.
pub proof fn lemma_destiny_item_tooltip_notification_image(v: DestinyItemTooltipNotification)
    ensures
        destiny_item_tooltip_notification_wf(destiny_item_tooltip_notification_json(v)),
        destiny_item_tooltip_notification_json(v) matches Json::Obj(fields) && destiny_item_tooltip_notification_fields_match(fields, v),
{
    reveal_strlit("displayString");
    reveal_strlit("displayStyle");
    let fields = destiny_item_tooltip_notification_json(v)->Obj_0;
    assert("displayString"@.len() == 13);
    assert("displayStyle"@.len() == 12);
    assert("displayString"@ != "displayStyle"@);
    lemma_lookup_at(fields, 0);
    lemma_lookup_at(fields, 1);
}

/// Decoding the encoded image of a record yields a record whose
/// every field carries the same content as the one encoded.
pub proof fn lemma_destiny_item_tooltip_notification_round_trip(v: DestinyItemTooltipNotification, w: DestinyItemTooltipNotification)
    requires
        destiny_item_tooltip_notification_json(v) matches Json::Obj(fields) && destiny_item_tooltip_notification_fields_match(fields, w),
    ensures
        destiny_item_tooltip_notification_wf(destiny_item_tooltip_notification_json(v)),
        w.display_string@ == v.display_string@,
        w.display_style@ == v.display_style@,
{
    lemma_destiny_item_tooltip_notification_image(v);
    let fields = destiny_item_tooltip_notification_json(v)->Obj_0;
    reveal_strlit("displayString");
    reveal_strlit("displayStyle");
    assert("displayString"@.len() == 13);
    assert("displayStyle"@.len() == 12);
    assert("displayString"@ != "displayStyle"@);
    lemma_lookup_at(fields, 0);
    lemma_lookup_at(fields, 1);
}

/// The wire image of this record.
pub open spec fn destiny_item_action_required_item_definition_json(v: DestinyItemActionRequiredItemDefinition) -> Json {
    Json::Obj(
        seq![
            ("count"@, Json::Int(v.count as int)),
            ("itemHash"@, Json::Int(v.item_hash as int)),
            ("deleteOnAction"@, Json::Bool(v.delete_on_action)),
        ],
    )
}

/// Whether a document decodes as this record: an object with exactly these fields.
pub open spec fn destiny_item_action_required_item_definition_wf(j: Json) -> bool {
    &&& j matches Json::Obj(fields)
    &&& spec_lookup(fields, "count"@) matches Some(Json::Int(n)) && i32::MIN as int <= n <= i32::MAX as int
    &&& spec_lookup(fields, "itemHash"@) matches Some(Json::Int(n)) && 0 <= n <= u32::MAX as int
    &&& spec_lookup(fields, "deleteOnAction"@) matches Some(Json::Bool(_))
    &&& forall|i: int| 0 <= i < fields.len()
        ==> ((#[trigger] fields[i]).0 == "count"@ || fields[i].0 == "itemHash"@ || fields[i].0 == "deleteOnAction"@)
}

/// How a decoded record relates to the document it came from.
pub open spec fn destiny_item_action_required_item_definition_fields_match(fields: Seq<(Seq<char>, Json)>, w: DestinyItemActionRequiredItemDefinition) -> bool {
    &&& spec_lookup(fields, "count"@) == Some(Json::Int(w.count as int))
    &&& spec_lookup(fields, "itemHash"@) == Some(Json::Int(w.item_hash as int))
    &&& spec_lookup(fields, "deleteOnAction"@) == Some(Json::Bool(w.delete_on_action))
}

/// What a decode failure names: its path points at a field of the
/// document that is indeed not decodable, and an undeclared
/// enumeration code is reported with the enumeration's own message.
pub open spec fn destiny_item_action_required_item_definition_err_ok(j: Json, e: DecodeError) -> bool {
    &&& !(j matches Json::Obj(_)) ==> e.path@.len() == 0
    &&& j matches Json::Obj(fields) ==> (
        (e.path@ == "count"@ && !(spec_lookup(fields, "count"@) matches Some(Json::Int(n)) && i32::MIN as int <= n <= i32::MAX as int))
        || (e.path@ == "itemHash"@ && !(spec_lookup(fields, "itemHash"@) matches Some(Json::Int(n)) && 0 <= n <= u32::MAX as int))
        || (e.path@ == "deleteOnAction"@ && !(spec_lookup(fields, "deleteOnAction"@) matches Some(Json::Bool(_))))
        || (exists|i: int| 0 <= i < fields.len() && (#[trigger] fields[i]).0 == e.path@ && !((fields[i].0 == "count"@ || fields[i].0 == "itemHash"@ || fields[i].0 == "deleteOnAction"@))))
}

pub fn encode_destiny_item_action_required_item_definition(v: &DestinyItemActionRequiredItemDefinition) -> (r: JsonValue)
    ensures
        jview(r) == destiny_item_action_required_item_definition_json(*v),
{
    let mut fields: Vec<(String, JsonValue)> = Vec::new();
    fields.push(("count".to_owned(), JsonValue::Int(v.count as i64)));
    fields.push(("itemHash".to_owned(), JsonValue::Int(v.item_hash as i64)));
    fields.push(("deleteOnAction".to_owned(), JsonValue::Bool(v.delete_on_action)));
    let r = JsonValue::Obj(fields);
    proof {
        assert(jview(fields@[0].1) == destiny_item_action_required_item_definition_json(*v)->Obj_0[0].1);
        assert(jview(fields@[1].1) == destiny_item_action_required_item_definition_json(*v)->Obj_0[1].1);
        assert(jview(fields@[2].1) == destiny_item_action_required_item_definition_json(*v)->Obj_0[2].1);
        assert(jview(r)->Obj_0 =~= destiny_item_action_required_item_definition_json(*v)->Obj_0);
    }
    r
}

/// Decodes this record; a failure names the offending field in its
/// path and says what was expected of it.
#[verifier::loop_isolation(false)]
pub fn decode_destiny_item_action_required_item_definition(j: &JsonValue) -> (r: Result<DestinyItemActionRequiredItemDefinition, DecodeError>)
    ensures
        r is Ok <==> destiny_item_action_required_item_definition_wf(jview(*j)),
        r matches Ok(w) ==> (jview(*j) matches Json::Obj(fields)
            && destiny_item_action_required_item_definition_fields_match(fields, w)),
        r matches Err(e) ==> destiny_item_action_required_item_definition_err_ok(jview(*j), e),
{
    let fields = match j {
        JsonValue::Obj(fields) => fields,
        _ => {
            return Err(root_error("an object"));
        },
    };
    let ghost gf = jview(*j)->Obj_0;
    let count = match j.get("count") {
        Some(v) => match v.to_i64() {
            Some(n) if i32::MIN as i64 <= n && n <= i32::MAX as i64 => n as i32,
            _ => {
                return Err(field_error("count", "a 32-bit integer"));
            },
        },
        _ => {
            return Err(field_error("count", "a 32-bit integer"));
        },
    };
    let item_hash = match j.get("itemHash") {
        Some(v) => match v.to_i64() {
            Some(n) if 0 <= n && n <= u32::MAX as i64 => n as u32,
            _ => {
                return Err(field_error("itemHash", "a 32-bit unsigned integer"));
            },
        },
        _ => {
            return Err(field_error("itemHash", "a 32-bit unsigned integer"));
        },
    };
    let delete_on_action = match j.get("deleteOnAction") {
        Some(JsonValue::Bool(b)) => *b,
        _ => {
            return Err(field_error("deleteOnAction", "a boolean"));
        },
    };
    let mut i: usize = 0;
    while i < fields.len()
        invariant
            i <= fields.len(),
            gf.len() == fields@.len(),
            forall|k: int| 0 <= k < gf.len()
                ==> #[trigger] gf[k] == (fields@[k].0@, jview(fields@[k].1)),
            forall|k: int| 0 <= k < i
                ==> ((#[trigger] gf[k]).0 == "count"@ || gf[k].0 == "itemHash"@ || gf[k].0 == "deleteOnAction"@),
        decreases fields.len() - i,
    {
        let name = fields[i].0.as_str();
        if !(str_eq(name, "count") || str_eq(name, "itemHash") || str_eq(name, "deleteOnAction")) {
            proof {
                assert(gf[i as int].0 == fields@[i as int].0@);
                assert(!destiny_item_action_required_item_definition_wf(jview(*j)));
            }
            return Err(field_error(fields[i].0.as_str(), "an unknown field"));
        }
        i = i + 1;
    }
    Ok(DestinyItemActionRequiredItemDefinition { count, item_hash, delete_on_action })
}

/// The wire image of a record is well formed and matched by the
/// record itself: encoding loses nothing that decoding reads.
pub proof fn lemma_destiny_item_action_required_item_definition_image(v: DestinyItemActionRequiredItemDefinition)
    ensures
        destiny_item_action_required_item_definition_wf(destiny_item_action_required_item_definition_json(v)),
        destiny_item_action_required_item_definition_json(v) matches Json::Obj(fields) && destiny_item_action_required_item_definition_fields_match(fields, v),
{
    reveal_strlit("count");
    reveal_strlit("itemHash");
    reveal_strlit("deleteOnAction");
    let fields = destiny_item_action_required_item_definition_json(v)->Obj_0;
    assert("count"@.len() == 5);
    assert("itemHash"@.len() == 8);
    assert("deleteOnAction"@.len() == 14);
    assert("count"@ != "itemHash"@);
    assert("count"@ != "deleteOnAction"@);
    assert("itemHash"@ != "deleteOnAction"@);
    lemma_lookup_at(fields, 0);
    lemma_lookup_at(fields, 1);
    lemma_lookup_at(fields, 2);
}

/// Decoding the encoded image of a record yields a record whose
/// every field carries the same content as the one encoded.
pub proof fn lemma_destiny_item_action_required_item_definition_round_trip(v: DestinyItemActionRequiredItemDefinition, w: DestinyItemActionRequiredItemDefinition)
    requires
        destiny_item_action_required_item_definition_json(v) matches Json::Obj(fields) && destiny_item_action_required_item_definition_fields_match(fields, w),
    ensures
        destiny_item_action_required_item_definition_wf(destiny_item_action_required_item_definition_json(v)),
        w.count == v.count,
        w.item_hash == v.item_hash,
        w.delete_on_action == v.delete_on_action,
{
    lemma_destiny_item_action_required_item_definition_image(v);
    let fields = destiny_item_action_required_item_definition_json(v)->Obj_0;
    reveal_strlit("count");
    reveal_strlit("itemHash");
    reveal_strlit("deleteOnAction");
    assert("count"@.len() == 5);
    assert("itemHash"@.len() == 8);
    assert("deleteOnAction"@.len() == 14);
    assert("count"@ != "itemHash"@);
    assert("count"@ != "deleteOnAction"@);
    assert("itemHash"@ != "deleteOnAction"@);
    lemma_lookup_at(fields, 0);
    lemma_lookup_at(fields, 1);
    lemma_lookup_at(fields, 2);
}

/// The wire image of this record.
pub open spec fn destiny_progression_reward_definition_json(v: DestinyProgressionRewardDefinition) -> Json {
    Json::Obj(
        seq![
            ("progressionMappingHash"@, Json::Int(v.progression_mapping_hash as int)),
            ("amount"@, Json::Int(v.amount as int)),
            ("applyThrottles"@, Json::Bool(v.apply_throttles)),
        ],
    )
}

/// Whether a document decodes as this record: an object with exactly these fields.
pub open spec fn destiny_progression_reward_definition_wf(j: Json) -> bool {
    &&& j matches Json::Obj(fields)
    &&& spec_lookup(fields, "progressionMappingHash"@) matches Some(Json::Int(n)) && 0 <= n <= u32::MAX as int
    &&& spec_lookup(fields, "amount"@) matches Some(Json::Int(n)) && i32::MIN as int <= n <= i32::MAX as int
    &&& spec_lookup(fields, "applyThrottles"@) matches Some(Json::Bool(_))
    &&& forall|i: int| 0 <= i < fields.len()
        ==> ((#[trigger] fields[i]).0 == "progressionMappingHash"@ || fields[i].0 == "amount"@ || fields[i].0 == "applyThrottles"@)
}

/// How a decoded record relates to the document it came from.
pub open spec fn destiny_progression_reward_definition_fields_match(fields: Seq<(Seq<char>, Json)>, w: DestinyProgressionRewardDefinition) -> bool {
    &&& spec_lookup(fields, "progressionMappingHash"@) == Some(Json::Int(w.progression_mapping_hash as int))
    &&& spec_lookup(fields, "amount"@) == Some(Json::Int(w.amount as int))
    &&& spec_lookup(fields, "applyThrottles"@) == Some(Json::Bool(w.apply_throttles))
}

/// What a decode failure names: its path points at a field of the
/// document that is indeed not decodable, and an undeclared
/// enumeration code is reported with the enumeration's own message.
pub open spec fn destiny_progression_reward_definition_err_ok(j: Json, e: DecodeError) -> bool {
    &&& !(j matches Json::Obj(_)) ==> e.path@.len() == 0
    &&& j matches Json::Obj(fields) ==> (
        (e.path@ == "progressionMappingHash"@ && !(spec_lookup(fields, "progressionMappingHash"@) matches Some(Json::Int(n)) && 0 <= n <= u32::MAX as int))
        || (e.path@ == "amount"@ && !(spec_lookup(fields, "amount"@) matches Some(Json::Int(n)) && i32::MIN as int <= n <= i32::MAX as int))
        || (e.path@ == "applyThrottles"@ && !(spec_lookup(fields, "applyThrottles"@) matches Some(Json::Bool(_))))
        || (exists|i: int| 0 <= i < fields.len() && (#[trigger] fields[i]).0 == e.path@ && !((fields[i].0 == "progressionMappingHash"@ || fields[i].0 == "amount"@ || fields[i].0 == "applyThrottles"@))))
}

pub fn encode_destiny_progression_reward_definition(v: &DestinyProgressionRewardDefinition) -> (r: JsonValue)
    ensures
        jview(r) == destiny_progression_reward_definition_json(*v),
{
    let mut fields: Vec<(String, JsonValue)> = Vec::new();
    fields.push(("progressionMappingHash".to_owned(), JsonValue::Int(v.progression_mapping_hash as i64)));
    fields.push(("amount".to_owned(), JsonValue::Int(v.amount as i64)));
    fields.push(("applyThrottles".to_owned(), JsonValue::Bool(v.apply_throttles)));
    let r = JsonValue::Obj(fields);
    proof {
        assert(jview(fields@[0].1) == destiny_progression_reward_definition_json(*v)->Obj_0[0].1);
        assert(jview(fields@[1].1) == destiny_progression_reward_definition_json(*v)->Obj_0[1].1);
        assert(jview(fields@[2].1) == destiny_progression_reward_definition_json(*v)->Obj_0[2].1);
        assert(jview(r)->Obj_0 =~= destiny_progression_reward_definition_json(*v)->Obj_0);
    }
    r
}

/// Decodes this record; a failure names the offending field in its
/// path and says what was expected of it.
#[verifier::loop_isolation(false)]
pub fn decode_destiny_progression_reward_definition(j: &JsonValue) -> (r: Result<DestinyProgressionRewardDefinition, DecodeError>)
    ensures
        r is Ok <==> destiny_progression_reward_definition_wf(jview(*j)),
        r matches Ok(w) ==> (jview(*j) matches Json::Obj(fields)
            && destiny_progression_reward_definition_fields_match(fields, w)),
        r matches Err(e) ==> destiny_progression_reward_definition_err_ok(jview(*j), e),
{
    let fields = match j {
        JsonValue::Obj(fields) => fields,
        _ => {
            return Err(root_error("an object"));
        },
    };
    let ghost gf = jview(*j)->Obj_0;
    let progression_mapping_hash = match j.get("progressionMappingHash") {
        Some(v) => match v.to_i64() {
            Some(n) if 0 <= n && n <= u32::MAX as i64 => n as u32,
            _ => {
                return Err(field_error("progressionMappingHash", "a 32-bit unsigned integer"));
            },
        },
        _ => {
            return Err(field_error("progressionMappingHash", "a 32-bit unsigned integer"));
        },
    };
    let amount = match j.get("amount") {
        Some(v) => match v.to_i64() {
            Some(n) if i32::MIN as i64 <= n && n <= i32::MAX as i64 => n as i32,
            _ => {
                return Err(field_error("amount", "a 32-bit integer"));
            },
        },
        _ => {
            return Err(field_error("amount", "a 32-bit integer"));
        },
    };
    let apply_throttles = match j.get("applyThrottles") {
        Some(JsonValue::Bool(b)) => *b,
        _ => {
            return Err(field_error("applyThrottles", "a boolean"));
        },
    };
    let mut i: usize = 0;
    while i < fields.len()
        invariant
            i <= fields.len(),
            gf.len() == fields@.len(),
            forall|k: int| 0 <= k < gf.len()
                ==> #[trigger] gf[k] == (fields@[k].0@, jview(fields@[k].1)),
            forall|k: int| 0 <= k < i
                ==> ((#[trigger] gf[k]).0 == "progressionMappingHash"@ || gf[k].0 == "amount"@ || gf[k].0 == "applyThrottles"@),
        decreases fields.len() - i,
    {
        let name = fields[i].0.as_str();
        if !(str_eq(name, "progressionMappingHash") || str_eq(name, "amount") || str_eq(name, "applyThrottles")) {
            proof {
                assert(gf[i as int].0 == fields@[i as int].0@);
                assert(!destiny_progression_reward_definition_wf(jview(*j)));
            }
            return Err(field_error(fields[i].0.as_str(), "an unknown field"));
        }
        i = i + 1;
    }
    Ok(DestinyProgressionRewardDefinition { progression_mapping_hash, amount, apply_throttles })
}

/// The wire image of a record is well formed and matched by the
/// record itself: encoding loses nothing that decoding reads.
pub proof fn lemma_destiny_progression_reward_definition_image(v: DestinyProgressionRewardDefinition)
    ensures
        destiny_progression_reward_definition_wf(destiny_progression_reward_definition_json(v)),
        destiny_progression_reward_definition_json(v) matches Json::Obj(fields) && destiny_progression_reward_definition_fields_match(fields, v),
{
    reveal_strlit("progressionMappingHash");
    reveal_strlit("amount");
    reveal_strlit("applyThrottles");
    let fields = destiny_progression_reward_definition_json(v)->Obj_0;
    assert("progressionMappingHash"@.len() == 22);
    assert("amount"@.len() == 6);
    assert("applyThrottles"@.len() == 14);
    assert("progressionMappingHash"@ != "amount"@);
    assert("progressionMappingHash"@ != "applyThrottles"@);
    assert("amount"@ != "applyThrottles"@);
    lemma_lookup_at(fields, 0);
    lemma_lookup_at(fields, 1);
    lemma_lookup_at(fields, 2);
}

/// Decoding the encoded image of a record yields a record whose
/// every field carries the same content as the one encoded.
pub proof fn lemma_destiny_progression_reward_definition_round_trip(v: DestinyProgressionRewardDefinition, w: DestinyProgressionRewardDefinition)
    requires
        destiny_progression_reward_definition_json(v) matches Json::Obj(fields) && destiny_progression_reward_definition_fields_match(fields, w),
    ensures
        destiny_progression_reward_definition_wf(destiny_progression_reward_definition_json(v)),
        w.progression_mapping_hash == v.progression_mapping_hash,
        w.amount == v.amount,
        w.apply_throttles == v.apply_throttles,
{
    lemma_destiny_progression_reward_definition_image(v);
    let fields = destiny_progression_reward_definition_json(v)->Obj_0;
    reveal_strlit("progressionMappingHash");
    reveal_strlit("amount");
    reveal_strlit("applyThrottles");
    assert("progressionMappingHash"@.len() == 22);
    assert("amount"@.len() == 6);
    assert("applyThrottles"@.len() == 14);
    assert("progressionMappingHash"@ != "amount"@);
    assert("progressionMappingHash"@ != "applyThrottles"@);
    assert("amount"@ != "applyThrottles"@);
    lemma_lookup_at(fields, 0);
    lemma_lookup_at(fields, 1);
    lemma_lookup_at(fields, 2);
}

/// The wire image of this record.
pub open spec fn destiny_item_crafting_block_bonus_plug_definition_json(v: DestinyItemCraftingBlockBonusPlugDefinition) -> Json {
    Json::Obj(
        seq![
            ("socketTypeHash"@, Json::Int(v.socket_type_hash as int)),
            ("plugItemHash"@, Json::Int(v.plug_item_hash as int)),
        ],
    )
}

/// Whether a document decodes as this record: an object with exactly these fields.
pub open spec fn destiny_item_crafting_block_bonus_plug_definition_wf(j: Json) -> bool {
    &&& j matches Json::Obj(fields)
    &&& spec_lookup(fields, "socketTypeHash"@) matches Some(Json::Int(n)) && 0 <= n <= u32::MAX as int
    &&& spec_lookup(fields, "plugItemHash"@) matches Some(Json::Int(n)) && 0 <= n <= u32::MAX as int
    &&& forall|i: int| 0 <= i < fields.len()
        ==> ((#[trigger] fields[i]).0 == "socketTypeHash"@ || fields[i].0 == "plugItemHash"@)
}

/// How a decoded record relates to the document it came from.
pub open spec fn destiny_item_crafting_block_bonus_plug_definition_fields_match(fields: Seq<(Seq<char>, Json)>, w: DestinyItemCraftingBlockBonusPlugDefinition) -> bool {
    &&& spec_lookup(fields, "socketTypeHash"@) == Some(Json::Int(w.socket_type_hash as int))
    &&& spec_lookup(fields, "plugItemHash"@) == Some(Json::Int(w.plug_item_hash as int))
}

/// What a decode failure names: its path points at a field of the
/// document that is indeed not decodable, and an undeclared
/// enumeration code is reported with the enumeration's own message.
pub open spec fn destiny_item_crafting_block_bonus_plug_definition_err_ok(j: Json, e: DecodeError) -> bool {
    &&& !(j matches Json::Obj(_)) ==> e.path@.len() == 0
    &&& j matches Json::Obj(fields) ==> (
        (e.path@ == "socketTypeHash"@ && !(spec_lookup(fields, "socketTypeHash"@) matches Some(Json::Int(n)) && 0 <= n <= u32::MAX as int))
        || (e.path@ == "plugItemHash"@ && !(spec_lookup(fields, "plugItemHash"@) matches Some(Json::Int(n)) && 0 <= n <= u32::MAX as int))
        || (exists|i: int| 0 <= i < fields.len() && (#[trigger] fields[i]).0 == e.path@ && !((fields[i].0 == "socketTypeHash"@ || fields[i].0 == "plugItemHash"@))))
}

pub fn encode_destiny_item_crafting_block_bonus_plug_definition(v: &DestinyItemCraftingBlockBonusPlugDefinition) -> (r: JsonValue)
    ensures
        jview(r) == destiny_item_crafting_block_bonus_plug_definition_json(*v),
{
    let mut fields: Vec<(String, JsonValue)> = Vec::new();
    fields.push(("socketTypeHash".to_owned(), JsonValue::Int(v.socket_type_hash as i64)));
    fields.push(("plugItemHash".to_owned(), JsonValue::Int(v.plug_item_hash as i64)));
    let r = JsonValue::Obj(fields);
    proof {
        assert(jview(fields@[0].1) == destiny_item_crafting_block_bonus_plug_definition_json(*v)->Obj_0[0].1);
        assert(jview(fields@[1].1) == destiny_item_crafting_block_bonus_plug_definition_json(*v)->Obj_0[1].1);
        assert(jview(r)->Obj_0 =~= destiny_item_crafting_block_bonus_plug_definition_json(*v)->Obj_0);
    }
    r
}

/// Decodes this record; a failure names the offending field in its
/// path and says what was expected of it.
#[verifier::loop_isolation(false)]
pub fn decode_destiny_item_crafting_block_bonus_plug_definition(j: &JsonValue) -> (r: Result<DestinyItemCraftingBlockBonusPlugDefinition, DecodeError>)
    ensures
        r is Ok <==> destiny_item_crafting_block_bonus_plug_definition_wf(jview(*j)),
        r matches Ok(w) ==> (jview(*j) matches Json::Obj(fields)
            && destiny_item_crafting_block_bonus_plug_definition_fields_match(fields, w)),
        r matches Err(e) ==> destiny_item_crafting_block_bonus_plug_definition_err_ok(jview(*j), e),
{
    let fields = match j {
        JsonValue::Obj(fields) => fields,
        _ => {
            return Err(root_error("an object"));
        },
    };
    let ghost gf = jview(*j)->Obj_0;
    let socket_type_hash = match j.get("socketTypeHash") {
        Some(v) => match v.to_i64() {
            Some(n) if 0 <= n && n <= u32::MAX as i64 => n as u32,
            _ => {
                return Err(field_error("socketTypeHash", "a 32-bit unsigned integer"));
            },
        },
        _ => {
            return Err(field_error("socketTypeHash", "a 32-bit unsigned integer"));
        },
    };
    let plug_item_hash = match j.get("plugItemHash") {
        Some(v) => match v.to_i64() {
            Some(n) if 0 <= n && n <= u32::MAX as i64 => n as u32,
            _ => {
                return Err(field_error("plugItemHash", "a 32-bit unsigned integer"));
            },
        },
        _ => {
            return Err(field_error("plugItemHash", "a 32-bit unsigned integer"));
        },
    };
    let mut i: usize = 0;
    while i < fields.len()
        invariant
            i <= fields.len(),
            gf.len() == fields@.len(),
            forall|k: int| 0 <= k < gf.len()
                ==> #[trigger] gf[k] == (fields@[k].0@, jview(fields@[k].1)),
            forall|k: int| 0 <= k < i
                ==> ((#[trigger] gf[k]).0 == "socketTypeHash"@ || gf[k].0 == "plugItemHash"@),
        decreases fields.len() - i,
    {
        let name = fields[i].0.as_str();
        if !(str_eq(name, "socketTypeHash") || str_eq(name, "plugItemHash")) {
            proof {
                assert(gf[i as int].0 == fields@[i as int].0@);
                assert(!destiny_item_crafting_block_bonus_plug_definition_wf(jview(*j)));
            }
            return Err(field_error(fields[i].0.as_str(), "an unknown field"));
        }
        i = i + 1;
    }
    Ok(DestinyItemCraftingBlockBonusPlugDefinition { socket_type_hash, plug_item_hash })
}

/// The wire image of a record is well formed and matched by the
/// record itself: encoding loses nothing that decoding reads.
pub proof fn lemma_destiny_item_crafting_block_bonus_plug_definition_image(v: DestinyItemCraftingBlockBonusPlugDefinition)
    ensures
        destiny_item_crafting_block_bonus_plug_definition_wf(destiny_item_crafting_block_bonus_plug_definition_json(v)),
        destiny_item_crafting_block_bonus_plug_definition_json(v) matches Json::Obj(fields) && destiny_item_crafting_block_bonus_plug_definition_fields_match(fields, v),
{
    reveal_strlit("socketTypeHash");
    reveal_strlit("plugItemHash");
    let fields = destiny_item_crafting_block_bonus_plug_definition_json(v)->Obj_0;
    assert("socketTypeHash"@.len() == 14);
    assert("plugItemHash"@.len() == 12);
    assert("socketTypeHash"@ != "plugItemHash"@);
    lemma_lookup_at(fields, 0);
    lemma_lookup_at(fields, 1);
}

/// Decoding the encoded image of a record yields a record whose
/// every field carries the same content as the one encoded.
pub proof fn lemma_destiny_item_crafting_block_bonus_plug_definition_round_trip(v: DestinyItemCraftingBlockBonusPlugDefinition, w: DestinyItemCraftingBlockBonusPlugDefinition)
    requires
        destiny_item_crafting_block_bonus_plug_definition_json(v) matches Json::Obj(fields) && destiny_item_crafting_block_bonus_plug_definition_fields_match(fields, w),
    ensures
        destiny_item_crafting_block_bonus_plug_definition_wf(destiny_item_crafting_block_bonus_plug_definition_json(v)),
        w.socket_type_hash == v.socket_type_hash,
        w.plug_item_hash == v.plug_item_hash,
{
    lemma_destiny_item_crafting_block_bonus_plug_definition_image(v);
    let fields = destiny_item_crafting_block_bonus_plug_definition_json(v)->Obj_0;
    reveal_strlit("socketTypeHash");
    reveal_strlit("plugItemHash");
    assert("socketTypeHash"@.len() == 14);
    assert("plugItemHash"@.len() == 12);
    assert("socketTypeHash"@ != "plugItemHash"@);
    lemma_lookup_at(fields, 0);
    lemma_lookup_at(fields, 1);
}

/// The wire image of this record.
pub open spec fn destiny_item_set_block_entry_definition_json(v: DestinyItemSetBlockEntryDefinition) -> Json {
    Json::Obj(
        seq![
            ("trackingValue"@, Json::Int(v.tracking_value as int)),
            ("itemHash"@, Json::Int(v.item_hash as int)),
        ],
    )
}

/// Whether a document decodes as this record: an object with exactly these fields.
pub open spec fn destiny_item_set_block_entry_definition_wf(j: Json) -> bool {
    &&& j matches Json::Obj(fields)
    &&& spec_lookup(fields, "trackingValue"@) matches Some(Json::Int(n)) && i32::MIN as int <= n <= i32::MAX as int
    &&& spec_lookup(fields, "itemHash"@) matches Some(Json::Int(n)) && 0 <= n <= u32::MAX as int
    &&& forall|i: int| 0 <= i < fields.len()
        ==> ((#[trigger] fields[i]).0 == "trackingValue"@ || fields[i].0 == "itemHash"@)
}

/// How a decoded record relates to the document it came from.
pub open spec fn destiny_item_set_block_entry_definition_fields_match(fields: Seq<(Seq<char>, Json)>, w: DestinyItemSetBlockEntryDefinition) -> bool {
    &&& spec_lookup(fields, "trackingValue"@) == Some(Json::Int(w.tracking_value as int))
    &&& spec_lookup(fields, "itemHash"@) == Some(Json::Int(w.item_hash as int))
}

/// What a decode failure names: its path points at a field of the
/// document that is indeed not decodable, and an undeclared
/// enumeration code is reported with the enumeration's own message.
pub open spec fn destiny_item_set_block_entry_definition_err_ok(j: Json, e: DecodeError) -> bool {
    &&& !(j matches Json::Obj(_)) ==> e.path@.len() == 0
    &&& j matches Json::Obj(fields) ==> (
        (e.path@ == "trackingValue"@ && !(spec_lookup(fields, "trackingValue"@) matches Some(Json::Int(n)) && i32::MIN as int <= n <= i32::MAX as int))
        || (e.path@ == "itemHash"@ && !(spec_lookup(fields, "itemHash"@) matches Some(Json::Int(n)) && 0 <= n <= u32::MAX as int))
        || (exists|i: int| 0 <= i < fields.len() && (#[trigger] fields[i]).0 == e.path@ && !((fields[i].0 == "trackingValue"@ || fields[i].0 == "itemHash"@))))
}

pub fn encode_destiny_item_set_block_entry_definition(v: &DestinyItemSetBlockEntryDefinition) -> (r: JsonValue)
    ensures
        jview(r) == destiny_item_set_block_entry_definition_json(*v),
{
    let mut fields: Vec<(String, JsonValue)> = Vec::new();
    fields.push(("trackingValue".to_owned(), JsonValue::Int(v.tracking_value as i64)));
    fields.push(("itemHash".to_owned(), JsonValue::Int(v.item_hash as i64)));
    let r = JsonValue::Obj(fields);
    proof {
        assert(jview(fields@[0].1) == destiny_item_set_block_entry_definition_json(*v)->Obj_0[0].1);
        assert(jview(fields@[1].1) == destiny_item_set_block_entry_definition_json(*v)->Obj_0[1].1);
        assert(jview(r)->Obj_0 =~= destiny_item_set_block_entry_definition_json(*v)->Obj_0);
    }
    r
}

/// Decodes this record; a failure names the offending field in its
/// path and says what was expected of it.
#[verifier::loop_isolation(false)]
pub fn decode_destiny_item_set_block_entry_definition(j: &JsonValue) -> (r: Result<DestinyItemSetBlockEntryDefinition, DecodeError>)
    ensures
        r is Ok <==> destiny_item_set_block_entry_definition_wf(jview(*j)),
        r matches Ok(w) ==> (jview(*j) matches Json::Obj(fields)
            && destiny_item_set_block_entry_definition_fields_match(fields, w)),
        r matches Err(e) ==> destiny_item_set_block_entry_definition_err_ok(jview(*j), e),
{
    let fields = match j {
        JsonValue::Obj(fields) => fields,
        _ => {
            return Err(root_error("an object"));
        },
    };
    let ghost gf = jview(*j)->Obj_0;
    let tracking_value = match j.get("trackingValue") {
        Some(v) => match v.to_i64() {
            Some(n) if i32::MIN as i64 <= n && n <= i32::MAX as i64 => n as i32,
            _ => {
                return Err(field_error("trackingValue", "a 32-bit integer"));
            },
        },
        _ => {
            return Err(field_error("trackingValue", "a 32-bit integer"));
        },
    };
    let item_hash = match j.get("itemHash") {
        Some(v) => match v.to_i64() {
            Some(n) if 0 <= n && n <= u32::MAX as i64 => n as u32,
            _ => {
                return Err(field_error("itemHash", "a 32-bit unsigned integer"));
            },
        },
        _ => {
            return Err(field_error("itemHash", "a 32-bit unsigned integer"));
        },
    };
    let mut i: usize = 0;
    while i < fields.len()
        invariant
            i <= fields.len(),
            gf.len() == fields@.len(),
            forall|k: int| 0 <= k < gf.len()
                ==> #[trigger] gf[k] == (fields@[k].0@, jview(fields@[k].1)),
            forall|k: int| 0 <= k < i
                ==> ((#[trigger] gf[k]).0 == "trackingValue"@ || gf[k].0 == "itemHash"@),
        decreases fields.len() - i,
    {
        let name = fields[i].0.as_str();
        if !(str_eq(name, "trackingValue") || str_eq(name, "itemHash")) {
            proof {
                assert(gf[i as int].0 == fields@[i as int].0@);
                assert(!destiny_item_set_block_entry_definition_wf(jview(*j)));
            }
            return Err(field_error(fields[i].0.as_str(), "an unknown field"));
        }
        i = i + 1;
    }
    Ok(DestinyItemSetBlockEntryDefinition { tracking_value, item_hash })
}

/// The wire image of a record is well formed and matched by the
/// record itself: encoding loses nothing that decoding reads.
pub proof fn lemma_destiny_item_set_block_entry_definition_image(v: DestinyItemSetBlockEntryDefinition)
    ensures
        destiny_item_set_block_entry_definition_wf(destiny_item_set_block_entry_definition_json(v)),
        destiny_item_set_block_entry_definition_json(v) matches Json::Obj(fields) && destiny_item_set_block_entry_definition_fields_match(fields, v),
{
    reveal_strlit("trackingValue");
    reveal_strlit("itemHash");
    let fields = destiny_item_set_block_entry_definition_json(v)->Obj_0;
    assert("trackingValue"@.len() == 13);
    assert("itemHash"@.len() == 8);
    assert("trackingValue"@ != "itemHash"@);
    lemma_lookup_at(fields, 0);
    lemma_lookup_at(fields, 1);
}

/// Decoding the encoded image of a record yields a record whose
/// every field carries the same content as the one encoded.
pub proof fn lemma_destiny_item_set_block_entry_definition_round_trip(v: DestinyItemSetBlockEntryDefinition, w: DestinyItemSetBlockEntryDefinition)
    requires
        destiny_item_set_block_entry_definition_json(v) matches Json::Obj(fields) && destiny_item_set_block_entry_definition_fields_match(fields, w),
    ensures
        destiny_item_set_block_entry_definition_wf(destiny_item_set_block_entry_definition_json(v)),
        w.tracking_value == v.tracking_value,
        w.item_hash == v.item_hash,
{
    lemma_destiny_item_set_block_entry_definition_image(v);
    let fields = destiny_item_set_block_entry_definition_json(v)->Obj_0;
    reveal_strlit("trackingValue");
    reveal_strlit("itemHash");
    assert("trackingValue"@.len() == 13);
    assert("itemHash"@.len() == 8);
    assert("trackingValue"@ != "itemHash"@);
    lemma_lookup_at(fields, 0);
    lemma_lookup_at(fields, 1);
}

/// The wire image of this record.
pub open spec fn destiny_inventory_item_stat_definition_json(v: DestinyInventoryItemStatDefinition) -> Json {
    Json::Obj(
        seq![
            ("statHash"@, Json::Int(v.stat_hash as int)),
            ("value"@, Json::Int(v.value as int)),
            ("minimum"@, Json::Int(v.minimum as int)),
            ("maximum"@, Json::Int(v.maximum as int)),
            ("displayMaximum"@, (match v.display_maximum { Some(x) => Json::Int(x as int), Option::None => Json::Null })),
        ],
    )
}

/// Whether a document decodes as this record: an object with exactly these fields.
pub open spec fn destiny_inventory_item_stat_definition_wf(j: Json) -> bool {
    &&& j matches Json::Obj(fields)
    &&& spec_lookup(fields, "statHash"@) matches Some(Json::Int(n)) && 0 <= n <= u32::MAX as int
    &&& spec_lookup(fields, "value"@) matches Some(Json::Int(n)) && i32::MIN as int <= n <= i32::MAX as int
    &&& spec_lookup(fields, "minimum"@) matches Some(Json::Int(n)) && i32::MIN as int <= n <= i32::MAX as int
    &&& spec_lookup(fields, "maximum"@) matches Some(Json::Int(n)) && i32::MIN as int <= n <= i32::MAX as int
    &&& match spec_lookup(fields, "displayMaximum"@) { Option::None => true, Some(Json::Null) => true, Some(Json::Int(n)) => i32::MIN as int <= n <= i32::MAX as int, _ => false }
    &&& forall|i: int| 0 <= i < fields.len()
        ==> ((#[trigger] fields[i]).0 == "statHash"@ || fields[i].0 == "value"@ || fields[i].0 == "minimum"@ || fields[i].0 == "maximum"@ || fields[i].0 == "displayMaximum"@)
}

/// How a decoded record relates to the document it came from.
pub open spec fn destiny_inventory_item_stat_definition_fields_match(fields: Seq<(Seq<char>, Json)>, w: DestinyInventoryItemStatDefinition) -> bool {
    &&& spec_lookup(fields, "statHash"@) == Some(Json::Int(w.stat_hash as int))
    &&& spec_lookup(fields, "value"@) == Some(Json::Int(w.value as int))
    &&& spec_lookup(fields, "minimum"@) == Some(Json::Int(w.minimum as int))
    &&& spec_lookup(fields, "maximum"@) == Some(Json::Int(w.maximum as int))
    &&& match w.display_maximum { Some(x) => spec_lookup(fields, "displayMaximum"@) == Some(Json::Int(x as int)), Option::None => spec_lookup(fields, "displayMaximum"@) is None || spec_lookup(fields, "displayMaximum"@) == Some(Json::Null) }
}

/// What a decode failure names: its path points at a field of the
/// document that is indeed not decodable, and an undeclared
/// enumeration code is reported with the enumeration's own message.
pub open spec fn destiny_inventory_item_stat_definition_err_ok(j: Json, e: DecodeError) -> bool {
    &&& !(j matches Json::Obj(_)) ==> e.path@.len() == 0
    &&& j matches Json::Obj(fields) ==> (
        (e.path@ == "statHash"@ && !(spec_lookup(fields, "statHash"@) matches Some(Json::Int(n)) && 0 <= n <= u32::MAX as int))
        || (e.path@ == "value"@ && !(spec_lookup(fields, "value"@) matches Some(Json::Int(n)) && i32::MIN as int <= n <= i32::MAX as int))
        || (e.path@ == "minimum"@ && !(spec_lookup(fields, "minimum"@) matches Some(Json::Int(n)) && i32::MIN as int <= n <= i32::MAX as int))
        || (e.path@ == "maximum"@ && !(spec_lookup(fields, "maximum"@) matches Some(Json::Int(n)) && i32::MIN as int <= n <= i32::MAX as int))
        || (e.path@ == "displayMaximum"@ && !(match spec_lookup(fields, "displayMaximum"@) { Option::None => true, Some(Json::Null) => true, Some(Json::Int(n)) => i32::MIN as int <= n <= i32::MAX as int, _ => false }))
        || (exists|i: int| 0 <= i < fields.len() && (#[trigger] fields[i]).0 == e.path@ && !((fields[i].0 == "statHash"@ || fields[i].0 == "value"@ || fields[i].0 == "minimum"@ || fields[i].0 == "maximum"@ || fields[i].0 == "displayMaximum"@))))
}

pub fn encode_destiny_inventory_item_stat_definition(v: &DestinyInventoryItemStatDefinition) -> (r: JsonValue)
    ensures
        jview(r) == destiny_inventory_item_stat_definition_json(*v),
{
    let mut fields: Vec<(String, JsonValue)> = Vec::new();
    fields.push(("statHash".to_owned(), JsonValue::Int(v.stat_hash as i64)));
    fields.push(("value".to_owned(), JsonValue::Int(v.value as i64)));
    fields.push(("minimum".to_owned(), JsonValue::Int(v.minimum as i64)));
    fields.push(("maximum".to_owned(), JsonValue::Int(v.maximum as i64)));
    fields.push(("displayMaximum".to_owned(), match &v.display_maximum {
        Some(x) => JsonValue::Int(*x as i64),
        Option::None => JsonValue::Null,
    }));
    let r = JsonValue::Obj(fields);
    proof {
        assert(jview(fields@[0].1) == destiny_inventory_item_stat_definition_json(*v)->Obj_0[0].1);
        assert(jview(fields@[1].1) == destiny_inventory_item_stat_definition_json(*v)->Obj_0[1].1);
        assert(jview(fields@[2].1) == destiny_inventory_item_stat_definition_json(*v)->Obj_0[2].1);
        assert(jview(fields@[3].1) == destiny_inventory_item_stat_definition_json(*v)->Obj_0[3].1);
        assert(jview(fields@[4].1) == destiny_inventory_item_stat_definition_json(*v)->Obj_0[4].1);
        assert(jview(r)->Obj_0 =~= destiny_inventory_item_stat_definition_json(*v)->Obj_0);
    }
    r
}

/// Decodes this record; a failure names the offending field in its
/// path and says what was expected of it.
#[verifier::loop_isolation(false)]
pub fn decode_destiny_inventory_item_stat_definition(j: &JsonValue) -> (r: Result<DestinyInventoryItemStatDefinition, DecodeError>)
    ensures
        r is Ok <==> destiny_inventory_item_stat_definition_wf(jview(*j)),
        r matches Ok(w) ==> (jview(*j) matches Json::Obj(fields)
            && destiny_inventory_item_stat_definition_fields_match(fields, w)),
        r matches Err(e) ==> destiny_inventory_item_stat_definition_err_ok(jview(*j), e),
{
    let fields = match j {
        JsonValue::Obj(fields) => fields,
        _ => {
            return Err(root_error("an object"));
        },
    };
    let ghost gf = jview(*j)->Obj_0;
    let stat_hash = match j.get("statHash") {
        Some(v) => match v.to_i64() {
            Some(n) if 0 <= n && n <= u32::MAX as i64 => n as u32,
            _ => {
                return Err(field_error("statHash", "a 32-bit unsigned integer"));
            },
        },
        _ => {
            return Err(field_error("statHash", "a 32-bit unsigned integer"));
        },
    };
    let value = match j.get("value") {
        Some(v) => match v.to_i64() {
            Some(n) if i32::MIN as i64 <= n && n <= i32::MAX as i64 => n as i32,
            _ => {
                return Err(field_error("value", "a 32-bit integer"));
            },
        },
        _ => {
            return Err(field_error("value", "a 32-bit integer"));
        },
    };
    let minimum = match j.get("minimum") {
        Some(v) => match v.to_i64() {
            Some(n) if i32::MIN as i64 <= n && n <= i32::MAX as i64 => n as i32,
            _ => {
                return Err(field_error("minimum", "a 32-bit integer"));
            },
        },
        _ => {
            return Err(field_error("minimum", "a 32-bit integer"));
        },
    };
    let maximum = match j.get("maximum") {
        Some(v) => match v.to_i64() {
            Some(n) if i32::MIN as i64 <= n && n <= i32::MAX as i64 => n as i32,
            _ => {
                return Err(field_error("maximum", "a 32-bit integer"));
            },
        },
        _ => {
            return Err(field_error("maximum", "a 32-bit integer"));
        },
    };
    let display_maximum = match j.get("displayMaximum") {
        Option::None => Option::None,
        Some(JsonValue::Null) => Option::None,
        Some(v) => match v.to_i64() {
            Some(n) if i32::MIN as i64 <= n && n <= i32::MAX as i64 => Some(n as i32),
            _ => {
                return Err(field_error("displayMaximum", "a 32-bit integer or null"));
            },
        },
    };
    let mut i: usize = 0;
    while i < fields.len()
        invariant
            i <= fields.len(),
            gf.len() == fields@.len(),
            forall|k: int| 0 <= k < gf.len()
                ==> #[trigger] gf[k] == (fields@[k].0@, jview(fields@[k].1)),
            forall|k: int| 0 <= k < i
                ==> ((#[trigger] gf[k]).0 == "statHash"@ || gf[k].0 == "value"@ || gf[k].0 == "minimum"@ || gf[k].0 == "maximum"@ || gf[k].0 == "displayMaximum"@),
        decreases fields.len() - i,
    {
        let name = fields[i].0.as_str();
        if !(str_eq(name, "statHash") || str_eq(name, "value") || str_eq(name, "minimum") || str_eq(name, "maximum") || str_eq(name, "displayMaximum")) {
            proof {
                assert(gf[i as int].0 == fields@[i as int].0@);
                assert(!destiny_inventory_item_stat_definition_wf(jview(*j)));
            }
            return Err(field_error(fields[i].0.as_str(), "an unknown field"));
        }
        i = i + 1;
    }
    Ok(DestinyInventoryItemStatDefinition { stat_hash, value, minimum, maximum, display_maximum })
}

/// The wire image of a record is well formed and matched by the
/// record itself: encoding loses nothing that decoding reads.
pub proof fn lemma_destiny_inventory_item_stat_definition_image(v: DestinyInventoryItemStatDefinition)
    ensures
        destiny_inventory_item_stat_definition_wf(destiny_inventory_item_stat_definition_json(v)),
        destiny_inventory_item_stat_definition_json(v) matches Json::Obj(fields) && destiny_inventory_item_stat_definition_fields_match(fields, v),
{
    reveal_strlit("statHash");
    reveal_strlit("value");
    reveal_strlit("minimum");
    reveal_strlit("maximum");
    reveal_strlit("displayMaximum");
    let fields = destiny_inventory_item_stat_definition_json(v)->Obj_0;
    assert("statHash"@.len() == 8);
    assert("value"@.len() == 5);
    assert("minimum"@.len() == 7);
    assert("maximum"@.len() == 7);
    assert("displayMaximum"@.len() == 14);
    assert("statHash"@ != "value"@);
    assert("statHash"@ != "minimum"@);
    assert("statHash"@ != "maximum"@);
    assert("statHash"@ != "displayMaximum"@);
    assert("value"@ != "minimum"@);
    assert("value"@ != "maximum"@);
    assert("value"@ != "displayMaximum"@);
    assert(("minimum"@)[1] != ("maximum"@)[1]);
    assert("minimum"@ != "maximum"@);
    assert("minimum"@ != "displayMaximum"@);
    assert("maximum"@ != "displayMaximum"@);
    lemma_lookup_at(fields, 0);
    lemma_lookup_at(fields, 1);
    lemma_lookup_at(fields, 2);
    lemma_lookup_at(fields, 3);
    lemma_lookup_at(fields, 4);
}

/// Decoding the encoded image of a record yields a record whose
/// every field carries the same content as the one encoded.
pub proof fn lemma_destiny_inventory_item_stat_definition_round_trip(v: DestinyInventoryItemStatDefinition, w: DestinyInventoryItemStatDefinition)
    requires
        destiny_inventory_item_stat_definition_json(v) matches Json::Obj(fields) && destiny_inventory_item_stat_definition_fields_match(fields, w),
    ensures
        destiny_inventory_item_stat_definition_wf(destiny_inventory_item_stat_definition_json(v)),
        w.stat_hash == v.stat_hash,
        w.value == v.value,
        w.minimum == v.minimum,
        w.maximum == v.maximum,
        w.display_maximum == v.display_maximum,
{
    lemma_destiny_inventory_item_stat_definition_image(v);
    let fields = destiny_inventory_item_stat_definition_json(v)->Obj_0;
    reveal_strlit("statHash");
    reveal_strlit("value");
    reveal_strlit("minimum");
    reveal_strlit("maximum");
    reveal_strlit("displayMaximum");
    assert("statHash"@.len() == 8);
    assert("value"@.len() == 5);
    assert("minimum"@.len() == 7);
    assert("maximum"@.len() == 7);
    assert("displayMaximum"@.len() == 14);
    assert("statHash"@ != "value"@);
    assert("statHash"@ != "minimum"@);
    assert("statHash"@ != "maximum"@);
    assert("statHash"@ != "displayMaximum"@);
    assert("value"@ != "minimum"@);
    assert("value"@ != "maximum"@);
    assert("value"@ != "displayMaximum"@);
    assert(("minimum"@)[1] != ("maximum"@)[1]);
    assert("minimum"@ != "maximum"@);
    assert("minimum"@ != "displayMaximum"@);
    assert("maximum"@ != "displayMaximum"@);
    lemma_lookup_at(fields, 0);
    lemma_lookup_at(fields, 1);
    lemma_lookup_at(fields, 2);
    lemma_lookup_at(fields, 3);
    lemma_lookup_at(fields, 4);
}

/// The wire image of this record.
pub open spec fn destiny_gear_art_arrangement_reference_json(v: DestinyGearArtArrangementReference) -> Json {
    Json::Obj(
        seq![
            ("classHash"@, Json::Int(v.class_hash as int)),
            ("artArrangementHash"@, Json::Int(v.art_arrangement_hash as int)),
        ],
    )
}

/// Whether a document decodes as this record: an object with exactly these fields.
pub open spec fn destiny_gear_art_arrangement_reference_wf(j: Json) -> bool {
    &&& j matches Json::Obj(fields)
    &&& spec_lookup(fields, "classHash"@) matches Some(Json::Int(n)) && 0 <= n <= u32::MAX as int
    &&& spec_lookup(fields, "artArrangementHash"@) matches Some(Json::Int(n)) && 0 <= n <= u32::MAX as int
    &&& forall|i: int| 0 <= i < fields.len()
        ==> ((#[trigger] fields[i]).0 == "classHash"@ || fields[i].0 == "artArrangementHash"@)
}

/// How a decoded record relates to the document it came from.
pub open spec fn destiny_gear_art_arrangement_reference_fields_match(fields: Seq<(Seq<char>, Json)>, w: DestinyGearArtArrangementReference) -> bool {
    &&& spec_lookup(fields, "classHash"@) == Some(Json::Int(w.class_hash as int))
    &&& spec_lookup(fields, "artArrangementHash"@) == Some(Json::Int(w.art_arrangement_hash as int))
}

/// What a decode failure names: its path points at a field of the
/// document that is indeed not decodable, and an undeclared
/// enumeration code is reported with the enumeration's own message.
pub open spec fn destiny_gear_art_arrangement_reference_err_ok(j: Json, e: DecodeError) -> bool {
    &&& !(j matches Json::Obj(_)) ==> e.path@.len() == 0
    &&& j matches Json::Obj(fields) ==> (
        (e.path@ == "classHash"@ && !(spec_lookup(fields, "classHash"@) matches Some(Json::Int(n)) && 0 <= n <= u32::MAX as int))
        || (e.path@ == "artArrangementHash"@ && !(spec_lookup(fields, "artArrangementHash"@) matches Some(Json::Int(n)) && 0 <= n <= u32::MAX as int))
        || (exists|i: int| 0 <= i < fields.len() && (#[trigger] fields[i]).0 == e.path@ && !((fields[i].0 == "classHash"@ || fields[i].0 == "artArrangementHash"@))))
}

pub fn encode_destiny_gear_art_arrangement_reference(v: &DestinyGearArtArrangementReference) -> (r: JsonValue)
    ensures
        jview(r) == destiny_gear_art_arrangement_reference_json(*v),
{
    let mut fields: Vec<(String, JsonValue)> = Vec::new();
    fields.push(("classHash".to_owned(), JsonValue::Int(v.class_hash as i64)));
    fields.push(("artArrangementHash".to_owned(), JsonValue::Int(v.art_arrangement_hash as i64)));
    let r = JsonValue::Obj(fields);
    proof {
        assert(jview(fields@[0].1) == destiny_gear_art_arrangement_reference_json(*v)->Obj_0[0].1);
        assert(jview(fields@[1].1) == destiny_gear_art_arrangement_reference_json(*v)->Obj_0[1].1);
        assert(jview(r)->Obj_0 =~= destiny_gear_art_arrangement_reference_json(*v)->Obj_0);
    }
    r
}

/// Decodes this record; a failure names the offending field in its
/// path and says what was expected of it.
#[verifier::loop_isolation(false)]
pub fn decode_destiny_gear_art_arrangement_reference(j: &JsonValue) -> (r: Result<DestinyGearArtArrangementReference, DecodeError>)
    ensures
        r is Ok <==> destiny_gear_art_arrangement_reference_wf(jview(*j)),
        r matches Ok(w) ==> (jview(*j) matches Json::Obj(fields)
            && destiny_gear_art_arrangement_reference_fields_match(fields, w)),
        r matches Err(e) ==> destiny_gear_art_arrangement_reference_err_ok(jview(*j), e),
{
    let fields = match j {
        JsonValue::Obj(fields) => fields,
        _ => {
            return Err(root_error("an object"));
        },
    };
    let ghost gf = jview(*j)->Obj_0;
    let class_hash = match j.get("classHash") {
        Some(v) => match v.to_i64() {
            Some(n) if 0 <= n && n <= u32::MAX as i64 => n as u32,
            _ => {
                return Err(field_error("classHash", "a 32-bit unsigned integer"));
            },
        },
        _ => {
            return Err(field_error("classHash", "a 32-bit unsigned integer"));
        },
    };
    let art_arrangement_hash = match j.get("artArrangementHash") {
        Some(v) => match v.to_i64() {
            Some(n) if 0 <= n && n <= u32::MAX as i64 => n as u32,
            _ => {
                return Err(field_error("artArrangementHash", "a 32-bit unsigned integer"));
            },
        },
        _ => {
            return Err(field_error("artArrangementHash", "a 32-bit unsigned integer"));
        },
    };
    let mut i: usize = 0;
    while i < fields.len()
        invariant
            i <= fields.len(),
            gf.len() == fields@.len(),
            forall|k: int| 0 <= k < gf.len()
                ==> #[trigger] gf[k] == (fields@[k].0@, jview(fields@[k].1)),
            forall|k: int| 0 <= k < i
                ==> ((#[trigger] gf[k]).0 == "classHash"@ || gf[k].0 == "artArrangementHash"@),
        decreases fields.len() - i,
    {
        let name = fields[i].0.as_str();
        if !(str_eq(name, "classHash") || str_eq(name, "artArrangementHash")) {
            proof {
                assert(gf[i as int].0 == fields@[i as int].0@);
                assert(!destiny_gear_art_arrangement_reference_wf(jview(*j)));
            }
            return Err(field_error(fields[i].0.as_str(), "an unknown field"));
        }
        i = i + 1;
    }
    Ok(DestinyGearArtArrangementReference { class_hash, art_arrangement_hash })
}

/// The wire image of a record is well formed and matched by the
/// record itself: encoding loses nothing that decoding reads.
pub proof fn lemma_destiny_gear_art_arrangement_reference_image(v: DestinyGearArtArrangementReference)
    ensures
        destiny_gear_art_arrangement_reference_wf(destiny_gear_art_arrangement_reference_json(v)),
        destiny_gear_art_arrangement_reference_json(v) matches Json::Obj(fields) && destiny_gear_art_arrangement_reference_fields_match(fields, v),
{
    reveal_strlit("classHash");
    reveal_strlit("artArrangementHash");
    let fields = destiny_gear_art_arrangement_reference_json(v)->Obj_0;
    assert("classHash"@.len() == 9);
    assert("artArrangementHash"@.len() == 18);
    assert("classHash"@ != "artArrangementHash"@);
    lemma_lookup_at(fields, 0);
    lemma_lookup_at(fields, 1);
}

/// Decoding the encoded image of a record yields a record whose
/// every field carries the same content as the one encoded.
pub proof fn lemma_destiny_gear_art_arrangement_reference_round_trip(v: DestinyGearArtArrangementReference, w: DestinyGearArtArrangementReference)
    requires
        destiny_gear_art_arrangement_reference_json(v) matches Json::Obj(fields) && destiny_gear_art_arrangement_reference_fields_match(fields, w),
    ensures
        destiny_gear_art_arrangement_reference_wf(destiny_gear_art_arrangement_reference_json(v)),
        w.class_hash == v.class_hash,
        w.art_arrangement_hash == v.art_arrangement_hash,
{
    lemma_destiny_gear_art_arrangement_reference_image(v);
    let fields = destiny_gear_art_arrangement_reference_json(v)->Obj_0;
    reveal_strlit("classHash");
    reveal_strlit("artArrangementHash");
    assert("classHash"@.len() == 9);
    assert("artArrangementHash"@.len() == 18);
    assert("classHash"@ != "artArrangementHash"@);
    lemma_lookup_at(fields, 0);
    lemma_lookup_at(fields, 1);
}

/// The wire image of this record.
pub open spec fn destiny_item_version_definition_json(v: DestinyItemVersionDefinition) -> Json {
    Json::Obj(
        seq![
            ("powerCapHash"@, Json::Int(v.power_cap_hash as int)),
        ],
    )
}

/// Whether a document decodes as this record: an object with exactly these fields.
pub open spec fn destiny_item_version_definition_wf(j: Json) -> bool {
    &&& j matches Json::Obj(fields)
    &&& spec_lookup(fields, "powerCapHash"@) matches Some(Json::Int(n)) && 0 <= n <= u32::MAX as int
    &&& forall|i: int| 0 <= i < fields.len()
        ==> ((#[trigger] fields[i]).0 == "powerCapHash"@)
}

/// How a decoded record relates to the document it came from.
pub open spec fn destiny_item_version_definition_fields_match(fields: Seq<(Seq<char>, Json)>, w: DestinyItemVersionDefinition) -> bool {
    &&& spec_lookup(fields, "powerCapHash"@) == Some(Json::Int(w.power_cap_hash as int))
}

/// What a decode failure names: its path points at a field of the
/// document that is indeed not decodable, and an undeclared
/// enumeration code is reported with the enumeration's own message.
pub open spec fn destiny_item_version_definition_err_ok(j: Json, e: DecodeError) -> bool {
    &&& !(j matches Json::Obj(_)) ==> e.path@.len() == 0
    &&& j matches Json::Obj(fields) ==> (
        (e.path@ == "powerCapHash"@ && !(spec_lookup(fields, "powerCapHash"@) matches Some(Json::Int(n)) && 0 <= n <= u32::MAX as int))
        || (exists|i: int| 0 <= i < fields.len() && (#[trigger] fields[i]).0 == e.path@ && !((fields[i].0 == "powerCapHash"@))))
}

pub fn encode_destiny_item_version_definition(v: &DestinyItemVersionDefinition) -> (r: JsonValue)
    ensures
        jview(r) == destiny_item_version_definition_json(*v),
{
    let mut fields: Vec<(String, JsonValue)> = Vec::new();
    fields.push(("powerCapHash".to_owned(), JsonValue::Int(v.power_cap_hash as i64)));
    let r = JsonValue::Obj(fields);
    proof {
        assert(jview(fields@[0].1) == destiny_item_version_definition_json(*v)->Obj_0[0].1);
        assert(jview(r)->Obj_0 =~= destiny_item_version_definition_json(*v)->Obj_0);
    }
    r
}

/// Decodes this record; a failure names the offending field in its
/// path and says what was expected of it.
#[verifier::loop_isolation(false)]
pub fn decode_destiny_item_version_definition(j: &JsonValue) -> (r: Result<DestinyItemVersionDefinition, DecodeError>)
    ensures
        r is Ok <==> destiny_item_version_definition_wf(jview(*j)),
        r matches Ok(w) ==> (jview(*j) matches Json::Obj(fields)
            && destiny_item_version_definition_fields_match(fields, w)),
        r matches Err(e) ==> destiny_item_version_definition_err_ok(jview(*j), e),
{
    let fields = match j {
        JsonValue::Obj(fields) => fields,
        _ => {
            return Err(root_error("an object"));
        },
    };
    let ghost gf = jview(*j)->Obj_0;
    let power_cap_hash = match j.get("powerCapHash") {
        Some(v) => match v.to_i64() {
            Some(n) if 0 <= n && n <= u32::MAX as i64 => n as u32,
            _ => {
                return Err(field_error("powerCapHash", "a 32-bit unsigned integer"));
            },
        },
        _ => {
            return Err(field_error("powerCapHash", "a 32-bit unsigned integer"));
        },
    };
    let mut i: usize = 0;
    while i < fields.len()
        invariant
            i <= fields.len(),
            gf.len() == fields@.len(),
            forall|k: int| 0 <= k < gf.len()
                ==> #[trigger] gf[k] == (fields@[k].0@, jview(fields@[k].1)),
            forall|k: int| 0 <= k < i
                ==> ((#[trigger] gf[k]).0 == "powerCapHash"@),
        decreases fields.len() - i,
    {
        let name = fields[i].0.as_str();
        if !(str_eq(name, "powerCapHash")) {
            proof {
                assert(gf[i as int].0 == fields@[i as int].0@);
                assert(!destiny_item_version_definition_wf(jview(*j)));
            }
            return Err(field_error(fields[i].0.as_str(), "an unknown field"));
        }
        i = i + 1;
    }
    Ok(DestinyItemVersionDefinition { power_cap_hash })
}

/// The wire image of a record is well formed and matched by the
/// record itself: encoding loses nothing that decoding reads.
pub proof fn lemma_destiny_item_version_definition_image(v: DestinyItemVersionDefinition)
    ensures
        destiny_item_version_definition_wf(destiny_item_version_definition_json(v)),
        destiny_item_version_definition_json(v) matches Json::Obj(fields) && destiny_item_version_definition_fields_match(fields, v),
{
    reveal_strlit("powerCapHash");
    let fields = destiny_item_version_definition_json(v)->Obj_0;
    assert("powerCapHash"@.len() == 12);
    lemma_lookup_at(fields, 0);
}

/// Decoding the encoded image of a record yields a record whose
/// every field carries the same content as the one encoded.
pub proof fn lemma_destiny_item_version_definition_round_trip(v: DestinyItemVersionDefinition, w: DestinyItemVersionDefinition)
    requires
        destiny_item_version_definition_json(v) matches Json::Obj(fields) && destiny_item_version_definition_fields_match(fields, w),
    ensures
        destiny_item_version_definition_wf(destiny_item_version_definition_json(v)),
        w.power_cap_hash == v.power_cap_hash,
{
    lemma_destiny_item_version_definition_image(v);
    let fields = destiny_item_version_definition_json(v)->Obj_0;
    reveal_strlit("powerCapHash");
    assert("powerCapHash"@.len() == 12);
    lemma_lookup_at(fields, 0);
}

/// The wire image of this record.
pub open spec fn destiny_objective_display_properties_json(v: DestinyObjectiveDisplayProperties) -> Json {
    Json::Obj(
        seq![
            ("activityHash"@, (match v.activity_hash { Some(x) => Json::Int(x as int), Option::None => Json::Null })),
            ("displayOnItemPreviewScreen"@, Json::Bool(v.display_on_item_preview_screen)),
        ],
    )
}

/// Whether a document decodes as this record: an object with exactly these fields.
pub open spec fn destiny_objective_display_properties_wf(j: Json) -> bool {
    &&& j matches Json::Obj(fields)
    &&& match spec_lookup(fields, "activityHash"@) { Option::None => true, Some(Json::Null) => true, Some(Json::Int(n)) => 0 <= n <= u32::MAX as int, _ => false }
    &&& spec_lookup(fields, "displayOnItemPreviewScreen"@) matches Some(Json::Bool(_))
    &&& forall|i: int| 0 <= i < fields.len()
        ==> ((#[trigger] fields[i]).0 == "activityHash"@ || fields[i].0 == "displayOnItemPreviewScreen"@)
}

/// How a decoded record relates to the document it came from.
pub open spec fn destiny_objective_display_properties_fields_match(fields: Seq<(Seq<char>, Json)>, w: DestinyObjectiveDisplayProperties) -> bool {
    &&& match w.activity_hash { Some(x) => spec_lookup(fields, "activityHash"@) == Some(Json::Int(x as int)), Option::None => spec_lookup(fields, "activityHash"@) is None || spec_lookup(fields, "activityHash"@) == Some(Json::Null) }
    &&& spec_lookup(fields, "displayOnItemPreviewScreen"@) == Some(Json::Bool(w.display_on_item_preview_screen))
}

/// What a decode failure names: its path points at a field of the
/// document that is indeed not decodable, and an undeclared
/// enumeration code is reported with the enumeration's own message.
pub open spec fn destiny_objective_display_properties_err_ok(j: Json, e: DecodeError) -> bool {
    &&& !(j matches Json::Obj(_)) ==> e.path@.len() == 0
    &&& j matches Json::Obj(fields) ==> (
        (e.path@ == "activityHash"@ && !(match spec_lookup(fields, "activityHash"@) { Option::None => true, Some(Json::Null) => true, Some(Json::Int(n)) => 0 <= n <= u32::MAX as int, _ => false }))
        || (e.path@ == "displayOnItemPreviewScreen"@ && !(spec_lookup(fields, "displayOnItemPreviewScreen"@) matches Some(Json::Bool(_))))
        || (exists|i: int| 0 <= i < fields.len() && (#[trigger] fields[i]).0 == e.path@ && !((fields[i].0 == "activityHash"@ || fields[i].0 == "displayOnItemPreviewScreen"@))))
}

pub fn encode_destiny_objective_display_properties(v: &DestinyObjectiveDisplayProperties) -> (r: JsonValue)
    ensures
        jview(r) == destiny_objective_display_properties_json(*v),
{
    let mut fields: Vec<(String, JsonValue)> = Vec::new();
    fields.push(("activityHash".to_owned(), match &v.activity_hash {
        Some(x) => JsonValue::Int(*x as i64),
        Option::None => JsonValue::Null,
    }));
    fields.push(("displayOnItemPreviewScreen".to_owned(), JsonValue::Bool(v.display_on_item_preview_screen)));
    let r = JsonValue::Obj(fields);
    proof {
        assert(jview(fields@[0].1) == destiny_objective_display_properties_json(*v)->Obj_0[0].1);
        assert(jview(fields@[1].1) == destiny_objective_display_properties_json(*v)->Obj_0[1].1);
        assert(jview(r)->Obj_0 =~= destiny_objective_display_properties_json(*v)->Obj_0);
    }
    r
}

/// Decodes this record; a failure names the offending field in its
/// path and says what was expected of it.
#[verifier::loop_isolation(false)]
pub fn decode_destiny_objective_display_properties(j: &JsonValue) -> (r: Result<DestinyObjectiveDisplayProperties, DecodeError>)
    ensures
        r is Ok <==> destiny_objective_display_properties_wf(jview(*j)),
        r matches Ok(w) ==> (jview(*j) matches Json::Obj(fields)
            && destiny_objective_display_properties_fields_match(fields, w)),
        r matches Err(e) ==> destiny_objective_display_properties_err_ok(jview(*j), e),
{
    let fields = match j {
        JsonValue::Obj(fields) => fields,
        _ => {
            return Err(root_error("an object"));
        },
    };
    let ghost gf = jview(*j)->Obj_0;
    let activity_hash = match j.get("activityHash") {
        Option::None => Option::None,
        Some(JsonValue::Null) => Option::None,
        Some(v) => match v.to_i64() {
            Some(n) if 0 <= n && n <= u32::MAX as i64 => Some(n as u32),
            _ => {
                return Err(field_error("activityHash", "a 32-bit unsigned integer or null"));
            },
        },
    };
    let display_on_item_preview_screen = match j.get("displayOnItemPreviewScreen") {
        Some(JsonValue::Bool(b)) => *b,
        _ => {
            return Err(field_error("displayOnItemPreviewScreen", "a boolean"));
        },
    };
    let mut i: usize = 0;
    while i < fields.len()
        invariant
            i <= fields.len(),
            gf.len() == fields@.len(),
            forall|k: int| 0 <= k < gf.len()
                ==> #[trigger] gf[k] == (fields@[k].0@, jview(fields@[k].1)),
            forall|k: int| 0 <= k < i
                ==> ((#[trigger] gf[k]).0 == "activityHash"@ || gf[k].0 == "displayOnItemPreviewScreen"@),
        decreases fields.len() - i,
    {
        let name = fields[i].0.as_str();
        if !(str_eq(name, "activityHash") || str_eq(name, "displayOnItemPreviewScreen")) {
            proof {
                assert(gf[i as int].0 == fields@[i as int].0@);
                assert(!destiny_objective_display_properties_wf(jview(*j)));
            }
            return Err(field_error(fields[i].0.as_str(), "an unknown field"));
        }
        i = i + 1;
    }
    Ok(DestinyObjectiveDisplayProperties { activity_hash, display_on_item_preview_screen })
}

/// The wire image of a record is well formed and matched by the
/// record itself: encoding loses nothing that decoding reads.
pub proof fn lemma_destiny_objective_display_properties_image(v: DestinyObjectiveDisplayProperties)
    ensures
        destiny_objective_display_properties_wf(destiny_objective_display_properties_json(v)),
        destiny_objective_display_properties_json(v) matches Json::Obj(fields) && destiny_objective_display_properties_fields_match(fields, v),
{
    reveal_strlit("activityHash");
    reveal_strlit("displayOnItemPreviewScreen");
    let fields = destiny_objective_display_properties_json(v)->Obj_0;
    assert("activityHash"@.len() == 12);
    assert("displayOnItemPreviewScreen"@.len() == 26);
    assert("activityHash"@ != "displayOnItemPreviewScreen"@);
    lemma_lookup_at(fields, 0);
    lemma_lookup_at(fields, 1);
}

/// Decoding the encoded image of a record yields a record whose
/// every field carries the same content as the one encoded.
pub proof fn lemma_destiny_objective_display_properties_round_trip(v: DestinyObjectiveDisplayProperties, w: DestinyObjectiveDisplayProperties)
    requires
        destiny_objective_display_properties_json(v) matches Json::Obj(fields) && destiny_objective_display_properties_fields_match(fields, w),
    ensures
        destiny_objective_display_properties_wf(destiny_objective_display_properties_json(v)),
        w.activity_hash == v.activity_hash,
        w.display_on_item_preview_screen == v.display_on_item_preview_screen,
{
    lemma_destiny_objective_display_properties_image(v);
    let fields = destiny_objective_display_properties_json(v)->Obj_0;
    reveal_strlit("activityHash");
    reveal_strlit("displayOnItemPreviewScreen");
    assert("activityHash"@.len() == 12);
    assert("displayOnItemPreviewScreen"@.len() == 26);
    assert("activityHash"@ != "displayOnItemPreviewScreen"@);
    lemma_lookup_at(fields, 0);
    lemma_lookup_at(fields, 1);
}

/// The wire image of this record.
pub open spec fn destiny_item_summary_block_definition_json(v: DestinyItemSummaryBlockDefinition) -> Json {
    Json::Obj(
        seq![
            ("sortPriority"@, Json::Int(v.sort_priority as int)),
        ],
    )
}

/// Whether a document decodes as this record: an object with exactly these fields.
pub open spec fn destiny_item_summary_block_definition_wf(j: Json) -> bool {
    &&& j matches Json::Obj(fields)
    &&& spec_lookup(fields, "sortPriority"@) matches Some(Json::Int(n)) && i32::MIN as int <= n <= i32::MAX as int
    &&& forall|i: int| 0 <= i < fields.len()
        ==> ((#[trigger] fields[i]).0 == "sortPriority"@)
}

/// How a decoded record relates to the document it came from.
pub open spec fn destiny_item_summary_block_definition_fields_match(fields: Seq<(Seq<char>, Json)>, w: DestinyItemSummaryBlockDefinition) -> bool {
    &&& spec_lookup(fields, "sortPriority"@) == Some(Json::Int(w.sort_priority as int))
}

/// What a decode failure names: its path points at a field of the
/// document that is indeed not decodable, and an undeclared
/// enumeration code is reported with the enumeration's own message.
pub open spec fn destiny_item_summary_block_definition_err_ok(j: Json, e: DecodeError) -> bool {
    &&& !(j matches Json::Obj(_)) ==> e.path@.len() == 0
    &&& j matches Json::Obj(fields) ==> (
        (e.path@ == "sortPriority"@ && !(spec_lookup(fields, "sortPriority"@) matches Some(Json::Int(n)) && i32::MIN as int <= n <= i32::MAX as int))
        || (exists|i: int| 0 <= i < fields.len() && (#[trigger] fields[i]).0 == e.path@ && !((fields[i].0 == "sortPriority"@))))
}

pub fn encode_destiny_item_summary_block_definition(v: &DestinyItemSummaryBlockDefinition) -> (r: JsonValue)
    ensures
        jview(r) == destiny_item_summary_block_definition_json(*v),
{
    let mut fields: Vec<(String, JsonValue)> = Vec::new();
    fields.push(("sortPriority".to_owned(), JsonValue::Int(v.sort_priority as i64)));
    let r = JsonValue::Obj(fields);
    proof {
        assert(jview(fields@[0].1) == destiny_item_summary_block_definition_json(*v)->Obj_0[0].1);
        assert(jview(r)->Obj_0 =~= destiny_item_summary_block_definition_json(*v)->Obj_0);
    }
    r
}

/// Decodes this record; a failure names the offending field in its
/// path and says what was expected of it.
#[verifier::loop_isolation(false)]
pub fn decode_destiny_item_summary_block_definition(j: &JsonValue) -> (r: Result<DestinyItemSummaryBlockDefinition, DecodeError>)
    ensures
        r is Ok <==> destiny_item_summary_block_definition_wf(jview(*j)),
        r matches Ok(w) ==> (jview(*j) matches Json::Obj(fields)
            && destiny_item_summary_block_definition_fields_match(fields, w)),
        r matches Err(e) ==> destiny_item_summary_block_definition_err_ok(jview(*j), e),
{
    let fields = match j {
        JsonValue::Obj(fields) => fields,
        _ => {
            return Err(root_error("an object"));
        },
    };
    let ghost gf = jview(*j)->Obj_0;
    let sort_priority = match j.get("sortPriority") {
        Some(v) => match v.to_i64() {
            Some(n) if i32::MIN as i64 <= n && n <= i32::MAX as i64 => n as i32,
            _ => {
                return Err(field_error("sortPriority", "a 32-bit integer"));
            },
        },
        _ => {
            return Err(field_error("sortPriority", "a 32-bit integer"));
        },
    };
    let mut i: usize = 0;
    while i < fields.len()
        invariant
            i <= fields.len(),
            gf.len() == fields@.len(),
            forall|k: int| 0 <= k < gf.len()
                ==> #[trigger] gf[k] == (fields@[k].0@, jview(fields@[k].1)),
            forall|k: int| 0 <= k < i
                ==> ((#[trigger] gf[k]).0 == "sortPriority"@),
        decreases fields.len() - i,
    {
        let name = fields[i].0.as_str();
        if !(str_eq(name, "sortPriority")) {
            proof {
                assert(gf[i as int].0 == fields@[i as int].0@);
                assert(!destiny_item_summary_block_definition_wf(jview(*j)));
            }
            return Err(field_error(fields[i].0.as_str(), "an unknown field"));
        }
        i = i + 1;
    }
    Ok(DestinyItemSummaryBlockDefinition { sort_priority })
}

/// The wire image of a record is well formed and matched by the
/// record itself: encoding loses nothing that decoding reads.
pub proof fn lemma_destiny_item_summary_block_definition_image(v: DestinyItemSummaryBlockDefinition)
    ensures
        destiny_item_summary_block_definition_wf(destiny_item_summary_block_definition_json(v)),
        destiny_item_summary_block_definition_json(v) matches Json::Obj(fields) && destiny_item_summary_block_definition_fields_match(fields, v),
{
    reveal_strlit("sortPriority");
    let fields = destiny_item_summary_block_definition_json(v)->Obj_0;
    assert("sortPriority"@.len() == 12);
    lemma_lookup_at(fields, 0);
}

/// Decoding the encoded image of a record yields a record whose
/// every field carries the same content as the one encoded.
pub proof fn lemma_destiny_item_summary_block_definition_round_trip(v: DestinyItemSummaryBlockDefinition, w: DestinyItemSummaryBlockDefinition)
    requires
        destiny_item_summary_block_definition_json(v) matches Json::Obj(fields) && destiny_item_summary_block_definition_fields_match(fields, w),
    ensures
        destiny_item_summary_block_definition_wf(destiny_item_summary_block_definition_json(v)),
        w.sort_priority == v.sort_priority,
{
    lemma_destiny_item_summary_block_definition_image(v);
    let fields = destiny_item_summary_block_definition_json(v)->Obj_0;
    reveal_strlit("sortPriority");
    assert("sortPriority"@.len() == 12);
    lemma_lookup_at(fields, 0);
}

/// The wire image of this record.
pub open spec fn destiny_item_investment_stat_definition_json(v: DestinyItemInvestmentStatDefinition) -> Json {
    Json::Obj(
        seq![
            ("statTypeHash"@, Json::Int(v.stat_type_hash as int)),
            ("value"@, Json::Int(v.value as int)),
            ("isConditionallyActive"@, Json::Bool(v.is_conditionally_active)),
        ],
    )
}

/// Whether a document decodes as this record: an object with exactly these fields.
pub open spec fn destiny_item_investment_stat_definition_wf(j: Json) -> bool {
    &&& j matches Json::Obj(fields)
    &&& spec_lookup(fields, "statTypeHash"@) matches Some(Json::Int(n)) && 0 <= n <= u32::MAX as int
    &&& spec_lookup(fields, "value"@) matches Some(Json::Int(n)) && i32::MIN as int <= n <= i32::MAX as int
    &&& spec_lookup(fields, "isConditionallyActive"@) matches Some(Json::Bool(_))
    &&& forall|i: int| 0 <= i < fields.len()
        ==> ((#[trigger] fields[i]).0 == "statTypeHash"@ || fields[i].0 == "value"@ || fields[i].0 == "isConditionallyActive"@)
}

/// How a decoded record relates to the document it came from.
pub open spec fn destiny_item_investment_stat_definition_fields_match(fields: Seq<(Seq<char>, Json)>, w: DestinyItemInvestmentStatDefinition) -> bool {
    &&& spec_lookup(fields, "statTypeHash"@) == Some(Json::Int(w.stat_type_hash as int))
    &&& spec_lookup(fields, "value"@) == Some(Json::Int(w.value as int))
    &&& spec_lookup(fields, "isConditionallyActive"@) == Some(Json::Bool(w.is_conditionally_active))
}

/// What a decode failure names: its path points at a field of the
/// document that is indeed not decodable, and an undeclared
/// enumeration code is reported with the enumeration's own message.
pub open spec fn destiny_item_investment_stat_definition_err_ok(j: Json, e: DecodeError) -> bool {
    &&& !(j matches Json::Obj(_)) ==> e.path@.len() == 0
    &&& j matches Json::Obj(fields) ==> (
        (e.path@ == "statTypeHash"@ && !(spec_lookup(fields, "statTypeHash"@) matches Some(Json::Int(n)) && 0 <= n <= u32::MAX as int))
        || (e.path@ == "value"@ && !(spec_lookup(fields, "value"@) matches Some(Json::Int(n)) && i32::MIN as int <= n <= i32::MAX as int))
        || (e.path@ == "isConditionallyActive"@ && !(spec_lookup(fields, "isConditionallyActive"@) matches Some(Json::Bool(_))))
        || (exists|i: int| 0 <= i < fields.len() && (#[trigger] fields[i]).0 == e.path@ && !((fields[i].0 == "statTypeHash"@ || fields[i].0 == "value"@ || fields[i].0 == "isConditionallyActive"@))))
}

pub fn encode_destiny_item_investment_stat_definition(v: &DestinyItemInvestmentStatDefinition) -> (r: JsonValue)
    ensures
        jview(r) == destiny_item_investment_stat_definition_json(*v),
{
    let mut fields: Vec<(String, JsonValue)> = Vec::new();
    fields.push(("statTypeHash".to_owned(), JsonValue::Int(v.stat_type_hash as i64)));
    fields.push(("value".to_owned(), JsonValue::Int(v.value as i64)));
    fields.push(("isConditionallyActive".to_owned(), JsonValue::Bool(v.is_conditionally_active)));
    let r = JsonValue::Obj(fields);
    proof {
        assert(jview(fields@[0].1) == destiny_item_investment_stat_definition_json(*v)->Obj_0[0].1);
        assert(jview(fields@[1].1) == destiny_item_investment_stat_definition_json(*v)->Obj_0[1].1);
        assert(jview(fields@[2].1) == destiny_item_investment_stat_definition_json(*v)->Obj_0[2].1);
        assert(jview(r)->Obj_0 =~= destiny_item_investment_stat_definition_json(*v)->Obj_0);
    }
    r
}

/// Decodes this record; a failure names the offending field in its
/// path and says what was expected of it.
#[verifier::loop_isolation(false)]
pub fn decode_destiny_item_investment_stat_definition(j: &JsonValue) -> (r: Result<DestinyItemInvestmentStatDefinition, DecodeError>)
    ensures
        r is Ok <==> destiny_item_investment_stat_definition_wf(jview(*j)),
        r matches Ok(w) ==> (jview(*j) matches Json::Obj(fields)
            && destiny_item_investment_stat_definition_fields_match(fields, w)),
        r matches Err(e) ==> destiny_item_investment_stat_definition_err_ok(jview(*j), e),
{
    let fields = match j {
        JsonValue::Obj(fields) => fields,
        _ => {
            return Err(root_error("an object"));
        },
    };
    let ghost gf = jview(*j)->Obj_0;
    let stat_type_hash = match j.get("statTypeHash") {
        Some(v) => match v.to_i64() {
            Some(n) if 0 <= n && n <= u32::MAX as i64 => n as u32,
            _ => {
                return Err(field_error("statTypeHash", "a 32-bit unsigned integer"));
            },
        },
        _ => {
            return Err(field_error("statTypeHash", "a 32-bit unsigned integer"));
        },
    };
    let value = match j.get("value") {
        Some(v) => match v.to_i64() {
            Some(n) if i32::MIN as i64 <= n && n <= i32::MAX as i64 => n as i32,
            _ => {
                return Err(field_error("value", "a 32-bit integer"));
            },
        },
        _ => {
            return Err(field_error("value", "a 32-bit integer"));
        },
    };
    let is_conditionally_active = match j.get("isConditionallyActive") {
        Some(JsonValue::Bool(b)) => *b,
        _ => {
            return Err(field_error("isConditionallyActive", "a boolean"));
        },
    };
    let mut i: usize = 0;
    while i < fields.len()
        invariant
            i <= fields.len(),
            gf.len() == fields@.len(),
            forall|k: int| 0 <= k < gf.len()
                ==> #[trigger] gf[k] == (fields@[k].0@, jview(fields@[k].1)),
            forall|k: int| 0 <= k < i
                ==> ((#[trigger] gf[k]).0 == "statTypeHash"@ || gf[k].0 == "value"@ || gf[k].0 == "isConditionallyActive"@),
        decreases fields.len() - i,
    {
        let name = fields[i].0.as_str();
        if !(str_eq(name, "statTypeHash") || str_eq(name, "value") || str_eq(name, "isConditionallyActive")) {
            proof {
                assert(gf[i as int].0 == fields@[i as int].0@);
                assert(!destiny_item_investment_stat_definition_wf(jview(*j)));
            }
            return Err(field_error(fields[i].0.as_str(), "an unknown field"));
        }
        i = i + 1;
    }
    Ok(DestinyItemInvestmentStatDefinition { stat_type_hash, value, is_conditionally_active })
}

/// The wire image of a record is well formed and matched by the
/// record itself: encoding loses nothing that decoding reads.
pub proof fn lemma_destiny_item_investment_stat_definition_image(v: DestinyItemInvestmentStatDefinition)
    ensures
        destiny_item_investment_stat_definition_wf(destiny_item_investment_stat_definition_json(v)),
        destiny_item_investment_stat_definition_json(v) matches Json::Obj(fields) && destiny_item_investment_stat_definition_fields_match(fields, v),
{
    reveal_strlit("statTypeHash");
    reveal_strlit("value");
    reveal_strlit("isConditionallyActive");
    let fields = destiny_item_investment_stat_definition_json(v)->Obj_0;
    assert("statTypeHash"@.len() == 12);
    assert("value"@.len() == 5);
    assert("isConditionallyActive"@.len() == 21);
    assert("statTypeHash"@ != "value"@);
    assert("statTypeHash"@ != "isConditionallyActive"@);
    assert("value"@ != "isConditionallyActive"@);
    lemma_lookup_at(fields, 0);
    lemma_lookup_at(fields, 1);
    lemma_lookup_at(fields, 2);
}

/// Decoding the encoded image of a record yields a record whose
/// every field carries the same content as the one encoded.
pub proof fn lemma_destiny_item_investment_stat_definition_round_trip(v: DestinyItemInvestmentStatDefinition, w: DestinyItemInvestmentStatDefinition)
    requires
        destiny_item_investment_stat_definition_json(v) matches Json::Obj(fields) && destiny_item_investment_stat_definition_fields_match(fields, w),
    ensures
        destiny_item_investment_stat_definition_wf(destiny_item_investment_stat_definition_json(v)),
        w.stat_type_hash == v.stat_type_hash,
        w.value == v.value,
        w.is_conditionally_active == v.is_conditionally_active,
{
    lemma_destiny_item_investment_stat_definition_image(v);
    let fields = destiny_item_investment_stat_definition_json(v)->Obj_0;
    reveal_strlit("statTypeHash");
    reveal_strlit("value");
    reveal_strlit("isConditionallyActive");
    assert("statTypeHash"@.len() == 12);
    assert("value"@.len() == 5);
    assert("isConditionallyActive"@.len() == 21);
    assert("statTypeHash"@ != "value"@);
    assert("statTypeHash"@ != "isConditionallyActive"@);
    assert("value"@ != "isConditionallyActive"@);
    lemma_lookup_at(fields, 0);
    lemma_lookup_at(fields, 1);
    lemma_lookup_at(fields, 2);
}

/// The wire image of this record.
pub open spec fn destiny_derived_item_definition_json(v: DestinyDerivedItemDefinition) -> Json {
    Json::Obj(
        seq![
            ("itemHash"@, Json::Int(v.item_hash as int)),
            ("itemName"@, (match v.item_name { Some(x) => Json::Str(x@), Option::None => Json::Null })),
            ("itemDetail"@, (match v.item_detail { Some(x) => Json::Str(x@), Option::None => Json::Null })),
            ("itemDescription"@, (match v.item_description { Some(x) => Json::Str(x@), Option::None => Json::Null })),
            ("iconPath"@, (match v.icon_path { Some(x) => Json::Str(x@), Option::None => Json::Null })),
            ("vendorItemIndex"@, Json::Int(v.vendor_item_index as int)),
        ],
    )
}

/// Whether a document decodes as this record: an object with exactly these fields.
pub open spec fn destiny_derived_item_definition_wf(j: Json) -> bool {
    &&& j matches Json::Obj(fields)
    &&& spec_lookup(fields, "itemHash"@) matches Some(Json::Int(n)) && 0 <= n <= u32::MAX as int
    &&& match spec_lookup(fields, "itemName"@) { Option::None => true, Some(Json::Null) => true, Some(Json::Str(_)) => true, _ => false }
    &&& match spec_lookup(fields, "itemDetail"@) { Option::None => true, Some(Json::Null) => true, Some(Json::Str(_)) => true, _ => false }
    &&& match spec_lookup(fields, "itemDescription"@) { Option::None => true, Some(Json::Null) => true, Some(Json::Str(_)) => true, _ => false }
    &&& match spec_lookup(fields, "iconPath"@) { Option::None => true, Some(Json::Null) => true, Some(Json::Str(_)) => true, _ => false }
    &&& spec_lookup(fields, "vendorItemIndex"@) matches Some(Json::Int(n)) && 0 <= n <= u32::MAX as int
    &&& forall|i: int| 0 <= i < fields.len()
        ==> ((#[trigger] fields[i]).0 == "itemHash"@ || fields[i].0 == "itemName"@ || fields[i].0 == "itemDetail"@ || fields[i].0 == "itemDescription"@ || fields[i].0 == "iconPath"@ || fields[i].0 == "vendorItemIndex"@)
}

/// How a decoded record relates to the document it came from.
pub open spec fn destiny_derived_item_definition_fields_match(fields: Seq<(Seq<char>, Json)>, w: DestinyDerivedItemDefinition) -> bool {
    &&& spec_lookup(fields, "itemHash"@) == Some(Json::Int(w.item_hash as int))
    &&& match w.item_name { Some(x) => spec_lookup(fields, "itemName"@) == Some(Json::Str(x@)), Option::None => spec_lookup(fields, "itemName"@) is None || spec_lookup(fields, "itemName"@) == Some(Json::Null) }
    &&& match w.item_detail { Some(x) => spec_lookup(fields, "itemDetail"@) == Some(Json::Str(x@)), Option::None => spec_lookup(fields, "itemDetail"@) is None || spec_lookup(fields, "itemDetail"@) == Some(Json::Null) }
    &&& match w.item_description { Some(x) => spec_lookup(fields, "itemDescription"@) == Some(Json::Str(x@)), Option::None => spec_lookup(fields, "itemDescription"@) is None || spec_lookup(fields, "itemDescription"@) == Some(Json::Null) }
    &&& match w.icon_path { Some(x) => spec_lookup(fields, "iconPath"@) == Some(Json::Str(x@)), Option::None => spec_lookup(fields, "iconPath"@) is None || spec_lookup(fields, "iconPath"@) == Some(Json::Null) }
    &&& spec_lookup(fields, "vendorItemIndex"@) == Some(Json::Int(w.vendor_item_index as int))
}

/// What a decode failure names: its path points at a field of the
/// document that is indeed not decodable, and an undeclared
/// enumeration code is reported with the enumeration's own message.
pub open spec fn destiny_derived_item_definition_err_ok(j: Json, e: DecodeError) -> bool {
    &&& !(j matches Json::Obj(_)) ==> e.path@.len() == 0
    &&& j matches Json::Obj(fields) ==> (
        (e.path@ == "itemHash"@ && !(spec_lookup(fields, "itemHash"@) matches Some(Json::Int(n)) && 0 <= n <= u32::MAX as int))
        || (e.path@ == "itemName"@ && !(match spec_lookup(fields, "itemName"@) { Option::None => true, Some(Json::Null) => true, Some(Json::Str(_)) => true, _ => false }))
        || (e.path@ == "itemDetail"@ && !(match spec_lookup(fields, "itemDetail"@) { Option::None => true, Some(Json::Null) => true, Some(Json::Str(_)) => true, _ => false }))
        || (e.path@ == "itemDescription"@ && !(match spec_lookup(fields, "itemDescription"@) { Option::None => true, Some(Json::Null) => true, Some(Json::Str(_)) => true, _ => false }))
        || (e.path@ == "iconPath"@ && !(match spec_lookup(fields, "iconPath"@) { Option::None => true, Some(Json::Null) => true, Some(Json::Str(_)) => true, _ => false }))
        || (e.path@ == "vendorItemIndex"@ && !(spec_lookup(fields, "vendorItemIndex"@) matches Some(Json::Int(n)) && 0 <= n <= u32::MAX as int))
        || (exists|i: int| 0 <= i < fields.len() && (#[trigger] fields[i]).0 == e.path@ && !((fields[i].0 == "itemHash"@ || fields[i].0 == "itemName"@ || fields[i].0 == "itemDetail"@ || fields[i].0 == "itemDescription"@ || fields[i].0 == "iconPath"@ || fields[i].0 == "vendorItemIndex"@))))
}

pub fn encode_destiny_derived_item_definition(v: &DestinyDerivedItemDefinition) -> (r: JsonValue)
    ensures
        jview(r) == destiny_derived_item_definition_json(*v),
{
    let mut fields: Vec<(String, JsonValue)> = Vec::new();
    fields.push(("itemHash".to_owned(), JsonValue::Int(v.item_hash as i64)));
    fields.push(("itemName".to_owned(), match &v.item_name {
        Some(x) => JsonValue::Str(x.clone()),
        Option::None => JsonValue::Null,
    }));
    fields.push(("itemDetail".to_owned(), match &v.item_detail {
        Some(x) => JsonValue::Str(x.clone()),
        Option::None => JsonValue::Null,
    }));
    fields.push(("itemDescription".to_owned(), match &v.item_description {
        Some(x) => JsonValue::Str(x.clone()),
        Option::None => JsonValue::Null,
    }));
    fields.push(("iconPath".to_owned(), match &v.icon_path {
        Some(x) => JsonValue::Str(x.clone()),
        Option::None => JsonValue::Null,
    }));
    fields.push(("vendorItemIndex".to_owned(), JsonValue::Int(v.vendor_item_index as i64)));
    let r = JsonValue::Obj(fields);
    proof {
        assert(jview(fields@[0].1) == destiny_derived_item_definition_json(*v)->Obj_0[0].1);
        assert(jview(fields@[1].1) == destiny_derived_item_definition_json(*v)->Obj_0[1].1);
        assert(jview(fields@[2].1) == destiny_derived_item_definition_json(*v)->Obj_0[2].1);
        assert(jview(fields@[3].1) == destiny_derived_item_definition_json(*v)->Obj_0[3].1);
        assert(jview(fields@[4].1) == destiny_derived_item_definition_json(*v)->Obj_0[4].1);
        assert(jview(fields@[5].1) == destiny_derived_item_definition_json(*v)->Obj_0[5].1);
        assert(jview(r)->Obj_0 =~= destiny_derived_item_definition_json(*v)->Obj_0);
    }
    r
}

/// Decodes this record; a failure names the offending field in its
/// path and says what was expected of it.
#[verifier::loop_isolation(false)]
pub fn decode_destiny_derived_item_definition(j: &JsonValue) -> (r: Result<DestinyDerivedItemDefinition, DecodeError>)
    ensures
        r is Ok <==> destiny_derived_item_definition_wf(jview(*j)),
        r matches Ok(w) ==> (jview(*j) matches Json::Obj(fields)
            && destiny_derived_item_definition_fields_match(fields, w)),
        r matches Err(e) ==> destiny_derived_item_definition_err_ok(jview(*j), e),
{
    let fields = match j {
        JsonValue::Obj(fields) => fields,
        _ => {
            return Err(root_error("an object"));
        },
    };
    let ghost gf = jview(*j)->Obj_0;
    let item_hash = match j.get("itemHash") {
        Some(v) => match v.to_i64() {
            Some(n) if 0 <= n && n <= u32::MAX as i64 => n as u32,
            _ => {
                return Err(field_error("itemHash", "a 32-bit unsigned integer"));
            },
        },
        _ => {
            return Err(field_error("itemHash", "a 32-bit unsigned integer"));
        },
    };
    let item_name = match j.get("itemName") {
        Option::None => Option::None,
        Some(JsonValue::Null) => Option::None,
        Some(JsonValue::Str(s)) => Some(s.clone()),
        _ => {
            return Err(field_error("itemName", "a string or null"));
        },
    };
    let item_detail = match j.get("itemDetail") {
        Option::None => Option::None,
        Some(JsonValue::Null) => Option::None,
        Some(JsonValue::Str(s)) => Some(s.clone()),
        _ => {
            return Err(field_error("itemDetail", "a string or null"));
        },
    };
    let item_description = match j.get("itemDescription") {
        Option::None => Option::None,
        Some(JsonValue::Null) => Option::None,
        Some(JsonValue::Str(s)) => Some(s.clone()),
        _ => {
            return Err(field_error("itemDescription", "a string or null"));
        },
    };
    let icon_path = match j.get("iconPath") {
        Option::None => Option::None,
        Some(JsonValue::Null) => Option::None,
        Some(JsonValue::Str(s)) => Some(s.clone()),
        _ => {
            return Err(field_error("iconPath", "a string or null"));
        },
    };
    let vendor_item_index = match j.get("vendorItemIndex") {
        Some(v) => match v.to_i64() {
            Some(n) if 0 <= n && n <= u32::MAX as i64 => n as u32,
            _ => {
                return Err(field_error("vendorItemIndex", "a 32-bit unsigned integer"));
            },
        },
        _ => {
            return Err(field_error("vendorItemIndex", "a 32-bit unsigned integer"));
        },
    };
    let mut i: usize = 0;
    while i < fields.len()
        invariant
            i <= fields.len(),
            gf.len() == fields@.len(),
            forall|k: int| 0 <= k < gf.len()
                ==> #[trigger] gf[k] == (fields@[k].0@, jview(fields@[k].1)),
            forall|k: int| 0 <= k < i
                ==> ((#[trigger] gf[k]).0 == "itemHash"@ || gf[k].0 == "itemName"@ || gf[k].0 == "itemDetail"@ || gf[k].0 == "itemDescription"@ || gf[k].0 == "iconPath"@ || gf[k].0 == "vendorItemIndex"@),
        decreases fields.len() - i,
    {
        let name = fields[i].0.as_str();
        if !(str_eq(name, "itemHash") || str_eq(name, "itemName") || str_eq(name, "itemDetail") || str_eq(name, "itemDescription") || str_eq(name, "iconPath") || str_eq(name, "vendorItemIndex")) {
            proof {
                assert(gf[i as int].0 == fields@[i as int].0@);
                assert(!destiny_derived_item_definition_wf(jview(*j)));
            }
            return Err(field_error(fields[i].0.as_str(), "an unknown field"));
        }
        i = i + 1;
    }
    Ok(DestinyDerivedItemDefinition { item_hash, item_name, item_detail, item_description, icon_path, vendor_item_index })
}

/// The wire image of a record is well formed and matched by the
/// record itself: encoding loses nothing that decoding reads.
pub proof fn lemma_destiny_derived_item_definition_image(v: DestinyDerivedItemDefinition)
    ensures
        destiny_derived_item_definition_wf(destiny_derived_item_definition_json(v)),
        destiny_derived_item_definition_json(v) matches Json::Obj(fields) && destiny_derived_item_definition_fields_match(fields, v),
{
    reveal_strlit("itemHash");
    reveal_strlit("itemName");
    reveal_strlit("itemDetail");
    reveal_strlit("itemDescription");
    reveal_strlit("iconPath");
    reveal_strlit("vendorItemIndex");
    let fields = destiny_derived_item_definition_json(v)->Obj_0;
    assert("itemHash"@.len() == 8);
    assert("itemName"@.len() == 8);
    assert("itemDetail"@.len() == 10);
    assert("itemDescription"@.len() == 15);
    assert("iconPath"@.len() == 8);
    assert("vendorItemIndex"@.len() == 15);
    assert(("itemHash"@)[4] != ("itemName"@)[4]);
    assert("itemHash"@ != "itemName"@);
    assert("itemHash"@ != "itemDetail"@);
    assert("itemHash"@ != "itemDescription"@);
    assert(("itemHash"@)[1] != ("iconPath"@)[1]);
    assert("itemHash"@ != "iconPath"@);
    assert("itemHash"@ != "vendorItemIndex"@);
    assert("itemName"@ != "itemDetail"@);
    assert("itemName"@ != "itemDescription"@);
    assert(("itemName"@)[1] != ("iconPath"@)[1]);
    assert("itemName"@ != "iconPath"@);
    assert("itemName"@ != "vendorItemIndex"@);
    assert("itemDetail"@ != "itemDescription"@);
    assert("itemDetail"@ != "iconPath"@);
    assert("itemDetail"@ != "vendorItemIndex"@);
    assert("itemDescription"@ != "iconPath"@);
    assert(("itemDescription"@)[0] != ("vendorItemIndex"@)[0]);
    assert("itemDescription"@ != "vendorItemIndex"@);
    assert("iconPath"@ != "vendorItemIndex"@);
    lemma_lookup_at(fields, 0);
    lemma_lookup_at(fields, 1);
    lemma_lookup_at(fields, 2);
    lemma_lookup_at(fields, 3);
    lemma_lookup_at(fields, 4);
    lemma_lookup_at(fields, 5);
}

/// Decoding the encoded image of a record yields a record whose
/// every field carries the same content as the one encoded.
pub proof fn lemma_destiny_derived_item_definition_round_trip(v: DestinyDerivedItemDefinition, w: DestinyDerivedItemDefinition)
    requires
        destiny_derived_item_definition_json(v) matches Json::Obj(fields) && destiny_derived_item_definition_fields_match(fields, w),
    ensures
        destiny_derived_item_definition_wf(destiny_derived_item_definition_json(v)),
        w.item_hash == v.item_hash,
        (match v.item_name { Some(x) => w.item_name matches Some(y) && y@ == x@, Option::None => w.item_name is None }),
        (match v.item_detail { Some(x) => w.item_detail matches Some(y) && y@ == x@, Option::None => w.item_detail is None }),
        (match v.item_description { Some(x) => w.item_description matches Some(y) && y@ == x@, Option::None => w.item_description is None }),
        (match v.icon_path { Some(x) => w.icon_path matches Some(y) && y@ == x@, Option::None => w.icon_path is None }),
        w.vendor_item_index == v.vendor_item_index,
{
    lemma_destiny_derived_item_definition_image(v);
    let fields = destiny_derived_item_definition_json(v)->Obj_0;
    reveal_strlit("itemHash");
    reveal_strlit("itemName");
    reveal_strlit("itemDetail");
    reveal_strlit("itemDescription");
    reveal_strlit("iconPath");
    reveal_strlit("vendorItemIndex");
    assert("itemHash"@.len() == 8);
    assert("itemName"@.len() == 8);
    assert("itemDetail"@.len() == 10);
    assert("itemDescription"@.len() == 15);
    assert("iconPath"@.len() == 8);
    assert("vendorItemIndex"@.len() == 15);
    assert(("itemHash"@)[4] != ("itemName"@)[4]);
    assert("itemHash"@ != "itemName"@);
    assert("itemHash"@ != "itemDetail"@);
    assert("itemHash"@ != "itemDescription"@);
    assert(("itemHash"@)[1] != ("iconPath"@)[1]);
    assert("itemHash"@ != "iconPath"@);
    assert("itemHash"@ != "vendorItemIndex"@);
    assert("itemName"@ != "itemDetail"@);
    assert("itemName"@ != "itemDescription"@);
    assert(("itemName"@)[1] != ("iconPath"@)[1]);
    assert("itemName"@ != "iconPath"@);
    assert("itemName"@ != "vendorItemIndex"@);
    assert("itemDetail"@ != "itemDescription"@);
    assert("itemDetail"@ != "iconPath"@);
    assert("itemDetail"@ != "vendorItemIndex"@);
    assert("itemDescription"@ != "iconPath"@);
    assert(("itemDescription"@)[0] != ("vendorItemIndex"@)[0]);
    assert("itemDescription"@ != "vendorItemIndex"@);
    assert("iconPath"@ != "vendorItemIndex"@);
    lemma_lookup_at(fields, 0);
    lemma_lookup_at(fields, 1);
    lemma_lookup_at(fields, 2);
    lemma_lookup_at(fields, 3);
    lemma_lookup_at(fields, 4);
    lemma_lookup_at(fields, 5);
}

/// The wire image of this record.
pub open spec fn destiny_plug_rule_definition_json(v: DestinyPlugRuleDefinition) -> Json {
    Json::Obj(
        seq![
            ("failureMessage"@, Json::Str(v.failure_message@)),
        ],
    )
}

/// Whether a document decodes as this record: an object with exactly these fields.
pub open spec fn destiny_plug_rule_definition_wf(j: Json) -> bool {
    &&& j matches Json::Obj(fields)
    &&& spec_lookup(fields, "failureMessage"@) matches Some(Json::Str(_))
    &&& forall|i: int| 0 <= i < fields.len()
        ==> ((#[trigger] fields[i]).0 == "failureMessage"@)
}

/// How a decoded record relates to the document it came from.
pub open spec fn destiny_plug_rule_definition_fields_match(fields: Seq<(Seq<char>, Json)>, w: DestinyPlugRuleDefinition) -> bool {
    &&& spec_lookup(fields, "failureMessage"@) == Some(Json::Str(w.failure_message@))
}

/// What a decode failure names: its path points at a field of the
/// document that is indeed not decodable, and an undeclared
/// enumeration code is reported with the enumeration's own message.
pub open spec fn destiny_plug_rule_definition_err_ok(j: Json, e: DecodeError) -> bool {
    &&& !(j matches Json::Obj(_)) ==> e.path@.len() == 0
    &&& j matches Json::Obj(fields) ==> (
        (e.path@ == "failureMessage"@ && !(spec_lookup(fields, "failureMessage"@) matches Some(Json::Str(_))))
        || (exists|i: int| 0 <= i < fields.len() && (#[trigger] fields[i]).0 == e.path@ && !((fields[i].0 == "failureMessage"@))))
}

pub fn encode_destiny_plug_rule_definition(v: &DestinyPlugRuleDefinition) -> (r: JsonValue)
    ensures
        jview(r) == destiny_plug_rule_definition_json(*v),
{
    let mut fields: Vec<(String, JsonValue)> = Vec::new();
    fields.push(("failureMessage".to_owned(), JsonValue::Str(v.failure_message.clone())));
    let r = JsonValue::Obj(fields);
    proof {
        assert(jview(fields@[0].1) == destiny_plug_rule_definition_json(*v)->Obj_0[0].1);
        assert(jview(r)->Obj_0 =~= destiny_plug_rule_definition_json(*v)->Obj_0);
    }
    r
}

/// Decodes this record; a failure names the offending field in its
/// path and says what was expected of it.
#[verifier::loop_isolation(false)]
pub fn decode_destiny_plug_rule_definition(j: &JsonValue) -> (r: Result<DestinyPlugRuleDefinition, DecodeError>)
    ensures
        r is Ok <==> destiny_plug_rule_definition_wf(jview(*j)),
        r matches Ok(w) ==> (jview(*j) matches Json::Obj(fields)
            && destiny_plug_rule_definition_fields_match(fields, w)),
        r matches Err(e) ==> destiny_plug_rule_definition_err_ok(jview(*j), e),
{
    let fields = match j {
        JsonValue::Obj(fields) => fields,
        _ => {
            return Err(root_error("an object"));
        },
    };
    let ghost gf = jview(*j)->Obj_0;
    let failure_message = match j.get("failureMessage") {
        Some(JsonValue::Str(s)) => s.clone(),
        _ => {
            return Err(field_error("failureMessage", "a string"));
        },
    };
    let mut i: usize = 0;
    while i < fields.len()
        invariant
            i <= fields.len(),
            gf.len() == fields@.len(),
            forall|k: int| 0 <= k < gf.len()
                ==> #[trigger] gf[k] == (fields@[k].0@, jview(fields@[k].1)),
            forall|k: int| 0 <= k < i
                ==> ((#[trigger] gf[k]).0 == "failureMessage"@),
        decreases fields.len() - i,
    {
        let name = fields[i].0.as_str();
        if !(str_eq(name, "failureMessage")) {
            proof {
                assert(gf[i as int].0 == fields@[i as int].0@);
                assert(!destiny_plug_rule_definition_wf(jview(*j)));
            }
            return Err(field_error(fields[i].0.as_str(), "an unknown field"));
        }
        i = i + 1;
    }
    Ok(DestinyPlugRuleDefinition { failure_message })
}

/// The wire image of a record is well formed and matched by the
/// record itself: encoding loses nothing that decoding reads.
pub proof fn lemma_destiny_plug_rule_definition_image(v: DestinyPlugRuleDefinition)
    ensures
        destiny_plug_rule_definition_wf(destiny_plug_rule_definition_json(v)),
        destiny_plug_rule_definition_json(v) matches Json::Obj(fields) && destiny_plug_rule_definition_fields_match(fields, v),
{
    reveal_strlit("failureMessage");
    let fields = destiny_plug_rule_definition_json(v)->Obj_0;
    assert("failureMessage"@.len() == 14);
    lemma_lookup_at(fields, 0);
}

/// Decoding the encoded image of a record yields a record whose
/// every field carries the same content as the one encoded.
pub proof fn lemma_destiny_plug_rule_definition_round_trip(v: DestinyPlugRuleDefinition, w: DestinyPlugRuleDefinition)
    requires
        destiny_plug_rule_definition_json(v) matches Json::Obj(fields) && destiny_plug_rule_definition_fields_match(fields, w),
    ensures
        destiny_plug_rule_definition_wf(destiny_plug_rule_definition_json(v)),
        w.failure_message@ == v.failure_message@,
{
    lemma_destiny_plug_rule_definition_image(v);
    let fields = destiny_plug_rule_definition_json(v)->Obj_0;
    reveal_strlit("failureMessage");
    assert("failureMessage"@.len() == 14);
    lemma_lookup_at(fields, 0);
}

/// The wire image of this record.
pub open spec fn destiny_plug_item_crafting_unlock_requirement_json(v: DestinyPlugItemCraftingUnlockRequirement) -> Json {
    Json::Obj(
        seq![
            ("failureDescription"@, Json::Str(v.failure_description@)),
        ],
    )
}

/// Whether a document decodes as this record: an object with exactly these fields.
pub open spec fn destiny_plug_item_crafting_unlock_requirement_wf(j: Json) -> bool {
    &&& j matches Json::Obj(fields)
    &&& spec_lookup(fields, "failureDescription"@) matches Some(Json::Str(_))
    &&& forall|i: int| 0 <= i < fields.len()
        ==> ((#[trigger] fields[i]).0 == "failureDescription"@)
}

/// How a decoded record relates to the document it came from.
pub open spec fn destiny_plug_item_crafting_unlock_requirement_fields_match(fields: Seq<(Seq<char>, Json)>, w: DestinyPlugItemCraftingUnlockRequirement) -> bool {
    &&& spec_lookup(fields, "failureDescription"@) == Some(Json::Str(w.failure_description@))
}

/// What a decode failure names: its path points at a field of the
/// document that is indeed not decodable, and an undeclared
/// enumeration code is reported with the enumeration's own message.
pub open spec fn destiny_plug_item_crafting_unlock_requirement_err_ok(j: Json, e: DecodeError) -> bool {
    &&& !(j matches Json::Obj(_)) ==> e.path@.len() == 0
    &&& j matches Json::Obj(fields) ==> (
        (e.path@ == "failureDescription"@ && !(spec_lookup(fields, "failureDescription"@) matches Some(Json::Str(_))))
        || (exists|i: int| 0 <= i < fields.len() && (#[trigger] fields[i]).0 == e.path@ && !((fields[i].0 == "failureDescription"@))))
}

pub fn encode_destiny_plug_item_crafting_unlock_requirement(v: &DestinyPlugItemCraftingUnlockRequirement) -> (r: JsonValue)
    ensures
        jview(r) == destiny_plug_item_crafting_unlock_requirement_json(*v),
{
    let mut fields: Vec<(String, JsonValue)> = Vec::new();
    fields.push(("failureDescription".to_owned(), JsonValue::Str(v.failure_description.clone())));
    let r = JsonValue::Obj(fields);
    proof {
        assert(jview(fields@[0].1) == destiny_plug_item_crafting_unlock_requirement_json(*v)->Obj_0[0].1);
        assert(jview(r)->Obj_0 =~= destiny_plug_item_crafting_unlock_requirement_json(*v)->Obj_0);
    }
    r
}

/// Decodes this record; a failure names the offending field in its
/// path and says what was expected of it.
#[verifier::loop_isolation(false)]
pub fn decode_destiny_plug_item_crafting_unlock_requirement(j: &JsonValue) -> (r: Result<DestinyPlugItemCraftingUnlockRequirement, DecodeError>)
    ensures
        r is Ok <==> destiny_plug_item_crafting_unlock_requirement_wf(jview(*j)),
        r matches Ok(w) ==> (jview(*j) matches Json::Obj(fields)
            && destiny_plug_item_crafting_unlock_requirement_fields_match(fields, w)),
        r matches Err(e) ==> destiny_plug_item_crafting_unlock_requirement_err_ok(jview(*j), e),
{
    let fields = match j {
        JsonValue::Obj(fields) => fields,
        _ => {
            return Err(root_error("an object"));
        },
    };
    let ghost gf = jview(*j)->Obj_0;
    let failure_description = match j.get("failureDescription") {
        Some(JsonValue::Str(s)) => s.clone(),
        _ => {
            return Err(field_error("failureDescription", "a string"));
        },
    };
    let mut i: usize = 0;
    while i < fields.len()
        invariant
            i <= fields.len(),
            gf.len() == fields@.len(),
            forall|k: int| 0 <= k < gf.len()
                ==> #[trigger] gf[k] == (fields@[k].0@, jview(fields@[k].1)),
            forall|k: int| 0 <= k < i
                ==> ((#[trigger] gf[k]).0 == "failureDescription"@),
        decreases fields.len() - i,
    {
        let name = fields[i].0.as_str();
        if !(str_eq(name, "failureDescription")) {
            proof {
                assert(gf[i as int].0 == fields@[i as int].0@);
                assert(!destiny_plug_item_crafting_unlock_requirement_wf(jview(*j)));
            }
            return Err(field_error(fields[i].0.as_str(), "an unknown field"));
        }
        i = i + 1;
    }
    Ok(DestinyPlugItemCraftingUnlockRequirement { failure_description })
}

/// The wire image of a record is well formed and matched by the
/// record itself: encoding loses nothing that decoding reads.
pub proof fn lemma_destiny_plug_item_crafting_unlock_requirement_image(v: DestinyPlugItemCraftingUnlockRequirement)
    ensures
        destiny_plug_item_crafting_unlock_requirement_wf(destiny_plug_item_crafting_unlock_requirement_json(v)),
        destiny_plug_item_crafting_unlock_requirement_json(v) matches Json::Obj(fields) && destiny_plug_item_crafting_unlock_requirement_fields_match(fields, v),
{
    reveal_strlit("failureDescription");
    let fields = destiny_plug_item_crafting_unlock_requirement_json(v)->Obj_0;
    assert("failureDescription"@.len() == 18);
    lemma_lookup_at(fields, 0);
}

/// Decoding the encoded image of a record yields a record whose
/// every field carries the same content as the one encoded.
pub proof fn lemma_destiny_plug_item_crafting_unlock_requirement_round_trip(v: DestinyPlugItemCraftingUnlockRequirement, w: DestinyPlugItemCraftingUnlockRequirement)
    requires
        destiny_plug_item_crafting_unlock_requirement_json(v) matches Json::Obj(fields) && destiny_plug_item_crafting_unlock_requirement_fields_match(fields, w),
    ensures
        destiny_plug_item_crafting_unlock_requirement_wf(destiny_plug_item_crafting_unlock_requirement_json(v)),
        w.failure_description@ == v.failure_description@,
{
    lemma_destiny_plug_item_crafting_unlock_requirement_image(v);
    let fields = destiny_plug_item_crafting_unlock_requirement_json(v)->Obj_0;
    reveal_strlit("failureDescription");
    assert("failureDescription"@.len() == 18);
    lemma_lookup_at(fields, 0);
}

/// The wire image of this record.
pub open spec fn destiny_milestone_vendor_json(v: DestinyMilestoneVendor) -> Json {
    Json::Obj(
        seq![
            ("vendorHash"@, Json::Int(v.vendor_hash as int)),
            ("previewItemHash"@, Json::Int(v.preview_item_hash as int)),
        ],
    )
}

/// Whether a document decodes as this record: unknown fields are tolerated.
pub open spec fn destiny_milestone_vendor_wf(j: Json) -> bool {
    &&& j matches Json::Obj(fields)
    &&& spec_lookup(fields, "vendorHash"@) matches Some(Json::Int(n)) && 0 <= n <= u32::MAX as int
    &&& spec_lookup(fields, "previewItemHash"@) matches Some(Json::Int(n)) && 0 <= n <= u32::MAX as int
}

/// How a decoded record relates to the document it came from.
pub open spec fn destiny_milestone_vendor_fields_match(fields: Seq<(Seq<char>, Json)>, w: DestinyMilestoneVendor) -> bool {
    &&& spec_lookup(fields, "vendorHash"@) == Some(Json::Int(w.vendor_hash as int))
    &&& spec_lookup(fields, "previewItemHash"@) == Some(Json::Int(w.preview_item_hash as int))
}

/// What a decode failure names: its path points at a field of the
/// document that is indeed not decodable, and an undeclared
/// enumeration code is reported with the enumeration's own message.
pub open spec fn destiny_milestone_vendor_err_ok(j: Json, e: DecodeError) -> bool {
    &&& !(j matches Json::Obj(_)) ==> e.path@.len() == 0
    &&& j matches Json::Obj(fields) ==> (
        (e.path@ == "vendorHash"@ && !(spec_lookup(fields, "vendorHash"@) matches Some(Json::Int(n)) && 0 <= n <= u32::MAX as int))
        || (e.path@ == "previewItemHash"@ && !(spec_lookup(fields, "previewItemHash"@) matches Some(Json::Int(n)) && 0 <= n <= u32::MAX as int)))
}

pub fn encode_destiny_milestone_vendor(v: &DestinyMilestoneVendor) -> (r: JsonValue)
    ensures
        jview(r) == destiny_milestone_vendor_json(*v),
{
    let mut fields: Vec<(String, JsonValue)> = Vec::new();
    fields.push(("vendorHash".to_owned(), JsonValue::Int(v.vendor_hash as i64)));
    fields.push(("previewItemHash".to_owned(), JsonValue::Int(v.preview_item_hash as i64)));
    let r = JsonValue::Obj(fields);
    proof {
        assert(jview(fields@[0].1) == destiny_milestone_vendor_json(*v)->Obj_0[0].1);
        assert(jview(fields@[1].1) == destiny_milestone_vendor_json(*v)->Obj_0[1].1);
        assert(jview(r)->Obj_0 =~= destiny_milestone_vendor_json(*v)->Obj_0);
    }
    r
}

/// Decodes this record; a failure names the offending field in its
/// path and says what was expected of it.
#[verifier::loop_isolation(false)]
pub fn decode_destiny_milestone_vendor(j: &JsonValue) -> (r: Result<DestinyMilestoneVendor, DecodeError>)
    ensures
        r is Ok <==> destiny_milestone_vendor_wf(jview(*j)),
        r matches Ok(w) ==> (jview(*j) matches Json::Obj(fields)
            && destiny_milestone_vendor_fields_match(fields, w)),
        r matches Err(e) ==> destiny_milestone_vendor_err_ok(jview(*j), e),
{
    let fields = match j {
        JsonValue::Obj(fields) => fields,
        _ => {
            return Err(root_error("an object"));
        },
    };
    let ghost gf = jview(*j)->Obj_0;
    let vendor_hash = match j.get("vendorHash") {
        Some(v) => match v.to_i64() {
            Some(n) if 0 <= n && n <= u32::MAX as i64 => n as u32,
            _ => {
                return Err(field_error("vendorHash", "a 32-bit unsigned integer"));
            },
        },
        _ => {
            return Err(field_error("vendorHash", "a 32-bit unsigned integer"));
        },
    };
    let preview_item_hash = match j.get("previewItemHash") {
        Some(v) => match v.to_i64() {
            Some(n) if 0 <= n && n <= u32::MAX as i64 => n as u32,
            _ => {
                return Err(field_error("previewItemHash", "a 32-bit unsigned integer"));
            },
        },
        _ => {
            return Err(field_error("previewItemHash", "a 32-bit unsigned integer"));
        },
    };
    Ok(DestinyMilestoneVendor { vendor_hash, preview_item_hash })
}

/// The wire image of a record is well formed and matched by the
/// record itself: encoding loses nothing that decoding reads.
pub proof fn lemma_destiny_milestone_vendor_image(v: DestinyMilestoneVendor)
    ensures
        destiny_milestone_vendor_wf(destiny_milestone_vendor_json(v)),
        destiny_milestone_vendor_json(v) matches Json::Obj(fields) && destiny_milestone_vendor_fields_match(fields, v),
{
    reveal_strlit("vendorHash");
    reveal_strlit("previewItemHash");
    let fields = destiny_milestone_vendor_json(v)->Obj_0;
    assert("vendorHash"@.len() == 10);
    assert("previewItemHash"@.len() == 15);
    assert("vendorHash"@ != "previewItemHash"@);
    lemma_lookup_at(fields, 0);
    lemma_lookup_at(fields, 1);
}

/// Decoding the encoded image of a record yields a record whose
/// every field carries the same content as the one encoded.
pub proof fn lemma_destiny_milestone_vendor_round_trip(v: DestinyMilestoneVendor, w: DestinyMilestoneVendor)
    requires
        destiny_milestone_vendor_json(v) matches Json::Obj(fields) && destiny_milestone_vendor_fields_match(fields, w),
    ensures
        destiny_milestone_vendor_wf(destiny_milestone_vendor_json(v)),
        w.vendor_hash == v.vendor_hash,
        w.preview_item_hash == v.preview_item_hash,
{
    lemma_destiny_milestone_vendor_image(v);
    let fields = destiny_milestone_vendor_json(v)->Obj_0;
    reveal_strlit("vendorHash");
    reveal_strlit("previewItemHash");
    assert("vendorHash"@.len() == 10);
    assert("previewItemHash"@.len() == 15);
    assert("vendorHash"@ != "previewItemHash"@);
    lemma_lookup_at(fields, 0);
    lemma_lookup_at(fields, 1);
}

/// The wire image of this record.
pub open spec fn destiny_milestone_reward_entry_json(v: DestinyMilestoneRewardEntry) -> Json {
    Json::Obj(
        seq![
            ("rewardEntryHash"@, Json::Int(v.reward_entry_hash as int)),
            ("earned"@, Json::Bool(v.earned)),
            ("redeemed"@, Json::Bool(v.redeemed)),
        ],
    )
}

/// Whether a document decodes as this record: unknown fields are tolerated.
pub open spec fn destiny_milestone_reward_entry_wf(j: Json) -> bool {
    &&& j matches Json::Obj(fields)
    &&& spec_lookup(fields, "rewardEntryHash"@) matches Some(Json::Int(n)) && 0 <= n <= u32::MAX as int
    &&& spec_lookup(fields, "earned"@) matches Some(Json::Bool(_))
    &&& spec_lookup(fields, "redeemed"@) matches Some(Json::Bool(_))
}

/// How a decoded record relates to the document it came from.
pub open spec fn destiny_milestone_reward_entry_fields_match(fields: Seq<(Seq<char>, Json)>, w: DestinyMilestoneRewardEntry) -> bool {
    &&& spec_lookup(fields, "rewardEntryHash"@) == Some(Json::Int(w.reward_entry_hash as int))
    &&& spec_lookup(fields, "earned"@) == Some(Json::Bool(w.earned))
    &&& spec_lookup(fields, "redeemed"@) == Some(Json::Bool(w.redeemed))
}

/// What a decode failure names: its path points at a field of the
/// document that is indeed not decodable, and an undeclared
/// enumeration code is reported with the enumeration's own message.
pub open spec fn destiny_milestone_reward_entry_err_ok(j: Json, e: DecodeError) -> bool {
    &&& !(j matches Json::Obj(_)) ==> e.path@.len() == 0
    &&& j matches Json::Obj(fields) ==> (
        (e.path@ == "rewardEntryHash"@ && !(spec_lookup(fields, "rewardEntryHash"@) matches Some(Json::Int(n)) && 0 <= n <= u32::MAX as int))
        || (e.path@ == "earned"@ && !(spec_lookup(fields, "earned"@) matches Some(Json::Bool(_))))
        || (e.path@ == "redeemed"@ && !(spec_lookup(fields, "redeemed"@) matches Some(Json::Bool(_)))))
}

pub fn encode_destiny_milestone_reward_entry(v: &DestinyMilestoneRewardEntry) -> (r: JsonValue)
    ensures
        jview(r) == destiny_milestone_reward_entry_json(*v),
{
    let mut fields: Vec<(String, JsonValue)> = Vec::new();
    fields.push(("rewardEntryHash".to_owned(), JsonValue::Int(v.reward_entry_hash as i64)));
    fields.push(("earned".to_owned(), JsonValue::Bool(v.earned)));
    fields.push(("redeemed".to_owned(), JsonValue::Bool(v.redeemed)));
    let r = JsonValue::Obj(fields);
    proof {
        assert(jview(fields@[0].1) == destiny_milestone_reward_entry_json(*v)->Obj_0[0].1);
        assert(jview(fields@[1].1) == destiny_milestone_reward_entry_json(*v)->Obj_0[1].1);
        assert(jview(fields@[2].1) == destiny_milestone_reward_entry_json(*v)->Obj_0[2].1);
        assert(jview(r)->Obj_0 =~= destiny_milestone_reward_entry_json(*v)->Obj_0);
    }
    r
}

/// Decodes this record; a failure names the offending field in its
/// path and says what was expected of it.
#[verifier::loop_isolation(false)]
pub fn decode_destiny_milestone_reward_entry(j: &JsonValue) -> (r: Result<DestinyMilestoneRewardEntry, DecodeError>)
    ensures
        r is Ok <==> destiny_milestone_reward_entry_wf(jview(*j)),
        r matches Ok(w) ==> (jview(*j) matches Json::Obj(fields)
            && destiny_milestone_reward_entry_fields_match(fields, w)),
        r matches Err(e) ==> destiny_milestone_reward_entry_err_ok(jview(*j), e),
{
    let fields = match j {
        JsonValue::Obj(fields) => fields,
        _ => {
            return Err(root_error("an object"));
        },
    };
    let ghost gf = jview(*j)->Obj_0;
    let reward_entry_hash = match j.get("rewardEntryHash") {
        Some(v) => match v.to_i64() {
            Some(n) if 0 <= n && n <= u32::MAX as i64 => n as u32,
            _ => {
                return Err(field_error("rewardEntryHash", "a 32-bit unsigned integer"));
            },
        },
        _ => {
            return Err(field_error("rewardEntryHash", "a 32-bit unsigned integer"));
        },
    };
    let earned = match j.get("earned") {
        Some(JsonValue::Bool(b)) => *b,
        _ => {
            return Err(field_error("earned", "a boolean"));
        },
    };
    let redeemed = match j.get("redeemed") {
        Some(JsonValue::Bool(b)) => *b,
        _ => {
            return Err(field_error("redeemed", "a boolean"));
        },
    };
    Ok(DestinyMilestoneRewardEntry { reward_entry_hash, earned, redeemed })
}

/// The wire image of a record is well formed and matched by the
/// record itself: encoding loses nothing that decoding reads.
pub proof fn lemma_destiny_milestone_reward_entry_image(v: DestinyMilestoneRewardEntry)
    ensures
        destiny_milestone_reward_entry_wf(destiny_milestone_reward_entry_json(v)),
        destiny_milestone_reward_entry_json(v) matches Json::Obj(fields) && destiny_milestone_reward_entry_fields_match(fields, v),
{
    reveal_strlit("rewardEntryHash");
    reveal_strlit("earned");
    reveal_strlit("redeemed");
    let fields = destiny_milestone_reward_entry_json(v)->Obj_0;
    assert("rewardEntryHash"@.len() == 15);
    assert("earned"@.len() == 6);
    assert("redeemed"@.len() == 8);
    assert("rewardEntryHash"@ != "earned"@);
    assert("rewardEntryHash"@ != "redeemed"@);
    assert("earned"@ != "redeemed"@);
    lemma_lookup_at(fields, 0);
    lemma_lookup_at(fields, 1);
    lemma_lookup_at(fields, 2);
}

/// Decoding the encoded image of a record yields a record whose
/// every field carries the same content as the one encoded.
pub proof fn lemma_destiny_milestone_reward_entry_round_trip(v: DestinyMilestoneRewardEntry, w: DestinyMilestoneRewardEntry)
    requires
        destiny_milestone_reward_entry_json(v) matches Json::Obj(fields) && destiny_milestone_reward_entry_fields_match(fields, w),
    ensures
        destiny_milestone_reward_entry_wf(destiny_milestone_reward_entry_json(v)),
        w.reward_entry_hash == v.reward_entry_hash,
        w.earned == v.earned,
        w.redeemed == v.redeemed,
{
    lemma_destiny_milestone_reward_entry_image(v);
    let fields = destiny_milestone_reward_entry_json(v)->Obj_0;
    reveal_strlit("rewardEntryHash");
    reveal_strlit("earned");
    reveal_strlit("redeemed");
    assert("rewardEntryHash"@.len() == 15);
    assert("earned"@.len() == 6);
    assert("redeemed"@.len() == 8);
    assert("rewardEntryHash"@ != "earned"@);
    assert("rewardEntryHash"@ != "redeemed"@);
    assert("earned"@ != "redeemed"@);
    lemma_lookup_at(fields, 0);
    lemma_lookup_at(fields, 1);
    lemma_lookup_at(fields, 2);
}

/// The wire image of this record.
pub open spec fn destiny_public_milestone_challenge_json(v: DestinyPublicMilestoneChallenge) -> Json {
    Json::Obj(
        seq![
            ("objectiveHash"@, Json::Int(v.objective_hash as int)),
            ("activityHash"@, Json::Int(v.activity_hash as int)),
        ],
    )
}

/// Whether a document decodes as this record: unknown fields are tolerated.
pub open spec fn destiny_public_milestone_challenge_wf(j: Json) -> bool {
    &&& j matches Json::Obj(fields)
    &&& spec_lookup(fields, "objectiveHash"@) matches Some(Json::Int(n)) && 0 <= n <= u32::MAX as int
    &&& spec_lookup(fields, "activityHash"@) matches Some(Json::Int(n)) && 0 <= n <= u32::MAX as int
}

/// How a decoded record relates to the document it came from.
pub open spec fn destiny_public_milestone_challenge_fields_match(fields: Seq<(Seq<char>, Json)>, w: DestinyPublicMilestoneChallenge) -> bool {
    &&& spec_lookup(fields, "objectiveHash"@) == Some(Json::Int(w.objective_hash as int))
    &&& spec_lookup(fields, "activityHash"@) == Some(Json::Int(w.activity_hash as int))
}

/// What a decode failure names: its path points at a field of the
/// document that is indeed not decodable, and an undeclared
/// enumeration code is reported with the enumeration's own message.
pub open spec fn destiny_public_milestone_challenge_err_ok(j: Json, e: DecodeError) -> bool {
    &&& !(j matches Json::Obj(_)) ==> e.path@.len() == 0
    &&& j matches Json::Obj(fields) ==> (
        (e.path@ == "objectiveHash"@ && !(spec_lookup(fields, "objectiveHash"@) matches Some(Json::Int(n)) && 0 <= n <= u32::MAX as int))
        || (e.path@ == "activityHash"@ && !(spec_lookup(fields, "activityHash"@) matches Some(Json::Int(n)) && 0 <= n <= u32::MAX as int)))
}

pub fn encode_destiny_public_milestone_challenge(v: &DestinyPublicMilestoneChallenge) -> (r: JsonValue)
    ensures
        jview(r) == destiny_public_milestone_challenge_json(*v),
{
    let mut fields: Vec<(String, JsonValue)> = Vec::new();
    fields.push(("objectiveHash".to_owned(), JsonValue::Int(v.objective_hash as i64)));
    fields.push(("activityHash".to_owned(), JsonValue::Int(v.activity_hash as i64)));
    let r = JsonValue::Obj(fields);
    proof {
        assert(jview(fields@[0].1) == destiny_public_milestone_challenge_json(*v)->Obj_0[0].1);
        assert(jview(fields@[1].1) == destiny_public_milestone_challenge_json(*v)->Obj_0[1].1);
        assert(jview(r)->Obj_0 =~= destiny_public_milestone_challenge_json(*v)->Obj_0);
    }
    r
}

/// Decodes this record; a failure names the offending field in its
/// path and says what was expected of it.
#[verifier::loop_isolation(false)]
pub fn decode_destiny_public_milestone_challenge(j: &JsonValue) -> (r: Result<DestinyPublicMilestoneChallenge, DecodeError>)
    ensures
        r is Ok <==> destiny_public_milestone_challenge_wf(jview(*j)),
        r matches Ok(w) ==> (jview(*j) matches Json::Obj(fields)
            && destiny_public_milestone_challenge_fields_match(fields, w)),
        r matches Err(e) ==> destiny_public_milestone_challenge_err_ok(jview(*j), e),
{
    let fields = match j {
        JsonValue::Obj(fields) => fields,
        _ => {
            return Err(root_error("an object"));
        },
    };
    let ghost gf = jview(*j)->Obj_0;
    let objective_hash = match j.get("objectiveHash") {
        Some(v) => match v.to_i64() {
            Some(n) if 0 <= n && n <= u32::MAX as i64 => n as u32,
            _ => {
                return Err(field_error("objectiveHash", "a 32-bit unsigned integer"));
            },
        },
        _ => {
            return Err(field_error("objectiveHash", "a 32-bit unsigned integer"));
        },
    };
    let activity_hash = match j.get("activityHash") {
        Some(v) => match v.to_i64() {
            Some(n) if 0 <= n && n <= u32::MAX as i64 => n as u32,
            _ => {
                return Err(field_error("activityHash", "a 32-bit unsigned integer"));
            },
        },
        _ => {
            return Err(field_error("activityHash", "a 32-bit unsigned integer"));
        },
    };
    Ok(DestinyPublicMilestoneChallenge { objective_hash, activity_hash })
}

/// The wire image of a record is well formed and matched by the
/// record itself: encoding loses nothing that decoding reads.
pub proof fn lemma_destiny_public_milestone_challenge_image(v: DestinyPublicMilestoneChallenge)
    ensures
        destiny_public_milestone_challenge_wf(destiny_public_milestone_challenge_json(v)),
        destiny_public_milestone_challenge_json(v) matches Json::Obj(fields) && destiny_public_milestone_challenge_fields_match(fields, v),
{
    reveal_strlit("objectiveHash");
    reveal_strlit("activityHash");
    let fields = destiny_public_milestone_challenge_json(v)->Obj_0;
    assert("objectiveHash"@.len() == 13);
    assert("activityHash"@.len() == 12);
    assert("objectiveHash"@ != "activityHash"@);
    lemma_lookup_at(fields, 0);
    lemma_lookup_at(fields, 1);
}

/// Decoding the encoded image of a record yields a record whose
/// every field carries the same content as the one encoded.
pub proof fn lemma_destiny_public_milestone_challenge_round_trip(v: DestinyPublicMilestoneChallenge, w: DestinyPublicMilestoneChallenge)
    requires
        destiny_public_milestone_challenge_json(v) matches Json::Obj(fields) && destiny_public_milestone_challenge_fields_match(fields, w),
    ensures
        destiny_public_milestone_challenge_wf(destiny_public_milestone_challenge_json(v)),
        w.objective_hash == v.objective_hash,
        w.activity_hash == v.activity_hash,
{
    lemma_destiny_public_milestone_challenge_image(v);
    let fields = destiny_public_milestone_challenge_json(v)->Obj_0;
    reveal_strlit("objectiveHash");
    reveal_strlit("activityHash");
    assert("objectiveHash"@.len() == 13);
    assert("activityHash"@.len() == 12);
    assert("objectiveHash"@ != "activityHash"@);
    lemma_lookup_at(fields, 0);
    lemma_lookup_at(fields, 1);
}

/// The wire image of this record.
pub open spec fn destiny_public_milestone_vendor_json(v: DestinyPublicMilestoneVendor) -> Json {
    Json::Obj(
        seq![
            ("vendorHash"@, Json::Int(v.vendor_hash as int)),
            ("previewItemHash"@, Json::Int(v.preview_item_hash as int)),
        ],
    )
}

/// Whether a document decodes as this record: unknown fields are tolerated.
pub open spec fn destiny_public_milestone_vendor_wf(j: Json) -> bool {
    &&& j matches Json::Obj(fields)
    &&& spec_lookup(fields, "vendorHash"@) matches Some(Json::Int(n)) && 0 <= n <= u32::MAX as int
    &&& spec_lookup(fields, "previewItemHash"@) matches Some(Json::Int(n)) && 0 <= n <= u32::MAX as int
}

/// How a decoded record relates to the document it came from.
pub open spec fn destiny_public_milestone_vendor_fields_match(fields: Seq<(Seq<char>, Json)>, w: DestinyPublicMilestoneVendor) -> bool {
    &&& spec_lookup(fields, "vendorHash"@) == Some(Json::Int(w.vendor_hash as int))
    &&& spec_lookup(fields, "previewItemHash"@) == Some(Json::Int(w.preview_item_hash as int))
}

/// What a decode failure names: its path points at a field of the
/// document that is indeed not decodable, and an undeclared
/// enumeration code is reported with the enumeration's own message.
pub open spec fn destiny_public_milestone_vendor_err_ok(j: Json, e: DecodeError) -> bool {
    &&& !(j matches Json::Obj(_)) ==> e.path@.len() == 0
    &&& j matches Json::Obj(fields) ==> (
        (e.path@ == "vendorHash"@ && !(spec_lookup(fields, "vendorHash"@) matches Some(Json::Int(n)) && 0 <= n <= u32::MAX as int))
        || (e.path@ == "previewItemHash"@ && !(spec_lookup(fields, "previewItemHash"@) matches Some(Json::Int(n)) && 0 <= n <= u32::MAX as int)))
}

pub fn encode_destiny_public_milestone_vendor(v: &DestinyPublicMilestoneVendor) -> (r: JsonValue)
    ensures
        jview(r) == destiny_public_milestone_vendor_json(*v),
{
    let mut fields: Vec<(String, JsonValue)> = Vec::new();
    fields.push(("vendorHash".to_owned(), JsonValue::Int(v.vendor_hash as i64)));
    fields.push(("previewItemHash".to_owned(), JsonValue::Int(v.preview_item_hash as i64)));
    let r = JsonValue::Obj(fields);
    proof {
        assert(jview(fields@[0].1) == destiny_public_milestone_vendor_json(*v)->Obj_0[0].1);
        assert(jview(fields@[1].1) == destiny_public_milestone_vendor_json(*v)->Obj_0[1].1);
        assert(jview(r)->Obj_0 =~= destiny_public_milestone_vendor_json(*v)->Obj_0);
    }
    r
}

/// Decodes this record; a failure names the offending field in its
/// path and says what was expected of it.
#[verifier::loop_isolation(false)]
pub fn decode_destiny_public_milestone_vendor(j: &JsonValue) -> (r: Result<DestinyPublicMilestoneVendor, DecodeError>)
    ensures
        r is Ok <==> destiny_public_milestone_vendor_wf(jview(*j)),
        r matches Ok(w) ==> (jview(*j) matches Json::Obj(fields)
            && destiny_public_milestone_vendor_fields_match(fields, w)),
        r matches Err(e) ==> destiny_public_milestone_vendor_err_ok(jview(*j), e),
{
    let fields = match j {
        JsonValue::Obj(fields) => fields,
        _ => {
            return Err(root_error("an object"));
        },
    };
    let ghost gf = jview(*j)->Obj_0;
    let vendor_hash = match j.get("vendorHash") {
        Some(v) => match v.to_i64() {
            Some(n) if 0 <= n && n <= u32::MAX as i64 => n as u32,
            _ => {
                return Err(field_error("vendorHash", "a 32-bit unsigned integer"));
            },
        },
        _ => {
            return Err(field_error("vendorHash", "a 32-bit unsigned integer"));
        },
    };
    let preview_item_hash = match j.get("previewItemHash") {
        Some(v) => match v.to_i64() {
            Some(n) if 0 <= n && n <= u32::MAX as i64 => n as u32,
            _ => {
                return Err(field_error("previewItemHash", "a 32-bit unsigned integer"));
            },
        },
        _ => {
            return Err(field_error("previewItemHash", "a 32-bit unsigned integer"));
        },
    };
    Ok(DestinyPublicMilestoneVendor { vendor_hash, preview_item_hash })
}

/// The wire image of a record is well formed and matched by the
/// record itself: encoding loses nothing that decoding reads.
pub proof fn lemma_destiny_public_milestone_vendor_image(v: DestinyPublicMilestoneVendor)
    ensures
        destiny_public_milestone_vendor_wf(destiny_public_milestone_vendor_json(v)),
        destiny_public_milestone_vendor_json(v) matches Json::Obj(fields) && destiny_public_milestone_vendor_fields_match(fields, v),
{
    reveal_strlit("vendorHash");
    reveal_strlit("previewItemHash");
    let fields = destiny_public_milestone_vendor_json(v)->Obj_0;
    assert("vendorHash"@.len() == 10);
    assert("previewItemHash"@.len() == 15);
    assert("vendorHash"@ != "previewItemHash"@);
    lemma_lookup_at(fields, 0);
    lemma_lookup_at(fields, 1);
}

/// Decoding the encoded image of a record yields a record whose
/// every field carries the same content as the one encoded.
pub proof fn lemma_destiny_public_milestone_vendor_round_trip(v: DestinyPublicMilestoneVendor, w: DestinyPublicMilestoneVendor)
    requires
        destiny_public_milestone_vendor_json(v) matches Json::Obj(fields) && destiny_public_milestone_vendor_fields_match(fields, w),
    ensures
        destiny_public_milestone_vendor_wf(destiny_public_milestone_vendor_json(v)),
        w.vendor_hash == v.vendor_hash,
        w.preview_item_hash == v.preview_item_hash,
{
    lemma_destiny_public_milestone_vendor_image(v);
    let fields = destiny_public_milestone_vendor_json(v)->Obj_0;
    reveal_strlit("vendorHash");
    reveal_strlit("previewItemHash");
    assert("vendorHash"@.len() == 10);
    assert("previewItemHash"@.len() == 15);
    assert("vendorHash"@ != "previewItemHash"@);
    lemma_lookup_at(fields, 0);
    lemma_lookup_at(fields, 1);
}

/// The wire image of this record.
pub open spec fn destiny_milestone_activity_phase_json(v: DestinyMilestoneActivityPhase) -> Json {
    Json::Obj(
        seq![
            ("complete"@, Json::Bool(v.complete)),
            ("phase_hash"@, Json::Int(v.phase_hash as int)),
        ],
    )
}

/// Whether a document decodes as this record: unknown fields are tolerated.
pub open spec fn destiny_milestone_activity_phase_wf(j: Json) -> bool {
    &&& j matches Json::Obj(fields)
    &&& spec_lookup(fields, "complete"@) matches Some(Json::Bool(_))
    &&& spec_lookup(fields, "phase_hash"@) matches Some(Json::Int(n)) && 0 <= n <= u32::MAX as int
}

/// How a decoded record relates to the document it came from.
pub open spec fn destiny_milestone_activity_phase_fields_match(fields: Seq<(Seq<char>, Json)>, w: DestinyMilestoneActivityPhase) -> bool {
    &&& spec_lookup(fields, "complete"@) == Some(Json::Bool(w.complete))
    &&& spec_lookup(fields, "phase_hash"@) == Some(Json::Int(w.phase_hash as int))
}

/// What a decode failure names: its path points at a field of the
/// document that is indeed not decodable, and an undeclared
/// enumeration code is reported with the enumeration's own message.
pub open spec fn destiny_milestone_activity_phase_err_ok(j: Json, e: DecodeError) -> bool {
    &&& !(j matches Json::Obj(_)) ==> e.path@.len() == 0
    &&& j matches Json::Obj(fields) ==> (
        (e.path@ == "complete"@ && !(spec_lookup(fields, "complete"@) matches Some(Json::Bool(_))))
        || (e.path@ == "phase_hash"@ && !(spec_lookup(fields, "phase_hash"@) matches Some(Json::Int(n)) && 0 <= n <= u32::MAX as int)))
}

pub fn encode_destiny_milestone_activity_phase(v: &DestinyMilestoneActivityPhase) -> (r: JsonValue)
    ensures
        jview(r) == destiny_milestone_activity_phase_json(*v),
{
    let mut fields: Vec<(String, JsonValue)> = Vec::new();
    fields.push(("complete".to_owned(), JsonValue::Bool(v.complete)));
    fields.push(("phase_hash".to_owned(), JsonValue::Int(v.phase_hash as i64)));
    let r = JsonValue::Obj(fields);
    proof {
        assert(jview(fields@[0].1) == destiny_milestone_activity_phase_json(*v)->Obj_0[0].1);
        assert(jview(fields@[1].1) == destiny_milestone_activity_phase_json(*v)->Obj_0[1].1);
        assert(jview(r)->Obj_0 =~= destiny_milestone_activity_phase_json(*v)->Obj_0);
    }
    r
}

/// Decodes this record; a failure names the offending field in its
/// path and says what was expected of it.
#[verifier::loop_isolation(false)]
pub fn decode_destiny_milestone_activity_phase(j: &JsonValue) -> (r: Result<DestinyMilestoneActivityPhase, DecodeError>)
    ensures
        r is Ok <==> destiny_milestone_activity_phase_wf(jview(*j)),
        r matches Ok(w) ==> (jview(*j) matches Json::Obj(fields)
            && destiny_milestone_activity_phase_fields_match(fields, w)),
        r matches Err(e) ==> destiny_milestone_activity_phase_err_ok(jview(*j), e),
{
    let fields = match j {
        JsonValue::Obj(fields) => fields,
        _ => {
            return Err(root_error("an object"));
        },
    };
    let ghost gf = jview(*j)->Obj_0;
    let complete = match j.get("complete") {
        Some(JsonValue::Bool(b)) => *b,
        _ => {
            return Err(field_error("complete", "a boolean"));
        },
    };
    let phase_hash = match j.get("phase_hash") {
        Some(v) => match v.to_i64() {
            Some(n) if 0 <= n && n <= u32::MAX as i64 => n as u32,
            _ => {
                return Err(field_error("phase_hash", "a 32-bit unsigned integer"));
            },
        },
        _ => {
            return Err(field_error("phase_hash", "a 32-bit unsigned integer"));
        },
    };
    Ok(DestinyMilestoneActivityPhase { complete, phase_hash })
}

/// The wire image of a record is well formed and matched by the
/// record itself: encoding loses nothing that decoding reads.
pub proof fn lemma_destiny_milestone_activity_phase_image(v: DestinyMilestoneActivityPhase)
    ensures
        destiny_milestone_activity_phase_wf(destiny_milestone_activity_phase_json(v)),
        destiny_milestone_activity_phase_json(v) matches Json::Obj(fields) && destiny_milestone_activity_phase_fields_match(fields, v),
{
    reveal_strlit("complete");
    reveal_strlit("phase_hash");
    let fields = destiny_milestone_activity_phase_json(v)->Obj_0;
    assert("complete"@.len() == 8);
    assert("phase_hash"@.len() == 10);
    assert("complete"@ != "phase_hash"@);
    lemma_lookup_at(fields, 0);
    lemma_lookup_at(fields, 1);
}

/// Decoding the encoded image of a record yields a record whose
/// every field carries the same content as the one encoded.
pub proof fn lemma_destiny_milestone_activity_phase_round_trip(v: DestinyMilestoneActivityPhase, w: DestinyMilestoneActivityPhase)
    requires
        destiny_milestone_activity_phase_json(v) matches Json::Obj(fields) && destiny_milestone_activity_phase_fields_match(fields, w),
    ensures
        destiny_milestone_activity_phase_wf(destiny_milestone_activity_phase_json(v)),
        w.complete == v.complete,
        w.phase_hash == v.phase_hash,
{
    lemma_destiny_milestone_activity_phase_image(v);
    let fields = destiny_milestone_activity_phase_json(v)->Obj_0;
    reveal_strlit("complete");
    reveal_strlit("phase_hash");
    assert("complete"@.len() == 8);
    assert("phase_hash"@.len() == 10);
    assert("complete"@ != "phase_hash"@);
    lemma_lookup_at(fields, 0);
    lemma_lookup_at(fields, 1);
}

/// The wire image of this record.
pub open spec fn destiny_artifact_tier_item_json(v: DestinyArtifactTierItem) -> Json {
    Json::Obj(
        seq![
            ("itemHash"@, Json::Int(v.item_hash as int)),
            ("isActive"@, Json::Bool(v.is_active)),
        ],
    )
}

/// Whether a document decodes as this record: an object with exactly these fields.
pub open spec fn destiny_artifact_tier_item_wf(j: Json) -> bool {
    &&& j matches Json::Obj(fields)
    &&& spec_lookup(fields, "itemHash"@) matches Some(Json::Int(n)) && 0 <= n <= u32::MAX as int
    &&& spec_lookup(fields, "isActive"@) matches Some(Json::Bool(_))
    &&& forall|i: int| 0 <= i < fields.len()
        ==> ((#[trigger] fields[i]).0 == "itemHash"@ || fields[i].0 == "isActive"@)
}

/// How a decoded record relates to the document it came from.
pub open spec fn destiny_artifact_tier_item_fields_match(fields: Seq<(Seq<char>, Json)>, w: DestinyArtifactTierItem) -> bool {
    &&& spec_lookup(fields, "itemHash"@) == Some(Json::Int(w.item_hash as int))
    &&& spec_lookup(fields, "isActive"@) == Some(Json::Bool(w.is_active))
}

/// What a decode failure names: its path points at a field of the
/// document that is indeed not decodable, and an undeclared
/// enumeration code is reported with the enumeration's own message.
pub open spec fn destiny_artifact_tier_item_err_ok(j: Json, e: DecodeError) -> bool {
    &&& !(j matches Json::Obj(_)) ==> e.path@.len() == 0
    &&& j matches Json::Obj(fields) ==> (
        (e.path@ == "itemHash"@ && !(spec_lookup(fields, "itemHash"@) matches Some(Json::Int(n)) && 0 <= n <= u32::MAX as int))
        || (e.path@ == "isActive"@ && !(spec_lookup(fields, "isActive"@) matches Some(Json::Bool(_))))
        || (exists|i: int| 0 <= i < fields.len() && (#[trigger] fields[i]).0 == e.path@ && !((fields[i].0 == "itemHash"@ || fields[i].0 == "isActive"@))))
}

pub fn encode_destiny_artifact_tier_item(v: &DestinyArtifactTierItem) -> (r: JsonValue)
    ensures
        jview(r) == destiny_artifact_tier_item_json(*v),
{
    let mut fields: Vec<(String, JsonValue)> = Vec::new();
    fields.push(("itemHash".to_owned(), JsonValue::Int(v.item_hash as i64)));
    fields.push(("isActive".to_owned(), JsonValue::Bool(v.is_active)));
    let r = JsonValue::Obj(fields);
    proof {
        assert(jview(fields@[0].1) == destiny_artifact_tier_item_json(*v)->Obj_0[0].1);
        assert(jview(fields@[1].1) == destiny_artifact_tier_item_json(*v)->Obj_0[1].1);
        assert(jview(r)->Obj_0 =~= destiny_artifact_tier_item_json(*v)->Obj_0);
    }
    r
}

/// Decodes this record; a failure names the offending field in its
/// path and says what was expected of it.
#[verifier::loop_isolation(false)]
pub fn decode_destiny_artifact_tier_item(j: &JsonValue) -> (r: Result<DestinyArtifactTierItem, DecodeError>)
    ensures
        r is Ok <==> destiny_artifact_tier_item_wf(jview(*j)),
        r matches Ok(w) ==> (jview(*j) matches Json::Obj(fields)
            && destiny_artifact_tier_item_fields_match(fields, w)),
        r matches Err(e) ==> destiny_artifact_tier_item_err_ok(jview(*j), e),
{
    let fields = match j {
        JsonValue::Obj(fields) => fields,
        _ => {
            return Err(root_error("an object"));
        },
    };
    let ghost gf = jview(*j)->Obj_0;
    let item_hash = match j.get("itemHash") {
        Some(v) => match v.to_i64() {
            Some(n) if 0 <= n && n <= u32::MAX as i64 => n as u32,
            _ => {
                return Err(field_error("itemHash", "a 32-bit unsigned integer"));
            },
        },
        _ => {
            return Err(field_error("itemHash", "a 32-bit unsigned integer"));
        },
    };
    let is_active = match j.get("isActive") {
        Some(JsonValue::Bool(b)) => *b,
        _ => {
            return Err(field_error("isActive", "a boolean"));
        },
    };
    let mut i: usize = 0;
    while i < fields.len()
        invariant
            i <= fields.len(),
            gf.len() == fields@.len(),
            forall|k: int| 0 <= k < gf.len()
                ==> #[trigger] gf[k] == (fields@[k].0@, jview(fields@[k].1)),
            forall|k: int| 0 <= k < i
                ==> ((#[trigger] gf[k]).0 == "itemHash"@ || gf[k].0 == "isActive"@),
        decreases fields.len() - i,
    {
        let name = fields[i].0.as_str();
        if !(str_eq(name, "itemHash") || str_eq(name, "isActive")) {
            proof {
                assert(gf[i as int].0 == fields@[i as int].0@);
                assert(!destiny_artifact_tier_item_wf(jview(*j)));
            }
            return Err(field_error(fields[i].0.as_str(), "an unknown field"));
        }
        i = i + 1;
    }
    Ok(DestinyArtifactTierItem { item_hash, is_active })
}

/// The wire image of a record is well formed and matched by the
/// record itself: encoding loses nothing that decoding reads.
pub proof fn lemma_destiny_artifact_tier_item_image(v: DestinyArtifactTierItem)
    ensures
        destiny_artifact_tier_item_wf(destiny_artifact_tier_item_json(v)),
        destiny_artifact_tier_item_json(v) matches Json::Obj(fields) && destiny_artifact_tier_item_fields_match(fields, v),
{
    reveal_strlit("itemHash");
    reveal_strlit("isActive");
    let fields = destiny_artifact_tier_item_json(v)->Obj_0;
    assert("itemHash"@.len() == 8);
    assert("isActive"@.len() == 8);
    assert(("itemHash"@)[1] != ("isActive"@)[1]);
    assert("itemHash"@ != "isActive"@);
    lemma_lookup_at(fields, 0);
    lemma_lookup_at(fields, 1);
}

/// Decoding the encoded image of a record yields a record whose
/// every field carries the same content as the one encoded.
pub proof fn lemma_destiny_artifact_tier_item_round_trip(v: DestinyArtifactTierItem, w: DestinyArtifactTierItem)
    requires
        destiny_artifact_tier_item_json(v) matches Json::Obj(fields) && destiny_artifact_tier_item_fields_match(fields, w),
    ensures
        destiny_artifact_tier_item_wf(destiny_artifact_tier_item_json(v)),
        w.item_hash == v.item_hash,
        w.is_active == v.is_active,
{
    lemma_destiny_artifact_tier_item_image(v);
    let fields = destiny_artifact_tier_item_json(v)->Obj_0;
    reveal_strlit("itemHash");
    reveal_strlit("isActive");
    assert("itemHash"@.len() == 8);
    assert("isActive"@.len() == 8);
    assert(("itemHash"@)[1] != ("isActive"@)[1]);
    assert("itemHash"@ != "isActive"@);
    lemma_lookup_at(fields, 0);
    lemma_lookup_at(fields, 1);
}

/// The wire image of this record.
pub open spec fn destiny_historical_stats_value_pair_json(v: DestinyHistoricalStatsValuePair) -> Json {
    Json::Obj(
        seq![
            ("value"@, Json::Float(v.value.text@)),
            ("displayValue"@, Json::Str(v.display_value@)),
        ],
    )
}

/// Whether a document decodes as this record: unknown fields are tolerated.
pub open spec fn destiny_historical_stats_value_pair_wf(j: Json) -> bool {
    &&& j matches Json::Obj(fields)
    &&& match spec_lookup(fields, "value"@) { Some(Json::Float(_)) => true, Some(Json::Int(_)) => true, _ => false }
    &&& spec_lookup(fields, "displayValue"@) matches Some(Json::Str(_))
}

/// How a decoded record relates to the document it came from.
pub open spec fn destiny_historical_stats_value_pair_fields_match(fields: Seq<(Seq<char>, Json)>, w: DestinyHistoricalStatsValuePair) -> bool {
    &&& match spec_lookup(fields, "value"@) { Some(Json::Float(t)) => w.value.text@ == t, Some(Json::Int(n)) => w.value.text@ == int_dec_string(n), _ => false }
    &&& spec_lookup(fields, "displayValue"@) == Some(Json::Str(w.display_value@))
}

/// What a decode failure names: its path points at a field of the
/// document that is indeed not decodable, and an undeclared
/// enumeration code is reported with the enumeration's own message.
pub open spec fn destiny_historical_stats_value_pair_err_ok(j: Json, e: DecodeError) -> bool {
    &&& !(j matches Json::Obj(_)) ==> e.path@.len() == 0
    &&& j matches Json::Obj(fields) ==> (
        (e.path@ == "value"@ && !(match spec_lookup(fields, "value"@) { Some(Json::Float(_)) => true, Some(Json::Int(_)) => true, _ => false }))
        || (e.path@ == "displayValue"@ && !(spec_lookup(fields, "displayValue"@) matches Some(Json::Str(_)))))
}

pub fn encode_destiny_historical_stats_value_pair(v: &DestinyHistoricalStatsValuePair) -> (r: JsonValue)
    ensures
        jview(r) == destiny_historical_stats_value_pair_json(*v),
{
    let mut fields: Vec<(String, JsonValue)> = Vec::new();
    fields.push(("value".to_owned(), JsonValue::Float(v.value.text.clone())));
    fields.push(("displayValue".to_owned(), JsonValue::Str(v.display_value.clone())));
    let r = JsonValue::Obj(fields);
    proof {
        assert(jview(fields@[0].1) == destiny_historical_stats_value_pair_json(*v)->Obj_0[0].1);
        assert(jview(fields@[1].1) == destiny_historical_stats_value_pair_json(*v)->Obj_0[1].1);
        assert(jview(r)->Obj_0 =~= destiny_historical_stats_value_pair_json(*v)->Obj_0);
    }
    r
}

/// Decodes this record; a failure names the offending field in its
/// path and says what was expected of it.
#[verifier::loop_isolation(false)]
pub fn decode_destiny_historical_stats_value_pair(j: &JsonValue) -> (r: Result<DestinyHistoricalStatsValuePair, DecodeError>)
    ensures
        r is Ok <==> destiny_historical_stats_value_pair_wf(jview(*j)),
        r matches Ok(w) ==> (jview(*j) matches Json::Obj(fields)
            && destiny_historical_stats_value_pair_fields_match(fields, w)),
        r matches Err(e) ==> destiny_historical_stats_value_pair_err_ok(jview(*j), e),
{
    let fields = match j {
        JsonValue::Obj(fields) => fields,
        _ => {
            return Err(root_error("an object"));
        },
    };
    let ghost gf = jview(*j)->Obj_0;
    let value = match j.get("value") {
        Some(JsonValue::Float(t)) => FloatText { text: t.clone() },
        Some(JsonValue::Int(n)) => FloatText { text: i64_to_string(*n) },
        Some(JsonValue::UInt(u)) => FloatText { text: u64_to_string(*u) },
        _ => {
            return Err(field_error("value", "a number"));
        },
    };
    let display_value = match j.get("displayValue") {
        Some(JsonValue::Str(s)) => s.clone(),
        _ => {
            return Err(field_error("displayValue", "a string"));
        },
    };
    Ok(DestinyHistoricalStatsValuePair { value, display_value })
}

/// The wire image of a record is well formed and matched by the
/// record itself: encoding loses nothing that decoding reads.
pub proof fn lemma_destiny_historical_stats_value_pair_image(v: DestinyHistoricalStatsValuePair)
    ensures
        destiny_historical_stats_value_pair_wf(destiny_historical_stats_value_pair_json(v)),
        destiny_historical_stats_value_pair_json(v) matches Json::Obj(fields) && destiny_historical_stats_value_pair_fields_match(fields, v),
{
    reveal_strlit("value");
    reveal_strlit("displayValue");
    let fields = destiny_historical_stats_value_pair_json(v)->Obj_0;
    assert("value"@.len() == 5);
    assert("displayValue"@.len() == 12);
    assert("value"@ != "displayValue"@);
    lemma_lookup_at(fields, 0);
    lemma_lookup_at(fields, 1);
}

/// Decoding the encoded image of a record yields a record whose
/// every field carries the same content as the one encoded.
pub proof fn lemma_destiny_historical_stats_value_pair_round_trip(v: DestinyHistoricalStatsValuePair, w: DestinyHistoricalStatsValuePair)
    requires
        destiny_historical_stats_value_pair_json(v) matches Json::Obj(fields) && destiny_historical_stats_value_pair_fields_match(fields, w),
    ensures
        destiny_historical_stats_value_pair_wf(destiny_historical_stats_value_pair_json(v)),
        w.value.text@ == v.value.text@,
        w.display_value@ == v.display_value@,
{
    lemma_destiny_historical_stats_value_pair_image(v);
    let fields = destiny_historical_stats_value_pair_json(v)->Obj_0;
    reveal_strlit("value");
    reveal_strlit("displayValue");
    assert("value"@.len() == 5);
    assert("displayValue"@.len() == 12);
    assert("value"@ != "displayValue"@);
    lemma_lookup_at(fields, 0);
    lemma_lookup_at(fields, 1);
}

/// The wire image of this record.
pub open spec fn destiny_energy_capacity_entry_json(v: DestinyEnergyCapacityEntry) -> Json {
    Json::Obj(
        seq![
            ("capacityValue"@, Json::Int(v.capacity_value as int)),
            ("energyTypeHash"@, Json::Int(v.energy_type_hash as int)),
            ("energyType"@, Json::Int(v.energy_type.spec_code())),
        ],
    )
}

/// Whether a document decodes as this record: an object with exactly these fields.
pub open spec fn destiny_energy_capacity_entry_wf(j: Json) -> bool {
    &&& j matches Json::Obj(fields)
    &&& spec_lookup(fields, "capacityValue"@) matches Some(Json::Int(n)) && i32::MIN as int <= n <= i32::MAX as int
    &&& spec_lookup(fields, "energyTypeHash"@) matches Some(Json::Int(n)) && 0 <= n <= u32::MAX as int
    &&& spec_lookup(fields, "energyType"@) matches Some(Json::Int(n)) && DestinyEnergyType::spec_from_code(n) is Some
    &&& forall|i: int| 0 <= i < fields.len()
        ==> ((#[trigger] fields[i]).0 == "capacityValue"@ || fields[i].0 == "energyTypeHash"@ || fields[i].0 == "energyType"@)
}

/// How a decoded record relates to the document it came from.
pub open spec fn destiny_energy_capacity_entry_fields_match(fields: Seq<(Seq<char>, Json)>, w: DestinyEnergyCapacityEntry) -> bool {
    &&& spec_lookup(fields, "capacityValue"@) == Some(Json::Int(w.capacity_value as int))
    &&& spec_lookup(fields, "energyTypeHash"@) == Some(Json::Int(w.energy_type_hash as int))
    &&& spec_lookup(fields, "energyType"@) matches Some(Json::Int(n)) && Some(w.energy_type) == DestinyEnergyType::spec_from_code(n)
}

/// What a decode failure names: its path points at a field of the
/// document that is indeed not decodable, and an undeclared
/// enumeration code is reported with the enumeration's own message.
pub open spec fn destiny_energy_capacity_entry_err_ok(j: Json, e: DecodeError) -> bool {
    &&& !(j matches Json::Obj(_)) ==> e.path@.len() == 0
    &&& j matches Json::Obj(fields) ==> (
        (e.path@ == "capacityValue"@ && !(spec_lookup(fields, "capacityValue"@) matches Some(Json::Int(n)) && i32::MIN as int <= n <= i32::MAX as int))
        || (e.path@ == "energyTypeHash"@ && !(spec_lookup(fields, "energyTypeHash"@) matches Some(Json::Int(n)) && 0 <= n <= u32::MAX as int))
        || (e.path@ == "energyType"@ && !(spec_lookup(fields, "energyType"@) matches Some(Json::Int(n)) && DestinyEnergyType::spec_from_code(n) is Some) && (match spec_lookup(fields, "energyType"@) { Some(Json::Int(n)) => (0 <= n <= u8::MAX as int && DestinyEnergyType::spec_from_code(n) is None) ==> e.message@ == DestinyEnergyType::spec_unknown_code_message(n), _ => true }))
        || (exists|i: int| 0 <= i < fields.len() && (#[trigger] fields[i]).0 == e.path@ && !((fields[i].0 == "capacityValue"@ || fields[i].0 == "energyTypeHash"@ || fields[i].0 == "energyType"@))))
}

pub fn encode_destiny_energy_capacity_entry(v: &DestinyEnergyCapacityEntry) -> (r: JsonValue)
    ensures
        jview(r) == destiny_energy_capacity_entry_json(*v),
{
    let mut fields: Vec<(String, JsonValue)> = Vec::new();
    fields.push(("capacityValue".to_owned(), JsonValue::Int(v.capacity_value as i64)));
    fields.push(("energyTypeHash".to_owned(), JsonValue::Int(v.energy_type_hash as i64)));
    fields.push(("energyType".to_owned(), JsonValue::Int(v.energy_type.code() as i64)));
    let r = JsonValue::Obj(fields);
    proof {
        assert(jview(fields@[0].1) == destiny_energy_capacity_entry_json(*v)->Obj_0[0].1);
        assert(jview(fields@[1].1) == destiny_energy_capacity_entry_json(*v)->Obj_0[1].1);
        assert(jview(fields@[2].1) == destiny_energy_capacity_entry_json(*v)->Obj_0[2].1);
        assert(jview(r)->Obj_0 =~= destiny_energy_capacity_entry_json(*v)->Obj_0);
    }
    r
}

/// Decodes this record; a failure names the offending field in its
/// path and says what was expected of it.
#[verifier::loop_isolation(false)]
pub fn decode_destiny_energy_capacity_entry(j: &JsonValue) -> (r: Result<DestinyEnergyCapacityEntry, DecodeError>)
    ensures
        r is Ok <==> destiny_energy_capacity_entry_wf(jview(*j)),
        r matches Ok(w) ==> (jview(*j) matches Json::Obj(fields)
            && destiny_energy_capacity_entry_fields_match(fields, w)),
        r matches Err(e) ==> destiny_energy_capacity_entry_err_ok(jview(*j), e),
{
    let fields = match j {
        JsonValue::Obj(fields) => fields,
        _ => {
            return Err(root_error("an object"));
        },
    };
    let ghost gf = jview(*j)->Obj_0;
    let capacity_value = match j.get("capacityValue") {
        Some(v) => match v.to_i64() {
            Some(n) if i32::MIN as i64 <= n && n <= i32::MAX as i64 => n as i32,
            _ => {
                return Err(field_error("capacityValue", "a 32-bit integer"));
            },
        },
        _ => {
            return Err(field_error("capacityValue", "a 32-bit integer"));
        },
    };
    let energy_type_hash = match j.get("energyTypeHash") {
        Some(v) => match v.to_i64() {
            Some(n) if 0 <= n && n <= u32::MAX as i64 => n as u32,
            _ => {
                return Err(field_error("energyTypeHash", "a 32-bit unsigned integer"));
            },
        },
        _ => {
            return Err(field_error("energyTypeHash", "a 32-bit unsigned integer"));
        },
    };
    let energy_type = match j.get("energyType") {
        Some(v) => match v.to_i64() {
            Some(n) if 0 <= n && n <= u8::MAX as i64 => match DestinyEnergyType::decode_code(n as u8) {
                Ok(t) => t,
                Err(e) => {
                    return Err(rekey_error("energyType", e));
                },
            },
            _ => {
                return Err(field_error("energyType", "a declared DestinyEnergyType code"));
            },
        },
        _ => {
            return Err(field_error("energyType", "a declared DestinyEnergyType code"));
        },
    };
    let mut i: usize = 0;
    while i < fields.len()
        invariant
            i <= fields.len(),
            gf.len() == fields@.len(),
            forall|k: int| 0 <= k < gf.len()
                ==> #[trigger] gf[k] == (fields@[k].0@, jview(fields@[k].1)),
            forall|k: int| 0 <= k < i
                ==> ((#[trigger] gf[k]).0 == "capacityValue"@ || gf[k].0 == "energyTypeHash"@ || gf[k].0 == "energyType"@),
        decreases fields.len() - i,
    {
        let name = fields[i].0.as_str();
        if !(str_eq(name, "capacityValue") || str_eq(name, "energyTypeHash") || str_eq(name, "energyType")) {
            proof {
                assert(gf[i as int].0 == fields@[i as int].0@);
                assert(!destiny_energy_capacity_entry_wf(jview(*j)));
            }
            return Err(field_error(fields[i].0.as_str(), "an unknown field"));
        }
        i = i + 1;
    }
    Ok(DestinyEnergyCapacityEntry { capacity_value, energy_type_hash, energy_type })
}

/// The wire image of a record is well formed and matched by the
/// record itself: encoding loses nothing that decoding reads.
pub proof fn lemma_destiny_energy_capacity_entry_image(v: DestinyEnergyCapacityEntry)
    ensures
        destiny_energy_capacity_entry_wf(destiny_energy_capacity_entry_json(v)),
        destiny_energy_capacity_entry_json(v) matches Json::Obj(fields) && destiny_energy_capacity_entry_fields_match(fields, v),
{
    reveal_strlit("capacityValue");
    reveal_strlit("energyTypeHash");
    reveal_strlit("energyType");
    let fields = destiny_energy_capacity_entry_json(v)->Obj_0;
    assert("capacityValue"@.len() == 13);
    assert("energyTypeHash"@.len() == 14);
    assert("energyType"@.len() == 10);
    assert("capacityValue"@ != "energyTypeHash"@);
    assert("capacityValue"@ != "energyType"@);
    assert("energyTypeHash"@ != "energyType"@);
    lemma_lookup_at(fields, 0);
    lemma_lookup_at(fields, 1);
    lemma_lookup_at(fields, 2);
    DestinyEnergyType::lemma_code_round_trip(v.energy_type, 0);
}

/// Decoding the encoded image of a record yields a record whose
/// every field carries the same content as the one encoded.
pub proof fn lemma_destiny_energy_capacity_entry_round_trip(v: DestinyEnergyCapacityEntry, w: DestinyEnergyCapacityEntry)
    requires
        destiny_energy_capacity_entry_json(v) matches Json::Obj(fields) && destiny_energy_capacity_entry_fields_match(fields, w),
    ensures
        destiny_energy_capacity_entry_wf(destiny_energy_capacity_entry_json(v)),
        w.capacity_value == v.capacity_value,
        w.energy_type_hash == v.energy_type_hash,
        w.energy_type == v.energy_type,
{
    lemma_destiny_energy_capacity_entry_image(v);
    let fields = destiny_energy_capacity_entry_json(v)->Obj_0;
    reveal_strlit("capacityValue");
    reveal_strlit("energyTypeHash");
    reveal_strlit("energyType");
    assert("capacityValue"@.len() == 13);
    assert("energyTypeHash"@.len() == 14);
    assert("energyType"@.len() == 10);
    assert("capacityValue"@ != "energyTypeHash"@);
    assert("capacityValue"@ != "energyType"@);
    assert("energyTypeHash"@ != "energyType"@);
    lemma_lookup_at(fields, 0);
    lemma_lookup_at(fields, 1);
    lemma_lookup_at(fields, 2);
    DestinyEnergyType::lemma_code_round_trip(v.energy_type, 0);
}

/// The wire image of this record.
pub open spec fn destiny_energy_cost_entry_json(v: DestinyEnergyCostEntry) -> Json {
    Json::Obj(
        seq![
            ("energyCost"@, Json::Int(v.energy_cost as int)),
            ("energyTypeHash"@, Json::Int(v.energy_type_hash as int)),
            ("energyType"@, Json::Int(v.energy_type.spec_code())),
        ],
    )
}

/// Whether a document decodes as this record: an object with exactly these fields.
pub open spec fn destiny_energy_cost_entry_wf(j: Json) -> bool {
    &&& j matches Json::Obj(fields)
    &&& spec_lookup(fields, "energyCost"@) matches Some(Json::Int(n)) && i32::MIN as int <= n <= i32::MAX as int
    &&& spec_lookup(fields, "energyTypeHash"@) matches Some(Json::Int(n)) && 0 <= n <= u32::MAX as int
    &&& spec_lookup(fields, "energyType"@) matches Some(Json::Int(n)) && DestinyEnergyType::spec_from_code(n) is Some
    &&& forall|i: int| 0 <= i < fields.len()
        ==> ((#[trigger] fields[i]).0 == "energyCost"@ || fields[i].0 == "energyTypeHash"@ || fields[i].0 == "energyType"@)
}

/// How a decoded record relates to the document it came from.
pub open spec fn destiny_energy_cost_entry_fields_match(fields: Seq<(Seq<char>, Json)>, w: DestinyEnergyCostEntry) -> bool {
    &&& spec_lookup(fields, "energyCost"@) == Some(Json::Int(w.energy_cost as int))
    &&& spec_lookup(fields, "energyTypeHash"@) == Some(Json::Int(w.energy_type_hash as int))
    &&& spec_lookup(fields, "energyType"@) matches Some(Json::Int(n)) && Some(w.energy_type) == DestinyEnergyType::spec_from_code(n)
}

/// What a decode failure names: its path points at a field of the
/// document that is indeed not decodable, and an undeclared
/// enumeration code is reported with the enumeration's own message.
pub open spec fn destiny_energy_cost_entry_err_ok(j: Json, e: DecodeError) -> bool {
    &&& !(j matches Json::Obj(_)) ==> e.path@.len() == 0
    &&& j matches Json::Obj(fields) ==> (
        (e.path@ == "energyCost"@ && !(spec_lookup(fields, "energyCost"@) matches Some(Json::Int(n)) && i32::MIN as int <= n <= i32::MAX as int))
        || (e.path@ == "energyTypeHash"@ && !(spec_lookup(fields, "energyTypeHash"@) matches Some(Json::Int(n)) && 0 <= n <= u32::MAX as int))
        || (e.path@ == "energyType"@ && !(spec_lookup(fields, "energyType"@) matches Some(Json::Int(n)) && DestinyEnergyType::spec_from_code(n) is Some) && (match spec_lookup(fields, "energyType"@) { Some(Json::Int(n)) => (0 <= n <= u8::MAX as int && DestinyEnergyType::spec_from_code(n) is None) ==> e.message@ == DestinyEnergyType::spec_unknown_code_message(n), _ => true }))
        || (exists|i: int| 0 <= i < fields.len() && (#[trigger] fields[i]).0 == e.path@ && !((fields[i].0 == "energyCost"@ || fields[i].0 == "energyTypeHash"@ || fields[i].0 == "energyType"@))))
}

pub fn encode_destiny_energy_cost_entry(v: &DestinyEnergyCostEntry) -> (r: JsonValue)
    ensures
        jview(r) == destiny_energy_cost_entry_json(*v),
{
    let mut fields: Vec<(String, JsonValue)> = Vec::new();
    fields.push(("energyCost".to_owned(), JsonValue::Int(v.energy_cost as i64)));
    fields.push(("energyTypeHash".to_owned(), JsonValue::Int(v.energy_type_hash as i64)));
    fields.push(("energyType".to_owned(), JsonValue::Int(v.energy_type.code() as i64)));
    let r = JsonValue::Obj(fields);
    proof {
        assert(jview(fields@[0].1) == destiny_energy_cost_entry_json(*v)->Obj_0[0].1);
        assert(jview(fields@[1].1) == destiny_energy_cost_entry_json(*v)->Obj_0[1].1);
        assert(jview(fields@[2].1) == destiny_energy_cost_entry_json(*v)->Obj_0[2].1);
        assert(jview(r)->Obj_0 =~= destiny_energy_cost_entry_json(*v)->Obj_0);
    }
    r
}

/// Decodes this record; a failure names the offending field in its
/// path and says what was expected of it.
#[verifier::loop_isolation(false)]
pub fn decode_destiny_energy_cost_entry(j: &JsonValue) -> (r: Result<DestinyEnergyCostEntry, DecodeError>)
    ensures
        r is Ok <==> destiny_energy_cost_entry_wf(jview(*j)),
        r matches Ok(w) ==> (jview(*j) matches Json::Obj(fields)
            && destiny_energy_cost_entry_fields_match(fields, w)),
        r matches Err(e) ==> destiny_energy_cost_entry_err_ok(jview(*j), e),
{
    let fields = match j {
        JsonValue::Obj(fields) => fields,
        _ => {
            return Err(root_error("an object"));
        },
    };
    let ghost gf = jview(*j)->Obj_0;
    let energy_cost = match j.get("energyCost") {
        Some(v) => match v.to_i64() {
            Some(n) if i32::MIN as i64 <= n && n <= i32::MAX as i64 => n as i32,
            _ => {
                return Err(field_error("energyCost", "a 32-bit integer"));
            },
        },
        _ => {
            return Err(field_error("energyCost", "a 32-bit integer"));
        },
    };
    let energy_type_hash = match j.get("energyTypeHash") {
        Some(v) => match v.to_i64() {
            Some(n) if 0 <= n && n <= u32::MAX as i64 => n as u32,
            _ => {
                return Err(field_error("energyTypeHash", "a 32-bit unsigned integer"));
            },
        },
        _ => {
            return Err(field_error("energyTypeHash", "a 32-bit unsigned integer"));
        },
    };
    let energy_type = match j.get("energyType") {
        Some(v) => match v.to_i64() {
            Some(n) if 0 <= n && n <= u8::MAX as i64 => match DestinyEnergyType::decode_code(n as u8) {
                Ok(t) => t,
                Err(e) => {
                    return Err(rekey_error("energyType", e));
                },
            },
            _ => {
                return Err(field_error("energyType", "a declared DestinyEnergyType code"));
            },
        },
        _ => {
            return Err(field_error("energyType", "a declared DestinyEnergyType code"));
        },
    };
    let mut i: usize = 0;
    while i < fields.len()
        invariant
            i <= fields.len(),
            gf.len() == fields@.len(),
            forall|k: int| 0 <= k < gf.len()
                ==> #[trigger] gf[k] == (fields@[k].0@, jview(fields@[k].1)),
            forall|k: int| 0 <= k < i
                ==> ((#[trigger] gf[k]).0 == "energyCost"@ || gf[k].0 == "energyTypeHash"@ || gf[k].0 == "energyType"@),
        decreases fields.len() - i,
    {
        let name = fields[i].0.as_str();
        if !(str_eq(name, "energyCost") || str_eq(name, "energyTypeHash") || str_eq(name, "energyType")) {
            proof {
                assert(gf[i as int].0 == fields@[i as int].0@);
                assert(!destiny_energy_cost_entry_wf(jview(*j)));
            }
            return Err(field_error(fields[i].0.as_str(), "an unknown field"));
        }
        i = i + 1;
    }
    Ok(DestinyEnergyCostEntry { energy_cost, energy_type_hash, energy_type })
}

/// The wire image of a record is well formed and matched by the
/// record itself: encoding loses nothing that decoding reads.
pub proof fn lemma_destiny_energy_cost_entry_image(v: DestinyEnergyCostEntry)
    ensures
        destiny_energy_cost_entry_wf(destiny_energy_cost_entry_json(v)),
        destiny_energy_cost_entry_json(v) matches Json::Obj(fields) && destiny_energy_cost_entry_fields_match(fields, v),
{
    reveal_strlit("energyCost");
    reveal_strlit("energyTypeHash");
    reveal_strlit("energyType");
    let fields = destiny_energy_cost_entry_json(v)->Obj_0;
    assert("energyCost"@.len() == 10);
    assert("energyTypeHash"@.len() == 14);
    assert("energyType"@.len() == 10);
    assert("energyCost"@ != "energyTypeHash"@);
    assert(("energyCost"@)[6] != ("energyType"@)[6]);
    assert("energyCost"@ != "energyType"@);
    assert("energyTypeHash"@ != "energyType"@);
    lemma_lookup_at(fields, 0);
    lemma_lookup_at(fields, 1);
    lemma_lookup_at(fields, 2);
    DestinyEnergyType::lemma_code_round_trip(v.energy_type, 0);
}

/// Decoding the encoded image of a record yields a record whose
/// every field carries the same content as the one encoded.
pub proof fn lemma_destiny_energy_cost_entry_round_trip(v: DestinyEnergyCostEntry, w: DestinyEnergyCostEntry)
    requires
        destiny_energy_cost_entry_json(v) matches Json::Obj(fields) && destiny_energy_cost_entry_fields_match(fields, w),
    ensures
        destiny_energy_cost_entry_wf(destiny_energy_cost_entry_json(v)),
        w.energy_cost == v.energy_cost,
        w.energy_type_hash == v.energy_type_hash,
        w.energy_type == v.energy_type,
{
    lemma_destiny_energy_cost_entry_image(v);
    let fields = destiny_energy_cost_entry_json(v)->Obj_0;
    reveal_strlit("energyCost");
    reveal_strlit("energyTypeHash");
    reveal_strlit("energyType");
    assert("energyCost"@.len() == 10);
    assert("energyTypeHash"@.len() == 14);
    assert("energyType"@.len() == 10);
    assert("energyCost"@ != "energyTypeHash"@);
    assert(("energyCost"@)[6] != ("energyType"@)[6]);
    assert("energyCost"@ != "energyType"@);
    assert("energyTypeHash"@ != "energyType"@);
    lemma_lookup_at(fields, 0);
    lemma_lookup_at(fields, 1);
    lemma_lookup_at(fields, 2);
    DestinyEnergyType::lemma_code_round_trip(v.energy_type, 0);
}

/// The wire image of this record.
pub open spec fn destiny_item_instance_energy_json(v: DestinyItemInstanceEnergy) -> Json {
    Json::Obj(
        seq![
            ("energyTypeHash"@, Json::Int(v.energy_type_hash as int)),
            ("energyType"@, Json::Int(v.energy_type.spec_code())),
            ("energyCapacity"@, Json::Int(v.energy_capacity as int)),
            ("energyUsed"@, Json::Int(v.energy_used as int)),
            ("energyUnused"@, Json::Int(v.energy_unused as int)),
        ],
    )
}

/// Whether a document decodes as this record: an object with exactly these fields.
pub open spec fn destiny_item_instance_energy_wf(j: Json) -> bool {
    &&& j matches Json::Obj(fields)
    &&& spec_lookup(fields, "energyTypeHash"@) matches Some(Json::Int(n)) && 0 <= n <= u32::MAX as int
    &&& spec_lookup(fields, "energyType"@) matches Some(Json::Int(n)) && DestinyEnergyType::spec_from_code(n) is Some
    &&& spec_lookup(fields, "energyCapacity"@) matches Some(Json::Int(n)) && i32::MIN as int <= n <= i32::MAX as int
    &&& spec_lookup(fields, "energyUsed"@) matches Some(Json::Int(n)) && i32::MIN as int <= n <= i32::MAX as int
    &&& spec_lookup(fields, "energyUnused"@) matches Some(Json::Int(n)) && i32::MIN as int <= n <= i32::MAX as int
    &&& forall|i: int| 0 <= i < fields.len()
        ==> ((#[trigger] fields[i]).0 == "energyTypeHash"@ || fields[i].0 == "energyType"@ || fields[i].0 == "energyCapacity"@ || fields[i].0 == "energyUsed"@ || fields[i].0 == "energyUnused"@)
}

/// How a decoded record relates to the document it came from.
pub open spec fn destiny_item_instance_energy_fields_match(fields: Seq<(Seq<char>, Json)>, w: DestinyItemInstanceEnergy) -> bool {
    &&& spec_lookup(fields, "energyTypeHash"@) == Some(Json::Int(w.energy_type_hash as int))
    &&& spec_lookup(fields, "energyType"@) matches Some(Json::Int(n)) && Some(w.energy_type) == DestinyEnergyType::spec_from_code(n)
    &&& spec_lookup(fields, "energyCapacity"@) == Some(Json::Int(w.energy_capacity as int))
    &&& spec_lookup(fields, "energyUsed"@) == Some(Json::Int(w.energy_used as int))
    &&& spec_lookup(fields, "energyUnused"@) == Some(Json::Int(w.energy_unused as int))
}

/// What a decode failure names: its path points at a field of the
/// document that is indeed not decodable, and an undeclared
/// enumeration code is reported with the enumeration's own message.
pub open spec fn destiny_item_instance_energy_err_ok(j: Json, e: DecodeError) -> bool {
    &&& !(j matches Json::Obj(_)) ==> e.path@.len() == 0
    &&& j matches Json::Obj(fields) ==> (
        (e.path@ == "energyTypeHash"@ && !(spec_lookup(fields, "energyTypeHash"@) matches Some(Json::Int(n)) && 0 <= n <= u32::MAX as int))
        || (e.path@ == "energyType"@ && !(spec_lookup(fields, "energyType"@) matches Some(Json::Int(n)) && DestinyEnergyType::spec_from_code(n) is Some) && (match spec_lookup(fields, "energyType"@) { Some(Json::Int(n)) => (0 <= n <= u8::MAX as int && DestinyEnergyType::spec_from_code(n) is None) ==> e.message@ == DestinyEnergyType::spec_unknown_code_message(n), _ => true }))
        || (e.path@ == "energyCapacity"@ && !(spec_lookup(fields, "energyCapacity"@) matches Some(Json::Int(n)) && i32::MIN as int <= n <= i32::MAX as int))
        || (e.path@ == "energyUsed"@ && !(spec_lookup(fields, "energyUsed"@) matches Some(Json::Int(n)) && i32::MIN as int <= n <= i32::MAX as int))
        || (e.path@ == "energyUnused"@ && !(spec_lookup(fields, "energyUnused"@) matches Some(Json::Int(n)) && i32::MIN as int <= n <= i32::MAX as int))
        || (exists|i: int| 0 <= i < fields.len() && (#[trigger] fields[i]).0 == e.path@ && !((fields[i].0 == "energyTypeHash"@ || fields[i].0 == "energyType"@ || fields[i].0 == "energyCapacity"@ || fields[i].0 == "energyUsed"@ || fields[i].0 == "energyUnused"@))))
}

pub fn encode_destiny_item_instance_energy(v: &DestinyItemInstanceEnergy) -> (r: JsonValue)
    ensures
        jview(r) == destiny_item_instance_energy_json(*v),
{
    let mut fields: Vec<(String, JsonValue)> = Vec::new();
    fields.push(("energyTypeHash".to_owned(), JsonValue::Int(v.energy_type_hash as i64)));
    fields.push(("energyType".to_owned(), JsonValue::Int(v.energy_type.code() as i64)));
    fields.push(("energyCapacity".to_owned(), JsonValue::Int(v.energy_capacity as i64)));
    fields.push(("energyUsed".to_owned(), JsonValue::Int(v.energy_used as i64)));
    fields.push(("energyUnused".to_owned(), JsonValue::Int(v.energy_unused as i64)));
    let r = JsonValue::Obj(fields);
    proof {
        assert(jview(fields@[0].1) == destiny_item_instance_energy_json(*v)->Obj_0[0].1);
        assert(jview(fields@[1].1) == destiny_item_instance_energy_json(*v)->Obj_0[1].1);
        assert(jview(fields@[2].1) == destiny_item_instance_energy_json(*v)->Obj_0[2].1);
        assert(jview(fields@[3].1) == destiny_item_instance_energy_json(*v)->Obj_0[3].1);
        assert(jview(fields@[4].1) == destiny_item_instance_energy_json(*v)->Obj_0[4].1);
        assert(jview(r)->Obj_0 =~= destiny_item_instance_energy_json(*v)->Obj_0);
    }
    r
}

/// Decodes this record; a failure names the offending field in its
/// path and says what was expected of it.
#[verifier::loop_isolation(false)]
pub fn decode_destiny_item_instance_energy(j: &JsonValue) -> (r: Result<DestinyItemInstanceEnergy, DecodeError>)
    ensures
        r is Ok <==> destiny_item_instance_energy_wf(jview(*j)),
        r matches Ok(w) ==> (jview(*j) matches Json::Obj(fields)
            && destiny_item_instance_energy_fields_match(fields, w)),
        r matches Err(e) ==> destiny_item_instance_energy_err_ok(jview(*j), e),
{
    let fields = match j {
        JsonValue::Obj(fields) => fields,
        _ => {
            return Err(root_error("an object"));
        },
    };
    let ghost gf = jview(*j)->Obj_0;
    let energy_type_hash = match j.get("energyTypeHash") {
        Some(v) => match v.to_i64() {
            Some(n) if 0 <= n && n <= u32::MAX as i64 => n as u32,
            _ => {
                return Err(field_error("energyTypeHash", "a 32-bit unsigned integer"));
            },
        },
        _ => {
            return Err(field_error("energyTypeHash", "a 32-bit unsigned integer"));
        },
    };
    let energy_type = match j.get("energyType") {
        Some(v) => match v.to_i64() {
            Some(n) if 0 <= n && n <= u8::MAX as i64 => match DestinyEnergyType::decode_code(n as u8) {
                Ok(t) => t,
                Err(e) => {
                    return Err(rekey_error("energyType", e));
                },
            },
            _ => {
                return Err(field_error("energyType", "a declared DestinyEnergyType code"));
            },
        },
        _ => {
            return Err(field_error("energyType", "a declared DestinyEnergyType code"));
        },
    };
    let energy_capacity = match j.get("energyCapacity") {
        Some(v) => match v.to_i64() {
            Some(n) if i32::MIN as i64 <= n && n <= i32::MAX as i64 => n as i32,
            _ => {
                return Err(field_error("energyCapacity", "a 32-bit integer"));
            },
        },
        _ => {
            return Err(field_error("energyCapacity", "a 32-bit integer"));
        },
    };
    let energy_used = match j.get("energyUsed") {
        Some(v) => match v.to_i64() {
            Some(n) if i32::MIN as i64 <= n && n <= i32::MAX as i64 => n as i32,
            _ => {
                return Err(field_error("energyUsed", "a 32-bit integer"));
            },
        },
        _ => {
            return Err(field_error("energyUsed", "a 32-bit integer"));
        },
    };
    let energy_unused = match j.get("energyUnused") {
        Some(v) => match v.to_i64() {
            Some(n) if i32::MIN as i64 <= n && n <= i32::MAX as i64 => n as i32,
            _ => {
                return Err(field_error("energyUnused", "a 32-bit integer"));
            },
        },
        _ => {
            return Err(field_error("energyUnused", "a 32-bit integer"));
        },
    };
    let mut i: usize = 0;
    while i < fields.len()
        invariant
            i <= fields.len(),
            gf.len() == fields@.len(),
            forall|k: int| 0 <= k < gf.len()
                ==> #[trigger] gf[k] == (fields@[k].0@, jview(fields@[k].1)),
            forall|k: int| 0 <= k < i
                ==> ((#[trigger] gf[k]).0 == "energyTypeHash"@ || gf[k].0 == "energyType"@ || gf[k].0 == "energyCapacity"@ || gf[k].0 == "energyUsed"@ || gf[k].0 == "energyUnused"@),
        decreases fields.len() - i,
    {
        let name = fields[i].0.as_str();
        if !(str_eq(name, "energyTypeHash") || str_eq(name, "energyType") || str_eq(name, "energyCapacity") || str_eq(name, "energyUsed") || str_eq(name, "energyUnused")) {
            proof {
                assert(gf[i as int].0 == fields@[i as int].0@);
                assert(!destiny_item_instance_energy_wf(jview(*j)));
            }
            return Err(field_error(fields[i].0.as_str(), "an unknown field"));
        }
        i = i + 1;
    }
    Ok(DestinyItemInstanceEnergy { energy_type_hash, energy_type, energy_capacity, energy_used, energy_unused })
}

/// The wire image of a record is well formed and matched by the
/// record itself: encoding loses nothing that decoding reads.
pub proof fn lemma_destiny_item_instance_energy_image(v: DestinyItemInstanceEnergy)
    ensures
        destiny_item_instance_energy_wf(destiny_item_instance_energy_json(v)),
        destiny_item_instance_energy_json(v) matches Json::Obj(fields) && destiny_item_instance_energy_fields_match(fields, v),
{
    reveal_strlit("energyTypeHash");
    reveal_strlit("energyType");
    reveal_strlit("energyCapacity");
    reveal_strlit("energyUsed");
    reveal_strlit("energyUnused");
    let fields = destiny_item_instance_energy_json(v)->Obj_0;
    assert("energyTypeHash"@.len() == 14);
    assert("energyType"@.len() == 10);
    assert("energyCapacity"@.len() == 14);
    assert("energyUsed"@.len() == 10);
    assert("energyUnused"@.len() == 12);
    assert("energyTypeHash"@ != "energyType"@);
    assert(("energyTypeHash"@)[6] != ("energyCapacity"@)[6]);
    assert("energyTypeHash"@ != "energyCapacity"@);
    assert("energyTypeHash"@ != "energyUsed"@);
    assert("energyTypeHash"@ != "energyUnused"@);
    assert("energyType"@ != "energyCapacity"@);
    assert(("energyType"@)[6] != ("energyUsed"@)[6]);
    assert("energyType"@ != "energyUsed"@);
    assert("energyType"@ != "energyUnused"@);
    assert("energyCapacity"@ != "energyUsed"@);
    assert("energyCapacity"@ != "energyUnused"@);
    assert("energyUsed"@ != "energyUnused"@);
    lemma_lookup_at(fields, 0);
    lemma_lookup_at(fields, 1);
    lemma_lookup_at(fields, 2);
    lemma_lookup_at(fields, 3);
    lemma_lookup_at(fields, 4);
    DestinyEnergyType::lemma_code_round_trip(v.energy_type, 0);
}

/// Decoding the encoded image of a record yields a record whose
/// every field carries the same content as the one encoded.
pub proof fn lemma_destiny_item_instance_energy_round_trip(v: DestinyItemInstanceEnergy, w: DestinyItemInstanceEnergy)
    requires
        destiny_item_instance_energy_json(v) matches Json::Obj(fields) && destiny_item_instance_energy_fields_match(fields, w),
    ensures
        destiny_item_instance_energy_wf(destiny_item_instance_energy_json(v)),
        w.energy_type_hash == v.energy_type_hash,
        w.energy_type == v.energy_type,
        w.energy_capacity == v.energy_capacity,
        w.energy_used == v.energy_used,
        w.energy_unused == v.energy_unused,
{
    lemma_destiny_item_instance_energy_image(v);
    let fields = destiny_item_instance_energy_json(v)->Obj_0;
    reveal_strlit("energyTypeHash");
    reveal_strlit("energyType");
    reveal_strlit("energyCapacity");
    reveal_strlit("energyUsed");
    reveal_strlit("energyUnused");
    assert("energyTypeHash"@.len() == 14);
    assert("energyType"@.len() == 10);
    assert("energyCapacity"@.len() == 14);
    assert("energyUsed"@.len() == 10);
    assert("energyUnused"@.len() == 12);
    assert("energyTypeHash"@ != "energyType"@);
    assert(("energyTypeHash"@)[6] != ("energyCapacity"@)[6]);
    assert("energyTypeHash"@ != "energyCapacity"@);
    assert("energyTypeHash"@ != "energyUsed"@);
    assert("energyTypeHash"@ != "energyUnused"@);
    assert("energyType"@ != "energyCapacity"@);
    assert(("energyType"@)[6] != ("energyUsed"@)[6]);
    assert("energyType"@ != "energyUsed"@);
    assert("energyType"@ != "energyUnused"@);
    assert("energyCapacity"@ != "energyUsed"@);
    assert("energyCapacity"@ != "energyUnused"@);
    assert("energyUsed"@ != "energyUnused"@);
    lemma_lookup_at(fields, 0);
    lemma_lookup_at(fields, 1);
    lemma_lookup_at(fields, 2);
    lemma_lookup_at(fields, 3);
    lemma_lookup_at(fields, 4);
    DestinyEnergyType::lemma_code_round_trip(v.energy_type, 0);
}

/// The wire image of this record.
pub open spec fn destiny_insert_plug_action_definition_json(v: DestinyInsertPlugActionDefinition) -> Json {
    Json::Obj(
        seq![
            ("actionExecuteSeconds"@, Json::Int(v.action_execute_seconds as int)),
            ("actionType"@, Json::Int(v.action_type.spec_code())),
        ],
    )
}

/// Whether a document decodes as this record: unknown fields are tolerated.
pub open spec fn destiny_insert_plug_action_definition_wf(j: Json) -> bool {
    &&& j matches Json::Obj(fields)
    &&& spec_lookup(fields, "actionExecuteSeconds"@) matches Some(Json::Int(n)) && i32::MIN as int <= n <= i32::MAX as int
    &&& spec_lookup(fields, "actionType"@) matches Some(Json::Int(n)) && SocketTypeActionType::spec_from_code(n) is Some
}

/// How a decoded record relates to the document it came from.
pub open spec fn destiny_insert_plug_action_definition_fields_match(fields: Seq<(Seq<char>, Json)>, w: DestinyInsertPlugActionDefinition) -> bool {
    &&& spec_lookup(fields, "actionExecuteSeconds"@) == Some(Json::Int(w.action_execute_seconds as int))
    &&& spec_lookup(fields, "actionType"@) matches Some(Json::Int(n)) && Some(w.action_type) == SocketTypeActionType::spec_from_code(n)
}

/// What a decode failure names: its path points at a field of the
/// document that is indeed not decodable, and an undeclared
/// enumeration code is reported with the enumeration's own message.
pub open spec fn destiny_insert_plug_action_definition_err_ok(j: Json, e: DecodeError) -> bool {
    &&& !(j matches Json::Obj(_)) ==> e.path@.len() == 0
    &&& j matches Json::Obj(fields) ==> (
        (e.path@ == "actionExecuteSeconds"@ && !(spec_lookup(fields, "actionExecuteSeconds"@) matches Some(Json::Int(n)) && i32::MIN as int <= n <= i32::MAX as int))
        || (e.path@ == "actionType"@ && !(spec_lookup(fields, "actionType"@) matches Some(Json::Int(n)) && SocketTypeActionType::spec_from_code(n) is Some) && (match spec_lookup(fields, "actionType"@) { Some(Json::Int(n)) => (0 <= n <= u8::MAX as int && SocketTypeActionType::spec_from_code(n) is None) ==> e.message@ == SocketTypeActionType::spec_unknown_code_message(n), _ => true })))
}

pub fn encode_destiny_insert_plug_action_definition(v: &DestinyInsertPlugActionDefinition) -> (r: JsonValue)
    ensures
        jview(r) == destiny_insert_plug_action_definition_json(*v),
{
    let mut fields: Vec<(String, JsonValue)> = Vec::new();
    fields.push(("actionExecuteSeconds".to_owned(), JsonValue::Int(v.action_execute_seconds as i64)));
    fields.push(("actionType".to_owned(), JsonValue::Int(v.action_type.code() as i64)));
    let r = JsonValue::Obj(fields);
    proof {
        assert(jview(fields@[0].1) == destiny_insert_plug_action_definition_json(*v)->Obj_0[0].1);
        assert(jview(fields@[1].1) == destiny_insert_plug_action_definition_json(*v)->Obj_0[1].1);
        assert(jview(r)->Obj_0 =~= destiny_insert_plug_action_definition_json(*v)->Obj_0);
    }
    r
}

/// Decodes this record; a failure names the offending field in its
/// path and says what was expected of it.
#[verifier::loop_isolation(false)]
pub fn decode_destiny_insert_plug_action_definition(j: &JsonValue) -> (r: Result<DestinyInsertPlugActionDefinition, DecodeError>)
    ensures
        r is Ok <==> destiny_insert_plug_action_definition_wf(jview(*j)),
        r matches Ok(w) ==> (jview(*j) matches Json::Obj(fields)
            && destiny_insert_plug_action_definition_fields_match(fields, w)),
        r matches Err(e) ==> destiny_insert_plug_action_definition_err_ok(jview(*j), e),
{
    let fields = match j {
        JsonValue::Obj(fields) => fields,
        _ => {
            return Err(root_error("an object"));
        },
    };
    let ghost gf = jview(*j)->Obj_0;
    let action_execute_seconds = match j.get("actionExecuteSeconds") {
        Some(v) => match v.to_i64() {
            Some(n) if i32::MIN as i64 <= n && n <= i32::MAX as i64 => n as i32,
            _ => {
                return Err(field_error("actionExecuteSeconds", "a 32-bit integer"));
            },
        },
        _ => {
            return Err(field_error("actionExecuteSeconds", "a 32-bit integer"));
        },
    };
    let action_type = match j.get("actionType") {
        Some(v) => match v.to_i64() {
            Some(n) if 0 <= n && n <= u8::MAX as i64 => match SocketTypeActionType::decode_code(n as u8) {
                Ok(t) => t,
                Err(e) => {
                    return Err(rekey_error("actionType", e));
                },
            },
            _ => {
                return Err(field_error("actionType", "a declared SocketTypeActionType code"));
            },
        },
        _ => {
            return Err(field_error("actionType", "a declared SocketTypeActionType code"));
        },
    };
    Ok(DestinyInsertPlugActionDefinition { action_execute_seconds, action_type })
}

/// The wire image of a record is well formed and matched by the
/// record itself: encoding loses nothing that decoding reads.
pub proof fn lemma_destiny_insert_plug_action_definition_image(v: DestinyInsertPlugActionDefinition)
    ensures
        destiny_insert_plug_action_definition_wf(destiny_insert_plug_action_definition_json(v)),
        destiny_insert_plug_action_definition_json(v) matches Json::Obj(fields) && destiny_insert_plug_action_definition_fields_match(fields, v),
{
    reveal_strlit("actionExecuteSeconds");
    reveal_strlit("actionType");
    let fields = destiny_insert_plug_action_definition_json(v)->Obj_0;
    assert("actionExecuteSeconds"@.len() == 20);
    assert("actionType"@.len() == 10);
    assert("actionExecuteSeconds"@ != "actionType"@);
    lemma_lookup_at(fields, 0);
    lemma_lookup_at(fields, 1);
    SocketTypeActionType::lemma_code_round_trip(v.action_type, 0);
}

/// Decoding the encoded image of a record yields a record whose
/// every field carries the same content as the one encoded.
pub proof fn lemma_destiny_insert_plug_action_definition_round_trip(v: DestinyInsertPlugActionDefinition, w: DestinyInsertPlugActionDefinition)
    requires
        destiny_insert_plug_action_definition_json(v) matches Json::Obj(fields) && destiny_insert_plug_action_definition_fields_match(fields, w),
    ensures
        destiny_insert_plug_action_definition_wf(destiny_insert_plug_action_definition_json(v)),
        w.action_execute_seconds == v.action_execute_seconds,
        w.action_type == v.action_type,
{
    lemma_destiny_insert_plug_action_definition_image(v);
    let fields = destiny_insert_plug_action_definition_json(v)->Obj_0;
    reveal_strlit("actionExecuteSeconds");
    reveal_strlit("actionType");
    assert("actionExecuteSeconds"@.len() == 20);
    assert("actionType"@.len() == 10);
    assert("actionExecuteSeconds"@ != "actionType"@);
    lemma_lookup_at(fields, 0);
    lemma_lookup_at(fields, 1);
    SocketTypeActionType::lemma_code_round_trip(v.action_type, 0);
}

/// The wire image of this record.
pub open spec fn destiny_socket_type_scalar_material_requirement_entry_json(v: DestinySocketTypeScalarMaterialRequirementEntry) -> Json {
    Json::Obj(
        seq![
            ("currencyItemHash"@, Json::Int(v.currency_item_hash as int)),
            ("scalarValue"@, Json::Int(v.scalar_value as int)),
        ],
    )
}

/// Whether a document decodes as this record: unknown fields are tolerated.
pub open spec fn destiny_socket_type_scalar_material_requirement_entry_wf(j: Json) -> bool {
    &&& j matches Json::Obj(fields)
    &&& spec_lookup(fields, "currencyItemHash"@) matches Some(Json::Int(n)) && 0 <= n <= u32::MAX as int
    &&& spec_lookup(fields, "scalarValue"@) matches Some(Json::Int(n)) && i32::MIN as int <= n <= i32::MAX as int
}

/// How a decoded record relates to the document it came from.
pub open spec fn destiny_socket_type_scalar_material_requirement_entry_fields_match(fields: Seq<(Seq<char>, Json)>, w: DestinySocketTypeScalarMaterialRequirementEntry) -> bool {
    &&& spec_lookup(fields, "currencyItemHash"@) == Some(Json::Int(w.currency_item_hash as int))
    &&& spec_lookup(fields, "scalarValue"@) == Some(Json::Int(w.scalar_value as int))
}

/// What a decode failure names: its path points at a field of the
/// document that is indeed not decodable, and an undeclared
/// enumeration code is reported with the enumeration's own message.
pub open spec fn destiny_socket_type_scalar_material_requirement_entry_err_ok(j: Json, e: DecodeError) -> bool {
    &&& !(j matches Json::Obj(_)) ==> e.path@.len() == 0
    &&& j matches Json::Obj(fields) ==> (
        (e.path@ == "currencyItemHash"@ && !(spec_lookup(fields, "currencyItemHash"@) matches Some(Json::Int(n)) && 0 <= n <= u32::MAX as int))
        || (e.path@ == "scalarValue"@ && !(spec_lookup(fields, "scalarValue"@) matches Some(Json::Int(n)) && i32::MIN as int <= n <= i32::MAX as int)))
}

pub fn encode_destiny_socket_type_scalar_material_requirement_entry(v: &DestinySocketTypeScalarMaterialRequirementEntry) -> (r: JsonValue)
    ensures
        jview(r) == destiny_socket_type_scalar_material_requirement_entry_json(*v),
{
    let mut fields: Vec<(String, JsonValue)> = Vec::new();
    fields.push(("currencyItemHash".to_owned(), JsonValue::Int(v.currency_item_hash as i64)));
    fields.push(("scalarValue".to_owned(), JsonValue::Int(v.scalar_value as i64)));
    let r = JsonValue::Obj(fields);
    proof {
        assert(jview(fields@[0].1) == destiny_socket_type_scalar_material_requirement_entry_json(*v)->Obj_0[0].1);
        assert(jview(fields@[1].1) == destiny_socket_type_scalar_material_requirement_entry_json(*v)->Obj_0[1].1);
        assert(jview(r)->Obj_0 =~= destiny_socket_type_scalar_material_requirement_entry_json(*v)->Obj_0);
    }
    r
}

/// Decodes this record; a failure names the offending field in its
/// path and says what was expected of it.
#[verifier::loop_isolation(false)]
pub fn decode_destiny_socket_type_scalar_material_requirement_entry(j: &JsonValue) -> (r: Result<DestinySocketTypeScalarMaterialRequirementEntry, DecodeError>)
    ensures
        r is Ok <==> destiny_socket_type_scalar_material_requirement_entry_wf(jview(*j)),
        r matches Ok(w) ==> (jview(*j) matches Json::Obj(fields)
            && destiny_socket_type_scalar_material_requirement_entry_fields_match(fields, w)),
        r matches Err(e) ==> destiny_socket_type_scalar_material_requirement_entry_err_ok(jview(*j), e),
{
    let fields = match j {
        JsonValue::Obj(fields) => fields,
        _ => {
            return Err(root_error("an object"));
        },
    };
    let ghost gf = jview(*j)->Obj_0;
    let currency_item_hash = match j.get("currencyItemHash") {
        Some(v) => match v.to_i64() {
            Some(n) if 0 <= n && n <= u32::MAX as i64 => n as u32,
            _ => {
                return Err(field_error("currencyItemHash", "a 32-bit unsigned integer"));
            },
        },
        _ => {
            return Err(field_error("currencyItemHash", "a 32-bit unsigned integer"));
        },
    };
    let scalar_value = match j.get("scalarValue") {
        Some(v) => match v.to_i64() {
            Some(n) if i32::MIN as i64 <= n && n <= i32::MAX as i64 => n as i32,
            _ => {
                return Err(field_error("scalarValue", "a 32-bit integer"));
            },
        },
        _ => {
            return Err(field_error("scalarValue", "a 32-bit integer"));
        },
    };
    Ok(DestinySocketTypeScalarMaterialRequirementEntry { currency_item_hash, scalar_value })
}

/// The wire image of a record is well formed and matched by the
/// record itself: encoding loses nothing that decoding reads.
pub proof fn lemma_destiny_socket_type_scalar_material_requirement_entry_image(v: DestinySocketTypeScalarMaterialRequirementEntry)
    ensures
        destiny_socket_type_scalar_material_requirement_entry_wf(destiny_socket_type_scalar_material_requirement_entry_json(v)),
        destiny_socket_type_scalar_material_requirement_entry_json(v) matches Json::Obj(fields) && destiny_socket_type_scalar_material_requirement_entry_fields_match(fields, v),
{
    reveal_strlit("currencyItemHash");
    reveal_strlit("scalarValue");
    let fields = destiny_socket_type_scalar_material_requirement_entry_json(v)->Obj_0;
    assert("currencyItemHash"@.len() == 16);
    assert("scalarValue"@.len() == 11);
    assert("currencyItemHash"@ != "scalarValue"@);
    lemma_lookup_at(fields, 0);
    lemma_lookup_at(fields, 1);
}

/// Decoding the encoded image of a record yields a record whose
/// every field carries the same content as the one encoded.
pub proof fn lemma_destiny_socket_type_scalar_material_requirement_entry_round_trip(v: DestinySocketTypeScalarMaterialRequirementEntry, w: DestinySocketTypeScalarMaterialRequirementEntry)
    requires
        destiny_socket_type_scalar_material_requirement_entry_json(v) matches Json::Obj(fields) && destiny_socket_type_scalar_material_requirement_entry_fields_match(fields, w),
    ensures
        destiny_socket_type_scalar_material_requirement_entry_wf(destiny_socket_type_scalar_material_requirement_entry_json(v)),
        w.currency_item_hash == v.currency_item_hash,
        w.scalar_value == v.scalar_value,
{
    lemma_destiny_socket_type_scalar_material_requirement_entry_image(v);
    let fields = destiny_socket_type_scalar_material_requirement_entry_json(v)->Obj_0;
    reveal_strlit("currencyItemHash");
    reveal_strlit("scalarValue");
    assert("currencyItemHash"@.len() == 16);
    assert("scalarValue"@.len() == 11);
    assert("currencyItemHash"@ != "scalarValue"@);
    lemma_lookup_at(fields, 0);
    lemma_lookup_at(fields, 1);
}

/// The wire image of this record.
pub open spec fn destiny_collectible_component_json(v: DestinyCollectibleComponent) -> Json {
    Json::Obj(
        seq![
            ("state"@, Json::Int(v.state.bits as int)),
        ],
    )
}

/// Whether a document decodes as this record: unknown fields are tolerated.
pub open spec fn destiny_collectible_component_wf(j: Json) -> bool {
    &&& j matches Json::Obj(fields)
    &&& spec_lookup(fields, "state"@) matches Some(Json::Int(n)) && 0 <= n <= u8::MAX as int
}

/// How a decoded record relates to the document it came from.
pub open spec fn destiny_collectible_component_fields_match(fields: Seq<(Seq<char>, Json)>, w: DestinyCollectibleComponent) -> bool {
    &&& spec_lookup(fields, "state"@) matches Some(Json::Int(n)) && w.state.bits == (n as u8) & 127
}

/// What a decode failure names: its path points at a field of the
/// document that is indeed not decodable, and an undeclared
/// enumeration code is reported with the enumeration's own message.
pub open spec fn destiny_collectible_component_err_ok(j: Json, e: DecodeError) -> bool {
    &&& !(j matches Json::Obj(_)) ==> e.path@.len() == 0
    &&& j matches Json::Obj(fields) ==> (
        (e.path@ == "state"@ && !(spec_lookup(fields, "state"@) matches Some(Json::Int(n)) && 0 <= n <= u8::MAX as int)))
}

pub fn encode_destiny_collectible_component(v: &DestinyCollectibleComponent) -> (r: JsonValue)
    ensures
        jview(r) == destiny_collectible_component_json(*v),
{
    let mut fields: Vec<(String, JsonValue)> = Vec::new();
    fields.push(("state".to_owned(), JsonValue::Int(v.state.bits as i64)));
    let r = JsonValue::Obj(fields);
    proof {
        assert(jview(fields@[0].1) == destiny_collectible_component_json(*v)->Obj_0[0].1);
        assert(jview(r)->Obj_0 =~= destiny_collectible_component_json(*v)->Obj_0);
    }
    r
}

/// Decodes this record; a failure names the offending field in its
/// path and says what was expected of it.
#[verifier::loop_isolation(false)]
pub fn decode_destiny_collectible_component(j: &JsonValue) -> (r: Result<DestinyCollectibleComponent, DecodeError>)
    ensures
        r is Ok <==> destiny_collectible_component_wf(jview(*j)),
        r matches Ok(w) ==> (jview(*j) matches Json::Obj(fields)
            && destiny_collectible_component_fields_match(fields, w)),
        r matches Err(e) ==> destiny_collectible_component_err_ok(jview(*j), e),
{
    let fields = match j {
        JsonValue::Obj(fields) => fields,
        _ => {
            return Err(root_error("an object"));
        },
    };
    let ghost gf = jview(*j)->Obj_0;
    let state = match j.get("state") {
        Some(v) => match v.to_i64() {
            Some(n) if 0 <= n && n <= u8::MAX as i64 => DestinyCollectibleState::from_bits_truncate(n as u8),
            _ => {
                return Err(field_error("state", "an 8-bit unsigned integer"));
            },
        },
        _ => {
            return Err(field_error("state", "an 8-bit unsigned integer"));
        },
    };
    Ok(DestinyCollectibleComponent { state })
}

/// The wire image of a record is well formed and matched by the
/// record itself: encoding loses nothing that decoding reads.
pub proof fn lemma_destiny_collectible_component_image(v: DestinyCollectibleComponent)
    requires
        v.state.bits & 127 == v.state.bits,
    ensures
        destiny_collectible_component_wf(destiny_collectible_component_json(v)),
        destiny_collectible_component_json(v) matches Json::Obj(fields) && destiny_collectible_component_fields_match(fields, v),
{
    reveal_strlit("state");
    let fields = destiny_collectible_component_json(v)->Obj_0;
    assert("state"@.len() == 5);
    lemma_lookup_at(fields, 0);
}

/// Decoding the encoded image of a record yields a record whose
/// every field carries the same content as the one encoded.
pub proof fn lemma_destiny_collectible_component_round_trip(v: DestinyCollectibleComponent, w: DestinyCollectibleComponent)
    requires
        v.state.bits & 127 == v.state.bits,
        destiny_collectible_component_json(v) matches Json::Obj(fields) && destiny_collectible_component_fields_match(fields, w),
    ensures
        destiny_collectible_component_wf(destiny_collectible_component_json(v)),
        w.state == v.state,
{
    lemma_destiny_collectible_component_image(v);
    let fields = destiny_collectible_component_json(v)->Obj_0;
    reveal_strlit("state");
    assert("state"@.len() == 5);
    lemma_lookup_at(fields, 0);
}

/// The wire image of this record.
pub open spec fn destiny_presentation_node_component_json(v: DestinyPresentationNodeComponent) -> Json {
    Json::Obj(
        seq![
            ("state"@, Json::Int(v.state.bits as int)),
            ("objective"@, destiny_objective_progress_json(v.objective)),
            ("progressValue"@, Json::Int(v.progress_value as int)),
            ("completionValue"@, Json::Int(v.completion_value as int)),
            ("recordCategoryScore"@, Json::Int(v.record_category_score as int)),
        ],
    )
}

/// Whether a document decodes as this record: an object with exactly these fields.
pub open spec fn destiny_presentation_node_component_wf(j: Json) -> bool {
    &&& j matches Json::Obj(fields)
    &&& spec_lookup(fields, "state"@) matches Some(Json::Int(n)) && 0 <= n <= u8::MAX as int
    &&& spec_lookup(fields, "objective"@) matches Some(inner) && destiny_objective_progress_wf(inner)
    &&& spec_lookup(fields, "progressValue"@) matches Some(Json::Int(n)) && i32::MIN as int <= n <= i32::MAX as int
    &&& spec_lookup(fields, "completionValue"@) matches Some(Json::Int(n)) && i32::MIN as int <= n <= i32::MAX as int
    &&& spec_lookup(fields, "recordCategoryScore"@) matches Some(Json::Int(n)) && i32::MIN as int <= n <= i32::MAX as int
    &&& forall|i: int| 0 <= i < fields.len()
        ==> ((#[trigger] fields[i]).0 == "state"@ || fields[i].0 == "objective"@ || fields[i].0 == "progressValue"@ || fields[i].0 == "completionValue"@ || fields[i].0 == "recordCategoryScore"@)
}

/// How a decoded record relates to the document it came from.
pub open spec fn destiny_presentation_node_component_fields_match(fields: Seq<(Seq<char>, Json)>, w: DestinyPresentationNodeComponent) -> bool {
    &&& spec_lookup(fields, "state"@) matches Some(Json::Int(n)) && w.state.bits == (n as u8) & 3
    &&& spec_lookup(fields, "objective"@) matches Some(Json::Obj(inner)) && destiny_objective_progress_fields_match(inner, w.objective)
    &&& spec_lookup(fields, "progressValue"@) == Some(Json::Int(w.progress_value as int))
    &&& spec_lookup(fields, "completionValue"@) == Some(Json::Int(w.completion_value as int))
    &&& spec_lookup(fields, "recordCategoryScore"@) == Some(Json::Int(w.record_category_score as int))
}

/// What a decode failure names: its path points at a field of the
/// document that is indeed not decodable, and an undeclared
/// enumeration code is reported with the enumeration's own message.
pub open spec fn destiny_presentation_node_component_err_ok(j: Json, e: DecodeError) -> bool {
    &&& !(j matches Json::Obj(_)) ==> e.path@.len() == 0
    &&& j matches Json::Obj(fields) ==> (
        (e.path@ == "state"@ && !(spec_lookup(fields, "state"@) matches Some(Json::Int(n)) && 0 <= n <= u8::MAX as int))
        || ((e.path@ == "objective"@ || spec_starts_with(e.path@, "objective"@)) && !(spec_lookup(fields, "objective"@) matches Some(inner) && destiny_objective_progress_wf(inner)))
        || (e.path@ == "progressValue"@ && !(spec_lookup(fields, "progressValue"@) matches Some(Json::Int(n)) && i32::MIN as int <= n <= i32::MAX as int))
        || (e.path@ == "completionValue"@ && !(spec_lookup(fields, "completionValue"@) matches Some(Json::Int(n)) && i32::MIN as int <= n <= i32::MAX as int))
        || (e.path@ == "recordCategoryScore"@ && !(spec_lookup(fields, "recordCategoryScore"@) matches Some(Json::Int(n)) && i32::MIN as int <= n <= i32::MAX as int))
        || (exists|i: int| 0 <= i < fields.len() && (#[trigger] fields[i]).0 == e.path@ && !((fields[i].0 == "state"@ || fields[i].0 == "objective"@ || fields[i].0 == "progressValue"@ || fields[i].0 == "completionValue"@ || fields[i].0 == "recordCategoryScore"@))))
}

pub fn encode_destiny_presentation_node_component(v: &DestinyPresentationNodeComponent) -> (r: JsonValue)
    ensures
        jview(r) == destiny_presentation_node_component_json(*v),
{
    let mut fields: Vec<(String, JsonValue)> = Vec::new();
    fields.push(("state".to_owned(), JsonValue::Int(v.state.bits as i64)));
    fields.push(("objective".to_owned(), encode_destiny_objective_progress(&v.objective)));
    fields.push(("progressValue".to_owned(), JsonValue::Int(v.progress_value as i64)));
    fields.push(("completionValue".to_owned(), JsonValue::Int(v.completion_value as i64)));
    fields.push(("recordCategoryScore".to_owned(), JsonValue::Int(v.record_category_score as i64)));
    let r = JsonValue::Obj(fields);
    proof {
        assert(jview(fields@[0].1) == destiny_presentation_node_component_json(*v)->Obj_0[0].1);
        assert(jview(fields@[1].1) == destiny_presentation_node_component_json(*v)->Obj_0[1].1);
        assert(jview(fields@[2].1) == destiny_presentation_node_component_json(*v)->Obj_0[2].1);
        assert(jview(fields@[3].1) == destiny_presentation_node_component_json(*v)->Obj_0[3].1);
        assert(jview(fields@[4].1) == destiny_presentation_node_component_json(*v)->Obj_0[4].1);
        assert(jview(r)->Obj_0 =~= destiny_presentation_node_component_json(*v)->Obj_0);
    }
    r
}

/// Decodes this record; a failure names the offending field in its
/// path and says what was expected of it.
#[verifier::loop_isolation(false)]
pub fn decode_destiny_presentation_node_component(j: &JsonValue) -> (r: Result<DestinyPresentationNodeComponent, DecodeError>)
    ensures
        r is Ok <==> destiny_presentation_node_component_wf(jview(*j)),
        r matches Ok(w) ==> (jview(*j) matches Json::Obj(fields)
            && destiny_presentation_node_component_fields_match(fields, w)),
        r matches Err(e) ==> destiny_presentation_node_component_err_ok(jview(*j), e),
{
    let fields = match j {
        JsonValue::Obj(fields) => fields,
        _ => {
            return Err(root_error("an object"));
        },
    };
    let ghost gf = jview(*j)->Obj_0;
    let state = match j.get("state") {
        Some(v) => match v.to_i64() {
            Some(n) if 0 <= n && n <= u8::MAX as i64 => DestinyPresentationNodeState::from_bits_truncate(n as u8),
            _ => {
                return Err(field_error("state", "an 8-bit unsigned integer"));
            },
        },
        _ => {
            return Err(field_error("state", "an 8-bit unsigned integer"));
        },
    };
    let objective = match j.get("objective") {
        Some(inner) => match decode_destiny_objective_progress(inner) {
            Ok(r) => r,
            Err(e) => {
                return Err(nested_error("objective", e));
            },
        },
        _ => {
            return Err(field_error("objective", "an object"));
        },
    };
    let progress_value = match j.get("progressValue") {
        Some(v) => match v.to_i64() {
            Some(n) if i32::MIN as i64 <= n && n <= i32::MAX as i64 => n as i32,
            _ => {
                return Err(field_error("progressValue", "a 32-bit integer"));
            },
        },
        _ => {
            return Err(field_error("progressValue", "a 32-bit integer"));
        },
    };
    let completion_value = match j.get("completionValue") {
        Some(v) => match v.to_i64() {
            Some(n) if i32::MIN as i64 <= n && n <= i32::MAX as i64 => n as i32,
            _ => {
                return Err(field_error("completionValue", "a 32-bit integer"));
            },
        },
        _ => {
            return Err(field_error("completionValue", "a 32-bit integer"));
        },
    };
    let record_category_score = match j.get("recordCategoryScore") {
        Some(v) => match v.to_i64() {
            Some(n) if i32::MIN as i64 <= n && n <= i32::MAX as i64 => n as i32,
            _ => {
                return Err(field_error("recordCategoryScore", "a 32-bit integer"));
            },
        },
        _ => {
            return Err(field_error("recordCategoryScore", "a 32-bit integer"));
        },
    };
    let mut i: usize = 0;
    while i < fields.len()
        invariant
            i <= fields.len(),
            gf.len() == fields@.len(),
            forall|k: int| 0 <= k < gf.len()
                ==> #[trigger] gf[k] == (fields@[k].0@, jview(fields@[k].1)),
            forall|k: int| 0 <= k < i
                ==> ((#[trigger] gf[k]).0 == "state"@ || gf[k].0 == "objective"@ || gf[k].0 == "progressValue"@ || gf[k].0 == "completionValue"@ || gf[k].0 == "recordCategoryScore"@),
        decreases fields.len() - i,
    {
        let name = fields[i].0.as_str();
        if !(str_eq(name, "state") || str_eq(name, "objective") || str_eq(name, "progressValue") || str_eq(name, "completionValue") || str_eq(name, "recordCategoryScore")) {
            proof {
                assert(gf[i as int].0 == fields@[i as int].0@);
                assert(!destiny_presentation_node_component_wf(jview(*j)));
            }
            return Err(field_error(fields[i].0.as_str(), "an unknown field"));
        }
        i = i + 1;
    }
    Ok(DestinyPresentationNodeComponent { state, objective, progress_value, completion_value, record_category_score })
}

/// The wire image of a record is well formed and matched by the
/// record itself: encoding loses nothing that decoding reads.
pub proof fn lemma_destiny_presentation_node_component_image(v: DestinyPresentationNodeComponent)
    requires
        v.state.bits & 3 == v.state.bits,
    ensures
        destiny_presentation_node_component_wf(destiny_presentation_node_component_json(v)),
        destiny_presentation_node_component_json(v) matches Json::Obj(fields) && destiny_presentation_node_component_fields_match(fields, v),
{
    reveal_strlit("state");
    reveal_strlit("objective");
    reveal_strlit("progressValue");
    reveal_strlit("completionValue");
    reveal_strlit("recordCategoryScore");
    let fields = destiny_presentation_node_component_json(v)->Obj_0;
    assert("state"@.len() == 5);
    assert("objective"@.len() == 9);
    assert("progressValue"@.len() == 13);
    assert("completionValue"@.len() == 15);
    assert("recordCategoryScore"@.len() == 19);
    assert("state"@ != "objective"@);
    assert("state"@ != "progressValue"@);
    assert("state"@ != "completionValue"@);
    assert("state"@ != "recordCategoryScore"@);
    assert("objective"@ != "progressValue"@);
    assert("objective"@ != "completionValue"@);
    assert("objective"@ != "recordCategoryScore"@);
    assert("progressValue"@ != "completionValue"@);
    assert("progressValue"@ != "recordCategoryScore"@);
    assert("completionValue"@ != "recordCategoryScore"@);
    lemma_lookup_at(fields, 0);
    lemma_lookup_at(fields, 1);
    lemma_lookup_at(fields, 2);
    lemma_lookup_at(fields, 3);
    lemma_lookup_at(fields, 4);
    lemma_destiny_objective_progress_image(v.objective);
}

/// Decoding the encoded image of a record yields a record whose
/// every field carries the same content as the one encoded.
pub proof fn lemma_destiny_presentation_node_component_round_trip(v: DestinyPresentationNodeComponent, w: DestinyPresentationNodeComponent)
    requires
        v.state.bits & 3 == v.state.bits,
        destiny_presentation_node_component_json(v) matches Json::Obj(fields) && destiny_presentation_node_component_fields_match(fields, w),
    ensures
        destiny_presentation_node_component_wf(destiny_presentation_node_component_json(v)),
        w.state == v.state,
        destiny_objective_progress_json(v.objective) matches Json::Obj(f2) && destiny_objective_progress_fields_match(f2, w.objective),
        w.progress_value == v.progress_value,
        w.completion_value == v.completion_value,
        w.record_category_score == v.record_category_score,
{
    lemma_destiny_presentation_node_component_image(v);
    let fields = destiny_presentation_node_component_json(v)->Obj_0;
    reveal_strlit("state");
    reveal_strlit("objective");
    reveal_strlit("progressValue");
    reveal_strlit("completionValue");
    reveal_strlit("recordCategoryScore");
    assert("state"@.len() == 5);
    assert("objective"@.len() == 9);
    assert("progressValue"@.len() == 13);
    assert("completionValue"@.len() == 15);
    assert("recordCategoryScore"@.len() == 19);
    assert("state"@ != "objective"@);
    assert("state"@ != "progressValue"@);
    assert("state"@ != "completionValue"@);
    assert("state"@ != "recordCategoryScore"@);
    assert("objective"@ != "progressValue"@);
    assert("objective"@ != "completionValue"@);
    assert("objective"@ != "recordCategoryScore"@);
    assert("progressValue"@ != "completionValue"@);
    assert("progressValue"@ != "recordCategoryScore"@);
    assert("completionValue"@ != "recordCategoryScore"@);
    lemma_lookup_at(fields, 0);
    lemma_lookup_at(fields, 1);
    lemma_lookup_at(fields, 2);
    lemma_lookup_at(fields, 3);
    lemma_lookup_at(fields, 4);
    lemma_destiny_objective_progress_image(v.objective);
}

/// The wire image of this record.
pub open spec fn destiny_metric_component_json(v: DestinyMetricComponent) -> Json {
    Json::Obj(
        seq![
            ("invisible"@, Json::Bool(v.invisible)),
            ("objectiveProgress"@, destiny_objective_progress_json(v.objective_progress)),
        ],
    )
}

/// Whether a document decodes as this record: an object with exactly these fields.
pub open spec fn destiny_metric_component_wf(j: Json) -> bool {
    &&& j matches Json::Obj(fields)
    &&& spec_lookup(fields, "invisible"@) matches Some(Json::Bool(_))
    &&& spec_lookup(fields, "objectiveProgress"@) matches Some(inner) && destiny_objective_progress_wf(inner)
    &&& forall|i: int| 0 <= i < fields.len()
        ==> ((#[trigger] fields[i]).0 == "invisible"@ || fields[i].0 == "objectiveProgress"@)
}

/// How a decoded record relates to the document it came from.
pub open spec fn destiny_metric_component_fields_match(fields: Seq<(Seq<char>, Json)>, w: DestinyMetricComponent) -> bool {
    &&& spec_lookup(fields, "invisible"@) == Some(Json::Bool(w.invisible))
    &&& spec_lookup(fields, "objectiveProgress"@) matches Some(Json::Obj(inner)) && destiny_objective_progress_fields_match(inner, w.objective_progress)
}

/// What a decode failure names: its path points at a field of the
/// document that is indeed not decodable, and an undeclared
/// enumeration code is reported with the enumeration's own message.
pub open spec fn destiny_metric_component_err_ok(j: Json, e: DecodeError) -> bool {
    &&& !(j matches Json::Obj(_)) ==> e.path@.len() == 0
    &&& j matches Json::Obj(fields) ==> (
        (e.path@ == "invisible"@ && !(spec_lookup(fields, "invisible"@) matches Some(Json::Bool(_))))
        || ((e.path@ == "objectiveProgress"@ || spec_starts_with(e.path@, "objectiveProgress"@)) && !(spec_lookup(fields, "objectiveProgress"@) matches Some(inner) && destiny_objective_progress_wf(inner)))
        || (exists|i: int| 0 <= i < fields.len() && (#[trigger] fields[i]).0 == e.path@ && !((fields[i].0 == "invisible"@ || fields[i].0 == "objectiveProgress"@))))
}

pub fn encode_destiny_metric_component(v: &DestinyMetricComponent) -> (r: JsonValue)
    ensures
        jview(r) == destiny_metric_component_json(*v),
{
    let mut fields: Vec<(String, JsonValue)> = Vec::new();
    fields.push(("invisible".to_owned(), JsonValue::Bool(v.invisible)));
    fields.push(("objectiveProgress".to_owned(), encode_destiny_objective_progress(&v.objective_progress)));
    let r = JsonValue::Obj(fields);
    proof {
        assert(jview(fields@[0].1) == destiny_metric_component_json(*v)->Obj_0[0].1);
        assert(jview(fields@[1].1) == destiny_metric_component_json(*v)->Obj_0[1].1);
        assert(jview(r)->Obj_0 =~= destiny_metric_component_json(*v)->Obj_0);
    }
    r
}

/// Decodes this record; a failure names the offending field in its
/// path and says what was expected of it.
#[verifier::loop_isolation(false)]
pub fn decode_destiny_metric_component(j: &JsonValue) -> (r: Result<DestinyMetricComponent, DecodeError>)
    ensures
        r is Ok <==> destiny_metric_component_wf(jview(*j)),
        r matches Ok(w) ==> (jview(*j) matches Json::Obj(fields)
            && destiny_metric_component_fields_match(fields, w)),
        r matches Err(e) ==> destiny_metric_component_err_ok(jview(*j), e),
{
    let fields = match j {
        JsonValue::Obj(fields) => fields,
        _ => {
            return Err(root_error("an object"));
        },
    };
    let ghost gf = jview(*j)->Obj_0;
    let invisible = match j.get("invisible") {
        Some(JsonValue::Bool(b)) => *b,
        _ => {
            return Err(field_error("invisible", "a boolean"));
        },
    };
    let objective_progress = match j.get("objectiveProgress") {
        Some(inner) => match decode_destiny_objective_progress(inner) {
            Ok(r) => r,
            Err(e) => {
                return Err(nested_error("objectiveProgress", e));
            },
        },
        _ => {
            return Err(field_error("objectiveProgress", "an object"));
        },
    };
    let mut i: usize = 0;
    while i < fields.len()
        invariant
            i <= fields.len(),
            gf.len() == fields@.len(),
            forall|k: int| 0 <= k < gf.len()
                ==> #[trigger] gf[k] == (fields@[k].0@, jview(fields@[k].1)),
            forall|k: int| 0 <= k < i
                ==> ((#[trigger] gf[k]).0 == "invisible"@ || gf[k].0 == "objectiveProgress"@),
        decreases fields.len() - i,
    {
        let name = fields[i].0.as_str();
        if !(str_eq(name, "invisible") || str_eq(name, "objectiveProgress")) {
            proof {
                assert(gf[i as int].0 == fields@[i as int].0@);
                assert(!destiny_metric_component_wf(jview(*j)));
            }
            return Err(field_error(fields[i].0.as_str(), "an unknown field"));
        }
        i = i + 1;
    }
    Ok(DestinyMetricComponent { invisible, objective_progress })
}

/// The wire image of a record is well formed and matched by the
/// record itself: encoding loses nothing that decoding reads.
pub proof fn lemma_destiny_metric_component_image(v: DestinyMetricComponent)
    ensures
        destiny_metric_component_wf(destiny_metric_component_json(v)),
        destiny_metric_component_json(v) matches Json::Obj(fields) && destiny_metric_component_fields_match(fields, v),
{
    reveal_strlit("invisible");
    reveal_strlit("objectiveProgress");
    let fields = destiny_metric_component_json(v)->Obj_0;
    assert("invisible"@.len() == 9);
    assert("objectiveProgress"@.len() == 17);
    assert("invisible"@ != "objectiveProgress"@);
    lemma_lookup_at(fields, 0);
    lemma_lookup_at(fields, 1);
    lemma_destiny_objective_progress_image(v.objective_progress);
}

/// Decoding the encoded image of a record yields a record whose
/// every field carries the same content as the one encoded.
pub proof fn lemma_destiny_metric_component_round_trip(v: DestinyMetricComponent, w: DestinyMetricComponent)
    requires
        destiny_metric_component_json(v) matches Json::Obj(fields) && destiny_metric_component_fields_match(fields, w),
    ensures
        destiny_metric_component_wf(destiny_metric_component_json(v)),
        w.invisible == v.invisible,
        destiny_objective_progress_json(v.objective_progress) matches Json::Obj(f2) && destiny_objective_progress_fields_match(f2, w.objective_progress),
{
    lemma_destiny_metric_component_image(v);
    let fields = destiny_metric_component_json(v)->Obj_0;
    reveal_strlit("invisible");
    reveal_strlit("objectiveProgress");
    assert("invisible"@.len() == 9);
    assert("objectiveProgress"@.len() == 17);
    assert("invisible"@ != "objectiveProgress"@);
    lemma_lookup_at(fields, 0);
    lemma_lookup_at(fields, 1);
    lemma_destiny_objective_progress_image(v.objective_progress);
}

/// The wire image of this record.
pub open spec fn destiny_profile_transitory_joinability_json(v: DestinyProfileTransitoryJoinability) -> Json {
    Json::Obj(
        seq![
            ("openSlots"@, Json::Int(v.open_slots as int)),
            ("privacySetting"@, Json::Int(v.privacy_setting.spec_code())),
            ("closedReasons"@, Json::Int(v.closed_reasons.bits as int)),
        ],
    )
}

/// Whether a document decodes as this record: an object with exactly these fields.
pub open spec fn destiny_profile_transitory_joinability_wf(j: Json) -> bool {
    &&& j matches Json::Obj(fields)
    &&& spec_lookup(fields, "openSlots"@) matches Some(Json::Int(n)) && i32::MIN as int <= n <= i32::MAX as int
    &&& spec_lookup(fields, "privacySetting"@) matches Some(Json::Int(n)) && DestinyGamePrivacySetting::spec_from_code(n) is Some
    &&& spec_lookup(fields, "closedReasons"@) matches Some(Json::Int(n)) && 0 <= n <= u16::MAX as int
    &&& forall|i: int| 0 <= i < fields.len()
        ==> ((#[trigger] fields[i]).0 == "openSlots"@ || fields[i].0 == "privacySetting"@ || fields[i].0 == "closedReasons"@)
}

/// How a decoded record relates to the document it came from.
pub open spec fn destiny_profile_transitory_joinability_fields_match(fields: Seq<(Seq<char>, Json)>, w: DestinyProfileTransitoryJoinability) -> bool {
    &&& spec_lookup(fields, "openSlots"@) == Some(Json::Int(w.open_slots as int))
    &&& spec_lookup(fields, "privacySetting"@) matches Some(Json::Int(n)) && Some(w.privacy_setting) == DestinyGamePrivacySetting::spec_from_code(n)
    &&& spec_lookup(fields, "closedReasons"@) matches Some(Json::Int(n)) && w.closed_reasons.bits == (n as u16) & 32799
}

/// What a decode failure names: its path points at a field of the
/// document that is indeed not decodable, and an undeclared
/// enumeration code is reported with the enumeration's own message.
pub open spec fn destiny_profile_transitory_joinability_err_ok(j: Json, e: DecodeError) -> bool {
    &&& !(j matches Json::Obj(_)) ==> e.path@.len() == 0
    &&& j matches Json::Obj(fields) ==> (
        (e.path@ == "openSlots"@ && !(spec_lookup(fields, "openSlots"@) matches Some(Json::Int(n)) && i32::MIN as int <= n <= i32::MAX as int))
        || (e.path@ == "privacySetting"@ && !(spec_lookup(fields, "privacySetting"@) matches Some(Json::Int(n)) && DestinyGamePrivacySetting::spec_from_code(n) is Some) && (match spec_lookup(fields, "privacySetting"@) { Some(Json::Int(n)) => (0 <= n <= u8::MAX as int && DestinyGamePrivacySetting::spec_from_code(n) is None) ==> e.message@ == DestinyGamePrivacySetting::spec_unknown_code_message(n), _ => true }))
        || (e.path@ == "closedReasons"@ && !(spec_lookup(fields, "closedReasons"@) matches Some(Json::Int(n)) && 0 <= n <= u16::MAX as int))
        || (exists|i: int| 0 <= i < fields.len() && (#[trigger] fields[i]).0 == e.path@ && !((fields[i].0 == "openSlots"@ || fields[i].0 == "privacySetting"@ || fields[i].0 == "closedReasons"@))))
}

pub fn encode_destiny_profile_transitory_joinability(v: &DestinyProfileTransitoryJoinability) -> (r: JsonValue)
    ensures
        jview(r) == destiny_profile_transitory_joinability_json(*v),
{
    let mut fields: Vec<(String, JsonValue)> = Vec::new();
    fields.push(("openSlots".to_owned(), JsonValue::Int(v.open_slots as i64)));
    fields.push(("privacySetting".to_owned(), JsonValue::Int(v.privacy_setting.code() as i64)));
    fields.push(("closedReasons".to_owned(), JsonValue::Int(v.closed_reasons.bits as i64)));
    let r = JsonValue::Obj(fields);
    proof {
        assert(jview(fields@[0].1) == destiny_profile_transitory_joinability_json(*v)->Obj_0[0].1);
        assert(jview(fields@[1].1) == destiny_profile_transitory_joinability_json(*v)->Obj_0[1].1);
        assert(jview(fields@[2].1) == destiny_profile_transitory_joinability_json(*v)->Obj_0[2].1);
        assert(jview(r)->Obj_0 =~= destiny_profile_transitory_joinability_json(*v)->Obj_0);
    }
    r
}

/// Decodes this record; a failure names the offending field in its
/// path and says what was expected of it.
#[verifier::loop_isolation(false)]
pub fn decode_destiny_profile_transitory_joinability(j: &JsonValue) -> (r: Result<DestinyProfileTransitoryJoinability, DecodeError>)
    ensures
        r is Ok <==> destiny_profile_transitory_joinability_wf(jview(*j)),
        r matches Ok(w) ==> (jview(*j) matches Json::Obj(fields)
            && destiny_profile_transitory_joinability_fields_match(fields, w)),
        r matches Err(e) ==> destiny_profile_transitory_joinability_err_ok(jview(*j), e),
{
    let fields = match j {
        JsonValue::Obj(fields) => fields,
        _ => {
            return Err(root_error("an object"));
        },
    };
    let ghost gf = jview(*j)->Obj_0;
    let open_slots = match j.get("openSlots") {
        Some(v) => match v.to_i64() {
            Some(n) if i32::MIN as i64 <= n && n <= i32::MAX as i64 => n as i32,
            _ => {
                return Err(field_error("openSlots", "a 32-bit integer"));
            },
        },
        _ => {
            return Err(field_error("openSlots", "a 32-bit integer"));
        },
    };
    let privacy_setting = match j.get("privacySetting") {
        Some(v) => match v.to_i64() {
            Some(n) if 0 <= n && n <= u8::MAX as i64 => match DestinyGamePrivacySetting::decode_code(n as u8) {
                Ok(t) => t,
                Err(e) => {
                    return Err(rekey_error("privacySetting", e));
                },
            },
            _ => {
                return Err(field_error("privacySetting", "a declared DestinyGamePrivacySetting code"));
            },
        },
        _ => {
            return Err(field_error("privacySetting", "a declared DestinyGamePrivacySetting code"));
        },
    };
    let closed_reasons = match j.get("closedReasons") {
        Some(v) => match v.to_i64() {
            Some(n) if 0 <= n && n <= u16::MAX as i64 => DestinyJoinClosedReasons::from_bits_truncate(n as u16),
            _ => {
                return Err(field_error("closedReasons", "a 16-bit unsigned integer"));
            },
        },
        _ => {
            return Err(field_error("closedReasons", "a 16-bit unsigned integer"));
        },
    };
    let mut i: usize = 0;
    while i < fields.len()
        invariant
            i <= fields.len(),
            gf.len() == fields@.len(),
            forall|k: int| 0 <= k < gf.len()
                ==> #[trigger] gf[k] == (fields@[k].0@, jview(fields@[k].1)),
            forall|k: int| 0 <= k < i
                ==> ((#[trigger] gf[k]).0 == "openSlots"@ || gf[k].0 == "privacySetting"@ || gf[k].0 == "closedReasons"@),
        decreases fields.len() - i,
    {
        let name = fields[i].0.as_str();
        if !(str_eq(name, "openSlots") || str_eq(name, "privacySetting") || str_eq(name, "closedReasons")) {
            proof {
                assert(gf[i as int].0 == fields@[i as int].0@);
                assert(!destiny_profile_transitory_joinability_wf(jview(*j)));
            }
            return Err(field_error(fields[i].0.as_str(), "an unknown field"));
        }
        i = i + 1;
    }
    Ok(DestinyProfileTransitoryJoinability { open_slots, privacy_setting, closed_reasons })
}

/// The wire image of a record is well formed and matched by the
/// record itself: encoding loses nothing that decoding reads.
pub proof fn lemma_destiny_profile_transitory_joinability_image(v: DestinyProfileTransitoryJoinability)
    requires
        v.closed_reasons.bits & 32799 == v.closed_reasons.bits,
    ensures
        destiny_profile_transitory_joinability_wf(destiny_profile_transitory_joinability_json(v)),
        destiny_profile_transitory_joinability_json(v) matches Json::Obj(fields) && destiny_profile_transitory_joinability_fields_match(fields, v),
{
    reveal_strlit("openSlots");
    reveal_strlit("privacySetting");
    reveal_strlit("closedReasons");
    let fields = destiny_profile_transitory_joinability_json(v)->Obj_0;
    assert("openSlots"@.len() == 9);
    assert("privacySetting"@.len() == 14);
    assert("closedReasons"@.len() == 13);
    assert("openSlots"@ != "privacySetting"@);
    assert("openSlots"@ != "closedReasons"@);
    assert("privacySetting"@ != "closedReasons"@);
    lemma_lookup_at(fields, 0);
    lemma_lookup_at(fields, 1);
    lemma_lookup_at(fields, 2);
    DestinyGamePrivacySetting::lemma_code_round_trip(v.privacy_setting, 0);
}

/// Decoding the encoded image of a record yields a record whose
/// every field carries the same content as the one encoded.
pub proof fn lemma_destiny_profile_transitory_joinability_round_trip(v: DestinyProfileTransitoryJoinability, w: DestinyProfileTransitoryJoinability)
    requires
        v.closed_reasons.bits & 32799 == v.closed_reasons.bits,
        destiny_profile_transitory_joinability_json(v) matches Json::Obj(fields) && destiny_profile_transitory_joinability_fields_match(fields, w),
    ensures
        destiny_profile_transitory_joinability_wf(destiny_profile_transitory_joinability_json(v)),
        w.open_slots == v.open_slots,
        w.privacy_setting == v.privacy_setting,
        w.closed_reasons == v.closed_reasons,
{
    lemma_destiny_profile_transitory_joinability_image(v);
    let fields = destiny_profile_transitory_joinability_json(v)->Obj_0;
    reveal_strlit("openSlots");
    reveal_strlit("privacySetting");
    reveal_strlit("closedReasons");
    assert("openSlots"@.len() == 9);
    assert("privacySetting"@.len() == 14);
    assert("closedReasons"@.len() == 13);
    assert("openSlots"@ != "privacySetting"@);
    assert("openSlots"@ != "closedReasons"@);
    assert("privacySetting"@ != "closedReasons"@);
    lemma_lookup_at(fields, 0);
    lemma_lookup_at(fields, 1);
    lemma_lookup_at(fields, 2);
    DestinyGamePrivacySetting::lemma_code_round_trip(v.privacy_setting, 0);
}

/// The wire image of this record.
pub open spec fn destiny_profile_transitory_party_member_json(v: DestinyProfileTransitoryPartyMember) -> Json {
    Json::Obj(
        seq![
            ("membershipId"@, Json::Int(v.membership_id as int)),
            ("emblemHash"@, Json::Int(v.emblem_hash as int)),
            ("displayName"@, Json::Str(v.display_name@)),
            ("status"@, Json::Int(v.status.bits as int)),
        ],
    )
}

/// Whether a document decodes as this record: an object with exactly these fields.
pub open spec fn destiny_profile_transitory_party_member_wf(j: Json) -> bool {
    &&& j matches Json::Obj(fields)
    &&& spec_lookup(fields, "membershipId"@) matches Some(Json::Int(n)) && i64::MIN <= n <= i64::MAX
    &&& spec_lookup(fields, "emblemHash"@) matches Some(Json::Int(n)) && 0 <= n <= u32::MAX as int
    &&& spec_lookup(fields, "displayName"@) matches Some(Json::Str(_))
    &&& spec_lookup(fields, "status"@) matches Some(Json::Int(n)) && 0 <= n <= u8::MAX as int
    &&& forall|i: int| 0 <= i < fields.len()
        ==> ((#[trigger] fields[i]).0 == "membershipId"@ || fields[i].0 == "emblemHash"@ || fields[i].0 == "displayName"@ || fields[i].0 == "status"@)
}

/// How a decoded record relates to the document it came from.
pub open spec fn destiny_profile_transitory_party_member_fields_match(fields: Seq<(Seq<char>, Json)>, w: DestinyProfileTransitoryPartyMember) -> bool {
    &&& spec_lookup(fields, "membershipId"@) == Some(Json::Int(w.membership_id as int))
    &&& spec_lookup(fields, "emblemHash"@) == Some(Json::Int(w.emblem_hash as int))
    &&& spec_lookup(fields, "displayName"@) == Some(Json::Str(w.display_name@))
    &&& spec_lookup(fields, "status"@) matches Some(Json::Int(n)) && w.status.bits == (n as u8) & 15
}

/// What a decode failure names: its path points at a field of the
/// document that is indeed not decodable, and an undeclared
/// enumeration code is reported with the enumeration's own message.
pub open spec fn destiny_profile_transitory_party_member_err_ok(j: Json, e: DecodeError) -> bool {
    &&& !(j matches Json::Obj(_)) ==> e.path@.len() == 0
    &&& j matches Json::Obj(fields) ==> (
        (e.path@ == "membershipId"@ && !(spec_lookup(fields, "membershipId"@) matches Some(Json::Int(n)) && i64::MIN <= n <= i64::MAX))
        || (e.path@ == "emblemHash"@ && !(spec_lookup(fields, "emblemHash"@) matches Some(Json::Int(n)) && 0 <= n <= u32::MAX as int))
        || (e.path@ == "displayName"@ && !(spec_lookup(fields, "displayName"@) matches Some(Json::Str(_))))
        || (e.path@ == "status"@ && !(spec_lookup(fields, "status"@) matches Some(Json::Int(n)) && 0 <= n <= u8::MAX as int))
        || (exists|i: int| 0 <= i < fields.len() && (#[trigger] fields[i]).0 == e.path@ && !((fields[i].0 == "membershipId"@ || fields[i].0 == "emblemHash"@ || fields[i].0 == "displayName"@ || fields[i].0 == "status"@))))
}

pub fn encode_destiny_profile_transitory_party_member(v: &DestinyProfileTransitoryPartyMember) -> (r: JsonValue)
    ensures
        jview(r) == destiny_profile_transitory_party_member_json(*v),
{
    let mut fields: Vec<(String, JsonValue)> = Vec::new();
    fields.push(("membershipId".to_owned(), JsonValue::Int(v.membership_id as i64)));
    fields.push(("emblemHash".to_owned(), JsonValue::Int(v.emblem_hash as i64)));
    fields.push(("displayName".to_owned(), JsonValue::Str(v.display_name.clone())));
    fields.push(("status".to_owned(), JsonValue::Int(v.status.bits as i64)));
    let r = JsonValue::Obj(fields);
    proof {
        assert(jview(fields@[0].1) == destiny_profile_transitory_party_member_json(*v)->Obj_0[0].1);
        assert(jview(fields@[1].1) == destiny_profile_transitory_party_member_json(*v)->Obj_0[1].1);
        assert(jview(fields@[2].1) == destiny_profile_transitory_party_member_json(*v)->Obj_0[2].1);
        assert(jview(fields@[3].1) == destiny_profile_transitory_party_member_json(*v)->Obj_0[3].1);
        assert(jview(r)->Obj_0 =~= destiny_profile_transitory_party_member_json(*v)->Obj_0);
    }
    r
}

/// Decodes this record; a failure names the offending field in its
/// path and says what was expected of it.
#[verifier::loop_isolation(false)]
pub fn decode_destiny_profile_transitory_party_member(j: &JsonValue) -> (r: Result<DestinyProfileTransitoryPartyMember, DecodeError>)
    ensures
        r is Ok <==> destiny_profile_transitory_party_member_wf(jview(*j)),
        r matches Ok(w) ==> (jview(*j) matches Json::Obj(fields)
            && destiny_profile_transitory_party_member_fields_match(fields, w)),
        r matches Err(e) ==> destiny_profile_transitory_party_member_err_ok(jview(*j), e),
{
    let fields = match j {
        JsonValue::Obj(fields) => fields,
        _ => {
            return Err(root_error("an object"));
        },
    };
    let ghost gf = jview(*j)->Obj_0;
    let membership_id = match j.get("membershipId") {
        Some(v) => match v.to_i64() {
            Some(n) => n,
            _ => {
                return Err(field_error("membershipId", "a 64-bit integer"));
            },
        },
        _ => {
            return Err(field_error("membershipId", "a 64-bit integer"));
        },
    };
    let emblem_hash = match j.get("emblemHash") {
        Some(v) => match v.to_i64() {
            Some(n) if 0 <= n && n <= u32::MAX as i64 => n as u32,
            _ => {
                return Err(field_error("emblemHash", "a 32-bit unsigned integer"));
            },
        },
        _ => {
            return Err(field_error("emblemHash", "a 32-bit unsigned integer"));
        },
    };
    let display_name = match j.get("displayName") {
        Some(JsonValue::Str(s)) => s.clone(),
        _ => {
            return Err(field_error("displayName", "a string"));
        },
    };
    let status = match j.get("status") {
        Some(v) => match v.to_i64() {
            Some(n) if 0 <= n && n <= u8::MAX as i64 => DestinyPartyMemberStates::from_bits_truncate(n as u8),
            _ => {
                return Err(field_error("status", "an 8-bit unsigned integer"));
            },
        },
        _ => {
            return Err(field_error("status", "an 8-bit unsigned integer"));
        },
    };
    let mut i: usize = 0;
    while i < fields.len()
        invariant
            i <= fields.len(),
            gf.len() == fields@.len(),
            forall|k: int| 0 <= k < gf.len()
                ==> #[trigger] gf[k] == (fields@[k].0@, jview(fields@[k].1)),
            forall|k: int| 0 <= k < i
                ==> ((#[trigger] gf[k]).0 == "membershipId"@ || gf[k].0 == "emblemHash"@ || gf[k].0 == "displayName"@ || gf[k].0 == "status"@),
        decreases fields.len() - i,
    {
        let name = fields[i].0.as_str();
        if !(str_eq(name, "membershipId") || str_eq(name, "emblemHash") || str_eq(name, "displayName") || str_eq(name, "status")) {
            proof {
                assert(gf[i as int].0 == fields@[i as int].0@);
                assert(!destiny_profile_transitory_party_member_wf(jview(*j)));
            }
            return Err(field_error(fields[i].0.as_str(), "an unknown field"));
        }
        i = i + 1;
    }
    Ok(DestinyProfileTransitoryPartyMember { membership_id, emblem_hash, display_name, status })
}

/// The wire image of a record is well formed and matched by the
/// record itself: encoding loses nothing that decoding reads.
pub proof fn lemma_destiny_profile_transitory_party_member_image(v: DestinyProfileTransitoryPartyMember)
    requires
        v.status.bits & 15 == v.status.bits,
    ensures
        destiny_profile_transitory_party_member_wf(destiny_profile_transitory_party_member_json(v)),
        destiny_profile_transitory_party_member_json(v) matches Json::Obj(fields) && destiny_profile_transitory_party_member_fields_match(fields, v),
{
    reveal_strlit("membershipId");
    reveal_strlit("emblemHash");
    reveal_strlit("displayName");
    reveal_strlit("status");
    let fields = destiny_profile_transitory_party_member_json(v)->Obj_0;
    assert("membershipId"@.len() == 12);
    assert("emblemHash"@.len() == 10);
    assert("displayName"@.len() == 11);
    assert("status"@.len() == 6);
    assert("membershipId"@ != "emblemHash"@);
    assert("membershipId"@ != "displayName"@);
    assert("membershipId"@ != "status"@);
    assert("emblemHash"@ != "displayName"@);
    assert("emblemHash"@ != "status"@);
    assert("displayName"@ != "status"@);
    lemma_lookup_at(fields, 0);
    lemma_lookup_at(fields, 1);
    lemma_lookup_at(fields, 2);
    lemma_lookup_at(fields, 3);
}

/// Decoding the encoded image of a record yields a record whose
/// every field carries the same content as the one encoded.
pub proof fn lemma_destiny_profile_transitory_party_member_round_trip(v: DestinyProfileTransitoryPartyMember, w: DestinyProfileTransitoryPartyMember)
    requires
        v.status.bits & 15 == v.status.bits,
        destiny_profile_transitory_party_member_json(v) matches Json::Obj(fields) && destiny_profile_transitory_party_member_fields_match(fields, w),
    ensures
        destiny_profile_transitory_party_member_wf(destiny_profile_transitory_party_member_json(v)),
        w.membership_id == v.membership_id,
        w.emblem_hash == v.emblem_hash,
        w.display_name@ == v.display_name@,
        w.status == v.status,
{
    lemma_destiny_profile_transitory_party_member_image(v);
    let fields = destiny_profile_transitory_party_member_json(v)->Obj_0;
    reveal_strlit("membershipId");
    reveal_strlit("emblemHash");
    reveal_strlit("displayName");
    reveal_strlit("status");
    assert("membershipId"@.len() == 12);
    assert("emblemHash"@.len() == 10);
    assert("displayName"@.len() == 11);
    assert("status"@.len() == 6);
    assert("membershipId"@ != "emblemHash"@);
    assert("membershipId"@ != "displayName"@);
    assert("membershipId"@ != "status"@);
    assert("emblemHash"@ != "displayName"@);
    assert("emblemHash"@ != "status"@);
    assert("displayName"@ != "status"@);
    lemma_lookup_at(fields, 0);
    lemma_lookup_at(fields, 1);
    lemma_lookup_at(fields, 2);
    lemma_lookup_at(fields, 3);
}

/// The wire image of this record.
pub open spec fn destiny_item_socket_state_json(v: DestinyItemSocketState) -> Json {
    Json::Obj(
        seq![
            ("plugHash"@, Json::Int(v.plug_hash as int)),
            ("isEnabled"@, Json::Bool(v.is_enabled)),
            ("isVisible"@, Json::Bool(v.is_visible)),
            ("enableFailIndexes"@, Json::Arr(Seq::new(v.enable_fail_indexes@.len(), |i: int| if 0 <= i < v.enable_fail_indexes@.len() { Json::Int(v.enable_fail_indexes@[i] as int) } else { Json::Null }))),
        ],
    )
}

/// Whether a document decodes as this record: an object with exactly these fields.
pub open spec fn destiny_item_socket_state_wf(j: Json) -> bool {
    &&& j matches Json::Obj(fields)
    &&& spec_lookup(fields, "plugHash"@) matches Some(Json::Int(n)) && 0 <= n <= u32::MAX as int
    &&& spec_lookup(fields, "isEnabled"@) matches Some(Json::Bool(_))
    &&& spec_lookup(fields, "isVisible"@) matches Some(Json::Bool(_))
    &&& match spec_lookup(fields, "enableFailIndexes"@) { Option::None => false, Some(Json::Arr(items)) => forall|i: int| 0 <= i < items.len() ==> ((#[trigger] items[i]) matches Json::Int(n) && i32::MIN as int <= n <= i32::MAX as int), _ => false }
    &&& forall|i: int| 0 <= i < fields.len()
        ==> ((#[trigger] fields[i]).0 == "plugHash"@ || fields[i].0 == "isEnabled"@ || fields[i].0 == "isVisible"@ || fields[i].0 == "enableFailIndexes"@)
}

/// How a decoded record relates to the document it came from.
pub open spec fn destiny_item_socket_state_fields_match(fields: Seq<(Seq<char>, Json)>, w: DestinyItemSocketState) -> bool {
    &&& spec_lookup(fields, "plugHash"@) == Some(Json::Int(w.plug_hash as int))
    &&& spec_lookup(fields, "isEnabled"@) == Some(Json::Bool(w.is_enabled))
    &&& spec_lookup(fields, "isVisible"@) == Some(Json::Bool(w.is_visible))
    &&& match spec_lookup(fields, "enableFailIndexes"@) { Option::None => false, Some(Json::Arr(items)) => w.enable_fail_indexes@.len() == items.len() && (forall|i: int| 0 <= i < items.len() ==> (#[trigger] items[i]) == Json::Int(w.enable_fail_indexes@[i] as int)), _ => false }
}

/// What a decode failure names: its path points at a field of the
/// document that is indeed not decodable, and an undeclared
/// enumeration code is reported with the enumeration's own message.
pub open spec fn destiny_item_socket_state_err_ok(j: Json, e: DecodeError) -> bool {
    &&& !(j matches Json::Obj(_)) ==> e.path@.len() == 0
    &&& j matches Json::Obj(fields) ==> (
        (e.path@ == "plugHash"@ && !(spec_lookup(fields, "plugHash"@) matches Some(Json::Int(n)) && 0 <= n <= u32::MAX as int))
        || (e.path@ == "isEnabled"@ && !(spec_lookup(fields, "isEnabled"@) matches Some(Json::Bool(_))))
        || (e.path@ == "isVisible"@ && !(spec_lookup(fields, "isVisible"@) matches Some(Json::Bool(_))))
        || ((e.path@ == "enableFailIndexes"@ || spec_starts_with(e.path@, "enableFailIndexes"@)) && !(match spec_lookup(fields, "enableFailIndexes"@) { Option::None => false, Some(Json::Arr(items)) => forall|i: int| 0 <= i < items.len() ==> ((#[trigger] items[i]) matches Json::Int(n) && i32::MIN as int <= n <= i32::MAX as int), _ => false }))
        || (exists|i: int| 0 <= i < fields.len() && (#[trigger] fields[i]).0 == e.path@ && !((fields[i].0 == "plugHash"@ || fields[i].0 == "isEnabled"@ || fields[i].0 == "isVisible"@ || fields[i].0 == "enableFailIndexes"@))))
}

pub fn encode_destiny_item_socket_state(v: &DestinyItemSocketState) -> (r: JsonValue)
    ensures
        jview(r) == destiny_item_socket_state_json(*v),
{
    let mut fields: Vec<(String, JsonValue)> = Vec::new();
    fields.push(("plugHash".to_owned(), JsonValue::Int(v.plug_hash as i64)));
    fields.push(("isEnabled".to_owned(), JsonValue::Bool(v.is_enabled)));
    fields.push(("isVisible".to_owned(), JsonValue::Bool(v.is_visible)));
    let arr_enable_fail_indexes = {
        let mut items: Vec<JsonValue> = Vec::new();
        let mut i: usize = 0;
        while i < v.enable_fail_indexes.len()
            invariant
                i <= v.enable_fail_indexes.len(),
                items@.len() == i,
                forall|k: int| 0 <= k < i ==> jview(#[trigger] items@[k]) == Json::Int(v.enable_fail_indexes@[k] as int),
            decreases v.enable_fail_indexes.len() - i,
        {
            items.push(JsonValue::Int(v.enable_fail_indexes[i] as i64));
            i = i + 1;
        }
        JsonValue::Arr(items)
    };
    proof {
        assert(jview(arr_enable_fail_indexes)->Arr_0 =~= destiny_item_socket_state_json(*v)->Obj_0[3].1->Arr_0);
    }
    fields.push(("enableFailIndexes".to_owned(), arr_enable_fail_indexes));
    let r = JsonValue::Obj(fields);
    proof {
        assert(jview(fields@[0].1) == destiny_item_socket_state_json(*v)->Obj_0[0].1);
        assert(jview(fields@[1].1) == destiny_item_socket_state_json(*v)->Obj_0[1].1);
        assert(jview(fields@[2].1) == destiny_item_socket_state_json(*v)->Obj_0[2].1);
        assert(jview(fields@[3].1) == destiny_item_socket_state_json(*v)->Obj_0[3].1);
        assert(jview(r)->Obj_0 =~= destiny_item_socket_state_json(*v)->Obj_0);
    }
    r
}

/// Decodes this record; a failure names the offending field in its
/// path and says what was expected of it.
#[verifier::loop_isolation(false)]
pub fn decode_destiny_item_socket_state(j: &JsonValue) -> (r: Result<DestinyItemSocketState, DecodeError>)
    ensures
        r is Ok <==> destiny_item_socket_state_wf(jview(*j)),
        r matches Ok(w) ==> (jview(*j) matches Json::Obj(fields)
            && destiny_item_socket_state_fields_match(fields, w)),
        r matches Err(e) ==> destiny_item_socket_state_err_ok(jview(*j), e),
{
    let fields = match j {
        JsonValue::Obj(fields) => fields,
        _ => {
            return Err(root_error("an object"));
        },
    };
    let ghost gf = jview(*j)->Obj_0;
    let plug_hash = match j.get("plugHash") {
        Some(v) => match v.to_i64() {
            Some(n) if 0 <= n && n <= u32::MAX as i64 => n as u32,
            _ => {
                return Err(field_error("plugHash", "a 32-bit unsigned integer"));
            },
        },
        _ => {
            return Err(field_error("plugHash", "a 32-bit unsigned integer"));
        },
    };
    let is_enabled = match j.get("isEnabled") {
        Some(JsonValue::Bool(b)) => *b,
        _ => {
            return Err(field_error("isEnabled", "a boolean"));
        },
    };
    let is_visible = match j.get("isVisible") {
        Some(JsonValue::Bool(b)) => *b,
        _ => {
            return Err(field_error("isVisible", "a boolean"));
        },
    };
    let enable_fail_indexes = match j.get("enableFailIndexes") {
        Option::None => {
            return Err(field_error("enableFailIndexes", "an array"));
        },
        Some(arr) => match arr {
            JsonValue::Arr(items) => {
                let ghost gitems = jview(*arr)->Arr_0;
                let mut out: Vec<i32> = Vec::new();
                let mut i: usize = 0;
                while i < items.len()
                    invariant
                        i <= items.len(),
                        out@.len() == i,
                        forall|k: int| 0 <= k < i ==> (#[trigger] gitems[k]) == Json::Int(out@[k] as int),
                    decreases items.len() - i,
                {
                    proof {
                        assert(gitems[i as int] == jview(items@[i as int]));
                    }
                    let n = match items[i].to_i64() {
                        Some(n) if i32::MIN as i64 <= n && n <= i32::MAX as i64 => n,
                        _ => {
                            return Err(indexed_error("enableFailIndexes", i, field_error("", "a 32-bit integer")));
                        },
                    };
                    out.push(n as i32);
                    i = i + 1;
                }
                out
            },
            _ => {
                return Err(field_error("enableFailIndexes", "an array"));
            },
        },
    };
    let mut i: usize = 0;
    while i < fields.len()
        invariant
            i <= fields.len(),
            gf.len() == fields@.len(),
            forall|k: int| 0 <= k < gf.len()
                ==> #[trigger] gf[k] == (fields@[k].0@, jview(fields@[k].1)),
            forall|k: int| 0 <= k < i
                ==> ((#[trigger] gf[k]).0 == "plugHash"@ || gf[k].0 == "isEnabled"@ || gf[k].0 == "isVisible"@ || gf[k].0 == "enableFailIndexes"@),
        decreases fields.len() - i,
    {
        let name = fields[i].0.as_str();
        if !(str_eq(name, "plugHash") || str_eq(name, "isEnabled") || str_eq(name, "isVisible") || str_eq(name, "enableFailIndexes")) {
            proof {
                assert(gf[i as int].0 == fields@[i as int].0@);
                assert(!destiny_item_socket_state_wf(jview(*j)));
            }
            return Err(field_error(fields[i].0.as_str(), "an unknown field"));
        }
        i = i + 1;
    }
    Ok(DestinyItemSocketState { plug_hash, is_enabled, is_visible, enable_fail_indexes })
}

/// The wire image of a record is well formed and matched by the
/// record itself: encoding loses nothing that decoding reads.
pub proof fn lemma_destiny_item_socket_state_image(v: DestinyItemSocketState)
    ensures
        destiny_item_socket_state_wf(destiny_item_socket_state_json(v)),
        destiny_item_socket_state_json(v) matches Json::Obj(fields) && destiny_item_socket_state_fields_match(fields, v),
{
    reveal_strlit("plugHash");
    reveal_strlit("isEnabled");
    reveal_strlit("isVisible");
    reveal_strlit("enableFailIndexes");
    let fields = destiny_item_socket_state_json(v)->Obj_0;
    assert("plugHash"@.len() == 8);
    assert("isEnabled"@.len() == 9);
    assert("isVisible"@.len() == 9);
    assert("enableFailIndexes"@.len() == 17);
    assert("plugHash"@ != "isEnabled"@);
    assert("plugHash"@ != "isVisible"@);
    assert("plugHash"@ != "enableFailIndexes"@);
    assert(("isEnabled"@)[2] != ("isVisible"@)[2]);
    assert("isEnabled"@ != "isVisible"@);
    assert("isEnabled"@ != "enableFailIndexes"@);
    assert("isVisible"@ != "enableFailIndexes"@);
    lemma_lookup_at(fields, 0);
    lemma_lookup_at(fields, 1);
    lemma_lookup_at(fields, 2);
    lemma_lookup_at(fields, 3);
}

/// Decoding the encoded image of a record yields a record whose
/// every field carries the same content as the one encoded.
pub proof fn lemma_destiny_item_socket_state_round_trip(v: DestinyItemSocketState, w: DestinyItemSocketState)
    requires
        destiny_item_socket_state_json(v) matches Json::Obj(fields) && destiny_item_socket_state_fields_match(fields, w),
    ensures
        destiny_item_socket_state_wf(destiny_item_socket_state_json(v)),
        w.plug_hash == v.plug_hash,
        w.is_enabled == v.is_enabled,
        w.is_visible == v.is_visible,
        w.enable_fail_indexes@ == v.enable_fail_indexes@,
{
    lemma_destiny_item_socket_state_image(v);
    let fields = destiny_item_socket_state_json(v)->Obj_0;
    reveal_strlit("plugHash");
    reveal_strlit("isEnabled");
    reveal_strlit("isVisible");
    reveal_strlit("enableFailIndexes");
    assert("plugHash"@.len() == 8);
    assert("isEnabled"@.len() == 9);
    assert("isVisible"@.len() == 9);
    assert("enableFailIndexes"@.len() == 17);
    assert("plugHash"@ != "isEnabled"@);
    assert("plugHash"@ != "isVisible"@);
    assert("plugHash"@ != "enableFailIndexes"@);
    assert(("isEnabled"@)[2] != ("isVisible"@)[2]);
    assert("isEnabled"@ != "isVisible"@);
    assert("isEnabled"@ != "enableFailIndexes"@);
    assert("isVisible"@ != "enableFailIndexes"@);
    lemma_lookup_at(fields, 0);
    lemma_lookup_at(fields, 1);
    lemma_lookup_at(fields, 2);
    lemma_lookup_at(fields, 3);
    assert(w.enable_fail_indexes@ =~= v.enable_fail_indexes@) by {
        assert forall|i: int| 0 <= i < v.enable_fail_indexes@.len()
            implies #[trigger] w.enable_fail_indexes@[i] == v.enable_fail_indexes@[i] by {
            assert(spec_lookup(fields, "enableFailIndexes"@) matches Some(Json::Arr(items))
                && (items[i] == Json::Int(v.enable_fail_indexes@[i] as int)
                && items[i] == Json::Int(w.enable_fail_indexes@[i] as int)));
        }
    }
}

/// The wire image of this record.
pub open spec fn destiny_craftable_socket_plug_component_json(v: DestinyCraftableSocketPlugComponent) -> Json {
    Json::Obj(
        seq![
            ("plugItemHash"@, Json::Int(v.plug_item_hash as int)),
            ("failedRequirementIndexes"@, Json::Arr(Seq::new(v.failed_requirement_indexes@.len(), |i: int| if 0 <= i < v.failed_requirement_indexes@.len() { Json::Int(v.failed_requirement_indexes@[i] as int) } else { Json::Null }))),
        ],
    )
}

/// Whether a document decodes as this record: an object with exactly these fields.
pub open spec fn destiny_craftable_socket_plug_component_wf(j: Json) -> bool {
    &&& j matches Json::Obj(fields)
    &&& spec_lookup(fields, "plugItemHash"@) matches Some(Json::Int(n)) && 0 <= n <= u32::MAX as int
    &&& match spec_lookup(fields, "failedRequirementIndexes"@) { Option::None => false, Some(Json::Arr(items)) => forall|i: int| 0 <= i < items.len() ==> ((#[trigger] items[i]) matches Json::Int(n) && i32::MIN as int <= n <= i32::MAX as int), _ => false }
    &&& forall|i: int| 0 <= i < fields.len()
        ==> ((#[trigger] fields[i]).0 == "plugItemHash"@ || fields[i].0 == "failedRequirementIndexes"@)
}

/// How a decoded record relates to the document it came from.
pub open spec fn destiny_craftable_socket_plug_component_fields_match(fields: Seq<(Seq<char>, Json)>, w: DestinyCraftableSocketPlugComponent) -> bool {
    &&& spec_lookup(fields, "plugItemHash"@) == Some(Json::Int(w.plug_item_hash as int))
    &&& match spec_lookup(fields, "failedRequirementIndexes"@) { Option::None => false, Some(Json::Arr(items)) => w.failed_requirement_indexes@.len() == items.len() && (forall|i: int| 0 <= i < items.len() ==> (#[trigger] items[i]) == Json::Int(w.failed_requirement_indexes@[i] as int)), _ => false }
}

/// What a decode failure names: its path points at a field of the
/// document that is indeed not decodable, and an undeclared
/// enumeration code is reported with the enumeration's own message.
pub open spec fn destiny_craftable_socket_plug_component_err_ok(j: Json, e: DecodeError) -> bool {
    &&& !(j matches Json::Obj(_)) ==> e.path@.len() == 0
    &&& j matches Json::Obj(fields) ==> (
        (e.path@ == "plugItemHash"@ && !(spec_lookup(fields, "plugItemHash"@) matches Some(Json::Int(n)) && 0 <= n <= u32::MAX as int))
        || ((e.path@ == "failedRequirementIndexes"@ || spec_starts_with(e.path@, "failedRequirementIndexes"@)) && !(match spec_lookup(fields, "failedRequirementIndexes"@) { Option::None => false, Some(Json::Arr(items)) => forall|i: int| 0 <= i < items.len() ==> ((#[trigger] items[i]) matches Json::Int(n) && i32::MIN as int <= n <= i32::MAX as int), _ => false }))
        || (exists|i: int| 0 <= i < fields.len() && (#[trigger] fields[i]).0 == e.path@ && !((fields[i].0 == "plugItemHash"@ || fields[i].0 == "failedRequirementIndexes"@))))
}

pub fn encode_destiny_craftable_socket_plug_component(v: &DestinyCraftableSocketPlugComponent) -> (r: JsonValue)
    ensures
        jview(r) == destiny_craftable_socket_plug_component_json(*v),
{
    let mut fields: Vec<(String, JsonValue)> = Vec::new();
    fields.push(("plugItemHash".to_owned(), JsonValue::Int(v.plug_item_hash as i64)));
    let arr_failed_requirement_indexes = {
        let mut items: Vec<JsonValue> = Vec::new();
        let mut i: usize = 0;
        while i < v.failed_requirement_indexes.len()
            invariant
                i <= v.failed_requirement_indexes.len(),
                items@.len() == i,
                forall|k: int| 0 <= k < i ==> jview(#[trigger] items@[k]) == Json::Int(v.failed_requirement_indexes@[k] as int),
            decreases v.failed_requirement_indexes.len() - i,
        {
            items.push(JsonValue::Int(v.failed_requirement_indexes[i] as i64));
            i = i + 1;
        }
        JsonValue::Arr(items)
    };
    proof {
        assert(jview(arr_failed_requirement_indexes)->Arr_0 =~= destiny_craftable_socket_plug_component_json(*v)->Obj_0[1].1->Arr_0);
    }
    fields.push(("failedRequirementIndexes".to_owned(), arr_failed_requirement_indexes));
    let r = JsonValue::Obj(fields);
    proof {
        assert(jview(fields@[0].1) == destiny_craftable_socket_plug_component_json(*v)->Obj_0[0].1);
        assert(jview(fields@[1].1) == destiny_craftable_socket_plug_component_json(*v)->Obj_0[1].1);
        assert(jview(r)->Obj_0 =~= destiny_craftable_socket_plug_component_json(*v)->Obj_0);
    }
    r
}

/// Decodes this record; a failure names the offending field in its
/// path and says what was expected of it.
#[verifier::loop_isolation(false)]
pub fn decode_destiny_craftable_socket_plug_component(j: &JsonValue) -> (r: Result<DestinyCraftableSocketPlugComponent, DecodeError>)
    ensures
        r is Ok <==> destiny_craftable_socket_plug_component_wf(jview(*j)),
        r matches Ok(w) ==> (jview(*j) matches Json::Obj(fields)
            && destiny_craftable_socket_plug_component_fields_match(fields, w)),
        r matches Err(e) ==> destiny_craftable_socket_plug_component_err_ok(jview(*j), e),
{
    let fields = match j {
        JsonValue::Obj(fields) => fields,
        _ => {
            return Err(root_error("an object"));
        },
    };
    let ghost gf = jview(*j)->Obj_0;
    let plug_item_hash = match j.get("plugItemHash") {
        Some(v) => match v.to_i64() {
            Some(n) if 0 <= n && n <= u32::MAX as i64 => n as u32,
            _ => {
                return Err(field_error("plugItemHash", "a 32-bit unsigned integer"));
            },
        },
        _ => {
            return Err(field_error("plugItemHash", "a 32-bit unsigned integer"));
        },
    };
    let failed_requirement_indexes = match j.get("failedRequirementIndexes") {
        Option::None => {
            return Err(field_error("failedRequirementIndexes", "an array"));
        },
        Some(arr) => match arr {
            JsonValue::Arr(items) => {
                let ghost gitems = jview(*arr)->Arr_0;
                let mut out: Vec<i32> = Vec::new();
                let mut i: usize = 0;
                while i < items.len()
                    invariant
                        i <= items.len(),
                        out@.len() == i,
                        forall|k: int| 0 <= k < i ==> (#[trigger] gitems[k]) == Json::Int(out@[k] as int),
                    decreases items.len() - i,
                {
                    proof {
                        assert(gitems[i as int] == jview(items@[i as int]));
                    }
                    let n = match items[i].to_i64() {
                        Some(n) if i32::MIN as i64 <= n && n <= i32::MAX as i64 => n,
                        _ => {
                            return Err(indexed_error("failedRequirementIndexes", i, field_error("", "a 32-bit integer")));
                        },
                    };
                    out.push(n as i32);
                    i = i + 1;
                }
                out
            },
            _ => {
                return Err(field_error("failedRequirementIndexes", "an array"));
            },
        },
    };
    let mut i: usize = 0;
    while i < fields.len()
        invariant
            i <= fields.len(),
            gf.len() == fields@.len(),
            forall|k: int| 0 <= k < gf.len()
                ==> #[trigger] gf[k] == (fields@[k].0@, jview(fields@[k].1)),
            forall|k: int| 0 <= k < i
                ==> ((#[trigger] gf[k]).0 == "plugItemHash"@ || gf[k].0 == "failedRequirementIndexes"@),
        decreases fields.len() - i,
    {
        let name = fields[i].0.as_str();
        if !(str_eq(name, "plugItemHash") || str_eq(name, "failedRequirementIndexes")) {
            proof {
                assert(gf[i as int].0 == fields@[i as int].0@);
                assert(!destiny_craftable_socket_plug_component_wf(jview(*j)));
            }
            return Err(field_error(fields[i].0.as_str(), "an unknown field"));
        }
        i = i + 1;
    }
    Ok(DestinyCraftableSocketPlugComponent { plug_item_hash, failed_requirement_indexes })
}

/// The wire image of a record is well formed and matched by the
/// record itself: encoding loses nothing that decoding reads.
pub proof fn lemma_destiny_craftable_socket_plug_component_image(v: DestinyCraftableSocketPlugComponent)
    ensures
        destiny_craftable_socket_plug_component_wf(destiny_craftable_socket_plug_component_json(v)),
        destiny_craftable_socket_plug_component_json(v) matches Json::Obj(fields) && destiny_craftable_socket_plug_component_fields_match(fields, v),
{
    reveal_strlit("plugItemHash");
    reveal_strlit("failedRequirementIndexes");
    let fields = destiny_craftable_socket_plug_component_json(v)->Obj_0;
    assert("plugItemHash"@.len() == 12);
    assert("failedRequirementIndexes"@.len() == 24);
    assert("plugItemHash"@ != "failedRequirementIndexes"@);
    lemma_lookup_at(fields, 0);
    lemma_lookup_at(fields, 1);
}

/// Decoding the encoded image of a record yields a record whose
/// every field carries the same content as the one encoded.
pub proof fn lemma_destiny_craftable_socket_plug_component_round_trip(v: DestinyCraftableSocketPlugComponent, w: DestinyCraftableSocketPlugComponent)
    requires
        destiny_craftable_socket_plug_component_json(v) matches Json::Obj(fields) && destiny_craftable_socket_plug_component_fields_match(fields, w),
    ensures
        destiny_craftable_socket_plug_component_wf(destiny_craftable_socket_plug_component_json(v)),
        w.plug_item_hash == v.plug_item_hash,
        w.failed_requirement_indexes@ == v.failed_requirement_indexes@,
{
    lemma_destiny_craftable_socket_plug_component_image(v);
    let fields = destiny_craftable_socket_plug_component_json(v)->Obj_0;
    reveal_strlit("plugItemHash");
    reveal_strlit("failedRequirementIndexes");
    assert("plugItemHash"@.len() == 12);
    assert("failedRequirementIndexes"@.len() == 24);
    assert("plugItemHash"@ != "failedRequirementIndexes"@);
    lemma_lookup_at(fields, 0);
    lemma_lookup_at(fields, 1);
    assert(w.failed_requirement_indexes@ =~= v.failed_requirement_indexes@) by {
        assert forall|i: int| 0 <= i < v.failed_requirement_indexes@.len()
            implies #[trigger] w.failed_requirement_indexes@[i] == v.failed_requirement_indexes@[i] by {
            assert(spec_lookup(fields, "failedRequirementIndexes"@) matches Some(Json::Arr(items))
                && (items[i] == Json::Int(v.failed_requirement_indexes@[i] as int)
                && items[i] == Json::Int(w.failed_requirement_indexes@[i] as int)));
        }
    }
}

/// The wire image of this record.
pub open spec fn destiny_craftable_socket_component_json(v: DestinyCraftableSocketComponent) -> Json {
    Json::Obj(
        seq![
            ("plugSetHash"@, Json::Int(v.plug_set_hash as int)),
            ("plugs"@, Json::Arr(Seq::new(v.plugs@.len(), |i: int| if 0 <= i < v.plugs@.len() { destiny_craftable_socket_plug_component_json(v.plugs@[i]) } else { Json::Null }))),
        ],
    )
}

/// Whether a document decodes as this record: an object with exactly these fields.
pub open spec fn destiny_craftable_socket_component_wf(j: Json) -> bool {
    &&& j matches Json::Obj(fields)
    &&& spec_lookup(fields, "plugSetHash"@) matches Some(Json::Int(n)) && 0 <= n <= u32::MAX as int
    &&& match spec_lookup(fields, "plugs"@) { Option::None => false, Some(Json::Arr(items)) => forall|i: int| 0 <= i < items.len() ==> destiny_craftable_socket_plug_component_wf(#[trigger] items[i]), _ => false }
    &&& forall|i: int| 0 <= i < fields.len()
        ==> ((#[trigger] fields[i]).0 == "plugSetHash"@ || fields[i].0 == "plugs"@)
}

/// How a decoded record relates to the document it came from.
pub open spec fn destiny_craftable_socket_component_fields_match(fields: Seq<(Seq<char>, Json)>, w: DestinyCraftableSocketComponent) -> bool {
    &&& spec_lookup(fields, "plugSetHash"@) == Some(Json::Int(w.plug_set_hash as int))
    &&& match spec_lookup(fields, "plugs"@) { Option::None => false, Some(Json::Arr(items)) => w.plugs@.len() == items.len() && (forall|i: int| 0 <= i < items.len() ==> ((#[trigger] items[i]) matches Json::Obj(f2) && destiny_craftable_socket_plug_component_fields_match(f2, w.plugs@[i]))), _ => false }
}

/// What a decode failure names: its path points at a field of the
/// document that is indeed not decodable, and an undeclared
/// enumeration code is reported with the enumeration's own message.
pub open spec fn destiny_craftable_socket_component_err_ok(j: Json, e: DecodeError) -> bool {
    &&& !(j matches Json::Obj(_)) ==> e.path@.len() == 0
    &&& j matches Json::Obj(fields) ==> (
        (e.path@ == "plugSetHash"@ && !(spec_lookup(fields, "plugSetHash"@) matches Some(Json::Int(n)) && 0 <= n <= u32::MAX as int))
        || ((e.path@ == "plugs"@ || spec_starts_with(e.path@, "plugs"@)) && !(match spec_lookup(fields, "plugs"@) { Option::None => false, Some(Json::Arr(items)) => forall|i: int| 0 <= i < items.len() ==> destiny_craftable_socket_plug_component_wf(#[trigger] items[i]), _ => false }))
        || (exists|i: int| 0 <= i < fields.len() && (#[trigger] fields[i]).0 == e.path@ && !((fields[i].0 == "plugSetHash"@ || fields[i].0 == "plugs"@))))
}

pub fn encode_destiny_craftable_socket_component(v: &DestinyCraftableSocketComponent) -> (r: JsonValue)
    ensures
        jview(r) == destiny_craftable_socket_component_json(*v),
{
    let mut fields: Vec<(String, JsonValue)> = Vec::new();
    fields.push(("plugSetHash".to_owned(), JsonValue::Int(v.plug_set_hash as i64)));
    let arr_plugs = {
        let mut items: Vec<JsonValue> = Vec::new();
        let mut i: usize = 0;
        while i < v.plugs.len()
            invariant
                i <= v.plugs.len(),
                items@.len() == i,
                forall|k: int| 0 <= k < i ==> jview(#[trigger] items@[k]) == destiny_craftable_socket_plug_component_json(v.plugs@[k]),
            decreases v.plugs.len() - i,
        {
            items.push(encode_destiny_craftable_socket_plug_component(&v.plugs[i]));
            i = i + 1;
        }
        JsonValue::Arr(items)
    };
    proof {
        assert(jview(arr_plugs)->Arr_0 =~= destiny_craftable_socket_component_json(*v)->Obj_0[1].1->Arr_0);
    }
    fields.push(("plugs".to_owned(), arr_plugs));
    let r = JsonValue::Obj(fields);
    proof {
        assert(jview(fields@[0].1) == destiny_craftable_socket_component_json(*v)->Obj_0[0].1);
        assert(jview(fields@[1].1) == destiny_craftable_socket_component_json(*v)->Obj_0[1].1);
        assert(jview(r)->Obj_0 =~= destiny_craftable_socket_component_json(*v)->Obj_0);
    }
    r
}

/// Decodes this record; a failure names the offending field in its
/// path and says what was expected of it.
#[verifier::loop_isolation(false)]
pub fn decode_destiny_craftable_socket_component(j: &JsonValue) -> (r: Result<DestinyCraftableSocketComponent, DecodeError>)
    ensures
        r is Ok <==> destiny_craftable_socket_component_wf(jview(*j)),
        r matches Ok(w) ==> (jview(*j) matches Json::Obj(fields)
            && destiny_craftable_socket_component_fields_match(fields, w)),
        r matches Err(e) ==> destiny_craftable_socket_component_err_ok(jview(*j), e),
{
    let fields = match j {
        JsonValue::Obj(fields) => fields,
        _ => {
            return Err(root_error("an object"));
        },
    };
    let ghost gf = jview(*j)->Obj_0;
    let plug_set_hash = match j.get("plugSetHash") {
        Some(v) => match v.to_i64() {
            Some(n) if 0 <= n && n <= u32::MAX as i64 => n as u32,
            _ => {
                return Err(field_error("plugSetHash", "a 32-bit unsigned integer"));
            },
        },
        _ => {
            return Err(field_error("plugSetHash", "a 32-bit unsigned integer"));
        },
    };
    let plugs = match j.get("plugs") {
        Option::None => {
            return Err(field_error("plugs", "an array"));
        },
        Some(arr) => match arr {
            JsonValue::Arr(items) => {
                let ghost gitems = jview(*arr)->Arr_0;
                let mut out: Vec<DestinyCraftableSocketPlugComponent> = Vec::new();
                let mut i: usize = 0;
                while i < items.len()
                    invariant
                        i <= items.len(),
                        out@.len() == i,
                        forall|k: int| 0 <= k < i
                            ==> (destiny_craftable_socket_plug_component_wf(#[trigger] gitems[k])
                                && (gitems[k] matches Json::Obj(f2)
                                && destiny_craftable_socket_plug_component_fields_match(f2, out@[k]))),
                    decreases items.len() - i,
                {
                    proof {
                        assert(gitems[i as int] == jview(items@[i as int]));
                    }
                    match decode_destiny_craftable_socket_plug_component(&items[i]) {
                        Ok(r) => {
                            out.push(r);
                        },
                        Err(e) => {
                            return Err(indexed_error("plugs", i, e));
                        },
                    }
                    i = i + 1;
                }
                out
            },
            _ => {
                return Err(field_error("plugs", "an array"));
            },
        },
    };
    let mut i: usize = 0;
    while i < fields.len()
        invariant
            i <= fields.len(),
            gf.len() == fields@.len(),
            forall|k: int| 0 <= k < gf.len()
                ==> #[trigger] gf[k] == (fields@[k].0@, jview(fields@[k].1)),
            forall|k: int| 0 <= k < i
                ==> ((#[trigger] gf[k]).0 == "plugSetHash"@ || gf[k].0 == "plugs"@),
        decreases fields.len() - i,
    {
        let name = fields[i].0.as_str();
        if !(str_eq(name, "plugSetHash") || str_eq(name, "plugs")) {
            proof {
                assert(gf[i as int].0 == fields@[i as int].0@);
                assert(!destiny_craftable_socket_component_wf(jview(*j)));
            }
            return Err(field_error(fields[i].0.as_str(), "an unknown field"));
        }
        i = i + 1;
    }
    Ok(DestinyCraftableSocketComponent { plug_set_hash, plugs })
}

/// The wire image of a record is well formed and matched by the
/// record itself: encoding loses nothing that decoding reads.
pub proof fn lemma_destiny_craftable_socket_component_image(v: DestinyCraftableSocketComponent)
    ensures
        destiny_craftable_socket_component_wf(destiny_craftable_socket_component_json(v)),
        destiny_craftable_socket_component_json(v) matches Json::Obj(fields) && destiny_craftable_socket_component_fields_match(fields, v),
{
    reveal_strlit("plugSetHash");
    reveal_strlit("plugs");
    let fields = destiny_craftable_socket_component_json(v)->Obj_0;
    assert("plugSetHash"@.len() == 11);
    assert("plugs"@.len() == 5);
    assert("plugSetHash"@ != "plugs"@);
    lemma_lookup_at(fields, 0);
    lemma_lookup_at(fields, 1);
    assert forall|i: int| 0 <= i < v.plugs@.len()
        implies (destiny_craftable_socket_plug_component_wf(#[trigger] fields[1].1->Arr_0[i])
            && (fields[1].1->Arr_0[i] matches Json::Obj(f2)
            && destiny_craftable_socket_plug_component_fields_match(f2, v.plugs@[i]))) by {
        assert(fields[1].1->Arr_0[i] == destiny_craftable_socket_plug_component_json(v.plugs@[i]));
        lemma_destiny_craftable_socket_plug_component_image(v.plugs@[i]);
    }
}

/// Decoding the encoded image of a record yields a record whose
/// every field carries the same content as the one encoded.
pub proof fn lemma_destiny_craftable_socket_component_round_trip(v: DestinyCraftableSocketComponent, w: DestinyCraftableSocketComponent)
    requires
        destiny_craftable_socket_component_json(v) matches Json::Obj(fields) && destiny_craftable_socket_component_fields_match(fields, w),
    ensures
        destiny_craftable_socket_component_wf(destiny_craftable_socket_component_json(v)),
        w.plug_set_hash == v.plug_set_hash,
        w.plugs@.len() == v.plugs@.len(),
        forall|i: int| 0 <= i < v.plugs@.len() ==> (destiny_craftable_socket_plug_component_json(v.plugs@[i]) matches Json::Obj(f2) && destiny_craftable_socket_plug_component_fields_match(f2, #[trigger] w.plugs@[i])),
{
    lemma_destiny_craftable_socket_component_image(v);
    let fields = destiny_craftable_socket_component_json(v)->Obj_0;
    reveal_strlit("plugSetHash");
    reveal_strlit("plugs");
    assert("plugSetHash"@.len() == 11);
    assert("plugs"@.len() == 5);
    assert("plugSetHash"@ != "plugs"@);
    lemma_lookup_at(fields, 0);
    lemma_lookup_at(fields, 1);
    assert forall|i: int| 0 <= i < v.plugs@.len()
        implies (destiny_craftable_socket_plug_component_json(v.plugs@[i]) matches Json::Obj(f2)
            && destiny_craftable_socket_plug_component_fields_match(f2, #[trigger] w.plugs@[i])) by {
        assert(fields[1].1->Arr_0[i] == destiny_craftable_socket_plug_component_json(v.plugs@[i]));
        lemma_destiny_craftable_socket_plug_component_image(v.plugs@[i]);
    }
}

/// The wire image of this record.
pub open spec fn destiny_craftable_component_json(v: DestinyCraftableComponent) -> Json {
    Json::Obj(
        seq![
            ("visible"@, Json::Bool(v.visible)),
            ("failedRequirementIndexes"@, Json::Arr(Seq::new(v.failed_requirement_indexes@.len(), |i: int| if 0 <= i < v.failed_requirement_indexes@.len() { Json::Int(v.failed_requirement_indexes@[i] as int) } else { Json::Null }))),
            ("sockets"@, Json::Arr(Seq::new(v.sockets@.len(), |i: int| if 0 <= i < v.sockets@.len() { destiny_craftable_socket_component_json(v.sockets@[i]) } else { Json::Null }))),
        ],
    )
}

/// Whether a document decodes as this record: an object with exactly these fields.
pub open spec fn destiny_craftable_component_wf(j: Json) -> bool {
    &&& j matches Json::Obj(fields)
    &&& spec_lookup(fields, "visible"@) matches Some(Json::Bool(_))
    &&& match spec_lookup(fields, "failedRequirementIndexes"@) { Option::None => false, Some(Json::Arr(items)) => forall|i: int| 0 <= i < items.len() ==> ((#[trigger] items[i]) matches Json::Int(n) && i32::MIN as int <= n <= i32::MAX as int), _ => false }
    &&& match spec_lookup(fields, "sockets"@) { Option::None => false, Some(Json::Arr(items)) => forall|i: int| 0 <= i < items.len() ==> destiny_craftable_socket_component_wf(#[trigger] items[i]), _ => false }
    &&& forall|i: int| 0 <= i < fields.len()
        ==> ((#[trigger] fields[i]).0 == "visible"@ || fields[i].0 == "failedRequirementIndexes"@ || fields[i].0 == "sockets"@)
}

/// How a decoded record relates to the document it came from.
pub open spec fn destiny_craftable_component_fields_match(fields: Seq<(Seq<char>, Json)>, w: DestinyCraftableComponent) -> bool {
    &&& spec_lookup(fields, "visible"@) == Some(Json::Bool(w.visible))
    &&& match spec_lookup(fields, "failedRequirementIndexes"@) { Option::None => false, Some(Json::Arr(items)) => w.failed_requirement_indexes@.len() == items.len() && (forall|i: int| 0 <= i < items.len() ==> (#[trigger] items[i]) == Json::Int(w.failed_requirement_indexes@[i] as int)), _ => false }
    &&& match spec_lookup(fields, "sockets"@) { Option::None => false, Some(Json::Arr(items)) => w.sockets@.len() == items.len() && (forall|i: int| 0 <= i < items.len() ==> ((#[trigger] items[i]) matches Json::Obj(f2) && destiny_craftable_socket_component_fields_match(f2, w.sockets@[i]))), _ => false }
}

/// What a decode failure names: its path points at a field of the
/// document that is indeed not decodable, and an undeclared
/// enumeration code is reported with the enumeration's own message.
pub open spec fn destiny_craftable_component_err_ok(j: Json, e: DecodeError) -> bool {
    &&& !(j matches Json::Obj(_)) ==> e.path@.len() == 0
    &&& j matches Json::Obj(fields) ==> (
        (e.path@ == "visible"@ && !(spec_lookup(fields, "visible"@) matches Some(Json::Bool(_))))
        || ((e.path@ == "failedRequirementIndexes"@ || spec_starts_with(e.path@, "failedRequirementIndexes"@)) && !(match spec_lookup(fields, "failedRequirementIndexes"@) { Option::None => false, Some(Json::Arr(items)) => forall|i: int| 0 <= i < items.len() ==> ((#[trigger] items[i]) matches Json::Int(n) && i32::MIN as int <= n <= i32::MAX as int), _ => false }))
        || ((e.path@ == "sockets"@ || spec_starts_with(e.path@, "sockets"@)) && !(match spec_lookup(fields, "sockets"@) { Option::None => false, Some(Json::Arr(items)) => forall|i: int| 0 <= i < items.len() ==> destiny_craftable_socket_component_wf(#[trigger] items[i]), _ => false }))
        || (exists|i: int| 0 <= i < fields.len() && (#[trigger] fields[i]).0 == e.path@ && !((fields[i].0 == "visible"@ || fields[i].0 == "failedRequirementIndexes"@ || fields[i].0 == "sockets"@))))
}

pub fn encode_destiny_craftable_component(v: &DestinyCraftableComponent) -> (r: JsonValue)
    ensures
        jview(r) == destiny_craftable_component_json(*v),
{
    let mut fields: Vec<(String, JsonValue)> = Vec::new();
    fields.push(("visible".to_owned(), JsonValue::Bool(v.visible)));
    let arr_failed_requirement_indexes = {
        let mut items: Vec<JsonValue> = Vec::new();
        let mut i: usize = 0;
        while i < v.failed_requirement_indexes.len()
            invariant
                i <= v.failed_requirement_indexes.len(),
                items@.len() == i,
                forall|k: int| 0 <= k < i ==> jview(#[trigger] items@[k]) == Json::Int(v.failed_requirement_indexes@[k] as int),
            decreases v.failed_requirement_indexes.len() - i,
        {
            items.push(JsonValue::Int(v.failed_requirement_indexes[i] as i64));
            i = i + 1;
        }
        JsonValue::Arr(items)
    };
    proof {
        assert(jview(arr_failed_requirement_indexes)->Arr_0 =~= destiny_craftable_component_json(*v)->Obj_0[1].1->Arr_0);
    }
    fields.push(("failedRequirementIndexes".to_owned(), arr_failed_requirement_indexes));
    let arr_sockets = {
        let mut items: Vec<JsonValue> = Vec::new();
        let mut i: usize = 0;
        while i < v.sockets.len()
            invariant
                i <= v.sockets.len(),
                items@.len() == i,
                forall|k: int| 0 <= k < i ==> jview(#[trigger] items@[k]) == destiny_craftable_socket_component_json(v.sockets@[k]),
            decreases v.sockets.len() - i,
        {
            items.push(encode_destiny_craftable_socket_component(&v.sockets[i]));
            i = i + 1;
        }
        JsonValue::Arr(items)
    };
    proof {
        assert(jview(arr_sockets)->Arr_0 =~= destiny_craftable_component_json(*v)->Obj_0[2].1->Arr_0);
    }
    fields.push(("sockets".to_owned(), arr_sockets));
    let r = JsonValue::Obj(fields);
    proof {
        assert(jview(fields@[0].1) == destiny_craftable_component_json(*v)->Obj_0[0].1);
        assert(jview(fields@[1].1) == destiny_craftable_component_json(*v)->Obj_0[1].1);
        assert(jview(fields@[2].1) == destiny_craftable_component_json(*v)->Obj_0[2].1);
        assert(jview(r)->Obj_0 =~= destiny_craftable_component_json(*v)->Obj_0);
    }
    r
}

/// Decodes this record; a failure names the offending field in its
/// path and says what was expected of it.
#[verifier::loop_isolation(false)]
pub fn decode_destiny_craftable_component(j: &JsonValue) -> (r: Result<DestinyCraftableComponent, DecodeError>)
    ensures
        r is Ok <==> destiny_craftable_component_wf(jview(*j)),
        r matches Ok(w) ==> (jview(*j) matches Json::Obj(fields)
            && destiny_craftable_component_fields_match(fields, w)),
        r matches Err(e) ==> destiny_craftable_component_err_ok(jview(*j), e),
{
    let fields = match j {
        JsonValue::Obj(fields) => fields,
        _ => {
            return Err(root_error("an object"));
        },
    };
    let ghost gf = jview(*j)->Obj_0;
    let visible = match j.get("visible") {
        Some(JsonValue::Bool(b)) => *b,
        _ => {
            return Err(field_error("visible", "a boolean"));
        },
    };
    let failed_requirement_indexes = match j.get("failedRequirementIndexes") {
        Option::None => {
            return Err(field_error("failedRequirementIndexes", "an array"));
        },
        Some(arr) => match arr {
            JsonValue::Arr(items) => {
                let ghost gitems = jview(*arr)->Arr_0;
                let mut out: Vec<i32> = Vec::new();
                let mut i: usize = 0;
                while i < items.len()
                    invariant
                        i <= items.len(),
                        out@.len() == i,
                        forall|k: int| 0 <= k < i ==> (#[trigger] gitems[k]) == Json::Int(out@[k] as int),
                    decreases items.len() - i,
                {
                    proof {
                        assert(gitems[i as int] == jview(items@[i as int]));
                    }
                    let n = match items[i].to_i64() {
                        Some(n) if i32::MIN as i64 <= n && n <= i32::MAX as i64 => n,
                        _ => {
                            return Err(indexed_error("failedRequirementIndexes", i, field_error("", "a 32-bit integer")));
                        },
                    };
                    out.push(n as i32);
                    i = i + 1;
                }
                out
            },
            _ => {
                return Err(field_error("failedRequirementIndexes", "an array"));
            },
        },
    };
    let sockets = match j.get("sockets") {
        Option::None => {
            return Err(field_error("sockets", "an array"));
        },
        Some(arr) => match arr {
            JsonValue::Arr(items) => {
                let ghost gitems = jview(*arr)->Arr_0;
                let mut out: Vec<DestinyCraftableSocketComponent> = Vec::new();
                let mut i: usize = 0;
                while i < items.len()
                    invariant
                        i <= items.len(),
                        out@.len() == i,
                        forall|k: int| 0 <= k < i
                            ==> (destiny_craftable_socket_component_wf(#[trigger] gitems[k])
                                && (gitems[k] matches Json::Obj(f2)
                                && destiny_craftable_socket_component_fields_match(f2, out@[k]))),
                    decreases items.len() - i,
                {
                    proof {
                        assert(gitems[i as int] == jview(items@[i as int]));
                    }
                    match decode_destiny_craftable_socket_component(&items[i]) {
                        Ok(r) => {
                            out.push(r);
                        },
                        Err(e) => {
                            return Err(indexed_error("sockets", i, e));
                        },
                    }
                    i = i + 1;
                }
                out
            },
            _ => {
                return Err(field_error("sockets", "an array"));
            },
        },
    };
    let mut i: usize = 0;
    while i < fields.len()
        invariant
            i <= fields.len(),
            gf.len() == fields@.len(),
            forall|k: int| 0 <= k < gf.len()
                ==> #[trigger] gf[k] == (fields@[k].0@, jview(fields@[k].1)),
            forall|k: int| 0 <= k < i
                ==> ((#[trigger] gf[k]).0 == "visible"@ || gf[k].0 == "failedRequirementIndexes"@ || gf[k].0 == "sockets"@),
        decreases fields.len() - i,
    {
        let name = fields[i].0.as_str();
        if !(str_eq(name, "visible") || str_eq(name, "failedRequirementIndexes") || str_eq(name, "sockets")) {
            proof {
                assert(gf[i as int].0 == fields@[i as int].0@);
                assert(!destiny_craftable_component_wf(jview(*j)));
            }
            return Err(field_error(fields[i].0.as_str(), "an unknown field"));
        }
        i = i + 1;
    }
    Ok(DestinyCraftableComponent { visible, failed_requirement_indexes, sockets })
}

/// The wire image of a record is well formed and matched by the
/// record itself: encoding loses nothing that decoding reads.
pub proof fn lemma_destiny_craftable_component_image(v: DestinyCraftableComponent)
    ensures
        destiny_craftable_component_wf(destiny_craftable_component_json(v)),
        destiny_craftable_component_json(v) matches Json::Obj(fields) && destiny_craftable_component_fields_match(fields, v),
{
    reveal_strlit("visible");
    reveal_strlit("failedRequirementIndexes");
    reveal_strlit("sockets");
    let fields = destiny_craftable_component_json(v)->Obj_0;
    assert("visible"@.len() == 7);
    assert("failedRequirementIndexes"@.len() == 24);
    assert("sockets"@.len() == 7);
    assert("visible"@ != "failedRequirementIndexes"@);
    assert(("visible"@)[0] != ("sockets"@)[0]);
    assert("visible"@ != "sockets"@);
    assert("failedRequirementIndexes"@ != "sockets"@);
    lemma_lookup_at(fields, 0);
    lemma_lookup_at(fields, 1);
    lemma_lookup_at(fields, 2);
    assert forall|i: int| 0 <= i < v.sockets@.len()
        implies (destiny_craftable_socket_component_wf(#[trigger] fields[2].1->Arr_0[i])
            && (fields[2].1->Arr_0[i] matches Json::Obj(f2)
            && destiny_craftable_socket_component_fields_match(f2, v.sockets@[i]))) by {
        assert(fields[2].1->Arr_0[i] == destiny_craftable_socket_component_json(v.sockets@[i]));
        lemma_destiny_craftable_socket_component_image(v.sockets@[i]);
    }
}

/// Decoding the encoded image of a record yields a record whose
/// every field carries the same content as the one encoded.
pub proof fn lemma_destiny_craftable_component_round_trip(v: DestinyCraftableComponent, w: DestinyCraftableComponent)
    requires
        destiny_craftable_component_json(v) matches Json::Obj(fields) && destiny_craftable_component_fields_match(fields, w),
    ensures
        destiny_craftable_component_wf(destiny_craftable_component_json(v)),
        w.visible == v.visible,
        w.failed_requirement_indexes@ == v.failed_requirement_indexes@,
        w.sockets@.len() == v.sockets@.len(),
        forall|i: int| 0 <= i < v.sockets@.len() ==> (destiny_craftable_socket_component_json(v.sockets@[i]) matches Json::Obj(f2) && destiny_craftable_socket_component_fields_match(f2, #[trigger] w.sockets@[i])),
{
    lemma_destiny_craftable_component_image(v);
    let fields = destiny_craftable_component_json(v)->Obj_0;
    reveal_strlit("visible");
    reveal_strlit("failedRequirementIndexes");
    reveal_strlit("sockets");
    assert("visible"@.len() == 7);
    assert("failedRequirementIndexes"@.len() == 24);
    assert("sockets"@.len() == 7);
    assert("visible"@ != "failedRequirementIndexes"@);
    assert(("visible"@)[0] != ("sockets"@)[0]);
    assert("visible"@ != "sockets"@);
    assert("failedRequirementIndexes"@ != "sockets"@);
    lemma_lookup_at(fields, 0);
    lemma_lookup_at(fields, 1);
    lemma_lookup_at(fields, 2);
    assert(w.failed_requirement_indexes@ =~= v.failed_requirement_indexes@) by {
        assert forall|i: int| 0 <= i < v.failed_requirement_indexes@.len()
            implies #[trigger] w.failed_requirement_indexes@[i] == v.failed_requirement_indexes@[i] by {
            assert(spec_lookup(fields, "failedRequirementIndexes"@) matches Some(Json::Arr(items))
                && (items[i] == Json::Int(v.failed_requirement_indexes@[i] as int)
                && items[i] == Json::Int(w.failed_requirement_indexes@[i] as int)));
        }
    }
    assert forall|i: int| 0 <= i < v.sockets@.len()
        implies (destiny_craftable_socket_component_json(v.sockets@[i]) matches Json::Obj(f2)
            && destiny_craftable_socket_component_fields_match(f2, #[trigger] w.sockets@[i])) by {
        assert(fields[2].1->Arr_0[i] == destiny_craftable_socket_component_json(v.sockets@[i]));
        lemma_destiny_craftable_socket_component_image(v.sockets@[i]);
    }
}

/// The wire image of this record.
pub open spec fn destiny_loadout_item_component_json(v: DestinyLoadoutItemComponent) -> Json {
    Json::Obj(
        seq![
            ("itemInstanceId"@, Json::Int(v.item_instance_id as int)),
            ("plugItemHashes"@, Json::Arr(Seq::new(v.plug_item_hashes@.len(), |i: int| if 0 <= i < v.plug_item_hashes@.len() { Json::Int(v.plug_item_hashes@[i] as int) } else { Json::Null }))),
        ],
    )
}

/// Whether a document decodes as this record: an object with exactly these fields.
pub open spec fn destiny_loadout_item_component_wf(j: Json) -> bool {
    &&& j matches Json::Obj(fields)
    &&& spec_lookup(fields, "itemInstanceId"@) matches Some(Json::Int(n)) && i64::MIN <= n <= i64::MAX
    &&& match spec_lookup(fields, "plugItemHashes"@) { Option::None => false, Some(Json::Arr(items)) => forall|i: int| 0 <= i < items.len() ==> ((#[trigger] items[i]) matches Json::Int(n) && 0 <= n <= u32::MAX as int), _ => false }
    &&& forall|i: int| 0 <= i < fields.len()
        ==> ((#[trigger] fields[i]).0 == "itemInstanceId"@ || fields[i].0 == "plugItemHashes"@)
}

/// How a decoded record relates to the document it came from.
pub open spec fn destiny_loadout_item_component_fields_match(fields: Seq<(Seq<char>, Json)>, w: DestinyLoadoutItemComponent) -> bool {
    &&& spec_lookup(fields, "itemInstanceId"@) == Some(Json::Int(w.item_instance_id as int))
    &&& match spec_lookup(fields, "plugItemHashes"@) { Option::None => false, Some(Json::Arr(items)) => w.plug_item_hashes@.len() == items.len() && (forall|i: int| 0 <= i < items.len() ==> (#[trigger] items[i]) == Json::Int(w.plug_item_hashes@[i] as int)), _ => false }
}

/// What a decode failure names: its path points at a field of the
/// document that is indeed not decodable, and an undeclared
/// enumeration code is reported with the enumeration's own message.
pub open spec fn destiny_loadout_item_component_err_ok(j: Json, e: DecodeError) -> bool {
    &&& !(j matches Json::Obj(_)) ==> e.path@.len() == 0
    &&& j matches Json::Obj(fields) ==> (
        (e.path@ == "itemInstanceId"@ && !(spec_lookup(fields, "itemInstanceId"@) matches Some(Json::Int(n)) && i64::MIN <= n <= i64::MAX))
        || ((e.path@ == "plugItemHashes"@ || spec_starts_with(e.path@, "plugItemHashes"@)) && !(match spec_lookup(fields, "plugItemHashes"@) { Option::None => false, Some(Json::Arr(items)) => forall|i: int| 0 <= i < items.len() ==> ((#[trigger] items[i]) matches Json::Int(n) && 0 <= n <= u32::MAX as int), _ => false }))
        || (exists|i: int| 0 <= i < fields.len() && (#[trigger] fields[i]).0 == e.path@ && !((fields[i].0 == "itemInstanceId"@ || fields[i].0 == "plugItemHashes"@))))
}

pub fn encode_destiny_loadout_item_component(v: &DestinyLoadoutItemComponent) -> (r: JsonValue)
    ensures
        jview(r) == destiny_loadout_item_component_json(*v),
{
    let mut fields: Vec<(String, JsonValue)> = Vec::new();
    fields.push(("itemInstanceId".to_owned(), JsonValue::Int(v.item_instance_id as i64)));
    let arr_plug_item_hashes = {
        let mut items: Vec<JsonValue> = Vec::new();
        let mut i: usize = 0;
        while i < v.plug_item_hashes.len()
            invariant
                i <= v.plug_item_hashes.len(),
                items@.len() == i,
                forall|k: int| 0 <= k < i ==> jview(#[trigger] items@[k]) == Json::Int(v.plug_item_hashes@[k] as int),
            decreases v.plug_item_hashes.len() - i,
        {
            items.push(JsonValue::Int(v.plug_item_hashes[i] as i64));
            i = i + 1;
        }
        JsonValue::Arr(items)
    };
    proof {
        assert(jview(arr_plug_item_hashes)->Arr_0 =~= destiny_loadout_item_component_json(*v)->Obj_0[1].1->Arr_0);
    }
    fields.push(("plugItemHashes".to_owned(), arr_plug_item_hashes));
    let r = JsonValue::Obj(fields);
    proof {
        assert(jview(fields@[0].1) == destiny_loadout_item_component_json(*v)->Obj_0[0].1);
        assert(jview(fields@[1].1) == destiny_loadout_item_component_json(*v)->Obj_0[1].1);
        assert(jview(r)->Obj_0 =~= destiny_loadout_item_component_json(*v)->Obj_0);
    }
    r
}

/// Decodes this record; a failure names the offending field in its
/// path and says what was expected of it.
#[verifier::loop_isolation(false)]
pub fn decode_destiny_loadout_item_component(j: &JsonValue) -> (r: Result<DestinyLoadoutItemComponent, DecodeError>)
    ensures
        r is Ok <==> destiny_loadout_item_component_wf(jview(*j)),
        r matches Ok(w) ==> (jview(*j) matches Json::Obj(fields)
            && destiny_loadout_item_component_fields_match(fields, w)),
        r matches Err(e) ==> destiny_loadout_item_component_err_ok(jview(*j), e),
{
    let fields = match j {
        JsonValue::Obj(fields) => fields,
        _ => {
            return Err(root_error("an object"));
        },
    };
    let ghost gf = jview(*j)->Obj_0;
    let item_instance_id = match j.get("itemInstanceId") {
        Some(v) => match v.to_i64() {
            Some(n) => n,
            _ => {
                return Err(field_error("itemInstanceId", "a 64-bit integer"));
            },
        },
        _ => {
            return Err(field_error("itemInstanceId", "a 64-bit integer"));
        },
    };
    let plug_item_hashes = match j.get("plugItemHashes") {
        Option::None => {
            return Err(field_error("plugItemHashes", "an array"));
        },
        Some(arr) => match arr {
            JsonValue::Arr(items) => {
                let ghost gitems = jview(*arr)->Arr_0;
                let mut out: Vec<u32> = Vec::new();
                let mut i: usize = 0;
                while i < items.len()
                    invariant
                        i <= items.len(),
                        out@.len() == i,
                        forall|k: int| 0 <= k < i ==> (#[trigger] gitems[k]) == Json::Int(out@[k] as int),
                    decreases items.len() - i,
                {
                    proof {
                        assert(gitems[i as int] == jview(items@[i as int]));
                    }
                    let n = match items[i].to_i64() {
                        Some(n) if 0 <= n && n <= u32::MAX as i64 => n,
                        _ => {
                            return Err(indexed_error("plugItemHashes", i, field_error("", "a 32-bit unsigned integer")));
                        },
                    };
                    out.push(n as u32);
                    i = i + 1;
                }
                out
            },
            _ => {
                return Err(field_error("plugItemHashes", "an array"));
            },
        },
    };
    let mut i: usize = 0;
    while i < fields.len()
        invariant
            i <= fields.len(),
            gf.len() == fields@.len(),
            forall|k: int| 0 <= k < gf.len()
                ==> #[trigger] gf[k] == (fields@[k].0@, jview(fields@[k].1)),
            forall|k: int| 0 <= k < i
                ==> ((#[trigger] gf[k]).0 == "itemInstanceId"@ || gf[k].0 == "plugItemHashes"@),
        decreases fields.len() - i,
    {
        let name = fields[i].0.as_str();
        if !(str_eq(name, "itemInstanceId") || str_eq(name, "plugItemHashes")) {
            proof {
                assert(gf[i as int].0 == fields@[i as int].0@);
                assert(!destiny_loadout_item_component_wf(jview(*j)));
            }
            return Err(field_error(fields[i].0.as_str(), "an unknown field"));
        }
        i = i + 1;
    }
    Ok(DestinyLoadoutItemComponent { item_instance_id, plug_item_hashes })
}

/// The wire image of a record is well formed and matched by the
/// record itself: encoding loses nothing that decoding reads.
pub proof fn lemma_destiny_loadout_item_component_image(v: DestinyLoadoutItemComponent)
    ensures
        destiny_loadout_item_component_wf(destiny_loadout_item_component_json(v)),
        destiny_loadout_item_component_json(v) matches Json::Obj(fields) && destiny_loadout_item_component_fields_match(fields, v),
{
    reveal_strlit("itemInstanceId");
    reveal_strlit("plugItemHashes");
    let fields = destiny_loadout_item_component_json(v)->Obj_0;
    assert("itemInstanceId"@.len() == 14);
    assert("plugItemHashes"@.len() == 14);
    assert(("itemInstanceId"@)[0] != ("plugItemHashes"@)[0]);
    assert("itemInstanceId"@ != "plugItemHashes"@);
    lemma_lookup_at(fields, 0);
    lemma_lookup_at(fields, 1);
}

/// Decoding the encoded image of a record yields a record whose
/// every field carries the same content as the one encoded.
pub proof fn lemma_destiny_loadout_item_component_round_trip(v: DestinyLoadoutItemComponent, w: DestinyLoadoutItemComponent)
    requires
        destiny_loadout_item_component_json(v) matches Json::Obj(fields) && destiny_loadout_item_component_fields_match(fields, w),
    ensures
        destiny_loadout_item_component_wf(destiny_loadout_item_component_json(v)),
        w.item_instance_id == v.item_instance_id,
        w.plug_item_hashes@ == v.plug_item_hashes@,
{
    lemma_destiny_loadout_item_component_image(v);
    let fields = destiny_loadout_item_component_json(v)->Obj_0;
    reveal_strlit("itemInstanceId");
    reveal_strlit("plugItemHashes");
    assert("itemInstanceId"@.len() == 14);
    assert("plugItemHashes"@.len() == 14);
    assert(("itemInstanceId"@)[0] != ("plugItemHashes"@)[0]);
    assert("itemInstanceId"@ != "plugItemHashes"@);
    lemma_lookup_at(fields, 0);
    lemma_lookup_at(fields, 1);
    assert(w.plug_item_hashes@ =~= v.plug_item_hashes@) by {
        assert forall|i: int| 0 <= i < v.plug_item_hashes@.len()
            implies #[trigger] w.plug_item_hashes@[i] == v.plug_item_hashes@[i] by {
            assert(spec_lookup(fields, "plugItemHashes"@) matches Some(Json::Arr(items))
                && (items[i] == Json::Int(v.plug_item_hashes@[i] as int)
                && items[i] == Json::Int(w.plug_item_hashes@[i] as int)));
        }
    }
}

/// The wire image of this record.
pub open spec fn destiny_loadout_component_json(v: DestinyLoadoutComponent) -> Json {
    Json::Obj(
        seq![
            ("colorHash"@, Json::Int(v.color_hash as int)),
            ("iconHash"@, Json::Int(v.icon_hash as int)),
            ("nameHash"@, Json::Int(v.name_hash as int)),
            ("items"@, Json::Arr(Seq::new(v.items@.len(), |i: int| if 0 <= i < v.items@.len() { destiny_loadout_item_component_json(v.items@[i]) } else { Json::Null }))),
        ],
    )
}

/// Whether a document decodes as this record: an object with exactly these fields.
pub open spec fn destiny_loadout_component_wf(j: Json) -> bool {
    &&& j matches Json::Obj(fields)
    &&& spec_lookup(fields, "colorHash"@) matches Some(Json::Int(n)) && 0 <= n <= u32::MAX as int
    &&& spec_lookup(fields, "iconHash"@) matches Some(Json::Int(n)) && 0 <= n <= u32::MAX as int
    &&& spec_lookup(fields, "nameHash"@) matches Some(Json::Int(n)) && 0 <= n <= u32::MAX as int
    &&& match spec_lookup(fields, "items"@) { Option::None => false, Some(Json::Arr(items)) => forall|i: int| 0 <= i < items.len() ==> destiny_loadout_item_component_wf(#[trigger] items[i]), _ => false }
    &&& forall|i: int| 0 <= i < fields.len()
        ==> ((#[trigger] fields[i]).0 == "colorHash"@ || fields[i].0 == "iconHash"@ || fields[i].0 == "nameHash"@ || fields[i].0 == "items"@)
}

/// How a decoded record relates to the document it came from.
pub open spec fn destiny_loadout_component_fields_match(fields: Seq<(Seq<char>, Json)>, w: DestinyLoadoutComponent) -> bool {
    &&& spec_lookup(fields, "colorHash"@) == Some(Json::Int(w.color_hash as int))
    &&& spec_lookup(fields, "iconHash"@) == Some(Json::Int(w.icon_hash as int))
    &&& spec_lookup(fields, "nameHash"@) == Some(Json::Int(w.name_hash as int))
    &&& match spec_lookup(fields, "items"@) { Option::None => false, Some(Json::Arr(items)) => w.items@.len() == items.len() && (forall|i: int| 0 <= i < items.len() ==> ((#[trigger] items[i]) matches Json::Obj(f2) && destiny_loadout_item_component_fields_match(f2, w.items@[i]))), _ => false }
}

/// What a decode failure names: its path points at a field of the
/// document that is indeed not decodable, and an undeclared
/// enumeration code is reported with the enumeration's own message.
pub open spec fn destiny_loadout_component_err_ok(j: Json, e: DecodeError) -> bool {
    &&& !(j matches Json::Obj(_)) ==> e.path@.len() == 0
    &&& j matches Json::Obj(fields) ==> (
        (e.path@ == "colorHash"@ && !(spec_lookup(fields, "colorHash"@) matches Some(Json::Int(n)) && 0 <= n <= u32::MAX as int))
        || (e.path@ == "iconHash"@ && !(spec_lookup(fields, "iconHash"@) matches Some(Json::Int(n)) && 0 <= n <= u32::MAX as int))
        || (e.path@ == "nameHash"@ && !(spec_lookup(fields, "nameHash"@) matches Some(Json::Int(n)) && 0 <= n <= u32::MAX as int))
        || ((e.path@ == "items"@ || spec_starts_with(e.path@, "items"@)) && !(match spec_lookup(fields, "items"@) { Option::None => false, Some(Json::Arr(items)) => forall|i: int| 0 <= i < items.len() ==> destiny_loadout_item_component_wf(#[trigger] items[i]), _ => false }))
        || (exists|i: int| 0 <= i < fields.len() && (#[trigger] fields[i]).0 == e.path@ && !((fields[i].0 == "colorHash"@ || fields[i].0 == "iconHash"@ || fields[i].0 == "nameHash"@ || fields[i].0 == "items"@))))
}

pub fn encode_destiny_loadout_component(v: &DestinyLoadoutComponent) -> (r: JsonValue)
    ensures
        jview(r) == destiny_loadout_component_json(*v),
{
    let mut fields: Vec<(String, JsonValue)> = Vec::new();
    fields.push(("colorHash".to_owned(), JsonValue::Int(v.color_hash as i64)));
    fields.push(("iconHash".to_owned(), JsonValue::Int(v.icon_hash as i64)));
    fields.push(("nameHash".to_owned(), JsonValue::Int(v.name_hash as i64)));
    let arr_items = {
        let mut items: Vec<JsonValue> = Vec::new();
        let mut i: usize = 0;
        while i < v.items.len()
            invariant
                i <= v.items.len(),
                items@.len() == i,
                forall|k: int| 0 <= k < i ==> jview(#[trigger] items@[k]) == destiny_loadout_item_component_json(v.items@[k]),
            decreases v.items.len() - i,
        {
            items.push(encode_destiny_loadout_item_component(&v.items[i]));
            i = i + 1;
        }
        JsonValue::Arr(items)
    };
    proof {
        assert(jview(arr_items)->Arr_0 =~= destiny_loadout_component_json(*v)->Obj_0[3].1->Arr_0);
    }
    fields.push(("items".to_owned(), arr_items));
    let r = JsonValue::Obj(fields);
    proof {
        assert(jview(fields@[0].1) == destiny_loadout_component_json(*v)->Obj_0[0].1);
        assert(jview(fields@[1].1) == destiny_loadout_component_json(*v)->Obj_0[1].1);
        assert(jview(fields@[2].1) == destiny_loadout_component_json(*v)->Obj_0[2].1);
        assert(jview(fields@[3].1) == destiny_loadout_component_json(*v)->Obj_0[3].1);
        assert(jview(r)->Obj_0 =~= destiny_loadout_component_json(*v)->Obj_0);
    }
    r
}

/// Decodes this record; a failure names the offending field in its
/// path and says what was expected of it.
#[verifier::loop_isolation(false)]
pub fn decode_destiny_loadout_component(j: &JsonValue) -> (r: Result<DestinyLoadoutComponent, DecodeError>)
    ensures
        r is Ok <==> destiny_loadout_component_wf(jview(*j)),
        r matches Ok(w) ==> (jview(*j) matches Json::Obj(fields)
            && destiny_loadout_component_fields_match(fields, w)),
        r matches Err(e) ==> destiny_loadout_component_err_ok(jview(*j), e),
{
    let fields = match j {
        JsonValue::Obj(fields) => fields,
        _ => {
            return Err(root_error("an object"));
        },
    };
    let ghost gf = jview(*j)->Obj_0;
    let color_hash = match j.get("colorHash") {
        Some(v) => match v.to_i64() {
            Some(n) if 0 <= n && n <= u32::MAX as i64 => n as u32,
            _ => {
                return Err(field_error("colorHash", "a 32-bit unsigned integer"));
            },
        },
        _ => {
            return Err(field_error("colorHash", "a 32-bit unsigned integer"));
        },
    };
    let icon_hash = match j.get("iconHash") {
        Some(v) => match v.to_i64() {
            Some(n) if 0 <= n && n <= u32::MAX as i64 => n as u32,
            _ => {
                return Err(field_error("iconHash", "a 32-bit unsigned integer"));
            },
        },
        _ => {
            return Err(field_error("iconHash", "a 32-bit unsigned integer"));
        },
    };
    let name_hash = match j.get("nameHash") {
        Some(v) => match v.to_i64() {
            Some(n) if 0 <= n && n <= u32::MAX as i64 => n as u32,
            _ => {
                return Err(field_error("nameHash", "a 32-bit unsigned integer"));
            },
        },
        _ => {
            return Err(field_error("nameHash", "a 32-bit unsigned integer"));
        },
    };
    let items = match j.get("items") {
        Option::None => {
            return Err(field_error("items", "an array"));
        },
        Some(arr) => match arr {
            JsonValue::Arr(items) => {
                let ghost gitems = jview(*arr)->Arr_0;
                let mut out: Vec<DestinyLoadoutItemComponent> = Vec::new();
                let mut i: usize = 0;
                while i < items.len()
                    invariant
                        i <= items.len(),
                        out@.len() == i,
                        forall|k: int| 0 <= k < i
                            ==> (destiny_loadout_item_component_wf(#[trigger] gitems[k])
                                && (gitems[k] matches Json::Obj(f2)
                                && destiny_loadout_item_component_fields_match(f2, out@[k]))),
                    decreases items.len() - i,
                {
                    proof {
                        assert(gitems[i as int] == jview(items@[i as int]));
                    }
                    match decode_destiny_loadout_item_component(&items[i]) {
                        Ok(r) => {
                            out.push(r);
                        },
                        Err(e) => {
                            return Err(indexed_error("items", i, e));
                        },
                    }
                    i = i + 1;
                }
                out
            },
            _ => {
                return Err(field_error("items", "an array"));
            },
        },
    };
    let mut i: usize = 0;
    while i < fields.len()
        invariant
            i <= fields.len(),
            gf.len() == fields@.len(),
            forall|k: int| 0 <= k < gf.len()
                ==> #[trigger] gf[k] == (fields@[k].0@, jview(fields@[k].1)),
            forall|k: int| 0 <= k < i
                ==> ((#[trigger] gf[k]).0 == "colorHash"@ || gf[k].0 == "iconHash"@ || gf[k].0 == "nameHash"@ || gf[k].0 == "items"@),
        decreases fields.len() - i,
    {
        let name = fields[i].0.as_str();
        if !(str_eq(name, "colorHash") || str_eq(name, "iconHash") || str_eq(name, "nameHash") || str_eq(name, "items")) {
            proof {
                assert(gf[i as int].0 == fields@[i as int].0@);
                assert(!destiny_loadout_component_wf(jview(*j)));
            }
            return Err(field_error(fields[i].0.as_str(), "an unknown field"));
        }
        i = i + 1;
    }
    Ok(DestinyLoadoutComponent { color_hash, icon_hash, name_hash, items })
}

/// The wire image of a record is well formed and matched by the
/// record itself: encoding loses nothing that decoding reads.
pub proof fn lemma_destiny_loadout_component_image(v: DestinyLoadoutComponent)
    ensures
        destiny_loadout_component_wf(destiny_loadout_component_json(v)),
        destiny_loadout_component_json(v) matches Json::Obj(fields) && destiny_loadout_component_fields_match(fields, v),
{
    reveal_strlit("colorHash");
    reveal_strlit("iconHash");
    reveal_strlit("nameHash");
    reveal_strlit("items");
    let fields = destiny_loadout_component_json(v)->Obj_0;
    assert("colorHash"@.len() == 9);
    assert("iconHash"@.len() == 8);
    assert("nameHash"@.len() == 8);
    assert("items"@.len() == 5);
    assert("colorHash"@ != "iconHash"@);
    assert("colorHash"@ != "nameHash"@);
    assert("colorHash"@ != "items"@);
    assert(("iconHash"@)[0] != ("nameHash"@)[0]);
    assert("iconHash"@ != "nameHash"@);
    assert("iconHash"@ != "items"@);
    assert("nameHash"@ != "items"@);
    lemma_lookup_at(fields, 0);
    lemma_lookup_at(fields, 1);
    lemma_lookup_at(fields, 2);
    lemma_lookup_at(fields, 3);
    assert forall|i: int| 0 <= i < v.items@.len()
        implies (destiny_loadout_item_component_wf(#[trigger] fields[3].1->Arr_0[i])
            && (fields[3].1->Arr_0[i] matches Json::Obj(f2)
            && destiny_loadout_item_component_fields_match(f2, v.items@[i]))) by {
        assert(fields[3].1->Arr_0[i] == destiny_loadout_item_component_json(v.items@[i]));
        lemma_destiny_loadout_item_component_image(v.items@[i]);
    }
}

/// Decoding the encoded image of a record yields a record whose
/// every field carries the same content as the one encoded.
pub proof fn lemma_destiny_loadout_component_round_trip(v: DestinyLoadoutComponent, w: DestinyLoadoutComponent)
    requires
        destiny_loadout_component_json(v) matches Json::Obj(fields) && destiny_loadout_component_fields_match(fields, w),
    ensures
        destiny_loadout_component_wf(destiny_loadout_component_json(v)),
        w.color_hash == v.color_hash,
        w.icon_hash == v.icon_hash,
        w.name_hash == v.name_hash,
        w.items@.len() == v.items@.len(),
        forall|i: int| 0 <= i < v.items@.len() ==> (destiny_loadout_item_component_json(v.items@[i]) matches Json::Obj(f2) && destiny_loadout_item_component_fields_match(f2, #[trigger] w.items@[i])),
{
    lemma_destiny_loadout_component_image(v);
    let fields = destiny_loadout_component_json(v)->Obj_0;
    reveal_strlit("colorHash");
    reveal_strlit("iconHash");
    reveal_strlit("nameHash");
    reveal_strlit("items");
    assert("colorHash"@.len() == 9);
    assert("iconHash"@.len() == 8);
    assert("nameHash"@.len() == 8);
    assert("items"@.len() == 5);
    assert("colorHash"@ != "iconHash"@);
    assert("colorHash"@ != "nameHash"@);
    assert("colorHash"@ != "items"@);
    assert(("iconHash"@)[0] != ("nameHash"@)[0]);
    assert("iconHash"@ != "nameHash"@);
    assert("iconHash"@ != "items"@);
    assert("nameHash"@ != "items"@);
    lemma_lookup_at(fields, 0);
    lemma_lookup_at(fields, 1);
    lemma_lookup_at(fields, 2);
    lemma_lookup_at(fields, 3);
    assert forall|i: int| 0 <= i < v.items@.len()
        implies (destiny_loadout_item_component_json(v.items@[i]) matches Json::Obj(f2)
            && destiny_loadout_item_component_fields_match(f2, #[trigger] w.items@[i])) by {
        assert(fields[3].1->Arr_0[i] == destiny_loadout_item_component_json(v.items@[i]));
        lemma_destiny_loadout_item_component_image(v.items@[i]);
    }
}

/// The wire image of this record.
pub open spec fn destiny_loadouts_component_json(v: DestinyLoadoutsComponent) -> Json {
    Json::Obj(
        seq![
            ("loadouts"@, Json::Arr(Seq::new(v.loadouts@.len(), |i: int| if 0 <= i < v.loadouts@.len() { destiny_loadout_component_json(v.loadouts@[i]) } else { Json::Null }))),
        ],
    )
}

/// Whether a document decodes as this record: unknown fields are tolerated.
pub open spec fn destiny_loadouts_component_wf(j: Json) -> bool {
    &&& j matches Json::Obj(fields)
    &&& match spec_lookup(fields, "loadouts"@) { Option::None => false, Some(Json::Arr(items)) => forall|i: int| 0 <= i < items.len() ==> destiny_loadout_component_wf(#[trigger] items[i]), _ => false }
}

/// How a decoded record relates to the document it came from.
pub open spec fn destiny_loadouts_component_fields_match(fields: Seq<(Seq<char>, Json)>, w: DestinyLoadoutsComponent) -> bool {
    &&& match spec_lookup(fields, "loadouts"@) { Option::None => false, Some(Json::Arr(items)) => w.loadouts@.len() == items.len() && (forall|i: int| 0 <= i < items.len() ==> ((#[trigger] items[i]) matches Json::Obj(f2) && destiny_loadout_component_fields_match(f2, w.loadouts@[i]))), _ => false }
}

/// What a decode failure names: its path points at a field of the
/// document that is indeed not decodable, and an undeclared
/// enumeration code is reported with the enumeration's own message.
pub open spec fn destiny_loadouts_component_err_ok(j: Json, e: DecodeError) -> bool {
    &&& !(j matches Json::Obj(_)) ==> e.path@.len() == 0
    &&& j matches Json::Obj(fields) ==> (
        ((e.path@ == "loadouts"@ || spec_starts_with(e.path@, "loadouts"@)) && !(match spec_lookup(fields, "loadouts"@) { Option::None => false, Some(Json::Arr(items)) => forall|i: int| 0 <= i < items.len() ==> destiny_loadout_component_wf(#[trigger] items[i]), _ => false })))
}

pub fn encode_destiny_loadouts_component(v: &DestinyLoadoutsComponent) -> (r: JsonValue)
    ensures
        jview(r) == destiny_loadouts_component_json(*v),
{
    let mut fields: Vec<(String, JsonValue)> = Vec::new();
    let arr_loadouts = {
        let mut items: Vec<JsonValue> = Vec::new();
        let mut i: usize = 0;
        while i < v.loadouts.len()
            invariant
                i <= v.loadouts.len(),
                items@.len() == i,
                forall|k: int| 0 <= k < i ==> jview(#[trigger] items@[k]) == destiny_loadout_component_json(v.loadouts@[k]),
            decreases v.loadouts.len() - i,
        {
            items.push(encode_destiny_loadout_component(&v.loadouts[i]));
            i = i + 1;
        }
        JsonValue::Arr(items)
    };
    proof {
        assert(jview(arr_loadouts)->Arr_0 =~= destiny_loadouts_component_json(*v)->Obj_0[0].1->Arr_0);
    }
    fields.push(("loadouts".to_owned(), arr_loadouts));
    let r = JsonValue::Obj(fields);
    proof {
        assert(jview(fields@[0].1) == destiny_loadouts_component_json(*v)->Obj_0[0].1);
        assert(jview(r)->Obj_0 =~= destiny_loadouts_component_json(*v)->Obj_0);
    }
    r
}

/// Decodes this record; a failure names the offending field in its
/// path and says what was expected of it.
#[verifier::loop_isolation(false)]
pub fn decode_destiny_loadouts_component(j: &JsonValue) -> (r: Result<DestinyLoadoutsComponent, DecodeError>)
    ensures
        r is Ok <==> destiny_loadouts_component_wf(jview(*j)),
        r matches Ok(w) ==> (jview(*j) matches Json::Obj(fields)
            && destiny_loadouts_component_fields_match(fields, w)),
        r matches Err(e) ==> destiny_loadouts_component_err_ok(jview(*j), e),
{
    let fields = match j {
        JsonValue::Obj(fields) => fields,
        _ => {
            return Err(root_error("an object"));
        },
    };
    let ghost gf = jview(*j)->Obj_0;
    let loadouts = match j.get("loadouts") {
        Option::None => {
            return Err(field_error("loadouts", "an array"));
        },
        Some(arr) => match arr {
            JsonValue::Arr(items) => {
                let ghost gitems = jview(*arr)->Arr_0;
                let mut out: Vec<DestinyLoadoutComponent> = Vec::new();
                let mut i: usize = 0;
                while i < items.len()
                    invariant
                        i <= items.len(),
                        out@.len() == i,
                        forall|k: int| 0 <= k < i
                            ==> (destiny_loadout_component_wf(#[trigger] gitems[k])
                                && (gitems[k] matches Json::Obj(f2)
                                && destiny_loadout_component_fields_match(f2, out@[k]))),
                    decreases items.len() - i,
                {
                    proof {
                        assert(gitems[i as int] == jview(items@[i as int]));
                    }
                    match decode_destiny_loadout_component(&items[i]) {
                        Ok(r) => {
                            out.push(r);
                        },
                        Err(e) => {
                            return Err(indexed_error("loadouts", i, e));
                        },
                    }
                    i = i + 1;
                }
                out
            },
            _ => {
                return Err(field_error("loadouts", "an array"));
            },
        },
    };
    Ok(DestinyLoadoutsComponent { loadouts })
}

/// The wire image of a record is well formed and matched by the
/// record itself: encoding loses nothing that decoding reads.
pub proof fn lemma_destiny_loadouts_component_image(v: DestinyLoadoutsComponent)
    ensures
        destiny_loadouts_component_wf(destiny_loadouts_component_json(v)),
        destiny_loadouts_component_json(v) matches Json::Obj(fields) && destiny_loadouts_component_fields_match(fields, v),
{
    reveal_strlit("loadouts");
    let fields = destiny_loadouts_component_json(v)->Obj_0;
    assert("loadouts"@.len() == 8);
    lemma_lookup_at(fields, 0);
    assert forall|i: int| 0 <= i < v.loadouts@.len()
        implies (destiny_loadout_component_wf(#[trigger] fields[0].1->Arr_0[i])
            && (fields[0].1->Arr_0[i] matches Json::Obj(f2)
            && destiny_loadout_component_fields_match(f2, v.loadouts@[i]))) by {
        assert(fields[0].1->Arr_0[i] == destiny_loadout_component_json(v.loadouts@[i]));
        lemma_destiny_loadout_component_image(v.loadouts@[i]);
    }
}

/// Decoding the encoded image of a record yields a record whose
/// every field carries the same content as the one encoded.
pub proof fn lemma_destiny_loadouts_component_round_trip(v: DestinyLoadoutsComponent, w: DestinyLoadoutsComponent)
    requires
        destiny_loadouts_component_json(v) matches Json::Obj(fields) && destiny_loadouts_component_fields_match(fields, w),
    ensures
        destiny_loadouts_component_wf(destiny_loadouts_component_json(v)),
        w.loadouts@.len() == v.loadouts@.len(),
        forall|i: int| 0 <= i < v.loadouts@.len() ==> (destiny_loadout_component_json(v.loadouts@[i]) matches Json::Obj(f2) && destiny_loadout_component_fields_match(f2, #[trigger] w.loadouts@[i])),
{
    lemma_destiny_loadouts_component_image(v);
    let fields = destiny_loadouts_component_json(v)->Obj_0;
    reveal_strlit("loadouts");
    assert("loadouts"@.len() == 8);
    lemma_lookup_at(fields, 0);
    assert forall|i: int| 0 <= i < v.loadouts@.len()
        implies (destiny_loadout_component_json(v.loadouts@[i]) matches Json::Obj(f2)
            && destiny_loadout_component_fields_match(f2, #[trigger] w.loadouts@[i])) by {
        assert(fields[0].1->Arr_0[i] == destiny_loadout_component_json(v.loadouts@[i]));
        lemma_destiny_loadout_component_image(v.loadouts@[i]);
    }
}

/// The wire image of this record.
pub open spec fn destiny_item_peer_view_json(v: DestinyItemPeerView) -> Json {
    Json::Obj(
        seq![
            ("itemHash"@, Json::Int(v.item_hash as int)),
            ("dyes"@, Json::Arr(Seq::new(v.dyes@.len(), |i: int| if 0 <= i < v.dyes@.len() { dye_reference_json(v.dyes@[i]) } else { Json::Null }))),
        ],
    )
}

/// Whether a document decodes as this record: an object with exactly these fields.
pub open spec fn destiny_item_peer_view_wf(j: Json) -> bool {
    &&& j matches Json::Obj(fields)
    &&& spec_lookup(fields, "itemHash"@) matches Some(Json::Int(n)) && 0 <= n <= u32::MAX as int
    &&& match spec_lookup(fields, "dyes"@) { Option::None => false, Some(Json::Arr(items)) => forall|i: int| 0 <= i < items.len() ==> dye_reference_wf(#[trigger] items[i]), _ => false }
    &&& forall|i: int| 0 <= i < fields.len()
        ==> ((#[trigger] fields[i]).0 == "itemHash"@ || fields[i].0 == "dyes"@)
}

/// How a decoded record relates to the document it came from.
pub open spec fn destiny_item_peer_view_fields_match(fields: Seq<(Seq<char>, Json)>, w: DestinyItemPeerView) -> bool {
    &&& spec_lookup(fields, "itemHash"@) == Some(Json::Int(w.item_hash as int))
    &&& match spec_lookup(fields, "dyes"@) { Option::None => false, Some(Json::Arr(items)) => w.dyes@.len() == items.len() && (forall|i: int| 0 <= i < items.len() ==> ((#[trigger] items[i]) matches Json::Obj(f2) && dye_reference_fields_match(f2, w.dyes@[i]))), _ => false }
}

/// What a decode failure names: its path points at a field of the
/// document that is indeed not decodable, and an undeclared
/// enumeration code is reported with the enumeration's own message.
pub open spec fn destiny_item_peer_view_err_ok(j: Json, e: DecodeError) -> bool {
    &&& !(j matches Json::Obj(_)) ==> e.path@.len() == 0
    &&& j matches Json::Obj(fields) ==> (
        (e.path@ == "itemHash"@ && !(spec_lookup(fields, "itemHash"@) matches Some(Json::Int(n)) && 0 <= n <= u32::MAX as int))
        || ((e.path@ == "dyes"@ || spec_starts_with(e.path@, "dyes"@)) && !(match spec_lookup(fields, "dyes"@) { Option::None => false, Some(Json::Arr(items)) => forall|i: int| 0 <= i < items.len() ==> dye_reference_wf(#[trigger] items[i]), _ => false }))
        || (exists|i: int| 0 <= i < fields.len() && (#[trigger] fields[i]).0 == e.path@ && !((fields[i].0 == "itemHash"@ || fields[i].0 == "dyes"@))))
}

pub fn encode_destiny_item_peer_view(v: &DestinyItemPeerView) -> (r: JsonValue)
    ensures
        jview(r) == destiny_item_peer_view_json(*v),
{
    let mut fields: Vec<(String, JsonValue)> = Vec::new();
    fields.push(("itemHash".to_owned(), JsonValue::Int(v.item_hash as i64)));
    let arr_dyes = {
        let mut items: Vec<JsonValue> = Vec::new();
        let mut i: usize = 0;
        while i < v.dyes.len()
            invariant
                i <= v.dyes.len(),
                items@.len() == i,
                forall|k: int| 0 <= k < i ==> jview(#[trigger] items@[k]) == dye_reference_json(v.dyes@[k]),
            decreases v.dyes.len() - i,
        {
            items.push(encode_dye_reference(&v.dyes[i]));
            i = i + 1;
        }
        JsonValue::Arr(items)
    };
    proof {
        assert(jview(arr_dyes)->Arr_0 =~= destiny_item_peer_view_json(*v)->Obj_0[1].1->Arr_0);
    }
    fields.push(("dyes".to_owned(), arr_dyes));
    let r = JsonValue::Obj(fields);
    proof {
        assert(jview(fields@[0].1) == destiny_item_peer_view_json(*v)->Obj_0[0].1);
        assert(jview(fields@[1].1) == destiny_item_peer_view_json(*v)->Obj_0[1].1);
        assert(jview(r)->Obj_0 =~= destiny_item_peer_view_json(*v)->Obj_0);
    }
    r
}

/// Decodes this record; a failure names the offending field in its
/// path and says what was expected of it.
#[verifier::loop_isolation(false)]
pub fn decode_destiny_item_peer_view(j: &JsonValue) -> (r: Result<DestinyItemPeerView, DecodeError>)
    ensures
        r is Ok <==> destiny_item_peer_view_wf(jview(*j)),
        r matches Ok(w) ==> (jview(*j) matches Json::Obj(fields)
            && destiny_item_peer_view_fields_match(fields, w)),
        r matches Err(e) ==> destiny_item_peer_view_err_ok(jview(*j), e),
{
    let fields = match j {
        JsonValue::Obj(fields) => fields,
        _ => {
            return Err(root_error("an object"));
        },
    };
    let ghost gf = jview(*j)->Obj_0;
    let item_hash = match j.get("itemHash") {
        Some(v) => match v.to_i64() {
            Some(n) if 0 <= n && n <= u32::MAX as i64 => n as u32,
            _ => {
                return Err(field_error("itemHash", "a 32-bit unsigned integer"));
            },
        },
        _ => {
            return Err(field_error("itemHash", "a 32-bit unsigned integer"));
        },
    };
    let dyes = match j.get("dyes") {
        Option::None => {
            return Err(field_error("dyes", "an array"));
        },
        Some(arr) => match arr {
            JsonValue::Arr(items) => {
                let ghost gitems = jview(*arr)->Arr_0;
                let mut out: Vec<DyeReference> = Vec::new();
                let mut i: usize = 0;
                while i < items.len()
                    invariant
                        i <= items.len(),
                        out@.len() == i,
                        forall|k: int| 0 <= k < i
                            ==> (dye_reference_wf(#[trigger] gitems[k])
                                && (gitems[k] matches Json::Obj(f2)
                                && dye_reference_fields_match(f2, out@[k]))),
                    decreases items.len() - i,
                {
                    proof {
                        assert(gitems[i as int] == jview(items@[i as int]));
                    }
                    match decode_dye_reference(&items[i]) {
                        Ok(r) => {
                            out.push(r);
                        },
                        Err(e) => {
                            return Err(indexed_error("dyes", i, e));
                        },
                    }
                    i = i + 1;
                }
                out
            },
            _ => {
                return Err(field_error("dyes", "an array"));
            },
        },
    };
    let mut i: usize = 0;
    while i < fields.len()
        invariant
            i <= fields.len(),
            gf.len() == fields@.len(),
            forall|k: int| 0 <= k < gf.len()
                ==> #[trigger] gf[k] == (fields@[k].0@, jview(fields@[k].1)),
            forall|k: int| 0 <= k < i
                ==> ((#[trigger] gf[k]).0 == "itemHash"@ || gf[k].0 == "dyes"@),
        decreases fields.len() - i,
    {
        let name = fields[i].0.as_str();
        if !(str_eq(name, "itemHash") || str_eq(name, "dyes")) {
            proof {
                assert(gf[i as int].0 == fields@[i as int].0@);
                assert(!destiny_item_peer_view_wf(jview(*j)));
            }
            return Err(field_error(fields[i].0.as_str(), "an unknown field"));
        }
        i = i + 1;
    }
    Ok(DestinyItemPeerView { item_hash, dyes })
}

/// The wire image of a record is well formed and matched by the
/// record itself: encoding loses nothing that decoding reads.
pub proof fn lemma_destiny_item_peer_view_image(v: DestinyItemPeerView)
    ensures
        destiny_item_peer_view_wf(destiny_item_peer_view_json(v)),
        destiny_item_peer_view_json(v) matches Json::Obj(fields) && destiny_item_peer_view_fields_match(fields, v),
{
    reveal_strlit("itemHash");
    reveal_strlit("dyes");
    let fields = destiny_item_peer_view_json(v)->Obj_0;
    assert("itemHash"@.len() == 8);
    assert("dyes"@.len() == 4);
    assert("itemHash"@ != "dyes"@);
    lemma_lookup_at(fields, 0);
    lemma_lookup_at(fields, 1);
    assert forall|i: int| 0 <= i < v.dyes@.len()
        implies (dye_reference_wf(#[trigger] fields[1].1->Arr_0[i])
            && (fields[1].1->Arr_0[i] matches Json::Obj(f2)
            && dye_reference_fields_match(f2, v.dyes@[i]))) by {
        assert(fields[1].1->Arr_0[i] == dye_reference_json(v.dyes@[i]));
        lemma_dye_reference_image(v.dyes@[i]);
    }
}

/// Decoding the encoded image of a record yields a record whose
/// every field carries the same content as the one encoded.
pub proof fn lemma_destiny_item_peer_view_round_trip(v: DestinyItemPeerView, w: DestinyItemPeerView)
    requires
        destiny_item_peer_view_json(v) matches Json::Obj(fields) && destiny_item_peer_view_fields_match(fields, w),
    ensures
        destiny_item_peer_view_wf(destiny_item_peer_view_json(v)),
        w.item_hash == v.item_hash,
        w.dyes@.len() == v.dyes@.len(),
        forall|i: int| 0 <= i < v.dyes@.len() ==> (dye_reference_json(v.dyes@[i]) matches Json::Obj(f2) && dye_reference_fields_match(f2, #[trigger] w.dyes@[i])),
{
    lemma_destiny_item_peer_view_image(v);
    let fields = destiny_item_peer_view_json(v)->Obj_0;
    reveal_strlit("itemHash");
    reveal_strlit("dyes");
    assert("itemHash"@.len() == 8);
    assert("dyes"@.len() == 4);
    assert("itemHash"@ != "dyes"@);
    lemma_lookup_at(fields, 0);
    lemma_lookup_at(fields, 1);
    assert forall|i: int| 0 <= i < v.dyes@.len()
        implies (dye_reference_json(v.dyes@[i]) matches Json::Obj(f2)
            && dye_reference_fields_match(f2, #[trigger] w.dyes@[i])) by {
        assert(fields[1].1->Arr_0[i] == dye_reference_json(v.dyes@[i]));
        lemma_dye_reference_image(v.dyes@[i]);
    }
}

/// The wire image of this record.
pub open spec fn destiny_character_peer_view_json(v: DestinyCharacterPeerView) -> Json {
    Json::Obj(
        seq![
            ("equipment"@, Json::Arr(Seq::new(v.equipment@.len(), |i: int| if 0 <= i < v.equipment@.len() { destiny_item_peer_view_json(v.equipment@[i]) } else { Json::Null }))),
        ],
    )
}

/// Whether a document decodes as this record: unknown fields are tolerated.
pub open spec fn destiny_character_peer_view_wf(j: Json) -> bool {
    &&& j matches Json::Obj(fields)
    &&& match spec_lookup(fields, "equipment"@) { Option::None => false, Some(Json::Arr(items)) => forall|i: int| 0 <= i < items.len() ==> destiny_item_peer_view_wf(#[trigger] items[i]), _ => false }
}

/// How a decoded record relates to the document it came from.
pub open spec fn destiny_character_peer_view_fields_match(fields: Seq<(Seq<char>, Json)>, w: DestinyCharacterPeerView) -> bool {
    &&& match spec_lookup(fields, "equipment"@) { Option::None => false, Some(Json::Arr(items)) => w.equipment@.len() == items.len() && (forall|i: int| 0 <= i < items.len() ==> ((#[trigger] items[i]) matches Json::Obj(f2) && destiny_item_peer_view_fields_match(f2, w.equipment@[i]))), _ => false }
}

/// What a decode failure names: its path points at a field of the
/// document that is indeed not decodable, and an undeclared
/// enumeration code is reported with the enumeration's own message.
pub open spec fn destiny_character_peer_view_err_ok(j: Json, e: DecodeError) -> bool {
    &&& !(j matches Json::Obj(_)) ==> e.path@.len() == 0
    &&& j matches Json::Obj(fields) ==> (
        ((e.path@ == "equipment"@ || spec_starts_with(e.path@, "equipment"@)) && !(match spec_lookup(fields, "equipment"@) { Option::None => false, Some(Json::Arr(items)) => forall|i: int| 0 <= i < items.len() ==> destiny_item_peer_view_wf(#[trigger] items[i]), _ => false })))
}

pub fn encode_destiny_character_peer_view(v: &DestinyCharacterPeerView) -> (r: JsonValue)
    ensures
        jview(r) == destiny_character_peer_view_json(*v),
{
    let mut fields: Vec<(String, JsonValue)> = Vec::new();
    let arr_equipment = {
        let mut items: Vec<JsonValue> = Vec::new();
        let mut i: usize = 0;
        while i < v.equipment.len()
            invariant
                i <= v.equipment.len(),
                items@.len() == i,
                forall|k: int| 0 <= k < i ==> jview(#[trigger] items@[k]) == destiny_item_peer_view_json(v.equipment@[k]),
            decreases v.equipment.len() - i,
        {
            items.push(encode_destiny_item_peer_view(&v.equipment[i]));
            i = i + 1;
        }
        JsonValue::Arr(items)
    };
    proof {
        assert(jview(arr_equipment)->Arr_0 =~= destiny_character_peer_view_json(*v)->Obj_0[0].1->Arr_0);
    }
    fields.push(("equipment".to_owned(), arr_equipment));
    let r = JsonValue::Obj(fields);
    proof {
        assert(jview(fields@[0].1) == destiny_character_peer_view_json(*v)->Obj_0[0].1);
        assert(jview(r)->Obj_0 =~= destiny_character_peer_view_json(*v)->Obj_0);
    }
    r
}

/// Decodes this record; a failure names the offending field in its
/// path and says what was expected of it.
#[verifier::loop_isolation(false)]
pub fn decode_destiny_character_peer_view(j: &JsonValue) -> (r: Result<DestinyCharacterPeerView, DecodeError>)
    ensures
        r is Ok <==> destiny_character_peer_view_wf(jview(*j)),
        r matches Ok(w) ==> (jview(*j) matches Json::Obj(fields)
            && destiny_character_peer_view_fields_match(fields, w)),
        r matches Err(e) ==> destiny_character_peer_view_err_ok(jview(*j), e),
{
    let fields = match j {
        JsonValue::Obj(fields) => fields,
        _ => {
            return Err(root_error("an object"));
        },
    };
    let ghost gf = jview(*j)->Obj_0;
    let equipment = match j.get("equipment") {
        Option::None => {
            return Err(field_error("equipment", "an array"));
        },
        Some(arr) => match arr {
            JsonValue::Arr(items) => {
                let ghost gitems = jview(*arr)->Arr_0;
                let mut out: Vec<DestinyItemPeerView> = Vec::new();
                let mut i: usize = 0;
                while i < items.len()
                    invariant
                        i <= items.len(),
                        out@.len() == i,
                        forall|k: int| 0 <= k < i
                            ==> (destiny_item_peer_view_wf(#[trigger] gitems[k])
                                && (gitems[k] matches Json::Obj(f2)
                                && destiny_item_peer_view_fields_match(f2, out@[k]))),
                    decreases items.len() - i,
                {
                    proof {
                        assert(gitems[i as int] == jview(items@[i as int]));
                    }
                    match decode_destiny_item_peer_view(&items[i]) {
                        Ok(r) => {
                            out.push(r);
                        },
                        Err(e) => {
                            return Err(indexed_error("equipment", i, e));
                        },
                    }
                    i = i + 1;
                }
                out
            },
            _ => {
                return Err(field_error("equipment", "an array"));
            },
        },
    };
    Ok(DestinyCharacterPeerView { equipment })
}

/// The wire image of a record is well formed and matched by the
/// record itself: encoding loses nothing that decoding reads.
pub proof fn lemma_destiny_character_peer_view_image(v: DestinyCharacterPeerView)
    ensures
        destiny_character_peer_view_wf(destiny_character_peer_view_json(v)),
        destiny_character_peer_view_json(v) matches Json::Obj(fields) && destiny_character_peer_view_fields_match(fields, v),
{
    reveal_strlit("equipment");
    let fields = destiny_character_peer_view_json(v)->Obj_0;
    assert("equipment"@.len() == 9);
    lemma_lookup_at(fields, 0);
    assert forall|i: int| 0 <= i < v.equipment@.len()
        implies (destiny_item_peer_view_wf(#[trigger] fields[0].1->Arr_0[i])
            && (fields[0].1->Arr_0[i] matches Json::Obj(f2)
            && destiny_item_peer_view_fields_match(f2, v.equipment@[i]))) by {
        assert(fields[0].1->Arr_0[i] == destiny_item_peer_view_json(v.equipment@[i]));
        lemma_destiny_item_peer_view_image(v.equipment@[i]);
    }
}

/// Decoding the encoded image of a record yields a record whose
/// every field carries the same content as the one encoded.
pub proof fn lemma_destiny_character_peer_view_round_trip(v: DestinyCharacterPeerView, w: DestinyCharacterPeerView)
    requires
        destiny_character_peer_view_json(v) matches Json::Obj(fields) && destiny_character_peer_view_fields_match(fields, w),
    ensures
        destiny_character_peer_view_wf(destiny_character_peer_view_json(v)),
        w.equipment@.len() == v.equipment@.len(),
        forall|i: int| 0 <= i < v.equipment@.len() ==> (destiny_item_peer_view_json(v.equipment@[i]) matches Json::Obj(f2) && destiny_item_peer_view_fields_match(f2, #[trigger] w.equipment@[i])),
{
    lemma_destiny_character_peer_view_image(v);
    let fields = destiny_character_peer_view_json(v)->Obj_0;
    reveal_strlit("equipment");
    assert("equipment"@.len() == 9);
    lemma_lookup_at(fields, 0);
    assert forall|i: int| 0 <= i < v.equipment@.len()
        implies (destiny_item_peer_view_json(v.equipment@[i]) matches Json::Obj(f2)
            && destiny_item_peer_view_fields_match(f2, #[trigger] w.equipment@[i])) by {
        assert(fields[0].1->Arr_0[i] == destiny_item_peer_view_json(v.equipment@[i]));
        lemma_destiny_item_peer_view_image(v.equipment@[i]);
    }
}

/// The wire image of this record.
pub open spec fn destiny_character_customization_json(v: DestinyCharacterCustomization) -> Json {
    Json::Obj(
        seq![
            ("personality"@, Json::Int(v.personality as int)),
            ("face"@, Json::Int(v.face as int)),
            ("skinColor"@, Json::Int(v.skin_color as int)),
            ("lipColor"@, Json::Int(v.lip_color as int)),
            ("eyeColor"@, Json::Int(v.eye_color as int)),
            ("hairColors"@, Json::Arr(Seq::new(v.hair_colors@.len(), |i: int| if 0 <= i < v.hair_colors@.len() { Json::Int(v.hair_colors@[i] as int) } else { Json::Null }))),
            ("featureColors"@, Json::Arr(Seq::new(v.feature_colors@.len(), |i: int| if 0 <= i < v.feature_colors@.len() { Json::Int(v.feature_colors@[i] as int) } else { Json::Null }))),
            ("decalColor"@, Json::Int(v.decal_color as int)),
            ("wearHelmet"@, Json::Bool(v.wear_helmet)),
            ("hairIndex"@, Json::Int(v.hair_index as int)),
            ("featureIndex"@, Json::Int(v.feature_index as int)),
            ("decalIndex"@, Json::Int(v.decal_index as int)),
        ],
    )
}

/// Whether a document decodes as this record: an object with exactly these fields.
pub open spec fn destiny_character_customization_wf(j: Json) -> bool {
    &&& j matches Json::Obj(fields)
    &&& spec_lookup(fields, "personality"@) matches Some(Json::Int(n)) && 0 <= n <= u32::MAX as int
    &&& spec_lookup(fields, "face"@) matches Some(Json::Int(n)) && 0 <= n <= u32::MAX as int
    &&& spec_lookup(fields, "skinColor"@) matches Some(Json::Int(n)) && 0 <= n <= u32::MAX as int
    &&& spec_lookup(fields, "lipColor"@) matches Some(Json::Int(n)) && 0 <= n <= u32::MAX as int
    &&& spec_lookup(fields, "eyeColor"@) matches Some(Json::Int(n)) && 0 <= n <= u32::MAX as int
    &&& match spec_lookup(fields, "hairColors"@) { Option::None => false, Some(Json::Arr(items)) => forall|i: int| 0 <= i < items.len() ==> ((#[trigger] items[i]) matches Json::Int(n) && 0 <= n <= u32::MAX as int), _ => false }
    &&& match spec_lookup(fields, "featureColors"@) { Option::None => false, Some(Json::Arr(items)) => forall|i: int| 0 <= i < items.len() ==> ((#[trigger] items[i]) matches Json::Int(n) && 0 <= n <= u32::MAX as int), _ => false }
    &&& spec_lookup(fields, "decalColor"@) matches Some(Json::Int(n)) && 0 <= n <= u32::MAX as int
    &&& spec_lookup(fields, "wearHelmet"@) matches Some(Json::Bool(_))
    &&& spec_lookup(fields, "hairIndex"@) matches Some(Json::Int(n)) && i32::MIN as int <= n <= i32::MAX as int
    &&& spec_lookup(fields, "featureIndex"@) matches Some(Json::Int(n)) && i32::MIN as int <= n <= i32::MAX as int
    &&& spec_lookup(fields, "decalIndex"@) matches Some(Json::Int(n)) && i32::MIN as int <= n <= i32::MAX as int
    &&& forall|i: int| 0 <= i < fields.len()
        ==> ((#[trigger] fields[i]).0 == "personality"@ || fields[i].0 == "face"@ || fields[i].0 == "skinColor"@ || fields[i].0 == "lipColor"@ || fields[i].0 == "eyeColor"@ || fields[i].0 == "hairColors"@ || fields[i].0 == "featureColors"@ || fields[i].0 == "decalColor"@ || fields[i].0 == "wearHelmet"@ || fields[i].0 == "hairIndex"@ || fields[i].0 == "featureIndex"@ || fields[i].0 == "decalIndex"@)
}

/// How a decoded record relates to the document it came from.
pub open spec fn destiny_character_customization_fields_match(fields: Seq<(Seq<char>, Json)>, w: DestinyCharacterCustomization) -> bool {
    &&& spec_lookup(fields, "personality"@) == Some(Json::Int(w.personality as int))
    &&& spec_lookup(fields, "face"@) == Some(Json::Int(w.face as int))
    &&& spec_lookup(fields, "skinColor"@) == Some(Json::Int(w.skin_color as int))
    &&& spec_lookup(fields, "lipColor"@) == Some(Json::Int(w.lip_color as int))
    &&& spec_lookup(fields, "eyeColor"@) == Some(Json::Int(w.eye_color as int))
    &&& match spec_lookup(fields, "hairColors"@) { Option::None => false, Some(Json::Arr(items)) => w.hair_colors@.len() == items.len() && (forall|i: int| 0 <= i < items.len() ==> (#[trigger] items[i]) == Json::Int(w.hair_colors@[i] as int)), _ => false }
    &&& match spec_lookup(fields, "featureColors"@) { Option::None => false, Some(Json::Arr(items)) => w.feature_colors@.len() == items.len() && (forall|i: int| 0 <= i < items.len() ==> (#[trigger] items[i]) == Json::Int(w.feature_colors@[i] as int)), _ => false }
    &&& spec_lookup(fields, "decalColor"@) == Some(Json::Int(w.decal_color as int))
    &&& spec_lookup(fields, "wearHelmet"@) == Some(Json::Bool(w.wear_helmet))
    &&& spec_lookup(fields, "hairIndex"@) == Some(Json::Int(w.hair_index as int))
    &&& spec_lookup(fields, "featureIndex"@) == Some(Json::Int(w.feature_index as int))
    &&& spec_lookup(fields, "decalIndex"@) == Some(Json::Int(w.decal_index as int))
}

/// What a decode failure names: its path points at a field of the
/// document that is indeed not decodable, and an undeclared
/// enumeration code is reported with the enumeration's own message.
pub open spec fn destiny_character_customization_err_ok(j: Json, e: DecodeError) -> bool {
    &&& !(j matches Json::Obj(_)) ==> e.path@.len() == 0
    &&& j matches Json::Obj(fields) ==> (
        (e.path@ == "personality"@ && !(spec_lookup(fields, "personality"@) matches Some(Json::Int(n)) && 0 <= n <= u32::MAX as int))
        || (e.path@ == "face"@ && !(spec_lookup(fields, "face"@) matches Some(Json::Int(n)) && 0 <= n <= u32::MAX as int))
        || (e.path@ == "skinColor"@ && !(spec_lookup(fields, "skinColor"@) matches Some(Json::Int(n)) && 0 <= n <= u32::MAX as int))
        || (e.path@ == "lipColor"@ && !(spec_lookup(fields, "lipColor"@) matches Some(Json::Int(n)) && 0 <= n <= u32::MAX as int))
        || (e.path@ == "eyeColor"@ && !(spec_lookup(fields, "eyeColor"@) matches Some(Json::Int(n)) && 0 <= n <= u32::MAX as int))
        || ((e.path@ == "hairColors"@ || spec_starts_with(e.path@, "hairColors"@)) && !(match spec_lookup(fields, "hairColors"@) { Option::None => false, Some(Json::Arr(items)) => forall|i: int| 0 <= i < items.len() ==> ((#[trigger] items[i]) matches Json::Int(n) && 0 <= n <= u32::MAX as int), _ => false }))
        || ((e.path@ == "featureColors"@ || spec_starts_with(e.path@, "featureColors"@)) && !(match spec_lookup(fields, "featureColors"@) { Option::None => false, Some(Json::Arr(items)) => forall|i: int| 0 <= i < items.len() ==> ((#[trigger] items[i]) matches Json::Int(n) && 0 <= n <= u32::MAX as int), _ => false }))
        || (e.path@ == "decalColor"@ && !(spec_lookup(fields, "decalColor"@) matches Some(Json::Int(n)) && 0 <= n <= u32::MAX as int))
        || (e.path@ == "wearHelmet"@ && !(spec_lookup(fields, "wearHelmet"@) matches Some(Json::Bool(_))))
        || (e.path@ == "hairIndex"@ && !(spec_lookup(fields, "hairIndex"@) matches Some(Json::Int(n)) && i32::MIN as int <= n <= i32::MAX as int))
        || (e.path@ == "featureIndex"@ && !(spec_lookup(fields, "featureIndex"@) matches Some(Json::Int(n)) && i32::MIN as int <= n <= i32::MAX as int))
        || (e.path@ == "decalIndex"@ && !(spec_lookup(fields, "decalIndex"@) matches Some(Json::Int(n)) && i32::MIN as int <= n <= i32::MAX as int))
        || (exists|i: int| 0 <= i < fields.len() && (#[trigger] fields[i]).0 == e.path@ && !((fields[i].0 == "personality"@ || fields[i].0 == "face"@ || fields[i].0 == "skinColor"@ || fields[i].0 == "lipColor"@ || fields[i].0 == "eyeColor"@ || fields[i].0 == "hairColors"@ || fields[i].0 == "featureColors"@ || fields[i].0 == "decalColor"@ || fields[i].0 == "wearHelmet"@ || fields[i].0 == "hairIndex"@ || fields[i].0 == "featureIndex"@ || fields[i].0 == "decalIndex"@))))
}

pub fn encode_destiny_character_customization(v: &DestinyCharacterCustomization) -> (r: JsonValue)
    ensures
        jview(r) == destiny_character_customization_json(*v),
{
    let mut fields: Vec<(String, JsonValue)> = Vec::new();
    fields.push(("personality".to_owned(), JsonValue::Int(v.personality as i64)));
    fields.push(("face".to_owned(), JsonValue::Int(v.face as i64)));
    fields.push(("skinColor".to_owned(), JsonValue::Int(v.skin_color as i64)));
    fields.push(("lipColor".to_owned(), JsonValue::Int(v.lip_color as i64)));
    fields.push(("eyeColor".to_owned(), JsonValue::Int(v.eye_color as i64)));
    let arr_hair_colors = {
        let mut items: Vec<JsonValue> = Vec::new();
        let mut i: usize = 0;
        while i < v.hair_colors.len()
            invariant
                i <= v.hair_colors.len(),
                items@.len() == i,
                forall|k: int| 0 <= k < i ==> jview(#[trigger] items@[k]) == Json::Int(v.hair_colors@[k] as int),
            decreases v.hair_colors.len() - i,
        {
            items.push(JsonValue::Int(v.hair_colors[i] as i64));
            i = i + 1;
        }
        JsonValue::Arr(items)
    };
    proof {
        assert(jview(arr_hair_colors)->Arr_0 =~= destiny_character_customization_json(*v)->Obj_0[5].1->Arr_0);
    }
    fields.push(("hairColors".to_owned(), arr_hair_colors));
    let arr_feature_colors = {
        let mut items: Vec<JsonValue> = Vec::new();
        let mut i: usize = 0;
        while i < v.feature_colors.len()
            invariant
                i <= v.feature_colors.len(),
                items@.len() == i,
                forall|k: int| 0 <= k < i ==> jview(#[trigger] items@[k]) == Json::Int(v.feature_colors@[k] as int),
            decreases v.feature_colors.len() - i,
        {
            items.push(JsonValue::Int(v.feature_colors[i] as i64));
            i = i + 1;
        }
        JsonValue::Arr(items)
    };
    proof {
        assert(jview(arr_feature_colors)->Arr_0 =~= destiny_character_customization_json(*v)->Obj_0[6].1->Arr_0);
    }
    fields.push(("featureColors".to_owned(), arr_feature_colors));
    fields.push(("decalColor".to_owned(), JsonValue::Int(v.decal_color as i64)));
    fields.push(("wearHelmet".to_owned(), JsonValue::Bool(v.wear_helmet)));
    fields.push(("hairIndex".to_owned(), JsonValue::Int(v.hair_index as i64)));
    fields.push(("featureIndex".to_owned(), JsonValue::Int(v.feature_index as i64)));
    fields.push(("decalIndex".to_owned(), JsonValue::Int(v.decal_index as i64)));
    let r = JsonValue::Obj(fields);
    proof {
        assert(jview(fields@[0].1) == destiny_character_customization_json(*v)->Obj_0[0].1);
        assert(jview(fields@[1].1) == destiny_character_customization_json(*v)->Obj_0[1].1);
        assert(jview(fields@[2].1) == destiny_character_customization_json(*v)->Obj_0[2].1);
        assert(jview(fields@[3].1) == destiny_character_customization_json(*v)->Obj_0[3].1);
        assert(jview(fields@[4].1) == destiny_character_customization_json(*v)->Obj_0[4].1);
        assert(jview(fields@[5].1) == destiny_character_customization_json(*v)->Obj_0[5].1);
        assert(jview(fields@[6].1) == destiny_character_customization_json(*v)->Obj_0[6].1);
        assert(jview(fields@[7].1) == destiny_character_customization_json(*v)->Obj_0[7].1);
        assert(jview(fields@[8].1) == destiny_character_customization_json(*v)->Obj_0[8].1);
        assert(jview(fields@[9].1) == destiny_character_customization_json(*v)->Obj_0[9].1);
        assert(jview(fields@[10].1) == destiny_character_customization_json(*v)->Obj_0[10].1);
        assert(jview(fields@[11].1) == destiny_character_customization_json(*v)->Obj_0[11].1);
        assert(jview(r)->Obj_0 =~= destiny_character_customization_json(*v)->Obj_0);
    }
    r
}

/// Decodes this record; a failure names the offending field in its
/// path and says what was expected of it.
#[verifier::loop_isolation(false)]
#[verifier::rlimit(60)]
pub fn decode_destiny_character_customization(j: &JsonValue) -> (r: Result<DestinyCharacterCustomization, DecodeError>)
    ensures
        r is Ok <==> destiny_character_customization_wf(jview(*j)),
        r matches Ok(w) ==> (jview(*j) matches Json::Obj(fields)
            && destiny_character_customization_fields_match(fields, w)),
        r matches Err(e) ==> destiny_character_customization_err_ok(jview(*j), e),
{
    let fields = match j {
        JsonValue::Obj(fields) => fields,
        _ => {
            return Err(root_error("an object"));
        },
    };
    let ghost gf = jview(*j)->Obj_0;
    let personality = match j.get("personality") {
        Some(v) => match v.to_i64() {
            Some(n) if 0 <= n && n <= u32::MAX as i64 => n as u32,
            _ => {
                return Err(field_error("personality", "a 32-bit unsigned integer"));
            },
        },
        _ => {
            return Err(field_error("personality", "a 32-bit unsigned integer"));
        },
    };
    let face = match j.get("face") {
        Some(v) => match v.to_i64() {
            Some(n) if 0 <= n && n <= u32::MAX as i64 => n as u32,
            _ => {
                return Err(field_error("face", "a 32-bit unsigned integer"));
            },
        },
        _ => {
            return Err(field_error("face", "a 32-bit unsigned integer"));
        },
    };
    let skin_color = match j.get("skinColor") {
        Some(v) => match v.to_i64() {
            Some(n) if 0 <= n && n <= u32::MAX as i64 => n as u32,
            _ => {
                return Err(field_error("skinColor", "a 32-bit unsigned integer"));
            },
        },
        _ => {
            return Err(field_error("skinColor", "a 32-bit unsigned integer"));
        },
    };
    let lip_color = match j.get("lipColor") {
        Some(v) => match v.to_i64() {
            Some(n) if 0 <= n && n <= u32::MAX as i64 => n as u32,
            _ => {
                return Err(field_error("lipColor", "a 32-bit unsigned integer"));
            },
        },
        _ => {
            return Err(field_error("lipColor", "a 32-bit unsigned integer"));
        },
    };
    let eye_color = match j.get("eyeColor") {
        Some(v) => match v.to_i64() {
            Some(n) if 0 <= n && n <= u32::MAX as i64 => n as u32,
            _ => {
                return Err(field_error("eyeColor", "a 32-bit unsigned integer"));
            },
        },
        _ => {
            return Err(field_error("eyeColor", "a 32-bit unsigned integer"));
        },
    };
    let hair_colors = match j.get("hairColors") {
        Option::None => {
            return Err(field_error("hairColors", "an array"));
        },
        Some(arr) => match arr {
            JsonValue::Arr(items) => {
                let ghost gitems = jview(*arr)->Arr_0;
                let mut out: Vec<u32> = Vec::new();
                let mut i: usize = 0;
                while i < items.len()
                    invariant
                        i <= items.len(),
                        out@.len() == i,
                        forall|k: int| 0 <= k < i ==> (#[trigger] gitems[k]) == Json::Int(out@[k] as int),
                    decreases items.len() - i,
                {
                    proof {
                        assert(gitems[i as int] == jview(items@[i as int]));
                    }
                    let n = match items[i].to_i64() {
                        Some(n) if 0 <= n && n <= u32::MAX as i64 => n,
                        _ => {
                            return Err(indexed_error("hairColors", i, field_error("", "a 32-bit unsigned integer")));
                        },
                    };
                    out.push(n as u32);
                    i = i + 1;
                }
                out
            },
            _ => {
                return Err(field_error("hairColors", "an array"));
            },
        },
    };
    let feature_colors = match j.get("featureColors") {
        Option::None => {
            return Err(field_error("featureColors", "an array"));
        },
        Some(arr) => match arr {
            JsonValue::Arr(items) => {
                let ghost gitems = jview(*arr)->Arr_0;
                let mut out: Vec<u32> = Vec::new();
                let mut i: usize = 0;
                while i < items.len()
                    invariant
                        i <= items.len(),
                        out@.len() == i,
                        forall|k: int| 0 <= k < i ==> (#[trigger] gitems[k]) == Json::Int(out@[k] as int),
                    decreases items.len() - i,
                {
                    proof {
                        assert(gitems[i as int] == jview(items@[i as int]));
                    }
                    let n = match items[i].to_i64() {
                        Some(n) if 0 <= n && n <= u32::MAX as i64 => n,
                        _ => {
                            return Err(indexed_error("featureColors", i, field_error("", "a 32-bit unsigned integer")));
                        },
                    };
                    out.push(n as u32);
                    i = i + 1;
                }
                out
            },
            _ => {
                return Err(field_error("featureColors", "an array"));
            },
        },
    };
    let decal_color = match j.get("decalColor") {
        Some(v) => match v.to_i64() {
            Some(n) if 0 <= n && n <= u32::MAX as i64 => n as u32,
            _ => {
                return Err(field_error("decalColor", "a 32-bit unsigned integer"));
            },
        },
        _ => {
            return Err(field_error("decalColor", "a 32-bit unsigned integer"));
        },
    };
    let wear_helmet = match j.get("wearHelmet") {
        Some(JsonValue::Bool(b)) => *b,
        _ => {
            return Err(field_error("wearHelmet", "a boolean"));
        },
    };
    let hair_index = match j.get("hairIndex") {
        Some(v) => match v.to_i64() {
            Some(n) if i32::MIN as i64 <= n && n <= i32::MAX as i64 => n as i32,
            _ => {
                return Err(field_error("hairIndex", "a 32-bit integer"));
            },
        },
        _ => {
            return Err(field_error("hairIndex", "a 32-bit integer"));
        },
    };
    let feature_index = match j.get("featureIndex") {
        Some(v) => match v.to_i64() {
            Some(n) if i32::MIN as i64 <= n && n <= i32::MAX as i64 => n as i32,
            _ => {
                return Err(field_error("featureIndex", "a 32-bit integer"));
            },
        },
        _ => {
            return Err(field_error("featureIndex", "a 32-bit integer"));
        },
    };
    let decal_index = match j.get("decalIndex") {
        Some(v) => match v.to_i64() {
            Some(n) if i32::MIN as i64 <= n && n <= i32::MAX as i64 => n as i32,
            _ => {
                return Err(field_error("decalIndex", "a 32-bit integer"));
            },
        },
        _ => {
            return Err(field_error("decalIndex", "a 32-bit integer"));
        },
    };
    let mut i: usize = 0;
    while i < fields.len()
        invariant
            i <= fields.len(),
            gf.len() == fields@.len(),
            forall|k: int| 0 <= k < gf.len()
                ==> #[trigger] gf[k] == (fields@[k].0@, jview(fields@[k].1)),
            forall|k: int| 0 <= k < i
                ==> ((#[trigger] gf[k]).0 == "personality"@ || gf[k].0 == "face"@ || gf[k].0 == "skinColor"@ || gf[k].0 == "lipColor"@ || gf[k].0 == "eyeColor"@ || gf[k].0 == "hairColors"@ || gf[k].0 == "featureColors"@ || gf[k].0 == "decalColor"@ || gf[k].0 == "wearHelmet"@ || gf[k].0 == "hairIndex"@ || gf[k].0 == "featureIndex"@ || gf[k].0 == "decalIndex"@),
        decreases fields.len() - i,
    {
        let name = fields[i].0.as_str();
        if !(str_eq(name, "personality") || str_eq(name, "face") || str_eq(name, "skinColor") || str_eq(name, "lipColor") || str_eq(name, "eyeColor") || str_eq(name, "hairColors") || str_eq(name, "featureColors") || str_eq(name, "decalColor") || str_eq(name, "wearHelmet") || str_eq(name, "hairIndex") || str_eq(name, "featureIndex") || str_eq(name, "decalIndex")) {
            proof {
                assert(gf[i as int].0 == fields@[i as int].0@);
                assert(!destiny_character_customization_wf(jview(*j)));
            }
            return Err(field_error(fields[i].0.as_str(), "an unknown field"));
        }
        i = i + 1;
    }
    Ok(DestinyCharacterCustomization { personality, face, skin_color, lip_color, eye_color, hair_colors, feature_colors, decal_color, wear_helmet, hair_index, feature_index, decal_index })
}

/// The wire image of a record is well formed and matched by the
/// record itself: encoding loses nothing that decoding reads.
#[verifier::rlimit(60)]
pub proof fn lemma_destiny_character_customization_image(v: DestinyCharacterCustomization)
    ensures
        destiny_character_customization_wf(destiny_character_customization_json(v)),
        destiny_character_customization_json(v) matches Json::Obj(fields) && destiny_character_customization_fields_match(fields, v),
{
    reveal_strlit("personality");
    reveal_strlit("face");
    reveal_strlit("skinColor");
    reveal_strlit("lipColor");
    reveal_strlit("eyeColor");
    reveal_strlit("hairColors");
    reveal_strlit("featureColors");
    reveal_strlit("decalColor");
    reveal_strlit("wearHelmet");
    reveal_strlit("hairIndex");
    reveal_strlit("featureIndex");
    reveal_strlit("decalIndex");
    let fields = destiny_character_customization_json(v)->Obj_0;
    assert("personality"@.len() == 11);
    assert("face"@.len() == 4);
    assert("skinColor"@.len() == 9);
    assert("lipColor"@.len() == 8);
    assert("eyeColor"@.len() == 8);
    assert("hairColors"@.len() == 10);
    assert("featureColors"@.len() == 13);
    assert("decalColor"@.len() == 10);
    assert("wearHelmet"@.len() == 10);
    assert("hairIndex"@.len() == 9);
    assert("featureIndex"@.len() == 12);
    assert("decalIndex"@.len() == 10);
    assert("personality"@ != "face"@);
    assert("personality"@ != "skinColor"@);
    assert("personality"@ != "lipColor"@);
    assert("personality"@ != "eyeColor"@);
    assert("personality"@ != "hairColors"@);
    assert("personality"@ != "featureColors"@);
    assert("personality"@ != "decalColor"@);
    assert("personality"@ != "wearHelmet"@);
    assert("personality"@ != "hairIndex"@);
    assert("personality"@ != "featureIndex"@);
    assert("personality"@ != "decalIndex"@);
    assert("face"@ != "skinColor"@);
    assert("face"@ != "lipColor"@);
    assert("face"@ != "eyeColor"@);
    assert("face"@ != "hairColors"@);
    assert("face"@ != "featureColors"@);
    assert("face"@ != "decalColor"@);
    assert("face"@ != "wearHelmet"@);
    assert("face"@ != "hairIndex"@);
    assert("face"@ != "featureIndex"@);
    assert("face"@ != "decalIndex"@);
    assert("skinColor"@ != "lipColor"@);
    assert("skinColor"@ != "eyeColor"@);
    assert("skinColor"@ != "hairColors"@);
    assert("skinColor"@ != "featureColors"@);
    assert("skinColor"@ != "decalColor"@);
    assert("skinColor"@ != "wearHelmet"@);
    assert(("skinColor"@)[0] != ("hairIndex"@)[0]);
    assert("skinColor"@ != "hairIndex"@);
    assert("skinColor"@ != "featureIndex"@);
    assert("skinColor"@ != "decalIndex"@);
    assert(("lipColor"@)[0] != ("eyeColor"@)[0]);
    assert("lipColor"@ != "eyeColor"@);
    assert("lipColor"@ != "hairColors"@);
    assert("lipColor"@ != "featureColors"@);
    assert("lipColor"@ != "decalColor"@);
    assert("lipColor"@ != "wearHelmet"@);
    assert("lipColor"@ != "hairIndex"@);
    assert("lipColor"@ != "featureIndex"@);
    assert("lipColor"@ != "decalIndex"@);
    assert("eyeColor"@ != "hairColors"@);
    assert("eyeColor"@ != "featureColors"@);
    assert("eyeColor"@ != "decalColor"@);
    assert("eyeColor"@ != "wearHelmet"@);
    assert("eyeColor"@ != "hairIndex"@);
    assert("eyeColor"@ != "featureIndex"@);
    assert("eyeColor"@ != "decalIndex"@);
    assert("hairColors"@ != "featureColors"@);
    assert(("hairColors"@)[0] != ("decalColor"@)[0]);
    assert("hairColors"@ != "decalColor"@);
    assert(("hairColors"@)[0] != ("wearHelmet"@)[0]);
    assert("hairColors"@ != "wearHelmet"@);
    assert("hairColors"@ != "hairIndex"@);
    assert("hairColors"@ != "featureIndex"@);
    assert(("hairColors"@)[0] != ("decalIndex"@)[0]);
    assert("hairColors"@ != "decalIndex"@);
    assert("featureColors"@ != "decalColor"@);
    assert("featureColors"@ != "wearHelmet"@);
    assert("featureColors"@ != "hairIndex"@);
    assert("featureColors"@ != "featureIndex"@);
    assert("featureColors"@ != "decalIndex"@);
    assert(("decalColor"@)[0] != ("wearHelmet"@)[0]);
    assert("decalColor"@ != "wearHelmet"@);
    assert("decalColor"@ != "hairIndex"@);
    assert("decalColor"@ != "featureIndex"@);
    assert(("decalColor"@)[5] != ("decalIndex"@)[5]);
    assert("decalColor"@ != "decalIndex"@);
    assert("wearHelmet"@ != "hairIndex"@);
    assert("wearHelmet"@ != "featureIndex"@);
    assert(("wearHelmet"@)[0] != ("decalIndex"@)[0]);
    assert("wearHelmet"@ != "decalIndex"@);
    assert("hairIndex"@ != "featureIndex"@);
    assert("hairIndex"@ != "decalIndex"@);
    assert("featureIndex"@ != "decalIndex"@);
    lemma_lookup_at(fields, 0);
    lemma_lookup_at(fields, 1);
    lemma_lookup_at(fields, 2);
    lemma_lookup_at(fields, 3);
    lemma_lookup_at(fields, 4);
    lemma_lookup_at(fields, 5);
    lemma_lookup_at(fields, 6);
    lemma_lookup_at(fields, 7);
    lemma_lookup_at(fields, 8);
    lemma_lookup_at(fields, 9);
    lemma_lookup_at(fields, 10);
    lemma_lookup_at(fields, 11);
}

/// Decoding the encoded image of a record yields a record whose
/// every field carries the same content as the one encoded.
#[verifier::rlimit(60)]
pub proof fn lemma_destiny_character_customization_round_trip(v: DestinyCharacterCustomization, w: DestinyCharacterCustomization)
    requires
        destiny_character_customization_json(v) matches Json::Obj(fields) && destiny_character_customization_fields_match(fields, w),
    ensures
        destiny_character_customization_wf(destiny_character_customization_json(v)),
        w.personality == v.personality,
        w.face == v.face,
        w.skin_color == v.skin_color,
        w.lip_color == v.lip_color,
        w.eye_color == v.eye_color,
        w.hair_colors@ == v.hair_colors@,
        w.feature_colors@ == v.feature_colors@,
        w.decal_color == v.decal_color,
        w.wear_helmet == v.wear_helmet,
        w.hair_index == v.hair_index,
        w.feature_index == v.feature_index,
        w.decal_index == v.decal_index,
{
    lemma_destiny_character_customization_image(v);
    let fields = destiny_character_customization_json(v)->Obj_0;
    reveal_strlit("personality");
    reveal_strlit("face");
    reveal_strlit("skinColor");
    reveal_strlit("lipColor");
    reveal_strlit("eyeColor");
    reveal_strlit("hairColors");
    reveal_strlit("featureColors");
    reveal_strlit("decalColor");
    reveal_strlit("wearHelmet");
    reveal_strlit("hairIndex");
    reveal_strlit("featureIndex");
    reveal_strlit("decalIndex");
    assert("personality"@.len() == 11);
    assert("face"@.len() == 4);
    assert("skinColor"@.len() == 9);
    assert("lipColor"@.len() == 8);
    assert("eyeColor"@.len() == 8);
    assert("hairColors"@.len() == 10);
    assert("featureColors"@.len() == 13);
    assert("decalColor"@.len() == 10);
    assert("wearHelmet"@.len() == 10);
    assert("hairIndex"@.len() == 9);
    assert("featureIndex"@.len() == 12);
    assert("decalIndex"@.len() == 10);
    assert("personality"@ != "face"@);
    assert("personality"@ != "skinColor"@);
    assert("personality"@ != "lipColor"@);
    assert("personality"@ != "eyeColor"@);
    assert("personality"@ != "hairColors"@);
    assert("personality"@ != "featureColors"@);
    assert("personality"@ != "decalColor"@);
    assert("personality"@ != "wearHelmet"@);
    assert("personality"@ != "hairIndex"@);
    assert("personality"@ != "featureIndex"@);
    assert("personality"@ != "decalIndex"@);
    assert("face"@ != "skinColor"@);
    assert("face"@ != "lipColor"@);
    assert("face"@ != "eyeColor"@);
    assert("face"@ != "hairColors"@);
    assert("face"@ != "featureColors"@);
    assert("face"@ != "decalColor"@);
    assert("face"@ != "wearHelmet"@);
    assert("face"@ != "hairIndex"@);
    assert("face"@ != "featureIndex"@);
    assert("face"@ != "decalIndex"@);
    assert("skinColor"@ != "lipColor"@);
    assert("skinColor"@ != "eyeColor"@);
    assert("skinColor"@ != "hairColors"@);
    assert("skinColor"@ != "featureColors"@);
    assert("skinColor"@ != "decalColor"@);
    assert("skinColor"@ != "wearHelmet"@);
    assert(("skinColor"@)[0] != ("hairIndex"@)[0]);
    assert("skinColor"@ != "hairIndex"@);
    assert("skinColor"@ != "featureIndex"@);
    assert("skinColor"@ != "decalIndex"@);
    assert(("lipColor"@)[0] != ("eyeColor"@)[0]);
    assert("lipColor"@ != "eyeColor"@);
    assert("lipColor"@ != "hairColors"@);
    assert("lipColor"@ != "featureColors"@);
    assert("lipColor"@ != "decalColor"@);
    assert("lipColor"@ != "wearHelmet"@);
    assert("lipColor"@ != "hairIndex"@);
    assert("lipColor"@ != "featureIndex"@);
    assert("lipColor"@ != "decalIndex"@);
    assert("eyeColor"@ != "hairColors"@);
    assert("eyeColor"@ != "featureColors"@);
    assert("eyeColor"@ != "decalColor"@);
    assert("eyeColor"@ != "wearHelmet"@);
    assert("eyeColor"@ != "hairIndex"@);
    assert("eyeColor"@ != "featureIndex"@);
    assert("eyeColor"@ != "decalIndex"@);
    assert("hairColors"@ != "featureColors"@);
    assert(("hairColors"@)[0] != ("decalColor"@)[0]);
    assert("hairColors"@ != "decalColor"@);
    assert(("hairColors"@)[0] != ("wearHelmet"@)[0]);
    assert("hairColors"@ != "wearHelmet"@);
    assert("hairColors"@ != "hairIndex"@);
    assert("hairColors"@ != "featureIndex"@);
    assert(("hairColors"@)[0] != ("decalIndex"@)[0]);
    assert("hairColors"@ != "decalIndex"@);
    assert("featureColors"@ != "decalColor"@);
    assert("featureColors"@ != "wearHelmet"@);
    assert("featureColors"@ != "hairIndex"@);
    assert("featureColors"@ != "featureIndex"@);
    assert("featureColors"@ != "decalIndex"@);
    assert(("decalColor"@)[0] != ("wearHelmet"@)[0]);
    assert("decalColor"@ != "wearHelmet"@);
    assert("decalColor"@ != "hairIndex"@);
    assert("decalColor"@ != "featureIndex"@);
    assert(("decalColor"@)[5] != ("decalIndex"@)[5]);
    assert("decalColor"@ != "decalIndex"@);
    assert("wearHelmet"@ != "hairIndex"@);
    assert("wearHelmet"@ != "featureIndex"@);
    assert(("wearHelmet"@)[0] != ("decalIndex"@)[0]);
    assert("wearHelmet"@ != "decalIndex"@);
    assert("hairIndex"@ != "featureIndex"@);
    assert("hairIndex"@ != "decalIndex"@);
    assert("featureIndex"@ != "decalIndex"@);
    lemma_lookup_at(fields, 0);
    lemma_lookup_at(fields, 1);
    lemma_lookup_at(fields, 2);
    lemma_lookup_at(fields, 3);
    lemma_lookup_at(fields, 4);
    lemma_lookup_at(fields, 5);
    lemma_lookup_at(fields, 6);
    lemma_lookup_at(fields, 7);
    lemma_lookup_at(fields, 8);
    lemma_lookup_at(fields, 9);
    lemma_lookup_at(fields, 10);
    lemma_lookup_at(fields, 11);
    assert(w.hair_colors@ =~= v.hair_colors@) by {
        assert forall|i: int| 0 <= i < v.hair_colors@.len()
            implies #[trigger] w.hair_colors@[i] == v.hair_colors@[i] by {
            assert(spec_lookup(fields, "hairColors"@) matches Some(Json::Arr(items))
                && (items[i] == Json::Int(v.hair_colors@[i] as int)
                && items[i] == Json::Int(w.hair_colors@[i] as int)));
        }
    }
    assert(w.feature_colors@ =~= v.feature_colors@) by {
        assert forall|i: int| 0 <= i < v.feature_colors@.len()
            implies #[trigger] w.feature_colors@[i] == v.feature_colors@[i] by {
            assert(spec_lookup(fields, "featureColors"@) matches Some(Json::Arr(items))
                && (items[i] == Json::Int(v.feature_colors@[i] as int)
                && items[i] == Json::Int(w.feature_colors@[i] as int)));
        }
    }
}

/// The wire image of this record.
pub open spec fn destiny_artifact_tier_json(v: DestinyArtifactTier) -> Json {
    Json::Obj(
        seq![
            ("tierHash"@, Json::Int(v.tier_hash as int)),
            ("isUnlocked"@, Json::Bool(v.is_unlocked)),
            ("pointsToUnlock"@, Json::Int(v.points_to_unlock as int)),
            ("items"@, Json::Arr(Seq::new(v.items@.len(), |i: int| if 0 <= i < v.items@.len() { destiny_artifact_tier_item_json(v.items@[i]) } else { Json::Null }))),
        ],
    )
}

/// Whether a document decodes as this record: an object with exactly these fields.
pub open spec fn destiny_artifact_tier_wf(j: Json) -> bool {
    &&& j matches Json::Obj(fields)
    &&& spec_lookup(fields, "tierHash"@) matches Some(Json::Int(n)) && 0 <= n <= u32::MAX as int
    &&& spec_lookup(fields, "isUnlocked"@) matches Some(Json::Bool(_))
    &&& spec_lookup(fields, "pointsToUnlock"@) matches Some(Json::Int(n)) && i32::MIN as int <= n <= i32::MAX as int
    &&& match spec_lookup(fields, "items"@) { Option::None => false, Some(Json::Arr(items)) => forall|i: int| 0 <= i < items.len() ==> destiny_artifact_tier_item_wf(#[trigger] items[i]), _ => false }
    &&& forall|i: int| 0 <= i < fields.len()
        ==> ((#[trigger] fields[i]).0 == "tierHash"@ || fields[i].0 == "isUnlocked"@ || fields[i].0 == "pointsToUnlock"@ || fields[i].0 == "items"@)
}

/// How a decoded record relates to the document it came from.
pub open spec fn destiny_artifact_tier_fields_match(fields: Seq<(Seq<char>, Json)>, w: DestinyArtifactTier) -> bool {
    &&& spec_lookup(fields, "tierHash"@) == Some(Json::Int(w.tier_hash as int))
    &&& spec_lookup(fields, "isUnlocked"@) == Some(Json::Bool(w.is_unlocked))
    &&& spec_lookup(fields, "pointsToUnlock"@) == Some(Json::Int(w.points_to_unlock as int))
    &&& match spec_lookup(fields, "items"@) { Option::None => false, Some(Json::Arr(items)) => w.items@.len() == items.len() && (forall|i: int| 0 <= i < items.len() ==> ((#[trigger] items[i]) matches Json::Obj(f2) && destiny_artifact_tier_item_fields_match(f2, w.items@[i]))), _ => false }
}

/// What a decode failure names: its path points at a field of the
/// document that is indeed not decodable, and an undeclared
/// enumeration code is reported with the enumeration's own message.
pub open spec fn destiny_artifact_tier_err_ok(j: Json, e: DecodeError) -> bool {
    &&& !(j matches Json::Obj(_)) ==> e.path@.len() == 0
    &&& j matches Json::Obj(fields) ==> (
        (e.path@ == "tierHash"@ && !(spec_lookup(fields, "tierHash"@) matches Some(Json::Int(n)) && 0 <= n <= u32::MAX as int))
        || (e.path@ == "isUnlocked"@ && !(spec_lookup(fields, "isUnlocked"@) matches Some(Json::Bool(_))))
        || (e.path@ == "pointsToUnlock"@ && !(spec_lookup(fields, "pointsToUnlock"@) matches Some(Json::Int(n)) && i32::MIN as int <= n <= i32::MAX as int))
        || ((e.path@ == "items"@ || spec_starts_with(e.path@, "items"@)) && !(match spec_lookup(fields, "items"@) { Option::None => false, Some(Json::Arr(items)) => forall|i: int| 0 <= i < items.len() ==> destiny_artifact_tier_item_wf(#[trigger] items[i]), _ => false }))
        || (exists|i: int| 0 <= i < fields.len() && (#[trigger] fields[i]).0 == e.path@ && !((fields[i].0 == "tierHash"@ || fields[i].0 == "isUnlocked"@ || fields[i].0 == "pointsToUnlock"@ || fields[i].0 == "items"@))))
}

pub fn encode_destiny_artifact_tier(v: &DestinyArtifactTier) -> (r: JsonValue)
    ensures
        jview(r) == destiny_artifact_tier_json(*v),
{
    let mut fields: Vec<(String, JsonValue)> = Vec::new();
    fields.push(("tierHash".to_owned(), JsonValue::Int(v.tier_hash as i64)));
    fields.push(("isUnlocked".to_owned(), JsonValue::Bool(v.is_unlocked)));
    fields.push(("pointsToUnlock".to_owned(), JsonValue::Int(v.points_to_unlock as i64)));
    let arr_items = {
        let mut items: Vec<JsonValue> = Vec::new();
        let mut i: usize = 0;
        while i < v.items.len()
            invariant
                i <= v.items.len(),
                items@.len() == i,
                forall|k: int| 0 <= k < i ==> jview(#[trigger] items@[k]) == destiny_artifact_tier_item_json(v.items@[k]),
            decreases v.items.len() - i,
        {
            items.push(encode_destiny_artifact_tier_item(&v.items[i]));
            i = i + 1;
        }
        JsonValue::Arr(items)
    };
    proof {
        assert(jview(arr_items)->Arr_0 =~= destiny_artifact_tier_json(*v)->Obj_0[3].1->Arr_0);
    }
    fields.push(("items".to_owned(), arr_items));
    let r = JsonValue::Obj(fields);
    proof {
        assert(jview(fields@[0].1) == destiny_artifact_tier_json(*v)->Obj_0[0].1);
        assert(jview(fields@[1].1) == destiny_artifact_tier_json(*v)->Obj_0[1].1);
        assert(jview(fields@[2].1) == destiny_artifact_tier_json(*v)->Obj_0[2].1);
        assert(jview(fields@[3].1) == destiny_artifact_tier_json(*v)->Obj_0[3].1);
        assert(jview(r)->Obj_0 =~= destiny_artifact_tier_json(*v)->Obj_0);
    }
    r
}

/// Decodes this record; a failure names the offending field in its
/// path and says what was expected of it.
#[verifier::loop_isolation(false)]
pub fn decode_destiny_artifact_tier(j: &JsonValue) -> (r: Result<DestinyArtifactTier, DecodeError>)
    ensures
        r is Ok <==> destiny_artifact_tier_wf(jview(*j)),
        r matches Ok(w) ==> (jview(*j) matches Json::Obj(fields)
            && destiny_artifact_tier_fields_match(fields, w)),
        r matches Err(e) ==> destiny_artifact_tier_err_ok(jview(*j), e),
{
    let fields = match j {
        JsonValue::Obj(fields) => fields,
        _ => {
            return Err(root_error("an object"));
        },
    };
    let ghost gf = jview(*j)->Obj_0;
    let tier_hash = match j.get("tierHash") {
        Some(v) => match v.to_i64() {
            Some(n) if 0 <= n && n <= u32::MAX as i64 => n as u32,
            _ => {
                return Err(field_error("tierHash", "a 32-bit unsigned integer"));
            },
        },
        _ => {
            return Err(field_error("tierHash", "a 32-bit unsigned integer"));
        },
    };
    let is_unlocked = match j.get("isUnlocked") {
        Some(JsonValue::Bool(b)) => *b,
        _ => {
            return Err(field_error("isUnlocked", "a boolean"));
        },
    };
    let points_to_unlock = match j.get("pointsToUnlock") {
        Some(v) => match v.to_i64() {
            Some(n) if i32::MIN as i64 <= n && n <= i32::MAX as i64 => n as i32,
            _ => {
                return Err(field_error("pointsToUnlock", "a 32-bit integer"));
            },
        },
        _ => {
            return Err(field_error("pointsToUnlock", "a 32-bit integer"));
        },
    };
    let items = match j.get("items") {
        Option::None => {
            return Err(field_error("items", "an array"));
        },
        Some(arr) => match arr {
            JsonValue::Arr(items) => {
                let ghost gitems = jview(*arr)->Arr_0;
                let mut out: Vec<DestinyArtifactTierItem> = Vec::new();
                let mut i: usize = 0;
                while i < items.len()
                    invariant
                        i <= items.len(),
                        out@.len() == i,
                        forall|k: int| 0 <= k < i
                            ==> (destiny_artifact_tier_item_wf(#[trigger] gitems[k])
                                && (gitems[k] matches Json::Obj(f2)
                                && destiny_artifact_tier_item_fields_match(f2, out@[k]))),
                    decreases items.len() - i,
                {
                    proof {
                        assert(gitems[i as int] == jview(items@[i as int]));
                    }
                    match decode_destiny_artifact_tier_item(&items[i]) {
                        Ok(r) => {
                            out.push(r);
                        },
                        Err(e) => {
                            return Err(indexed_error("items", i, e));
                        },
                    }
                    i = i + 1;
                }
                out
            },
            _ => {
                return Err(field_error("items", "an array"));
            },
        },
    };
    let mut i: usize = 0;
    while i < fields.len()
        invariant
            i <= fields.len(),
            gf.len() == fields@.len(),
            forall|k: int| 0 <= k < gf.len()
                ==> #[trigger] gf[k] == (fields@[k].0@, jview(fields@[k].1)),
            forall|k: int| 0 <= k < i
                ==> ((#[trigger] gf[k]).0 == "tierHash"@ || gf[k].0 == "isUnlocked"@ || gf[k].0 == "pointsToUnlock"@ || gf[k].0 == "items"@),
        decreases fields.len() - i,
    {
        let name = fields[i].0.as_str();
        if !(str_eq(name, "tierHash") || str_eq(name, "isUnlocked") || str_eq(name, "pointsToUnlock") || str_eq(name, "items")) {
            proof {
                assert(gf[i as int].0 == fields@[i as int].0@);
                assert(!destiny_artifact_tier_wf(jview(*j)));
            }
            return Err(field_error(fields[i].0.as_str(), "an unknown field"));
        }
        i = i + 1;
    }
    Ok(DestinyArtifactTier { tier_hash, is_unlocked, points_to_unlock, items })
}

/// The wire image of a record is well formed and matched by the
/// record itself: encoding loses nothing that decoding reads.
pub proof fn lemma_destiny_artifact_tier_image(v: DestinyArtifactTier)
    ensures
        destiny_artifact_tier_wf(destiny_artifact_tier_json(v)),
        destiny_artifact_tier_json(v) matches Json::Obj(fields) && destiny_artifact_tier_fields_match(fields, v),
{
    reveal_strlit("tierHash");
    reveal_strlit("isUnlocked");
    reveal_strlit("pointsToUnlock");
    reveal_strlit("items");
    let fields = destiny_artifact_tier_json(v)->Obj_0;
    assert("tierHash"@.len() == 8);
    assert("isUnlocked"@.len() == 10);
    assert("pointsToUnlock"@.len() == 14);
    assert("items"@.len() == 5);
    assert("tierHash"@ != "isUnlocked"@);
    assert("tierHash"@ != "pointsToUnlock"@);
    assert("tierHash"@ != "items"@);
    assert("isUnlocked"@ != "pointsToUnlock"@);
    assert("isUnlocked"@ != "items"@);
    assert("pointsToUnlock"@ != "items"@);
    lemma_lookup_at(fields, 0);
    lemma_lookup_at(fields, 1);
    lemma_lookup_at(fields, 2);
    lemma_lookup_at(fields, 3);
    assert forall|i: int| 0 <= i < v.items@.len()
        implies (destiny_artifact_tier_item_wf(#[trigger] fields[3].1->Arr_0[i])
            && (fields[3].1->Arr_0[i] matches Json::Obj(f2)
            && destiny_artifact_tier_item_fields_match(f2, v.items@[i]))) by {
        assert(fields[3].1->Arr_0[i] == destiny_artifact_tier_item_json(v.items@[i]));
        lemma_destiny_artifact_tier_item_image(v.items@[i]);
    }
}

/// Decoding the encoded image of a record yields a record whose
/// every field carries the same content as the one encoded.
pub proof fn lemma_destiny_artifact_tier_round_trip(v: DestinyArtifactTier, w: DestinyArtifactTier)
    requires
        destiny_artifact_tier_json(v) matches Json::Obj(fields) && destiny_artifact_tier_fields_match(fields, w),
    ensures
        destiny_artifact_tier_wf(destiny_artifact_tier_json(v)),
        w.tier_hash == v.tier_hash,
        w.is_unlocked == v.is_unlocked,
        w.points_to_unlock == v.points_to_unlock,
        w.items@.len() == v.items@.len(),
        forall|i: int| 0 <= i < v.items@.len() ==> (destiny_artifact_tier_item_json(v.items@[i]) matches Json::Obj(f2) && destiny_artifact_tier_item_fields_match(f2, #[trigger] w.items@[i])),
{
    lemma_destiny_artifact_tier_image(v);
    let fields = destiny_artifact_tier_json(v)->Obj_0;
    reveal_strlit("tierHash");
    reveal_strlit("isUnlocked");
    reveal_strlit("pointsToUnlock");
    reveal_strlit("items");
    assert("tierHash"@.len() == 8);
    assert("isUnlocked"@.len() == 10);
    assert("pointsToUnlock"@.len() == 14);
    assert("items"@.len() == 5);
    assert("tierHash"@ != "isUnlocked"@);
    assert("tierHash"@ != "pointsToUnlock"@);
    assert("tierHash"@ != "items"@);
    assert("isUnlocked"@ != "pointsToUnlock"@);
    assert("isUnlocked"@ != "items"@);
    assert("pointsToUnlock"@ != "items"@);
    lemma_lookup_at(fields, 0);
    lemma_lookup_at(fields, 1);
    lemma_lookup_at(fields, 2);
    lemma_lookup_at(fields, 3);
    assert forall|i: int| 0 <= i < v.items@.len()
        implies (destiny_artifact_tier_item_json(v.items@[i]) matches Json::Obj(f2)
            && destiny_artifact_tier_item_fields_match(f2, #[trigger] w.items@[i])) by {
        assert(fields[3].1->Arr_0[i] == destiny_artifact_tier_item_json(v.items@[i]));
        lemma_destiny_artifact_tier_item_image(v.items@[i]);
    }
}

/// The wire image of this record.
pub open spec fn destiny_artifact_character_scoped_json(v: DestinyArtifactCharacterScoped) -> Json {
    Json::Obj(
        seq![
            ("artifactHash"@, Json::Int(v.artifact_hash as int)),
            ("pointsUsed"@, Json::Int(v.points_used as int)),
            ("resetCount"@, Json::Int(v.reset_count as int)),
            ("tiers"@, Json::Arr(Seq::new(v.tiers@.len(), |i: int| if 0 <= i < v.tiers@.len() { destiny_artifact_tier_json(v.tiers@[i]) } else { Json::Null }))),
        ],
    )
}

/// Whether a document decodes as this record: an object with exactly these fields.
pub open spec fn destiny_artifact_character_scoped_wf(j: Json) -> bool {
    &&& j matches Json::Obj(fields)
    &&& spec_lookup(fields, "artifactHash"@) matches Some(Json::Int(n)) && 0 <= n <= u32::MAX as int
    &&& spec_lookup(fields, "pointsUsed"@) matches Some(Json::Int(n)) && i32::MIN as int <= n <= i32::MAX as int
    &&& spec_lookup(fields, "resetCount"@) matches Some(Json::Int(n)) && i32::MIN as int <= n <= i32::MAX as int
    &&& match spec_lookup(fields, "tiers"@) { Option::None => false, Some(Json::Arr(items)) => forall|i: int| 0 <= i < items.len() ==> destiny_artifact_tier_wf(#[trigger] items[i]), _ => false }
    &&& forall|i: int| 0 <= i < fields.len()
        ==> ((#[trigger] fields[i]).0 == "artifactHash"@ || fields[i].0 == "pointsUsed"@ || fields[i].0 == "resetCount"@ || fields[i].0 == "tiers"@)
}

/// How a decoded record relates to the document it came from.
pub open spec fn destiny_artifact_character_scoped_fields_match(fields: Seq<(Seq<char>, Json)>, w: DestinyArtifactCharacterScoped) -> bool {
    &&& spec_lookup(fields, "artifactHash"@) == Some(Json::Int(w.artifact_hash as int))
    &&& spec_lookup(fields, "pointsUsed"@) == Some(Json::Int(w.points_used as int))
    &&& spec_lookup(fields, "resetCount"@) == Some(Json::Int(w.reset_count as int))
    &&& match spec_lookup(fields, "tiers"@) { Option::None => false, Some(Json::Arr(items)) => w.tiers@.len() == items.len() && (forall|i: int| 0 <= i < items.len() ==> ((#[trigger] items[i]) matches Json::Obj(f2) && destiny_artifact_tier_fields_match(f2, w.tiers@[i]))), _ => false }
}

/// What a decode failure names: its path points at a field of the
/// document that is indeed not decodable, and an undeclared
/// enumeration code is reported with the enumeration's own message.
pub open spec fn destiny_artifact_character_scoped_err_ok(j: Json, e: DecodeError) -> bool {
    &&& !(j matches Json::Obj(_)) ==> e.path@.len() == 0
    &&& j matches Json::Obj(fields) ==> (
        (e.path@ == "artifactHash"@ && !(spec_lookup(fields, "artifactHash"@) matches Some(Json::Int(n)) && 0 <= n <= u32::MAX as int))
        || (e.path@ == "pointsUsed"@ && !(spec_lookup(fields, "pointsUsed"@) matches Some(Json::Int(n)) && i32::MIN as int <= n <= i32::MAX as int))
        || (e.path@ == "resetCount"@ && !(spec_lookup(fields, "resetCount"@) matches Some(Json::Int(n)) && i32::MIN as int <= n <= i32::MAX as int))
        || ((e.path@ == "tiers"@ || spec_starts_with(e.path@, "tiers"@)) && !(match spec_lookup(fields, "tiers"@) { Option::None => false, Some(Json::Arr(items)) => forall|i: int| 0 <= i < items.len() ==> destiny_artifact_tier_wf(#[trigger] items[i]), _ => false }))
        || (exists|i: int| 0 <= i < fields.len() && (#[trigger] fields[i]).0 == e.path@ && !((fields[i].0 == "artifactHash"@ || fields[i].0 == "pointsUsed"@ || fields[i].0 == "resetCount"@ || fields[i].0 == "tiers"@))))
}

pub fn encode_destiny_artifact_character_scoped(v: &DestinyArtifactCharacterScoped) -> (r: JsonValue)
    ensures
        jview(r) == destiny_artifact_character_scoped_json(*v),
{
    let mut fields: Vec<(String, JsonValue)> = Vec::new();
    fields.push(("artifactHash".to_owned(), JsonValue::Int(v.artifact_hash as i64)));
    fields.push(("pointsUsed".to_owned(), JsonValue::Int(v.points_used as i64)));
    fields.push(("resetCount".to_owned(), JsonValue::Int(v.reset_count as i64)));
    let arr_tiers = {
        let mut items: Vec<JsonValue> = Vec::new();
        let mut i: usize = 0;
        while i < v.tiers.len()
            invariant
                i <= v.tiers.len(),
                items@.len() == i,
                forall|k: int| 0 <= k < i ==> jview(#[trigger] items@[k]) == destiny_artifact_tier_json(v.tiers@[k]),
            decreases v.tiers.len() - i,
        {
            items.push(encode_destiny_artifact_tier(&v.tiers[i]));
            i = i + 1;
        }
        JsonValue::Arr(items)
    };
    proof {
        assert(jview(arr_tiers)->Arr_0 =~= destiny_artifact_character_scoped_json(*v)->Obj_0[3].1->Arr_0);
    }
    fields.push(("tiers".to_owned(), arr_tiers));
    let r = JsonValue::Obj(fields);
    proof {
        assert(jview(fields@[0].1) == destiny_artifact_character_scoped_json(*v)->Obj_0[0].1);
        assert(jview(fields@[1].1) == destiny_artifact_character_scoped_json(*v)->Obj_0[1].1);
        assert(jview(fields@[2].1) == destiny_artifact_character_scoped_json(*v)->Obj_0[2].1);
        assert(jview(fields@[3].1) == destiny_artifact_character_scoped_json(*v)->Obj_0[3].1);
        assert(jview(r)->Obj_0 =~= destiny_artifact_character_scoped_json(*v)->Obj_0);
    }
    r
}

/// Decodes this record; a failure names the offending field in its
/// path and says what was expected of it.
#[verifier::loop_isolation(false)]
pub fn decode_destiny_artifact_character_scoped(j: &JsonValue) -> (r: Result<DestinyArtifactCharacterScoped, DecodeError>)
    ensures
        r is Ok <==> destiny_artifact_character_scoped_wf(jview(*j)),
        r matches Ok(w) ==> (jview(*j) matches Json::Obj(fields)
            && destiny_artifact_character_scoped_fields_match(fields, w)),
        r matches Err(e) ==> destiny_artifact_character_scoped_err_ok(jview(*j), e),
{
    let fields = match j {
        JsonValue::Obj(fields) => fields,
        _ => {
            return Err(root_error("an object"));
        },
    };
    let ghost gf = jview(*j)->Obj_0;
    let artifact_hash = match j.get("artifactHash") {
        Some(v) => match v.to_i64() {
            Some(n) if 0 <= n && n <= u32::MAX as i64 => n as u32,
            _ => {
                return Err(field_error("artifactHash", "a 32-bit unsigned integer"));
            },
        },
        _ => {
            return Err(field_error("artifactHash", "a 32-bit unsigned integer"));
        },
    };
    let points_used = match j.get("pointsUsed") {
        Some(v) => match v.to_i64() {
            Some(n) if i32::MIN as i64 <= n && n <= i32::MAX as i64 => n as i32,
            _ => {
                return Err(field_error("pointsUsed", "a 32-bit integer"));
            },
        },
        _ => {
            return Err(field_error("pointsUsed", "a 32-bit integer"));
        },
    };
    let reset_count = match j.get("resetCount") {
        Some(v) => match v.to_i64() {
            Some(n) if i32::MIN as i64 <= n && n <= i32::MAX as i64 => n as i32,
            _ => {
                return Err(field_error("resetCount", "a 32-bit integer"));
            },
        },
        _ => {
            return Err(field_error("resetCount", "a 32-bit integer"));
        },
    };
    let tiers = match j.get("tiers") {
        Option::None => {
            return Err(field_error("tiers", "an array"));
        },
        Some(arr) => match arr {
            JsonValue::Arr(items) => {
                let ghost gitems = jview(*arr)->Arr_0;
                let mut out: Vec<DestinyArtifactTier> = Vec::new();
                let mut i: usize = 0;
                while i < items.len()
                    invariant
                        i <= items.len(),
                        out@.len() == i,
                        forall|k: int| 0 <= k < i
                            ==> (destiny_artifact_tier_wf(#[trigger] gitems[k])
                                && (gitems[k] matches Json::Obj(f2)
                                && destiny_artifact_tier_fields_match(f2, out@[k]))),
                    decreases items.len() - i,
                {
                    proof {
                        assert(gitems[i as int] == jview(items@[i as int]));
                    }
                    match decode_destiny_artifact_tier(&items[i]) {
                        Ok(r) => {
                            out.push(r);
                        },
                        Err(e) => {
                            return Err(indexed_error("tiers", i, e));
                        },
                    }
                    i = i + 1;
                }
                out
            },
            _ => {
                return Err(field_error("tiers", "an array"));
            },
        },
    };
    let mut i: usize = 0;
    while i < fields.len()
        invariant
            i <= fields.len(),
            gf.len() == fields@.len(),
            forall|k: int| 0 <= k < gf.len()
                ==> #[trigger] gf[k] == (fields@[k].0@, jview(fields@[k].1)),
            forall|k: int| 0 <= k < i
                ==> ((#[trigger] gf[k]).0 == "artifactHash"@ || gf[k].0 == "pointsUsed"@ || gf[k].0 == "resetCount"@ || gf[k].0 == "tiers"@),
        decreases fields.len() - i,
    {
        let name = fields[i].0.as_str();
        if !(str_eq(name, "artifactHash") || str_eq(name, "pointsUsed") || str_eq(name, "resetCount") || str_eq(name, "tiers")) {
            proof {
                assert(gf[i as int].0 == fields@[i as int].0@);
                assert(!destiny_artifact_character_scoped_wf(jview(*j)));
            }
            return Err(field_error(fields[i].0.as_str(), "an unknown field"));
        }
        i = i + 1;
    }
    Ok(DestinyArtifactCharacterScoped { artifact_hash, points_used, reset_count, tiers })
}

/// The wire image of a record is well formed and matched by the
/// record itself: encoding loses nothing that decoding reads.
pub proof fn lemma_destiny_artifact_character_scoped_image(v: DestinyArtifactCharacterScoped)
    ensures
        destiny_artifact_character_scoped_wf(destiny_artifact_character_scoped_json(v)),
        destiny_artifact_character_scoped_json(v) matches Json::Obj(fields) && destiny_artifact_character_scoped_fields_match(fields, v),
{
    reveal_strlit("artifactHash");
    reveal_strlit("pointsUsed");
    reveal_strlit("resetCount");
    reveal_strlit("tiers");
    let fields = destiny_artifact_character_scoped_json(v)->Obj_0;
    assert("artifactHash"@.len() == 12);
    assert("pointsUsed"@.len() == 10);
    assert("resetCount"@.len() == 10);
    assert("tiers"@.len() == 5);
    assert("artifactHash"@ != "pointsUsed"@);
    assert("artifactHash"@ != "resetCount"@);
    assert("artifactHash"@ != "tiers"@);
    assert(("pointsUsed"@)[0] != ("resetCount"@)[0]);
    assert("pointsUsed"@ != "resetCount"@);
    assert("pointsUsed"@ != "tiers"@);
    assert("resetCount"@ != "tiers"@);
    lemma_lookup_at(fields, 0);
    lemma_lookup_at(fields, 1);
    lemma_lookup_at(fields, 2);
    lemma_lookup_at(fields, 3);
    assert forall|i: int| 0 <= i < v.tiers@.len()
        implies (destiny_artifact_tier_wf(#[trigger] fields[3].1->Arr_0[i])
            && (fields[3].1->Arr_0[i] matches Json::Obj(f2)
            && destiny_artifact_tier_fields_match(f2, v.tiers@[i]))) by {
        assert(fields[3].1->Arr_0[i] == destiny_artifact_tier_json(v.tiers@[i]));
        lemma_destiny_artifact_tier_image(v.tiers@[i]);
    }
}

/// Decoding the encoded image of a record yields a record whose
/// every field carries the same content as the one encoded.
pub proof fn lemma_destiny_artifact_character_scoped_round_trip(v: DestinyArtifactCharacterScoped, w: DestinyArtifactCharacterScoped)
    requires
        destiny_artifact_character_scoped_json(v) matches Json::Obj(fields) && destiny_artifact_character_scoped_fields_match(fields, w),
    ensures
        destiny_artifact_character_scoped_wf(destiny_artifact_character_scoped_json(v)),
        w.artifact_hash == v.artifact_hash,
        w.points_used == v.points_used,
        w.reset_count == v.reset_count,
        w.tiers@.len() == v.tiers@.len(),
        forall|i: int| 0 <= i < v.tiers@.len() ==> (destiny_artifact_tier_json(v.tiers@[i]) matches Json::Obj(f2) && destiny_artifact_tier_fields_match(f2, #[trigger] w.tiers@[i])),
{
    lemma_destiny_artifact_character_scoped_image(v);
    let fields = destiny_artifact_character_scoped_json(v)->Obj_0;
    reveal_strlit("artifactHash");
    reveal_strlit("pointsUsed");
    reveal_strlit("resetCount");
    reveal_strlit("tiers");
    assert("artifactHash"@.len() == 12);
    assert("pointsUsed"@.len() == 10);
    assert("resetCount"@.len() == 10);
    assert("tiers"@.len() == 5);
    assert("artifactHash"@ != "pointsUsed"@);
    assert("artifactHash"@ != "resetCount"@);
    assert("artifactHash"@ != "tiers"@);
    assert(("pointsUsed"@)[0] != ("resetCount"@)[0]);
    assert("pointsUsed"@ != "resetCount"@);
    assert("pointsUsed"@ != "tiers"@);
    assert("resetCount"@ != "tiers"@);
    lemma_lookup_at(fields, 0);
    lemma_lookup_at(fields, 1);
    lemma_lookup_at(fields, 2);
    lemma_lookup_at(fields, 3);
    assert forall|i: int| 0 <= i < v.tiers@.len()
        implies (destiny_artifact_tier_json(v.tiers@[i]) matches Json::Obj(f2)
            && destiny_artifact_tier_fields_match(f2, #[trigger] w.tiers@[i])) by {
        assert(fields[3].1->Arr_0[i] == destiny_artifact_tier_json(v.tiers@[i]));
        lemma_destiny_artifact_tier_image(v.tiers@[i]);
    }
}

/// The wire image of this record.
pub open spec fn destiny_kiosk_item_json(v: DestinyKioskItem) -> Json {
    Json::Obj(
        seq![
            ("index"@, Json::Int(v.index as int)),
            ("canAcquire"@, Json::Bool(v.can_acquire)),
            ("failureIndexes"@, Json::Arr(Seq::new(v.failure_indexes@.len(), |i: int| if 0 <= i < v.failure_indexes@.len() { Json::Int(v.failure_indexes@[i] as int) } else { Json::Null }))),
            ("flavorObjective"@, destiny_objective_progress_json(v.flavor_objective)),
        ],
    )
}

/// Whether a document decodes as this record: an object with exactly these fields.
pub open spec fn destiny_kiosk_item_wf(j: Json) -> bool {
    &&& j matches Json::Obj(fields)
    &&& spec_lookup(fields, "index"@) matches Some(Json::Int(n)) && i32::MIN as int <= n <= i32::MAX as int
    &&& spec_lookup(fields, "canAcquire"@) matches Some(Json::Bool(_))
    &&& match spec_lookup(fields, "failureIndexes"@) { Option::None => false, Some(Json::Arr(items)) => forall|i: int| 0 <= i < items.len() ==> ((#[trigger] items[i]) matches Json::Int(n) && i32::MIN as int <= n <= i32::MAX as int), _ => false }
    &&& spec_lookup(fields, "flavorObjective"@) matches Some(inner) && destiny_objective_progress_wf(inner)
    &&& forall|i: int| 0 <= i < fields.len()
        ==> ((#[trigger] fields[i]).0 == "index"@ || fields[i].0 == "canAcquire"@ || fields[i].0 == "failureIndexes"@ || fields[i].0 == "flavorObjective"@)
}

/// How a decoded record relates to the document it came from.
pub open spec fn destiny_kiosk_item_fields_match(fields: Seq<(Seq<char>, Json)>, w: DestinyKioskItem) -> bool {
    &&& spec_lookup(fields, "index"@) == Some(Json::Int(w.index as int))
    &&& spec_lookup(fields, "canAcquire"@) == Some(Json::Bool(w.can_acquire))
    &&& match spec_lookup(fields, "failureIndexes"@) { Option::None => false, Some(Json::Arr(items)) => w.failure_indexes@.len() == items.len() && (forall|i: int| 0 <= i < items.len() ==> (#[trigger] items[i]) == Json::Int(w.failure_indexes@[i] as int)), _ => false }
    &&& spec_lookup(fields, "flavorObjective"@) matches Some(Json::Obj(inner)) && destiny_objective_progress_fields_match(inner, w.flavor_objective)
}

/// What a decode failure names: its path points at a field of the
/// document that is indeed not decodable, and an undeclared
/// enumeration code is reported with the enumeration's own message.
pub open spec fn destiny_kiosk_item_err_ok(j: Json, e: DecodeError) -> bool {
    &&& !(j matches Json::Obj(_)) ==> e.path@.len() == 0
    &&& j matches Json::Obj(fields) ==> (
        (e.path@ == "index"@ && !(spec_lookup(fields, "index"@) matches Some(Json::Int(n)) && i32::MIN as int <= n <= i32::MAX as int))
        || (e.path@ == "canAcquire"@ && !(spec_lookup(fields, "canAcquire"@) matches Some(Json::Bool(_))))
        || ((e.path@ == "failureIndexes"@ || spec_starts_with(e.path@, "failureIndexes"@)) && !(match spec_lookup(fields, "failureIndexes"@) { Option::None => false, Some(Json::Arr(items)) => forall|i: int| 0 <= i < items.len() ==> ((#[trigger] items[i]) matches Json::Int(n) && i32::MIN as int <= n <= i32::MAX as int), _ => false }))
        || ((e.path@ == "flavorObjective"@ || spec_starts_with(e.path@, "flavorObjective"@)) && !(spec_lookup(fields, "flavorObjective"@) matches Some(inner) && destiny_objective_progress_wf(inner)))
        || (exists|i: int| 0 <= i < fields.len() && (#[trigger] fields[i]).0 == e.path@ && !((fields[i].0 == "index"@ || fields[i].0 == "canAcquire"@ || fields[i].0 == "failureIndexes"@ || fields[i].0 == "flavorObjective"@))))
}

pub fn encode_destiny_kiosk_item(v: &DestinyKioskItem) -> (r: JsonValue)
    ensures
        jview(r) == destiny_kiosk_item_json(*v),
{
    let mut fields: Vec<(String, JsonValue)> = Vec::new();
    fields.push(("index".to_owned(), JsonValue::Int(v.index as i64)));
    fields.push(("canAcquire".to_owned(), JsonValue::Bool(v.can_acquire)));
    let arr_failure_indexes = {
        let mut items: Vec<JsonValue> = Vec::new();
        let mut i: usize = 0;
        while i < v.failure_indexes.len()
            invariant
                i <= v.failure_indexes.len(),
                items@.len() == i,
                forall|k: int| 0 <= k < i ==> jview(#[trigger] items@[k]) == Json::Int(v.failure_indexes@[k] as int),
            decreases v.failure_indexes.len() - i,
        {
            items.push(JsonValue::Int(v.failure_indexes[i] as i64));
            i = i + 1;
        }
        JsonValue::Arr(items)
    };
    proof {
        assert(jview(arr_failure_indexes)->Arr_0 =~= destiny_kiosk_item_json(*v)->Obj_0[2].1->Arr_0);
    }
    fields.push(("failureIndexes".to_owned(), arr_failure_indexes));
    fields.push(("flavorObjective".to_owned(), encode_destiny_objective_progress(&v.flavor_objective)));
    let r = JsonValue::Obj(fields);
    proof {
        assert(jview(fields@[0].1) == destiny_kiosk_item_json(*v)->Obj_0[0].1);
        assert(jview(fields@[1].1) == destiny_kiosk_item_json(*v)->Obj_0[1].1);
        assert(jview(fields@[2].1) == destiny_kiosk_item_json(*v)->Obj_0[2].1);
        assert(jview(fields@[3].1) == destiny_kiosk_item_json(*v)->Obj_0[3].1);
        assert(jview(r)->Obj_0 =~= destiny_kiosk_item_json(*v)->Obj_0);
    }
    r
}

/// Decodes this record; a failure names the offending field in its
/// path and says what was expected of it.
#[verifier::loop_isolation(false)]
pub fn decode_destiny_kiosk_item(j: &JsonValue) -> (r: Result<DestinyKioskItem, DecodeError>)
    ensures
        r is Ok <==> destiny_kiosk_item_wf(jview(*j)),
        r matches Ok(w) ==> (jview(*j) matches Json::Obj(fields)
            && destiny_kiosk_item_fields_match(fields, w)),
        r matches Err(e) ==> destiny_kiosk_item_err_ok(jview(*j), e),
{
    let fields = match j {
        JsonValue::Obj(fields) => fields,
        _ => {
            return Err(root_error("an object"));
        },
    };
    let ghost gf = jview(*j)->Obj_0;
    let index = match j.get("index") {
        Some(v) => match v.to_i64() {
            Some(n) if i32::MIN as i64 <= n && n <= i32::MAX as i64 => n as i32,
            _ => {
                return Err(field_error("index", "a 32-bit integer"));
            },
        },
        _ => {
            return Err(field_error("index", "a 32-bit integer"));
        },
    };
    let can_acquire = match j.get("canAcquire") {
        Some(JsonValue::Bool(b)) => *b,
        _ => {
            return Err(field_error("canAcquire", "a boolean"));
        },
    };
    let failure_indexes = match j.get("failureIndexes") {
        Option::None => {
            return Err(field_error("failureIndexes", "an array"));
        },
        Some(arr) => match arr {
            JsonValue::Arr(items) => {
                let ghost gitems = jview(*arr)->Arr_0;
                let mut out: Vec<i32> = Vec::new();
                let mut i: usize = 0;
                while i < items.len()
                    invariant
                        i <= items.len(),
                        out@.len() == i,
                        forall|k: int| 0 <= k < i ==> (#[trigger] gitems[k]) == Json::Int(out@[k] as int),
                    decreases items.len() - i,
                {
                    proof {
                        assert(gitems[i as int] == jview(items@[i as int]));
                    }
                    let n = match items[i].to_i64() {
                        Some(n) if i32::MIN as i64 <= n && n <= i32::MAX as i64 => n,
                        _ => {
                            return Err(indexed_error("failureIndexes", i, field_error("", "a 32-bit integer")));
                        },
                    };
                    out.push(n as i32);
                    i = i + 1;
                }
                out
            },
            _ => {
                return Err(field_error("failureIndexes", "an array"));
            },
        },
    };
    let flavor_objective = match j.get("flavorObjective") {
        Some(inner) => match decode_destiny_objective_progress(inner) {
            Ok(r) => r,
            Err(e) => {
                return Err(nested_error("flavorObjective", e));
            },
        },
        _ => {
            return Err(field_error("flavorObjective", "an object"));
        },
    };
    let mut i: usize = 0;
    while i < fields.len()
        invariant
            i <= fields.len(),
            gf.len() == fields@.len(),
            forall|k: int| 0 <= k < gf.len()
                ==> #[trigger] gf[k] == (fields@[k].0@, jview(fields@[k].1)),
            forall|k: int| 0 <= k < i
                ==> ((#[trigger] gf[k]).0 == "index"@ || gf[k].0 == "canAcquire"@ || gf[k].0 == "failureIndexes"@ || gf[k].0 == "flavorObjective"@),
        decreases fields.len() - i,
    {
        let name = fields[i].0.as_str();
        if !(str_eq(name, "index") || str_eq(name, "canAcquire") || str_eq(name, "failureIndexes") || str_eq(name, "flavorObjective")) {
            proof {
                assert(gf[i as int].0 == fields@[i as int].0@);
                assert(!destiny_kiosk_item_wf(jview(*j)));
            }
            return Err(field_error(fields[i].0.as_str(), "an unknown field"));
        }
        i = i + 1;
    }
    Ok(DestinyKioskItem { index, can_acquire, failure_indexes, flavor_objective })
}

/// The wire image of a record is well formed and matched by the
/// record itself: encoding loses nothing that decoding reads.
pub proof fn lemma_destiny_kiosk_item_image(v: DestinyKioskItem)
    ensures
        destiny_kiosk_item_wf(destiny_kiosk_item_json(v)),
        destiny_kiosk_item_json(v) matches Json::Obj(fields) && destiny_kiosk_item_fields_match(fields, v),
{
    reveal_strlit("index");
    reveal_strlit("canAcquire");
    reveal_strlit("failureIndexes");
    reveal_strlit("flavorObjective");
    let fields = destiny_kiosk_item_json(v)->Obj_0;
    assert("index"@.len() == 5);
    assert("canAcquire"@.len() == 10);
    assert("failureIndexes"@.len() == 14);
    assert("flavorObjective"@.len() == 15);
    assert("index"@ != "canAcquire"@);
    assert("index"@ != "failureIndexes"@);
    assert("index"@ != "flavorObjective"@);
    assert("canAcquire"@ != "failureIndexes"@);
    assert("canAcquire"@ != "flavorObjective"@);
    assert("failureIndexes"@ != "flavorObjective"@);
    lemma_lookup_at(fields, 0);
    lemma_lookup_at(fields, 1);
    lemma_lookup_at(fields, 2);
    lemma_lookup_at(fields, 3);
    lemma_destiny_objective_progress_image(v.flavor_objective);
}

/// Decoding the encoded image of a record yields a record whose
/// every field carries the same content as the one encoded.
pub proof fn lemma_destiny_kiosk_item_round_trip(v: DestinyKioskItem, w: DestinyKioskItem)
    requires
        destiny_kiosk_item_json(v) matches Json::Obj(fields) && destiny_kiosk_item_fields_match(fields, w),
    ensures
        destiny_kiosk_item_wf(destiny_kiosk_item_json(v)),
        w.index == v.index,
        w.can_acquire == v.can_acquire,
        w.failure_indexes@ == v.failure_indexes@,
        destiny_objective_progress_json(v.flavor_objective) matches Json::Obj(f2) && destiny_objective_progress_fields_match(f2, w.flavor_objective),
{
    lemma_destiny_kiosk_item_image(v);
    let fields = destiny_kiosk_item_json(v)->Obj_0;
    reveal_strlit("index");
    reveal_strlit("canAcquire");
    reveal_strlit("failureIndexes");
    reveal_strlit("flavorObjective");
    assert("index"@.len() == 5);
    assert("canAcquire"@.len() == 10);
    assert("failureIndexes"@.len() == 14);
    assert("flavorObjective"@.len() == 15);
    assert("index"@ != "canAcquire"@);
    assert("index"@ != "failureIndexes"@);
    assert("index"@ != "flavorObjective"@);
    assert("canAcquire"@ != "failureIndexes"@);
    assert("canAcquire"@ != "flavorObjective"@);
    assert("failureIndexes"@ != "flavorObjective"@);
    lemma_lookup_at(fields, 0);
    lemma_lookup_at(fields, 1);
    lemma_lookup_at(fields, 2);
    lemma_lookup_at(fields, 3);
    lemma_destiny_objective_progress_image(v.flavor_objective);
    assert(w.failure_indexes@ =~= v.failure_indexes@) by {
        assert forall|i: int| 0 <= i < v.failure_indexes@.len()
            implies #[trigger] w.failure_indexes@[i] == v.failure_indexes@[i] by {
            assert(spec_lookup(fields, "failureIndexes"@) matches Some(Json::Arr(items))
                && (items[i] == Json::Int(v.failure_indexes@[i] as int)
                && items[i] == Json::Int(w.failure_indexes@[i] as int)));
        }
    }
}

/// The wire image of this record.
pub open spec fn destiny_parent_item_override_json(v: DestinyParentItemOverride) -> Json {
    Json::Obj(
        seq![
            ("additionalEquipRequirementsDisplayStrings"@, Json::Arr(Seq::new(v.additional_equip_requirements_display_strings@.len(), |i: int| if 0 <= i < v.additional_equip_requirements_display_strings@.len() { Json::Str(v.additional_equip_requirements_display_strings@[i]@) } else { Json::Null }))),
            ("pipIcon"@, (match v.pip_icon { Some(x) => Json::Str(x@), Option::None => Json::Null })),
        ],
    )
}

/// Whether a document decodes as this record: an object with exactly these fields.
pub open spec fn destiny_parent_item_override_wf(j: Json) -> bool {
    &&& j matches Json::Obj(fields)
    &&& match spec_lookup(fields, "additionalEquipRequirementsDisplayStrings"@) { Option::None => false, Some(Json::Arr(items)) => forall|i: int| 0 <= i < items.len() ==> (#[trigger] items[i]) is Str, _ => false }
    &&& match spec_lookup(fields, "pipIcon"@) { Option::None => true, Some(Json::Null) => true, Some(Json::Str(_)) => true, _ => false }
    &&& forall|i: int| 0 <= i < fields.len()
        ==> ((#[trigger] fields[i]).0 == "additionalEquipRequirementsDisplayStrings"@ || fields[i].0 == "pipIcon"@)
}

/// How a decoded record relates to the document it came from.
pub open spec fn destiny_parent_item_override_fields_match(fields: Seq<(Seq<char>, Json)>, w: DestinyParentItemOverride) -> bool {
    &&& match spec_lookup(fields, "additionalEquipRequirementsDisplayStrings"@) { Option::None => false, Some(Json::Arr(items)) => w.additional_equip_requirements_display_strings@.len() == items.len() && (forall|i: int| 0 <= i < items.len() ==> (#[trigger] items[i]) == Json::Str(w.additional_equip_requirements_display_strings@[i]@)), _ => false }
    &&& match w.pip_icon { Some(x) => spec_lookup(fields, "pipIcon"@) == Some(Json::Str(x@)), Option::None => spec_lookup(fields, "pipIcon"@) is None || spec_lookup(fields, "pipIcon"@) == Some(Json::Null) }
}

/// What a decode failure names: its path points at a field of the
/// document that is indeed not decodable, and an undeclared
/// enumeration code is reported with the enumeration's own message.
pub open spec fn destiny_parent_item_override_err_ok(j: Json, e: DecodeError) -> bool {
    &&& !(j matches Json::Obj(_)) ==> e.path@.len() == 0
    &&& j matches Json::Obj(fields) ==> (
        ((e.path@ == "additionalEquipRequirementsDisplayStrings"@ || spec_starts_with(e.path@, "additionalEquipRequirementsDisplayStrings"@)) && !(match spec_lookup(fields, "additionalEquipRequirementsDisplayStrings"@) { Option::None => false, Some(Json::Arr(items)) => forall|i: int| 0 <= i < items.len() ==> (#[trigger] items[i]) is Str, _ => false }))
        || (e.path@ == "pipIcon"@ && !(match spec_lookup(fields, "pipIcon"@) { Option::None => true, Some(Json::Null) => true, Some(Json::Str(_)) => true, _ => false }))
        || (exists|i: int| 0 <= i < fields.len() && (#[trigger] fields[i]).0 == e.path@ && !((fields[i].0 == "additionalEquipRequirementsDisplayStrings"@ || fields[i].0 == "pipIcon"@))))
}

pub fn encode_destiny_parent_item_override(v: &DestinyParentItemOverride) -> (r: JsonValue)
    ensures
        jview(r) == destiny_parent_item_override_json(*v),
{
    let mut fields: Vec<(String, JsonValue)> = Vec::new();
    let arr_additional_equip_requirements_display_strings = {
        let mut items: Vec<JsonValue> = Vec::new();
        let mut i: usize = 0;
        while i < v.additional_equip_requirements_display_strings.len()
            invariant
                i <= v.additional_equip_requirements_display_strings.len(),
                items@.len() == i,
                forall|k: int| 0 <= k < i ==> jview(#[trigger] items@[k]) == Json::Str(v.additional_equip_requirements_display_strings@[k]@),
            decreases v.additional_equip_requirements_display_strings.len() - i,
        {
            items.push(JsonValue::Str(v.additional_equip_requirements_display_strings[i].clone()));
            i = i + 1;
        }
        JsonValue::Arr(items)
    };
    proof {
        assert(jview(arr_additional_equip_requirements_display_strings)->Arr_0 =~= destiny_parent_item_override_json(*v)->Obj_0[0].1->Arr_0);
    }
    fields.push(("additionalEquipRequirementsDisplayStrings".to_owned(), arr_additional_equip_requirements_display_strings));
    fields.push(("pipIcon".to_owned(), match &v.pip_icon {
        Some(x) => JsonValue::Str(x.clone()),
        Option::None => JsonValue::Null,
    }));
    let r = JsonValue::Obj(fields);
    proof {
        assert(jview(fields@[0].1) == destiny_parent_item_override_json(*v)->Obj_0[0].1);
        assert(jview(fields@[1].1) == destiny_parent_item_override_json(*v)->Obj_0[1].1);
        assert(jview(r)->Obj_0 =~= destiny_parent_item_override_json(*v)->Obj_0);
    }
    r
}

/// Decodes this record; a failure names the offending field in its
/// path and says what was expected of it.
#[verifier::loop_isolation(false)]
pub fn decode_destiny_parent_item_override(j: &JsonValue) -> (r: Result<DestinyParentItemOverride, DecodeError>)
    ensures
        r is Ok <==> destiny_parent_item_override_wf(jview(*j)),
        r matches Ok(w) ==> (jview(*j) matches Json::Obj(fields)
            && destiny_parent_item_override_fields_match(fields, w)),
        r matches Err(e) ==> destiny_parent_item_override_err_ok(jview(*j), e),
{
    let fields = match j {
        JsonValue::Obj(fields) => fields,
        _ => {
            return Err(root_error("an object"));
        },
    };
    let ghost gf = jview(*j)->Obj_0;
    let additional_equip_requirements_display_strings = match j.get("additionalEquipRequirementsDisplayStrings") {
        Option::None => {
            return Err(field_error("additionalEquipRequirementsDisplayStrings", "an array"));
        },
        Some(arr) => match arr {
            JsonValue::Arr(items) => {
                let ghost gitems = jview(*arr)->Arr_0;
                let mut out: Vec<String> = Vec::new();
                let mut i: usize = 0;
                while i < items.len()
                    invariant
                        i <= items.len(),
                        out@.len() == i,
                        forall|k: int| 0 <= k < i ==> (#[trigger] gitems[k]) == Json::Str(out@[k]@),
                    decreases items.len() - i,
                {
                    proof {
                        assert(gitems[i as int] == jview(items@[i as int]));
                    }
                    match &items[i] {
                        JsonValue::Str(s) => {
                            out.push(s.clone());
                        },
                        _ => {
                            return Err(indexed_error("additionalEquipRequirementsDisplayStrings", i, field_error("", "a string")));
                        },
                    }
                    i = i + 1;
                }
                out
            },
            _ => {
                return Err(field_error("additionalEquipRequirementsDisplayStrings", "an array"));
            },
        },
    };
    let pip_icon = match j.get("pipIcon") {
        Option::None => Option::None,
        Some(JsonValue::Null) => Option::None,
        Some(JsonValue::Str(s)) => Some(s.clone()),
        _ => {
            return Err(field_error("pipIcon", "a string or null"));
        },
    };
    let mut i: usize = 0;
    while i < fields.len()
        invariant
            i <= fields.len(),
            gf.len() == fields@.len(),
            forall|k: int| 0 <= k < gf.len()
                ==> #[trigger] gf[k] == (fields@[k].0@, jview(fields@[k].1)),
            forall|k: int| 0 <= k < i
                ==> ((#[trigger] gf[k]).0 == "additionalEquipRequirementsDisplayStrings"@ || gf[k].0 == "pipIcon"@),
        decreases fields.len() - i,
    {
        let name = fields[i].0.as_str();
        if !(str_eq(name, "additionalEquipRequirementsDisplayStrings") || str_eq(name, "pipIcon")) {
            proof {
                assert(gf[i as int].0 == fields@[i as int].0@);
                assert(!destiny_parent_item_override_wf(jview(*j)));
            }
            return Err(field_error(fields[i].0.as_str(), "an unknown field"));
        }
        i = i + 1;
    }
    Ok(DestinyParentItemOverride { additional_equip_requirements_display_strings, pip_icon })
}

/// The wire image of a record is well formed and matched by the
/// record itself: encoding loses nothing that decoding reads.
pub proof fn lemma_destiny_parent_item_override_image(v: DestinyParentItemOverride)
    ensures
        destiny_parent_item_override_wf(destiny_parent_item_override_json(v)),
        destiny_parent_item_override_json(v) matches Json::Obj(fields) && destiny_parent_item_override_fields_match(fields, v),
{
    reveal_strlit("additionalEquipRequirementsDisplayStrings");
    reveal_strlit("pipIcon");
    let fields = destiny_parent_item_override_json(v)->Obj_0;
    assert("additionalEquipRequirementsDisplayStrings"@.len() == 41);
    assert("pipIcon"@.len() == 7);
    assert("additionalEquipRequirementsDisplayStrings"@ != "pipIcon"@);
    lemma_lookup_at(fields, 0);
    lemma_lookup_at(fields, 1);
}

/// Decoding the encoded image of a record yields a record whose
/// every field carries the same content as the one encoded.
pub proof fn lemma_destiny_parent_item_override_round_trip(v: DestinyParentItemOverride, w: DestinyParentItemOverride)
    requires
        destiny_parent_item_override_json(v) matches Json::Obj(fields) && destiny_parent_item_override_fields_match(fields, w),
    ensures
        destiny_parent_item_override_wf(destiny_parent_item_override_json(v)),
        w.additional_equip_requirements_display_strings@.len() == v.additional_equip_requirements_display_strings@.len(),
        forall|i: int| 0 <= i < v.additional_equip_requirements_display_strings@.len() ==> #[trigger] w.additional_equip_requirements_display_strings@[i]@ == v.additional_equip_requirements_display_strings@[i]@,
        (match v.pip_icon { Some(x) => w.pip_icon matches Some(y) && y@ == x@, Option::None => w.pip_icon is None }),
{
    lemma_destiny_parent_item_override_image(v);
    let fields = destiny_parent_item_override_json(v)->Obj_0;
    reveal_strlit("additionalEquipRequirementsDisplayStrings");
    reveal_strlit("pipIcon");
    assert("additionalEquipRequirementsDisplayStrings"@.len() == 41);
    assert("pipIcon"@.len() == 7);
    assert("additionalEquipRequirementsDisplayStrings"@ != "pipIcon"@);
    lemma_lookup_at(fields, 0);
    lemma_lookup_at(fields, 1);
    assert forall|i: int| 0 <= i < v.additional_equip_requirements_display_strings@.len()
        implies #[trigger] w.additional_equip_requirements_display_strings@[i]@ == v.additional_equip_requirements_display_strings@[i]@ by {
        assert(spec_lookup(fields, "additionalEquipRequirementsDisplayStrings"@) matches Some(Json::Arr(items))
            && (items[i] == Json::Str(v.additional_equip_requirements_display_strings@[i]@)
            && items[i] == Json::Str(w.additional_equip_requirements_display_strings@[i]@)));
    }
}

/// The wire image of this record.
pub open spec fn destiny_item_intrinsic_socket_entry_definition_json(v: DestinyItemIntrinsicSocketEntryDefinition) -> Json {
    Json::Obj(
        seq![
            ("plugItemHash"@, Json::Int(v.plug_item_hash as int)),
            ("socketTypeHash"@, Json::Int(v.socket_type_hash as int)),
            ("defaultVisible"@, Json::Bool(v.default_visible)),
        ],
    )
}

/// Whether a document decodes as this record: an object with exactly these fields.
pub open spec fn destiny_item_intrinsic_socket_entry_definition_wf(j: Json) -> bool {
    &&& j matches Json::Obj(fields)
    &&& spec_lookup(fields, "plugItemHash"@) matches Some(Json::Int(n)) && 0 <= n <= u32::MAX as int
    &&& spec_lookup(fields, "socketTypeHash"@) matches Some(Json::Int(n)) && 0 <= n <= u32::MAX as int
    &&& spec_lookup(fields, "defaultVisible"@) matches Some(Json::Bool(_))
    &&& forall|i: int| 0 <= i < fields.len()
        ==> ((#[trigger] fields[i]).0 == "plugItemHash"@ || fields[i].0 == "socketTypeHash"@ || fields[i].0 == "defaultVisible"@)
}

/// How a decoded record relates to the document it came from.
pub open spec fn destiny_item_intrinsic_socket_entry_definition_fields_match(fields: Seq<(Seq<char>, Json)>, w: DestinyItemIntrinsicSocketEntryDefinition) -> bool {
    &&& spec_lookup(fields, "plugItemHash"@) == Some(Json::Int(w.plug_item_hash as int))
    &&& spec_lookup(fields, "socketTypeHash"@) == Some(Json::Int(w.socket_type_hash as int))
    &&& spec_lookup(fields, "defaultVisible"@) == Some(Json::Bool(w.default_visible))
}

/// What a decode failure names: its path points at a field of the
/// document that is indeed not decodable, and an undeclared
/// enumeration code is reported with the enumeration's own message.
pub open spec fn destiny_item_intrinsic_socket_entry_definition_err_ok(j: Json, e: DecodeError) -> bool {
    &&& !(j matches Json::Obj(_)) ==> e.path@.len() == 0
    &&& j matches Json::Obj(fields) ==> (
        (e.path@ == "plugItemHash"@ && !(spec_lookup(fields, "plugItemHash"@) matches Some(Json::Int(n)) && 0 <= n <= u32::MAX as int))
        || (e.path@ == "socketTypeHash"@ && !(spec_lookup(fields, "socketTypeHash"@) matches Some(Json::Int(n)) && 0 <= n <= u32::MAX as int))
        || (e.path@ == "defaultVisible"@ && !(spec_lookup(fields, "defaultVisible"@) matches Some(Json::Bool(_))))
        || (exists|i: int| 0 <= i < fields.len() && (#[trigger] fields[i]).0 == e.path@ && !((fields[i].0 == "plugItemHash"@ || fields[i].0 == "socketTypeHash"@ || fields[i].0 == "defaultVisible"@))))
}

pub fn encode_destiny_item_intrinsic_socket_entry_definition(v: &DestinyItemIntrinsicSocketEntryDefinition) -> (r: JsonValue)
    ensures
        jview(r) == destiny_item_intrinsic_socket_entry_definition_json(*v),
{
    let mut fields: Vec<(String, JsonValue)> = Vec::new();
    fields.push(("plugItemHash".to_owned(), JsonValue::Int(v.plug_item_hash as i64)));
    fields.push(("socketTypeHash".to_owned(), JsonValue::Int(v.socket_type_hash as i64)));
    fields.push(("defaultVisible".to_owned(), JsonValue::Bool(v.default_visible)));
    let r = JsonValue::Obj(fields);
    proof {
        assert(jview(fields@[0].1) == destiny_item_intrinsic_socket_entry_definition_json(*v)->Obj_0[0].1);
        assert(jview(fields@[1].1) == destiny_item_intrinsic_socket_entry_definition_json(*v)->Obj_0[1].1);
        assert(jview(fields@[2].1) == destiny_item_intrinsic_socket_entry_definition_json(*v)->Obj_0[2].1);
        assert(jview(r)->Obj_0 =~= destiny_item_intrinsic_socket_entry_definition_json(*v)->Obj_0);
    }
    r
}

/// Decodes this record; a failure names the offending field in its
/// path and says what was expected of it.
#[verifier::loop_isolation(false)]
pub fn decode_destiny_item_intrinsic_socket_entry_definition(j: &JsonValue) -> (r: Result<DestinyItemIntrinsicSocketEntryDefinition, DecodeError>)
    ensures
        r is Ok <==> destiny_item_intrinsic_socket_entry_definition_wf(jview(*j)),
        r matches Ok(w) ==> (jview(*j) matches Json::Obj(fields)
            && destiny_item_intrinsic_socket_entry_definition_fields_match(fields, w)),
        r matches Err(e) ==> destiny_item_intrinsic_socket_entry_definition_err_ok(jview(*j), e),
{
    let fields = match j {
        JsonValue::Obj(fields) => fields,
        _ => {
            return Err(root_error("an object"));
        },
    };
    let ghost gf = jview(*j)->Obj_0;
    let plug_item_hash = match j.get("plugItemHash") {
        Some(v) => match v.to_i64() {
            Some(n) if 0 <= n && n <= u32::MAX as i64 => n as u32,
            _ => {
                return Err(field_error("plugItemHash", "a 32-bit unsigned integer"));
            },
        },
        _ => {
            return Err(field_error("plugItemHash", "a 32-bit unsigned integer"));
        },
    };
    let socket_type_hash = match j.get("socketTypeHash") {
        Some(v) => match v.to_i64() {
            Some(n) if 0 <= n && n <= u32::MAX as i64 => n as u32,
            _ => {
                return Err(field_error("socketTypeHash", "a 32-bit unsigned integer"));
            },
        },
        _ => {
            return Err(field_error("socketTypeHash", "a 32-bit unsigned integer"));
        },
    };
    let default_visible = match j.get("defaultVisible") {
        Some(JsonValue::Bool(b)) => *b,
        _ => {
            return Err(field_error("defaultVisible", "a boolean"));
        },
    };
    let mut i: usize = 0;
    while i < fields.len()
        invariant
            i <= fields.len(),
            gf.len() == fields@.len(),
            forall|k: int| 0 <= k < gf.len()
                ==> #[trigger] gf[k] == (fields@[k].0@, jview(fields@[k].1)),
            forall|k: int| 0 <= k < i
                ==> ((#[trigger] gf[k]).0 == "plugItemHash"@ || gf[k].0 == "socketTypeHash"@ || gf[k].0 == "defaultVisible"@),
        decreases fields.len() - i,
    {
        let name = fields[i].0.as_str();
        if !(str_eq(name, "plugItemHash") || str_eq(name, "socketTypeHash") || str_eq(name, "defaultVisible")) {
            proof {
                assert(gf[i as int].0 == fields@[i as int].0@);
                assert(!destiny_item_intrinsic_socket_entry_definition_wf(jview(*j)));
            }
            return Err(field_error(fields[i].0.as_str(), "an unknown field"));
        }
        i = i + 1;
    }
    Ok(DestinyItemIntrinsicSocketEntryDefinition { plug_item_hash, socket_type_hash, default_visible })
}

/// The wire image of a record is well formed and matched by the
/// record itself: encoding loses nothing that decoding reads.
pub proof fn lemma_destiny_item_intrinsic_socket_entry_definition_image(v: DestinyItemIntrinsicSocketEntryDefinition)
    ensures
        destiny_item_intrinsic_socket_entry_definition_wf(destiny_item_intrinsic_socket_entry_definition_json(v)),
        destiny_item_intrinsic_socket_entry_definition_json(v) matches Json::Obj(fields) && destiny_item_intrinsic_socket_entry_definition_fields_match(fields, v),
{
    reveal_strlit("plugItemHash");
    reveal_strlit("socketTypeHash");
    reveal_strlit("defaultVisible");
    let fields = destiny_item_intrinsic_socket_entry_definition_json(v)->Obj_0;
    assert("plugItemHash"@.len() == 12);
    assert("socketTypeHash"@.len() == 14);
    assert("defaultVisible"@.len() == 14);
    assert("plugItemHash"@ != "socketTypeHash"@);
    assert("plugItemHash"@ != "defaultVisible"@);
    assert(("socketTypeHash"@)[0] != ("defaultVisible"@)[0]);
    assert("socketTypeHash"@ != "defaultVisible"@);
    lemma_lookup_at(fields, 0);
    lemma_lookup_at(fields, 1);
    lemma_lookup_at(fields, 2);
}

/// Decoding the encoded image of a record yields a record whose
/// every field carries the same content as the one encoded.
pub proof fn lemma_destiny_item_intrinsic_socket_entry_definition_round_trip(v: DestinyItemIntrinsicSocketEntryDefinition, w: DestinyItemIntrinsicSocketEntryDefinition)
    requires
        destiny_item_intrinsic_socket_entry_definition_json(v) matches Json::Obj(fields) && destiny_item_intrinsic_socket_entry_definition_fields_match(fields, w),
    ensures
        destiny_item_intrinsic_socket_entry_definition_wf(destiny_item_intrinsic_socket_entry_definition_json(v)),
        w.plug_item_hash == v.plug_item_hash,
        w.socket_type_hash == v.socket_type_hash,
        w.default_visible == v.default_visible,
{
    lemma_destiny_item_intrinsic_socket_entry_definition_image(v);
    let fields = destiny_item_intrinsic_socket_entry_definition_json(v)->Obj_0;
    reveal_strlit("plugItemHash");
    reveal_strlit("socketTypeHash");
    reveal_strlit("defaultVisible");
    assert("plugItemHash"@.len() == 12);
    assert("socketTypeHash"@.len() == 14);
    assert("defaultVisible"@.len() == 14);
    assert("plugItemHash"@ != "socketTypeHash"@);
    assert("plugItemHash"@ != "defaultVisible"@);
    assert(("socketTypeHash"@)[0] != ("defaultVisible"@)[0]);
    assert("socketTypeHash"@ != "defaultVisible"@);
    lemma_lookup_at(fields, 0);
    lemma_lookup_at(fields, 1);
    lemma_lookup_at(fields, 2);
}

/// The wire image of this record.
pub open spec fn destiny_item_socket_category_definition_json(v: DestinyItemSocketCategoryDefinition) -> Json {
    Json::Obj(
        seq![
            ("socketCategoryHash"@, Json::Int(v.socket_category_hash as int)),
            ("socketIndexes"@, Json::Arr(Seq::new(v.socket_indexes@.len(), |i: int| if 0 <= i < v.socket_indexes@.len() { Json::Int(v.socket_indexes@[i] as int) } else { Json::Null }))),
        ],
    )
}

/// Whether a document decodes as this record: an object with exactly these fields.
pub open spec fn destiny_item_socket_category_definition_wf(j: Json) -> bool {
    &&& j matches Json::Obj(fields)
    &&& spec_lookup(fields, "socketCategoryHash"@) matches Some(Json::Int(n)) && 0 <= n <= u32::MAX as int
    &&& match spec_lookup(fields, "socketIndexes"@) { Option::None => false, Some(Json::Arr(items)) => forall|i: int| 0 <= i < items.len() ==> ((#[trigger] items[i]) matches Json::Int(n) && i32::MIN as int <= n <= i32::MAX as int), _ => false }
    &&& forall|i: int| 0 <= i < fields.len()
        ==> ((#[trigger] fields[i]).0 == "socketCategoryHash"@ || fields[i].0 == "socketIndexes"@)
}

/// How a decoded record relates to the document it came from.
pub open spec fn destiny_item_socket_category_definition_fields_match(fields: Seq<(Seq<char>, Json)>, w: DestinyItemSocketCategoryDefinition) -> bool {
    &&& spec_lookup(fields, "socketCategoryHash"@) == Some(Json::Int(w.socket_category_hash as int))
    &&& match spec_lookup(fields, "socketIndexes"@) { Option::None => false, Some(Json::Arr(items)) => w.socket_indexes@.len() == items.len() && (forall|i: int| 0 <= i < items.len() ==> (#[trigger] items[i]) == Json::Int(w.socket_indexes@[i] as int)), _ => false }
}

/// What a decode failure names: its path points at a field of the
/// document that is indeed not decodable, and an undeclared
/// enumeration code is reported with the enumeration's own message.
pub open spec fn destiny_item_socket_category_definition_err_ok(j: Json, e: DecodeError) -> bool {
    &&& !(j matches Json::Obj(_)) ==> e.path@.len() == 0
    &&& j matches Json::Obj(fields) ==> (
        (e.path@ == "socketCategoryHash"@ && !(spec_lookup(fields, "socketCategoryHash"@) matches Some(Json::Int(n)) && 0 <= n <= u32::MAX as int))
        || ((e.path@ == "socketIndexes"@ || spec_starts_with(e.path@, "socketIndexes"@)) && !(match spec_lookup(fields, "socketIndexes"@) { Option::None => false, Some(Json::Arr(items)) => forall|i: int| 0 <= i < items.len() ==> ((#[trigger] items[i]) matches Json::Int(n) && i32::MIN as int <= n <= i32::MAX as int), _ => false }))
        || (exists|i: int| 0 <= i < fields.len() && (#[trigger] fields[i]).0 == e.path@ && !((fields[i].0 == "socketCategoryHash"@ || fields[i].0 == "socketIndexes"@))))
}

pub fn encode_destiny_item_socket_category_definition(v: &DestinyItemSocketCategoryDefinition) -> (r: JsonValue)
    ensures
        jview(r) == destiny_item_socket_category_definition_json(*v),
{
    let mut fields: Vec<(String, JsonValue)> = Vec::new();
    fields.push(("socketCategoryHash".to_owned(), JsonValue::Int(v.socket_category_hash as i64)));
    let arr_socket_indexes = {
        let mut items: Vec<JsonValue> = Vec::new();
        let mut i: usize = 0;
        while i < v.socket_indexes.len()
            invariant
                i <= v.socket_indexes.len(),
                items@.len() == i,
                forall|k: int| 0 <= k < i ==> jview(#[trigger] items@[k]) == Json::Int(v.socket_indexes@[k] as int),
            decreases v.socket_indexes.len() - i,
        {
            items.push(JsonValue::Int(v.socket_indexes[i] as i64));
            i = i + 1;
        }
        JsonValue::Arr(items)
    };
    proof {
        assert(jview(arr_socket_indexes)->Arr_0 =~= destiny_item_socket_category_definition_json(*v)->Obj_0[1].1->Arr_0);
    }
    fields.push(("socketIndexes".to_owned(), arr_socket_indexes));
    let r = JsonValue::Obj(fields);
    proof {
        assert(jview(fields@[0].1) == destiny_item_socket_category_definition_json(*v)->Obj_0[0].1);
        assert(jview(fields@[1].1) == destiny_item_socket_category_definition_json(*v)->Obj_0[1].1);
        assert(jview(r)->Obj_0 =~= destiny_item_socket_category_definition_json(*v)->Obj_0);
    }
    r
}

/// Decodes this record; a failure names the offending field in its
/// path and says what was expected of it.
#[verifier::loop_isolation(false)]
pub fn decode_destiny_item_socket_category_definition(j: &JsonValue) -> (r: Result<DestinyItemSocketCategoryDefinition, DecodeError>)
    ensures
        r is Ok <==> destiny_item_socket_category_definition_wf(jview(*j)),
        r matches Ok(w) ==> (jview(*j) matches Json::Obj(fields)
            && destiny_item_socket_category_definition_fields_match(fields, w)),
        r matches Err(e) ==> destiny_item_socket_category_definition_err_ok(jview(*j), e),
{
    let fields = match j {
        JsonValue::Obj(fields) => fields,
        _ => {
            return Err(root_error("an object"));
        },
    };
    let ghost gf = jview(*j)->Obj_0;
    let socket_category_hash = match j.get("socketCategoryHash") {
        Some(v) => match v.to_i64() {
            Some(n) if 0 <= n && n <= u32::MAX as i64 => n as u32,
            _ => {
                return Err(field_error("socketCategoryHash", "a 32-bit unsigned integer"));
            },
        },
        _ => {
            return Err(field_error("socketCategoryHash", "a 32-bit unsigned integer"));
        },
    };
    let socket_indexes = match j.get("socketIndexes") {
        Option::None => {
            return Err(field_error("socketIndexes", "an array"));
        },
        Some(arr) => match arr {
            JsonValue::Arr(items) => {
                let ghost gitems = jview(*arr)->Arr_0;
                let mut out: Vec<i32> = Vec::new();
                let mut i: usize = 0;
                while i < items.len()
                    invariant
                        i <= items.len(),
                        out@.len() == i,
                        forall|k: int| 0 <= k < i ==> (#[trigger] gitems[k]) == Json::Int(out@[k] as int),
                    decreases items.len() - i,
                {
                    proof {
                        assert(gitems[i as int] == jview(items@[i as int]));
                    }
                    let n = match items[i].to_i64() {
                        Some(n) if i32::MIN as i64 <= n && n <= i32::MAX as i64 => n,
                        _ => {
                            return Err(indexed_error("socketIndexes", i, field_error("", "a 32-bit integer")));
                        },
                    };
                    out.push(n as i32);
                    i = i + 1;
                }
                out
            },
            _ => {
                return Err(field_error("socketIndexes", "an array"));
            },
        },
    };
    let mut i: usize = 0;
    while i < fields.len()
        invariant
            i <= fields.len(),
            gf.len() == fields@.len(),
            forall|k: int| 0 <= k < gf.len()
                ==> #[trigger] gf[k] == (fields@[k].0@, jview(fields@[k].1)),
            forall|k: int| 0 <= k < i
                ==> ((#[trigger] gf[k]).0 == "socketCategoryHash"@ || gf[k].0 == "socketIndexes"@),
        decreases fields.len() - i,
    {
        let name = fields[i].0.as_str();
        if !(str_eq(name, "socketCategoryHash") || str_eq(name, "socketIndexes")) {
            proof {
                assert(gf[i as int].0 == fields@[i as int].0@);
                assert(!destiny_item_socket_category_definition_wf(jview(*j)));
            }
            return Err(field_error(fields[i].0.as_str(), "an unknown field"));
        }
        i = i + 1;
    }
    Ok(DestinyItemSocketCategoryDefinition { socket_category_hash, socket_indexes })
}

/// The wire image of a record is well formed and matched by the
/// record itself: encoding loses nothing that decoding reads.
pub proof fn lemma_destiny_item_socket_category_definition_image(v: DestinyItemSocketCategoryDefinition)
    ensures
        destiny_item_socket_category_definition_wf(destiny_item_socket_category_definition_json(v)),
        destiny_item_socket_category_definition_json(v) matches Json::Obj(fields) && destiny_item_socket_category_definition_fields_match(fields, v),
{
    reveal_strlit("socketCategoryHash");
    reveal_strlit("socketIndexes");
    let fields = destiny_item_socket_category_definition_json(v)->Obj_0;
    assert("socketCategoryHash"@.len() == 18);
    assert("socketIndexes"@.len() == 13);
    assert("socketCategoryHash"@ != "socketIndexes"@);
    lemma_lookup_at(fields, 0);
    lemma_lookup_at(fields, 1);
}

/// Decoding the encoded image of a record yields a record whose
/// every field carries the same content as the one encoded.
pub proof fn lemma_destiny_item_socket_category_definition_round_trip(v: DestinyItemSocketCategoryDefinition, w: DestinyItemSocketCategoryDefinition)
    requires
        destiny_item_socket_category_definition_json(v) matches Json::Obj(fields) && destiny_item_socket_category_definition_fields_match(fields, w),
    ensures
        destiny_item_socket_category_definition_wf(destiny_item_socket_category_definition_json(v)),
        w.socket_category_hash == v.socket_category_hash,
        w.socket_indexes@ == v.socket_indexes@,
{
    lemma_destiny_item_socket_category_definition_image(v);
    let fields = destiny_item_socket_category_definition_json(v)->Obj_0;
    reveal_strlit("socketCategoryHash");
    reveal_strlit("socketIndexes");
    assert("socketCategoryHash"@.len() == 18);
    assert("socketIndexes"@.len() == 13);
    assert("socketCategoryHash"@ != "socketIndexes"@);
    lemma_lookup_at(fields, 0);
    lemma_lookup_at(fields, 1);
    assert(w.socket_indexes@ =~= v.socket_indexes@) by {
        assert forall|i: int| 0 <= i < v.socket_indexes@.len()
            implies #[trigger] w.socket_indexes@[i] == v.socket_indexes@[i] by {
            assert(spec_lookup(fields, "socketIndexes"@) matches Some(Json::Arr(items))
                && (items[i] == Json::Int(v.socket_indexes@[i] as int)
                && items[i] == Json::Int(w.socket_indexes@[i] as int)));
        }
    }
}

/// The wire image of this record.
pub open spec fn destiny_item_metric_block_definition_json(v: DestinyItemMetricBlockDefinition) -> Json {
    Json::Obj(
        seq![
            ("availableMetricCategoryNodeHashes"@, Json::Arr(Seq::new(v.available_metric_category_node_hashes@.len(), |i: int| if 0 <= i < v.available_metric_category_node_hashes@.len() { Json::Int(v.available_metric_category_node_hashes@[i] as int) } else { Json::Null }))),
        ],
    )
}

/// Whether a document decodes as this record: an object with exactly these fields.
pub open spec fn destiny_item_metric_block_definition_wf(j: Json) -> bool {
    &&& j matches Json::Obj(fields)
    &&& match spec_lookup(fields, "availableMetricCategoryNodeHashes"@) { Option::None => false, Some(Json::Arr(items)) => forall|i: int| 0 <= i < items.len() ==> ((#[trigger] items[i]) matches Json::Int(n) && 0 <= n <= u32::MAX as int), _ => false }
    &&& forall|i: int| 0 <= i < fields.len()
        ==> ((#[trigger] fields[i]).0 == "availableMetricCategoryNodeHashes"@)
}

/// How a decoded record relates to the document it came from.
pub open spec fn destiny_item_metric_block_definition_fields_match(fields: Seq<(Seq<char>, Json)>, w: DestinyItemMetricBlockDefinition) -> bool {
    &&& match spec_lookup(fields, "availableMetricCategoryNodeHashes"@) { Option::None => false, Some(Json::Arr(items)) => w.available_metric_category_node_hashes@.len() == items.len() && (forall|i: int| 0 <= i < items.len() ==> (#[trigger] items[i]) == Json::Int(w.available_metric_category_node_hashes@[i] as int)), _ => false }
}

/// What a decode failure names: its path points at a field of the
/// document that is indeed not decodable, and an undeclared
/// enumeration code is reported with the enumeration's own message.
pub open spec fn destiny_item_metric_block_definition_err_ok(j: Json, e: DecodeError) -> bool {
    &&& !(j matches Json::Obj(_)) ==> e.path@.len() == 0
    &&& j matches Json::Obj(fields) ==> (
        ((e.path@ == "availableMetricCategoryNodeHashes"@ || spec_starts_with(e.path@, "availableMetricCategoryNodeHashes"@)) && !(match spec_lookup(fields, "availableMetricCategoryNodeHashes"@) { Option::None => false, Some(Json::Arr(items)) => forall|i: int| 0 <= i < items.len() ==> ((#[trigger] items[i]) matches Json::Int(n) && 0 <= n <= u32::MAX as int), _ => false }))
        || (exists|i: int| 0 <= i < fields.len() && (#[trigger] fields[i]).0 == e.path@ && !((fields[i].0 == "availableMetricCategoryNodeHashes"@))))
}

pub fn encode_destiny_item_metric_block_definition(v: &DestinyItemMetricBlockDefinition) -> (r: JsonValue)
    ensures
        jview(r) == destiny_item_metric_block_definition_json(*v),
{
    let mut fields: Vec<(String, JsonValue)> = Vec::new();
    let arr_available_metric_category_node_hashes = {
        let mut items: Vec<JsonValue> = Vec::new();
        let mut i: usize = 0;
        while i < v.available_metric_category_node_hashes.len()
            invariant
                i <= v.available_metric_category_node_hashes.len(),
                items@.len() == i,
                forall|k: int| 0 <= k < i ==> jview(#[trigger] items@[k]) == Json::Int(v.available_metric_category_node_hashes@[k] as int),
            decreases v.available_metric_category_node_hashes.len() - i,
        {
            items.push(JsonValue::Int(v.available_metric_category_node_hashes[i] as i64));
            i = i + 1;
        }
        JsonValue::Arr(items)
    };
    proof {
        assert(jview(arr_available_metric_category_node_hashes)->Arr_0 =~= destiny_item_metric_block_definition_json(*v)->Obj_0[0].1->Arr_0);
    }
    fields.push(("availableMetricCategoryNodeHashes".to_owned(), arr_available_metric_category_node_hashes));
    let r = JsonValue::Obj(fields);
    proof {
        assert(jview(fields@[0].1) == destiny_item_metric_block_definition_json(*v)->Obj_0[0].1);
        assert(jview(r)->Obj_0 =~= destiny_item_metric_block_definition_json(*v)->Obj_0);
    }
    r
}

/// Decodes this record; a failure names the offending field in its
/// path and says what was expected of it.
#[verifier::loop_isolation(false)]
pub fn decode_destiny_item_metric_block_definition(j: &JsonValue) -> (r: Result<DestinyItemMetricBlockDefinition, DecodeError>)
    ensures
        r is Ok <==> destiny_item_metric_block_definition_wf(jview(*j)),
        r matches Ok(w) ==> (jview(*j) matches Json::Obj(fields)
            && destiny_item_metric_block_definition_fields_match(fields, w)),
        r matches Err(e) ==> destiny_item_metric_block_definition_err_ok(jview(*j), e),
{
    let fields = match j {
        JsonValue::Obj(fields) => fields,
        _ => {
            return Err(root_error("an object"));
        },
    };
    let ghost gf = jview(*j)->Obj_0;
    let available_metric_category_node_hashes = match j.get("availableMetricCategoryNodeHashes") {
        Option::None => {
            return Err(field_error("availableMetricCategoryNodeHashes", "an array"));
        },
        Some(arr) => match arr {
            JsonValue::Arr(items) => {
                let ghost gitems = jview(*arr)->Arr_0;
                let mut out: Vec<u32> = Vec::new();
                let mut i: usize = 0;
                while i < items.len()
                    invariant
                        i <= items.len(),
                        out@.len() == i,
                        forall|k: int| 0 <= k < i ==> (#[trigger] gitems[k]) == Json::Int(out@[k] as int),
                    decreases items.len() - i,
                {
                    proof {
                        assert(gitems[i as int] == jview(items@[i as int]));
                    }
                    let n = match items[i].to_i64() {
                        Some(n) if 0 <= n && n <= u32::MAX as i64 => n,
                        _ => {
                            return Err(indexed_error("availableMetricCategoryNodeHashes", i, field_error("", "a 32-bit unsigned integer")));
                        },
                    };
                    out.push(n as u32);
                    i = i + 1;
                }
                out
            },
            _ => {
                return Err(field_error("availableMetricCategoryNodeHashes", "an array"));
            },
        },
    };
    let mut i: usize = 0;
    while i < fields.len()
        invariant
            i <= fields.len(),
            gf.len() == fields@.len(),
            forall|k: int| 0 <= k < gf.len()
                ==> #[trigger] gf[k] == (fields@[k].0@, jview(fields@[k].1)),
            forall|k: int| 0 <= k < i
                ==> ((#[trigger] gf[k]).0 == "availableMetricCategoryNodeHashes"@),
        decreases fields.len() - i,
    {
        let name = fields[i].0.as_str();
        if !(str_eq(name, "availableMetricCategoryNodeHashes")) {
            proof {
                assert(gf[i as int].0 == fields@[i as int].0@);
                assert(!destiny_item_metric_block_definition_wf(jview(*j)));
            }
            return Err(field_error(fields[i].0.as_str(), "an unknown field"));
        }
        i = i + 1;
    }
    Ok(DestinyItemMetricBlockDefinition { available_metric_category_node_hashes })
}

/// The wire image of a record is well formed and matched by the
/// record itself: encoding loses nothing that decoding reads.
pub proof fn lemma_destiny_item_metric_block_definition_image(v: DestinyItemMetricBlockDefinition)
    ensures
        destiny_item_metric_block_definition_wf(destiny_item_metric_block_definition_json(v)),
        destiny_item_metric_block_definition_json(v) matches Json::Obj(fields) && destiny_item_metric_block_definition_fields_match(fields, v),
{
    reveal_strlit("availableMetricCategoryNodeHashes");
    let fields = destiny_item_metric_block_definition_json(v)->Obj_0;
    assert("availableMetricCategoryNodeHashes"@.len() == 33);
    lemma_lookup_at(fields, 0);
}

/// Decoding the encoded image of a record yields a record whose
/// every field carries the same content as the one encoded.
pub proof fn lemma_destiny_item_metric_block_definition_round_trip(v: DestinyItemMetricBlockDefinition, w: DestinyItemMetricBlockDefinition)
    requires
        destiny_item_metric_block_definition_json(v) matches Json::Obj(fields) && destiny_item_metric_block_definition_fields_match(fields, w),
    ensures
        destiny_item_metric_block_definition_wf(destiny_item_metric_block_definition_json(v)),
        w.available_metric_category_node_hashes@ == v.available_metric_category_node_hashes@,
{
    lemma_destiny_item_metric_block_definition_image(v);
    let fields = destiny_item_metric_block_definition_json(v)->Obj_0;
    reveal_strlit("availableMetricCategoryNodeHashes");
    assert("availableMetricCategoryNodeHashes"@.len() == 33);
    lemma_lookup_at(fields, 0);
    assert(w.available_metric_category_node_hashes@ =~= v.available_metric_category_node_hashes@) by {
        assert forall|i: int| 0 <= i < v.available_metric_category_node_hashes@.len()
            implies #[trigger] w.available_metric_category_node_hashes@[i] == v.available_metric_category_node_hashes@[i] by {
            assert(spec_lookup(fields, "availableMetricCategoryNodeHashes"@) matches Some(Json::Arr(items))
                && (items[i] == Json::Int(v.available_metric_category_node_hashes@[i] as int)
                && items[i] == Json::Int(w.available_metric_category_node_hashes@[i] as int)));
        }
    }
}

/// The wire image of this record.
pub open spec fn destiny_item_vendor_source_reference_json(v: DestinyItemVendorSourceReference) -> Json {
    Json::Obj(
        seq![
            ("vendorHash"@, Json::Int(v.vendor_hash as int)),
            ("vendorItemIndexes"@, Json::Arr(Seq::new(v.vendor_item_indexes@.len(), |i: int| if 0 <= i < v.vendor_item_indexes@.len() { Json::Int(v.vendor_item_indexes@[i] as int) } else { Json::Null }))),
        ],
    )
}

/// Whether a document decodes as this record: an object with exactly these fields.
pub open spec fn destiny_item_vendor_source_reference_wf(j: Json) -> bool {
    &&& j matches Json::Obj(fields)
    &&& spec_lookup(fields, "vendorHash"@) matches Some(Json::Int(n)) && 0 <= n <= u32::MAX as int
    &&& match spec_lookup(fields, "vendorItemIndexes"@) { Option::None => false, Some(Json::Arr(items)) => forall|i: int| 0 <= i < items.len() ==> ((#[trigger] items[i]) matches Json::Int(n) && i32::MIN as int <= n <= i32::MAX as int), _ => false }
    &&& forall|i: int| 0 <= i < fields.len()
        ==> ((#[trigger] fields[i]).0 == "vendorHash"@ || fields[i].0 == "vendorItemIndexes"@)
}

/// How a decoded record relates to the document it came from.
pub open spec fn destiny_item_vendor_source_reference_fields_match(fields: Seq<(Seq<char>, Json)>, w: DestinyItemVendorSourceReference) -> bool {
    &&& spec_lookup(fields, "vendorHash"@) == Some(Json::Int(w.vendor_hash as int))
    &&& match spec_lookup(fields, "vendorItemIndexes"@) { Option::None => false, Some(Json::Arr(items)) => w.vendor_item_indexes@.len() == items.len() && (forall|i: int| 0 <= i < items.len() ==> (#[trigger] items[i]) == Json::Int(w.vendor_item_indexes@[i] as int)), _ => false }
}

/// What a decode failure names: its path points at a field of the
/// document that is indeed not decodable, and an undeclared
/// enumeration code is reported with the enumeration's own message.
pub open spec fn destiny_item_vendor_source_reference_err_ok(j: Json, e: DecodeError) -> bool {
    &&& !(j matches Json::Obj(_)) ==> e.path@.len() == 0
    &&& j matches Json::Obj(fields) ==> (
        (e.path@ == "vendorHash"@ && !(spec_lookup(fields, "vendorHash"@) matches Some(Json::Int(n)) && 0 <= n <= u32::MAX as int))
        || ((e.path@ == "vendorItemIndexes"@ || spec_starts_with(e.path@, "vendorItemIndexes"@)) && !(match spec_lookup(fields, "vendorItemIndexes"@) { Option::None => false, Some(Json::Arr(items)) => forall|i: int| 0 <= i < items.len() ==> ((#[trigger] items[i]) matches Json::Int(n) && i32::MIN as int <= n <= i32::MAX as int), _ => false }))
        || (exists|i: int| 0 <= i < fields.len() && (#[trigger] fields[i]).0 == e.path@ && !((fields[i].0 == "vendorHash"@ || fields[i].0 == "vendorItemIndexes"@))))
}

pub fn encode_destiny_item_vendor_source_reference(v: &DestinyItemVendorSourceReference) -> (r: JsonValue)
    ensures
        jview(r) == destiny_item_vendor_source_reference_json(*v),
{
    let mut fields: Vec<(String, JsonValue)> = Vec::new();
    fields.push(("vendorHash".to_owned(), JsonValue::Int(v.vendor_hash as i64)));
    let arr_vendor_item_indexes = {
        let mut items: Vec<JsonValue> = Vec::new();
        let mut i: usize = 0;
        while i < v.vendor_item_indexes.len()
            invariant
                i <= v.vendor_item_indexes.len(),
                items@.len() == i,
                forall|k: int| 0 <= k < i ==> jview(#[trigger] items@[k]) == Json::Int(v.vendor_item_indexes@[k] as int),
            decreases v.vendor_item_indexes.len() - i,
        {
            items.push(JsonValue::Int(v.vendor_item_indexes[i] as i64));
            i = i + 1;
        }
        JsonValue::Arr(items)
    };
    proof {
        assert(jview(arr_vendor_item_indexes)->Arr_0 =~= destiny_item_vendor_source_reference_json(*v)->Obj_0[1].1->Arr_0);
    }
    fields.push(("vendorItemIndexes".to_owned(), arr_vendor_item_indexes));
    let r = JsonValue::Obj(fields);
    proof {
        assert(jview(fields@[0].1) == destiny_item_vendor_source_reference_json(*v)->Obj_0[0].1);
        assert(jview(fields@[1].1) == destiny_item_vendor_source_reference_json(*v)->Obj_0[1].1);
        assert(jview(r)->Obj_0 =~= destiny_item_vendor_source_reference_json(*v)->Obj_0);
    }
    r
}

/// Decodes this record; a failure names the offending field in its
/// path and says what was expected of it.
#[verifier::loop_isolation(false)]
pub fn decode_destiny_item_vendor_source_reference(j: &JsonValue) -> (r: Result<DestinyItemVendorSourceReference, DecodeError>)
    ensures
        r is Ok <==> destiny_item_vendor_source_reference_wf(jview(*j)),
        r matches Ok(w) ==> (jview(*j) matches Json::Obj(fields)
            && destiny_item_vendor_source_reference_fields_match(fields, w)),
        r matches Err(e) ==> destiny_item_vendor_source_reference_err_ok(jview(*j), e),
{
    let fields = match j {
        JsonValue::Obj(fields) => fields,
        _ => {
            return Err(root_error("an object"));
        },
    };
    let ghost gf = jview(*j)->Obj_0;
    let vendor_hash = match j.get("vendorHash") {
        Some(v) => match v.to_i64() {
            Some(n) if 0 <= n && n <= u32::MAX as i64 => n as u32,
            _ => {
                return Err(field_error("vendorHash", "a 32-bit unsigned integer"));
            },
        },
        _ => {
            return Err(field_error("vendorHash", "a 32-bit unsigned integer"));
        },
    };
    let vendor_item_indexes = match j.get("vendorItemIndexes") {
        Option::None => {
            return Err(field_error("vendorItemIndexes", "an array"));
        },
        Some(arr) => match arr {
            JsonValue::Arr(items) => {
                let ghost gitems = jview(*arr)->Arr_0;
                let mut out: Vec<i32> = Vec::new();
                let mut i: usize = 0;
                while i < items.len()
                    invariant
                        i <= items.len(),
                        out@.len() == i,
                        forall|k: int| 0 <= k < i ==> (#[trigger] gitems[k]) == Json::Int(out@[k] as int),
                    decreases items.len() - i,
                {
                    proof {
                        assert(gitems[i as int] == jview(items@[i as int]));
                    }
                    let n = match items[i].to_i64() {
                        Some(n) if i32::MIN as i64 <= n && n <= i32::MAX as i64 => n,
                        _ => {
                            return Err(indexed_error("vendorItemIndexes", i, field_error("", "a 32-bit integer")));
                        },
                    };
                    out.push(n as i32);
                    i = i + 1;
                }
                out
            },
            _ => {
                return Err(field_error("vendorItemIndexes", "an array"));
            },
        },
    };
    let mut i: usize = 0;
    while i < fields.len()
        invariant
            i <= fields.len(),
            gf.len() == fields@.len(),
            forall|k: int| 0 <= k < gf.len()
                ==> #[trigger] gf[k] == (fields@[k].0@, jview(fields@[k].1)),
            forall|k: int| 0 <= k < i
                ==> ((#[trigger] gf[k]).0 == "vendorHash"@ || gf[k].0 == "vendorItemIndexes"@),
        decreases fields.len() - i,
    {
        let name = fields[i].0.as_str();
        if !(str_eq(name, "vendorHash") || str_eq(name, "vendorItemIndexes")) {
            proof {
                assert(gf[i as int].0 == fields@[i as int].0@);
                assert(!destiny_item_vendor_source_reference_wf(jview(*j)));
            }
            return Err(field_error(fields[i].0.as_str(), "an unknown field"));
        }
        i = i + 1;
    }
    Ok(DestinyItemVendorSourceReference { vendor_hash, vendor_item_indexes })
}

/// The wire image of a record is well formed and matched by the
/// record itself: encoding loses nothing that decoding reads.
pub proof fn lemma_destiny_item_vendor_source_reference_image(v: DestinyItemVendorSourceReference)
    ensures
        destiny_item_vendor_source_reference_wf(destiny_item_vendor_source_reference_json(v)),
        destiny_item_vendor_source_reference_json(v) matches Json::Obj(fields) && destiny_item_vendor_source_reference_fields_match(fields, v),
{
    reveal_strlit("vendorHash");
    reveal_strlit("vendorItemIndexes");
    let fields = destiny_item_vendor_source_reference_json(v)->Obj_0;
    assert("vendorHash"@.len() == 10);
    assert("vendorItemIndexes"@.len() == 17);
    assert("vendorHash"@ != "vendorItemIndexes"@);
    lemma_lookup_at(fields, 0);
    lemma_lookup_at(fields, 1);
}

/// Decoding the encoded image of a record yields a record whose
/// every field carries the same content as the one encoded.
pub proof fn lemma_destiny_item_vendor_source_reference_round_trip(v: DestinyItemVendorSourceReference, w: DestinyItemVendorSourceReference)
    requires
        destiny_item_vendor_source_reference_json(v) matches Json::Obj(fields) && destiny_item_vendor_source_reference_fields_match(fields, w),
    ensures
        destiny_item_vendor_source_reference_wf(destiny_item_vendor_source_reference_json(v)),
        w.vendor_hash == v.vendor_hash,
        w.vendor_item_indexes@ == v.vendor_item_indexes@,
{
    lemma_destiny_item_vendor_source_reference_image(v);
    let fields = destiny_item_vendor_source_reference_json(v)->Obj_0;
    reveal_strlit("vendorHash");
    reveal_strlit("vendorItemIndexes");
    assert("vendorHash"@.len() == 10);
    assert("vendorItemIndexes"@.len() == 17);
    assert("vendorHash"@ != "vendorItemIndexes"@);
    lemma_lookup_at(fields, 0);
    lemma_lookup_at(fields, 1);
    assert(w.vendor_item_indexes@ =~= v.vendor_item_indexes@) by {
        assert forall|i: int| 0 <= i < v.vendor_item_indexes@.len()
            implies #[trigger] w.vendor_item_indexes@[i] == v.vendor_item_indexes@[i] by {
            assert(spec_lookup(fields, "vendorItemIndexes"@) matches Some(Json::Arr(items))
                && (items[i] == Json::Int(v.vendor_item_indexes@[i] as int)
                && items[i] == Json::Int(w.vendor_item_indexes@[i] as int)));
        }
    }
}

/// The wire image of this record.
pub open spec fn destiny_challenge_status_json(v: DestinyChallengeStatus) -> Json {
    Json::Obj(
        seq![
            ("objective"@, destiny_objective_progress_json(v.objective)),
        ],
    )
}

/// Whether a document decodes as this record: unknown fields are tolerated.
pub open spec fn destiny_challenge_status_wf(j: Json) -> bool {
    &&& j matches Json::Obj(fields)
    &&& spec_lookup(fields, "objective"@) matches Some(inner) && destiny_objective_progress_wf(inner)
}

/// How a decoded record relates to the document it came from.
pub open spec fn destiny_challenge_status_fields_match(fields: Seq<(Seq<char>, Json)>, w: DestinyChallengeStatus) -> bool {
    &&& spec_lookup(fields, "objective"@) matches Some(Json::Obj(inner)) && destiny_objective_progress_fields_match(inner, w.objective)
}

/// What a decode failure names: its path points at a field of the
/// document that is indeed not decodable, and an undeclared
/// enumeration code is reported with the enumeration's own message.
pub open spec fn destiny_challenge_status_err_ok(j: Json, e: DecodeError) -> bool {
    &&& !(j matches Json::Obj(_)) ==> e.path@.len() == 0
    &&& j matches Json::Obj(fields) ==> (
        ((e.path@ == "objective"@ || spec_starts_with(e.path@, "objective"@)) && !(spec_lookup(fields, "objective"@) matches Some(inner) && destiny_objective_progress_wf(inner))))
}

pub fn encode_destiny_challenge_status(v: &DestinyChallengeStatus) -> (r: JsonValue)
    ensures
        jview(r) == destiny_challenge_status_json(*v),
{
    let mut fields: Vec<(String, JsonValue)> = Vec::new();
    fields.push(("objective".to_owned(), encode_destiny_objective_progress(&v.objective)));
    let r = JsonValue::Obj(fields);
    proof {
        assert(jview(fields@[0].1) == destiny_challenge_status_json(*v)->Obj_0[0].1);
        assert(jview(r)->Obj_0 =~= destiny_challenge_status_json(*v)->Obj_0);
    }
    r
}

/// Decodes this record; a failure names the offending field in its
/// path and says what was expected of it.
#[verifier::loop_isolation(false)]
pub fn decode_destiny_challenge_status(j: &JsonValue) -> (r: Result<DestinyChallengeStatus, DecodeError>)
    ensures
        r is Ok <==> destiny_challenge_status_wf(jview(*j)),
        r matches Ok(w) ==> (jview(*j) matches Json::Obj(fields)
            && destiny_challenge_status_fields_match(fields, w)),
        r matches Err(e) ==> destiny_challenge_status_err_ok(jview(*j), e),
{
    let fields = match j {
        JsonValue::Obj(fields) => fields,
        _ => {
            return Err(root_error("an object"));
        },
    };
    let ghost gf = jview(*j)->Obj_0;
    let objective = match j.get("objective") {
        Some(inner) => match decode_destiny_objective_progress(inner) {
            Ok(r) => r,
            Err(e) => {
                return Err(nested_error("objective", e));
            },
        },
        _ => {
            return Err(field_error("objective", "an object"));
        },
    };
    Ok(DestinyChallengeStatus { objective })
}

/// The wire image of a record is well formed and matched by the
/// record itself: encoding loses nothing that decoding reads.
pub proof fn lemma_destiny_challenge_status_image(v: DestinyChallengeStatus)
    ensures
        destiny_challenge_status_wf(destiny_challenge_status_json(v)),
        destiny_challenge_status_json(v) matches Json::Obj(fields) && destiny_challenge_status_fields_match(fields, v),
{
    reveal_strlit("objective");
    let fields = destiny_challenge_status_json(v)->Obj_0;
    assert("objective"@.len() == 9);
    lemma_lookup_at(fields, 0);
    lemma_destiny_objective_progress_image(v.objective);
}

/// Decoding the encoded image of a record yields a record whose
/// every field carries the same content as the one encoded.
pub proof fn lemma_destiny_challenge_status_round_trip(v: DestinyChallengeStatus, w: DestinyChallengeStatus)
    requires
        destiny_challenge_status_json(v) matches Json::Obj(fields) && destiny_challenge_status_fields_match(fields, w),
    ensures
        destiny_challenge_status_wf(destiny_challenge_status_json(v)),
        destiny_objective_progress_json(v.objective) matches Json::Obj(f2) && destiny_objective_progress_fields_match(f2, w.objective),
{
    lemma_destiny_challenge_status_image(v);
    let fields = destiny_challenge_status_json(v)->Obj_0;
    reveal_strlit("objective");
    assert("objective"@.len() == 9);
    lemma_lookup_at(fields, 0);
    lemma_destiny_objective_progress_image(v.objective);
}

/// The wire image of this record.
pub open spec fn destiny_milestone_activity_completion_status_json(v: DestinyMilestoneActivityCompletionStatus) -> Json {
    Json::Obj(
        seq![
            ("completed"@, Json::Bool(v.completed)),
            ("phases"@, Json::Arr(Seq::new(v.phases@.len(), |i: int| if 0 <= i < v.phases@.len() { destiny_milestone_activity_phase_json(v.phases@[i]) } else { Json::Null }))),
        ],
    )
}

/// Whether a document decodes as this record: unknown fields are tolerated.
pub open spec fn destiny_milestone_activity_completion_status_wf(j: Json) -> bool {
    &&& j matches Json::Obj(fields)
    &&& spec_lookup(fields, "completed"@) matches Some(Json::Bool(_))
    &&& match spec_lookup(fields, "phases"@) { Option::None => false, Some(Json::Arr(items)) => forall|i: int| 0 <= i < items.len() ==> destiny_milestone_activity_phase_wf(#[trigger] items[i]), _ => false }
}

/// How a decoded record relates to the document it came from.
pub open spec fn destiny_milestone_activity_completion_status_fields_match(fields: Seq<(Seq<char>, Json)>, w: DestinyMilestoneActivityCompletionStatus) -> bool {
    &&& spec_lookup(fields, "completed"@) == Some(Json::Bool(w.completed))
    &&& match spec_lookup(fields, "phases"@) { Option::None => false, Some(Json::Arr(items)) => w.phases@.len() == items.len() && (forall|i: int| 0 <= i < items.len() ==> ((#[trigger] items[i]) matches Json::Obj(f2) && destiny_milestone_activity_phase_fields_match(f2, w.phases@[i]))), _ => false }
}

/// What a decode failure names: its path points at a field of the
/// document that is indeed not decodable, and an undeclared
/// enumeration code is reported with the enumeration's own message.
pub open spec fn destiny_milestone_activity_completion_status_err_ok(j: Json, e: DecodeError) -> bool {
    &&& !(j matches Json::Obj(_)) ==> e.path@.len() == 0
    &&& j matches Json::Obj(fields) ==> (
        (e.path@ == "completed"@ && !(spec_lookup(fields, "completed"@) matches Some(Json::Bool(_))))
        || ((e.path@ == "phases"@ || spec_starts_with(e.path@, "phases"@)) && !(match spec_lookup(fields, "phases"@) { Option::None => false, Some(Json::Arr(items)) => forall|i: int| 0 <= i < items.len() ==> destiny_milestone_activity_phase_wf(#[trigger] items[i]), _ => false })))
}

pub fn encode_destiny_milestone_activity_completion_status(v: &DestinyMilestoneActivityCompletionStatus) -> (r: JsonValue)
    ensures
        jview(r) == destiny_milestone_activity_completion_status_json(*v),
{
    let mut fields: Vec<(String, JsonValue)> = Vec::new();
    fields.push(("completed".to_owned(), JsonValue::Bool(v.completed)));
    let arr_phases = {
        let mut items: Vec<JsonValue> = Vec::new();
        let mut i: usize = 0;
        while i < v.phases.len()
            invariant
                i <= v.phases.len(),
                items@.len() == i,
                forall|k: int| 0 <= k < i ==> jview(#[trigger] items@[k]) == destiny_milestone_activity_phase_json(v.phases@[k]),
            decreases v.phases.len() - i,
        {
            items.push(encode_destiny_milestone_activity_phase(&v.phases[i]));
            i = i + 1;
        }
        JsonValue::Arr(items)
    };
    proof {
        assert(jview(arr_phases)->Arr_0 =~= destiny_milestone_activity_completion_status_json(*v)->Obj_0[1].1->Arr_0);
    }
    fields.push(("phases".to_owned(), arr_phases));
    let r = JsonValue::Obj(fields);
    proof {
        assert(jview(fields@[0].1) == destiny_milestone_activity_completion_status_json(*v)->Obj_0[0].1);
        assert(jview(fields@[1].1) == destiny_milestone_activity_completion_status_json(*v)->Obj_0[1].1);
        assert(jview(r)->Obj_0 =~= destiny_milestone_activity_completion_status_json(*v)->Obj_0);
    }
    r
}

/// Decodes this record; a failure names the offending field in its
/// path and says what was expected of it.
#[verifier::loop_isolation(false)]
pub fn decode_destiny_milestone_activity_completion_status(j: &JsonValue) -> (r: Result<DestinyMilestoneActivityCompletionStatus, DecodeError>)
    ensures
        r is Ok <==> destiny_milestone_activity_completion_status_wf(jview(*j)),
        r matches Ok(w) ==> (jview(*j) matches Json::Obj(fields)
            && destiny_milestone_activity_completion_status_fields_match(fields, w)),
        r matches Err(e) ==> destiny_milestone_activity_completion_status_err_ok(jview(*j), e),
{
    let fields = match j {
        JsonValue::Obj(fields) => fields,
        _ => {
            return Err(root_error("an object"));
        },
    };
    let ghost gf = jview(*j)->Obj_0;
    let completed = match j.get("completed") {
        Some(JsonValue::Bool(b)) => *b,
        _ => {
            return Err(field_error("completed", "a boolean"));
        },
    };
    let phases = match j.get("phases") {
        Option::None => {
            return Err(field_error("phases", "an array"));
        },
        Some(arr) => match arr {
            JsonValue::Arr(items) => {
                let ghost gitems = jview(*arr)->Arr_0;
                let mut out: Vec<DestinyMilestoneActivityPhase> = Vec::new();
                let mut i: usize = 0;
                while i < items.len()
                    invariant
                        i <= items.len(),
                        out@.len() == i,
                        forall|k: int| 0 <= k < i
                            ==> (destiny_milestone_activity_phase_wf(#[trigger] gitems[k])
                                && (gitems[k] matches Json::Obj(f2)
                                && destiny_milestone_activity_phase_fields_match(f2, out@[k]))),
                    decreases items.len() - i,
                {
                    proof {
                        assert(gitems[i as int] == jview(items@[i as int]));
                    }
                    match decode_destiny_milestone_activity_phase(&items[i]) {
                        Ok(r) => {
                            out.push(r);
                        },
                        Err(e) => {
                            return Err(indexed_error("phases", i, e));
                        },
                    }
                    i = i + 1;
                }
                out
            },
            _ => {
                return Err(field_error("phases", "an array"));
            },
        },
    };
    Ok(DestinyMilestoneActivityCompletionStatus { completed, phases })
}

/// The wire image of a record is well formed and matched by the
/// record itself: encoding loses nothing that decoding reads.
pub proof fn lemma_destiny_milestone_activity_completion_status_image(v: DestinyMilestoneActivityCompletionStatus)
    ensures
        destiny_milestone_activity_completion_status_wf(destiny_milestone_activity_completion_status_json(v)),
        destiny_milestone_activity_completion_status_json(v) matches Json::Obj(fields) && destiny_milestone_activity_completion_status_fields_match(fields, v),
{
    reveal_strlit("completed");
    reveal_strlit("phases");
    let fields = destiny_milestone_activity_completion_status_json(v)->Obj_0;
    assert("completed"@.len() == 9);
    assert("phases"@.len() == 6);
    assert("completed"@ != "phases"@);
    lemma_lookup_at(fields, 0);
    lemma_lookup_at(fields, 1);
    assert forall|i: int| 0 <= i < v.phases@.len()
        implies (destiny_milestone_activity_phase_wf(#[trigger] fields[1].1->Arr_0[i])
            && (fields[1].1->Arr_0[i] matches Json::Obj(f2)
            && destiny_milestone_activity_phase_fields_match(f2, v.phases@[i]))) by {
        assert(fields[1].1->Arr_0[i] == destiny_milestone_activity_phase_json(v.phases@[i]));
        lemma_destiny_milestone_activity_phase_image(v.phases@[i]);
    }
}

/// Decoding the encoded image of a record yields a record whose
/// every field carries the same content as the one encoded.
pub proof fn lemma_destiny_milestone_activity_completion_status_round_trip(v: DestinyMilestoneActivityCompletionStatus, w: DestinyMilestoneActivityCompletionStatus)
    requires
        destiny_milestone_activity_completion_status_json(v) matches Json::Obj(fields) && destiny_milestone_activity_completion_status_fields_match(fields, w),
    ensures
        destiny_milestone_activity_completion_status_wf(destiny_milestone_activity_completion_status_json(v)),
        w.completed == v.completed,
        w.phases@.len() == v.phases@.len(),
        forall|i: int| 0 <= i < v.phases@.len() ==> (destiny_milestone_activity_phase_json(v.phases@[i]) matches Json::Obj(f2) && destiny_milestone_activity_phase_fields_match(f2, #[trigger] w.phases@[i])),
{
    lemma_destiny_milestone_activity_completion_status_image(v);
    let fields = destiny_milestone_activity_completion_status_json(v)->Obj_0;
    reveal_strlit("completed");
    reveal_strlit("phases");
    assert("completed"@.len() == 9);
    assert("phases"@.len() == 6);
    assert("completed"@ != "phases"@);
    lemma_lookup_at(fields, 0);
    lemma_lookup_at(fields, 1);
    assert forall|i: int| 0 <= i < v.phases@.len()
        implies (destiny_milestone_activity_phase_json(v.phases@[i]) matches Json::Obj(f2)
            && destiny_milestone_activity_phase_fields_match(f2, #[trigger] w.phases@[i])) by {
        assert(fields[1].1->Arr_0[i] == destiny_milestone_activity_phase_json(v.phases@[i]));
        lemma_destiny_milestone_activity_phase_image(v.phases@[i]);
    }
}

/// The wire image of this record.
pub open spec fn destiny_milestone_activity_variant_json(v: DestinyMilestoneActivityVariant) -> Json {
    Json::Obj(
        seq![
            ("activityHash"@, Json::Int(v.activity_hash as int)),
            ("completionStatus"@, destiny_milestone_activity_completion_status_json(v.completion_status)),
            ("activityModeHash"@, Json::Int(v.activity_mode_hash as int)),
            ("activityModeType"@, Json::Int(v.activity_mode_type as int)),
        ],
    )
}

/// Whether a document decodes as this record: unknown fields are tolerated.
pub open spec fn destiny_milestone_activity_variant_wf(j: Json) -> bool {
    &&& j matches Json::Obj(fields)
    &&& spec_lookup(fields, "activityHash"@) matches Some(Json::Int(n)) && 0 <= n <= u32::MAX as int
    &&& spec_lookup(fields, "completionStatus"@) matches Some(inner) && destiny_milestone_activity_completion_status_wf(inner)
    &&& spec_lookup(fields, "activityModeHash"@) matches Some(Json::Int(n)) && 0 <= n <= u32::MAX as int
    &&& spec_lookup(fields, "activityModeType"@) matches Some(Json::Int(n)) && i32::MIN as int <= n <= i32::MAX as int
}

/// How a decoded record relates to the document it came from.
pub open spec fn destiny_milestone_activity_variant_fields_match(fields: Seq<(Seq<char>, Json)>, w: DestinyMilestoneActivityVariant) -> bool {
    &&& spec_lookup(fields, "activityHash"@) == Some(Json::Int(w.activity_hash as int))
    &&& spec_lookup(fields, "completionStatus"@) matches Some(Json::Obj(inner)) && destiny_milestone_activity_completion_status_fields_match(inner, w.completion_status)
    &&& spec_lookup(fields, "activityModeHash"@) == Some(Json::Int(w.activity_mode_hash as int))
    &&& spec_lookup(fields, "activityModeType"@) == Some(Json::Int(w.activity_mode_type as int))
}

/// What a decode failure names: its path points at a field of the
/// document that is indeed not decodable, and an undeclared
/// enumeration code is reported with the enumeration's own message.
pub open spec fn destiny_milestone_activity_variant_err_ok(j: Json, e: DecodeError) -> bool {
    &&& !(j matches Json::Obj(_)) ==> e.path@.len() == 0
    &&& j matches Json::Obj(fields) ==> (
        (e.path@ == "activityHash"@ && !(spec_lookup(fields, "activityHash"@) matches Some(Json::Int(n)) && 0 <= n <= u32::MAX as int))
        || ((e.path@ == "completionStatus"@ || spec_starts_with(e.path@, "completionStatus"@)) && !(spec_lookup(fields, "completionStatus"@) matches Some(inner) && destiny_milestone_activity_completion_status_wf(inner)))
        || (e.path@ == "activityModeHash"@ && !(spec_lookup(fields, "activityModeHash"@) matches Some(Json::Int(n)) && 0 <= n <= u32::MAX as int))
        || (e.path@ == "activityModeType"@ && !(spec_lookup(fields, "activityModeType"@) matches Some(Json::Int(n)) && i32::MIN as int <= n <= i32::MAX as int)))
}

pub fn encode_destiny_milestone_activity_variant(v: &DestinyMilestoneActivityVariant) -> (r: JsonValue)
    ensures
        jview(r) == destiny_milestone_activity_variant_json(*v),
{
    let mut fields: Vec<(String, JsonValue)> = Vec::new();
    fields.push(("activityHash".to_owned(), JsonValue::Int(v.activity_hash as i64)));
    fields.push(("completionStatus".to_owned(), encode_destiny_milestone_activity_completion_status(&v.completion_status)));
    fields.push(("activityModeHash".to_owned(), JsonValue::Int(v.activity_mode_hash as i64)));
    fields.push(("activityModeType".to_owned(), JsonValue::Int(v.activity_mode_type as i64)));
    let r = JsonValue::Obj(fields);
    proof {
        assert(jview(fields@[0].1) == destiny_milestone_activity_variant_json(*v)->Obj_0[0].1);
        assert(jview(fields@[1].1) == destiny_milestone_activity_variant_json(*v)->Obj_0[1].1);
        assert(jview(fields@[2].1) == destiny_milestone_activity_variant_json(*v)->Obj_0[2].1);
        assert(jview(fields@[3].1) == destiny_milestone_activity_variant_json(*v)->Obj_0[3].1);
        assert(jview(r)->Obj_0 =~= destiny_milestone_activity_variant_json(*v)->Obj_0);
    }
    r
}

/// Decodes this record; a failure names the offending field in its
/// path and says what was expected of it.
#[verifier::loop_isolation(false)]
pub fn decode_destiny_milestone_activity_variant(j: &JsonValue) -> (r: Result<DestinyMilestoneActivityVariant, DecodeError>)
    ensures
        r is Ok <==> destiny_milestone_activity_variant_wf(jview(*j)),
        r matches Ok(w) ==> (jview(*j) matches Json::Obj(fields)
            && destiny_milestone_activity_variant_fields_match(fields, w)),
        r matches Err(e) ==> destiny_milestone_activity_variant_err_ok(jview(*j), e),
{
    let fields = match j {
        JsonValue::Obj(fields) => fields,
        _ => {
            return Err(root_error("an object"));
        },
    };
    let ghost gf = jview(*j)->Obj_0;
    let activity_hash = match j.get("activityHash") {
        Some(v) => match v.to_i64() {
            Some(n) if 0 <= n && n <= u32::MAX as i64 => n as u32,
            _ => {
                return Err(field_error("activityHash", "a 32-bit unsigned integer"));
            },
        },
        _ => {
            return Err(field_error("activityHash", "a 32-bit unsigned integer"));
        },
    };
    let completion_status = match j.get("completionStatus") {
        Some(inner) => match decode_destiny_milestone_activity_completion_status(inner) {
            Ok(r) => r,
            Err(e) => {
                return Err(nested_error("completionStatus", e));
            },
        },
        _ => {
            return Err(field_error("completionStatus", "an object"));
        },
    };
    let activity_mode_hash = match j.get("activityModeHash") {
        Some(v) => match v.to_i64() {
            Some(n) if 0 <= n && n <= u32::MAX as i64 => n as u32,
            _ => {
                return Err(field_error("activityModeHash", "a 32-bit unsigned integer"));
            },
        },
        _ => {
            return Err(field_error("activityModeHash", "a 32-bit unsigned integer"));
        },
    };
    let activity_mode_type = match j.get("activityModeType") {
        Some(v) => match v.to_i64() {
            Some(n) if i32::MIN as i64 <= n && n <= i32::MAX as i64 => n as i32,
            _ => {
                return Err(field_error("activityModeType", "a 32-bit integer"));
            },
        },
        _ => {
            return Err(field_error("activityModeType", "a 32-bit integer"));
        },
    };
    Ok(DestinyMilestoneActivityVariant { activity_hash, completion_status, activity_mode_hash, activity_mode_type })
}

/// The wire image of a record is well formed and matched by the
/// record itself: encoding loses nothing that decoding reads.
pub proof fn lemma_destiny_milestone_activity_variant_image(v: DestinyMilestoneActivityVariant)
    ensures
        destiny_milestone_activity_variant_wf(destiny_milestone_activity_variant_json(v)),
        destiny_milestone_activity_variant_json(v) matches Json::Obj(fields) && destiny_milestone_activity_variant_fields_match(fields, v),
{
    reveal_strlit("activityHash");
    reveal_strlit("completionStatus");
    reveal_strlit("activityModeHash");
    reveal_strlit("activityModeType");
    let fields = destiny_milestone_activity_variant_json(v)->Obj_0;
    assert("activityHash"@.len() == 12);
    assert("completionStatus"@.len() == 16);
    assert("activityModeHash"@.len() == 16);
    assert("activityModeType"@.len() == 16);
    assert("activityHash"@ != "completionStatus"@);
    assert("activityHash"@ != "activityModeHash"@);
    assert("activityHash"@ != "activityModeType"@);
    assert(("completionStatus"@)[0] != ("activityModeHash"@)[0]);
    assert("completionStatus"@ != "activityModeHash"@);
    assert(("completionStatus"@)[0] != ("activityModeType"@)[0]);
    assert("completionStatus"@ != "activityModeType"@);
    assert(("activityModeHash"@)[12] != ("activityModeType"@)[12]);
    assert("activityModeHash"@ != "activityModeType"@);
    lemma_lookup_at(fields, 0);
    lemma_lookup_at(fields, 1);
    lemma_lookup_at(fields, 2);
    lemma_lookup_at(fields, 3);
    lemma_destiny_milestone_activity_completion_status_image(v.completion_status);
}

/// Decoding the encoded image of a record yields a record whose
/// every field carries the same content as the one encoded.
pub proof fn lemma_destiny_milestone_activity_variant_round_trip(v: DestinyMilestoneActivityVariant, w: DestinyMilestoneActivityVariant)
    requires
        destiny_milestone_activity_variant_json(v) matches Json::Obj(fields) && destiny_milestone_activity_variant_fields_match(fields, w),
    ensures
        destiny_milestone_activity_variant_wf(destiny_milestone_activity_variant_json(v)),
        w.activity_hash == v.activity_hash,
        destiny_milestone_activity_completion_status_json(v.completion_status) matches Json::Obj(f2) && destiny_milestone_activity_completion_status_fields_match(f2, w.completion_status),
        w.activity_mode_hash == v.activity_mode_hash,
        w.activity_mode_type == v.activity_mode_type,
{
    lemma_destiny_milestone_activity_variant_image(v);
    let fields = destiny_milestone_activity_variant_json(v)->Obj_0;
    reveal_strlit("activityHash");
    reveal_strlit("completionStatus");
    reveal_strlit("activityModeHash");
    reveal_strlit("activityModeType");
    assert("activityHash"@.len() == 12);
    assert("completionStatus"@.len() == 16);
    assert("activityModeHash"@.len() == 16);
    assert("activityModeType"@.len() == 16);
    assert("activityHash"@ != "completionStatus"@);
    assert("activityHash"@ != "activityModeHash"@);
    assert("activityHash"@ != "activityModeType"@);
    assert(("completionStatus"@)[0] != ("activityModeHash"@)[0]);
    assert("completionStatus"@ != "activityModeHash"@);
    assert(("completionStatus"@)[0] != ("activityModeType"@)[0]);
    assert("completionStatus"@ != "activityModeType"@);
    assert(("activityModeHash"@)[12] != ("activityModeType"@)[12]);
    assert("activityModeHash"@ != "activityModeType"@);
    lemma_lookup_at(fields, 0);
    lemma_lookup_at(fields, 1);
    lemma_lookup_at(fields, 2);
    lemma_lookup_at(fields, 3);
    lemma_destiny_milestone_activity_completion_status_image(v.completion_status);
}

/// The wire image of this record.
pub open spec fn destiny_item_crafting_block_definition_json(v: DestinyItemCraftingBlockDefinition) -> Json {
    Json::Obj(
        seq![
            ("outputItemHash"@, Json::Int(v.output_item_hash as int)),
            ("requiredSocketTypeHashes"@, Json::Arr(Seq::new(v.required_socket_type_hashes@.len(), |i: int| if 0 <= i < v.required_socket_type_hashes@.len() { Json::Int(v.required_socket_type_hashes@[i] as int) } else { Json::Null }))),
            ("failedRequirementStrings"@, Json::Arr(Seq::new(v.failed_requirement_strings@.len(), |i: int| if 0 <= i < v.failed_requirement_strings@.len() { Json::Str(v.failed_requirement_strings@[i]@) } else { Json::Null }))),
            ("baseMaterialRequirements"@, (match v.base_material_requirements { Some(x) => Json::Int(x as int), Option::None => Json::Null })),
            ("bonusPlugs"@, Json::Arr(Seq::new(v.bonus_plugs@.len(), |i: int| if 0 <= i < v.bonus_plugs@.len() { destiny_item_crafting_block_bonus_plug_definition_json(v.bonus_plugs@[i]) } else { Json::Null }))),
        ],
    )
}

/// Whether a document decodes as this record: an object with exactly these fields.
pub open spec fn destiny_item_crafting_block_definition_wf(j: Json) -> bool {
    &&& j matches Json::Obj(fields)
    &&& spec_lookup(fields, "outputItemHash"@) matches Some(Json::Int(n)) && 0 <= n <= u32::MAX as int
    &&& match spec_lookup(fields, "requiredSocketTypeHashes"@) { Option::None => false, Some(Json::Arr(items)) => forall|i: int| 0 <= i < items.len() ==> ((#[trigger] items[i]) matches Json::Int(n) && 0 <= n <= u32::MAX as int), _ => false }
    &&& match spec_lookup(fields, "failedRequirementStrings"@) { Option::None => false, Some(Json::Arr(items)) => forall|i: int| 0 <= i < items.len() ==> (#[trigger] items[i]) is Str, _ => false }
    &&& match spec_lookup(fields, "baseMaterialRequirements"@) { Option::None => true, Some(Json::Null) => true, Some(Json::Int(n)) => 0 <= n <= u32::MAX as int, _ => false }
    &&& match spec_lookup(fields, "bonusPlugs"@) { Option::None => false, Some(Json::Arr(items)) => forall|i: int| 0 <= i < items.len() ==> destiny_item_crafting_block_bonus_plug_definition_wf(#[trigger] items[i]), _ => false }
    &&& forall|i: int| 0 <= i < fields.len()
        ==> ((#[trigger] fields[i]).0 == "outputItemHash"@ || fields[i].0 == "requiredSocketTypeHashes"@ || fields[i].0 == "failedRequirementStrings"@ || fields[i].0 == "baseMaterialRequirements"@ || fields[i].0 == "bonusPlugs"@)
}

/// How a decoded record relates to the document it came from.
pub open spec fn destiny_item_crafting_block_definition_fields_match(fields: Seq<(Seq<char>, Json)>, w: DestinyItemCraftingBlockDefinition) -> bool {
    &&& spec_lookup(fields, "outputItemHash"@) == Some(Json::Int(w.output_item_hash as int))
    &&& match spec_lookup(fields, "requiredSocketTypeHashes"@) { Option::None => false, Some(Json::Arr(items)) => w.required_socket_type_hashes@.len() == items.len() && (forall|i: int| 0 <= i < items.len() ==> (#[trigger] items[i]) == Json::Int(w.required_socket_type_hashes@[i] as int)), _ => false }
    &&& match spec_lookup(fields, "failedRequirementStrings"@) { Option::None => false, Some(Json::Arr(items)) => w.failed_requirement_strings@.len() == items.len() && (forall|i: int| 0 <= i < items.len() ==> (#[trigger] items[i]) == Json::Str(w.failed_requirement_strings@[i]@)), _ => false }
    &&& match w.base_material_requirements { Some(x) => spec_lookup(fields, "baseMaterialRequirements"@) == Some(Json::Int(x as int)), Option::None => spec_lookup(fields, "baseMaterialRequirements"@) is None || spec_lookup(fields, "baseMaterialRequirements"@) == Some(Json::Null) }
    &&& match spec_lookup(fields, "bonusPlugs"@) { Option::None => false, Some(Json::Arr(items)) => w.bonus_plugs@.len() == items.len() && (forall|i: int| 0 <= i < items.len() ==> ((#[trigger] items[i]) matches Json::Obj(f2) && destiny_item_crafting_block_bonus_plug_definition_fields_match(f2, w.bonus_plugs@[i]))), _ => false }
}

/// What a decode failure names: its path points at a field of the
/// document that is indeed not decodable, and an undeclared
/// enumeration code is reported with the enumeration's own message.
pub open spec fn destiny_item_crafting_block_definition_err_ok(j: Json, e: DecodeError) -> bool {
    &&& !(j matches Json::Obj(_)) ==> e.path@.len() == 0
    &&& j matches Json::Obj(fields) ==> (
        (e.path@ == "outputItemHash"@ && !(spec_lookup(fields, "outputItemHash"@) matches Some(Json::Int(n)) && 0 <= n <= u32::MAX as int))
        || ((e.path@ == "requiredSocketTypeHashes"@ || spec_starts_with(e.path@, "requiredSocketTypeHashes"@)) && !(match spec_lookup(fields, "requiredSocketTypeHashes"@) { Option::None => false, Some(Json::Arr(items)) => forall|i: int| 0 <= i < items.len() ==> ((#[trigger] items[i]) matches Json::Int(n) && 0 <= n <= u32::MAX as int), _ => false }))
        || ((e.path@ == "failedRequirementStrings"@ || spec_starts_with(e.path@, "failedRequirementStrings"@)) && !(match spec_lookup(fields, "failedRequirementStrings"@) { Option::None => false, Some(Json::Arr(items)) => forall|i: int| 0 <= i < items.len() ==> (#[trigger] items[i]) is Str, _ => false }))
        || (e.path@ == "baseMaterialRequirements"@ && !(match spec_lookup(fields, "baseMaterialRequirements"@) { Option::None => true, Some(Json::Null) => true, Some(Json::Int(n)) => 0 <= n <= u32::MAX as int, _ => false }))
        || ((e.path@ == "bonusPlugs"@ || spec_starts_with(e.path@, "bonusPlugs"@)) && !(match spec_lookup(fields, "bonusPlugs"@) { Option::None => false, Some(Json::Arr(items)) => forall|i: int| 0 <= i < items.len() ==> destiny_item_crafting_block_bonus_plug_definition_wf(#[trigger] items[i]), _ => false }))
        || (exists|i: int| 0 <= i < fields.len() && (#[trigger] fields[i]).0 == e.path@ && !((fields[i].0 == "outputItemHash"@ || fields[i].0 == "requiredSocketTypeHashes"@ || fields[i].0 == "failedRequirementStrings"@ || fields[i].0 == "baseMaterialRequirements"@ || fields[i].0 == "bonusPlugs"@))))
}

pub fn encode_destiny_item_crafting_block_definition(v: &DestinyItemCraftingBlockDefinition) -> (r: JsonValue)
    ensures
        jview(r) == destiny_item_crafting_block_definition_json(*v),
{
    let mut fields: Vec<(String, JsonValue)> = Vec::new();
    fields.push(("outputItemHash".to_owned(), JsonValue::Int(v.output_item_hash as i64)));
    let arr_required_socket_type_hashes = {
        let mut items: Vec<JsonValue> = Vec::new();
        let mut i: usize = 0;
        while i < v.required_socket_type_hashes.len()
            invariant
                i <= v.required_socket_type_hashes.len(),
                items@.len() == i,
                forall|k: int| 0 <= k < i ==> jview(#[trigger] items@[k]) == Json::Int(v.required_socket_type_hashes@[k] as int),
            decreases v.required_socket_type_hashes.len() - i,
        {
            items.push(JsonValue::Int(v.required_socket_type_hashes[i] as i64));
            i = i + 1;
        }
        JsonValue::Arr(items)
    };
    proof {
        assert(jview(arr_required_socket_type_hashes)->Arr_0 =~= destiny_item_crafting_block_definition_json(*v)->Obj_0[1].1->Arr_0);
    }
    fields.push(("requiredSocketTypeHashes".to_owned(), arr_required_socket_type_hashes));
    let arr_failed_requirement_strings = {
        let mut items: Vec<JsonValue> = Vec::new();
        let mut i: usize = 0;
        while i < v.failed_requirement_strings.len()
            invariant
                i <= v.failed_requirement_strings.len(),
                items@.len() == i,
                forall|k: int| 0 <= k < i ==> jview(#[trigger] items@[k]) == Json::Str(v.failed_requirement_strings@[k]@),
            decreases v.failed_requirement_strings.len() - i,
        {
            items.push(JsonValue::Str(v.failed_requirement_strings[i].clone()));
            i = i + 1;
        }
        JsonValue::Arr(items)
    };
    proof {
        assert(jview(arr_failed_requirement_strings)->Arr_0 =~= destiny_item_crafting_block_definition_json(*v)->Obj_0[2].1->Arr_0);
    }
    fields.push(("failedRequirementStrings".to_owned(), arr_failed_requirement_strings));
    fields.push(("baseMaterialRequirements".to_owned(), match &v.base_material_requirements {
        Some(x) => JsonValue::Int(*x as i64),
        Option::None => JsonValue::Null,
    }));
    let arr_bonus_plugs = {
        let mut items: Vec<JsonValue> = Vec::new();
        let mut i: usize = 0;
        while i < v.bonus_plugs.len()
            invariant
                i <= v.bonus_plugs.len(),
                items@.len() == i,
                forall|k: int| 0 <= k < i ==> jview(#[trigger] items@[k]) == destiny_item_crafting_block_bonus_plug_definition_json(v.bonus_plugs@[k]),
            decreases v.bonus_plugs.len() - i,
        {
            items.push(encode_destiny_item_crafting_block_bonus_plug_definition(&v.bonus_plugs[i]));
            i = i + 1;
        }
        JsonValue::Arr(items)
    };
    proof {
        assert(jview(arr_bonus_plugs)->Arr_0 =~= destiny_item_crafting_block_definition_json(*v)->Obj_0[4].1->Arr_0);
    }
    fields.push(("bonusPlugs".to_owned(), arr_bonus_plugs));
    let r = JsonValue::Obj(fields);
    proof {
        assert(jview(fields@[0].1) == destiny_item_crafting_block_definition_json(*v)->Obj_0[0].1);
        assert(jview(fields@[1].1) == destiny_item_crafting_block_definition_json(*v)->Obj_0[1].1);
        assert(jview(fields@[2].1) == destiny_item_crafting_block_definition_json(*v)->Obj_0[2].1);
        assert(jview(fields@[3].1) == destiny_item_crafting_block_definition_json(*v)->Obj_0[3].1);
        assert(jview(fields@[4].1) == destiny_item_crafting_block_definition_json(*v)->Obj_0[4].1);
        assert(jview(r)->Obj_0 =~= destiny_item_crafting_block_definition_json(*v)->Obj_0);
    }
    r
}

/// Decodes this record; a failure names the offending field in its
/// path and says what was expected of it.
#[verifier::loop_isolation(false)]
pub fn decode_destiny_item_crafting_block_definition(j: &JsonValue) -> (r: Result<DestinyItemCraftingBlockDefinition, DecodeError>)
    ensures
        r is Ok <==> destiny_item_crafting_block_definition_wf(jview(*j)),
        r matches Ok(w) ==> (jview(*j) matches Json::Obj(fields)
            && destiny_item_crafting_block_definition_fields_match(fields, w)),
        r matches Err(e) ==> destiny_item_crafting_block_definition_err_ok(jview(*j), e),
{
    let fields = match j {
        JsonValue::Obj(fields) => fields,
        _ => {
            return Err(root_error("an object"));
        },
    };
    let ghost gf = jview(*j)->Obj_0;
    let output_item_hash = match j.get("outputItemHash") {
        Some(v) => match v.to_i64() {
            Some(n) if 0 <= n && n <= u32::MAX as i64 => n as u32,
            _ => {
                return Err(field_error("outputItemHash", "a 32-bit unsigned integer"));
            },
        },
        _ => {
            return Err(field_error("outputItemHash", "a 32-bit unsigned integer"));
        },
    };
    let required_socket_type_hashes = match j.get("requiredSocketTypeHashes") {
        Option::None => {
            return Err(field_error("requiredSocketTypeHashes", "an array"));
        },
        Some(arr) => match arr {
            JsonValue::Arr(items) => {
                let ghost gitems = jview(*arr)->Arr_0;
                let mut out: Vec<u32> = Vec::new();
                let mut i: usize = 0;
                while i < items.len()
                    invariant
                        i <= items.len(),
                        out@.len() == i,
                        forall|k: int| 0 <= k < i ==> (#[trigger] gitems[k]) == Json::Int(out@[k] as int),
                    decreases items.len() - i,
                {
                    proof {
                        assert(gitems[i as int] == jview(items@[i as int]));
                    }
                    let n = match items[i].to_i64() {
                        Some(n) if 0 <= n && n <= u32::MAX as i64 => n,
                        _ => {
                            return Err(indexed_error("requiredSocketTypeHashes", i, field_error("", "a 32-bit unsigned integer")));
                        },
                    };
                    out.push(n as u32);
                    i = i + 1;
                }
                out
            },
            _ => {
                return Err(field_error("requiredSocketTypeHashes", "an array"));
            },
        },
    };
    let failed_requirement_strings = match j.get("failedRequirementStrings") {
        Option::None => {
            return Err(field_error("failedRequirementStrings", "an array"));
        },
        Some(arr) => match arr {
            JsonValue::Arr(items) => {
                let ghost gitems = jview(*arr)->Arr_0;
                let mut out: Vec<String> = Vec::new();
                let mut i: usize = 0;
                while i < items.len()
                    invariant
                        i <= items.len(),
                        out@.len() == i,
                        forall|k: int| 0 <= k < i ==> (#[trigger] gitems[k]) == Json::Str(out@[k]@),
                    decreases items.len() - i,
                {
                    proof {
                        assert(gitems[i as int] == jview(items@[i as int]));
                    }
                    match &items[i] {
                        JsonValue::Str(s) => {
                            out.push(s.clone());
                        },
                        _ => {
                            return Err(indexed_error("failedRequirementStrings", i, field_error("", "a string")));
                        },
                    }
                    i = i + 1;
                }
                out
            },
            _ => {
                return Err(field_error("failedRequirementStrings", "an array"));
            },
        },
    };
    let base_material_requirements = match j.get("baseMaterialRequirements") {
        Option::None => Option::None,
        Some(JsonValue::Null) => Option::None,
        Some(v) => match v.to_i64() {
            Some(n) if 0 <= n && n <= u32::MAX as i64 => Some(n as u32),
            _ => {
                return Err(field_error("baseMaterialRequirements", "a 32-bit unsigned integer or null"));
            },
        },
    };
    let bonus_plugs = match j.get("bonusPlugs") {
        Option::None => {
            return Err(field_error("bonusPlugs", "an array"));
        },
        Some(arr) => match arr {
            JsonValue::Arr(items) => {
                let ghost gitems = jview(*arr)->Arr_0;
                let mut out: Vec<DestinyItemCraftingBlockBonusPlugDefinition> = Vec::new();
                let mut i: usize = 0;
                while i < items.len()
                    invariant
                        i <= items.len(),
                        out@.len() == i,
                        forall|k: int| 0 <= k < i
                            ==> (destiny_item_crafting_block_bonus_plug_definition_wf(#[trigger] gitems[k])
                                && (gitems[k] matches Json::Obj(f2)
                                && destiny_item_crafting_block_bonus_plug_definition_fields_match(f2, out@[k]))),
                    decreases items.len() - i,
                {
                    proof {
                        assert(gitems[i as int] == jview(items@[i as int]));
                    }
                    match decode_destiny_item_crafting_block_bonus_plug_definition(&items[i]) {
                        Ok(r) => {
                            out.push(r);
                        },
                        Err(e) => {
                            return Err(indexed_error("bonusPlugs", i, e));
                        },
                    }
                    i = i + 1;
                }
                out
            },
            _ => {
                return Err(field_error("bonusPlugs", "an array"));
            },
        },
    };
    let mut i: usize = 0;
    while i < fields.len()
        invariant
            i <= fields.len(),
            gf.len() == fields@.len(),
            forall|k: int| 0 <= k < gf.len()
                ==> #[trigger] gf[k] == (fields@[k].0@, jview(fields@[k].1)),
            forall|k: int| 0 <= k < i
                ==> ((#[trigger] gf[k]).0 == "outputItemHash"@ || gf[k].0 == "requiredSocketTypeHashes"@ || gf[k].0 == "failedRequirementStrings"@ || gf[k].0 == "baseMaterialRequirements"@ || gf[k].0 == "bonusPlugs"@),
        decreases fields.len() - i,
    {
        let name = fields[i].0.as_str();
        if !(str_eq(name, "outputItemHash") || str_eq(name, "requiredSocketTypeHashes") || str_eq(name, "failedRequirementStrings") || str_eq(name, "baseMaterialRequirements") || str_eq(name, "bonusPlugs")) {
            proof {
                assert(gf[i as int].0 == fields@[i as int].0@);
                assert(!destiny_item_crafting_block_definition_wf(jview(*j)));
            }
            return Err(field_error(fields[i].0.as_str(), "an unknown field"));
        }
        i = i + 1;
    }
    Ok(DestinyItemCraftingBlockDefinition { output_item_hash, required_socket_type_hashes, failed_requirement_strings, base_material_requirements, bonus_plugs })
}

/// The wire image of a record is well formed and matched by the
/// record itself: encoding loses nothing that decoding reads.
pub proof fn lemma_destiny_item_crafting_block_definition_image(v: DestinyItemCraftingBlockDefinition)
    ensures
        destiny_item_crafting_block_definition_wf(destiny_item_crafting_block_definition_json(v)),
        destiny_item_crafting_block_definition_json(v) matches Json::Obj(fields) && destiny_item_crafting_block_definition_fields_match(fields, v),
{
    reveal_strlit("outputItemHash");
    reveal_strlit("requiredSocketTypeHashes");
    reveal_strlit("failedRequirementStrings");
    reveal_strlit("baseMaterialRequirements");
    reveal_strlit("bonusPlugs");
    let fields = destiny_item_crafting_block_definition_json(v)->Obj_0;
    assert("outputItemHash"@.len() == 14);
    assert("requiredSocketTypeHashes"@.len() == 24);
    assert("failedRequirementStrings"@.len() == 24);
    assert("baseMaterialRequirements"@.len() == 24);
    assert("bonusPlugs"@.len() == 10);
    assert("outputItemHash"@ != "requiredSocketTypeHashes"@);
    assert("outputItemHash"@ != "failedRequirementStrings"@);
    assert("outputItemHash"@ != "baseMaterialRequirements"@);
    assert("outputItemHash"@ != "bonusPlugs"@);
    assert(("requiredSocketTypeHashes"@)[0] != ("failedRequirementStrings"@)[0]);
    assert("requiredSocketTypeHashes"@ != "failedRequirementStrings"@);
    assert(("requiredSocketTypeHashes"@)[0] != ("baseMaterialRequirements"@)[0]);
    assert("requiredSocketTypeHashes"@ != "baseMaterialRequirements"@);
    assert("requiredSocketTypeHashes"@ != "bonusPlugs"@);
    assert(("failedRequirementStrings"@)[0] != ("baseMaterialRequirements"@)[0]);
    assert("failedRequirementStrings"@ != "baseMaterialRequirements"@);
    assert("failedRequirementStrings"@ != "bonusPlugs"@);
    assert("baseMaterialRequirements"@ != "bonusPlugs"@);
    lemma_lookup_at(fields, 0);
    lemma_lookup_at(fields, 1);
    lemma_lookup_at(fields, 2);
    lemma_lookup_at(fields, 3);
    lemma_lookup_at(fields, 4);
    assert forall|i: int| 0 <= i < v.bonus_plugs@.len()
        implies (destiny_item_crafting_block_bonus_plug_definition_wf(#[trigger] fields[4].1->Arr_0[i])
            && (fields[4].1->Arr_0[i] matches Json::Obj(f2)
            && destiny_item_crafting_block_bonus_plug_definition_fields_match(f2, v.bonus_plugs@[i]))) by {
        assert(fields[4].1->Arr_0[i] == destiny_item_crafting_block_bonus_plug_definition_json(v.bonus_plugs@[i]));
        lemma_destiny_item_crafting_block_bonus_plug_definition_image(v.bonus_plugs@[i]);
    }
}

/// Decoding the encoded image of a record yields a record whose
/// every field carries the same content as the one encoded.
pub proof fn lemma_destiny_item_crafting_block_definition_round_trip(v: DestinyItemCraftingBlockDefinition, w: DestinyItemCraftingBlockDefinition)
    requires
        destiny_item_crafting_block_definition_json(v) matches Json::Obj(fields) && destiny_item_crafting_block_definition_fields_match(fields, w),
    ensures
        destiny_item_crafting_block_definition_wf(destiny_item_crafting_block_definition_json(v)),
        w.output_item_hash == v.output_item_hash,
        w.required_socket_type_hashes@ == v.required_socket_type_hashes@,
        w.failed_requirement_strings@.len() == v.failed_requirement_strings@.len(),
        forall|i: int| 0 <= i < v.failed_requirement_strings@.len() ==> #[trigger] w.failed_requirement_strings@[i]@ == v.failed_requirement_strings@[i]@,
        w.base_material_requirements == v.base_material_requirements,
        w.bonus_plugs@.len() == v.bonus_plugs@.len(),
        forall|i: int| 0 <= i < v.bonus_plugs@.len() ==> (destiny_item_crafting_block_bonus_plug_definition_json(v.bonus_plugs@[i]) matches Json::Obj(f2) && destiny_item_crafting_block_bonus_plug_definition_fields_match(f2, #[trigger] w.bonus_plugs@[i])),
{
    lemma_destiny_item_crafting_block_definition_image(v);
    let fields = destiny_item_crafting_block_definition_json(v)->Obj_0;
    reveal_strlit("outputItemHash");
    reveal_strlit("requiredSocketTypeHashes");
    reveal_strlit("failedRequirementStrings");
    reveal_strlit("baseMaterialRequirements");
    reveal_strlit("bonusPlugs");
    assert("outputItemHash"@.len() == 14);
    assert("requiredSocketTypeHashes"@.len() == 24);
    assert("failedRequirementStrings"@.len() == 24);
    assert("baseMaterialRequirements"@.len() == 24);
    assert("bonusPlugs"@.len() == 10);
    assert("outputItemHash"@ != "requiredSocketTypeHashes"@);
    assert("outputItemHash"@ != "failedRequirementStrings"@);
    assert("outputItemHash"@ != "baseMaterialRequirements"@);
    assert("outputItemHash"@ != "bonusPlugs"@);
    assert(("requiredSocketTypeHashes"@)[0] != ("failedRequirementStrings"@)[0]);
    assert("requiredSocketTypeHashes"@ != "failedRequirementStrings"@);
    assert(("requiredSocketTypeHashes"@)[0] != ("baseMaterialRequirements"@)[0]);
    assert("requiredSocketTypeHashes"@ != "baseMaterialRequirements"@);
    assert("requiredSocketTypeHashes"@ != "bonusPlugs"@);
    assert(("failedRequirementStrings"@)[0] != ("baseMaterialRequirements"@)[0]);
    assert("failedRequirementStrings"@ != "baseMaterialRequirements"@);
    assert("failedRequirementStrings"@ != "bonusPlugs"@);
    assert("baseMaterialRequirements"@ != "bonusPlugs"@);
    lemma_lookup_at(fields, 0);
    lemma_lookup_at(fields, 1);
    lemma_lookup_at(fields, 2);
    lemma_lookup_at(fields, 3);
    lemma_lookup_at(fields, 4);
    assert(w.required_socket_type_hashes@ =~= v.required_socket_type_hashes@) by {
        assert forall|i: int| 0 <= i < v.required_socket_type_hashes@.len()
            implies #[trigger] w.required_socket_type_hashes@[i] == v.required_socket_type_hashes@[i] by {
            assert(spec_lookup(fields, "requiredSocketTypeHashes"@) matches Some(Json::Arr(items))
                && (items[i] == Json::Int(v.required_socket_type_hashes@[i] as int)
                && items[i] == Json::Int(w.required_socket_type_hashes@[i] as int)));
        }
    }
    assert forall|i: int| 0 <= i < v.failed_requirement_strings@.len()
        implies #[trigger] w.failed_requirement_strings@[i]@ == v.failed_requirement_strings@[i]@ by {
        assert(spec_lookup(fields, "failedRequirementStrings"@) matches Some(Json::Arr(items))
            && (items[i] == Json::Str(v.failed_requirement_strings@[i]@)
            && items[i] == Json::Str(w.failed_requirement_strings@[i]@)));
    }
    assert forall|i: int| 0 <= i < v.bonus_plugs@.len()
        implies (destiny_item_crafting_block_bonus_plug_definition_json(v.bonus_plugs@[i]) matches Json::Obj(f2)
            && destiny_item_crafting_block_bonus_plug_definition_fields_match(f2, #[trigger] w.bonus_plugs@[i])) by {
        assert(fields[4].1->Arr_0[i] == destiny_item_crafting_block_bonus_plug_definition_json(v.bonus_plugs@[i]));
        lemma_destiny_item_crafting_block_bonus_plug_definition_image(v.bonus_plugs@[i]);
    }
}

/// The wire image of this record.
pub open spec fn destiny_equipping_block_definition_json(v: DestinyEquippingBlockDefinition) -> Json {
    Json::Obj(
        seq![
            ("gearsetItemHash"@, (match v.gearset_item_hash { Some(x) => Json::Int(x as int), Option::None => Json::Null })),
            ("uniqueLabel"@, (match v.unique_label { Some(x) => Json::Str(x@), Option::None => Json::Null })),
            ("uniqueLabelHash"@, Json::Int(v.unique_label_hash as int)),
            ("equipmentSlotTypeHash"@, Json::Int(v.equipment_slot_type_hash as int)),
            ("attributes"@, Json::Int(v.attributes.bits as int)),
            ("equippingSoundHash"@, Json::Int(v.equipping_sound_hash as int)),
            ("hornSoundHash"@, Json::Int(v.horn_sound_hash as int)),
            ("ammoType"@, Json::Int(v.ammo_type.spec_code())),
            ("displayStrings"@, Json::Arr(Seq::new(v.display_strings@.len(), |i: int| if 0 <= i < v.display_strings@.len() { Json::Str(v.display_strings@[i]@) } else { Json::Null }))),
            ("equipableItemSetHash"@, (match v.equipable_item_set_hash { Some(x) => Json::Int(x as int), Option::None => Json::Null })),
        ],
    )
}

/// Whether a document decodes as this record: an object with exactly these fields.
pub open spec fn destiny_equipping_block_definition_wf(j: Json) -> bool {
    &&& j matches Json::Obj(fields)
    &&& match spec_lookup(fields, "gearsetItemHash"@) { Option::None => true, Some(Json::Null) => true, Some(Json::Int(n)) => 0 <= n <= u32::MAX as int, _ => false }
    &&& match spec_lookup(fields, "uniqueLabel"@) { Option::None => true, Some(Json::Null) => true, Some(Json::Str(_)) => true, _ => false }
    &&& spec_lookup(fields, "uniqueLabelHash"@) matches Some(Json::Int(n)) && 0 <= n <= u32::MAX as int
    &&& spec_lookup(fields, "equipmentSlotTypeHash"@) matches Some(Json::Int(n)) && 0 <= n <= u32::MAX as int
    &&& spec_lookup(fields, "attributes"@) matches Some(Json::Int(n)) && 0 <= n <= u8::MAX as int
    &&& spec_lookup(fields, "equippingSoundHash"@) matches Some(Json::Int(n)) && 0 <= n <= u32::MAX as int
    &&& spec_lookup(fields, "hornSoundHash"@) matches Some(Json::Int(n)) && 0 <= n <= u32::MAX as int
    &&& spec_lookup(fields, "ammoType"@) matches Some(Json::Int(n)) && DestinyAmmunitionType::spec_from_code(n) is Some
    &&& match spec_lookup(fields, "displayStrings"@) { Option::None => false, Some(Json::Arr(items)) => forall|i: int| 0 <= i < items.len() ==> (#[trigger] items[i]) is Str, _ => false }
    &&& match spec_lookup(fields, "equipableItemSetHash"@) { Option::None => true, Some(Json::Null) => true, Some(Json::Int(n)) => 0 <= n <= u32::MAX as int, _ => false }
    &&& forall|i: int| 0 <= i < fields.len()
        ==> ((#[trigger] fields[i]).0 == "gearsetItemHash"@ || fields[i].0 == "uniqueLabel"@ || fields[i].0 == "uniqueLabelHash"@ || fields[i].0 == "equipmentSlotTypeHash"@ || fields[i].0 == "attributes"@ || fields[i].0 == "equippingSoundHash"@ || fields[i].0 == "hornSoundHash"@ || fields[i].0 == "ammoType"@ || fields[i].0 == "displayStrings"@ || fields[i].0 == "equipableItemSetHash"@)
}

/// How a decoded record relates to the document it came from.
pub open spec fn destiny_equipping_block_definition_fields_match(fields: Seq<(Seq<char>, Json)>, w: DestinyEquippingBlockDefinition) -> bool {
    &&& match w.gearset_item_hash { Some(x) => spec_lookup(fields, "gearsetItemHash"@) == Some(Json::Int(x as int)), Option::None => spec_lookup(fields, "gearsetItemHash"@) is None || spec_lookup(fields, "gearsetItemHash"@) == Some(Json::Null) }
    &&& match w.unique_label { Some(x) => spec_lookup(fields, "uniqueLabel"@) == Some(Json::Str(x@)), Option::None => spec_lookup(fields, "uniqueLabel"@) is None || spec_lookup(fields, "uniqueLabel"@) == Some(Json::Null) }
    &&& spec_lookup(fields, "uniqueLabelHash"@) == Some(Json::Int(w.unique_label_hash as int))
    &&& spec_lookup(fields, "equipmentSlotTypeHash"@) == Some(Json::Int(w.equipment_slot_type_hash as int))
    &&& spec_lookup(fields, "attributes"@) matches Some(Json::Int(n)) && w.attributes.bits == (n as u8) & 1
    &&& spec_lookup(fields, "equippingSoundHash"@) == Some(Json::Int(w.equipping_sound_hash as int))
    &&& spec_lookup(fields, "hornSoundHash"@) == Some(Json::Int(w.horn_sound_hash as int))
    &&& spec_lookup(fields, "ammoType"@) matches Some(Json::Int(n)) && Some(w.ammo_type) == DestinyAmmunitionType::spec_from_code(n)
    &&& match spec_lookup(fields, "displayStrings"@) { Option::None => false, Some(Json::Arr(items)) => w.display_strings@.len() == items.len() && (forall|i: int| 0 <= i < items.len() ==> (#[trigger] items[i]) == Json::Str(w.display_strings@[i]@)), _ => false }
    &&& match w.equipable_item_set_hash { Some(x) => spec_lookup(fields, "equipableItemSetHash"@) == Some(Json::Int(x as int)), Option::None => spec_lookup(fields, "equipableItemSetHash"@) is None || spec_lookup(fields, "equipableItemSetHash"@) == Some(Json::Null) }
}

/// What a decode failure names: its path points at a field of the
/// document that is indeed not decodable, and an undeclared
/// enumeration code is reported with the enumeration's own message.
pub open spec fn destiny_equipping_block_definition_err_ok(j: Json, e: DecodeError) -> bool {
    &&& !(j matches Json::Obj(_)) ==> e.path@.len() == 0
    &&& j matches Json::Obj(fields) ==> (
        (e.path@ == "gearsetItemHash"@ && !(match spec_lookup(fields, "gearsetItemHash"@) { Option::None => true, Some(Json::Null) => true, Some(Json::Int(n)) => 0 <= n <= u32::MAX as int, _ => false }))
        || (e.path@ == "uniqueLabel"@ && !(match spec_lookup(fields, "uniqueLabel"@) { Option::None => true, Some(Json::Null) => true, Some(Json::Str(_)) => true, _ => false }))
        || (e.path@ == "uniqueLabelHash"@ && !(spec_lookup(fields, "uniqueLabelHash"@) matches Some(Json::Int(n)) && 0 <= n <= u32::MAX as int))
        || (e.path@ == "equipmentSlotTypeHash"@ && !(spec_lookup(fields, "equipmentSlotTypeHash"@) matches Some(Json::Int(n)) && 0 <= n <= u32::MAX as int))
        || (e.path@ == "attributes"@ && !(spec_lookup(fields, "attributes"@) matches Some(Json::Int(n)) && 0 <= n <= u8::MAX as int))
        || (e.path@ == "equippingSoundHash"@ && !(spec_lookup(fields, "equippingSoundHash"@) matches Some(Json::Int(n)) && 0 <= n <= u32::MAX as int))
        || (e.path@ == "hornSoundHash"@ && !(spec_lookup(fields, "hornSoundHash"@) matches Some(Json::Int(n)) && 0 <= n <= u32::MAX as int))
        || (e.path@ == "ammoType"@ && !(spec_lookup(fields, "ammoType"@) matches Some(Json::Int(n)) && DestinyAmmunitionType::spec_from_code(n) is Some) && (match spec_lookup(fields, "ammoType"@) { Some(Json::Int(n)) => (0 <= n <= u8::MAX as int && DestinyAmmunitionType::spec_from_code(n) is None) ==> e.message@ == DestinyAmmunitionType::spec_unknown_code_message(n), _ => true }))
        || ((e.path@ == "displayStrings"@ || spec_starts_with(e.path@, "displayStrings"@)) && !(match spec_lookup(fields, "displayStrings"@) { Option::None => false, Some(Json::Arr(items)) => forall|i: int| 0 <= i < items.len() ==> (#[trigger] items[i]) is Str, _ => false }))
        || (e.path@ == "equipableItemSetHash"@ && !(match spec_lookup(fields, "equipableItemSetHash"@) { Option::None => true, Some(Json::Null) => true, Some(Json::Int(n)) => 0 <= n <= u32::MAX as int, _ => false }))
        || (exists|i: int| 0 <= i < fields.len() && (#[trigger] fields[i]).0 == e.path@ && !((fields[i].0 == "gearsetItemHash"@ || fields[i].0 == "uniqueLabel"@ || fields[i].0 == "uniqueLabelHash"@ || fields[i].0 == "equipmentSlotTypeHash"@ || fields[i].0 == "attributes"@ || fields[i].0 == "equippingSoundHash"@ || fields[i].0 == "hornSoundHash"@ || fields[i].0 == "ammoType"@ || fields[i].0 == "displayStrings"@ || fields[i].0 == "equipableItemSetHash"@))))
}

pub fn encode_destiny_equipping_block_definition(v: &DestinyEquippingBlockDefinition) -> (r: JsonValue)
    ensures
        jview(r) == destiny_equipping_block_definition_json(*v),
{
    let mut fields: Vec<(String, JsonValue)> = Vec::new();
    fields.push(("gearsetItemHash".to_owned(), match &v.gearset_item_hash {
        Some(x) => JsonValue::Int(*x as i64),
        Option::None => JsonValue::Null,
    }));
    fields.push(("uniqueLabel".to_owned(), match &v.unique_label {
        Some(x) => JsonValue::Str(x.clone()),
        Option::None => JsonValue::Null,
    }));
    fields.push(("uniqueLabelHash".to_owned(), JsonValue::Int(v.unique_label_hash as i64)));
    fields.push(("equipmentSlotTypeHash".to_owned(), JsonValue::Int(v.equipment_slot_type_hash as i64)));
    fields.push(("attributes".to_owned(), JsonValue::Int(v.attributes.bits as i64)));
    fields.push(("equippingSoundHash".to_owned(), JsonValue::Int(v.equipping_sound_hash as i64)));
    fields.push(("hornSoundHash".to_owned(), JsonValue::Int(v.horn_sound_hash as i64)));
    fields.push(("ammoType".to_owned(), JsonValue::Int(v.ammo_type.code() as i64)));
    let arr_display_strings = {
        let mut items: Vec<JsonValue> = Vec::new();
        let mut i: usize = 0;
        while i < v.display_strings.len()
            invariant
                i <= v.display_strings.len(),
                items@.len() == i,
                forall|k: int| 0 <= k < i ==> jview(#[trigger] items@[k]) == Json::Str(v.display_strings@[k]@),
            decreases v.display_strings.len() - i,
        {
            items.push(JsonValue::Str(v.display_strings[i].clone()));
            i = i + 1;
        }
        JsonValue::Arr(items)
    };
    proof {
        assert(jview(arr_display_strings)->Arr_0 =~= destiny_equipping_block_definition_json(*v)->Obj_0[8].1->Arr_0);
    }
    fields.push(("displayStrings".to_owned(), arr_display_strings));
    fields.push(("equipableItemSetHash".to_owned(), match &v.equipable_item_set_hash {
        Some(x) => JsonValue::Int(*x as i64),
        Option::None => JsonValue::Null,
    }));
    let r = JsonValue::Obj(fields);
    proof {
        assert(jview(fields@[0].1) == destiny_equipping_block_definition_json(*v)->Obj_0[0].1);
        assert(jview(fields@[1].1) == destiny_equipping_block_definition_json(*v)->Obj_0[1].1);
        assert(jview(fields@[2].1) == destiny_equipping_block_definition_json(*v)->Obj_0[2].1);
        assert(jview(fields@[3].1) == destiny_equipping_block_definition_json(*v)->Obj_0[3].1);
        assert(jview(fields@[4].1) == destiny_equipping_block_definition_json(*v)->Obj_0[4].1);
        assert(jview(fields@[5].1) == destiny_equipping_block_definition_json(*v)->Obj_0[5].1);
        assert(jview(fields@[6].1) == destiny_equipping_block_definition_json(*v)->Obj_0[6].1);
        assert(jview(fields@[7].1) == destiny_equipping_block_definition_json(*v)->Obj_0[7].1);
        assert(jview(fields@[8].1) == destiny_equipping_block_definition_json(*v)->Obj_0[8].1);
        assert(jview(fields@[9].1) == destiny_equipping_block_definition_json(*v)->Obj_0[9].1);
        assert(jview(r)->Obj_0 =~= destiny_equipping_block_definition_json(*v)->Obj_0);
    }
    r
}

/// Decodes this record; a failure names the offending field in its
/// path and says what was expected of it.
#[verifier::loop_isolation(false)]
pub fn decode_destiny_equipping_block_definition(j: &JsonValue) -> (r: Result<DestinyEquippingBlockDefinition, DecodeError>)
    ensures
        r is Ok <==> destiny_equipping_block_definition_wf(jview(*j)),
        r matches Ok(w) ==> (jview(*j) matches Json::Obj(fields)
            && destiny_equipping_block_definition_fields_match(fields, w)),
        r matches Err(e) ==> destiny_equipping_block_definition_err_ok(jview(*j), e),
{
    let fields = match j {
        JsonValue::Obj(fields) => fields,
        _ => {
            return Err(root_error("an object"));
        },
    };
    let ghost gf = jview(*j)->Obj_0;
    let gearset_item_hash = match j.get("gearsetItemHash") {
        Option::None => Option::None,
        Some(JsonValue::Null) => Option::None,
        Some(v) => match v.to_i64() {
            Some(n) if 0 <= n && n <= u32::MAX as i64 => Some(n as u32),
            _ => {
                return Err(field_error("gearsetItemHash", "a 32-bit unsigned integer or null"));
            },
        },
    };
    let unique_label = match j.get("uniqueLabel") {
        Option::None => Option::None,
        Some(JsonValue::Null) => Option::None,
        Some(JsonValue::Str(s)) => Some(s.clone()),
        _ => {
            return Err(field_error("uniqueLabel", "a string or null"));
        },
    };
    let unique_label_hash = match j.get("uniqueLabelHash") {
        Some(v) => match v.to_i64() {
            Some(n) if 0 <= n && n <= u32::MAX as i64 => n as u32,
            _ => {
                return Err(field_error("uniqueLabelHash", "a 32-bit unsigned integer"));
            },
        },
        _ => {
            return Err(field_error("uniqueLabelHash", "a 32-bit unsigned integer"));
        },
    };
    let equipment_slot_type_hash = match j.get("equipmentSlotTypeHash") {
        Some(v) => match v.to_i64() {
            Some(n) if 0 <= n && n <= u32::MAX as i64 => n as u32,
            _ => {
                return Err(field_error("equipmentSlotTypeHash", "a 32-bit unsigned integer"));
            },
        },
        _ => {
            return Err(field_error("equipmentSlotTypeHash", "a 32-bit unsigned integer"));
        },
    };
    let attributes = match j.get("attributes") {
        Some(v) => match v.to_i64() {
            Some(n) if 0 <= n && n <= u8::MAX as i64 => EquippingItemBlockAttributes::from_bits_truncate(n as u8),
            _ => {
                return Err(field_error("attributes", "an 8-bit unsigned integer"));
            },
        },
        _ => {
            return Err(field_error("attributes", "an 8-bit unsigned integer"));
        },
    };
    let equipping_sound_hash = match j.get("equippingSoundHash") {
        Some(v) => match v.to_i64() {
            Some(n) if 0 <= n && n <= u32::MAX as i64 => n as u32,
            _ => {
                return Err(field_error("equippingSoundHash", "a 32-bit unsigned integer"));
            },
        },
        _ => {
            return Err(field_error("equippingSoundHash", "a 32-bit unsigned integer"));
        },
    };
    let horn_sound_hash = match j.get("hornSoundHash") {
        Some(v) => match v.to_i64() {
            Some(n) if 0 <= n && n <= u32::MAX as i64 => n as u32,
            _ => {
                return Err(field_error("hornSoundHash", "a 32-bit unsigned integer"));
            },
        },
        _ => {
            return Err(field_error("hornSoundHash", "a 32-bit unsigned integer"));
        },
    };
    let ammo_type = match j.get("ammoType") {
        Some(v) => match v.to_i64() {
            Some(n) if 0 <= n && n <= u8::MAX as i64 => match DestinyAmmunitionType::decode_code(n as u8) {
                Ok(t) => t,
                Err(e) => {
                    return Err(rekey_error("ammoType", e));
                },
            },
            _ => {
                return Err(field_error("ammoType", "a declared DestinyAmmunitionType code"));
            },
        },
        _ => {
            return Err(field_error("ammoType", "a declared DestinyAmmunitionType code"));
        },
    };
    let display_strings = match j.get("displayStrings") {
        Option::None => {
            return Err(field_error("displayStrings", "an array"));
        },
        Some(arr) => match arr {
            JsonValue::Arr(items) => {
                let ghost gitems = jview(*arr)->Arr_0;
                let mut out: Vec<String> = Vec::new();
                let mut i: usize = 0;
                while i < items.len()
                    invariant
                        i <= items.len(),
                        out@.len() == i,
                        forall|k: int| 0 <= k < i ==> (#[trigger] gitems[k]) == Json::Str(out@[k]@),
                    decreases items.len() - i,
                {
                    proof {
                        assert(gitems[i as int] == jview(items@[i as int]));
                    }
                    match &items[i] {
                        JsonValue::Str(s) => {
                            out.push(s.clone());
                        },
                        _ => {
                            return Err(indexed_error("displayStrings", i, field_error("", "a string")));
                        },
                    }
                    i = i + 1;
                }
                out
            },
            _ => {
                return Err(field_error("displayStrings", "an array"));
            },
        },
    };
    let equipable_item_set_hash = match j.get("equipableItemSetHash") {
        Option::None => Option::None,
        Some(JsonValue::Null) => Option::None,
        Some(v) => match v.to_i64() {
            Some(n) if 0 <= n && n <= u32::MAX as i64 => Some(n as u32),
            _ => {
                return Err(field_error("equipableItemSetHash", "a 32-bit unsigned integer or null"));
            },
        },
    };
    let mut i: usize = 0;
    while i < fields.len()
        invariant
            i <= fields.len(),
            gf.len() == fields@.len(),
            forall|k: int| 0 <= k < gf.len()
                ==> #[trigger] gf[k] == (fields@[k].0@, jview(fields@[k].1)),
            forall|k: int| 0 <= k < i
                ==> ((#[trigger] gf[k]).0 == "gearsetItemHash"@ || gf[k].0 == "uniqueLabel"@ || gf[k].0 == "uniqueLabelHash"@ || gf[k].0 == "equipmentSlotTypeHash"@ || gf[k].0 == "attributes"@ || gf[k].0 == "equippingSoundHash"@ || gf[k].0 == "hornSoundHash"@ || gf[k].0 == "ammoType"@ || gf[k].0 == "displayStrings"@ || gf[k].0 == "equipableItemSetHash"@),
        decreases fields.len() - i,
    {
        let name = fields[i].0.as_str();
        if !(str_eq(name, "gearsetItemHash") || str_eq(name, "uniqueLabel") || str_eq(name, "uniqueLabelHash") || str_eq(name, "equipmentSlotTypeHash") || str_eq(name, "attributes") || str_eq(name, "equippingSoundHash") || str_eq(name, "hornSoundHash") || str_eq(name, "ammoType") || str_eq(name, "displayStrings") || str_eq(name, "equipableItemSetHash")) {
            proof {
                assert(gf[i as int].0 == fields@[i as int].0@);
                assert(!destiny_equipping_block_definition_wf(jview(*j)));
            }
            return Err(field_error(fields[i].0.as_str(), "an unknown field"));
        }
        i = i + 1;
    }
    Ok(DestinyEquippingBlockDefinition { gearset_item_hash, unique_label, unique_label_hash, equipment_slot_type_hash, attributes, equipping_sound_hash, horn_sound_hash, ammo_type, display_strings, equipable_item_set_hash })
}

/// The wire image of a record is well formed and matched by the
/// record itself: encoding loses nothing that decoding reads.
pub proof fn lemma_destiny_equipping_block_definition_image(v: DestinyEquippingBlockDefinition)
    requires
        v.attributes.bits & 1 == v.attributes.bits,
    ensures
        destiny_equipping_block_definition_wf(destiny_equipping_block_definition_json(v)),
        destiny_equipping_block_definition_json(v) matches Json::Obj(fields) && destiny_equipping_block_definition_fields_match(fields, v),
{
    reveal_strlit("gearsetItemHash");
    reveal_strlit("uniqueLabel");
    reveal_strlit("uniqueLabelHash");
    reveal_strlit("equipmentSlotTypeHash");
    reveal_strlit("attributes");
    reveal_strlit("equippingSoundHash");
    reveal_strlit("hornSoundHash");
    reveal_strlit("ammoType");
    reveal_strlit("displayStrings");
    reveal_strlit("equipableItemSetHash");
    let fields = destiny_equipping_block_definition_json(v)->Obj_0;
    assert("gearsetItemHash"@.len() == 15);
    assert("uniqueLabel"@.len() == 11);
    assert("uniqueLabelHash"@.len() == 15);
    assert("equipmentSlotTypeHash"@.len() == 21);
    assert("attributes"@.len() == 10);
    assert("equippingSoundHash"@.len() == 18);
    assert("hornSoundHash"@.len() == 13);
    assert("ammoType"@.len() == 8);
    assert("displayStrings"@.len() == 14);
    assert("equipableItemSetHash"@.len() == 20);
    assert("gearsetItemHash"@ != "uniqueLabel"@);
    assert(("gearsetItemHash"@)[0] != ("uniqueLabelHash"@)[0]);
    assert("gearsetItemHash"@ != "uniqueLabelHash"@);
    assert("gearsetItemHash"@ != "equipmentSlotTypeHash"@);
    assert("gearsetItemHash"@ != "attributes"@);
    assert("gearsetItemHash"@ != "equippingSoundHash"@);
    assert("gearsetItemHash"@ != "hornSoundHash"@);
    assert("gearsetItemHash"@ != "ammoType"@);
    assert("gearsetItemHash"@ != "displayStrings"@);
    assert("gearsetItemHash"@ != "equipableItemSetHash"@);
    assert("uniqueLabel"@ != "uniqueLabelHash"@);
    assert("uniqueLabel"@ != "equipmentSlotTypeHash"@);
    assert("uniqueLabel"@ != "attributes"@);
    assert("uniqueLabel"@ != "equippingSoundHash"@);
    assert("uniqueLabel"@ != "hornSoundHash"@);
    assert("uniqueLabel"@ != "ammoType"@);
    assert("uniqueLabel"@ != "displayStrings"@);
    assert("uniqueLabel"@ != "equipableItemSetHash"@);
    assert("uniqueLabelHash"@ != "equipmentSlotTypeHash"@);
    assert("uniqueLabelHash"@ != "attributes"@);
    assert("uniqueLabelHash"@ != "equippingSoundHash"@);
    assert("uniqueLabelHash"@ != "hornSoundHash"@);
    assert("uniqueLabelHash"@ != "ammoType"@);
    assert("uniqueLabelHash"@ != "displayStrings"@);
    assert("uniqueLabelHash"@ != "equipableItemSetHash"@);
    assert("equipmentSlotTypeHash"@ != "attributes"@);
    assert("equipmentSlotTypeHash"@ != "equippingSoundHash"@);
    assert("equipmentSlotTypeHash"@ != "hornSoundHash"@);
    assert("equipmentSlotTypeHash"@ != "ammoType"@);
    assert("equipmentSlotTypeHash"@ != "displayStrings"@);
    assert("equipmentSlotTypeHash"@ != "equipableItemSetHash"@);
    assert("attributes"@ != "equippingSoundHash"@);
    assert("attributes"@ != "hornSoundHash"@);
    assert("attributes"@ != "ammoType"@);
    assert("attributes"@ != "displayStrings"@);
    assert("attributes"@ != "equipableItemSetHash"@);
    assert("equippingSoundHash"@ != "hornSoundHash"@);
    assert("equippingSoundHash"@ != "ammoType"@);
    assert("equippingSoundHash"@ != "displayStrings"@);
    assert("equippingSoundHash"@ != "equipableItemSetHash"@);
    assert("hornSoundHash"@ != "ammoType"@);
    assert("hornSoundHash"@ != "displayStrings"@);
    assert("hornSoundHash"@ != "equipableItemSetHash"@);
    assert("ammoType"@ != "displayStrings"@);
    assert("ammoType"@ != "equipableItemSetHash"@);
    assert("displayStrings"@ != "equipableItemSetHash"@);
    lemma_lookup_at(fields, 0);
    lemma_lookup_at(fields, 1);
    lemma_lookup_at(fields, 2);
    lemma_lookup_at(fields, 3);
    lemma_lookup_at(fields, 4);
    lemma_lookup_at(fields, 5);
    lemma_lookup_at(fields, 6);
    lemma_lookup_at(fields, 7);
    lemma_lookup_at(fields, 8);
    lemma_lookup_at(fields, 9);
    DestinyAmmunitionType::lemma_code_round_trip(v.ammo_type, 0);
}

/// Decoding the encoded image of a record yields a record whose
/// every field carries the same content as the one encoded.
pub proof fn lemma_destiny_equipping_block_definition_round_trip(v: DestinyEquippingBlockDefinition, w: DestinyEquippingBlockDefinition)
    requires
        v.attributes.bits & 1 == v.attributes.bits,
        destiny_equipping_block_definition_json(v) matches Json::Obj(fields) && destiny_equipping_block_definition_fields_match(fields, w),
    ensures
        destiny_equipping_block_definition_wf(destiny_equipping_block_definition_json(v)),
        w.gearset_item_hash == v.gearset_item_hash,
        (match v.unique_label { Some(x) => w.unique_label matches Some(y) && y@ == x@, Option::None => w.unique_label is None }),
        w.unique_label_hash == v.unique_label_hash,
        w.equipment_slot_type_hash == v.equipment_slot_type_hash,
        w.attributes == v.attributes,
        w.equipping_sound_hash == v.equipping_sound_hash,
        w.horn_sound_hash == v.horn_sound_hash,
        w.ammo_type == v.ammo_type,
        w.display_strings@.len() == v.display_strings@.len(),
        forall|i: int| 0 <= i < v.display_strings@.len() ==> #[trigger] w.display_strings@[i]@ == v.display_strings@[i]@,
        w.equipable_item_set_hash == v.equipable_item_set_hash,
{
    lemma_destiny_equipping_block_definition_image(v);
    let fields = destiny_equipping_block_definition_json(v)->Obj_0;
    reveal_strlit("gearsetItemHash");
    reveal_strlit("uniqueLabel");
    reveal_strlit("uniqueLabelHash");
    reveal_strlit("equipmentSlotTypeHash");
    reveal_strlit("attributes");
    reveal_strlit("equippingSoundHash");
    reveal_strlit("hornSoundHash");
    reveal_strlit("ammoType");
    reveal_strlit("displayStrings");
    reveal_strlit("equipableItemSetHash");
    assert("gearsetItemHash"@.len() == 15);
    assert("uniqueLabel"@.len() == 11);
    assert("uniqueLabelHash"@.len() == 15);
    assert("equipmentSlotTypeHash"@.len() == 21);
    assert("attributes"@.len() == 10);
    assert("equippingSoundHash"@.len() == 18);
    assert("hornSoundHash"@.len() == 13);
    assert("ammoType"@.len() == 8);
    assert("displayStrings"@.len() == 14);
    assert("equipableItemSetHash"@.len() == 20);
    assert("gearsetItemHash"@ != "uniqueLabel"@);
    assert(("gearsetItemHash"@)[0] != ("uniqueLabelHash"@)[0]);
    assert("gearsetItemHash"@ != "uniqueLabelHash"@);
    assert("gearsetItemHash"@ != "equipmentSlotTypeHash"@);
    assert("gearsetItemHash"@ != "attributes"@);
    assert("gearsetItemHash"@ != "equippingSoundHash"@);
    assert("gearsetItemHash"@ != "hornSoundHash"@);
    assert("gearsetItemHash"@ != "ammoType"@);
    assert("gearsetItemHash"@ != "displayStrings"@);
    assert("gearsetItemHash"@ != "equipableItemSetHash"@);
    assert("uniqueLabel"@ != "uniqueLabelHash"@);
    assert("uniqueLabel"@ != "equipmentSlotTypeHash"@);
    assert("uniqueLabel"@ != "attributes"@);
    assert("uniqueLabel"@ != "equippingSoundHash"@);
    assert("uniqueLabel"@ != "hornSoundHash"@);
    assert("uniqueLabel"@ != "ammoType"@);
    assert("uniqueLabel"@ != "displayStrings"@);
    assert("uniqueLabel"@ != "equipableItemSetHash"@);
    assert("uniqueLabelHash"@ != "equipmentSlotTypeHash"@);
    assert("uniqueLabelHash"@ != "attributes"@);
    assert("uniqueLabelHash"@ != "equippingSoundHash"@);
    assert("uniqueLabelHash"@ != "hornSoundHash"@);
    assert("uniqueLabelHash"@ != "ammoType"@);
    assert("uniqueLabelHash"@ != "displayStrings"@);
    assert("uniqueLabelHash"@ != "equipableItemSetHash"@);
    assert("equipmentSlotTypeHash"@ != "attributes"@);
    assert("equipmentSlotTypeHash"@ != "equippingSoundHash"@);
    assert("equipmentSlotTypeHash"@ != "hornSoundHash"@);
    assert("equipmentSlotTypeHash"@ != "ammoType"@);
    assert("equipmentSlotTypeHash"@ != "displayStrings"@);
    assert("equipmentSlotTypeHash"@ != "equipableItemSetHash"@);
    assert("attributes"@ != "equippingSoundHash"@);
    assert("attributes"@ != "hornSoundHash"@);
    assert("attributes"@ != "ammoType"@);
    assert("attributes"@ != "displayStrings"@);
    assert("attributes"@ != "equipableItemSetHash"@);
    assert("equippingSoundHash"@ != "hornSoundHash"@);
    assert("equippingSoundHash"@ != "ammoType"@);
    assert("equippingSoundHash"@ != "displayStrings"@);
    assert("equippingSoundHash"@ != "equipableItemSetHash"@);
    assert("hornSoundHash"@ != "ammoType"@);
    assert("hornSoundHash"@ != "displayStrings"@);
    assert("hornSoundHash"@ != "equipableItemSetHash"@);
    assert("ammoType"@ != "displayStrings"@);
    assert("ammoType"@ != "equipableItemSetHash"@);
    assert("displayStrings"@ != "equipableItemSetHash"@);
    lemma_lookup_at(fields, 0);
    lemma_lookup_at(fields, 1);
    lemma_lookup_at(fields, 2);
    lemma_lookup_at(fields, 3);
    lemma_lookup_at(fields, 4);
    lemma_lookup_at(fields, 5);
    lemma_lookup_at(fields, 6);
    lemma_lookup_at(fields, 7);
    lemma_lookup_at(fields, 8);
    lemma_lookup_at(fields, 9);
    DestinyAmmunitionType::lemma_code_round_trip(v.ammo_type, 0);
    assert forall|i: int| 0 <= i < v.display_strings@.len()
        implies #[trigger] w.display_strings@[i]@ == v.display_strings@[i]@ by {
        assert(spec_lookup(fields, "displayStrings"@) matches Some(Json::Arr(items))
            && (items[i] == Json::Str(v.display_strings@[i]@)
            && items[i] == Json::Str(w.display_strings@[i]@)));
    }
}

/// The wire image of this record.
pub open spec fn destiny_derived_item_category_definition_json(v: DestinyDerivedItemCategoryDefinition) -> Json {
    Json::Obj(
        seq![
            ("categoryDescription"@, Json::Str(v.category_description@)),
            ("items"@, Json::Arr(Seq::new(v.items@.len(), |i: int| if 0 <= i < v.items@.len() { destiny_derived_item_definition_json(v.items@[i]) } else { Json::Null }))),
            ("categoryIndex"@, Json::Int(v.category_index as int)),
        ],
    )
}

/// Whether a document decodes as this record: an object with exactly these fields.
pub open spec fn destiny_derived_item_category_definition_wf(j: Json) -> bool {
    &&& j matches Json::Obj(fields)
    &&& spec_lookup(fields, "categoryDescription"@) matches Some(Json::Str(_))
    &&& match spec_lookup(fields, "items"@) { Option::None => false, Some(Json::Arr(items)) => forall|i: int| 0 <= i < items.len() ==> destiny_derived_item_definition_wf(#[trigger] items[i]), _ => false }
    &&& spec_lookup(fields, "categoryIndex"@) matches Some(Json::Int(n)) && 0 <= n <= u32::MAX as int
    &&& forall|i: int| 0 <= i < fields.len()
        ==> ((#[trigger] fields[i]).0 == "categoryDescription"@ || fields[i].0 == "items"@ || fields[i].0 == "categoryIndex"@)
}

/// How a decoded record relates to the document it came from.
pub open spec fn destiny_derived_item_category_definition_fields_match(fields: Seq<(Seq<char>, Json)>, w: DestinyDerivedItemCategoryDefinition) -> bool {
    &&& spec_lookup(fields, "categoryDescription"@) == Some(Json::Str(w.category_description@))
    &&& match spec_lookup(fields, "items"@) { Option::None => false, Some(Json::Arr(items)) => w.items@.len() == items.len() && (forall|i: int| 0 <= i < items.len() ==> ((#[trigger] items[i]) matches Json::Obj(f2) && destiny_derived_item_definition_fields_match(f2, w.items@[i]))), _ => false }
    &&& spec_lookup(fields, "categoryIndex"@) == Some(Json::Int(w.category_index as int))
}

/// What a decode failure names: its path points at a field of the
/// document that is indeed not decodable, and an undeclared
/// enumeration code is reported with the enumeration's own message.
pub open spec fn destiny_derived_item_category_definition_err_ok(j: Json, e: DecodeError) -> bool {
    &&& !(j matches Json::Obj(_)) ==> e.path@.len() == 0
    &&& j matches Json::Obj(fields) ==> (
        (e.path@ == "categoryDescription"@ && !(spec_lookup(fields, "categoryDescription"@) matches Some(Json::Str(_))))
        || ((e.path@ == "items"@ || spec_starts_with(e.path@, "items"@)) && !(match spec_lookup(fields, "items"@) { Option::None => false, Some(Json::Arr(items)) => forall|i: int| 0 <= i < items.len() ==> destiny_derived_item_definition_wf(#[trigger] items[i]), _ => false }))
        || (e.path@ == "categoryIndex"@ && !(spec_lookup(fields, "categoryIndex"@) matches Some(Json::Int(n)) && 0 <= n <= u32::MAX as int))
        || (exists|i: int| 0 <= i < fields.len() && (#[trigger] fields[i]).0 == e.path@ && !((fields[i].0 == "categoryDescription"@ || fields[i].0 == "items"@ || fields[i].0 == "categoryIndex"@))))
}

pub fn encode_destiny_derived_item_category_definition(v: &DestinyDerivedItemCategoryDefinition) -> (r: JsonValue)
    ensures
        jview(r) == destiny_derived_item_category_definition_json(*v),
{
    let mut fields: Vec<(String, JsonValue)> = Vec::new();
    fields.push(("categoryDescription".to_owned(), JsonValue::Str(v.category_description.clone())));
    let arr_items = {
        let mut items: Vec<JsonValue> = Vec::new();
        let mut i: usize = 0;
        while i < v.items.len()
            invariant
                i <= v.items.len(),
                items@.len() == i,
                forall|k: int| 0 <= k < i ==> jview(#[trigger] items@[k]) == destiny_derived_item_definition_json(v.items@[k]),
            decreases v.items.len() - i,
        {
            items.push(encode_destiny_derived_item_definition(&v.items[i]));
            i = i + 1;
        }
        JsonValue::Arr(items)
    };
    proof {
        assert(jview(arr_items)->Arr_0 =~= destiny_derived_item_category_definition_json(*v)->Obj_0[1].1->Arr_0);
    }
    fields.push(("items".to_owned(), arr_items));
    fields.push(("categoryIndex".to_owned(), JsonValue::Int(v.category_index as i64)));
    let r = JsonValue::Obj(fields);
    proof {
        assert(jview(fields@[0].1) == destiny_derived_item_category_definition_json(*v)->Obj_0[0].1);
        assert(jview(fields@[1].1) == destiny_derived_item_category_definition_json(*v)->Obj_0[1].1);
        assert(jview(fields@[2].1) == destiny_derived_item_category_definition_json(*v)->Obj_0[2].1);
        assert(jview(r)->Obj_0 =~= destiny_derived_item_category_definition_json(*v)->Obj_0);
    }
    r
}

/// Decodes this record; a failure names the offending field in its
/// path and says what was expected of it.
#[verifier::loop_isolation(false)]
pub fn decode_destiny_derived_item_category_definition(j: &JsonValue) -> (r: Result<DestinyDerivedItemCategoryDefinition, DecodeError>)
    ensures
        r is Ok <==> destiny_derived_item_category_definition_wf(jview(*j)),
        r matches Ok(w) ==> (jview(*j) matches Json::Obj(fields)
            && destiny_derived_item_category_definition_fields_match(fields, w)),
        r matches Err(e) ==> destiny_derived_item_category_definition_err_ok(jview(*j), e),
{
    let fields = match j {
        JsonValue::Obj(fields) => fields,
        _ => {
            return Err(root_error("an object"));
        },
    };
    let ghost gf = jview(*j)->Obj_0;
    let category_description = match j.get("categoryDescription") {
        Some(JsonValue::Str(s)) => s.clone(),
        _ => {
            return Err(field_error("categoryDescription", "a string"));
        },
    };
    let items = match j.get("items") {
        Option::None => {
            return Err(field_error("items", "an array"));
        },
        Some(arr) => match arr {
            JsonValue::Arr(items) => {
                let ghost gitems = jview(*arr)->Arr_0;
                let mut out: Vec<DestinyDerivedItemDefinition> = Vec::new();
                let mut i: usize = 0;
                while i < items.len()
                    invariant
                        i <= items.len(),
                        out@.len() == i,
                        forall|k: int| 0 <= k < i
                            ==> (destiny_derived_item_definition_wf(#[trigger] gitems[k])
                                && (gitems[k] matches Json::Obj(f2)
                                && destiny_derived_item_definition_fields_match(f2, out@[k]))),
                    decreases items.len() - i,
                {
                    proof {
                        assert(gitems[i as int] == jview(items@[i as int]));
                    }
                    match decode_destiny_derived_item_definition(&items[i]) {
                        Ok(r) => {
                            out.push(r);
                        },
                        Err(e) => {
                            return Err(indexed_error("items", i, e));
                        },
                    }
                    i = i + 1;
                }
                out
            },
            _ => {
                return Err(field_error("items", "an array"));
            },
        },
    };
    let category_index = match j.get("categoryIndex") {
        Some(v) => match v.to_i64() {
            Some(n) if 0 <= n && n <= u32::MAX as i64 => n as u32,
            _ => {
                return Err(field_error("categoryIndex", "a 32-bit unsigned integer"));
            },
        },
        _ => {
            return Err(field_error("categoryIndex", "a 32-bit unsigned integer"));
        },
    };
    let mut i: usize = 0;
    while i < fields.len()
        invariant
            i <= fields.len(),
            gf.len() == fields@.len(),
            forall|k: int| 0 <= k < gf.len()
                ==> #[trigger] gf[k] == (fields@[k].0@, jview(fields@[k].1)),
            forall|k: int| 0 <= k < i
                ==> ((#[trigger] gf[k]).0 == "categoryDescription"@ || gf[k].0 == "items"@ || gf[k].0 == "categoryIndex"@),
        decreases fields.len() - i,
    {
        let name = fields[i].0.as_str();
        if !(str_eq(name, "categoryDescription") || str_eq(name, "items") || str_eq(name, "categoryIndex")) {
            proof {
                assert(gf[i as int].0 == fields@[i as int].0@);
                assert(!destiny_derived_item_category_definition_wf(jview(*j)));
            }
            return Err(field_error(fields[i].0.as_str(), "an unknown field"));
        }
        i = i + 1;
    }
    Ok(DestinyDerivedItemCategoryDefinition { category_description, items, category_index })
}

/// The wire image of a record is well formed and matched by the
/// record itself: encoding loses nothing that decoding reads.
pub proof fn lemma_destiny_derived_item_category_definition_image(v: DestinyDerivedItemCategoryDefinition)
    ensures
        destiny_derived_item_category_definition_wf(destiny_derived_item_category_definition_json(v)),
        destiny_derived_item_category_definition_json(v) matches Json::Obj(fields) && destiny_derived_item_category_definition_fields_match(fields, v),
{
    reveal_strlit("categoryDescription");
    reveal_strlit("items");
    reveal_strlit("categoryIndex");
    let fields = destiny_derived_item_category_definition_json(v)->Obj_0;
    assert("categoryDescription"@.len() == 19);
    assert("items"@.len() == 5);
    assert("categoryIndex"@.len() == 13);
    assert("categoryDescription"@ != "items"@);
    assert("categoryDescription"@ != "categoryIndex"@);
    assert("items"@ != "categoryIndex"@);
    lemma_lookup_at(fields, 0);
    lemma_lookup_at(fields, 1);
    lemma_lookup_at(fields, 2);
    assert forall|i: int| 0 <= i < v.items@.len()
        implies (destiny_derived_item_definition_wf(#[trigger] fields[1].1->Arr_0[i])
            && (fields[1].1->Arr_0[i] matches Json::Obj(f2)
            && destiny_derived_item_definition_fields_match(f2, v.items@[i]))) by {
        assert(fields[1].1->Arr_0[i] == destiny_derived_item_definition_json(v.items@[i]));
        lemma_destiny_derived_item_definition_image(v.items@[i]);
    }
}

/// Decoding the encoded image of a record yields a record whose
/// every field carries the same content as the one encoded.
pub proof fn lemma_destiny_derived_item_category_definition_round_trip(v: DestinyDerivedItemCategoryDefinition, w: DestinyDerivedItemCategoryDefinition)
    requires
        destiny_derived_item_category_definition_json(v) matches Json::Obj(fields) && destiny_derived_item_category_definition_fields_match(fields, w),
    ensures
        destiny_derived_item_category_definition_wf(destiny_derived_item_category_definition_json(v)),
        w.category_description@ == v.category_description@,
        w.items@.len() == v.items@.len(),
        forall|i: int| 0 <= i < v.items@.len() ==> (destiny_derived_item_definition_json(v.items@[i]) matches Json::Obj(f2) && destiny_derived_item_definition_fields_match(f2, #[trigger] w.items@[i])),
        w.category_index == v.category_index,
{
    lemma_destiny_derived_item_category_definition_image(v);
    let fields = destiny_derived_item_category_definition_json(v)->Obj_0;
    reveal_strlit("categoryDescription");
    reveal_strlit("items");
    reveal_strlit("categoryIndex");
    assert("categoryDescription"@.len() == 19);
    assert("items"@.len() == 5);
    assert("categoryIndex"@.len() == 13);
    assert("categoryDescription"@ != "items"@);
    assert("categoryDescription"@ != "categoryIndex"@);
    assert("items"@ != "categoryIndex"@);
    lemma_lookup_at(fields, 0);
    lemma_lookup_at(fields, 1);
    lemma_lookup_at(fields, 2);
    assert forall|i: int| 0 <= i < v.items@.len()
        implies (destiny_derived_item_definition_json(v.items@[i]) matches Json::Obj(f2)
            && destiny_derived_item_definition_fields_match(f2, #[trigger] w.items@[i])) by {
        assert(fields[1].1->Arr_0[i] == destiny_derived_item_definition_json(v.items@[i]));
        lemma_destiny_derived_item_definition_image(v.items@[i]);
    }
}

/// The wire image of this record.
pub open spec fn destiny_plug_whitelist_entry_definition_json(v: DestinyPlugWhitelistEntryDefinition) -> Json {
    Json::Obj(
        seq![
            ("categoryHash"@, Json::Int(v.category_hash as int)),
            ("categoryIdentifier"@, Json::Str(v.category_identifier@)),
            ("reinitializationPossiblePlugHashes"@, Json::Arr(Seq::new(v.reinitialization_possible_plug_hashes@.len(), |i: int| if 0 <= i < v.reinitialization_possible_plug_hashes@.len() { Json::Int(v.reinitialization_possible_plug_hashes@[i] as int) } else { Json::Null }))),
        ],
    )
}

/// Whether a document decodes as this record: unknown fields are tolerated.
pub open spec fn destiny_plug_whitelist_entry_definition_wf(j: Json) -> bool {
    &&& j matches Json::Obj(fields)
    &&& spec_lookup(fields, "categoryHash"@) matches Some(Json::Int(n)) && 0 <= n <= u32::MAX as int
    &&& spec_lookup(fields, "categoryIdentifier"@) matches Some(Json::Str(_))
    &&& match spec_lookup(fields, "reinitializationPossiblePlugHashes"@) { Option::None => true, Some(Json::Arr(items)) => forall|i: int| 0 <= i < items.len() ==> ((#[trigger] items[i]) matches Json::Int(n) && 0 <= n <= u32::MAX as int), _ => false }
}

/// How a decoded record relates to the document it came from.
pub open spec fn destiny_plug_whitelist_entry_definition_fields_match(fields: Seq<(Seq<char>, Json)>, w: DestinyPlugWhitelistEntryDefinition) -> bool {
    &&& spec_lookup(fields, "categoryHash"@) == Some(Json::Int(w.category_hash as int))
    &&& spec_lookup(fields, "categoryIdentifier"@) == Some(Json::Str(w.category_identifier@))
    &&& match spec_lookup(fields, "reinitializationPossiblePlugHashes"@) { Option::None => w.reinitialization_possible_plug_hashes@.len() == 0, Some(Json::Arr(items)) => w.reinitialization_possible_plug_hashes@.len() == items.len() && (forall|i: int| 0 <= i < items.len() ==> (#[trigger] items[i]) == Json::Int(w.reinitialization_possible_plug_hashes@[i] as int)), _ => false }
}

/// What a decode failure names: its path points at a field of the
/// document that is indeed not decodable, and an undeclared
/// enumeration code is reported with the enumeration's own message.
pub open spec fn destiny_plug_whitelist_entry_definition_err_ok(j: Json, e: DecodeError) -> bool {
    &&& !(j matches Json::Obj(_)) ==> e.path@.len() == 0
    &&& j matches Json::Obj(fields) ==> (
        (e.path@ == "categoryHash"@ && !(spec_lookup(fields, "categoryHash"@) matches Some(Json::Int(n)) && 0 <= n <= u32::MAX as int))
        || (e.path@ == "categoryIdentifier"@ && !(spec_lookup(fields, "categoryIdentifier"@) matches Some(Json::Str(_))))
        || ((e.path@ == "reinitializationPossiblePlugHashes"@ || spec_starts_with(e.path@, "reinitializationPossiblePlugHashes"@)) && !(match spec_lookup(fields, "reinitializationPossiblePlugHashes"@) { Option::None => true, Some(Json::Arr(items)) => forall|i: int| 0 <= i < items.len() ==> ((#[trigger] items[i]) matches Json::Int(n) && 0 <= n <= u32::MAX as int), _ => false })))
}

pub fn encode_destiny_plug_whitelist_entry_definition(v: &DestinyPlugWhitelistEntryDefinition) -> (r: JsonValue)
    ensures
        jview(r) == destiny_plug_whitelist_entry_definition_json(*v),
{
    let mut fields: Vec<(String, JsonValue)> = Vec::new();
    fields.push(("categoryHash".to_owned(), JsonValue::Int(v.category_hash as i64)));
    fields.push(("categoryIdentifier".to_owned(), JsonValue::Str(v.category_identifier.clone())));
    let arr_reinitialization_possible_plug_hashes = {
        let mut items: Vec<JsonValue> = Vec::new();
        let mut i: usize = 0;
        while i < v.reinitialization_possible_plug_hashes.len()
            invariant
                i <= v.reinitialization_possible_plug_hashes.len(),
                items@.len() == i,
                forall|k: int| 0 <= k < i ==> jview(#[trigger] items@[k]) == Json::Int(v.reinitialization_possible_plug_hashes@[k] as int),
            decreases v.reinitialization_possible_plug_hashes.len() - i,
        {
            items.push(JsonValue::Int(v.reinitialization_possible_plug_hashes[i] as i64));
            i = i + 1;
        }
        JsonValue::Arr(items)
    };
    proof {
        assert(jview(arr_reinitialization_possible_plug_hashes)->Arr_0 =~= destiny_plug_whitelist_entry_definition_json(*v)->Obj_0[2].1->Arr_0);
    }
    fields.push(("reinitializationPossiblePlugHashes".to_owned(), arr_reinitialization_possible_plug_hashes));
    let r = JsonValue::Obj(fields);
    proof {
        assert(jview(fields@[0].1) == destiny_plug_whitelist_entry_definition_json(*v)->Obj_0[0].1);
        assert(jview(fields@[1].1) == destiny_plug_whitelist_entry_definition_json(*v)->Obj_0[1].1);
        assert(jview(fields@[2].1) == destiny_plug_whitelist_entry_definition_json(*v)->Obj_0[2].1);
        assert(jview(r)->Obj_0 =~= destiny_plug_whitelist_entry_definition_json(*v)->Obj_0);
    }
    r
}

/// Decodes this record; a failure names the offending field in its
/// path and says what was expected of it.
#[verifier::loop_isolation(false)]
pub fn decode_destiny_plug_whitelist_entry_definition(j: &JsonValue) -> (r: Result<DestinyPlugWhitelistEntryDefinition, DecodeError>)
    ensures
        r is Ok <==> destiny_plug_whitelist_entry_definition_wf(jview(*j)),
        r matches Ok(w) ==> (jview(*j) matches Json::Obj(fields)
            && destiny_plug_whitelist_entry_definition_fields_match(fields, w)),
        r matches Err(e) ==> destiny_plug_whitelist_entry_definition_err_ok(jview(*j), e),
{
    let fields = match j {
        JsonValue::Obj(fields) => fields,
        _ => {
            return Err(root_error("an object"));
        },
    };
    let ghost gf = jview(*j)->Obj_0;
    let category_hash = match j.get("categoryHash") {
        Some(v) => match v.to_i64() {
            Some(n) if 0 <= n && n <= u32::MAX as i64 => n as u32,
            _ => {
                return Err(field_error("categoryHash", "a 32-bit unsigned integer"));
            },
        },
        _ => {
            return Err(field_error("categoryHash", "a 32-bit unsigned integer"));
        },
    };
    let category_identifier = match j.get("categoryIdentifier") {
        Some(JsonValue::Str(s)) => s.clone(),
        _ => {
            return Err(field_error("categoryIdentifier", "a string"));
        },
    };
    let reinitialization_possible_plug_hashes = match j.get("reinitializationPossiblePlugHashes") {
        Option::None => Vec::new(),
        Some(arr) => match arr {
            JsonValue::Arr(items) => {
                let ghost gitems = jview(*arr)->Arr_0;
                let mut out: Vec<u32> = Vec::new();
                let mut i: usize = 0;
                while i < items.len()
                    invariant
                        i <= items.len(),
                        out@.len() == i,
                        forall|k: int| 0 <= k < i ==> (#[trigger] gitems[k]) == Json::Int(out@[k] as int),
                    decreases items.len() - i,
                {
                    proof {
                        assert(gitems[i as int] == jview(items@[i as int]));
                    }
                    let n = match items[i].to_i64() {
                        Some(n) if 0 <= n && n <= u32::MAX as i64 => n,
                        _ => {
                            return Err(indexed_error("reinitializationPossiblePlugHashes", i, field_error("", "a 32-bit unsigned integer")));
                        },
                    };
                    out.push(n as u32);
                    i = i + 1;
                }
                out
            },
            _ => {
                return Err(field_error("reinitializationPossiblePlugHashes", "an array"));
            },
        },
    };
    Ok(DestinyPlugWhitelistEntryDefinition { category_hash, category_identifier, reinitialization_possible_plug_hashes })
}

/// The wire image of a record is well formed and matched by the
/// record itself: encoding loses nothing that decoding reads.
pub proof fn lemma_destiny_plug_whitelist_entry_definition_image(v: DestinyPlugWhitelistEntryDefinition)
    ensures
        destiny_plug_whitelist_entry_definition_wf(destiny_plug_whitelist_entry_definition_json(v)),
        destiny_plug_whitelist_entry_definition_json(v) matches Json::Obj(fields) && destiny_plug_whitelist_entry_definition_fields_match(fields, v),
{
    reveal_strlit("categoryHash");
    reveal_strlit("categoryIdentifier");
    reveal_strlit("reinitializationPossiblePlugHashes");
    let fields = destiny_plug_whitelist_entry_definition_json(v)->Obj_0;
    assert("categoryHash"@.len() == 12);
    assert("categoryIdentifier"@.len() == 18);
    assert("reinitializationPossiblePlugHashes"@.len() == 34);
    assert("categoryHash"@ != "categoryIdentifier"@);
    assert("categoryHash"@ != "reinitializationPossiblePlugHashes"@);
    assert("categoryIdentifier"@ != "reinitializationPossiblePlugHashes"@);
    lemma_lookup_at(fields, 0);
    lemma_lookup_at(fields, 1);
    lemma_lookup_at(fields, 2);
}

/// Decoding the encoded image of a record yields a record whose
/// every field carries the same content as the one encoded.
pub proof fn lemma_destiny_plug_whitelist_entry_definition_round_trip(v: DestinyPlugWhitelistEntryDefinition, w: DestinyPlugWhitelistEntryDefinition)
    requires
        destiny_plug_whitelist_entry_definition_json(v) matches Json::Obj(fields) && destiny_plug_whitelist_entry_definition_fields_match(fields, w),
    ensures
        destiny_plug_whitelist_entry_definition_wf(destiny_plug_whitelist_entry_definition_json(v)),
        w.category_hash == v.category_hash,
        w.category_identifier@ == v.category_identifier@,
        w.reinitialization_possible_plug_hashes@ == v.reinitialization_possible_plug_hashes@,
{
    lemma_destiny_plug_whitelist_entry_definition_image(v);
    let fields = destiny_plug_whitelist_entry_definition_json(v)->Obj_0;
    reveal_strlit("categoryHash");
    reveal_strlit("categoryIdentifier");
    reveal_strlit("reinitializationPossiblePlugHashes");
    assert("categoryHash"@.len() == 12);
    assert("categoryIdentifier"@.len() == 18);
    assert("reinitializationPossiblePlugHashes"@.len() == 34);
    assert("categoryHash"@ != "categoryIdentifier"@);
    assert("categoryHash"@ != "reinitializationPossiblePlugHashes"@);
    assert("categoryIdentifier"@ != "reinitializationPossiblePlugHashes"@);
    lemma_lookup_at(fields, 0);
    lemma_lookup_at(fields, 1);
    lemma_lookup_at(fields, 2);
    assert(w.reinitialization_possible_plug_hashes@ =~= v.reinitialization_possible_plug_hashes@) by {
        assert forall|i: int| 0 <= i < v.reinitialization_possible_plug_hashes@.len()
            implies #[trigger] w.reinitialization_possible_plug_hashes@[i] == v.reinitialization_possible_plug_hashes@[i] by {
            assert(spec_lookup(fields, "reinitializationPossiblePlugHashes"@) matches Some(Json::Arr(items))
                && (items[i] == Json::Int(v.reinitialization_possible_plug_hashes@[i] as int)
                && items[i] == Json::Int(w.reinitialization_possible_plug_hashes@[i] as int)));
        }
    }
}

/// The wire image of this record.
pub open spec fn destiny_icon_sequence_definition_json(v: DestinyIconSequenceDefinition) -> Json {
    Json::Obj(
        seq![
            ("frames"@, Json::Arr(Seq::new(v.frames@.len(), |i: int| if 0 <= i < v.frames@.len() { Json::Str(v.frames@[i]@) } else { Json::Null }))),
        ],
    )
}

/// Whether a document decodes as this record: unknown fields are tolerated.
pub open spec fn destiny_icon_sequence_definition_wf(j: Json) -> bool {
    &&& j matches Json::Obj(fields)
    &&& match spec_lookup(fields, "frames"@) { Option::None => false, Some(Json::Arr(items)) => forall|i: int| 0 <= i < items.len() ==> (#[trigger] items[i]) is Str, _ => false }
}

/// How a decoded record relates to the document it came from.
pub open spec fn destiny_icon_sequence_definition_fields_match(fields: Seq<(Seq<char>, Json)>, w: DestinyIconSequenceDefinition) -> bool {
    &&& match spec_lookup(fields, "frames"@) { Option::None => false, Some(Json::Arr(items)) => w.frames@.len() == items.len() && (forall|i: int| 0 <= i < items.len() ==> (#[trigger] items[i]) == Json::Str(w.frames@[i]@)), _ => false }
}

/// What a decode failure names: its path points at a field of the
/// document that is indeed not decodable, and an undeclared
/// enumeration code is reported with the enumeration's own message.
pub open spec fn destiny_icon_sequence_definition_err_ok(j: Json, e: DecodeError) -> bool {
    &&& !(j matches Json::Obj(_)) ==> e.path@.len() == 0
    &&& j matches Json::Obj(fields) ==> (
        ((e.path@ == "frames"@ || spec_starts_with(e.path@, "frames"@)) && !(match spec_lookup(fields, "frames"@) { Option::None => false, Some(Json::Arr(items)) => forall|i: int| 0 <= i < items.len() ==> (#[trigger] items[i]) is Str, _ => false })))
}

pub fn encode_destiny_icon_sequence_definition(v: &DestinyIconSequenceDefinition) -> (r: JsonValue)
    ensures
        jview(r) == destiny_icon_sequence_definition_json(*v),
{
    let mut fields: Vec<(String, JsonValue)> = Vec::new();
    let arr_frames = {
        let mut items: Vec<JsonValue> = Vec::new();
        let mut i: usize = 0;
        while i < v.frames.len()
            invariant
                i <= v.frames.len(),
                items@.len() == i,
                forall|k: int| 0 <= k < i ==> jview(#[trigger] items@[k]) == Json::Str(v.frames@[k]@),
            decreases v.frames.len() - i,
        {
            items.push(JsonValue::Str(v.frames[i].clone()));
            i = i + 1;
        }
        JsonValue::Arr(items)
    };
    proof {
        assert(jview(arr_frames)->Arr_0 =~= destiny_icon_sequence_definition_json(*v)->Obj_0[0].1->Arr_0);
    }
    fields.push(("frames".to_owned(), arr_frames));
    let r = JsonValue::Obj(fields);
    proof {
        assert(jview(fields@[0].1) == destiny_icon_sequence_definition_json(*v)->Obj_0[0].1);
        assert(jview(r)->Obj_0 =~= destiny_icon_sequence_definition_json(*v)->Obj_0);
    }
    r
}

/// Decodes this record; a failure names the offending field in its
/// path and says what was expected of it.
#[verifier::loop_isolation(false)]
pub fn decode_destiny_icon_sequence_definition(j: &JsonValue) -> (r: Result<DestinyIconSequenceDefinition, DecodeError>)
    ensures
        r is Ok <==> destiny_icon_sequence_definition_wf(jview(*j)),
        r matches Ok(w) ==> (jview(*j) matches Json::Obj(fields)
            && destiny_icon_sequence_definition_fields_match(fields, w)),
        r matches Err(e) ==> destiny_icon_sequence_definition_err_ok(jview(*j), e),
{
    let fields = match j {
        JsonValue::Obj(fields) => fields,
        _ => {
            return Err(root_error("an object"));
        },
    };
    let ghost gf = jview(*j)->Obj_0;
    let frames = match j.get("frames") {
        Option::None => {
            return Err(field_error("frames", "an array"));
        },
        Some(arr) => match arr {
            JsonValue::Arr(items) => {
                let ghost gitems = jview(*arr)->Arr_0;
                let mut out: Vec<String> = Vec::new();
                let mut i: usize = 0;
                while i < items.len()
                    invariant
                        i <= items.len(),
                        out@.len() == i,
                        forall|k: int| 0 <= k < i ==> (#[trigger] gitems[k]) == Json::Str(out@[k]@),
                    decreases items.len() - i,
                {
                    proof {
                        assert(gitems[i as int] == jview(items@[i as int]));
                    }
                    match &items[i] {
                        JsonValue::Str(s) => {
                            out.push(s.clone());
                        },
                        _ => {
                            return Err(indexed_error("frames", i, field_error("", "a string")));
                        },
                    }
                    i = i + 1;
                }
                out
            },
            _ => {
                return Err(field_error("frames", "an array"));
            },
        },
    };
    Ok(DestinyIconSequenceDefinition { frames })
}

/// The wire image of a record is well formed and matched by the
/// record itself: encoding loses nothing that decoding reads.
pub proof fn lemma_destiny_icon_sequence_definition_image(v: DestinyIconSequenceDefinition)
    ensures
        destiny_icon_sequence_definition_wf(destiny_icon_sequence_definition_json(v)),
        destiny_icon_sequence_definition_json(v) matches Json::Obj(fields) && destiny_icon_sequence_definition_fields_match(fields, v),
{
    reveal_strlit("frames");
    let fields = destiny_icon_sequence_definition_json(v)->Obj_0;
    assert("frames"@.len() == 6);
    lemma_lookup_at(fields, 0);
}

/// Decoding the encoded image of a record yields a record whose
/// every field carries the same content as the one encoded.
pub proof fn lemma_destiny_icon_sequence_definition_round_trip(v: DestinyIconSequenceDefinition, w: DestinyIconSequenceDefinition)
    requires
        destiny_icon_sequence_definition_json(v) matches Json::Obj(fields) && destiny_icon_sequence_definition_fields_match(fields, w),
    ensures
        destiny_icon_sequence_definition_wf(destiny_icon_sequence_definition_json(v)),
        w.frames@.len() == v.frames@.len(),
        forall|i: int| 0 <= i < v.frames@.len() ==> #[trigger] w.frames@[i]@ == v.frames@[i]@,
{
    lemma_destiny_icon_sequence_definition_image(v);
    let fields = destiny_icon_sequence_definition_json(v)->Obj_0;
    reveal_strlit("frames");
    assert("frames"@.len() == 6);
    lemma_lookup_at(fields, 0);
    assert forall|i: int| 0 <= i < v.frames@.len()
        implies #[trigger] w.frames@[i]@ == v.frames@[i]@ by {
        assert(spec_lookup(fields, "frames"@) matches Some(Json::Arr(items))
            && (items[i] == Json::Str(v.frames@[i]@)
            && items[i] == Json::Str(w.frames@[i]@)));
    }
}

/// The wire image of this record.
pub open spec fn destiny_display_properties_definition_json(v: DestinyDisplayPropertiesDefinition) -> Json {
    Json::Obj(
        seq![
            ("iconHash"@, Json::Int(v.icon_hash as int)),
            ("description"@, Json::Str(v.description@)),
            ("name"@, Json::Str(v.name@)),
            ("icon"@, (match v.icon { Some(x) => Json::Str(x@), Option::None => Json::Null })),
            ("iconSequences"@, Json::Arr(Seq::new(v.icon_sequences@.len(), |i: int| if 0 <= i < v.icon_sequences@.len() { destiny_icon_sequence_definition_json(v.icon_sequences@[i]) } else { Json::Null }))),
            ("highResIcon"@, (match v.high_res_icon { Some(x) => Json::Str(x@), Option::None => Json::Null })),
            ("hasIcon"@, Json::Bool(v.has_icon)),
        ],
    )
}

/// Whether a document decodes as this record: an object with exactly these fields.
pub open spec fn destiny_display_properties_definition_wf(j: Json) -> bool {
    &&& j matches Json::Obj(fields)
    &&& spec_lookup(fields, "iconHash"@) matches Some(Json::Int(n)) && 0 <= n <= u32::MAX as int
    &&& spec_lookup(fields, "description"@) matches Some(Json::Str(_))
    &&& spec_lookup(fields, "name"@) matches Some(Json::Str(_))
    &&& match spec_lookup(fields, "icon"@) { Option::None => true, Some(Json::Null) => true, Some(Json::Str(_)) => true, _ => false }
    &&& match spec_lookup(fields, "iconSequences"@) { Option::None => true, Some(Json::Arr(items)) => forall|i: int| 0 <= i < items.len() ==> destiny_icon_sequence_definition_wf(#[trigger] items[i]), _ => false }
    &&& match spec_lookup(fields, "highResIcon"@) { Option::None => true, Some(Json::Null) => true, Some(Json::Str(_)) => true, _ => false }
    &&& spec_lookup(fields, "hasIcon"@) matches Some(Json::Bool(_))
    &&& forall|i: int| 0 <= i < fields.len()
        ==> ((#[trigger] fields[i]).0 == "iconHash"@ || fields[i].0 == "description"@ || fields[i].0 == "name"@ || fields[i].0 == "icon"@ || fields[i].0 == "iconSequences"@ || fields[i].0 == "highResIcon"@ || fields[i].0 == "hasIcon"@)
}

/// How a decoded record relates to the document it came from.
pub open spec fn destiny_display_properties_definition_fields_match(fields: Seq<(Seq<char>, Json)>, w: DestinyDisplayPropertiesDefinition) -> bool {
    &&& spec_lookup(fields, "iconHash"@) == Some(Json::Int(w.icon_hash as int))
    &&& spec_lookup(fields, "description"@) == Some(Json::Str(w.description@))
    &&& spec_lookup(fields, "name"@) == Some(Json::Str(w.name@))
    &&& match w.icon { Some(x) => spec_lookup(fields, "icon"@) == Some(Json::Str(x@)), Option::None => spec_lookup(fields, "icon"@) is None || spec_lookup(fields, "icon"@) == Some(Json::Null) }
    &&& match spec_lookup(fields, "iconSequences"@) { Option::None => w.icon_sequences@.len() == 0, Some(Json::Arr(items)) => w.icon_sequences@.len() == items.len() && (forall|i: int| 0 <= i < items.len() ==> ((#[trigger] items[i]) matches Json::Obj(f2) && destiny_icon_sequence_definition_fields_match(f2, w.icon_sequences@[i]))), _ => false }
    &&& match w.high_res_icon { Some(x) => spec_lookup(fields, "highResIcon"@) == Some(Json::Str(x@)), Option::None => spec_lookup(fields, "highResIcon"@) is None || spec_lookup(fields, "highResIcon"@) == Some(Json::Null) }
    &&& spec_lookup(fields, "hasIcon"@) == Some(Json::Bool(w.has_icon))
}

/// What a decode failure names: its path points at a field of the
/// document that is indeed not decodable, and an undeclared
/// enumeration code is reported with the enumeration's own message.
pub open spec fn destiny_display_properties_definition_err_ok(j: Json, e: DecodeError) -> bool {
    &&& !(j matches Json::Obj(_)) ==> e.path@.len() == 0
    &&& j matches Json::Obj(fields) ==> (
        (e.path@ == "iconHash"@ && !(spec_lookup(fields, "iconHash"@) matches Some(Json::Int(n)) && 0 <= n <= u32::MAX as int))
        || (e.path@ == "description"@ && !(spec_lookup(fields, "description"@) matches Some(Json::Str(_))))
        || (e.path@ == "name"@ && !(spec_lookup(fields, "name"@) matches Some(Json::Str(_))))
        || (e.path@ == "icon"@ && !(match spec_lookup(fields, "icon"@) { Option::None => true, Some(Json::Null) => true, Some(Json::Str(_)) => true, _ => false }))
        || ((e.path@ == "iconSequences"@ || spec_starts_with(e.path@, "iconSequences"@)) && !(match spec_lookup(fields, "iconSequences"@) { Option::None => true, Some(Json::Arr(items)) => forall|i: int| 0 <= i < items.len() ==> destiny_icon_sequence_definition_wf(#[trigger] items[i]), _ => false }))
        || (e.path@ == "highResIcon"@ && !(match spec_lookup(fields, "highResIcon"@) { Option::None => true, Some(Json::Null) => true, Some(Json::Str(_)) => true, _ => false }))
        || (e.path@ == "hasIcon"@ && !(spec_lookup(fields, "hasIcon"@) matches Some(Json::Bool(_))))
        || (exists|i: int| 0 <= i < fields.len() && (#[trigger] fields[i]).0 == e.path@ && !((fields[i].0 == "iconHash"@ || fields[i].0 == "description"@ || fields[i].0 == "name"@ || fields[i].0 == "icon"@ || fields[i].0 == "iconSequences"@ || fields[i].0 == "highResIcon"@ || fields[i].0 == "hasIcon"@))))
}

pub fn encode_destiny_display_properties_definition(v: &DestinyDisplayPropertiesDefinition) -> (r: JsonValue)
    ensures
        jview(r) == destiny_display_properties_definition_json(*v),
{
    let mut fields: Vec<(String, JsonValue)> = Vec::new();
    fields.push(("iconHash".to_owned(), JsonValue::Int(v.icon_hash as i64)));
    fields.push(("description".to_owned(), JsonValue::Str(v.description.clone())));
    fields.push(("name".to_owned(), JsonValue::Str(v.name.clone())));
    fields.push(("icon".to_owned(), match &v.icon {
        Some(x) => JsonValue::Str(x.clone()),
        Option::None => JsonValue::Null,
    }));
    let arr_icon_sequences = {
        let mut items: Vec<JsonValue> = Vec::new();
        let mut i: usize = 0;
        while i < v.icon_sequences.len()
            invariant
                i <= v.icon_sequences.len(),
                items@.len() == i,
                forall|k: int| 0 <= k < i ==> jview(#[trigger] items@[k]) == destiny_icon_sequence_definition_json(v.icon_sequences@[k]),
            decreases v.icon_sequences.len() - i,
        {
            items.push(encode_destiny_icon_sequence_definition(&v.icon_sequences[i]));
            i = i + 1;
        }
        JsonValue::Arr(items)
    };
    proof {
        assert(jview(arr_icon_sequences)->Arr_0 =~= destiny_display_properties_definition_json(*v)->Obj_0[4].1->Arr_0);
    }
    fields.push(("iconSequences".to_owned(), arr_icon_sequences));
    fields.push(("highResIcon".to_owned(), match &v.high_res_icon {
        Some(x) => JsonValue::Str(x.clone()),
        Option::None => JsonValue::Null,
    }));
    fields.push(("hasIcon".to_owned(), JsonValue::Bool(v.has_icon)));
    let r = JsonValue::Obj(fields);
    proof {
        assert(jview(fields@[0].1) == destiny_display_properties_definition_json(*v)->Obj_0[0].1);
        assert(jview(fields@[1].1) == destiny_display_properties_definition_json(*v)->Obj_0[1].1);
        assert(jview(fields@[2].1) == destiny_display_properties_definition_json(*v)->Obj_0[2].1);
        assert(jview(fields@[3].1) == destiny_display_properties_definition_json(*v)->Obj_0[3].1);
        assert(jview(fields@[4].1) == destiny_display_properties_definition_json(*v)->Obj_0[4].1);
        assert(jview(fields@[5].1) == destiny_display_properties_definition_json(*v)->Obj_0[5].1);
        assert(jview(fields@[6].1) == destiny_display_properties_definition_json(*v)->Obj_0[6].1);
        assert(jview(r)->Obj_0 =~= destiny_display_properties_definition_json(*v)->Obj_0);
    }
    r
}

/// Decodes this record; a failure names the offending field in its
/// path and says what was expected of it.
#[verifier::loop_isolation(false)]
pub fn decode_destiny_display_properties_definition(j: &JsonValue) -> (r: Result<DestinyDisplayPropertiesDefinition, DecodeError>)
    ensures
        r is Ok <==> destiny_display_properties_definition_wf(jview(*j)),
        r matches Ok(w) ==> (jview(*j) matches Json::Obj(fields)
            && destiny_display_properties_definition_fields_match(fields, w)),
        r matches Err(e) ==> destiny_display_properties_definition_err_ok(jview(*j), e),
{
    let fields = match j {
        JsonValue::Obj(fields) => fields,
        _ => {
            return Err(root_error("an object"));
        },
    };
    let ghost gf = jview(*j)->Obj_0;
    let icon_hash = match j.get("iconHash") {
        Some(v) => match v.to_i64() {
            Some(n) if 0 <= n && n <= u32::MAX as i64 => n as u32,
            _ => {
                return Err(field_error("iconHash", "a 32-bit unsigned integer"));
            },
        },
        _ => {
            return Err(field_error("iconHash", "a 32-bit unsigned integer"));
        },
    };
    let description = match j.get("description") {
        Some(JsonValue::Str(s)) => s.clone(),
        _ => {
            return Err(field_error("description", "a string"));
        },
    };
    let name = match j.get("name") {
        Some(JsonValue::Str(s)) => s.clone(),
        _ => {
            return Err(field_error("name", "a string"));
        },
    };
    let icon = match j.get("icon") {
        Option::None => Option::None,
        Some(JsonValue::Null) => Option::None,
        Some(JsonValue::Str(s)) => Some(s.clone()),
        _ => {
            return Err(field_error("icon", "a string or null"));
        },
    };
    let icon_sequences = match j.get("iconSequences") {
        Option::None => Vec::new(),
        Some(arr) => match arr {
            JsonValue::Arr(items) => {
                let ghost gitems = jview(*arr)->Arr_0;
                let mut out: Vec<DestinyIconSequenceDefinition> = Vec::new();
                let mut i: usize = 0;
                while i < items.len()
                    invariant
                        i <= items.len(),
                        out@.len() == i,
                        forall|k: int| 0 <= k < i
                            ==> (destiny_icon_sequence_definition_wf(#[trigger] gitems[k])
                                && (gitems[k] matches Json::Obj(f2)
                                && destiny_icon_sequence_definition_fields_match(f2, out@[k]))),
                    decreases items.len() - i,
                {
                    proof {
                        assert(gitems[i as int] == jview(items@[i as int]));
                    }
                    match decode_destiny_icon_sequence_definition(&items[i]) {
                        Ok(r) => {
                            out.push(r);
                        },
                        Err(e) => {
                            return Err(indexed_error("iconSequences", i, e));
                        },
                    }
                    i = i + 1;
                }
                out
            },
            _ => {
                return Err(field_error("iconSequences", "an array"));
            },
        },
    };
    let high_res_icon = match j.get("highResIcon") {
        Option::None => Option::None,
        Some(JsonValue::Null) => Option::None,
        Some(JsonValue::Str(s)) => Some(s.clone()),
        _ => {
            return Err(field_error("highResIcon", "a string or null"));
        },
    };
    let has_icon = match j.get("hasIcon") {
        Some(JsonValue::Bool(b)) => *b,
        _ => {
            return Err(field_error("hasIcon", "a boolean"));
        },
    };
    let mut i: usize = 0;
    while i < fields.len()
        invariant
            i <= fields.len(),
            gf.len() == fields@.len(),
            forall|k: int| 0 <= k < gf.len()
                ==> #[trigger] gf[k] == (fields@[k].0@, jview(fields@[k].1)),
            forall|k: int| 0 <= k < i
                ==> ((#[trigger] gf[k]).0 == "iconHash"@ || gf[k].0 == "description"@ || gf[k].0 == "name"@ || gf[k].0 == "icon"@ || gf[k].0 == "iconSequences"@ || gf[k].0 == "highResIcon"@ || gf[k].0 == "hasIcon"@),
        decreases fields.len() - i,
    {
        let name = fields[i].0.as_str();
        if !(str_eq(name, "iconHash") || str_eq(name, "description") || str_eq(name, "name") || str_eq(name, "icon") || str_eq(name, "iconSequences") || str_eq(name, "highResIcon") || str_eq(name, "hasIcon")) {
            proof {
                assert(gf[i as int].0 == fields@[i as int].0@);
                assert(!destiny_display_properties_definition_wf(jview(*j)));
            }
            return Err(field_error(fields[i].0.as_str(), "an unknown field"));
        }
        i = i + 1;
    }
    Ok(DestinyDisplayPropertiesDefinition { icon_hash, description, name, icon, icon_sequences, high_res_icon, has_icon })
}

/// The wire image of a record is well formed and matched by the
/// record itself: encoding loses nothing that decoding reads.
pub proof fn lemma_destiny_display_properties_definition_image(v: DestinyDisplayPropertiesDefinition)
    ensures
        destiny_display_properties_definition_wf(destiny_display_properties_definition_json(v)),
        destiny_display_properties_definition_json(v) matches Json::Obj(fields) && destiny_display_properties_definition_fields_match(fields, v),
{
    reveal_strlit("iconHash");
    reveal_strlit("description");
    reveal_strlit("name");
    reveal_strlit("icon");
    reveal_strlit("iconSequences");
    reveal_strlit("highResIcon");
    reveal_strlit("hasIcon");
    let fields = destiny_display_properties_definition_json(v)->Obj_0;
    assert("iconHash"@.len() == 8);
    assert("description"@.len() == 11);
    assert("name"@.len() == 4);
    assert("icon"@.len() == 4);
    assert("iconSequences"@.len() == 13);
    assert("highResIcon"@.len() == 11);
    assert("hasIcon"@.len() == 7);
    assert("iconHash"@ != "description"@);
    assert("iconHash"@ != "name"@);
    assert("iconHash"@ != "icon"@);
    assert("iconHash"@ != "iconSequences"@);
    assert("iconHash"@ != "highResIcon"@);
    assert("iconHash"@ != "hasIcon"@);
    assert("description"@ != "name"@);
    assert("description"@ != "icon"@);
    assert("description"@ != "iconSequences"@);
    assert(("description"@)[0] != ("highResIcon"@)[0]);
    assert("description"@ != "highResIcon"@);
    assert("description"@ != "hasIcon"@);
    assert(("name"@)[0] != ("icon"@)[0]);
    assert("name"@ != "icon"@);
    assert("name"@ != "iconSequences"@);
    assert("name"@ != "highResIcon"@);
    assert("name"@ != "hasIcon"@);
    assert("icon"@ != "iconSequences"@);
    assert("icon"@ != "highResIcon"@);
    assert("icon"@ != "hasIcon"@);
    assert("iconSequences"@ != "highResIcon"@);
    assert("iconSequences"@ != "hasIcon"@);
    assert("highResIcon"@ != "hasIcon"@);
    lemma_lookup_at(fields, 0);
    lemma_lookup_at(fields, 1);
    lemma_lookup_at(fields, 2);
    lemma_lookup_at(fields, 3);
    lemma_lookup_at(fields, 4);
    lemma_lookup_at(fields, 5);
    lemma_lookup_at(fields, 6);
    assert forall|i: int| 0 <= i < v.icon_sequences@.len()
        implies (destiny_icon_sequence_definition_wf(#[trigger] fields[4].1->Arr_0[i])
            && (fields[4].1->Arr_0[i] matches Json::Obj(f2)
            && destiny_icon_sequence_definition_fields_match(f2, v.icon_sequences@[i]))) by {
        assert(fields[4].1->Arr_0[i] == destiny_icon_sequence_definition_json(v.icon_sequences@[i]));
        lemma_destiny_icon_sequence_definition_image(v.icon_sequences@[i]);
    }
}

/// Decoding the encoded image of a record yields a record whose
/// every field carries the same content as the one encoded.
pub proof fn lemma_destiny_display_properties_definition_round_trip(v: DestinyDisplayPropertiesDefinition, w: DestinyDisplayPropertiesDefinition)
    requires
        destiny_display_properties_definition_json(v) matches Json::Obj(fields) && destiny_display_properties_definition_fields_match(fields, w),
    ensures
        destiny_display_properties_definition_wf(destiny_display_properties_definition_json(v)),
        w.icon_hash == v.icon_hash,
        w.description@ == v.description@,
        w.name@ == v.name@,
        (match v.icon { Some(x) => w.icon matches Some(y) && y@ == x@, Option::None => w.icon is None }),
        w.icon_sequences@.len() == v.icon_sequences@.len(),
        forall|i: int| 0 <= i < v.icon_sequences@.len() ==> (destiny_icon_sequence_definition_json(v.icon_sequences@[i]) matches Json::Obj(f2) && destiny_icon_sequence_definition_fields_match(f2, #[trigger] w.icon_sequences@[i])),
        (match v.high_res_icon { Some(x) => w.high_res_icon matches Some(y) && y@ == x@, Option::None => w.high_res_icon is None }),
        w.has_icon == v.has_icon,
{
    lemma_destiny_display_properties_definition_image(v);
    let fields = destiny_display_properties_definition_json(v)->Obj_0;
    reveal_strlit("iconHash");
    reveal_strlit("description");
    reveal_strlit("name");
    reveal_strlit("icon");
    reveal_strlit("iconSequences");
    reveal_strlit("highResIcon");
    reveal_strlit("hasIcon");
    assert("iconHash"@.len() == 8);
    assert("description"@.len() == 11);
    assert("name"@.len() == 4);
    assert("icon"@.len() == 4);
    assert("iconSequences"@.len() == 13);
    assert("highResIcon"@.len() == 11);
    assert("hasIcon"@.len() == 7);
    assert("iconHash"@ != "description"@);
    assert("iconHash"@ != "name"@);
    assert("iconHash"@ != "icon"@);
    assert("iconHash"@ != "iconSequences"@);
    assert("iconHash"@ != "highResIcon"@);
    assert("iconHash"@ != "hasIcon"@);
    assert("description"@ != "name"@);
    assert("description"@ != "icon"@);
    assert("description"@ != "iconSequences"@);
    assert(("description"@)[0] != ("highResIcon"@)[0]);
    assert("description"@ != "highResIcon"@);
    assert("description"@ != "hasIcon"@);
    assert(("name"@)[0] != ("icon"@)[0]);
    assert("name"@ != "icon"@);
    assert("name"@ != "iconSequences"@);
    assert("name"@ != "highResIcon"@);
    assert("name"@ != "hasIcon"@);
    assert("icon"@ != "iconSequences"@);
    assert("icon"@ != "highResIcon"@);
    assert("icon"@ != "hasIcon"@);
    assert("iconSequences"@ != "highResIcon"@);
    assert("iconSequences"@ != "hasIcon"@);
    assert("highResIcon"@ != "hasIcon"@);
    lemma_lookup_at(fields, 0);
    lemma_lookup_at(fields, 1);
    lemma_lookup_at(fields, 2);
    lemma_lookup_at(fields, 3);
    lemma_lookup_at(fields, 4);
    lemma_lookup_at(fields, 5);
    lemma_lookup_at(fields, 6);
    assert forall|i: int| 0 <= i < v.icon_sequences@.len()
        implies (destiny_icon_sequence_definition_json(v.icon_sequences@[i]) matches Json::Obj(f2)
            && destiny_icon_sequence_definition_fields_match(f2, #[trigger] w.icon_sequences@[i])) by {
        assert(fields[4].1->Arr_0[i] == destiny_icon_sequence_definition_json(v.icon_sequences@[i]));
        lemma_destiny_icon_sequence_definition_image(v.icon_sequences@[i]);
    }
}

/// The wire image of this record.
pub open spec fn destiny_plug_item_crafting_requirements_json(v: DestinyPlugItemCraftingRequirements) -> Json {
    Json::Obj(
        seq![
            ("unlockRequirements"@, Json::Arr(Seq::new(v.unlock_requirements@.len(), |i: int| if 0 <= i < v.unlock_requirements@.len() { destiny_plug_item_crafting_unlock_requirement_json(v.unlock_requirements@[i]) } else { Json::Null }))),
            ("requiredLevel"@, (match v.required_level { Some(x) => Json::Int(x as int), Option::None => Json::Null })),
            ("materialRequirementHashes"@, Json::Arr(Seq::new(v.material_requirement_hashes@.len(), |i: int| if 0 <= i < v.material_requirement_hashes@.len() { Json::Int(v.material_requirement_hashes@[i] as int) } else { Json::Null }))),
        ],
    )
}

/// Whether a document decodes as this record: an object with exactly these fields.
pub open spec fn destiny_plug_item_crafting_requirements_wf(j: Json) -> bool {
    &&& j matches Json::Obj(fields)
    &&& match spec_lookup(fields, "unlockRequirements"@) { Option::None => false, Some(Json::Arr(items)) => forall|i: int| 0 <= i < items.len() ==> destiny_plug_item_crafting_unlock_requirement_wf(#[trigger] items[i]), _ => false }
    &&& match spec_lookup(fields, "requiredLevel"@) { Option::None => true, Some(Json::Null) => true, Some(Json::Int(n)) => i32::MIN as int <= n <= i32::MAX as int, _ => false }
    &&& match spec_lookup(fields, "materialRequirementHashes"@) { Option::None => false, Some(Json::Arr(items)) => forall|i: int| 0 <= i < items.len() ==> ((#[trigger] items[i]) matches Json::Int(n) && 0 <= n <= u32::MAX as int), _ => false }
    &&& forall|i: int| 0 <= i < fields.len()
        ==> ((#[trigger] fields[i]).0 == "unlockRequirements"@ || fields[i].0 == "requiredLevel"@ || fields[i].0 == "materialRequirementHashes"@)
}

/// How a decoded record relates to the document it came from.
pub open spec fn destiny_plug_item_crafting_requirements_fields_match(fields: Seq<(Seq<char>, Json)>, w: DestinyPlugItemCraftingRequirements) -> bool {
    &&& match spec_lookup(fields, "unlockRequirements"@) { Option::None => false, Some(Json::Arr(items)) => w.unlock_requirements@.len() == items.len() && (forall|i: int| 0 <= i < items.len() ==> ((#[trigger] items[i]) matches Json::Obj(f2) && destiny_plug_item_crafting_unlock_requirement_fields_match(f2, w.unlock_requirements@[i]))), _ => false }
    &&& match w.required_level { Some(x) => spec_lookup(fields, "requiredLevel"@) == Some(Json::Int(x as int)), Option::None => spec_lookup(fields, "requiredLevel"@) is None || spec_lookup(fields, "requiredLevel"@) == Some(Json::Null) }
    &&& match spec_lookup(fields, "materialRequirementHashes"@) { Option::None => false, Some(Json::Arr(items)) => w.material_requirement_hashes@.len() == items.len() && (forall|i: int| 0 <= i < items.len() ==> (#[trigger] items[i]) == Json::Int(w.material_requirement_hashes@[i] as int)), _ => false }
}

/// What a decode failure names: its path points at a field of the
/// document that is indeed not decodable, and an undeclared
/// enumeration code is reported with the enumeration's own message.
pub open spec fn destiny_plug_item_crafting_requirements_err_ok(j: Json, e: DecodeError) -> bool {
    &&& !(j matches Json::Obj(_)) ==> e.path@.len() == 0
    &&& j matches Json::Obj(fields) ==> (
        ((e.path@ == "unlockRequirements"@ || spec_starts_with(e.path@, "unlockRequirements"@)) && !(match spec_lookup(fields, "unlockRequirements"@) { Option::None => false, Some(Json::Arr(items)) => forall|i: int| 0 <= i < items.len() ==> destiny_plug_item_crafting_unlock_requirement_wf(#[trigger] items[i]), _ => false }))
        || (e.path@ == "requiredLevel"@ && !(match spec_lookup(fields, "requiredLevel"@) { Option::None => true, Some(Json::Null) => true, Some(Json::Int(n)) => i32::MIN as int <= n <= i32::MAX as int, _ => false }))
        || ((e.path@ == "materialRequirementHashes"@ || spec_starts_with(e.path@, "materialRequirementHashes"@)) && !(match spec_lookup(fields, "materialRequirementHashes"@) { Option::None => false, Some(Json::Arr(items)) => forall|i: int| 0 <= i < items.len() ==> ((#[trigger] items[i]) matches Json::Int(n) && 0 <= n <= u32::MAX as int), _ => false }))
        || (exists|i: int| 0 <= i < fields.len() && (#[trigger] fields[i]).0 == e.path@ && !((fields[i].0 == "unlockRequirements"@ || fields[i].0 == "requiredLevel"@ || fields[i].0 == "materialRequirementHashes"@))))
}

pub fn encode_destiny_plug_item_crafting_requirements(v: &DestinyPlugItemCraftingRequirements) -> (r: JsonValue)
    ensures
        jview(r) == destiny_plug_item_crafting_requirements_json(*v),
{
    let mut fields: Vec<(String, JsonValue)> = Vec::new();
    let arr_unlock_requirements = {
        let mut items: Vec<JsonValue> = Vec::new();
        let mut i: usize = 0;
        while i < v.unlock_requirements.len()
            invariant
                i <= v.unlock_requirements.len(),
                items@.len() == i,
                forall|k: int| 0 <= k < i ==> jview(#[trigger] items@[k]) == destiny_plug_item_crafting_unlock_requirement_json(v.unlock_requirements@[k]),
            decreases v.unlock_requirements.len() - i,
        {
            items.push(encode_destiny_plug_item_crafting_unlock_requirement(&v.unlock_requirements[i]));
            i = i + 1;
        }
        JsonValue::Arr(items)
    };
    proof {
        assert(jview(arr_unlock_requirements)->Arr_0 =~= destiny_plug_item_crafting_requirements_json(*v)->Obj_0[0].1->Arr_0);
    }
    fields.push(("unlockRequirements".to_owned(), arr_unlock_requirements));
    fields.push(("requiredLevel".to_owned(), match &v.required_level {
        Some(x) => JsonValue::Int(*x as i64),
        Option::None => JsonValue::Null,
    }));
    let arr_material_requirement_hashes = {
        let mut items: Vec<JsonValue> = Vec::new();
        let mut i: usize = 0;
        while i < v.material_requirement_hashes.len()
            invariant
                i <= v.material_requirement_hashes.len(),
                items@.len() == i,
                forall|k: int| 0 <= k < i ==> jview(#[trigger] items@[k]) == Json::Int(v.material_requirement_hashes@[k] as int),
            decreases v.material_requirement_hashes.len() - i,
        {
            items.push(JsonValue::Int(v.material_requirement_hashes[i] as i64));
            i = i + 1;
        }
        JsonValue::Arr(items)
    };
    proof {
        assert(jview(arr_material_requirement_hashes)->Arr_0 =~= destiny_plug_item_crafting_requirements_json(*v)->Obj_0[2].1->Arr_0);
    }
    fields.push(("materialRequirementHashes".to_owned(), arr_material_requirement_hashes));
    let r = JsonValue::Obj(fields);
    proof {
        assert(jview(fields@[0].1) == destiny_plug_item_crafting_requirements_json(*v)->Obj_0[0].1);
        assert(jview(fields@[1].1) == destiny_plug_item_crafting_requirements_json(*v)->Obj_0[1].1);
        assert(jview(fields@[2].1) == destiny_plug_item_crafting_requirements_json(*v)->Obj_0[2].1);
        assert(jview(r)->Obj_0 =~= destiny_plug_item_crafting_requirements_json(*v)->Obj_0);
    }
    r
}

/// Decodes this record; a failure names the offending field in its
/// path and says what was expected of it.
#[verifier::loop_isolation(false)]
pub fn decode_destiny_plug_item_crafting_requirements(j: &JsonValue) -> (r: Result<DestinyPlugItemCraftingRequirements, DecodeError>)
    ensures
        r is Ok <==> destiny_plug_item_crafting_requirements_wf(jview(*j)),
        r matches Ok(w) ==> (jview(*j) matches Json::Obj(fields)
            && destiny_plug_item_crafting_requirements_fields_match(fields, w)),
        r matches Err(e) ==> destiny_plug_item_crafting_requirements_err_ok(jview(*j), e),
{
    let fields = match j {
        JsonValue::Obj(fields) => fields,
        _ => {
            return Err(root_error("an object"));
        },
    };
    let ghost gf = jview(*j)->Obj_0;
    let unlock_requirements = match j.get("unlockRequirements") {
        Option::None => {
            return Err(field_error("unlockRequirements", "an array"));
        },
        Some(arr) => match arr {
            JsonValue::Arr(items) => {
                let ghost gitems = jview(*arr)->Arr_0;
                let mut out: Vec<DestinyPlugItemCraftingUnlockRequirement> = Vec::new();
                let mut i: usize = 0;
                while i < items.len()
                    invariant
                        i <= items.len(),
                        out@.len() == i,
                        forall|k: int| 0 <= k < i
                            ==> (destiny_plug_item_crafting_unlock_requirement_wf(#[trigger] gitems[k])
                                && (gitems[k] matches Json::Obj(f2)
                                && destiny_plug_item_crafting_unlock_requirement_fields_match(f2, out@[k]))),
                    decreases items.len() - i,
                {
                    proof {
                        assert(gitems[i as int] == jview(items@[i as int]));
                    }
                    match decode_destiny_plug_item_crafting_unlock_requirement(&items[i]) {
                        Ok(r) => {
                            out.push(r);
                        },
                        Err(e) => {
                            return Err(indexed_error("unlockRequirements", i, e));
                        },
                    }
                    i = i + 1;
                }
                out
            },
            _ => {
                return Err(field_error("unlockRequirements", "an array"));
            },
        },
    };
    let required_level = match j.get("requiredLevel") {
        Option::None => Option::None,
        Some(JsonValue::Null) => Option::None,
        Some(v) => match v.to_i64() {
            Some(n) if i32::MIN as i64 <= n && n <= i32::MAX as i64 => Some(n as i32),
            _ => {
                return Err(field_error("requiredLevel", "a 32-bit integer or null"));
            },
        },
    };
    let material_requirement_hashes = match j.get("materialRequirementHashes") {
        Option::None => {
            return Err(field_error("materialRequirementHashes", "an array"));
        },
        Some(arr) => match arr {
            JsonValue::Arr(items) => {
                let ghost gitems = jview(*arr)->Arr_0;
                let mut out: Vec<u32> = Vec::new();
                let mut i: usize = 0;
                while i < items.len()
                    invariant
                        i <= items.len(),
                        out@.len() == i,
                        forall|k: int| 0 <= k < i ==> (#[trigger] gitems[k]) == Json::Int(out@[k] as int),
                    decreases items.len() - i,
                {
                    proof {
                        assert(gitems[i as int] == jview(items@[i as int]));
                    }
                    let n = match items[i].to_i64() {
                        Some(n) if 0 <= n && n <= u32::MAX as i64 => n,
                        _ => {
                            return Err(indexed_error("materialRequirementHashes", i, field_error("", "a 32-bit unsigned integer")));
                        },
                    };
                    out.push(n as u32);
                    i = i + 1;
                }
                out
            },
            _ => {
                return Err(field_error("materialRequirementHashes", "an array"));
            },
        },
    };
    let mut i: usize = 0;
    while i < fields.len()
        invariant
            i <= fields.len(),
            gf.len() == fields@.len(),
            forall|k: int| 0 <= k < gf.len()
                ==> #[trigger] gf[k] == (fields@[k].0@, jview(fields@[k].1)),
            forall|k: int| 0 <= k < i
                ==> ((#[trigger] gf[k]).0 == "unlockRequirements"@ || gf[k].0 == "requiredLevel"@ || gf[k].0 == "materialRequirementHashes"@),
        decreases fields.len() - i,
    {
        let name = fields[i].0.as_str();
        if !(str_eq(name, "unlockRequirements") || str_eq(name, "requiredLevel") || str_eq(name, "materialRequirementHashes")) {
            proof {
                assert(gf[i as int].0 == fields@[i as int].0@);
                assert(!destiny_plug_item_crafting_requirements_wf(jview(*j)));
            }
            return Err(field_error(fields[i].0.as_str(), "an unknown field"));
        }
        i = i + 1;
    }
    Ok(DestinyPlugItemCraftingRequirements { unlock_requirements, required_level, material_requirement_hashes })
}

/// The wire image of a record is well formed and matched by the
/// record itself: encoding loses nothing that decoding reads.
pub proof fn lemma_destiny_plug_item_crafting_requirements_image(v: DestinyPlugItemCraftingRequirements)
    ensures
        destiny_plug_item_crafting_requirements_wf(destiny_plug_item_crafting_requirements_json(v)),
        destiny_plug_item_crafting_requirements_json(v) matches Json::Obj(fields) && destiny_plug_item_crafting_requirements_fields_match(fields, v),
{
    reveal_strlit("unlockRequirements");
    reveal_strlit("requiredLevel");
    reveal_strlit("materialRequirementHashes");
    let fields = destiny_plug_item_crafting_requirements_json(v)->Obj_0;
    assert("unlockRequirements"@.len() == 18);
    assert("requiredLevel"@.len() == 13);
    assert("materialRequirementHashes"@.len() == 25);
    assert("unlockRequirements"@ != "requiredLevel"@);
    assert("unlockRequirements"@ != "materialRequirementHashes"@);
    assert("requiredLevel"@ != "materialRequirementHashes"@);
    lemma_lookup_at(fields, 0);
    lemma_lookup_at(fields, 1);
    lemma_lookup_at(fields, 2);
    assert forall|i: int| 0 <= i < v.unlock_requirements@.len()
        implies (destiny_plug_item_crafting_unlock_requirement_wf(#[trigger] fields[0].1->Arr_0[i])
            && (fields[0].1->Arr_0[i] matches Json::Obj(f2)
            && destiny_plug_item_crafting_unlock_requirement_fields_match(f2, v.unlock_requirements@[i]))) by {
        assert(fields[0].1->Arr_0[i] == destiny_plug_item_crafting_unlock_requirement_json(v.unlock_requirements@[i]));
        lemma_destiny_plug_item_crafting_unlock_requirement_image(v.unlock_requirements@[i]);
    }
}

/// Decoding the encoded image of a record yields a record whose
/// every field carries the same content as the one encoded.
pub proof fn lemma_destiny_plug_item_crafting_requirements_round_trip(v: DestinyPlugItemCraftingRequirements, w: DestinyPlugItemCraftingRequirements)
    requires
        destiny_plug_item_crafting_requirements_json(v) matches Json::Obj(fields) && destiny_plug_item_crafting_requirements_fields_match(fields, w),
    ensures
        destiny_plug_item_crafting_requirements_wf(destiny_plug_item_crafting_requirements_json(v)),
        w.unlock_requirements@.len() == v.unlock_requirements@.len(),
        forall|i: int| 0 <= i < v.unlock_requirements@.len() ==> (destiny_plug_item_crafting_unlock_requirement_json(v.unlock_requirements@[i]) matches Json::Obj(f2) && destiny_plug_item_crafting_unlock_requirement_fields_match(f2, #[trigger] w.unlock_requirements@[i])),
        w.required_level == v.required_level,
        w.material_requirement_hashes@ == v.material_requirement_hashes@,
{
    lemma_destiny_plug_item_crafting_requirements_image(v);
    let fields = destiny_plug_item_crafting_requirements_json(v)->Obj_0;
    reveal_strlit("unlockRequirements");
    reveal_strlit("requiredLevel");
    reveal_strlit("materialRequirementHashes");
    assert("unlockRequirements"@.len() == 18);
    assert("requiredLevel"@.len() == 13);
    assert("materialRequirementHashes"@.len() == 25);
    assert("unlockRequirements"@ != "requiredLevel"@);
    assert("unlockRequirements"@ != "materialRequirementHashes"@);
    assert("requiredLevel"@ != "materialRequirementHashes"@);
    lemma_lookup_at(fields, 0);
    lemma_lookup_at(fields, 1);
    lemma_lookup_at(fields, 2);
    assert forall|i: int| 0 <= i < v.unlock_requirements@.len()
        implies (destiny_plug_item_crafting_unlock_requirement_json(v.unlock_requirements@[i]) matches Json::Obj(f2)
            && destiny_plug_item_crafting_unlock_requirement_fields_match(f2, #[trigger] w.unlock_requirements@[i])) by {
        assert(fields[0].1->Arr_0[i] == destiny_plug_item_crafting_unlock_requirement_json(v.unlock_requirements@[i]));
        lemma_destiny_plug_item_crafting_unlock_requirement_image(v.unlock_requirements@[i]);
    }
    assert(w.material_requirement_hashes@ =~= v.material_requirement_hashes@) by {
        assert forall|i: int| 0 <= i < v.material_requirement_hashes@.len()
            implies #[trigger] w.material_requirement_hashes@[i] == v.material_requirement_hashes@[i] by {
            assert(spec_lookup(fields, "materialRequirementHashes"@) matches Some(Json::Arr(items))
                && (items[i] == Json::Int(v.material_requirement_hashes@[i] as int)
                && items[i] == Json::Int(w.material_requirement_hashes@[i] as int)));
        }
    }
}

/// The wire image of this record.
pub open spec fn destiny_item_socket_entry_plug_item_randomized_definition_json(v: DestinyItemSocketEntryPlugItemRandomizedDefinition) -> Json {
    Json::Obj(
        seq![
            ("craftingRequirements"@, (match v.crafting_requirements { Some(x) => destiny_plug_item_crafting_requirements_json(x), Option::None => Json::Null })),
            ("weight"@, Json::Float(v.weight.text@)),
            ("alternateWeight"@, Json::Float(v.alternate_weight.text@)),
            ("currentlyCanRoll"@, Json::Bool(v.currently_can_roll)),
            ("plugItemHash"@, Json::Int(v.plug_item_hash as int)),
        ],
    )
}

/// Whether a document decodes as this record: an object with exactly these fields.
pub open spec fn destiny_item_socket_entry_plug_item_randomized_definition_wf(j: Json) -> bool {
    &&& j matches Json::Obj(fields)
    &&& match spec_lookup(fields, "craftingRequirements"@) { Option::None => true, Some(Json::Null) => true, Some(inner) => destiny_plug_item_crafting_requirements_wf(inner) }
    &&& match spec_lookup(fields, "weight"@) { Some(Json::Float(_)) => true, Some(Json::Int(_)) => true, _ => false }
    &&& match spec_lookup(fields, "alternateWeight"@) { Some(Json::Float(_)) => true, Some(Json::Int(_)) => true, _ => false }
    &&& spec_lookup(fields, "currentlyCanRoll"@) matches Some(Json::Bool(_))
    &&& spec_lookup(fields, "plugItemHash"@) matches Some(Json::Int(n)) && 0 <= n <= u32::MAX as int
    &&& forall|i: int| 0 <= i < fields.len()
        ==> ((#[trigger] fields[i]).0 == "craftingRequirements"@ || fields[i].0 == "weight"@ || fields[i].0 == "alternateWeight"@ || fields[i].0 == "currentlyCanRoll"@ || fields[i].0 == "plugItemHash"@)
}

/// How a decoded record relates to the document it came from.
pub open spec fn destiny_item_socket_entry_plug_item_randomized_definition_fields_match(fields: Seq<(Seq<char>, Json)>, w: DestinyItemSocketEntryPlugItemRandomizedDefinition) -> bool {
    &&& match w.crafting_requirements { Some(x) => spec_lookup(fields, "craftingRequirements"@) matches Some(Json::Obj(f2)) && destiny_plug_item_crafting_requirements_fields_match(f2, x), Option::None => spec_lookup(fields, "craftingRequirements"@) is None || spec_lookup(fields, "craftingRequirements"@) == Some(Json::Null) }
    &&& match spec_lookup(fields, "weight"@) { Some(Json::Float(t)) => w.weight.text@ == t, Some(Json::Int(n)) => w.weight.text@ == int_dec_string(n), _ => false }
    &&& match spec_lookup(fields, "alternateWeight"@) { Some(Json::Float(t)) => w.alternate_weight.text@ == t, Some(Json::Int(n)) => w.alternate_weight.text@ == int_dec_string(n), _ => false }
    &&& spec_lookup(fields, "currentlyCanRoll"@) == Some(Json::Bool(w.currently_can_roll))
    &&& spec_lookup(fields, "plugItemHash"@) == Some(Json::Int(w.plug_item_hash as int))
}

/// What a decode failure names: its path points at a field of the
/// document that is indeed not decodable, and an undeclared
/// enumeration code is reported with the enumeration's own message.
pub open spec fn destiny_item_socket_entry_plug_item_randomized_definition_err_ok(j: Json, e: DecodeError) -> bool {
    &&& !(j matches Json::Obj(_)) ==> e.path@.len() == 0
    &&& j matches Json::Obj(fields) ==> (
        ((e.path@ == "craftingRequirements"@ || spec_starts_with(e.path@, "craftingRequirements"@)) && !(match spec_lookup(fields, "craftingRequirements"@) { Option::None => true, Some(Json::Null) => true, Some(inner) => destiny_plug_item_crafting_requirements_wf(inner) }))
        || (e.path@ == "weight"@ && !(match spec_lookup(fields, "weight"@) { Some(Json::Float(_)) => true, Some(Json::Int(_)) => true, _ => false }))
        || (e.path@ == "alternateWeight"@ && !(match spec_lookup(fields, "alternateWeight"@) { Some(Json::Float(_)) => true, Some(Json::Int(_)) => true, _ => false }))
        || (e.path@ == "currentlyCanRoll"@ && !(spec_lookup(fields, "currentlyCanRoll"@) matches Some(Json::Bool(_))))
        || (e.path@ == "plugItemHash"@ && !(spec_lookup(fields, "plugItemHash"@) matches Some(Json::Int(n)) && 0 <= n <= u32::MAX as int))
        || (exists|i: int| 0 <= i < fields.len() && (#[trigger] fields[i]).0 == e.path@ && !((fields[i].0 == "craftingRequirements"@ || fields[i].0 == "weight"@ || fields[i].0 == "alternateWeight"@ || fields[i].0 == "currentlyCanRoll"@ || fields[i].0 == "plugItemHash"@))))
}

pub fn encode_destiny_item_socket_entry_plug_item_randomized_definition(v: &DestinyItemSocketEntryPlugItemRandomizedDefinition) -> (r: JsonValue)
    ensures
        jview(r) == destiny_item_socket_entry_plug_item_randomized_definition_json(*v),
{
    let mut fields: Vec<(String, JsonValue)> = Vec::new();
    fields.push(("craftingRequirements".to_owned(), match &v.crafting_requirements {
        Some(x) => encode_destiny_plug_item_crafting_requirements(x),
        Option::None => JsonValue::Null,
    }));
    fields.push(("weight".to_owned(), JsonValue::Float(v.weight.text.clone())));
    fields.push(("alternateWeight".to_owned(), JsonValue::Float(v.alternate_weight.text.clone())));
    fields.push(("currentlyCanRoll".to_owned(), JsonValue::Bool(v.currently_can_roll)));
    fields.push(("plugItemHash".to_owned(), JsonValue::Int(v.plug_item_hash as i64)));
    let r = JsonValue::Obj(fields);
    proof {
        assert(jview(fields@[0].1) == destiny_item_socket_entry_plug_item_randomized_definition_json(*v)->Obj_0[0].1);
        assert(jview(fields@[1].1) == destiny_item_socket_entry_plug_item_randomized_definition_json(*v)->Obj_0[1].1);
        assert(jview(fields@[2].1) == destiny_item_socket_entry_plug_item_randomized_definition_json(*v)->Obj_0[2].1);
        assert(jview(fields@[3].1) == destiny_item_socket_entry_plug_item_randomized_definition_json(*v)->Obj_0[3].1);
        assert(jview(fields@[4].1) == destiny_item_socket_entry_plug_item_randomized_definition_json(*v)->Obj_0[4].1);
        assert(jview(r)->Obj_0 =~= destiny_item_socket_entry_plug_item_randomized_definition_json(*v)->Obj_0);
    }
    r
}

/// Decodes this record; a failure names the offending field in its
/// path and says what was expected of it.
#[verifier::loop_isolation(false)]
pub fn decode_destiny_item_socket_entry_plug_item_randomized_definition(j: &JsonValue) -> (r: Result<DestinyItemSocketEntryPlugItemRandomizedDefinition, DecodeError>)
    ensures
        r is Ok <==> destiny_item_socket_entry_plug_item_randomized_definition_wf(jview(*j)),
        r matches Ok(w) ==> (jview(*j) matches Json::Obj(fields)
            && destiny_item_socket_entry_plug_item_randomized_definition_fields_match(fields, w)),
        r matches Err(e) ==> destiny_item_socket_entry_plug_item_randomized_definition_err_ok(jview(*j), e),
{
    let fields = match j {
        JsonValue::Obj(fields) => fields,
        _ => {
            return Err(root_error("an object"));
        },
    };
    let ghost gf = jview(*j)->Obj_0;
    let crafting_requirements = match j.get("craftingRequirements") {
        Option::None => Option::None,
        Some(JsonValue::Null) => Option::None,
        Some(inner) => match decode_destiny_plug_item_crafting_requirements(inner) {
            Ok(r) => Some(r),
            Err(e) => {
                return Err(nested_error("craftingRequirements", e));
            },
        },
    };
    let weight = match j.get("weight") {
        Some(JsonValue::Float(t)) => FloatText { text: t.clone() },
        Some(JsonValue::Int(n)) => FloatText { text: i64_to_string(*n) },
        Some(JsonValue::UInt(u)) => FloatText { text: u64_to_string(*u) },
        _ => {
            return Err(field_error("weight", "a number"));
        },
    };
    let alternate_weight = match j.get("alternateWeight") {
        Some(JsonValue::Float(t)) => FloatText { text: t.clone() },
        Some(JsonValue::Int(n)) => FloatText { text: i64_to_string(*n) },
        Some(JsonValue::UInt(u)) => FloatText { text: u64_to_string(*u) },
        _ => {
            return Err(field_error("alternateWeight", "a number"));
        },
    };
    let currently_can_roll = match j.get("currentlyCanRoll") {
        Some(JsonValue::Bool(b)) => *b,
        _ => {
            return Err(field_error("currentlyCanRoll", "a boolean"));
        },
    };
    let plug_item_hash = match j.get("plugItemHash") {
        Some(v) => match v.to_i64() {
            Some(n) if 0 <= n && n <= u32::MAX as i64 => n as u32,
            _ => {
                return Err(field_error("plugItemHash", "a 32-bit unsigned integer"));
            },
        },
        _ => {
            return Err(field_error("plugItemHash", "a 32-bit unsigned integer"));
        },
    };
    let mut i: usize = 0;
    while i < fields.len()
        invariant
            i <= fields.len(),
            gf.len() == fields@.len(),
            forall|k: int| 0 <= k < gf.len()
                ==> #[trigger] gf[k] == (fields@[k].0@, jview(fields@[k].1)),
            forall|k: int| 0 <= k < i
                ==> ((#[trigger] gf[k]).0 == "craftingRequirements"@ || gf[k].0 == "weight"@ || gf[k].0 == "alternateWeight"@ || gf[k].0 == "currentlyCanRoll"@ || gf[k].0 == "plugItemHash"@),
        decreases fields.len() - i,
    {
        let name = fields[i].0.as_str();
        if !(str_eq(name, "craftingRequirements") || str_eq(name, "weight") || str_eq(name, "alternateWeight") || str_eq(name, "currentlyCanRoll") || str_eq(name, "plugItemHash")) {
            proof {
                assert(gf[i as int].0 == fields@[i as int].0@);
                assert(!destiny_item_socket_entry_plug_item_randomized_definition_wf(jview(*j)));
            }
            return Err(field_error(fields[i].0.as_str(), "an unknown field"));
        }
        i = i + 1;
    }
    Ok(DestinyItemSocketEntryPlugItemRandomizedDefinition { crafting_requirements, weight, alternate_weight, currently_can_roll, plug_item_hash })
}

/// The wire image of a record is well formed and matched by the
/// record itself: encoding loses nothing that decoding reads.
pub proof fn lemma_destiny_item_socket_entry_plug_item_randomized_definition_image(v: DestinyItemSocketEntryPlugItemRandomizedDefinition)
    ensures
        destiny_item_socket_entry_plug_item_randomized_definition_wf(destiny_item_socket_entry_plug_item_randomized_definition_json(v)),
        destiny_item_socket_entry_plug_item_randomized_definition_json(v) matches Json::Obj(fields) && destiny_item_socket_entry_plug_item_randomized_definition_fields_match(fields, v),
{
    reveal_strlit("craftingRequirements");
    reveal_strlit("weight");
    reveal_strlit("alternateWeight");
    reveal_strlit("currentlyCanRoll");
    reveal_strlit("plugItemHash");
    let fields = destiny_item_socket_entry_plug_item_randomized_definition_json(v)->Obj_0;
    assert("craftingRequirements"@.len() == 20);
    assert("weight"@.len() == 6);
    assert("alternateWeight"@.len() == 15);
    assert("currentlyCanRoll"@.len() == 16);
    assert("plugItemHash"@.len() == 12);
    assert("craftingRequirements"@ != "weight"@);
    assert("craftingRequirements"@ != "alternateWeight"@);
    assert("craftingRequirements"@ != "currentlyCanRoll"@);
    assert("craftingRequirements"@ != "plugItemHash"@);
    assert("weight"@ != "alternateWeight"@);
    assert("weight"@ != "currentlyCanRoll"@);
    assert("weight"@ != "plugItemHash"@);
    assert("alternateWeight"@ != "currentlyCanRoll"@);
    assert("alternateWeight"@ != "plugItemHash"@);
    assert("currentlyCanRoll"@ != "plugItemHash"@);
    lemma_lookup_at(fields, 0);
    lemma_lookup_at(fields, 1);
    lemma_lookup_at(fields, 2);
    lemma_lookup_at(fields, 3);
    lemma_lookup_at(fields, 4);
    match v.crafting_requirements {
        Option::None => {},
        Some(x) => {
            lemma_destiny_plug_item_crafting_requirements_image(x);
        },
    }
}

/// Decoding the encoded image of a record yields a record whose
/// every field carries the same content as the one encoded.
pub proof fn lemma_destiny_item_socket_entry_plug_item_randomized_definition_round_trip(v: DestinyItemSocketEntryPlugItemRandomizedDefinition, w: DestinyItemSocketEntryPlugItemRandomizedDefinition)
    requires
        destiny_item_socket_entry_plug_item_randomized_definition_json(v) matches Json::Obj(fields) && destiny_item_socket_entry_plug_item_randomized_definition_fields_match(fields, w),
    ensures
        destiny_item_socket_entry_plug_item_randomized_definition_wf(destiny_item_socket_entry_plug_item_randomized_definition_json(v)),
        (match v.crafting_requirements { Some(x) => w.crafting_requirements matches Some(y) && (destiny_plug_item_crafting_requirements_json(x) matches Json::Obj(f2) && destiny_plug_item_crafting_requirements_fields_match(f2, y)), Option::None => w.crafting_requirements is None }),
        w.weight.text@ == v.weight.text@,
        w.alternate_weight.text@ == v.alternate_weight.text@,
        w.currently_can_roll == v.currently_can_roll,
        w.plug_item_hash == v.plug_item_hash,
{
    lemma_destiny_item_socket_entry_plug_item_randomized_definition_image(v);
    let fields = destiny_item_socket_entry_plug_item_randomized_definition_json(v)->Obj_0;
    reveal_strlit("craftingRequirements");
    reveal_strlit("weight");
    reveal_strlit("alternateWeight");
    reveal_strlit("currentlyCanRoll");
    reveal_strlit("plugItemHash");
    assert("craftingRequirements"@.len() == 20);
    assert("weight"@.len() == 6);
    assert("alternateWeight"@.len() == 15);
    assert("currentlyCanRoll"@.len() == 16);
    assert("plugItemHash"@.len() == 12);
    assert("craftingRequirements"@ != "weight"@);
    assert("craftingRequirements"@ != "alternateWeight"@);
    assert("craftingRequirements"@ != "currentlyCanRoll"@);
    assert("craftingRequirements"@ != "plugItemHash"@);
    assert("weight"@ != "alternateWeight"@);
    assert("weight"@ != "currentlyCanRoll"@);
    assert("weight"@ != "plugItemHash"@);
    assert("alternateWeight"@ != "currentlyCanRoll"@);
    assert("alternateWeight"@ != "plugItemHash"@);
    assert("currentlyCanRoll"@ != "plugItemHash"@);
    lemma_lookup_at(fields, 0);
    lemma_lookup_at(fields, 1);
    lemma_lookup_at(fields, 2);
    lemma_lookup_at(fields, 3);
    lemma_lookup_at(fields, 4);
    match v.crafting_requirements {
        Option::None => {},
        Some(x) => {
            lemma_destiny_plug_item_crafting_requirements_image(x);
        },
    }
}

/// The wire image of this record.
pub open spec fn destiny_socket_category_definition_json(v: DestinySocketCategoryDefinition) -> Json {
    Json::Obj(
        seq![
            ("displayProperties"@, destiny_display_properties_definition_json(v.display_properties)),
            ("uiCategoryStyle"@, Json::Int(v.ui_category_style as int)),
            ("categoryStyle"@, Json::Int(v.category_style.spec_code())),
            ("hash"@, Json::Int(v.hash as int)),
            ("index"@, Json::Int(v.index as int)),
            ("redacted"@, Json::Bool(v.redacted)),
        ],
    )
}

/// Whether a document decodes as this record: unknown fields are tolerated.
pub open spec fn destiny_socket_category_definition_wf(j: Json) -> bool {
    &&& j matches Json::Obj(fields)
    &&& spec_lookup(fields, "displayProperties"@) matches Some(inner) && destiny_display_properties_definition_wf(inner)
    &&& spec_lookup(fields, "uiCategoryStyle"@) matches Some(Json::Int(n)) && 0 <= n <= u32::MAX as int
    &&& spec_lookup(fields, "categoryStyle"@) matches Some(Json::Int(n)) && DestinySocketCategoryStyle::spec_from_code(n) is Some
    &&& spec_lookup(fields, "hash"@) matches Some(Json::Int(n)) && 0 <= n <= u32::MAX as int
    &&& spec_lookup(fields, "index"@) matches Some(Json::Int(n)) && i32::MIN as int <= n <= i32::MAX as int
    &&& spec_lookup(fields, "redacted"@) matches Some(Json::Bool(_))
}

/// How a decoded record relates to the document it came from.
pub open spec fn destiny_socket_category_definition_fields_match(fields: Seq<(Seq<char>, Json)>, w: DestinySocketCategoryDefinition) -> bool {
    &&& spec_lookup(fields, "displayProperties"@) matches Some(Json::Obj(inner)) && destiny_display_properties_definition_fields_match(inner, w.display_properties)
    &&& spec_lookup(fields, "uiCategoryStyle"@) == Some(Json::Int(w.ui_category_style as int))
    &&& spec_lookup(fields, "categoryStyle"@) matches Some(Json::Int(n)) && Some(w.category_style) == DestinySocketCategoryStyle::spec_from_code(n)
    &&& spec_lookup(fields, "hash"@) == Some(Json::Int(w.hash as int))
    &&& spec_lookup(fields, "index"@) == Some(Json::Int(w.index as int))
    &&& spec_lookup(fields, "redacted"@) == Some(Json::Bool(w.redacted))
}

/// What a decode failure names: its path points at a field of the
/// document that is indeed not decodable, and an undeclared
/// enumeration code is reported with the enumeration's own message.
pub open spec fn destiny_socket_category_definition_err_ok(j: Json, e: DecodeError) -> bool {
    &&& !(j matches Json::Obj(_)) ==> e.path@.len() == 0
    &&& j matches Json::Obj(fields) ==> (
        ((e.path@ == "displayProperties"@ || spec_starts_with(e.path@, "displayProperties"@)) && !(spec_lookup(fields, "displayProperties"@) matches Some(inner) && destiny_display_properties_definition_wf(inner)))
        || (e.path@ == "uiCategoryStyle"@ && !(spec_lookup(fields, "uiCategoryStyle"@) matches Some(Json::Int(n)) && 0 <= n <= u32::MAX as int))
        || (e.path@ == "categoryStyle"@ && !(spec_lookup(fields, "categoryStyle"@) matches Some(Json::Int(n)) && DestinySocketCategoryStyle::spec_from_code(n) is Some) && (match spec_lookup(fields, "categoryStyle"@) { Some(Json::Int(n)) => (0 <= n <= u8::MAX as int && DestinySocketCategoryStyle::spec_from_code(n) is None) ==> e.message@ == DestinySocketCategoryStyle::spec_unknown_code_message(n), _ => true }))
        || (e.path@ == "hash"@ && !(spec_lookup(fields, "hash"@) matches Some(Json::Int(n)) && 0 <= n <= u32::MAX as int))
        || (e.path@ == "index"@ && !(spec_lookup(fields, "index"@) matches Some(Json::Int(n)) && i32::MIN as int <= n <= i32::MAX as int))
        || (e.path@ == "redacted"@ && !(spec_lookup(fields, "redacted"@) matches Some(Json::Bool(_)))))
}

pub fn encode_destiny_socket_category_definition(v: &DestinySocketCategoryDefinition) -> (r: JsonValue)
    ensures
        jview(r) == destiny_socket_category_definition_json(*v),
{
    let mut fields: Vec<(String, JsonValue)> = Vec::new();
    fields.push(("displayProperties".to_owned(), encode_destiny_display_properties_definition(&v.display_properties)));
    fields.push(("uiCategoryStyle".to_owned(), JsonValue::Int(v.ui_category_style as i64)));
    fields.push(("categoryStyle".to_owned(), JsonValue::Int(v.category_style.code() as i64)));
    fields.push(("hash".to_owned(), JsonValue::Int(v.hash as i64)));
    fields.push(("index".to_owned(), JsonValue::Int(v.index as i64)));
    fields.push(("redacted".to_owned(), JsonValue::Bool(v.redacted)));
    let r = JsonValue::Obj(fields);
    proof {
        assert(jview(fields@[0].1) == destiny_socket_category_definition_json(*v)->Obj_0[0].1);
        assert(jview(fields@[1].1) == destiny_socket_category_definition_json(*v)->Obj_0[1].1);
        assert(jview(fields@[2].1) == destiny_socket_category_definition_json(*v)->Obj_0[2].1);
        assert(jview(fields@[3].1) == destiny_socket_category_definition_json(*v)->Obj_0[3].1);
        assert(jview(fields@[4].1) == destiny_socket_category_definition_json(*v)->Obj_0[4].1);
        assert(jview(fields@[5].1) == destiny_socket_category_definition_json(*v)->Obj_0[5].1);
        assert(jview(r)->Obj_0 =~= destiny_socket_category_definition_json(*v)->Obj_0);
    }
    r
}

/// Decodes this record; a failure names the offending field in its
/// path and says what was expected of it.
#[verifier::loop_isolation(false)]
pub fn decode_destiny_socket_category_definition(j: &JsonValue) -> (r: Result<DestinySocketCategoryDefinition, DecodeError>)
    ensures
        r is Ok <==> destiny_socket_category_definition_wf(jview(*j)),
        r matches Ok(w) ==> (jview(*j) matches Json::Obj(fields)
            && destiny_socket_category_definition_fields_match(fields, w)),
        r matches Err(e) ==> destiny_socket_category_definition_err_ok(jview(*j), e),
{
    let fields = match j {
        JsonValue::Obj(fields) => fields,
        _ => {
            return Err(root_error("an object"));
        },
    };
    let ghost gf = jview(*j)->Obj_0;
    let display_properties = match j.get("displayProperties") {
        Some(inner) => match decode_destiny_display_properties_definition(inner) {
            Ok(r) => r,
            Err(e) => {
                return Err(nested_error("displayProperties", e));
            },
        },
        _ => {
            return Err(field_error("displayProperties", "an object"));
        },
    };
    let ui_category_style = match j.get("uiCategoryStyle") {
        Some(v) => match v.to_i64() {
            Some(n) if 0 <= n && n <= u32::MAX as i64 => n as u32,
            _ => {
                return Err(field_error("uiCategoryStyle", "a 32-bit unsigned integer"));
            },
        },
        _ => {
            return Err(field_error("uiCategoryStyle", "a 32-bit unsigned integer"));
        },
    };
    let category_style = match j.get("categoryStyle") {
        Some(v) => match v.to_i64() {
            Some(n) if 0 <= n && n <= u8::MAX as i64 => match DestinySocketCategoryStyle::decode_code(n as u8) {
                Ok(t) => t,
                Err(e) => {
                    return Err(rekey_error("categoryStyle", e));
                },
            },
            _ => {
                return Err(field_error("categoryStyle", "a declared DestinySocketCategoryStyle code"));
            },
        },
        _ => {
            return Err(field_error("categoryStyle", "a declared DestinySocketCategoryStyle code"));
        },
    };
    let hash = match j.get("hash") {
        Some(v) => match v.to_i64() {
            Some(n) if 0 <= n && n <= u32::MAX as i64 => n as u32,
            _ => {
                return Err(field_error("hash", "a 32-bit unsigned integer"));
            },
        },
        _ => {
            return Err(field_error("hash", "a 32-bit unsigned integer"));
        },
    };
    let index = match j.get("index") {
        Some(v) => match v.to_i64() {
            Some(n) if i32::MIN as i64 <= n && n <= i32::MAX as i64 => n as i32,
            _ => {
                return Err(field_error("index", "a 32-bit integer"));
            },
        },
        _ => {
            return Err(field_error("index", "a 32-bit integer"));
        },
    };
    let redacted = match j.get("redacted") {
        Some(JsonValue::Bool(b)) => *b,
        _ => {
            return Err(field_error("redacted", "a boolean"));
        },
    };
    Ok(DestinySocketCategoryDefinition { display_properties, ui_category_style, category_style, hash, index, redacted })
}

/// The wire image of a record is well formed and matched by the
/// record itself: encoding loses nothing that decoding reads.
pub proof fn lemma_destiny_socket_category_definition_image(v: DestinySocketCategoryDefinition)
    ensures
        destiny_socket_category_definition_wf(destiny_socket_category_definition_json(v)),
        destiny_socket_category_definition_json(v) matches Json::Obj(fields) && destiny_socket_category_definition_fields_match(fields, v),
{
    reveal_strlit("displayProperties");
    reveal_strlit("uiCategoryStyle");
    reveal_strlit("categoryStyle");
    reveal_strlit("hash");
    reveal_strlit("index");
    reveal_strlit("redacted");
    let fields = destiny_socket_category_definition_json(v)->Obj_0;
    assert("displayProperties"@.len() == 17);
    assert("uiCategoryStyle"@.len() == 15);
    assert("categoryStyle"@.len() == 13);
    assert("hash"@.len() == 4);
    assert("index"@.len() == 5);
    assert("redacted"@.len() == 8);
    assert("displayProperties"@ != "uiCategoryStyle"@);
    assert("displayProperties"@ != "categoryStyle"@);
    assert("displayProperties"@ != "hash"@);
    assert("displayProperties"@ != "index"@);
    assert("displayProperties"@ != "redacted"@);
    assert("uiCategoryStyle"@ != "categoryStyle"@);
    assert("uiCategoryStyle"@ != "hash"@);
    assert("uiCategoryStyle"@ != "index"@);
    assert("uiCategoryStyle"@ != "redacted"@);
    assert("categoryStyle"@ != "hash"@);
    assert("categoryStyle"@ != "index"@);
    assert("categoryStyle"@ != "redacted"@);
    assert("hash"@ != "index"@);
    assert("hash"@ != "redacted"@);
    assert("index"@ != "redacted"@);
    lemma_lookup_at(fields, 0);
    lemma_lookup_at(fields, 1);
    lemma_lookup_at(fields, 2);
    lemma_lookup_at(fields, 3);
    lemma_lookup_at(fields, 4);
    lemma_lookup_at(fields, 5);
    lemma_destiny_display_properties_definition_image(v.display_properties);
    DestinySocketCategoryStyle::lemma_code_round_trip(v.category_style, 0);
}

/// Decoding the encoded image of a record yields a record whose
/// every field carries the same content as the one encoded.
pub proof fn lemma_destiny_socket_category_definition_round_trip(v: DestinySocketCategoryDefinition, w: DestinySocketCategoryDefinition)
    requires
        destiny_socket_category_definition_json(v) matches Json::Obj(fields) && destiny_socket_category_definition_fields_match(fields, w),
    ensures
        destiny_socket_category_definition_wf(destiny_socket_category_definition_json(v)),
        destiny_display_properties_definition_json(v.display_properties) matches Json::Obj(f2) && destiny_display_properties_definition_fields_match(f2, w.display_properties),
        w.ui_category_style == v.ui_category_style,
        w.category_style == v.category_style,
        w.hash == v.hash,
        w.index == v.index,
        w.redacted == v.redacted,
{
    lemma_destiny_socket_category_definition_image(v);
    let fields = destiny_socket_category_definition_json(v)->Obj_0;
    reveal_strlit("displayProperties");
    reveal_strlit("uiCategoryStyle");
    reveal_strlit("categoryStyle");
    reveal_strlit("hash");
    reveal_strlit("index");
    reveal_strlit("redacted");
    assert("displayProperties"@.len() == 17);
    assert("uiCategoryStyle"@.len() == 15);
    assert("categoryStyle"@.len() == 13);
    assert("hash"@.len() == 4);
    assert("index"@.len() == 5);
    assert("redacted"@.len() == 8);
    assert("displayProperties"@ != "uiCategoryStyle"@);
    assert("displayProperties"@ != "categoryStyle"@);
    assert("displayProperties"@ != "hash"@);
    assert("displayProperties"@ != "index"@);
    assert("displayProperties"@ != "redacted"@);
    assert("uiCategoryStyle"@ != "categoryStyle"@);
    assert("uiCategoryStyle"@ != "hash"@);
    assert("uiCategoryStyle"@ != "index"@);
    assert("uiCategoryStyle"@ != "redacted"@);
    assert("categoryStyle"@ != "hash"@);
    assert("categoryStyle"@ != "index"@);
    assert("categoryStyle"@ != "redacted"@);
    assert("hash"@ != "index"@);
    assert("hash"@ != "redacted"@);
    assert("index"@ != "redacted"@);
    lemma_lookup_at(fields, 0);
    lemma_lookup_at(fields, 1);
    lemma_lookup_at(fields, 2);
    lemma_lookup_at(fields, 3);
    lemma_lookup_at(fields, 4);
    lemma_lookup_at(fields, 5);
    lemma_destiny_display_properties_definition_image(v.display_properties);
    DestinySocketCategoryStyle::lemma_code_round_trip(v.category_style, 0);
}

/// The wire image of this record.
pub open spec fn destiny_socket_type_definition_json(v: DestinySocketTypeDefinition) -> Json {
    Json::Obj(
        seq![
            ("displayProperties"@, destiny_display_properties_definition_json(v.display_properties)),
            ("insertAction"@, (match v.insert_action { Some(x) => destiny_insert_plug_action_definition_json(x), Option::None => Json::Null })),
            ("plugWhitelist"@, Json::Arr(Seq::new(v.plug_whitelist@.len(), |i: int| if 0 <= i < v.plug_whitelist@.len() { destiny_plug_whitelist_entry_definition_json(v.plug_whitelist@[i]) } else { Json::Null }))),
            ("socketCategoryHash"@, Json::Int(v.socket_category_hash as int)),
            ("visibility"@, Json::Int(v.visibility.spec_code())),
            ("alwaysRandomizeSockets"@, Json::Bool(v.always_randomize_sockets)),
            ("isPreviewEnabled"@, Json::Bool(v.is_preview_enabled)),
            ("hideDuplicateReusablePlugs"@, Json::Bool(v.hide_duplicate_reusable_plugs)),
            ("overridesUiAppearance"@, Json::Bool(v.overrides_ui_appearance)),
            ("avoidDuplicatesOnInitialization"@, Json::Bool(v.avoid_duplicates_on_initialization)),
            ("currencyScalars"@, Json::Arr(Seq::new(v.currency_scalars@.len(), |i: int| if 0 <= i < v.currency_scalars@.len() { destiny_socket_type_scalar_material_requirement_entry_json(v.currency_scalars@[i]) } else { Json::Null }))),
            ("hash"@, Json::Int(v.hash as int)),
            ("index"@, Json::Int(v.index as int)),
            ("redacted"@, Json::Bool(v.redacted)),
        ],
    )
}

/// Whether a document decodes as this record: unknown fields are tolerated.
pub open spec fn destiny_socket_type_definition_wf(j: Json) -> bool {
    &&& j matches Json::Obj(fields)
    &&& spec_lookup(fields, "displayProperties"@) matches Some(inner) && destiny_display_properties_definition_wf(inner)
    &&& match spec_lookup(fields, "insertAction"@) { Option::None => true, Some(Json::Null) => true, Some(inner) => destiny_insert_plug_action_definition_wf(inner) }
    &&& match spec_lookup(fields, "plugWhitelist"@) { Option::None => true, Some(Json::Arr(items)) => forall|i: int| 0 <= i < items.len() ==> destiny_plug_whitelist_entry_definition_wf(#[trigger] items[i]), _ => false }
    &&& spec_lookup(fields, "socketCategoryHash"@) matches Some(Json::Int(n)) && 0 <= n <= u32::MAX as int
    &&& spec_lookup(fields, "visibility"@) matches Some(Json::Int(n)) && DestinySocketVisibility::spec_from_code(n) is Some
    &&& spec_lookup(fields, "alwaysRandomizeSockets"@) matches Some(Json::Bool(_))
    &&& spec_lookup(fields, "isPreviewEnabled"@) matches Some(Json::Bool(_))
    &&& spec_lookup(fields, "hideDuplicateReusablePlugs"@) matches Some(Json::Bool(_))
    &&& spec_lookup(fields, "overridesUiAppearance"@) matches Some(Json::Bool(_))
    &&& spec_lookup(fields, "avoidDuplicatesOnInitialization"@) matches Some(Json::Bool(_))
    &&& match spec_lookup(fields, "currencyScalars"@) { Option::None => true, Some(Json::Arr(items)) => forall|i: int| 0 <= i < items.len() ==> destiny_socket_type_scalar_material_requirement_entry_wf(#[trigger] items[i]), _ => false }
    &&& spec_lookup(fields, "hash"@) matches Some(Json::Int(n)) && 0 <= n <= u32::MAX as int
    &&& spec_lookup(fields, "index"@) matches Some(Json::Int(n)) && i32::MIN as int <= n <= i32::MAX as int
    &&& spec_lookup(fields, "redacted"@) matches Some(Json::Bool(_))
}

/// How a decoded record relates to the document it came from.
pub open spec fn destiny_socket_type_definition_fields_match(fields: Seq<(Seq<char>, Json)>, w: DestinySocketTypeDefinition) -> bool {
    &&& spec_lookup(fields, "displayProperties"@) matches Some(Json::Obj(inner)) && destiny_display_properties_definition_fields_match(inner, w.display_properties)
    &&& match w.insert_action { Some(x) => spec_lookup(fields, "insertAction"@) matches Some(Json::Obj(f2)) && destiny_insert_plug_action_definition_fields_match(f2, x), Option::None => spec_lookup(fields, "insertAction"@) is None || spec_lookup(fields, "insertAction"@) == Some(Json::Null) }
    &&& match spec_lookup(fields, "plugWhitelist"@) { Option::None => w.plug_whitelist@.len() == 0, Some(Json::Arr(items)) => w.plug_whitelist@.len() == items.len() && (forall|i: int| 0 <= i < items.len() ==> ((#[trigger] items[i]) matches Json::Obj(f2) && destiny_plug_whitelist_entry_definition_fields_match(f2, w.plug_whitelist@[i]))), _ => false }
    &&& spec_lookup(fields, "socketCategoryHash"@) == Some(Json::Int(w.socket_category_hash as int))
    &&& spec_lookup(fields, "visibility"@) matches Some(Json::Int(n)) && Some(w.visibility) == DestinySocketVisibility::spec_from_code(n)
    &&& spec_lookup(fields, "alwaysRandomizeSockets"@) == Some(Json::Bool(w.always_randomize_sockets))
    &&& spec_lookup(fields, "isPreviewEnabled"@) == Some(Json::Bool(w.is_preview_enabled))
    &&& spec_lookup(fields, "hideDuplicateReusablePlugs"@) == Some(Json::Bool(w.hide_duplicate_reusable_plugs))
    &&& spec_lookup(fields, "overridesUiAppearance"@) == Some(Json::Bool(w.overrides_ui_appearance))
    &&& spec_lookup(fields, "avoidDuplicatesOnInitialization"@) == Some(Json::Bool(w.avoid_duplicates_on_initialization))
    &&& match spec_lookup(fields, "currencyScalars"@) { Option::None => w.currency_scalars@.len() == 0, Some(Json::Arr(items)) => w.currency_scalars@.len() == items.len() && (forall|i: int| 0 <= i < items.len() ==> ((#[trigger] items[i]) matches Json::Obj(f2) && destiny_socket_type_scalar_material_requirement_entry_fields_match(f2, w.currency_scalars@[i]))), _ => false }
    &&& spec_lookup(fields, "hash"@) == Some(Json::Int(w.hash as int))
    &&& spec_lookup(fields, "index"@) == Some(Json::Int(w.index as int))
    &&& spec_lookup(fields, "redacted"@) == Some(Json::Bool(w.redacted))
}

/// What a decode failure names: its path points at a field of the
/// document that is indeed not decodable, and an undeclared
/// enumeration code is reported with the enumeration's own message.
pub open spec fn destiny_socket_type_definition_err_ok(j: Json, e: DecodeError) -> bool {
    &&& !(j matches Json::Obj(_)) ==> e.path@.len() == 0
    &&& j matches Json::Obj(fields) ==> (
        ((e.path@ == "displayProperties"@ || spec_starts_with(e.path@, "displayProperties"@)) && !(spec_lookup(fields, "displayProperties"@) matches Some(inner) && destiny_display_properties_definition_wf(inner)))
        || ((e.path@ == "insertAction"@ || spec_starts_with(e.path@, "insertAction"@)) && !(match spec_lookup(fields, "insertAction"@) { Option::None => true, Some(Json::Null) => true, Some(inner) => destiny_insert_plug_action_definition_wf(inner) }))
        || ((e.path@ == "plugWhitelist"@ || spec_starts_with(e.path@, "plugWhitelist"@)) && !(match spec_lookup(fields, "plugWhitelist"@) { Option::None => true, Some(Json::Arr(items)) => forall|i: int| 0 <= i < items.len() ==> destiny_plug_whitelist_entry_definition_wf(#[trigger] items[i]), _ => false }))
        || (e.path@ == "socketCategoryHash"@ && !(spec_lookup(fields, "socketCategoryHash"@) matches Some(Json::Int(n)) && 0 <= n <= u32::MAX as int))
        || (e.path@ == "visibility"@ && !(spec_lookup(fields, "visibility"@) matches Some(Json::Int(n)) && DestinySocketVisibility::spec_from_code(n) is Some) && (match spec_lookup(fields, "visibility"@) { Some(Json::Int(n)) => (0 <= n <= u8::MAX as int && DestinySocketVisibility::spec_from_code(n) is None) ==> e.message@ == DestinySocketVisibility::spec_unknown_code_message(n), _ => true }))
        || (e.path@ == "alwaysRandomizeSockets"@ && !(spec_lookup(fields, "alwaysRandomizeSockets"@) matches Some(Json::Bool(_))))
        || (e.path@ == "isPreviewEnabled"@ && !(spec_lookup(fields, "isPreviewEnabled"@) matches Some(Json::Bool(_))))
        || (e.path@ == "hideDuplicateReusablePlugs"@ && !(spec_lookup(fields, "hideDuplicateReusablePlugs"@) matches Some(Json::Bool(_))))
        || (e.path@ == "overridesUiAppearance"@ && !(spec_lookup(fields, "overridesUiAppearance"@) matches Some(Json::Bool(_))))
        || (e.path@ == "avoidDuplicatesOnInitialization"@ && !(spec_lookup(fields, "avoidDuplicatesOnInitialization"@) matches Some(Json::Bool(_))))
        || ((e.path@ == "currencyScalars"@ || spec_starts_with(e.path@, "currencyScalars"@)) && !(match spec_lookup(fields, "currencyScalars"@) { Option::None => true, Some(Json::Arr(items)) => forall|i: int| 0 <= i < items.len() ==> destiny_socket_type_scalar_material_requirement_entry_wf(#[trigger] items[i]), _ => false }))
        || (e.path@ == "hash"@ && !(spec_lookup(fields, "hash"@) matches Some(Json::Int(n)) && 0 <= n <= u32::MAX as int))
        || (e.path@ == "index"@ && !(spec_lookup(fields, "index"@) matches Some(Json::Int(n)) && i32::MIN as int <= n <= i32::MAX as int))
        || (e.path@ == "redacted"@ && !(spec_lookup(fields, "redacted"@) matches Some(Json::Bool(_)))))
}

pub fn encode_destiny_socket_type_definition(v: &DestinySocketTypeDefinition) -> (r: JsonValue)
    ensures
        jview(r) == destiny_socket_type_definition_json(*v),
{
    let mut fields: Vec<(String, JsonValue)> = Vec::new();
    fields.push(("displayProperties".to_owned(), encode_destiny_display_properties_definition(&v.display_properties)));
    fields.push(("insertAction".to_owned(), match &v.insert_action {
        Some(x) => encode_destiny_insert_plug_action_definition(x),
        Option::None => JsonValue::Null,
    }));
    let arr_plug_whitelist = {
        let mut items: Vec<JsonValue> = Vec::new();
        let mut i: usize = 0;
        while i < v.plug_whitelist.len()
            invariant
                i <= v.plug_whitelist.len(),
                items@.len() == i,
                forall|k: int| 0 <= k < i ==> jview(#[trigger] items@[k]) == destiny_plug_whitelist_entry_definition_json(v.plug_whitelist@[k]),
            decreases v.plug_whitelist.len() - i,
        {
            items.push(encode_destiny_plug_whitelist_entry_definition(&v.plug_whitelist[i]));
            i = i + 1;
        }
        JsonValue::Arr(items)
    };
    proof {
        assert(jview(arr_plug_whitelist)->Arr_0 =~= destiny_socket_type_definition_json(*v)->Obj_0[2].1->Arr_0);
    }
    fields.push(("plugWhitelist".to_owned(), arr_plug_whitelist));
    fields.push(("socketCategoryHash".to_owned(), JsonValue::Int(v.socket_category_hash as i64)));
    fields.push(("visibility".to_owned(), JsonValue::Int(v.visibility.code() as i64)));
    fields.push(("alwaysRandomizeSockets".to_owned(), JsonValue::Bool(v.always_randomize_sockets)));
    fields.push(("isPreviewEnabled".to_owned(), JsonValue::Bool(v.is_preview_enabled)));
    fields.push(("hideDuplicateReusablePlugs".to_owned(), JsonValue::Bool(v.hide_duplicate_reusable_plugs)));
    fields.push(("overridesUiAppearance".to_owned(), JsonValue::Bool(v.overrides_ui_appearance)));
    fields.push(("avoidDuplicatesOnInitialization".to_owned(), JsonValue::Bool(v.avoid_duplicates_on_initialization)));
    let arr_currency_scalars = {
        let mut items: Vec<JsonValue> = Vec::new();
        let mut i: usize = 0;
        while i < v.currency_scalars.len()
            invariant
                i <= v.currency_scalars.len(),
                items@.len() == i,
                forall|k: int| 0 <= k < i ==> jview(#[trigger] items@[k]) == destiny_socket_type_scalar_material_requirement_entry_json(v.currency_scalars@[k]),
            decreases v.currency_scalars.len() - i,
        {
            items.push(encode_destiny_socket_type_scalar_material_requirement_entry(&v.currency_scalars[i]));
            i = i + 1;
        }
        JsonValue::Arr(items)
    };
    proof {
        assert(jview(arr_currency_scalars)->Arr_0 =~= destiny_socket_type_definition_json(*v)->Obj_0[10].1->Arr_0);
    }
    fields.push(("currencyScalars".to_owned(), arr_currency_scalars));
    fields.push(("hash".to_owned(), JsonValue::Int(v.hash as i64)));
    fields.push(("index".to_owned(), JsonValue::Int(v.index as i64)));
    fields.push(("redacted".to_owned(), JsonValue::Bool(v.redacted)));
    let r = JsonValue::Obj(fields);
    proof {
        assert(jview(fields@[0].1) == destiny_socket_type_definition_json(*v)->Obj_0[0].1);
        assert(jview(fields@[1].1) == destiny_socket_type_definition_json(*v)->Obj_0[1].1);
        assert(jview(fields@[2].1) == destiny_socket_type_definition_json(*v)->Obj_0[2].1);
        assert(jview(fields@[3].1) == destiny_socket_type_definition_json(*v)->Obj_0[3].1);
        assert(jview(fields@[4].1) == destiny_socket_type_definition_json(*v)->Obj_0[4].1);
        assert(jview(fields@[5].1) == destiny_socket_type_definition_json(*v)->Obj_0[5].1);
        assert(jview(fields@[6].1) == destiny_socket_type_definition_json(*v)->Obj_0[6].1);
        assert(jview(fields@[7].1) == destiny_socket_type_definition_json(*v)->Obj_0[7].1);
        assert(jview(fields@[8].1) == destiny_socket_type_definition_json(*v)->Obj_0[8].1);
        assert(jview(fields@[9].1) == destiny_socket_type_definition_json(*v)->Obj_0[9].1);
        assert(jview(fields@[10].1) == destiny_socket_type_definition_json(*v)->Obj_0[10].1);
        assert(jview(fields@[11].1) == destiny_socket_type_definition_json(*v)->Obj_0[11].1);
        assert(jview(fields@[12].1) == destiny_socket_type_definition_json(*v)->Obj_0[12].1);
        assert(jview(fields@[13].1) == destiny_socket_type_definition_json(*v)->Obj_0[13].1);
        assert(jview(r)->Obj_0 =~= destiny_socket_type_definition_json(*v)->Obj_0);
    }
    r
}

/// Decodes this record; a failure names the offending field in its
/// path and says what was expected of it.
#[verifier::loop_isolation(false)]
#[verifier::rlimit(60)]
pub fn decode_destiny_socket_type_definition(j: &JsonValue) -> (r: Result<DestinySocketTypeDefinition, DecodeError>)
    ensures
        r is Ok <==> destiny_socket_type_definition_wf(jview(*j)),
        r matches Ok(w) ==> (jview(*j) matches Json::Obj(fields)
            && destiny_socket_type_definition_fields_match(fields, w)),
        r matches Err(e) ==> destiny_socket_type_definition_err_ok(jview(*j), e),
{
    let fields = match j {
        JsonValue::Obj(fields) => fields,
        _ => {
            return Err(root_error("an object"));
        },
    };
    let ghost gf = jview(*j)->Obj_0;
    let display_properties = match j.get("displayProperties") {
        Some(inner) => match decode_destiny_display_properties_definition(inner) {
            Ok(r) => r,
            Err(e) => {
                return Err(nested_error("displayProperties", e));
            },
        },
        _ => {
            return Err(field_error("displayProperties", "an object"));
        },
    };
    let insert_action = match j.get("insertAction") {
        Option::None => Option::None,
        Some(JsonValue::Null) => Option::None,
        Some(inner) => match decode_destiny_insert_plug_action_definition(inner) {
            Ok(r) => Some(r),
            Err(e) => {
                return Err(nested_error("insertAction", e));
            },
        },
    };
    let plug_whitelist = match j.get("plugWhitelist") {
        Option::None => Vec::new(),
        Some(arr) => match arr {
            JsonValue::Arr(items) => {
                let ghost gitems = jview(*arr)->Arr_0;
                let mut out: Vec<DestinyPlugWhitelistEntryDefinition> = Vec::new();
                let mut i: usize = 0;
                while i < items.len()
                    invariant
                        i <= items.len(),
                        out@.len() == i,
                        forall|k: int| 0 <= k < i
                            ==> (destiny_plug_whitelist_entry_definition_wf(#[trigger] gitems[k])
                                && (gitems[k] matches Json::Obj(f2)
                                && destiny_plug_whitelist_entry_definition_fields_match(f2, out@[k]))),
                    decreases items.len() - i,
                {
                    proof {
                        assert(gitems[i as int] == jview(items@[i as int]));
                    }
                    match decode_destiny_plug_whitelist_entry_definition(&items[i]) {
                        Ok(r) => {
                            out.push(r);
                        },
                        Err(e) => {
                            return Err(indexed_error("plugWhitelist", i, e));
                        },
                    }
                    i = i + 1;
                }
                out
            },
            _ => {
                return Err(field_error("plugWhitelist", "an array"));
            },
        },
    };
    let socket_category_hash = match j.get("socketCategoryHash") {
        Some(v) => match v.to_i64() {
            Some(n) if 0 <= n && n <= u32::MAX as i64 => n as u32,
            _ => {
                return Err(field_error("socketCategoryHash", "a 32-bit unsigned integer"));
            },
        },
        _ => {
            return Err(field_error("socketCategoryHash", "a 32-bit unsigned integer"));
        },
    };
    let visibility = match j.get("visibility") {
        Some(v) => match v.to_i64() {
            Some(n) if 0 <= n && n <= u8::MAX as i64 => match DestinySocketVisibility::decode_code(n as u8) {
                Ok(t) => t,
                Err(e) => {
                    return Err(rekey_error("visibility", e));
                },
            },
            _ => {
                return Err(field_error("visibility", "a declared DestinySocketVisibility code"));
            },
        },
        _ => {
            return Err(field_error("visibility", "a declared DestinySocketVisibility code"));
        },
    };
    let always_randomize_sockets = match j.get("alwaysRandomizeSockets") {
        Some(JsonValue::Bool(b)) => *b,
        _ => {
            return Err(field_error("alwaysRandomizeSockets", "a boolean"));
        },
    };
    let is_preview_enabled = match j.get("isPreviewEnabled") {
        Some(JsonValue::Bool(b)) => *b,
        _ => {
            return Err(field_error("isPreviewEnabled", "a boolean"));
        },
    };
    let hide_duplicate_reusable_plugs = match j.get("hideDuplicateReusablePlugs") {
        Some(JsonValue::Bool(b)) => *b,
        _ => {
            return Err(field_error("hideDuplicateReusablePlugs", "a boolean"));
        },
    };
    let overrides_ui_appearance = match j.get("overridesUiAppearance") {
        Some(JsonValue::Bool(b)) => *b,
        _ => {
            return Err(field_error("overridesUiAppearance", "a boolean"));
        },
    };
    let avoid_duplicates_on_initialization = match j.get("avoidDuplicatesOnInitialization") {
        Some(JsonValue::Bool(b)) => *b,
        _ => {
            return Err(field_error("avoidDuplicatesOnInitialization", "a boolean"));
        },
    };
    let currency_scalars = match j.get("currencyScalars") {
        Option::None => Vec::new(),
        Some(arr) => match arr {
            JsonValue::Arr(items) => {
                let ghost gitems = jview(*arr)->Arr_0;
                let mut out: Vec<DestinySocketTypeScalarMaterialRequirementEntry> = Vec::new();
                let mut i: usize = 0;
                while i < items.len()
                    invariant
                        i <= items.len(),
                        out@.len() == i,
                        forall|k: int| 0 <= k < i
                            ==> (destiny_socket_type_scalar_material_requirement_entry_wf(#[trigger] gitems[k])
                                && (gitems[k] matches Json::Obj(f2)
                                && destiny_socket_type_scalar_material_requirement_entry_fields_match(f2, out@[k]))),
                    decreases items.len() - i,
                {
                    proof {
                        assert(gitems[i as int] == jview(items@[i as int]));
                    }
                    match decode_destiny_socket_type_scalar_material_requirement_entry(&items[i]) {
                        Ok(r) => {
                            out.push(r);
                        },
                        Err(e) => {
                            return Err(indexed_error("currencyScalars", i, e));
                        },
                    }
                    i = i + 1;
                }
                out
            },
            _ => {
                return Err(field_error("currencyScalars", "an array"));
            },
        },
    };
    let hash = match j.get("hash") {
        Some(v) => match v.to_i64() {
            Some(n) if 0 <= n && n <= u32::MAX as i64 => n as u32,
            _ => {
                return Err(field_error("hash", "a 32-bit unsigned integer"));
            },
        },
        _ => {
            return Err(field_error("hash", "a 32-bit unsigned integer"));
        },
    };
    let index = match j.get("index") {
        Some(v) => match v.to_i64() {
            Some(n) if i32::MIN as i64 <= n && n <= i32::MAX as i64 => n as i32,
            _ => {
                return Err(field_error("index", "a 32-bit integer"));
            },
        },
        _ => {
            return Err(field_error("index", "a 32-bit integer"));
        },
    };
    let redacted = match j.get("redacted") {
        Some(JsonValue::Bool(b)) => *b,
        _ => {
            return Err(field_error("redacted", "a boolean"));
        },
    };
    Ok(DestinySocketTypeDefinition { display_properties, insert_action, plug_whitelist, socket_category_hash, visibility, always_randomize_sockets, is_preview_enabled, hide_duplicate_reusable_plugs, overrides_ui_appearance, avoid_duplicates_on_initialization, currency_scalars, hash, index, redacted })
}

/// The wire image of a record is well formed and matched by the
/// record itself: encoding loses nothing that decoding reads.
#[verifier::rlimit(60)]
pub proof fn lemma_destiny_socket_type_definition_image(v: DestinySocketTypeDefinition)
    ensures
        destiny_socket_type_definition_wf(destiny_socket_type_definition_json(v)),
        destiny_socket_type_definition_json(v) matches Json::Obj(fields) && destiny_socket_type_definition_fields_match(fields, v),
{
    reveal_strlit("displayProperties");
    reveal_strlit("insertAction");
    reveal_strlit("plugWhitelist");
    reveal_strlit("socketCategoryHash");
    reveal_strlit("visibility");
    reveal_strlit("alwaysRandomizeSockets");
    reveal_strlit("isPreviewEnabled");
    reveal_strlit("hideDuplicateReusablePlugs");
    reveal_strlit("overridesUiAppearance");
    reveal_strlit("avoidDuplicatesOnInitialization");
    reveal_strlit("currencyScalars");
    reveal_strlit("hash");
    reveal_strlit("index");
    reveal_strlit("redacted");
    let fields = destiny_socket_type_definition_json(v)->Obj_0;
    assert("displayProperties"@.len() == 17);
    assert("insertAction"@.len() == 12);
    assert("plugWhitelist"@.len() == 13);
    assert("socketCategoryHash"@.len() == 18);
    assert("visibility"@.len() == 10);
    assert("alwaysRandomizeSockets"@.len() == 22);
    assert("isPreviewEnabled"@.len() == 16);
    assert("hideDuplicateReusablePlugs"@.len() == 26);
    assert("overridesUiAppearance"@.len() == 21);
    assert("avoidDuplicatesOnInitialization"@.len() == 31);
    assert("currencyScalars"@.len() == 15);
    assert("hash"@.len() == 4);
    assert("index"@.len() == 5);
    assert("redacted"@.len() == 8);
    assert("displayProperties"@ != "insertAction"@);
    assert("displayProperties"@ != "plugWhitelist"@);
    assert("displayProperties"@ != "socketCategoryHash"@);
    assert("displayProperties"@ != "visibility"@);
    assert("displayProperties"@ != "alwaysRandomizeSockets"@);
    assert("displayProperties"@ != "isPreviewEnabled"@);
    assert("displayProperties"@ != "hideDuplicateReusablePlugs"@);
    assert("displayProperties"@ != "overridesUiAppearance"@);
    assert("displayProperties"@ != "avoidDuplicatesOnInitialization"@);
    assert("displayProperties"@ != "currencyScalars"@);
    assert("displayProperties"@ != "hash"@);
    assert("displayProperties"@ != "index"@);
    assert("displayProperties"@ != "redacted"@);
    assert("insertAction"@ != "plugWhitelist"@);
    assert("insertAction"@ != "socketCategoryHash"@);
    assert("insertAction"@ != "visibility"@);
    assert("insertAction"@ != "alwaysRandomizeSockets"@);
    assert("insertAction"@ != "isPreviewEnabled"@);
    assert("insertAction"@ != "hideDuplicateReusablePlugs"@);
    assert("insertAction"@ != "overridesUiAppearance"@);
    assert("insertAction"@ != "avoidDuplicatesOnInitialization"@);
    assert("insertAction"@ != "currencyScalars"@);
    assert("insertAction"@ != "hash"@);
    assert("insertAction"@ != "index"@);
    assert("insertAction"@ != "redacted"@);
    assert("plugWhitelist"@ != "socketCategoryHash"@);
    assert("plugWhitelist"@ != "visibility"@);
    assert("plugWhitelist"@ != "alwaysRandomizeSockets"@);
    assert("plugWhitelist"@ != "isPreviewEnabled"@);
    assert("plugWhitelist"@ != "hideDuplicateReusablePlugs"@);
    assert("plugWhitelist"@ != "overridesUiAppearance"@);
    assert("plugWhitelist"@ != "avoidDuplicatesOnInitialization"@);
    assert("plugWhitelist"@ != "currencyScalars"@);
    assert("plugWhitelist"@ != "hash"@);
    assert("plugWhitelist"@ != "index"@);
    assert("plugWhitelist"@ != "redacted"@);
    assert("socketCategoryHash"@ != "visibility"@);
    assert("socketCategoryHash"@ != "alwaysRandomizeSockets"@);
    assert("socketCategoryHash"@ != "isPreviewEnabled"@);
    assert("socketCategoryHash"@ != "hideDuplicateReusablePlugs"@);
    assert("socketCategoryHash"@ != "overridesUiAppearance"@);
    assert("socketCategoryHash"@ != "avoidDuplicatesOnInitialization"@);
    assert("socketCategoryHash"@ != "currencyScalars"@);
    assert("socketCategoryHash"@ != "hash"@);
    assert("socketCategoryHash"@ != "index"@);
    assert("socketCategoryHash"@ != "redacted"@);
    assert("visibility"@ != "alwaysRandomizeSockets"@);
    assert("visibility"@ != "isPreviewEnabled"@);
    assert("visibility"@ != "hideDuplicateReusablePlugs"@);
    assert("visibility"@ != "overridesUiAppearance"@);
    assert("visibility"@ != "avoidDuplicatesOnInitialization"@);
    assert("visibility"@ != "currencyScalars"@);
    assert("visibility"@ != "hash"@);
    assert("visibility"@ != "index"@);
    assert("visibility"@ != "redacted"@);
    assert("alwaysRandomizeSockets"@ != "isPreviewEnabled"@);
    assert("alwaysRandomizeSockets"@ != "hideDuplicateReusablePlugs"@);
    assert("alwaysRandomizeSockets"@ != "overridesUiAppearance"@);
    assert("alwaysRandomizeSockets"@ != "avoidDuplicatesOnInitialization"@);
    assert("alwaysRandomizeSockets"@ != "currencyScalars"@);
    assert("alwaysRandomizeSockets"@ != "hash"@);
    assert("alwaysRandomizeSockets"@ != "index"@);
    assert("alwaysRandomizeSockets"@ != "redacted"@);
    assert("isPreviewEnabled"@ != "hideDuplicateReusablePlugs"@);
    assert("isPreviewEnabled"@ != "overridesUiAppearance"@);
    assert("isPreviewEnabled"@ != "avoidDuplicatesOnInitialization"@);
    assert("isPreviewEnabled"@ != "currencyScalars"@);
    assert("isPreviewEnabled"@ != "hash"@);
    assert("isPreviewEnabled"@ != "index"@);
    assert("isPreviewEnabled"@ != "redacted"@);
    assert("hideDuplicateReusablePlugs"@ != "overridesUiAppearance"@);
    assert("hideDuplicateReusablePlugs"@ != "avoidDuplicatesOnInitialization"@);
    assert("hideDuplicateReusablePlugs"@ != "currencyScalars"@);
    assert("hideDuplicateReusablePlugs"@ != "hash"@);
    assert("hideDuplicateReusablePlugs"@ != "index"@);
    assert("hideDuplicateReusablePlugs"@ != "redacted"@);
    assert("overridesUiAppearance"@ != "avoidDuplicatesOnInitialization"@);
    assert("overridesUiAppearance"@ != "currencyScalars"@);
    assert("overridesUiAppearance"@ != "hash"@);
    assert("overridesUiAppearance"@ != "index"@);
    assert("overridesUiAppearance"@ != "redacted"@);
    assert("avoidDuplicatesOnInitialization"@ != "currencyScalars"@);
    assert("avoidDuplicatesOnInitialization"@ != "hash"@);
    assert("avoidDuplicatesOnInitialization"@ != "index"@);
    assert("avoidDuplicatesOnInitialization"@ != "redacted"@);
    assert("currencyScalars"@ != "hash"@);
    assert("currencyScalars"@ != "index"@);
    assert("currencyScalars"@ != "redacted"@);
    assert("hash"@ != "index"@);
    assert("hash"@ != "redacted"@);
    assert("index"@ != "redacted"@);
    lemma_lookup_at(fields, 0);
    lemma_lookup_at(fields, 1);
    lemma_lookup_at(fields, 2);
    lemma_lookup_at(fields, 3);
    lemma_lookup_at(fields, 4);
    lemma_lookup_at(fields, 5);
    lemma_lookup_at(fields, 6);
    lemma_lookup_at(fields, 7);
    lemma_lookup_at(fields, 8);
    lemma_lookup_at(fields, 9);
    lemma_lookup_at(fields, 10);
    lemma_lookup_at(fields, 11);
    lemma_lookup_at(fields, 12);
    lemma_lookup_at(fields, 13);
    lemma_destiny_display_properties_definition_image(v.display_properties);
    match v.insert_action {
        Option::None => {},
        Some(x) => {
            lemma_destiny_insert_plug_action_definition_image(x);
        },
    }
    assert forall|i: int| 0 <= i < v.plug_whitelist@.len()
        implies (destiny_plug_whitelist_entry_definition_wf(#[trigger] fields[2].1->Arr_0[i])
            && (fields[2].1->Arr_0[i] matches Json::Obj(f2)
            && destiny_plug_whitelist_entry_definition_fields_match(f2, v.plug_whitelist@[i]))) by {
        assert(fields[2].1->Arr_0[i] == destiny_plug_whitelist_entry_definition_json(v.plug_whitelist@[i]));
        lemma_destiny_plug_whitelist_entry_definition_image(v.plug_whitelist@[i]);
    }
    DestinySocketVisibility::lemma_code_round_trip(v.visibility, 0);
    assert forall|i: int| 0 <= i < v.currency_scalars@.len()
        implies (destiny_socket_type_scalar_material_requirement_entry_wf(#[trigger] fields[10].1->Arr_0[i])
            && (fields[10].1->Arr_0[i] matches Json::Obj(f2)
            && destiny_socket_type_scalar_material_requirement_entry_fields_match(f2, v.currency_scalars@[i]))) by {
        assert(fields[10].1->Arr_0[i] == destiny_socket_type_scalar_material_requirement_entry_json(v.currency_scalars@[i]));
        lemma_destiny_socket_type_scalar_material_requirement_entry_image(v.currency_scalars@[i]);
    }
}

/// Decoding the encoded image of a record yields a record whose
/// every field carries the same content as the one encoded.
#[verifier::rlimit(60)]
pub proof fn lemma_destiny_socket_type_definition_round_trip(v: DestinySocketTypeDefinition, w: DestinySocketTypeDefinition)
    requires
        destiny_socket_type_definition_json(v) matches Json::Obj(fields) && destiny_socket_type_definition_fields_match(fields, w),
    ensures
        destiny_socket_type_definition_wf(destiny_socket_type_definition_json(v)),
        destiny_display_properties_definition_json(v.display_properties) matches Json::Obj(f2) && destiny_display_properties_definition_fields_match(f2, w.display_properties),
        (match v.insert_action { Some(x) => w.insert_action matches Some(y) && (destiny_insert_plug_action_definition_json(x) matches Json::Obj(f2) && destiny_insert_plug_action_definition_fields_match(f2, y)), Option::None => w.insert_action is None }),
        w.plug_whitelist@.len() == v.plug_whitelist@.len(),
        forall|i: int| 0 <= i < v.plug_whitelist@.len() ==> (destiny_plug_whitelist_entry_definition_json(v.plug_whitelist@[i]) matches Json::Obj(f2) && destiny_plug_whitelist_entry_definition_fields_match(f2, #[trigger] w.plug_whitelist@[i])),
        w.socket_category_hash == v.socket_category_hash,
        w.visibility == v.visibility,
        w.always_randomize_sockets == v.always_randomize_sockets,
        w.is_preview_enabled == v.is_preview_enabled,
        w.hide_duplicate_reusable_plugs == v.hide_duplicate_reusable_plugs,
        w.overrides_ui_appearance == v.overrides_ui_appearance,
        w.avoid_duplicates_on_initialization == v.avoid_duplicates_on_initialization,
        w.currency_scalars@.len() == v.currency_scalars@.len(),
        forall|i: int| 0 <= i < v.currency_scalars@.len() ==> (destiny_socket_type_scalar_material_requirement_entry_json(v.currency_scalars@[i]) matches Json::Obj(f2) && destiny_socket_type_scalar_material_requirement_entry_fields_match(f2, #[trigger] w.currency_scalars@[i])),
        w.hash == v.hash,
        w.index == v.index,
        w.redacted == v.redacted,
{
    lemma_destiny_socket_type_definition_image(v);
    let fields = destiny_socket_type_definition_json(v)->Obj_0;
    reveal_strlit("displayProperties");
    reveal_strlit("insertAction");
    reveal_strlit("plugWhitelist");
    reveal_strlit("socketCategoryHash");
    reveal_strlit("visibility");
    reveal_strlit("alwaysRandomizeSockets");
    reveal_strlit("isPreviewEnabled");
    reveal_strlit("hideDuplicateReusablePlugs");
    reveal_strlit("overridesUiAppearance");
    reveal_strlit("avoidDuplicatesOnInitialization");
    reveal_strlit("currencyScalars");
    reveal_strlit("hash");
    reveal_strlit("index");
    reveal_strlit("redacted");
    assert("displayProperties"@.len() == 17);
    assert("insertAction"@.len() == 12);
    assert("plugWhitelist"@.len() == 13);
    assert("socketCategoryHash"@.len() == 18);
    assert("visibility"@.len() == 10);
    assert("alwaysRandomizeSockets"@.len() == 22);
    assert("isPreviewEnabled"@.len() == 16);
    assert("hideDuplicateReusablePlugs"@.len() == 26);
    assert("overridesUiAppearance"@.len() == 21);
    assert("avoidDuplicatesOnInitialization"@.len() == 31);
    assert("currencyScalars"@.len() == 15);
    assert("hash"@.len() == 4);
    assert("index"@.len() == 5);
    assert("redacted"@.len() == 8);
    assert("displayProperties"@ != "insertAction"@);
    assert("displayProperties"@ != "plugWhitelist"@);
    assert("displayProperties"@ != "socketCategoryHash"@);
    assert("displayProperties"@ != "visibility"@);
    assert("displayProperties"@ != "alwaysRandomizeSockets"@);
    assert("displayProperties"@ != "isPreviewEnabled"@);
    assert("displayProperties"@ != "hideDuplicateReusablePlugs"@);
    assert("displayProperties"@ != "overridesUiAppearance"@);
    assert("displayProperties"@ != "avoidDuplicatesOnInitialization"@);
    assert("displayProperties"@ != "currencyScalars"@);
    assert("displayProperties"@ != "hash"@);
    assert("displayProperties"@ != "index"@);
    assert("displayProperties"@ != "redacted"@);
    assert("insertAction"@ != "plugWhitelist"@);
    assert("insertAction"@ != "socketCategoryHash"@);
    assert("insertAction"@ != "visibility"@);
    assert("insertAction"@ != "alwaysRandomizeSockets"@);
    assert("insertAction"@ != "isPreviewEnabled"@);
    assert("insertAction"@ != "hideDuplicateReusablePlugs"@);
    assert("insertAction"@ != "overridesUiAppearance"@);
    assert("insertAction"@ != "avoidDuplicatesOnInitialization"@);
    assert("insertAction"@ != "currencyScalars"@);
    assert("insertAction"@ != "hash"@);
    assert("insertAction"@ != "index"@);
    assert("insertAction"@ != "redacted"@);
    assert("plugWhitelist"@ != "socketCategoryHash"@);
    assert("plugWhitelist"@ != "visibility"@);
    assert("plugWhitelist"@ != "alwaysRandomizeSockets"@);
    assert("plugWhitelist"@ != "isPreviewEnabled"@);
    assert("plugWhitelist"@ != "hideDuplicateReusablePlugs"@);
    assert("plugWhitelist"@ != "overridesUiAppearance"@);
    assert("plugWhitelist"@ != "avoidDuplicatesOnInitialization"@);
    assert("plugWhitelist"@ != "currencyScalars"@);
    assert("plugWhitelist"@ != "hash"@);
    assert("plugWhitelist"@ != "index"@);
    assert("plugWhitelist"@ != "redacted"@);
    assert("socketCategoryHash"@ != "visibility"@);
    assert("socketCategoryHash"@ != "alwaysRandomizeSockets"@);
    assert("socketCategoryHash"@ != "isPreviewEnabled"@);
    assert("socketCategoryHash"@ != "hideDuplicateReusablePlugs"@);
    assert("socketCategoryHash"@ != "overridesUiAppearance"@);
    assert("socketCategoryHash"@ != "avoidDuplicatesOnInitialization"@);
    assert("socketCategoryHash"@ != "currencyScalars"@);
    assert("socketCategoryHash"@ != "hash"@);
    assert("socketCategoryHash"@ != "index"@);
    assert("socketCategoryHash"@ != "redacted"@);
    assert("visibility"@ != "alwaysRandomizeSockets"@);
    assert("visibility"@ != "isPreviewEnabled"@);
    assert("visibility"@ != "hideDuplicateReusablePlugs"@);
    assert("visibility"@ != "overridesUiAppearance"@);
    assert("visibility"@ != "avoidDuplicatesOnInitialization"@);
    assert("visibility"@ != "currencyScalars"@);
    assert("visibility"@ != "hash"@);
    assert("visibility"@ != "index"@);
    assert("visibility"@ != "redacted"@);
    assert("alwaysRandomizeSockets"@ != "isPreviewEnabled"@);
    assert("alwaysRandomizeSockets"@ != "hideDuplicateReusablePlugs"@);
    assert("alwaysRandomizeSockets"@ != "overridesUiAppearance"@);
    assert("alwaysRandomizeSockets"@ != "avoidDuplicatesOnInitialization"@);
    assert("alwaysRandomizeSockets"@ != "currencyScalars"@);
    assert("alwaysRandomizeSockets"@ != "hash"@);
    assert("alwaysRandomizeSockets"@ != "index"@);
    assert("alwaysRandomizeSockets"@ != "redacted"@);
    assert("isPreviewEnabled"@ != "hideDuplicateReusablePlugs"@);
    assert("isPreviewEnabled"@ != "overridesUiAppearance"@);
    assert("isPreviewEnabled"@ != "avoidDuplicatesOnInitialization"@);
    assert("isPreviewEnabled"@ != "currencyScalars"@);
    assert("isPreviewEnabled"@ != "hash"@);
    assert("isPreviewEnabled"@ != "index"@);
    assert("isPreviewEnabled"@ != "redacted"@);
    assert("hideDuplicateReusablePlugs"@ != "overridesUiAppearance"@);
    assert("hideDuplicateReusablePlugs"@ != "avoidDuplicatesOnInitialization"@);
    assert("hideDuplicateReusablePlugs"@ != "currencyScalars"@);
    assert("hideDuplicateReusablePlugs"@ != "hash"@);
    assert("hideDuplicateReusablePlugs"@ != "index"@);
    assert("hideDuplicateReusablePlugs"@ != "redacted"@);
    assert("overridesUiAppearance"@ != "avoidDuplicatesOnInitialization"@);
    assert("overridesUiAppearance"@ != "currencyScalars"@);
    assert("overridesUiAppearance"@ != "hash"@);
    assert("overridesUiAppearance"@ != "index"@);
    assert("overridesUiAppearance"@ != "redacted"@);
    assert("avoidDuplicatesOnInitialization"@ != "currencyScalars"@);
    assert("avoidDuplicatesOnInitialization"@ != "hash"@);
    assert("avoidDuplicatesOnInitialization"@ != "index"@);
    assert("avoidDuplicatesOnInitialization"@ != "redacted"@);
    assert("currencyScalars"@ != "hash"@);
    assert("currencyScalars"@ != "index"@);
    assert("currencyScalars"@ != "redacted"@);
    assert("hash"@ != "index"@);
    assert("hash"@ != "redacted"@);
    assert("index"@ != "redacted"@);
    lemma_lookup_at(fields, 0);
    lemma_lookup_at(fields, 1);
    lemma_lookup_at(fields, 2);
    lemma_lookup_at(fields, 3);
    lemma_lookup_at(fields, 4);
    lemma_lookup_at(fields, 5);
    lemma_lookup_at(fields, 6);
    lemma_lookup_at(fields, 7);
    lemma_lookup_at(fields, 8);
    lemma_lookup_at(fields, 9);
    lemma_lookup_at(fields, 10);
    lemma_lookup_at(fields, 11);
    lemma_lookup_at(fields, 12);
    lemma_lookup_at(fields, 13);
    lemma_destiny_display_properties_definition_image(v.display_properties);
    match v.insert_action {
        Option::None => {},
        Some(x) => {
            lemma_destiny_insert_plug_action_definition_image(x);
        },
    }
    assert forall|i: int| 0 <= i < v.plug_whitelist@.len()
        implies (destiny_plug_whitelist_entry_definition_json(v.plug_whitelist@[i]) matches Json::Obj(f2)
            && destiny_plug_whitelist_entry_definition_fields_match(f2, #[trigger] w.plug_whitelist@[i])) by {
        assert(fields[2].1->Arr_0[i] == destiny_plug_whitelist_entry_definition_json(v.plug_whitelist@[i]));
        lemma_destiny_plug_whitelist_entry_definition_image(v.plug_whitelist@[i]);
    }
    DestinySocketVisibility::lemma_code_round_trip(v.visibility, 0);
    assert forall|i: int| 0 <= i < v.currency_scalars@.len()
        implies (destiny_socket_type_scalar_material_requirement_entry_json(v.currency_scalars@[i]) matches Json::Obj(f2)
            && destiny_socket_type_scalar_material_requirement_entry_fields_match(f2, #[trigger] w.currency_scalars@[i])) by {
        assert(fields[10].1->Arr_0[i] == destiny_socket_type_scalar_material_requirement_entry_json(v.currency_scalars@[i]));
        lemma_destiny_socket_type_scalar_material_requirement_entry_image(v.currency_scalars@[i]);
    }
}

/// The wire image of this record.
pub open spec fn destiny_plug_set_definition_json(v: DestinyPlugSetDefinition) -> Json {
    Json::Obj(
        seq![
            ("displayProperties"@, (match v.display_properties { Some(x) => destiny_display_properties_definition_json(x), Option::None => Json::Null })),
            ("reusablePlugItems"@, Json::Arr(Seq::new(v.reusable_plug_items@.len(), |i: int| if 0 <= i < v.reusable_plug_items@.len() { destiny_item_socket_entry_plug_item_randomized_definition_json(v.reusable_plug_items@[i]) } else { Json::Null }))),
            ("isFakePlugSet"@, Json::Bool(v.is_fake_plug_set)),
            ("hash"@, Json::Int(v.hash as int)),
            ("index"@, Json::Int(v.index as int)),
            ("redacted"@, Json::Bool(v.redacted)),
        ],
    )
}

/// Whether a document decodes as this record: unknown fields are tolerated.
pub open spec fn destiny_plug_set_definition_wf(j: Json) -> bool {
    &&& j matches Json::Obj(fields)
    &&& match spec_lookup(fields, "displayProperties"@) { Option::None => true, Some(Json::Null) => true, Some(inner) => destiny_display_properties_definition_wf(inner) }
    &&& match spec_lookup(fields, "reusablePlugItems"@) { Option::None => true, Some(Json::Arr(items)) => forall|i: int| 0 <= i < items.len() ==> destiny_item_socket_entry_plug_item_randomized_definition_wf(#[trigger] items[i]), _ => false }
    &&& spec_lookup(fields, "isFakePlugSet"@) matches Some(Json::Bool(_))
    &&& spec_lookup(fields, "hash"@) matches Some(Json::Int(n)) && 0 <= n <= u32::MAX as int
    &&& spec_lookup(fields, "index"@) matches Some(Json::Int(n)) && i32::MIN as int <= n <= i32::MAX as int
    &&& spec_lookup(fields, "redacted"@) matches Some(Json::Bool(_))
}

/// How a decoded record relates to the document it came from.
pub open spec fn destiny_plug_set_definition_fields_match(fields: Seq<(Seq<char>, Json)>, w: DestinyPlugSetDefinition) -> bool {
    &&& match w.display_properties { Some(x) => spec_lookup(fields, "displayProperties"@) matches Some(Json::Obj(f2)) && destiny_display_properties_definition_fields_match(f2, x), Option::None => spec_lookup(fields, "displayProperties"@) is None || spec_lookup(fields, "displayProperties"@) == Some(Json::Null) }
    &&& match spec_lookup(fields, "reusablePlugItems"@) { Option::None => w.reusable_plug_items@.len() == 0, Some(Json::Arr(items)) => w.reusable_plug_items@.len() == items.len() && (forall|i: int| 0 <= i < items.len() ==> ((#[trigger] items[i]) matches Json::Obj(f2) && destiny_item_socket_entry_plug_item_randomized_definition_fields_match(f2, w.reusable_plug_items@[i]))), _ => false }
    &&& spec_lookup(fields, "isFakePlugSet"@) == Some(Json::Bool(w.is_fake_plug_set))
    &&& spec_lookup(fields, "hash"@) == Some(Json::Int(w.hash as int))
    &&& spec_lookup(fields, "index"@) == Some(Json::Int(w.index as int))
    &&& spec_lookup(fields, "redacted"@) == Some(Json::Bool(w.redacted))
}

/// What a decode failure names: its path points at a field of the
/// document that is indeed not decodable, and an undeclared
/// enumeration code is reported with the enumeration's own message.
pub open spec fn destiny_plug_set_definition_err_ok(j: Json, e: DecodeError) -> bool {
    &&& !(j matches Json::Obj(_)) ==> e.path@.len() == 0
    &&& j matches Json::Obj(fields) ==> (
        ((e.path@ == "displayProperties"@ || spec_starts_with(e.path@, "displayProperties"@)) && !(match spec_lookup(fields, "displayProperties"@) { Option::None => true, Some(Json::Null) => true, Some(inner) => destiny_display_properties_definition_wf(inner) }))
        || ((e.path@ == "reusablePlugItems"@ || spec_starts_with(e.path@, "reusablePlugItems"@)) && !(match spec_lookup(fields, "reusablePlugItems"@) { Option::None => true, Some(Json::Arr(items)) => forall|i: int| 0 <= i < items.len() ==> destiny_item_socket_entry_plug_item_randomized_definition_wf(#[trigger] items[i]), _ => false }))
        || (e.path@ == "isFakePlugSet"@ && !(spec_lookup(fields, "isFakePlugSet"@) matches Some(Json::Bool(_))))
        || (e.path@ == "hash"@ && !(spec_lookup(fields, "hash"@) matches Some(Json::Int(n)) && 0 <= n <= u32::MAX as int))
        || (e.path@ == "index"@ && !(spec_lookup(fields, "index"@) matches Some(Json::Int(n)) && i32::MIN as int <= n <= i32::MAX as int))
        || (e.path@ == "redacted"@ && !(spec_lookup(fields, "redacted"@) matches Some(Json::Bool(_)))))
}

pub fn encode_destiny_plug_set_definition(v: &DestinyPlugSetDefinition) -> (r: JsonValue)
    ensures
        jview(r) == destiny_plug_set_definition_json(*v),
{
    let mut fields: Vec<(String, JsonValue)> = Vec::new();
    fields.push(("displayProperties".to_owned(), match &v.display_properties {
        Some(x) => encode_destiny_display_properties_definition(x),
        Option::None => JsonValue::Null,
    }));
    let arr_reusable_plug_items = {
        let mut items: Vec<JsonValue> = Vec::new();
        let mut i: usize = 0;
        while i < v.reusable_plug_items.len()
            invariant
                i <= v.reusable_plug_items.len(),
                items@.len() == i,
                forall|k: int| 0 <= k < i ==> jview(#[trigger] items@[k]) == destiny_item_socket_entry_plug_item_randomized_definition_json(v.reusable_plug_items@[k]),
            decreases v.reusable_plug_items.len() - i,
        {
            items.push(encode_destiny_item_socket_entry_plug_item_randomized_definition(&v.reusable_plug_items[i]));
            i = i + 1;
        }
        JsonValue::Arr(items)
    };
    proof {
        assert(jview(arr_reusable_plug_items)->Arr_0 =~= destiny_plug_set_definition_json(*v)->Obj_0[1].1->Arr_0);
    }
    fields.push(("reusablePlugItems".to_owned(), arr_reusable_plug_items));
    fields.push(("isFakePlugSet".to_owned(), JsonValue::Bool(v.is_fake_plug_set)));
    fields.push(("hash".to_owned(), JsonValue::Int(v.hash as i64)));
    fields.push(("index".to_owned(), JsonValue::Int(v.index as i64)));
    fields.push(("redacted".to_owned(), JsonValue::Bool(v.redacted)));
    let r = JsonValue::Obj(fields);
    proof {
        assert(jview(fields@[0].1) == destiny_plug_set_definition_json(*v)->Obj_0[0].1);
        assert(jview(fields@[1].1) == destiny_plug_set_definition_json(*v)->Obj_0[1].1);
        assert(jview(fields@[2].1) == destiny_plug_set_definition_json(*v)->Obj_0[2].1);
        assert(jview(fields@[3].1) == destiny_plug_set_definition_json(*v)->Obj_0[3].1);
        assert(jview(fields@[4].1) == destiny_plug_set_definition_json(*v)->Obj_0[4].1);
        assert(jview(fields@[5].1) == destiny_plug_set_definition_json(*v)->Obj_0[5].1);
        assert(jview(r)->Obj_0 =~= destiny_plug_set_definition_json(*v)->Obj_0);
    }
    r
}

/// Decodes this record; a failure names the offending field in its
/// path and says what was expected of it.
#[verifier::loop_isolation(false)]
pub fn decode_destiny_plug_set_definition(j: &JsonValue) -> (r: Result<DestinyPlugSetDefinition, DecodeError>)
    ensures
        r is Ok <==> destiny_plug_set_definition_wf(jview(*j)),
        r matches Ok(w) ==> (jview(*j) matches Json::Obj(fields)
            && destiny_plug_set_definition_fields_match(fields, w)),
        r matches Err(e) ==> destiny_plug_set_definition_err_ok(jview(*j), e),
{
    let fields = match j {
        JsonValue::Obj(fields) => fields,
        _ => {
            return Err(root_error("an object"));
        },
    };
    let ghost gf = jview(*j)->Obj_0;
    let display_properties = match j.get("displayProperties") {
        Option::None => Option::None,
        Some(JsonValue::Null) => Option::None,
        Some(inner) => match decode_destiny_display_properties_definition(inner) {
            Ok(r) => Some(r),
            Err(e) => {
                return Err(nested_error("displayProperties", e));
            },
        },
    };
    let reusable_plug_items = match j.get("reusablePlugItems") {
        Option::None => Vec::new(),
        Some(arr) => match arr {
            JsonValue::Arr(items) => {
                let ghost gitems = jview(*arr)->Arr_0;
                let mut out: Vec<DestinyItemSocketEntryPlugItemRandomizedDefinition> = Vec::new();
                let mut i: usize = 0;
                while i < items.len()
                    invariant
                        i <= items.len(),
                        out@.len() == i,
                        forall|k: int| 0 <= k < i
                            ==> (destiny_item_socket_entry_plug_item_randomized_definition_wf(#[trigger] gitems[k])
                                && (gitems[k] matches Json::Obj(f2)
                                && destiny_item_socket_entry_plug_item_randomized_definition_fields_match(f2, out@[k]))),
                    decreases items.len() - i,
                {
                    proof {
                        assert(gitems[i as int] == jview(items@[i as int]));
                    }
                    match decode_destiny_item_socket_entry_plug_item_randomized_definition(&items[i]) {
                        Ok(r) => {
                            out.push(r);
                        },
                        Err(e) => {
                            return Err(indexed_error("reusablePlugItems", i, e));
                        },
                    }
                    i = i + 1;
                }
                out
            },
            _ => {
                return Err(field_error("reusablePlugItems", "an array"));
            },
        },
    };
    let is_fake_plug_set = match j.get("isFakePlugSet") {
        Some(JsonValue::Bool(b)) => *b,
        _ => {
            return Err(field_error("isFakePlugSet", "a boolean"));
        },
    };
    let hash = match j.get("hash") {
        Some(v) => match v.to_i64() {
            Some(n) if 0 <= n && n <= u32::MAX as i64 => n as u32,
            _ => {
                return Err(field_error("hash", "a 32-bit unsigned integer"));
            },
        },
        _ => {
            return Err(field_error("hash", "a 32-bit unsigned integer"));
        },
    };
    let index = match j.get("index") {
        Some(v) => match v.to_i64() {
            Some(n) if i32::MIN as i64 <= n && n <= i32::MAX as i64 => n as i32,
            _ => {
                return Err(field_error("index", "a 32-bit integer"));
            },
        },
        _ => {
            return Err(field_error("index", "a 32-bit integer"));
        },
    };
    let redacted = match j.get("redacted") {
        Some(JsonValue::Bool(b)) => *b,
        _ => {
            return Err(field_error("redacted", "a boolean"));
        },
    };
    Ok(DestinyPlugSetDefinition { display_properties, reusable_plug_items, is_fake_plug_set, hash, index, redacted })
}

/// The wire image of a record is well formed and matched by the
/// record itself: encoding loses nothing that decoding reads.
pub proof fn lemma_destiny_plug_set_definition_image(v: DestinyPlugSetDefinition)
    ensures
        destiny_plug_set_definition_wf(destiny_plug_set_definition_json(v)),
        destiny_plug_set_definition_json(v) matches Json::Obj(fields) && destiny_plug_set_definition_fields_match(fields, v),
{
    reveal_strlit("displayProperties");
    reveal_strlit("reusablePlugItems");
    reveal_strlit("isFakePlugSet");
    reveal_strlit("hash");
    reveal_strlit("index");
    reveal_strlit("redacted");
    let fields = destiny_plug_set_definition_json(v)->Obj_0;
    assert("displayProperties"@.len() == 17);
    assert("reusablePlugItems"@.len() == 17);
    assert("isFakePlugSet"@.len() == 13);
    assert("hash"@.len() == 4);
    assert("index"@.len() == 5);
    assert("redacted"@.len() == 8);
    assert(("displayProperties"@)[0] != ("reusablePlugItems"@)[0]);
    assert("displayProperties"@ != "reusablePlugItems"@);
    assert("displayProperties"@ != "isFakePlugSet"@);
    assert("displayProperties"@ != "hash"@);
    assert("displayProperties"@ != "index"@);
    assert("displayProperties"@ != "redacted"@);
    assert("reusablePlugItems"@ != "isFakePlugSet"@);
    assert("reusablePlugItems"@ != "hash"@);
    assert("reusablePlugItems"@ != "index"@);
    assert("reusablePlugItems"@ != "redacted"@);
    assert("isFakePlugSet"@ != "hash"@);
    assert("isFakePlugSet"@ != "index"@);
    assert("isFakePlugSet"@ != "redacted"@);
    assert("hash"@ != "index"@);
    assert("hash"@ != "redacted"@);
    assert("index"@ != "redacted"@);
    lemma_lookup_at(fields, 0);
    lemma_lookup_at(fields, 1);
    lemma_lookup_at(fields, 2);
    lemma_lookup_at(fields, 3);
    lemma_lookup_at(fields, 4);
    lemma_lookup_at(fields, 5);
    match v.display_properties {
        Option::None => {},
        Some(x) => {
            lemma_destiny_display_properties_definition_image(x);
        },
    }
    assert forall|i: int| 0 <= i < v.reusable_plug_items@.len()
        implies (destiny_item_socket_entry_plug_item_randomized_definition_wf(#[trigger] fields[1].1->Arr_0[i])
            && (fields[1].1->Arr_0[i] matches Json::Obj(f2)
            && destiny_item_socket_entry_plug_item_randomized_definition_fields_match(f2, v.reusable_plug_items@[i]))) by {
        assert(fields[1].1->Arr_0[i] == destiny_item_socket_entry_plug_item_randomized_definition_json(v.reusable_plug_items@[i]));
        lemma_destiny_item_socket_entry_plug_item_randomized_definition_image(v.reusable_plug_items@[i]);
    }
}

/// Decoding the encoded image of a record yields a record whose
/// every field carries the same content as the one encoded.
pub proof fn lemma_destiny_plug_set_definition_round_trip(v: DestinyPlugSetDefinition, w: DestinyPlugSetDefinition)
    requires
        destiny_plug_set_definition_json(v) matches Json::Obj(fields) && destiny_plug_set_definition_fields_match(fields, w),
    ensures
        destiny_plug_set_definition_wf(destiny_plug_set_definition_json(v)),
        (match v.display_properties { Some(x) => w.display_properties matches Some(y) && (destiny_display_properties_definition_json(x) matches Json::Obj(f2) && destiny_display_properties_definition_fields_match(f2, y)), Option::None => w.display_properties is None }),
        w.reusable_plug_items@.len() == v.reusable_plug_items@.len(),
        forall|i: int| 0 <= i < v.reusable_plug_items@.len() ==> (destiny_item_socket_entry_plug_item_randomized_definition_json(v.reusable_plug_items@[i]) matches Json::Obj(f2) && destiny_item_socket_entry_plug_item_randomized_definition_fields_match(f2, #[trigger] w.reusable_plug_items@[i])),
        w.is_fake_plug_set == v.is_fake_plug_set,
        w.hash == v.hash,
        w.index == v.index,
        w.redacted == v.redacted,
{
    lemma_destiny_plug_set_definition_image(v);
    let fields = destiny_plug_set_definition_json(v)->Obj_0;
    reveal_strlit("displayProperties");
    reveal_strlit("reusablePlugItems");
    reveal_strlit("isFakePlugSet");
    reveal_strlit("hash");
    reveal_strlit("index");
    reveal_strlit("redacted");
    assert("displayProperties"@.len() == 17);
    assert("reusablePlugItems"@.len() == 17);
    assert("isFakePlugSet"@.len() == 13);
    assert("hash"@.len() == 4);
    assert("index"@.len() == 5);
    assert("redacted"@.len() == 8);
    assert(("displayProperties"@)[0] != ("reusablePlugItems"@)[0]);
    assert("displayProperties"@ != "reusablePlugItems"@);
    assert("displayProperties"@ != "isFakePlugSet"@);
    assert("displayProperties"@ != "hash"@);
    assert("displayProperties"@ != "index"@);
    assert("displayProperties"@ != "redacted"@);
    assert("reusablePlugItems"@ != "isFakePlugSet"@);
    assert("reusablePlugItems"@ != "hash"@);
    assert("reusablePlugItems"@ != "index"@);
    assert("reusablePlugItems"@ != "redacted"@);
    assert("isFakePlugSet"@ != "hash"@);
    assert("isFakePlugSet"@ != "index"@);
    assert("isFakePlugSet"@ != "redacted"@);
    assert("hash"@ != "index"@);
    assert("hash"@ != "redacted"@);
    assert("index"@ != "redacted"@);
    lemma_lookup_at(fields, 0);
    lemma_lookup_at(fields, 1);
    lemma_lookup_at(fields, 2);
    lemma_lookup_at(fields, 3);
    lemma_lookup_at(fields, 4);
    lemma_lookup_at(fields, 5);
    match v.display_properties {
        Option::None => {},
        Some(x) => {
            lemma_destiny_display_properties_definition_image(x);
        },
    }
    assert forall|i: int| 0 <= i < v.reusable_plug_items@.len()
        implies (destiny_item_socket_entry_plug_item_randomized_definition_json(v.reusable_plug_items@[i]) matches Json::Obj(f2)
            && destiny_item_socket_entry_plug_item_randomized_definition_fields_match(f2, #[trigger] w.reusable_plug_items@[i])) by {
        assert(fields[1].1->Arr_0[i] == destiny_item_socket_entry_plug_item_randomized_definition_json(v.reusable_plug_items@[i]));
        lemma_destiny_item_socket_entry_plug_item_randomized_definition_image(v.reusable_plug_items@[i]);
    }
}

/// The wire image of this record.
pub open spec fn destiny_manifest_json(v: DestinyManifest) -> Json {
    Json::Obj(
        seq![
            ("version"@, Json::Str(v.version@)),
            ("mobileAssetContentPath"@, Json::Str(v.mobile_asset_content_path@)),
            ("mobileGearAssetDataBases"@, Json::Arr(Seq::new(v.mobile_gear_asset_data_bases@.len(), |i: int| if 0 <= i < v.mobile_gear_asset_data_bases@.len() { gear_asset_data_base_definition_json(v.mobile_gear_asset_data_bases@[i]) } else { Json::Null }))),
            ("mobileWorldContentPaths"@, Json::Obj(Seq::new(v.mobile_world_content_paths@.len(), |i: int| if 0 <= i < v.mobile_world_content_paths@.len() { (v.mobile_world_content_paths@[i].0@, Json::Str(v.mobile_world_content_paths@[i].1@)) } else { (Seq::empty(), Json::Null) }))),
            ("jsonWorldContentPaths"@, Json::Obj(Seq::new(v.json_world_content_paths@.len(), |i: int| if 0 <= i < v.json_world_content_paths@.len() { (v.json_world_content_paths@[i].0@, Json::Str(v.json_world_content_paths@[i].1@)) } else { (Seq::empty(), Json::Null) }))),
            ("jsonWorldComponentContentPaths"@, Json::Obj(Seq::new(v.json_world_component_content_paths@.len(), |i: int| if 0 <= i < v.json_world_component_content_paths@.len() { (v.json_world_component_content_paths@[i].0@, Json::Obj(Seq::new(v.json_world_component_content_paths@[i].1@.len(), |m: int| if 0 <= m < v.json_world_component_content_paths@[i].1@.len() { (v.json_world_component_content_paths@[i].1@[m].0@, Json::Str(v.json_world_component_content_paths@[i].1@[m].1@)) } else { (Seq::empty(), Json::Null) }))) } else { (Seq::empty(), Json::Null) }))),
            ("mobileClanBannerDatabasePath"@, Json::Str(v.mobile_clan_banner_database_path@)),
            ("mobileGearCDN"@, Json::Obj(Seq::new(v.mobile_gear_c_d_n@.len(), |i: int| if 0 <= i < v.mobile_gear_c_d_n@.len() { (v.mobile_gear_c_d_n@[i].0@, Json::Str(v.mobile_gear_c_d_n@[i].1@)) } else { (Seq::empty(), Json::Null) }))),
            ("iconImagePyramidInfo"@, Json::Arr(Seq::new(v.icon_image_pyramid_info@.len(), |i: int| if 0 <= i < v.icon_image_pyramid_info@.len() { image_pyramid_entry_json(v.icon_image_pyramid_info@[i]) } else { Json::Null }))),
        ],
    )
}

/// Whether a document decodes as this record: unknown fields are tolerated.
pub open spec fn destiny_manifest_wf(j: Json) -> bool {
    &&& j matches Json::Obj(fields)
    &&& spec_lookup(fields, "version"@) matches Some(Json::Str(_))
    &&& spec_lookup(fields, "mobileAssetContentPath"@) matches Some(Json::Str(_))
    &&& match spec_lookup(fields, "mobileGearAssetDataBases"@) { Option::None => false, Some(Json::Arr(items)) => forall|i: int| 0 <= i < items.len() ==> gear_asset_data_base_definition_wf(#[trigger] items[i]), _ => false }
    &&& match spec_lookup(fields, "mobileWorldContentPaths"@) { Option::None => false, Some(Json::Obj(entries)) => forall|i: int| 0 <= i < entries.len() ==> (#[trigger] entries[i]).1 is Str, _ => false }
    &&& match spec_lookup(fields, "jsonWorldContentPaths"@) { Option::None => false, Some(Json::Obj(entries)) => forall|i: int| 0 <= i < entries.len() ==> (#[trigger] entries[i]).1 is Str, _ => false }
    &&& match spec_lookup(fields, "jsonWorldComponentContentPaths"@) { Option::None => false, Some(Json::Obj(entries)) => forall|i: int| 0 <= i < entries.len() ==> ((#[trigger] entries[i]).1 matches Json::Obj(inner) && (forall|m: int| 0 <= m < inner.len() ==> (#[trigger] inner[m]).1 is Str)), _ => false }
    &&& spec_lookup(fields, "mobileClanBannerDatabasePath"@) matches Some(Json::Str(_))
    &&& match spec_lookup(fields, "mobileGearCDN"@) { Option::None => false, Some(Json::Obj(entries)) => forall|i: int| 0 <= i < entries.len() ==> (#[trigger] entries[i]).1 is Str, _ => false }
    &&& match spec_lookup(fields, "iconImagePyramidInfo"@) { Option::None => false, Some(Json::Arr(items)) => forall|i: int| 0 <= i < items.len() ==> image_pyramid_entry_wf(#[trigger] items[i]), _ => false }
}

/// How a decoded record relates to the document it came from.
pub open spec fn destiny_manifest_fields_match(fields: Seq<(Seq<char>, Json)>, w: DestinyManifest) -> bool {
    &&& spec_lookup(fields, "version"@) == Some(Json::Str(w.version@))
    &&& spec_lookup(fields, "mobileAssetContentPath"@) == Some(Json::Str(w.mobile_asset_content_path@))
    &&& match spec_lookup(fields, "mobileGearAssetDataBases"@) { Option::None => false, Some(Json::Arr(items)) => w.mobile_gear_asset_data_bases@.len() == items.len() && (forall|i: int| 0 <= i < items.len() ==> ((#[trigger] items[i]) matches Json::Obj(f2) && gear_asset_data_base_definition_fields_match(f2, w.mobile_gear_asset_data_bases@[i]))), _ => false }
    &&& match spec_lookup(fields, "mobileWorldContentPaths"@) { Some(Json::Obj(entries)) => w.mobile_world_content_paths@.len() == entries.len() && (forall|i: int| 0 <= i < entries.len() ==> (#[trigger] entries[i]) == (w.mobile_world_content_paths@[i].0@, Json::Str(w.mobile_world_content_paths@[i].1@))), _ => false }
    &&& match spec_lookup(fields, "jsonWorldContentPaths"@) { Some(Json::Obj(entries)) => w.json_world_content_paths@.len() == entries.len() && (forall|i: int| 0 <= i < entries.len() ==> (#[trigger] entries[i]) == (w.json_world_content_paths@[i].0@, Json::Str(w.json_world_content_paths@[i].1@))), _ => false }
    &&& match spec_lookup(fields, "jsonWorldComponentContentPaths"@) { Some(Json::Obj(entries)) => w.json_world_component_content_paths@.len() == entries.len() && (forall|i: int| 0 <= i < entries.len() ==> ((#[trigger] entries[i]).0 == w.json_world_component_content_paths@[i].0@ && (entries[i].1 matches Json::Obj(inner) && w.json_world_component_content_paths@[i].1@.len() == inner.len() && (forall|m: int| 0 <= m < inner.len() ==> (#[trigger] inner[m]) == (w.json_world_component_content_paths@[i].1@[m].0@, Json::Str(w.json_world_component_content_paths@[i].1@[m].1@)))))), _ => false }
    &&& spec_lookup(fields, "mobileClanBannerDatabasePath"@) == Some(Json::Str(w.mobile_clan_banner_database_path@))
    &&& match spec_lookup(fields, "mobileGearCDN"@) { Some(Json::Obj(entries)) => w.mobile_gear_c_d_n@.len() == entries.len() && (forall|i: int| 0 <= i < entries.len() ==> (#[trigger] entries[i]) == (w.mobile_gear_c_d_n@[i].0@, Json::Str(w.mobile_gear_c_d_n@[i].1@))), _ => false }
    &&& match spec_lookup(fields, "iconImagePyramidInfo"@) { Option::None => false, Some(Json::Arr(items)) => w.icon_image_pyramid_info@.len() == items.len() && (forall|i: int| 0 <= i < items.len() ==> ((#[trigger] items[i]) matches Json::Obj(f2) && image_pyramid_entry_fields_match(f2, w.icon_image_pyramid_info@[i]))), _ => false }
}

/// What a decode failure names: its path points at a field of the
/// document that is indeed not decodable, and an undeclared
/// enumeration code is reported with the enumeration's own message.
pub open spec fn destiny_manifest_err_ok(j: Json, e: DecodeError) -> bool {
    &&& !(j matches Json::Obj(_)) ==> e.path@.len() == 0
    &&& j matches Json::Obj(fields) ==> (
        (e.path@ == "version"@ && !(spec_lookup(fields, "version"@) matches Some(Json::Str(_))))
        || (e.path@ == "mobileAssetContentPath"@ && !(spec_lookup(fields, "mobileAssetContentPath"@) matches Some(Json::Str(_))))
        || ((e.path@ == "mobileGearAssetDataBases"@ || spec_starts_with(e.path@, "mobileGearAssetDataBases"@)) && !(match spec_lookup(fields, "mobileGearAssetDataBases"@) { Option::None => false, Some(Json::Arr(items)) => forall|i: int| 0 <= i < items.len() ==> gear_asset_data_base_definition_wf(#[trigger] items[i]), _ => false }))
        || ((e.path@ == "mobileWorldContentPaths"@ || spec_starts_with(e.path@, "mobileWorldContentPaths"@)) && !(match spec_lookup(fields, "mobileWorldContentPaths"@) { Option::None => false, Some(Json::Obj(entries)) => forall|i: int| 0 <= i < entries.len() ==> (#[trigger] entries[i]).1 is Str, _ => false }))
        || ((e.path@ == "jsonWorldContentPaths"@ || spec_starts_with(e.path@, "jsonWorldContentPaths"@)) && !(match spec_lookup(fields, "jsonWorldContentPaths"@) { Option::None => false, Some(Json::Obj(entries)) => forall|i: int| 0 <= i < entries.len() ==> (#[trigger] entries[i]).1 is Str, _ => false }))
        || ((e.path@ == "jsonWorldComponentContentPaths"@ || spec_starts_with(e.path@, "jsonWorldComponentContentPaths"@)) && !(match spec_lookup(fields, "jsonWorldComponentContentPaths"@) { Option::None => false, Some(Json::Obj(entries)) => forall|i: int| 0 <= i < entries.len() ==> ((#[trigger] entries[i]).1 matches Json::Obj(inner) && (forall|m: int| 0 <= m < inner.len() ==> (#[trigger] inner[m]).1 is Str)), _ => false }))
        || (e.path@ == "mobileClanBannerDatabasePath"@ && !(spec_lookup(fields, "mobileClanBannerDatabasePath"@) matches Some(Json::Str(_))))
        || ((e.path@ == "mobileGearCDN"@ || spec_starts_with(e.path@, "mobileGearCDN"@)) && !(match spec_lookup(fields, "mobileGearCDN"@) { Option::None => false, Some(Json::Obj(entries)) => forall|i: int| 0 <= i < entries.len() ==> (#[trigger] entries[i]).1 is Str, _ => false }))
        || ((e.path@ == "iconImagePyramidInfo"@ || spec_starts_with(e.path@, "iconImagePyramidInfo"@)) && !(match spec_lookup(fields, "iconImagePyramidInfo"@) { Option::None => false, Some(Json::Arr(items)) => forall|i: int| 0 <= i < items.len() ==> image_pyramid_entry_wf(#[trigger] items[i]), _ => false })))
}

pub fn encode_destiny_manifest(v: &DestinyManifest) -> (r: JsonValue)
    ensures
        jview(r) == destiny_manifest_json(*v),
{
    let mut fields: Vec<(String, JsonValue)> = Vec::new();
    fields.push(("version".to_owned(), JsonValue::Str(v.version.clone())));
    fields.push(("mobileAssetContentPath".to_owned(), JsonValue::Str(v.mobile_asset_content_path.clone())));
    let arr_mobile_gear_asset_data_bases = {
        let mut items: Vec<JsonValue> = Vec::new();
        let mut i: usize = 0;
        while i < v.mobile_gear_asset_data_bases.len()
            invariant
                i <= v.mobile_gear_asset_data_bases.len(),
                items@.len() == i,
                forall|k: int| 0 <= k < i ==> jview(#[trigger] items@[k]) == gear_asset_data_base_definition_json(v.mobile_gear_asset_data_bases@[k]),
            decreases v.mobile_gear_asset_data_bases.len() - i,
        {
            items.push(encode_gear_asset_data_base_definition(&v.mobile_gear_asset_data_bases[i]));
            i = i + 1;
        }
        JsonValue::Arr(items)
    };
    proof {
        assert(jview(arr_mobile_gear_asset_data_bases)->Arr_0 =~= destiny_manifest_json(*v)->Obj_0[2].1->Arr_0);
    }
    fields.push(("mobileGearAssetDataBases".to_owned(), arr_mobile_gear_asset_data_bases));
    let map_mobile_world_content_paths = {
        let mut entries: Vec<(String, JsonValue)> = Vec::new();
        let mut i: usize = 0;
        while i < v.mobile_world_content_paths.len()
            invariant
                i <= v.mobile_world_content_paths.len(),
                entries@.len() == i,
                forall|k: int| 0 <= k < i
                    ==> (#[trigger] entries@[k]).0@ == v.mobile_world_content_paths@[k].0@ && jview(entries@[k].1) == Json::Str(v.mobile_world_content_paths@[k].1@),
            decreases v.mobile_world_content_paths.len() - i,
        {
            entries.push((v.mobile_world_content_paths[i].0.clone(), JsonValue::Str(v.mobile_world_content_paths[i].1.clone())));
            i = i + 1;
        }
        JsonValue::Obj(entries)
    };
    proof {
        assert(jview(map_mobile_world_content_paths)->Obj_0 =~= destiny_manifest_json(*v)->Obj_0[3].1->Obj_0);
    }
    fields.push(("mobileWorldContentPaths".to_owned(), map_mobile_world_content_paths));
    let map_json_world_content_paths = {
        let mut entries: Vec<(String, JsonValue)> = Vec::new();
        let mut i: usize = 0;
        while i < v.json_world_content_paths.len()
            invariant
                i <= v.json_world_content_paths.len(),
                entries@.len() == i,
                forall|k: int| 0 <= k < i
                    ==> (#[trigger] entries@[k]).0@ == v.json_world_content_paths@[k].0@ && jview(entries@[k].1) == Json::Str(v.json_world_content_paths@[k].1@),
            decreases v.json_world_content_paths.len() - i,
        {
            entries.push((v.json_world_content_paths[i].0.clone(), JsonValue::Str(v.json_world_content_paths[i].1.clone())));
            i = i + 1;
        }
        JsonValue::Obj(entries)
    };
    proof {
        assert(jview(map_json_world_content_paths)->Obj_0 =~= destiny_manifest_json(*v)->Obj_0[4].1->Obj_0);
    }
    fields.push(("jsonWorldContentPaths".to_owned(), map_json_world_content_paths));
    let map_json_world_component_content_paths = {
        let mut entries: Vec<(String, JsonValue)> = Vec::new();
        let mut i: usize = 0;
        while i < v.json_world_component_content_paths.len()
            invariant
                i <= v.json_world_component_content_paths.len(),
                entries@.len() == i,
                forall|k: int| 0 <= k < i
                    ==> ((#[trigger] entries@[k]).0@ == v.json_world_component_content_paths@[k].0@
                        && (jview(entries@[k].1) matches Json::Obj(inner)
                        && inner.len() == v.json_world_component_content_paths@[k].1@.len()
                        && (forall|m: int| 0 <= m < inner.len()
                            ==> (#[trigger] inner[m])
                                == (v.json_world_component_content_paths@[k].1@[m].0@, Json::Str(v.json_world_component_content_paths@[k].1@[m].1@))))),
            decreases v.json_world_component_content_paths.len() - i,
        {
            let mut inner: Vec<(String, JsonValue)> = Vec::new();
            let mut m: usize = 0;
            while m < v.json_world_component_content_paths[i].1.len()
                invariant
                    i < v.json_world_component_content_paths.len(),
                    m <= v.json_world_component_content_paths@[i as int].1.len(),
                    inner@.len() == m,
                    forall|k: int| 0 <= k < m
                        ==> (#[trigger] inner@[k]).0@ == v.json_world_component_content_paths@[i as int].1@[k].0@
                            && jview(inner@[k].1)
                                == Json::Str(v.json_world_component_content_paths@[i as int].1@[k].1@),
                decreases v.json_world_component_content_paths@[i as int].1.len() - m,
            {
                inner.push((v.json_world_component_content_paths[i].1[m].0.clone(), JsonValue::Str(v.json_world_component_content_paths[i].1[m].1.clone())));
                m = m + 1;
            }
            let inner_json = JsonValue::Obj(inner);
            proof {
                assert(jview(inner_json)->Obj_0.len() == v.json_world_component_content_paths@[i as int].1@.len());
            }
            entries.push((v.json_world_component_content_paths[i].0.clone(), inner_json));
            i = i + 1;
        }
        JsonValue::Obj(entries)
    };
    proof {
        let ghost got = jview(map_json_world_component_content_paths)->Obj_0;
        let ghost want = destiny_manifest_json(*v)->Obj_0[5].1->Obj_0;
        assert forall|k: int| 0 <= k < got.len() implies #[trigger] got[k] == want[k] by {
            assert(got[k].1->Obj_0 =~= want[k].1->Obj_0);
        }
        assert(got =~= want);
    }
    fields.push(("jsonWorldComponentContentPaths".to_owned(), map_json_world_component_content_paths));
    fields.push(("mobileClanBannerDatabasePath".to_owned(), JsonValue::Str(v.mobile_clan_banner_database_path.clone())));
    let map_mobile_gear_c_d_n = {
        let mut entries: Vec<(String, JsonValue)> = Vec::new();
        let mut i: usize = 0;
        while i < v.mobile_gear_c_d_n.len()
            invariant
                i <= v.mobile_gear_c_d_n.len(),
                entries@.len() == i,
                forall|k: int| 0 <= k < i
                    ==> (#[trigger] entries@[k]).0@ == v.mobile_gear_c_d_n@[k].0@ && jview(entries@[k].1) == Json::Str(v.mobile_gear_c_d_n@[k].1@),
            decreases v.mobile_gear_c_d_n.len() - i,
        {
            entries.push((v.mobile_gear_c_d_n[i].0.clone(), JsonValue::Str(v.mobile_gear_c_d_n[i].1.clone())));
            i = i + 1;
        }
        JsonValue::Obj(entries)
    };
    proof {
        assert(jview(map_mobile_gear_c_d_n)->Obj_0 =~= destiny_manifest_json(*v)->Obj_0[7].1->Obj_0);
    }
    fields.push(("mobileGearCDN".to_owned(), map_mobile_gear_c_d_n));
    let arr_icon_image_pyramid_info = {
        let mut items: Vec<JsonValue> = Vec::new();
        let mut i: usize = 0;
        while i < v.icon_image_pyramid_info.len()
            invariant
                i <= v.icon_image_pyramid_info.len(),
                items@.len() == i,
                forall|k: int| 0 <= k < i ==> jview(#[trigger] items@[k]) == image_pyramid_entry_json(v.icon_image_pyramid_info@[k]),
            decreases v.icon_image_pyramid_info.len() - i,
        {
            items.push(encode_image_pyramid_entry(&v.icon_image_pyramid_info[i]));
            i = i + 1;
        }
        JsonValue::Arr(items)
    };
    proof {
        assert(jview(arr_icon_image_pyramid_info)->Arr_0 =~= destiny_manifest_json(*v)->Obj_0[8].1->Arr_0);
    }
    fields.push(("iconImagePyramidInfo".to_owned(), arr_icon_image_pyramid_info));
    let r = JsonValue::Obj(fields);
    proof {
        assert(jview(fields@[0].1) == destiny_manifest_json(*v)->Obj_0[0].1);
        assert(jview(fields@[1].1) == destiny_manifest_json(*v)->Obj_0[1].1);
        assert(jview(fields@[2].1) == destiny_manifest_json(*v)->Obj_0[2].1);
        assert(jview(fields@[3].1) == destiny_manifest_json(*v)->Obj_0[3].1);
        assert(jview(fields@[4].1) == destiny_manifest_json(*v)->Obj_0[4].1);
        assert(jview(fields@[5].1) == destiny_manifest_json(*v)->Obj_0[5].1);
        assert(jview(fields@[6].1) == destiny_manifest_json(*v)->Obj_0[6].1);
        assert(jview(fields@[7].1) == destiny_manifest_json(*v)->Obj_0[7].1);
        assert(jview(fields@[8].1) == destiny_manifest_json(*v)->Obj_0[8].1);
        assert(jview(r)->Obj_0 =~= destiny_manifest_json(*v)->Obj_0);
    }
    r
}

/// Decodes this record; a failure names the offending field in its
/// path and says what was expected of it.
#[verifier::loop_isolation(false)]
pub fn decode_destiny_manifest(j: &JsonValue) -> (r: Result<DestinyManifest, DecodeError>)
    ensures
        r is Ok <==> destiny_manifest_wf(jview(*j)),
        r matches Ok(w) ==> (jview(*j) matches Json::Obj(fields)
            && destiny_manifest_fields_match(fields, w)),
        r matches Err(e) ==> destiny_manifest_err_ok(jview(*j), e),
{
    let fields = match j {
        JsonValue::Obj(fields) => fields,
        _ => {
            return Err(root_error("an object"));
        },
    };
    let ghost gf = jview(*j)->Obj_0;
    let version = match j.get("version") {
        Some(JsonValue::Str(s)) => s.clone(),
        _ => {
            return Err(field_error("version", "a string"));
        },
    };
    let mobile_asset_content_path = match j.get("mobileAssetContentPath") {
        Some(JsonValue::Str(s)) => s.clone(),
        _ => {
            return Err(field_error("mobileAssetContentPath", "a string"));
        },
    };
    let mobile_gear_asset_data_bases = match j.get("mobileGearAssetDataBases") {
        Option::None => {
            return Err(field_error("mobileGearAssetDataBases", "an array"));
        },
        Some(arr) => match arr {
            JsonValue::Arr(items) => {
                let ghost gitems = jview(*arr)->Arr_0;
                let mut out: Vec<GearAssetDataBaseDefinition> = Vec::new();
                let mut i: usize = 0;
                while i < items.len()
                    invariant
                        i <= items.len(),
                        out@.len() == i,
                        forall|k: int| 0 <= k < i
                            ==> (gear_asset_data_base_definition_wf(#[trigger] gitems[k])
                                && (gitems[k] matches Json::Obj(f2)
                                && gear_asset_data_base_definition_fields_match(f2, out@[k]))),
                    decreases items.len() - i,
                {
                    proof {
                        assert(gitems[i as int] == jview(items@[i as int]));
                    }
                    match decode_gear_asset_data_base_definition(&items[i]) {
                        Ok(r) => {
                            out.push(r);
                        },
                        Err(e) => {
                            return Err(indexed_error("mobileGearAssetDataBases", i, e));
                        },
                    }
                    i = i + 1;
                }
                out
            },
            _ => {
                return Err(field_error("mobileGearAssetDataBases", "an array"));
            },
        },
    };
    let mobile_world_content_paths = match j.get("mobileWorldContentPaths") {
        Some(map) => match map {
            JsonValue::Obj(entries) => {
                let ghost gentries = jview(*map)->Obj_0;
                let mut out: Vec<(String, String)> = Vec::new();
                let mut i: usize = 0;
                while i < entries.len()
                    invariant
                        i <= entries.len(),
                        out@.len() == i,
                        forall|k: int| 0 <= k < i
                            ==> (#[trigger] gentries[k]) == (out@[k].0@, Json::Str(out@[k].1@)),
                    decreases entries.len() - i,
                {
                    proof {
                        assert(gentries[i as int]
                            == (entries@[i as int].0@, jview(entries@[i as int].1)));
                    }
                    match &entries[i].1 {
                        JsonValue::Str(s) => {
                            out.push((entries[i].0.clone(), s.clone()));
                        },
                        _ => {
                            return Err(nested_error("mobileWorldContentPaths", field_error(entries[i].0.as_str(), "a string")));
                        },
                    }
                    i = i + 1;
                }
                out
            },
            _ => {
                return Err(field_error("mobileWorldContentPaths", "a mapping object"));
            },
        },
        _ => {
            return Err(field_error("mobileWorldContentPaths", "a mapping object"));
        },
    };
    let json_world_content_paths = match j.get("jsonWorldContentPaths") {
        Some(map) => match map {
            JsonValue::Obj(entries) => {
                let ghost gentries = jview(*map)->Obj_0;
                let mut out: Vec<(String, String)> = Vec::new();
                let mut i: usize = 0;
                while i < entries.len()
                    invariant
                        i <= entries.len(),
                        out@.len() == i,
                        forall|k: int| 0 <= k < i
                            ==> (#[trigger] gentries[k]) == (out@[k].0@, Json::Str(out@[k].1@)),
                    decreases entries.len() - i,
                {
                    proof {
                        assert(gentries[i as int]
                            == (entries@[i as int].0@, jview(entries@[i as int].1)));
                    }
                    match &entries[i].1 {
                        JsonValue::Str(s) => {
                            out.push((entries[i].0.clone(), s.clone()));
                        },
                        _ => {
                            return Err(nested_error("jsonWorldContentPaths", field_error(entries[i].0.as_str(), "a string")));
                        },
                    }
                    i = i + 1;
                }
                out
            },
            _ => {
                return Err(field_error("jsonWorldContentPaths", "a mapping object"));
            },
        },
        _ => {
            return Err(field_error("jsonWorldContentPaths", "a mapping object"));
        },
    };
    let json_world_component_content_paths = match j.get("jsonWorldComponentContentPaths") {
        Some(map) => match map {
            JsonValue::Obj(entries) => {
                let ghost gentries = jview(*map)->Obj_0;
                let mut out: Vec<(String, Vec<(String, String)>)> = Vec::new();
                let mut i: usize = 0;
                while i < entries.len()
                    invariant
                        i <= entries.len(),
                        out@.len() == i,
                        forall|k: int| 0 <= k < i
                            ==> ((#[trigger] gentries[k]).0 == out@[k].0@
                                && (gentries[k].1 matches Json::Obj(inner)
                                && out@[k].1@.len() == inner.len()
                                && (forall|m: int| 0 <= m < inner.len()
                                    ==> (#[trigger] inner[m])
                                        == (out@[k].1@[m].0@, Json::Str(out@[k].1@[m].1@))))),
                    decreases entries.len() - i,
                {
                    proof {
                        assert(gentries[i as int]
                            == (entries@[i as int].0@, jview(entries@[i as int].1)));
                    }
                    let inner_vec = match &entries[i].1 {
                        JsonValue::Obj(inner) => {
                            let ghost ginner = jview(entries@[i as int].1)->Obj_0;
                            let mut acc: Vec<(String, String)> = Vec::new();
                            let mut m: usize = 0;
                            while m < inner.len()
                                invariant
                                    m <= inner.len(),
                                    acc@.len() == m,
                                    forall|k: int| 0 <= k < m
                                        ==> (#[trigger] ginner[k])
                                            == (acc@[k].0@, Json::Str(acc@[k].1@)),
                                decreases inner.len() - m,
                            {
                                proof {
                                    assert(ginner[m as int]
                                        == (inner@[m as int].0@, jview(inner@[m as int].1)));
                                }
                                match &inner[m].1 {
                                    JsonValue::Str(s) => {
                                        acc.push((inner[m].0.clone(), s.clone()));
                                    },
                                    _ => {
                                        return Err(nested_error("jsonWorldComponentContentPaths", field_error(inner[m].0.as_str(), "a string")));
                                    },
                                }
                                m = m + 1;
                            }
                            acc
                        },
                        _ => {
                            return Err(nested_error("jsonWorldComponentContentPaths", field_error(entries[i].0.as_str(), "a mapping object")));
                        },
                    };
                    out.push((entries[i].0.clone(), inner_vec));
                    i = i + 1;
                }
                out
            },
            _ => {
                return Err(field_error("jsonWorldComponentContentPaths", "a mapping object"));
            },
        },
        _ => {
            return Err(field_error("jsonWorldComponentContentPaths", "a mapping object"));
        },
    };
    let mobile_clan_banner_database_path = match j.get("mobileClanBannerDatabasePath") {
        Some(JsonValue::Str(s)) => s.clone(),
        _ => {
            return Err(field_error("mobileClanBannerDatabasePath", "a string"));
        },
    };
    let mobile_gear_c_d_n = match j.get("mobileGearCDN") {
        Some(map) => match map {
            JsonValue::Obj(entries) => {
                let ghost gentries = jview(*map)->Obj_0;
                let mut out: Vec<(String, String)> = Vec::new();
                let mut i: usize = 0;
                while i < entries.len()
                    invariant
                        i <= entries.len(),
                        out@.len() == i,
                        forall|k: int| 0 <= k < i
                            ==> (#[trigger] gentries[k]) == (out@[k].0@, Json::Str(out@[k].1@)),
                    decreases entries.len() - i,
                {
                    proof {
                        assert(gentries[i as int]
                            == (entries@[i as int].0@, jview(entries@[i as int].1)));
                    }
                    match &entries[i].1 {
                        JsonValue::Str(s) => {
                            out.push((entries[i].0.clone(), s.clone()));
                        },
                        _ => {
                            return Err(nested_error("mobileGearCDN", field_error(entries[i].0.as_str(), "a string")));
                        },
                    }
                    i = i + 1;
                }
                out
            },
            _ => {
                return Err(field_error("mobileGearCDN", "a mapping object"));
            },
        },
        _ => {
            return Err(field_error("mobileGearCDN", "a mapping object"));
        },
    };
    let icon_image_pyramid_info = match j.get("iconImagePyramidInfo") {
        Option::None => {
            return Err(field_error("iconImagePyramidInfo", "an array"));
        },
        Some(arr) => match arr {
            JsonValue::Arr(items) => {
                let ghost gitems = jview(*arr)->Arr_0;
                let mut out: Vec<ImagePyramidEntry> = Vec::new();
                let mut i: usize = 0;
                while i < items.len()
                    invariant
                        i <= items.len(),
                        out@.len() == i,
                        forall|k: int| 0 <= k < i
                            ==> (image_pyramid_entry_wf(#[trigger] gitems[k])
                                && (gitems[k] matches Json::Obj(f2)
                                && image_pyramid_entry_fields_match(f2, out@[k]))),
                    decreases items.len() - i,
                {
                    proof {
                        assert(gitems[i as int] == jview(items@[i as int]));
                    }
                    match decode_image_pyramid_entry(&items[i]) {
                        Ok(r) => {
                            out.push(r);
                        },
                        Err(e) => {
                            return Err(indexed_error("iconImagePyramidInfo", i, e));
                        },
                    }
                    i = i + 1;
                }
                out
            },
            _ => {
                return Err(field_error("iconImagePyramidInfo", "an array"));
            },
        },
    };
    Ok(DestinyManifest { version, mobile_asset_content_path, mobile_gear_asset_data_bases, mobile_world_content_paths, json_world_content_paths, json_world_component_content_paths, mobile_clan_banner_database_path, mobile_gear_c_d_n, icon_image_pyramid_info })
}

/// The wire image of a record is well formed and matched by the
/// record itself: encoding loses nothing that decoding reads.
pub proof fn lemma_destiny_manifest_image(v: DestinyManifest)
    ensures
        destiny_manifest_wf(destiny_manifest_json(v)),
        destiny_manifest_json(v) matches Json::Obj(fields) && destiny_manifest_fields_match(fields, v),
{
    reveal_strlit("version");
    reveal_strlit("mobileAssetContentPath");
    reveal_strlit("mobileGearAssetDataBases");
    reveal_strlit("mobileWorldContentPaths");
    reveal_strlit("jsonWorldContentPaths");
    reveal_strlit("jsonWorldComponentContentPaths");
    reveal_strlit("mobileClanBannerDatabasePath");
    reveal_strlit("mobileGearCDN");
    reveal_strlit("iconImagePyramidInfo");
    let fields = destiny_manifest_json(v)->Obj_0;
    assert("version"@.len() == 7);
    assert("mobileAssetContentPath"@.len() == 22);
    assert("mobileGearAssetDataBases"@.len() == 24);
    assert("mobileWorldContentPaths"@.len() == 23);
    assert("jsonWorldContentPaths"@.len() == 21);
    assert("jsonWorldComponentContentPaths"@.len() == 30);
    assert("mobileClanBannerDatabasePath"@.len() == 28);
    assert("mobileGearCDN"@.len() == 13);
    assert("iconImagePyramidInfo"@.len() == 20);
    assert("version"@ != "mobileAssetContentPath"@);
    assert("version"@ != "mobileGearAssetDataBases"@);
    assert("version"@ != "mobileWorldContentPaths"@);
    assert("version"@ != "jsonWorldContentPaths"@);
    assert("version"@ != "jsonWorldComponentContentPaths"@);
    assert("version"@ != "mobileClanBannerDatabasePath"@);
    assert("version"@ != "mobileGearCDN"@);
    assert("version"@ != "iconImagePyramidInfo"@);
    assert("mobileAssetContentPath"@ != "mobileGearAssetDataBases"@);
    assert("mobileAssetContentPath"@ != "mobileWorldContentPaths"@);
    assert("mobileAssetContentPath"@ != "jsonWorldContentPaths"@);
    assert("mobileAssetContentPath"@ != "jsonWorldComponentContentPaths"@);
    assert("mobileAssetContentPath"@ != "mobileClanBannerDatabasePath"@);
    assert("mobileAssetContentPath"@ != "mobileGearCDN"@);
    assert("mobileAssetContentPath"@ != "iconImagePyramidInfo"@);
    assert("mobileGearAssetDataBases"@ != "mobileWorldContentPaths"@);
    assert("mobileGearAssetDataBases"@ != "jsonWorldContentPaths"@);
    assert("mobileGearAssetDataBases"@ != "jsonWorldComponentContentPaths"@);
    assert("mobileGearAssetDataBases"@ != "mobileClanBannerDatabasePath"@);
    assert("mobileGearAssetDataBases"@ != "mobileGearCDN"@);
    assert("mobileGearAssetDataBases"@ != "iconImagePyramidInfo"@);
    assert("mobileWorldContentPaths"@ != "jsonWorldContentPaths"@);
    assert("mobileWorldContentPaths"@ != "jsonWorldComponentContentPaths"@);
    assert("mobileWorldContentPaths"@ != "mobileClanBannerDatabasePath"@);
    assert("mobileWorldContentPaths"@ != "mobileGearCDN"@);
    assert("mobileWorldContentPaths"@ != "iconImagePyramidInfo"@);
    assert("jsonWorldContentPaths"@ != "jsonWorldComponentContentPaths"@);
    assert("jsonWorldContentPaths"@ != "mobileClanBannerDatabasePath"@);
    assert("jsonWorldContentPaths"@ != "mobileGearCDN"@);
    assert("jsonWorldContentPaths"@ != "iconImagePyramidInfo"@);
    assert("jsonWorldComponentContentPaths"@ != "mobileClanBannerDatabasePath"@);
    assert("jsonWorldComponentContentPaths"@ != "mobileGearCDN"@);
    assert("jsonWorldComponentContentPaths"@ != "iconImagePyramidInfo"@);
    assert("mobileClanBannerDatabasePath"@ != "mobileGearCDN"@);
    assert("mobileClanBannerDatabasePath"@ != "iconImagePyramidInfo"@);
    assert("mobileGearCDN"@ != "iconImagePyramidInfo"@);
    lemma_lookup_at(fields, 0);
    lemma_lookup_at(fields, 1);
    lemma_lookup_at(fields, 2);
    lemma_lookup_at(fields, 3);
    lemma_lookup_at(fields, 4);
    lemma_lookup_at(fields, 5);
    lemma_lookup_at(fields, 6);
    lemma_lookup_at(fields, 7);
    lemma_lookup_at(fields, 8);
    assert forall|i: int| 0 <= i < v.mobile_gear_asset_data_bases@.len()
        implies (gear_asset_data_base_definition_wf(#[trigger] fields[2].1->Arr_0[i])
            && (fields[2].1->Arr_0[i] matches Json::Obj(f2)
            && gear_asset_data_base_definition_fields_match(f2, v.mobile_gear_asset_data_bases@[i]))) by {
        assert(fields[2].1->Arr_0[i] == gear_asset_data_base_definition_json(v.mobile_gear_asset_data_bases@[i]));
        lemma_gear_asset_data_base_definition_image(v.mobile_gear_asset_data_bases@[i]);
    }
    assert forall|i: int| 0 <= i < v.icon_image_pyramid_info@.len()
        implies (image_pyramid_entry_wf(#[trigger] fields[8].1->Arr_0[i])
            && (fields[8].1->Arr_0[i] matches Json::Obj(f2)
            && image_pyramid_entry_fields_match(f2, v.icon_image_pyramid_info@[i]))) by {
        assert(fields[8].1->Arr_0[i] == image_pyramid_entry_json(v.icon_image_pyramid_info@[i]));
        lemma_image_pyramid_entry_image(v.icon_image_pyramid_info@[i]);
    }
}

/// Decoding the encoded image of a record yields a record whose
/// every field carries the same content as the one encoded.
pub proof fn lemma_destiny_manifest_round_trip(v: DestinyManifest, w: DestinyManifest)
    requires
        destiny_manifest_json(v) matches Json::Obj(fields) && destiny_manifest_fields_match(fields, w),
    ensures
        destiny_manifest_wf(destiny_manifest_json(v)),
        w.version@ == v.version@,
        w.mobile_asset_content_path@ == v.mobile_asset_content_path@,
        w.mobile_gear_asset_data_bases@.len() == v.mobile_gear_asset_data_bases@.len(),
        forall|i: int| 0 <= i < v.mobile_gear_asset_data_bases@.len() ==> (gear_asset_data_base_definition_json(v.mobile_gear_asset_data_bases@[i]) matches Json::Obj(f2) && gear_asset_data_base_definition_fields_match(f2, #[trigger] w.mobile_gear_asset_data_bases@[i])),
        string_map_view_eq(w.mobile_world_content_paths@, v.mobile_world_content_paths@),
        string_map_view_eq(w.json_world_content_paths@, v.json_world_content_paths@),
        nested_string_map_view_eq(w.json_world_component_content_paths@, v.json_world_component_content_paths@),
        w.mobile_clan_banner_database_path@ == v.mobile_clan_banner_database_path@,
        string_map_view_eq(w.mobile_gear_c_d_n@, v.mobile_gear_c_d_n@),
        w.icon_image_pyramid_info@.len() == v.icon_image_pyramid_info@.len(),
        forall|i: int| 0 <= i < v.icon_image_pyramid_info@.len() ==> (image_pyramid_entry_json(v.icon_image_pyramid_info@[i]) matches Json::Obj(f2) && image_pyramid_entry_fields_match(f2, #[trigger] w.icon_image_pyramid_info@[i])),
{
    lemma_destiny_manifest_image(v);
    let fields = destiny_manifest_json(v)->Obj_0;
    reveal_strlit("version");
    reveal_strlit("mobileAssetContentPath");
    reveal_strlit("mobileGearAssetDataBases");
    reveal_strlit("mobileWorldContentPaths");
    reveal_strlit("jsonWorldContentPaths");
    reveal_strlit("jsonWorldComponentContentPaths");
    reveal_strlit("mobileClanBannerDatabasePath");
    reveal_strlit("mobileGearCDN");
    reveal_strlit("iconImagePyramidInfo");
    assert("version"@.len() == 7);
    assert("mobileAssetContentPath"@.len() == 22);
    assert("mobileGearAssetDataBases"@.len() == 24);
    assert("mobileWorldContentPaths"@.len() == 23);
    assert("jsonWorldContentPaths"@.len() == 21);
    assert("jsonWorldComponentContentPaths"@.len() == 30);
    assert("mobileClanBannerDatabasePath"@.len() == 28);
    assert("mobileGearCDN"@.len() == 13);
    assert("iconImagePyramidInfo"@.len() == 20);
    assert("version"@ != "mobileAssetContentPath"@);
    assert("version"@ != "mobileGearAssetDataBases"@);
    assert("version"@ != "mobileWorldContentPaths"@);
    assert("version"@ != "jsonWorldContentPaths"@);
    assert("version"@ != "jsonWorldComponentContentPaths"@);
    assert("version"@ != "mobileClanBannerDatabasePath"@);
    assert("version"@ != "mobileGearCDN"@);
    assert("version"@ != "iconImagePyramidInfo"@);
    assert("mobileAssetContentPath"@ != "mobileGearAssetDataBases"@);
    assert("mobileAssetContentPath"@ != "mobileWorldContentPaths"@);
    assert("mobileAssetContentPath"@ != "jsonWorldContentPaths"@);
    assert("mobileAssetContentPath"@ != "jsonWorldComponentContentPaths"@);
    assert("mobileAssetContentPath"@ != "mobileClanBannerDatabasePath"@);
    assert("mobileAssetContentPath"@ != "mobileGearCDN"@);
    assert("mobileAssetContentPath"@ != "iconImagePyramidInfo"@);
    assert("mobileGearAssetDataBases"@ != "mobileWorldContentPaths"@);
    assert("mobileGearAssetDataBases"@ != "jsonWorldContentPaths"@);
    assert("mobileGearAssetDataBases"@ != "jsonWorldComponentContentPaths"@);
    assert("mobileGearAssetDataBases"@ != "mobileClanBannerDatabasePath"@);
    assert("mobileGearAssetDataBases"@ != "mobileGearCDN"@);
    assert("mobileGearAssetDataBases"@ != "iconImagePyramidInfo"@);
    assert("mobileWorldContentPaths"@ != "jsonWorldContentPaths"@);
    assert("mobileWorldContentPaths"@ != "jsonWorldComponentContentPaths"@);
    assert("mobileWorldContentPaths"@ != "mobileClanBannerDatabasePath"@);
    assert("mobileWorldContentPaths"@ != "mobileGearCDN"@);
    assert("mobileWorldContentPaths"@ != "iconImagePyramidInfo"@);
    assert("jsonWorldContentPaths"@ != "jsonWorldComponentContentPaths"@);
    assert("jsonWorldContentPaths"@ != "mobileClanBannerDatabasePath"@);
    assert("jsonWorldContentPaths"@ != "mobileGearCDN"@);
    assert("jsonWorldContentPaths"@ != "iconImagePyramidInfo"@);
    assert("jsonWorldComponentContentPaths"@ != "mobileClanBannerDatabasePath"@);
    assert("jsonWorldComponentContentPaths"@ != "mobileGearCDN"@);
    assert("jsonWorldComponentContentPaths"@ != "iconImagePyramidInfo"@);
    assert("mobileClanBannerDatabasePath"@ != "mobileGearCDN"@);
    assert("mobileClanBannerDatabasePath"@ != "iconImagePyramidInfo"@);
    assert("mobileGearCDN"@ != "iconImagePyramidInfo"@);
    lemma_lookup_at(fields, 0);
    lemma_lookup_at(fields, 1);
    lemma_lookup_at(fields, 2);
    lemma_lookup_at(fields, 3);
    lemma_lookup_at(fields, 4);
    lemma_lookup_at(fields, 5);
    lemma_lookup_at(fields, 6);
    lemma_lookup_at(fields, 7);
    lemma_lookup_at(fields, 8);
    assert forall|i: int| 0 <= i < v.mobile_gear_asset_data_bases@.len()
        implies (gear_asset_data_base_definition_json(v.mobile_gear_asset_data_bases@[i]) matches Json::Obj(f2)
            && gear_asset_data_base_definition_fields_match(f2, #[trigger] w.mobile_gear_asset_data_bases@[i])) by {
        assert(fields[2].1->Arr_0[i] == gear_asset_data_base_definition_json(v.mobile_gear_asset_data_bases@[i]));
        lemma_gear_asset_data_base_definition_image(v.mobile_gear_asset_data_bases@[i]);
    }
    match spec_lookup(fields, "mobileWorldContentPaths"@) {
        Some(Json::Obj(entries)) => {
            lemma_string_map_entries_eq(entries, w.mobile_world_content_paths@, v.mobile_world_content_paths@);
        },
        _ => {
            assert(false);
        },
    }
    match spec_lookup(fields, "jsonWorldContentPaths"@) {
        Some(Json::Obj(entries)) => {
            lemma_string_map_entries_eq(entries, w.json_world_content_paths@, v.json_world_content_paths@);
        },
        _ => {
            assert(false);
        },
    }
    assert(spec_lookup(fields, "jsonWorldComponentContentPaths"@) matches Some(Json::Obj(entries))
        && (w.json_world_component_content_paths@.len() == entries.len() && v.json_world_component_content_paths@.len() == entries.len()));
    assert forall|i: int| 0 <= i < w.json_world_component_content_paths@.len()
        implies #[trigger] w.json_world_component_content_paths@[i].0@ == v.json_world_component_content_paths@[i].0@
            && string_map_view_eq(w.json_world_component_content_paths@[i].1@, v.json_world_component_content_paths@[i].1@) by {
        assert(spec_lookup(fields, "jsonWorldComponentContentPaths"@) matches Some(Json::Obj(entries))
            && (entries[i].0 == v.json_world_component_content_paths@[i].0@ && entries[i].0 == w.json_world_component_content_paths@[i].0@));
        match spec_lookup(fields, "jsonWorldComponentContentPaths"@) {
            Some(Json::Obj(entries)) => {
                assert(entries[i].1 matches Json::Obj(inner)
                    && (w.json_world_component_content_paths@[i].1@.len() == inner.len()
                    && v.json_world_component_content_paths@[i].1@.len() == inner.len()));
                match entries[i].1 {
                    Json::Obj(inner) => {
                        lemma_string_map_entries_eq(inner,
                            w.json_world_component_content_paths@[i].1@, v.json_world_component_content_paths@[i].1@);
                    },
                    _ => {
                        assert(false);
                    },
                }
            },
            _ => {
                assert(false);
            },
        }
    }
    assert(nested_string_map_view_eq(w.json_world_component_content_paths@, v.json_world_component_content_paths@));
    match spec_lookup(fields, "mobileGearCDN"@) {
        Some(Json::Obj(entries)) => {
            lemma_string_map_entries_eq(entries, w.mobile_gear_c_d_n@, v.mobile_gear_c_d_n@);
        },
        _ => {
            assert(false);
        },
    }
    assert forall|i: int| 0 <= i < v.icon_image_pyramid_info@.len()
        implies (image_pyramid_entry_json(v.icon_image_pyramid_info@[i]) matches Json::Obj(f2)
            && image_pyramid_entry_fields_match(f2, #[trigger] w.icon_image_pyramid_info@[i])) by {
        assert(fields[8].1->Arr_0[i] == image_pyramid_entry_json(v.icon_image_pyramid_info@[i]));
        lemma_image_pyramid_entry_image(v.icon_image_pyramid_info@[i]);
    }
}

/// The wire image of this record.
pub open spec fn destiny_item_perk_entry_definition_json(v: DestinyItemPerkEntryDefinition) -> Json {
    Json::Obj(
        seq![
            ("requirementDisplayString"@, Json::Str(v.requirement_display_string@)),
            ("perkHash"@, Json::Int(v.perk_hash as int)),
            ("perkVisibility"@, Json::Int(v.perk_visibility.spec_code())),
        ],
    )
}

/// Whether a document decodes as this record: an object with exactly these fields.
pub open spec fn destiny_item_perk_entry_definition_wf(j: Json) -> bool {
    &&& j matches Json::Obj(fields)
    &&& spec_lookup(fields, "requirementDisplayString"@) matches Some(Json::Str(_))
    &&& spec_lookup(fields, "perkHash"@) matches Some(Json::Int(n)) && 0 <= n <= u32::MAX as int
    &&& spec_lookup(fields, "perkVisibility"@) matches Some(Json::Int(n)) && ItemPerkVisibility::spec_from_code(n) is Some
    &&& forall|i: int| 0 <= i < fields.len()
        ==> ((#[trigger] fields[i]).0 == "requirementDisplayString"@ || fields[i].0 == "perkHash"@ || fields[i].0 == "perkVisibility"@)
}

/// How a decoded record relates to the document it came from.
pub open spec fn destiny_item_perk_entry_definition_fields_match(fields: Seq<(Seq<char>, Json)>, w: DestinyItemPerkEntryDefinition) -> bool {
    &&& spec_lookup(fields, "requirementDisplayString"@) == Some(Json::Str(w.requirement_display_string@))
    &&& spec_lookup(fields, "perkHash"@) == Some(Json::Int(w.perk_hash as int))
    &&& spec_lookup(fields, "perkVisibility"@) matches Some(Json::Int(n)) && Some(w.perk_visibility) == ItemPerkVisibility::spec_from_code(n)
}

/// What a decode failure names: its path points at a field of the
/// document that is indeed not decodable, and an undeclared
/// enumeration code is reported with the enumeration's own message.
pub open spec fn destiny_item_perk_entry_definition_err_ok(j: Json, e: DecodeError) -> bool {
    &&& !(j matches Json::Obj(_)) ==> e.path@.len() == 0
    &&& j matches Json::Obj(fields) ==> (
        (e.path@ == "requirementDisplayString"@ && !(spec_lookup(fields, "requirementDisplayString"@) matches Some(Json::Str(_))))
        || (e.path@ == "perkHash"@ && !(spec_lookup(fields, "perkHash"@) matches Some(Json::Int(n)) && 0 <= n <= u32::MAX as int))
        || (e.path@ == "perkVisibility"@ && !(spec_lookup(fields, "perkVisibility"@) matches Some(Json::Int(n)) && ItemPerkVisibility::spec_from_code(n) is Some) && (match spec_lookup(fields, "perkVisibility"@) { Some(Json::Int(n)) => (0 <= n <= u8::MAX as int && ItemPerkVisibility::spec_from_code(n) is None) ==> e.message@ == ItemPerkVisibility::spec_unknown_code_message(n), _ => true }))
        || (exists|i: int| 0 <= i < fields.len() && (#[trigger] fields[i]).0 == e.path@ && !((fields[i].0 == "requirementDisplayString"@ || fields[i].0 == "perkHash"@ || fields[i].0 == "perkVisibility"@))))
}

pub fn encode_destiny_item_perk_entry_definition(v: &DestinyItemPerkEntryDefinition) -> (r: JsonValue)
    ensures
        jview(r) == destiny_item_perk_entry_definition_json(*v),
{
    let mut fields: Vec<(String, JsonValue)> = Vec::new();
    fields.push(("requirementDisplayString".to_owned(), JsonValue::Str(v.requirement_display_string.clone())));
    fields.push(("perkHash".to_owned(), JsonValue::Int(v.perk_hash as i64)));
    fields.push(("perkVisibility".to_owned(), JsonValue::Int(v.perk_visibility.code() as i64)));
    let r = JsonValue::Obj(fields);
    proof {
        assert(jview(fields@[0].1) == destiny_item_perk_entry_definition_json(*v)->Obj_0[0].1);
        assert(jview(fields@[1].1) == destiny_item_perk_entry_definition_json(*v)->Obj_0[1].1);
        assert(jview(fields@[2].1) == destiny_item_perk_entry_definition_json(*v)->Obj_0[2].1);
        assert(jview(r)->Obj_0 =~= destiny_item_perk_entry_definition_json(*v)->Obj_0);
    }
    r
}

/// Decodes this record; a failure names the offending field in its
/// path and says what was expected of it.
#[verifier::loop_isolation(false)]
pub fn decode_destiny_item_perk_entry_definition(j: &JsonValue) -> (r: Result<DestinyItemPerkEntryDefinition, DecodeError>)
    ensures
        r is Ok <==> destiny_item_perk_entry_definition_wf(jview(*j)),
        r matches Ok(w) ==> (jview(*j) matches Json::Obj(fields)
            && destiny_item_perk_entry_definition_fields_match(fields, w)),
        r matches Err(e) ==> destiny_item_perk_entry_definition_err_ok(jview(*j), e),
{
    let fields = match j {
        JsonValue::Obj(fields) => fields,
        _ => {
            return Err(root_error("an object"));
        },
    };
    let ghost gf = jview(*j)->Obj_0;
    let requirement_display_string = match j.get("requirementDisplayString") {
        Some(JsonValue::Str(s)) => s.clone(),
        _ => {
            return Err(field_error("requirementDisplayString", "a string"));
        },
    };
    let perk_hash = match j.get("perkHash") {
        Some(v) => match v.to_i64() {
            Some(n) if 0 <= n && n <= u32::MAX as i64 => n as u32,
            _ => {
                return Err(field_error("perkHash", "a 32-bit unsigned integer"));
            },
        },
        _ => {
            return Err(field_error("perkHash", "a 32-bit unsigned integer"));
        },
    };
    let perk_visibility = match j.get("perkVisibility") {
        Some(v) => match v.to_i64() {
            Some(n) if 0 <= n && n <= u8::MAX as i64 => match ItemPerkVisibility::decode_code(n as u8) {
                Ok(t) => t,
                Err(e) => {
                    return Err(rekey_error("perkVisibility", e));
                },
            },
            _ => {
                return Err(field_error("perkVisibility", "a declared ItemPerkVisibility code"));
            },
        },
        _ => {
            return Err(field_error("perkVisibility", "a declared ItemPerkVisibility code"));
        },
    };
    let mut i: usize = 0;
    while i < fields.len()
        invariant
            i <= fields.len(),
            gf.len() == fields@.len(),
            forall|k: int| 0 <= k < gf.len()
                ==> #[trigger] gf[k] == (fields@[k].0@, jview(fields@[k].1)),
            forall|k: int| 0 <= k < i
                ==> ((#[trigger] gf[k]).0 == "requirementDisplayString"@ || gf[k].0 == "perkHash"@ || gf[k].0 == "perkVisibility"@),
        decreases fields.len() - i,
    {
        let name = fields[i].0.as_str();
        if !(str_eq(name, "requirementDisplayString") || str_eq(name, "perkHash") || str_eq(name, "perkVisibility")) {
            proof {
                assert(gf[i as int].0 == fields@[i as int].0@);
                assert(!destiny_item_perk_entry_definition_wf(jview(*j)));
            }
            return Err(field_error(fields[i].0.as_str(), "an unknown field"));
        }
        i = i + 1;
    }
    Ok(DestinyItemPerkEntryDefinition { requirement_display_string, perk_hash, perk_visibility })
}

/// The wire image of a record is well formed and matched by the
/// record itself: encoding loses nothing that decoding reads.
pub proof fn lemma_destiny_item_perk_entry_definition_image(v: DestinyItemPerkEntryDefinition)
    ensures
        destiny_item_perk_entry_definition_wf(destiny_item_perk_entry_definition_json(v)),
        destiny_item_perk_entry_definition_json(v) matches Json::Obj(fields) && destiny_item_perk_entry_definition_fields_match(fields, v),
{
    reveal_strlit("requirementDisplayString");
    reveal_strlit("perkHash");
    reveal_strlit("perkVisibility");
    let fields = destiny_item_perk_entry_definition_json(v)->Obj_0;
    assert("requirementDisplayString"@.len() == 24);
    assert("perkHash"@.len() == 8);
    assert("perkVisibility"@.len() == 14);
    assert("requirementDisplayString"@ != "perkHash"@);
    assert("requirementDisplayString"@ != "perkVisibility"@);
    assert("perkHash"@ != "perkVisibility"@);
    lemma_lookup_at(fields, 0);
    lemma_lookup_at(fields, 1);
    lemma_lookup_at(fields, 2);
    ItemPerkVisibility::lemma_code_round_trip(v.perk_visibility, 0);
}

/// Decoding the encoded image of a record yields a record whose
/// every field carries the same content as the one encoded.
pub proof fn lemma_destiny_item_perk_entry_definition_round_trip(v: DestinyItemPerkEntryDefinition, w: DestinyItemPerkEntryDefinition)
    requires
        destiny_item_perk_entry_definition_json(v) matches Json::Obj(fields) && destiny_item_perk_entry_definition_fields_match(fields, w),
    ensures
        destiny_item_perk_entry_definition_wf(destiny_item_perk_entry_definition_json(v)),
        w.requirement_display_string@ == v.requirement_display_string@,
        w.perk_hash == v.perk_hash,
        w.perk_visibility == v.perk_visibility,
{
    lemma_destiny_item_perk_entry_definition_image(v);
    let fields = destiny_item_perk_entry_definition_json(v)->Obj_0;
    reveal_strlit("requirementDisplayString");
    reveal_strlit("perkHash");
    reveal_strlit("perkVisibility");
    assert("requirementDisplayString"@.len() == 24);
    assert("perkHash"@.len() == 8);
    assert("perkVisibility"@.len() == 14);
    assert("requirementDisplayString"@ != "perkHash"@);
    assert("requirementDisplayString"@ != "perkVisibility"@);
    assert("perkHash"@ != "perkVisibility"@);
    lemma_lookup_at(fields, 0);
    lemma_lookup_at(fields, 1);
    lemma_lookup_at(fields, 2);
    ItemPerkVisibility::lemma_code_round_trip(v.perk_visibility, 0);
}

/// The wire image of this record.
pub open spec fn destiny_item_inventory_block_definition_json(v: DestinyItemInventoryBlockDefinition) -> Json {
    Json::Obj(
        seq![
            ("stackUniqueLabel"@, (match v.stack_unique_label { Some(x) => Json::Str(x@), Option::None => Json::Null })),
            ("maxStackSize"@, Json::Int(v.max_stack_size as int)),
            ("bucketTypeHash"@, Json::Int(v.bucket_type_hash as int)),
            ("recoveryBucketTypeHash"@, Json::Int(v.recovery_bucket_type_hash as int)),
            ("tierTypeHash"@, Json::Int(v.tier_type_hash as int)),
            ("isInstanceItem"@, Json::Bool(v.is_instance_item)),
            ("nonTransferrableOriginal"@, Json::Bool(v.non_transferrable_original)),
            ("tierTypeName"@, (match v.tier_type_name { Some(x) => Json::Str(x@), Option::None => Json::Null })),
            ("tierType"@, Json::Int(v.tier_type.spec_code())),
            ("expirationTooltip"@, (match v.expiration_tooltip { Some(x) => Json::Str(x@), Option::None => Json::Null })),
            ("expiredInActivityMessage"@, (match v.expired_in_activity_message { Some(x) => Json::Str(x@), Option::None => Json::Null })),
            ("expiredInOrbitMessage"@, (match v.expired_in_orbit_message { Some(x) => Json::Str(x@), Option::None => Json::Null })),
            ("suppressExpirationWhenObjectivesComplete"@, Json::Bool(v.suppress_expiration_when_objectives_complete)),
            ("recipeItemHash"@, (match v.recipe_item_hash { Some(x) => Json::Int(x as int), Option::None => Json::Null })),
        ],
    )
}

/// Whether a document decodes as this record: an object with exactly these fields.
pub open spec fn destiny_item_inventory_block_definition_wf(j: Json) -> bool {
    &&& j matches Json::Obj(fields)
    &&& match spec_lookup(fields, "stackUniqueLabel"@) { Option::None => true, Some(Json::Null) => true, Some(Json::Str(_)) => true, _ => false }
    &&& spec_lookup(fields, "maxStackSize"@) matches Some(Json::Int(n)) && i32::MIN as int <= n <= i32::MAX as int
    &&& spec_lookup(fields, "bucketTypeHash"@) matches Some(Json::Int(n)) && 0 <= n <= u32::MAX as int
    &&& spec_lookup(fields, "recoveryBucketTypeHash"@) matches Some(Json::Int(n)) && 0 <= n <= u32::MAX as int
    &&& spec_lookup(fields, "tierTypeHash"@) matches Some(Json::Int(n)) && 0 <= n <= u32::MAX as int
    &&& spec_lookup(fields, "isInstanceItem"@) matches Some(Json::Bool(_))
    &&& spec_lookup(fields, "nonTransferrableOriginal"@) matches Some(Json::Bool(_))
    &&& match spec_lookup(fields, "tierTypeName"@) { Option::None => true, Some(Json::Null) => true, Some(Json::Str(_)) => true, _ => false }
    &&& spec_lookup(fields, "tierType"@) matches Some(Json::Int(n)) && TierType::spec_from_code(n) is Some
    &&& match spec_lookup(fields, "expirationTooltip"@) { Option::None => true, Some(Json::Null) => true, Some(Json::Str(_)) => true, _ => false }
    &&& match spec_lookup(fields, "expiredInActivityMessage"@) { Option::None => true, Some(Json::Null) => true, Some(Json::Str(_)) => true, _ => false }
    &&& match spec_lookup(fields, "expiredInOrbitMessage"@) { Option::None => true, Some(Json::Null) => true, Some(Json::Str(_)) => true, _ => false }
    &&& spec_lookup(fields, "suppressExpirationWhenObjectivesComplete"@) matches Some(Json::Bool(_))
    &&& match spec_lookup(fields, "recipeItemHash"@) { Option::None => true, Some(Json::Null) => true, Some(Json::Int(n)) => 0 <= n <= u32::MAX as int, _ => false }
    &&& forall|i: int| 0 <= i < fields.len()
        ==> ((#[trigger] fields[i]).0 == "stackUniqueLabel"@ || fields[i].0 == "maxStackSize"@ || fields[i].0 == "bucketTypeHash"@ || fields[i].0 == "recoveryBucketTypeHash"@ || fields[i].0 == "tierTypeHash"@ || fields[i].0 == "isInstanceItem"@ || fields[i].0 == "nonTransferrableOriginal"@ || fields[i].0 == "tierTypeName"@ || fields[i].0 == "tierType"@ || fields[i].0 == "expirationTooltip"@ || fields[i].0 == "expiredInActivityMessage"@ || fields[i].0 == "expiredInOrbitMessage"@ || fields[i].0 == "suppressExpirationWhenObjectivesComplete"@ || fields[i].0 == "recipeItemHash"@)
}

/// How a decoded record relates to the document it came from.
pub open spec fn destiny_item_inventory_block_definition_fields_match(fields: Seq<(Seq<char>, Json)>, w: DestinyItemInventoryBlockDefinition) -> bool {
    &&& match w.stack_unique_label { Some(x) => spec_lookup(fields, "stackUniqueLabel"@) == Some(Json::Str(x@)), Option::None => spec_lookup(fields, "stackUniqueLabel"@) is None || spec_lookup(fields, "stackUniqueLabel"@) == Some(Json::Null) }
    &&& spec_lookup(fields, "maxStackSize"@) == Some(Json::Int(w.max_stack_size as int))
    &&& spec_lookup(fields, "bucketTypeHash"@) == Some(Json::Int(w.bucket_type_hash as int))
    &&& spec_lookup(fields, "recoveryBucketTypeHash"@) == Some(Json::Int(w.recovery_bucket_type_hash as int))
    &&& spec_lookup(fields, "tierTypeHash"@) == Some(Json::Int(w.tier_type_hash as int))
    &&& spec_lookup(fields, "isInstanceItem"@) == Some(Json::Bool(w.is_instance_item))
    &&& spec_lookup(fields, "nonTransferrableOriginal"@) == Some(Json::Bool(w.non_transferrable_original))
    &&& match w.tier_type_name { Some(x) => spec_lookup(fields, "tierTypeName"@) == Some(Json::Str(x@)), Option::None => spec_lookup(fields, "tierTypeName"@) is None || spec_lookup(fields, "tierTypeName"@) == Some(Json::Null) }
    &&& spec_lookup(fields, "tierType"@) matches Some(Json::Int(n)) && Some(w.tier_type) == TierType::spec_from_code(n)
    &&& match w.expiration_tooltip { Some(x) => spec_lookup(fields, "expirationTooltip"@) == Some(Json::Str(x@)), Option::None => spec_lookup(fields, "expirationTooltip"@) is None || spec_lookup(fields, "expirationTooltip"@) == Some(Json::Null) }
    &&& match w.expired_in_activity_message { Some(x) => spec_lookup(fields, "expiredInActivityMessage"@) == Some(Json::Str(x@)), Option::None => spec_lookup(fields, "expiredInActivityMessage"@) is None || spec_lookup(fields, "expiredInActivityMessage"@) == Some(Json::Null) }
    &&& match w.expired_in_orbit_message { Some(x) => spec_lookup(fields, "expiredInOrbitMessage"@) == Some(Json::Str(x@)), Option::None => spec_lookup(fields, "expiredInOrbitMessage"@) is None || spec_lookup(fields, "expiredInOrbitMessage"@) == Some(Json::Null) }
    &&& spec_lookup(fields, "suppressExpirationWhenObjectivesComplete"@) == Some(Json::Bool(w.suppress_expiration_when_objectives_complete))
    &&& match w.recipe_item_hash { Some(x) => spec_lookup(fields, "recipeItemHash"@) == Some(Json::Int(x as int)), Option::None => spec_lookup(fields, "recipeItemHash"@) is None || spec_lookup(fields, "recipeItemHash"@) == Some(Json::Null) }
}

/// What a decode failure names: its path points at a field of the
/// document that is indeed not decodable, and an undeclared
/// enumeration code is reported with the enumeration's own message.
pub open spec fn destiny_item_inventory_block_definition_err_ok(j: Json, e: DecodeError) -> bool {
    &&& !(j matches Json::Obj(_)) ==> e.path@.len() == 0
    &&& j matches Json::Obj(fields) ==> (
        (e.path@ == "stackUniqueLabel"@ && !(match spec_lookup(fields, "stackUniqueLabel"@) { Option::None => true, Some(Json::Null) => true, Some(Json::Str(_)) => true, _ => false }))
        || (e.path@ == "maxStackSize"@ && !(spec_lookup(fields, "maxStackSize"@) matches Some(Json::Int(n)) && i32::MIN as int <= n <= i32::MAX as int))
        || (e.path@ == "bucketTypeHash"@ && !(spec_lookup(fields, "bucketTypeHash"@) matches Some(Json::Int(n)) && 0 <= n <= u32::MAX as int))
        || (e.path@ == "recoveryBucketTypeHash"@ && !(spec_lookup(fields, "recoveryBucketTypeHash"@) matches Some(Json::Int(n)) && 0 <= n <= u32::MAX as int))
        || (e.path@ == "tierTypeHash"@ && !(spec_lookup(fields, "tierTypeHash"@) matches Some(Json::Int(n)) && 0 <= n <= u32::MAX as int))
        || (e.path@ == "isInstanceItem"@ && !(spec_lookup(fields, "isInstanceItem"@) matches Some(Json::Bool(_))))
        || (e.path@ == "nonTransferrableOriginal"@ && !(spec_lookup(fields, "nonTransferrableOriginal"@) matches Some(Json::Bool(_))))
        || (e.path@ == "tierTypeName"@ && !(match spec_lookup(fields, "tierTypeName"@) { Option::None => true, Some(Json::Null) => true, Some(Json::Str(_)) => true, _ => false }))
        || (e.path@ == "tierType"@ && !(spec_lookup(fields, "tierType"@) matches Some(Json::Int(n)) && TierType::spec_from_code(n) is Some) && (match spec_lookup(fields, "tierType"@) { Some(Json::Int(n)) => (0 <= n <= u8::MAX as int && TierType::spec_from_code(n) is None) ==> e.message@ == TierType::spec_unknown_code_message(n), _ => true }))
        || (e.path@ == "expirationTooltip"@ && !(match spec_lookup(fields, "expirationTooltip"@) { Option::None => true, Some(Json::Null) => true, Some(Json::Str(_)) => true, _ => false }))
        || (e.path@ == "expiredInActivityMessage"@ && !(match spec_lookup(fields, "expiredInActivityMessage"@) { Option::None => true, Some(Json::Null) => true, Some(Json::Str(_)) => true, _ => false }))
        || (e.path@ == "expiredInOrbitMessage"@ && !(match spec_lookup(fields, "expiredInOrbitMessage"@) { Option::None => true, Some(Json::Null) => true, Some(Json::Str(_)) => true, _ => false }))
        || (e.path@ == "suppressExpirationWhenObjectivesComplete"@ && !(spec_lookup(fields, "suppressExpirationWhenObjectivesComplete"@) matches Some(Json::Bool(_))))
        || (e.path@ == "recipeItemHash"@ && !(match spec_lookup(fields, "recipeItemHash"@) { Option::None => true, Some(Json::Null) => true, Some(Json::Int(n)) => 0 <= n <= u32::MAX as int, _ => false }))
        || (exists|i: int| 0 <= i < fields.len() && (#[trigger] fields[i]).0 == e.path@ && !((fields[i].0 == "stackUniqueLabel"@ || fields[i].0 == "maxStackSize"@ || fields[i].0 == "bucketTypeHash"@ || fields[i].0 == "recoveryBucketTypeHash"@ || fields[i].0 == "tierTypeHash"@ || fields[i].0 == "isInstanceItem"@ || fields[i].0 == "nonTransferrableOriginal"@ || fields[i].0 == "tierTypeName"@ || fields[i].0 == "tierType"@ || fields[i].0 == "expirationTooltip"@ || fields[i].0 == "expiredInActivityMessage"@ || fields[i].0 == "expiredInOrbitMessage"@ || fields[i].0 == "suppressExpirationWhenObjectivesComplete"@ || fields[i].0 == "recipeItemHash"@))))
}

pub fn encode_destiny_item_inventory_block_definition(v: &DestinyItemInventoryBlockDefinition) -> (r: JsonValue)
    ensures
        jview(r) == destiny_item_inventory_block_definition_json(*v),
{
    let mut fields: Vec<(String, JsonValue)> = Vec::new();
    fields.push(("stackUniqueLabel".to_owned(), match &v.stack_unique_label {
        Some(x) => JsonValue::Str(x.clone()),
        Option::None => JsonValue::Null,
    }));
    fields.push(("maxStackSize".to_owned(), JsonValue::Int(v.max_stack_size as i64)));
    fields.push(("bucketTypeHash".to_owned(), JsonValue::Int(v.bucket_type_hash as i64)));
    fields.push(("recoveryBucketTypeHash".to_owned(), JsonValue::Int(v.recovery_bucket_type_hash as i64)));
    fields.push(("tierTypeHash".to_owned(), JsonValue::Int(v.tier_type_hash as i64)));
    fields.push(("isInstanceItem".to_owned(), JsonValue::Bool(v.is_instance_item)));
    fields.push(("nonTransferrableOriginal".to_owned(), JsonValue::Bool(v.non_transferrable_original)));
    fields.push(("tierTypeName".to_owned(), match &v.tier_type_name {
        Some(x) => JsonValue::Str(x.clone()),
        Option::None => JsonValue::Null,
    }));
    fields.push(("tierType".to_owned(), JsonValue::Int(v.tier_type.code() as i64)));
    fields.push(("expirationTooltip".to_owned(), match &v.expiration_tooltip {
        Some(x) => JsonValue::Str(x.clone()),
        Option::None => JsonValue::Null,
    }));
    fields.push(("expiredInActivityMessage".to_owned(), match &v.expired_in_activity_message {
        Some(x) => JsonValue::Str(x.clone()),
        Option::None => JsonValue::Null,
    }));
    fields.push(("expiredInOrbitMessage".to_owned(), match &v.expired_in_orbit_message {
        Some(x) => JsonValue::Str(x.clone()),
        Option::None => JsonValue::Null,
    }));
    fields.push(("suppressExpirationWhenObjectivesComplete".to_owned(), JsonValue::Bool(v.suppress_expiration_when_objectives_complete)));
    fields.push(("recipeItemHash".to_owned(), match &v.recipe_item_hash {
        Some(x) => JsonValue::Int(*x as i64),
        Option::None => JsonValue::Null,
    }));
    let r = JsonValue::Obj(fields);
    proof {
        assert(jview(fields@[0].1) == destiny_item_inventory_block_definition_json(*v)->Obj_0[0].1);
        assert(jview(fields@[1].1) == destiny_item_inventory_block_definition_json(*v)->Obj_0[1].1);
        assert(jview(fields@[2].1) == destiny_item_inventory_block_definition_json(*v)->Obj_0[2].1);
        assert(jview(fields@[3].1) == destiny_item_inventory_block_definition_json(*v)->Obj_0[3].1);
        assert(jview(fields@[4].1) == destiny_item_inventory_block_definition_json(*v)->Obj_0[4].1);
        assert(jview(fields@[5].1) == destiny_item_inventory_block_definition_json(*v)->Obj_0[5].1);
        assert(jview(fields@[6].1) == destiny_item_inventory_block_definition_json(*v)->Obj_0[6].1);
        assert(jview(fields@[7].1) == destiny_item_inventory_block_definition_json(*v)->Obj_0[7].1);
        assert(jview(fields@[8].1) == destiny_item_inventory_block_definition_json(*v)->Obj_0[8].1);
        assert(jview(fields@[9].1) == destiny_item_inventory_block_definition_json(*v)->Obj_0[9].1);
        assert(jview(fields@[10].1) == destiny_item_inventory_block_definition_json(*v)->Obj_0[10].1);
        assert(jview(fields@[11].1) == destiny_item_inventory_block_definition_json(*v)->Obj_0[11].1);
        assert(jview(fields@[12].1) == destiny_item_inventory_block_definition_json(*v)->Obj_0[12].1);
        assert(jview(fields@[13].1) == destiny_item_inventory_block_definition_json(*v)->Obj_0[13].1);
        assert(jview(r)->Obj_0 =~= destiny_item_inventory_block_definition_json(*v)->Obj_0);
    }
    r
}

/// Decodes this record; a failure names the offending field in its
/// path and says what was expected of it.
#[verifier::loop_isolation(false)]
#[verifier::rlimit(60)]
pub fn decode_destiny_item_inventory_block_definition(j: &JsonValue) -> (r: Result<DestinyItemInventoryBlockDefinition, DecodeError>)
    ensures
        r is Ok <==> destiny_item_inventory_block_definition_wf(jview(*j)),
        r matches Ok(w) ==> (jview(*j) matches Json::Obj(fields)
            && destiny_item_inventory_block_definition_fields_match(fields, w)),
        r matches Err(e) ==> destiny_item_inventory_block_definition_err_ok(jview(*j), e),
{
    let fields = match j {
        JsonValue::Obj(fields) => fields,
        _ => {
            return Err(root_error("an object"));
        },
    };
    let ghost gf = jview(*j)->Obj_0;
    let stack_unique_label = match j.get("stackUniqueLabel") {
        Option::None => Option::None,
        Some(JsonValue::Null) => Option::None,
        Some(JsonValue::Str(s)) => Some(s.clone()),
        _ => {
            return Err(field_error("stackUniqueLabel", "a string or null"));
        },
    };
    let max_stack_size = match j.get("maxStackSize") {
        Some(v) => match v.to_i64() {
            Some(n) if i32::MIN as i64 <= n && n <= i32::MAX as i64 => n as i32,
            _ => {
                return Err(field_error("maxStackSize", "a 32-bit integer"));
            },
        },
        _ => {
            return Err(field_error("maxStackSize", "a 32-bit integer"));
        },
    };
    let bucket_type_hash = match j.get("bucketTypeHash") {
        Some(v) => match v.to_i64() {
            Some(n) if 0 <= n && n <= u32::MAX as i64 => n as u32,
            _ => {
                return Err(field_error("bucketTypeHash", "a 32-bit unsigned integer"));
            },
        },
        _ => {
            return Err(field_error("bucketTypeHash", "a 32-bit unsigned integer"));
        },
    };
    let recovery_bucket_type_hash = match j.get("recoveryBucketTypeHash") {
        Some(v) => match v.to_i64() {
            Some(n) if 0 <= n && n <= u32::MAX as i64 => n as u32,
            _ => {
                return Err(field_error("recoveryBucketTypeHash", "a 32-bit unsigned integer"));
            },
        },
        _ => {
            return Err(field_error("recoveryBucketTypeHash", "a 32-bit unsigned integer"));
        },
    };
    let tier_type_hash = match j.get("tierTypeHash") {
        Some(v) => match v.to_i64() {
            Some(n) if 0 <= n && n <= u32::MAX as i64 => n as u32,
            _ => {
                return Err(field_error("tierTypeHash", "a 32-bit unsigned integer"));
            },
        },
        _ => {
            return Err(field_error("tierTypeHash", "a 32-bit unsigned integer"));
        },
    };
    let is_instance_item = match j.get("isInstanceItem") {
        Some(JsonValue::Bool(b)) => *b,
        _ => {
            return Err(field_error("isInstanceItem", "a boolean"));
        },
    };
    let non_transferrable_original = match j.get("nonTransferrableOriginal") {
        Some(JsonValue::Bool(b)) => *b,
        _ => {
            return Err(field_error("nonTransferrableOriginal", "a boolean"));
        },
    };
    let tier_type_name = match j.get("tierTypeName") {
        Option::None => Option::None,
        Some(JsonValue::Null) => Option::None,
        Some(JsonValue::Str(s)) => Some(s.clone()),
        _ => {
            return Err(field_error("tierTypeName", "a string or null"));
        },
    };
    let tier_type = match j.get("tierType") {
        Some(v) => match v.to_i64() {
            Some(n) if 0 <= n && n <= u8::MAX as i64 => match TierType::decode_code(n as u8) {
                Ok(t) => t,
                Err(e) => {
                    return Err(rekey_error("tierType", e));
                },
            },
            _ => {
                return Err(field_error("tierType", "a declared TierType code"));
            },
        },
        _ => {
            return Err(field_error("tierType", "a declared TierType code"));
        },
    };
    let expiration_tooltip = match j.get("expirationTooltip") {
        Option::None => Option::None,
        Some(JsonValue::Null) => Option::None,
        Some(JsonValue::Str(s)) => Some(s.clone()),
        _ => {
            return Err(field_error("expirationTooltip", "a string or null"));
        },
    };
    let expired_in_activity_message = match j.get("expiredInActivityMessage") {
        Option::None => Option::None,
        Some(JsonValue::Null) => Option::None,
        Some(JsonValue::Str(s)) => Some(s.clone()),
        _ => {
            return Err(field_error("expiredInActivityMessage", "a string or null"));
        },
    };
    let expired_in_orbit_message = match j.get("expiredInOrbitMessage") {
        Option::None => Option::None,
        Some(JsonValue::Null) => Option::None,
        Some(JsonValue::Str(s)) => Some(s.clone()),
        _ => {
            return Err(field_error("expiredInOrbitMessage", "a string or null"));
        },
    };
    let suppress_expiration_when_objectives_complete = match j.get("suppressExpirationWhenObjectivesComplete") {
        Some(JsonValue::Bool(b)) => *b,
        _ => {
            return Err(field_error("suppressExpirationWhenObjectivesComplete", "a boolean"));
        },
    };
    let recipe_item_hash = match j.get("recipeItemHash") {
        Option::None => Option::None,
        Some(JsonValue::Null) => Option::None,
        Some(v) => match v.to_i64() {
            Some(n) if 0 <= n && n <= u32::MAX as i64 => Some(n as u32),
            _ => {
                return Err(field_error("recipeItemHash", "a 32-bit unsigned integer or null"));
            },
        },
    };
    let mut i: usize = 0;
    while i < fields.len()
        invariant
            i <= fields.len(),
            gf.len() == fields@.len(),
            forall|k: int| 0 <= k < gf.len()
                ==> #[trigger] gf[k] == (fields@[k].0@, jview(fields@[k].1)),
            forall|k: int| 0 <= k < i
                ==> ((#[trigger] gf[k]).0 == "stackUniqueLabel"@ || gf[k].0 == "maxStackSize"@ || gf[k].0 == "bucketTypeHash"@ || gf[k].0 == "recoveryBucketTypeHash"@ || gf[k].0 == "tierTypeHash"@ || gf[k].0 == "isInstanceItem"@ || gf[k].0 == "nonTransferrableOriginal"@ || gf[k].0 == "tierTypeName"@ || gf[k].0 == "tierType"@ || gf[k].0 == "expirationTooltip"@ || gf[k].0 == "expiredInActivityMessage"@ || gf[k].0 == "expiredInOrbitMessage"@ || gf[k].0 == "suppressExpirationWhenObjectivesComplete"@ || gf[k].0 == "recipeItemHash"@),
        decreases fields.len() - i,
    {
        let name = fields[i].0.as_str();
        if !(str_eq(name, "stackUniqueLabel") || str_eq(name, "maxStackSize") || str_eq(name, "bucketTypeHash") || str_eq(name, "recoveryBucketTypeHash") || str_eq(name, "tierTypeHash") || str_eq(name, "isInstanceItem") || str_eq(name, "nonTransferrableOriginal") || str_eq(name, "tierTypeName") || str_eq(name, "tierType") || str_eq(name, "expirationTooltip") || str_eq(name, "expiredInActivityMessage") || str_eq(name, "expiredInOrbitMessage") || str_eq(name, "suppressExpirationWhenObjectivesComplete") || str_eq(name, "recipeItemHash")) {
            proof {
                assert(gf[i as int].0 == fields@[i as int].0@);
                assert(!destiny_item_inventory_block_definition_wf(jview(*j)));
            }
            return Err(field_error(fields[i].0.as_str(), "an unknown field"));
        }
        i = i + 1;
    }
    Ok(DestinyItemInventoryBlockDefinition { stack_unique_label, max_stack_size, bucket_type_hash, recovery_bucket_type_hash, tier_type_hash, is_instance_item, non_transferrable_original, tier_type_name, tier_type, expiration_tooltip, expired_in_activity_message, expired_in_orbit_message, suppress_expiration_when_objectives_complete, recipe_item_hash })
}

/// The wire image of a record is well formed and matched by the
/// record itself: encoding loses nothing that decoding reads.
#[verifier::rlimit(60)]
pub proof fn lemma_destiny_item_inventory_block_definition_image(v: DestinyItemInventoryBlockDefinition)
    ensures
        destiny_item_inventory_block_definition_wf(destiny_item_inventory_block_definition_json(v)),
        destiny_item_inventory_block_definition_json(v) matches Json::Obj(fields) && destiny_item_inventory_block_definition_fields_match(fields, v),
{
    reveal_strlit("stackUniqueLabel");
    reveal_strlit("maxStackSize");
    reveal_strlit("bucketTypeHash");
    reveal_strlit("recoveryBucketTypeHash");
    reveal_strlit("tierTypeHash");
    reveal_strlit("isInstanceItem");
    reveal_strlit("nonTransferrableOriginal");
    reveal_strlit("tierTypeName");
    reveal_strlit("tierType");
    reveal_strlit("expirationTooltip");
    reveal_strlit("expiredInActivityMessage");
    reveal_strlit("expiredInOrbitMessage");
    reveal_strlit("suppressExpirationWhenObjectivesComplete");
    reveal_strlit("recipeItemHash");
    let fields = destiny_item_inventory_block_definition_json(v)->Obj_0;
    assert("stackUniqueLabel"@.len() == 16);
    assert("maxStackSize"@.len() == 12);
    assert("bucketTypeHash"@.len() == 14);
    assert("recoveryBucketTypeHash"@.len() == 22);
    assert("tierTypeHash"@.len() == 12);
    assert("isInstanceItem"@.len() == 14);
    assert("nonTransferrableOriginal"@.len() == 24);
    assert("tierTypeName"@.len() == 12);
    assert("tierType"@.len() == 8);
    assert("expirationTooltip"@.len() == 17);
    assert("expiredInActivityMessage"@.len() == 24);
    assert("expiredInOrbitMessage"@.len() == 21);
    assert("suppressExpirationWhenObjectivesComplete"@.len() == 40);
    assert("recipeItemHash"@.len() == 14);
    assert("stackUniqueLabel"@ != "maxStackSize"@);
    assert("stackUniqueLabel"@ != "bucketTypeHash"@);
    assert("stackUniqueLabel"@ != "recoveryBucketTypeHash"@);
    assert("stackUniqueLabel"@ != "tierTypeHash"@);
    assert("stackUniqueLabel"@ != "isInstanceItem"@);
    assert("stackUniqueLabel"@ != "nonTransferrableOriginal"@);
    assert("stackUniqueLabel"@ != "tierTypeName"@);
    assert("stackUniqueLabel"@ != "tierType"@);
    assert("stackUniqueLabel"@ != "expirationTooltip"@);
    assert("stackUniqueLabel"@ != "expiredInActivityMessage"@);
    assert("stackUniqueLabel"@ != "expiredInOrbitMessage"@);
    assert("stackUniqueLabel"@ != "suppressExpirationWhenObjectivesComplete"@);
    assert("stackUniqueLabel"@ != "recipeItemHash"@);
    assert("maxStackSize"@ != "bucketTypeHash"@);
    assert("maxStackSize"@ != "recoveryBucketTypeHash"@);
    assert(("maxStackSize"@)[0] != ("tierTypeHash"@)[0]);
    assert("maxStackSize"@ != "tierTypeHash"@);
    assert("maxStackSize"@ != "isInstanceItem"@);
    assert("maxStackSize"@ != "nonTransferrableOriginal"@);
    assert(("maxStackSize"@)[0] != ("tierTypeName"@)[0]);
    assert("maxStackSize"@ != "tierTypeName"@);
    assert("maxStackSize"@ != "tierType"@);
    assert("maxStackSize"@ != "expirationTooltip"@);
    assert("maxStackSize"@ != "expiredInActivityMessage"@);
    assert("maxStackSize"@ != "expiredInOrbitMessage"@);
    assert("maxStackSize"@ != "suppressExpirationWhenObjectivesComplete"@);
    assert("maxStackSize"@ != "recipeItemHash"@);
    assert("bucketTypeHash"@ != "recoveryBucketTypeHash"@);
    assert("bucketTypeHash"@ != "tierTypeHash"@);
    assert(("bucketTypeHash"@)[0] != ("isInstanceItem"@)[0]);
    assert("bucketTypeHash"@ != "isInstanceItem"@);
    assert("bucketTypeHash"@ != "nonTransferrableOriginal"@);
    assert("bucketTypeHash"@ != "tierTypeName"@);
    assert("bucketTypeHash"@ != "tierType"@);
    assert("bucketTypeHash"@ != "expirationTooltip"@);
    assert("bucketTypeHash"@ != "expiredInActivityMessage"@);
    assert("bucketTypeHash"@ != "expiredInOrbitMessage"@);
    assert("bucketTypeHash"@ != "suppressExpirationWhenObjectivesComplete"@);
    assert(("bucketTypeHash"@)[0] != ("recipeItemHash"@)[0]);
    assert("bucketTypeHash"@ != "recipeItemHash"@);
    assert("recoveryBucketTypeHash"@ != "tierTypeHash"@);
    assert("recoveryBucketTypeHash"@ != "isInstanceItem"@);
    assert("recoveryBucketTypeHash"@ != "nonTransferrableOriginal"@);
    assert("recoveryBucketTypeHash"@ != "tierTypeName"@);
    assert("recoveryBucketTypeHash"@ != "tierType"@);
    assert("recoveryBucketTypeHash"@ != "expirationTooltip"@);
    assert("recoveryBucketTypeHash"@ != "expiredInActivityMessage"@);
    assert("recoveryBucketTypeHash"@ != "expiredInOrbitMessage"@);
    assert("recoveryBucketTypeHash"@ != "suppressExpirationWhenObjectivesComplete"@);
    assert("recoveryBucketTypeHash"@ != "recipeItemHash"@);
    assert("tierTypeHash"@ != "isInstanceItem"@);
    assert("tierTypeHash"@ != "nonTransferrableOriginal"@);
    assert(("tierTypeHash"@)[8] != ("tierTypeName"@)[8]);
    assert("tierTypeHash"@ != "tierTypeName"@);
    assert("tierTypeHash"@ != "tierType"@);
    assert("tierTypeHash"@ != "expirationTooltip"@);
    assert("tierTypeHash"@ != "expiredInActivityMessage"@);
    assert("tierTypeHash"@ != "expiredInOrbitMessage"@);
    assert("tierTypeHash"@ != "suppressExpirationWhenObjectivesComplete"@);
    assert("tierTypeHash"@ != "recipeItemHash"@);
    assert("isInstanceItem"@ != "nonTransferrableOriginal"@);
    assert("isInstanceItem"@ != "tierTypeName"@);
    assert("isInstanceItem"@ != "tierType"@);
    assert("isInstanceItem"@ != "expirationTooltip"@);
    assert("isInstanceItem"@ != "expiredInActivityMessage"@);
    assert("isInstanceItem"@ != "expiredInOrbitMessage"@);
    assert("isInstanceItem"@ != "suppressExpirationWhenObjectivesComplete"@);
    assert(("isInstanceItem"@)[0] != ("recipeItemHash"@)[0]);
    assert("isInstanceItem"@ != "recipeItemHash"@);
    assert("nonTransferrableOriginal"@ != "tierTypeName"@);
    assert("nonTransferrableOriginal"@ != "tierType"@);
    assert("nonTransferrableOriginal"@ != "expirationTooltip"@);
    assert(("nonTransferrableOriginal"@)[0] != ("expiredInActivityMessage"@)[0]);
    assert("nonTransferrableOriginal"@ != "expiredInActivityMessage"@);
    assert("nonTransferrableOriginal"@ != "expiredInOrbitMessage"@);
    assert("nonTransferrableOriginal"@ != "suppressExpirationWhenObjectivesComplete"@);
    assert("nonTransferrableOriginal"@ != "recipeItemHash"@);
    assert("tierTypeName"@ != "tierType"@);
    assert("tierTypeName"@ != "expirationTooltip"@);
    assert("tierTypeName"@ != "expiredInActivityMessage"@);
    assert("tierTypeName"@ != "expiredInOrbitMessage"@);
    assert("tierTypeName"@ != "suppressExpirationWhenObjectivesComplete"@);
    assert("tierTypeName"@ != "recipeItemHash"@);
    assert("tierType"@ != "expirationTooltip"@);
    assert("tierType"@ != "expiredInActivityMessage"@);
    assert("tierType"@ != "expiredInOrbitMessage"@);
    assert("tierType"@ != "suppressExpirationWhenObjectivesComplete"@);
    assert("tierType"@ != "recipeItemHash"@);
    assert("expirationTooltip"@ != "expiredInActivityMessage"@);
    assert("expirationTooltip"@ != "expiredInOrbitMessage"@);
    assert("expirationTooltip"@ != "suppressExpirationWhenObjectivesComplete"@);
    assert("expirationTooltip"@ != "recipeItemHash"@);
    assert("expiredInActivityMessage"@ != "expiredInOrbitMessage"@);
    assert("expiredInActivityMessage"@ != "suppressExpirationWhenObjectivesComplete"@);
    assert("expiredInActivityMessage"@ != "recipeItemHash"@);
    assert("expiredInOrbitMessage"@ != "suppressExpirationWhenObjectivesComplete"@);
    assert("expiredInOrbitMessage"@ != "recipeItemHash"@);
    assert("suppressExpirationWhenObjectivesComplete"@ != "recipeItemHash"@);
    lemma_lookup_at(fields, 0);
    lemma_lookup_at(fields, 1);
    lemma_lookup_at(fields, 2);
    lemma_lookup_at(fields, 3);
    lemma_lookup_at(fields, 4);
    lemma_lookup_at(fields, 5);
    lemma_lookup_at(fields, 6);
    lemma_lookup_at(fields, 7);
    lemma_lookup_at(fields, 8);
    lemma_lookup_at(fields, 9);
    lemma_lookup_at(fields, 10);
    lemma_lookup_at(fields, 11);
    lemma_lookup_at(fields, 12);
    lemma_lookup_at(fields, 13);
    TierType::lemma_code_round_trip(v.tier_type, 0);
}

/// Decoding the encoded image of a record yields a record whose
/// every field carries the same content as the one encoded.
#[verifier::rlimit(60)]
pub proof fn lemma_destiny_item_inventory_block_definition_round_trip(v: DestinyItemInventoryBlockDefinition, w: DestinyItemInventoryBlockDefinition)
    requires
        destiny_item_inventory_block_definition_json(v) matches Json::Obj(fields) && destiny_item_inventory_block_definition_fields_match(fields, w),
    ensures
        destiny_item_inventory_block_definition_wf(destiny_item_inventory_block_definition_json(v)),
        (match v.stack_unique_label { Some(x) => w.stack_unique_label matches Some(y) && y@ == x@, Option::None => w.stack_unique_label is None }),
        w.max_stack_size == v.max_stack_size,
        w.bucket_type_hash == v.bucket_type_hash,
        w.recovery_bucket_type_hash == v.recovery_bucket_type_hash,
        w.tier_type_hash == v.tier_type_hash,
        w.is_instance_item == v.is_instance_item,
        w.non_transferrable_original == v.non_transferrable_original,
        (match v.tier_type_name { Some(x) => w.tier_type_name matches Some(y) && y@ == x@, Option::None => w.tier_type_name is None }),
        w.tier_type == v.tier_type,
        (match v.expiration_tooltip { Some(x) => w.expiration_tooltip matches Some(y) && y@ == x@, Option::None => w.expiration_tooltip is None }),
        (match v.expired_in_activity_message { Some(x) => w.expired_in_activity_message matches Some(y) && y@ == x@, Option::None => w.expired_in_activity_message is None }),
        (match v.expired_in_orbit_message { Some(x) => w.expired_in_orbit_message matches Some(y) && y@ == x@, Option::None => w.expired_in_orbit_message is None }),
        w.suppress_expiration_when_objectives_complete == v.suppress_expiration_when_objectives_complete,
        w.recipe_item_hash == v.recipe_item_hash,
{
    lemma_destiny_item_inventory_block_definition_image(v);
    let fields = destiny_item_inventory_block_definition_json(v)->Obj_0;
    reveal_strlit("stackUniqueLabel");
    reveal_strlit("maxStackSize");
    reveal_strlit("bucketTypeHash");
    reveal_strlit("recoveryBucketTypeHash");
    reveal_strlit("tierTypeHash");
    reveal_strlit("isInstanceItem");
    reveal_strlit("nonTransferrableOriginal");
    reveal_strlit("tierTypeName");
    reveal_strlit("tierType");
    reveal_strlit("expirationTooltip");
    reveal_strlit("expiredInActivityMessage");
    reveal_strlit("expiredInOrbitMessage");
    reveal_strlit("suppressExpirationWhenObjectivesComplete");
    reveal_strlit("recipeItemHash");
    assert("stackUniqueLabel"@.len() == 16);
    assert("maxStackSize"@.len() == 12);
    assert("bucketTypeHash"@.len() == 14);
    assert("recoveryBucketTypeHash"@.len() == 22);
    assert("tierTypeHash"@.len() == 12);
    assert("isInstanceItem"@.len() == 14);
    assert("nonTransferrableOriginal"@.len() == 24);
    assert("tierTypeName"@.len() == 12);
    assert("tierType"@.len() == 8);
    assert("expirationTooltip"@.len() == 17);
    assert("expiredInActivityMessage"@.len() == 24);
    assert("expiredInOrbitMessage"@.len() == 21);
    assert("suppressExpirationWhenObjectivesComplete"@.len() == 40);
    assert("recipeItemHash"@.len() == 14);
    assert("stackUniqueLabel"@ != "maxStackSize"@);
    assert("stackUniqueLabel"@ != "bucketTypeHash"@);
    assert("stackUniqueLabel"@ != "recoveryBucketTypeHash"@);
    assert("stackUniqueLabel"@ != "tierTypeHash"@);
    assert("stackUniqueLabel"@ != "isInstanceItem"@);
    assert("stackUniqueLabel"@ != "nonTransferrableOriginal"@);
    assert("stackUniqueLabel"@ != "tierTypeName"@);
    assert("stackUniqueLabel"@ != "tierType"@);
    assert("stackUniqueLabel"@ != "expirationTooltip"@);
    assert("stackUniqueLabel"@ != "expiredInActivityMessage"@);
    assert("stackUniqueLabel"@ != "expiredInOrbitMessage"@);
    assert("stackUniqueLabel"@ != "suppressExpirationWhenObjectivesComplete"@);
    assert("stackUniqueLabel"@ != "recipeItemHash"@);
    assert("maxStackSize"@ != "bucketTypeHash"@);
    assert("maxStackSize"@ != "recoveryBucketTypeHash"@);
    assert(("maxStackSize"@)[0] != ("tierTypeHash"@)[0]);
    assert("maxStackSize"@ != "tierTypeHash"@);
    assert("maxStackSize"@ != "isInstanceItem"@);
    assert("maxStackSize"@ != "nonTransferrableOriginal"@);
    assert(("maxStackSize"@)[0] != ("tierTypeName"@)[0]);
    assert("maxStackSize"@ != "tierTypeName"@);
    assert("maxStackSize"@ != "tierType"@);
    assert("maxStackSize"@ != "expirationTooltip"@);
    assert("maxStackSize"@ != "expiredInActivityMessage"@);
    assert("maxStackSize"@ != "expiredInOrbitMessage"@);
    assert("maxStackSize"@ != "suppressExpirationWhenObjectivesComplete"@);
    assert("maxStackSize"@ != "recipeItemHash"@);
    assert("bucketTypeHash"@ != "recoveryBucketTypeHash"@);
    assert("bucketTypeHash"@ != "tierTypeHash"@);
    assert(("bucketTypeHash"@)[0] != ("isInstanceItem"@)[0]);
    assert("bucketTypeHash"@ != "isInstanceItem"@);
    assert("bucketTypeHash"@ != "nonTransferrableOriginal"@);
    assert("bucketTypeHash"@ != "tierTypeName"@);
    assert("bucketTypeHash"@ != "tierType"@);
    assert("bucketTypeHash"@ != "expirationTooltip"@);
    assert("bucketTypeHash"@ != "expiredInActivityMessage"@);
    assert("bucketTypeHash"@ != "expiredInOrbitMessage"@);
    assert("bucketTypeHash"@ != "suppressExpirationWhenObjectivesComplete"@);
    assert(("bucketTypeHash"@)[0] != ("recipeItemHash"@)[0]);
    assert("bucketTypeHash"@ != "recipeItemHash"@);
    assert("recoveryBucketTypeHash"@ != "tierTypeHash"@);
    assert("recoveryBucketTypeHash"@ != "isInstanceItem"@);
    assert("recoveryBucketTypeHash"@ != "nonTransferrableOriginal"@);
    assert("recoveryBucketTypeHash"@ != "tierTypeName"@);
    assert("recoveryBucketTypeHash"@ != "tierType"@);
    assert("recoveryBucketTypeHash"@ != "expirationTooltip"@);
    assert("recoveryBucketTypeHash"@ != "expiredInActivityMessage"@);
    assert("recoveryBucketTypeHash"@ != "expiredInOrbitMessage"@);
    assert("recoveryBucketTypeHash"@ != "suppressExpirationWhenObjectivesComplete"@);
    assert("recoveryBucketTypeHash"@ != "recipeItemHash"@);
    assert("tierTypeHash"@ != "isInstanceItem"@);
    assert("tierTypeHash"@ != "nonTransferrableOriginal"@);
    assert(("tierTypeHash"@)[8] != ("tierTypeName"@)[8]);
    assert("tierTypeHash"@ != "tierTypeName"@);
    assert("tierTypeHash"@ != "tierType"@);
    assert("tierTypeHash"@ != "expirationTooltip"@);
    assert("tierTypeHash"@ != "expiredInActivityMessage"@);
    assert("tierTypeHash"@ != "expiredInOrbitMessage"@);
    assert("tierTypeHash"@ != "suppressExpirationWhenObjectivesComplete"@);
    assert("tierTypeHash"@ != "recipeItemHash"@);
    assert("isInstanceItem"@ != "nonTransferrableOriginal"@);
    assert("isInstanceItem"@ != "tierTypeName"@);
    assert("isInstanceItem"@ != "tierType"@);
    assert("isInstanceItem"@ != "expirationTooltip"@);
    assert("isInstanceItem"@ != "expiredInActivityMessage"@);
    assert("isInstanceItem"@ != "expiredInOrbitMessage"@);
    assert("isInstanceItem"@ != "suppressExpirationWhenObjectivesComplete"@);
    assert(("isInstanceItem"@)[0] != ("recipeItemHash"@)[0]);
    assert("isInstanceItem"@ != "recipeItemHash"@);
    assert("nonTransferrableOriginal"@ != "tierTypeName"@);
    assert("nonTransferrableOriginal"@ != "tierType"@);
    assert("nonTransferrableOriginal"@ != "expirationTooltip"@);
    assert(("nonTransferrableOriginal"@)[0] != ("expiredInActivityMessage"@)[0]);
    assert("nonTransferrableOriginal"@ != "expiredInActivityMessage"@);
    assert("nonTransferrableOriginal"@ != "expiredInOrbitMessage"@);
    assert("nonTransferrableOriginal"@ != "suppressExpirationWhenObjectivesComplete"@);
    assert("nonTransferrableOriginal"@ != "recipeItemHash"@);
    assert("tierTypeName"@ != "tierType"@);
    assert("tierTypeName"@ != "expirationTooltip"@);
    assert("tierTypeName"@ != "expiredInActivityMessage"@);
    assert("tierTypeName"@ != "expiredInOrbitMessage"@);
    assert("tierTypeName"@ != "suppressExpirationWhenObjectivesComplete"@);
    assert("tierTypeName"@ != "recipeItemHash"@);
    assert("tierType"@ != "expirationTooltip"@);
    assert("tierType"@ != "expiredInActivityMessage"@);
    assert("tierType"@ != "expiredInOrbitMessage"@);
    assert("tierType"@ != "suppressExpirationWhenObjectivesComplete"@);
    assert("tierType"@ != "recipeItemHash"@);
    assert("expirationTooltip"@ != "expiredInActivityMessage"@);
    assert("expirationTooltip"@ != "expiredInOrbitMessage"@);
    assert("expirationTooltip"@ != "suppressExpirationWhenObjectivesComplete"@);
    assert("expirationTooltip"@ != "recipeItemHash"@);
    assert("expiredInActivityMessage"@ != "expiredInOrbitMessage"@);
    assert("expiredInActivityMessage"@ != "suppressExpirationWhenObjectivesComplete"@);
    assert("expiredInActivityMessage"@ != "recipeItemHash"@);
    assert("expiredInOrbitMessage"@ != "suppressExpirationWhenObjectivesComplete"@);
    assert("expiredInOrbitMessage"@ != "recipeItemHash"@);
    assert("suppressExpirationWhenObjectivesComplete"@ != "recipeItemHash"@);
    lemma_lookup_at(fields, 0);
    lemma_lookup_at(fields, 1);
    lemma_lookup_at(fields, 2);
    lemma_lookup_at(fields, 3);
    lemma_lookup_at(fields, 4);
    lemma_lookup_at(fields, 5);
    lemma_lookup_at(fields, 6);
    lemma_lookup_at(fields, 7);
    lemma_lookup_at(fields, 8);
    lemma_lookup_at(fields, 9);
    lemma_lookup_at(fields, 10);
    lemma_lookup_at(fields, 11);
    lemma_lookup_at(fields, 12);
    lemma_lookup_at(fields, 13);
    TierType::lemma_code_round_trip(v.tier_type, 0);
}

/// The wire image of this record.
pub open spec fn destiny_item_talent_grid_block_definition_json(v: DestinyItemTalentGridBlockDefinition) -> Json {
    Json::Obj(
        seq![
            ("talentGridHash"@, Json::Int(v.talent_grid_hash as int)),
            ("itemDetailString"@, (match v.item_detail_string { Some(x) => Json::Str(x@), Option::None => Json::Null })),
            ("buildName"@, (match v.build_name { Some(x) => Json::Str(x@), Option::None => Json::Null })),
            ("hudDamageType"@, Json::Int(v.hud_damage_type.spec_code())),
            ("hudIcon"@, (match v.hud_icon { Some(x) => Json::Str(x@), Option::None => Json::Null })),
        ],
    )
}

/// Whether a document decodes as this record: an object with exactly these fields.
pub open spec fn destiny_item_talent_grid_block_definition_wf(j: Json) -> bool {
    &&& j matches Json::Obj(fields)
    &&& spec_lookup(fields, "talentGridHash"@) matches Some(Json::Int(n)) && 0 <= n <= u32::MAX as int
    &&& match spec_lookup(fields, "itemDetailString"@) { Option::None => true, Some(Json::Null) => true, Some(Json::Str(_)) => true, _ => false }
    &&& match spec_lookup(fields, "buildName"@) { Option::None => true, Some(Json::Null) => true, Some(Json::Str(_)) => true, _ => false }
    &&& spec_lookup(fields, "hudDamageType"@) matches Some(Json::Int(n)) && DamageType::spec_from_code(n) is Some
    &&& match spec_lookup(fields, "hudIcon"@) { Option::None => true, Some(Json::Null) => true, Some(Json::Str(_)) => true, _ => false }
    &&& forall|i: int| 0 <= i < fields.len()
        ==> ((#[trigger] fields[i]).0 == "talentGridHash"@ || fields[i].0 == "itemDetailString"@ || fields[i].0 == "buildName"@ || fields[i].0 == "hudDamageType"@ || fields[i].0 == "hudIcon"@)
}

/// How a decoded record relates to the document it came from.
pub open spec fn destiny_item_talent_grid_block_definition_fields_match(fields: Seq<(Seq<char>, Json)>, w: DestinyItemTalentGridBlockDefinition) -> bool {
    &&& spec_lookup(fields, "talentGridHash"@) == Some(Json::Int(w.talent_grid_hash as int))
    &&& match w.item_detail_string { Some(x) => spec_lookup(fields, "itemDetailString"@) == Some(Json::Str(x@)), Option::None => spec_lookup(fields, "itemDetailString"@) is None || spec_lookup(fields, "itemDetailString"@) == Some(Json::Null) }
    &&& match w.build_name { Some(x) => spec_lookup(fields, "buildName"@) == Some(Json::Str(x@)), Option::None => spec_lookup(fields, "buildName"@) is None || spec_lookup(fields, "buildName"@) == Some(Json::Null) }
    &&& spec_lookup(fields, "hudDamageType"@) matches Some(Json::Int(n)) && Some(w.hud_damage_type) == DamageType::spec_from_code(n)
    &&& match w.hud_icon { Some(x) => spec_lookup(fields, "hudIcon"@) == Some(Json::Str(x@)), Option::None => spec_lookup(fields, "hudIcon"@) is None || spec_lookup(fields, "hudIcon"@) == Some(Json::Null) }
}

/// What a decode failure names: its path points at a field of the
/// document that is indeed not decodable, and an undeclared
/// enumeration code is reported with the enumeration's own message.
pub open spec fn destiny_item_talent_grid_block_definition_err_ok(j: Json, e: DecodeError) -> bool {
    &&& !(j matches Json::Obj(_)) ==> e.path@.len() == 0
    &&& j matches Json::Obj(fields) ==> (
        (e.path@ == "talentGridHash"@ && !(spec_lookup(fields, "talentGridHash"@) matches Some(Json::Int(n)) && 0 <= n <= u32::MAX as int))
        || (e.path@ == "itemDetailString"@ && !(match spec_lookup(fields, "itemDetailString"@) { Option::None => true, Some(Json::Null) => true, Some(Json::Str(_)) => true, _ => false }))
        || (e.path@ == "buildName"@ && !(match spec_lookup(fields, "buildName"@) { Option::None => true, Some(Json::Null) => true, Some(Json::Str(_)) => true, _ => false }))
        || (e.path@ == "hudDamageType"@ && !(spec_lookup(fields, "hudDamageType"@) matches Some(Json::Int(n)) && DamageType::spec_from_code(n) is Some) && (match spec_lookup(fields, "hudDamageType"@) { Some(Json::Int(n)) => (0 <= n <= u8::MAX as int && DamageType::spec_from_code(n) is None) ==> e.message@ == DamageType::spec_unknown_code_message(n), _ => true }))
        || (e.path@ == "hudIcon"@ && !(match spec_lookup(fields, "hudIcon"@) { Option::None => true, Some(Json::Null) => true, Some(Json::Str(_)) => true, _ => false }))
        || (exists|i: int| 0 <= i < fields.len() && (#[trigger] fields[i]).0 == e.path@ && !((fields[i].0 == "talentGridHash"@ || fields[i].0 == "itemDetailString"@ || fields[i].0 == "buildName"@ || fields[i].0 == "hudDamageType"@ || fields[i].0 == "hudIcon"@))))
}

pub fn encode_destiny_item_talent_grid_block_definition(v: &DestinyItemTalentGridBlockDefinition) -> (r: JsonValue)
    ensures
        jview(r) == destiny_item_talent_grid_block_definition_json(*v),
{
    let mut fields: Vec<(String, JsonValue)> = Vec::new();
    fields.push(("talentGridHash".to_owned(), JsonValue::Int(v.talent_grid_hash as i64)));
    fields.push(("itemDetailString".to_owned(), match &v.item_detail_string {
        Some(x) => JsonValue::Str(x.clone()),
        Option::None => JsonValue::Null,
    }));
    fields.push(("buildName".to_owned(), match &v.build_name {
        Some(x) => JsonValue::Str(x.clone()),
        Option::None => JsonValue::Null,
    }));
    fields.push(("hudDamageType".to_owned(), JsonValue::Int(v.hud_damage_type.code() as i64)));
    fields.push(("hudIcon".to_owned(), match &v.hud_icon {
        Some(x) => JsonValue::Str(x.clone()),
        Option::None => JsonValue::Null,
    }));
    let r = JsonValue::Obj(fields);
    proof {
        assert(jview(fields@[0].1) == destiny_item_talent_grid_block_definition_json(*v)->Obj_0[0].1);
        assert(jview(fields@[1].1) == destiny_item_talent_grid_block_definition_json(*v)->Obj_0[1].1);
        assert(jview(fields@[2].1) == destiny_item_talent_grid_block_definition_json(*v)->Obj_0[2].1);
        assert(jview(fields@[3].1) == destiny_item_talent_grid_block_definition_json(*v)->Obj_0[3].1);
        assert(jview(fields@[4].1) == destiny_item_talent_grid_block_definition_json(*v)->Obj_0[4].1);
        assert(jview(r)->Obj_0 =~= destiny_item_talent_grid_block_definition_json(*v)->Obj_0);
    }
    r
}

/// Decodes this record; a failure names the offending field in its
/// path and says what was expected of it.
#[verifier::loop_isolation(false)]
pub fn decode_destiny_item_talent_grid_block_definition(j: &JsonValue) -> (r: Result<DestinyItemTalentGridBlockDefinition, DecodeError>)
    ensures
        r is Ok <==> destiny_item_talent_grid_block_definition_wf(jview(*j)),
        r matches Ok(w) ==> (jview(*j) matches Json::Obj(fields)
            && destiny_item_talent_grid_block_definition_fields_match(fields, w)),
        r matches Err(e) ==> destiny_item_talent_grid_block_definition_err_ok(jview(*j), e),
{
    let fields = match j {
        JsonValue::Obj(fields) => fields,
        _ => {
            return Err(root_error("an object"));
        },
    };
    let ghost gf = jview(*j)->Obj_0;
    let talent_grid_hash = match j.get("talentGridHash") {
        Some(v) => match v.to_i64() {
            Some(n) if 0 <= n && n <= u32::MAX as i64 => n as u32,
            _ => {
                return Err(field_error("talentGridHash", "a 32-bit unsigned integer"));
            },
        },
        _ => {
            return Err(field_error("talentGridHash", "a 32-bit unsigned integer"));
        },
    };
    let item_detail_string = match j.get("itemDetailString") {
        Option::None => Option::None,
        Some(JsonValue::Null) => Option::None,
        Some(JsonValue::Str(s)) => Some(s.clone()),
        _ => {
            return Err(field_error("itemDetailString", "a string or null"));
        },
    };
    let build_name = match j.get("buildName") {
        Option::None => Option::None,
        Some(JsonValue::Null) => Option::None,
        Some(JsonValue::Str(s)) => Some(s.clone()),
        _ => {
            return Err(field_error("buildName", "a string or null"));
        },
    };
    let hud_damage_type = match j.get("hudDamageType") {
        Some(v) => match v.to_i64() {
            Some(n) if 0 <= n && n <= u8::MAX as i64 => match DamageType::decode_code(n as u8) {
                Ok(t) => t,
                Err(e) => {
                    return Err(rekey_error("hudDamageType", e));
                },
            },
            _ => {
                return Err(field_error("hudDamageType", "a declared DamageType code"));
            },
        },
        _ => {
            return Err(field_error("hudDamageType", "a declared DamageType code"));
        },
    };
    let hud_icon = match j.get("hudIcon") {
        Option::None => Option::None,
        Some(JsonValue::Null) => Option::None,
        Some(JsonValue::Str(s)) => Some(s.clone()),
        _ => {
            return Err(field_error("hudIcon", "a string or null"));
        },
    };
    let mut i: usize = 0;
    while i < fields.len()
        invariant
            i <= fields.len(),
            gf.len() == fields@.len(),
            forall|k: int| 0 <= k < gf.len()
                ==> #[trigger] gf[k] == (fields@[k].0@, jview(fields@[k].1)),
            forall|k: int| 0 <= k < i
                ==> ((#[trigger] gf[k]).0 == "talentGridHash"@ || gf[k].0 == "itemDetailString"@ || gf[k].0 == "buildName"@ || gf[k].0 == "hudDamageType"@ || gf[k].0 == "hudIcon"@),
        decreases fields.len() - i,
    {
        let name = fields[i].0.as_str();
        if !(str_eq(name, "talentGridHash") || str_eq(name, "itemDetailString") || str_eq(name, "buildName") || str_eq(name, "hudDamageType") || str_eq(name, "hudIcon")) {
            proof {
                assert(gf[i as int].0 == fields@[i as int].0@);
                assert(!destiny_item_talent_grid_block_definition_wf(jview(*j)));
            }
            return Err(field_error(fields[i].0.as_str(), "an unknown field"));
        }
        i = i + 1;
    }
    Ok(DestinyItemTalentGridBlockDefinition { talent_grid_hash, item_detail_string, build_name, hud_damage_type, hud_icon })
}

/// The wire image of a record is well formed and matched by the
/// record itself: encoding loses nothing that decoding reads.
pub proof fn lemma_destiny_item_talent_grid_block_definition_image(v: DestinyItemTalentGridBlockDefinition)
    ensures
        destiny_item_talent_grid_block_definition_wf(destiny_item_talent_grid_block_definition_json(v)),
        destiny_item_talent_grid_block_definition_json(v) matches Json::Obj(fields) && destiny_item_talent_grid_block_definition_fields_match(fields, v),
{
    reveal_strlit("talentGridHash");
    reveal_strlit("itemDetailString");
    reveal_strlit("buildName");
    reveal_strlit("hudDamageType");
    reveal_strlit("hudIcon");
    let fields = destiny_item_talent_grid_block_definition_json(v)->Obj_0;
    assert("talentGridHash"@.len() == 14);
    assert("itemDetailString"@.len() == 16);
    assert("buildName"@.len() == 9);
    assert("hudDamageType"@.len() == 13);
    assert("hudIcon"@.len() == 7);
    assert("talentGridHash"@ != "itemDetailString"@);
    assert("talentGridHash"@ != "buildName"@);
    assert("talentGridHash"@ != "hudDamageType"@);
    assert("talentGridHash"@ != "hudIcon"@);
    assert("itemDetailString"@ != "buildName"@);
    assert("itemDetailString"@ != "hudDamageType"@);
    assert("itemDetailString"@ != "hudIcon"@);
    assert("buildName"@ != "hudDamageType"@);
    assert("buildName"@ != "hudIcon"@);
    assert("hudDamageType"@ != "hudIcon"@);
    lemma_lookup_at(fields, 0);
    lemma_lookup_at(fields, 1);
    lemma_lookup_at(fields, 2);
    lemma_lookup_at(fields, 3);
    lemma_lookup_at(fields, 4);
    DamageType::lemma_code_round_trip(v.hud_damage_type, 0);
}

/// Decoding the encoded image of a record yields a record whose
/// every field carries the same content as the one encoded.
pub proof fn lemma_destiny_item_talent_grid_block_definition_round_trip(v: DestinyItemTalentGridBlockDefinition, w: DestinyItemTalentGridBlockDefinition)
    requires
        destiny_item_talent_grid_block_definition_json(v) matches Json::Obj(fields) && destiny_item_talent_grid_block_definition_fields_match(fields, w),
    ensures
        destiny_item_talent_grid_block_definition_wf(destiny_item_talent_grid_block_definition_json(v)),
        w.talent_grid_hash == v.talent_grid_hash,
        (match v.item_detail_string { Some(x) => w.item_detail_string matches Some(y) && y@ == x@, Option::None => w.item_detail_string is None }),
        (match v.build_name { Some(x) => w.build_name matches Some(y) && y@ == x@, Option::None => w.build_name is None }),
        w.hud_damage_type == v.hud_damage_type,
        (match v.hud_icon { Some(x) => w.hud_icon matches Some(y) && y@ == x@, Option::None => w.hud_icon is None }),
{
    lemma_destiny_item_talent_grid_block_definition_image(v);
    let fields = destiny_item_talent_grid_block_definition_json(v)->Obj_0;
    reveal_strlit("talentGridHash");
    reveal_strlit("itemDetailString");
    reveal_strlit("buildName");
    reveal_strlit("hudDamageType");
    reveal_strlit("hudIcon");
    assert("talentGridHash"@.len() == 14);
    assert("itemDetailString"@.len() == 16);
    assert("buildName"@.len() == 9);
    assert("hudDamageType"@.len() == 13);
    assert("hudIcon"@.len() == 7);
    assert("talentGridHash"@ != "itemDetailString"@);
    assert("talentGridHash"@ != "buildName"@);
    assert("talentGridHash"@ != "hudDamageType"@);
    assert("talentGridHash"@ != "hudIcon"@);
    assert("itemDetailString"@ != "buildName"@);
    assert("itemDetailString"@ != "hudDamageType"@);
    assert("itemDetailString"@ != "hudIcon"@);
    assert("buildName"@ != "hudDamageType"@);
    assert("buildName"@ != "hudIcon"@);
    assert("hudDamageType"@ != "hudIcon"@);
    lemma_lookup_at(fields, 0);
    lemma_lookup_at(fields, 1);
    lemma_lookup_at(fields, 2);
    lemma_lookup_at(fields, 3);
    lemma_lookup_at(fields, 4);
    DamageType::lemma_code_round_trip(v.hud_damage_type, 0);
}

/// The wire image of this record.
pub open spec fn destiny_item_sack_block_definition_json(v: DestinyItemSackBlockDefinition) -> Json {
    Json::Obj(
        seq![
            ("detailAction"@, Json::Str(v.detail_action@)),
            ("openAction"@, Json::Str(v.open_action@)),
            ("seedUnlockValueHash"@, Json::Int(v.seed_unlock_value_hash as int)),
            ("resolvedBitVectorUnlockValueHash"@, Json::Int(v.resolved_bit_vector_unlock_value_hash as int)),
            ("resolvedItemCountUnlockValueHash"@, Json::Int(v.resolved_item_count_unlock_value_hash as int)),
            ("selectItemCount"@, Json::Int(v.select_item_count as int)),
            ("rollStateUnlockValueHash"@, Json::Int(v.roll_state_unlock_value_hash as int)),
            ("rewardItemListHash"@, Json::Int(v.reward_item_list_hash as int)),
            ("vendorSackType"@, (match v.vendor_sack_type { Some(x) => Json::Str(x@), Option::None => Json::Null })),
            ("openOnAcquire"@, Json::Bool(v.open_on_acquire)),
        ],
    )
}

/// Whether a document decodes as this record: an object with exactly these fields.
pub open spec fn destiny_item_sack_block_definition_wf(j: Json) -> bool {
    &&& j matches Json::Obj(fields)
    &&& spec_lookup(fields, "detailAction"@) matches Some(Json::Str(_))
    &&& spec_lookup(fields, "openAction"@) matches Some(Json::Str(_))
    &&& spec_lookup(fields, "seedUnlockValueHash"@) matches Some(Json::Int(n)) && 0 <= n <= u32::MAX as int
    &&& spec_lookup(fields, "resolvedBitVectorUnlockValueHash"@) matches Some(Json::Int(n)) && 0 <= n <= u32::MAX as int
    &&& spec_lookup(fields, "resolvedItemCountUnlockValueHash"@) matches Some(Json::Int(n)) && 0 <= n <= u32::MAX as int
    &&& spec_lookup(fields, "selectItemCount"@) matches Some(Json::Int(n)) && i32::MIN as int <= n <= i32::MAX as int
    &&& spec_lookup(fields, "rollStateUnlockValueHash"@) matches Some(Json::Int(n)) && 0 <= n <= u32::MAX as int
    &&& spec_lookup(fields, "rewardItemListHash"@) matches Some(Json::Int(n)) && 0 <= n <= u32::MAX as int
    &&& match spec_lookup(fields, "vendorSackType"@) { Option::None => true, Some(Json::Null) => true, Some(Json::Str(_)) => true, _ => false }
    &&& spec_lookup(fields, "openOnAcquire"@) matches Some(Json::Bool(_))
    &&& forall|i: int| 0 <= i < fields.len()
        ==> ((#[trigger] fields[i]).0 == "detailAction"@ || fields[i].0 == "openAction"@ || fields[i].0 == "seedUnlockValueHash"@ || fields[i].0 == "resolvedBitVectorUnlockValueHash"@ || fields[i].0 == "resolvedItemCountUnlockValueHash"@ || fields[i].0 == "selectItemCount"@ || fields[i].0 == "rollStateUnlockValueHash"@ || fields[i].0 == "rewardItemListHash"@ || fields[i].0 == "vendorSackType"@ || fields[i].0 == "openOnAcquire"@)
}

/// How a decoded record relates to the document it came from.
pub open spec fn destiny_item_sack_block_definition_fields_match(fields: Seq<(Seq<char>, Json)>, w: DestinyItemSackBlockDefinition) -> bool {
    &&& spec_lookup(fields, "detailAction"@) == Some(Json::Str(w.detail_action@))
    &&& spec_lookup(fields, "openAction"@) == Some(Json::Str(w.open_action@))
    &&& spec_lookup(fields, "seedUnlockValueHash"@) == Some(Json::Int(w.seed_unlock_value_hash as int))
    &&& spec_lookup(fields, "resolvedBitVectorUnlockValueHash"@) == Some(Json::Int(w.resolved_bit_vector_unlock_value_hash as int))
    &&& spec_lookup(fields, "resolvedItemCountUnlockValueHash"@) == Some(Json::Int(w.resolved_item_count_unlock_value_hash as int))
    &&& spec_lookup(fields, "selectItemCount"@) == Some(Json::Int(w.select_item_count as int))
    &&& spec_lookup(fields, "rollStateUnlockValueHash"@) == Some(Json::Int(w.roll_state_unlock_value_hash as int))
    &&& spec_lookup(fields, "rewardItemListHash"@) == Some(Json::Int(w.reward_item_list_hash as int))
    &&& match w.vendor_sack_type { Some(x) => spec_lookup(fields, "vendorSackType"@) == Some(Json::Str(x@)), Option::None => spec_lookup(fields, "vendorSackType"@) is None || spec_lookup(fields, "vendorSackType"@) == Some(Json::Null) }
    &&& spec_lookup(fields, "openOnAcquire"@) == Some(Json::Bool(w.open_on_acquire))
}

/// What a decode failure names: its path points at a field of the
/// document that is indeed not decodable, and an undeclared
/// enumeration code is reported with the enumeration's own message.
pub open spec fn destiny_item_sack_block_definition_err_ok(j: Json, e: DecodeError) -> bool {
    &&& !(j matches Json::Obj(_)) ==> e.path@.len() == 0
    &&& j matches Json::Obj(fields) ==> (
        (e.path@ == "detailAction"@ && !(spec_lookup(fields, "detailAction"@) matches Some(Json::Str(_))))
        || (e.path@ == "openAction"@ && !(spec_lookup(fields, "openAction"@) matches Some(Json::Str(_))))
        || (e.path@ == "seedUnlockValueHash"@ && !(spec_lookup(fields, "seedUnlockValueHash"@) matches Some(Json::Int(n)) && 0 <= n <= u32::MAX as int))
        || (e.path@ == "resolvedBitVectorUnlockValueHash"@ && !(spec_lookup(fields, "resolvedBitVectorUnlockValueHash"@) matches Some(Json::Int(n)) && 0 <= n <= u32::MAX as int))
        || (e.path@ == "resolvedItemCountUnlockValueHash"@ && !(spec_lookup(fields, "resolvedItemCountUnlockValueHash"@) matches Some(Json::Int(n)) && 0 <= n <= u32::MAX as int))
        || (e.path@ == "selectItemCount"@ && !(spec_lookup(fields, "selectItemCount"@) matches Some(Json::Int(n)) && i32::MIN as int <= n <= i32::MAX as int))
        || (e.path@ == "rollStateUnlockValueHash"@ && !(spec_lookup(fields, "rollStateUnlockValueHash"@) matches Some(Json::Int(n)) && 0 <= n <= u32::MAX as int))
        || (e.path@ == "rewardItemListHash"@ && !(spec_lookup(fields, "rewardItemListHash"@) matches Some(Json::Int(n)) && 0 <= n <= u32::MAX as int))
        || (e.path@ == "vendorSackType"@ && !(match spec_lookup(fields, "vendorSackType"@) { Option::None => true, Some(Json::Null) => true, Some(Json::Str(_)) => true, _ => false }))
        || (e.path@ == "openOnAcquire"@ && !(spec_lookup(fields, "openOnAcquire"@) matches Some(Json::Bool(_))))
        || (exists|i: int| 0 <= i < fields.len() && (#[trigger] fields[i]).0 == e.path@ && !((fields[i].0 == "detailAction"@ || fields[i].0 == "openAction"@ || fields[i].0 == "seedUnlockValueHash"@ || fields[i].0 == "resolvedBitVectorUnlockValueHash"@ || fields[i].0 == "resolvedItemCountUnlockValueHash"@ || fields[i].0 == "selectItemCount"@ || fields[i].0 == "rollStateUnlockValueHash"@ || fields[i].0 == "rewardItemListHash"@ || fields[i].0 == "vendorSackType"@ || fields[i].0 == "openOnAcquire"@))))
}

pub fn encode_destiny_item_sack_block_definition(v: &DestinyItemSackBlockDefinition) -> (r: JsonValue)
    ensures
        jview(r) == destiny_item_sack_block_definition_json(*v),
{
    let mut fields: Vec<(String, JsonValue)> = Vec::new();
    fields.push(("detailAction".to_owned(), JsonValue::Str(v.detail_action.clone())));
    fields.push(("openAction".to_owned(), JsonValue::Str(v.open_action.clone())));
    fields.push(("seedUnlockValueHash".to_owned(), JsonValue::Int(v.seed_unlock_value_hash as i64)));
    fields.push(("resolvedBitVectorUnlockValueHash".to_owned(), JsonValue::Int(v.resolved_bit_vector_unlock_value_hash as i64)));
    fields.push(("resolvedItemCountUnlockValueHash".to_owned(), JsonValue::Int(v.resolved_item_count_unlock_value_hash as i64)));
    fields.push(("selectItemCount".to_owned(), JsonValue::Int(v.select_item_count as i64)));
    fields.push(("rollStateUnlockValueHash".to_owned(), JsonValue::Int(v.roll_state_unlock_value_hash as i64)));
    fields.push(("rewardItemListHash".to_owned(), JsonValue::Int(v.reward_item_list_hash as i64)));
    fields.push(("vendorSackType".to_owned(), match &v.vendor_sack_type {
        Some(x) => JsonValue::Str(x.clone()),
        Option::None => JsonValue::Null,
    }));
    fields.push(("openOnAcquire".to_owned(), JsonValue::Bool(v.open_on_acquire)));
    let r = JsonValue::Obj(fields);
    proof {
        assert(jview(fields@[0].1) == destiny_item_sack_block_definition_json(*v)->Obj_0[0].1);
        assert(jview(fields@[1].1) == destiny_item_sack_block_definition_json(*v)->Obj_0[1].1);
        assert(jview(fields@[2].1) == destiny_item_sack_block_definition_json(*v)->Obj_0[2].1);
        assert(jview(fields@[3].1) == destiny_item_sack_block_definition_json(*v)->Obj_0[3].1);
        assert(jview(fields@[4].1) == destiny_item_sack_block_definition_json(*v)->Obj_0[4].1);
        assert(jview(fields@[5].1) == destiny_item_sack_block_definition_json(*v)->Obj_0[5].1);
        assert(jview(fields@[6].1) == destiny_item_sack_block_definition_json(*v)->Obj_0[6].1);
        assert(jview(fields@[7].1) == destiny_item_sack_block_definition_json(*v)->Obj_0[7].1);
        assert(jview(fields@[8].1) == destiny_item_sack_block_definition_json(*v)->Obj_0[8].1);
        assert(jview(fields@[9].1) == destiny_item_sack_block_definition_json(*v)->Obj_0[9].1);
        assert(jview(r)->Obj_0 =~= destiny_item_sack_block_definition_json(*v)->Obj_0);
    }
    r
}

/// Decodes this record; a failure names the offending field in its
/// path and says what was expected of it.
#[verifier::loop_isolation(false)]
pub fn decode_destiny_item_sack_block_definition(j: &JsonValue) -> (r: Result<DestinyItemSackBlockDefinition, DecodeError>)
    ensures
        r is Ok <==> destiny_item_sack_block_definition_wf(jview(*j)),
        r matches Ok(w) ==> (jview(*j) matches Json::Obj(fields)
            && destiny_item_sack_block_definition_fields_match(fields, w)),
        r matches Err(e) ==> destiny_item_sack_block_definition_err_ok(jview(*j), e),
{
    let fields = match j {
        JsonValue::Obj(fields) => fields,
        _ => {
            return Err(root_error("an object"));
        },
    };
    let ghost gf = jview(*j)->Obj_0;
    let detail_action = match j.get("detailAction") {
        Some(JsonValue::Str(s)) => s.clone(),
        _ => {
            return Err(field_error("detailAction", "a string"));
        },
    };
    let open_action = match j.get("openAction") {
        Some(JsonValue::Str(s)) => s.clone(),
        _ => {
            return Err(field_error("openAction", "a string"));
        },
    };
    let seed_unlock_value_hash = match j.get("seedUnlockValueHash") {
        Some(v) => match v.to_i64() {
            Some(n) if 0 <= n && n <= u32::MAX as i64 => n as u32,
            _ => {
                return Err(field_error("seedUnlockValueHash", "a 32-bit unsigned integer"));
            },
        },
        _ => {
            return Err(field_error("seedUnlockValueHash", "a 32-bit unsigned integer"));
        },
    };
    let resolved_bit_vector_unlock_value_hash = match j.get("resolvedBitVectorUnlockValueHash") {
        Some(v) => match v.to_i64() {
            Some(n) if 0 <= n && n <= u32::MAX as i64 => n as u32,
            _ => {
                return Err(field_error("resolvedBitVectorUnlockValueHash", "a 32-bit unsigned integer"));
            },
        },
        _ => {
            return Err(field_error("resolvedBitVectorUnlockValueHash", "a 32-bit unsigned integer"));
        },
    };
    let resolved_item_count_unlock_value_hash = match j.get("resolvedItemCountUnlockValueHash") {
        Some(v) => match v.to_i64() {
            Some(n) if 0 <= n && n <= u32::MAX as i64 => n as u32,
            _ => {
                return Err(field_error("resolvedItemCountUnlockValueHash", "a 32-bit unsigned integer"));
            },
        },
        _ => {
            return Err(field_error("resolvedItemCountUnlockValueHash", "a 32-bit unsigned integer"));
        },
    };
    let select_item_count = match j.get("selectItemCount") {
        Some(v) => match v.to_i64() {
            Some(n) if i32::MIN as i64 <= n && n <= i32::MAX as i64 => n as i32,
            _ => {
                return Err(field_error("selectItemCount", "a 32-bit integer"));
            },
        },
        _ => {
            return Err(field_error("selectItemCount", "a 32-bit integer"));
        },
    };
    let roll_state_unlock_value_hash = match j.get("rollStateUnlockValueHash") {
        Some(v) => match v.to_i64() {
            Some(n) if 0 <= n && n <= u32::MAX as i64 => n as u32,
            _ => {
                return Err(field_error("rollStateUnlockValueHash", "a 32-bit unsigned integer"));
            },
        },
        _ => {
            return Err(field_error("rollStateUnlockValueHash", "a 32-bit unsigned integer"));
        },
    };
    let reward_item_list_hash = match j.get("rewardItemListHash") {
        Some(v) => match v.to_i64() {
            Some(n) if 0 <= n && n <= u32::MAX as i64 => n as u32,
            _ => {
                return Err(field_error("rewardItemListHash", "a 32-bit unsigned integer"));
            },
        },
        _ => {
            return Err(field_error("rewardItemListHash", "a 32-bit unsigned integer"));
        },
    };
    let vendor_sack_type = match j.get("vendorSackType") {
        Option::None => Option::None,
        Some(JsonValue::Null) => Option::None,
        Some(JsonValue::Str(s)) => Some(s.clone()),
        _ => {
            return Err(field_error("vendorSackType", "a string or null"));
        },
    };
    let open_on_acquire = match j.get("openOnAcquire") {
        Some(JsonValue::Bool(b)) => *b,
        _ => {
            return Err(field_error("openOnAcquire", "a boolean"));
        },
    };
    let mut i: usize = 0;
    while i < fields.len()
        invariant
            i <= fields.len(),
            gf.len() == fields@.len(),
            forall|k: int| 0 <= k < gf.len()
                ==> #[trigger] gf[k] == (fields@[k].0@, jview(fields@[k].1)),
            forall|k: int| 0 <= k < i
                ==> ((#[trigger] gf[k]).0 == "detailAction"@ || gf[k].0 == "openAction"@ || gf[k].0 == "seedUnlockValueHash"@ || gf[k].0 == "resolvedBitVectorUnlockValueHash"@ || gf[k].0 == "resolvedItemCountUnlockValueHash"@ || gf[k].0 == "selectItemCount"@ || gf[k].0 == "rollStateUnlockValueHash"@ || gf[k].0 == "rewardItemListHash"@ || gf[k].0 == "vendorSackType"@ || gf[k].0 == "openOnAcquire"@),
        decreases fields.len() - i,
    {
        let name = fields[i].0.as_str();
        if !(str_eq(name, "detailAction") || str_eq(name, "openAction") || str_eq(name, "seedUnlockValueHash") || str_eq(name, "resolvedBitVectorUnlockValueHash") || str_eq(name, "resolvedItemCountUnlockValueHash") || str_eq(name, "selectItemCount") || str_eq(name, "rollStateUnlockValueHash") || str_eq(name, "rewardItemListHash") || str_eq(name, "vendorSackType") || str_eq(name, "openOnAcquire")) {
            proof {
                assert(gf[i as int].0 == fields@[i as int].0@);
                assert(!destiny_item_sack_block_definition_wf(jview(*j)));
            }
            return Err(field_error(fields[i].0.as_str(), "an unknown field"));
        }
        i = i + 1;
    }
    Ok(DestinyItemSackBlockDefinition { detail_action, open_action, seed_unlock_value_hash, resolved_bit_vector_unlock_value_hash, resolved_item_count_unlock_value_hash, select_item_count, roll_state_unlock_value_hash, reward_item_list_hash, vendor_sack_type, open_on_acquire })
}

/// The wire image of a record is well formed and matched by the
/// record itself: encoding loses nothing that decoding reads.
pub proof fn lemma_destiny_item_sack_block_definition_image(v: DestinyItemSackBlockDefinition)
    ensures
        destiny_item_sack_block_definition_wf(destiny_item_sack_block_definition_json(v)),
        destiny_item_sack_block_definition_json(v) matches Json::Obj(fields) && destiny_item_sack_block_definition_fields_match(fields, v),
{
    reveal_strlit("detailAction");
    reveal_strlit("openAction");
    reveal_strlit("seedUnlockValueHash");
    reveal_strlit("resolvedBitVectorUnlockValueHash");
    reveal_strlit("resolvedItemCountUnlockValueHash");
    reveal_strlit("selectItemCount");
    reveal_strlit("rollStateUnlockValueHash");
    reveal_strlit("rewardItemListHash");
    reveal_strlit("vendorSackType");
    reveal_strlit("openOnAcquire");
    let fields = destiny_item_sack_block_definition_json(v)->Obj_0;
    assert("detailAction"@.len() == 12);
    assert("openAction"@.len() == 10);
    assert("seedUnlockValueHash"@.len() == 19);
    assert("resolvedBitVectorUnlockValueHash"@.len() == 32);
    assert("resolvedItemCountUnlockValueHash"@.len() == 32);
    assert("selectItemCount"@.len() == 15);
    assert("rollStateUnlockValueHash"@.len() == 24);
    assert("rewardItemListHash"@.len() == 18);
    assert("vendorSackType"@.len() == 14);
    assert("openOnAcquire"@.len() == 13);
    assert("detailAction"@ != "openAction"@);
    assert("detailAction"@ != "seedUnlockValueHash"@);
    assert("detailAction"@ != "resolvedBitVectorUnlockValueHash"@);
    assert("detailAction"@ != "resolvedItemCountUnlockValueHash"@);
    assert("detailAction"@ != "selectItemCount"@);
    assert("detailAction"@ != "rollStateUnlockValueHash"@);
    assert("detailAction"@ != "rewardItemListHash"@);
    assert("detailAction"@ != "vendorSackType"@);
    assert("detailAction"@ != "openOnAcquire"@);
    assert("openAction"@ != "seedUnlockValueHash"@);
    assert("openAction"@ != "resolvedBitVectorUnlockValueHash"@);
    assert("openAction"@ != "resolvedItemCountUnlockValueHash"@);
    assert("openAction"@ != "selectItemCount"@);
    assert("openAction"@ != "rollStateUnlockValueHash"@);
    assert("openAction"@ != "rewardItemListHash"@);
    assert("openAction"@ != "vendorSackType"@);
    assert("openAction"@ != "openOnAcquire"@);
    assert("seedUnlockValueHash"@ != "resolvedBitVectorUnlockValueHash"@);
    assert("seedUnlockValueHash"@ != "resolvedItemCountUnlockValueHash"@);
    assert("seedUnlockValueHash"@ != "selectItemCount"@);
    assert("seedUnlockValueHash"@ != "rollStateUnlockValueHash"@);
    assert("seedUnlockValueHash"@ != "rewardItemListHash"@);
    assert("seedUnlockValueHash"@ != "vendorSackType"@);
    assert("seedUnlockValueHash"@ != "openOnAcquire"@);
    assert(("resolvedBitVectorUnlockValueHash"@)[8] != ("resolvedItemCountUnlockValueHash"@)[8]);
    assert("resolvedBitVectorUnlockValueHash"@ != "resolvedItemCountUnlockValueHash"@);
    assert("resolvedBitVectorUnlockValueHash"@ != "selectItemCount"@);
    assert("resolvedBitVectorUnlockValueHash"@ != "rollStateUnlockValueHash"@);
    assert("resolvedBitVectorUnlockValueHash"@ != "rewardItemListHash"@);
    assert("resolvedBitVectorUnlockValueHash"@ != "vendorSackType"@);
    assert("resolvedBitVectorUnlockValueHash"@ != "openOnAcquire"@);
    assert("resolvedItemCountUnlockValueHash"@ != "selectItemCount"@);
    assert("resolvedItemCountUnlockValueHash"@ != "rollStateUnlockValueHash"@);
    assert("resolvedItemCountUnlockValueHash"@ != "rewardItemListHash"@);
    assert("resolvedItemCountUnlockValueHash"@ != "vendorSackType"@);
    assert("resolvedItemCountUnlockValueHash"@ != "openOnAcquire"@);
    assert("selectItemCount"@ != "rollStateUnlockValueHash"@);
    assert("selectItemCount"@ != "rewardItemListHash"@);
    assert("selectItemCount"@ != "vendorSackType"@);
    assert("selectItemCount"@ != "openOnAcquire"@);
    assert("rollStateUnlockValueHash"@ != "rewardItemListHash"@);
    assert("rollStateUnlockValueHash"@ != "vendorSackType"@);
    assert("rollStateUnlockValueHash"@ != "openOnAcquire"@);
    assert("rewardItemListHash"@ != "vendorSackType"@);
    assert("rewardItemListHash"@ != "openOnAcquire"@);
    assert("vendorSackType"@ != "openOnAcquire"@);
    lemma_lookup_at(fields, 0);
    lemma_lookup_at(fields, 1);
    lemma_lookup_at(fields, 2);
    lemma_lookup_at(fields, 3);
    lemma_lookup_at(fields, 4);
    lemma_lookup_at(fields, 5);
    lemma_lookup_at(fields, 6);
    lemma_lookup_at(fields, 7);
    lemma_lookup_at(fields, 8);
    lemma_lookup_at(fields, 9);
}

/// Decoding the encoded image of a record yields a record whose
/// every field carries the same content as the one encoded.
pub proof fn lemma_destiny_item_sack_block_definition_round_trip(v: DestinyItemSackBlockDefinition, w: DestinyItemSackBlockDefinition)
    requires
        destiny_item_sack_block_definition_json(v) matches Json::Obj(fields) && destiny_item_sack_block_definition_fields_match(fields, w),
    ensures
        destiny_item_sack_block_definition_wf(destiny_item_sack_block_definition_json(v)),
        w.detail_action@ == v.detail_action@,
        w.open_action@ == v.open_action@,
        w.seed_unlock_value_hash == v.seed_unlock_value_hash,
        w.resolved_bit_vector_unlock_value_hash == v.resolved_bit_vector_unlock_value_hash,
        w.resolved_item_count_unlock_value_hash == v.resolved_item_count_unlock_value_hash,
        w.select_item_count == v.select_item_count,
        w.roll_state_unlock_value_hash == v.roll_state_unlock_value_hash,
        w.reward_item_list_hash == v.reward_item_list_hash,
        (match v.vendor_sack_type { Some(x) => w.vendor_sack_type matches Some(y) && y@ == x@, Option::None => w.vendor_sack_type is None }),
        w.open_on_acquire == v.open_on_acquire,
{
    lemma_destiny_item_sack_block_definition_image(v);
    let fields = destiny_item_sack_block_definition_json(v)->Obj_0;
    reveal_strlit("detailAction");
    reveal_strlit("openAction");
    reveal_strlit("seedUnlockValueHash");
    reveal_strlit("resolvedBitVectorUnlockValueHash");
    reveal_strlit("resolvedItemCountUnlockValueHash");
    reveal_strlit("selectItemCount");
    reveal_strlit("rollStateUnlockValueHash");
    reveal_strlit("rewardItemListHash");
    reveal_strlit("vendorSackType");
    reveal_strlit("openOnAcquire");
    assert("detailAction"@.len() == 12);
    assert("openAction"@.len() == 10);
    assert("seedUnlockValueHash"@.len() == 19);
    assert("resolvedBitVectorUnlockValueHash"@.len() == 32);
    assert("resolvedItemCountUnlockValueHash"@.len() == 32);
    assert("selectItemCount"@.len() == 15);
    assert("rollStateUnlockValueHash"@.len() == 24);
    assert("rewardItemListHash"@.len() == 18);
    assert("vendorSackType"@.len() == 14);
    assert("openOnAcquire"@.len() == 13);
    assert("detailAction"@ != "openAction"@);
    assert("detailAction"@ != "seedUnlockValueHash"@);
    assert("detailAction"@ != "resolvedBitVectorUnlockValueHash"@);
    assert("detailAction"@ != "resolvedItemCountUnlockValueHash"@);
    assert("detailAction"@ != "selectItemCount"@);
    assert("detailAction"@ != "rollStateUnlockValueHash"@);
    assert("detailAction"@ != "rewardItemListHash"@);
    assert("detailAction"@ != "vendorSackType"@);
    assert("detailAction"@ != "openOnAcquire"@);
    assert("openAction"@ != "seedUnlockValueHash"@);
    assert("openAction"@ != "resolvedBitVectorUnlockValueHash"@);
    assert("openAction"@ != "resolvedItemCountUnlockValueHash"@);
    assert("openAction"@ != "selectItemCount"@);
    assert("openAction"@ != "rollStateUnlockValueHash"@);
    assert("openAction"@ != "rewardItemListHash"@);
    assert("openAction"@ != "vendorSackType"@);
    assert("openAction"@ != "openOnAcquire"@);
    assert("seedUnlockValueHash"@ != "resolvedBitVectorUnlockValueHash"@);
    assert("seedUnlockValueHash"@ != "resolvedItemCountUnlockValueHash"@);
    assert("seedUnlockValueHash"@ != "selectItemCount"@);
    assert("seedUnlockValueHash"@ != "rollStateUnlockValueHash"@);
    assert("seedUnlockValueHash"@ != "rewardItemListHash"@);
    assert("seedUnlockValueHash"@ != "vendorSackType"@);
    assert("seedUnlockValueHash"@ != "openOnAcquire"@);
    assert(("resolvedBitVectorUnlockValueHash"@)[8] != ("resolvedItemCountUnlockValueHash"@)[8]);
    assert("resolvedBitVectorUnlockValueHash"@ != "resolvedItemCountUnlockValueHash"@);
    assert("resolvedBitVectorUnlockValueHash"@ != "selectItemCount"@);
    assert("resolvedBitVectorUnlockValueHash"@ != "rollStateUnlockValueHash"@);
    assert("resolvedBitVectorUnlockValueHash"@ != "rewardItemListHash"@);
    assert("resolvedBitVectorUnlockValueHash"@ != "vendorSackType"@);
    assert("resolvedBitVectorUnlockValueHash"@ != "openOnAcquire"@);
    assert("resolvedItemCountUnlockValueHash"@ != "selectItemCount"@);
    assert("resolvedItemCountUnlockValueHash"@ != "rollStateUnlockValueHash"@);
    assert("resolvedItemCountUnlockValueHash"@ != "rewardItemListHash"@);
    assert("resolvedItemCountUnlockValueHash"@ != "vendorSackType"@);
    assert("resolvedItemCountUnlockValueHash"@ != "openOnAcquire"@);
    assert("selectItemCount"@ != "rollStateUnlockValueHash"@);
    assert("selectItemCount"@ != "rewardItemListHash"@);
    assert("selectItemCount"@ != "vendorSackType"@);
    assert("selectItemCount"@ != "openOnAcquire"@);
    assert("rollStateUnlockValueHash"@ != "rewardItemListHash"@);
    assert("rollStateUnlockValueHash"@ != "vendorSackType"@);
    assert("rollStateUnlockValueHash"@ != "openOnAcquire"@);
    assert("rewardItemListHash"@ != "vendorSackType"@);
    assert("rewardItemListHash"@ != "openOnAcquire"@);
    assert("vendorSackType"@ != "openOnAcquire"@);
    lemma_lookup_at(fields, 0);
    lemma_lookup_at(fields, 1);
    lemma_lookup_at(fields, 2);
    lemma_lookup_at(fields, 3);
    lemma_lookup_at(fields, 4);
    lemma_lookup_at(fields, 5);
    lemma_lookup_at(fields, 6);
    lemma_lookup_at(fields, 7);
    lemma_lookup_at(fields, 8);
    lemma_lookup_at(fields, 9);
}

/// The wire image of this record.
pub open spec fn destiny_item_value_block_definition_json(v: DestinyItemValueBlockDefinition) -> Json {
    Json::Obj(
        seq![
            ("itemValue"@, Json::Arr(Seq::new(v.item_value@.len(), |i: int| if 0 <= i < v.item_value@.len() { destiny_item_quantity_json(v.item_value@[i]) } else { Json::Null }))),
            ("valueDescription"@, Json::Str(v.value_description@)),
        ],
    )
}

/// Whether a document decodes as this record: an object with exactly these fields.
pub open spec fn destiny_item_value_block_definition_wf(j: Json) -> bool {
    &&& j matches Json::Obj(fields)
    &&& match spec_lookup(fields, "itemValue"@) { Option::None => false, Some(Json::Arr(items)) => forall|i: int| 0 <= i < items.len() ==> destiny_item_quantity_wf(#[trigger] items[i]), _ => false }
    &&& spec_lookup(fields, "valueDescription"@) matches Some(Json::Str(_))
    &&& forall|i: int| 0 <= i < fields.len()
        ==> ((#[trigger] fields[i]).0 == "itemValue"@ || fields[i].0 == "valueDescription"@)
}

/// How a decoded record relates to the document it came from.
pub open spec fn destiny_item_value_block_definition_fields_match(fields: Seq<(Seq<char>, Json)>, w: DestinyItemValueBlockDefinition) -> bool {
    &&& match spec_lookup(fields, "itemValue"@) { Option::None => false, Some(Json::Arr(items)) => w.item_value@.len() == items.len() && (forall|i: int| 0 <= i < items.len() ==> ((#[trigger] items[i]) matches Json::Obj(f2) && destiny_item_quantity_fields_match(f2, w.item_value@[i]))), _ => false }
    &&& spec_lookup(fields, "valueDescription"@) == Some(Json::Str(w.value_description@))
}

/// What a decode failure names: its path points at a field of the
/// document that is indeed not decodable, and an undeclared
/// enumeration code is reported with the enumeration's own message.
pub open spec fn destiny_item_value_block_definition_err_ok(j: Json, e: DecodeError) -> bool {
    &&& !(j matches Json::Obj(_)) ==> e.path@.len() == 0
    &&& j matches Json::Obj(fields) ==> (
        ((e.path@ == "itemValue"@ || spec_starts_with(e.path@, "itemValue"@)) && !(match spec_lookup(fields, "itemValue"@) { Option::None => false, Some(Json::Arr(items)) => forall|i: int| 0 <= i < items.len() ==> destiny_item_quantity_wf(#[trigger] items[i]), _ => false }))
        || (e.path@ == "valueDescription"@ && !(spec_lookup(fields, "valueDescription"@) matches Some(Json::Str(_))))
        || (exists|i: int| 0 <= i < fields.len() && (#[trigger] fields[i]).0 == e.path@ && !((fields[i].0 == "itemValue"@ || fields[i].0 == "valueDescription"@))))
}

pub fn encode_destiny_item_value_block_definition(v: &DestinyItemValueBlockDefinition) -> (r: JsonValue)
    ensures
        jview(r) == destiny_item_value_block_definition_json(*v),
{
    let mut fields: Vec<(String, JsonValue)> = Vec::new();
    let arr_item_value = {
        let mut items: Vec<JsonValue> = Vec::new();
        let mut i: usize = 0;
        while i < v.item_value.len()
            invariant
                i <= v.item_value.len(),
                items@.len() == i,
                forall|k: int| 0 <= k < i ==> jview(#[trigger] items@[k]) == destiny_item_quantity_json(v.item_value@[k]),
            decreases v.item_value.len() - i,
        {
            items.push(encode_destiny_item_quantity(&v.item_value[i]));
            i = i + 1;
        }
        JsonValue::Arr(items)
    };
    proof {
        assert(jview(arr_item_value)->Arr_0 =~= destiny_item_value_block_definition_json(*v)->Obj_0[0].1->Arr_0);
    }
    fields.push(("itemValue".to_owned(), arr_item_value));
    fields.push(("valueDescription".to_owned(), JsonValue::Str(v.value_description.clone())));
    let r = JsonValue::Obj(fields);
    proof {
        assert(jview(fields@[0].1) == destiny_item_value_block_definition_json(*v)->Obj_0[0].1);
        assert(jview(fields@[1].1) == destiny_item_value_block_definition_json(*v)->Obj_0[1].1);
        assert(jview(r)->Obj_0 =~= destiny_item_value_block_definition_json(*v)->Obj_0);
    }
    r
}

/// Decodes this record; a failure names the offending field in its
/// path and says what was expected of it.
#[verifier::loop_isolation(false)]
pub fn decode_destiny_item_value_block_definition(j: &JsonValue) -> (r: Result<DestinyItemValueBlockDefinition, DecodeError>)
    ensures
        r is Ok <==> destiny_item_value_block_definition_wf(jview(*j)),
        r matches Ok(w) ==> (jview(*j) matches Json::Obj(fields)
            && destiny_item_value_block_definition_fields_match(fields, w)),
        r matches Err(e) ==> destiny_item_value_block_definition_err_ok(jview(*j), e),
{
    let fields = match j {
        JsonValue::Obj(fields) => fields,
        _ => {
            return Err(root_error("an object"));
        },
    };
    let ghost gf = jview(*j)->Obj_0;
    let item_value = match j.get("itemValue") {
        Option::None => {
            return Err(field_error("itemValue", "an array"));
        },
        Some(arr) => match arr {
            JsonValue::Arr(items) => {
                let ghost gitems = jview(*arr)->Arr_0;
                let mut out: Vec<DestinyItemQuantity> = Vec::new();
                let mut i: usize = 0;
                while i < items.len()
                    invariant
                        i <= items.len(),
                        out@.len() == i,
                        forall|k: int| 0 <= k < i
                            ==> (destiny_item_quantity_wf(#[trigger] gitems[k])
                                && (gitems[k] matches Json::Obj(f2)
                                && destiny_item_quantity_fields_match(f2, out@[k]))),
                    decreases items.len() - i,
                {
                    proof {
                        assert(gitems[i as int] == jview(items@[i as int]));
                    }
                    match decode_destiny_item_quantity(&items[i]) {
                        Ok(r) => {
                            out.push(r);
                        },
                        Err(e) => {
                            return Err(indexed_error("itemValue", i, e));
                        },
                    }
                    i = i + 1;
                }
                out
            },
            _ => {
                return Err(field_error("itemValue", "an array"));
            },
        },
    };
    let value_description = match j.get("valueDescription") {
        Some(JsonValue::Str(s)) => s.clone(),
        _ => {
            return Err(field_error("valueDescription", "a string"));
        },
    };
    let mut i: usize = 0;
    while i < fields.len()
        invariant
            i <= fields.len(),
            gf.len() == fields@.len(),
            forall|k: int| 0 <= k < gf.len()
                ==> #[trigger] gf[k] == (fields@[k].0@, jview(fields@[k].1)),
            forall|k: int| 0 <= k < i
                ==> ((#[trigger] gf[k]).0 == "itemValue"@ || gf[k].0 == "valueDescription"@),
        decreases fields.len() - i,
    {
        let name = fields[i].0.as_str();
        if !(str_eq(name, "itemValue") || str_eq(name, "valueDescription")) {
            proof {
                assert(gf[i as int].0 == fields@[i as int].0@);
                assert(!destiny_item_value_block_definition_wf(jview(*j)));
            }
            return Err(field_error(fields[i].0.as_str(), "an unknown field"));
        }
        i = i + 1;
    }
    Ok(DestinyItemValueBlockDefinition { item_value, value_description })
}

/// The wire image of a record is well formed and matched by the
/// record itself: encoding loses nothing that decoding reads.
pub proof fn lemma_destiny_item_value_block_definition_image(v: DestinyItemValueBlockDefinition)
    ensures
        destiny_item_value_block_definition_wf(destiny_item_value_block_definition_json(v)),
        destiny_item_value_block_definition_json(v) matches Json::Obj(fields) && destiny_item_value_block_definition_fields_match(fields, v),
{
    reveal_strlit("itemValue");
    reveal_strlit("valueDescription");
    let fields = destiny_item_value_block_definition_json(v)->Obj_0;
    assert("itemValue"@.len() == 9);
    assert("valueDescription"@.len() == 16);
    assert("itemValue"@ != "valueDescription"@);
    lemma_lookup_at(fields, 0);
    lemma_lookup_at(fields, 1);
    assert forall|i: int| 0 <= i < v.item_value@.len()
        implies (destiny_item_quantity_wf(#[trigger] fields[0].1->Arr_0[i])
            && (fields[0].1->Arr_0[i] matches Json::Obj(f2)
            && destiny_item_quantity_fields_match(f2, v.item_value@[i]))) by {
        assert(fields[0].1->Arr_0[i] == destiny_item_quantity_json(v.item_value@[i]));
        lemma_destiny_item_quantity_image(v.item_value@[i]);
    }
}

/// Decoding the encoded image of a record yields a record whose
/// every field carries the same content as the one encoded.
pub proof fn lemma_destiny_item_value_block_definition_round_trip(v: DestinyItemValueBlockDefinition, w: DestinyItemValueBlockDefinition)
    requires
        destiny_item_value_block_definition_json(v) matches Json::Obj(fields) && destiny_item_value_block_definition_fields_match(fields, w),
    ensures
        destiny_item_value_block_definition_wf(destiny_item_value_block_definition_json(v)),
        w.item_value@.len() == v.item_value@.len(),
        forall|i: int| 0 <= i < v.item_value@.len() ==> (destiny_item_quantity_json(v.item_value@[i]) matches Json::Obj(f2) && destiny_item_quantity_fields_match(f2, #[trigger] w.item_value@[i])),
        w.value_description@ == v.value_description@,
{
    lemma_destiny_item_value_block_definition_image(v);
    let fields = destiny_item_value_block_definition_json(v)->Obj_0;
    reveal_strlit("itemValue");
    reveal_strlit("valueDescription");
    assert("itemValue"@.len() == 9);
    assert("valueDescription"@.len() == 16);
    assert("itemValue"@ != "valueDescription"@);
    lemma_lookup_at(fields, 0);
    lemma_lookup_at(fields, 1);
    assert forall|i: int| 0 <= i < v.item_value@.len()
        implies (destiny_item_quantity_json(v.item_value@[i]) matches Json::Obj(f2)
            && destiny_item_quantity_fields_match(f2, #[trigger] w.item_value@[i])) by {
        assert(fields[0].1->Arr_0[i] == destiny_item_quantity_json(v.item_value@[i]));
        lemma_destiny_item_quantity_image(v.item_value@[i]);
    }
}

/// The wire image of this record.
pub open spec fn destiny_item_set_block_definition_json(v: DestinyItemSetBlockDefinition) -> Json {
    Json::Obj(
        seq![
            ("itemList"@, Json::Arr(Seq::new(v.item_list@.len(), |i: int| if 0 <= i < v.item_list@.len() { destiny_item_set_block_entry_definition_json(v.item_list@[i]) } else { Json::Null }))),
            ("trackingUnlockValueHash"@, Json::Int(v.tracking_unlock_value_hash as int)),
            ("abandonmentUnlockHash"@, Json::Int(v.abandonment_unlock_hash as int)),
            ("requireOrderedSetItemAdd"@, Json::Bool(v.require_ordered_set_item_add)),
            ("setIsFeatured"@, Json::Bool(v.set_is_featured)),
            ("setType"@, Json::Str(v.set_type@)),
            ("questLineName"@, Json::Str(v.quest_line_name@)),
            ("questLineDescription"@, Json::Str(v.quest_line_description@)),
            ("questStepSummary"@, Json::Str(v.quest_step_summary@)),
        ],
    )
}

/// Whether a document decodes as this record: an object with exactly these fields.
pub open spec fn destiny_item_set_block_definition_wf(j: Json) -> bool {
    &&& j matches Json::Obj(fields)
    &&& match spec_lookup(fields, "itemList"@) { Option::None => false, Some(Json::Arr(items)) => forall|i: int| 0 <= i < items.len() ==> destiny_item_set_block_entry_definition_wf(#[trigger] items[i]), _ => false }
    &&& spec_lookup(fields, "trackingUnlockValueHash"@) matches Some(Json::Int(n)) && 0 <= n <= u32::MAX as int
    &&& spec_lookup(fields, "abandonmentUnlockHash"@) matches Some(Json::Int(n)) && 0 <= n <= u32::MAX as int
    &&& spec_lookup(fields, "requireOrderedSetItemAdd"@) matches Some(Json::Bool(_))
    &&& spec_lookup(fields, "setIsFeatured"@) matches Some(Json::Bool(_))
    &&& spec_lookup(fields, "setType"@) matches Some(Json::Str(_))
    &&& spec_lookup(fields, "questLineName"@) matches Some(Json::Str(_))
    &&& spec_lookup(fields, "questLineDescription"@) matches Some(Json::Str(_))
    &&& spec_lookup(fields, "questStepSummary"@) matches Some(Json::Str(_))
    &&& forall|i: int| 0 <= i < fields.len()
        ==> ((#[trigger] fields[i]).0 == "itemList"@ || fields[i].0 == "trackingUnlockValueHash"@ || fields[i].0 == "abandonmentUnlockHash"@ || fields[i].0 == "requireOrderedSetItemAdd"@ || fields[i].0 == "setIsFeatured"@ || fields[i].0 == "setType"@ || fields[i].0 == "questLineName"@ || fields[i].0 == "questLineDescription"@ || fields[i].0 == "questStepSummary"@)
}

/// How a decoded record relates to the document it came from.
pub open spec fn destiny_item_set_block_definition_fields_match(fields: Seq<(Seq<char>, Json)>, w: DestinyItemSetBlockDefinition) -> bool {
    &&& match spec_lookup(fields, "itemList"@) { Option::None => false, Some(Json::Arr(items)) => w.item_list@.len() == items.len() && (forall|i: int| 0 <= i < items.len() ==> ((#[trigger] items[i]) matches Json::Obj(f2) && destiny_item_set_block_entry_definition_fields_match(f2, w.item_list@[i]))), _ => false }
    &&& spec_lookup(fields, "trackingUnlockValueHash"@) == Some(Json::Int(w.tracking_unlock_value_hash as int))
    &&& spec_lookup(fields, "abandonmentUnlockHash"@) == Some(Json::Int(w.abandonment_unlock_hash as int))
    &&& spec_lookup(fields, "requireOrderedSetItemAdd"@) == Some(Json::Bool(w.require_ordered_set_item_add))
    &&& spec_lookup(fields, "setIsFeatured"@) == Some(Json::Bool(w.set_is_featured))
    &&& spec_lookup(fields, "setType"@) == Some(Json::Str(w.set_type@))
    &&& spec_lookup(fields, "questLineName"@) == Some(Json::Str(w.quest_line_name@))
    &&& spec_lookup(fields, "questLineDescription"@) == Some(Json::Str(w.quest_line_description@))
    &&& spec_lookup(fields, "questStepSummary"@) == Some(Json::Str(w.quest_step_summary@))
}

/// What a decode failure names: its path points at a field of the
/// document that is indeed not decodable, and an undeclared
/// enumeration code is reported with the enumeration's own message.
pub open spec fn destiny_item_set_block_definition_err_ok(j: Json, e: DecodeError) -> bool {
    &&& !(j matches Json::Obj(_)) ==> e.path@.len() == 0
    &&& j matches Json::Obj(fields) ==> (
        ((e.path@ == "itemList"@ || spec_starts_with(e.path@, "itemList"@)) && !(match spec_lookup(fields, "itemList"@) { Option::None => false, Some(Json::Arr(items)) => forall|i: int| 0 <= i < items.len() ==> destiny_item_set_block_entry_definition_wf(#[trigger] items[i]), _ => false }))
        || (e.path@ == "trackingUnlockValueHash"@ && !(spec_lookup(fields, "trackingUnlockValueHash"@) matches Some(Json::Int(n)) && 0 <= n <= u32::MAX as int))
        || (e.path@ == "abandonmentUnlockHash"@ && !(spec_lookup(fields, "abandonmentUnlockHash"@) matches Some(Json::Int(n)) && 0 <= n <= u32::MAX as int))
        || (e.path@ == "requireOrderedSetItemAdd"@ && !(spec_lookup(fields, "requireOrderedSetItemAdd"@) matches Some(Json::Bool(_))))
        || (e.path@ == "setIsFeatured"@ && !(spec_lookup(fields, "setIsFeatured"@) matches Some(Json::Bool(_))))
        || (e.path@ == "setType"@ && !(spec_lookup(fields, "setType"@) matches Some(Json::Str(_))))
        || (e.path@ == "questLineName"@ && !(spec_lookup(fields, "questLineName"@) matches Some(Json::Str(_))))
        || (e.path@ == "questLineDescription"@ && !(spec_lookup(fields, "questLineDescription"@) matches Some(Json::Str(_))))
        || (e.path@ == "questStepSummary"@ && !(spec_lookup(fields, "questStepSummary"@) matches Some(Json::Str(_))))
        || (exists|i: int| 0 <= i < fields.len() && (#[trigger] fields[i]).0 == e.path@ && !((fields[i].0 == "itemList"@ || fields[i].0 == "trackingUnlockValueHash"@ || fields[i].0 == "abandonmentUnlockHash"@ || fields[i].0 == "requireOrderedSetItemAdd"@ || fields[i].0 == "setIsFeatured"@ || fields[i].0 == "setType"@ || fields[i].0 == "questLineName"@ || fields[i].0 == "questLineDescription"@ || fields[i].0 == "questStepSummary"@))))
}

pub fn encode_destiny_item_set_block_definition(v: &DestinyItemSetBlockDefinition) -> (r: JsonValue)
    ensures
        jview(r) == destiny_item_set_block_definition_json(*v),
{
    let mut fields: Vec<(String, JsonValue)> = Vec::new();
    let arr_item_list = {
        let mut items: Vec<JsonValue> = Vec::new();
        let mut i: usize = 0;
        while i < v.item_list.len()
            invariant
                i <= v.item_list.len(),
                items@.len() == i,
                forall|k: int| 0 <= k < i ==> jview(#[trigger] items@[k]) == destiny_item_set_block_entry_definition_json(v.item_list@[k]),
            decreases v.item_list.len() - i,
        {
            items.push(encode_destiny_item_set_block_entry_definition(&v.item_list[i]));
            i = i + 1;
        }
        JsonValue::Arr(items)
    };
    proof {
        assert(jview(arr_item_list)->Arr_0 =~= destiny_item_set_block_definition_json(*v)->Obj_0[0].1->Arr_0);
    }
    fields.push(("itemList".to_owned(), arr_item_list));
    fields.push(("trackingUnlockValueHash".to_owned(), JsonValue::Int(v.tracking_unlock_value_hash as i64)));
    fields.push(("abandonmentUnlockHash".to_owned(), JsonValue::Int(v.abandonment_unlock_hash as i64)));
    fields.push(("requireOrderedSetItemAdd".to_owned(), JsonValue::Bool(v.require_ordered_set_item_add)));
    fields.push(("setIsFeatured".to_owned(), JsonValue::Bool(v.set_is_featured)));
    fields.push(("setType".to_owned(), JsonValue::Str(v.set_type.clone())));
    fields.push(("questLineName".to_owned(), JsonValue::Str(v.quest_line_name.clone())));
    fields.push(("questLineDescription".to_owned(), JsonValue::Str(v.quest_line_description.clone())));
    fields.push(("questStepSummary".to_owned(), JsonValue::Str(v.quest_step_summary.clone())));
    let r = JsonValue::Obj(fields);
    proof {
        assert(jview(fields@[0].1) == destiny_item_set_block_definition_json(*v)->Obj_0[0].1);
        assert(jview(fields@[1].1) == destiny_item_set_block_definition_json(*v)->Obj_0[1].1);
        assert(jview(fields@[2].1) == destiny_item_set_block_definition_json(*v)->Obj_0[2].1);
        assert(jview(fields@[3].1) == destiny_item_set_block_definition_json(*v)->Obj_0[3].1);
        assert(jview(fields@[4].1) == destiny_item_set_block_definition_json(*v)->Obj_0[4].1);
        assert(jview(fields@[5].1) == destiny_item_set_block_definition_json(*v)->Obj_0[5].1);
        assert(jview(fields@[6].1) == destiny_item_set_block_definition_json(*v)->Obj_0[6].1);
        assert(jview(fields@[7].1) == destiny_item_set_block_definition_json(*v)->Obj_0[7].1);
        assert(jview(fields@[8].1) == destiny_item_set_block_definition_json(*v)->Obj_0[8].1);
        assert(jview(r)->Obj_0 =~= destiny_item_set_block_definition_json(*v)->Obj_0);
    }
    r
}

/// Decodes this record; a failure names the offending field in its
/// path and says what was expected of it.
#[verifier::loop_isolation(false)]
pub fn decode_destiny_item_set_block_definition(j: &JsonValue) -> (r: Result<DestinyItemSetBlockDefinition, DecodeError>)
    ensures
        r is Ok <==> destiny_item_set_block_definition_wf(jview(*j)),
        r matches Ok(w) ==> (jview(*j) matches Json::Obj(fields)
            && destiny_item_set_block_definition_fields_match(fields, w)),
        r matches Err(e) ==> destiny_item_set_block_definition_err_ok(jview(*j), e),
{
    let fields = match j {
        JsonValue::Obj(fields) => fields,
        _ => {
            return Err(root_error("an object"));
        },
    };
    let ghost gf = jview(*j)->Obj_0;
    let item_list = match j.get("itemList") {
        Option::None => {
            return Err(field_error("itemList", "an array"));
        },
        Some(arr) => match arr {
            JsonValue::Arr(items) => {
                let ghost gitems = jview(*arr)->Arr_0;
                let mut out: Vec<DestinyItemSetBlockEntryDefinition> = Vec::new();
                let mut i: usize = 0;
                while i < items.len()
                    invariant
                        i <= items.len(),
                        out@.len() == i,
                        forall|k: int| 0 <= k < i
                            ==> (destiny_item_set_block_entry_definition_wf(#[trigger] gitems[k])
                                && (gitems[k] matches Json::Obj(f2)
                                && destiny_item_set_block_entry_definition_fields_match(f2, out@[k]))),
                    decreases items.len() - i,
                {
                    proof {
                        assert(gitems[i as int] == jview(items@[i as int]));
                    }
                    match decode_destiny_item_set_block_entry_definition(&items[i]) {
                        Ok(r) => {
                            out.push(r);
                        },
                        Err(e) => {
                            return Err(indexed_error("itemList", i, e));
                        },
                    }
                    i = i + 1;
                }
                out
            },
            _ => {
                return Err(field_error("itemList", "an array"));
            },
        },
    };
    let tracking_unlock_value_hash = match j.get("trackingUnlockValueHash") {
        Some(v) => match v.to_i64() {
            Some(n) if 0 <= n && n <= u32::MAX as i64 => n as u32,
            _ => {
                return Err(field_error("trackingUnlockValueHash", "a 32-bit unsigned integer"));
            },
        },
        _ => {
            return Err(field_error("trackingUnlockValueHash", "a 32-bit unsigned integer"));
        },
    };
    let abandonment_unlock_hash = match j.get("abandonmentUnlockHash") {
        Some(v) => match v.to_i64() {
            Some(n) if 0 <= n && n <= u32::MAX as i64 => n as u32,
            _ => {
                return Err(field_error("abandonmentUnlockHash", "a 32-bit unsigned integer"));
            },
        },
        _ => {
            return Err(field_error("abandonmentUnlockHash", "a 32-bit unsigned integer"));
        },
    };
    let require_ordered_set_item_add = match j.get("requireOrderedSetItemAdd") {
        Some(JsonValue::Bool(b)) => *b,
        _ => {
            return Err(field_error("requireOrderedSetItemAdd", "a boolean"));
        },
    };
    let set_is_featured = match j.get("setIsFeatured") {
        Some(JsonValue::Bool(b)) => *b,
        _ => {
            return Err(field_error("setIsFeatured", "a boolean"));
        },
    };
    let set_type = match j.get("setType") {
        Some(JsonValue::Str(s)) => s.clone(),
        _ => {
            return Err(field_error("setType", "a string"));
        },
    };
    let quest_line_name = match j.get("questLineName") {
        Some(JsonValue::Str(s)) => s.clone(),
        _ => {
            return Err(field_error("questLineName", "a string"));
        },
    };
    let quest_line_description = match j.get("questLineDescription") {
        Some(JsonValue::Str(s)) => s.clone(),
        _ => {
            return Err(field_error("questLineDescription", "a string"));
        },
    };
    let quest_step_summary = match j.get("questStepSummary") {
        Some(JsonValue::Str(s)) => s.clone(),
        _ => {
            return Err(field_error("questStepSummary", "a string"));
        },
    };
    let mut i: usize = 0;
    while i < fields.len()
        invariant
            i <= fields.len(),
            gf.len() == fields@.len(),
            forall|k: int| 0 <= k < gf.len()
                ==> #[trigger] gf[k] == (fields@[k].0@, jview(fields@[k].1)),
            forall|k: int| 0 <= k < i
                ==> ((#[trigger] gf[k]).0 == "itemList"@ || gf[k].0 == "trackingUnlockValueHash"@ || gf[k].0 == "abandonmentUnlockHash"@ || gf[k].0 == "requireOrderedSetItemAdd"@ || gf[k].0 == "setIsFeatured"@ || gf[k].0 == "setType"@ || gf[k].0 == "questLineName"@ || gf[k].0 == "questLineDescription"@ || gf[k].0 == "questStepSummary"@),
        decreases fields.len() - i,
    {
        let name = fields[i].0.as_str();
        if !(str_eq(name, "itemList") || str_eq(name, "trackingUnlockValueHash") || str_eq(name, "abandonmentUnlockHash") || str_eq(name, "requireOrderedSetItemAdd") || str_eq(name, "setIsFeatured") || str_eq(name, "setType") || str_eq(name, "questLineName") || str_eq(name, "questLineDescription") || str_eq(name, "questStepSummary")) {
            proof {
                assert(gf[i as int].0 == fields@[i as int].0@);
                assert(!destiny_item_set_block_definition_wf(jview(*j)));
            }
            return Err(field_error(fields[i].0.as_str(), "an unknown field"));
        }
        i = i + 1;
    }
    Ok(DestinyItemSetBlockDefinition { item_list, tracking_unlock_value_hash, abandonment_unlock_hash, require_ordered_set_item_add, set_is_featured, set_type, quest_line_name, quest_line_description, quest_step_summary })
}

/// The wire image of a record is well formed and matched by the
/// record itself: encoding loses nothing that decoding reads.
pub proof fn lemma_destiny_item_set_block_definition_image(v: DestinyItemSetBlockDefinition)
    ensures
        destiny_item_set_block_definition_wf(destiny_item_set_block_definition_json(v)),
        destiny_item_set_block_definition_json(v) matches Json::Obj(fields) && destiny_item_set_block_definition_fields_match(fields, v),
{
    reveal_strlit("itemList");
    reveal_strlit("trackingUnlockValueHash");
    reveal_strlit("abandonmentUnlockHash");
    reveal_strlit("requireOrderedSetItemAdd");
    reveal_strlit("setIsFeatured");
    reveal_strlit("setType");
    reveal_strlit("questLineName");
    reveal_strlit("questLineDescription");
    reveal_strlit("questStepSummary");
    let fields = destiny_item_set_block_definition_json(v)->Obj_0;
    assert("itemList"@.len() == 8);
    assert("trackingUnlockValueHash"@.len() == 23);
    assert("abandonmentUnlockHash"@.len() == 21);
    assert("requireOrderedSetItemAdd"@.len() == 24);
    assert("setIsFeatured"@.len() == 13);
    assert("setType"@.len() == 7);
    assert("questLineName"@.len() == 13);
    assert("questLineDescription"@.len() == 20);
    assert("questStepSummary"@.len() == 16);
    assert("itemList"@ != "trackingUnlockValueHash"@);
    assert("itemList"@ != "abandonmentUnlockHash"@);
    assert("itemList"@ != "requireOrderedSetItemAdd"@);
    assert("itemList"@ != "setIsFeatured"@);
    assert("itemList"@ != "setType"@);
    assert("itemList"@ != "questLineName"@);
    assert("itemList"@ != "questLineDescription"@);
    assert("itemList"@ != "questStepSummary"@);
    assert("trackingUnlockValueHash"@ != "abandonmentUnlockHash"@);
    assert("trackingUnlockValueHash"@ != "requireOrderedSetItemAdd"@);
    assert("trackingUnlockValueHash"@ != "setIsFeatured"@);
    assert("trackingUnlockValueHash"@ != "setType"@);
    assert("trackingUnlockValueHash"@ != "questLineName"@);
    assert("trackingUnlockValueHash"@ != "questLineDescription"@);
    assert("trackingUnlockValueHash"@ != "questStepSummary"@);
    assert("abandonmentUnlockHash"@ != "requireOrderedSetItemAdd"@);
    assert("abandonmentUnlockHash"@ != "setIsFeatured"@);
    assert("abandonmentUnlockHash"@ != "setType"@);
    assert("abandonmentUnlockHash"@ != "questLineName"@);
    assert("abandonmentUnlockHash"@ != "questLineDescription"@);
    assert("abandonmentUnlockHash"@ != "questStepSummary"@);
    assert("requireOrderedSetItemAdd"@ != "setIsFeatured"@);
    assert("requireOrderedSetItemAdd"@ != "setType"@);
    assert("requireOrderedSetItemAdd"@ != "questLineName"@);
    assert("requireOrderedSetItemAdd"@ != "questLineDescription"@);
    assert("requireOrderedSetItemAdd"@ != "questStepSummary"@);
    assert("setIsFeatured"@ != "setType"@);
    assert(("setIsFeatured"@)[0] != ("questLineName"@)[0]);
    assert("setIsFeatured"@ != "questLineName"@);
    assert("setIsFeatured"@ != "questLineDescription"@);
    assert("setIsFeatured"@ != "questStepSummary"@);
    assert("setType"@ != "questLineName"@);
    assert("setType"@ != "questLineDescription"@);
    assert("setType"@ != "questStepSummary"@);
    assert("questLineName"@ != "questLineDescription"@);
    assert("questLineName"@ != "questStepSummary"@);
    assert("questLineDescription"@ != "questStepSummary"@);
    lemma_lookup_at(fields, 0);
    lemma_lookup_at(fields, 1);
    lemma_lookup_at(fields, 2);
    lemma_lookup_at(fields, 3);
    lemma_lookup_at(fields, 4);
    lemma_lookup_at(fields, 5);
    lemma_lookup_at(fields, 6);
    lemma_lookup_at(fields, 7);
    lemma_lookup_at(fields, 8);
    assert forall|i: int| 0 <= i < v.item_list@.len()
        implies (destiny_item_set_block_entry_definition_wf(#[trigger] fields[0].1->Arr_0[i])
            && (fields[0].1->Arr_0[i] matches Json::Obj(f2)
            && destiny_item_set_block_entry_definition_fields_match(f2, v.item_list@[i]))) by {
        assert(fields[0].1->Arr_0[i] == destiny_item_set_block_entry_definition_json(v.item_list@[i]));
        lemma_destiny_item_set_block_entry_definition_image(v.item_list@[i]);
    }
}

/// Decoding the encoded image of a record yields a record whose
/// every field carries the same content as the one encoded.
pub proof fn lemma_destiny_item_set_block_definition_round_trip(v: DestinyItemSetBlockDefinition, w: DestinyItemSetBlockDefinition)
    requires
        destiny_item_set_block_definition_json(v) matches Json::Obj(fields) && destiny_item_set_block_definition_fields_match(fields, w),
    ensures
        destiny_item_set_block_definition_wf(destiny_item_set_block_definition_json(v)),
        w.item_list@.len() == v.item_list@.len(),
        forall|i: int| 0 <= i < v.item_list@.len() ==> (destiny_item_set_block_entry_definition_json(v.item_list@[i]) matches Json::Obj(f2) && destiny_item_set_block_entry_definition_fields_match(f2, #[trigger] w.item_list@[i])),
        w.tracking_unlock_value_hash == v.tracking_unlock_value_hash,
        w.abandonment_unlock_hash == v.abandonment_unlock_hash,
        w.require_ordered_set_item_add == v.require_ordered_set_item_add,
        w.set_is_featured == v.set_is_featured,
        w.set_type@ == v.set_type@,
        w.quest_line_name@ == v.quest_line_name@,
        w.quest_line_description@ == v.quest_line_description@,
        w.quest_step_summary@ == v.quest_step_summary@,
{
    lemma_destiny_item_set_block_definition_image(v);
    let fields = destiny_item_set_block_definition_json(v)->Obj_0;
    reveal_strlit("itemList");
    reveal_strlit("trackingUnlockValueHash");
    reveal_strlit("abandonmentUnlockHash");
    reveal_strlit("requireOrderedSetItemAdd");
    reveal_strlit("setIsFeatured");
    reveal_strlit("setType");
    reveal_strlit("questLineName");
    reveal_strlit("questLineDescription");
    reveal_strlit("questStepSummary");
    assert("itemList"@.len() == 8);
    assert("trackingUnlockValueHash"@.len() == 23);
    assert("abandonmentUnlockHash"@.len() == 21);
    assert("requireOrderedSetItemAdd"@.len() == 24);
    assert("setIsFeatured"@.len() == 13);
    assert("setType"@.len() == 7);
    assert("questLineName"@.len() == 13);
    assert("questLineDescription"@.len() == 20);
    assert("questStepSummary"@.len() == 16);
    assert("itemList"@ != "trackingUnlockValueHash"@);
    assert("itemList"@ != "abandonmentUnlockHash"@);
    assert("itemList"@ != "requireOrderedSetItemAdd"@);
    assert("itemList"@ != "setIsFeatured"@);
    assert("itemList"@ != "setType"@);
    assert("itemList"@ != "questLineName"@);
    assert("itemList"@ != "questLineDescription"@);
    assert("itemList"@ != "questStepSummary"@);
    assert("trackingUnlockValueHash"@ != "abandonmentUnlockHash"@);
    assert("trackingUnlockValueHash"@ != "requireOrderedSetItemAdd"@);
    assert("trackingUnlockValueHash"@ != "setIsFeatured"@);
    assert("trackingUnlockValueHash"@ != "setType"@);
    assert("trackingUnlockValueHash"@ != "questLineName"@);
    assert("trackingUnlockValueHash"@ != "questLineDescription"@);
    assert("trackingUnlockValueHash"@ != "questStepSummary"@);
    assert("abandonmentUnlockHash"@ != "requireOrderedSetItemAdd"@);
    assert("abandonmentUnlockHash"@ != "setIsFeatured"@);
    assert("abandonmentUnlockHash"@ != "setType"@);
    assert("abandonmentUnlockHash"@ != "questLineName"@);
    assert("abandonmentUnlockHash"@ != "questLineDescription"@);
    assert("abandonmentUnlockHash"@ != "questStepSummary"@);
    assert("requireOrderedSetItemAdd"@ != "setIsFeatured"@);
    assert("requireOrderedSetItemAdd"@ != "setType"@);
    assert("requireOrderedSetItemAdd"@ != "questLineName"@);
    assert("requireOrderedSetItemAdd"@ != "questLineDescription"@);
    assert("requireOrderedSetItemAdd"@ != "questStepSummary"@);
    assert("setIsFeatured"@ != "setType"@);
    assert(("setIsFeatured"@)[0] != ("questLineName"@)[0]);
    assert("setIsFeatured"@ != "questLineName"@);
    assert("setIsFeatured"@ != "questLineDescription"@);
    assert("setIsFeatured"@ != "questStepSummary"@);
    assert("setType"@ != "questLineName"@);
    assert("setType"@ != "questLineDescription"@);
    assert("setType"@ != "questStepSummary"@);
    assert("questLineName"@ != "questLineDescription"@);
    assert("questLineName"@ != "questStepSummary"@);
    assert("questLineDescription"@ != "questStepSummary"@);
    lemma_lookup_at(fields, 0);
    lemma_lookup_at(fields, 1);
    lemma_lookup_at(fields, 2);
    lemma_lookup_at(fields, 3);
    lemma_lookup_at(fields, 4);
    lemma_lookup_at(fields, 5);
    lemma_lookup_at(fields, 6);
    lemma_lookup_at(fields, 7);
    lemma_lookup_at(fields, 8);
    assert forall|i: int| 0 <= i < v.item_list@.len()
        implies (destiny_item_set_block_entry_definition_json(v.item_list@[i]) matches Json::Obj(f2)
            && destiny_item_set_block_entry_definition_fields_match(f2, #[trigger] w.item_list@[i])) by {
        assert(fields[0].1->Arr_0[i] == destiny_item_set_block_entry_definition_json(v.item_list@[i]));
        lemma_destiny_item_set_block_entry_definition_image(v.item_list@[i]);
    }
}

/// The wire image of this record.
pub open spec fn destiny_item_preview_block_definition_json(v: DestinyItemPreviewBlockDefinition) -> Json {
    Json::Obj(
        seq![
            ("screenStyle"@, Json::Str(v.screen_style@)),
            ("previewVendorHash"@, Json::Int(v.preview_vendor_hash as int)),
            ("artifactHash"@, (match v.artifact_hash { Some(x) => Json::Int(x as int), Option::None => Json::Null })),
            ("previewActionString"@, Json::Str(v.preview_action_string@)),
            ("derivedItemCategories"@, Json::Arr(Seq::new(v.derived_item_categories@.len(), |i: int| if 0 <= i < v.derived_item_categories@.len() { destiny_derived_item_category_definition_json(v.derived_item_categories@[i]) } else { Json::Null }))),
        ],
    )
}

/// Whether a document decodes as this record: an object with exactly these fields.
pub open spec fn destiny_item_preview_block_definition_wf(j: Json) -> bool {
    &&& j matches Json::Obj(fields)
    &&& spec_lookup(fields, "screenStyle"@) matches Some(Json::Str(_))
    &&& spec_lookup(fields, "previewVendorHash"@) matches Some(Json::Int(n)) && 0 <= n <= u32::MAX as int
    &&& match spec_lookup(fields, "artifactHash"@) { Option::None => true, Some(Json::Null) => true, Some(Json::Int(n)) => 0 <= n <= u32::MAX as int, _ => false }
    &&& spec_lookup(fields, "previewActionString"@) matches Some(Json::Str(_))
    &&& match spec_lookup(fields, "derivedItemCategories"@) { Option::None => true, Some(Json::Arr(items)) => forall|i: int| 0 <= i < items.len() ==> destiny_derived_item_category_definition_wf(#[trigger] items[i]), _ => false }
    &&& forall|i: int| 0 <= i < fields.len()
        ==> ((#[trigger] fields[i]).0 == "screenStyle"@ || fields[i].0 == "previewVendorHash"@ || fields[i].0 == "artifactHash"@ || fields[i].0 == "previewActionString"@ || fields[i].0 == "derivedItemCategories"@)
}

/// How a decoded record relates to the document it came from.
pub open spec fn destiny_item_preview_block_definition_fields_match(fields: Seq<(Seq<char>, Json)>, w: DestinyItemPreviewBlockDefinition) -> bool {
    &&& spec_lookup(fields, "screenStyle"@) == Some(Json::Str(w.screen_style@))
    &&& spec_lookup(fields, "previewVendorHash"@) == Some(Json::Int(w.preview_vendor_hash as int))
    &&& match w.artifact_hash { Some(x) => spec_lookup(fields, "artifactHash"@) == Some(Json::Int(x as int)), Option::None => spec_lookup(fields, "artifactHash"@) is None || spec_lookup(fields, "artifactHash"@) == Some(Json::Null) }
    &&& spec_lookup(fields, "previewActionString"@) == Some(Json::Str(w.preview_action_string@))
    &&& match spec_lookup(fields, "derivedItemCategories"@) { Option::None => w.derived_item_categories@.len() == 0, Some(Json::Arr(items)) => w.derived_item_categories@.len() == items.len() && (forall|i: int| 0 <= i < items.len() ==> ((#[trigger] items[i]) matches Json::Obj(f2) && destiny_derived_item_category_definition_fields_match(f2, w.derived_item_categories@[i]))), _ => false }
}

/// What a decode failure names: its path points at a field of the
/// document that is indeed not decodable, and an undeclared
/// enumeration code is reported with the enumeration's own message.
pub open spec fn destiny_item_preview_block_definition_err_ok(j: Json, e: DecodeError) -> bool {
    &&& !(j matches Json::Obj(_)) ==> e.path@.len() == 0
    &&& j matches Json::Obj(fields) ==> (
        (e.path@ == "screenStyle"@ && !(spec_lookup(fields, "screenStyle"@) matches Some(Json::Str(_))))
        || (e.path@ == "previewVendorHash"@ && !(spec_lookup(fields, "previewVendorHash"@) matches Some(Json::Int(n)) && 0 <= n <= u32::MAX as int))
        || (e.path@ == "artifactHash"@ && !(match spec_lookup(fields, "artifactHash"@) { Option::None => true, Some(Json::Null) => true, Some(Json::Int(n)) => 0 <= n <= u32::MAX as int, _ => false }))
        || (e.path@ == "previewActionString"@ && !(spec_lookup(fields, "previewActionString"@) matches Some(Json::Str(_))))
        || ((e.path@ == "derivedItemCategories"@ || spec_starts_with(e.path@, "derivedItemCategories"@)) && !(match spec_lookup(fields, "derivedItemCategories"@) { Option::None => true, Some(Json::Arr(items)) => forall|i: int| 0 <= i < items.len() ==> destiny_derived_item_category_definition_wf(#[trigger] items[i]), _ => false }))
        || (exists|i: int| 0 <= i < fields.len() && (#[trigger] fields[i]).0 == e.path@ && !((fields[i].0 == "screenStyle"@ || fields[i].0 == "previewVendorHash"@ || fields[i].0 == "artifactHash"@ || fields[i].0 == "previewActionString"@ || fields[i].0 == "derivedItemCategories"@))))
}

pub fn encode_destiny_item_preview_block_definition(v: &DestinyItemPreviewBlockDefinition) -> (r: JsonValue)
    ensures
        jview(r) == destiny_item_preview_block_definition_json(*v),
{
    let mut fields: Vec<(String, JsonValue)> = Vec::new();
    fields.push(("screenStyle".to_owned(), JsonValue::Str(v.screen_style.clone())));
    fields.push(("previewVendorHash".to_owned(), JsonValue::Int(v.preview_vendor_hash as i64)));
    fields.push(("artifactHash".to_owned(), match &v.artifact_hash {
        Some(x) => JsonValue::Int(*x as i64),
        Option::None => JsonValue::Null,
    }));
    fields.push(("previewActionString".to_owned(), JsonValue::Str(v.preview_action_string.clone())));
    let arr_derived_item_categories = {
        let mut items: Vec<JsonValue> = Vec::new();
        let mut i: usize = 0;
        while i < v.derived_item_categories.len()
            invariant
                i <= v.derived_item_categories.len(),
                items@.len() == i,
                forall|k: int| 0 <= k < i ==> jview(#[trigger] items@[k]) == destiny_derived_item_category_definition_json(v.derived_item_categories@[k]),
            decreases v.derived_item_categories.len() - i,
        {
            items.push(encode_destiny_derived_item_category_definition(&v.derived_item_categories[i]));
            i = i + 1;
        }
        JsonValue::Arr(items)
    };
    proof {
        assert(jview(arr_derived_item_categories)->Arr_0 =~= destiny_item_preview_block_definition_json(*v)->Obj_0[4].1->Arr_0);
    }
    fields.push(("derivedItemCategories".to_owned(), arr_derived_item_categories));
    let r = JsonValue::Obj(fields);
    proof {
        assert(jview(fields@[0].1) == destiny_item_preview_block_definition_json(*v)->Obj_0[0].1);
        assert(jview(fields@[1].1) == destiny_item_preview_block_definition_json(*v)->Obj_0[1].1);
        assert(jview(fields@[2].1) == destiny_item_preview_block_definition_json(*v)->Obj_0[2].1);
        assert(jview(fields@[3].1) == destiny_item_preview_block_definition_json(*v)->Obj_0[3].1);
        assert(jview(fields@[4].1) == destiny_item_preview_block_definition_json(*v)->Obj_0[4].1);
        assert(jview(r)->Obj_0 =~= destiny_item_preview_block_definition_json(*v)->Obj_0);
    }
    r
}

/// Decodes this record; a failure names the offending field in its
/// path and says what was expected of it.
#[verifier::loop_isolation(false)]
pub fn decode_destiny_item_preview_block_definition(j: &JsonValue) -> (r: Result<DestinyItemPreviewBlockDefinition, DecodeError>)
    ensures
        r is Ok <==> destiny_item_preview_block_definition_wf(jview(*j)),
        r matches Ok(w) ==> (jview(*j) matches Json::Obj(fields)
            && destiny_item_preview_block_definition_fields_match(fields, w)),
        r matches Err(e) ==> destiny_item_preview_block_definition_err_ok(jview(*j), e),
{
    let fields = match j {
        JsonValue::Obj(fields) => fields,
        _ => {
            return Err(root_error("an object"));
        },
    };
    let ghost gf = jview(*j)->Obj_0;
    let screen_style = match j.get("screenStyle") {
        Some(JsonValue::Str(s)) => s.clone(),
        _ => {
            return Err(field_error("screenStyle", "a string"));
        },
    };
    let preview_vendor_hash = match j.get("previewVendorHash") {
        Some(v) => match v.to_i64() {
            Some(n) if 0 <= n && n <= u32::MAX as i64 => n as u32,
            _ => {
                return Err(field_error("previewVendorHash", "a 32-bit unsigned integer"));
            },
        },
        _ => {
            return Err(field_error("previewVendorHash", "a 32-bit unsigned integer"));
        },
    };
    let artifact_hash = match j.get("artifactHash") {
        Option::None => Option::None,
        Some(JsonValue::Null) => Option::None,
        Some(v) => match v.to_i64() {
            Some(n) if 0 <= n && n <= u32::MAX as i64 => Some(n as u32),
            _ => {
                return Err(field_error("artifactHash", "a 32-bit unsigned integer or null"));
            },
        },
    };
    let preview_action_string = match j.get("previewActionString") {
        Some(JsonValue::Str(s)) => s.clone(),
        _ => {
            return Err(field_error("previewActionString", "a string"));
        },
    };
    let derived_item_categories = match j.get("derivedItemCategories") {
        Option::None => Vec::new(),
        Some(arr) => match arr {
            JsonValue::Arr(items) => {
                let ghost gitems = jview(*arr)->Arr_0;
                let mut out: Vec<DestinyDerivedItemCategoryDefinition> = Vec::new();
                let mut i: usize = 0;
                while i < items.len()
                    invariant
                        i <= items.len(),
                        out@.len() == i,
                        forall|k: int| 0 <= k < i
                            ==> (destiny_derived_item_category_definition_wf(#[trigger] gitems[k])
                                && (gitems[k] matches Json::Obj(f2)
                                && destiny_derived_item_category_definition_fields_match(f2, out@[k]))),
                    decreases items.len() - i,
                {
                    proof {
                        assert(gitems[i as int] == jview(items@[i as int]));
                    }
                    match decode_destiny_derived_item_category_definition(&items[i]) {
                        Ok(r) => {
                            out.push(r);
                        },
                        Err(e) => {
                            return Err(indexed_error("derivedItemCategories", i, e));
                        },
                    }
                    i = i + 1;
                }
                out
            },
            _ => {
                return Err(field_error("derivedItemCategories", "an array"));
            },
        },
    };
    let mut i: usize = 0;
    while i < fields.len()
        invariant
            i <= fields.len(),
            gf.len() == fields@.len(),
            forall|k: int| 0 <= k < gf.len()
                ==> #[trigger] gf[k] == (fields@[k].0@, jview(fields@[k].1)),
            forall|k: int| 0 <= k < i
                ==> ((#[trigger] gf[k]).0 == "screenStyle"@ || gf[k].0 == "previewVendorHash"@ || gf[k].0 == "artifactHash"@ || gf[k].0 == "previewActionString"@ || gf[k].0 == "derivedItemCategories"@),
        decreases fields.len() - i,
    {
        let name = fields[i].0.as_str();
        if !(str_eq(name, "screenStyle") || str_eq(name, "previewVendorHash") || str_eq(name, "artifactHash") || str_eq(name, "previewActionString") || str_eq(name, "derivedItemCategories")) {
            proof {
                assert(gf[i as int].0 == fields@[i as int].0@);
                assert(!destiny_item_preview_block_definition_wf(jview(*j)));
            }
            return Err(field_error(fields[i].0.as_str(), "an unknown field"));
        }
        i = i + 1;
    }
    Ok(DestinyItemPreviewBlockDefinition { screen_style, preview_vendor_hash, artifact_hash, preview_action_string, derived_item_categories })
}

/// The wire image of a record is well formed and matched by the
/// record itself: encoding loses nothing that decoding reads.
pub proof fn lemma_destiny_item_preview_block_definition_image(v: DestinyItemPreviewBlockDefinition)
    ensures
        destiny_item_preview_block_definition_wf(destiny_item_preview_block_definition_json(v)),
        destiny_item_preview_block_definition_json(v) matches Json::Obj(fields) && destiny_item_preview_block_definition_fields_match(fields, v),
{
    reveal_strlit("screenStyle");
    reveal_strlit("previewVendorHash");
    reveal_strlit("artifactHash");
    reveal_strlit("previewActionString");
    reveal_strlit("derivedItemCategories");
    let fields = destiny_item_preview_block_definition_json(v)->Obj_0;
    assert("screenStyle"@.len() == 11);
    assert("previewVendorHash"@.len() == 17);
    assert("artifactHash"@.len() == 12);
    assert("previewActionString"@.len() == 19);
    assert("derivedItemCategories"@.len() == 21);
    assert("screenStyle"@ != "previewVendorHash"@);
    assert("screenStyle"@ != "artifactHash"@);
    assert("screenStyle"@ != "previewActionString"@);
    assert("screenStyle"@ != "derivedItemCategories"@);
    assert("previewVendorHash"@ != "artifactHash"@);
    assert("previewVendorHash"@ != "previewActionString"@);
    assert("previewVendorHash"@ != "derivedItemCategories"@);
    assert("artifactHash"@ != "previewActionString"@);
    assert("artifactHash"@ != "derivedItemCategories"@);
    assert("previewActionString"@ != "derivedItemCategories"@);
    lemma_lookup_at(fields, 0);
    lemma_lookup_at(fields, 1);
    lemma_lookup_at(fields, 2);
    lemma_lookup_at(fields, 3);
    lemma_lookup_at(fields, 4);
    assert forall|i: int| 0 <= i < v.derived_item_categories@.len()
        implies (destiny_derived_item_category_definition_wf(#[trigger] fields[4].1->Arr_0[i])
            && (fields[4].1->Arr_0[i] matches Json::Obj(f2)
            && destiny_derived_item_category_definition_fields_match(f2, v.derived_item_categories@[i]))) by {
        assert(fields[4].1->Arr_0[i] == destiny_derived_item_category_definition_json(v.derived_item_categories@[i]));
        lemma_destiny_derived_item_category_definition_image(v.derived_item_categories@[i]);
    }
}

/// Decoding the encoded image of a record yields a record whose
/// every field carries the same content as the one encoded.
pub proof fn lemma_destiny_item_preview_block_definition_round_trip(v: DestinyItemPreviewBlockDefinition, w: DestinyItemPreviewBlockDefinition)
    requires
        destiny_item_preview_block_definition_json(v) matches Json::Obj(fields) && destiny_item_preview_block_definition_fields_match(fields, w),
    ensures
        destiny_item_preview_block_definition_wf(destiny_item_preview_block_definition_json(v)),
        w.screen_style@ == v.screen_style@,
        w.preview_vendor_hash == v.preview_vendor_hash,
        w.artifact_hash == v.artifact_hash,
        w.preview_action_string@ == v.preview_action_string@,
        w.derived_item_categories@.len() == v.derived_item_categories@.len(),
        forall|i: int| 0 <= i < v.derived_item_categories@.len() ==> (destiny_derived_item_category_definition_json(v.derived_item_categories@[i]) matches Json::Obj(f2) && destiny_derived_item_category_definition_fields_match(f2, #[trigger] w.derived_item_categories@[i])),
{
    lemma_destiny_item_preview_block_definition_image(v);
    let fields = destiny_item_preview_block_definition_json(v)->Obj_0;
    reveal_strlit("screenStyle");
    reveal_strlit("previewVendorHash");
    reveal_strlit("artifactHash");
    reveal_strlit("previewActionString");
    reveal_strlit("derivedItemCategories");
    assert("screenStyle"@.len() == 11);
    assert("previewVendorHash"@.len() == 17);
    assert("artifactHash"@.len() == 12);
    assert("previewActionString"@.len() == 19);
    assert("derivedItemCategories"@.len() == 21);
    assert("screenStyle"@ != "previewVendorHash"@);
    assert("screenStyle"@ != "artifactHash"@);
    assert("screenStyle"@ != "previewActionString"@);
    assert("screenStyle"@ != "derivedItemCategories"@);
    assert("previewVendorHash"@ != "artifactHash"@);
    assert("previewVendorHash"@ != "previewActionString"@);
    assert("previewVendorHash"@ != "derivedItemCategories"@);
    assert("artifactHash"@ != "previewActionString"@);
    assert("artifactHash"@ != "derivedItemCategories"@);
    assert("previewActionString"@ != "derivedItemCategories"@);
    lemma_lookup_at(fields, 0);
    lemma_lookup_at(fields, 1);
    lemma_lookup_at(fields, 2);
    lemma_lookup_at(fields, 3);
    lemma_lookup_at(fields, 4);
    assert forall|i: int| 0 <= i < v.derived_item_categories@.len()
        implies (destiny_derived_item_category_definition_json(v.derived_item_categories@[i]) matches Json::Obj(f2)
            && destiny_derived_item_category_definition_fields_match(f2, #[trigger] w.derived_item_categories@[i])) by {
        assert(fields[4].1->Arr_0[i] == destiny_derived_item_category_definition_json(v.derived_item_categories@[i]));
        lemma_destiny_derived_item_category_definition_image(v.derived_item_categories@[i]);
    }
}

/// The wire image of this record.
pub open spec fn destiny_item_translation_block_definition_json(v: DestinyItemTranslationBlockDefinition) -> Json {
    Json::Obj(
        seq![
            ("weaponPatternIdentifier"@, (match v.weapon_pattern_identifier { Some(x) => Json::Str(x@), Option::None => Json::Null })),
            ("weaponPatternHash"@, Json::Int(v.weapon_pattern_hash as int)),
            ("defaultDyes"@, Json::Arr(Seq::new(v.default_dyes@.len(), |i: int| if 0 <= i < v.default_dyes@.len() { dye_reference_json(v.default_dyes@[i]) } else { Json::Null }))),
            ("lockedDyes"@, Json::Arr(Seq::new(v.locked_dyes@.len(), |i: int| if 0 <= i < v.locked_dyes@.len() { dye_reference_json(v.locked_dyes@[i]) } else { Json::Null }))),
            ("customDyes"@, Json::Arr(Seq::new(v.custom_dyes@.len(), |i: int| if 0 <= i < v.custom_dyes@.len() { dye_reference_json(v.custom_dyes@[i]) } else { Json::Null }))),
            ("arrangements"@, Json::Arr(Seq::new(v.arrangements@.len(), |i: int| if 0 <= i < v.arrangements@.len() { destiny_gear_art_arrangement_reference_json(v.arrangements@[i]) } else { Json::Null }))),
            ("hasGeometry"@, Json::Bool(v.has_geometry)),
        ],
    )
}

/// Whether a document decodes as this record: an object with exactly these fields.
pub open spec fn destiny_item_translation_block_definition_wf(j: Json) -> bool {
    &&& j matches Json::Obj(fields)
    &&& match spec_lookup(fields, "weaponPatternIdentifier"@) { Option::None => true, Some(Json::Null) => true, Some(Json::Str(_)) => true, _ => false }
    &&& spec_lookup(fields, "weaponPatternHash"@) matches Some(Json::Int(n)) && 0 <= n <= u32::MAX as int
    &&& match spec_lookup(fields, "defaultDyes"@) { Option::None => false, Some(Json::Arr(items)) => forall|i: int| 0 <= i < items.len() ==> dye_reference_wf(#[trigger] items[i]), _ => false }
    &&& match spec_lookup(fields, "lockedDyes"@) { Option::None => false, Some(Json::Arr(items)) => forall|i: int| 0 <= i < items.len() ==> dye_reference_wf(#[trigger] items[i]), _ => false }
    &&& match spec_lookup(fields, "customDyes"@) { Option::None => false, Some(Json::Arr(items)) => forall|i: int| 0 <= i < items.len() ==> dye_reference_wf(#[trigger] items[i]), _ => false }
    &&& match spec_lookup(fields, "arrangements"@) { Option::None => false, Some(Json::Arr(items)) => forall|i: int| 0 <= i < items.len() ==> destiny_gear_art_arrangement_reference_wf(#[trigger] items[i]), _ => false }
    &&& spec_lookup(fields, "hasGeometry"@) matches Some(Json::Bool(_))
    &&& forall|i: int| 0 <= i < fields.len()
        ==> ((#[trigger] fields[i]).0 == "weaponPatternIdentifier"@ || fields[i].0 == "weaponPatternHash"@ || fields[i].0 == "defaultDyes"@ || fields[i].0 == "lockedDyes"@ || fields[i].0 == "customDyes"@ || fields[i].0 == "arrangements"@ || fields[i].0 == "hasGeometry"@)
}

/// How a decoded record relates to the document it came from.
pub open spec fn destiny_item_translation_block_definition_fields_match(fields: Seq<(Seq<char>, Json)>, w: DestinyItemTranslationBlockDefinition) -> bool {
    &&& match w.weapon_pattern_identifier { Some(x) => spec_lookup(fields, "weaponPatternIdentifier"@) == Some(Json::Str(x@)), Option::None => spec_lookup(fields, "weaponPatternIdentifier"@) is None || spec_lookup(fields, "weaponPatternIdentifier"@) == Some(Json::Null) }
    &&& spec_lookup(fields, "weaponPatternHash"@) == Some(Json::Int(w.weapon_pattern_hash as int))
    &&& match spec_lookup(fields, "defaultDyes"@) { Option::None => false, Some(Json::Arr(items)) => w.default_dyes@.len() == items.len() && (forall|i: int| 0 <= i < items.len() ==> ((#[trigger] items[i]) matches Json::Obj(f2) && dye_reference_fields_match(f2, w.default_dyes@[i]))), _ => false }
    &&& match spec_lookup(fields, "lockedDyes"@) { Option::None => false, Some(Json::Arr(items)) => w.locked_dyes@.len() == items.len() && (forall|i: int| 0 <= i < items.len() ==> ((#[trigger] items[i]) matches Json::Obj(f2) && dye_reference_fields_match(f2, w.locked_dyes@[i]))), _ => false }
    &&& match spec_lookup(fields, "customDyes"@) { Option::None => false, Some(Json::Arr(items)) => w.custom_dyes@.len() == items.len() && (forall|i: int| 0 <= i < items.len() ==> ((#[trigger] items[i]) matches Json::Obj(f2) && dye_reference_fields_match(f2, w.custom_dyes@[i]))), _ => false }
    &&& match spec_lookup(fields, "arrangements"@) { Option::None => false, Some(Json::Arr(items)) => w.arrangements@.len() == items.len() && (forall|i: int| 0 <= i < items.len() ==> ((#[trigger] items[i]) matches Json::Obj(f2) && destiny_gear_art_arrangement_reference_fields_match(f2, w.arrangements@[i]))), _ => false }
    &&& spec_lookup(fields, "hasGeometry"@) == Some(Json::Bool(w.has_geometry))
}

/// What a decode failure names: its path points at a field of the
/// document that is indeed not decodable, and an undeclared
/// enumeration code is reported with the enumeration's own message.
pub open spec fn destiny_item_translation_block_definition_err_ok(j: Json, e: DecodeError) -> bool {
    &&& !(j matches Json::Obj(_)) ==> e.path@.len() == 0
    &&& j matches Json::Obj(fields) ==> (
        (e.path@ == "weaponPatternIdentifier"@ && !(match spec_lookup(fields, "weaponPatternIdentifier"@) { Option::None => true, Some(Json::Null) => true, Some(Json::Str(_)) => true, _ => false }))
        || (e.path@ == "weaponPatternHash"@ && !(spec_lookup(fields, "weaponPatternHash"@) matches Some(Json::Int(n)) && 0 <= n <= u32::MAX as int))
        || ((e.path@ == "defaultDyes"@ || spec_starts_with(e.path@, "defaultDyes"@)) && !(match spec_lookup(fields, "defaultDyes"@) { Option::None => false, Some(Json::Arr(items)) => forall|i: int| 0 <= i < items.len() ==> dye_reference_wf(#[trigger] items[i]), _ => false }))
        || ((e.path@ == "lockedDyes"@ || spec_starts_with(e.path@, "lockedDyes"@)) && !(match spec_lookup(fields, "lockedDyes"@) { Option::None => false, Some(Json::Arr(items)) => forall|i: int| 0 <= i < items.len() ==> dye_reference_wf(#[trigger] items[i]), _ => false }))
        || ((e.path@ == "customDyes"@ || spec_starts_with(e.path@, "customDyes"@)) && !(match spec_lookup(fields, "customDyes"@) { Option::None => false, Some(Json::Arr(items)) => forall|i: int| 0 <= i < items.len() ==> dye_reference_wf(#[trigger] items[i]), _ => false }))
        || ((e.path@ == "arrangements"@ || spec_starts_with(e.path@, "arrangements"@)) && !(match spec_lookup(fields, "arrangements"@) { Option::None => false, Some(Json::Arr(items)) => forall|i: int| 0 <= i < items.len() ==> destiny_gear_art_arrangement_reference_wf(#[trigger] items[i]), _ => false }))
        || (e.path@ == "hasGeometry"@ && !(spec_lookup(fields, "hasGeometry"@) matches Some(Json::Bool(_))))
        || (exists|i: int| 0 <= i < fields.len() && (#[trigger] fields[i]).0 == e.path@ && !((fields[i].0 == "weaponPatternIdentifier"@ || fields[i].0 == "weaponPatternHash"@ || fields[i].0 == "defaultDyes"@ || fields[i].0 == "lockedDyes"@ || fields[i].0 == "customDyes"@ || fields[i].0 == "arrangements"@ || fields[i].0 == "hasGeometry"@))))
}

pub fn encode_destiny_item_translation_block_definition(v: &DestinyItemTranslationBlockDefinition) -> (r: JsonValue)
    ensures
        jview(r) == destiny_item_translation_block_definition_json(*v),
{
    let mut fields: Vec<(String, JsonValue)> = Vec::new();
    fields.push(("weaponPatternIdentifier".to_owned(), match &v.weapon_pattern_identifier {
        Some(x) => JsonValue::Str(x.clone()),
        Option::None => JsonValue::Null,
    }));
    fields.push(("weaponPatternHash".to_owned(), JsonValue::Int(v.weapon_pattern_hash as i64)));
    let arr_default_dyes = {
        let mut items: Vec<JsonValue> = Vec::new();
        let mut i: usize = 0;
        while i < v.default_dyes.len()
            invariant
                i <= v.default_dyes.len(),
                items@.len() == i,
                forall|k: int| 0 <= k < i ==> jview(#[trigger] items@[k]) == dye_reference_json(v.default_dyes@[k]),
            decreases v.default_dyes.len() - i,
        {
            items.push(encode_dye_reference(&v.default_dyes[i]));
            i = i + 1;
        }
        JsonValue::Arr(items)
    };
    proof {
        assert(jview(arr_default_dyes)->Arr_0 =~= destiny_item_translation_block_definition_json(*v)->Obj_0[2].1->Arr_0);
    }
    fields.push(("defaultDyes".to_owned(), arr_default_dyes));
    let arr_locked_dyes = {
        let mut items: Vec<JsonValue> = Vec::new();
        let mut i: usize = 0;
        while i < v.locked_dyes.len()
            invariant
                i <= v.locked_dyes.len(),
                items@.len() == i,
                forall|k: int| 0 <= k < i ==> jview(#[trigger] items@[k]) == dye_reference_json(v.locked_dyes@[k]),
            decreases v.locked_dyes.len() - i,
        {
            items.push(encode_dye_reference(&v.locked_dyes[i]));
            i = i + 1;
        }
        JsonValue::Arr(items)
    };
    proof {
        assert(jview(arr_locked_dyes)->Arr_0 =~= destiny_item_translation_block_definition_json(*v)->Obj_0[3].1->Arr_0);
    }
    fields.push(("lockedDyes".to_owned(), arr_locked_dyes));
    let arr_custom_dyes = {
        let mut items: Vec<JsonValue> = Vec::new();
        let mut i: usize = 0;
        while i < v.custom_dyes.len()
            invariant
                i <= v.custom_dyes.len(),
                items@.len() == i,
                forall|k: int| 0 <= k < i ==> jview(#[trigger] items@[k]) == dye_reference_json(v.custom_dyes@[k]),
            decreases v.custom_dyes.len() - i,
        {
            items.push(encode_dye_reference(&v.custom_dyes[i]));
            i = i + 1;
        }
        JsonValue::Arr(items)
    };
    proof {
        assert(jview(arr_custom_dyes)->Arr_0 =~= destiny_item_translation_block_definition_json(*v)->Obj_0[4].1->Arr_0);
    }
    fields.push(("customDyes".to_owned(), arr_custom_dyes));
    let arr_arrangements = {
        let mut items: Vec<JsonValue> = Vec::new();
        let mut i: usize = 0;
        while i < v.arrangements.len()
            invariant
                i <= v.arrangements.len(),
                items@.len() == i,
                forall|k: int| 0 <= k < i ==> jview(#[trigger] items@[k]) == destiny_gear_art_arrangement_reference_json(v.arrangements@[k]),
            decreases v.arrangements.len() - i,
        {
            items.push(encode_destiny_gear_art_arrangement_reference(&v.arrangements[i]));
            i = i + 1;
        }
        JsonValue::Arr(items)
    };
    proof {
        assert(jview(arr_arrangements)->Arr_0 =~= destiny_item_translation_block_definition_json(*v)->Obj_0[5].1->Arr_0);
    }
    fields.push(("arrangements".to_owned(), arr_arrangements));
    fields.push(("hasGeometry".to_owned(), JsonValue::Bool(v.has_geometry)));
    let r = JsonValue::Obj(fields);
    proof {
        assert(jview(fields@[0].1) == destiny_item_translation_block_definition_json(*v)->Obj_0[0].1);
        assert(jview(fields@[1].1) == destiny_item_translation_block_definition_json(*v)->Obj_0[1].1);
        assert(jview(fields@[2].1) == destiny_item_translation_block_definition_json(*v)->Obj_0[2].1);
        assert(jview(fields@[3].1) == destiny_item_translation_block_definition_json(*v)->Obj_0[3].1);
        assert(jview(fields@[4].1) == destiny_item_translation_block_definition_json(*v)->Obj_0[4].1);
        assert(jview(fields@[5].1) == destiny_item_translation_block_definition_json(*v)->Obj_0[5].1);
        assert(jview(fields@[6].1) == destiny_item_translation_block_definition_json(*v)->Obj_0[6].1);
        assert(jview(r)->Obj_0 =~= destiny_item_translation_block_definition_json(*v)->Obj_0);
    }
    r
}

/// Decodes this record; a failure names the offending field in its
/// path and says what was expected of it.
#[verifier::loop_isolation(false)]
pub fn decode_destiny_item_translation_block_definition(j: &JsonValue) -> (r: Result<DestinyItemTranslationBlockDefinition, DecodeError>)
    ensures
        r is Ok <==> destiny_item_translation_block_definition_wf(jview(*j)),
        r matches Ok(w) ==> (jview(*j) matches Json::Obj(fields)
            && destiny_item_translation_block_definition_fields_match(fields, w)),
        r matches Err(e) ==> destiny_item_translation_block_definition_err_ok(jview(*j), e),
{
    let fields = match j {
        JsonValue::Obj(fields) => fields,
        _ => {
            return Err(root_error("an object"));
        },
    };
    let ghost gf = jview(*j)->Obj_0;
    let weapon_pattern_identifier = match j.get("weaponPatternIdentifier") {
        Option::None => Option::None,
        Some(JsonValue::Null) => Option::None,
        Some(JsonValue::Str(s)) => Some(s.clone()),
        _ => {
            return Err(field_error("weaponPatternIdentifier", "a string or null"));
        },
    };
    let weapon_pattern_hash = match j.get("weaponPatternHash") {
        Some(v) => match v.to_i64() {
            Some(n) if 0 <= n && n <= u32::MAX as i64 => n as u32,
            _ => {
                return Err(field_error("weaponPatternHash", "a 32-bit unsigned integer"));
            },
        },
        _ => {
            return Err(field_error("weaponPatternHash", "a 32-bit unsigned integer"));
        },
    };
    let default_dyes = match j.get("defaultDyes") {
        Option::None => {
            return Err(field_error("defaultDyes", "an array"));
        },
        Some(arr) => match arr {
            JsonValue::Arr(items) => {
                let ghost gitems = jview(*arr)->Arr_0;
                let mut out: Vec<DyeReference> = Vec::new();
                let mut i: usize = 0;
                while i < items.len()
                    invariant
                        i <= items.len(),
                        out@.len() == i,
                        forall|k: int| 0 <= k < i
                            ==> (dye_reference_wf(#[trigger] gitems[k])
                                && (gitems[k] matches Json::Obj(f2)
                                && dye_reference_fields_match(f2, out@[k]))),
                    decreases items.len() - i,
                {
                    proof {
                        assert(gitems[i as int] == jview(items@[i as int]));
                    }
                    match decode_dye_reference(&items[i]) {
                        Ok(r) => {
                            out.push(r);
                        },
                        Err(e) => {
                            return Err(indexed_error("defaultDyes", i, e));
                        },
                    }
                    i = i + 1;
                }
                out
            },
            _ => {
                return Err(field_error("defaultDyes", "an array"));
            },
        },
    };
    let locked_dyes = match j.get("lockedDyes") {
        Option::None => {
            return Err(field_error("lockedDyes", "an array"));
        },
        Some(arr) => match arr {
            JsonValue::Arr(items) => {
                let ghost gitems = jview(*arr)->Arr_0;
                let mut out: Vec<DyeReference> = Vec::new();
                let mut i: usize = 0;
                while i < items.len()
                    invariant
                        i <= items.len(),
                        out@.len() == i,
                        forall|k: int| 0 <= k < i
                            ==> (dye_reference_wf(#[trigger] gitems[k])
                                && (gitems[k] matches Json::Obj(f2)
                                && dye_reference_fields_match(f2, out@[k]))),
                    decreases items.len() - i,
                {
                    proof {
                        assert(gitems[i as int] == jview(items@[i as int]));
                    }
                    match decode_dye_reference(&items[i]) {
                        Ok(r) => {
                            out.push(r);
                        },
                        Err(e) => {
                            return Err(indexed_error("lockedDyes", i, e));
                        },
                    }
                    i = i + 1;
                }
                out
            },
            _ => {
                return Err(field_error("lockedDyes", "an array"));
            },
        },
    };
    let custom_dyes = match j.get("customDyes") {
        Option::None => {
            return Err(field_error("customDyes", "an array"));
        },
        Some(arr) => match arr {
            JsonValue::Arr(items) => {
                let ghost gitems = jview(*arr)->Arr_0;
                let mut out: Vec<DyeReference> = Vec::new();
                let mut i: usize = 0;
                while i < items.len()
                    invariant
                        i <= items.len(),
                        out@.len() == i,
                        forall|k: int| 0 <= k < i
                            ==> (dye_reference_wf(#[trigger] gitems[k])
                                && (gitems[k] matches Json::Obj(f2)
                                && dye_reference_fields_match(f2, out@[k]))),
                    decreases items.len() - i,
                {
                    proof {
                        assert(gitems[i as int] == jview(items@[i as int]));
                    }
                    match decode_dye_reference(&items[i]) {
                        Ok(r) => {
                            out.push(r);
                        },
                        Err(e) => {
                            return Err(indexed_error("customDyes", i, e));
                        },
                    }
                    i = i + 1;
                }
                out
            },
            _ => {
                return Err(field_error("customDyes", "an array"));
            },
        },
    };
    let arrangements = match j.get("arrangements") {
        Option::None => {
            return Err(field_error("arrangements", "an array"));
        },
        Some(arr) => match arr {
            JsonValue::Arr(items) => {
                let ghost gitems = jview(*arr)->Arr_0;
                let mut out: Vec<DestinyGearArtArrangementReference> = Vec::new();
                let mut i: usize = 0;
                while i < items.len()
                    invariant
                        i <= items.len(),
                        out@.len() == i,
                        forall|k: int| 0 <= k < i
                            ==> (destiny_gear_art_arrangement_reference_wf(#[trigger] gitems[k])
                                && (gitems[k] matches Json::Obj(f2)
                                && destiny_gear_art_arrangement_reference_fields_match(f2, out@[k]))),
                    decreases items.len() - i,
                {
                    proof {
                        assert(gitems[i as int] == jview(items@[i as int]));
                    }
                    match decode_destiny_gear_art_arrangement_reference(&items[i]) {
                        Ok(r) => {
                            out.push(r);
                        },
                        Err(e) => {
                            return Err(indexed_error("arrangements", i, e));
                        },
                    }
                    i = i + 1;
                }
                out
            },
            _ => {
                return Err(field_error("arrangements", "an array"));
            },
        },
    };
    let has_geometry = match j.get("hasGeometry") {
        Some(JsonValue::Bool(b)) => *b,
        _ => {
            return Err(field_error("hasGeometry", "a boolean"));
        },
    };
    let mut i: usize = 0;
    while i < fields.len()
        invariant
            i <= fields.len(),
            gf.len() == fields@.len(),
            forall|k: int| 0 <= k < gf.len()
                ==> #[trigger] gf[k] == (fields@[k].0@, jview(fields@[k].1)),
            forall|k: int| 0 <= k < i
                ==> ((#[trigger] gf[k]).0 == "weaponPatternIdentifier"@ || gf[k].0 == "weaponPatternHash"@ || gf[k].0 == "defaultDyes"@ || gf[k].0 == "lockedDyes"@ || gf[k].0 == "customDyes"@ || gf[k].0 == "arrangements"@ || gf[k].0 == "hasGeometry"@),
        decreases fields.len() - i,
    {
        let name = fields[i].0.as_str();
        if !(str_eq(name, "weaponPatternIdentifier") || str_eq(name, "weaponPatternHash") || str_eq(name, "defaultDyes") || str_eq(name, "lockedDyes") || str_eq(name, "customDyes") || str_eq(name, "arrangements") || str_eq(name, "hasGeometry")) {
            proof {
                assert(gf[i as int].0 == fields@[i as int].0@);
                assert(!destiny_item_translation_block_definition_wf(jview(*j)));
            }
            return Err(field_error(fields[i].0.as_str(), "an unknown field"));
        }
        i = i + 1;
    }
    Ok(DestinyItemTranslationBlockDefinition { weapon_pattern_identifier, weapon_pattern_hash, default_dyes, locked_dyes, custom_dyes, arrangements, has_geometry })
}

/// The wire image of a record is well formed and matched by the
/// record itself: encoding loses nothing that decoding reads.
pub proof fn lemma_destiny_item_translation_block_definition_image(v: DestinyItemTranslationBlockDefinition)
    ensures
        destiny_item_translation_block_definition_wf(destiny_item_translation_block_definition_json(v)),
        destiny_item_translation_block_definition_json(v) matches Json::Obj(fields) && destiny_item_translation_block_definition_fields_match(fields, v),
{
    reveal_strlit("weaponPatternIdentifier");
    reveal_strlit("weaponPatternHash");
    reveal_strlit("defaultDyes");
    reveal_strlit("lockedDyes");
    reveal_strlit("customDyes");
    reveal_strlit("arrangements");
    reveal_strlit("hasGeometry");
    let fields = destiny_item_translation_block_definition_json(v)->Obj_0;
    assert("weaponPatternIdentifier"@.len() == 23);
    assert("weaponPatternHash"@.len() == 17);
    assert("defaultDyes"@.len() == 11);
    assert("lockedDyes"@.len() == 10);
    assert("customDyes"@.len() == 10);
    assert("arrangements"@.len() == 12);
    assert("hasGeometry"@.len() == 11);
    assert("weaponPatternIdentifier"@ != "weaponPatternHash"@);
    assert("weaponPatternIdentifier"@ != "defaultDyes"@);
    assert("weaponPatternIdentifier"@ != "lockedDyes"@);
    assert("weaponPatternIdentifier"@ != "customDyes"@);
    assert("weaponPatternIdentifier"@ != "arrangements"@);
    assert("weaponPatternIdentifier"@ != "hasGeometry"@);
    assert("weaponPatternHash"@ != "defaultDyes"@);
    assert("weaponPatternHash"@ != "lockedDyes"@);
    assert("weaponPatternHash"@ != "customDyes"@);
    assert("weaponPatternHash"@ != "arrangements"@);
    assert("weaponPatternHash"@ != "hasGeometry"@);
    assert("defaultDyes"@ != "lockedDyes"@);
    assert("defaultDyes"@ != "customDyes"@);
    assert("defaultDyes"@ != "arrangements"@);
    assert(("defaultDyes"@)[0] != ("hasGeometry"@)[0]);
    assert("defaultDyes"@ != "hasGeometry"@);
    assert(("lockedDyes"@)[0] != ("customDyes"@)[0]);
    assert("lockedDyes"@ != "customDyes"@);
    assert("lockedDyes"@ != "arrangements"@);
    assert("lockedDyes"@ != "hasGeometry"@);
    assert("customDyes"@ != "arrangements"@);
    assert("customDyes"@ != "hasGeometry"@);
    assert("arrangements"@ != "hasGeometry"@);
    lemma_lookup_at(fields, 0);
    lemma_lookup_at(fields, 1);
    lemma_lookup_at(fields, 2);
    lemma_lookup_at(fields, 3);
    lemma_lookup_at(fields, 4);
    lemma_lookup_at(fields, 5);
    lemma_lookup_at(fields, 6);
    assert forall|i: int| 0 <= i < v.default_dyes@.len()
        implies (dye_reference_wf(#[trigger] fields[2].1->Arr_0[i])
            && (fields[2].1->Arr_0[i] matches Json::Obj(f2)
            && dye_reference_fields_match(f2, v.default_dyes@[i]))) by {
        assert(fields[2].1->Arr_0[i] == dye_reference_json(v.default_dyes@[i]));
        lemma_dye_reference_image(v.default_dyes@[i]);
    }
    assert forall|i: int| 0 <= i < v.locked_dyes@.len()
        implies (dye_reference_wf(#[trigger] fields[3].1->Arr_0[i])
            && (fields[3].1->Arr_0[i] matches Json::Obj(f2)
            && dye_reference_fields_match(f2, v.locked_dyes@[i]))) by {
        assert(fields[3].1->Arr_0[i] == dye_reference_json(v.locked_dyes@[i]));
        lemma_dye_reference_image(v.locked_dyes@[i]);
    }
    assert forall|i: int| 0 <= i < v.custom_dyes@.len()
        implies (dye_reference_wf(#[trigger] fields[4].1->Arr_0[i])
            && (fields[4].1->Arr_0[i] matches Json::Obj(f2)
            && dye_reference_fields_match(f2, v.custom_dyes@[i]))) by {
        assert(fields[4].1->Arr_0[i] == dye_reference_json(v.custom_dyes@[i]));
        lemma_dye_reference_image(v.custom_dyes@[i]);
    }
    assert forall|i: int| 0 <= i < v.arrangements@.len()
        implies (destiny_gear_art_arrangement_reference_wf(#[trigger] fields[5].1->Arr_0[i])
            && (fields[5].1->Arr_0[i] matches Json::Obj(f2)
            && destiny_gear_art_arrangement_reference_fields_match(f2, v.arrangements@[i]))) by {
        assert(fields[5].1->Arr_0[i] == destiny_gear_art_arrangement_reference_json(v.arrangements@[i]));
        lemma_destiny_gear_art_arrangement_reference_image(v.arrangements@[i]);
    }
}

/// Decoding the encoded image of a record yields a record whose
/// every field carries the same content as the one encoded.
pub proof fn lemma_destiny_item_translation_block_definition_round_trip(v: DestinyItemTranslationBlockDefinition, w: DestinyItemTranslationBlockDefinition)
    requires
        destiny_item_translation_block_definition_json(v) matches Json::Obj(fields) && destiny_item_translation_block_definition_fields_match(fields, w),
    ensures
        destiny_item_translation_block_definition_wf(destiny_item_translation_block_definition_json(v)),
        (match v.weapon_pattern_identifier { Some(x) => w.weapon_pattern_identifier matches Some(y) && y@ == x@, Option::None => w.weapon_pattern_identifier is None }),
        w.weapon_pattern_hash == v.weapon_pattern_hash,
        w.default_dyes@.len() == v.default_dyes@.len(),
        forall|i: int| 0 <= i < v.default_dyes@.len() ==> (dye_reference_json(v.default_dyes@[i]) matches Json::Obj(f2) && dye_reference_fields_match(f2, #[trigger] w.default_dyes@[i])),
        w.locked_dyes@.len() == v.locked_dyes@.len(),
        forall|i: int| 0 <= i < v.locked_dyes@.len() ==> (dye_reference_json(v.locked_dyes@[i]) matches Json::Obj(f2) && dye_reference_fields_match(f2, #[trigger] w.locked_dyes@[i])),
        w.custom_dyes@.len() == v.custom_dyes@.len(),
        forall|i: int| 0 <= i < v.custom_dyes@.len() ==> (dye_reference_json(v.custom_dyes@[i]) matches Json::Obj(f2) && dye_reference_fields_match(f2, #[trigger] w.custom_dyes@[i])),
        w.arrangements@.len() == v.arrangements@.len(),
        forall|i: int| 0 <= i < v.arrangements@.len() ==> (destiny_gear_art_arrangement_reference_json(v.arrangements@[i]) matches Json::Obj(f2) && destiny_gear_art_arrangement_reference_fields_match(f2, #[trigger] w.arrangements@[i])),
        w.has_geometry == v.has_geometry,
{
    lemma_destiny_item_translation_block_definition_image(v);
    let fields = destiny_item_translation_block_definition_json(v)->Obj_0;
    reveal_strlit("weaponPatternIdentifier");
    reveal_strlit("weaponPatternHash");
    reveal_strlit("defaultDyes");
    reveal_strlit("lockedDyes");
    reveal_strlit("customDyes");
    reveal_strlit("arrangements");
    reveal_strlit("hasGeometry");
    assert("weaponPatternIdentifier"@.len() == 23);
    assert("weaponPatternHash"@.len() == 17);
    assert("defaultDyes"@.len() == 11);
    assert("lockedDyes"@.len() == 10);
    assert("customDyes"@.len() == 10);
    assert("arrangements"@.len() == 12);
    assert("hasGeometry"@.len() == 11);
    assert("weaponPatternIdentifier"@ != "weaponPatternHash"@);
    assert("weaponPatternIdentifier"@ != "defaultDyes"@);
    assert("weaponPatternIdentifier"@ != "lockedDyes"@);
    assert("weaponPatternIdentifier"@ != "customDyes"@);
    assert("weaponPatternIdentifier"@ != "arrangements"@);
    assert("weaponPatternIdentifier"@ != "hasGeometry"@);
    assert("weaponPatternHash"@ != "defaultDyes"@);
    assert("weaponPatternHash"@ != "lockedDyes"@);
    assert("weaponPatternHash"@ != "customDyes"@);
    assert("weaponPatternHash"@ != "arrangements"@);
    assert("weaponPatternHash"@ != "hasGeometry"@);
    assert("defaultDyes"@ != "lockedDyes"@);
    assert("defaultDyes"@ != "customDyes"@);
    assert("defaultDyes"@ != "arrangements"@);
    assert(("defaultDyes"@)[0] != ("hasGeometry"@)[0]);
    assert("defaultDyes"@ != "hasGeometry"@);
    assert(("lockedDyes"@)[0] != ("customDyes"@)[0]);
    assert("lockedDyes"@ != "customDyes"@);
    assert("lockedDyes"@ != "arrangements"@);
    assert("lockedDyes"@ != "hasGeometry"@);
    assert("customDyes"@ != "arrangements"@);
    assert("customDyes"@ != "hasGeometry"@);
    assert("arrangements"@ != "hasGeometry"@);
    lemma_lookup_at(fields, 0);
    lemma_lookup_at(fields, 1);
    lemma_lookup_at(fields, 2);
    lemma_lookup_at(fields, 3);
    lemma_lookup_at(fields, 4);
    lemma_lookup_at(fields, 5);
    lemma_lookup_at(fields, 6);
    assert forall|i: int| 0 <= i < v.default_dyes@.len()
        implies (dye_reference_json(v.default_dyes@[i]) matches Json::Obj(f2)
            && dye_reference_fields_match(f2, #[trigger] w.default_dyes@[i])) by {
        assert(fields[2].1->Arr_0[i] == dye_reference_json(v.default_dyes@[i]));
        lemma_dye_reference_image(v.default_dyes@[i]);
    }
    assert forall|i: int| 0 <= i < v.locked_dyes@.len()
        implies (dye_reference_json(v.locked_dyes@[i]) matches Json::Obj(f2)
            && dye_reference_fields_match(f2, #[trigger] w.locked_dyes@[i])) by {
        assert(fields[3].1->Arr_0[i] == dye_reference_json(v.locked_dyes@[i]));
        lemma_dye_reference_image(v.locked_dyes@[i]);
    }
    assert forall|i: int| 0 <= i < v.custom_dyes@.len()
        implies (dye_reference_json(v.custom_dyes@[i]) matches Json::Obj(f2)
            && dye_reference_fields_match(f2, #[trigger] w.custom_dyes@[i])) by {
        assert(fields[4].1->Arr_0[i] == dye_reference_json(v.custom_dyes@[i]));
        lemma_dye_reference_image(v.custom_dyes@[i]);
    }
    assert forall|i: int| 0 <= i < v.arrangements@.len()
        implies (destiny_gear_art_arrangement_reference_json(v.arrangements@[i]) matches Json::Obj(f2)
            && destiny_gear_art_arrangement_reference_fields_match(f2, #[trigger] w.arrangements@[i])) by {
        assert(fields[5].1->Arr_0[i] == destiny_gear_art_arrangement_reference_json(v.arrangements@[i]));
        lemma_destiny_gear_art_arrangement_reference_image(v.arrangements@[i]);
    }
}

/// The wire image of this record.
pub open spec fn destiny_item_objective_block_definition_json(v: DestinyItemObjectiveBlockDefinition) -> Json {
    Json::Obj(
        seq![
            ("objectiveHashes"@, Json::Arr(Seq::new(v.objective_hashes@.len(), |i: int| if 0 <= i < v.objective_hashes@.len() { Json::Int(v.objective_hashes@[i] as int) } else { Json::Null }))),
            ("displayActivityHashes"@, Json::Arr(Seq::new(v.display_activity_hashes@.len(), |i: int| if 0 <= i < v.display_activity_hashes@.len() { Json::Int(v.display_activity_hashes@[i] as int) } else { Json::Null }))),
            ("requireFullObjectiveCompletion"@, Json::Bool(v.require_full_objective_completion)),
            ("questlineItemHash"@, Json::Int(v.questline_item_hash as int)),
            ("narrative"@, Json::Str(v.narrative@)),
            ("objectiveVerbName"@, Json::Str(v.objective_verb_name@)),
            ("questTypeIdentifier"@, Json::Str(v.quest_type_identifier@)),
            ("questTypeHash"@, Json::Int(v.quest_type_hash as int)),
            ("completionRewardSiteHash"@, Json::Int(v.completion_reward_site_hash as int)),
            ("nextQuestStepRewardSiteHash"@, Json::Int(v.next_quest_step_reward_site_hash as int)),
            ("timestampUnlockValueHash"@, Json::Int(v.timestamp_unlock_value_hash as int)),
            ("isGlobalObjectiveItem"@, Json::Bool(v.is_global_objective_item)),
            ("useOnObjectiveCompletion"@, Json::Bool(v.use_on_objective_completion)),
            ("inhibitCompletionUnlockValueHash"@, Json::Int(v.inhibit_completion_unlock_value_hash as int)),
            ("perObjectiveDisplayProperties"@, Json::Arr(Seq::new(v.per_objective_display_properties@.len(), |i: int| if 0 <= i < v.per_objective_display_properties@.len() { destiny_objective_display_properties_json(v.per_objective_display_properties@[i]) } else { Json::Null }))),
            ("displayAsStatTracker"@, Json::Bool(v.display_as_stat_tracker)),
        ],
    )
}

/// Whether a document decodes as this record: an object with exactly these fields.
pub open spec fn destiny_item_objective_block_definition_wf(j: Json) -> bool {
    &&& j matches Json::Obj(fields)
    &&& match spec_lookup(fields, "objectiveHashes"@) { Option::None => false, Some(Json::Arr(items)) => forall|i: int| 0 <= i < items.len() ==> ((#[trigger] items[i]) matches Json::Int(n) && 0 <= n <= u32::MAX as int), _ => false }
    &&& match spec_lookup(fields, "displayActivityHashes"@) { Option::None => false, Some(Json::Arr(items)) => forall|i: int| 0 <= i < items.len() ==> ((#[trigger] items[i]) matches Json::Int(n) && 0 <= n <= u32::MAX as int), _ => false }
    &&& spec_lookup(fields, "requireFullObjectiveCompletion"@) matches Some(Json::Bool(_))
    &&& spec_lookup(fields, "questlineItemHash"@) matches Some(Json::Int(n)) && 0 <= n <= u32::MAX as int
    &&& spec_lookup(fields, "narrative"@) matches Some(Json::Str(_))
    &&& spec_lookup(fields, "objectiveVerbName"@) matches Some(Json::Str(_))
    &&& spec_lookup(fields, "questTypeIdentifier"@) matches Some(Json::Str(_))
    &&& spec_lookup(fields, "questTypeHash"@) matches Some(Json::Int(n)) && 0 <= n <= u32::MAX as int
    &&& spec_lookup(fields, "completionRewardSiteHash"@) matches Some(Json::Int(n)) && 0 <= n <= u32::MAX as int
    &&& spec_lookup(fields, "nextQuestStepRewardSiteHash"@) matches Some(Json::Int(n)) && 0 <= n <= u32::MAX as int
    &&& spec_lookup(fields, "timestampUnlockValueHash"@) matches Some(Json::Int(n)) && 0 <= n <= u32::MAX as int
    &&& spec_lookup(fields, "isGlobalObjectiveItem"@) matches Some(Json::Bool(_))
    &&& spec_lookup(fields, "useOnObjectiveCompletion"@) matches Some(Json::Bool(_))
    &&& spec_lookup(fields, "inhibitCompletionUnlockValueHash"@) matches Some(Json::Int(n)) && 0 <= n <= u32::MAX as int
    &&& match spec_lookup(fields, "perObjectiveDisplayProperties"@) { Option::None => false, Some(Json::Arr(items)) => forall|i: int| 0 <= i < items.len() ==> destiny_objective_display_properties_wf(#[trigger] items[i]), _ => false }
    &&& spec_lookup(fields, "displayAsStatTracker"@) matches Some(Json::Bool(_))
    &&& forall|i: int| 0 <= i < fields.len()
        ==> ((#[trigger] fields[i]).0 == "objectiveHashes"@ || fields[i].0 == "displayActivityHashes"@ || fields[i].0 == "requireFullObjectiveCompletion"@ || fields[i].0 == "questlineItemHash"@ || fields[i].0 == "narrative"@ || fields[i].0 == "objectiveVerbName"@ || fields[i].0 == "questTypeIdentifier"@ || fields[i].0 == "questTypeHash"@ || fields[i].0 == "completionRewardSiteHash"@ || fields[i].0 == "nextQuestStepRewardSiteHash"@ || fields[i].0 == "timestampUnlockValueHash"@ || fields[i].0 == "isGlobalObjectiveItem"@ || fields[i].0 == "useOnObjectiveCompletion"@ || fields[i].0 == "inhibitCompletionUnlockValueHash"@ || fields[i].0 == "perObjectiveDisplayProperties"@ || fields[i].0 == "displayAsStatTracker"@)
}

/// How a decoded record relates to the document it came from.
pub open spec fn destiny_item_objective_block_definition_fields_match(fields: Seq<(Seq<char>, Json)>, w: DestinyItemObjectiveBlockDefinition) -> bool {
    &&& match spec_lookup(fields, "objectiveHashes"@) { Option::None => false, Some(Json::Arr(items)) => w.objective_hashes@.len() == items.len() && (forall|i: int| 0 <= i < items.len() ==> (#[trigger] items[i]) == Json::Int(w.objective_hashes@[i] as int)), _ => false }
    &&& match spec_lookup(fields, "displayActivityHashes"@) { Option::None => false, Some(Json::Arr(items)) => w.display_activity_hashes@.len() == items.len() && (forall|i: int| 0 <= i < items.len() ==> (#[trigger] items[i]) == Json::Int(w.display_activity_hashes@[i] as int)), _ => false }
    &&& spec_lookup(fields, "requireFullObjectiveCompletion"@) == Some(Json::Bool(w.require_full_objective_completion))
    &&& spec_lookup(fields, "questlineItemHash"@) == Some(Json::Int(w.questline_item_hash as int))
    &&& spec_lookup(fields, "narrative"@) == Some(Json::Str(w.narrative@))
    &&& spec_lookup(fields, "objectiveVerbName"@) == Some(Json::Str(w.objective_verb_name@))
    &&& spec_lookup(fields, "questTypeIdentifier"@) == Some(Json::Str(w.quest_type_identifier@))
    &&& spec_lookup(fields, "questTypeHash"@) == Some(Json::Int(w.quest_type_hash as int))
    &&& spec_lookup(fields, "completionRewardSiteHash"@) == Some(Json::Int(w.completion_reward_site_hash as int))
    &&& spec_lookup(fields, "nextQuestStepRewardSiteHash"@) == Some(Json::Int(w.next_quest_step_reward_site_hash as int))
    &&& spec_lookup(fields, "timestampUnlockValueHash"@) == Some(Json::Int(w.timestamp_unlock_value_hash as int))
    &&& spec_lookup(fields, "isGlobalObjectiveItem"@) == Some(Json::Bool(w.is_global_objective_item))
    &&& spec_lookup(fields, "useOnObjectiveCompletion"@) == Some(Json::Bool(w.use_on_objective_completion))
    &&& spec_lookup(fields, "inhibitCompletionUnlockValueHash"@) == Some(Json::Int(w.inhibit_completion_unlock_value_hash as int))
    &&& match spec_lookup(fields, "perObjectiveDisplayProperties"@) { Option::None => false, Some(Json::Arr(items)) => w.per_objective_display_properties@.len() == items.len() && (forall|i: int| 0 <= i < items.len() ==> ((#[trigger] items[i]) matches Json::Obj(f2) && destiny_objective_display_properties_fields_match(f2, w.per_objective_display_properties@[i]))), _ => false }
    &&& spec_lookup(fields, "displayAsStatTracker"@) == Some(Json::Bool(w.display_as_stat_tracker))
}

/// What a decode failure names: its path points at a field of the
/// document that is indeed not decodable, and an undeclared
/// enumeration code is reported with the enumeration's own message.
pub open spec fn destiny_item_objective_block_definition_err_ok(j: Json, e: DecodeError) -> bool {
    &&& !(j matches Json::Obj(_)) ==> e.path@.len() == 0
    &&& j matches Json::Obj(fields) ==> (
        ((e.path@ == "objectiveHashes"@ || spec_starts_with(e.path@, "objectiveHashes"@)) && !(match spec_lookup(fields, "objectiveHashes"@) { Option::None => false, Some(Json::Arr(items)) => forall|i: int| 0 <= i < items.len() ==> ((#[trigger] items[i]) matches Json::Int(n) && 0 <= n <= u32::MAX as int), _ => false }))
        || ((e.path@ == "displayActivityHashes"@ || spec_starts_with(e.path@, "displayActivityHashes"@)) && !(match spec_lookup(fields, "displayActivityHashes"@) { Option::None => false, Some(Json::Arr(items)) => forall|i: int| 0 <= i < items.len() ==> ((#[trigger] items[i]) matches Json::Int(n) && 0 <= n <= u32::MAX as int), _ => false }))
        || (e.path@ == "requireFullObjectiveCompletion"@ && !(spec_lookup(fields, "requireFullObjectiveCompletion"@) matches Some(Json::Bool(_))))
        || (e.path@ == "questlineItemHash"@ && !(spec_lookup(fields, "questlineItemHash"@) matches Some(Json::Int(n)) && 0 <= n <= u32::MAX as int))
        || (e.path@ == "narrative"@ && !(spec_lookup(fields, "narrative"@) matches Some(Json::Str(_))))
        || (e.path@ == "objectiveVerbName"@ && !(spec_lookup(fields, "objectiveVerbName"@) matches Some(Json::Str(_))))
        || (e.path@ == "questTypeIdentifier"@ && !(spec_lookup(fields, "questTypeIdentifier"@) matches Some(Json::Str(_))))
        || (e.path@ == "questTypeHash"@ && !(spec_lookup(fields, "questTypeHash"@) matches Some(Json::Int(n)) && 0 <= n <= u32::MAX as int))
        || (e.path@ == "completionRewardSiteHash"@ && !(spec_lookup(fields, "completionRewardSiteHash"@) matches Some(Json::Int(n)) && 0 <= n <= u32::MAX as int))
        || (e.path@ == "nextQuestStepRewardSiteHash"@ && !(spec_lookup(fields, "nextQuestStepRewardSiteHash"@) matches Some(Json::Int(n)) && 0 <= n <= u32::MAX as int))
        || (e.path@ == "timestampUnlockValueHash"@ && !(spec_lookup(fields, "timestampUnlockValueHash"@) matches Some(Json::Int(n)) && 0 <= n <= u32::MAX as int))
        || (e.path@ == "isGlobalObjectiveItem"@ && !(spec_lookup(fields, "isGlobalObjectiveItem"@) matches Some(Json::Bool(_))))
        || (e.path@ == "useOnObjectiveCompletion"@ && !(spec_lookup(fields, "useOnObjectiveCompletion"@) matches Some(Json::Bool(_))))
        || (e.path@ == "inhibitCompletionUnlockValueHash"@ && !(spec_lookup(fields, "inhibitCompletionUnlockValueHash"@) matches Some(Json::Int(n)) && 0 <= n <= u32::MAX as int))
        || ((e.path@ == "perObjectiveDisplayProperties"@ || spec_starts_with(e.path@, "perObjectiveDisplayProperties"@)) && !(match spec_lookup(fields, "perObjectiveDisplayProperties"@) { Option::None => false, Some(Json::Arr(items)) => forall|i: int| 0 <= i < items.len() ==> destiny_objective_display_properties_wf(#[trigger] items[i]), _ => false }))
        || (e.path@ == "displayAsStatTracker"@ && !(spec_lookup(fields, "displayAsStatTracker"@) matches Some(Json::Bool(_))))
        || (exists|i: int| 0 <= i < fields.len() && (#[trigger] fields[i]).0 == e.path@ && !((fields[i].0 == "objectiveHashes"@ || fields[i].0 == "displayActivityHashes"@ || fields[i].0 == "requireFullObjectiveCompletion"@ || fields[i].0 == "questlineItemHash"@ || fields[i].0 == "narrative"@ || fields[i].0 == "objectiveVerbName"@ || fields[i].0 == "questTypeIdentifier"@ || fields[i].0 == "questTypeHash"@ || fields[i].0 == "completionRewardSiteHash"@ || fields[i].0 == "nextQuestStepRewardSiteHash"@ || fields[i].0 == "timestampUnlockValueHash"@ || fields[i].0 == "isGlobalObjectiveItem"@ || fields[i].0 == "useOnObjectiveCompletion"@ || fields[i].0 == "inhibitCompletionUnlockValueHash"@ || fields[i].0 == "perObjectiveDisplayProperties"@ || fields[i].0 == "displayAsStatTracker"@))))
}

pub fn encode_destiny_item_objective_block_definition(v: &DestinyItemObjectiveBlockDefinition) -> (r: JsonValue)
    ensures
        jview(r) == destiny_item_objective_block_definition_json(*v),
{
    let mut fields: Vec<(String, JsonValue)> = Vec::new();
    let arr_objective_hashes = {
        let mut items: Vec<JsonValue> = Vec::new();
        let mut i: usize = 0;
        while i < v.objective_hashes.len()
            invariant
                i <= v.objective_hashes.len(),
                items@.len() == i,
                forall|k: int| 0 <= k < i ==> jview(#[trigger] items@[k]) == Json::Int(v.objective_hashes@[k] as int),
            decreases v.objective_hashes.len() - i,
        {
            items.push(JsonValue::Int(v.objective_hashes[i] as i64));
            i = i + 1;
        }
        JsonValue::Arr(items)
    };
    proof {
        assert(jview(arr_objective_hashes)->Arr_0 =~= destiny_item_objective_block_definition_json(*v)->Obj_0[0].1->Arr_0);
    }
    fields.push(("objectiveHashes".to_owned(), arr_objective_hashes));
    let arr_display_activity_hashes = {
        let mut items: Vec<JsonValue> = Vec::new();
        let mut i: usize = 0;
        while i < v.display_activity_hashes.len()
            invariant
                i <= v.display_activity_hashes.len(),
                items@.len() == i,
                forall|k: int| 0 <= k < i ==> jview(#[trigger] items@[k]) == Json::Int(v.display_activity_hashes@[k] as int),
            decreases v.display_activity_hashes.len() - i,
        {
            items.push(JsonValue::Int(v.display_activity_hashes[i] as i64));
            i = i + 1;
        }
        JsonValue::Arr(items)
    };
    proof {
        assert(jview(arr_display_activity_hashes)->Arr_0 =~= destiny_item_objective_block_definition_json(*v)->Obj_0[1].1->Arr_0);
    }
    fields.push(("displayActivityHashes".to_owned(), arr_display_activity_hashes));
    fields.push(("requireFullObjectiveCompletion".to_owned(), JsonValue::Bool(v.require_full_objective_completion)));
    fields.push(("questlineItemHash".to_owned(), JsonValue::Int(v.questline_item_hash as i64)));
    fields.push(("narrative".to_owned(), JsonValue::Str(v.narrative.clone())));
    fields.push(("objectiveVerbName".to_owned(), JsonValue::Str(v.objective_verb_name.clone())));
    fields.push(("questTypeIdentifier".to_owned(), JsonValue::Str(v.quest_type_identifier.clone())));
    fields.push(("questTypeHash".to_owned(), JsonValue::Int(v.quest_type_hash as i64)));
    fields.push(("completionRewardSiteHash".to_owned(), JsonValue::Int(v.completion_reward_site_hash as i64)));
    fields.push(("nextQuestStepRewardSiteHash".to_owned(), JsonValue::Int(v.next_quest_step_reward_site_hash as i64)));
    fields.push(("timestampUnlockValueHash".to_owned(), JsonValue::Int(v.timestamp_unlock_value_hash as i64)));
    fields.push(("isGlobalObjectiveItem".to_owned(), JsonValue::Bool(v.is_global_objective_item)));
    fields.push(("useOnObjectiveCompletion".to_owned(), JsonValue::Bool(v.use_on_objective_completion)));
    fields.push(("inhibitCompletionUnlockValueHash".to_owned(), JsonValue::Int(v.inhibit_completion_unlock_value_hash as i64)));
    let arr_per_objective_display_properties = {
        let mut items: Vec<JsonValue> = Vec::new();
        let mut i: usize = 0;
        while i < v.per_objective_display_properties.len()
            invariant
                i <= v.per_objective_display_properties.len(),
                items@.len() == i,
                forall|k: int| 0 <= k < i ==> jview(#[trigger] items@[k]) == destiny_objective_display_properties_json(v.per_objective_display_properties@[k]),
            decreases v.per_objective_display_properties.len() - i,
        {
            items.push(encode_destiny_objective_display_properties(&v.per_objective_display_properties[i]));
            i = i + 1;
        }
        JsonValue::Arr(items)
    };
    proof {
        assert(jview(arr_per_objective_display_properties)->Arr_0 =~= destiny_item_objective_block_definition_json(*v)->Obj_0[14].1->Arr_0);
    }
    fields.push(("perObjectiveDisplayProperties".to_owned(), arr_per_objective_display_properties));
    fields.push(("displayAsStatTracker".to_owned(), JsonValue::Bool(v.display_as_stat_tracker)));
    let r = JsonValue::Obj(fields);
    proof {
        assert(jview(fields@[0].1) == destiny_item_objective_block_definition_json(*v)->Obj_0[0].1);
        assert(jview(fields@[1].1) == destiny_item_objective_block_definition_json(*v)->Obj_0[1].1);
        assert(jview(fields@[2].1) == destiny_item_objective_block_definition_json(*v)->Obj_0[2].1);
        assert(jview(fields@[3].1) == destiny_item_objective_block_definition_json(*v)->Obj_0[3].1);
        assert(jview(fields@[4].1) == destiny_item_objective_block_definition_json(*v)->Obj_0[4].1);
        assert(jview(fields@[5].1) == destiny_item_objective_block_definition_json(*v)->Obj_0[5].1);
        assert(jview(fields@[6].1) == destiny_item_objective_block_definition_json(*v)->Obj_0[6].1);
        assert(jview(fields@[7].1) == destiny_item_objective_block_definition_json(*v)->Obj_0[7].1);
        assert(jview(fields@[8].1) == destiny_item_objective_block_definition_json(*v)->Obj_0[8].1);
        assert(jview(fields@[9].1) == destiny_item_objective_block_definition_json(*v)->Obj_0[9].1);
        assert(jview(fields@[10].1) == destiny_item_objective_block_definition_json(*v)->Obj_0[10].1);
        assert(jview(fields@[11].1) == destiny_item_objective_block_definition_json(*v)->Obj_0[11].1);
        assert(jview(fields@[12].1) == destiny_item_objective_block_definition_json(*v)->Obj_0[12].1);
        assert(jview(fields@[13].1) == destiny_item_objective_block_definition_json(*v)->Obj_0[13].1);
        assert(jview(fields@[14].1) == destiny_item_objective_block_definition_json(*v)->Obj_0[14].1);
        assert(jview(fields@[15].1) == destiny_item_objective_block_definition_json(*v)->Obj_0[15].1);
        assert(jview(r)->Obj_0 =~= destiny_item_objective_block_definition_json(*v)->Obj_0);
    }
    r
}

/// Decodes this record; a failure names the offending field in its
/// path and says what was expected of it.
#[verifier::loop_isolation(false)]
#[verifier::rlimit(60)]
pub fn decode_destiny_item_objective_block_definition(j: &JsonValue) -> (r: Result<DestinyItemObjectiveBlockDefinition, DecodeError>)
    ensures
        r is Ok <==> destiny_item_objective_block_definition_wf(jview(*j)),
        r matches Ok(w) ==> (jview(*j) matches Json::Obj(fields)
            && destiny_item_objective_block_definition_fields_match(fields, w)),
        r matches Err(e) ==> destiny_item_objective_block_definition_err_ok(jview(*j), e),
{
    let fields = match j {
        JsonValue::Obj(fields) => fields,
        _ => {
            return Err(root_error("an object"));
        },
    };
    let ghost gf = jview(*j)->Obj_0;
    let objective_hashes = match j.get("objectiveHashes") {
        Option::None => {
            return Err(field_error("objectiveHashes", "an array"));
        },
        Some(arr) => match arr {
            JsonValue::Arr(items) => {
                let ghost gitems = jview(*arr)->Arr_0;
                let mut out: Vec<u32> = Vec::new();
                let mut i: usize = 0;
                while i < items.len()
                    invariant
                        i <= items.len(),
                        out@.len() == i,
                        forall|k: int| 0 <= k < i ==> (#[trigger] gitems[k]) == Json::Int(out@[k] as int),
                    decreases items.len() - i,
                {
                    proof {
                        assert(gitems[i as int] == jview(items@[i as int]));
                    }
                    let n = match items[i].to_i64() {
                        Some(n) if 0 <= n && n <= u32::MAX as i64 => n,
                        _ => {
                            return Err(indexed_error("objectiveHashes", i, field_error("", "a 32-bit unsigned integer")));
                        },
                    };
                    out.push(n as u32);
                    i = i + 1;
                }
                out
            },
            _ => {
                return Err(field_error("objectiveHashes", "an array"));
            },
        },
    };
    let display_activity_hashes = match j.get("displayActivityHashes") {
        Option::None => {
            return Err(field_error("displayActivityHashes", "an array"));
        },
        Some(arr) => match arr {
            JsonValue::Arr(items) => {
                let ghost gitems = jview(*arr)->Arr_0;
                let mut out: Vec<u32> = Vec::new();
                let mut i: usize = 0;
                while i < items.len()
                    invariant
                        i <= items.len(),
                        out@.len() == i,
                        forall|k: int| 0 <= k < i ==> (#[trigger] gitems[k]) == Json::Int(out@[k] as int),
                    decreases items.len() - i,
                {
                    proof {
                        assert(gitems[i as int] == jview(items@[i as int]));
                    }
                    let n = match items[i].to_i64() {
                        Some(n) if 0 <= n && n <= u32::MAX as i64 => n,
                        _ => {
                            return Err(indexed_error("displayActivityHashes", i, field_error("", "a 32-bit unsigned integer")));
                        },
                    };
                    out.push(n as u32);
                    i = i + 1;
                }
                out
            },
            _ => {
                return Err(field_error("displayActivityHashes", "an array"));
            },
        },
    };
    let require_full_objective_completion = match j.get("requireFullObjectiveCompletion") {
        Some(JsonValue::Bool(b)) => *b,
        _ => {
            return Err(field_error("requireFullObjectiveCompletion", "a boolean"));
        },
    };
    let questline_item_hash = match j.get("questlineItemHash") {
        Some(v) => match v.to_i64() {
            Some(n) if 0 <= n && n <= u32::MAX as i64 => n as u32,
            _ => {
                return Err(field_error("questlineItemHash", "a 32-bit unsigned integer"));
            },
        },
        _ => {
            return Err(field_error("questlineItemHash", "a 32-bit unsigned integer"));
        },
    };
    let narrative = match j.get("narrative") {
        Some(JsonValue::Str(s)) => s.clone(),
        _ => {
            return Err(field_error("narrative", "a string"));
        },
    };
    let objective_verb_name = match j.get("objectiveVerbName") {
        Some(JsonValue::Str(s)) => s.clone(),
        _ => {
            return Err(field_error("objectiveVerbName", "a string"));
        },
    };
    let quest_type_identifier = match j.get("questTypeIdentifier") {
        Some(JsonValue::Str(s)) => s.clone(),
        _ => {
            return Err(field_error("questTypeIdentifier", "a string"));
        },
    };
    let quest_type_hash = match j.get("questTypeHash") {
        Some(v) => match v.to_i64() {
            Some(n) if 0 <= n && n <= u32::MAX as i64 => n as u32,
            _ => {
                return Err(field_error("questTypeHash", "a 32-bit unsigned integer"));
            },
        },
        _ => {
            return Err(field_error("questTypeHash", "a 32-bit unsigned integer"));
        },
    };
    let completion_reward_site_hash = match j.get("completionRewardSiteHash") {
        Some(v) => match v.to_i64() {
            Some(n) if 0 <= n && n <= u32::MAX as i64 => n as u32,
            _ => {
                return Err(field_error("completionRewardSiteHash", "a 32-bit unsigned integer"));
            },
        },
        _ => {
            return Err(field_error("completionRewardSiteHash", "a 32-bit unsigned integer"));
        },
    };
    let next_quest_step_reward_site_hash = match j.get("nextQuestStepRewardSiteHash") {
        Some(v) => match v.to_i64() {
            Some(n) if 0 <= n && n <= u32::MAX as i64 => n as u32,
            _ => {
                return Err(field_error("nextQuestStepRewardSiteHash", "a 32-bit unsigned integer"));
            },
        },
        _ => {
            return Err(field_error("nextQuestStepRewardSiteHash", "a 32-bit unsigned integer"));
        },
    };
    let timestamp_unlock_value_hash = match j.get("timestampUnlockValueHash") {
        Some(v) => match v.to_i64() {
            Some(n) if 0 <= n && n <= u32::MAX as i64 => n as u32,
            _ => {
                return Err(field_error("timestampUnlockValueHash", "a 32-bit unsigned integer"));
            },
        },
        _ => {
            return Err(field_error("timestampUnlockValueHash", "a 32-bit unsigned integer"));
        },
    };
    let is_global_objective_item = match j.get("isGlobalObjectiveItem") {
        Some(JsonValue::Bool(b)) => *b,
        _ => {
            return Err(field_error("isGlobalObjectiveItem", "a boolean"));
        },
    };
    let use_on_objective_completion = match j.get("useOnObjectiveCompletion") {
        Some(JsonValue::Bool(b)) => *b,
        _ => {
            return Err(field_error("useOnObjectiveCompletion", "a boolean"));
        },
    };
    let inhibit_completion_unlock_value_hash = match j.get("inhibitCompletionUnlockValueHash") {
        Some(v) => match v.to_i64() {
            Some(n) if 0 <= n && n <= u32::MAX as i64 => n as u32,
            _ => {
                return Err(field_error("inhibitCompletionUnlockValueHash", "a 32-bit unsigned integer"));
            },
        },
        _ => {
            return Err(field_error("inhibitCompletionUnlockValueHash", "a 32-bit unsigned integer"));
        },
    };
    let per_objective_display_properties = match j.get("perObjectiveDisplayProperties") {
        Option::None => {
            return Err(field_error("perObjectiveDisplayProperties", "an array"));
        },
        Some(arr) => match arr {
            JsonValue::Arr(items) => {
                let ghost gitems = jview(*arr)->Arr_0;
                let mut out: Vec<DestinyObjectiveDisplayProperties> = Vec::new();
                let mut i: usize = 0;
                while i < items.len()
                    invariant
                        i <= items.len(),
                        out@.len() == i,
                        forall|k: int| 0 <= k < i
                            ==> (destiny_objective_display_properties_wf(#[trigger] gitems[k])
                                && (gitems[k] matches Json::Obj(f2)
                                && destiny_objective_display_properties_fields_match(f2, out@[k]))),
                    decreases items.len() - i,
                {
                    proof {
                        assert(gitems[i as int] == jview(items@[i as int]));
                    }
                    match decode_destiny_objective_display_properties(&items[i]) {
                        Ok(r) => {
                            out.push(r);
                        },
                        Err(e) => {
                            return Err(indexed_error("perObjectiveDisplayProperties", i, e));
                        },
                    }
                    i = i + 1;
                }
                out
            },
            _ => {
                return Err(field_error("perObjectiveDisplayProperties", "an array"));
            },
        },
    };
    let display_as_stat_tracker = match j.get("displayAsStatTracker") {
        Some(JsonValue::Bool(b)) => *b,
        _ => {
            return Err(field_error("displayAsStatTracker", "a boolean"));
        },
    };
    let mut i: usize = 0;
    while i < fields.len()
        invariant
            i <= fields.len(),
            gf.len() == fields@.len(),
            forall|k: int| 0 <= k < gf.len()
                ==> #[trigger] gf[k] == (fields@[k].0@, jview(fields@[k].1)),
            forall|k: int| 0 <= k < i
                ==> ((#[trigger] gf[k]).0 == "objectiveHashes"@ || gf[k].0 == "displayActivityHashes"@ || gf[k].0 == "requireFullObjectiveCompletion"@ || gf[k].0 == "questlineItemHash"@ || gf[k].0 == "narrative"@ || gf[k].0 == "objectiveVerbName"@ || gf[k].0 == "questTypeIdentifier"@ || gf[k].0 == "questTypeHash"@ || gf[k].0 == "completionRewardSiteHash"@ || gf[k].0 == "nextQuestStepRewardSiteHash"@ || gf[k].0 == "timestampUnlockValueHash"@ || gf[k].0 == "isGlobalObjectiveItem"@ || gf[k].0 == "useOnObjectiveCompletion"@ || gf[k].0 == "inhibitCompletionUnlockValueHash"@ || gf[k].0 == "perObjectiveDisplayProperties"@ || gf[k].0 == "displayAsStatTracker"@),
        decreases fields.len() - i,
    {
        let name = fields[i].0.as_str();
        if !(str_eq(name, "objectiveHashes") || str_eq(name, "displayActivityHashes") || str_eq(name, "requireFullObjectiveCompletion") || str_eq(name, "questlineItemHash") || str_eq(name, "narrative") || str_eq(name, "objectiveVerbName") || str_eq(name, "questTypeIdentifier") || str_eq(name, "questTypeHash") || str_eq(name, "completionRewardSiteHash") || str_eq(name, "nextQuestStepRewardSiteHash") || str_eq(name, "timestampUnlockValueHash") || str_eq(name, "isGlobalObjectiveItem") || str_eq(name, "useOnObjectiveCompletion") || str_eq(name, "inhibitCompletionUnlockValueHash") || str_eq(name, "perObjectiveDisplayProperties") || str_eq(name, "displayAsStatTracker")) {
            proof {
                assert(gf[i as int].0 == fields@[i as int].0@);
                assert(!destiny_item_objective_block_definition_wf(jview(*j)));
            }
            return Err(field_error(fields[i].0.as_str(), "an unknown field"));
        }
        i = i + 1;
    }
    Ok(DestinyItemObjectiveBlockDefinition { objective_hashes, display_activity_hashes, require_full_objective_completion, questline_item_hash, narrative, objective_verb_name, quest_type_identifier, quest_type_hash, completion_reward_site_hash, next_quest_step_reward_site_hash, timestamp_unlock_value_hash, is_global_objective_item, use_on_objective_completion, inhibit_completion_unlock_value_hash, per_objective_display_properties, display_as_stat_tracker })
}

/// The wire image of a record is well formed and matched by the
/// record itself: encoding loses nothing that decoding reads.
#[verifier::rlimit(60)]
pub proof fn lemma_destiny_item_objective_block_definition_image(v: DestinyItemObjectiveBlockDefinition)
    ensures
        destiny_item_objective_block_definition_wf(destiny_item_objective_block_definition_json(v)),
        destiny_item_objective_block_definition_json(v) matches Json::Obj(fields) && destiny_item_objective_block_definition_fields_match(fields, v),
{
    reveal_strlit("objectiveHashes");
    reveal_strlit("displayActivityHashes");
    reveal_strlit("requireFullObjectiveCompletion");
    reveal_strlit("questlineItemHash");
    reveal_strlit("narrative");
    reveal_strlit("objectiveVerbName");
    reveal_strlit("questTypeIdentifier");
    reveal_strlit("questTypeHash");
    reveal_strlit("completionRewardSiteHash");
    reveal_strlit("nextQuestStepRewardSiteHash");
    reveal_strlit("timestampUnlockValueHash");
    reveal_strlit("isGlobalObjectiveItem");
    reveal_strlit("useOnObjectiveCompletion");
    reveal_strlit("inhibitCompletionUnlockValueHash");
    reveal_strlit("perObjectiveDisplayProperties");
    reveal_strlit("displayAsStatTracker");
    let fields = destiny_item_objective_block_definition_json(v)->Obj_0;
    assert("objectiveHashes"@.len() == 15);
    assert("displayActivityHashes"@.len() == 21);
    assert("requireFullObjectiveCompletion"@.len() == 30);
    assert("questlineItemHash"@.len() == 17);
    assert("narrative"@.len() == 9);
    assert("objectiveVerbName"@.len() == 17);
    assert("questTypeIdentifier"@.len() == 19);
    assert("questTypeHash"@.len() == 13);
    assert("completionRewardSiteHash"@.len() == 24);
    assert("nextQuestStepRewardSiteHash"@.len() == 27);
    assert("timestampUnlockValueHash"@.len() == 24);
    assert("isGlobalObjectiveItem"@.len() == 21);
    assert("useOnObjectiveCompletion"@.len() == 24);
    assert("inhibitCompletionUnlockValueHash"@.len() == 32);
    assert("perObjectiveDisplayProperties"@.len() == 29);
    assert("displayAsStatTracker"@.len() == 20);
    assert("objectiveHashes"@ != "displayActivityHashes"@);
    assert("objectiveHashes"@ != "requireFullObjectiveCompletion"@);
    assert("objectiveHashes"@ != "questlineItemHash"@);
    assert("objectiveHashes"@ != "narrative"@);
    assert("objectiveHashes"@ != "objectiveVerbName"@);
    assert("objectiveHashes"@ != "questTypeIdentifier"@);
    assert("objectiveHashes"@ != "questTypeHash"@);
    assert("objectiveHashes"@ != "completionRewardSiteHash"@);
    assert("objectiveHashes"@ != "nextQuestStepRewardSiteHash"@);
    assert("objectiveHashes"@ != "timestampUnlockValueHash"@);
    assert("objectiveHashes"@ != "isGlobalObjectiveItem"@);
    assert("objectiveHashes"@ != "useOnObjectiveCompletion"@);
    assert("objectiveHashes"@ != "inhibitCompletionUnlockValueHash"@);
    assert("objectiveHashes"@ != "perObjectiveDisplayProperties"@);
    assert("objectiveHashes"@ != "displayAsStatTracker"@);
    assert("displayActivityHashes"@ != "requireFullObjectiveCompletion"@);
    assert("displayActivityHashes"@ != "questlineItemHash"@);
    assert("displayActivityHashes"@ != "narrative"@);
    assert("displayActivityHashes"@ != "objectiveVerbName"@);
    assert("displayActivityHashes"@ != "questTypeIdentifier"@);
    assert("displayActivityHashes"@ != "questTypeHash"@);
    assert("displayActivityHashes"@ != "completionRewardSiteHash"@);
    assert("displayActivityHashes"@ != "nextQuestStepRewardSiteHash"@);
    assert("displayActivityHashes"@ != "timestampUnlockValueHash"@);
    assert(("displayActivityHashes"@)[0] != ("isGlobalObjectiveItem"@)[0]);
    assert("displayActivityHashes"@ != "isGlobalObjectiveItem"@);
    assert("displayActivityHashes"@ != "useOnObjectiveCompletion"@);
    assert("displayActivityHashes"@ != "inhibitCompletionUnlockValueHash"@);
    assert("displayActivityHashes"@ != "perObjectiveDisplayProperties"@);
    assert("displayActivityHashes"@ != "displayAsStatTracker"@);
    assert("requireFullObjectiveCompletion"@ != "questlineItemHash"@);
    assert("requireFullObjectiveCompletion"@ != "narrative"@);
    assert("requireFullObjectiveCompletion"@ != "objectiveVerbName"@);
    assert("requireFullObjectiveCompletion"@ != "questTypeIdentifier"@);
    assert("requireFullObjectiveCompletion"@ != "questTypeHash"@);
    assert("requireFullObjectiveCompletion"@ != "completionRewardSiteHash"@);
    assert("requireFullObjectiveCompletion"@ != "nextQuestStepRewardSiteHash"@);
    assert("requireFullObjectiveCompletion"@ != "timestampUnlockValueHash"@);
    assert("requireFullObjectiveCompletion"@ != "isGlobalObjectiveItem"@);
    assert("requireFullObjectiveCompletion"@ != "useOnObjectiveCompletion"@);
    assert("requireFullObjectiveCompletion"@ != "inhibitCompletionUnlockValueHash"@);
    assert("requireFullObjectiveCompletion"@ != "perObjectiveDisplayProperties"@);
    assert("requireFullObjectiveCompletion"@ != "displayAsStatTracker"@);
    assert("questlineItemHash"@ != "narrative"@);
    assert(("questlineItemHash"@)[0] != ("objectiveVerbName"@)[0]);
    assert("questlineItemHash"@ != "objectiveVerbName"@);
    assert("questlineItemHash"@ != "questTypeIdentifier"@);
    assert("questlineItemHash"@ != "questTypeHash"@);
    assert("questlineItemHash"@ != "completionRewardSiteHash"@);
    assert("questlineItemHash"@ != "nextQuestStepRewardSiteHash"@);
    assert("questlineItemHash"@ != "timestampUnlockValueHash"@);
    assert("questlineItemHash"@ != "isGlobalObjectiveItem"@);
    assert("questlineItemHash"@ != "useOnObjectiveCompletion"@);
    assert("questlineItemHash"@ != "inhibitCompletionUnlockValueHash"@);
    assert("questlineItemHash"@ != "perObjectiveDisplayProperties"@);
    assert("questlineItemHash"@ != "displayAsStatTracker"@);
    assert("narrative"@ != "objectiveVerbName"@);
    assert("narrative"@ != "questTypeIdentifier"@);
    assert("narrative"@ != "questTypeHash"@);
    assert("narrative"@ != "completionRewardSiteHash"@);
    assert("narrative"@ != "nextQuestStepRewardSiteHash"@);
    assert("narrative"@ != "timestampUnlockValueHash"@);
    assert("narrative"@ != "isGlobalObjectiveItem"@);
    assert("narrative"@ != "useOnObjectiveCompletion"@);
    assert("narrative"@ != "inhibitCompletionUnlockValueHash"@);
    assert("narrative"@ != "perObjectiveDisplayProperties"@);
    assert("narrative"@ != "displayAsStatTracker"@);
    assert("objectiveVerbName"@ != "questTypeIdentifier"@);
    assert("objectiveVerbName"@ != "questTypeHash"@);
    assert("objectiveVerbName"@ != "completionRewardSiteHash"@);
    assert("objectiveVerbName"@ != "nextQuestStepRewardSiteHash"@);
    assert("objectiveVerbName"@ != "timestampUnlockValueHash"@);
    assert("objectiveVerbName"@ != "isGlobalObjectiveItem"@);
    assert("objectiveVerbName"@ != "useOnObjectiveCompletion"@);
    assert("objectiveVerbName"@ != "inhibitCompletionUnlockValueHash"@);
    assert("objectiveVerbName"@ != "perObjectiveDisplayProperties"@);
    assert("objectiveVerbName"@ != "displayAsStatTracker"@);
    assert("questTypeIdentifier"@ != "questTypeHash"@);
    assert("questTypeIdentifier"@ != "completionRewardSiteHash"@);
    assert("questTypeIdentifier"@ != "nextQuestStepRewardSiteHash"@);
    assert("questTypeIdentifier"@ != "timestampUnlockValueHash"@);
    assert("questTypeIdentifier"@ != "isGlobalObjectiveItem"@);
    assert("questTypeIdentifier"@ != "useOnObjectiveCompletion"@);
    assert("questTypeIdentifier"@ != "inhibitCompletionUnlockValueHash"@);
    assert("questTypeIdentifier"@ != "perObjectiveDisplayProperties"@);
    assert("questTypeIdentifier"@ != "displayAsStatTracker"@);
    assert("questTypeHash"@ != "completionRewardSiteHash"@);
    assert("questTypeHash"@ != "nextQuestStepRewardSiteHash"@);
    assert("questTypeHash"@ != "timestampUnlockValueHash"@);
    assert("questTypeHash"@ != "isGlobalObjectiveItem"@);
    assert("questTypeHash"@ != "useOnObjectiveCompletion"@);
    assert("questTypeHash"@ != "inhibitCompletionUnlockValueHash"@);
    assert("questTypeHash"@ != "perObjectiveDisplayProperties"@);
    assert("questTypeHash"@ != "displayAsStatTracker"@);
    assert("completionRewardSiteHash"@ != "nextQuestStepRewardSiteHash"@);
    assert(("completionRewardSiteHash"@)[0] != ("timestampUnlockValueHash"@)[0]);
    assert("completionRewardSiteHash"@ != "timestampUnlockValueHash"@);
    assert("completionRewardSiteHash"@ != "isGlobalObjectiveItem"@);
    assert(("completionRewardSiteHash"@)[0] != ("useOnObjectiveCompletion"@)[0]);
    assert("completionRewardSiteHash"@ != "useOnObjectiveCompletion"@);
    assert("completionRewardSiteHash"@ != "inhibitCompletionUnlockValueHash"@);
    assert("completionRewardSiteHash"@ != "perObjectiveDisplayProperties"@);
    assert("completionRewardSiteHash"@ != "displayAsStatTracker"@);
    assert("nextQuestStepRewardSiteHash"@ != "timestampUnlockValueHash"@);
    assert("nextQuestStepRewardSiteHash"@ != "isGlobalObjectiveItem"@);
    assert("nextQuestStepRewardSiteHash"@ != "useOnObjectiveCompletion"@);
    assert("nextQuestStepRewardSiteHash"@ != "inhibitCompletionUnlockValueHash"@);
    assert("nextQuestStepRewardSiteHash"@ != "perObjectiveDisplayProperties"@);
    assert("nextQuestStepRewardSiteHash"@ != "displayAsStatTracker"@);
    assert("timestampUnlockValueHash"@ != "isGlobalObjectiveItem"@);
    assert(("timestampUnlockValueHash"@)[0] != ("useOnObjectiveCompletion"@)[0]);
    assert("timestampUnlockValueHash"@ != "useOnObjectiveCompletion"@);
    assert("timestampUnlockValueHash"@ != "inhibitCompletionUnlockValueHash"@);
    assert("timestampUnlockValueHash"@ != "perObjectiveDisplayProperties"@);
    assert("timestampUnlockValueHash"@ != "displayAsStatTracker"@);
    assert("isGlobalObjectiveItem"@ != "useOnObjectiveCompletion"@);
    assert("isGlobalObjectiveItem"@ != "inhibitCompletionUnlockValueHash"@);
    assert("isGlobalObjectiveItem"@ != "perObjectiveDisplayProperties"@);
    assert("isGlobalObjectiveItem"@ != "displayAsStatTracker"@);
    assert("useOnObjectiveCompletion"@ != "inhibitCompletionUnlockValueHash"@);
    assert("useOnObjectiveCompletion"@ != "perObjectiveDisplayProperties"@);
    assert("useOnObjectiveCompletion"@ != "displayAsStatTracker"@);
    assert("inhibitCompletionUnlockValueHash"@ != "perObjectiveDisplayProperties"@);
    assert("inhibitCompletionUnlockValueHash"@ != "displayAsStatTracker"@);
    assert("perObjectiveDisplayProperties"@ != "displayAsStatTracker"@);
    lemma_lookup_at(fields, 0);
    lemma_lookup_at(fields, 1);
    lemma_lookup_at(fields, 2);
    lemma_lookup_at(fields, 3);
    lemma_lookup_at(fields, 4);
    lemma_lookup_at(fields, 5);
    lemma_lookup_at(fields, 6);
    lemma_lookup_at(fields, 7);
    lemma_lookup_at(fields, 8);
    lemma_lookup_at(fields, 9);
    lemma_lookup_at(fields, 10);
    lemma_lookup_at(fields, 11);
    lemma_lookup_at(fields, 12);
    lemma_lookup_at(fields, 13);
    lemma_lookup_at(fields, 14);
    lemma_lookup_at(fields, 15);
    assert forall|i: int| 0 <= i < v.per_objective_display_properties@.len()
        implies (destiny_objective_display_properties_wf(#[trigger] fields[14].1->Arr_0[i])
            && (fields[14].1->Arr_0[i] matches Json::Obj(f2)
            && destiny_objective_display_properties_fields_match(f2, v.per_objective_display_properties@[i]))) by {
        assert(fields[14].1->Arr_0[i] == destiny_objective_display_properties_json(v.per_objective_display_properties@[i]));
        lemma_destiny_objective_display_properties_image(v.per_objective_display_properties@[i]);
    }
}

/// Decoding the encoded image of a record yields a record whose
/// every field carries the same content as the one encoded.
#[verifier::rlimit(60)]
pub proof fn lemma_destiny_item_objective_block_definition_round_trip(v: DestinyItemObjectiveBlockDefinition, w: DestinyItemObjectiveBlockDefinition)
    requires
        destiny_item_objective_block_definition_json(v) matches Json::Obj(fields) && destiny_item_objective_block_definition_fields_match(fields, w),
    ensures
        destiny_item_objective_block_definition_wf(destiny_item_objective_block_definition_json(v)),
        w.objective_hashes@ == v.objective_hashes@,
        w.display_activity_hashes@ == v.display_activity_hashes@,
        w.require_full_objective_completion == v.require_full_objective_completion,
        w.questline_item_hash == v.questline_item_hash,
        w.narrative@ == v.narrative@,
        w.objective_verb_name@ == v.objective_verb_name@,
        w.quest_type_identifier@ == v.quest_type_identifier@,
        w.quest_type_hash == v.quest_type_hash,
        w.completion_reward_site_hash == v.completion_reward_site_hash,
        w.next_quest_step_reward_site_hash == v.next_quest_step_reward_site_hash,
        w.timestamp_unlock_value_hash == v.timestamp_unlock_value_hash,
        w.is_global_objective_item == v.is_global_objective_item,
        w.use_on_objective_completion == v.use_on_objective_completion,
        w.inhibit_completion_unlock_value_hash == v.inhibit_completion_unlock_value_hash,
        w.per_objective_display_properties@.len() == v.per_objective_display_properties@.len(),
        forall|i: int| 0 <= i < v.per_objective_display_properties@.len() ==> (destiny_objective_display_properties_json(v.per_objective_display_properties@[i]) matches Json::Obj(f2) && destiny_objective_display_properties_fields_match(f2, #[trigger] w.per_objective_display_properties@[i])),
        w.display_as_stat_tracker == v.display_as_stat_tracker,
{
    lemma_destiny_item_objective_block_definition_image(v);
    let fields = destiny_item_objective_block_definition_json(v)->Obj_0;
    reveal_strlit("objectiveHashes");
    reveal_strlit("displayActivityHashes");
    reveal_strlit("requireFullObjectiveCompletion");
    reveal_strlit("questlineItemHash");
    reveal_strlit("narrative");
    reveal_strlit("objectiveVerbName");
    reveal_strlit("questTypeIdentifier");
    reveal_strlit("questTypeHash");
    reveal_strlit("completionRewardSiteHash");
    reveal_strlit("nextQuestStepRewardSiteHash");
    reveal_strlit("timestampUnlockValueHash");
    reveal_strlit("isGlobalObjectiveItem");
    reveal_strlit("useOnObjectiveCompletion");
    reveal_strlit("inhibitCompletionUnlockValueHash");
    reveal_strlit("perObjectiveDisplayProperties");
    reveal_strlit("displayAsStatTracker");
    assert("objectiveHashes"@.len() == 15);
    assert("displayActivityHashes"@.len() == 21);
    assert("requireFullObjectiveCompletion"@.len() == 30);
    assert("questlineItemHash"@.len() == 17);
    assert("narrative"@.len() == 9);
    assert("objectiveVerbName"@.len() == 17);
    assert("questTypeIdentifier"@.len() == 19);
    assert("questTypeHash"@.len() == 13);
    assert("completionRewardSiteHash"@.len() == 24);
    assert("nextQuestStepRewardSiteHash"@.len() == 27);
    assert("timestampUnlockValueHash"@.len() == 24);
    assert("isGlobalObjectiveItem"@.len() == 21);
    assert("useOnObjectiveCompletion"@.len() == 24);
    assert("inhibitCompletionUnlockValueHash"@.len() == 32);
    assert("perObjectiveDisplayProperties"@.len() == 29);
    assert("displayAsStatTracker"@.len() == 20);
    assert("objectiveHashes"@ != "displayActivityHashes"@);
    assert("objectiveHashes"@ != "requireFullObjectiveCompletion"@);
    assert("objectiveHashes"@ != "questlineItemHash"@);
    assert("objectiveHashes"@ != "narrative"@);
    assert("objectiveHashes"@ != "objectiveVerbName"@);
    assert("objectiveHashes"@ != "questTypeIdentifier"@);
    assert("objectiveHashes"@ != "questTypeHash"@);
    assert("objectiveHashes"@ != "completionRewardSiteHash"@);
    assert("objectiveHashes"@ != "nextQuestStepRewardSiteHash"@);
    assert("objectiveHashes"@ != "timestampUnlockValueHash"@);
    assert("objectiveHashes"@ != "isGlobalObjectiveItem"@);
    assert("objectiveHashes"@ != "useOnObjectiveCompletion"@);
    assert("objectiveHashes"@ != "inhibitCompletionUnlockValueHash"@);
    assert("objectiveHashes"@ != "perObjectiveDisplayProperties"@);
    assert("objectiveHashes"@ != "displayAsStatTracker"@);
    assert("displayActivityHashes"@ != "requireFullObjectiveCompletion"@);
    assert("displayActivityHashes"@ != "questlineItemHash"@);
    assert("displayActivityHashes"@ != "narrative"@);
    assert("displayActivityHashes"@ != "objectiveVerbName"@);
    assert("displayActivityHashes"@ != "questTypeIdentifier"@);
    assert("displayActivityHashes"@ != "questTypeHash"@);
    assert("displayActivityHashes"@ != "completionRewardSiteHash"@);
    assert("displayActivityHashes"@ != "nextQuestStepRewardSiteHash"@);
    assert("displayActivityHashes"@ != "timestampUnlockValueHash"@);
    assert(("displayActivityHashes"@)[0] != ("isGlobalObjectiveItem"@)[0]);
    assert("displayActivityHashes"@ != "isGlobalObjectiveItem"@);
    assert("displayActivityHashes"@ != "useOnObjectiveCompletion"@);
    assert("displayActivityHashes"@ != "inhibitCompletionUnlockValueHash"@);
    assert("displayActivityHashes"@ != "perObjectiveDisplayProperties"@);
    assert("displayActivityHashes"@ != "displayAsStatTracker"@);
    assert("requireFullObjectiveCompletion"@ != "questlineItemHash"@);
    assert("requireFullObjectiveCompletion"@ != "narrative"@);
    assert("requireFullObjectiveCompletion"@ != "objectiveVerbName"@);
    assert("requireFullObjectiveCompletion"@ != "questTypeIdentifier"@);
    assert("requireFullObjectiveCompletion"@ != "questTypeHash"@);
    assert("requireFullObjectiveCompletion"@ != "completionRewardSiteHash"@);
    assert("requireFullObjectiveCompletion"@ != "nextQuestStepRewardSiteHash"@);
    assert("requireFullObjectiveCompletion"@ != "timestampUnlockValueHash"@);
    assert("requireFullObjectiveCompletion"@ != "isGlobalObjectiveItem"@);
    assert("requireFullObjectiveCompletion"@ != "useOnObjectiveCompletion"@);
    assert("requireFullObjectiveCompletion"@ != "inhibitCompletionUnlockValueHash"@);
    assert("requireFullObjectiveCompletion"@ != "perObjectiveDisplayProperties"@);
    assert("requireFullObjectiveCompletion"@ != "displayAsStatTracker"@);
    assert("questlineItemHash"@ != "narrative"@);
    assert(("questlineItemHash"@)[0] != ("objectiveVerbName"@)[0]);
    assert("questlineItemHash"@ != "objectiveVerbName"@);
    assert("questlineItemHash"@ != "questTypeIdentifier"@);
    assert("questlineItemHash"@ != "questTypeHash"@);
    assert("questlineItemHash"@ != "completionRewardSiteHash"@);
    assert("questlineItemHash"@ != "nextQuestStepRewardSiteHash"@);
    assert("questlineItemHash"@ != "timestampUnlockValueHash"@);
    assert("questlineItemHash"@ != "isGlobalObjectiveItem"@);
    assert("questlineItemHash"@ != "useOnObjectiveCompletion"@);
    assert("questlineItemHash"@ != "inhibitCompletionUnlockValueHash"@);
    assert("questlineItemHash"@ != "perObjectiveDisplayProperties"@);
    assert("questlineItemHash"@ != "displayAsStatTracker"@);
    assert("narrative"@ != "objectiveVerbName"@);
    assert("narrative"@ != "questTypeIdentifier"@);
    assert("narrative"@ != "questTypeHash"@);
    assert("narrative"@ != "completionRewardSiteHash"@);
    assert("narrative"@ != "nextQuestStepRewardSiteHash"@);
    assert("narrative"@ != "timestampUnlockValueHash"@);
    assert("narrative"@ != "isGlobalObjectiveItem"@);
    assert("narrative"@ != "useOnObjectiveCompletion"@);
    assert("narrative"@ != "inhibitCompletionUnlockValueHash"@);
    assert("narrative"@ != "perObjectiveDisplayProperties"@);
    assert("narrative"@ != "displayAsStatTracker"@);
    assert("objectiveVerbName"@ != "questTypeIdentifier"@);
    assert("objectiveVerbName"@ != "questTypeHash"@);
    assert("objectiveVerbName"@ != "completionRewardSiteHash"@);
    assert("objectiveVerbName"@ != "nextQuestStepRewardSiteHash"@);
    assert("objectiveVerbName"@ != "timestampUnlockValueHash"@);
    assert("objectiveVerbName"@ != "isGlobalObjectiveItem"@);
    assert("objectiveVerbName"@ != "useOnObjectiveCompletion"@);
    assert("objectiveVerbName"@ != "inhibitCompletionUnlockValueHash"@);
    assert("objectiveVerbName"@ != "perObjectiveDisplayProperties"@);
    assert("objectiveVerbName"@ != "displayAsStatTracker"@);
    assert("questTypeIdentifier"@ != "questTypeHash"@);
    assert("questTypeIdentifier"@ != "completionRewardSiteHash"@);
    assert("questTypeIdentifier"@ != "nextQuestStepRewardSiteHash"@);
    assert("questTypeIdentifier"@ != "timestampUnlockValueHash"@);
    assert("questTypeIdentifier"@ != "isGlobalObjectiveItem"@);
    assert("questTypeIdentifier"@ != "useOnObjectiveCompletion"@);
    assert("questTypeIdentifier"@ != "inhibitCompletionUnlockValueHash"@);
    assert("questTypeIdentifier"@ != "perObjectiveDisplayProperties"@);
    assert("questTypeIdentifier"@ != "displayAsStatTracker"@);
    assert("questTypeHash"@ != "completionRewardSiteHash"@);
    assert("questTypeHash"@ != "nextQuestStepRewardSiteHash"@);
    assert("questTypeHash"@ != "timestampUnlockValueHash"@);
    assert("questTypeHash"@ != "isGlobalObjectiveItem"@);
    assert("questTypeHash"@ != "useOnObjectiveCompletion"@);
    assert("questTypeHash"@ != "inhibitCompletionUnlockValueHash"@);
    assert("questTypeHash"@ != "perObjectiveDisplayProperties"@);
    assert("questTypeHash"@ != "displayAsStatTracker"@);
    assert("completionRewardSiteHash"@ != "nextQuestStepRewardSiteHash"@);
    assert(("completionRewardSiteHash"@)[0] != ("timestampUnlockValueHash"@)[0]);
    assert("completionRewardSiteHash"@ != "timestampUnlockValueHash"@);
    assert("completionRewardSiteHash"@ != "isGlobalObjectiveItem"@);
    assert(("completionRewardSiteHash"@)[0] != ("useOnObjectiveCompletion"@)[0]);
    assert("completionRewardSiteHash"@ != "useOnObjectiveCompletion"@);
    assert("completionRewardSiteHash"@ != "inhibitCompletionUnlockValueHash"@);
    assert("completionRewardSiteHash"@ != "perObjectiveDisplayProperties"@);
    assert("completionRewardSiteHash"@ != "displayAsStatTracker"@);
    assert("nextQuestStepRewardSiteHash"@ != "timestampUnlockValueHash"@);
    assert("nextQuestStepRewardSiteHash"@ != "isGlobalObjectiveItem"@);
    assert("nextQuestStepRewardSiteHash"@ != "useOnObjectiveCompletion"@);
    assert("nextQuestStepRewardSiteHash"@ != "inhibitCompletionUnlockValueHash"@);
    assert("nextQuestStepRewardSiteHash"@ != "perObjectiveDisplayProperties"@);
    assert("nextQuestStepRewardSiteHash"@ != "displayAsStatTracker"@);
    assert("timestampUnlockValueHash"@ != "isGlobalObjectiveItem"@);
    assert(("timestampUnlockValueHash"@)[0] != ("useOnObjectiveCompletion"@)[0]);
    assert("timestampUnlockValueHash"@ != "useOnObjectiveCompletion"@);
    assert("timestampUnlockValueHash"@ != "inhibitCompletionUnlockValueHash"@);
    assert("timestampUnlockValueHash"@ != "perObjectiveDisplayProperties"@);
    assert("timestampUnlockValueHash"@ != "displayAsStatTracker"@);
    assert("isGlobalObjectiveItem"@ != "useOnObjectiveCompletion"@);
    assert("isGlobalObjectiveItem"@ != "inhibitCompletionUnlockValueHash"@);
    assert("isGlobalObjectiveItem"@ != "perObjectiveDisplayProperties"@);
    assert("isGlobalObjectiveItem"@ != "displayAsStatTracker"@);
    assert("useOnObjectiveCompletion"@ != "inhibitCompletionUnlockValueHash"@);
    assert("useOnObjectiveCompletion"@ != "perObjectiveDisplayProperties"@);
    assert("useOnObjectiveCompletion"@ != "displayAsStatTracker"@);
    assert("inhibitCompletionUnlockValueHash"@ != "perObjectiveDisplayProperties"@);
    assert("inhibitCompletionUnlockValueHash"@ != "displayAsStatTracker"@);
    assert("perObjectiveDisplayProperties"@ != "displayAsStatTracker"@);
    lemma_lookup_at(fields, 0);
    lemma_lookup_at(fields, 1);
    lemma_lookup_at(fields, 2);
    lemma_lookup_at(fields, 3);
    lemma_lookup_at(fields, 4);
    lemma_lookup_at(fields, 5);
    lemma_lookup_at(fields, 6);
    lemma_lookup_at(fields, 7);
    lemma_lookup_at(fields, 8);
    lemma_lookup_at(fields, 9);
    lemma_lookup_at(fields, 10);
    lemma_lookup_at(fields, 11);
    lemma_lookup_at(fields, 12);
    lemma_lookup_at(fields, 13);
    lemma_lookup_at(fields, 14);
    lemma_lookup_at(fields, 15);
    assert(w.objective_hashes@ =~= v.objective_hashes@) by {
        assert forall|i: int| 0 <= i < v.objective_hashes@.len()
            implies #[trigger] w.objective_hashes@[i] == v.objective_hashes@[i] by {
            assert(spec_lookup(fields, "objectiveHashes"@) matches Some(Json::Arr(items))
                && (items[i] == Json::Int(v.objective_hashes@[i] as int)
                && items[i] == Json::Int(w.objective_hashes@[i] as int)));
        }
    }
    assert(w.display_activity_hashes@ =~= v.display_activity_hashes@) by {
        assert forall|i: int| 0 <= i < v.display_activity_hashes@.len()
            implies #[trigger] w.display_activity_hashes@[i] == v.display_activity_hashes@[i] by {
            assert(spec_lookup(fields, "displayActivityHashes"@) matches Some(Json::Arr(items))
                && (items[i] == Json::Int(v.display_activity_hashes@[i] as int)
                && items[i] == Json::Int(w.display_activity_hashes@[i] as int)));
        }
    }
    assert forall|i: int| 0 <= i < v.per_objective_display_properties@.len()
        implies (destiny_objective_display_properties_json(v.per_objective_display_properties@[i]) matches Json::Obj(f2)
            && destiny_objective_display_properties_fields_match(f2, #[trigger] w.per_objective_display_properties@[i])) by {
        assert(fields[14].1->Arr_0[i] == destiny_objective_display_properties_json(v.per_objective_display_properties@[i]));
        lemma_destiny_objective_display_properties_image(v.per_objective_display_properties@[i]);
    }
}

/// The wire image of this record.
pub open spec fn destiny_item_quality_block_definition_json(v: DestinyItemQualityBlockDefinition) -> Json {
    Json::Obj(
        seq![
            ("itemLevels"@, Json::Arr(Seq::new(v.item_levels@.len(), |i: int| if 0 <= i < v.item_levels@.len() { Json::Int(v.item_levels@[i] as int) } else { Json::Null }))),
            ("qualityLevel"@, Json::Int(v.quality_level as int)),
            ("infusionCategoryName"@, Json::Str(v.infusion_category_name@)),
            ("infusionCategoryHash"@, Json::Int(v.infusion_category_hash as int)),
            ("infusionCategoryHashes"@, Json::Arr(Seq::new(v.infusion_category_hashes@.len(), |i: int| if 0 <= i < v.infusion_category_hashes@.len() { Json::Int(v.infusion_category_hashes@[i] as int) } else { Json::Null }))),
            ("progressionLevelRequirementHash"@, Json::Int(v.progression_level_requirement_hash as int)),
            ("currentVersion"@, Json::Int(v.current_version as int)),
            ("versions"@, Json::Arr(Seq::new(v.versions@.len(), |i: int| if 0 <= i < v.versions@.len() { destiny_item_version_definition_json(v.versions@[i]) } else { Json::Null }))),
            ("displayVersionWatermarkIcons"@, Json::Arr(Seq::new(v.display_version_watermark_icons@.len(), |i: int| if 0 <= i < v.display_version_watermark_icons@.len() { Json::Str(v.display_version_watermark_icons@[i]@) } else { Json::Null }))),
        ],
    )
}

/// Whether a document decodes as this record: an object with exactly these fields.
pub open spec fn destiny_item_quality_block_definition_wf(j: Json) -> bool {
    &&& j matches Json::Obj(fields)
    &&& match spec_lookup(fields, "itemLevels"@) { Option::None => false, Some(Json::Arr(items)) => forall|i: int| 0 <= i < items.len() ==> ((#[trigger] items[i]) matches Json::Int(n) && i32::MIN as int <= n <= i32::MAX as int), _ => false }
    &&& spec_lookup(fields, "qualityLevel"@) matches Some(Json::Int(n)) && i32::MIN as int <= n <= i32::MAX as int
    &&& spec_lookup(fields, "infusionCategoryName"@) matches Some(Json::Str(_))
    &&& spec_lookup(fields, "infusionCategoryHash"@) matches Some(Json::Int(n)) && 0 <= n <= u32::MAX as int
    &&& match spec_lookup(fields, "infusionCategoryHashes"@) { Option::None => false, Some(Json::Arr(items)) => forall|i: int| 0 <= i < items.len() ==> ((#[trigger] items[i]) matches Json::Int(n) && 0 <= n <= u32::MAX as int), _ => false }
    &&& spec_lookup(fields, "progressionLevelRequirementHash"@) matches Some(Json::Int(n)) && 0 <= n <= u32::MAX as int
    &&& spec_lookup(fields, "currentVersion"@) matches Some(Json::Int(n)) && 0 <= n <= u32::MAX as int
    &&& match spec_lookup(fields, "versions"@) { Option::None => false, Some(Json::Arr(items)) => forall|i: int| 0 <= i < items.len() ==> destiny_item_version_definition_wf(#[trigger] items[i]), _ => false }
    &&& match spec_lookup(fields, "displayVersionWatermarkIcons"@) { Option::None => false, Some(Json::Arr(items)) => forall|i: int| 0 <= i < items.len() ==> (#[trigger] items[i]) is Str, _ => false }
    &&& forall|i: int| 0 <= i < fields.len()
        ==> ((#[trigger] fields[i]).0 == "itemLevels"@ || fields[i].0 == "qualityLevel"@ || fields[i].0 == "infusionCategoryName"@ || fields[i].0 == "infusionCategoryHash"@ || fields[i].0 == "infusionCategoryHashes"@ || fields[i].0 == "progressionLevelRequirementHash"@ || fields[i].0 == "currentVersion"@ || fields[i].0 == "versions"@ || fields[i].0 == "displayVersionWatermarkIcons"@)
}

/// How a decoded record relates to the document it came from.
pub open spec fn destiny_item_quality_block_definition_fields_match(fields: Seq<(Seq<char>, Json)>, w: DestinyItemQualityBlockDefinition) -> bool {
    &&& match spec_lookup(fields, "itemLevels"@) { Option::None => false, Some(Json::Arr(items)) => w.item_levels@.len() == items.len() && (forall|i: int| 0 <= i < items.len() ==> (#[trigger] items[i]) == Json::Int(w.item_levels@[i] as int)), _ => false }
    &&& spec_lookup(fields, "qualityLevel"@) == Some(Json::Int(w.quality_level as int))
    &&& spec_lookup(fields, "infusionCategoryName"@) == Some(Json::Str(w.infusion_category_name@))
    &&& spec_lookup(fields, "infusionCategoryHash"@) == Some(Json::Int(w.infusion_category_hash as int))
    &&& match spec_lookup(fields, "infusionCategoryHashes"@) { Option::None => false, Some(Json::Arr(items)) => w.infusion_category_hashes@.len() == items.len() && (forall|i: int| 0 <= i < items.len() ==> (#[trigger] items[i]) == Json::Int(w.infusion_category_hashes@[i] as int)), _ => false }
    &&& spec_lookup(fields, "progressionLevelRequirementHash"@) == Some(Json::Int(w.progression_level_requirement_hash as int))
    &&& spec_lookup(fields, "currentVersion"@) == Some(Json::Int(w.current_version as int))
    &&& match spec_lookup(fields, "versions"@) { Option::None => false, Some(Json::Arr(items)) => w.versions@.len() == items.len() && (forall|i: int| 0 <= i < items.len() ==> ((#[trigger] items[i]) matches Json::Obj(f2) && destiny_item_version_definition_fields_match(f2, w.versions@[i]))), _ => false }
    &&& match spec_lookup(fields, "displayVersionWatermarkIcons"@) { Option::None => false, Some(Json::Arr(items)) => w.display_version_watermark_icons@.len() == items.len() && (forall|i: int| 0 <= i < items.len() ==> (#[trigger] items[i]) == Json::Str(w.display_version_watermark_icons@[i]@)), _ => false }
}

/// What a decode failure names: its path points at a field of the
/// document that is indeed not decodable, and an undeclared
/// enumeration code is reported with the enumeration's own message.
pub open spec fn destiny_item_quality_block_definition_err_ok(j: Json, e: DecodeError) -> bool {
    &&& !(j matches Json::Obj(_)) ==> e.path@.len() == 0
    &&& j matches Json::Obj(fields) ==> (
        ((e.path@ == "itemLevels"@ || spec_starts_with(e.path@, "itemLevels"@)) && !(match spec_lookup(fields, "itemLevels"@) { Option::None => false, Some(Json::Arr(items)) => forall|i: int| 0 <= i < items.len() ==> ((#[trigger] items[i]) matches Json::Int(n) && i32::MIN as int <= n <= i32::MAX as int), _ => false }))
        || (e.path@ == "qualityLevel"@ && !(spec_lookup(fields, "qualityLevel"@) matches Some(Json::Int(n)) && i32::MIN as int <= n <= i32::MAX as int))
        || (e.path@ == "infusionCategoryName"@ && !(spec_lookup(fields, "infusionCategoryName"@) matches Some(Json::Str(_))))
        || (e.path@ == "infusionCategoryHash"@ && !(spec_lookup(fields, "infusionCategoryHash"@) matches Some(Json::Int(n)) && 0 <= n <= u32::MAX as int))
        || ((e.path@ == "infusionCategoryHashes"@ || spec_starts_with(e.path@, "infusionCategoryHashes"@)) && !(match spec_lookup(fields, "infusionCategoryHashes"@) { Option::None => false, Some(Json::Arr(items)) => forall|i: int| 0 <= i < items.len() ==> ((#[trigger] items[i]) matches Json::Int(n) && 0 <= n <= u32::MAX as int), _ => false }))
        || (e.path@ == "progressionLevelRequirementHash"@ && !(spec_lookup(fields, "progressionLevelRequirementHash"@) matches Some(Json::Int(n)) && 0 <= n <= u32::MAX as int))
        || (e.path@ == "currentVersion"@ && !(spec_lookup(fields, "currentVersion"@) matches Some(Json::Int(n)) && 0 <= n <= u32::MAX as int))
        || ((e.path@ == "versions"@ || spec_starts_with(e.path@, "versions"@)) && !(match spec_lookup(fields, "versions"@) { Option::None => false, Some(Json::Arr(items)) => forall|i: int| 0 <= i < items.len() ==> destiny_item_version_definition_wf(#[trigger] items[i]), _ => false }))
        || ((e.path@ == "displayVersionWatermarkIcons"@ || spec_starts_with(e.path@, "displayVersionWatermarkIcons"@)) && !(match spec_lookup(fields, "displayVersionWatermarkIcons"@) { Option::None => false, Some(Json::Arr(items)) => forall|i: int| 0 <= i < items.len() ==> (#[trigger] items[i]) is Str, _ => false }))
        || (exists|i: int| 0 <= i < fields.len() && (#[trigger] fields[i]).0 == e.path@ && !((fields[i].0 == "itemLevels"@ || fields[i].0 == "qualityLevel"@ || fields[i].0 == "infusionCategoryName"@ || fields[i].0 == "infusionCategoryHash"@ || fields[i].0 == "infusionCategoryHashes"@ || fields[i].0 == "progressionLevelRequirementHash"@ || fields[i].0 == "currentVersion"@ || fields[i].0 == "versions"@ || fields[i].0 == "displayVersionWatermarkIcons"@))))
}

pub fn encode_destiny_item_quality_block_definition(v: &DestinyItemQualityBlockDefinition) -> (r: JsonValue)
    ensures
        jview(r) == destiny_item_quality_block_definition_json(*v),
{
    let mut fields: Vec<(String, JsonValue)> = Vec::new();
    let arr_item_levels = {
        let mut items: Vec<JsonValue> = Vec::new();
        let mut i: usize = 0;
        while i < v.item_levels.len()
            invariant
                i <= v.item_levels.len(),
                items@.len() == i,
                forall|k: int| 0 <= k < i ==> jview(#[trigger] items@[k]) == Json::Int(v.item_levels@[k] as int),
            decreases v.item_levels.len() - i,
        {
            items.push(JsonValue::Int(v.item_levels[i] as i64));
            i = i + 1;
        }
        JsonValue::Arr(items)
    };
    proof {
        assert(jview(arr_item_levels)->Arr_0 =~= destiny_item_quality_block_definition_json(*v)->Obj_0[0].1->Arr_0);
    }
    fields.push(("itemLevels".to_owned(), arr_item_levels));
    fields.push(("qualityLevel".to_owned(), JsonValue::Int(v.quality_level as i64)));
    fields.push(("infusionCategoryName".to_owned(), JsonValue::Str(v.infusion_category_name.clone())));
    fields.push(("infusionCategoryHash".to_owned(), JsonValue::Int(v.infusion_category_hash as i64)));
    let arr_infusion_category_hashes = {
        let mut items: Vec<JsonValue> = Vec::new();
        let mut i: usize = 0;
        while i < v.infusion_category_hashes.len()
            invariant
                i <= v.infusion_category_hashes.len(),
                items@.len() == i,
                forall|k: int| 0 <= k < i ==> jview(#[trigger] items@[k]) == Json::Int(v.infusion_category_hashes@[k] as int),
            decreases v.infusion_category_hashes.len() - i,
        {
            items.push(JsonValue::Int(v.infusion_category_hashes[i] as i64));
            i = i + 1;
        }
        JsonValue::Arr(items)
    };
    proof {
        assert(jview(arr_infusion_category_hashes)->Arr_0 =~= destiny_item_quality_block_definition_json(*v)->Obj_0[4].1->Arr_0);
    }
    fields.push(("infusionCategoryHashes".to_owned(), arr_infusion_category_hashes));
    fields.push(("progressionLevelRequirementHash".to_owned(), JsonValue::Int(v.progression_level_requirement_hash as i64)));
    fields.push(("currentVersion".to_owned(), JsonValue::Int(v.current_version as i64)));
    let arr_versions = {
        let mut items: Vec<JsonValue> = Vec::new();
        let mut i: usize = 0;
        while i < v.versions.len()
            invariant
                i <= v.versions.len(),
                items@.len() == i,
                forall|k: int| 0 <= k < i ==> jview(#[trigger] items@[k]) == destiny_item_version_definition_json(v.versions@[k]),
            decreases v.versions.len() - i,
        {
            items.push(encode_destiny_item_version_definition(&v.versions[i]));
            i = i + 1;
        }
        JsonValue::Arr(items)
    };
    proof {
        assert(jview(arr_versions)->Arr_0 =~= destiny_item_quality_block_definition_json(*v)->Obj_0[7].1->Arr_0);
    }
    fields.push(("versions".to_owned(), arr_versions));
    let arr_display_version_watermark_icons = {
        let mut items: Vec<JsonValue> = Vec::new();
        let mut i: usize = 0;
        while i < v.display_version_watermark_icons.len()
            invariant
                i <= v.display_version_watermark_icons.len(),
                items@.len() == i,
                forall|k: int| 0 <= k < i ==> jview(#[trigger] items@[k]) == Json::Str(v.display_version_watermark_icons@[k]@),
            decreases v.display_version_watermark_icons.len() - i,
        {
            items.push(JsonValue::Str(v.display_version_watermark_icons[i].clone()));
            i = i + 1;
        }
        JsonValue::Arr(items)
    };
    proof {
        assert(jview(arr_display_version_watermark_icons)->Arr_0 =~= destiny_item_quality_block_definition_json(*v)->Obj_0[8].1->Arr_0);
    }
    fields.push(("displayVersionWatermarkIcons".to_owned(), arr_display_version_watermark_icons));
    let r = JsonValue::Obj(fields);
    proof {
        assert(jview(fields@[0].1) == destiny_item_quality_block_definition_json(*v)->Obj_0[0].1);
        assert(jview(fields@[1].1) == destiny_item_quality_block_definition_json(*v)->Obj_0[1].1);
        assert(jview(fields@[2].1) == destiny_item_quality_block_definition_json(*v)->Obj_0[2].1);
        assert(jview(fields@[3].1) == destiny_item_quality_block_definition_json(*v)->Obj_0[3].1);
        assert(jview(fields@[4].1) == destiny_item_quality_block_definition_json(*v)->Obj_0[4].1);
        assert(jview(fields@[5].1) == destiny_item_quality_block_definition_json(*v)->Obj_0[5].1);
        assert(jview(fields@[6].1) == destiny_item_quality_block_definition_json(*v)->Obj_0[6].1);
        assert(jview(fields@[7].1) == destiny_item_quality_block_definition_json(*v)->Obj_0[7].1);
        assert(jview(fields@[8].1) == destiny_item_quality_block_definition_json(*v)->Obj_0[8].1);
        assert(jview(r)->Obj_0 =~= destiny_item_quality_block_definition_json(*v)->Obj_0);
    }
    r
}

/// Decodes this record; a failure names the offending field in its
/// path and says what was expected of it.
#[verifier::loop_isolation(false)]
pub fn decode_destiny_item_quality_block_definition(j: &JsonValue) -> (r: Result<DestinyItemQualityBlockDefinition, DecodeError>)
    ensures
        r is Ok <==> destiny_item_quality_block_definition_wf(jview(*j)),
        r matches Ok(w) ==> (jview(*j) matches Json::Obj(fields)
            && destiny_item_quality_block_definition_fields_match(fields, w)),
        r matches Err(e) ==> destiny_item_quality_block_definition_err_ok(jview(*j), e),
{
    let fields = match j {
        JsonValue::Obj(fields) => fields,
        _ => {
            return Err(root_error("an object"));
        },
    };
    let ghost gf = jview(*j)->Obj_0;
    let item_levels = match j.get("itemLevels") {
        Option::None => {
            return Err(field_error("itemLevels", "an array"));
        },
        Some(arr) => match arr {
            JsonValue::Arr(items) => {
                let ghost gitems = jview(*arr)->Arr_0;
                let mut out: Vec<i32> = Vec::new();
                let mut i: usize = 0;
                while i < items.len()
                    invariant
                        i <= items.len(),
                        out@.len() == i,
                        forall|k: int| 0 <= k < i ==> (#[trigger] gitems[k]) == Json::Int(out@[k] as int),
                    decreases items.len() - i,
                {
                    proof {
                        assert(gitems[i as int] == jview(items@[i as int]));
                    }
                    let n = match items[i].to_i64() {
                        Some(n) if i32::MIN as i64 <= n && n <= i32::MAX as i64 => n,
                        _ => {
                            return Err(indexed_error("itemLevels", i, field_error("", "a 32-bit integer")));
                        },
                    };
                    out.push(n as i32);
                    i = i + 1;
                }
                out
            },
            _ => {
                return Err(field_error("itemLevels", "an array"));
            },
        },
    };
    let quality_level = match j.get("qualityLevel") {
        Some(v) => match v.to_i64() {
            Some(n) if i32::MIN as i64 <= n && n <= i32::MAX as i64 => n as i32,
            _ => {
                return Err(field_error("qualityLevel", "a 32-bit integer"));
            },
        },
        _ => {
            return Err(field_error("qualityLevel", "a 32-bit integer"));
        },
    };
    let infusion_category_name = match j.get("infusionCategoryName") {
        Some(JsonValue::Str(s)) => s.clone(),
        _ => {
            return Err(field_error("infusionCategoryName", "a string"));
        },
    };
    let infusion_category_hash = match j.get("infusionCategoryHash") {
        Some(v) => match v.to_i64() {
            Some(n) if 0 <= n && n <= u32::MAX as i64 => n as u32,
            _ => {
                return Err(field_error("infusionCategoryHash", "a 32-bit unsigned integer"));
            },
        },
        _ => {
            return Err(field_error("infusionCategoryHash", "a 32-bit unsigned integer"));
        },
    };
    let infusion_category_hashes = match j.get("infusionCategoryHashes") {
        Option::None => {
            return Err(field_error("infusionCategoryHashes", "an array"));
        },
        Some(arr) => match arr {
            JsonValue::Arr(items) => {
                let ghost gitems = jview(*arr)->Arr_0;
                let mut out: Vec<u32> = Vec::new();
                let mut i: usize = 0;
                while i < items.len()
                    invariant
                        i <= items.len(),
                        out@.len() == i,
                        forall|k: int| 0 <= k < i ==> (#[trigger] gitems[k]) == Json::Int(out@[k] as int),
                    decreases items.len() - i,
                {
                    proof {
                        assert(gitems[i as int] == jview(items@[i as int]));
                    }
                    let n = match items[i].to_i64() {
                        Some(n) if 0 <= n && n <= u32::MAX as i64 => n,
                        _ => {
                            return Err(indexed_error("infusionCategoryHashes", i, field_error("", "a 32-bit unsigned integer")));
                        },
                    };
                    out.push(n as u32);
                    i = i + 1;
                }
                out
            },
            _ => {
                return Err(field_error("infusionCategoryHashes", "an array"));
            },
        },
    };
    let progression_level_requirement_hash = match j.get("progressionLevelRequirementHash") {
        Some(v) => match v.to_i64() {
            Some(n) if 0 <= n && n <= u32::MAX as i64 => n as u32,
            _ => {
                return Err(field_error("progressionLevelRequirementHash", "a 32-bit unsigned integer"));
            },
        },
        _ => {
            return Err(field_error("progressionLevelRequirementHash", "a 32-bit unsigned integer"));
        },
    };
    let current_version = match j.get("currentVersion") {
        Some(v) => match v.to_i64() {
            Some(n) if 0 <= n && n <= u32::MAX as i64 => n as u32,
            _ => {
                return Err(field_error("currentVersion", "a 32-bit unsigned integer"));
            },
        },
        _ => {
            return Err(field_error("currentVersion", "a 32-bit unsigned integer"));
        },
    };
    let versions = match j.get("versions") {
        Option::None => {
            return Err(field_error("versions", "an array"));
        },
        Some(arr) => match arr {
            JsonValue::Arr(items) => {
                let ghost gitems = jview(*arr)->Arr_0;
                let mut out: Vec<DestinyItemVersionDefinition> = Vec::new();
                let mut i: usize = 0;
                while i < items.len()
                    invariant
                        i <= items.len(),
                        out@.len() == i,
                        forall|k: int| 0 <= k < i
                            ==> (destiny_item_version_definition_wf(#[trigger] gitems[k])
                                && (gitems[k] matches Json::Obj(f2)
                                && destiny_item_version_definition_fields_match(f2, out@[k]))),
                    decreases items.len() - i,
                {
                    proof {
                        assert(gitems[i as int] == jview(items@[i as int]));
                    }
                    match decode_destiny_item_version_definition(&items[i]) {
                        Ok(r) => {
                            out.push(r);
                        },
                        Err(e) => {
                            return Err(indexed_error("versions", i, e));
                        },
                    }
                    i = i + 1;
                }
                out
            },
            _ => {
                return Err(field_error("versions", "an array"));
            },
        },
    };
    let display_version_watermark_icons = match j.get("displayVersionWatermarkIcons") {
        Option::None => {
            return Err(field_error("displayVersionWatermarkIcons", "an array"));
        },
        Some(arr) => match arr {
            JsonValue::Arr(items) => {
                let ghost gitems = jview(*arr)->Arr_0;
                let mut out: Vec<String> = Vec::new();
                let mut i: usize = 0;
                while i < items.len()
                    invariant
                        i <= items.len(),
                        out@.len() == i,
                        forall|k: int| 0 <= k < i ==> (#[trigger] gitems[k]) == Json::Str(out@[k]@),
                    decreases items.len() - i,
                {
                    proof {
                        assert(gitems[i as int] == jview(items@[i as int]));
                    }
                    match &items[i] {
                        JsonValue::Str(s) => {
                            out.push(s.clone());
                        },
                        _ => {
                            return Err(indexed_error("displayVersionWatermarkIcons", i, field_error("", "a string")));
                        },
                    }
                    i = i + 1;
                }
                out
            },
            _ => {
                return Err(field_error("displayVersionWatermarkIcons", "an array"));
            },
        },
    };
    let mut i: usize = 0;
    while i < fields.len()
        invariant
            i <= fields.len(),
            gf.len() == fields@.len(),
            forall|k: int| 0 <= k < gf.len()
                ==> #[trigger] gf[k] == (fields@[k].0@, jview(fields@[k].1)),
            forall|k: int| 0 <= k < i
                ==> ((#[trigger] gf[k]).0 == "itemLevels"@ || gf[k].0 == "qualityLevel"@ || gf[k].0 == "infusionCategoryName"@ || gf[k].0 == "infusionCategoryHash"@ || gf[k].0 == "infusionCategoryHashes"@ || gf[k].0 == "progressionLevelRequirementHash"@ || gf[k].0 == "currentVersion"@ || gf[k].0 == "versions"@ || gf[k].0 == "displayVersionWatermarkIcons"@),
        decreases fields.len() - i,
    {
        let name = fields[i].0.as_str();
        if !(str_eq(name, "itemLevels") || str_eq(name, "qualityLevel") || str_eq(name, "infusionCategoryName") || str_eq(name, "infusionCategoryHash") || str_eq(name, "infusionCategoryHashes") || str_eq(name, "progressionLevelRequirementHash") || str_eq(name, "currentVersion") || str_eq(name, "versions") || str_eq(name, "displayVersionWatermarkIcons")) {
            proof {
                assert(gf[i as int].0 == fields@[i as int].0@);
                assert(!destiny_item_quality_block_definition_wf(jview(*j)));
            }
            return Err(field_error(fields[i].0.as_str(), "an unknown field"));
        }
        i = i + 1;
    }
    Ok(DestinyItemQualityBlockDefinition { item_levels, quality_level, infusion_category_name, infusion_category_hash, infusion_category_hashes, progression_level_requirement_hash, current_version, versions, display_version_watermark_icons })
}

/// The wire image of a record is well formed and matched by the
/// record itself: encoding loses nothing that decoding reads.
pub proof fn lemma_destiny_item_quality_block_definition_image(v: DestinyItemQualityBlockDefinition)
    ensures
        destiny_item_quality_block_definition_wf(destiny_item_quality_block_definition_json(v)),
        destiny_item_quality_block_definition_json(v) matches Json::Obj(fields) && destiny_item_quality_block_definition_fields_match(fields, v),
{
    reveal_strlit("itemLevels");
    reveal_strlit("qualityLevel");
    reveal_strlit("infusionCategoryName");
    reveal_strlit("infusionCategoryHash");
    reveal_strlit("infusionCategoryHashes");
    reveal_strlit("progressionLevelRequirementHash");
    reveal_strlit("currentVersion");
    reveal_strlit("versions");
    reveal_strlit("displayVersionWatermarkIcons");
    let fields = destiny_item_quality_block_definition_json(v)->Obj_0;
    assert("itemLevels"@.len() == 10);
    assert("qualityLevel"@.len() == 12);
    assert("infusionCategoryName"@.len() == 20);
    assert("infusionCategoryHash"@.len() == 20);
    assert("infusionCategoryHashes"@.len() == 22);
    assert("progressionLevelRequirementHash"@.len() == 31);
    assert("currentVersion"@.len() == 14);
    assert("versions"@.len() == 8);
    assert("displayVersionWatermarkIcons"@.len() == 28);
    assert("itemLevels"@ != "qualityLevel"@);
    assert("itemLevels"@ != "infusionCategoryName"@);
    assert("itemLevels"@ != "infusionCategoryHash"@);
    assert("itemLevels"@ != "infusionCategoryHashes"@);
    assert("itemLevels"@ != "progressionLevelRequirementHash"@);
    assert("itemLevels"@ != "currentVersion"@);
    assert("itemLevels"@ != "versions"@);
    assert("itemLevels"@ != "displayVersionWatermarkIcons"@);
    assert("qualityLevel"@ != "infusionCategoryName"@);
    assert("qualityLevel"@ != "infusionCategoryHash"@);
    assert("qualityLevel"@ != "infusionCategoryHashes"@);
    assert("qualityLevel"@ != "progressionLevelRequirementHash"@);
    assert("qualityLevel"@ != "currentVersion"@);
    assert("qualityLevel"@ != "versions"@);
    assert("qualityLevel"@ != "displayVersionWatermarkIcons"@);
    assert(("infusionCategoryName"@)[16] != ("infusionCategoryHash"@)[16]);
    assert("infusionCategoryName"@ != "infusionCategoryHash"@);
    assert("infusionCategoryName"@ != "infusionCategoryHashes"@);
    assert("infusionCategoryName"@ != "progressionLevelRequirementHash"@);
    assert("infusionCategoryName"@ != "currentVersion"@);
    assert("infusionCategoryName"@ != "versions"@);
    assert("infusionCategoryName"@ != "displayVersionWatermarkIcons"@);
    assert("infusionCategoryHash"@ != "infusionCategoryHashes"@);
    assert("infusionCategoryHash"@ != "progressionLevelRequirementHash"@);
    assert("infusionCategoryHash"@ != "currentVersion"@);
    assert("infusionCategoryHash"@ != "versions"@);
    assert("infusionCategoryHash"@ != "displayVersionWatermarkIcons"@);
    assert("infusionCategoryHashes"@ != "progressionLevelRequirementHash"@);
    assert("infusionCategoryHashes"@ != "currentVersion"@);
    assert("infusionCategoryHashes"@ != "versions"@);
    assert("infusionCategoryHashes"@ != "displayVersionWatermarkIcons"@);
    assert("progressionLevelRequirementHash"@ != "currentVersion"@);
    assert("progressionLevelRequirementHash"@ != "versions"@);
    assert("progressionLevelRequirementHash"@ != "displayVersionWatermarkIcons"@);
    assert("currentVersion"@ != "versions"@);
    assert("currentVersion"@ != "displayVersionWatermarkIcons"@);
    assert("versions"@ != "displayVersionWatermarkIcons"@);
    lemma_lookup_at(fields, 0);
    lemma_lookup_at(fields, 1);
    lemma_lookup_at(fields, 2);
    lemma_lookup_at(fields, 3);
    lemma_lookup_at(fields, 4);
    lemma_lookup_at(fields, 5);
    lemma_lookup_at(fields, 6);
    lemma_lookup_at(fields, 7);
    lemma_lookup_at(fields, 8);
    assert forall|i: int| 0 <= i < v.versions@.len()
        implies (destiny_item_version_definition_wf(#[trigger] fields[7].1->Arr_0[i])
            && (fields[7].1->Arr_0[i] matches Json::Obj(f2)
            && destiny_item_version_definition_fields_match(f2, v.versions@[i]))) by {
        assert(fields[7].1->Arr_0[i] == destiny_item_version_definition_json(v.versions@[i]));
        lemma_destiny_item_version_definition_image(v.versions@[i]);
    }
}

/// Decoding the encoded image of a record yields a record whose
/// every field carries the same content as the one encoded.
pub proof fn lemma_destiny_item_quality_block_definition_round_trip(v: DestinyItemQualityBlockDefinition, w: DestinyItemQualityBlockDefinition)
    requires
        destiny_item_quality_block_definition_json(v) matches Json::Obj(fields) && destiny_item_quality_block_definition_fields_match(fields, w),
    ensures
        destiny_item_quality_block_definition_wf(destiny_item_quality_block_definition_json(v)),
        w.item_levels@ == v.item_levels@,
        w.quality_level == v.quality_level,
        w.infusion_category_name@ == v.infusion_category_name@,
        w.infusion_category_hash == v.infusion_category_hash,
        w.infusion_category_hashes@ == v.infusion_category_hashes@,
        w.progression_level_requirement_hash == v.progression_level_requirement_hash,
        w.current_version == v.current_version,
        w.versions@.len() == v.versions@.len(),
        forall|i: int| 0 <= i < v.versions@.len() ==> (destiny_item_version_definition_json(v.versions@[i]) matches Json::Obj(f2) && destiny_item_version_definition_fields_match(f2, #[trigger] w.versions@[i])),
        w.display_version_watermark_icons@.len() == v.display_version_watermark_icons@.len(),
        forall|i: int| 0 <= i < v.display_version_watermark_icons@.len() ==> #[trigger] w.display_version_watermark_icons@[i]@ == v.display_version_watermark_icons@[i]@,
{
    lemma_destiny_item_quality_block_definition_image(v);
    let fields = destiny_item_quality_block_definition_json(v)->Obj_0;
    reveal_strlit("itemLevels");
    reveal_strlit("qualityLevel");
    reveal_strlit("infusionCategoryName");
    reveal_strlit("infusionCategoryHash");
    reveal_strlit("infusionCategoryHashes");
    reveal_strlit("progressionLevelRequirementHash");
    reveal_strlit("currentVersion");
    reveal_strlit("versions");
    reveal_strlit("displayVersionWatermarkIcons");
    assert("itemLevels"@.len() == 10);
    assert("qualityLevel"@.len() == 12);
    assert("infusionCategoryName"@.len() == 20);
    assert("infusionCategoryHash"@.len() == 20);
    assert("infusionCategoryHashes"@.len() == 22);
    assert("progressionLevelRequirementHash"@.len() == 31);
    assert("currentVersion"@.len() == 14);
    assert("versions"@.len() == 8);
    assert("displayVersionWatermarkIcons"@.len() == 28);
    assert("itemLevels"@ != "qualityLevel"@);
    assert("itemLevels"@ != "infusionCategoryName"@);
    assert("itemLevels"@ != "infusionCategoryHash"@);
    assert("itemLevels"@ != "infusionCategoryHashes"@);
    assert("itemLevels"@ != "progressionLevelRequirementHash"@);
    assert("itemLevels"@ != "currentVersion"@);
    assert("itemLevels"@ != "versions"@);
    assert("itemLevels"@ != "displayVersionWatermarkIcons"@);
    assert("qualityLevel"@ != "infusionCategoryName"@);
    assert("qualityLevel"@ != "infusionCategoryHash"@);
    assert("qualityLevel"@ != "infusionCategoryHashes"@);
    assert("qualityLevel"@ != "progressionLevelRequirementHash"@);
    assert("qualityLevel"@ != "currentVersion"@);
    assert("qualityLevel"@ != "versions"@);
    assert("qualityLevel"@ != "displayVersionWatermarkIcons"@);
    assert(("infusionCategoryName"@)[16] != ("infusionCategoryHash"@)[16]);
    assert("infusionCategoryName"@ != "infusionCategoryHash"@);
    assert("infusionCategoryName"@ != "infusionCategoryHashes"@);
    assert("infusionCategoryName"@ != "progressionLevelRequirementHash"@);
    assert("infusionCategoryName"@ != "currentVersion"@);
    assert("infusionCategoryName"@ != "versions"@);
    assert("infusionCategoryName"@ != "displayVersionWatermarkIcons"@);
    assert("infusionCategoryHash"@ != "infusionCategoryHashes"@);
    assert("infusionCategoryHash"@ != "progressionLevelRequirementHash"@);
    assert("infusionCategoryHash"@ != "currentVersion"@);
    assert("infusionCategoryHash"@ != "versions"@);
    assert("infusionCategoryHash"@ != "displayVersionWatermarkIcons"@);
    assert("infusionCategoryHashes"@ != "progressionLevelRequirementHash"@);
    assert("infusionCategoryHashes"@ != "currentVersion"@);
    assert("infusionCategoryHashes"@ != "versions"@);
    assert("infusionCategoryHashes"@ != "displayVersionWatermarkIcons"@);
    assert("progressionLevelRequirementHash"@ != "currentVersion"@);
    assert("progressionLevelRequirementHash"@ != "versions"@);
    assert("progressionLevelRequirementHash"@ != "displayVersionWatermarkIcons"@);
    assert("currentVersion"@ != "versions"@);
    assert("currentVersion"@ != "displayVersionWatermarkIcons"@);
    assert("versions"@ != "displayVersionWatermarkIcons"@);
    lemma_lookup_at(fields, 0);
    lemma_lookup_at(fields, 1);
    lemma_lookup_at(fields, 2);
    lemma_lookup_at(fields, 3);
    lemma_lookup_at(fields, 4);
    lemma_lookup_at(fields, 5);
    lemma_lookup_at(fields, 6);
    lemma_lookup_at(fields, 7);
    lemma_lookup_at(fields, 8);
    assert(w.item_levels@ =~= v.item_levels@) by {
        assert forall|i: int| 0 <= i < v.item_levels@.len()
            implies #[trigger] w.item_levels@[i] == v.item_levels@[i] by {
            assert(spec_lookup(fields, "itemLevels"@) matches Some(Json::Arr(items))
                && (items[i] == Json::Int(v.item_levels@[i] as int)
                && items[i] == Json::Int(w.item_levels@[i] as int)));
        }
    }
    assert(w.infusion_category_hashes@ =~= v.infusion_category_hashes@) by {
        assert forall|i: int| 0 <= i < v.infusion_category_hashes@.len()
            implies #[trigger] w.infusion_category_hashes@[i] == v.infusion_category_hashes@[i] by {
            assert(spec_lookup(fields, "infusionCategoryHashes"@) matches Some(Json::Arr(items))
                && (items[i] == Json::Int(v.infusion_category_hashes@[i] as int)
                && items[i] == Json::Int(w.infusion_category_hashes@[i] as int)));
        }
    }
    assert forall|i: int| 0 <= i < v.versions@.len()
        implies (destiny_item_version_definition_json(v.versions@[i]) matches Json::Obj(f2)
            && destiny_item_version_definition_fields_match(f2, #[trigger] w.versions@[i])) by {
        assert(fields[7].1->Arr_0[i] == destiny_item_version_definition_json(v.versions@[i]));
        lemma_destiny_item_version_definition_image(v.versions@[i]);
    }
    assert forall|i: int| 0 <= i < v.display_version_watermark_icons@.len()
        implies #[trigger] w.display_version_watermark_icons@[i]@ == v.display_version_watermark_icons@[i]@ by {
        assert(spec_lookup(fields, "displayVersionWatermarkIcons"@) matches Some(Json::Arr(items))
            && (items[i] == Json::Str(v.display_version_watermark_icons@[i]@)
            && items[i] == Json::Str(w.display_version_watermark_icons@[i]@)));
    }
}

/// The wire image of this record.
pub open spec fn destiny_item_socket_entry_definition_json(v: DestinyItemSocketEntryDefinition) -> Json {
    Json::Obj(
        seq![
            ("socketTypeHash"@, Json::Int(v.socket_type_hash as int)),
            ("singleInitialItemHash"@, Json::Int(v.single_initial_item_hash as int)),
            ("reusablePlugItems"@, Json::Arr(Seq::new(v.reusable_plug_items@.len(), |i: int| if 0 <= i < v.reusable_plug_items@.len() { destiny_item_socket_entry_plug_item_definition_json(v.reusable_plug_items@[i]) } else { Json::Null }))),
            ("preventInitializationOnVendorPurchase"@, Json::Bool(v.prevent_initialization_on_vendor_purchase)),
            ("preventInitializationWhenVersioning"@, Json::Bool(v.prevent_initialization_when_versioning)),
            ("hidePerksInItemTooltip"@, Json::Bool(v.hide_perks_in_item_tooltip)),
            ("plugSources"@, Json::Int(v.plug_sources.bits as int)),
            ("reusablePlugSetHash"@, (match v.reusable_plug_set_hash { Some(x) => Json::Int(x as int), Option::None => Json::Null })),
            ("randomizedPlugSetHash"@, (match v.randomized_plug_set_hash { Some(x) => Json::Int(x as int), Option::None => Json::Null })),
            ("overridesUiAppearance"@, Json::Bool(v.overrides_ui_appearance)),
            ("defaultVisible"@, Json::Bool(v.default_visible)),
        ],
    )
}

/// Whether a document decodes as this record: an object with exactly these fields.
pub open spec fn destiny_item_socket_entry_definition_wf(j: Json) -> bool {
    &&& j matches Json::Obj(fields)
    &&& spec_lookup(fields, "socketTypeHash"@) matches Some(Json::Int(n)) && 0 <= n <= u32::MAX as int
    &&& spec_lookup(fields, "singleInitialItemHash"@) matches Some(Json::Int(n)) && 0 <= n <= u32::MAX as int
    &&& match spec_lookup(fields, "reusablePlugItems"@) { Option::None => false, Some(Json::Arr(items)) => forall|i: int| 0 <= i < items.len() ==> destiny_item_socket_entry_plug_item_definition_wf(#[trigger] items[i]), _ => false }
    &&& spec_lookup(fields, "preventInitializationOnVendorPurchase"@) matches Some(Json::Bool(_))
    &&& spec_lookup(fields, "preventInitializationWhenVersioning"@) matches Some(Json::Bool(_))
    &&& spec_lookup(fields, "hidePerksInItemTooltip"@) matches Some(Json::Bool(_))
    &&& spec_lookup(fields, "plugSources"@) matches Some(Json::Int(n)) && 0 <= n <= u8::MAX as int
    &&& match spec_lookup(fields, "reusablePlugSetHash"@) { Option::None => true, Some(Json::Null) => true, Some(Json::Int(n)) => 0 <= n <= u32::MAX as int, _ => false }
    &&& match spec_lookup(fields, "randomizedPlugSetHash"@) { Option::None => true, Some(Json::Null) => true, Some(Json::Int(n)) => 0 <= n <= u32::MAX as int, _ => false }
    &&& spec_lookup(fields, "overridesUiAppearance"@) matches Some(Json::Bool(_))
    &&& spec_lookup(fields, "defaultVisible"@) matches Some(Json::Bool(_))
    &&& forall|i: int| 0 <= i < fields.len()
        ==> ((#[trigger] fields[i]).0 == "socketTypeHash"@ || fields[i].0 == "singleInitialItemHash"@ || fields[i].0 == "reusablePlugItems"@ || fields[i].0 == "preventInitializationOnVendorPurchase"@ || fields[i].0 == "preventInitializationWhenVersioning"@ || fields[i].0 == "hidePerksInItemTooltip"@ || fields[i].0 == "plugSources"@ || fields[i].0 == "reusablePlugSetHash"@ || fields[i].0 == "randomizedPlugSetHash"@ || fields[i].0 == "overridesUiAppearance"@ || fields[i].0 == "defaultVisible"@)
}

/// How a decoded record relates to the document it came from.
pub open spec fn destiny_item_socket_entry_definition_fields_match(fields: Seq<(Seq<char>, Json)>, w: DestinyItemSocketEntryDefinition) -> bool {
    &&& spec_lookup(fields, "socketTypeHash"@) == Some(Json::Int(w.socket_type_hash as int))
    &&& spec_lookup(fields, "singleInitialItemHash"@) == Some(Json::Int(w.single_initial_item_hash as int))
    &&& match spec_lookup(fields, "reusablePlugItems"@) { Option::None => false, Some(Json::Arr(items)) => w.reusable_plug_items@.len() == items.len() && (forall|i: int| 0 <= i < items.len() ==> ((#[trigger] items[i]) matches Json::Obj(f2) && destiny_item_socket_entry_plug_item_definition_fields_match(f2, w.reusable_plug_items@[i]))), _ => false }
    &&& spec_lookup(fields, "preventInitializationOnVendorPurchase"@) == Some(Json::Bool(w.prevent_initialization_on_vendor_purchase))
    &&& spec_lookup(fields, "preventInitializationWhenVersioning"@) == Some(Json::Bool(w.prevent_initialization_when_versioning))
    &&& spec_lookup(fields, "hidePerksInItemTooltip"@) == Some(Json::Bool(w.hide_perks_in_item_tooltip))
    &&& spec_lookup(fields, "plugSources"@) matches Some(Json::Int(n)) && w.plug_sources.bits == (n as u8) & 15
    &&& match w.reusable_plug_set_hash { Some(x) => spec_lookup(fields, "reusablePlugSetHash"@) == Some(Json::Int(x as int)), Option::None => spec_lookup(fields, "reusablePlugSetHash"@) is None || spec_lookup(fields, "reusablePlugSetHash"@) == Some(Json::Null) }
    &&& match w.randomized_plug_set_hash { Some(x) => spec_lookup(fields, "randomizedPlugSetHash"@) == Some(Json::Int(x as int)), Option::None => spec_lookup(fields, "randomizedPlugSetHash"@) is None || spec_lookup(fields, "randomizedPlugSetHash"@) == Some(Json::Null) }
    &&& spec_lookup(fields, "overridesUiAppearance"@) == Some(Json::Bool(w.overrides_ui_appearance))
    &&& spec_lookup(fields, "defaultVisible"@) == Some(Json::Bool(w.default_visible))
}

/// What a decode failure names: its path points at a field of the
/// document that is indeed not decodable, and an undeclared
/// enumeration code is reported with the enumeration's own message.
pub open spec fn destiny_item_socket_entry_definition_err_ok(j: Json, e: DecodeError) -> bool {
    &&& !(j matches Json::Obj(_)) ==> e.path@.len() == 0
    &&& j matches Json::Obj(fields) ==> (
        (e.path@ == "socketTypeHash"@ && !(spec_lookup(fields, "socketTypeHash"@) matches Some(Json::Int(n)) && 0 <= n <= u32::MAX as int))
        || (e.path@ == "singleInitialItemHash"@ && !(spec_lookup(fields, "singleInitialItemHash"@) matches Some(Json::Int(n)) && 0 <= n <= u32::MAX as int))
        || ((e.path@ == "reusablePlugItems"@ || spec_starts_with(e.path@, "reusablePlugItems"@)) && !(match spec_lookup(fields, "reusablePlugItems"@) { Option::None => false, Some(Json::Arr(items)) => forall|i: int| 0 <= i < items.len() ==> destiny_item_socket_entry_plug_item_definition_wf(#[trigger] items[i]), _ => false }))
        || (e.path@ == "preventInitializationOnVendorPurchase"@ && !(spec_lookup(fields, "preventInitializationOnVendorPurchase"@) matches Some(Json::Bool(_))))
        || (e.path@ == "preventInitializationWhenVersioning"@ && !(spec_lookup(fields, "preventInitializationWhenVersioning"@) matches Some(Json::Bool(_))))
        || (e.path@ == "hidePerksInItemTooltip"@ && !(spec_lookup(fields, "hidePerksInItemTooltip"@) matches Some(Json::Bool(_))))
        || (e.path@ == "plugSources"@ && !(spec_lookup(fields, "plugSources"@) matches Some(Json::Int(n)) && 0 <= n <= u8::MAX as int))
        || (e.path@ == "reusablePlugSetHash"@ && !(match spec_lookup(fields, "reusablePlugSetHash"@) { Option::None => true, Some(Json::Null) => true, Some(Json::Int(n)) => 0 <= n <= u32::MAX as int, _ => false }))
        || (e.path@ == "randomizedPlugSetHash"@ && !(match spec_lookup(fields, "randomizedPlugSetHash"@) { Option::None => true, Some(Json::Null) => true, Some(Json::Int(n)) => 0 <= n <= u32::MAX as int, _ => false }))
        || (e.path@ == "overridesUiAppearance"@ && !(spec_lookup(fields, "overridesUiAppearance"@) matches Some(Json::Bool(_))))
        || (e.path@ == "defaultVisible"@ && !(spec_lookup(fields, "defaultVisible"@) matches Some(Json::Bool(_))))
        || (exists|i: int| 0 <= i < fields.len() && (#[trigger] fields[i]).0 == e.path@ && !((fields[i].0 == "socketTypeHash"@ || fields[i].0 == "singleInitialItemHash"@ || fields[i].0 == "reusablePlugItems"@ || fields[i].0 == "preventInitializationOnVendorPurchase"@ || fields[i].0 == "preventInitializationWhenVersioning"@ || fields[i].0 == "hidePerksInItemTooltip"@ || fields[i].0 == "plugSources"@ || fields[i].0 == "reusablePlugSetHash"@ || fields[i].0 == "randomizedPlugSetHash"@ || fields[i].0 == "overridesUiAppearance"@ || fields[i].0 == "defaultVisible"@))))
}

pub fn encode_destiny_item_socket_entry_definition(v: &DestinyItemSocketEntryDefinition) -> (r: JsonValue)
    ensures
        jview(r) == destiny_item_socket_entry_definition_json(*v),
{
    let mut fields: Vec<(String, JsonValue)> = Vec::new();
    fields.push(("socketTypeHash".to_owned(), JsonValue::Int(v.socket_type_hash as i64)));
    fields.push(("singleInitialItemHash".to_owned(), JsonValue::Int(v.single_initial_item_hash as i64)));
    let arr_reusable_plug_items = {
        let mut items: Vec<JsonValue> = Vec::new();
        let mut i: usize = 0;
        while i < v.reusable_plug_items.len()
            invariant
                i <= v.reusable_plug_items.len(),
                items@.len() == i,
                forall|k: int| 0 <= k < i ==> jview(#[trigger] items@[k]) == destiny_item_socket_entry_plug_item_definition_json(v.reusable_plug_items@[k]),
            decreases v.reusable_plug_items.len() - i,
        {
            items.push(encode_destiny_item_socket_entry_plug_item_definition(&v.reusable_plug_items[i]));
            i = i + 1;
        }
        JsonValue::Arr(items)
    };
    proof {
        assert(jview(arr_reusable_plug_items)->Arr_0 =~= destiny_item_socket_entry_definition_json(*v)->Obj_0[2].1->Arr_0);
    }
    fields.push(("reusablePlugItems".to_owned(), arr_reusable_plug_items));
    fields.push(("preventInitializationOnVendorPurchase".to_owned(), JsonValue::Bool(v.prevent_initialization_on_vendor_purchase)));
    fields.push(("preventInitializationWhenVersioning".to_owned(), JsonValue::Bool(v.prevent_initialization_when_versioning)));
    fields.push(("hidePerksInItemTooltip".to_owned(), JsonValue::Bool(v.hide_perks_in_item_tooltip)));
    fields.push(("plugSources".to_owned(), JsonValue::Int(v.plug_sources.bits as i64)));
    fields.push(("reusablePlugSetHash".to_owned(), match &v.reusable_plug_set_hash {
        Some(x) => JsonValue::Int(*x as i64),
        Option::None => JsonValue::Null,
    }));
    fields.push(("randomizedPlugSetHash".to_owned(), match &v.randomized_plug_set_hash {
        Some(x) => JsonValue::Int(*x as i64),
        Option::None => JsonValue::Null,
    }));
    fields.push(("overridesUiAppearance".to_owned(), JsonValue::Bool(v.overrides_ui_appearance)));
    fields.push(("defaultVisible".to_owned(), JsonValue::Bool(v.default_visible)));
    let r = JsonValue::Obj(fields);
    proof {
        assert(jview(fields@[0].1) == destiny_item_socket_entry_definition_json(*v)->Obj_0[0].1);
        assert(jview(fields@[1].1) == destiny_item_socket_entry_definition_json(*v)->Obj_0[1].1);
        assert(jview(fields@[2].1) == destiny_item_socket_entry_definition_json(*v)->Obj_0[2].1);
        assert(jview(fields@[3].1) == destiny_item_socket_entry_definition_json(*v)->Obj_0[3].1);
        assert(jview(fields@[4].1) == destiny_item_socket_entry_definition_json(*v)->Obj_0[4].1);
        assert(jview(fields@[5].1) == destiny_item_socket_entry_definition_json(*v)->Obj_0[5].1);
        assert(jview(fields@[6].1) == destiny_item_socket_entry_definition_json(*v)->Obj_0[6].1);
        assert(jview(fields@[7].1) == destiny_item_socket_entry_definition_json(*v)->Obj_0[7].1);
        assert(jview(fields@[8].1) == destiny_item_socket_entry_definition_json(*v)->Obj_0[8].1);
        assert(jview(fields@[9].1) == destiny_item_socket_entry_definition_json(*v)->Obj_0[9].1);
        assert(jview(fields@[10].1) == destiny_item_socket_entry_definition_json(*v)->Obj_0[10].1);
        assert(jview(r)->Obj_0 =~= destiny_item_socket_entry_definition_json(*v)->Obj_0);
    }
    r
}

/// Decodes this record; a failure names the offending field in its
/// path and says what was expected of it.
#[verifier::loop_isolation(false)]
pub fn decode_destiny_item_socket_entry_definition(j: &JsonValue) -> (r: Result<DestinyItemSocketEntryDefinition, DecodeError>)
    ensures
        r is Ok <==> destiny_item_socket_entry_definition_wf(jview(*j)),
        r matches Ok(w) ==> (jview(*j) matches Json::Obj(fields)
            && destiny_item_socket_entry_definition_fields_match(fields, w)),
        r matches Err(e) ==> destiny_item_socket_entry_definition_err_ok(jview(*j), e),
{
    let fields = match j {
        JsonValue::Obj(fields) => fields,
        _ => {
            return Err(root_error("an object"));
        },
    };
    let ghost gf = jview(*j)->Obj_0;
    let socket_type_hash = match j.get("socketTypeHash") {
        Some(v) => match v.to_i64() {
            Some(n) if 0 <= n && n <= u32::MAX as i64 => n as u32,
            _ => {
                return Err(field_error("socketTypeHash", "a 32-bit unsigned integer"));
            },
        },
        _ => {
            return Err(field_error("socketTypeHash", "a 32-bit unsigned integer"));
        },
    };
    let single_initial_item_hash = match j.get("singleInitialItemHash") {
        Some(v) => match v.to_i64() {
            Some(n) if 0 <= n && n <= u32::MAX as i64 => n as u32,
            _ => {
                return Err(field_error("singleInitialItemHash", "a 32-bit unsigned integer"));
            },
        },
        _ => {
            return Err(field_error("singleInitialItemHash", "a 32-bit unsigned integer"));
        },
    };
    let reusable_plug_items = match j.get("reusablePlugItems") {
        Option::None => {
            return Err(field_error("reusablePlugItems", "an array"));
        },
        Some(arr) => match arr {
            JsonValue::Arr(items) => {
                let ghost gitems = jview(*arr)->Arr_0;
                let mut out: Vec<DestinyItemSocketEntryPlugItemDefinition> = Vec::new();
                let mut i: usize = 0;
                while i < items.len()
                    invariant
                        i <= items.len(),
                        out@.len() == i,
                        forall|k: int| 0 <= k < i
                            ==> (destiny_item_socket_entry_plug_item_definition_wf(#[trigger] gitems[k])
                                && (gitems[k] matches Json::Obj(f2)
                                && destiny_item_socket_entry_plug_item_definition_fields_match(f2, out@[k]))),
                    decreases items.len() - i,
                {
                    proof {
                        assert(gitems[i as int] == jview(items@[i as int]));
                    }
                    match decode_destiny_item_socket_entry_plug_item_definition(&items[i]) {
                        Ok(r) => {
                            out.push(r);
                        },
                        Err(e) => {
                            return Err(indexed_error("reusablePlugItems", i, e));
                        },
                    }
                    i = i + 1;
                }
                out
            },
            _ => {
                return Err(field_error("reusablePlugItems", "an array"));
            },
        },
    };
    let prevent_initialization_on_vendor_purchase = match j.get("preventInitializationOnVendorPurchase") {
        Some(JsonValue::Bool(b)) => *b,
        _ => {
            return Err(field_error("preventInitializationOnVendorPurchase", "a boolean"));
        },
    };
    let prevent_initialization_when_versioning = match j.get("preventInitializationWhenVersioning") {
        Some(JsonValue::Bool(b)) => *b,
        _ => {
            return Err(field_error("preventInitializationWhenVersioning", "a boolean"));
        },
    };
    let hide_perks_in_item_tooltip = match j.get("hidePerksInItemTooltip") {
        Some(JsonValue::Bool(b)) => *b,
        _ => {
            return Err(field_error("hidePerksInItemTooltip", "a boolean"));
        },
    };
    let plug_sources = match j.get("plugSources") {
        Some(v) => match v.to_i64() {
            Some(n) if 0 <= n && n <= u8::MAX as i64 => SocketPlugSources::from_bits_truncate(n as u8),
            _ => {
                return Err(field_error("plugSources", "an 8-bit unsigned integer"));
            },
        },
        _ => {
            return Err(field_error("plugSources", "an 8-bit unsigned integer"));
        },
    };
    let reusable_plug_set_hash = match j.get("reusablePlugSetHash") {
        Option::None => Option::None,
        Some(JsonValue::Null) => Option::None,
        Some(v) => match v.to_i64() {
            Some(n) if 0 <= n && n <= u32::MAX as i64 => Some(n as u32),
            _ => {
                return Err(field_error("reusablePlugSetHash", "a 32-bit unsigned integer or null"));
            },
        },
    };
    let randomized_plug_set_hash = match j.get("randomizedPlugSetHash") {
        Option::None => Option::None,
        Some(JsonValue::Null) => Option::None,
        Some(v) => match v.to_i64() {
            Some(n) if 0 <= n && n <= u32::MAX as i64 => Some(n as u32),
            _ => {
                return Err(field_error("randomizedPlugSetHash", "a 32-bit unsigned integer or null"));
            },
        },
    };
    let overrides_ui_appearance = match j.get("overridesUiAppearance") {
        Some(JsonValue::Bool(b)) => *b,
        _ => {
            return Err(field_error("overridesUiAppearance", "a boolean"));
        },
    };
    let default_visible = match j.get("defaultVisible") {
        Some(JsonValue::Bool(b)) => *b,
        _ => {
            return Err(field_error("defaultVisible", "a boolean"));
        },
    };
    let mut i: usize = 0;
    while i < fields.len()
        invariant
            i <= fields.len(),
            gf.len() == fields@.len(),
            forall|k: int| 0 <= k < gf.len()
                ==> #[trigger] gf[k] == (fields@[k].0@, jview(fields@[k].1)),
            forall|k: int| 0 <= k < i
                ==> ((#[trigger] gf[k]).0 == "socketTypeHash"@ || gf[k].0 == "singleInitialItemHash"@ || gf[k].0 == "reusablePlugItems"@ || gf[k].0 == "preventInitializationOnVendorPurchase"@ || gf[k].0 == "preventInitializationWhenVersioning"@ || gf[k].0 == "hidePerksInItemTooltip"@ || gf[k].0 == "plugSources"@ || gf[k].0 == "reusablePlugSetHash"@ || gf[k].0 == "randomizedPlugSetHash"@ || gf[k].0 == "overridesUiAppearance"@ || gf[k].0 == "defaultVisible"@),
        decreases fields.len() - i,
    {
        let name = fields[i].0.as_str();
        if !(str_eq(name, "socketTypeHash") || str_eq(name, "singleInitialItemHash") || str_eq(name, "reusablePlugItems") || str_eq(name, "preventInitializationOnVendorPurchase") || str_eq(name, "preventInitializationWhenVersioning") || str_eq(name, "hidePerksInItemTooltip") || str_eq(name, "plugSources") || str_eq(name, "reusablePlugSetHash") || str_eq(name, "randomizedPlugSetHash") || str_eq(name, "overridesUiAppearance") || str_eq(name, "defaultVisible")) {
            proof {
                assert(gf[i as int].0 == fields@[i as int].0@);
                assert(!destiny_item_socket_entry_definition_wf(jview(*j)));
            }
            return Err(field_error(fields[i].0.as_str(), "an unknown field"));
        }
        i = i + 1;
    }
    Ok(DestinyItemSocketEntryDefinition { socket_type_hash, single_initial_item_hash, reusable_plug_items, prevent_initialization_on_vendor_purchase, prevent_initialization_when_versioning, hide_perks_in_item_tooltip, plug_sources, reusable_plug_set_hash, randomized_plug_set_hash, overrides_ui_appearance, default_visible })
}

/// The wire image of a record is well formed and matched by the
/// record itself: encoding loses nothing that decoding reads.
pub proof fn lemma_destiny_item_socket_entry_definition_image(v: DestinyItemSocketEntryDefinition)
    requires
        v.plug_sources.bits & 15 == v.plug_sources.bits,
    ensures
        destiny_item_socket_entry_definition_wf(destiny_item_socket_entry_definition_json(v)),
        destiny_item_socket_entry_definition_json(v) matches Json::Obj(fields) && destiny_item_socket_entry_definition_fields_match(fields, v),
{
    reveal_strlit("socketTypeHash");
    reveal_strlit("singleInitialItemHash");
    reveal_strlit("reusablePlugItems");
    reveal_strlit("preventInitializationOnVendorPurchase");
    reveal_strlit("preventInitializationWhenVersioning");
    reveal_strlit("hidePerksInItemTooltip");
    reveal_strlit("plugSources");
    reveal_strlit("reusablePlugSetHash");
    reveal_strlit("randomizedPlugSetHash");
    reveal_strlit("overridesUiAppearance");
    reveal_strlit("defaultVisible");
    let fields = destiny_item_socket_entry_definition_json(v)->Obj_0;
    assert("socketTypeHash"@.len() == 14);
    assert("singleInitialItemHash"@.len() == 21);
    assert("reusablePlugItems"@.len() == 17);
    assert("preventInitializationOnVendorPurchase"@.len() == 37);
    assert("preventInitializationWhenVersioning"@.len() == 35);
    assert("hidePerksInItemTooltip"@.len() == 22);
    assert("plugSources"@.len() == 11);
    assert("reusablePlugSetHash"@.len() == 19);
    assert("randomizedPlugSetHash"@.len() == 21);
    assert("overridesUiAppearance"@.len() == 21);
    assert("defaultVisible"@.len() == 14);
    assert("socketTypeHash"@ != "singleInitialItemHash"@);
    assert("socketTypeHash"@ != "reusablePlugItems"@);
    assert("socketTypeHash"@ != "preventInitializationOnVendorPurchase"@);
    assert("socketTypeHash"@ != "preventInitializationWhenVersioning"@);
    assert("socketTypeHash"@ != "hidePerksInItemTooltip"@);
    assert("socketTypeHash"@ != "plugSources"@);
    assert("socketTypeHash"@ != "reusablePlugSetHash"@);
    assert("socketTypeHash"@ != "randomizedPlugSetHash"@);
    assert("socketTypeHash"@ != "overridesUiAppearance"@);
    assert(("socketTypeHash"@)[0] != ("defaultVisible"@)[0]);
    assert("socketTypeHash"@ != "defaultVisible"@);
    assert("singleInitialItemHash"@ != "reusablePlugItems"@);
    assert("singleInitialItemHash"@ != "preventInitializationOnVendorPurchase"@);
    assert("singleInitialItemHash"@ != "preventInitializationWhenVersioning"@);
    assert("singleInitialItemHash"@ != "hidePerksInItemTooltip"@);
    assert("singleInitialItemHash"@ != "plugSources"@);
    assert("singleInitialItemHash"@ != "reusablePlugSetHash"@);
    assert(("singleInitialItemHash"@)[0] != ("randomizedPlugSetHash"@)[0]);
    assert("singleInitialItemHash"@ != "randomizedPlugSetHash"@);
    assert(("singleInitialItemHash"@)[0] != ("overridesUiAppearance"@)[0]);
    assert("singleInitialItemHash"@ != "overridesUiAppearance"@);
    assert("singleInitialItemHash"@ != "defaultVisible"@);
    assert("reusablePlugItems"@ != "preventInitializationOnVendorPurchase"@);
    assert("reusablePlugItems"@ != "preventInitializationWhenVersioning"@);
    assert("reusablePlugItems"@ != "hidePerksInItemTooltip"@);
    assert("reusablePlugItems"@ != "plugSources"@);
    assert("reusablePlugItems"@ != "reusablePlugSetHash"@);
    assert("reusablePlugItems"@ != "randomizedPlugSetHash"@);
    assert("reusablePlugItems"@ != "overridesUiAppearance"@);
    assert("reusablePlugItems"@ != "defaultVisible"@);
    assert("preventInitializationOnVendorPurchase"@ != "preventInitializationWhenVersioning"@);
    assert("preventInitializationOnVendorPurchase"@ != "hidePerksInItemTooltip"@);
    assert("preventInitializationOnVendorPurchase"@ != "plugSources"@);
    assert("preventInitializationOnVendorPurchase"@ != "reusablePlugSetHash"@);
    assert("preventInitializationOnVendorPurchase"@ != "randomizedPlugSetHash"@);
    assert("preventInitializationOnVendorPurchase"@ != "overridesUiAppearance"@);
    assert("preventInitializationOnVendorPurchase"@ != "defaultVisible"@);
    assert("preventInitializationWhenVersioning"@ != "hidePerksInItemTooltip"@);
    assert("preventInitializationWhenVersioning"@ != "plugSources"@);
    assert("preventInitializationWhenVersioning"@ != "reusablePlugSetHash"@);
    assert("preventInitializationWhenVersioning"@ != "randomizedPlugSetHash"@);
    assert("preventInitializationWhenVersioning"@ != "overridesUiAppearance"@);
    assert("preventInitializationWhenVersioning"@ != "defaultVisible"@);
    assert("hidePerksInItemTooltip"@ != "plugSources"@);
    assert("hidePerksInItemTooltip"@ != "reusablePlugSetHash"@);
    assert("hidePerksInItemTooltip"@ != "randomizedPlugSetHash"@);
    assert("hidePerksInItemTooltip"@ != "overridesUiAppearance"@);
    assert("hidePerksInItemTooltip"@ != "defaultVisible"@);
    assert("plugSources"@ != "reusablePlugSetHash"@);
    assert("plugSources"@ != "randomizedPlugSetHash"@);
    assert("plugSources"@ != "overridesUiAppearance"@);
    assert("plugSources"@ != "defaultVisible"@);
    assert("reusablePlugSetHash"@ != "randomizedPlugSetHash"@);
    assert("reusablePlugSetHash"@ != "overridesUiAppearance"@);
    assert("reusablePlugSetHash"@ != "defaultVisible"@);
    assert(("randomizedPlugSetHash"@)[0] != ("overridesUiAppearance"@)[0]);
    assert("randomizedPlugSetHash"@ != "overridesUiAppearance"@);
    assert("randomizedPlugSetHash"@ != "defaultVisible"@);
    assert("overridesUiAppearance"@ != "defaultVisible"@);
    lemma_lookup_at(fields, 0);
    lemma_lookup_at(fields, 1);
    lemma_lookup_at(fields, 2);
    lemma_lookup_at(fields, 3);
    lemma_lookup_at(fields, 4);
    lemma_lookup_at(fields, 5);
    lemma_lookup_at(fields, 6);
    lemma_lookup_at(fields, 7);
    lemma_lookup_at(fields, 8);
    lemma_lookup_at(fields, 9);
    lemma_lookup_at(fields, 10);
    assert forall|i: int| 0 <= i < v.reusable_plug_items@.len()
        implies (destiny_item_socket_entry_plug_item_definition_wf(#[trigger] fields[2].1->Arr_0[i])
            && (fields[2].1->Arr_0[i] matches Json::Obj(f2)
            && destiny_item_socket_entry_plug_item_definition_fields_match(f2, v.reusable_plug_items@[i]))) by {
        assert(fields[2].1->Arr_0[i] == destiny_item_socket_entry_plug_item_definition_json(v.reusable_plug_items@[i]));
        lemma_destiny_item_socket_entry_plug_item_definition_image(v.reusable_plug_items@[i]);
    }
}

/// Decoding the encoded image of a record yields a record whose
/// every field carries the same content as the one encoded.
pub proof fn lemma_destiny_item_socket_entry_definition_round_trip(v: DestinyItemSocketEntryDefinition, w: DestinyItemSocketEntryDefinition)
    requires
        v.plug_sources.bits & 15 == v.plug_sources.bits,
        destiny_item_socket_entry_definition_json(v) matches Json::Obj(fields) && destiny_item_socket_entry_definition_fields_match(fields, w),
    ensures
        destiny_item_socket_entry_definition_wf(destiny_item_socket_entry_definition_json(v)),
        w.socket_type_hash == v.socket_type_hash,
        w.single_initial_item_hash == v.single_initial_item_hash,
        w.reusable_plug_items@.len() == v.reusable_plug_items@.len(),
        forall|i: int| 0 <= i < v.reusable_plug_items@.len() ==> (destiny_item_socket_entry_plug_item_definition_json(v.reusable_plug_items@[i]) matches Json::Obj(f2) && destiny_item_socket_entry_plug_item_definition_fields_match(f2, #[trigger] w.reusable_plug_items@[i])),
        w.prevent_initialization_on_vendor_purchase == v.prevent_initialization_on_vendor_purchase,
        w.prevent_initialization_when_versioning == v.prevent_initialization_when_versioning,
        w.hide_perks_in_item_tooltip == v.hide_perks_in_item_tooltip,
        w.plug_sources == v.plug_sources,
        w.reusable_plug_set_hash == v.reusable_plug_set_hash,
        w.randomized_plug_set_hash == v.randomized_plug_set_hash,
        w.overrides_ui_appearance == v.overrides_ui_appearance,
        w.default_visible == v.default_visible,
{
    lemma_destiny_item_socket_entry_definition_image(v);
    let fields = destiny_item_socket_entry_definition_json(v)->Obj_0;
    reveal_strlit("socketTypeHash");
    reveal_strlit("singleInitialItemHash");
    reveal_strlit("reusablePlugItems");
    reveal_strlit("preventInitializationOnVendorPurchase");
    reveal_strlit("preventInitializationWhenVersioning");
    reveal_strlit("hidePerksInItemTooltip");
    reveal_strlit("plugSources");
    reveal_strlit("reusablePlugSetHash");
    reveal_strlit("randomizedPlugSetHash");
    reveal_strlit("overridesUiAppearance");
    reveal_strlit("defaultVisible");
    assert("socketTypeHash"@.len() == 14);
    assert("singleInitialItemHash"@.len() == 21);
    assert("reusablePlugItems"@.len() == 17);
    assert("preventInitializationOnVendorPurchase"@.len() == 37);
    assert("preventInitializationWhenVersioning"@.len() == 35);
    assert("hidePerksInItemTooltip"@.len() == 22);
    assert("plugSources"@.len() == 11);
    assert("reusablePlugSetHash"@.len() == 19);
    assert("randomizedPlugSetHash"@.len() == 21);
    assert("overridesUiAppearance"@.len() == 21);
    assert("defaultVisible"@.len() == 14);
    assert("socketTypeHash"@ != "singleInitialItemHash"@);
    assert("socketTypeHash"@ != "reusablePlugItems"@);
    assert("socketTypeHash"@ != "preventInitializationOnVendorPurchase"@);
    assert("socketTypeHash"@ != "preventInitializationWhenVersioning"@);
    assert("socketTypeHash"@ != "hidePerksInItemTooltip"@);
    assert("socketTypeHash"@ != "plugSources"@);
    assert("socketTypeHash"@ != "reusablePlugSetHash"@);
    assert("socketTypeHash"@ != "randomizedPlugSetHash"@);
    assert("socketTypeHash"@ != "overridesUiAppearance"@);
    assert(("socketTypeHash"@)[0] != ("defaultVisible"@)[0]);
    assert("socketTypeHash"@ != "defaultVisible"@);
    assert("singleInitialItemHash"@ != "reusablePlugItems"@);
    assert("singleInitialItemHash"@ != "preventInitializationOnVendorPurchase"@);
    assert("singleInitialItemHash"@ != "preventInitializationWhenVersioning"@);
    assert("singleInitialItemHash"@ != "hidePerksInItemTooltip"@);
    assert("singleInitialItemHash"@ != "plugSources"@);
    assert("singleInitialItemHash"@ != "reusablePlugSetHash"@);
    assert(("singleInitialItemHash"@)[0] != ("randomizedPlugSetHash"@)[0]);
    assert("singleInitialItemHash"@ != "randomizedPlugSetHash"@);
    assert(("singleInitialItemHash"@)[0] != ("overridesUiAppearance"@)[0]);
    assert("singleInitialItemHash"@ != "overridesUiAppearance"@);
    assert("singleInitialItemHash"@ != "defaultVisible"@);
    assert("reusablePlugItems"@ != "preventInitializationOnVendorPurchase"@);
    assert("reusablePlugItems"@ != "preventInitializationWhenVersioning"@);
    assert("reusablePlugItems"@ != "hidePerksInItemTooltip"@);
    assert("reusablePlugItems"@ != "plugSources"@);
    assert("reusablePlugItems"@ != "reusablePlugSetHash"@);
    assert("reusablePlugItems"@ != "randomizedPlugSetHash"@);
    assert("reusablePlugItems"@ != "overridesUiAppearance"@);
    assert("reusablePlugItems"@ != "defaultVisible"@);
    assert("preventInitializationOnVendorPurchase"@ != "preventInitializationWhenVersioning"@);
    assert("preventInitializationOnVendorPurchase"@ != "hidePerksInItemTooltip"@);
    assert("preventInitializationOnVendorPurchase"@ != "plugSources"@);
    assert("preventInitializationOnVendorPurchase"@ != "reusablePlugSetHash"@);
    assert("preventInitializationOnVendorPurchase"@ != "randomizedPlugSetHash"@);
    assert("preventInitializationOnVendorPurchase"@ != "overridesUiAppearance"@);
    assert("preventInitializationOnVendorPurchase"@ != "defaultVisible"@);
    assert("preventInitializationWhenVersioning"@ != "hidePerksInItemTooltip"@);
    assert("preventInitializationWhenVersioning"@ != "plugSources"@);
    assert("preventInitializationWhenVersioning"@ != "reusablePlugSetHash"@);
    assert("preventInitializationWhenVersioning"@ != "randomizedPlugSetHash"@);
    assert("preventInitializationWhenVersioning"@ != "overridesUiAppearance"@);
    assert("preventInitializationWhenVersioning"@ != "defaultVisible"@);
    assert("hidePerksInItemTooltip"@ != "plugSources"@);
    assert("hidePerksInItemTooltip"@ != "reusablePlugSetHash"@);
    assert("hidePerksInItemTooltip"@ != "randomizedPlugSetHash"@);
    assert("hidePerksInItemTooltip"@ != "overridesUiAppearance"@);
    assert("hidePerksInItemTooltip"@ != "defaultVisible"@);
    assert("plugSources"@ != "reusablePlugSetHash"@);
    assert("plugSources"@ != "randomizedPlugSetHash"@);
    assert("plugSources"@ != "overridesUiAppearance"@);
    assert("plugSources"@ != "defaultVisible"@);
    assert("reusablePlugSetHash"@ != "randomizedPlugSetHash"@);
    assert("reusablePlugSetHash"@ != "overridesUiAppearance"@);
    assert("reusablePlugSetHash"@ != "defaultVisible"@);
    assert(("randomizedPlugSetHash"@)[0] != ("overridesUiAppearance"@)[0]);
    assert("randomizedPlugSetHash"@ != "overridesUiAppearance"@);
    assert("randomizedPlugSetHash"@ != "defaultVisible"@);
    assert("overridesUiAppearance"@ != "defaultVisible"@);
    lemma_lookup_at(fields, 0);
    lemma_lookup_at(fields, 1);
    lemma_lookup_at(fields, 2);
    lemma_lookup_at(fields, 3);
    lemma_lookup_at(fields, 4);
    lemma_lookup_at(fields, 5);
    lemma_lookup_at(fields, 6);
    lemma_lookup_at(fields, 7);
    lemma_lookup_at(fields, 8);
    lemma_lookup_at(fields, 9);
    lemma_lookup_at(fields, 10);
    assert forall|i: int| 0 <= i < v.reusable_plug_items@.len()
        implies (destiny_item_socket_entry_plug_item_definition_json(v.reusable_plug_items@[i]) matches Json::Obj(f2)
            && destiny_item_socket_entry_plug_item_definition_fields_match(f2, #[trigger] w.reusable_plug_items@[i])) by {
        assert(fields[2].1->Arr_0[i] == destiny_item_socket_entry_plug_item_definition_json(v.reusable_plug_items@[i]));
        lemma_destiny_item_socket_entry_plug_item_definition_image(v.reusable_plug_items@[i]);
    }
}

/// The wire image of this record.
pub open spec fn destiny_item_action_block_definition_json(v: DestinyItemActionBlockDefinition) -> Json {
    Json::Obj(
        seq![
            ("verbName"@, Json::Str(v.verb_name@)),
            ("verbDescription"@, Json::Str(v.verb_description@)),
            ("isPositive"@, Json::Bool(v.is_positive)),
            ("overlayScreenName"@, (match v.overlay_screen_name { Some(x) => Json::Str(x@), Option::None => Json::Null })),
            ("overlayIcon"@, (match v.overlay_icon { Some(x) => Json::Str(x@), Option::None => Json::Null })),
            ("requiredCooldownSeconds"@, Json::Int(v.required_cooldown_seconds as int)),
            ("requiredItems"@, Json::Arr(Seq::new(v.required_items@.len(), |i: int| if 0 <= i < v.required_items@.len() { destiny_item_action_required_item_definition_json(v.required_items@[i]) } else { Json::Null }))),
            ("progressionRewards"@, Json::Arr(Seq::new(v.progression_rewards@.len(), |i: int| if 0 <= i < v.progression_rewards@.len() { destiny_progression_reward_definition_json(v.progression_rewards@[i]) } else { Json::Null }))),
            ("rewardSheetHash"@, Json::Int(v.reward_sheet_hash as int)),
            ("rewardItemHash"@, Json::Int(v.reward_item_hash as int)),
            ("rewardSiteHash"@, Json::Int(v.reward_site_hash as int)),
            ("actionTypeLabel"@, (match v.action_type_label { Some(x) => Json::Str(x@), Option::None => Json::Null })),
            ("requiredLocation"@, (match v.required_location { Some(x) => Json::Str(x@), Option::None => Json::Null })),
            ("requiredCooldownHash"@, Json::Int(v.required_cooldown_hash as int)),
            ("deleteOnAction"@, Json::Bool(v.delete_on_action)),
            ("consumeEntireStack"@, Json::Bool(v.consume_entire_stack)),
            ("useOnAcquire"@, Json::Bool(v.use_on_acquire)),
        ],
    )
}

/// Whether a document decodes as this record: an object with exactly these fields.
pub open spec fn destiny_item_action_block_definition_wf(j: Json) -> bool {
    &&& j matches Json::Obj(fields)
    &&& spec_lookup(fields, "verbName"@) matches Some(Json::Str(_))
    &&& spec_lookup(fields, "verbDescription"@) matches Some(Json::Str(_))
    &&& spec_lookup(fields, "isPositive"@) matches Some(Json::Bool(_))
    &&& match spec_lookup(fields, "overlayScreenName"@) { Option::None => true, Some(Json::Null) => true, Some(Json::Str(_)) => true, _ => false }
    &&& match spec_lookup(fields, "overlayIcon"@) { Option::None => true, Some(Json::Null) => true, Some(Json::Str(_)) => true, _ => false }
    &&& spec_lookup(fields, "requiredCooldownSeconds"@) matches Some(Json::Int(n)) && i32::MIN as int <= n <= i32::MAX as int
    &&& match spec_lookup(fields, "requiredItems"@) { Option::None => false, Some(Json::Arr(items)) => forall|i: int| 0 <= i < items.len() ==> destiny_item_action_required_item_definition_wf(#[trigger] items[i]), _ => false }
    &&& match spec_lookup(fields, "progressionRewards"@) { Option::None => false, Some(Json::Arr(items)) => forall|i: int| 0 <= i < items.len() ==> destiny_progression_reward_definition_wf(#[trigger] items[i]), _ => false }
    &&& spec_lookup(fields, "rewardSheetHash"@) matches Some(Json::Int(n)) && 0 <= n <= u32::MAX as int
    &&& spec_lookup(fields, "rewardItemHash"@) matches Some(Json::Int(n)) && 0 <= n <= u32::MAX as int
    &&& spec_lookup(fields, "rewardSiteHash"@) matches Some(Json::Int(n)) && 0 <= n <= u32::MAX as int
    &&& match spec_lookup(fields, "actionTypeLabel"@) { Option::None => true, Some(Json::Null) => true, Some(Json::Str(_)) => true, _ => false }
    &&& match spec_lookup(fields, "requiredLocation"@) { Option::None => true, Some(Json::Null) => true, Some(Json::Str(_)) => true, _ => false }
    &&& spec_lookup(fields, "requiredCooldownHash"@) matches Some(Json::Int(n)) && 0 <= n <= u32::MAX as int
    &&& spec_lookup(fields, "deleteOnAction"@) matches Some(Json::Bool(_))
    &&& spec_lookup(fields, "consumeEntireStack"@) matches Some(Json::Bool(_))
    &&& spec_lookup(fields, "useOnAcquire"@) matches Some(Json::Bool(_))
    &&& forall|i: int| 0 <= i < fields.len()
        ==> ((#[trigger] fields[i]).0 == "verbName"@ || fields[i].0 == "verbDescription"@ || fields[i].0 == "isPositive"@ || fields[i].0 == "overlayScreenName"@ || fields[i].0 == "overlayIcon"@ || fields[i].0 == "requiredCooldownSeconds"@ || fields[i].0 == "requiredItems"@ || fields[i].0 == "progressionRewards"@ || fields[i].0 == "rewardSheetHash"@ || fields[i].0 == "rewardItemHash"@ || fields[i].0 == "rewardSiteHash"@ || fields[i].0 == "actionTypeLabel"@ || fields[i].0 == "requiredLocation"@ || fields[i].0 == "requiredCooldownHash"@ || fields[i].0 == "deleteOnAction"@ || fields[i].0 == "consumeEntireStack"@ || fields[i].0 == "useOnAcquire"@)
}

/// How a decoded record relates to the document it came from.
pub open spec fn destiny_item_action_block_definition_fields_match(fields: Seq<(Seq<char>, Json)>, w: DestinyItemActionBlockDefinition) -> bool {
    &&& spec_lookup(fields, "verbName"@) == Some(Json::Str(w.verb_name@))
    &&& spec_lookup(fields, "verbDescription"@) == Some(Json::Str(w.verb_description@))
    &&& spec_lookup(fields, "isPositive"@) == Some(Json::Bool(w.is_positive))
    &&& match w.overlay_screen_name { Some(x) => spec_lookup(fields, "overlayScreenName"@) == Some(Json::Str(x@)), Option::None => spec_lookup(fields, "overlayScreenName"@) is None || spec_lookup(fields, "overlayScreenName"@) == Some(Json::Null) }
    &&& match w.overlay_icon { Some(x) => spec_lookup(fields, "overlayIcon"@) == Some(Json::Str(x@)), Option::None => spec_lookup(fields, "overlayIcon"@) is None || spec_lookup(fields, "overlayIcon"@) == Some(Json::Null) }
    &&& spec_lookup(fields, "requiredCooldownSeconds"@) == Some(Json::Int(w.required_cooldown_seconds as int))
    &&& match spec_lookup(fields, "requiredItems"@) { Option::None => false, Some(Json::Arr(items)) => w.required_items@.len() == items.len() && (forall|i: int| 0 <= i < items.len() ==> ((#[trigger] items[i]) matches Json::Obj(f2) && destiny_item_action_required_item_definition_fields_match(f2, w.required_items@[i]))), _ => false }
    &&& match spec_lookup(fields, "progressionRewards"@) { Option::None => false, Some(Json::Arr(items)) => w.progression_rewards@.len() == items.len() && (forall|i: int| 0 <= i < items.len() ==> ((#[trigger] items[i]) matches Json::Obj(f2) && destiny_progression_reward_definition_fields_match(f2, w.progression_rewards@[i]))), _ => false }
    &&& spec_lookup(fields, "rewardSheetHash"@) == Some(Json::Int(w.reward_sheet_hash as int))
    &&& spec_lookup(fields, "rewardItemHash"@) == Some(Json::Int(w.reward_item_hash as int))
    &&& spec_lookup(fields, "rewardSiteHash"@) == Some(Json::Int(w.reward_site_hash as int))
    &&& match w.action_type_label { Some(x) => spec_lookup(fields, "actionTypeLabel"@) == Some(Json::Str(x@)), Option::None => spec_lookup(fields, "actionTypeLabel"@) is None || spec_lookup(fields, "actionTypeLabel"@) == Some(Json::Null) }
    &&& match w.required_location { Some(x) => spec_lookup(fields, "requiredLocation"@) == Some(Json::Str(x@)), Option::None => spec_lookup(fields, "requiredLocation"@) is None || spec_lookup(fields, "requiredLocation"@) == Some(Json::Null) }
    &&& spec_lookup(fields, "requiredCooldownHash"@) == Some(Json::Int(w.required_cooldown_hash as int))
    &&& spec_lookup(fields, "deleteOnAction"@) == Some(Json::Bool(w.delete_on_action))
    &&& spec_lookup(fields, "consumeEntireStack"@) == Some(Json::Bool(w.consume_entire_stack))
    &&& spec_lookup(fields, "useOnAcquire"@) == Some(Json::Bool(w.use_on_acquire))
}

/// What a decode failure names: its path points at a field of the
/// document that is indeed not decodable, and an undeclared
/// enumeration code is reported with the enumeration's own message.
pub open spec fn destiny_item_action_block_definition_err_ok(j: Json, e: DecodeError) -> bool {
    &&& !(j matches Json::Obj(_)) ==> e.path@.len() == 0
    &&& j matches Json::Obj(fields) ==> (
        (e.path@ == "verbName"@ && !(spec_lookup(fields, "verbName"@) matches Some(Json::Str(_))))
        || (e.path@ == "verbDescription"@ && !(spec_lookup(fields, "verbDescription"@) matches Some(Json::Str(_))))
        || (e.path@ == "isPositive"@ && !(spec_lookup(fields, "isPositive"@) matches Some(Json::Bool(_))))
        || (e.path@ == "overlayScreenName"@ && !(match spec_lookup(fields, "overlayScreenName"@) { Option::None => true, Some(Json::Null) => true, Some(Json::Str(_)) => true, _ => false }))
        || (e.path@ == "overlayIcon"@ && !(match spec_lookup(fields, "overlayIcon"@) { Option::None => true, Some(Json::Null) => true, Some(Json::Str(_)) => true, _ => false }))
        || (e.path@ == "requiredCooldownSeconds"@ && !(spec_lookup(fields, "requiredCooldownSeconds"@) matches Some(Json::Int(n)) && i32::MIN as int <= n <= i32::MAX as int))
        || ((e.path@ == "requiredItems"@ || spec_starts_with(e.path@, "requiredItems"@)) && !(match spec_lookup(fields, "requiredItems"@) { Option::None => false, Some(Json::Arr(items)) => forall|i: int| 0 <= i < items.len() ==> destiny_item_action_required_item_definition_wf(#[trigger] items[i]), _ => false }))
        || ((e.path@ == "progressionRewards"@ || spec_starts_with(e.path@, "progressionRewards"@)) && !(match spec_lookup(fields, "progressionRewards"@) { Option::None => false, Some(Json::Arr(items)) => forall|i: int| 0 <= i < items.len() ==> destiny_progression_reward_definition_wf(#[trigger] items[i]), _ => false }))
        || (e.path@ == "rewardSheetHash"@ && !(spec_lookup(fields, "rewardSheetHash"@) matches Some(Json::Int(n)) && 0 <= n <= u32::MAX as int))
        || (e.path@ == "rewardItemHash"@ && !(spec_lookup(fields, "rewardItemHash"@) matches Some(Json::Int(n)) && 0 <= n <= u32::MAX as int))
        || (e.path@ == "rewardSiteHash"@ && !(spec_lookup(fields, "rewardSiteHash"@) matches Some(Json::Int(n)) && 0 <= n <= u32::MAX as int))
        || (e.path@ == "actionTypeLabel"@ && !(match spec_lookup(fields, "actionTypeLabel"@) { Option::None => true, Some(Json::Null) => true, Some(Json::Str(_)) => true, _ => false }))
        || (e.path@ == "requiredLocation"@ && !(match spec_lookup(fields, "requiredLocation"@) { Option::None => true, Some(Json::Null) => true, Some(Json::Str(_)) => true, _ => false }))
        || (e.path@ == "requiredCooldownHash"@ && !(spec_lookup(fields, "requiredCooldownHash"@) matches Some(Json::Int(n)) && 0 <= n <= u32::MAX as int))
        || (e.path@ == "deleteOnAction"@ && !(spec_lookup(fields, "deleteOnAction"@) matches Some(Json::Bool(_))))
        || (e.path@ == "consumeEntireStack"@ && !(spec_lookup(fields, "consumeEntireStack"@) matches Some(Json::Bool(_))))
        || (e.path@ == "useOnAcquire"@ && !(spec_lookup(fields, "useOnAcquire"@) matches Some(Json::Bool(_))))
        || (exists|i: int| 0 <= i < fields.len() && (#[trigger] fields[i]).0 == e.path@ && !((fields[i].0 == "verbName"@ || fields[i].0 == "verbDescription"@ || fields[i].0 == "isPositive"@ || fields[i].0 == "overlayScreenName"@ || fields[i].0 == "overlayIcon"@ || fields[i].0 == "requiredCooldownSeconds"@ || fields[i].0 == "requiredItems"@ || fields[i].0 == "progressionRewards"@ || fields[i].0 == "rewardSheetHash"@ || fields[i].0 == "rewardItemHash"@ || fields[i].0 == "rewardSiteHash"@ || fields[i].0 == "actionTypeLabel"@ || fields[i].0 == "requiredLocation"@ || fields[i].0 == "requiredCooldownHash"@ || fields[i].0 == "deleteOnAction"@ || fields[i].0 == "consumeEntireStack"@ || fields[i].0 == "useOnAcquire"@))))
}

pub fn encode_destiny_item_action_block_definition(v: &DestinyItemActionBlockDefinition) -> (r: JsonValue)
    ensures
        jview(r) == destiny_item_action_block_definition_json(*v),
{
    let mut fields: Vec<(String, JsonValue)> = Vec::new();
    fields.push(("verbName".to_owned(), JsonValue::Str(v.verb_name.clone())));
    fields.push(("verbDescription".to_owned(), JsonValue::Str(v.verb_description.clone())));
    fields.push(("isPositive".to_owned(), JsonValue::Bool(v.is_positive)));
    fields.push(("overlayScreenName".to_owned(), match &v.overlay_screen_name {
        Some(x) => JsonValue::Str(x.clone()),
        Option::None => JsonValue::Null,
    }));
    fields.push(("overlayIcon".to_owned(), match &v.overlay_icon {
        Some(x) => JsonValue::Str(x.clone()),
        Option::None => JsonValue::Null,
    }));
    fields.push(("requiredCooldownSeconds".to_owned(), JsonValue::Int(v.required_cooldown_seconds as i64)));
    let arr_required_items = {
        let mut items: Vec<JsonValue> = Vec::new();
        let mut i: usize = 0;
        while i < v.required_items.len()
            invariant
                i <= v.required_items.len(),
                items@.len() == i,
                forall|k: int| 0 <= k < i ==> jview(#[trigger] items@[k]) == destiny_item_action_required_item_definition_json(v.required_items@[k]),
            decreases v.required_items.len() - i,
        {
            items.push(encode_destiny_item_action_required_item_definition(&v.required_items[i]));
            i = i + 1;
        }
        JsonValue::Arr(items)
    };
    proof {
        assert(jview(arr_required_items)->Arr_0 =~= destiny_item_action_block_definition_json(*v)->Obj_0[6].1->Arr_0);
    }
    fields.push(("requiredItems".to_owned(), arr_required_items));
    let arr_progression_rewards = {
        let mut items: Vec<JsonValue> = Vec::new();
        let mut i: usize = 0;
        while i < v.progression_rewards.len()
            invariant
                i <= v.progression_rewards.len(),
                items@.len() == i,
                forall|k: int| 0 <= k < i ==> jview(#[trigger] items@[k]) == destiny_progression_reward_definition_json(v.progression_rewards@[k]),
            decreases v.progression_rewards.len() - i,
        {
            items.push(encode_destiny_progression_reward_definition(&v.progression_rewards[i]));
            i = i + 1;
        }
        JsonValue::Arr(items)
    };
    proof {
        assert(jview(arr_progression_rewards)->Arr_0 =~= destiny_item_action_block_definition_json(*v)->Obj_0[7].1->Arr_0);
    }
    fields.push(("progressionRewards".to_owned(), arr_progression_rewards));
    fields.push(("rewardSheetHash".to_owned(), JsonValue::Int(v.reward_sheet_hash as i64)));
    fields.push(("rewardItemHash".to_owned(), JsonValue::Int(v.reward_item_hash as i64)));
    fields.push(("rewardSiteHash".to_owned(), JsonValue::Int(v.reward_site_hash as i64)));
    fields.push(("actionTypeLabel".to_owned(), match &v.action_type_label {
        Some(x) => JsonValue::Str(x.clone()),
        Option::None => JsonValue::Null,
    }));
    fields.push(("requiredLocation".to_owned(), match &v.required_location {
        Some(x) => JsonValue::Str(x.clone()),
        Option::None => JsonValue::Null,
    }));
    fields.push(("requiredCooldownHash".to_owned(), JsonValue::Int(v.required_cooldown_hash as i64)));
    fields.push(("deleteOnAction".to_owned(), JsonValue::Bool(v.delete_on_action)));
    fields.push(("consumeEntireStack".to_owned(), JsonValue::Bool(v.consume_entire_stack)));
    fields.push(("useOnAcquire".to_owned(), JsonValue::Bool(v.use_on_acquire)));
    let r = JsonValue::Obj(fields);
    proof {
        assert(jview(fields@[0].1) == destiny_item_action_block_definition_json(*v)->Obj_0[0].1);
        assert(jview(fields@[1].1) == destiny_item_action_block_definition_json(*v)->Obj_0[1].1);
        assert(jview(fields@[2].1) == destiny_item_action_block_definition_json(*v)->Obj_0[2].1);
        assert(jview(fields@[3].1) == destiny_item_action_block_definition_json(*v)->Obj_0[3].1);
        assert(jview(fields@[4].1) == destiny_item_action_block_definition_json(*v)->Obj_0[4].1);
        assert(jview(fields@[5].1) == destiny_item_action_block_definition_json(*v)->Obj_0[5].1);
        assert(jview(fields@[6].1) == destiny_item_action_block_definition_json(*v)->Obj_0[6].1);
        assert(jview(fields@[7].1) == destiny_item_action_block_definition_json(*v)->Obj_0[7].1);
        assert(jview(fields@[8].1) == destiny_item_action_block_definition_json(*v)->Obj_0[8].1);
        assert(jview(fields@[9].1) == destiny_item_action_block_definition_json(*v)->Obj_0[9].1);
        assert(jview(fields@[10].1) == destiny_item_action_block_definition_json(*v)->Obj_0[10].1);
        assert(jview(fields@[11].1) == destiny_item_action_block_definition_json(*v)->Obj_0[11].1);
        assert(jview(fields@[12].1) == destiny_item_action_block_definition_json(*v)->Obj_0[12].1);
        assert(jview(fields@[13].1) == destiny_item_action_block_definition_json(*v)->Obj_0[13].1);
        assert(jview(fields@[14].1) == destiny_item_action_block_definition_json(*v)->Obj_0[14].1);
        assert(jview(fields@[15].1) == destiny_item_action_block_definition_json(*v)->Obj_0[15].1);
        assert(jview(fields@[16].1) == destiny_item_action_block_definition_json(*v)->Obj_0[16].1);
        assert(jview(r)->Obj_0 =~= destiny_item_action_block_definition_json(*v)->Obj_0);
    }
    r
}

/// Decodes this record; a failure names the offending field in its
/// path and says what was expected of it.
#[verifier::loop_isolation(false)]
#[verifier::rlimit(60)]
pub fn decode_destiny_item_action_block_definition(j: &JsonValue) -> (r: Result<DestinyItemActionBlockDefinition, DecodeError>)
    ensures
        r is Ok <==> destiny_item_action_block_definition_wf(jview(*j)),
        r matches Ok(w) ==> (jview(*j) matches Json::Obj(fields)
            && destiny_item_action_block_definition_fields_match(fields, w)),
        r matches Err(e) ==> destiny_item_action_block_definition_err_ok(jview(*j), e),
{
    let fields = match j {
        JsonValue::Obj(fields) => fields,
        _ => {
            return Err(root_error("an object"));
        },
    };
    let ghost gf = jview(*j)->Obj_0;
    let verb_name = match j.get("verbName") {
        Some(JsonValue::Str(s)) => s.clone(),
        _ => {
            return Err(field_error("verbName", "a string"));
        },
    };
    let verb_description = match j.get("verbDescription") {
        Some(JsonValue::Str(s)) => s.clone(),
        _ => {
            return Err(field_error("verbDescription", "a string"));
        },
    };
    let is_positive = match j.get("isPositive") {
        Some(JsonValue::Bool(b)) => *b,
        _ => {
            return Err(field_error("isPositive", "a boolean"));
        },
    };
    let overlay_screen_name = match j.get("overlayScreenName") {
        Option::None => Option::None,
        Some(JsonValue::Null) => Option::None,
        Some(JsonValue::Str(s)) => Some(s.clone()),
        _ => {
            return Err(field_error("overlayScreenName", "a string or null"));
        },
    };
    let overlay_icon = match j.get("overlayIcon") {
        Option::None => Option::None,
        Some(JsonValue::Null) => Option::None,
        Some(JsonValue::Str(s)) => Some(s.clone()),
        _ => {
            return Err(field_error("overlayIcon", "a string or null"));
        },
    };
    let required_cooldown_seconds = match j.get("requiredCooldownSeconds") {
        Some(v) => match v.to_i64() {
            Some(n) if i32::MIN as i64 <= n && n <= i32::MAX as i64 => n as i32,
            _ => {
                return Err(field_error("requiredCooldownSeconds", "a 32-bit integer"));
            },
        },
        _ => {
            return Err(field_error("requiredCooldownSeconds", "a 32-bit integer"));
        },
    };
    let required_items = match j.get("requiredItems") {
        Option::None => {
            return Err(field_error("requiredItems", "an array"));
        },
        Some(arr) => match arr {
            JsonValue::Arr(items) => {
                let ghost gitems = jview(*arr)->Arr_0;
                let mut out: Vec<DestinyItemActionRequiredItemDefinition> = Vec::new();
                let mut i: usize = 0;
                while i < items.len()
                    invariant
                        i <= items.len(),
                        out@.len() == i,
                        forall|k: int| 0 <= k < i
                            ==> (destiny_item_action_required_item_definition_wf(#[trigger] gitems[k])
                                && (gitems[k] matches Json::Obj(f2)
                                && destiny_item_action_required_item_definition_fields_match(f2, out@[k]))),
                    decreases items.len() - i,
                {
                    proof {
                        assert(gitems[i as int] == jview(items@[i as int]));
                    }
                    match decode_destiny_item_action_required_item_definition(&items[i]) {
                        Ok(r) => {
                            out.push(r);
                        },
                        Err(e) => {
                            return Err(indexed_error("requiredItems", i, e));
                        },
                    }
                    i = i + 1;
                }
                out
            },
            _ => {
                return Err(field_error("requiredItems", "an array"));
            },
        },
    };
    let progression_rewards = match j.get("progressionRewards") {
        Option::None => {
            return Err(field_error("progressionRewards", "an array"));
        },
        Some(arr) => match arr {
            JsonValue::Arr(items) => {
                let ghost gitems = jview(*arr)->Arr_0;
                let mut out: Vec<DestinyProgressionRewardDefinition> = Vec::new();
                let mut i: usize = 0;
                while i < items.len()
                    invariant
                        i <= items.len(),
                        out@.len() == i,
                        forall|k: int| 0 <= k < i
                            ==> (destiny_progression_reward_definition_wf(#[trigger] gitems[k])
                                && (gitems[k] matches Json::Obj(f2)
                                && destiny_progression_reward_definition_fields_match(f2, out@[k]))),
                    decreases items.len() - i,
                {
                    proof {
                        assert(gitems[i as int] == jview(items@[i as int]));
                    }
                    match decode_destiny_progression_reward_definition(&items[i]) {
                        Ok(r) => {
                            out.push(r);
                        },
                        Err(e) => {
                            return Err(indexed_error("progressionRewards", i, e));
                        },
                    }
                    i = i + 1;
                }
                out
            },
            _ => {
                return Err(field_error("progressionRewards", "an array"));
            },
        },
    };
    let reward_sheet_hash = match j.get("rewardSheetHash") {
        Some(v) => match v.to_i64() {
            Some(n) if 0 <= n && n <= u32::MAX as i64 => n as u32,
            _ => {
                return Err(field_error("rewardSheetHash", "a 32-bit unsigned integer"));
            },
        },
        _ => {
            return Err(field_error("rewardSheetHash", "a 32-bit unsigned integer"));
        },
    };
    let reward_item_hash = match j.get("rewardItemHash") {
        Some(v) => match v.to_i64() {
            Some(n) if 0 <= n && n <= u32::MAX as i64 => n as u32,
            _ => {
                return Err(field_error("rewardItemHash", "a 32-bit unsigned integer"));
            },
        },
        _ => {
            return Err(field_error("rewardItemHash", "a 32-bit unsigned integer"));
        },
    };
    let reward_site_hash = match j.get("rewardSiteHash") {
        Some(v) => match v.to_i64() {
            Some(n) if 0 <= n && n <= u32::MAX as i64 => n as u32,
            _ => {
                return Err(field_error("rewardSiteHash", "a 32-bit unsigned integer"));
            },
        },
        _ => {
            return Err(field_error("rewardSiteHash", "a 32-bit unsigned integer"));
        },
    };
    let action_type_label = match j.get("actionTypeLabel") {
        Option::None => Option::None,
        Some(JsonValue::Null) => Option::None,
        Some(JsonValue::Str(s)) => Some(s.clone()),
        _ => {
            return Err(field_error("actionTypeLabel", "a string or null"));
        },
    };
    let required_location = match j.get("requiredLocation") {
        Option::None => Option::None,
        Some(JsonValue::Null) => Option::None,
        Some(JsonValue::Str(s)) => Some(s.clone()),
        _ => {
            return Err(field_error("requiredLocation", "a string or null"));
        },
    };
    let required_cooldown_hash = match j.get("requiredCooldownHash") {
        Some(v) => match v.to_i64() {
            Some(n) if 0 <= n && n <= u32::MAX as i64 => n as u32,
            _ => {
                return Err(field_error("requiredCooldownHash", "a 32-bit unsigned integer"));
            },
        },
        _ => {
            return Err(field_error("requiredCooldownHash", "a 32-bit unsigned integer"));
        },
    };
    let delete_on_action = match j.get("deleteOnAction") {
        Some(JsonValue::Bool(b)) => *b,
        _ => {
            return Err(field_error("deleteOnAction", "a boolean"));
        },
    };
    let consume_entire_stack = match j.get("consumeEntireStack") {
        Some(JsonValue::Bool(b)) => *b,
        _ => {
            return Err(field_error("consumeEntireStack", "a boolean"));
        },
    };
    let use_on_acquire = match j.get("useOnAcquire") {
        Some(JsonValue::Bool(b)) => *b,
        _ => {
            return Err(field_error("useOnAcquire", "a boolean"));
        },
    };
    let mut i: usize = 0;
    while i < fields.len()
        invariant
            i <= fields.len(),
            gf.len() == fields@.len(),
            forall|k: int| 0 <= k < gf.len()
                ==> #[trigger] gf[k] == (fields@[k].0@, jview(fields@[k].1)),
            forall|k: int| 0 <= k < i
                ==> ((#[trigger] gf[k]).0 == "verbName"@ || gf[k].0 == "verbDescription"@ || gf[k].0 == "isPositive"@ || gf[k].0 == "overlayScreenName"@ || gf[k].0 == "overlayIcon"@ || gf[k].0 == "requiredCooldownSeconds"@ || gf[k].0 == "requiredItems"@ || gf[k].0 == "progressionRewards"@ || gf[k].0 == "rewardSheetHash"@ || gf[k].0 == "rewardItemHash"@ || gf[k].0 == "rewardSiteHash"@ || gf[k].0 == "actionTypeLabel"@ || gf[k].0 == "requiredLocation"@ || gf[k].0 == "requiredCooldownHash"@ || gf[k].0 == "deleteOnAction"@ || gf[k].0 == "consumeEntireStack"@ || gf[k].0 == "useOnAcquire"@),
        decreases fields.len() - i,
    {
        let name = fields[i].0.as_str();
        if !(str_eq(name, "verbName") || str_eq(name, "verbDescription") || str_eq(name, "isPositive") || str_eq(name, "overlayScreenName") || str_eq(name, "overlayIcon") || str_eq(name, "requiredCooldownSeconds") || str_eq(name, "requiredItems") || str_eq(name, "progressionRewards") || str_eq(name, "rewardSheetHash") || str_eq(name, "rewardItemHash") || str_eq(name, "rewardSiteHash") || str_eq(name, "actionTypeLabel") || str_eq(name, "requiredLocation") || str_eq(name, "requiredCooldownHash") || str_eq(name, "deleteOnAction") || str_eq(name, "consumeEntireStack") || str_eq(name, "useOnAcquire")) {
            proof {
                assert(gf[i as int].0 == fields@[i as int].0@);
                assert(!destiny_item_action_block_definition_wf(jview(*j)));
            }
            return Err(field_error(fields[i].0.as_str(), "an unknown field"));
        }
        i = i + 1;
    }
    Ok(DestinyItemActionBlockDefinition { verb_name, verb_description, is_positive, overlay_screen_name, overlay_icon, required_cooldown_seconds, required_items, progression_rewards, reward_sheet_hash, reward_item_hash, reward_site_hash, action_type_label, required_location, required_cooldown_hash, delete_on_action, consume_entire_stack, use_on_acquire })
}

/// The wire image of a record is well formed and matched by the
/// record itself: encoding loses nothing that decoding reads.
#[verifier::rlimit(60)]
pub proof fn lemma_destiny_item_action_block_definition_image(v: DestinyItemActionBlockDefinition)
    ensures
        destiny_item_action_block_definition_wf(destiny_item_action_block_definition_json(v)),
        destiny_item_action_block_definition_json(v) matches Json::Obj(fields) && destiny_item_action_block_definition_fields_match(fields, v),
{
    reveal_strlit("verbName");
    reveal_strlit("verbDescription");
    reveal_strlit("isPositive");
    reveal_strlit("overlayScreenName");
    reveal_strlit("overlayIcon");
    reveal_strlit("requiredCooldownSeconds");
    reveal_strlit("requiredItems");
    reveal_strlit("progressionRewards");
    reveal_strlit("rewardSheetHash");
    reveal_strlit("rewardItemHash");
    reveal_strlit("rewardSiteHash");
    reveal_strlit("actionTypeLabel");
    reveal_strlit("requiredLocation");
    reveal_strlit("requiredCooldownHash");
    reveal_strlit("deleteOnAction");
    reveal_strlit("consumeEntireStack");
    reveal_strlit("useOnAcquire");
    let fields = destiny_item_action_block_definition_json(v)->Obj_0;
    assert("verbName"@.len() == 8);
    assert("verbDescription"@.len() == 15);
    assert("isPositive"@.len() == 10);
    assert("overlayScreenName"@.len() == 17);
    assert("overlayIcon"@.len() == 11);
    assert("requiredCooldownSeconds"@.len() == 23);
    assert("requiredItems"@.len() == 13);
    assert("progressionRewards"@.len() == 18);
    assert("rewardSheetHash"@.len() == 15);
    assert("rewardItemHash"@.len() == 14);
    assert("rewardSiteHash"@.len() == 14);
    assert("actionTypeLabel"@.len() == 15);
    assert("requiredLocation"@.len() == 16);
    assert("requiredCooldownHash"@.len() == 20);
    assert("deleteOnAction"@.len() == 14);
    assert("consumeEntireStack"@.len() == 18);
    assert("useOnAcquire"@.len() == 12);
    assert("verbName"@ != "verbDescription"@);
    assert("verbName"@ != "isPositive"@);
    assert("verbName"@ != "overlayScreenName"@);
    assert("verbName"@ != "overlayIcon"@);
    assert("verbName"@ != "requiredCooldownSeconds"@);
    assert("verbName"@ != "requiredItems"@);
    assert("verbName"@ != "progressionRewards"@);
    assert("verbName"@ != "rewardSheetHash"@);
    assert("verbName"@ != "rewardItemHash"@);
    assert("verbName"@ != "rewardSiteHash"@);
    assert("verbName"@ != "actionTypeLabel"@);
    assert("verbName"@ != "requiredLocation"@);
    assert("verbName"@ != "requiredCooldownHash"@);
    assert("verbName"@ != "deleteOnAction"@);
    assert("verbName"@ != "consumeEntireStack"@);
    assert("verbName"@ != "useOnAcquire"@);
    assert("verbDescription"@ != "isPositive"@);
    assert("verbDescription"@ != "overlayScreenName"@);
    assert("verbDescription"@ != "overlayIcon"@);
    assert("verbDescription"@ != "requiredCooldownSeconds"@);
    assert("verbDescription"@ != "requiredItems"@);
    assert("verbDescription"@ != "progressionRewards"@);
    assert(("verbDescription"@)[0] != ("rewardSheetHash"@)[0]);
    assert("verbDescription"@ != "rewardSheetHash"@);
    assert("verbDescription"@ != "rewardItemHash"@);
    assert("verbDescription"@ != "rewardSiteHash"@);
    assert(("verbDescription"@)[0] != ("actionTypeLabel"@)[0]);
    assert("verbDescription"@ != "actionTypeLabel"@);
    assert("verbDescription"@ != "requiredLocation"@);
    assert("verbDescription"@ != "requiredCooldownHash"@);
    assert("verbDescription"@ != "deleteOnAction"@);
    assert("verbDescription"@ != "consumeEntireStack"@);
    assert("verbDescription"@ != "useOnAcquire"@);
    assert("isPositive"@ != "overlayScreenName"@);
    assert("isPositive"@ != "overlayIcon"@);
    assert("isPositive"@ != "requiredCooldownSeconds"@);
    assert("isPositive"@ != "requiredItems"@);
    assert("isPositive"@ != "progressionRewards"@);
    assert("isPositive"@ != "rewardSheetHash"@);
    assert("isPositive"@ != "rewardItemHash"@);
    assert("isPositive"@ != "rewardSiteHash"@);
    assert("isPositive"@ != "actionTypeLabel"@);
    assert("isPositive"@ != "requiredLocation"@);
    assert("isPositive"@ != "requiredCooldownHash"@);
    assert("isPositive"@ != "deleteOnAction"@);
    assert("isPositive"@ != "consumeEntireStack"@);
    assert("isPositive"@ != "useOnAcquire"@);
    assert("overlayScreenName"@ != "overlayIcon"@);
    assert("overlayScreenName"@ != "requiredCooldownSeconds"@);
    assert("overlayScreenName"@ != "requiredItems"@);
    assert("overlayScreenName"@ != "progressionRewards"@);
    assert("overlayScreenName"@ != "rewardSheetHash"@);
    assert("overlayScreenName"@ != "rewardItemHash"@);
    assert("overlayScreenName"@ != "rewardSiteHash"@);
    assert("overlayScreenName"@ != "actionTypeLabel"@);
    assert("overlayScreenName"@ != "requiredLocation"@);
    assert("overlayScreenName"@ != "requiredCooldownHash"@);
    assert("overlayScreenName"@ != "deleteOnAction"@);
    assert("overlayScreenName"@ != "consumeEntireStack"@);
    assert("overlayScreenName"@ != "useOnAcquire"@);
    assert("overlayIcon"@ != "requiredCooldownSeconds"@);
    assert("overlayIcon"@ != "requiredItems"@);
    assert("overlayIcon"@ != "progressionRewards"@);
    assert("overlayIcon"@ != "rewardSheetHash"@);
    assert("overlayIcon"@ != "rewardItemHash"@);
    assert("overlayIcon"@ != "rewardSiteHash"@);
    assert("overlayIcon"@ != "actionTypeLabel"@);
    assert("overlayIcon"@ != "requiredLocation"@);
    assert("overlayIcon"@ != "requiredCooldownHash"@);
    assert("overlayIcon"@ != "deleteOnAction"@);
    assert("overlayIcon"@ != "consumeEntireStack"@);
    assert("overlayIcon"@ != "useOnAcquire"@);
    assert("requiredCooldownSeconds"@ != "requiredItems"@);
    assert("requiredCooldownSeconds"@ != "progressionRewards"@);
    assert("requiredCooldownSeconds"@ != "rewardSheetHash"@);
    assert("requiredCooldownSeconds"@ != "rewardItemHash"@);
    assert("requiredCooldownSeconds"@ != "rewardSiteHash"@);
    assert("requiredCooldownSeconds"@ != "actionTypeLabel"@);
    assert("requiredCooldownSeconds"@ != "requiredLocation"@);
    assert("requiredCooldownSeconds"@ != "requiredCooldownHash"@);
    assert("requiredCooldownSeconds"@ != "deleteOnAction"@);
    assert("requiredCooldownSeconds"@ != "consumeEntireStack"@);
    assert("requiredCooldownSeconds"@ != "useOnAcquire"@);
    assert("requiredItems"@ != "progressionRewards"@);
    assert("requiredItems"@ != "rewardSheetHash"@);
    assert("requiredItems"@ != "rewardItemHash"@);
    assert("requiredItems"@ != "rewardSiteHash"@);
    assert("requiredItems"@ != "actionTypeLabel"@);
    assert("requiredItems"@ != "requiredLocation"@);
    assert("requiredItems"@ != "requiredCooldownHash"@);
    assert("requiredItems"@ != "deleteOnAction"@);
    assert("requiredItems"@ != "consumeEntireStack"@);
    assert("requiredItems"@ != "useOnAcquire"@);
    assert("progressionRewards"@ != "rewardSheetHash"@);
    assert("progressionRewards"@ != "rewardItemHash"@);
    assert("progressionRewards"@ != "rewardSiteHash"@);
    assert("progressionRewards"@ != "actionTypeLabel"@);
    assert("progressionRewards"@ != "requiredLocation"@);
    assert("progressionRewards"@ != "requiredCooldownHash"@);
    assert("progressionRewards"@ != "deleteOnAction"@);
    assert(("progressionRewards"@)[0] != ("consumeEntireStack"@)[0]);
    assert("progressionRewards"@ != "consumeEntireStack"@);
    assert("progressionRewards"@ != "useOnAcquire"@);
    assert("rewardSheetHash"@ != "rewardItemHash"@);
    assert("rewardSheetHash"@ != "rewardSiteHash"@);
    assert(("rewardSheetHash"@)[0] != ("actionTypeLabel"@)[0]);
    assert("rewardSheetHash"@ != "actionTypeLabel"@);
    assert("rewardSheetHash"@ != "requiredLocation"@);
    assert("rewardSheetHash"@ != "requiredCooldownHash"@);
    assert("rewardSheetHash"@ != "deleteOnAction"@);
    assert("rewardSheetHash"@ != "consumeEntireStack"@);
    assert("rewardSheetHash"@ != "useOnAcquire"@);
    assert(("rewardItemHash"@)[6] != ("rewardSiteHash"@)[6]);
    assert("rewardItemHash"@ != "rewardSiteHash"@);
    assert("rewardItemHash"@ != "actionTypeLabel"@);
    assert("rewardItemHash"@ != "requiredLocation"@);
    assert("rewardItemHash"@ != "requiredCooldownHash"@);
    assert(("rewardItemHash"@)[0] != ("deleteOnAction"@)[0]);
    assert("rewardItemHash"@ != "deleteOnAction"@);
    assert("rewardItemHash"@ != "consumeEntireStack"@);
    assert("rewardItemHash"@ != "useOnAcquire"@);
    assert("rewardSiteHash"@ != "actionTypeLabel"@);
    assert("rewardSiteHash"@ != "requiredLocation"@);
    assert("rewardSiteHash"@ != "requiredCooldownHash"@);
    assert(("rewardSiteHash"@)[0] != ("deleteOnAction"@)[0]);
    assert("rewardSiteHash"@ != "deleteOnAction"@);
    assert("rewardSiteHash"@ != "consumeEntireStack"@);
    assert("rewardSiteHash"@ != "useOnAcquire"@);
    assert("actionTypeLabel"@ != "requiredLocation"@);
    assert("actionTypeLabel"@ != "requiredCooldownHash"@);
    assert("actionTypeLabel"@ != "deleteOnAction"@);
    assert("actionTypeLabel"@ != "consumeEntireStack"@);
    assert("actionTypeLabel"@ != "useOnAcquire"@);
    assert("requiredLocation"@ != "requiredCooldownHash"@);
    assert("requiredLocation"@ != "deleteOnAction"@);
    assert("requiredLocation"@ != "consumeEntireStack"@);
    assert("requiredLocation"@ != "useOnAcquire"@);
    assert("requiredCooldownHash"@ != "deleteOnAction"@);
    assert("requiredCooldownHash"@ != "consumeEntireStack"@);
    assert("requiredCooldownHash"@ != "useOnAcquire"@);
    assert("deleteOnAction"@ != "consumeEntireStack"@);
    assert("deleteOnAction"@ != "useOnAcquire"@);
    assert("consumeEntireStack"@ != "useOnAcquire"@);
    lemma_lookup_at(fields, 0);
    lemma_lookup_at(fields, 1);
    lemma_lookup_at(fields, 2);
    lemma_lookup_at(fields, 3);
    lemma_lookup_at(fields, 4);
    lemma_lookup_at(fields, 5);
    lemma_lookup_at(fields, 6);
    lemma_lookup_at(fields, 7);
    lemma_lookup_at(fields, 8);
    lemma_lookup_at(fields, 9);
    lemma_lookup_at(fields, 10);
    lemma_lookup_at(fields, 11);
    lemma_lookup_at(fields, 12);
    lemma_lookup_at(fields, 13);
    lemma_lookup_at(fields, 14);
    lemma_lookup_at(fields, 15);
    lemma_lookup_at(fields, 16);
    assert forall|i: int| 0 <= i < v.required_items@.len()
        implies (destiny_item_action_required_item_definition_wf(#[trigger] fields[6].1->Arr_0[i])
            && (fields[6].1->Arr_0[i] matches Json::Obj(f2)
            && destiny_item_action_required_item_definition_fields_match(f2, v.required_items@[i]))) by {
        assert(fields[6].1->Arr_0[i] == destiny_item_action_required_item_definition_json(v.required_items@[i]));
        lemma_destiny_item_action_required_item_definition_image(v.required_items@[i]);
    }
    assert forall|i: int| 0 <= i < v.progression_rewards@.len()
        implies (destiny_progression_reward_definition_wf(#[trigger] fields[7].1->Arr_0[i])
            && (fields[7].1->Arr_0[i] matches Json::Obj(f2)
            && destiny_progression_reward_definition_fields_match(f2, v.progression_rewards@[i]))) by {
        assert(fields[7].1->Arr_0[i] == destiny_progression_reward_definition_json(v.progression_rewards@[i]));
        lemma_destiny_progression_reward_definition_image(v.progression_rewards@[i]);
    }
}

/// Decoding the encoded image of a record yields a record whose
/// every field carries the same content as the one encoded.
#[verifier::rlimit(60)]
pub proof fn lemma_destiny_item_action_block_definition_round_trip(v: DestinyItemActionBlockDefinition, w: DestinyItemActionBlockDefinition)
    requires
        destiny_item_action_block_definition_json(v) matches Json::Obj(fields) && destiny_item_action_block_definition_fields_match(fields, w),
    ensures
        destiny_item_action_block_definition_wf(destiny_item_action_block_definition_json(v)),
        w.verb_name@ == v.verb_name@,
        w.verb_description@ == v.verb_description@,
        w.is_positive == v.is_positive,
        (match v.overlay_screen_name { Some(x) => w.overlay_screen_name matches Some(y) && y@ == x@, Option::None => w.overlay_screen_name is None }),
        (match v.overlay_icon { Some(x) => w.overlay_icon matches Some(y) && y@ == x@, Option::None => w.overlay_icon is None }),
        w.required_cooldown_seconds == v.required_cooldown_seconds,
        w.required_items@.len() == v.required_items@.len(),
        forall|i: int| 0 <= i < v.required_items@.len() ==> (destiny_item_action_required_item_definition_json(v.required_items@[i]) matches Json::Obj(f2) && destiny_item_action_required_item_definition_fields_match(f2, #[trigger] w.required_items@[i])),
        w.progression_rewards@.len() == v.progression_rewards@.len(),
        forall|i: int| 0 <= i < v.progression_rewards@.len() ==> (destiny_progression_reward_definition_json(v.progression_rewards@[i]) matches Json::Obj(f2) && destiny_progression_reward_definition_fields_match(f2, #[trigger] w.progression_rewards@[i])),
        w.reward_sheet_hash == v.reward_sheet_hash,
        w.reward_item_hash == v.reward_item_hash,
        w.reward_site_hash == v.reward_site_hash,
        (match v.action_type_label { Some(x) => w.action_type_label matches Some(y) && y@ == x@, Option::None => w.action_type_label is None }),
        (match v.required_location { Some(x) => w.required_location matches Some(y) && y@ == x@, Option::None => w.required_location is None }),
        w.required_cooldown_hash == v.required_cooldown_hash,
        w.delete_on_action == v.delete_on_action,
        w.consume_entire_stack == v.consume_entire_stack,
        w.use_on_acquire == v.use_on_acquire,
{
    lemma_destiny_item_action_block_definition_image(v);
    let fields = destiny_item_action_block_definition_json(v)->Obj_0;
    reveal_strlit("verbName");
    reveal_strlit("verbDescription");
    reveal_strlit("isPositive");
    reveal_strlit("overlayScreenName");
    reveal_strlit("overlayIcon");
    reveal_strlit("requiredCooldownSeconds");
    reveal_strlit("requiredItems");
    reveal_strlit("progressionRewards");
    reveal_strlit("rewardSheetHash");
    reveal_strlit("rewardItemHash");
    reveal_strlit("rewardSiteHash");
    reveal_strlit("actionTypeLabel");
    reveal_strlit("requiredLocation");
    reveal_strlit("requiredCooldownHash");
    reveal_strlit("deleteOnAction");
    reveal_strlit("consumeEntireStack");
    reveal_strlit("useOnAcquire");
    assert("verbName"@.len() == 8);
    assert("verbDescription"@.len() == 15);
    assert("isPositive"@.len() == 10);
    assert("overlayScreenName"@.len() == 17);
    assert("overlayIcon"@.len() == 11);
    assert("requiredCooldownSeconds"@.len() == 23);
    assert("requiredItems"@.len() == 13);
    assert("progressionRewards"@.len() == 18);
    assert("rewardSheetHash"@.len() == 15);
    assert("rewardItemHash"@.len() == 14);
    assert("rewardSiteHash"@.len() == 14);
    assert("actionTypeLabel"@.len() == 15);
    assert("requiredLocation"@.len() == 16);
    assert("requiredCooldownHash"@.len() == 20);
    assert("deleteOnAction"@.len() == 14);
    assert("consumeEntireStack"@.len() == 18);
    assert("useOnAcquire"@.len() == 12);
    assert("verbName"@ != "verbDescription"@);
    assert("verbName"@ != "isPositive"@);
    assert("verbName"@ != "overlayScreenName"@);
    assert("verbName"@ != "overlayIcon"@);
    assert("verbName"@ != "requiredCooldownSeconds"@);
    assert("verbName"@ != "requiredItems"@);
    assert("verbName"@ != "progressionRewards"@);
    assert("verbName"@ != "rewardSheetHash"@);
    assert("verbName"@ != "rewardItemHash"@);
    assert("verbName"@ != "rewardSiteHash"@);
    assert("verbName"@ != "actionTypeLabel"@);
    assert("verbName"@ != "requiredLocation"@);
    assert("verbName"@ != "requiredCooldownHash"@);
    assert("verbName"@ != "deleteOnAction"@);
    assert("verbName"@ != "consumeEntireStack"@);
    assert("verbName"@ != "useOnAcquire"@);
    assert("verbDescription"@ != "isPositive"@);
    assert("verbDescription"@ != "overlayScreenName"@);
    assert("verbDescription"@ != "overlayIcon"@);
    assert("verbDescription"@ != "requiredCooldownSeconds"@);
    assert("verbDescription"@ != "requiredItems"@);
    assert("verbDescription"@ != "progressionRewards"@);
    assert(("verbDescription"@)[0] != ("rewardSheetHash"@)[0]);
    assert("verbDescription"@ != "rewardSheetHash"@);
    assert("verbDescription"@ != "rewardItemHash"@);
    assert("verbDescription"@ != "rewardSiteHash"@);
    assert(("verbDescription"@)[0] != ("actionTypeLabel"@)[0]);
    assert("verbDescription"@ != "actionTypeLabel"@);
    assert("verbDescription"@ != "requiredLocation"@);
    assert("verbDescription"@ != "requiredCooldownHash"@);
    assert("verbDescription"@ != "deleteOnAction"@);
    assert("verbDescription"@ != "consumeEntireStack"@);
    assert("verbDescription"@ != "useOnAcquire"@);
    assert("isPositive"@ != "overlayScreenName"@);
    assert("isPositive"@ != "overlayIcon"@);
    assert("isPositive"@ != "requiredCooldownSeconds"@);
    assert("isPositive"@ != "requiredItems"@);
    assert("isPositive"@ != "progressionRewards"@);
    assert("isPositive"@ != "rewardSheetHash"@);
    assert("isPositive"@ != "rewardItemHash"@);
    assert("isPositive"@ != "rewardSiteHash"@);
    assert("isPositive"@ != "actionTypeLabel"@);
    assert("isPositive"@ != "requiredLocation"@);
    assert("isPositive"@ != "requiredCooldownHash"@);
    assert("isPositive"@ != "deleteOnAction"@);
    assert("isPositive"@ != "consumeEntireStack"@);
    assert("isPositive"@ != "useOnAcquire"@);
    assert("overlayScreenName"@ != "overlayIcon"@);
    assert("overlayScreenName"@ != "requiredCooldownSeconds"@);
    assert("overlayScreenName"@ != "requiredItems"@);
    assert("overlayScreenName"@ != "progressionRewards"@);
    assert("overlayScreenName"@ != "rewardSheetHash"@);
    assert("overlayScreenName"@ != "rewardItemHash"@);
    assert("overlayScreenName"@ != "rewardSiteHash"@);
    assert("overlayScreenName"@ != "actionTypeLabel"@);
    assert("overlayScreenName"@ != "requiredLocation"@);
    assert("overlayScreenName"@ != "requiredCooldownHash"@);
    assert("overlayScreenName"@ != "deleteOnAction"@);
    assert("overlayScreenName"@ != "consumeEntireStack"@);
    assert("overlayScreenName"@ != "useOnAcquire"@);
    assert("overlayIcon"@ != "requiredCooldownSeconds"@);
    assert("overlayIcon"@ != "requiredItems"@);
    assert("overlayIcon"@ != "progressionRewards"@);
    assert("overlayIcon"@ != "rewardSheetHash"@);
    assert("overlayIcon"@ != "rewardItemHash"@);
    assert("overlayIcon"@ != "rewardSiteHash"@);
    assert("overlayIcon"@ != "actionTypeLabel"@);
    assert("overlayIcon"@ != "requiredLocation"@);
    assert("overlayIcon"@ != "requiredCooldownHash"@);
    assert("overlayIcon"@ != "deleteOnAction"@);
    assert("overlayIcon"@ != "consumeEntireStack"@);
    assert("overlayIcon"@ != "useOnAcquire"@);
    assert("requiredCooldownSeconds"@ != "requiredItems"@);
    assert("requiredCooldownSeconds"@ != "progressionRewards"@);
    assert("requiredCooldownSeconds"@ != "rewardSheetHash"@);
    assert("requiredCooldownSeconds"@ != "rewardItemHash"@);
    assert("requiredCooldownSeconds"@ != "rewardSiteHash"@);
    assert("requiredCooldownSeconds"@ != "actionTypeLabel"@);
    assert("requiredCooldownSeconds"@ != "requiredLocation"@);
    assert("requiredCooldownSeconds"@ != "requiredCooldownHash"@);
    assert("requiredCooldownSeconds"@ != "deleteOnAction"@);
    assert("requiredCooldownSeconds"@ != "consumeEntireStack"@);
    assert("requiredCooldownSeconds"@ != "useOnAcquire"@);
    assert("requiredItems"@ != "progressionRewards"@);
    assert("requiredItems"@ != "rewardSheetHash"@);
    assert("requiredItems"@ != "rewardItemHash"@);
    assert("requiredItems"@ != "rewardSiteHash"@);
    assert("requiredItems"@ != "actionTypeLabel"@);
    assert("requiredItems"@ != "requiredLocation"@);
    assert("requiredItems"@ != "requiredCooldownHash"@);
    assert("requiredItems"@ != "deleteOnAction"@);
    assert("requiredItems"@ != "consumeEntireStack"@);
    assert("requiredItems"@ != "useOnAcquire"@);
    assert("progressionRewards"@ != "rewardSheetHash"@);
    assert("progressionRewards"@ != "rewardItemHash"@);
    assert("progressionRewards"@ != "rewardSiteHash"@);
    assert("progressionRewards"@ != "actionTypeLabel"@);
    assert("progressionRewards"@ != "requiredLocation"@);
    assert("progressionRewards"@ != "requiredCooldownHash"@);
    assert("progressionRewards"@ != "deleteOnAction"@);
    assert(("progressionRewards"@)[0] != ("consumeEntireStack"@)[0]);
    assert("progressionRewards"@ != "consumeEntireStack"@);
    assert("progressionRewards"@ != "useOnAcquire"@);
    assert("rewardSheetHash"@ != "rewardItemHash"@);
    assert("rewardSheetHash"@ != "rewardSiteHash"@);
    assert(("rewardSheetHash"@)[0] != ("actionTypeLabel"@)[0]);
    assert("rewardSheetHash"@ != "actionTypeLabel"@);
    assert("rewardSheetHash"@ != "requiredLocation"@);
    assert("rewardSheetHash"@ != "requiredCooldownHash"@);
    assert("rewardSheetHash"@ != "deleteOnAction"@);
    assert("rewardSheetHash"@ != "consumeEntireStack"@);
    assert("rewardSheetHash"@ != "useOnAcquire"@);
    assert(("rewardItemHash"@)[6] != ("rewardSiteHash"@)[6]);
    assert("rewardItemHash"@ != "rewardSiteHash"@);
    assert("rewardItemHash"@ != "actionTypeLabel"@);
    assert("rewardItemHash"@ != "requiredLocation"@);
    assert("rewardItemHash"@ != "requiredCooldownHash"@);
    assert(("rewardItemHash"@)[0] != ("deleteOnAction"@)[0]);
    assert("rewardItemHash"@ != "deleteOnAction"@);
    assert("rewardItemHash"@ != "consumeEntireStack"@);
    assert("rewardItemHash"@ != "useOnAcquire"@);
    assert("rewardSiteHash"@ != "actionTypeLabel"@);
    assert("rewardSiteHash"@ != "requiredLocation"@);
    assert("rewardSiteHash"@ != "requiredCooldownHash"@);
    assert(("rewardSiteHash"@)[0] != ("deleteOnAction"@)[0]);
    assert("rewardSiteHash"@ != "deleteOnAction"@);
    assert("rewardSiteHash"@ != "consumeEntireStack"@);
    assert("rewardSiteHash"@ != "useOnAcquire"@);
    assert("actionTypeLabel"@ != "requiredLocation"@);
    assert("actionTypeLabel"@ != "requiredCooldownHash"@);
    assert("actionTypeLabel"@ != "deleteOnAction"@);
    assert("actionTypeLabel"@ != "consumeEntireStack"@);
    assert("actionTypeLabel"@ != "useOnAcquire"@);
    assert("requiredLocation"@ != "requiredCooldownHash"@);
    assert("requiredLocation"@ != "deleteOnAction"@);
    assert("requiredLocation"@ != "consumeEntireStack"@);
    assert("requiredLocation"@ != "useOnAcquire"@);
    assert("requiredCooldownHash"@ != "deleteOnAction"@);
    assert("requiredCooldownHash"@ != "consumeEntireStack"@);
    assert("requiredCooldownHash"@ != "useOnAcquire"@);
    assert("deleteOnAction"@ != "consumeEntireStack"@);
    assert("deleteOnAction"@ != "useOnAcquire"@);
    assert("consumeEntireStack"@ != "useOnAcquire"@);
    lemma_lookup_at(fields, 0);
    lemma_lookup_at(fields, 1);
    lemma_lookup_at(fields, 2);
    lemma_lookup_at(fields, 3);
    lemma_lookup_at(fields, 4);
    lemma_lookup_at(fields, 5);
    lemma_lookup_at(fields, 6);
    lemma_lookup_at(fields, 7);
    lemma_lookup_at(fields, 8);
    lemma_lookup_at(fields, 9);
    lemma_lookup_at(fields, 10);
    lemma_lookup_at(fields, 11);
    lemma_lookup_at(fields, 12);
    lemma_lookup_at(fields, 13);
    lemma_lookup_at(fields, 14);
    lemma_lookup_at(fields, 15);
    lemma_lookup_at(fields, 16);
    assert forall|i: int| 0 <= i < v.required_items@.len()
        implies (destiny_item_action_required_item_definition_json(v.required_items@[i]) matches Json::Obj(f2)
            && destiny_item_action_required_item_definition_fields_match(f2, #[trigger] w.required_items@[i])) by {
        assert(fields[6].1->Arr_0[i] == destiny_item_action_required_item_definition_json(v.required_items@[i]));
        lemma_destiny_item_action_required_item_definition_image(v.required_items@[i]);
    }
    assert forall|i: int| 0 <= i < v.progression_rewards@.len()
        implies (destiny_progression_reward_definition_json(v.progression_rewards@[i]) matches Json::Obj(f2)
            && destiny_progression_reward_definition_fields_match(f2, #[trigger] w.progression_rewards@[i])) by {
        assert(fields[7].1->Arr_0[i] == destiny_progression_reward_definition_json(v.progression_rewards@[i]));
        lemma_destiny_progression_reward_definition_image(v.progression_rewards@[i]);
    }
}

/// The wire image of this record.
pub open spec fn dye_reference_json(v: DyeReference) -> Json {
    Json::Obj(
        seq![
            ("channelHash"@, Json::Int(v.channel_hash as int)),
            ("dyeHash"@, Json::Int(v.dye_hash as int)),
        ],
    )
}

/// Whether a document decodes as this record: an object with exactly these fields.
pub open spec fn dye_reference_wf(j: Json) -> bool {
    &&& j matches Json::Obj(fields)
    &&& spec_lookup(fields, "channelHash"@) matches Some(Json::Int(n)) && 0 <= n <= u32::MAX as int
    &&& spec_lookup(fields, "dyeHash"@) matches Some(Json::Int(n)) && 0 <= n <= u32::MAX as int
    &&& forall|i: int| 0 <= i < fields.len()
        ==> ((#[trigger] fields[i]).0 == "channelHash"@ || fields[i].0 == "dyeHash"@)
}

/// How a decoded record relates to the document it came from.
pub open spec fn dye_reference_fields_match(fields: Seq<(Seq<char>, Json)>, w: DyeReference) -> bool {
    &&& spec_lookup(fields, "channelHash"@) == Some(Json::Int(w.channel_hash as int))
    &&& spec_lookup(fields, "dyeHash"@) == Some(Json::Int(w.dye_hash as int))
}

/// What a decode failure names: its path points at a field of the
/// document that is indeed not decodable, and an undeclared
/// enumeration code is reported with the enumeration's own message.
pub open spec fn dye_reference_err_ok(j: Json, e: DecodeError) -> bool {
    &&& !(j matches Json::Obj(_)) ==> e.path@.len() == 0
    &&& j matches Json::Obj(fields) ==> (
        (e.path@ == "channelHash"@ && !(spec_lookup(fields, "channelHash"@) matches Some(Json::Int(n)) && 0 <= n <= u32::MAX as int))
        || (e.path@ == "dyeHash"@ && !(spec_lookup(fields, "dyeHash"@) matches Some(Json::Int(n)) && 0 <= n <= u32::MAX as int))
        || (exists|i: int| 0 <= i < fields.len() && (#[trigger] fields[i]).0 == e.path@ && !((fields[i].0 == "channelHash"@ || fields[i].0 == "dyeHash"@))))
}

pub fn encode_dye_reference(v: &DyeReference) -> (r: JsonValue)
    ensures
        jview(r) == dye_reference_json(*v),
{
    let mut fields: Vec<(String, JsonValue)> = Vec::new();
    fields.push(("channelHash".to_owned(), JsonValue::Int(v.channel_hash as i64)));
    fields.push(("dyeHash".to_owned(), JsonValue::Int(v.dye_hash as i64)));
    let r = JsonValue::Obj(fields);
    proof {
        assert(jview(fields@[0].1) == dye_reference_json(*v)->Obj_0[0].1);
        assert(jview(fields@[1].1) == dye_reference_json(*v)->Obj_0[1].1);
        assert(jview(r)->Obj_0 =~= dye_reference_json(*v)->Obj_0);
    }
    r
}

/// Decodes this record; a failure names the offending field in its
/// path and says what was expected of it.
#[verifier::loop_isolation(false)]
pub fn decode_dye_reference(j: &JsonValue) -> (r: Result<DyeReference, DecodeError>)
    ensures
        r is Ok <==> dye_reference_wf(jview(*j)),
        r matches Ok(w) ==> (jview(*j) matches Json::Obj(fields)
            && dye_reference_fields_match(fields, w)),
        r matches Err(e) ==> dye_reference_err_ok(jview(*j), e),
{
    let fields = match j {
        JsonValue::Obj(fields) => fields,
        _ => {
            return Err(root_error("an object"));
        },
    };
    let ghost gf = jview(*j)->Obj_0;
    let channel_hash = match j.get("channelHash") {
        Some(v) => match v.to_i64() {
            Some(n) if 0 <= n && n <= u32::MAX as i64 => n as u32,
            _ => {
                return Err(field_error("channelHash", "a 32-bit unsigned integer"));
            },
        },
        _ => {
            return Err(field_error("channelHash", "a 32-bit unsigned integer"));
        },
    };
    let dye_hash = match j.get("dyeHash") {
        Some(v) => match v.to_i64() {
            Some(n) if 0 <= n && n <= u32::MAX as i64 => n as u32,
            _ => {
                return Err(field_error("dyeHash", "a 32-bit unsigned integer"));
            },
        },
        _ => {
            return Err(field_error("dyeHash", "a 32-bit unsigned integer"));
        },
    };
    let mut i: usize = 0;
    while i < fields.len()
        invariant
            i <= fields.len(),
            gf.len() == fields@.len(),
            forall|k: int| 0 <= k < gf.len()
                ==> #[trigger] gf[k] == (fields@[k].0@, jview(fields@[k].1)),
            forall|k: int| 0 <= k < i
                ==> ((#[trigger] gf[k]).0 == "channelHash"@ || gf[k].0 == "dyeHash"@),
        decreases fields.len() - i,
    {
        let name = fields[i].0.as_str();
        if !(str_eq(name, "channelHash") || str_eq(name, "dyeHash")) {
            proof {
                assert(gf[i as int].0 == fields@[i as int].0@);
                assert(!dye_reference_wf(jview(*j)));
            }
            return Err(field_error(fields[i].0.as_str(), "an unknown field"));
        }
        i = i + 1;
    }
    Ok(DyeReference { channel_hash, dye_hash })
}

/// The wire image of a record is well formed and matched by the
/// record itself: encoding loses nothing that decoding reads.
pub proof fn lemma_dye_reference_image(v: DyeReference)
    ensures
        dye_reference_wf(dye_reference_json(v)),
        dye_reference_json(v) matches Json::Obj(fields) && dye_reference_fields_match(fields, v),
{
    reveal_strlit("channelHash");
    reveal_strlit("dyeHash");
    let fields = dye_reference_json(v)->Obj_0;
    assert("channelHash"@.len() == 11);
    assert("dyeHash"@.len() == 7);
    assert("channelHash"@ != "dyeHash"@);
    lemma_lookup_at(fields, 0);
    lemma_lookup_at(fields, 1);
}

/// Decoding the encoded image of a record yields a record whose
/// every field carries the same content as the one encoded.
pub proof fn lemma_dye_reference_round_trip(v: DyeReference, w: DyeReference)
    requires
        dye_reference_json(v) matches Json::Obj(fields) && dye_reference_fields_match(fields, w),
    ensures
        dye_reference_wf(dye_reference_json(v)),
        w.channel_hash == v.channel_hash,
        w.dye_hash == v.dye_hash,
{
    lemma_dye_reference_image(v);
    let fields = dye_reference_json(v)->Obj_0;
    reveal_strlit("channelHash");
    reveal_strlit("dyeHash");
    assert("channelHash"@.len() == 11);
    assert("dyeHash"@.len() == 7);
    assert("channelHash"@ != "dyeHash"@);
    lemma_lookup_at(fields, 0);
    lemma_lookup_at(fields, 1);
}

/// The wire image of this record.
pub open spec fn destiny_item_gearset_block_definition_json(v: DestinyItemGearsetBlockDefinition) -> Json {
    Json::Obj(
        seq![
            ("trackingValueMax"@, Json::Int(v.tracking_value_max as int)),
            ("itemList"@, Json::Arr(Seq::new(v.item_list@.len(), |i: int| if 0 <= i < v.item_list@.len() { Json::Int(v.item_list@[i] as int) } else { Json::Null }))),
        ],
    )
}

/// Whether a document decodes as this record: an object with exactly these fields.
pub open spec fn destiny_item_gearset_block_definition_wf(j: Json) -> bool {
    &&& j matches Json::Obj(fields)
    &&& spec_lookup(fields, "trackingValueMax"@) matches Some(Json::Int(n)) && i32::MIN as int <= n <= i32::MAX as int
    &&& match spec_lookup(fields, "itemList"@) { Option::None => false, Some(Json::Arr(items)) => forall|i: int| 0 <= i < items.len() ==> ((#[trigger] items[i]) matches Json::Int(n) && 0 <= n <= u32::MAX as int), _ => false }
    &&& forall|i: int| 0 <= i < fields.len()
        ==> ((#[trigger] fields[i]).0 == "trackingValueMax"@ || fields[i].0 == "itemList"@)
}

/// How a decoded record relates to the document it came from.
pub open spec fn destiny_item_gearset_block_definition_fields_match(fields: Seq<(Seq<char>, Json)>, w: DestinyItemGearsetBlockDefinition) -> bool {
    &&& spec_lookup(fields, "trackingValueMax"@) == Some(Json::Int(w.tracking_value_max as int))
    &&& match spec_lookup(fields, "itemList"@) { Option::None => false, Some(Json::Arr(items)) => w.item_list@.len() == items.len() && (forall|i: int| 0 <= i < items.len() ==> (#[trigger] items[i]) == Json::Int(w.item_list@[i] as int)), _ => false }
}

/// What a decode failure names: its path points at a field of the
/// document that is indeed not decodable, and an undeclared
/// enumeration code is reported with the enumeration's own message.
pub open spec fn destiny_item_gearset_block_definition_err_ok(j: Json, e: DecodeError) -> bool {
    &&& !(j matches Json::Obj(_)) ==> e.path@.len() == 0
    &&& j matches Json::Obj(fields) ==> (
        (e.path@ == "trackingValueMax"@ && !(spec_lookup(fields, "trackingValueMax"@) matches Some(Json::Int(n)) && i32::MIN as int <= n <= i32::MAX as int))
        || ((e.path@ == "itemList"@ || spec_starts_with(e.path@, "itemList"@)) && !(match spec_lookup(fields, "itemList"@) { Option::None => false, Some(Json::Arr(items)) => forall|i: int| 0 <= i < items.len() ==> ((#[trigger] items[i]) matches Json::Int(n) && 0 <= n <= u32::MAX as int), _ => false }))
        || (exists|i: int| 0 <= i < fields.len() && (#[trigger] fields[i]).0 == e.path@ && !((fields[i].0 == "trackingValueMax"@ || fields[i].0 == "itemList"@))))
}

pub fn encode_destiny_item_gearset_block_definition(v: &DestinyItemGearsetBlockDefinition) -> (r: JsonValue)
    ensures
        jview(r) == destiny_item_gearset_block_definition_json(*v),
{
    let mut fields: Vec<(String, JsonValue)> = Vec::new();
    fields.push(("trackingValueMax".to_owned(), JsonValue::Int(v.tracking_value_max as i64)));
    let arr_item_list = {
        let mut items: Vec<JsonValue> = Vec::new();
        let mut i: usize = 0;
        while i < v.item_list.len()
            invariant
                i <= v.item_list.len(),
                items@.len() == i,
                forall|k: int| 0 <= k < i ==> jview(#[trigger] items@[k]) == Json::Int(v.item_list@[k] as int),
            decreases v.item_list.len() - i,
        {
            items.push(JsonValue::Int(v.item_list[i] as i64));
            i = i + 1;
        }
        JsonValue::Arr(items)
    };
    proof {
        assert(jview(arr_item_list)->Arr_0 =~= destiny_item_gearset_block_definition_json(*v)->Obj_0[1].1->Arr_0);
    }
    fields.push(("itemList".to_owned(), arr_item_list));
    let r = JsonValue::Obj(fields);
    proof {
        assert(jview(fields@[0].1) == destiny_item_gearset_block_definition_json(*v)->Obj_0[0].1);
        assert(jview(fields@[1].1) == destiny_item_gearset_block_definition_json(*v)->Obj_0[1].1);
        assert(jview(r)->Obj_0 =~= destiny_item_gearset_block_definition_json(*v)->Obj_0);
    }
    r
}

/// Decodes this record; a failure names the offending field in its
/// path and says what was expected of it.
#[verifier::loop_isolation(false)]
pub fn decode_destiny_item_gearset_block_definition(j: &JsonValue) -> (r: Result<DestinyItemGearsetBlockDefinition, DecodeError>)
    ensures
        r is Ok <==> destiny_item_gearset_block_definition_wf(jview(*j)),
        r matches Ok(w) ==> (jview(*j) matches Json::Obj(fields)
            && destiny_item_gearset_block_definition_fields_match(fields, w)),
        r matches Err(e) ==> destiny_item_gearset_block_definition_err_ok(jview(*j), e),
{
    let fields = match j {
        JsonValue::Obj(fields) => fields,
        _ => {
            return Err(root_error("an object"));
        },
    };
    let ghost gf = jview(*j)->Obj_0;
    let tracking_value_max = match j.get("trackingValueMax") {
        Some(v) => match v.to_i64() {
            Some(n) if i32::MIN as i64 <= n && n <= i32::MAX as i64 => n as i32,
            _ => {
                return Err(field_error("trackingValueMax", "a 32-bit integer"));
            },
        },
        _ => {
            return Err(field_error("trackingValueMax", "a 32-bit integer"));
        },
    };
    let item_list = match j.get("itemList") {
        Option::None => {
            return Err(field_error("itemList", "an array"));
        },
        Some(arr) => match arr {
            JsonValue::Arr(items) => {
                let ghost gitems = jview(*arr)->Arr_0;
                let mut out: Vec<u32> = Vec::new();
                let mut i: usize = 0;
                while i < items.len()
                    invariant
                        i <= items.len(),
                        out@.len() == i,
                        forall|k: int| 0 <= k < i ==> (#[trigger] gitems[k]) == Json::Int(out@[k] as int),
                    decreases items.len() - i,
                {
                    proof {
                        assert(gitems[i as int] == jview(items@[i as int]));
                    }
                    let n = match items[i].to_i64() {
                        Some(n) if 0 <= n && n <= u32::MAX as i64 => n,
                        _ => {
                            return Err(indexed_error("itemList", i, field_error("", "a 32-bit unsigned integer")));
                        },
                    };
                    out.push(n as u32);
                    i = i + 1;
                }
                out
            },
            _ => {
                return Err(field_error("itemList", "an array"));
            },
        },
    };
    let mut i: usize = 0;
    while i < fields.len()
        invariant
            i <= fields.len(),
            gf.len() == fields@.len(),
            forall|k: int| 0 <= k < gf.len()
                ==> #[trigger] gf[k] == (fields@[k].0@, jview(fields@[k].1)),
            forall|k: int| 0 <= k < i
                ==> ((#[trigger] gf[k]).0 == "trackingValueMax"@ || gf[k].0 == "itemList"@),
        decreases fields.len() - i,
    {
        let name = fields[i].0.as_str();
        if !(str_eq(name, "trackingValueMax") || str_eq(name, "itemList")) {
            proof {
                assert(gf[i as int].0 == fields@[i as int].0@);
                assert(!destiny_item_gearset_block_definition_wf(jview(*j)));
            }
            return Err(field_error(fields[i].0.as_str(), "an unknown field"));
        }
        i = i + 1;
    }
    Ok(DestinyItemGearsetBlockDefinition { tracking_value_max, item_list })
}

/// The wire image of a record is well formed and matched by the
/// record itself: encoding loses nothing that decoding reads.
pub proof fn lemma_destiny_item_gearset_block_definition_image(v: DestinyItemGearsetBlockDefinition)
    ensures
        destiny_item_gearset_block_definition_wf(destiny_item_gearset_block_definition_json(v)),
        destiny_item_gearset_block_definition_json(v) matches Json::Obj(fields) && destiny_item_gearset_block_definition_fields_match(fields, v),
{
    reveal_strlit("trackingValueMax");
    reveal_strlit("itemList");
    let fields = destiny_item_gearset_block_definition_json(v)->Obj_0;
    assert("trackingValueMax"@.len() == 16);
    assert("itemList"@.len() == 8);
    assert("trackingValueMax"@ != "itemList"@);
    lemma_lookup_at(fields, 0);
    lemma_lookup_at(fields, 1);
}

/// Decoding the encoded image of a record yields a record whose
/// every field carries the same content as the one encoded.
pub proof fn lemma_destiny_item_gearset_block_definition_round_trip(v: DestinyItemGearsetBlockDefinition, w: DestinyItemGearsetBlockDefinition)
    requires
        destiny_item_gearset_block_definition_json(v) matches Json::Obj(fields) && destiny_item_gearset_block_definition_fields_match(fields, w),
    ensures
        destiny_item_gearset_block_definition_wf(destiny_item_gearset_block_definition_json(v)),
        w.tracking_value_max == v.tracking_value_max,
        w.item_list@ == v.item_list@,
{
    lemma_destiny_item_gearset_block_definition_image(v);
    let fields = destiny_item_gearset_block_definition_json(v)->Obj_0;
    reveal_strlit("trackingValueMax");
    reveal_strlit("itemList");
    assert("trackingValueMax"@.len() == 16);
    assert("itemList"@.len() == 8);
    assert("trackingValueMax"@ != "itemList"@);
    lemma_lookup_at(fields, 0);
    lemma_lookup_at(fields, 1);
    assert(w.item_list@ =~= v.item_list@) by {
        assert forall|i: int| 0 <= i < v.item_list@.len()
            implies #[trigger] w.item_list@[i] == v.item_list@[i] by {
            assert(spec_lookup(fields, "itemList"@) matches Some(Json::Arr(items))
                && (items[i] == Json::Int(v.item_list@[i] as int)
                && items[i] == Json::Int(w.item_list@[i] as int)));
        }
    }
}

/// The wire image of this record.
pub open spec fn destiny_currencies_component_json(v: DestinyCurrenciesComponent) -> Json {
    Json::Obj(
        seq![
            ("itemQuantities"@, Json::Obj(Seq::new(v.item_quantities@.len(), |i: int| if 0 <= i < v.item_quantities@.len() { (dec_string(v.item_quantities@[i].0 as int), Json::Int(v.item_quantities@[i].1 as int)) } else { (Seq::empty(), Json::Null) }))),
        ],
    )
}

/// Whether a document decodes as this record: an object with exactly these fields.
pub open spec fn destiny_currencies_component_wf(j: Json) -> bool {
    &&& j matches Json::Obj(fields)
    &&& match spec_lookup(fields, "itemQuantities"@) { Option::None => false, Some(Json::Obj(entries)) => forall|i: int| 0 <= i < entries.len() ==> (is_u64_text((#[trigger] entries[i]).0) && u64_text_val(entries[i].0) <= u32::MAX && (entries[i].1 matches Json::Int(n) && i32::MIN <= n <= i32::MAX)), _ => false }
    &&& forall|i: int| 0 <= i < fields.len()
        ==> ((#[trigger] fields[i]).0 == "itemQuantities"@)
}

/// How a decoded record relates to the document it came from.
pub open spec fn destiny_currencies_component_fields_match(fields: Seq<(Seq<char>, Json)>, w: DestinyCurrenciesComponent) -> bool {
    &&& match spec_lookup(fields, "itemQuantities"@) { Some(Json::Obj(entries)) => w.item_quantities@.len() == entries.len() && (forall|i: int| 0 <= i < entries.len() ==> (is_u64_text((#[trigger] entries[i]).0) && w.item_quantities@[i].0 as int == u64_text_val(entries[i].0) && entries[i].1 == Json::Int(w.item_quantities@[i].1 as int))), _ => false }
}

/// What a decode failure names: its path points at a field of the
/// document that is indeed not decodable, and an undeclared
/// enumeration code is reported with the enumeration's own message.
pub open spec fn destiny_currencies_component_err_ok(j: Json, e: DecodeError) -> bool {
    &&& !(j matches Json::Obj(_)) ==> e.path@.len() == 0
    &&& j matches Json::Obj(fields) ==> (
        ((e.path@ == "itemQuantities"@ || spec_starts_with(e.path@, "itemQuantities"@)) && !(match spec_lookup(fields, "itemQuantities"@) { Option::None => false, Some(Json::Obj(entries)) => forall|i: int| 0 <= i < entries.len() ==> (is_u64_text((#[trigger] entries[i]).0) && u64_text_val(entries[i].0) <= u32::MAX && (entries[i].1 matches Json::Int(n) && i32::MIN <= n <= i32::MAX)), _ => false }))
        || (exists|i: int| 0 <= i < fields.len() && (#[trigger] fields[i]).0 == e.path@ && !((fields[i].0 == "itemQuantities"@))))
}

pub fn encode_destiny_currencies_component(v: &DestinyCurrenciesComponent) -> (r: JsonValue)
    ensures
        jview(r) == destiny_currencies_component_json(*v),
{
    let mut fields: Vec<(String, JsonValue)> = Vec::new();
    let map_item_quantities = {
        let mut entries: Vec<(String, JsonValue)> = Vec::new();
        let mut i: usize = 0;
        while i < v.item_quantities.len()
            invariant
                i <= v.item_quantities.len(),
                entries@.len() == i,
                forall|k: int| 0 <= k < i
                    ==> (#[trigger] entries@[k]).0@ == dec_string(v.item_quantities@[k].0 as int) && jview(entries@[k].1) == Json::Int(v.item_quantities@[k].1 as int),
            decreases v.item_quantities.len() - i,
        {
            entries.push((u64_to_string(v.item_quantities[i].0 as u64), JsonValue::Int(v.item_quantities[i].1 as i64)));
            i = i + 1;
        }
        JsonValue::Obj(entries)
    };
    proof {
        assert(jview(map_item_quantities)->Obj_0 =~= destiny_currencies_component_json(*v)->Obj_0[0].1->Obj_0);
    }
    fields.push(("itemQuantities".to_owned(), map_item_quantities));
    let r = JsonValue::Obj(fields);
    proof {
        assert(jview(fields@[0].1) == destiny_currencies_component_json(*v)->Obj_0[0].1);
        assert(jview(r)->Obj_0 =~= destiny_currencies_component_json(*v)->Obj_0);
    }
    r
}

/// Decodes this record; a failure names the offending field in its
/// path and says what was expected of it.
#[verifier::loop_isolation(false)]
pub fn decode_destiny_currencies_component(j: &JsonValue) -> (r: Result<DestinyCurrenciesComponent, DecodeError>)
    ensures
        r is Ok <==> destiny_currencies_component_wf(jview(*j)),
        r matches Ok(w) ==> (jview(*j) matches Json::Obj(fields)
            && destiny_currencies_component_fields_match(fields, w)),
        r matches Err(e) ==> destiny_currencies_component_err_ok(jview(*j), e),
{
    let fields = match j {
        JsonValue::Obj(fields) => fields,
        _ => {
            return Err(root_error("an object"));
        },
    };
    let ghost gf = jview(*j)->Obj_0;
    let item_quantities = match j.get("itemQuantities") {
        Some(map) => match map {
            JsonValue::Obj(entries) => {
                let ghost gentries = jview(*map)->Obj_0;
                let mut out: Vec<(u32, i32)> = Vec::new();
                let mut i: usize = 0;
                while i < entries.len()
                    invariant
                        i <= entries.len(),
                        out@.len() == i,
                        forall|k: int| 0 <= k < i
                            ==> (is_u64_text((#[trigger] gentries[k]).0) && out@[k].0 as int == u64_text_val(gentries[k].0) && gentries[k].1 == Json::Int(out@[k].1 as int)),
                    decreases entries.len() - i,
                {
                    proof {
                        assert(gentries[i as int]
                            == (entries@[i as int].0@, jview(entries@[i as int].1)));
                    }
                    let mk = match crate::num::parse_u64(entries[i].0.as_str()) {
                        Some(m) if m <= u32::MAX as u64 => m as u32,
                        _ => {
                            return Err(nested_error("itemQuantities", field_error(entries[i].0.as_str(), "a key of decimal digits denoting a 32-bit hash")));
                        },
                    };
                    let mv = match entries[i].1.to_i64() {
                        Some(n) if i32::MIN as i64 <= n && n <= i32::MAX as i64 => n as i32,
                        _ => {
                            return Err(nested_error("itemQuantities", field_error(entries[i].0.as_str(), "a 32-bit integer")));
                        },
                    };
                    out.push((mk, mv));
                    i = i + 1;
                }
                out
            },
            _ => {
                return Err(field_error("itemQuantities", "a mapping object"));
            },
        },
        _ => {
            return Err(field_error("itemQuantities", "a mapping object"));
        },
    };
    let mut i: usize = 0;
    while i < fields.len()
        invariant
            i <= fields.len(),
            gf.len() == fields@.len(),
            forall|k: int| 0 <= k < gf.len()
                ==> #[trigger] gf[k] == (fields@[k].0@, jview(fields@[k].1)),
            forall|k: int| 0 <= k < i
                ==> ((#[trigger] gf[k]).0 == "itemQuantities"@),
        decreases fields.len() - i,
    {
        let name = fields[i].0.as_str();
        if !(str_eq(name, "itemQuantities")) {
            proof {
                assert(gf[i as int].0 == fields@[i as int].0@);
                assert(!destiny_currencies_component_wf(jview(*j)));
            }
            return Err(field_error(fields[i].0.as_str(), "an unknown field"));
        }
        i = i + 1;
    }
    Ok(DestinyCurrenciesComponent { item_quantities })
}

/// The wire image of a record is well formed and matched by the
/// record itself: encoding loses nothing that decoding reads.
pub proof fn lemma_destiny_currencies_component_image(v: DestinyCurrenciesComponent)
    ensures
        destiny_currencies_component_wf(destiny_currencies_component_json(v)),
        destiny_currencies_component_json(v) matches Json::Obj(fields) && destiny_currencies_component_fields_match(fields, v),
{
    reveal_strlit("itemQuantities");
    let fields = destiny_currencies_component_json(v)->Obj_0;
    assert("itemQuantities"@.len() == 14);
    lemma_lookup_at(fields, 0);
    assert forall|i: int| 0 <= i < v.item_quantities@.len()
        implies (is_u64_text((#[trigger] fields[0].1->Obj_0[i]).0)
            && u64_text_val(fields[0].1->Obj_0[i].0) <= u32::MAX
            && v.item_quantities@[i].0 as int == u64_text_val(fields[0].1->Obj_0[i].0)
            && (fields[0].1->Obj_0[i].1 matches Json::Int(n)
            && i32::MIN <= n <= i32::MAX)) by {
        assert(fields[0].1->Obj_0[i]
            == (dec_string(v.item_quantities@[i].0 as int), Json::Int(v.item_quantities@[i].1 as int)));
        lemma_u64_text_round_trip(v.item_quantities@[i].0 as u64);
    }
}

/// Decoding the encoded image of a record yields a record whose
/// every field carries the same content as the one encoded.
pub proof fn lemma_destiny_currencies_component_round_trip(v: DestinyCurrenciesComponent, w: DestinyCurrenciesComponent)
    requires
        destiny_currencies_component_json(v) matches Json::Obj(fields) && destiny_currencies_component_fields_match(fields, w),
    ensures
        destiny_currencies_component_wf(destiny_currencies_component_json(v)),
        w.item_quantities@ == v.item_quantities@,
{
    lemma_destiny_currencies_component_image(v);
    let fields = destiny_currencies_component_json(v)->Obj_0;
    reveal_strlit("itemQuantities");
    assert("itemQuantities"@.len() == 14);
    lemma_lookup_at(fields, 0);
    assert(w.item_quantities@ =~= v.item_quantities@) by {
        assert forall|i: int| 0 <= i < v.item_quantities@.len()
            implies #[trigger] w.item_quantities@[i] == v.item_quantities@[i] by {
            assert(spec_lookup(fields, "itemQuantities"@) matches Some(Json::Obj(entries))
                && ((w.item_quantities@[i].0 as int == u64_text_val(entries[i].0)
                && v.item_quantities@[i].0 as int == u64_text_val(entries[i].0))
                && (entries[i].1 == Json::Int(w.item_quantities@[i].1 as int)
                && entries[i].1 == Json::Int(v.item_quantities@[i].1 as int))));
        }
    }
}

/// The wire image of this record.
pub open spec fn destiny_talent_node_stat_block_json(v: DestinyTalentNodeStatBlock) -> Json {
    Json::Obj(
        seq![
            ("currentStepStats"@, Json::Arr(Seq::new(v.current_step_stats@.len(), |i: int| if 0 <= i < v.current_step_stats@.len() { destiny_stat_json(v.current_step_stats@[i]) } else { Json::Null }))),
            ("nextStepStats"@, Json::Arr(Seq::new(v.next_step_stats@.len(), |i: int| if 0 <= i < v.next_step_stats@.len() { destiny_stat_json(v.next_step_stats@[i]) } else { Json::Null }))),
        ],
    )
}

/// Whether a document decodes as this record: an object with exactly these fields.
pub open spec fn destiny_talent_node_stat_block_wf(j: Json) -> bool {
    &&& j matches Json::Obj(fields)
    &&& match spec_lookup(fields, "currentStepStats"@) { Option::None => false, Some(Json::Arr(items)) => forall|i: int| 0 <= i < items.len() ==> destiny_stat_wf(#[trigger] items[i]), _ => false }
    &&& match spec_lookup(fields, "nextStepStats"@) { Option::None => false, Some(Json::Arr(items)) => forall|i: int| 0 <= i < items.len() ==> destiny_stat_wf(#[trigger] items[i]), _ => false }
    &&& forall|i: int| 0 <= i < fields.len()
        ==> ((#[trigger] fields[i]).0 == "currentStepStats"@ || fields[i].0 == "nextStepStats"@)
}

/// How a decoded record relates to the document it came from.
pub open spec fn destiny_talent_node_stat_block_fields_match(fields: Seq<(Seq<char>, Json)>, w: DestinyTalentNodeStatBlock) -> bool {
    &&& match spec_lookup(fields, "currentStepStats"@) { Option::None => false, Some(Json::Arr(items)) => w.current_step_stats@.len() == items.len() && (forall|i: int| 0 <= i < items.len() ==> ((#[trigger] items[i]) matches Json::Obj(f2) && destiny_stat_fields_match(f2, w.current_step_stats@[i]))), _ => false }
    &&& match spec_lookup(fields, "nextStepStats"@) { Option::None => false, Some(Json::Arr(items)) => w.next_step_stats@.len() == items.len() && (forall|i: int| 0 <= i < items.len() ==> ((#[trigger] items[i]) matches Json::Obj(f2) && destiny_stat_fields_match(f2, w.next_step_stats@[i]))), _ => false }
}

/// What a decode failure names: its path points at a field of the
/// document that is indeed not decodable, and an undeclared
/// enumeration code is reported with the enumeration's own message.
pub open spec fn destiny_talent_node_stat_block_err_ok(j: Json, e: DecodeError) -> bool {
    &&& !(j matches Json::Obj(_)) ==> e.path@.len() == 0
    &&& j matches Json::Obj(fields) ==> (
        ((e.path@ == "currentStepStats"@ || spec_starts_with(e.path@, "currentStepStats"@)) && !(match spec_lookup(fields, "currentStepStats"@) { Option::None => false, Some(Json::Arr(items)) => forall|i: int| 0 <= i < items.len() ==> destiny_stat_wf(#[trigger] items[i]), _ => false }))
        || ((e.path@ == "nextStepStats"@ || spec_starts_with(e.path@, "nextStepStats"@)) && !(match spec_lookup(fields, "nextStepStats"@) { Option::None => false, Some(Json::Arr(items)) => forall|i: int| 0 <= i < items.len() ==> destiny_stat_wf(#[trigger] items[i]), _ => false }))
        || (exists|i: int| 0 <= i < fields.len() && (#[trigger] fields[i]).0 == e.path@ && !((fields[i].0 == "currentStepStats"@ || fields[i].0 == "nextStepStats"@))))
}

pub fn encode_destiny_talent_node_stat_block(v: &DestinyTalentNodeStatBlock) -> (r: JsonValue)
    ensures
        jview(r) == destiny_talent_node_stat_block_json(*v),
{
    let mut fields: Vec<(String, JsonValue)> = Vec::new();
    let arr_current_step_stats = {
        let mut items: Vec<JsonValue> = Vec::new();
        let mut i: usize = 0;
        while i < v.current_step_stats.len()
            invariant
                i <= v.current_step_stats.len(),
                items@.len() == i,
                forall|k: int| 0 <= k < i ==> jview(#[trigger] items@[k]) == destiny_stat_json(v.current_step_stats@[k]),
            decreases v.current_step_stats.len() - i,
        {
            items.push(encode_destiny_stat(&v.current_step_stats[i]));
            i = i + 1;
        }
        JsonValue::Arr(items)
    };
    proof {
        assert(jview(arr_current_step_stats)->Arr_0 =~= destiny_talent_node_stat_block_json(*v)->Obj_0[0].1->Arr_0);
    }
    fields.push(("currentStepStats".to_owned(), arr_current_step_stats));
    let arr_next_step_stats = {
        let mut items: Vec<JsonValue> = Vec::new();
        let mut i: usize = 0;
        while i < v.next_step_stats.len()
            invariant
                i <= v.next_step_stats.len(),
                items@.len() == i,
                forall|k: int| 0 <= k < i ==> jview(#[trigger] items@[k]) == destiny_stat_json(v.next_step_stats@[k]),
            decreases v.next_step_stats.len() - i,
        {
            items.push(encode_destiny_stat(&v.next_step_stats[i]));
            i = i + 1;
        }
        JsonValue::Arr(items)
    };
    proof {
        assert(jview(arr_next_step_stats)->Arr_0 =~= destiny_talent_node_stat_block_json(*v)->Obj_0[1].1->Arr_0);
    }
    fields.push(("nextStepStats".to_owned(), arr_next_step_stats));
    let r = JsonValue::Obj(fields);
    proof {
        assert(jview(fields@[0].1) == destiny_talent_node_stat_block_json(*v)->Obj_0[0].1);
        assert(jview(fields@[1].1) == destiny_talent_node_stat_block_json(*v)->Obj_0[1].1);
        assert(jview(r)->Obj_0 =~= destiny_talent_node_stat_block_json(*v)->Obj_0);
    }
    r
}

/// Decodes this record; a failure names the offending field in its
/// path and says what was expected of it.
#[verifier::loop_isolation(false)]
pub fn decode_destiny_talent_node_stat_block(j: &JsonValue) -> (r: Result<DestinyTalentNodeStatBlock, DecodeError>)
    ensures
        r is Ok <==> destiny_talent_node_stat_block_wf(jview(*j)),
        r matches Ok(w) ==> (jview(*j) matches Json::Obj(fields)
            && destiny_talent_node_stat_block_fields_match(fields, w)),
        r matches Err(e) ==> destiny_talent_node_stat_block_err_ok(jview(*j), e),
{
    let fields = match j {
        JsonValue::Obj(fields) => fields,
        _ => {
            return Err(root_error("an object"));
        },
    };
    let ghost gf = jview(*j)->Obj_0;
    let current_step_stats = match j.get("currentStepStats") {
        Option::None => {
            return Err(field_error("currentStepStats", "an array"));
        },
        Some(arr) => match arr {
            JsonValue::Arr(items) => {
                let ghost gitems = jview(*arr)->Arr_0;
                let mut out: Vec<DestinyStat> = Vec::new();
                let mut i: usize = 0;
                while i < items.len()
                    invariant
                        i <= items.len(),
                        out@.len() == i,
                        forall|k: int| 0 <= k < i
                            ==> (destiny_stat_wf(#[trigger] gitems[k])
                                && (gitems[k] matches Json::Obj(f2)
                                && destiny_stat_fields_match(f2, out@[k]))),
                    decreases items.len() - i,
                {
                    proof {
                        assert(gitems[i as int] == jview(items@[i as int]));
                    }
                    match decode_destiny_stat(&items[i]) {
                        Ok(r) => {
                            out.push(r);
                        },
                        Err(e) => {
                            return Err(indexed_error("currentStepStats", i, e));
                        },
                    }
                    i = i + 1;
                }
                out
            },
            _ => {
                return Err(field_error("currentStepStats", "an array"));
            },
        },
    };
    let next_step_stats = match j.get("nextStepStats") {
        Option::None => {
            return Err(field_error("nextStepStats", "an array"));
        },
        Some(arr) => match arr {
            JsonValue::Arr(items) => {
                let ghost gitems = jview(*arr)->Arr_0;
                let mut out: Vec<DestinyStat> = Vec::new();
                let mut i: usize = 0;
                while i < items.len()
                    invariant
                        i <= items.len(),
                        out@.len() == i,
                        forall|k: int| 0 <= k < i
                            ==> (destiny_stat_wf(#[trigger] gitems[k])
                                && (gitems[k] matches Json::Obj(f2)
                                && destiny_stat_fields_match(f2, out@[k]))),
                    decreases items.len() - i,
                {
                    proof {
                        assert(gitems[i as int] == jview(items@[i as int]));
                    }
                    match decode_destiny_stat(&items[i]) {
                        Ok(r) => {
                            out.push(r);
                        },
                        Err(e) => {
                            return Err(indexed_error("nextStepStats", i, e));
                        },
                    }
                    i = i + 1;
                }
                out
            },
            _ => {
                return Err(field_error("nextStepStats", "an array"));
            },
        },
    };
    let mut i: usize = 0;
    while i < fields.len()
        invariant
            i <= fields.len(),
            gf.len() == fields@.len(),
            forall|k: int| 0 <= k < gf.len()
                ==> #[trigger] gf[k] == (fields@[k].0@, jview(fields@[k].1)),
            forall|k: int| 0 <= k < i
                ==> ((#[trigger] gf[k]).0 == "currentStepStats"@ || gf[k].0 == "nextStepStats"@),
        decreases fields.len() - i,
    {
        let name = fields[i].0.as_str();
        if !(str_eq(name, "currentStepStats") || str_eq(name, "nextStepStats")) {
            proof {
                assert(gf[i as int].0 == fields@[i as int].0@);
                assert(!destiny_talent_node_stat_block_wf(jview(*j)));
            }
            return Err(field_error(fields[i].0.as_str(), "an unknown field"));
        }
        i = i + 1;
    }
    Ok(DestinyTalentNodeStatBlock { current_step_stats, next_step_stats })
}

/// The wire image of a record is well formed and matched by the
/// record itself: encoding loses nothing that decoding reads.
pub proof fn lemma_destiny_talent_node_stat_block_image(v: DestinyTalentNodeStatBlock)
    ensures
        destiny_talent_node_stat_block_wf(destiny_talent_node_stat_block_json(v)),
        destiny_talent_node_stat_block_json(v) matches Json::Obj(fields) && destiny_talent_node_stat_block_fields_match(fields, v),
{
    reveal_strlit("currentStepStats");
    reveal_strlit("nextStepStats");
    let fields = destiny_talent_node_stat_block_json(v)->Obj_0;
    assert("currentStepStats"@.len() == 16);
    assert("nextStepStats"@.len() == 13);
    assert("currentStepStats"@ != "nextStepStats"@);
    lemma_lookup_at(fields, 0);
    lemma_lookup_at(fields, 1);
    assert forall|i: int| 0 <= i < v.current_step_stats@.len()
        implies (destiny_stat_wf(#[trigger] fields[0].1->Arr_0[i])
            && (fields[0].1->Arr_0[i] matches Json::Obj(f2)
            && destiny_stat_fields_match(f2, v.current_step_stats@[i]))) by {
        assert(fields[0].1->Arr_0[i] == destiny_stat_json(v.current_step_stats@[i]));
        lemma_destiny_stat_image(v.current_step_stats@[i]);
    }
    assert forall|i: int| 0 <= i < v.next_step_stats@.len()
        implies (destiny_stat_wf(#[trigger] fields[1].1->Arr_0[i])
            && (fields[1].1->Arr_0[i] matches Json::Obj(f2)
            && destiny_stat_fields_match(f2, v.next_step_stats@[i]))) by {
        assert(fields[1].1->Arr_0[i] == destiny_stat_json(v.next_step_stats@[i]));
        lemma_destiny_stat_image(v.next_step_stats@[i]);
    }
}

/// Decoding the encoded image of a record yields a record whose
/// every field carries the same content as the one encoded.
pub proof fn lemma_destiny_talent_node_stat_block_round_trip(v: DestinyTalentNodeStatBlock, w: DestinyTalentNodeStatBlock)
    requires
        destiny_talent_node_stat_block_json(v) matches Json::Obj(fields) && destiny_talent_node_stat_block_fields_match(fields, w),
    ensures
        destiny_talent_node_stat_block_wf(destiny_talent_node_stat_block_json(v)),
        w.current_step_stats@.len() == v.current_step_stats@.len(),
        forall|i: int| 0 <= i < v.current_step_stats@.len() ==> (destiny_stat_json(v.current_step_stats@[i]) matches Json::Obj(f2) && destiny_stat_fields_match(f2, #[trigger] w.current_step_stats@[i])),
        w.next_step_stats@.len() == v.next_step_stats@.len(),
        forall|i: int| 0 <= i < v.next_step_stats@.len() ==> (destiny_stat_json(v.next_step_stats@[i]) matches Json::Obj(f2) && destiny_stat_fields_match(f2, #[trigger] w.next_step_stats@[i])),
{
    lemma_destiny_talent_node_stat_block_image(v);
    let fields = destiny_talent_node_stat_block_json(v)->Obj_0;
    reveal_strlit("currentStepStats");
    reveal_strlit("nextStepStats");
    assert("currentStepStats"@.len() == 16);
    assert("nextStepStats"@.len() == 13);
    assert("currentStepStats"@ != "nextStepStats"@);
    lemma_lookup_at(fields, 0);
    lemma_lookup_at(fields, 1);
    assert forall|i: int| 0 <= i < v.current_step_stats@.len()
        implies (destiny_stat_json(v.current_step_stats@[i]) matches Json::Obj(f2)
            && destiny_stat_fields_match(f2, #[trigger] w.current_step_stats@[i])) by {
        assert(fields[0].1->Arr_0[i] == destiny_stat_json(v.current_step_stats@[i]));
        lemma_destiny_stat_image(v.current_step_stats@[i]);
    }
    assert forall|i: int| 0 <= i < v.next_step_stats@.len()
        implies (destiny_stat_json(v.next_step_stats@[i]) matches Json::Obj(f2)
            && destiny_stat_fields_match(f2, #[trigger] w.next_step_stats@[i])) by {
        assert(fields[1].1->Arr_0[i] == destiny_stat_json(v.next_step_stats@[i]));
        lemma_destiny_stat_image(v.next_step_stats@[i]);
    }
}

/// The wire image of this record.
pub open spec fn user_info_card_json(v: UserInfoCard) -> Json {
    Json::Obj(
        seq![
            ("supplementalDisplayName"@, (match v.supplemental_display_name { Some(x) => Json::Str(x@), Option::None => Json::Null })),
            ("iconPath"@, (match v.icon_path { Some(x) => Json::Str(x@), Option::None => Json::Null })),
            ("crossSaveOverride"@, Json::Int(v.cross_save_override.spec_code())),
            ("applicableMembershipTypes"@, Json::Arr(Seq::new(v.applicable_membership_types@.len(), |i: int| if 0 <= i < v.applicable_membership_types@.len() { Json::Int(v.applicable_membership_types@[i].spec_code()) } else { Json::Null }))),
            ("isPublic"@, Json::Bool(v.is_public)),
            ("membershipType"@, Json::Int(v.membership_type.spec_code())),
            ("membershipId"@, Json::Str(dec_string(v.membership_id as int))),
            ("displayName"@, (match v.display_name { Some(x) => Json::Str(x@), Option::None => Json::Null })),
            ("bungieGlobalDisplayName"@, (match v.bungie_global_display_name { Some(x) => Json::Str(x@), Option::None => Json::Null })),
            ("bungieGlobalDisplayNameCode"@, (match v.bungie_global_display_name_code { Some(x) => Json::Int(x as int), Option::None => Json::Null })),
        ],
    )
}

/// Whether a document decodes as this record: an object with exactly these fields.
pub open spec fn user_info_card_wf(j: Json) -> bool {
    &&& j matches Json::Obj(fields)
    &&& match spec_lookup(fields, "supplementalDisplayName"@) { Option::None => true, Some(Json::Null) => true, Some(Json::Str(_)) => true, _ => false }
    &&& match spec_lookup(fields, "iconPath"@) { Option::None => true, Some(Json::Null) => true, Some(Json::Str(_)) => true, _ => false }
    &&& spec_lookup(fields, "crossSaveOverride"@) matches Some(Json::Int(n)) && BungieMembershipType::spec_from_code(n) is Some
    &&& match spec_lookup(fields, "applicableMembershipTypes"@) { Option::None => true, Some(Json::Arr(items)) => forall|i: int| 0 <= i < items.len() ==> ((#[trigger] items[i]) matches Json::Int(n) && BungieMembershipType::spec_from_code(n) is Some), _ => false }
    &&& spec_lookup(fields, "isPublic"@) matches Some(Json::Bool(_))
    &&& spec_lookup(fields, "membershipType"@) matches Some(Json::Int(n)) && BungieMembershipType::spec_from_code(n) is Some
    &&& spec_lookup(fields, "membershipId"@) matches Some(Json::Str(s)) && is_u64_text(s)
    &&& match spec_lookup(fields, "displayName"@) { Option::None => true, Some(Json::Null) => true, Some(Json::Str(_)) => true, _ => false }
    &&& match spec_lookup(fields, "bungieGlobalDisplayName"@) { Option::None => true, Some(Json::Null) => true, Some(Json::Str(_)) => true, _ => false }
    &&& match spec_lookup(fields, "bungieGlobalDisplayNameCode"@) { Option::None => true, Some(Json::Null) => true, Some(Json::Int(n)) => i16::MIN as int <= n <= i16::MAX as int, _ => false }
    &&& forall|i: int| 0 <= i < fields.len()
        ==> ((#[trigger] fields[i]).0 == "supplementalDisplayName"@ || fields[i].0 == "iconPath"@ || fields[i].0 == "crossSaveOverride"@ || fields[i].0 == "applicableMembershipTypes"@ || fields[i].0 == "isPublic"@ || fields[i].0 == "membershipType"@ || fields[i].0 == "membershipId"@ || fields[i].0 == "displayName"@ || fields[i].0 == "bungieGlobalDisplayName"@ || fields[i].0 == "bungieGlobalDisplayNameCode"@)
}

/// How a decoded record relates to the document it came from.
pub open spec fn user_info_card_fields_match(fields: Seq<(Seq<char>, Json)>, w: UserInfoCard) -> bool {
    &&& match w.supplemental_display_name { Some(x) => spec_lookup(fields, "supplementalDisplayName"@) == Some(Json::Str(x@)), Option::None => spec_lookup(fields, "supplementalDisplayName"@) is None || spec_lookup(fields, "supplementalDisplayName"@) == Some(Json::Null) }
    &&& match w.icon_path { Some(x) => spec_lookup(fields, "iconPath"@) == Some(Json::Str(x@)), Option::None => spec_lookup(fields, "iconPath"@) is None || spec_lookup(fields, "iconPath"@) == Some(Json::Null) }
    &&& spec_lookup(fields, "crossSaveOverride"@) matches Some(Json::Int(n)) && Some(w.cross_save_override) == BungieMembershipType::spec_from_code(n)
    &&& match spec_lookup(fields, "applicableMembershipTypes"@) { Option::None => w.applicable_membership_types@.len() == 0, Some(Json::Arr(items)) => w.applicable_membership_types@.len() == items.len() && (forall|i: int| 0 <= i < items.len() ==> ((#[trigger] items[i]) matches Json::Int(n) && Some(w.applicable_membership_types@[i]) == BungieMembershipType::spec_from_code(n))), _ => false }
    &&& spec_lookup(fields, "isPublic"@) == Some(Json::Bool(w.is_public))
    &&& spec_lookup(fields, "membershipType"@) matches Some(Json::Int(n)) && Some(w.membership_type) == BungieMembershipType::spec_from_code(n)
    &&& spec_lookup(fields, "membershipId"@) matches Some(Json::Str(s)) && is_u64_text(s) && w.membership_id as int == u64_text_val(s)
    &&& match w.display_name { Some(x) => spec_lookup(fields, "displayName"@) == Some(Json::Str(x@)), Option::None => spec_lookup(fields, "displayName"@) is None || spec_lookup(fields, "displayName"@) == Some(Json::Null) }
    &&& match w.bungie_global_display_name { Some(x) => spec_lookup(fields, "bungieGlobalDisplayName"@) == Some(Json::Str(x@)), Option::None => spec_lookup(fields, "bungieGlobalDisplayName"@) is None || spec_lookup(fields, "bungieGlobalDisplayName"@) == Some(Json::Null) }
    &&& match w.bungie_global_display_name_code { Some(x) => spec_lookup(fields, "bungieGlobalDisplayNameCode"@) == Some(Json::Int(x as int)), Option::None => spec_lookup(fields, "bungieGlobalDisplayNameCode"@) is None || spec_lookup(fields, "bungieGlobalDisplayNameCode"@) == Some(Json::Null) }
}

/// What a decode failure names: its path points at a field of the
/// document that is indeed not decodable, and an undeclared
/// enumeration code is reported with the enumeration's own message.
pub open spec fn user_info_card_err_ok(j: Json, e: DecodeError) -> bool {
    &&& !(j matches Json::Obj(_)) ==> e.path@.len() == 0
    &&& j matches Json::Obj(fields) ==> (
        (e.path@ == "supplementalDisplayName"@ && !(match spec_lookup(fields, "supplementalDisplayName"@) { Option::None => true, Some(Json::Null) => true, Some(Json::Str(_)) => true, _ => false }))
        || (e.path@ == "iconPath"@ && !(match spec_lookup(fields, "iconPath"@) { Option::None => true, Some(Json::Null) => true, Some(Json::Str(_)) => true, _ => false }))
        || (e.path@ == "crossSaveOverride"@ && !(spec_lookup(fields, "crossSaveOverride"@) matches Some(Json::Int(n)) && BungieMembershipType::spec_from_code(n) is Some) && (match spec_lookup(fields, "crossSaveOverride"@) { Some(Json::Int(n)) => (i32::MIN as int <= n <= i32::MAX as int && BungieMembershipType::spec_from_code(n) is None) ==> e.message@ == BungieMembershipType::spec_unknown_code_message(n), _ => true }))
        || ((e.path@ == "applicableMembershipTypes"@ || spec_starts_with(e.path@, "applicableMembershipTypes"@)) && !(match spec_lookup(fields, "applicableMembershipTypes"@) { Option::None => true, Some(Json::Arr(items)) => forall|i: int| 0 <= i < items.len() ==> ((#[trigger] items[i]) matches Json::Int(n) && BungieMembershipType::spec_from_code(n) is Some), _ => false }))
        || (e.path@ == "isPublic"@ && !(spec_lookup(fields, "isPublic"@) matches Some(Json::Bool(_))))
        || (e.path@ == "membershipType"@ && !(spec_lookup(fields, "membershipType"@) matches Some(Json::Int(n)) && BungieMembershipType::spec_from_code(n) is Some) && (match spec_lookup(fields, "membershipType"@) { Some(Json::Int(n)) => (i32::MIN as int <= n <= i32::MAX as int && BungieMembershipType::spec_from_code(n) is None) ==> e.message@ == BungieMembershipType::spec_unknown_code_message(n), _ => true }))
        || (e.path@ == "membershipId"@ && !(spec_lookup(fields, "membershipId"@) matches Some(Json::Str(s)) && is_u64_text(s)))
        || (e.path@ == "displayName"@ && !(match spec_lookup(fields, "displayName"@) { Option::None => true, Some(Json::Null) => true, Some(Json::Str(_)) => true, _ => false }))
        || (e.path@ == "bungieGlobalDisplayName"@ && !(match spec_lookup(fields, "bungieGlobalDisplayName"@) { Option::None => true, Some(Json::Null) => true, Some(Json::Str(_)) => true, _ => false }))
        || (e.path@ == "bungieGlobalDisplayNameCode"@ && !(match spec_lookup(fields, "bungieGlobalDisplayNameCode"@) { Option::None => true, Some(Json::Null) => true, Some(Json::Int(n)) => i16::MIN as int <= n <= i16::MAX as int, _ => false }))
        || (exists|i: int| 0 <= i < fields.len() && (#[trigger] fields[i]).0 == e.path@ && !((fields[i].0 == "supplementalDisplayName"@ || fields[i].0 == "iconPath"@ || fields[i].0 == "crossSaveOverride"@ || fields[i].0 == "applicableMembershipTypes"@ || fields[i].0 == "isPublic"@ || fields[i].0 == "membershipType"@ || fields[i].0 == "membershipId"@ || fields[i].0 == "displayName"@ || fields[i].0 == "bungieGlobalDisplayName"@ || fields[i].0 == "bungieGlobalDisplayNameCode"@))))
}

pub fn encode_user_info_card(v: &UserInfoCard) -> (r: JsonValue)
    ensures
        jview(r) == user_info_card_json(*v),
{
    let mut fields: Vec<(String, JsonValue)> = Vec::new();
    fields.push(("supplementalDisplayName".to_owned(), match &v.supplemental_display_name {
        Some(x) => JsonValue::Str(x.clone()),
        Option::None => JsonValue::Null,
    }));
    fields.push(("iconPath".to_owned(), match &v.icon_path {
        Some(x) => JsonValue::Str(x.clone()),
        Option::None => JsonValue::Null,
    }));
    fields.push(("crossSaveOverride".to_owned(), JsonValue::Int(v.cross_save_override.code() as i64)));
    let arr_applicable_membership_types = {
        let mut items: Vec<JsonValue> = Vec::new();
        let mut i: usize = 0;
        while i < v.applicable_membership_types.len()
            invariant
                i <= v.applicable_membership_types.len(),
                items@.len() == i,
                forall|k: int| 0 <= k < i ==> jview(#[trigger] items@[k]) == Json::Int(v.applicable_membership_types@[k].spec_code()),
            decreases v.applicable_membership_types.len() - i,
        {
            items.push(JsonValue::Int(v.applicable_membership_types[i].code() as i64));
            i = i + 1;
        }
        JsonValue::Arr(items)
    };
    proof {
        assert(jview(arr_applicable_membership_types)->Arr_0 =~= user_info_card_json(*v)->Obj_0[3].1->Arr_0);
    }
    fields.push(("applicableMembershipTypes".to_owned(), arr_applicable_membership_types));
    fields.push(("isPublic".to_owned(), JsonValue::Bool(v.is_public)));
    fields.push(("membershipType".to_owned(), JsonValue::Int(v.membership_type.code() as i64)));
    fields.push(("membershipId".to_owned(), JsonValue::Str(u64_to_string(v.membership_id))));
    fields.push(("displayName".to_owned(), match &v.display_name {
        Some(x) => JsonValue::Str(x.clone()),
        Option::None => JsonValue::Null,
    }));
    fields.push(("bungieGlobalDisplayName".to_owned(), match &v.bungie_global_display_name {
        Some(x) => JsonValue::Str(x.clone()),
        Option::None => JsonValue::Null,
    }));
    fields.push(("bungieGlobalDisplayNameCode".to_owned(), match &v.bungie_global_display_name_code {
        Some(x) => JsonValue::Int(*x as i64),
        Option::None => JsonValue::Null,
    }));
    let r = JsonValue::Obj(fields);
    proof {
        assert(jview(fields@[0].1) == user_info_card_json(*v)->Obj_0[0].1);
        assert(jview(fields@[1].1) == user_info_card_json(*v)->Obj_0[1].1);
        assert(jview(fields@[2].1) == user_info_card_json(*v)->Obj_0[2].1);
        assert(jview(fields@[3].1) == user_info_card_json(*v)->Obj_0[3].1);
        assert(jview(fields@[4].1) == user_info_card_json(*v)->Obj_0[4].1);
        assert(jview(fields@[5].1) == user_info_card_json(*v)->Obj_0[5].1);
        assert(jview(fields@[6].1) == user_info_card_json(*v)->Obj_0[6].1);
        assert(jview(fields@[7].1) == user_info_card_json(*v)->Obj_0[7].1);
        assert(jview(fields@[8].1) == user_info_card_json(*v)->Obj_0[8].1);
        assert(jview(fields@[9].1) == user_info_card_json(*v)->Obj_0[9].1);
        assert(jview(r)->Obj_0 =~= user_info_card_json(*v)->Obj_0);
    }
    r
}

/// Decodes this record; a failure names the offending field in its
/// path and says what was expected of it.
#[verifier::loop_isolation(false)]
pub fn decode_user_info_card(j: &JsonValue) -> (r: Result<UserInfoCard, DecodeError>)
    ensures
        r is Ok <==> user_info_card_wf(jview(*j)),
        r matches Ok(w) ==> (jview(*j) matches Json::Obj(fields)
            && user_info_card_fields_match(fields, w)),
        r matches Err(e) ==> user_info_card_err_ok(jview(*j), e),
{
    let fields = match j {
        JsonValue::Obj(fields) => fields,
        _ => {
            return Err(root_error("an object"));
        },
    };
    let ghost gf = jview(*j)->Obj_0;
    let supplemental_display_name = match j.get("supplementalDisplayName") {
        Option::None => Option::None,
        Some(JsonValue::Null) => Option::None,
        Some(JsonValue::Str(s)) => Some(s.clone()),
        _ => {
            return Err(field_error("supplementalDisplayName", "a string or null"));
        },
    };
    let icon_path = match j.get("iconPath") {
        Option::None => Option::None,
        Some(JsonValue::Null) => Option::None,
        Some(JsonValue::Str(s)) => Some(s.clone()),
        _ => {
            return Err(field_error("iconPath", "a string or null"));
        },
    };
    let cross_save_override = match j.get("crossSaveOverride") {
        Some(v) => match v.to_i64() {
            Some(n) if i32::MIN as i64 <= n && n <= i32::MAX as i64 => match BungieMembershipType::decode_code(n as i32) {
                Ok(t) => t,
                Err(e) => {
                    return Err(rekey_error("crossSaveOverride", e));
                },
            },
            _ => {
                return Err(field_error("crossSaveOverride", "a declared BungieMembershipType code"));
            },
        },
        _ => {
            return Err(field_error("crossSaveOverride", "a declared BungieMembershipType code"));
        },
    };
    let applicable_membership_types = match j.get("applicableMembershipTypes") {
        Option::None => Vec::new(),
        Some(arr) => match arr {
            JsonValue::Arr(items) => {
                let ghost gitems = jview(*arr)->Arr_0;
                let mut out: Vec<BungieMembershipType> = Vec::new();
                let mut i: usize = 0;
                while i < items.len()
                    invariant
                        i <= items.len(),
                        out@.len() == i,
                        forall|k: int| 0 <= k < i ==> ((#[trigger] gitems[k]) matches Json::Int(n) && Some(out@[k]) == BungieMembershipType::spec_from_code(n)),
                    decreases items.len() - i,
                {
                    proof {
                        assert(gitems[i as int] == jview(items@[i as int]));
                    }
                    let n = match items[i].to_i64() {
                        Some(n) if i32::MIN as i64 <= n && n <= i32::MAX as i64 => n,
                        _ => {
                            return Err(indexed_error("applicableMembershipTypes", i, field_error("", "a declared BungieMembershipType code")));
                        },
                    };
                    let t = match BungieMembershipType::decode_code(n as i32) {
                        Ok(t) => t,
                        Err(e) => {
                            return Err(indexed_error("applicableMembershipTypes", i, e));
                        },
                    };
                    proof {
                        assert(gitems[i as int] matches Json::Int(m)
                            && Some(t) == BungieMembershipType::spec_from_code(m));
                    }
                    out.push(t);
                    i = i + 1;
                }
                out
            },
            _ => {
                return Err(field_error("applicableMembershipTypes", "an array"));
            },
        },
    };
    let is_public = match j.get("isPublic") {
        Some(JsonValue::Bool(b)) => *b,
        _ => {
            return Err(field_error("isPublic", "a boolean"));
        },
    };
    let membership_type = match j.get("membershipType") {
        Some(v) => match v.to_i64() {
            Some(n) if i32::MIN as i64 <= n && n <= i32::MAX as i64 => match BungieMembershipType::decode_code(n as i32) {
                Ok(t) => t,
                Err(e) => {
                    return Err(rekey_error("membershipType", e));
                },
            },
            _ => {
                return Err(field_error("membershipType", "a declared BungieMembershipType code"));
            },
        },
        _ => {
            return Err(field_error("membershipType", "a declared BungieMembershipType code"));
        },
    };
    let membership_id = match j.get("membershipId") {
        Some(JsonValue::Str(s)) => match crate::num::parse_u64(s.as_str()) {
            Some(id) => id,
            Option::None => {
                return Err(field_error("membershipId", "decimal digits denoting an unsigned 64-bit value"));
            },
        },
        _ => {
            return Err(field_error("membershipId", "decimal digits denoting an unsigned 64-bit value"));
        },
    };
    let display_name = match j.get("displayName") {
        Option::None => Option::None,
        Some(JsonValue::Null) => Option::None,
        Some(JsonValue::Str(s)) => Some(s.clone()),
        _ => {
            return Err(field_error("displayName", "a string or null"));
        },
    };
    let bungie_global_display_name = match j.get("bungieGlobalDisplayName") {
        Option::None => Option::None,
        Some(JsonValue::Null) => Option::None,
        Some(JsonValue::Str(s)) => Some(s.clone()),
        _ => {
            return Err(field_error("bungieGlobalDisplayName", "a string or null"));
        },
    };
    let bungie_global_display_name_code = match j.get("bungieGlobalDisplayNameCode") {
        Option::None => Option::None,
        Some(JsonValue::Null) => Option::None,
        Some(v) => match v.to_i64() {
            Some(n) if i16::MIN as i64 <= n && n <= i16::MAX as i64 => Some(n as i16),
            _ => {
                return Err(field_error("bungieGlobalDisplayNameCode", "a 16-bit integer or null"));
            },
        },
    };
    let mut i: usize = 0;
    while i < fields.len()
        invariant
            i <= fields.len(),
            gf.len() == fields@.len(),
            forall|k: int| 0 <= k < gf.len()
                ==> #[trigger] gf[k] == (fields@[k].0@, jview(fields@[k].1)),
            forall|k: int| 0 <= k < i
                ==> ((#[trigger] gf[k]).0 == "supplementalDisplayName"@ || gf[k].0 == "iconPath"@ || gf[k].0 == "crossSaveOverride"@ || gf[k].0 == "applicableMembershipTypes"@ || gf[k].0 == "isPublic"@ || gf[k].0 == "membershipType"@ || gf[k].0 == "membershipId"@ || gf[k].0 == "displayName"@ || gf[k].0 == "bungieGlobalDisplayName"@ || gf[k].0 == "bungieGlobalDisplayNameCode"@),
        decreases fields.len() - i,
    {
        let name = fields[i].0.as_str();
        if !(str_eq(name, "supplementalDisplayName") || str_eq(name, "iconPath") || str_eq(name, "crossSaveOverride") || str_eq(name, "applicableMembershipTypes") || str_eq(name, "isPublic") || str_eq(name, "membershipType") || str_eq(name, "membershipId") || str_eq(name, "displayName") || str_eq(name, "bungieGlobalDisplayName") || str_eq(name, "bungieGlobalDisplayNameCode")) {
            proof {
                assert(gf[i as int].0 == fields@[i as int].0@);
                assert(!user_info_card_wf(jview(*j)));
            }
            return Err(field_error(fields[i].0.as_str(), "an unknown field"));
        }
        i = i + 1;
    }
    Ok(UserInfoCard { supplemental_display_name, icon_path, cross_save_override, applicable_membership_types, is_public, membership_type, membership_id, display_name, bungie_global_display_name, bungie_global_display_name_code })
}

/// The wire image of a record is well formed and matched by the
/// record itself: encoding loses nothing that decoding reads.
pub proof fn lemma_user_info_card_image(v: UserInfoCard)
    ensures
        user_info_card_wf(user_info_card_json(v)),
        user_info_card_json(v) matches Json::Obj(fields) && user_info_card_fields_match(fields, v),
{
    reveal_strlit("supplementalDisplayName");
    reveal_strlit("iconPath");
    reveal_strlit("crossSaveOverride");
    reveal_strlit("applicableMembershipTypes");
    reveal_strlit("isPublic");
    reveal_strlit("membershipType");
    reveal_strlit("membershipId");
    reveal_strlit("displayName");
    reveal_strlit("bungieGlobalDisplayName");
    reveal_strlit("bungieGlobalDisplayNameCode");
    let fields = user_info_card_json(v)->Obj_0;
    assert("supplementalDisplayName"@.len() == 23);
    assert("iconPath"@.len() == 8);
    assert("crossSaveOverride"@.len() == 17);
    assert("applicableMembershipTypes"@.len() == 25);
    assert("isPublic"@.len() == 8);
    assert("membershipType"@.len() == 14);
    assert("membershipId"@.len() == 12);
    assert("displayName"@.len() == 11);
    assert("bungieGlobalDisplayName"@.len() == 23);
    assert("bungieGlobalDisplayNameCode"@.len() == 27);
    assert("supplementalDisplayName"@ != "iconPath"@);
    assert("supplementalDisplayName"@ != "crossSaveOverride"@);
    assert("supplementalDisplayName"@ != "applicableMembershipTypes"@);
    assert("supplementalDisplayName"@ != "isPublic"@);
    assert("supplementalDisplayName"@ != "membershipType"@);
    assert("supplementalDisplayName"@ != "membershipId"@);
    assert("supplementalDisplayName"@ != "displayName"@);
    assert(("supplementalDisplayName"@)[0] != ("bungieGlobalDisplayName"@)[0]);
    assert("supplementalDisplayName"@ != "bungieGlobalDisplayName"@);
    assert("supplementalDisplayName"@ != "bungieGlobalDisplayNameCode"@);
    assert("iconPath"@ != "crossSaveOverride"@);
    assert("iconPath"@ != "applicableMembershipTypes"@);
    assert(("iconPath"@)[1] != ("isPublic"@)[1]);
    assert("iconPath"@ != "isPublic"@);
    assert("iconPath"@ != "membershipType"@);
    assert("iconPath"@ != "membershipId"@);
    assert("iconPath"@ != "displayName"@);
    assert("iconPath"@ != "bungieGlobalDisplayName"@);
    assert("iconPath"@ != "bungieGlobalDisplayNameCode"@);
    assert("crossSaveOverride"@ != "applicableMembershipTypes"@);
    assert("crossSaveOverride"@ != "isPublic"@);
    assert("crossSaveOverride"@ != "membershipType"@);
    assert("crossSaveOverride"@ != "membershipId"@);
    assert("crossSaveOverride"@ != "displayName"@);
    assert("crossSaveOverride"@ != "bungieGlobalDisplayName"@);
    assert("crossSaveOverride"@ != "bungieGlobalDisplayNameCode"@);
    assert("applicableMembershipTypes"@ != "isPublic"@);
    assert("applicableMembershipTypes"@ != "membershipType"@);
    assert("applicableMembershipTypes"@ != "membershipId"@);
    assert("applicableMembershipTypes"@ != "displayName"@);
    assert("applicableMembershipTypes"@ != "bungieGlobalDisplayName"@);
    assert("applicableMembershipTypes"@ != "bungieGlobalDisplayNameCode"@);
    assert("isPublic"@ != "membershipType"@);
    assert("isPublic"@ != "membershipId"@);
    assert("isPublic"@ != "displayName"@);
    assert("isPublic"@ != "bungieGlobalDisplayName"@);
    assert("isPublic"@ != "bungieGlobalDisplayNameCode"@);
    assert("membershipType"@ != "membershipId"@);
    assert("membershipType"@ != "displayName"@);
    assert("membershipType"@ != "bungieGlobalDisplayName"@);
    assert("membershipType"@ != "bungieGlobalDisplayNameCode"@);
    assert("membershipId"@ != "displayName"@);
    assert("membershipId"@ != "bungieGlobalDisplayName"@);
    assert("membershipId"@ != "bungieGlobalDisplayNameCode"@);
    assert("displayName"@ != "bungieGlobalDisplayName"@);
    assert("displayName"@ != "bungieGlobalDisplayNameCode"@);
    assert("bungieGlobalDisplayName"@ != "bungieGlobalDisplayNameCode"@);
    lemma_lookup_at(fields, 0);
    lemma_lookup_at(fields, 1);
    lemma_lookup_at(fields, 2);
    lemma_lookup_at(fields, 3);
    lemma_lookup_at(fields, 4);
    lemma_lookup_at(fields, 5);
    lemma_lookup_at(fields, 6);
    lemma_lookup_at(fields, 7);
    lemma_lookup_at(fields, 8);
    lemma_lookup_at(fields, 9);
    BungieMembershipType::lemma_code_round_trip(v.cross_save_override, 0);
    assert forall|i: int| 0 <= i < v.applicable_membership_types@.len()
        implies ((#[trigger] fields[3].1->Arr_0[i]) matches Json::Int(n)
            && BungieMembershipType::spec_from_code(n) is Some
            && Some(v.applicable_membership_types@[i]) == BungieMembershipType::spec_from_code(n)) by {
        assert(fields[3].1->Arr_0[i] == Json::Int(v.applicable_membership_types@[i].spec_code()));
        BungieMembershipType::lemma_code_round_trip(v.applicable_membership_types@[i], 0);
    }
    BungieMembershipType::lemma_code_round_trip(v.membership_type, 0);
    lemma_u64_text_round_trip(v.membership_id);
}

/// Decoding the encoded image of a record yields a record whose
/// every field carries the same content as the one encoded.
pub proof fn lemma_user_info_card_round_trip(v: UserInfoCard, w: UserInfoCard)
    requires
        user_info_card_json(v) matches Json::Obj(fields) && user_info_card_fields_match(fields, w),
    ensures
        user_info_card_wf(user_info_card_json(v)),
        (match v.supplemental_display_name { Some(x) => w.supplemental_display_name matches Some(y) && y@ == x@, Option::None => w.supplemental_display_name is None }),
        (match v.icon_path { Some(x) => w.icon_path matches Some(y) && y@ == x@, Option::None => w.icon_path is None }),
        w.cross_save_override == v.cross_save_override,
        w.applicable_membership_types@ == v.applicable_membership_types@,
        w.is_public == v.is_public,
        w.membership_type == v.membership_type,
        w.membership_id == v.membership_id,
        (match v.display_name { Some(x) => w.display_name matches Some(y) && y@ == x@, Option::None => w.display_name is None }),
        (match v.bungie_global_display_name { Some(x) => w.bungie_global_display_name matches Some(y) && y@ == x@, Option::None => w.bungie_global_display_name is None }),
        w.bungie_global_display_name_code == v.bungie_global_display_name_code,
{
    lemma_user_info_card_image(v);
    let fields = user_info_card_json(v)->Obj_0;
    reveal_strlit("supplementalDisplayName");
    reveal_strlit("iconPath");
    reveal_strlit("crossSaveOverride");
    reveal_strlit("applicableMembershipTypes");
    reveal_strlit("isPublic");
    reveal_strlit("membershipType");
    reveal_strlit("membershipId");
    reveal_strlit("displayName");
    reveal_strlit("bungieGlobalDisplayName");
    reveal_strlit("bungieGlobalDisplayNameCode");
    assert("supplementalDisplayName"@.len() == 23);
    assert("iconPath"@.len() == 8);
    assert("crossSaveOverride"@.len() == 17);
    assert("applicableMembershipTypes"@.len() == 25);
    assert("isPublic"@.len() == 8);
    assert("membershipType"@.len() == 14);
    assert("membershipId"@.len() == 12);
    assert("displayName"@.len() == 11);
    assert("bungieGlobalDisplayName"@.len() == 23);
    assert("bungieGlobalDisplayNameCode"@.len() == 27);
    assert("supplementalDisplayName"@ != "iconPath"@);
    assert("supplementalDisplayName"@ != "crossSaveOverride"@);
    assert("supplementalDisplayName"@ != "applicableMembershipTypes"@);
    assert("supplementalDisplayName"@ != "isPublic"@);
    assert("supplementalDisplayName"@ != "membershipType"@);
    assert("supplementalDisplayName"@ != "membershipId"@);
    assert("supplementalDisplayName"@ != "displayName"@);
    assert(("supplementalDisplayName"@)[0] != ("bungieGlobalDisplayName"@)[0]);
    assert("supplementalDisplayName"@ != "bungieGlobalDisplayName"@);
    assert("supplementalDisplayName"@ != "bungieGlobalDisplayNameCode"@);
    assert("iconPath"@ != "crossSaveOverride"@);
    assert("iconPath"@ != "applicableMembershipTypes"@);
    assert(("iconPath"@)[1] != ("isPublic"@)[1]);
    assert("iconPath"@ != "isPublic"@);
    assert("iconPath"@ != "membershipType"@);
    assert("iconPath"@ != "membershipId"@);
    assert("iconPath"@ != "displayName"@);
    assert("iconPath"@ != "bungieGlobalDisplayName"@);
    assert("iconPath"@ != "bungieGlobalDisplayNameCode"@);
    assert("crossSaveOverride"@ != "applicableMembershipTypes"@);
    assert("crossSaveOverride"@ != "isPublic"@);
    assert("crossSaveOverride"@ != "membershipType"@);
    assert("crossSaveOverride"@ != "membershipId"@);
    assert("crossSaveOverride"@ != "displayName"@);
    assert("crossSaveOverride"@ != "bungieGlobalDisplayName"@);
    assert("crossSaveOverride"@ != "bungieGlobalDisplayNameCode"@);
    assert("applicableMembershipTypes"@ != "isPublic"@);
    assert("applicableMembershipTypes"@ != "membershipType"@);
    assert("applicableMembershipTypes"@ != "membershipId"@);
    assert("applicableMembershipTypes"@ != "displayName"@);
    assert("applicableMembershipTypes"@ != "bungieGlobalDisplayName"@);
    assert("applicableMembershipTypes"@ != "bungieGlobalDisplayNameCode"@);
    assert("isPublic"@ != "membershipType"@);
    assert("isPublic"@ != "membershipId"@);
    assert("isPublic"@ != "displayName"@);
    assert("isPublic"@ != "bungieGlobalDisplayName"@);
    assert("isPublic"@ != "bungieGlobalDisplayNameCode"@);
    assert("membershipType"@ != "membershipId"@);
    assert("membershipType"@ != "displayName"@);
    assert("membershipType"@ != "bungieGlobalDisplayName"@);
    assert("membershipType"@ != "bungieGlobalDisplayNameCode"@);
    assert("membershipId"@ != "displayName"@);
    assert("membershipId"@ != "bungieGlobalDisplayName"@);
    assert("membershipId"@ != "bungieGlobalDisplayNameCode"@);
    assert("displayName"@ != "bungieGlobalDisplayName"@);
    assert("displayName"@ != "bungieGlobalDisplayNameCode"@);
    assert("bungieGlobalDisplayName"@ != "bungieGlobalDisplayNameCode"@);
    lemma_lookup_at(fields, 0);
    lemma_lookup_at(fields, 1);
    lemma_lookup_at(fields, 2);
    lemma_lookup_at(fields, 3);
    lemma_lookup_at(fields, 4);
    lemma_lookup_at(fields, 5);
    lemma_lookup_at(fields, 6);
    lemma_lookup_at(fields, 7);
    lemma_lookup_at(fields, 8);
    lemma_lookup_at(fields, 9);
    BungieMembershipType::lemma_code_round_trip(v.cross_save_override, 0);
    assert(w.applicable_membership_types@ =~= v.applicable_membership_types@) by {
        assert forall|i: int| 0 <= i < v.applicable_membership_types@.len()
            implies #[trigger] w.applicable_membership_types@[i] == v.applicable_membership_types@[i] by {
            assert(spec_lookup(fields, "applicableMembershipTypes"@) matches Some(Json::Arr(items))
                && (items[i] matches Json::Int(n)
                && (Some(v.applicable_membership_types@[i]) == BungieMembershipType::spec_from_code(n)
                && Some(w.applicable_membership_types@[i]) == BungieMembershipType::spec_from_code(n))));
        }
    }
    BungieMembershipType::lemma_code_round_trip(v.membership_type, 0);
}

/// The wire image of this record.
pub open spec fn destiny_item_stat_block_definition_json(v: DestinyItemStatBlockDefinition) -> Json {
    Json::Obj(
        seq![
            ("disablePrimaryStatDisplay"@, Json::Bool(v.disable_primary_stat_display)),
            ("statGroupHash"@, (match v.stat_group_hash { Some(x) => Json::Int(x as int), Option::None => Json::Null })),
            ("stats"@, Json::Obj(Seq::new(v.stats@.len(), |i: int| if 0 <= i < v.stats@.len() { (dec_string(v.stats@[i].0 as int), destiny_inventory_item_stat_definition_json(v.stats@[i].1)) } else { (Seq::empty(), Json::Null) }))),
            ("hasDisplayableStats"@, Json::Bool(v.has_displayable_stats)),
            ("primaryBaseStatHash"@, Json::Int(v.primary_base_stat_hash as int)),
        ],
    )
}

/// Whether a document decodes as this record: an object with exactly these fields.
pub open spec fn destiny_item_stat_block_definition_wf(j: Json) -> bool {
    &&& j matches Json::Obj(fields)
    &&& spec_lookup(fields, "disablePrimaryStatDisplay"@) matches Some(Json::Bool(_))
    &&& match spec_lookup(fields, "statGroupHash"@) { Option::None => true, Some(Json::Null) => true, Some(Json::Int(n)) => 0 <= n <= u32::MAX as int, _ => false }
    &&& match spec_lookup(fields, "stats"@) { Option::None => false, Some(Json::Obj(entries)) => forall|i: int| 0 <= i < entries.len() ==> (is_u64_text((#[trigger] entries[i]).0) && u64_text_val(entries[i].0) <= u32::MAX && destiny_inventory_item_stat_definition_wf((#[trigger] entries[i]).1)), _ => false }
    &&& spec_lookup(fields, "hasDisplayableStats"@) matches Some(Json::Bool(_))
    &&& spec_lookup(fields, "primaryBaseStatHash"@) matches Some(Json::Int(n)) && 0 <= n <= u32::MAX as int
    &&& forall|i: int| 0 <= i < fields.len()
        ==> ((#[trigger] fields[i]).0 == "disablePrimaryStatDisplay"@ || fields[i].0 == "statGroupHash"@ || fields[i].0 == "stats"@ || fields[i].0 == "hasDisplayableStats"@ || fields[i].0 == "primaryBaseStatHash"@)
}

/// How a decoded record relates to the document it came from.
pub open spec fn destiny_item_stat_block_definition_fields_match(fields: Seq<(Seq<char>, Json)>, w: DestinyItemStatBlockDefinition) -> bool {
    &&& spec_lookup(fields, "disablePrimaryStatDisplay"@) == Some(Json::Bool(w.disable_primary_stat_display))
    &&& match w.stat_group_hash { Some(x) => spec_lookup(fields, "statGroupHash"@) == Some(Json::Int(x as int)), Option::None => spec_lookup(fields, "statGroupHash"@) is None || spec_lookup(fields, "statGroupHash"@) == Some(Json::Null) }
    &&& match spec_lookup(fields, "stats"@) { Some(Json::Obj(entries)) => w.stats@.len() == entries.len() && (forall|i: int| 0 <= i < entries.len() ==> (is_u64_text((#[trigger] entries[i]).0) && w.stats@[i].0 as int == u64_text_val(entries[i].0) && (entries[i].1 matches Json::Obj(f2) && destiny_inventory_item_stat_definition_fields_match(f2, w.stats@[i].1)))), _ => false }
    &&& spec_lookup(fields, "hasDisplayableStats"@) == Some(Json::Bool(w.has_displayable_stats))
    &&& spec_lookup(fields, "primaryBaseStatHash"@) == Some(Json::Int(w.primary_base_stat_hash as int))
}

/// What a decode failure names: its path points at a field of the
/// document that is indeed not decodable, and an undeclared
/// enumeration code is reported with the enumeration's own message.
pub open spec fn destiny_item_stat_block_definition_err_ok(j: Json, e: DecodeError) -> bool {
    &&& !(j matches Json::Obj(_)) ==> e.path@.len() == 0
    &&& j matches Json::Obj(fields) ==> (
        (e.path@ == "disablePrimaryStatDisplay"@ && !(spec_lookup(fields, "disablePrimaryStatDisplay"@) matches Some(Json::Bool(_))))
        || (e.path@ == "statGroupHash"@ && !(match spec_lookup(fields, "statGroupHash"@) { Option::None => true, Some(Json::Null) => true, Some(Json::Int(n)) => 0 <= n <= u32::MAX as int, _ => false }))
        || ((e.path@ == "stats"@ || spec_starts_with(e.path@, "stats"@)) && !(match spec_lookup(fields, "stats"@) { Option::None => false, Some(Json::Obj(entries)) => forall|i: int| 0 <= i < entries.len() ==> (is_u64_text((#[trigger] entries[i]).0) && u64_text_val(entries[i].0) <= u32::MAX && destiny_inventory_item_stat_definition_wf((#[trigger] entries[i]).1)), _ => false }))
        || (e.path@ == "hasDisplayableStats"@ && !(spec_lookup(fields, "hasDisplayableStats"@) matches Some(Json::Bool(_))))
        || (e.path@ == "primaryBaseStatHash"@ && !(spec_lookup(fields, "primaryBaseStatHash"@) matches Some(Json::Int(n)) && 0 <= n <= u32::MAX as int))
        || (exists|i: int| 0 <= i < fields.len() && (#[trigger] fields[i]).0 == e.path@ && !((fields[i].0 == "disablePrimaryStatDisplay"@ || fields[i].0 == "statGroupHash"@ || fields[i].0 == "stats"@ || fields[i].0 == "hasDisplayableStats"@ || fields[i].0 == "primaryBaseStatHash"@))))
}

pub fn encode_destiny_item_stat_block_definition(v: &DestinyItemStatBlockDefinition) -> (r: JsonValue)
    ensures
        jview(r) == destiny_item_stat_block_definition_json(*v),
{
    let mut fields: Vec<(String, JsonValue)> = Vec::new();
    fields.push(("disablePrimaryStatDisplay".to_owned(), JsonValue::Bool(v.disable_primary_stat_display)));
    fields.push(("statGroupHash".to_owned(), match &v.stat_group_hash {
        Some(x) => JsonValue::Int(*x as i64),
        Option::None => JsonValue::Null,
    }));
    let map_stats = {
        let mut entries: Vec<(String, JsonValue)> = Vec::new();
        let mut i: usize = 0;
        while i < v.stats.len()
            invariant
                i <= v.stats.len(),
                entries@.len() == i,
                forall|k: int| 0 <= k < i
                    ==> (#[trigger] entries@[k]).0@ == dec_string(v.stats@[k].0 as int) && jview(entries@[k].1) == destiny_inventory_item_stat_definition_json(v.stats@[k].1),
            decreases v.stats.len() - i,
        {
            entries.push((u64_to_string(v.stats[i].0 as u64), encode_destiny_inventory_item_stat_definition(&v.stats[i].1)));
            i = i + 1;
        }
        JsonValue::Obj(entries)
    };
    proof {
        assert(jview(map_stats)->Obj_0 =~= destiny_item_stat_block_definition_json(*v)->Obj_0[2].1->Obj_0);
    }
    fields.push(("stats".to_owned(), map_stats));
    fields.push(("hasDisplayableStats".to_owned(), JsonValue::Bool(v.has_displayable_stats)));
    fields.push(("primaryBaseStatHash".to_owned(), JsonValue::Int(v.primary_base_stat_hash as i64)));
    let r = JsonValue::Obj(fields);
    proof {
        assert(jview(fields@[0].1) == destiny_item_stat_block_definition_json(*v)->Obj_0[0].1);
        assert(jview(fields@[1].1) == destiny_item_stat_block_definition_json(*v)->Obj_0[1].1);
        assert(jview(fields@[2].1) == destiny_item_stat_block_definition_json(*v)->Obj_0[2].1);
        assert(jview(fields@[3].1) == destiny_item_stat_block_definition_json(*v)->Obj_0[3].1);
        assert(jview(fields@[4].1) == destiny_item_stat_block_definition_json(*v)->Obj_0[4].1);
        assert(jview(r)->Obj_0 =~= destiny_item_stat_block_definition_json(*v)->Obj_0);
    }
    r
}

/// Decodes this record; a failure names the offending field in its
/// path and says what was expected of it.
#[verifier::loop_isolation(false)]
pub fn decode_destiny_item_stat_block_definition(j: &JsonValue) -> (r: Result<DestinyItemStatBlockDefinition, DecodeError>)
    ensures
        r is Ok <==> destiny_item_stat_block_definition_wf(jview(*j)),
        r matches Ok(w) ==> (jview(*j) matches Json::Obj(fields)
            && destiny_item_stat_block_definition_fields_match(fields, w)),
        r matches Err(e) ==> destiny_item_stat_block_definition_err_ok(jview(*j), e),
{
    let fields = match j {
        JsonValue::Obj(fields) => fields,
        _ => {
            return Err(root_error("an object"));
        },
    };
    let ghost gf = jview(*j)->Obj_0;
    let disable_primary_stat_display = match j.get("disablePrimaryStatDisplay") {
        Some(JsonValue::Bool(b)) => *b,
        _ => {
            return Err(field_error("disablePrimaryStatDisplay", "a boolean"));
        },
    };
    let stat_group_hash = match j.get("statGroupHash") {
        Option::None => Option::None,
        Some(JsonValue::Null) => Option::None,
        Some(v) => match v.to_i64() {
            Some(n) if 0 <= n && n <= u32::MAX as i64 => Some(n as u32),
            _ => {
                return Err(field_error("statGroupHash", "a 32-bit unsigned integer or null"));
            },
        },
    };
    let stats = match j.get("stats") {
        Some(map) => match map {
            JsonValue::Obj(entries) => {
                let ghost gentries = jview(*map)->Obj_0;
                let mut out: Vec<(u32, DestinyInventoryItemStatDefinition)> = Vec::new();
                let mut i: usize = 0;
                while i < entries.len()
                    invariant
                        i <= entries.len(),
                        out@.len() == i,
                        forall|k: int| 0 <= k < i
                            ==> (is_u64_text((#[trigger] gentries[k]).0) && out@[k].0 as int == u64_text_val(gentries[k].0) && destiny_inventory_item_stat_definition_wf(gentries[k].1) && (gentries[k].1 matches Json::Obj(f2) && destiny_inventory_item_stat_definition_fields_match(f2, out@[k].1))),
                    decreases entries.len() - i,
                {
                    proof {
                        assert(gentries[i as int]
                            == (entries@[i as int].0@, jview(entries@[i as int].1)));
                    }
                    let mk = match crate::num::parse_u64(entries[i].0.as_str()) {
                        Some(m) if m <= u32::MAX as u64 => m as u32,
                        _ => {
                            return Err(nested_error("stats", field_error(entries[i].0.as_str(), "a key of decimal digits denoting a 32-bit hash")));
                        },
                    };
                    let mv = match decode_destiny_inventory_item_stat_definition(&entries[i].1) {
                        Ok(r) => r,
                        Err(e) => {
                            return Err(nested_error("stats", nested_error(entries[i].0.as_str(), e)));
                        },
                    };
                    out.push((mk, mv));
                    i = i + 1;
                }
                out
            },
            _ => {
                return Err(field_error("stats", "a mapping object"));
            },
        },
        _ => {
            return Err(field_error("stats", "a mapping object"));
        },
    };
    let has_displayable_stats = match j.get("hasDisplayableStats") {
        Some(JsonValue::Bool(b)) => *b,
        _ => {
            return Err(field_error("hasDisplayableStats", "a boolean"));
        },
    };
    let primary_base_stat_hash = match j.get("primaryBaseStatHash") {
        Some(v) => match v.to_i64() {
            Some(n) if 0 <= n && n <= u32::MAX as i64 => n as u32,
            _ => {
                return Err(field_error("primaryBaseStatHash", "a 32-bit unsigned integer"));
            },
        },
        _ => {
            return Err(field_error("primaryBaseStatHash", "a 32-bit unsigned integer"));
        },
    };
    let mut i: usize = 0;
    while i < fields.len()
        invariant
            i <= fields.len(),
            gf.len() == fields@.len(),
            forall|k: int| 0 <= k < gf.len()
                ==> #[trigger] gf[k] == (fields@[k].0@, jview(fields@[k].1)),
            forall|k: int| 0 <= k < i
                ==> ((#[trigger] gf[k]).0 == "disablePrimaryStatDisplay"@ || gf[k].0 == "statGroupHash"@ || gf[k].0 == "stats"@ || gf[k].0 == "hasDisplayableStats"@ || gf[k].0 == "primaryBaseStatHash"@),
        decreases fields.len() - i,
    {
        let name = fields[i].0.as_str();
        if !(str_eq(name, "disablePrimaryStatDisplay") || str_eq(name, "statGroupHash") || str_eq(name, "stats") || str_eq(name, "hasDisplayableStats") || str_eq(name, "primaryBaseStatHash")) {
            proof {
                assert(gf[i as int].0 == fields@[i as int].0@);
                assert(!destiny_item_stat_block_definition_wf(jview(*j)));
            }
            return Err(field_error(fields[i].0.as_str(), "an unknown field"));
        }
        i = i + 1;
    }
    Ok(DestinyItemStatBlockDefinition { disable_primary_stat_display, stat_group_hash, stats, has_displayable_stats, primary_base_stat_hash })
}

/// The wire image of this record.
pub open spec fn destiny_item_source_definition_json(v: DestinyItemSourceDefinition) -> Json {
    Json::Obj(
        seq![
            ("level"@, Json::Int(v.level as int)),
            ("minQuality"@, Json::Int(v.min_quality as int)),
            ("maxQuality"@, Json::Int(v.max_quality as int)),
            ("minLevelRequired"@, Json::Int(v.min_level_required as int)),
            ("maxLevelRequired"@, Json::Int(v.max_level_required as int)),
            ("computedStats"@, Json::Obj(Seq::new(v.computed_stats@.len(), |i: int| if 0 <= i < v.computed_stats@.len() { (dec_string(v.computed_stats@[i].0 as int), destiny_inventory_item_stat_definition_json(v.computed_stats@[i].1)) } else { (Seq::empty(), Json::Null) }))),
            ("sourceHashes"@, Json::Arr(Seq::new(v.source_hashes@.len(), |i: int| if 0 <= i < v.source_hashes@.len() { Json::Int(v.source_hashes@[i] as int) } else { Json::Null }))),
        ],
    )
}

/// Whether a document decodes as this record: an object with exactly these fields.
pub open spec fn destiny_item_source_definition_wf(j: Json) -> bool {
    &&& j matches Json::Obj(fields)
    &&& spec_lookup(fields, "level"@) matches Some(Json::Int(n)) && i32::MIN as int <= n <= i32::MAX as int
    &&& spec_lookup(fields, "minQuality"@) matches Some(Json::Int(n)) && i32::MIN as int <= n <= i32::MAX as int
    &&& spec_lookup(fields, "maxQuality"@) matches Some(Json::Int(n)) && i32::MIN as int <= n <= i32::MAX as int
    &&& spec_lookup(fields, "minLevelRequired"@) matches Some(Json::Int(n)) && i32::MIN as int <= n <= i32::MAX as int
    &&& spec_lookup(fields, "maxLevelRequired"@) matches Some(Json::Int(n)) && i32::MIN as int <= n <= i32::MAX as int
    &&& match spec_lookup(fields, "computedStats"@) { Option::None => false, Some(Json::Obj(entries)) => forall|i: int| 0 <= i < entries.len() ==> (is_u64_text((#[trigger] entries[i]).0) && u64_text_val(entries[i].0) <= u32::MAX && destiny_inventory_item_stat_definition_wf((#[trigger] entries[i]).1)), _ => false }
    &&& match spec_lookup(fields, "sourceHashes"@) { Option::None => false, Some(Json::Arr(items)) => forall|i: int| 0 <= i < items.len() ==> ((#[trigger] items[i]) matches Json::Int(n) && 0 <= n <= u32::MAX as int), _ => false }
    &&& forall|i: int| 0 <= i < fields.len()
        ==> ((#[trigger] fields[i]).0 == "level"@ || fields[i].0 == "minQuality"@ || fields[i].0 == "maxQuality"@ || fields[i].0 == "minLevelRequired"@ || fields[i].0 == "maxLevelRequired"@ || fields[i].0 == "computedStats"@ || fields[i].0 == "sourceHashes"@)
}

/// How a decoded record relates to the document it came from.
pub open spec fn destiny_item_source_definition_fields_match(fields: Seq<(Seq<char>, Json)>, w: DestinyItemSourceDefinition) -> bool {
    &&& spec_lookup(fields, "level"@) == Some(Json::Int(w.level as int))
    &&& spec_lookup(fields, "minQuality"@) == Some(Json::Int(w.min_quality as int))
    &&& spec_lookup(fields, "maxQuality"@) == Some(Json::Int(w.max_quality as int))
    &&& spec_lookup(fields, "minLevelRequired"@) == Some(Json::Int(w.min_level_required as int))
    &&& spec_lookup(fields, "maxLevelRequired"@) == Some(Json::Int(w.max_level_required as int))
    &&& match spec_lookup(fields, "computedStats"@) { Some(Json::Obj(entries)) => w.computed_stats@.len() == entries.len() && (forall|i: int| 0 <= i < entries.len() ==> (is_u64_text((#[trigger] entries[i]).0) && w.computed_stats@[i].0 as int == u64_text_val(entries[i].0) && (entries[i].1 matches Json::Obj(f2) && destiny_inventory_item_stat_definition_fields_match(f2, w.computed_stats@[i].1)))), _ => false }
    &&& match spec_lookup(fields, "sourceHashes"@) { Option::None => false, Some(Json::Arr(items)) => w.source_hashes@.len() == items.len() && (forall|i: int| 0 <= i < items.len() ==> (#[trigger] items[i]) == Json::Int(w.source_hashes@[i] as int)), _ => false }
}

/// What a decode failure names: its path points at a field of the
/// document that is indeed not decodable, and an undeclared
/// enumeration code is reported with the enumeration's own message.
pub open spec fn destiny_item_source_definition_err_ok(j: Json, e: DecodeError) -> bool {
    &&& !(j matches Json::Obj(_)) ==> e.path@.len() == 0
    &&& j matches Json::Obj(fields) ==> (
        (e.path@ == "level"@ && !(spec_lookup(fields, "level"@) matches Some(Json::Int(n)) && i32::MIN as int <= n <= i32::MAX as int))
        || (e.path@ == "minQuality"@ && !(spec_lookup(fields, "minQuality"@) matches Some(Json::Int(n)) && i32::MIN as int <= n <= i32::MAX as int))
        || (e.path@ == "maxQuality"@ && !(spec_lookup(fields, "maxQuality"@) matches Some(Json::Int(n)) && i32::MIN as int <= n <= i32::MAX as int))
        || (e.path@ == "minLevelRequired"@ && !(spec_lookup(fields, "minLevelRequired"@) matches Some(Json::Int(n)) && i32::MIN as int <= n <= i32::MAX as int))
        || (e.path@ == "maxLevelRequired"@ && !(spec_lookup(fields, "maxLevelRequired"@) matches Some(Json::Int(n)) && i32::MIN as int <= n <= i32::MAX as int))
        || ((e.path@ == "computedStats"@ || spec_starts_with(e.path@, "computedStats"@)) && !(match spec_lookup(fields, "computedStats"@) { Option::None => false, Some(Json::Obj(entries)) => forall|i: int| 0 <= i < entries.len() ==> (is_u64_text((#[trigger] entries[i]).0) && u64_text_val(entries[i].0) <= u32::MAX && destiny_inventory_item_stat_definition_wf((#[trigger] entries[i]).1)), _ => false }))
        || ((e.path@ == "sourceHashes"@ || spec_starts_with(e.path@, "sourceHashes"@)) && !(match spec_lookup(fields, "sourceHashes"@) { Option::None => false, Some(Json::Arr(items)) => forall|i: int| 0 <= i < items.len() ==> ((#[trigger] items[i]) matches Json::Int(n) && 0 <= n <= u32::MAX as int), _ => false }))
        || (exists|i: int| 0 <= i < fields.len() && (#[trigger] fields[i]).0 == e.path@ && !((fields[i].0 == "level"@ || fields[i].0 == "minQuality"@ || fields[i].0 == "maxQuality"@ || fields[i].0 == "minLevelRequired"@ || fields[i].0 == "maxLevelRequired"@ || fields[i].0 == "computedStats"@ || fields[i].0 == "sourceHashes"@))))
}

pub fn encode_destiny_item_source_definition(v: &DestinyItemSourceDefinition) -> (r: JsonValue)
    ensures
        jview(r) == destiny_item_source_definition_json(*v),
{
    let mut fields: Vec<(String, JsonValue)> = Vec::new();
    fields.push(("level".to_owned(), JsonValue::Int(v.level as i64)));
    fields.push(("minQuality".to_owned(), JsonValue::Int(v.min_quality as i64)));
    fields.push(("maxQuality".to_owned(), JsonValue::Int(v.max_quality as i64)));
    fields.push(("minLevelRequired".to_owned(), JsonValue::Int(v.min_level_required as i64)));
    fields.push(("maxLevelRequired".to_owned(), JsonValue::Int(v.max_level_required as i64)));
    let map_computed_stats = {
        let mut entries: Vec<(String, JsonValue)> = Vec::new();
        let mut i: usize = 0;
        while i < v.computed_stats.len()
            invariant
                i <= v.computed_stats.len(),
                entries@.len() == i,
                forall|k: int| 0 <= k < i
                    ==> (#[trigger] entries@[k]).0@ == dec_string(v.computed_stats@[k].0 as int) && jview(entries@[k].1) == destiny_inventory_item_stat_definition_json(v.computed_stats@[k].1),
            decreases v.computed_stats.len() - i,
        {
            entries.push((u64_to_string(v.computed_stats[i].0 as u64), encode_destiny_inventory_item_stat_definition(&v.computed_stats[i].1)));
            i = i + 1;
        }
        JsonValue::Obj(entries)
    };
    proof {
        assert(jview(map_computed_stats)->Obj_0 =~= destiny_item_source_definition_json(*v)->Obj_0[5].1->Obj_0);
    }
    fields.push(("computedStats".to_owned(), map_computed_stats));
    let arr_source_hashes = {
        let mut items: Vec<JsonValue> = Vec::new();
        let mut i: usize = 0;
        while i < v.source_hashes.len()
            invariant
                i <= v.source_hashes.len(),
                items@.len() == i,
                forall|k: int| 0 <= k < i ==> jview(#[trigger] items@[k]) == Json::Int(v.source_hashes@[k] as int),
            decreases v.source_hashes.len() - i,
        {
            items.push(JsonValue::Int(v.source_hashes[i] as i64));
            i = i + 1;
        }
        JsonValue::Arr(items)
    };
    proof {
        assert(jview(arr_source_hashes)->Arr_0 =~= destiny_item_source_definition_json(*v)->Obj_0[6].1->Arr_0);
    }
    fields.push(("sourceHashes".to_owned(), arr_source_hashes));
    let r = JsonValue::Obj(fields);
    proof {
        assert(jview(fields@[0].1) == destiny_item_source_definition_json(*v)->Obj_0[0].1);
        assert(jview(fields@[1].1) == destiny_item_source_definition_json(*v)->Obj_0[1].1);
        assert(jview(fields@[2].1) == destiny_item_source_definition_json(*v)->Obj_0[2].1);
        assert(jview(fields@[3].1) == destiny_item_source_definition_json(*v)->Obj_0[3].1);
        assert(jview(fields@[4].1) == destiny_item_source_definition_json(*v)->Obj_0[4].1);
        assert(jview(fields@[5].1) == destiny_item_source_definition_json(*v)->Obj_0[5].1);
        assert(jview(fields@[6].1) == destiny_item_source_definition_json(*v)->Obj_0[6].1);
        assert(jview(r)->Obj_0 =~= destiny_item_source_definition_json(*v)->Obj_0);
    }
    r
}

/// Decodes this record; a failure names the offending field in its
/// path and says what was expected of it.
#[verifier::loop_isolation(false)]
pub fn decode_destiny_item_source_definition(j: &JsonValue) -> (r: Result<DestinyItemSourceDefinition, DecodeError>)
    ensures
        r is Ok <==> destiny_item_source_definition_wf(jview(*j)),
        r matches Ok(w) ==> (jview(*j) matches Json::Obj(fields)
            && destiny_item_source_definition_fields_match(fields, w)),
        r matches Err(e) ==> destiny_item_source_definition_err_ok(jview(*j), e),
{
    let fields = match j {
        JsonValue::Obj(fields) => fields,
        _ => {
            return Err(root_error("an object"));
        },
    };
    let ghost gf = jview(*j)->Obj_0;
    let level = match j.get("level") {
        Some(v) => match v.to_i64() {
            Some(n) if i32::MIN as i64 <= n && n <= i32::MAX as i64 => n as i32,
            _ => {
                return Err(field_error("level", "a 32-bit integer"));
            },
        },
        _ => {
            return Err(field_error("level", "a 32-bit integer"));
        },
    };
    let min_quality = match j.get("minQuality") {
        Some(v) => match v.to_i64() {
            Some(n) if i32::MIN as i64 <= n && n <= i32::MAX as i64 => n as i32,
            _ => {
                return Err(field_error("minQuality", "a 32-bit integer"));
            },
        },
        _ => {
            return Err(field_error("minQuality", "a 32-bit integer"));
        },
    };
    let max_quality = match j.get("maxQuality") {
        Some(v) => match v.to_i64() {
            Some(n) if i32::MIN as i64 <= n && n <= i32::MAX as i64 => n as i32,
            _ => {
                return Err(field_error("maxQuality", "a 32-bit integer"));
            },
        },
        _ => {
            return Err(field_error("maxQuality", "a 32-bit integer"));
        },
    };
    let min_level_required = match j.get("minLevelRequired") {
        Some(v) => match v.to_i64() {
            Some(n) if i32::MIN as i64 <= n && n <= i32::MAX as i64 => n as i32,
            _ => {
                return Err(field_error("minLevelRequired", "a 32-bit integer"));
            },
        },
        _ => {
            return Err(field_error("minLevelRequired", "a 32-bit integer"));
        },
    };
    let max_level_required = match j.get("maxLevelRequired") {
        Some(v) => match v.to_i64() {
            Some(n) if i32::MIN as i64 <= n && n <= i32::MAX as i64 => n as i32,
            _ => {
                return Err(field_error("maxLevelRequired", "a 32-bit integer"));
            },
        },
        _ => {
            return Err(field_error("maxLevelRequired", "a 32-bit integer"));
        },
    };
    let computed_stats = match j.get("computedStats") {
        Some(map) => match map {
            JsonValue::Obj(entries) => {
                let ghost gentries = jview(*map)->Obj_0;
                let mut out: Vec<(u32, DestinyInventoryItemStatDefinition)> = Vec::new();
                let mut i: usize = 0;
                while i < entries.len()
                    invariant
                        i <= entries.len(),
                        out@.len() == i,
                        forall|k: int| 0 <= k < i
                            ==> (is_u64_text((#[trigger] gentries[k]).0) && out@[k].0 as int == u64_text_val(gentries[k].0) && destiny_inventory_item_stat_definition_wf(gentries[k].1) && (gentries[k].1 matches Json::Obj(f2) && destiny_inventory_item_stat_definition_fields_match(f2, out@[k].1))),
                    decreases entries.len() - i,
                {
                    proof {
                        assert(gentries[i as int]
                            == (entries@[i as int].0@, jview(entries@[i as int].1)));
                    }
                    let mk = match crate::num::parse_u64(entries[i].0.as_str()) {
                        Some(m) if m <= u32::MAX as u64 => m as u32,
                        _ => {
                            return Err(nested_error("computedStats", field_error(entries[i].0.as_str(), "a key of decimal digits denoting a 32-bit hash")));
                        },
                    };
                    let mv = match decode_destiny_inventory_item_stat_definition(&entries[i].1) {
                        Ok(r) => r,
                        Err(e) => {
                            return Err(nested_error("computedStats", nested_error(entries[i].0.as_str(), e)));
                        },
                    };
                    out.push((mk, mv));
                    i = i + 1;
                }
                out
            },
            _ => {
                return Err(field_error("computedStats", "a mapping object"));
            },
        },
        _ => {
            return Err(field_error("computedStats", "a mapping object"));
        },
    };
    let source_hashes = match j.get("sourceHashes") {
        Option::None => {
            return Err(field_error("sourceHashes", "an array"));
        },
        Some(arr) => match arr {
            JsonValue::Arr(items) => {
                let ghost gitems = jview(*arr)->Arr_0;
                let mut out: Vec<u32> = Vec::new();
                let mut i: usize = 0;
                while i < items.len()
                    invariant
                        i <= items.len(),
                        out@.len() == i,
                        forall|k: int| 0 <= k < i ==> (#[trigger] gitems[k]) == Json::Int(out@[k] as int),
                    decreases items.len() - i,
                {
                    proof {
                        assert(gitems[i as int] == jview(items@[i as int]));
                    }
                    let n = match items[i].to_i64() {
                        Some(n) if 0 <= n && n <= u32::MAX as i64 => n,
                        _ => {
                            return Err(indexed_error("sourceHashes", i, field_error("", "a 32-bit unsigned integer")));
                        },
                    };
                    out.push(n as u32);
                    i = i + 1;
                }
                out
            },
            _ => {
                return Err(field_error("sourceHashes", "an array"));
            },
        },
    };
    let mut i: usize = 0;
    while i < fields.len()
        invariant
            i <= fields.len(),
            gf.len() == fields@.len(),
            forall|k: int| 0 <= k < gf.len()
                ==> #[trigger] gf[k] == (fields@[k].0@, jview(fields@[k].1)),
            forall|k: int| 0 <= k < i
                ==> ((#[trigger] gf[k]).0 == "level"@ || gf[k].0 == "minQuality"@ || gf[k].0 == "maxQuality"@ || gf[k].0 == "minLevelRequired"@ || gf[k].0 == "maxLevelRequired"@ || gf[k].0 == "computedStats"@ || gf[k].0 == "sourceHashes"@),
        decreases fields.len() - i,
    {
        let name = fields[i].0.as_str();
        if !(str_eq(name, "level") || str_eq(name, "minQuality") || str_eq(name, "maxQuality") || str_eq(name, "minLevelRequired") || str_eq(name, "maxLevelRequired") || str_eq(name, "computedStats") || str_eq(name, "sourceHashes")) {
            proof {
                assert(gf[i as int].0 == fields@[i as int].0@);
                assert(!destiny_item_source_definition_wf(jview(*j)));
            }
            return Err(field_error(fields[i].0.as_str(), "an unknown field"));
        }
        i = i + 1;
    }
    Ok(DestinyItemSourceDefinition { level, min_quality, max_quality, min_level_required, max_level_required, computed_stats, source_hashes })
}

/// The wire image of this record.
pub open spec fn destiny_item_source_block_definition_json(v: DestinyItemSourceBlockDefinition) -> Json {
    Json::Obj(
        seq![
            ("sourceHashes"@, Json::Arr(Seq::new(v.source_hashes@.len(), |i: int| if 0 <= i < v.source_hashes@.len() { Json::Int(v.source_hashes@[i] as int) } else { Json::Null }))),
            ("sources"@, Json::Arr(Seq::new(v.sources@.len(), |i: int| if 0 <= i < v.sources@.len() { destiny_item_source_definition_json(v.sources@[i]) } else { Json::Null }))),
            ("exclusive"@, Json::Int(v.exclusive.spec_code())),
            ("vendorSources"@, Json::Arr(Seq::new(v.vendor_sources@.len(), |i: int| if 0 <= i < v.vendor_sources@.len() { destiny_item_vendor_source_reference_json(v.vendor_sources@[i]) } else { Json::Null }))),
        ],
    )
}

/// Whether a document decodes as this record: an object with exactly these fields.
pub open spec fn destiny_item_source_block_definition_wf(j: Json) -> bool {
    &&& j matches Json::Obj(fields)
    &&& match spec_lookup(fields, "sourceHashes"@) { Option::None => false, Some(Json::Arr(items)) => forall|i: int| 0 <= i < items.len() ==> ((#[trigger] items[i]) matches Json::Int(n) && 0 <= n <= u32::MAX as int), _ => false }
    &&& match spec_lookup(fields, "sources"@) { Option::None => false, Some(Json::Arr(items)) => forall|i: int| 0 <= i < items.len() ==> destiny_item_source_definition_wf(#[trigger] items[i]), _ => false }
    &&& spec_lookup(fields, "exclusive"@) matches Some(Json::Int(n)) && BungieMembershipType::spec_from_code(n) is Some
    &&& match spec_lookup(fields, "vendorSources"@) { Option::None => false, Some(Json::Arr(items)) => forall|i: int| 0 <= i < items.len() ==> destiny_item_vendor_source_reference_wf(#[trigger] items[i]), _ => false }
    &&& forall|i: int| 0 <= i < fields.len()
        ==> ((#[trigger] fields[i]).0 == "sourceHashes"@ || fields[i].0 == "sources"@ || fields[i].0 == "exclusive"@ || fields[i].0 == "vendorSources"@)
}

/// How a decoded record relates to the document it came from.
pub open spec fn destiny_item_source_block_definition_fields_match(fields: Seq<(Seq<char>, Json)>, w: DestinyItemSourceBlockDefinition) -> bool {
    &&& match spec_lookup(fields, "sourceHashes"@) { Option::None => false, Some(Json::Arr(items)) => w.source_hashes@.len() == items.len() && (forall|i: int| 0 <= i < items.len() ==> (#[trigger] items[i]) == Json::Int(w.source_hashes@[i] as int)), _ => false }
    &&& match spec_lookup(fields, "sources"@) { Option::None => false, Some(Json::Arr(items)) => w.sources@.len() == items.len() && (forall|i: int| 0 <= i < items.len() ==> ((#[trigger] items[i]) matches Json::Obj(f2) && destiny_item_source_definition_fields_match(f2, w.sources@[i]))), _ => false }
    &&& spec_lookup(fields, "exclusive"@) matches Some(Json::Int(n)) && Some(w.exclusive) == BungieMembershipType::spec_from_code(n)
    &&& match spec_lookup(fields, "vendorSources"@) { Option::None => false, Some(Json::Arr(items)) => w.vendor_sources@.len() == items.len() && (forall|i: int| 0 <= i < items.len() ==> ((#[trigger] items[i]) matches Json::Obj(f2) && destiny_item_vendor_source_reference_fields_match(f2, w.vendor_sources@[i]))), _ => false }
}

/// What a decode failure names: its path points at a field of the
/// document that is indeed not decodable, and an undeclared
/// enumeration code is reported with the enumeration's own message.
pub open spec fn destiny_item_source_block_definition_err_ok(j: Json, e: DecodeError) -> bool {
    &&& !(j matches Json::Obj(_)) ==> e.path@.len() == 0
    &&& j matches Json::Obj(fields) ==> (
        ((e.path@ == "sourceHashes"@ || spec_starts_with(e.path@, "sourceHashes"@)) && !(match spec_lookup(fields, "sourceHashes"@) { Option::None => false, Some(Json::Arr(items)) => forall|i: int| 0 <= i < items.len() ==> ((#[trigger] items[i]) matches Json::Int(n) && 0 <= n <= u32::MAX as int), _ => false }))
        || ((e.path@ == "sources"@ || spec_starts_with(e.path@, "sources"@)) && !(match spec_lookup(fields, "sources"@) { Option::None => false, Some(Json::Arr(items)) => forall|i: int| 0 <= i < items.len() ==> destiny_item_source_definition_wf(#[trigger] items[i]), _ => false }))
        || (e.path@ == "exclusive"@ && !(spec_lookup(fields, "exclusive"@) matches Some(Json::Int(n)) && BungieMembershipType::spec_from_code(n) is Some) && (match spec_lookup(fields, "exclusive"@) { Some(Json::Int(n)) => (i32::MIN as int <= n <= i32::MAX as int && BungieMembershipType::spec_from_code(n) is None) ==> e.message@ == BungieMembershipType::spec_unknown_code_message(n), _ => true }))
        || ((e.path@ == "vendorSources"@ || spec_starts_with(e.path@, "vendorSources"@)) && !(match spec_lookup(fields, "vendorSources"@) { Option::None => false, Some(Json::Arr(items)) => forall|i: int| 0 <= i < items.len() ==> destiny_item_vendor_source_reference_wf(#[trigger] items[i]), _ => false }))
        || (exists|i: int| 0 <= i < fields.len() && (#[trigger] fields[i]).0 == e.path@ && !((fields[i].0 == "sourceHashes"@ || fields[i].0 == "sources"@ || fields[i].0 == "exclusive"@ || fields[i].0 == "vendorSources"@))))
}

pub fn encode_destiny_item_source_block_definition(v: &DestinyItemSourceBlockDefinition) -> (r: JsonValue)
    ensures
        jview(r) == destiny_item_source_block_definition_json(*v),
{
    let mut fields: Vec<(String, JsonValue)> = Vec::new();
    let arr_source_hashes = {
        let mut items: Vec<JsonValue> = Vec::new();
        let mut i: usize = 0;
        while i < v.source_hashes.len()
            invariant
                i <= v.source_hashes.len(),
                items@.len() == i,
                forall|k: int| 0 <= k < i ==> jview(#[trigger] items@[k]) == Json::Int(v.source_hashes@[k] as int),
            decreases v.source_hashes.len() - i,
        {
            items.push(JsonValue::Int(v.source_hashes[i] as i64));
            i = i + 1;
        }
        JsonValue::Arr(items)
    };
    proof {
        assert(jview(arr_source_hashes)->Arr_0 =~= destiny_item_source_block_definition_json(*v)->Obj_0[0].1->Arr_0);
    }
    fields.push(("sourceHashes".to_owned(), arr_source_hashes));
    let arr_sources = {
        let mut items: Vec<JsonValue> = Vec::new();
        let mut i: usize = 0;
        while i < v.sources.len()
            invariant
                i <= v.sources.len(),
                items@.len() == i,
                forall|k: int| 0 <= k < i ==> jview(#[trigger] items@[k]) == destiny_item_source_definition_json(v.sources@[k]),
            decreases v.sources.len() - i,
        {
            items.push(encode_destiny_item_source_definition(&v.sources[i]));
            i = i + 1;
        }
        JsonValue::Arr(items)
    };
    proof {
        assert(jview(arr_sources)->Arr_0 =~= destiny_item_source_block_definition_json(*v)->Obj_0[1].1->Arr_0);
    }
    fields.push(("sources".to_owned(), arr_sources));
    fields.push(("exclusive".to_owned(), JsonValue::Int(v.exclusive.code() as i64)));
    let arr_vendor_sources = {
        let mut items: Vec<JsonValue> = Vec::new();
        let mut i: usize = 0;
        while i < v.vendor_sources.len()
            invariant
                i <= v.vendor_sources.len(),
                items@.len() == i,
                forall|k: int| 0 <= k < i ==> jview(#[trigger] items@[k]) == destiny_item_vendor_source_reference_json(v.vendor_sources@[k]),
            decreases v.vendor_sources.len() - i,
        {
            items.push(encode_destiny_item_vendor_source_reference(&v.vendor_sources[i]));
            i = i + 1;
        }
        JsonValue::Arr(items)
    };
    proof {
        assert(jview(arr_vendor_sources)->Arr_0 =~= destiny_item_source_block_definition_json(*v)->Obj_0[3].1->Arr_0);
    }
    fields.push(("vendorSources".to_owned(), arr_vendor_sources));
    let r = JsonValue::Obj(fields);
    proof {
        assert(jview(fields@[0].1) == destiny_item_source_block_definition_json(*v)->Obj_0[0].1);
        assert(jview(fields@[1].1) == destiny_item_source_block_definition_json(*v)->Obj_0[1].1);
        assert(jview(fields@[2].1) == destiny_item_source_block_definition_json(*v)->Obj_0[2].1);
        assert(jview(fields@[3].1) == destiny_item_source_block_definition_json(*v)->Obj_0[3].1);
        assert(jview(r)->Obj_0 =~= destiny_item_source_block_definition_json(*v)->Obj_0);
    }
    r
}

/// Decodes this record; a failure names the offending field in its
/// path and says what was expected of it.
#[verifier::loop_isolation(false)]
pub fn decode_destiny_item_source_block_definition(j: &JsonValue) -> (r: Result<DestinyItemSourceBlockDefinition, DecodeError>)
    ensures
        r is Ok <==> destiny_item_source_block_definition_wf(jview(*j)),
        r matches Ok(w) ==> (jview(*j) matches Json::Obj(fields)
            && destiny_item_source_block_definition_fields_match(fields, w)),
        r matches Err(e) ==> destiny_item_source_block_definition_err_ok(jview(*j), e),
{
    let fields = match j {
        JsonValue::Obj(fields) => fields,
        _ => {
            return Err(root_error("an object"));
        },
    };
    let ghost gf = jview(*j)->Obj_0;
    let source_hashes = match j.get("sourceHashes") {
        Option::None => {
            return Err(field_error("sourceHashes", "an array"));
        },
        Some(arr) => match arr {
            JsonValue::Arr(items) => {
                let ghost gitems = jview(*arr)->Arr_0;
                let mut out: Vec<u32> = Vec::new();
                let mut i: usize = 0;
                while i < items.len()
                    invariant
                        i <= items.len(),
                        out@.len() == i,
                        forall|k: int| 0 <= k < i ==> (#[trigger] gitems[k]) == Json::Int(out@[k] as int),
                    decreases items.len() - i,
                {
                    proof {
                        assert(gitems[i as int] == jview(items@[i as int]));
                    }
                    let n = match items[i].to_i64() {
                        Some(n) if 0 <= n && n <= u32::MAX as i64 => n,
                        _ => {
                            return Err(indexed_error("sourceHashes", i, field_error("", "a 32-bit unsigned integer")));
                        },
                    };
                    out.push(n as u32);
                    i = i + 1;
                }
                out
            },
            _ => {
                return Err(field_error("sourceHashes", "an array"));
            },
        },
    };
    let sources = match j.get("sources") {
        Option::None => {
            return Err(field_error("sources", "an array"));
        },
        Some(arr) => match arr {
            JsonValue::Arr(items) => {
                let ghost gitems = jview(*arr)->Arr_0;
                let mut out: Vec<DestinyItemSourceDefinition> = Vec::new();
                let mut i: usize = 0;
                while i < items.len()
                    invariant
                        i <= items.len(),
                        out@.len() == i,
                        forall|k: int| 0 <= k < i
                            ==> (destiny_item_source_definition_wf(#[trigger] gitems[k])
                                && (gitems[k] matches Json::Obj(f2)
                                && destiny_item_source_definition_fields_match(f2, out@[k]))),
                    decreases items.len() - i,
                {
                    proof {
                        assert(gitems[i as int] == jview(items@[i as int]));
                    }
                    match decode_destiny_item_source_definition(&items[i]) {
                        Ok(r) => {
                            out.push(r);
                        },
                        Err(e) => {
                            return Err(indexed_error("sources", i, e));
                        },
                    }
                    i = i + 1;
                }
                out
            },
            _ => {
                return Err(field_error("sources", "an array"));
            },
        },
    };
    let exclusive = match j.get("exclusive") {
        Some(v) => match v.to_i64() {
            Some(n) if i32::MIN as i64 <= n && n <= i32::MAX as i64 => match BungieMembershipType::decode_code(n as i32) {
                Ok(t) => t,
                Err(e) => {
                    return Err(rekey_error("exclusive", e));
                },
            },
            _ => {
                return Err(field_error("exclusive", "a declared BungieMembershipType code"));
            },
        },
        _ => {
            return Err(field_error("exclusive", "a declared BungieMembershipType code"));
        },
    };
    let vendor_sources = match j.get("vendorSources") {
        Option::None => {
            return Err(field_error("vendorSources", "an array"));
        },
        Some(arr) => match arr {
            JsonValue::Arr(items) => {
                let ghost gitems = jview(*arr)->Arr_0;
                let mut out: Vec<DestinyItemVendorSourceReference> = Vec::new();
                let mut i: usize = 0;
                while i < items.len()
                    invariant
                        i <= items.len(),
                        out@.len() == i,
                        forall|k: int| 0 <= k < i
                            ==> (destiny_item_vendor_source_reference_wf(#[trigger] gitems[k])
                                && (gitems[k] matches Json::Obj(f2)
                                && destiny_item_vendor_source_reference_fields_match(f2, out@[k]))),
                    decreases items.len() - i,
                {
                    proof {
                        assert(gitems[i as int] == jview(items@[i as int]));
                    }
                    match decode_destiny_item_vendor_source_reference(&items[i]) {
                        Ok(r) => {
                            out.push(r);
                        },
                        Err(e) => {
                            return Err(indexed_error("vendorSources", i, e));
                        },
                    }
                    i = i + 1;
                }
                out
            },
            _ => {
                return Err(field_error("vendorSources", "an array"));
            },
        },
    };
    let mut i: usize = 0;
    while i < fields.len()
        invariant
            i <= fields.len(),
            gf.len() == fields@.len(),
            forall|k: int| 0 <= k < gf.len()
                ==> #[trigger] gf[k] == (fields@[k].0@, jview(fields@[k].1)),
            forall|k: int| 0 <= k < i
                ==> ((#[trigger] gf[k]).0 == "sourceHashes"@ || gf[k].0 == "sources"@ || gf[k].0 == "exclusive"@ || gf[k].0 == "vendorSources"@),
        decreases fields.len() - i,
    {
        let name = fields[i].0.as_str();
        if !(str_eq(name, "sourceHashes") || str_eq(name, "sources") || str_eq(name, "exclusive") || str_eq(name, "vendorSources")) {
            proof {
                assert(gf[i as int].0 == fields@[i as int].0@);
                assert(!destiny_item_source_block_definition_wf(jview(*j)));
            }
            return Err(field_error(fields[i].0.as_str(), "an unknown field"));
        }
        i = i + 1;
    }
    Ok(DestinyItemSourceBlockDefinition { source_hashes, sources, exclusive, vendor_sources })
}

/// The wire image of this record.
pub open spec fn destiny_item_plug_definition_json(v: DestinyItemPlugDefinition) -> Json {
    Json::Obj(
        seq![
            ("insertionRules"@, Json::Arr(Seq::new(v.insertion_rules@.len(), |i: int| if 0 <= i < v.insertion_rules@.len() { destiny_plug_rule_definition_json(v.insertion_rules@[i]) } else { Json::Null }))),
            ("plugCategoryIdentifier"@, Json::Str(v.plug_category_identifier@)),
            ("plugCategoryHash"@, Json::Int(v.plug_category_hash as int)),
            ("onActionRecreateSelf"@, Json::Bool(v.on_action_recreate_self)),
            ("actionRewardSiteHash"@, Json::Int(v.action_reward_site_hash as int)),
            ("actionRewardItemOverrideHash"@, Json::Int(v.action_reward_item_override_hash as int)),
            ("insertionMaterialRequirementHash"@, Json::Int(v.insertion_material_requirement_hash as int)),
            ("previewItemOverrideHash"@, Json::Int(v.preview_item_override_hash as int)),
            ("enabledMaterialRequirementHash"@, Json::Int(v.enabled_material_requirement_hash as int)),
            ("enabledRules"@, Json::Arr(Seq::new(v.enabled_rules@.len(), |i: int| if 0 <= i < v.enabled_rules@.len() { destiny_plug_rule_definition_json(v.enabled_rules@[i]) } else { Json::Null }))),
            ("uiPlugLabel"@, Json::Str(v.ui_plug_label@)),
            ("plugStyle"@, Json::Int(v.plug_style.bits as int)),
            ("plugAvailability"@, Json::Int(v.plug_availability.spec_code())),
            ("alternateUiPlugLabel"@, Json::Str(v.alternate_ui_plug_label@)),
            ("alternatePlugStyle"@, Json::Int(v.alternate_plug_style.bits as int)),
            ("isDummyPlug"@, Json::Bool(v.is_dummy_plug)),
            ("parentItemOverride"@, destiny_parent_item_override_json(v.parent_item_override)),
            ("applyStatsToSocketOwnerItem"@, Json::Bool(v.apply_stats_to_socket_owner_item)),
            ("energyCapacity"@, (match v.energy_capacity { Some(x) => destiny_energy_capacity_entry_json(x), Option::None => Json::Null })),
            ("energyCost"@, (match v.energy_cost { Some(x) => destiny_energy_cost_entry_json(x), Option::None => Json::Null })),
        ],
    )
}

/// Whether a document decodes as this record: an object with exactly these fields.
pub open spec fn destiny_item_plug_definition_wf(j: Json) -> bool {
    &&& j matches Json::Obj(fields)
    &&& match spec_lookup(fields, "insertionRules"@) { Option::None => false, Some(Json::Arr(items)) => forall|i: int| 0 <= i < items.len() ==> destiny_plug_rule_definition_wf(#[trigger] items[i]), _ => false }
    &&& spec_lookup(fields, "plugCategoryIdentifier"@) matches Some(Json::Str(_))
    &&& spec_lookup(fields, "plugCategoryHash"@) matches Some(Json::Int(n)) && 0 <= n <= u32::MAX as int
    &&& spec_lookup(fields, "onActionRecreateSelf"@) matches Some(Json::Bool(_))
    &&& spec_lookup(fields, "actionRewardSiteHash"@) matches Some(Json::Int(n)) && 0 <= n <= u32::MAX as int
    &&& spec_lookup(fields, "actionRewardItemOverrideHash"@) matches Some(Json::Int(n)) && 0 <= n <= u32::MAX as int
    &&& spec_lookup(fields, "insertionMaterialRequirementHash"@) matches Some(Json::Int(n)) && 0 <= n <= u32::MAX as int
    &&& spec_lookup(fields, "previewItemOverrideHash"@) matches Some(Json::Int(n)) && 0 <= n <= u32::MAX as int
    &&& spec_lookup(fields, "enabledMaterialRequirementHash"@) matches Some(Json::Int(n)) && 0 <= n <= u32::MAX as int
    &&& match spec_lookup(fields, "enabledRules"@) { Option::None => false, Some(Json::Arr(items)) => forall|i: int| 0 <= i < items.len() ==> destiny_plug_rule_definition_wf(#[trigger] items[i]), _ => false }
    &&& spec_lookup(fields, "uiPlugLabel"@) matches Some(Json::Str(_))
    &&& spec_lookup(fields, "plugStyle"@) matches Some(Json::Int(n)) && 0 <= n <= u8::MAX as int
    &&& spec_lookup(fields, "plugAvailability"@) matches Some(Json::Int(n)) && PlugAvailabilityMode::spec_from_code(n) is Some
    &&& spec_lookup(fields, "alternateUiPlugLabel"@) matches Some(Json::Str(_))
    &&& spec_lookup(fields, "alternatePlugStyle"@) matches Some(Json::Int(n)) && 0 <= n <= u8::MAX as int
    &&& spec_lookup(fields, "isDummyPlug"@) matches Some(Json::Bool(_))
    &&& spec_lookup(fields, "parentItemOverride"@) matches Some(inner) && destiny_parent_item_override_wf(inner)
    &&& spec_lookup(fields, "applyStatsToSocketOwnerItem"@) matches Some(Json::Bool(_))
    &&& match spec_lookup(fields, "energyCapacity"@) { Option::None => true, Some(Json::Null) => true, Some(inner) => destiny_energy_capacity_entry_wf(inner) }
    &&& match spec_lookup(fields, "energyCost"@) { Option::None => true, Some(Json::Null) => true, Some(inner) => destiny_energy_cost_entry_wf(inner) }
    &&& forall|i: int| 0 <= i < fields.len()
        ==> ((#[trigger] fields[i]).0 == "insertionRules"@ || fields[i].0 == "plugCategoryIdentifier"@ || fields[i].0 == "plugCategoryHash"@ || fields[i].0 == "onActionRecreateSelf"@ || fields[i].0 == "actionRewardSiteHash"@ || fields[i].0 == "actionRewardItemOverrideHash"@ || fields[i].0 == "insertionMaterialRequirementHash"@ || fields[i].0 == "previewItemOverrideHash"@ || fields[i].0 == "enabledMaterialRequirementHash"@ || fields[i].0 == "enabledRules"@ || fields[i].0 == "uiPlugLabel"@ || fields[i].0 == "plugStyle"@ || fields[i].0 == "plugAvailability"@ || fields[i].0 == "alternateUiPlugLabel"@ || fields[i].0 == "alternatePlugStyle"@ || fields[i].0 == "isDummyPlug"@ || fields[i].0 == "parentItemOverride"@ || fields[i].0 == "applyStatsToSocketOwnerItem"@ || fields[i].0 == "energyCapacity"@ || fields[i].0 == "energyCost"@)
}

/// How a decoded record relates to the document it came from.
pub open spec fn destiny_item_plug_definition_fields_match(fields: Seq<(Seq<char>, Json)>, w: DestinyItemPlugDefinition) -> bool {
    &&& match spec_lookup(fields, "insertionRules"@) { Option::None => false, Some(Json::Arr(items)) => w.insertion_rules@.len() == items.len() && (forall|i: int| 0 <= i < items.len() ==> ((#[trigger] items[i]) matches Json::Obj(f2) && destiny_plug_rule_definition_fields_match(f2, w.insertion_rules@[i]))), _ => false }
    &&& spec_lookup(fields, "plugCategoryIdentifier"@) == Some(Json::Str(w.plug_category_identifier@))
    &&& spec_lookup(fields, "plugCategoryHash"@) == Some(Json::Int(w.plug_category_hash as int))
    &&& spec_lookup(fields, "onActionRecreateSelf"@) == Some(Json::Bool(w.on_action_recreate_self))
    &&& spec_lookup(fields, "actionRewardSiteHash"@) == Some(Json::Int(w.action_reward_site_hash as int))
    &&& spec_lookup(fields, "actionRewardItemOverrideHash"@) == Some(Json::Int(w.action_reward_item_override_hash as int))
    &&& spec_lookup(fields, "insertionMaterialRequirementHash"@) == Some(Json::Int(w.insertion_material_requirement_hash as int))
    &&& spec_lookup(fields, "previewItemOverrideHash"@) == Some(Json::Int(w.preview_item_override_hash as int))
    &&& spec_lookup(fields, "enabledMaterialRequirementHash"@) == Some(Json::Int(w.enabled_material_requirement_hash as int))
    &&& match spec_lookup(fields, "enabledRules"@) { Option::None => false, Some(Json::Arr(items)) => w.enabled_rules@.len() == items.len() && (forall|i: int| 0 <= i < items.len() ==> ((#[trigger] items[i]) matches Json::Obj(f2) && destiny_plug_rule_definition_fields_match(f2, w.enabled_rules@[i]))), _ => false }
    &&& spec_lookup(fields, "uiPlugLabel"@) == Some(Json::Str(w.ui_plug_label@))
    &&& spec_lookup(fields, "plugStyle"@) matches Some(Json::Int(n)) && w.plug_style.bits == (n as u8) & 1
    &&& spec_lookup(fields, "plugAvailability"@) matches Some(Json::Int(n)) && Some(w.plug_availability) == PlugAvailabilityMode::spec_from_code(n)
    &&& spec_lookup(fields, "alternateUiPlugLabel"@) == Some(Json::Str(w.alternate_ui_plug_label@))
    &&& spec_lookup(fields, "alternatePlugStyle"@) matches Some(Json::Int(n)) && w.alternate_plug_style.bits == (n as u8) & 1
    &&& spec_lookup(fields, "isDummyPlug"@) == Some(Json::Bool(w.is_dummy_plug))
    &&& spec_lookup(fields, "parentItemOverride"@) matches Some(Json::Obj(inner)) && destiny_parent_item_override_fields_match(inner, w.parent_item_override)
    &&& spec_lookup(fields, "applyStatsToSocketOwnerItem"@) == Some(Json::Bool(w.apply_stats_to_socket_owner_item))
    &&& match w.energy_capacity { Some(x) => spec_lookup(fields, "energyCapacity"@) matches Some(Json::Obj(f2)) && destiny_energy_capacity_entry_fields_match(f2, x), Option::None => spec_lookup(fields, "energyCapacity"@) is None || spec_lookup(fields, "energyCapacity"@) == Some(Json::Null) }
    &&& match w.energy_cost { Some(x) => spec_lookup(fields, "energyCost"@) matches Some(Json::Obj(f2)) && destiny_energy_cost_entry_fields_match(f2, x), Option::None => spec_lookup(fields, "energyCost"@) is None || spec_lookup(fields, "energyCost"@) == Some(Json::Null) }
}

/// What a decode failure names: its path points at a field of the
/// document that is indeed not decodable, and an undeclared
/// enumeration code is reported with the enumeration's own message.
pub open spec fn destiny_item_plug_definition_err_ok(j: Json, e: DecodeError) -> bool {
    &&& !(j matches Json::Obj(_)) ==> e.path@.len() == 0
    &&& j matches Json::Obj(fields) ==> (
        ((e.path@ == "insertionRules"@ || spec_starts_with(e.path@, "insertionRules"@)) && !(match spec_lookup(fields, "insertionRules"@) { Option::None => false, Some(Json::Arr(items)) => forall|i: int| 0 <= i < items.len() ==> destiny_plug_rule_definition_wf(#[trigger] items[i]), _ => false }))
        || (e.path@ == "plugCategoryIdentifier"@ && !(spec_lookup(fields, "plugCategoryIdentifier"@) matches Some(Json::Str(_))))
        || (e.path@ == "plugCategoryHash"@ && !(spec_lookup(fields, "plugCategoryHash"@) matches Some(Json::Int(n)) && 0 <= n <= u32::MAX as int))
        || (e.path@ == "onActionRecreateSelf"@ && !(spec_lookup(fields, "onActionRecreateSelf"@) matches Some(Json::Bool(_))))
        || (e.path@ == "actionRewardSiteHash"@ && !(spec_lookup(fields, "actionRewardSiteHash"@) matches Some(Json::Int(n)) && 0 <= n <= u32::MAX as int))
        || (e.path@ == "actionRewardItemOverrideHash"@ && !(spec_lookup(fields, "actionRewardItemOverrideHash"@) matches Some(Json::Int(n)) && 0 <= n <= u32::MAX as int))
        || (e.path@ == "insertionMaterialRequirementHash"@ && !(spec_lookup(fields, "insertionMaterialRequirementHash"@) matches Some(Json::Int(n)) && 0 <= n <= u32::MAX as int))
        || (e.path@ == "previewItemOverrideHash"@ && !(spec_lookup(fields, "previewItemOverrideHash"@) matches Some(Json::Int(n)) && 0 <= n <= u32::MAX as int))
        || (e.path@ == "enabledMaterialRequirementHash"@ && !(spec_lookup(fields, "enabledMaterialRequirementHash"@) matches Some(Json::Int(n)) && 0 <= n <= u32::MAX as int))
        || ((e.path@ == "enabledRules"@ || spec_starts_with(e.path@, "enabledRules"@)) && !(match spec_lookup(fields, "enabledRules"@) { Option::None => false, Some(Json::Arr(items)) => forall|i: int| 0 <= i < items.len() ==> destiny_plug_rule_definition_wf(#[trigger] items[i]), _ => false }))
        || (e.path@ == "uiPlugLabel"@ && !(spec_lookup(fields, "uiPlugLabel"@) matches Some(Json::Str(_))))
        || (e.path@ == "plugStyle"@ && !(spec_lookup(fields, "plugStyle"@) matches Some(Json::Int(n)) && 0 <= n <= u8::MAX as int))
        || (e.path@ == "plugAvailability"@ && !(spec_lookup(fields, "plugAvailability"@) matches Some(Json::Int(n)) && PlugAvailabilityMode::spec_from_code(n) is Some) && (match spec_lookup(fields, "plugAvailability"@) { Some(Json::Int(n)) => (0 <= n <= u8::MAX as int && PlugAvailabilityMode::spec_from_code(n) is None) ==> e.message@ == PlugAvailabilityMode::spec_unknown_code_message(n), _ => true }))
        || (e.path@ == "alternateUiPlugLabel"@ && !(spec_lookup(fields, "alternateUiPlugLabel"@) matches Some(Json::Str(_))))
        || (e.path@ == "alternatePlugStyle"@ && !(spec_lookup(fields, "alternatePlugStyle"@) matches Some(Json::Int(n)) && 0 <= n <= u8::MAX as int))
        || (e.path@ == "isDummyPlug"@ && !(spec_lookup(fields, "isDummyPlug"@) matches Some(Json::Bool(_))))
        || ((e.path@ == "parentItemOverride"@ || spec_starts_with(e.path@, "parentItemOverride"@)) && !(spec_lookup(fields, "parentItemOverride"@) matches Some(inner) && destiny_parent_item_override_wf(inner)))
        || (e.path@ == "applyStatsToSocketOwnerItem"@ && !(spec_lookup(fields, "applyStatsToSocketOwnerItem"@) matches Some(Json::Bool(_))))
        || ((e.path@ == "energyCapacity"@ || spec_starts_with(e.path@, "energyCapacity"@)) && !(match spec_lookup(fields, "energyCapacity"@) { Option::None => true, Some(Json::Null) => true, Some(inner) => destiny_energy_capacity_entry_wf(inner) }))
        || ((e.path@ == "energyCost"@ || spec_starts_with(e.path@, "energyCost"@)) && !(match spec_lookup(fields, "energyCost"@) { Option::None => true, Some(Json::Null) => true, Some(inner) => destiny_energy_cost_entry_wf(inner) }))
        || (exists|i: int| 0 <= i < fields.len() && (#[trigger] fields[i]).0 == e.path@ && !((fields[i].0 == "insertionRules"@ || fields[i].0 == "plugCategoryIdentifier"@ || fields[i].0 == "plugCategoryHash"@ || fields[i].0 == "onActionRecreateSelf"@ || fields[i].0 == "actionRewardSiteHash"@ || fields[i].0 == "actionRewardItemOverrideHash"@ || fields[i].0 == "insertionMaterialRequirementHash"@ || fields[i].0 == "previewItemOverrideHash"@ || fields[i].0 == "enabledMaterialRequirementHash"@ || fields[i].0 == "enabledRules"@ || fields[i].0 == "uiPlugLabel"@ || fields[i].0 == "plugStyle"@ || fields[i].0 == "plugAvailability"@ || fields[i].0 == "alternateUiPlugLabel"@ || fields[i].0 == "alternatePlugStyle"@ || fields[i].0 == "isDummyPlug"@ || fields[i].0 == "parentItemOverride"@ || fields[i].0 == "applyStatsToSocketOwnerItem"@ || fields[i].0 == "energyCapacity"@ || fields[i].0 == "energyCost"@))))
}

pub fn encode_destiny_item_plug_definition(v: &DestinyItemPlugDefinition) -> (r: JsonValue)
    ensures
        jview(r) == destiny_item_plug_definition_json(*v),
{
    let mut fields: Vec<(String, JsonValue)> = Vec::new();
    let arr_insertion_rules = {
        let mut items: Vec<JsonValue> = Vec::new();
        let mut i: usize = 0;
        while i < v.insertion_rules.len()
            invariant
                i <= v.insertion_rules.len(),
                items@.len() == i,
                forall|k: int| 0 <= k < i ==> jview(#[trigger] items@[k]) == destiny_plug_rule_definition_json(v.insertion_rules@[k]),
            decreases v.insertion_rules.len() - i,
        {
            items.push(encode_destiny_plug_rule_definition(&v.insertion_rules[i]));
            i = i + 1;
        }
        JsonValue::Arr(items)
    };
    proof {
        assert(jview(arr_insertion_rules)->Arr_0 =~= destiny_item_plug_definition_json(*v)->Obj_0[0].1->Arr_0);
    }
    fields.push(("insertionRules".to_owned(), arr_insertion_rules));
    fields.push(("plugCategoryIdentifier".to_owned(), JsonValue::Str(v.plug_category_identifier.clone())));
    fields.push(("plugCategoryHash".to_owned(), JsonValue::Int(v.plug_category_hash as i64)));
    fields.push(("onActionRecreateSelf".to_owned(), JsonValue::Bool(v.on_action_recreate_self)));
    fields.push(("actionRewardSiteHash".to_owned(), JsonValue::Int(v.action_reward_site_hash as i64)));
    fields.push(("actionRewardItemOverrideHash".to_owned(), JsonValue::Int(v.action_reward_item_override_hash as i64)));
    fields.push(("insertionMaterialRequirementHash".to_owned(), JsonValue::Int(v.insertion_material_requirement_hash as i64)));
    fields.push(("previewItemOverrideHash".to_owned(), JsonValue::Int(v.preview_item_override_hash as i64)));
    fields.push(("enabledMaterialRequirementHash".to_owned(), JsonValue::Int(v.enabled_material_requirement_hash as i64)));
    let arr_enabled_rules = {
        let mut items: Vec<JsonValue> = Vec::new();
        let mut i: usize = 0;
        while i < v.enabled_rules.len()
            invariant
                i <= v.enabled_rules.len(),
                items@.len() == i,
                forall|k: int| 0 <= k < i ==> jview(#[trigger] items@[k]) == destiny_plug_rule_definition_json(v.enabled_rules@[k]),
            decreases v.enabled_rules.len() - i,
        {
            items.push(encode_destiny_plug_rule_definition(&v.enabled_rules[i]));
            i = i + 1;
        }
        JsonValue::Arr(items)
    };
    proof {
        assert(jview(arr_enabled_rules)->Arr_0 =~= destiny_item_plug_definition_json(*v)->Obj_0[9].1->Arr_0);
    }
    fields.push(("enabledRules".to_owned(), arr_enabled_rules));
    fields.push(("uiPlugLabel".to_owned(), JsonValue::Str(v.ui_plug_label.clone())));
    fields.push(("plugStyle".to_owned(), JsonValue::Int(v.plug_style.bits as i64)));
    fields.push(("plugAvailability".to_owned(), JsonValue::Int(v.plug_availability.code() as i64)));
    fields.push(("alternateUiPlugLabel".to_owned(), JsonValue::Str(v.alternate_ui_plug_label.clone())));
    fields.push(("alternatePlugStyle".to_owned(), JsonValue::Int(v.alternate_plug_style.bits as i64)));
    fields.push(("isDummyPlug".to_owned(), JsonValue::Bool(v.is_dummy_plug)));
    fields.push(("parentItemOverride".to_owned(), encode_destiny_parent_item_override(&v.parent_item_override)));
    fields.push(("applyStatsToSocketOwnerItem".to_owned(), JsonValue::Bool(v.apply_stats_to_socket_owner_item)));
    fields.push(("energyCapacity".to_owned(), match &v.energy_capacity {
        Some(x) => encode_destiny_energy_capacity_entry(x),
        Option::None => JsonValue::Null,
    }));
    fields.push(("energyCost".to_owned(), match &v.energy_cost {
        Some(x) => encode_destiny_energy_cost_entry(x),
        Option::None => JsonValue::Null,
    }));
    let r = JsonValue::Obj(fields);
    proof {
        assert(jview(fields@[0].1) == destiny_item_plug_definition_json(*v)->Obj_0[0].1);
        assert(jview(fields@[1].1) == destiny_item_plug_definition_json(*v)->Obj_0[1].1);
        assert(jview(fields@[2].1) == destiny_item_plug_definition_json(*v)->Obj_0[2].1);
        assert(jview(fields@[3].1) == destiny_item_plug_definition_json(*v)->Obj_0[3].1);
        assert(jview(fields@[4].1) == destiny_item_plug_definition_json(*v)->Obj_0[4].1);
        assert(jview(fields@[5].1) == destiny_item_plug_definition_json(*v)->Obj_0[5].1);
        assert(jview(fields@[6].1) == destiny_item_plug_definition_json(*v)->Obj_0[6].1);
        assert(jview(fields@[7].1) == destiny_item_plug_definition_json(*v)->Obj_0[7].1);
        assert(jview(fields@[8].1) == destiny_item_plug_definition_json(*v)->Obj_0[8].1);
        assert(jview(fields@[9].1) == destiny_item_plug_definition_json(*v)->Obj_0[9].1);
        assert(jview(fields@[10].1) == destiny_item_plug_definition_json(*v)->Obj_0[10].1);
        assert(jview(fields@[11].1) == destiny_item_plug_definition_json(*v)->Obj_0[11].1);
        assert(jview(fields@[12].1) == destiny_item_plug_definition_json(*v)->Obj_0[12].1);
        assert(jview(fields@[13].1) == destiny_item_plug_definition_json(*v)->Obj_0[13].1);
        assert(jview(fields@[14].1) == destiny_item_plug_definition_json(*v)->Obj_0[14].1);
        assert(jview(fields@[15].1) == destiny_item_plug_definition_json(*v)->Obj_0[15].1);
        assert(jview(fields@[16].1) == destiny_item_plug_definition_json(*v)->Obj_0[16].1);
        assert(jview(fields@[17].1) == destiny_item_plug_definition_json(*v)->Obj_0[17].1);
        assert(jview(fields@[18].1) == destiny_item_plug_definition_json(*v)->Obj_0[18].1);
        assert(jview(fields@[19].1) == destiny_item_plug_definition_json(*v)->Obj_0[19].1);
        assert(jview(r)->Obj_0 =~= destiny_item_plug_definition_json(*v)->Obj_0);
    }
    r
}

/// Decodes this record; a failure names the offending field in its
/// path and says what was expected of it.
#[verifier::loop_isolation(false)]
#[verifier::rlimit(60)]
pub fn decode_destiny_item_plug_definition(j: &JsonValue) -> (r: Result<DestinyItemPlugDefinition, DecodeError>)
    ensures
        r is Ok <==> destiny_item_plug_definition_wf(jview(*j)),
        r matches Ok(w) ==> (jview(*j) matches Json::Obj(fields)
            && destiny_item_plug_definition_fields_match(fields, w)),
        r matches Err(e) ==> destiny_item_plug_definition_err_ok(jview(*j), e),
{
    let fields = match j {
        JsonValue::Obj(fields) => fields,
        _ => {
            return Err(root_error("an object"));
        },
    };
    let ghost gf = jview(*j)->Obj_0;
    let insertion_rules = match j.get("insertionRules") {
        Option::None => {
            return Err(field_error("insertionRules", "an array"));
        },
        Some(arr) => match arr {
            JsonValue::Arr(items) => {
                let ghost gitems = jview(*arr)->Arr_0;
                let mut out: Vec<DestinyPlugRuleDefinition> = Vec::new();
                let mut i: usize = 0;
                while i < items.len()
                    invariant
                        i <= items.len(),
                        out@.len() == i,
                        forall|k: int| 0 <= k < i
                            ==> (destiny_plug_rule_definition_wf(#[trigger] gitems[k])
                                && (gitems[k] matches Json::Obj(f2)
                                && destiny_plug_rule_definition_fields_match(f2, out@[k]))),
                    decreases items.len() - i,
                {
                    proof {
                        assert(gitems[i as int] == jview(items@[i as int]));
                    }
                    match decode_destiny_plug_rule_definition(&items[i]) {
                        Ok(r) => {
                            out.push(r);
                        },
                        Err(e) => {
                            return Err(indexed_error("insertionRules", i, e));
                        },
                    }
                    i = i + 1;
                }
                out
            },
            _ => {
                return Err(field_error("insertionRules", "an array"));
            },
        },
    };
    let plug_category_identifier = match j.get("plugCategoryIdentifier") {
        Some(JsonValue::Str(s)) => s.clone(),
        _ => {
            return Err(field_error("plugCategoryIdentifier", "a string"));
        },
    };
    let plug_category_hash = match j.get("plugCategoryHash") {
        Some(v) => match v.to_i64() {
            Some(n) if 0 <= n && n <= u32::MAX as i64 => n as u32,
            _ => {
                return Err(field_error("plugCategoryHash", "a 32-bit unsigned integer"));
            },
        },
        _ => {
            return Err(field_error("plugCategoryHash", "a 32-bit unsigned integer"));
        },
    };
    let on_action_recreate_self = match j.get("onActionRecreateSelf") {
        Some(JsonValue::Bool(b)) => *b,
        _ => {
            return Err(field_error("onActionRecreateSelf", "a boolean"));
        },
    };
    let action_reward_site_hash = match j.get("actionRewardSiteHash") {
        Some(v) => match v.to_i64() {
            Some(n) if 0 <= n && n <= u32::MAX as i64 => n as u32,
            _ => {
                return Err(field_error("actionRewardSiteHash", "a 32-bit unsigned integer"));
            },
        },
        _ => {
            return Err(field_error("actionRewardSiteHash", "a 32-bit unsigned integer"));
        },
    };
    let action_reward_item_override_hash = match j.get("actionRewardItemOverrideHash") {
        Some(v) => match v.to_i64() {
            Some(n) if 0 <= n && n <= u32::MAX as i64 => n as u32,
            _ => {
                return Err(field_error("actionRewardItemOverrideHash", "a 32-bit unsigned integer"));
            },
        },
        _ => {
            return Err(field_error("actionRewardItemOverrideHash", "a 32-bit unsigned integer"));
        },
    };
    let insertion_material_requirement_hash = match j.get("insertionMaterialRequirementHash") {
        Some(v) => match v.to_i64() {
            Some(n) if 0 <= n && n <= u32::MAX as i64 => n as u32,
            _ => {
                return Err(field_error("insertionMaterialRequirementHash", "a 32-bit unsigned integer"));
            },
        },
        _ => {
            return Err(field_error("insertionMaterialRequirementHash", "a 32-bit unsigned integer"));
        },
    };
    let preview_item_override_hash = match j.get("previewItemOverrideHash") {
        Some(v) => match v.to_i64() {
            Some(n) if 0 <= n && n <= u32::MAX as i64 => n as u32,
            _ => {
                return Err(field_error("previewItemOverrideHash", "a 32-bit unsigned integer"));
            },
        },
        _ => {
            return Err(field_error("previewItemOverrideHash", "a 32-bit unsigned integer"));
        },
    };
    let enabled_material_requirement_hash = match j.get("enabledMaterialRequirementHash") {
        Some(v) => match v.to_i64() {
            Some(n) if 0 <= n && n <= u32::MAX as i64 => n as u32,
            _ => {
                return Err(field_error("enabledMaterialRequirementHash", "a 32-bit unsigned integer"));
            },
        },
        _ => {
            return Err(field_error("enabledMaterialRequirementHash", "a 32-bit unsigned integer"));
        },
    };
    let enabled_rules = match j.get("enabledRules") {
        Option::None => {
            return Err(field_error("enabledRules", "an array"));
        },
        Some(arr) => match arr {
            JsonValue::Arr(items) => {
                let ghost gitems = jview(*arr)->Arr_0;
                let mut out: Vec<DestinyPlugRuleDefinition> = Vec::new();
                let mut i: usize = 0;
                while i < items.len()
                    invariant
                        i <= items.len(),
                        out@.len() == i,
                        forall|k: int| 0 <= k < i
                            ==> (destiny_plug_rule_definition_wf(#[trigger] gitems[k])
                                && (gitems[k] matches Json::Obj(f2)
                                && destiny_plug_rule_definition_fields_match(f2, out@[k]))),
                    decreases items.len() - i,
                {
                    proof {
                        assert(gitems[i as int] == jview(items@[i as int]));
                    }
                    match decode_destiny_plug_rule_definition(&items[i]) {
                        Ok(r) => {
                            out.push(r);
                        },
                        Err(e) => {
                            return Err(indexed_error("enabledRules", i, e));
                        },
                    }
                    i = i + 1;
                }
                out
            },
            _ => {
                return Err(field_error("enabledRules", "an array"));
            },
        },
    };
    let ui_plug_label = match j.get("uiPlugLabel") {
        Some(JsonValue::Str(s)) => s.clone(),
        _ => {
            return Err(field_error("uiPlugLabel", "a string"));
        },
    };
    let plug_style = match j.get("plugStyle") {
        Some(v) => match v.to_i64() {
            Some(n) if 0 <= n && n <= u8::MAX as i64 => PlugUiStyles::from_bits_truncate(n as u8),
            _ => {
                return Err(field_error("plugStyle", "an 8-bit unsigned integer"));
            },
        },
        _ => {
            return Err(field_error("plugStyle", "an 8-bit unsigned integer"));
        },
    };
    let plug_availability = match j.get("plugAvailability") {
        Some(v) => match v.to_i64() {
            Some(n) if 0 <= n && n <= u8::MAX as i64 => match PlugAvailabilityMode::decode_code(n as u8) {
                Ok(t) => t,
                Err(e) => {
                    return Err(rekey_error("plugAvailability", e));
                },
            },
            _ => {
                return Err(field_error("plugAvailability", "a declared PlugAvailabilityMode code"));
            },
        },
        _ => {
            return Err(field_error("plugAvailability", "a declared PlugAvailabilityMode code"));
        },
    };
    let alternate_ui_plug_label = match j.get("alternateUiPlugLabel") {
        Some(JsonValue::Str(s)) => s.clone(),
        _ => {
            return Err(field_error("alternateUiPlugLabel", "a string"));
        },
    };
    let alternate_plug_style = match j.get("alternatePlugStyle") {
        Some(v) => match v.to_i64() {
            Some(n) if 0 <= n && n <= u8::MAX as i64 => PlugUiStyles::from_bits_truncate(n as u8),
            _ => {
                return Err(field_error("alternatePlugStyle", "an 8-bit unsigned integer"));
            },
        },
        _ => {
            return Err(field_error("alternatePlugStyle", "an 8-bit unsigned integer"));
        },
    };
    let is_dummy_plug = match j.get("isDummyPlug") {
        Some(JsonValue::Bool(b)) => *b,
        _ => {
            return Err(field_error("isDummyPlug", "a boolean"));
        },
    };
    let parent_item_override = match j.get("parentItemOverride") {
        Some(inner) => match decode_destiny_parent_item_override(inner) {
            Ok(r) => r,
            Err(e) => {
                return Err(nested_error("parentItemOverride", e));
            },
        },
        _ => {
            return Err(field_error("parentItemOverride", "an object"));
        },
    };
    let apply_stats_to_socket_owner_item = match j.get("applyStatsToSocketOwnerItem") {
        Some(JsonValue::Bool(b)) => *b,
        _ => {
            return Err(field_error("applyStatsToSocketOwnerItem", "a boolean"));
        },
    };
    let energy_capacity = match j.get("energyCapacity") {
        Option::None => Option::None,
        Some(JsonValue::Null) => Option::None,
        Some(inner) => match decode_destiny_energy_capacity_entry(inner) {
            Ok(r) => Some(r),
            Err(e) => {
                return Err(nested_error("energyCapacity", e));
            },
        },
    };
    let energy_cost = match j.get("energyCost") {
        Option::None => Option::None,
        Some(JsonValue::Null) => Option::None,
        Some(inner) => match decode_destiny_energy_cost_entry(inner) {
            Ok(r) => Some(r),
            Err(e) => {
                return Err(nested_error("energyCost", e));
            },
        },
    };
    let mut i: usize = 0;
    while i < fields.len()
        invariant
            i <= fields.len(),
            gf.len() == fields@.len(),
            forall|k: int| 0 <= k < gf.len()
                ==> #[trigger] gf[k] == (fields@[k].0@, jview(fields@[k].1)),
            forall|k: int| 0 <= k < i
                ==> ((#[trigger] gf[k]).0 == "insertionRules"@ || gf[k].0 == "plugCategoryIdentifier"@ || gf[k].0 == "plugCategoryHash"@ || gf[k].0 == "onActionRecreateSelf"@ || gf[k].0 == "actionRewardSiteHash"@ || gf[k].0 == "actionRewardItemOverrideHash"@ || gf[k].0 == "insertionMaterialRequirementHash"@ || gf[k].0 == "previewItemOverrideHash"@ || gf[k].0 == "enabledMaterialRequirementHash"@ || gf[k].0 == "enabledRules"@ || gf[k].0 == "uiPlugLabel"@ || gf[k].0 == "plugStyle"@ || gf[k].0 == "plugAvailability"@ || gf[k].0 == "alternateUiPlugLabel"@ || gf[k].0 == "alternatePlugStyle"@ || gf[k].0 == "isDummyPlug"@ || gf[k].0 == "parentItemOverride"@ || gf[k].0 == "applyStatsToSocketOwnerItem"@ || gf[k].0 == "energyCapacity"@ || gf[k].0 == "energyCost"@),
        decreases fields.len() - i,
    {
        let name = fields[i].0.as_str();
        if !(str_eq(name, "insertionRules") || str_eq(name, "plugCategoryIdentifier") || str_eq(name, "plugCategoryHash") || str_eq(name, "onActionRecreateSelf") || str_eq(name, "actionRewardSiteHash") || str_eq(name, "actionRewardItemOverrideHash") || str_eq(name, "insertionMaterialRequirementHash") || str_eq(name, "previewItemOverrideHash") || str_eq(name, "enabledMaterialRequirementHash") || str_eq(name, "enabledRules") || str_eq(name, "uiPlugLabel") || str_eq(name, "plugStyle") || str_eq(name, "plugAvailability") || str_eq(name, "alternateUiPlugLabel") || str_eq(name, "alternatePlugStyle") || str_eq(name, "isDummyPlug") || str_eq(name, "parentItemOverride") || str_eq(name, "applyStatsToSocketOwnerItem") || str_eq(name, "energyCapacity") || str_eq(name, "energyCost")) {
            proof {
                assert(gf[i as int].0 == fields@[i as int].0@);
                assert(!destiny_item_plug_definition_wf(jview(*j)));
            }
            return Err(field_error(fields[i].0.as_str(), "an unknown field"));
        }
        i = i + 1;
    }
    Ok(DestinyItemPlugDefinition { insertion_rules, plug_category_identifier, plug_category_hash, on_action_recreate_self, action_reward_site_hash, action_reward_item_override_hash, insertion_material_requirement_hash, preview_item_override_hash, enabled_material_requirement_hash, enabled_rules, ui_plug_label, plug_style, plug_availability, alternate_ui_plug_label, alternate_plug_style, is_dummy_plug, parent_item_override, apply_stats_to_socket_owner_item, energy_capacity, energy_cost })
}

/// The wire image of this record.
pub open spec fn destiny_item_socket_block_definition_json(v: DestinyItemSocketBlockDefinition) -> Json {
    Json::Obj(
        seq![
            ("detail"@, Json::Str(v.detail@)),
            ("socketEntries"@, Json::Arr(Seq::new(v.socket_entries@.len(), |i: int| if 0 <= i < v.socket_entries@.len() { destiny_item_socket_entry_definition_json(v.socket_entries@[i]) } else { Json::Null }))),
            ("intrinsicSockets"@, Json::Arr(Seq::new(v.intrinsic_sockets@.len(), |i: int| if 0 <= i < v.intrinsic_sockets@.len() { destiny_item_intrinsic_socket_entry_definition_json(v.intrinsic_sockets@[i]) } else { Json::Null }))),
            ("socketCategories"@, Json::Arr(Seq::new(v.socket_categories@.len(), |i: int| if 0 <= i < v.socket_categories@.len() { destiny_item_socket_category_definition_json(v.socket_categories@[i]) } else { Json::Null }))),
        ],
    )
}

/// Whether a document decodes as this record: an object with exactly these fields.
pub open spec fn destiny_item_socket_block_definition_wf(j: Json) -> bool {
    &&& j matches Json::Obj(fields)
    &&& spec_lookup(fields, "detail"@) matches Some(Json::Str(_))
    &&& match spec_lookup(fields, "socketEntries"@) { Option::None => false, Some(Json::Arr(items)) => forall|i: int| 0 <= i < items.len() ==> destiny_item_socket_entry_definition_wf(#[trigger] items[i]), _ => false }
    &&& match spec_lookup(fields, "intrinsicSockets"@) { Option::None => false, Some(Json::Arr(items)) => forall|i: int| 0 <= i < items.len() ==> destiny_item_intrinsic_socket_entry_definition_wf(#[trigger] items[i]), _ => false }
    &&& match spec_lookup(fields, "socketCategories"@) { Option::None => false, Some(Json::Arr(items)) => forall|i: int| 0 <= i < items.len() ==> destiny_item_socket_category_definition_wf(#[trigger] items[i]), _ => false }
    &&& forall|i: int| 0 <= i < fields.len()
        ==> ((#[trigger] fields[i]).0 == "detail"@ || fields[i].0 == "socketEntries"@ || fields[i].0 == "intrinsicSockets"@ || fields[i].0 == "socketCategories"@)
}

/// How a decoded record relates to the document it came from.
pub open spec fn destiny_item_socket_block_definition_fields_match(fields: Seq<(Seq<char>, Json)>, w: DestinyItemSocketBlockDefinition) -> bool {
    &&& spec_lookup(fields, "detail"@) == Some(Json::Str(w.detail@))
    &&& match spec_lookup(fields, "socketEntries"@) { Option::None => false, Some(Json::Arr(items)) => w.socket_entries@.len() == items.len() && (forall|i: int| 0 <= i < items.len() ==> ((#[trigger] items[i]) matches Json::Obj(f2) && destiny_item_socket_entry_definition_fields_match(f2, w.socket_entries@[i]))), _ => false }
    &&& match spec_lookup(fields, "intrinsicSockets"@) { Option::None => false, Some(Json::Arr(items)) => w.intrinsic_sockets@.len() == items.len() && (forall|i: int| 0 <= i < items.len() ==> ((#[trigger] items[i]) matches Json::Obj(f2) && destiny_item_intrinsic_socket_entry_definition_fields_match(f2, w.intrinsic_sockets@[i]))), _ => false }
    &&& match spec_lookup(fields, "socketCategories"@) { Option::None => false, Some(Json::Arr(items)) => w.socket_categories@.len() == items.len() && (forall|i: int| 0 <= i < items.len() ==> ((#[trigger] items[i]) matches Json::Obj(f2) && destiny_item_socket_category_definition_fields_match(f2, w.socket_categories@[i]))), _ => false }
}

/// What a decode failure names: its path points at a field of the
/// document that is indeed not decodable, and an undeclared
/// enumeration code is reported with the enumeration's own message.
pub open spec fn destiny_item_socket_block_definition_err_ok(j: Json, e: DecodeError) -> bool {
    &&& !(j matches Json::Obj(_)) ==> e.path@.len() == 0
    &&& j matches Json::Obj(fields) ==> (
        (e.path@ == "detail"@ && !(spec_lookup(fields, "detail"@) matches Some(Json::Str(_))))
        || ((e.path@ == "socketEntries"@ || spec_starts_with(e.path@, "socketEntries"@)) && !(match spec_lookup(fields, "socketEntries"@) { Option::None => false, Some(Json::Arr(items)) => forall|i: int| 0 <= i < items.len() ==> destiny_item_socket_entry_definition_wf(#[trigger] items[i]), _ => false }))
        || ((e.path@ == "intrinsicSockets"@ || spec_starts_with(e.path@, "intrinsicSockets"@)) && !(match spec_lookup(fields, "intrinsicSockets"@) { Option::None => false, Some(Json::Arr(items)) => forall|i: int| 0 <= i < items.len() ==> destiny_item_intrinsic_socket_entry_definition_wf(#[trigger] items[i]), _ => false }))
        || ((e.path@ == "socketCategories"@ || spec_starts_with(e.path@, "socketCategories"@)) && !(match spec_lookup(fields, "socketCategories"@) { Option::None => false, Some(Json::Arr(items)) => forall|i: int| 0 <= i < items.len() ==> destiny_item_socket_category_definition_wf(#[trigger] items[i]), _ => false }))
        || (exists|i: int| 0 <= i < fields.len() && (#[trigger] fields[i]).0 == e.path@ && !((fields[i].0 == "detail"@ || fields[i].0 == "socketEntries"@ || fields[i].0 == "intrinsicSockets"@ || fields[i].0 == "socketCategories"@))))
}

pub fn encode_destiny_item_socket_block_definition(v: &DestinyItemSocketBlockDefinition) -> (r: JsonValue)
    ensures
        jview(r) == destiny_item_socket_block_definition_json(*v),
{
    let mut fields: Vec<(String, JsonValue)> = Vec::new();
    fields.push(("detail".to_owned(), JsonValue::Str(v.detail.clone())));
    let arr_socket_entries = {
        let mut items: Vec<JsonValue> = Vec::new();
        let mut i: usize = 0;
        while i < v.socket_entries.len()
            invariant
                i <= v.socket_entries.len(),
                items@.len() == i,
                forall|k: int| 0 <= k < i ==> jview(#[trigger] items@[k]) == destiny_item_socket_entry_definition_json(v.socket_entries@[k]),
            decreases v.socket_entries.len() - i,
        {
            items.push(encode_destiny_item_socket_entry_definition(&v.socket_entries[i]));
            i = i + 1;
        }
        JsonValue::Arr(items)
    };
    proof {
        assert(jview(arr_socket_entries)->Arr_0 =~= destiny_item_socket_block_definition_json(*v)->Obj_0[1].1->Arr_0);
    }
    fields.push(("socketEntries".to_owned(), arr_socket_entries));
    let arr_intrinsic_sockets = {
        let mut items: Vec<JsonValue> = Vec::new();
        let mut i: usize = 0;
        while i < v.intrinsic_sockets.len()
            invariant
                i <= v.intrinsic_sockets.len(),
                items@.len() == i,
                forall|k: int| 0 <= k < i ==> jview(#[trigger] items@[k]) == destiny_item_intrinsic_socket_entry_definition_json(v.intrinsic_sockets@[k]),
            decreases v.intrinsic_sockets.len() - i,
        {
            items.push(encode_destiny_item_intrinsic_socket_entry_definition(&v.intrinsic_sockets[i]));
            i = i + 1;
        }
        JsonValue::Arr(items)
    };
    proof {
        assert(jview(arr_intrinsic_sockets)->Arr_0 =~= destiny_item_socket_block_definition_json(*v)->Obj_0[2].1->Arr_0);
    }
    fields.push(("intrinsicSockets".to_owned(), arr_intrinsic_sockets));
    let arr_socket_categories = {
        let mut items: Vec<JsonValue> = Vec::new();
        let mut i: usize = 0;
        while i < v.socket_categories.len()
            invariant
                i <= v.socket_categories.len(),
                items@.len() == i,
                forall|k: int| 0 <= k < i ==> jview(#[trigger] items@[k]) == destiny_item_socket_category_definition_json(v.socket_categories@[k]),
            decreases v.socket_categories.len() - i,
        {
            items.push(encode_destiny_item_socket_category_definition(&v.socket_categories[i]));
            i = i + 1;
        }
        JsonValue::Arr(items)
    };
    proof {
        assert(jview(arr_socket_categories)->Arr_0 =~= destiny_item_socket_block_definition_json(*v)->Obj_0[3].1->Arr_0);
    }
    fields.push(("socketCategories".to_owned(), arr_socket_categories));
    let r = JsonValue::Obj(fields);
    proof {
        assert(jview(fields@[0].1) == destiny_item_socket_block_definition_json(*v)->Obj_0[0].1);
        assert(jview(fields@[1].1) == destiny_item_socket_block_definition_json(*v)->Obj_0[1].1);
        assert(jview(fields@[2].1) == destiny_item_socket_block_definition_json(*v)->Obj_0[2].1);
        assert(jview(fields@[3].1) == destiny_item_socket_block_definition_json(*v)->Obj_0[3].1);
        assert(jview(r)->Obj_0 =~= destiny_item_socket_block_definition_json(*v)->Obj_0);
    }
    r
}

/// Decodes this record; a failure names the offending field in its
/// path and says what was expected of it.
#[verifier::loop_isolation(false)]
pub fn decode_destiny_item_socket_block_definition(j: &JsonValue) -> (r: Result<DestinyItemSocketBlockDefinition, DecodeError>)
    ensures
        r is Ok <==> destiny_item_socket_block_definition_wf(jview(*j)),
        r matches Ok(w) ==> (jview(*j) matches Json::Obj(fields)
            && destiny_item_socket_block_definition_fields_match(fields, w)),
        r matches Err(e) ==> destiny_item_socket_block_definition_err_ok(jview(*j), e),
{
    let fields = match j {
        JsonValue::Obj(fields) => fields,
        _ => {
            return Err(root_error("an object"));
        },
    };
    let ghost gf = jview(*j)->Obj_0;
    let detail = match j.get("detail") {
        Some(JsonValue::Str(s)) => s.clone(),
        _ => {
            return Err(field_error("detail", "a string"));
        },
    };
    let socket_entries = match j.get("socketEntries") {
        Option::None => {
            return Err(field_error("socketEntries", "an array"));
        },
        Some(arr) => match arr {
            JsonValue::Arr(items) => {
                let ghost gitems = jview(*arr)->Arr_0;
                let mut out: Vec<DestinyItemSocketEntryDefinition> = Vec::new();
                let mut i: usize = 0;
                while i < items.len()
                    invariant
                        i <= items.len(),
                        out@.len() == i,
                        forall|k: int| 0 <= k < i
                            ==> (destiny_item_socket_entry_definition_wf(#[trigger] gitems[k])
                                && (gitems[k] matches Json::Obj(f2)
                                && destiny_item_socket_entry_definition_fields_match(f2, out@[k]))),
                    decreases items.len() - i,
                {
                    proof {
                        assert(gitems[i as int] == jview(items@[i as int]));
                    }
                    match decode_destiny_item_socket_entry_definition(&items[i]) {
                        Ok(r) => {
                            out.push(r);
                        },
                        Err(e) => {
                            return Err(indexed_error("socketEntries", i, e));
                        },
                    }
                    i = i + 1;
                }
                out
            },
            _ => {
                return Err(field_error("socketEntries", "an array"));
            },
        },
    };
    let intrinsic_sockets = match j.get("intrinsicSockets") {
        Option::None => {
            return Err(field_error("intrinsicSockets", "an array"));
        },
        Some(arr) => match arr {
            JsonValue::Arr(items) => {
                let ghost gitems = jview(*arr)->Arr_0;
                let mut out: Vec<DestinyItemIntrinsicSocketEntryDefinition> = Vec::new();
                let mut i: usize = 0;
                while i < items.len()
                    invariant
                        i <= items.len(),
                        out@.len() == i,
                        forall|k: int| 0 <= k < i
                            ==> (destiny_item_intrinsic_socket_entry_definition_wf(#[trigger] gitems[k])
                                && (gitems[k] matches Json::Obj(f2)
                                && destiny_item_intrinsic_socket_entry_definition_fields_match(f2, out@[k]))),
                    decreases items.len() - i,
                {
                    proof {
                        assert(gitems[i as int] == jview(items@[i as int]));
                    }
                    match decode_destiny_item_intrinsic_socket_entry_definition(&items[i]) {
                        Ok(r) => {
                            out.push(r);
                        },
                        Err(e) => {
                            return Err(indexed_error("intrinsicSockets", i, e));
                        },
                    }
                    i = i + 1;
                }
                out
            },
            _ => {
                return Err(field_error("intrinsicSockets", "an array"));
            },
        },
    };
    let socket_categories = match j.get("socketCategories") {
        Option::None => {
            return Err(field_error("socketCategories", "an array"));
        },
        Some(arr) => match arr {
            JsonValue::Arr(items) => {
                let ghost gitems = jview(*arr)->Arr_0;
                let mut out: Vec<DestinyItemSocketCategoryDefinition> = Vec::new();
                let mut i: usize = 0;
                while i < items.len()
                    invariant
                        i <= items.len(),
                        out@.len() == i,
                        forall|k: int| 0 <= k < i
                            ==> (destiny_item_socket_category_definition_wf(#[trigger] gitems[k])
                                && (gitems[k] matches Json::Obj(f2)
                                && destiny_item_socket_category_definition_fields_match(f2, out@[k]))),
                    decreases items.len() - i,
                {
                    proof {
                        assert(gitems[i as int] == jview(items@[i as int]));
                    }
                    match decode_destiny_item_socket_category_definition(&items[i]) {
                        Ok(r) => {
                            out.push(r);
                        },
                        Err(e) => {
                            return Err(indexed_error("socketCategories", i, e));
                        },
                    }
                    i = i + 1;
                }
                out
            },
            _ => {
                return Err(field_error("socketCategories", "an array"));
            },
        },
    };
    let mut i: usize = 0;
    while i < fields.len()
        invariant
            i <= fields.len(),
            gf.len() == fields@.len(),
            forall|k: int| 0 <= k < gf.len()
                ==> #[trigger] gf[k] == (fields@[k].0@, jview(fields@[k].1)),
            forall|k: int| 0 <= k < i
                ==> ((#[trigger] gf[k]).0 == "detail"@ || gf[k].0 == "socketEntries"@ || gf[k].0 == "intrinsicSockets"@ || gf[k].0 == "socketCategories"@),
        decreases fields.len() - i,
    {
        let name = fields[i].0.as_str();
        if !(str_eq(name, "detail") || str_eq(name, "socketEntries") || str_eq(name, "intrinsicSockets") || str_eq(name, "socketCategories")) {
            proof {
                assert(gf[i as int].0 == fields@[i as int].0@);
                assert(!destiny_item_socket_block_definition_wf(jview(*j)));
            }
            return Err(field_error(fields[i].0.as_str(), "an unknown field"));
        }
        i = i + 1;
    }
    Ok(DestinyItemSocketBlockDefinition { detail, socket_entries, intrinsic_sockets, socket_categories })
}

/// One section of the item definition, decoded on its own to
/// keep each decoding step small.
pub struct ItemDefinitionBlockFieldsA {
    pub display_properties: DestinyDisplayPropertiesDefinition,
    pub background_color: Option<DestinyColor>,
    pub action: Option<DestinyItemActionBlockDefinition>,
    pub crafting: Option<DestinyItemCraftingBlockDefinition>,
    pub inventory: DestinyItemInventoryBlockDefinition,
    pub set_data: Option<DestinyItemSetBlockDefinition>,
    pub stats: Option<DestinyItemStatBlockDefinition>,
    pub equipping_block: Option<DestinyEquippingBlockDefinition>,
    pub translation_block: Option<DestinyItemTranslationBlockDefinition>,
    pub preview: Option<DestinyItemPreviewBlockDefinition>,
    pub quality: Option<DestinyItemQualityBlockDefinition>,
}

/// The well-formedness of this section's fields.
pub open spec fn item_definition_block_fields_a_wf(fields: Seq<(Seq<char>, Json)>) -> bool {
    &&& spec_lookup(fields, "displayProperties"@) matches Some(inner) && destiny_display_properties_definition_wf(inner)
    &&& match spec_lookup(fields, "backgroundColor"@) { Option::None => true, Some(Json::Null) => true, Some(inner) => destiny_color_wf(inner) }
    &&& match spec_lookup(fields, "action"@) { Option::None => true, Some(Json::Null) => true, Some(inner) => destiny_item_action_block_definition_wf(inner) }
    &&& match spec_lookup(fields, "crafting"@) { Option::None => true, Some(Json::Null) => true, Some(inner) => destiny_item_crafting_block_definition_wf(inner) }
    &&& spec_lookup(fields, "inventory"@) matches Some(inner) && destiny_item_inventory_block_definition_wf(inner)
    &&& match spec_lookup(fields, "setData"@) { Option::None => true, Some(Json::Null) => true, Some(inner) => destiny_item_set_block_definition_wf(inner) }
    &&& match spec_lookup(fields, "stats"@) { Option::None => true, Some(Json::Null) => true, Some(inner) => destiny_item_stat_block_definition_wf(inner) }
    &&& match spec_lookup(fields, "equippingBlock"@) { Option::None => true, Some(Json::Null) => true, Some(inner) => destiny_equipping_block_definition_wf(inner) }
    &&& match spec_lookup(fields, "translationBlock"@) { Option::None => true, Some(Json::Null) => true, Some(inner) => destiny_item_translation_block_definition_wf(inner) }
    &&& match spec_lookup(fields, "preview"@) { Option::None => true, Some(Json::Null) => true, Some(inner) => destiny_item_preview_block_definition_wf(inner) }
    &&& match spec_lookup(fields, "quality"@) { Option::None => true, Some(Json::Null) => true, Some(inner) => destiny_item_quality_block_definition_wf(inner) }
}

/// How this section's decoded fields relate to the document.
pub open spec fn item_definition_block_fields_a_match(fields: Seq<(Seq<char>, Json)>, w: ItemDefinitionBlockFieldsA) -> bool {
    &&& spec_lookup(fields, "displayProperties"@) matches Some(Json::Obj(inner)) && destiny_display_properties_definition_fields_match(inner, w.display_properties)
    &&& match w.background_color { Some(x) => spec_lookup(fields, "backgroundColor"@) matches Some(Json::Obj(f2)) && destiny_color_fields_match(f2, x), Option::None => spec_lookup(fields, "backgroundColor"@) is None || spec_lookup(fields, "backgroundColor"@) == Some(Json::Null) }
    &&& match w.action { Some(x) => spec_lookup(fields, "action"@) matches Some(Json::Obj(f2)) && destiny_item_action_block_definition_fields_match(f2, x), Option::None => spec_lookup(fields, "action"@) is None || spec_lookup(fields, "action"@) == Some(Json::Null) }
    &&& match w.crafting { Some(x) => spec_lookup(fields, "crafting"@) matches Some(Json::Obj(f2)) && destiny_item_crafting_block_definition_fields_match(f2, x), Option::None => spec_lookup(fields, "crafting"@) is None || spec_lookup(fields, "crafting"@) == Some(Json::Null) }
    &&& spec_lookup(fields, "inventory"@) matches Some(Json::Obj(inner)) && destiny_item_inventory_block_definition_fields_match(inner, w.inventory)
    &&& match w.set_data { Some(x) => spec_lookup(fields, "setData"@) matches Some(Json::Obj(f2)) && destiny_item_set_block_definition_fields_match(f2, x), Option::None => spec_lookup(fields, "setData"@) is None || spec_lookup(fields, "setData"@) == Some(Json::Null) }
    &&& match w.stats { Some(x) => spec_lookup(fields, "stats"@) matches Some(Json::Obj(f2)) && destiny_item_stat_block_definition_fields_match(f2, x), Option::None => spec_lookup(fields, "stats"@) is None || spec_lookup(fields, "stats"@) == Some(Json::Null) }
    &&& match w.equipping_block { Some(x) => spec_lookup(fields, "equippingBlock"@) matches Some(Json::Obj(f2)) && destiny_equipping_block_definition_fields_match(f2, x), Option::None => spec_lookup(fields, "equippingBlock"@) is None || spec_lookup(fields, "equippingBlock"@) == Some(Json::Null) }
    &&& match w.translation_block { Some(x) => spec_lookup(fields, "translationBlock"@) matches Some(Json::Obj(f2)) && destiny_item_translation_block_definition_fields_match(f2, x), Option::None => spec_lookup(fields, "translationBlock"@) is None || spec_lookup(fields, "translationBlock"@) == Some(Json::Null) }
    &&& match w.preview { Some(x) => spec_lookup(fields, "preview"@) matches Some(Json::Obj(f2)) && destiny_item_preview_block_definition_fields_match(f2, x), Option::None => spec_lookup(fields, "preview"@) is None || spec_lookup(fields, "preview"@) == Some(Json::Null) }
    &&& match w.quality { Some(x) => spec_lookup(fields, "quality"@) matches Some(Json::Obj(f2)) && destiny_item_quality_block_definition_fields_match(f2, x), Option::None => spec_lookup(fields, "quality"@) is None || spec_lookup(fields, "quality"@) == Some(Json::Null) }
}

#[verifier::loop_isolation(false)]
#[verifier::rlimit(100)]
#[verifier::spinoff_prover]
fn decode_item_definition_block_fields_a(j: &JsonValue) -> (r: Result<ItemDefinitionBlockFieldsA, DecodeError>)
    ensures
        r is Ok <==> (jview(*j) matches Json::Obj(fields) && item_definition_block_fields_a_wf(fields)),
        r matches Ok(w) ==> (jview(*j) matches Json::Obj(fields)
            && item_definition_block_fields_a_match(fields, w)),
{
    let fields = match j {
        JsonValue::Obj(fields) => fields,
        _ => {
            return Err(root_error("an object"));
        },
    };
    let ghost gf = jview(*j)->Obj_0;
    let display_properties = match j.get("displayProperties") {
        Some(inner) => match decode_destiny_display_properties_definition(inner) {
            Ok(r) => r,
            Err(e) => {
                return Err(nested_error("displayProperties", e));
            },
        },
        _ => {
            return Err(field_error("displayProperties", "an object"));
        },
    };
    let background_color = match j.get("backgroundColor") {
        Option::None => Option::None,
        Some(JsonValue::Null) => Option::None,
        Some(inner) => match decode_destiny_color(inner) {
            Ok(r) => Some(r),
            Err(e) => {
                return Err(nested_error("backgroundColor", e));
            },
        },
    };
    let action = match j.get("action") {
        Option::None => Option::None,
        Some(JsonValue::Null) => Option::None,
        Some(inner) => match decode_destiny_item_action_block_definition(inner) {
            Ok(r) => Some(r),
            Err(e) => {
                return Err(nested_error("action", e));
            },
        },
    };
    let crafting = match j.get("crafting") {
        Option::None => Option::None,
        Some(JsonValue::Null) => Option::None,
        Some(inner) => match decode_destiny_item_crafting_block_definition(inner) {
            Ok(r) => Some(r),
            Err(e) => {
                return Err(nested_error("crafting", e));
            },
        },
    };
    let inventory = match j.get("inventory") {
        Some(inner) => match decode_destiny_item_inventory_block_definition(inner) {
            Ok(r) => r,
            Err(e) => {
                return Err(nested_error("inventory", e));
            },
        },
        _ => {
            return Err(field_error("inventory", "an object"));
        },
    };
    let set_data = match j.get("setData") {
        Option::None => Option::None,
        Some(JsonValue::Null) => Option::None,
        Some(inner) => match decode_destiny_item_set_block_definition(inner) {
            Ok(r) => Some(r),
            Err(e) => {
                return Err(nested_error("setData", e));
            },
        },
    };
    let stats = match j.get("stats") {
        Option::None => Option::None,
        Some(JsonValue::Null) => Option::None,
        Some(inner) => match decode_destiny_item_stat_block_definition(inner) {
            Ok(r) => Some(r),
            Err(e) => {
                return Err(nested_error("stats", e));
            },
        },
    };
    let equipping_block = match j.get("equippingBlock") {
        Option::None => Option::None,
        Some(JsonValue::Null) => Option::None,
        Some(inner) => match decode_destiny_equipping_block_definition(inner) {
            Ok(r) => Some(r),
            Err(e) => {
                return Err(nested_error("equippingBlock", e));
            },
        },
    };
    let translation_block = match j.get("translationBlock") {
        Option::None => Option::None,
        Some(JsonValue::Null) => Option::None,
        Some(inner) => match decode_destiny_item_translation_block_definition(inner) {
            Ok(r) => Some(r),
            Err(e) => {
                return Err(nested_error("translationBlock", e));
            },
        },
    };
    let preview = match j.get("preview") {
        Option::None => Option::None,
        Some(JsonValue::Null) => Option::None,
        Some(inner) => match decode_destiny_item_preview_block_definition(inner) {
            Ok(r) => Some(r),
            Err(e) => {
                return Err(nested_error("preview", e));
            },
        },
    };
    let quality = match j.get("quality") {
        Option::None => Option::None,
        Some(JsonValue::Null) => Option::None,
        Some(inner) => match decode_destiny_item_quality_block_definition(inner) {
            Ok(r) => Some(r),
            Err(e) => {
                return Err(nested_error("quality", e));
            },
        },
    };
    Ok(ItemDefinitionBlockFieldsA { display_properties, background_color, action, crafting, inventory, set_data, stats, equipping_block, translation_block, preview, quality })
}

/// One section of the item definition, decoded on its own to
/// keep each decoding step small.
pub struct ItemDefinitionBlockFieldsB {
    pub value: Option<DestinyItemValueBlockDefinition>,
    pub source_data: Option<DestinyItemSourceBlockDefinition>,
    pub objectives: Option<DestinyItemObjectiveBlockDefinition>,
    pub metrics: Option<DestinyItemMetricBlockDefinition>,
    pub plug: Option<DestinyItemPlugDefinition>,
    pub gearset: Option<DestinyItemGearsetBlockDefinition>,
    pub sack: Option<DestinyItemSackBlockDefinition>,
    pub sockets: Option<DestinyItemSocketBlockDefinition>,
    pub summary: Option<DestinyItemSummaryBlockDefinition>,
    pub talent_grid: Option<DestinyItemTalentGridBlockDefinition>,
}

/// The well-formedness of this section's fields.
pub open spec fn item_definition_block_fields_b_wf(fields: Seq<(Seq<char>, Json)>) -> bool {
    &&& match spec_lookup(fields, "value"@) { Option::None => true, Some(Json::Null) => true, Some(inner) => destiny_item_value_block_definition_wf(inner) }
    &&& match spec_lookup(fields, "sourceData"@) { Option::None => true, Some(Json::Null) => true, Some(inner) => destiny_item_source_block_definition_wf(inner) }
    &&& match spec_lookup(fields, "objectives"@) { Option::None => true, Some(Json::Null) => true, Some(inner) => destiny_item_objective_block_definition_wf(inner) }
    &&& match spec_lookup(fields, "metrics"@) { Option::None => true, Some(Json::Null) => true, Some(inner) => destiny_item_metric_block_definition_wf(inner) }
    &&& match spec_lookup(fields, "plug"@) { Option::None => true, Some(Json::Null) => true, Some(inner) => destiny_item_plug_definition_wf(inner) }
    &&& match spec_lookup(fields, "gearset"@) { Option::None => true, Some(Json::Null) => true, Some(inner) => destiny_item_gearset_block_definition_wf(inner) }
    &&& match spec_lookup(fields, "sack"@) { Option::None => true, Some(Json::Null) => true, Some(inner) => destiny_item_sack_block_definition_wf(inner) }
    &&& match spec_lookup(fields, "sockets"@) { Option::None => true, Some(Json::Null) => true, Some(inner) => destiny_item_socket_block_definition_wf(inner) }
    &&& match spec_lookup(fields, "summary"@) { Option::None => true, Some(Json::Null) => true, Some(inner) => destiny_item_summary_block_definition_wf(inner) }
    &&& match spec_lookup(fields, "talentGrid"@) { Option::None => true, Some(Json::Null) => true, Some(inner) => destiny_item_talent_grid_block_definition_wf(inner) }
}

/// How this section's decoded fields relate to the document.
pub open spec fn item_definition_block_fields_b_match(fields: Seq<(Seq<char>, Json)>, w: ItemDefinitionBlockFieldsB) -> bool {
    &&& match w.value { Some(x) => spec_lookup(fields, "value"@) matches Some(Json::Obj(f2)) && destiny_item_value_block_definition_fields_match(f2, x), Option::None => spec_lookup(fields, "value"@) is None || spec_lookup(fields, "value"@) == Some(Json::Null) }
    &&& match w.source_data { Some(x) => spec_lookup(fields, "sourceData"@) matches Some(Json::Obj(f2)) && destiny_item_source_block_definition_fields_match(f2, x), Option::None => spec_lookup(fields, "sourceData"@) is None || spec_lookup(fields, "sourceData"@) == Some(Json::Null) }
    &&& match w.objectives { Some(x) => spec_lookup(fields, "objectives"@) matches Some(Json::Obj(f2)) && destiny_item_objective_block_definition_fields_match(f2, x), Option::None => spec_lookup(fields, "objectives"@) is None || spec_lookup(fields, "objectives"@) == Some(Json::Null) }
    &&& match w.metrics { Some(x) => spec_lookup(fields, "metrics"@) matches Some(Json::Obj(f2)) && destiny_item_metric_block_definition_fields_match(f2, x), Option::None => spec_lookup(fields, "metrics"@) is None || spec_lookup(fields, "metrics"@) == Some(Json::Null) }
    &&& match w.plug { Some(x) => spec_lookup(fields, "plug"@) matches Some(Json::Obj(f2)) && destiny_item_plug_definition_fields_match(f2, x), Option::None => spec_lookup(fields, "plug"@) is None || spec_lookup(fields, "plug"@) == Some(Json::Null) }
    &&& match w.gearset { Some(x) => spec_lookup(fields, "gearset"@) matches Some(Json::Obj(f2)) && destiny_item_gearset_block_definition_fields_match(f2, x), Option::None => spec_lookup(fields, "gearset"@) is None || spec_lookup(fields, "gearset"@) == Some(Json::Null) }
    &&& match w.sack { Some(x) => spec_lookup(fields, "sack"@) matches Some(Json::Obj(f2)) && destiny_item_sack_block_definition_fields_match(f2, x), Option::None => spec_lookup(fields, "sack"@) is None || spec_lookup(fields, "sack"@) == Some(Json::Null) }
    &&& match w.sockets { Some(x) => spec_lookup(fields, "sockets"@) matches Some(Json::Obj(f2)) && destiny_item_socket_block_definition_fields_match(f2, x), Option::None => spec_lookup(fields, "sockets"@) is None || spec_lookup(fields, "sockets"@) == Some(Json::Null) }
    &&& match w.summary { Some(x) => spec_lookup(fields, "summary"@) matches Some(Json::Obj(f2)) && destiny_item_summary_block_definition_fields_match(f2, x), Option::None => spec_lookup(fields, "summary"@) is None || spec_lookup(fields, "summary"@) == Some(Json::Null) }
    &&& match w.talent_grid { Some(x) => spec_lookup(fields, "talentGrid"@) matches Some(Json::Obj(f2)) && destiny_item_talent_grid_block_definition_fields_match(f2, x), Option::None => spec_lookup(fields, "talentGrid"@) is None || spec_lookup(fields, "talentGrid"@) == Some(Json::Null) }
}

#[verifier::loop_isolation(false)]
#[verifier::rlimit(100)]
#[verifier::spinoff_prover]
fn decode_item_definition_block_fields_b(j: &JsonValue) -> (r: Result<ItemDefinitionBlockFieldsB, DecodeError>)
    ensures
        r is Ok <==> (jview(*j) matches Json::Obj(fields) && item_definition_block_fields_b_wf(fields)),
        r matches Ok(w) ==> (jview(*j) matches Json::Obj(fields)
            && item_definition_block_fields_b_match(fields, w)),
{
    let fields = match j {
        JsonValue::Obj(fields) => fields,
        _ => {
            return Err(root_error("an object"));
        },
    };
    let ghost gf = jview(*j)->Obj_0;
    let value = match j.get("value") {
        Option::None => Option::None,
        Some(JsonValue::Null) => Option::None,
        Some(inner) => match decode_destiny_item_value_block_definition(inner) {
            Ok(r) => Some(r),
            Err(e) => {
                return Err(nested_error("value", e));
            },
        },
    };
    let source_data = match j.get("sourceData") {
        Option::None => Option::None,
        Some(JsonValue::Null) => Option::None,
        Some(inner) => match decode_destiny_item_source_block_definition(inner) {
            Ok(r) => Some(r),
            Err(e) => {
                return Err(nested_error("sourceData", e));
            },
        },
    };
    let objectives = match j.get("objectives") {
        Option::None => Option::None,
        Some(JsonValue::Null) => Option::None,
        Some(inner) => match decode_destiny_item_objective_block_definition(inner) {
            Ok(r) => Some(r),
            Err(e) => {
                return Err(nested_error("objectives", e));
            },
        },
    };
    let metrics = match j.get("metrics") {
        Option::None => Option::None,
        Some(JsonValue::Null) => Option::None,
        Some(inner) => match decode_destiny_item_metric_block_definition(inner) {
            Ok(r) => Some(r),
            Err(e) => {
                return Err(nested_error("metrics", e));
            },
        },
    };
    let plug = match j.get("plug") {
        Option::None => Option::None,
        Some(JsonValue::Null) => Option::None,
        Some(inner) => match decode_destiny_item_plug_definition(inner) {
            Ok(r) => Some(r),
            Err(e) => {
                return Err(nested_error("plug", e));
            },
        },
    };
    let gearset = match j.get("gearset") {
        Option::None => Option::None,
        Some(JsonValue::Null) => Option::None,
        Some(inner) => match decode_destiny_item_gearset_block_definition(inner) {
            Ok(r) => Some(r),
            Err(e) => {
                return Err(nested_error("gearset", e));
            },
        },
    };
    let sack = match j.get("sack") {
        Option::None => Option::None,
        Some(JsonValue::Null) => Option::None,
        Some(inner) => match decode_destiny_item_sack_block_definition(inner) {
            Ok(r) => Some(r),
            Err(e) => {
                return Err(nested_error("sack", e));
            },
        },
    };
    let sockets = match j.get("sockets") {
        Option::None => Option::None,
        Some(JsonValue::Null) => Option::None,
        Some(inner) => match decode_destiny_item_socket_block_definition(inner) {
            Ok(r) => Some(r),
            Err(e) => {
                return Err(nested_error("sockets", e));
            },
        },
    };
    let summary = match j.get("summary") {
        Option::None => Option::None,
        Some(JsonValue::Null) => Option::None,
        Some(inner) => match decode_destiny_item_summary_block_definition(inner) {
            Ok(r) => Some(r),
            Err(e) => {
                return Err(nested_error("summary", e));
            },
        },
    };
    let talent_grid = match j.get("talentGrid") {
        Option::None => Option::None,
        Some(JsonValue::Null) => Option::None,
        Some(inner) => match decode_destiny_item_talent_grid_block_definition(inner) {
            Ok(r) => Some(r),
            Err(e) => {
                return Err(nested_error("talentGrid", e));
            },
        },
    };
    Ok(ItemDefinitionBlockFieldsB { value, source_data, objectives, metrics, plug, gearset, sack, sockets, summary, talent_grid })
}

/// One section of the item definition, decoded on its own to
/// keep each decoding step small.
pub struct ItemDefinitionListFields {
    pub tooltip_notifications: Vec<DestinyItemTooltipNotification>,
    pub investment_stats: Vec<DestinyItemInvestmentStatDefinition>,
    pub perks: Vec<DestinyItemPerkEntryDefinition>,
    pub animations: Vec<DestinyAnimationReference>,
    pub links: Vec<HyperlinkReference>,
    pub item_category_hashes: Vec<u32>,
    pub damage_type_hashes: Vec<u32>,
    pub trait_ids: Vec<String>,
    pub trait_hashes: Vec<u32>,
}

/// The well-formedness of this section's fields.
pub open spec fn item_definition_list_fields_wf(fields: Seq<(Seq<char>, Json)>) -> bool {
    &&& match spec_lookup(fields, "tooltipNotifications"@) { Option::None => true, Some(Json::Arr(items)) => forall|i: int| 0 <= i < items.len() ==> destiny_item_tooltip_notification_wf(#[trigger] items[i]), _ => false }
    &&& match spec_lookup(fields, "investmentStats"@) { Option::None => true, Some(Json::Arr(items)) => forall|i: int| 0 <= i < items.len() ==> destiny_item_investment_stat_definition_wf(#[trigger] items[i]), _ => false }
    &&& match spec_lookup(fields, "perks"@) { Option::None => true, Some(Json::Arr(items)) => forall|i: int| 0 <= i < items.len() ==> destiny_item_perk_entry_definition_wf(#[trigger] items[i]), _ => false }
    &&& match spec_lookup(fields, "animations"@) { Option::None => true, Some(Json::Arr(items)) => forall|i: int| 0 <= i < items.len() ==> destiny_animation_reference_wf(#[trigger] items[i]), _ => false }
    &&& match spec_lookup(fields, "links"@) { Option::None => true, Some(Json::Arr(items)) => forall|i: int| 0 <= i < items.len() ==> hyperlink_reference_wf(#[trigger] items[i]), _ => false }
    &&& match spec_lookup(fields, "itemCategoryHashes"@) { Option::None => true, Some(Json::Arr(items)) => forall|i: int| 0 <= i < items.len() ==> ((#[trigger] items[i]) matches Json::Int(n) && 0 <= n <= u32::MAX as int), _ => false }
    &&& match spec_lookup(fields, "damageTypeHashes"@) { Option::None => true, Some(Json::Arr(items)) => forall|i: int| 0 <= i < items.len() ==> ((#[trigger] items[i]) matches Json::Int(n) && 0 <= n <= u32::MAX as int), _ => false }
    &&& match spec_lookup(fields, "traitIds"@) { Option::None => true, Some(Json::Arr(items)) => forall|i: int| 0 <= i < items.len() ==> (#[trigger] items[i]) is Str, _ => false }
    &&& match spec_lookup(fields, "traitHashes"@) { Option::None => true, Some(Json::Arr(items)) => forall|i: int| 0 <= i < items.len() ==> ((#[trigger] items[i]) matches Json::Int(n) && 0 <= n <= u32::MAX as int), _ => false }
}

/// How this section's decoded fields relate to the document.
pub open spec fn item_definition_list_fields_match(fields: Seq<(Seq<char>, Json)>, w: ItemDefinitionListFields) -> bool {
    &&& match spec_lookup(fields, "tooltipNotifications"@) { Option::None => w.tooltip_notifications@.len() == 0, Some(Json::Arr(items)) => w.tooltip_notifications@.len() == items.len() && (forall|i: int| 0 <= i < items.len() ==> ((#[trigger] items[i]) matches Json::Obj(f2) && destiny_item_tooltip_notification_fields_match(f2, w.tooltip_notifications@[i]))), _ => false }
    &&& match spec_lookup(fields, "investmentStats"@) { Option::None => w.investment_stats@.len() == 0, Some(Json::Arr(items)) => w.investment_stats@.len() == items.len() && (forall|i: int| 0 <= i < items.len() ==> ((#[trigger] items[i]) matches Json::Obj(f2) && destiny_item_investment_stat_definition_fields_match(f2, w.investment_stats@[i]))), _ => false }
    &&& match spec_lookup(fields, "perks"@) { Option::None => w.perks@.len() == 0, Some(Json::Arr(items)) => w.perks@.len() == items.len() && (forall|i: int| 0 <= i < items.len() ==> ((#[trigger] items[i]) matches Json::Obj(f2) && destiny_item_perk_entry_definition_fields_match(f2, w.perks@[i]))), _ => false }
    &&& match spec_lookup(fields, "animations"@) { Option::None => w.animations@.len() == 0, Some(Json::Arr(items)) => w.animations@.len() == items.len() && (forall|i: int| 0 <= i < items.len() ==> ((#[trigger] items[i]) matches Json::Obj(f2) && destiny_animation_reference_fields_match(f2, w.animations@[i]))), _ => false }
    &&& match spec_lookup(fields, "links"@) { Option::None => w.links@.len() == 0, Some(Json::Arr(items)) => w.links@.len() == items.len() && (forall|i: int| 0 <= i < items.len() ==> ((#[trigger] items[i]) matches Json::Obj(f2) && hyperlink_reference_fields_match(f2, w.links@[i]))), _ => false }
    &&& match spec_lookup(fields, "itemCategoryHashes"@) { Option::None => w.item_category_hashes@.len() == 0, Some(Json::Arr(items)) => w.item_category_hashes@.len() == items.len() && (forall|i: int| 0 <= i < items.len() ==> (#[trigger] items[i]) == Json::Int(w.item_category_hashes@[i] as int)), _ => false }
    &&& match spec_lookup(fields, "damageTypeHashes"@) { Option::None => w.damage_type_hashes@.len() == 0, Some(Json::Arr(items)) => w.damage_type_hashes@.len() == items.len() && (forall|i: int| 0 <= i < items.len() ==> (#[trigger] items[i]) == Json::Int(w.damage_type_hashes@[i] as int)), _ => false }
    &&& match spec_lookup(fields, "traitIds"@) { Option::None => w.trait_ids@.len() == 0, Some(Json::Arr(items)) => w.trait_ids@.len() == items.len() && (forall|i: int| 0 <= i < items.len() ==> (#[trigger] items[i]) == Json::Str(w.trait_ids@[i]@)), _ => false }
    &&& match spec_lookup(fields, "traitHashes"@) { Option::None => w.trait_hashes@.len() == 0, Some(Json::Arr(items)) => w.trait_hashes@.len() == items.len() && (forall|i: int| 0 <= i < items.len() ==> (#[trigger] items[i]) == Json::Int(w.trait_hashes@[i] as int)), _ => false }
}

#[verifier::loop_isolation(false)]
#[verifier::rlimit(100)]
#[verifier::spinoff_prover]
fn decode_item_definition_list_fields(j: &JsonValue) -> (r: Result<ItemDefinitionListFields, DecodeError>)
    ensures
        r is Ok <==> (jview(*j) matches Json::Obj(fields) && item_definition_list_fields_wf(fields)),
        r matches Ok(w) ==> (jview(*j) matches Json::Obj(fields)
            && item_definition_list_fields_match(fields, w)),
{
    let fields = match j {
        JsonValue::Obj(fields) => fields,
        _ => {
            return Err(root_error("an object"));
        },
    };
    let ghost gf = jview(*j)->Obj_0;
    let tooltip_notifications = match j.get("tooltipNotifications") {
        Option::None => Vec::new(),
        Some(arr) => match arr {
            JsonValue::Arr(items) => {
                let ghost gitems = jview(*arr)->Arr_0;
                let mut out: Vec<DestinyItemTooltipNotification> = Vec::new();
                let mut i: usize = 0;
                while i < items.len()
                    invariant
                        i <= items.len(),
                        out@.len() == i,
                        forall|k: int| 0 <= k < i
                            ==> (destiny_item_tooltip_notification_wf(#[trigger] gitems[k])
                                && (gitems[k] matches Json::Obj(f2)
                                && destiny_item_tooltip_notification_fields_match(f2, out@[k]))),
                    decreases items.len() - i,
                {
                    proof {
                        assert(gitems[i as int] == jview(items@[i as int]));
                    }
                    match decode_destiny_item_tooltip_notification(&items[i]) {
                        Ok(r) => {
                            out.push(r);
                        },
                        Err(e) => {
                            return Err(indexed_error("tooltipNotifications", i, e));
                        },
                    }
                    i = i + 1;
                }
                out
            },
            _ => {
                return Err(field_error("tooltipNotifications", "an array"));
            },
        },
    };
    let investment_stats = match j.get("investmentStats") {
        Option::None => Vec::new(),
        Some(arr) => match arr {
            JsonValue::Arr(items) => {
                let ghost gitems = jview(*arr)->Arr_0;
                let mut out: Vec<DestinyItemInvestmentStatDefinition> = Vec::new();
                let mut i: usize = 0;
                while i < items.len()
                    invariant
                        i <= items.len(),
                        out@.len() == i,
                        forall|k: int| 0 <= k < i
                            ==> (destiny_item_investment_stat_definition_wf(#[trigger] gitems[k])
                                && (gitems[k] matches Json::Obj(f2)
                                && destiny_item_investment_stat_definition_fields_match(f2, out@[k]))),
                    decreases items.len() - i,
                {
                    proof {
                        assert(gitems[i as int] == jview(items@[i as int]));
                    }
                    match decode_destiny_item_investment_stat_definition(&items[i]) {
                        Ok(r) => {
                            out.push(r);
                        },
                        Err(e) => {
                            return Err(indexed_error("investmentStats", i, e));
                        },
                    }
                    i = i + 1;
                }
                out
            },
            _ => {
                return Err(field_error("investmentStats", "an array"));
            },
        },
    };
    let perks = match j.get("perks") {
        Option::None => Vec::new(),
        Some(arr) => match arr {
            JsonValue::Arr(items) => {
                let ghost gitems = jview(*arr)->Arr_0;
                let mut out: Vec<DestinyItemPerkEntryDefinition> = Vec::new();
                let mut i: usize = 0;
                while i < items.len()
                    invariant
                        i <= items.len(),
                        out@.len() == i,
                        forall|k: int| 0 <= k < i
                            ==> (destiny_item_perk_entry_definition_wf(#[trigger] gitems[k])
                                && (gitems[k] matches Json::Obj(f2)
                                && destiny_item_perk_entry_definition_fields_match(f2, out@[k]))),
                    decreases items.len() - i,
                {
                    proof {
                        assert(gitems[i as int] == jview(items@[i as int]));
                    }
                    match decode_destiny_item_perk_entry_definition(&items[i]) {
                        Ok(r) => {
                            out.push(r);
                        },
                        Err(e) => {
                            return Err(indexed_error("perks", i, e));
                        },
                    }
                    i = i + 1;
                }
                out
            },
            _ => {
                return Err(field_error("perks", "an array"));
            },
        },
    };
    let animations = match j.get("animations") {
        Option::None => Vec::new(),
        Some(arr) => match arr {
            JsonValue::Arr(items) => {
                let ghost gitems = jview(*arr)->Arr_0;
                let mut out: Vec<DestinyAnimationReference> = Vec::new();
                let mut i: usize = 0;
                while i < items.len()
                    invariant
                        i <= items.len(),
                        out@.len() == i,
                        forall|k: int| 0 <= k < i
                            ==> (destiny_animation_reference_wf(#[trigger] gitems[k])
                                && (gitems[k] matches Json::Obj(f2)
                                && destiny_animation_reference_fields_match(f2, out@[k]))),
                    decreases items.len() - i,
                {
                    proof {
                        assert(gitems[i as int] == jview(items@[i as int]));
                    }
                    match decode_destiny_animation_reference(&items[i]) {
                        Ok(r) => {
                            out.push(r);
                        },
                        Err(e) => {
                            return Err(indexed_error("animations", i, e));
                        },
                    }
                    i = i + 1;
                }
                out
            },
            _ => {
                return Err(field_error("animations", "an array"));
            },
        },
    };
    let links = match j.get("links") {
        Option::None => Vec::new(),
        Some(arr) => match arr {
            JsonValue::Arr(items) => {
                let ghost gitems = jview(*arr)->Arr_0;
                let mut out: Vec<HyperlinkReference> = Vec::new();
                let mut i: usize = 0;
                while i < items.len()
                    invariant
                        i <= items.len(),
                        out@.len() == i,
                        forall|k: int| 0 <= k < i
                            ==> (hyperlink_reference_wf(#[trigger] gitems[k])
                                && (gitems[k] matches Json::Obj(f2)
                                && hyperlink_reference_fields_match(f2, out@[k]))),
                    decreases items.len() - i,
                {
                    proof {
                        assert(gitems[i as int] == jview(items@[i as int]));
                    }
                    match decode_hyperlink_reference(&items[i]) {
                        Ok(r) => {
                            out.push(r);
                        },
                        Err(e) => {
                            return Err(indexed_error("links", i, e));
                        },
                    }
                    i = i + 1;
                }
                out
            },
            _ => {
                return Err(field_error("links", "an array"));
            },
        },
    };
    let item_category_hashes = match j.get("itemCategoryHashes") {
        Option::None => Vec::new(),
        Some(arr) => match arr {
            JsonValue::Arr(items) => {
                let ghost gitems = jview(*arr)->Arr_0;
                let mut out: Vec<u32> = Vec::new();
                let mut i: usize = 0;
                while i < items.len()
                    invariant
                        i <= items.len(),
                        out@.len() == i,
                        forall|k: int| 0 <= k < i ==> (#[trigger] gitems[k]) == Json::Int(out@[k] as int),
                    decreases items.len() - i,
                {
                    proof {
                        assert(gitems[i as int] == jview(items@[i as int]));
                    }
                    let n = match items[i].to_i64() {
                        Some(n) if 0 <= n && n <= u32::MAX as i64 => n,
                        _ => {
                            return Err(indexed_error("itemCategoryHashes", i, field_error("", "a 32-bit unsigned integer")));
                        },
                    };
                    out.push(n as u32);
                    i = i + 1;
                }
                out
            },
            _ => {
                return Err(field_error("itemCategoryHashes", "an array"));
            },
        },
    };
    let damage_type_hashes = match j.get("damageTypeHashes") {
        Option::None => Vec::new(),
        Some(arr) => match arr {
            JsonValue::Arr(items) => {
                let ghost gitems = jview(*arr)->Arr_0;
                let mut out: Vec<u32> = Vec::new();
                let mut i: usize = 0;
                while i < items.len()
                    invariant
                        i <= items.len(),
                        out@.len() == i,
                        forall|k: int| 0 <= k < i ==> (#[trigger] gitems[k]) == Json::Int(out@[k] as int),
                    decreases items.len() - i,
                {
                    proof {
                        assert(gitems[i as int] == jview(items@[i as int]));
                    }
                    let n = match items[i].to_i64() {
                        Some(n) if 0 <= n && n <= u32::MAX as i64 => n,
                        _ => {
                            return Err(indexed_error("damageTypeHashes", i, field_error("", "a 32-bit unsigned integer")));
                        },
                    };
                    out.push(n as u32);
                    i = i + 1;
                }
                out
            },
            _ => {
                return Err(field_error("damageTypeHashes", "an array"));
            },
        },
    };
    let trait_ids = match j.get("traitIds") {
        Option::None => Vec::new(),
        Some(arr) => match arr {
            JsonValue::Arr(items) => {
                let ghost gitems = jview(*arr)->Arr_0;
                let mut out: Vec<String> = Vec::new();
                let mut i: usize = 0;
                while i < items.len()
                    invariant
                        i <= items.len(),
                        out@.len() == i,
                        forall|k: int| 0 <= k < i ==> (#[trigger] gitems[k]) == Json::Str(out@[k]@),
                    decreases items.len() - i,
                {
                    proof {
                        assert(gitems[i as int] == jview(items@[i as int]));
                    }
                    match &items[i] {
                        JsonValue::Str(s) => {
                            out.push(s.clone());
                        },
                        _ => {
                            return Err(indexed_error("traitIds", i, field_error("", "a string")));
                        },
                    }
                    i = i + 1;
                }
                out
            },
            _ => {
                return Err(field_error("traitIds", "an array"));
            },
        },
    };
    let trait_hashes = match j.get("traitHashes") {
        Option::None => Vec::new(),
        Some(arr) => match arr {
            JsonValue::Arr(items) => {
                let ghost gitems = jview(*arr)->Arr_0;
                let mut out: Vec<u32> = Vec::new();
                let mut i: usize = 0;
                while i < items.len()
                    invariant
                        i <= items.len(),
                        out@.len() == i,
                        forall|k: int| 0 <= k < i ==> (#[trigger] gitems[k]) == Json::Int(out@[k] as int),
                    decreases items.len() - i,
                {
                    proof {
                        assert(gitems[i as int] == jview(items@[i as int]));
                    }
                    let n = match items[i].to_i64() {
                        Some(n) if 0 <= n && n <= u32::MAX as i64 => n,
                        _ => {
                            return Err(indexed_error("traitHashes", i, field_error("", "a 32-bit unsigned integer")));
                        },
                    };
                    out.push(n as u32);
                    i = i + 1;
                }
                out
            },
            _ => {
                return Err(field_error("traitHashes", "an array"));
            },
        },
    };
    Ok(ItemDefinitionListFields { tooltip_notifications, investment_stats, perks, animations, links, item_category_hashes, damage_type_hashes, trait_ids, trait_hashes })
}

/// One section of the item definition, decoded on its own to
/// keep each decoding step small.
pub struct ItemDefinitionCategoryFields {
    pub damage_types: Vec<DamageType>,
    pub special_item_type: SpecialItemType,
    pub item_type: DestinyItemType,
    pub item_sub_type: DestinyItemSubType,
    pub class_type: DestinyClass,
    pub breaker_type: DestinyBreakerType,
    pub default_damage_type: DamageType,
    pub collectible_hash: Option<u32>,
}

/// The well-formedness of this section's fields.
pub open spec fn item_definition_category_fields_wf(fields: Seq<(Seq<char>, Json)>) -> bool {
    &&& match spec_lookup(fields, "damageTypes"@) { Option::None => true, Some(Json::Arr(items)) => forall|i: int| 0 <= i < items.len() ==> ((#[trigger] items[i]) matches Json::Int(n) && DamageType::spec_from_code(n) is Some), _ => false }
    &&& spec_lookup(fields, "specialItemType"@) matches Some(Json::Int(n)) && SpecialItemType::spec_from_code(n) is Some
    &&& spec_lookup(fields, "itemType"@) matches Some(Json::Int(n)) && DestinyItemType::spec_from_code(n) is Some
    &&& spec_lookup(fields, "itemSubType"@) matches Some(Json::Int(n)) && DestinyItemSubType::spec_from_code(n) is Some
    &&& spec_lookup(fields, "classType"@) matches Some(Json::Int(n)) && DestinyClass::spec_from_code(n) is Some
    &&& spec_lookup(fields, "breakerType"@) matches Some(Json::Int(n)) && DestinyBreakerType::spec_from_code(n) is Some
    &&& spec_lookup(fields, "defaultDamageType"@) matches Some(Json::Int(n)) && DamageType::spec_from_code(n) is Some
    &&& match spec_lookup(fields, "collectibleHash"@) { Option::None => true, Some(Json::Null) => true, Some(Json::Int(n)) => 0 <= n <= u32::MAX as int, _ => false }
}

/// How this section's decoded fields relate to the document.
pub open spec fn item_definition_category_fields_match(fields: Seq<(Seq<char>, Json)>, w: ItemDefinitionCategoryFields) -> bool {
    &&& match spec_lookup(fields, "damageTypes"@) { Option::None => w.damage_types@.len() == 0, Some(Json::Arr(items)) => w.damage_types@.len() == items.len() && (forall|i: int| 0 <= i < items.len() ==> ((#[trigger] items[i]) matches Json::Int(n) && Some(w.damage_types@[i]) == DamageType::spec_from_code(n))), _ => false }
    &&& spec_lookup(fields, "specialItemType"@) matches Some(Json::Int(n)) && Some(w.special_item_type) == SpecialItemType::spec_from_code(n)
    &&& spec_lookup(fields, "itemType"@) matches Some(Json::Int(n)) && Some(w.item_type) == DestinyItemType::spec_from_code(n)
    &&& spec_lookup(fields, "itemSubType"@) matches Some(Json::Int(n)) && Some(w.item_sub_type) == DestinyItemSubType::spec_from_code(n)
    &&& spec_lookup(fields, "classType"@) matches Some(Json::Int(n)) && Some(w.class_type) == DestinyClass::spec_from_code(n)
    &&& spec_lookup(fields, "breakerType"@) matches Some(Json::Int(n)) && Some(w.breaker_type) == DestinyBreakerType::spec_from_code(n)
    &&& spec_lookup(fields, "defaultDamageType"@) matches Some(Json::Int(n)) && Some(w.default_damage_type) == DamageType::spec_from_code(n)
    &&& match w.collectible_hash { Some(x) => spec_lookup(fields, "collectibleHash"@) == Some(Json::Int(x as int)), Option::None => spec_lookup(fields, "collectibleHash"@) is None || spec_lookup(fields, "collectibleHash"@) == Some(Json::Null) }
}

#[verifier::loop_isolation(false)]
#[verifier::rlimit(100)]
#[verifier::spinoff_prover]
fn decode_item_definition_category_fields(j: &JsonValue) -> (r: Result<ItemDefinitionCategoryFields, DecodeError>)
    ensures
        r is Ok <==> (jview(*j) matches Json::Obj(fields) && item_definition_category_fields_wf(fields)),
        r matches Ok(w) ==> (jview(*j) matches Json::Obj(fields)
            && item_definition_category_fields_match(fields, w)),
{
    let fields = match j {
        JsonValue::Obj(fields) => fields,
        _ => {
            return Err(root_error("an object"));
        },
    };
    let ghost gf = jview(*j)->Obj_0;
    let damage_types = match j.get("damageTypes") {
        Option::None => Vec::new(),
        Some(arr) => match arr {
            JsonValue::Arr(items) => {
                let ghost gitems = jview(*arr)->Arr_0;
                let mut out: Vec<DamageType> = Vec::new();
                let mut i: usize = 0;
                while i < items.len()
                    invariant
                        i <= items.len(),
                        out@.len() == i,
                        forall|k: int| 0 <= k < i ==> ((#[trigger] gitems[k]) matches Json::Int(n) && Some(out@[k]) == DamageType::spec_from_code(n)),
                    decreases items.len() - i,
                {
                    proof {
                        assert(gitems[i as int] == jview(items@[i as int]));
                    }
                    let n = match items[i].to_i64() {
                        Some(n) if 0 <= n && n <= u8::MAX as i64 => n,
                        _ => {
                            return Err(indexed_error("damageTypes", i, field_error("", "a declared DamageType code")));
                        },
                    };
                    let t = match DamageType::decode_code(n as u8) {
                        Ok(t) => t,
                        Err(e) => {
                            return Err(indexed_error("damageTypes", i, e));
                        },
                    };
                    proof {
                        assert(gitems[i as int] matches Json::Int(m)
                            && Some(t) == DamageType::spec_from_code(m));
                    }
                    out.push(t);
                    i = i + 1;
                }
                out
            },
            _ => {
                return Err(field_error("damageTypes", "an array"));
            },
        },
    };
    let special_item_type = match j.get("specialItemType") {
        Some(v) => match v.to_i64() {
            Some(n) if 0 <= n && n <= u8::MAX as i64 => match SpecialItemType::decode_code(n as u8) {
                Ok(t) => t,
                Err(e) => {
                    return Err(rekey_error("specialItemType", e));
                },
            },
            _ => {
                return Err(field_error("specialItemType", "a declared SpecialItemType code"));
            },
        },
        _ => {
            return Err(field_error("specialItemType", "a declared SpecialItemType code"));
        },
    };
    let item_type = match j.get("itemType") {
        Some(v) => match v.to_i64() {
            Some(n) if 0 <= n && n <= u8::MAX as i64 => match DestinyItemType::decode_code(n as u8) {
                Ok(t) => t,
                Err(e) => {
                    return Err(rekey_error("itemType", e));
                },
            },
            _ => {
                return Err(field_error("itemType", "a declared DestinyItemType code"));
            },
        },
        _ => {
            return Err(field_error("itemType", "a declared DestinyItemType code"));
        },
    };
    let item_sub_type = match j.get("itemSubType") {
        Some(v) => match v.to_i64() {
            Some(n) if 0 <= n && n <= u8::MAX as i64 => match DestinyItemSubType::decode_code(n as u8) {
                Ok(t) => t,
                Err(e) => {
                    return Err(rekey_error("itemSubType", e));
                },
            },
            _ => {
                return Err(field_error("itemSubType", "a declared DestinyItemSubType code"));
            },
        },
        _ => {
            return Err(field_error("itemSubType", "a declared DestinyItemSubType code"));
        },
    };
    let class_type = match j.get("classType") {
        Some(v) => match v.to_i64() {
            Some(n) if 0 <= n && n <= u8::MAX as i64 => match DestinyClass::decode_code(n as u8) {
                Ok(t) => t,
                Err(e) => {
                    return Err(rekey_error("classType", e));
                },
            },
            _ => {
                return Err(field_error("classType", "a declared DestinyClass code"));
            },
        },
        _ => {
            return Err(field_error("classType", "a declared DestinyClass code"));
        },
    };
    let breaker_type = match j.get("breakerType") {
        Some(v) => match v.to_i64() {
            Some(n) if 0 <= n && n <= u8::MAX as i64 => match DestinyBreakerType::decode_code(n as u8) {
                Ok(t) => t,
                Err(e) => {
                    return Err(rekey_error("breakerType", e));
                },
            },
            _ => {
                return Err(field_error("breakerType", "a declared DestinyBreakerType code"));
            },
        },
        _ => {
            return Err(field_error("breakerType", "a declared DestinyBreakerType code"));
        },
    };
    let default_damage_type = match j.get("defaultDamageType") {
        Some(v) => match v.to_i64() {
            Some(n) if 0 <= n && n <= u8::MAX as i64 => match DamageType::decode_code(n as u8) {
                Ok(t) => t,
                Err(e) => {
                    return Err(rekey_error("defaultDamageType", e));
                },
            },
            _ => {
                return Err(field_error("defaultDamageType", "a declared DamageType code"));
            },
        },
        _ => {
            return Err(field_error("defaultDamageType", "a declared DamageType code"));
        },
    };
    let collectible_hash = match j.get("collectibleHash") {
        Option::None => Option::None,
        Some(JsonValue::Null) => Option::None,
        Some(v) => match v.to_i64() {
            Some(n) if 0 <= n && n <= u32::MAX as i64 => Some(n as u32),
            _ => {
                return Err(field_error("collectibleHash", "a 32-bit unsigned integer or null"));
            },
        },
    };
    Ok(ItemDefinitionCategoryFields { damage_types, special_item_type, item_type, item_sub_type, class_type, breaker_type, default_damage_type, collectible_hash })
}

/// One section of the item definition, decoded on its own to
/// keep each decoding step small.
pub struct ItemDefinitionDisplayFields {
    pub icon_watermark: Option<String>,
    pub icon_watermark_shelved: Option<String>,
    pub icon_watermark_featured: Option<String>,
    pub secondary_icon: Option<String>,
    pub secondary_overlay: Option<String>,
    pub secondary_special: Option<String>,
    pub is_featured_item: bool,
    pub is_holofoil: bool,
    pub is_adept: bool,
    pub screenshot: Option<String>,
    pub item_type_display_name: Option<String>,
    pub flavor_text: Option<String>,
    pub ui_item_display_style: Option<String>,
    pub item_type_and_tier_display_name: Option<String>,
    pub display_source: Option<String>,
    pub tooltip_style: Option<String>,
    pub emblem_objective_hash: Option<u32>,
}

/// The well-formedness of this section's fields.
pub open spec fn item_definition_display_fields_wf(fields: Seq<(Seq<char>, Json)>) -> bool {
    &&& match spec_lookup(fields, "iconWatermark"@) { Option::None => true, Some(Json::Null) => true, Some(Json::Str(_)) => true, _ => false }
    &&& match spec_lookup(fields, "iconWatermarkShelved"@) { Option::None => true, Some(Json::Null) => true, Some(Json::Str(_)) => true, _ => false }
    &&& match spec_lookup(fields, "iconWatermarkFeatured"@) { Option::None => true, Some(Json::Null) => true, Some(Json::Str(_)) => true, _ => false }
    &&& match spec_lookup(fields, "secondaryIcon"@) { Option::None => true, Some(Json::Null) => true, Some(Json::Str(_)) => true, _ => false }
    &&& match spec_lookup(fields, "secondaryOverlay"@) { Option::None => true, Some(Json::Null) => true, Some(Json::Str(_)) => true, _ => false }
    &&& match spec_lookup(fields, "secondarySpecial"@) { Option::None => true, Some(Json::Null) => true, Some(Json::Str(_)) => true, _ => false }
    &&& spec_lookup(fields, "isFeaturedItem"@) matches Some(Json::Bool(_))
    &&& spec_lookup(fields, "isHolofoil"@) matches Some(Json::Bool(_))
    &&& spec_lookup(fields, "isAdept"@) matches Some(Json::Bool(_))
    &&& match spec_lookup(fields, "screenshot"@) { Option::None => true, Some(Json::Null) => true, Some(Json::Str(_)) => true, _ => false }
    &&& match spec_lookup(fields, "itemTypeDisplayName"@) { Option::None => true, Some(Json::Null) => true, Some(Json::Str(_)) => true, _ => false }
    &&& match spec_lookup(fields, "flavorText"@) { Option::None => true, Some(Json::Null) => true, Some(Json::Str(_)) => true, _ => false }
    &&& match spec_lookup(fields, "uiItemDisplayStyle"@) { Option::None => true, Some(Json::Null) => true, Some(Json::Str(_)) => true, _ => false }
    &&& match spec_lookup(fields, "itemTypeAndTierDisplayName"@) { Option::None => true, Some(Json::Null) => true, Some(Json::Str(_)) => true, _ => false }
    &&& match spec_lookup(fields, "displaySource"@) { Option::None => true, Some(Json::Null) => true, Some(Json::Str(_)) => true, _ => false }
    &&& match spec_lookup(fields, "tooltipStyle"@) { Option::None => true, Some(Json::Null) => true, Some(Json::Str(_)) => true, _ => false }
    &&& match spec_lookup(fields, "emblemObjectiveHash"@) { Option::None => true, Some(Json::Null) => true, Some(Json::Int(n)) => 0 <= n <= u32::MAX as int, _ => false }
}

/// How this section's decoded fields relate to the document.
pub open spec fn item_definition_display_fields_match(fields: Seq<(Seq<char>, Json)>, w: ItemDefinitionDisplayFields) -> bool {
    &&& match w.icon_watermark { Some(x) => spec_lookup(fields, "iconWatermark"@) == Some(Json::Str(x@)), Option::None => spec_lookup(fields, "iconWatermark"@) is None || spec_lookup(fields, "iconWatermark"@) == Some(Json::Null) }
    &&& match w.icon_watermark_shelved { Some(x) => spec_lookup(fields, "iconWatermarkShelved"@) == Some(Json::Str(x@)), Option::None => spec_lookup(fields, "iconWatermarkShelved"@) is None || spec_lookup(fields, "iconWatermarkShelved"@) == Some(Json::Null) }
    &&& match w.icon_watermark_featured { Some(x) => spec_lookup(fields, "iconWatermarkFeatured"@) == Some(Json::Str(x@)), Option::None => spec_lookup(fields, "iconWatermarkFeatured"@) is None || spec_lookup(fields, "iconWatermarkFeatured"@) == Some(Json::Null) }
    &&& match w.secondary_icon { Some(x) => spec_lookup(fields, "secondaryIcon"@) == Some(Json::Str(x@)), Option::None => spec_lookup(fields, "secondaryIcon"@) is None || spec_lookup(fields, "secondaryIcon"@) == Some(Json::Null) }
    &&& match w.secondary_overlay { Some(x) => spec_lookup(fields, "secondaryOverlay"@) == Some(Json::Str(x@)), Option::None => spec_lookup(fields, "secondaryOverlay"@) is None || spec_lookup(fields, "secondaryOverlay"@) == Some(Json::Null) }
    &&& match w.secondary_special { Some(x) => spec_lookup(fields, "secondarySpecial"@) == Some(Json::Str(x@)), Option::None => spec_lookup(fields, "secondarySpecial"@) is None || spec_lookup(fields, "secondarySpecial"@) == Some(Json::Null) }
    &&& spec_lookup(fields, "isFeaturedItem"@) == Some(Json::Bool(w.is_featured_item))
    &&& spec_lookup(fields, "isHolofoil"@) == Some(Json::Bool(w.is_holofoil))
    &&& spec_lookup(fields, "isAdept"@) == Some(Json::Bool(w.is_adept))
    &&& match w.screenshot { Some(x) => spec_lookup(fields, "screenshot"@) == Some(Json::Str(x@)), Option::None => spec_lookup(fields, "screenshot"@) is None || spec_lookup(fields, "screenshot"@) == Some(Json::Null) }
    &&& match w.item_type_display_name { Some(x) => spec_lookup(fields, "itemTypeDisplayName"@) == Some(Json::Str(x@)), Option::None => spec_lookup(fields, "itemTypeDisplayName"@) is None || spec_lookup(fields, "itemTypeDisplayName"@) == Some(Json::Null) }
    &&& match w.flavor_text { Some(x) => spec_lookup(fields, "flavorText"@) == Some(Json::Str(x@)), Option::None => spec_lookup(fields, "flavorText"@) is None || spec_lookup(fields, "flavorText"@) == Some(Json::Null) }
    &&& match w.ui_item_display_style { Some(x) => spec_lookup(fields, "uiItemDisplayStyle"@) == Some(Json::Str(x@)), Option::None => spec_lookup(fields, "uiItemDisplayStyle"@) is None || spec_lookup(fields, "uiItemDisplayStyle"@) == Some(Json::Null) }
    &&& match w.item_type_and_tier_display_name { Some(x) => spec_lookup(fields, "itemTypeAndTierDisplayName"@) == Some(Json::Str(x@)), Option::None => spec_lookup(fields, "itemTypeAndTierDisplayName"@) is None || spec_lookup(fields, "itemTypeAndTierDisplayName"@) == Some(Json::Null) }
    &&& match w.display_source { Some(x) => spec_lookup(fields, "displaySource"@) == Some(Json::Str(x@)), Option::None => spec_lookup(fields, "displaySource"@) is None || spec_lookup(fields, "displaySource"@) == Some(Json::Null) }
    &&& match w.tooltip_style { Some(x) => spec_lookup(fields, "tooltipStyle"@) == Some(Json::Str(x@)), Option::None => spec_lookup(fields, "tooltipStyle"@) is None || spec_lookup(fields, "tooltipStyle"@) == Some(Json::Null) }
    &&& match w.emblem_objective_hash { Some(x) => spec_lookup(fields, "emblemObjectiveHash"@) == Some(Json::Int(x as int)), Option::None => spec_lookup(fields, "emblemObjectiveHash"@) is None || spec_lookup(fields, "emblemObjectiveHash"@) == Some(Json::Null) }
}

#[verifier::loop_isolation(false)]
#[verifier::rlimit(100)]
#[verifier::spinoff_prover]
fn decode_item_definition_display_fields(j: &JsonValue) -> (r: Result<ItemDefinitionDisplayFields, DecodeError>)
    ensures
        r is Ok <==> (jview(*j) matches Json::Obj(fields) && item_definition_display_fields_wf(fields)),
        r matches Ok(w) ==> (jview(*j) matches Json::Obj(fields)
            && item_definition_display_fields_match(fields, w)),
{
    let fields = match j {
        JsonValue::Obj(fields) => fields,
        _ => {
            return Err(root_error("an object"));
        },
    };
    let ghost gf = jview(*j)->Obj_0;
    let icon_watermark = match j.get("iconWatermark") {
        Option::None => Option::None,
        Some(JsonValue::Null) => Option::None,
        Some(JsonValue::Str(s)) => Some(s.clone()),
        _ => {
            return Err(field_error("iconWatermark", "a string or null"));
        },
    };
    let icon_watermark_shelved = match j.get("iconWatermarkShelved") {
        Option::None => Option::None,
        Some(JsonValue::Null) => Option::None,
        Some(JsonValue::Str(s)) => Some(s.clone()),
        _ => {
            return Err(field_error("iconWatermarkShelved", "a string or null"));
        },
    };
    let icon_watermark_featured = match j.get("iconWatermarkFeatured") {
        Option::None => Option::None,
        Some(JsonValue::Null) => Option::None,
        Some(JsonValue::Str(s)) => Some(s.clone()),
        _ => {
            return Err(field_error("iconWatermarkFeatured", "a string or null"));
        },
    };
    let secondary_icon = match j.get("secondaryIcon") {
        Option::None => Option::None,
        Some(JsonValue::Null) => Option::None,
        Some(JsonValue::Str(s)) => Some(s.clone()),
        _ => {
            return Err(field_error("secondaryIcon", "a string or null"));
        },
    };
    let secondary_overlay = match j.get("secondaryOverlay") {
        Option::None => Option::None,
        Some(JsonValue::Null) => Option::None,
        Some(JsonValue::Str(s)) => Some(s.clone()),
        _ => {
            return Err(field_error("secondaryOverlay", "a string or null"));
        },
    };
    let secondary_special = match j.get("secondarySpecial") {
        Option::None => Option::None,
        Some(JsonValue::Null) => Option::None,
        Some(JsonValue::Str(s)) => Some(s.clone()),
        _ => {
            return Err(field_error("secondarySpecial", "a string or null"));
        },
    };
    let is_featured_item = match j.get("isFeaturedItem") {
        Some(JsonValue::Bool(b)) => *b,
        _ => {
            return Err(field_error("isFeaturedItem", "a boolean"));
        },
    };
    let is_holofoil = match j.get("isHolofoil") {
        Some(JsonValue::Bool(b)) => *b,
        _ => {
            return Err(field_error("isHolofoil", "a boolean"));
        },
    };
    let is_adept = match j.get("isAdept") {
        Some(JsonValue::Bool(b)) => *b,
        _ => {
            return Err(field_error("isAdept", "a boolean"));
        },
    };
    let screenshot = match j.get("screenshot") {
        Option::None => Option::None,
        Some(JsonValue::Null) => Option::None,
        Some(JsonValue::Str(s)) => Some(s.clone()),
        _ => {
            return Err(field_error("screenshot", "a string or null"));
        },
    };
    let item_type_display_name = match j.get("itemTypeDisplayName") {
        Option::None => Option::None,
        Some(JsonValue::Null) => Option::None,
        Some(JsonValue::Str(s)) => Some(s.clone()),
        _ => {
            return Err(field_error("itemTypeDisplayName", "a string or null"));
        },
    };
    let flavor_text = match j.get("flavorText") {
        Option::None => Option::None,
        Some(JsonValue::Null) => Option::None,
        Some(JsonValue::Str(s)) => Some(s.clone()),
        _ => {
            return Err(field_error("flavorText", "a string or null"));
        },
    };
    let ui_item_display_style = match j.get("uiItemDisplayStyle") {
        Option::None => Option::None,
        Some(JsonValue::Null) => Option::None,
        Some(JsonValue::Str(s)) => Some(s.clone()),
        _ => {
            return Err(field_error("uiItemDisplayStyle", "a string or null"));
        },
    };
    let item_type_and_tier_display_name = match j.get("itemTypeAndTierDisplayName") {
        Option::None => Option::None,
        Some(JsonValue::Null) => Option::None,
        Some(JsonValue::Str(s)) => Some(s.clone()),
        _ => {
            return Err(field_error("itemTypeAndTierDisplayName", "a string or null"));
        },
    };
    let display_source = match j.get("displaySource") {
        Option::None => Option::None,
        Some(JsonValue::Null) => Option::None,
        Some(JsonValue::Str(s)) => Some(s.clone()),
        _ => {
            return Err(field_error("displaySource", "a string or null"));
        },
    };
    let tooltip_style = match j.get("tooltipStyle") {
        Option::None => Option::None,
        Some(JsonValue::Null) => Option::None,
        Some(JsonValue::Str(s)) => Some(s.clone()),
        _ => {
            return Err(field_error("tooltipStyle", "a string or null"));
        },
    };
    let emblem_objective_hash = match j.get("emblemObjectiveHash") {
        Option::None => Option::None,
        Some(JsonValue::Null) => Option::None,
        Some(v) => match v.to_i64() {
            Some(n) if 0 <= n && n <= u32::MAX as i64 => Some(n as u32),
            _ => {
                return Err(field_error("emblemObjectiveHash", "a 32-bit unsigned integer or null"));
            },
        },
    };
    Ok(ItemDefinitionDisplayFields { icon_watermark, icon_watermark_shelved, icon_watermark_featured, secondary_icon, secondary_overlay, secondary_special, is_featured_item, is_holofoil, is_adept, screenshot, item_type_display_name, flavor_text, ui_item_display_style, item_type_and_tier_display_name, display_source, tooltip_style, emblem_objective_hash })
}

/// One section of the item definition, decoded on its own to
/// keep each decoding step small.
pub struct ItemDefinitionIdentityFields {
    pub acquire_reward_site_hash: u32,
    pub acquire_unlock_hash: u32,
    pub lore_hash: Option<u32>,
    pub summary_item_hash: Option<u32>,
    pub allow_actions: bool,
    pub does_postmaster_pull_have_side_effects: bool,
    pub non_transferrable: bool,
    pub breaker_type_hash: Option<u32>,
    pub equippable: bool,
    pub default_damage_type_hash: Option<u32>,
    pub season_hash: Option<u32>,
    pub is_wrapper: bool,
    pub hash: u32,
    pub index: i32,
    pub redacted: bool,
    pub blacklisted: bool,
}

/// The well-formedness of this section's fields.
pub open spec fn item_definition_identity_fields_wf(fields: Seq<(Seq<char>, Json)>) -> bool {
    &&& spec_lookup(fields, "acquireRewardSiteHash"@) matches Some(Json::Int(n)) && 0 <= n <= u32::MAX as int
    &&& spec_lookup(fields, "acquireUnlockHash"@) matches Some(Json::Int(n)) && 0 <= n <= u32::MAX as int
    &&& match spec_lookup(fields, "loreHash"@) { Option::None => true, Some(Json::Null) => true, Some(Json::Int(n)) => 0 <= n <= u32::MAX as int, _ => false }
    &&& match spec_lookup(fields, "summaryItemHash"@) { Option::None => true, Some(Json::Null) => true, Some(Json::Int(n)) => 0 <= n <= u32::MAX as int, _ => false }
    &&& spec_lookup(fields, "allowActions"@) matches Some(Json::Bool(_))
    &&& spec_lookup(fields, "doesPostmasterPullHaveSideEffects"@) matches Some(Json::Bool(_))
    &&& spec_lookup(fields, "nonTransferrable"@) matches Some(Json::Bool(_))
    &&& match spec_lookup(fields, "breakerTypeHash"@) { Option::None => true, Some(Json::Null) => true, Some(Json::Int(n)) => 0 <= n <= u32::MAX as int, _ => false }
    &&& spec_lookup(fields, "equippable"@) matches Some(Json::Bool(_))
    &&& match spec_lookup(fields, "defaultDamageTypeHash"@) { Option::None => true, Some(Json::Null) => true, Some(Json::Int(n)) => 0 <= n <= u32::MAX as int, _ => false }
    &&& match spec_lookup(fields, "seasonHash"@) { Option::None => true, Some(Json::Null) => true, Some(Json::Int(n)) => 0 <= n <= u32::MAX as int, _ => false }
    &&& spec_lookup(fields, "isWrapper"@) matches Some(Json::Bool(_))
    &&& spec_lookup(fields, "hash"@) matches Some(Json::Int(n)) && 0 <= n <= u32::MAX as int
    &&& spec_lookup(fields, "index"@) matches Some(Json::Int(n)) && i32::MIN as int <= n <= i32::MAX as int
    &&& spec_lookup(fields, "redacted"@) matches Some(Json::Bool(_))
    &&& spec_lookup(fields, "blacklisted"@) matches Some(Json::Bool(_))
}

/// How this section's decoded fields relate to the document.
pub open spec fn item_definition_identity_fields_match(fields: Seq<(Seq<char>, Json)>, w: ItemDefinitionIdentityFields) -> bool {
    &&& spec_lookup(fields, "acquireRewardSiteHash"@) == Some(Json::Int(w.acquire_reward_site_hash as int))
    &&& spec_lookup(fields, "acquireUnlockHash"@) == Some(Json::Int(w.acquire_unlock_hash as int))
    &&& match w.lore_hash { Some(x) => spec_lookup(fields, "loreHash"@) == Some(Json::Int(x as int)), Option::None => spec_lookup(fields, "loreHash"@) is None || spec_lookup(fields, "loreHash"@) == Some(Json::Null) }
    &&& match w.summary_item_hash { Some(x) => spec_lookup(fields, "summaryItemHash"@) == Some(Json::Int(x as int)), Option::None => spec_lookup(fields, "summaryItemHash"@) is None || spec_lookup(fields, "summaryItemHash"@) == Some(Json::Null) }
    &&& spec_lookup(fields, "allowActions"@) == Some(Json::Bool(w.allow_actions))
    &&& spec_lookup(fields, "doesPostmasterPullHaveSideEffects"@) == Some(Json::Bool(w.does_postmaster_pull_have_side_effects))
    &&& spec_lookup(fields, "nonTransferrable"@) == Some(Json::Bool(w.non_transferrable))
    &&& match w.breaker_type_hash { Some(x) => spec_lookup(fields, "breakerTypeHash"@) == Some(Json::Int(x as int)), Option::None => spec_lookup(fields, "breakerTypeHash"@) is None || spec_lookup(fields, "breakerTypeHash"@) == Some(Json::Null) }
    &&& spec_lookup(fields, "equippable"@) == Some(Json::Bool(w.equippable))
    &&& match w.default_damage_type_hash { Some(x) => spec_lookup(fields, "defaultDamageTypeHash"@) == Some(Json::Int(x as int)), Option::None => spec_lookup(fields, "defaultDamageTypeHash"@) is None || spec_lookup(fields, "defaultDamageTypeHash"@) == Some(Json::Null) }
    &&& match w.season_hash { Some(x) => spec_lookup(fields, "seasonHash"@) == Some(Json::Int(x as int)), Option::None => spec_lookup(fields, "seasonHash"@) is None || spec_lookup(fields, "seasonHash"@) == Some(Json::Null) }
    &&& spec_lookup(fields, "isWrapper"@) == Some(Json::Bool(w.is_wrapper))
    &&& spec_lookup(fields, "hash"@) == Some(Json::Int(w.hash as int))
    &&& spec_lookup(fields, "index"@) == Some(Json::Int(w.index as int))
    &&& spec_lookup(fields, "redacted"@) == Some(Json::Bool(w.redacted))
    &&& spec_lookup(fields, "blacklisted"@) == Some(Json::Bool(w.blacklisted))
}

#[verifier::loop_isolation(false)]
#[verifier::rlimit(100)]
#[verifier::spinoff_prover]
fn decode_item_definition_identity_fields(j: &JsonValue) -> (r: Result<ItemDefinitionIdentityFields, DecodeError>)
    ensures
        r is Ok <==> (jview(*j) matches Json::Obj(fields) && item_definition_identity_fields_wf(fields)),
        r matches Ok(w) ==> (jview(*j) matches Json::Obj(fields)
            && item_definition_identity_fields_match(fields, w)),
{
    let fields = match j {
        JsonValue::Obj(fields) => fields,
        _ => {
            return Err(root_error("an object"));
        },
    };
    let ghost gf = jview(*j)->Obj_0;
    let acquire_reward_site_hash = match j.get("acquireRewardSiteHash") {
        Some(v) => match v.to_i64() {
            Some(n) if 0 <= n && n <= u32::MAX as i64 => n as u32,
            _ => {
                return Err(field_error("acquireRewardSiteHash", "a 32-bit unsigned integer"));
            },
        },
        _ => {
            return Err(field_error("acquireRewardSiteHash", "a 32-bit unsigned integer"));
        },
    };
    let acquire_unlock_hash = match j.get("acquireUnlockHash") {
        Some(v) => match v.to_i64() {
            Some(n) if 0 <= n && n <= u32::MAX as i64 => n as u32,
            _ => {
                return Err(field_error("acquireUnlockHash", "a 32-bit unsigned integer"));
            },
        },
        _ => {
            return Err(field_error("acquireUnlockHash", "a 32-bit unsigned integer"));
        },
    };
    let lore_hash = match j.get("loreHash") {
        Option::None => Option::None,
        Some(JsonValue::Null) => Option::None,
        Some(v) => match v.to_i64() {
            Some(n) if 0 <= n && n <= u32::MAX as i64 => Some(n as u32),
            _ => {
                return Err(field_error("loreHash", "a 32-bit unsigned integer or null"));
            },
        },
    };
    let summary_item_hash = match j.get("summaryItemHash") {
        Option::None => Option::None,
        Some(JsonValue::Null) => Option::None,
        Some(v) => match v.to_i64() {
            Some(n) if 0 <= n && n <= u32::MAX as i64 => Some(n as u32),
            _ => {
                return Err(field_error("summaryItemHash", "a 32-bit unsigned integer or null"));
            },
        },
    };
    let allow_actions = match j.get("allowActions") {
        Some(JsonValue::Bool(b)) => *b,
        _ => {
            return Err(field_error("allowActions", "a boolean"));
        },
    };
    let does_postmaster_pull_have_side_effects = match j.get("doesPostmasterPullHaveSideEffects") {
        Some(JsonValue::Bool(b)) => *b,
        _ => {
            return Err(field_error("doesPostmasterPullHaveSideEffects", "a boolean"));
        },
    };
    let non_transferrable = match j.get("nonTransferrable") {
        Some(JsonValue::Bool(b)) => *b,
        _ => {
            return Err(field_error("nonTransferrable", "a boolean"));
        },
    };
    let breaker_type_hash = match j.get("breakerTypeHash") {
        Option::None => Option::None,
        Some(JsonValue::Null) => Option::None,
        Some(v) => match v.to_i64() {
            Some(n) if 0 <= n && n <= u32::MAX as i64 => Some(n as u32),
            _ => {
                return Err(field_error("breakerTypeHash", "a 32-bit unsigned integer or null"));
            },
        },
    };
    let equippable = match j.get("equippable") {
        Some(JsonValue::Bool(b)) => *b,
        _ => {
            return Err(field_error("equippable", "a boolean"));
        },
    };
    let default_damage_type_hash = match j.get("defaultDamageTypeHash") {
        Option::None => Option::None,
        Some(JsonValue::Null) => Option::None,
        Some(v) => match v.to_i64() {
            Some(n) if 0 <= n && n <= u32::MAX as i64 => Some(n as u32),
            _ => {
                return Err(field_error("defaultDamageTypeHash", "a 32-bit unsigned integer or null"));
            },
        },
    };
    let season_hash = match j.get("seasonHash") {
        Option::None => Option::None,
        Some(JsonValue::Null) => Option::None,
        Some(v) => match v.to_i64() {
            Some(n) if 0 <= n && n <= u32::MAX as i64 => Some(n as u32),
            _ => {
                return Err(field_error("seasonHash", "a 32-bit unsigned integer or null"));
            },
        },
    };
    let is_wrapper = match j.get("isWrapper") {
        Some(JsonValue::Bool(b)) => *b,
        _ => {
            return Err(field_error("isWrapper", "a boolean"));
        },
    };
    let hash = match j.get("hash") {
        Some(v) => match v.to_i64() {
            Some(n) if 0 <= n && n <= u32::MAX as i64 => n as u32,
            _ => {
                return Err(field_error("hash", "a 32-bit unsigned integer"));
            },
        },
        _ => {
            return Err(field_error("hash", "a 32-bit unsigned integer"));
        },
    };
    let index = match j.get("index") {
        Some(v) => match v.to_i64() {
            Some(n) if i32::MIN as i64 <= n && n <= i32::MAX as i64 => n as i32,
            _ => {
                return Err(field_error("index", "a 32-bit integer"));
            },
        },
        _ => {
            return Err(field_error("index", "a 32-bit integer"));
        },
    };
    let redacted = match j.get("redacted") {
        Some(JsonValue::Bool(b)) => *b,
        _ => {
            return Err(field_error("redacted", "a boolean"));
        },
    };
    let blacklisted = match j.get("blacklisted") {
        Some(JsonValue::Bool(b)) => *b,
        _ => {
            return Err(field_error("blacklisted", "a boolean"));
        },
    };
    Ok(ItemDefinitionIdentityFields { acquire_reward_site_hash, acquire_unlock_hash, lore_hash, summary_item_hash, allow_actions, does_postmaster_pull_have_side_effects, non_transferrable, breaker_type_hash, equippable, default_damage_type_hash, season_hash, is_wrapper, hash, index, redacted, blacklisted })
}

/// Whether a document decodes as an item definition: an object with
/// exactly the declared fields, each section well formed.
pub open spec fn destiny_inventory_item_definition_wf(j: Json) -> bool {
    &&& j matches Json::Obj(fields)
    &&& item_definition_block_fields_a_wf(fields)
    &&& item_definition_block_fields_b_wf(fields)
    &&& item_definition_list_fields_wf(fields)
    &&& item_definition_category_fields_wf(fields)
    &&& item_definition_display_fields_wf(fields)
    &&& item_definition_identity_fields_wf(fields)
    &&& forall|i: int| 0 <= i < fields.len()
        ==> ((#[trigger] fields[i]).0 == "displayProperties"@ || fields[i].0 == "tooltipNotifications"@ || fields[i].0 == "collectibleHash"@ || fields[i].0 == "iconWatermark"@ || fields[i].0 == "iconWatermarkShelved"@ || fields[i].0 == "iconWatermarkFeatured"@ || fields[i].0 == "secondaryIcon"@ || fields[i].0 == "secondaryOverlay"@ || fields[i].0 == "secondarySpecial"@ || fields[i].0 == "backgroundColor"@ || fields[i].0 == "isFeaturedItem"@ || fields[i].0 == "isHolofoil"@ || fields[i].0 == "isAdept"@ || fields[i].0 == "screenshot"@ || fields[i].0 == "itemTypeDisplayName"@ || fields[i].0 == "flavorText"@ || fields[i].0 == "uiItemDisplayStyle"@ || fields[i].0 == "itemTypeAndTierDisplayName"@ || fields[i].0 == "displaySource"@ || fields[i].0 == "tooltipStyle"@ || fields[i].0 == "action"@ || fields[i].0 == "crafting"@ || fields[i].0 == "inventory"@ || fields[i].0 == "setData"@ || fields[i].0 == "stats"@ || fields[i].0 == "emblemObjectiveHash"@ || fields[i].0 == "equippingBlock"@ || fields[i].0 == "translationBlock"@ || fields[i].0 == "preview"@ || fields[i].0 == "quality"@ || fields[i].0 == "value"@ || fields[i].0 == "sourceData"@ || fields[i].0 == "objectives"@ || fields[i].0 == "metrics"@ || fields[i].0 == "plug"@ || fields[i].0 == "gearset"@ || fields[i].0 == "sack"@ || fields[i].0 == "sockets"@ || fields[i].0 == "summary"@ || fields[i].0 == "talentGrid"@ || fields[i].0 == "acquireRewardSiteHash"@ || fields[i].0 == "acquireUnlockHash"@ || fields[i].0 == "investmentStats"@ || fields[i].0 == "perks"@ || fields[i].0 == "loreHash"@ || fields[i].0 == "summaryItemHash"@ || fields[i].0 == "animations"@ || fields[i].0 == "allowActions"@ || fields[i].0 == "links"@ || fields[i].0 == "doesPostmasterPullHaveSideEffects"@ || fields[i].0 == "nonTransferrable"@ || fields[i].0 == "itemCategoryHashes"@ || fields[i].0 == "specialItemType"@ || fields[i].0 == "itemType"@ || fields[i].0 == "itemSubType"@ || fields[i].0 == "classType"@ || fields[i].0 == "breakerType"@ || fields[i].0 == "breakerTypeHash"@ || fields[i].0 == "equippable"@ || fields[i].0 == "damageTypeHashes"@ || fields[i].0 == "damageTypes"@ || fields[i].0 == "defaultDamageType"@ || fields[i].0 == "defaultDamageTypeHash"@ || fields[i].0 == "seasonHash"@ || fields[i].0 == "isWrapper"@ || fields[i].0 == "traitIds"@ || fields[i].0 == "traitHashes"@ || fields[i].0 == "hash"@ || fields[i].0 == "index"@ || fields[i].0 == "redacted"@ || fields[i].0 == "blacklisted"@)
}

/// How a decoded item definition relates to the document it came
/// from, section by section.
pub open spec fn destiny_inventory_item_definition_fields_match(fields: Seq<(Seq<char>, Json)>, w: DestinyInventoryItemDefinition) -> bool {
    &&& item_definition_block_fields_a_match(fields, ItemDefinitionBlockFieldsA {
        display_properties: w.display_properties,
        background_color: w.background_color,
        action: w.action,
        crafting: w.crafting,
        inventory: w.inventory,
        set_data: w.set_data,
        stats: w.stats,
        equipping_block: w.equipping_block,
        translation_block: w.translation_block,
        preview: w.preview,
        quality: w.quality,
    })
    &&& item_definition_block_fields_b_match(fields, ItemDefinitionBlockFieldsB {
        value: w.value,
        source_data: w.source_data,
        objectives: w.objectives,
        metrics: w.metrics,
        plug: w.plug,
        gearset: w.gearset,
        sack: w.sack,
        sockets: w.sockets,
        summary: w.summary,
        talent_grid: w.talent_grid,
    })
    &&& item_definition_list_fields_match(fields, ItemDefinitionListFields {
        tooltip_notifications: w.tooltip_notifications,
        investment_stats: w.investment_stats,
        perks: w.perks,
        animations: w.animations,
        links: w.links,
        item_category_hashes: w.item_category_hashes,
        damage_type_hashes: w.damage_type_hashes,
        trait_ids: w.trait_ids,
        trait_hashes: w.trait_hashes,
    })
    &&& item_definition_category_fields_match(fields, ItemDefinitionCategoryFields {
        damage_types: w.damage_types,
        special_item_type: w.special_item_type,
        item_type: w.item_type,
        item_sub_type: w.item_sub_type,
        class_type: w.class_type,
        breaker_type: w.breaker_type,
        default_damage_type: w.default_damage_type,
        collectible_hash: w.collectible_hash,
    })
    &&& item_definition_display_fields_match(fields, ItemDefinitionDisplayFields {
        icon_watermark: w.icon_watermark,
        icon_watermark_shelved: w.icon_watermark_shelved,
        icon_watermark_featured: w.icon_watermark_featured,
        secondary_icon: w.secondary_icon,
        secondary_overlay: w.secondary_overlay,
        secondary_special: w.secondary_special,
        is_featured_item: w.is_featured_item,
        is_holofoil: w.is_holofoil,
        is_adept: w.is_adept,
        screenshot: w.screenshot,
        item_type_display_name: w.item_type_display_name,
        flavor_text: w.flavor_text,
        ui_item_display_style: w.ui_item_display_style,
        item_type_and_tier_display_name: w.item_type_and_tier_display_name,
        display_source: w.display_source,
        tooltip_style: w.tooltip_style,
        emblem_objective_hash: w.emblem_objective_hash,
    })
    &&& item_definition_identity_fields_match(fields, ItemDefinitionIdentityFields {
        acquire_reward_site_hash: w.acquire_reward_site_hash,
        acquire_unlock_hash: w.acquire_unlock_hash,
        lore_hash: w.lore_hash,
        summary_item_hash: w.summary_item_hash,
        allow_actions: w.allow_actions,
        does_postmaster_pull_have_side_effects: w.does_postmaster_pull_have_side_effects,
        non_transferrable: w.non_transferrable,
        breaker_type_hash: w.breaker_type_hash,
        equippable: w.equippable,
        default_damage_type_hash: w.default_damage_type_hash,
        season_hash: w.season_hash,
        is_wrapper: w.is_wrapper,
        hash: w.hash,
        index: w.index,
        redacted: w.redacted,
        blacklisted: w.blacklisted,
    })
}

/// Decodes an item definition; a failure names the offending field
/// in its path and says what was expected of it.
#[verifier::loop_isolation(false)]
#[verifier::rlimit(100)]
#[verifier::spinoff_prover]
pub fn decode_destiny_inventory_item_definition(j: &JsonValue) -> (r: Result<DestinyInventoryItemDefinition, DecodeError>)
    ensures
        r is Ok <==> destiny_inventory_item_definition_wf(jview(*j)),
        r matches Ok(w) ==> (jview(*j) matches Json::Obj(fields)
            && destiny_inventory_item_definition_fields_match(fields, w)),
{
    let fields = match j {
        JsonValue::Obj(fields) => fields,
        _ => {
            return Err(root_error("an object"));
        },
    };
    let ghost gf = jview(*j)->Obj_0;
    let mut i: usize = 0;
    while i < fields.len()
        invariant
            i <= fields.len(),
            gf.len() == fields@.len(),
            forall|k: int| 0 <= k < gf.len()
                ==> #[trigger] gf[k] == (fields@[k].0@, jview(fields@[k].1)),
            forall|k: int| 0 <= k < i
                ==> ((#[trigger] gf[k]).0 == "displayProperties"@ || gf[k].0 == "tooltipNotifications"@ || gf[k].0 == "collectibleHash"@ || gf[k].0 == "iconWatermark"@ || gf[k].0 == "iconWatermarkShelved"@ || gf[k].0 == "iconWatermarkFeatured"@ || gf[k].0 == "secondaryIcon"@ || gf[k].0 == "secondaryOverlay"@ || gf[k].0 == "secondarySpecial"@ || gf[k].0 == "backgroundColor"@ || gf[k].0 == "isFeaturedItem"@ || gf[k].0 == "isHolofoil"@ || gf[k].0 == "isAdept"@ || gf[k].0 == "screenshot"@ || gf[k].0 == "itemTypeDisplayName"@ || gf[k].0 == "flavorText"@ || gf[k].0 == "uiItemDisplayStyle"@ || gf[k].0 == "itemTypeAndTierDisplayName"@ || gf[k].0 == "displaySource"@ || gf[k].0 == "tooltipStyle"@ || gf[k].0 == "action"@ || gf[k].0 == "crafting"@ || gf[k].0 == "inventory"@ || gf[k].0 == "setData"@ || gf[k].0 == "stats"@ || gf[k].0 == "emblemObjectiveHash"@ || gf[k].0 == "equippingBlock"@ || gf[k].0 == "translationBlock"@ || gf[k].0 == "preview"@ || gf[k].0 == "quality"@ || gf[k].0 == "value"@ || gf[k].0 == "sourceData"@ || gf[k].0 == "objectives"@ || gf[k].0 == "metrics"@ || gf[k].0 == "plug"@ || gf[k].0 == "gearset"@ || gf[k].0 == "sack"@ || gf[k].0 == "sockets"@ || gf[k].0 == "summary"@ || gf[k].0 == "talentGrid"@ || gf[k].0 == "acquireRewardSiteHash"@ || gf[k].0 == "acquireUnlockHash"@ || gf[k].0 == "investmentStats"@ || gf[k].0 == "perks"@ || gf[k].0 == "loreHash"@ || gf[k].0 == "summaryItemHash"@ || gf[k].0 == "animations"@ || gf[k].0 == "allowActions"@ || gf[k].0 == "links"@ || gf[k].0 == "doesPostmasterPullHaveSideEffects"@ || gf[k].0 == "nonTransferrable"@ || gf[k].0 == "itemCategoryHashes"@ || gf[k].0 == "specialItemType"@ || gf[k].0 == "itemType"@ || gf[k].0 == "itemSubType"@ || gf[k].0 == "classType"@ || gf[k].0 == "breakerType"@ || gf[k].0 == "breakerTypeHash"@ || gf[k].0 == "equippable"@ || gf[k].0 == "damageTypeHashes"@ || gf[k].0 == "damageTypes"@ || gf[k].0 == "defaultDamageType"@ || gf[k].0 == "defaultDamageTypeHash"@ || gf[k].0 == "seasonHash"@ || gf[k].0 == "isWrapper"@ || gf[k].0 == "traitIds"@ || gf[k].0 == "traitHashes"@ || gf[k].0 == "hash"@ || gf[k].0 == "index"@ || gf[k].0 == "redacted"@ || gf[k].0 == "blacklisted"@),
        decreases fields.len() - i,
    {
        let name = fields[i].0.as_str();
        if !(str_eq(name, "displayProperties") || str_eq(name, "tooltipNotifications") || str_eq(name, "collectibleHash") || str_eq(name, "iconWatermark") || str_eq(name, "iconWatermarkShelved") || str_eq(name, "iconWatermarkFeatured") || str_eq(name, "secondaryIcon") || str_eq(name, "secondaryOverlay") || str_eq(name, "secondarySpecial") || str_eq(name, "backgroundColor") || str_eq(name, "isFeaturedItem") || str_eq(name, "isHolofoil") || str_eq(name, "isAdept") || str_eq(name, "screenshot") || str_eq(name, "itemTypeDisplayName") || str_eq(name, "flavorText") || str_eq(name, "uiItemDisplayStyle") || str_eq(name, "itemTypeAndTierDisplayName") || str_eq(name, "displaySource") || str_eq(name, "tooltipStyle") || str_eq(name, "action") || str_eq(name, "crafting") || str_eq(name, "inventory") || str_eq(name, "setData") || str_eq(name, "stats") || str_eq(name, "emblemObjectiveHash") || str_eq(name, "equippingBlock") || str_eq(name, "translationBlock") || str_eq(name, "preview") || str_eq(name, "quality") || str_eq(name, "value") || str_eq(name, "sourceData") || str_eq(name, "objectives") || str_eq(name, "metrics") || str_eq(name, "plug") || str_eq(name, "gearset") || str_eq(name, "sack") || str_eq(name, "sockets") || str_eq(name, "summary") || str_eq(name, "talentGrid") || str_eq(name, "acquireRewardSiteHash") || str_eq(name, "acquireUnlockHash") || str_eq(name, "investmentStats") || str_eq(name, "perks") || str_eq(name, "loreHash") || str_eq(name, "summaryItemHash") || str_eq(name, "animations") || str_eq(name, "allowActions") || str_eq(name, "links") || str_eq(name, "doesPostmasterPullHaveSideEffects") || str_eq(name, "nonTransferrable") || str_eq(name, "itemCategoryHashes") || str_eq(name, "specialItemType") || str_eq(name, "itemType") || str_eq(name, "itemSubType") || str_eq(name, "classType") || str_eq(name, "breakerType") || str_eq(name, "breakerTypeHash") || str_eq(name, "equippable") || str_eq(name, "damageTypeHashes") || str_eq(name, "damageTypes") || str_eq(name, "defaultDamageType") || str_eq(name, "defaultDamageTypeHash") || str_eq(name, "seasonHash") || str_eq(name, "isWrapper") || str_eq(name, "traitIds") || str_eq(name, "traitHashes") || str_eq(name, "hash") || str_eq(name, "index") || str_eq(name, "redacted") || str_eq(name, "blacklisted")) {
            proof {
                assert(gf[i as int].0 == fields@[i as int].0@);
                assert(!destiny_inventory_item_definition_wf(jview(*j)));
            }
            return Err(field_error(fields[i].0.as_str(), "an unknown field"));
        }
        i = i + 1;
    }
    let block_fields_a = match decode_item_definition_block_fields_a(j) {
        Ok(v) => v,
        Err(e) => {
            return Err(e);
        },
    };
    let block_fields_b = match decode_item_definition_block_fields_b(j) {
        Ok(v) => v,
        Err(e) => {
            return Err(e);
        },
    };
    let list_fields = match decode_item_definition_list_fields(j) {
        Ok(v) => v,
        Err(e) => {
            return Err(e);
        },
    };
    let category_fields = match decode_item_definition_category_fields(j) {
        Ok(v) => v,
        Err(e) => {
            return Err(e);
        },
    };
    let display_fields = match decode_item_definition_display_fields(j) {
        Ok(v) => v,
        Err(e) => {
            return Err(e);
        },
    };
    let identity_fields = match decode_item_definition_identity_fields(j) {
        Ok(v) => v,
        Err(e) => {
            return Err(e);
        },
    };
    Ok(DestinyInventoryItemDefinition {
        display_properties: block_fields_a.display_properties,
        background_color: block_fields_a.background_color,
        action: block_fields_a.action,
        crafting: block_fields_a.crafting,
        inventory: block_fields_a.inventory,
        set_data: block_fields_a.set_data,
        stats: block_fields_a.stats,
        equipping_block: block_fields_a.equipping_block,
        translation_block: block_fields_a.translation_block,
        preview: block_fields_a.preview,
        quality: block_fields_a.quality,
        value: block_fields_b.value,
        source_data: block_fields_b.source_data,
        objectives: block_fields_b.objectives,
        metrics: block_fields_b.metrics,
        plug: block_fields_b.plug,
        gearset: block_fields_b.gearset,
        sack: block_fields_b.sack,
        sockets: block_fields_b.sockets,
        summary: block_fields_b.summary,
        talent_grid: block_fields_b.talent_grid,
        tooltip_notifications: list_fields.tooltip_notifications,
        investment_stats: list_fields.investment_stats,
        perks: list_fields.perks,
        animations: list_fields.animations,
        links: list_fields.links,
        item_category_hashes: list_fields.item_category_hashes,
        damage_type_hashes: list_fields.damage_type_hashes,
        trait_ids: list_fields.trait_ids,
        trait_hashes: list_fields.trait_hashes,
        damage_types: category_fields.damage_types,
        special_item_type: category_fields.special_item_type,
        item_type: category_fields.item_type,
        item_sub_type: category_fields.item_sub_type,
        class_type: category_fields.class_type,
        breaker_type: category_fields.breaker_type,
        default_damage_type: category_fields.default_damage_type,
        collectible_hash: category_fields.collectible_hash,
        icon_watermark: display_fields.icon_watermark,
        icon_watermark_shelved: display_fields.icon_watermark_shelved,
        icon_watermark_featured: display_fields.icon_watermark_featured,
        secondary_icon: display_fields.secondary_icon,
        secondary_overlay: display_fields.secondary_overlay,
        secondary_special: display_fields.secondary_special,
        is_featured_item: display_fields.is_featured_item,
        is_holofoil: display_fields.is_holofoil,
        is_adept: display_fields.is_adept,
        screenshot: display_fields.screenshot,
        item_type_display_name: display_fields.item_type_display_name,
        flavor_text: display_fields.flavor_text,
        ui_item_display_style: display_fields.ui_item_display_style,
        item_type_and_tier_display_name: display_fields.item_type_and_tier_display_name,
        display_source: display_fields.display_source,
        tooltip_style: display_fields.tooltip_style,
        emblem_objective_hash: display_fields.emblem_objective_hash,
        acquire_reward_site_hash: identity_fields.acquire_reward_site_hash,
        acquire_unlock_hash: identity_fields.acquire_unlock_hash,
        lore_hash: identity_fields.lore_hash,
        summary_item_hash: identity_fields.summary_item_hash,
        allow_actions: identity_fields.allow_actions,
        does_postmaster_pull_have_side_effects: identity_fields.does_postmaster_pull_have_side_effects,
        non_transferrable: identity_fields.non_transferrable,
        breaker_type_hash: identity_fields.breaker_type_hash,
        equippable: identity_fields.equippable,
        default_damage_type_hash: identity_fields.default_damage_type_hash,
        season_hash: identity_fields.season_hash,
        is_wrapper: identity_fields.is_wrapper,
        hash: identity_fields.hash,
        index: identity_fields.index,
        redacted: identity_fields.redacted,
        blacklisted: identity_fields.blacklisted,
    })
}

/// The wire image of this record.
pub open spec fn destiny_historical_stats_activity_json(v: DestinyHistoricalStatsActivity) -> Json {
    Json::Obj(
        seq![
            ("referenceId"@, Json::Int(v.reference_id as int)),
            ("directorActivityHash"@, Json::Int(v.director_activity_hash as int)),
            ("instanceId"@, Json::Str(dec_string(v.instance_id as int))),
            ("mode"@, Json::Int(v.mode.spec_code())),
            ("modes"@, Json::Arr(Seq::new(v.modes@.len(), |i: int| if 0 <= i < v.modes@.len() { Json::Int(v.modes@[i].spec_code()) } else { Json::Null }))),
            ("isPrivate"@, Json::Bool(v.is_private)),
            ("membershipType"@, Json::Int(v.membership_type.spec_code())),
        ],
    )
}

/// Whether a document decodes as this record: unknown fields are tolerated.
pub open spec fn destiny_historical_stats_activity_wf(j: Json) -> bool {
    &&& j matches Json::Obj(fields)
    &&& spec_lookup(fields, "referenceId"@) matches Some(Json::Int(n)) && 0 <= n <= u32::MAX as int
    &&& spec_lookup(fields, "directorActivityHash"@) matches Some(Json::Int(n)) && 0 <= n <= u32::MAX as int
    &&& spec_lookup(fields, "instanceId"@) matches Some(Json::Str(s)) && is_u64_text(s)
    &&& spec_lookup(fields, "mode"@) matches Some(Json::Int(n)) && DestinyActivityModeType::spec_from_code(n) is Some
    &&& match spec_lookup(fields, "modes"@) { Option::None => false, Some(Json::Arr(items)) => forall|i: int| 0 <= i < items.len() ==> ((#[trigger] items[i]) matches Json::Int(n) && DestinyActivityModeType::spec_from_code(n) is Some), _ => false }
    &&& spec_lookup(fields, "isPrivate"@) matches Some(Json::Bool(_))
    &&& spec_lookup(fields, "membershipType"@) matches Some(Json::Int(n)) && BungieMembershipType::spec_from_code(n) is Some
}

/// How a decoded record relates to the document it came from.
pub open spec fn destiny_historical_stats_activity_fields_match(fields: Seq<(Seq<char>, Json)>, w: DestinyHistoricalStatsActivity) -> bool {
    &&& spec_lookup(fields, "referenceId"@) == Some(Json::Int(w.reference_id as int))
    &&& spec_lookup(fields, "directorActivityHash"@) == Some(Json::Int(w.director_activity_hash as int))
    &&& spec_lookup(fields, "instanceId"@) matches Some(Json::Str(s)) && is_u64_text(s) && w.instance_id as int == u64_text_val(s)
    &&& spec_lookup(fields, "mode"@) matches Some(Json::Int(n)) && Some(w.mode) == DestinyActivityModeType::spec_from_code(n)
    &&& match spec_lookup(fields, "modes"@) { Option::None => false, Some(Json::Arr(items)) => w.modes@.len() == items.len() && (forall|i: int| 0 <= i < items.len() ==> ((#[trigger] items[i]) matches Json::Int(n) && Some(w.modes@[i]) == DestinyActivityModeType::spec_from_code(n))), _ => false }
    &&& spec_lookup(fields, "isPrivate"@) == Some(Json::Bool(w.is_private))
    &&& spec_lookup(fields, "membershipType"@) matches Some(Json::Int(n)) && Some(w.membership_type) == BungieMembershipType::spec_from_code(n)
}

/// What a decode failure names: its path points at a field of the
/// document that is indeed not decodable, and an undeclared
/// enumeration code is reported with the enumeration's own message.
pub open spec fn destiny_historical_stats_activity_err_ok(j: Json, e: DecodeError) -> bool {
    &&& !(j matches Json::Obj(_)) ==> e.path@.len() == 0
    &&& j matches Json::Obj(fields) ==> (
        (e.path@ == "referenceId"@ && !(spec_lookup(fields, "referenceId"@) matches Some(Json::Int(n)) && 0 <= n <= u32::MAX as int))
        || (e.path@ == "directorActivityHash"@ && !(spec_lookup(fields, "directorActivityHash"@) matches Some(Json::Int(n)) && 0 <= n <= u32::MAX as int))
        || (e.path@ == "instanceId"@ && !(spec_lookup(fields, "instanceId"@) matches Some(Json::Str(s)) && is_u64_text(s)))
        || (e.path@ == "mode"@ && !(spec_lookup(fields, "mode"@) matches Some(Json::Int(n)) && DestinyActivityModeType::spec_from_code(n) is Some) && (match spec_lookup(fields, "mode"@) { Some(Json::Int(n)) => (i32::MIN as int <= n <= i32::MAX as int && DestinyActivityModeType::spec_from_code(n) is None) ==> e.message@ == DestinyActivityModeType::spec_unknown_code_message(n), _ => true }))
        || ((e.path@ == "modes"@ || spec_starts_with(e.path@, "modes"@)) && !(match spec_lookup(fields, "modes"@) { Option::None => false, Some(Json::Arr(items)) => forall|i: int| 0 <= i < items.len() ==> ((#[trigger] items[i]) matches Json::Int(n) && DestinyActivityModeType::spec_from_code(n) is Some), _ => false }))
        || (e.path@ == "isPrivate"@ && !(spec_lookup(fields, "isPrivate"@) matches Some(Json::Bool(_))))
        || (e.path@ == "membershipType"@ && !(spec_lookup(fields, "membershipType"@) matches Some(Json::Int(n)) && BungieMembershipType::spec_from_code(n) is Some) && (match spec_lookup(fields, "membershipType"@) { Some(Json::Int(n)) => (i32::MIN as int <= n <= i32::MAX as int && BungieMembershipType::spec_from_code(n) is None) ==> e.message@ == BungieMembershipType::spec_unknown_code_message(n), _ => true })))
}

pub fn encode_destiny_historical_stats_activity(v: &DestinyHistoricalStatsActivity) -> (r: JsonValue)
    ensures
        jview(r) == destiny_historical_stats_activity_json(*v),
{
    let mut fields: Vec<(String, JsonValue)> = Vec::new();
    fields.push(("referenceId".to_owned(), JsonValue::Int(v.reference_id as i64)));
    fields.push(("directorActivityHash".to_owned(), JsonValue::Int(v.director_activity_hash as i64)));
    fields.push(("instanceId".to_owned(), JsonValue::Str(u64_to_string(v.instance_id))));
    fields.push(("mode".to_owned(), JsonValue::Int(v.mode.code() as i64)));
    let arr_modes = {
        let mut items: Vec<JsonValue> = Vec::new();
        let mut i: usize = 0;
        while i < v.modes.len()
            invariant
                i <= v.modes.len(),
                items@.len() == i,
                forall|k: int| 0 <= k < i ==> jview(#[trigger] items@[k]) == Json::Int(v.modes@[k].spec_code()),
            decreases v.modes.len() - i,
        {
            items.push(JsonValue::Int(v.modes[i].code() as i64));
            i = i + 1;
        }
        JsonValue::Arr(items)
    };
    proof {
        assert(jview(arr_modes)->Arr_0 =~= destiny_historical_stats_activity_json(*v)->Obj_0[4].1->Arr_0);
    }
    fields.push(("modes".to_owned(), arr_modes));
    fields.push(("isPrivate".to_owned(), JsonValue::Bool(v.is_private)));
    fields.push(("membershipType".to_owned(), JsonValue::Int(v.membership_type.code() as i64)));
    let r = JsonValue::Obj(fields);
    proof {
        assert(jview(fields@[0].1) == destiny_historical_stats_activity_json(*v)->Obj_0[0].1);
        assert(jview(fields@[1].1) == destiny_historical_stats_activity_json(*v)->Obj_0[1].1);
        assert(jview(fields@[2].1) == destiny_historical_stats_activity_json(*v)->Obj_0[2].1);
        assert(jview(fields@[3].1) == destiny_historical_stats_activity_json(*v)->Obj_0[3].1);
        assert(jview(fields@[4].1) == destiny_historical_stats_activity_json(*v)->Obj_0[4].1);
        assert(jview(fields@[5].1) == destiny_historical_stats_activity_json(*v)->Obj_0[5].1);
        assert(jview(fields@[6].1) == destiny_historical_stats_activity_json(*v)->Obj_0[6].1);
        assert(jview(r)->Obj_0 =~= destiny_historical_stats_activity_json(*v)->Obj_0);
    }
    r
}

/// Decodes this record; a failure names the offending field in its
/// path and says what was expected of it.
#[verifier::loop_isolation(false)]
pub fn decode_destiny_historical_stats_activity(j: &JsonValue) -> (r: Result<DestinyHistoricalStatsActivity, DecodeError>)
    ensures
        r is Ok <==> destiny_historical_stats_activity_wf(jview(*j)),
        r matches Ok(w) ==> (jview(*j) matches Json::Obj(fields)
            && destiny_historical_stats_activity_fields_match(fields, w)),
        r matches Err(e) ==> destiny_historical_stats_activity_err_ok(jview(*j), e),
{
    let fields = match j {
        JsonValue::Obj(fields) => fields,
        _ => {
            return Err(root_error("an object"));
        },
    };
    let ghost gf = jview(*j)->Obj_0;
    let reference_id = match j.get("referenceId") {
        Some(v) => match v.to_i64() {
            Some(n) if 0 <= n && n <= u32::MAX as i64 => n as u32,
            _ => {
                return Err(field_error("referenceId", "a 32-bit unsigned integer"));
            },
        },
        _ => {
            return Err(field_error("referenceId", "a 32-bit unsigned integer"));
        },
    };
    let director_activity_hash = match j.get("directorActivityHash") {
        Some(v) => match v.to_i64() {
            Some(n) if 0 <= n && n <= u32::MAX as i64 => n as u32,
            _ => {
                return Err(field_error("directorActivityHash", "a 32-bit unsigned integer"));
            },
        },
        _ => {
            return Err(field_error("directorActivityHash", "a 32-bit unsigned integer"));
        },
    };
    let instance_id = match j.get("instanceId") {
        Some(JsonValue::Str(s)) => match crate::num::parse_u64(s.as_str()) {
            Some(id) => id,
            Option::None => {
                return Err(field_error("instanceId", "decimal digits denoting an unsigned 64-bit value"));
            },
        },
        _ => {
            return Err(field_error("instanceId", "decimal digits denoting an unsigned 64-bit value"));
        },
    };
    let mode = match j.get("mode") {
        Some(v) => match v.to_i64() {
            Some(n) if i32::MIN as i64 <= n && n <= i32::MAX as i64 => match DestinyActivityModeType::decode_code(n as i32) {
                Ok(t) => t,
                Err(e) => {
                    return Err(rekey_error("mode", e));
                },
            },
            _ => {
                return Err(field_error("mode", "a declared DestinyActivityModeType code"));
            },
        },
        _ => {
            return Err(field_error("mode", "a declared DestinyActivityModeType code"));
        },
    };
    let modes = match j.get("modes") {
        Option::None => {
            return Err(field_error("modes", "an array"));
        },
        Some(arr) => match arr {
            JsonValue::Arr(items) => {
                let ghost gitems = jview(*arr)->Arr_0;
                let mut out: Vec<DestinyActivityModeType> = Vec::new();
                let mut i: usize = 0;
                while i < items.len()
                    invariant
                        i <= items.len(),
                        out@.len() == i,
                        forall|k: int| 0 <= k < i ==> ((#[trigger] gitems[k]) matches Json::Int(n) && Some(out@[k]) == DestinyActivityModeType::spec_from_code(n)),
                    decreases items.len() - i,
                {
                    proof {
                        assert(gitems[i as int] == jview(items@[i as int]));
                    }
                    let n = match items[i].to_i64() {
                        Some(n) if i32::MIN as i64 <= n && n <= i32::MAX as i64 => n,
                        _ => {
                            return Err(indexed_error("modes", i, field_error("", "a declared DestinyActivityModeType code")));
                        },
                    };
                    let t = match DestinyActivityModeType::decode_code(n as i32) {
                        Ok(t) => t,
                        Err(e) => {
                            return Err(indexed_error("modes", i, e));
                        },
                    };
                    proof {
                        assert(gitems[i as int] matches Json::Int(m)
                            && Some(t) == DestinyActivityModeType::spec_from_code(m));
                    }
                    out.push(t);
                    i = i + 1;
                }
                out
            },
            _ => {
                return Err(field_error("modes", "an array"));
            },
        },
    };
    let is_private = match j.get("isPrivate") {
        Some(JsonValue::Bool(b)) => *b,
        _ => {
            return Err(field_error("isPrivate", "a boolean"));
        },
    };
    let membership_type = match j.get("membershipType") {
        Some(v) => match v.to_i64() {
            Some(n) if i32::MIN as i64 <= n && n <= i32::MAX as i64 => match BungieMembershipType::decode_code(n as i32) {
                Ok(t) => t,
                Err(e) => {
                    return Err(rekey_error("membershipType", e));
                },
            },
            _ => {
                return Err(field_error("membershipType", "a declared BungieMembershipType code"));
            },
        },
        _ => {
            return Err(field_error("membershipType", "a declared BungieMembershipType code"));
        },
    };
    Ok(DestinyHistoricalStatsActivity { reference_id, director_activity_hash, instance_id, mode, modes, is_private, membership_type })
}

/// The wire image of this record.
pub open spec fn destiny_historical_stats_value_json(v: DestinyHistoricalStatsValue) -> Json {
    Json::Obj(
        seq![
            ("statId"@, (match v.stat_id { Some(x) => Json::Str(x@), Option::None => Json::Null })),
            ("basic"@, destiny_historical_stats_value_pair_json(v.basic)),
            ("pga"@, (match v.pga { Some(x) => destiny_historical_stats_value_pair_json(x), Option::None => Json::Null })),
            ("weighted"@, (match v.weighted { Some(x) => destiny_historical_stats_value_pair_json(x), Option::None => Json::Null })),
            ("activityId"@, (match v.activity_id { Some(x) => Json::Int(x as int), Option::None => Json::Null })),
        ],
    )
}

/// Whether a document decodes as this record: unknown fields are tolerated.
pub open spec fn destiny_historical_stats_value_wf(j: Json) -> bool {
    &&& j matches Json::Obj(fields)
    &&& match spec_lookup(fields, "statId"@) { Option::None => true, Some(Json::Null) => true, Some(Json::Str(_)) => true, _ => false }
    &&& spec_lookup(fields, "basic"@) matches Some(inner) && destiny_historical_stats_value_pair_wf(inner)
    &&& match spec_lookup(fields, "pga"@) { Option::None => true, Some(Json::Null) => true, Some(inner) => destiny_historical_stats_value_pair_wf(inner) }
    &&& match spec_lookup(fields, "weighted"@) { Option::None => true, Some(Json::Null) => true, Some(inner) => destiny_historical_stats_value_pair_wf(inner) }
    &&& match spec_lookup(fields, "activityId"@) { Option::None => true, Some(Json::Null) => true, Some(Json::Int(n)) => i64::MIN <= n <= i64::MAX, _ => false }
}

/// How a decoded record relates to the document it came from.
pub open spec fn destiny_historical_stats_value_fields_match(fields: Seq<(Seq<char>, Json)>, w: DestinyHistoricalStatsValue) -> bool {
    &&& match w.stat_id { Some(x) => spec_lookup(fields, "statId"@) == Some(Json::Str(x@)), Option::None => spec_lookup(fields, "statId"@) is None || spec_lookup(fields, "statId"@) == Some(Json::Null) }
    &&& spec_lookup(fields, "basic"@) matches Some(Json::Obj(inner)) && destiny_historical_stats_value_pair_fields_match(inner, w.basic)
    &&& match w.pga { Some(x) => spec_lookup(fields, "pga"@) matches Some(Json::Obj(f2)) && destiny_historical_stats_value_pair_fields_match(f2, x), Option::None => spec_lookup(fields, "pga"@) is None || spec_lookup(fields, "pga"@) == Some(Json::Null) }
    &&& match w.weighted { Some(x) => spec_lookup(fields, "weighted"@) matches Some(Json::Obj(f2)) && destiny_historical_stats_value_pair_fields_match(f2, x), Option::None => spec_lookup(fields, "weighted"@) is None || spec_lookup(fields, "weighted"@) == Some(Json::Null) }
    &&& match w.activity_id { Some(x) => spec_lookup(fields, "activityId"@) == Some(Json::Int(x as int)), Option::None => spec_lookup(fields, "activityId"@) is None || spec_lookup(fields, "activityId"@) == Some(Json::Null) }
}

/// What a decode failure names: its path points at a field of the
/// document that is indeed not decodable, and an undeclared
/// enumeration code is reported with the enumeration's own message.
pub open spec fn destiny_historical_stats_value_err_ok(j: Json, e: DecodeError) -> bool {
    &&& !(j matches Json::Obj(_)) ==> e.path@.len() == 0
    &&& j matches Json::Obj(fields) ==> (
        (e.path@ == "statId"@ && !(match spec_lookup(fields, "statId"@) { Option::None => true, Some(Json::Null) => true, Some(Json::Str(_)) => true, _ => false }))
        || ((e.path@ == "basic"@ || spec_starts_with(e.path@, "basic"@)) && !(spec_lookup(fields, "basic"@) matches Some(inner) && destiny_historical_stats_value_pair_wf(inner)))
        || ((e.path@ == "pga"@ || spec_starts_with(e.path@, "pga"@)) && !(match spec_lookup(fields, "pga"@) { Option::None => true, Some(Json::Null) => true, Some(inner) => destiny_historical_stats_value_pair_wf(inner) }))
        || ((e.path@ == "weighted"@ || spec_starts_with(e.path@, "weighted"@)) && !(match spec_lookup(fields, "weighted"@) { Option::None => true, Some(Json::Null) => true, Some(inner) => destiny_historical_stats_value_pair_wf(inner) }))
        || (e.path@ == "activityId"@ && !(match spec_lookup(fields, "activityId"@) { Option::None => true, Some(Json::Null) => true, Some(Json::Int(n)) => i64::MIN <= n <= i64::MAX, _ => false })))
}

pub fn encode_destiny_historical_stats_value(v: &DestinyHistoricalStatsValue) -> (r: JsonValue)
    ensures
        jview(r) == destiny_historical_stats_value_json(*v),
{
    let mut fields: Vec<(String, JsonValue)> = Vec::new();
    fields.push(("statId".to_owned(), match &v.stat_id {
        Some(x) => JsonValue::Str(x.clone()),
        Option::None => JsonValue::Null,
    }));
    fields.push(("basic".to_owned(), encode_destiny_historical_stats_value_pair(&v.basic)));
    fields.push(("pga".to_owned(), match &v.pga {
        Some(x) => encode_destiny_historical_stats_value_pair(x),
        Option::None => JsonValue::Null,
    }));
    fields.push(("weighted".to_owned(), match &v.weighted {
        Some(x) => encode_destiny_historical_stats_value_pair(x),
        Option::None => JsonValue::Null,
    }));
    fields.push(("activityId".to_owned(), match &v.activity_id {
        Some(x) => JsonValue::Int(*x as i64),
        Option::None => JsonValue::Null,
    }));
    let r = JsonValue::Obj(fields);
    proof {
        assert(jview(fields@[0].1) == destiny_historical_stats_value_json(*v)->Obj_0[0].1);
        assert(jview(fields@[1].1) == destiny_historical_stats_value_json(*v)->Obj_0[1].1);
        assert(jview(fields@[2].1) == destiny_historical_stats_value_json(*v)->Obj_0[2].1);
        assert(jview(fields@[3].1) == destiny_historical_stats_value_json(*v)->Obj_0[3].1);
        assert(jview(fields@[4].1) == destiny_historical_stats_value_json(*v)->Obj_0[4].1);
        assert(jview(r)->Obj_0 =~= destiny_historical_stats_value_json(*v)->Obj_0);
    }
    r
}

/// Decodes this record; a failure names the offending field in its
/// path and says what was expected of it.
#[verifier::loop_isolation(false)]
pub fn decode_destiny_historical_stats_value(j: &JsonValue) -> (r: Result<DestinyHistoricalStatsValue, DecodeError>)
    ensures
        r is Ok <==> destiny_historical_stats_value_wf(jview(*j)),
        r matches Ok(w) ==> (jview(*j) matches Json::Obj(fields)
            && destiny_historical_stats_value_fields_match(fields, w)),
        r matches Err(e) ==> destiny_historical_stats_value_err_ok(jview(*j), e),
{
    let fields = match j {
        JsonValue::Obj(fields) => fields,
        _ => {
            return Err(root_error("an object"));
        },
    };
    let ghost gf = jview(*j)->Obj_0;
    let stat_id = match j.get("statId") {
        Option::None => Option::None,
        Some(JsonValue::Null) => Option::None,
        Some(JsonValue::Str(s)) => Some(s.clone()),
        _ => {
            return Err(field_error("statId", "a string or null"));
        },
    };
    let basic = match j.get("basic") {
        Some(inner) => match decode_destiny_historical_stats_value_pair(inner) {
            Ok(r) => r,
            Err(e) => {
                return Err(nested_error("basic", e));
            },
        },
        _ => {
            return Err(field_error("basic", "an object"));
        },
    };
    let pga = match j.get("pga") {
        Option::None => Option::None,
        Some(JsonValue::Null) => Option::None,
        Some(inner) => match decode_destiny_historical_stats_value_pair(inner) {
            Ok(r) => Some(r),
            Err(e) => {
                return Err(nested_error("pga", e));
            },
        },
    };
    let weighted = match j.get("weighted") {
        Option::None => Option::None,
        Some(JsonValue::Null) => Option::None,
        Some(inner) => match decode_destiny_historical_stats_value_pair(inner) {
            Ok(r) => Some(r),
            Err(e) => {
                return Err(nested_error("weighted", e));
            },
        },
    };
    let activity_id = match j.get("activityId") {
        Option::None => Option::None,
        Some(JsonValue::Null) => Option::None,
        Some(v) => match v.to_i64() {
            Some(n) => Some(n),
            _ => {
                return Err(field_error("activityId", "a 64-bit integer or null"));
            },
        },
    };
    Ok(DestinyHistoricalStatsValue { stat_id, basic, pga, weighted, activity_id })
}

/// The wire image of this record.
pub open spec fn destiny_historical_stats_period_group_json(v: DestinyHistoricalStatsPeriodGroup) -> Json {
    Json::Obj(
        seq![
            ("period"@, Json::Str(v.period.raw@)),
            ("activityDetails"@, destiny_historical_stats_activity_json(v.activity_details)),
            ("values"@, Json::Obj(Seq::new(v.values@.len(), |i: int| if 0 <= i < v.values@.len() { (v.values@[i].0@, destiny_historical_stats_value_json(v.values@[i].1)) } else { (Seq::empty(), Json::Null) }))),
        ],
    )
}

/// Whether a document decodes as this record: unknown fields are tolerated.
pub open spec fn destiny_historical_stats_period_group_wf(j: Json) -> bool {
    &&& j matches Json::Obj(fields)
    &&& spec_lookup(fields, "period"@) matches Some(Json::Str(s)) && rfc3339_ok(s)
    &&& spec_lookup(fields, "activityDetails"@) matches Some(inner) && destiny_historical_stats_activity_wf(inner)
    &&& match spec_lookup(fields, "values"@) { Option::None => false, Some(Json::Obj(entries)) => forall|i: int| 0 <= i < entries.len() ==> destiny_historical_stats_value_wf((#[trigger] entries[i]).1), _ => false }
}

/// How a decoded record relates to the document it came from.
pub open spec fn destiny_historical_stats_period_group_fields_match(fields: Seq<(Seq<char>, Json)>, w: DestinyHistoricalStatsPeriodGroup) -> bool {
    &&& spec_lookup(fields, "period"@) == Some(Json::Str(w.period.raw@)) && w.period.wf()
    &&& spec_lookup(fields, "activityDetails"@) matches Some(Json::Obj(inner)) && destiny_historical_stats_activity_fields_match(inner, w.activity_details)
    &&& match spec_lookup(fields, "values"@) { Some(Json::Obj(entries)) => w.values@.len() == entries.len() && (forall|i: int| 0 <= i < entries.len() ==> ((#[trigger] entries[i]).0 == w.values@[i].0@ && (entries[i].1 matches Json::Obj(f2) && destiny_historical_stats_value_fields_match(f2, w.values@[i].1)))), _ => false }
}

/// What a decode failure names: its path points at a field of the
/// document that is indeed not decodable, and an undeclared
/// enumeration code is reported with the enumeration's own message.
pub open spec fn destiny_historical_stats_period_group_err_ok(j: Json, e: DecodeError) -> bool {
    &&& !(j matches Json::Obj(_)) ==> e.path@.len() == 0
    &&& j matches Json::Obj(fields) ==> (
        (e.path@ == "period"@ && !(spec_lookup(fields, "period"@) matches Some(Json::Str(s)) && rfc3339_ok(s)))
        || ((e.path@ == "activityDetails"@ || spec_starts_with(e.path@, "activityDetails"@)) && !(spec_lookup(fields, "activityDetails"@) matches Some(inner) && destiny_historical_stats_activity_wf(inner)))
        || ((e.path@ == "values"@ || spec_starts_with(e.path@, "values"@)) && !(match spec_lookup(fields, "values"@) { Option::None => false, Some(Json::Obj(entries)) => forall|i: int| 0 <= i < entries.len() ==> destiny_historical_stats_value_wf((#[trigger] entries[i]).1), _ => false })))
}

pub fn encode_destiny_historical_stats_period_group(v: &DestinyHistoricalStatsPeriodGroup) -> (r: JsonValue)
    ensures
        jview(r) == destiny_historical_stats_period_group_json(*v),
{
    let mut fields: Vec<(String, JsonValue)> = Vec::new();
    fields.push(("period".to_owned(), JsonValue::Str(v.period.raw.clone())));
    fields.push(("activityDetails".to_owned(), encode_destiny_historical_stats_activity(&v.activity_details)));
    let map_values = {
        let mut entries: Vec<(String, JsonValue)> = Vec::new();
        let mut i: usize = 0;
        while i < v.values.len()
            invariant
                i <= v.values.len(),
                entries@.len() == i,
                forall|k: int| 0 <= k < i
                    ==> (#[trigger] entries@[k]).0@ == v.values@[k].0@ && jview(entries@[k].1) == destiny_historical_stats_value_json(v.values@[k].1),
            decreases v.values.len() - i,
        {
            entries.push((v.values[i].0.clone(), encode_destiny_historical_stats_value(&v.values[i].1)));
            i = i + 1;
        }
        JsonValue::Obj(entries)
    };
    proof {
        assert(jview(map_values)->Obj_0 =~= destiny_historical_stats_period_group_json(*v)->Obj_0[2].1->Obj_0);
    }
    fields.push(("values".to_owned(), map_values));
    let r = JsonValue::Obj(fields);
    proof {
        assert(jview(fields@[0].1) == destiny_historical_stats_period_group_json(*v)->Obj_0[0].1);
        assert(jview(fields@[1].1) == destiny_historical_stats_period_group_json(*v)->Obj_0[1].1);
        assert(jview(fields@[2].1) == destiny_historical_stats_period_group_json(*v)->Obj_0[2].1);
        assert(jview(r)->Obj_0 =~= destiny_historical_stats_period_group_json(*v)->Obj_0);
    }
    r
}

/// Decodes this record; a failure names the offending field in its
/// path and says what was expected of it.
#[verifier::loop_isolation(false)]
pub fn decode_destiny_historical_stats_period_group(j: &JsonValue) -> (r: Result<DestinyHistoricalStatsPeriodGroup, DecodeError>)
    ensures
        r is Ok <==> destiny_historical_stats_period_group_wf(jview(*j)),
        r matches Ok(w) ==> (jview(*j) matches Json::Obj(fields)
            && destiny_historical_stats_period_group_fields_match(fields, w)),
        r matches Err(e) ==> destiny_historical_stats_period_group_err_ok(jview(*j), e),
{
    let fields = match j {
        JsonValue::Obj(fields) => fields,
        _ => {
            return Err(root_error("an object"));
        },
    };
    let ghost gf = jview(*j)->Obj_0;
    let period = match j.get("period") {
        Some(JsonValue::Str(s)) => match Timestamp::parse(s.clone()) {
            Some(t) => t,
            Option::None => {
                return Err(field_error("period", "RFC 3339 date-time text"));
            },
        },
        _ => {
            return Err(field_error("period", "RFC 3339 date-time text"));
        },
    };
    let activity_details = match j.get("activityDetails") {
        Some(inner) => match decode_destiny_historical_stats_activity(inner) {
            Ok(r) => r,
            Err(e) => {
                return Err(nested_error("activityDetails", e));
            },
        },
        _ => {
            return Err(field_error("activityDetails", "an object"));
        },
    };
    let values = match j.get("values") {
        Some(map) => match map {
            JsonValue::Obj(entries) => {
                let ghost gentries = jview(*map)->Obj_0;
                let mut out: Vec<(String, DestinyHistoricalStatsValue)> = Vec::new();
                let mut i: usize = 0;
                while i < entries.len()
                    invariant
                        i <= entries.len(),
                        out@.len() == i,
                        forall|k: int| 0 <= k < i
                            ==> ((#[trigger] gentries[k]).0 == out@[k].0@ && destiny_historical_stats_value_wf(gentries[k].1) && (gentries[k].1 matches Json::Obj(f2) && destiny_historical_stats_value_fields_match(f2, out@[k].1))),
                    decreases entries.len() - i,
                {
                    proof {
                        assert(gentries[i as int]
                            == (entries@[i as int].0@, jview(entries@[i as int].1)));
                    }
                    match decode_destiny_historical_stats_value(&entries[i].1) {
                        Ok(r) => {
                            out.push((entries[i].0.clone(), r));
                        },
                        Err(e) => {
                            return Err(nested_error("values", nested_error(entries[i].0.as_str(), e)));
                        },
                    }
                    i = i + 1;
                }
                out
            },
            _ => {
                return Err(field_error("values", "a mapping object"));
            },
        },
        _ => {
            return Err(field_error("values", "a mapping object"));
        },
    };
    Ok(DestinyHistoricalStatsPeriodGroup { period, activity_details, values })
}

/// The wire image of this record.
pub open spec fn destiny_activity_history_results_json(v: DestinyActivityHistoryResults) -> Json {
    Json::Obj(
        seq![
            ("activities"@, Json::Arr(Seq::new(v.activities@.len(), |i: int| if 0 <= i < v.activities@.len() { destiny_historical_stats_period_group_json(v.activities@[i]) } else { Json::Null }))),
        ],
    )
}

/// Whether a document decodes as this record: unknown fields are tolerated.
pub open spec fn destiny_activity_history_results_wf(j: Json) -> bool {
    &&& j matches Json::Obj(fields)
    &&& match spec_lookup(fields, "activities"@) { Option::None => false, Some(Json::Arr(items)) => forall|i: int| 0 <= i < items.len() ==> destiny_historical_stats_period_group_wf(#[trigger] items[i]), _ => false }
}

/// How a decoded record relates to the document it came from.
pub open spec fn destiny_activity_history_results_fields_match(fields: Seq<(Seq<char>, Json)>, w: DestinyActivityHistoryResults) -> bool {
    &&& match spec_lookup(fields, "activities"@) { Option::None => false, Some(Json::Arr(items)) => w.activities@.len() == items.len() && (forall|i: int| 0 <= i < items.len() ==> ((#[trigger] items[i]) matches Json::Obj(f2) && destiny_historical_stats_period_group_fields_match(f2, w.activities@[i]))), _ => false }
}

/// What a decode failure names: its path points at a field of the
/// document that is indeed not decodable, and an undeclared
/// enumeration code is reported with the enumeration's own message.
pub open spec fn destiny_activity_history_results_err_ok(j: Json, e: DecodeError) -> bool {
    &&& !(j matches Json::Obj(_)) ==> e.path@.len() == 0
    &&& j matches Json::Obj(fields) ==> (
        ((e.path@ == "activities"@ || spec_starts_with(e.path@, "activities"@)) && !(match spec_lookup(fields, "activities"@) { Option::None => false, Some(Json::Arr(items)) => forall|i: int| 0 <= i < items.len() ==> destiny_historical_stats_period_group_wf(#[trigger] items[i]), _ => false })))
}

pub fn encode_destiny_activity_history_results(v: &DestinyActivityHistoryResults) -> (r: JsonValue)
    ensures
        jview(r) == destiny_activity_history_results_json(*v),
{
    let mut fields: Vec<(String, JsonValue)> = Vec::new();
    let arr_activities = {
        let mut items: Vec<JsonValue> = Vec::new();
        let mut i: usize = 0;
        while i < v.activities.len()
            invariant
                i <= v.activities.len(),
                items@.len() == i,
                forall|k: int| 0 <= k < i ==> jview(#[trigger] items@[k]) == destiny_historical_stats_period_group_json(v.activities@[k]),
            decreases v.activities.len() - i,
        {
            items.push(encode_destiny_historical_stats_period_group(&v.activities[i]));
            i = i + 1;
        }
        JsonValue::Arr(items)
    };
    proof {
        assert(jview(arr_activities)->Arr_0 =~= destiny_activity_history_results_json(*v)->Obj_0[0].1->Arr_0);
    }
    fields.push(("activities".to_owned(), arr_activities));
    let r = JsonValue::Obj(fields);
    proof {
        assert(jview(fields@[0].1) == destiny_activity_history_results_json(*v)->Obj_0[0].1);
        assert(jview(r)->Obj_0 =~= destiny_activity_history_results_json(*v)->Obj_0);
    }
    r
}

/// Decodes this record; a failure names the offending field in its
/// path and says what was expected of it.
#[verifier::loop_isolation(false)]
pub fn decode_destiny_activity_history_results(j: &JsonValue) -> (r: Result<DestinyActivityHistoryResults, DecodeError>)
    ensures
        r is Ok <==> destiny_activity_history_results_wf(jview(*j)),
        r matches Ok(w) ==> (jview(*j) matches Json::Obj(fields)
            && destiny_activity_history_results_fields_match(fields, w)),
        r matches Err(e) ==> destiny_activity_history_results_err_ok(jview(*j), e),
{
    let fields = match j {
        JsonValue::Obj(fields) => fields,
        _ => {
            return Err(root_error("an object"));
        },
    };
    let ghost gf = jview(*j)->Obj_0;
    let activities = match j.get("activities") {
        Option::None => {
            return Err(field_error("activities", "an array"));
        },
        Some(arr) => match arr {
            JsonValue::Arr(items) => {
                let ghost gitems = jview(*arr)->Arr_0;
                let mut out: Vec<DestinyHistoricalStatsPeriodGroup> = Vec::new();
                let mut i: usize = 0;
                while i < items.len()
                    invariant
                        i <= items.len(),
                        out@.len() == i,
                        forall|k: int| 0 <= k < i
                            ==> (destiny_historical_stats_period_group_wf(#[trigger] gitems[k])
                                && (gitems[k] matches Json::Obj(f2)
                                && destiny_historical_stats_period_group_fields_match(f2, out@[k]))),
                    decreases items.len() - i,
                {
                    proof {
                        assert(gitems[i as int] == jview(items@[i as int]));
                    }
                    match decode_destiny_historical_stats_period_group(&items[i]) {
                        Ok(r) => {
                            out.push(r);
                        },
                        Err(e) => {
                            return Err(indexed_error("activities", i, e));
                        },
                    }
                    i = i + 1;
                }
                out
            },
            _ => {
                return Err(field_error("activities", "an array"));
            },
        },
    };
    Ok(DestinyActivityHistoryResults { activities })
}

/// Decodes a definition-manifest file: a mapping from hash text to
/// one kind of definition, kept in wire order.  A failure names the
/// offending entry and the field inside it.
#[verifier::loop_isolation(false)]
pub fn decode_destiny_inventory_item_definition_manifest(j: &JsonValue) -> (r: Result<crate::DestinyInventoryItemManifest, DecodeError>)
    ensures
        r is Ok <==> (jview(*j) matches Json::Obj(entries)
            && (forall|i: int| 0 <= i < entries.len()
                ==> destiny_inventory_item_definition_wf((#[trigger] entries[i]).1))),
        r matches Ok(out) ==> (jview(*j) matches Json::Obj(entries)
            && out@.len() == entries.len()
            && (forall|i: int| 0 <= i < entries.len()
                ==> ((#[trigger] out@[i]).0@ == entries[i].0
                    && (entries[i].1 matches Json::Obj(f2)
                    && destiny_inventory_item_definition_fields_match(f2, out@[i].1))))),
        r matches Err(e) ==> (match jview(*j) {
            Json::Obj(entries) => exists|i: int| 0 <= i < entries.len()
                && spec_starts_with(e.path@, (#[trigger] entries[i]).0)
                && !destiny_inventory_item_definition_wf(entries[i].1),
            _ => e.path@.len() == 0,
        }),
{
    let entries = match j {
        JsonValue::Obj(entries) => entries,
        _ => {
            return Err(root_error("a definition mapping object"));
        },
    };
    let ghost gentries = jview(*j)->Obj_0;
    let mut out: Vec<(String, DestinyInventoryItemDefinition)> = Vec::new();
    let mut i: usize = 0;
    while i < entries.len()
        invariant
            i <= entries.len(),
            out@.len() == i,
            forall|k: int| 0 <= k < i
                ==> (out@[k].0@ == (#[trigger] gentries[k]).0
                    && destiny_inventory_item_definition_wf(gentries[k].1)
                    && (gentries[k].1 matches Json::Obj(f2)
                    && destiny_inventory_item_definition_fields_match(f2, out@[k].1))),
        decreases entries.len() - i,
    {
        proof {
            assert(gentries[i as int]
                == (entries@[i as int].0@, jview(entries@[i as int].1)));
        }
        match decode_destiny_inventory_item_definition(&entries[i].1) {
            Ok(v) => {
                out.push((entries[i].0.clone(), v));
            },
            Err(e) => {
                return Err(nested_error(entries[i].0.as_str(), e));
            },
        }
        i = i + 1;
    }
    Ok(out)
}

/// Decodes a definition-manifest file: a mapping from hash text to
/// one kind of definition, kept in wire order.  A failure names the
/// offending entry and the field inside it.
#[verifier::loop_isolation(false)]
pub fn decode_destiny_socket_type_definition_manifest(j: &JsonValue) -> (r: Result<crate::DestinySocketTypeManifest, DecodeError>)
    ensures
        r is Ok <==> (jview(*j) matches Json::Obj(entries)
            && (forall|i: int| 0 <= i < entries.len()
                ==> destiny_socket_type_definition_wf((#[trigger] entries[i]).1))),
        r matches Ok(out) ==> (jview(*j) matches Json::Obj(entries)
            && out@.len() == entries.len()
            && (forall|i: int| 0 <= i < entries.len()
                ==> ((#[trigger] out@[i]).0@ == entries[i].0
                    && (entries[i].1 matches Json::Obj(f2)
                    && destiny_socket_type_definition_fields_match(f2, out@[i].1))))),
        r matches Err(e) ==> (match jview(*j) {
            Json::Obj(entries) => exists|i: int| 0 <= i < entries.len()
                && spec_starts_with(e.path@, (#[trigger] entries[i]).0)
                && !destiny_socket_type_definition_wf(entries[i].1),
            _ => e.path@.len() == 0,
        }),
{
    let entries = match j {
        JsonValue::Obj(entries) => entries,
        _ => {
            return Err(root_error("a definition mapping object"));
        },
    };
    let ghost gentries = jview(*j)->Obj_0;
    let mut out: Vec<(String, DestinySocketTypeDefinition)> = Vec::new();
    let mut i: usize = 0;
    while i < entries.len()
        invariant
            i <= entries.len(),
            out@.len() == i,
            forall|k: int| 0 <= k < i
                ==> (out@[k].0@ == (#[trigger] gentries[k]).0
                    && destiny_socket_type_definition_wf(gentries[k].1)
                    && (gentries[k].1 matches Json::Obj(f2)
                    && destiny_socket_type_definition_fields_match(f2, out@[k].1))),
        decreases entries.len() - i,
    {
        proof {
            assert(gentries[i as int]
                == (entries@[i as int].0@, jview(entries@[i as int].1)));
        }
        match decode_destiny_socket_type_definition(&entries[i].1) {
            Ok(v) => {
                out.push((entries[i].0.clone(), v));
            },
            Err(e) => {
                return Err(nested_error(entries[i].0.as_str(), e));
            },
        }
        i = i + 1;
    }
    Ok(out)
}

/// Decodes a definition-manifest file: a mapping from hash text to
/// one kind of definition, kept in wire order.  A failure names the
/// offending entry and the field inside it.
#[verifier::loop_isolation(false)]
pub fn decode_destiny_socket_category_definition_manifest(j: &JsonValue) -> (r: Result<crate::DestinySocketCategoryManifest, DecodeError>)
    ensures
        r is Ok <==> (jview(*j) matches Json::Obj(entries)
            && (forall|i: int| 0 <= i < entries.len()
                ==> destiny_socket_category_definition_wf((#[trigger] entries[i]).1))),
        r matches Ok(out) ==> (jview(*j) matches Json::Obj(entries)
            && out@.len() == entries.len()
            && (forall|i: int| 0 <= i < entries.len()
                ==> ((#[trigger] out@[i]).0@ == entries[i].0
                    && (entries[i].1 matches Json::Obj(f2)
                    && destiny_socket_category_definition_fields_match(f2, out@[i].1))))),
        r matches Err(e) ==> (match jview(*j) {
            Json::Obj(entries) => exists|i: int| 0 <= i < entries.len()
                && spec_starts_with(e.path@, (#[trigger] entries[i]).0)
                && !destiny_socket_category_definition_wf(entries[i].1),
            _ => e.path@.len() == 0,
        }),
{
    let entries = match j {
        JsonValue::Obj(entries) => entries,
        _ => {
            return Err(root_error("a definition mapping object"));
        },
    };
    let ghost gentries = jview(*j)->Obj_0;
    let mut out: Vec<(String, DestinySocketCategoryDefinition)> = Vec::new();
    let mut i: usize = 0;
    while i < entries.len()
        invariant
            i <= entries.len(),
            out@.len() == i,
            forall|k: int| 0 <= k < i
                ==> (out@[k].0@ == (#[trigger] gentries[k]).0
                    && destiny_socket_category_definition_wf(gentries[k].1)
                    && (gentries[k].1 matches Json::Obj(f2)
                    && destiny_socket_category_definition_fields_match(f2, out@[k].1))),
        decreases entries.len() - i,
    {
        proof {
            assert(gentries[i as int]
                == (entries@[i as int].0@, jview(entries@[i as int].1)));
        }
        match decode_destiny_socket_category_definition(&entries[i].1) {
            Ok(v) => {
                out.push((entries[i].0.clone(), v));
            },
            Err(e) => {
                return Err(nested_error(entries[i].0.as_str(), e));
            },
        }
        i = i + 1;
    }
    Ok(out)
}

/// Decodes a definition-manifest file: a mapping from hash text to
/// one kind of definition, kept in wire order.  A failure names the
/// offending entry and the field inside it.
#[verifier::loop_isolation(false)]
pub fn decode_destiny_plug_set_definition_manifest(j: &JsonValue) -> (r: Result<crate::DestinyPlugSetManifest, DecodeError>)
    ensures
        r is Ok <==> (jview(*j) matches Json::Obj(entries)
            && (forall|i: int| 0 <= i < entries.len()
                ==> destiny_plug_set_definition_wf((#[trigger] entries[i]).1))),
        r matches Ok(out) ==> (jview(*j) matches Json::Obj(entries)
            && out@.len() == entries.len()
            && (forall|i: int| 0 <= i < entries.len()
                ==> ((#[trigger] out@[i]).0@ == entries[i].0
                    && (entries[i].1 matches Json::Obj(f2)
                    && destiny_plug_set_definition_fields_match(f2, out@[i].1))))),
        r matches Err(e) ==> (match jview(*j) {
            Json::Obj(entries) => exists|i: int| 0 <= i < entries.len()
                && spec_starts_with(e.path@, (#[trigger] entries[i]).0)
                && !destiny_plug_set_definition_wf(entries[i].1),
            _ => e.path@.len() == 0,
        }),
{
    let entries = match j {
        JsonValue::Obj(entries) => entries,
        _ => {
            return Err(root_error("a definition mapping object"));
        },
    };
    let ghost gentries = jview(*j)->Obj_0;
    let mut out: Vec<(String, DestinyPlugSetDefinition)> = Vec::new();
    let mut i: usize = 0;
    while i < entries.len()
        invariant
            i <= entries.len(),
            out@.len() == i,
            forall|k: int| 0 <= k < i
                ==> (out@[k].0@ == (#[trigger] gentries[k]).0
                    && destiny_plug_set_definition_wf(gentries[k].1)
                    && (gentries[k].1 matches Json::Obj(f2)
                    && destiny_plug_set_definition_fields_match(f2, out@[k].1))),
        decreases entries.len() - i,
    {
        proof {
            assert(gentries[i as int]
                == (entries@[i as int].0@, jview(entries@[i as int].1)));
        }
        match decode_destiny_plug_set_definition(&entries[i].1) {
            Ok(v) => {
                out.push((entries[i].0.clone(), v));
            },
            Err(e) => {
                return Err(nested_error(entries[i].0.as_str(), e));
            },
        }
        i = i + 1;
    }
    Ok(out)
}

} // verus!
