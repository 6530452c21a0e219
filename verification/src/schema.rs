//! The schema layer: the record definitions, closed enumerations and
//! bit-flag sets that the remote service's JSON shapes decode into.
//!
//! Every closed enumeration carries a verified codec: decoding an
//! integer outside its declared set fails, and every declared integer
//! decodes and re-encodes to itself.  Every bit-flag set decodes by
//! masking against its known bits, silently truncating unknown ones,
//! and re-encodes losslessly from what it kept.  Records hold their
//! wire fields as plain values: timestamps keep their text (validated
//! on decode), non-integer numbers keep their decimal text, and maps
//! keep their entries in wire order.

use vstd::prelude::*;

use crate::error::DecodeError;
use crate::num::i64_to_string;
use crate::num::int_dec_string;
use crate::wire::rfc3339_ok;
use crate::wire::rfc3339_valid;

verus! {

/// A point in time, kept as the RFC 3339 text it arrived as.
#[derive(Debug, Clone, PartialEq)]
pub struct Timestamp {
    pub raw: String,
}

impl Timestamp {
    /// A timestamp is well-formed when its text is acceptable
    /// RFC 3339 date-time text.
    pub open spec fn wf(self) -> bool {
        rfc3339_ok(self.raw@)
    }

    /// Validates timestamp text; accepts exactly well-formed text and
    /// keeps it verbatim.
    pub fn parse(text: String) -> (r: Option<Timestamp>)
        ensures
            match r {
                Some(t) => t.wf() && t.raw@ == text@,
                None => !rfc3339_ok(text@),
            },
    {
        if rfc3339_valid(text.as_str()) {
            Some(Timestamp { raw: text })
        } else {
            None
        }
    }
}

/// A non-integer wire number, kept as its decimal text.
#[derive(Debug, Clone, PartialEq)]
pub struct FloatText {
    pub text: String,
}

#[derive(Debug, Clone, Copy, PartialEq, Eq)]
pub enum ComponentPrivacySetting {
    NoneValue,
    Public,
    Private,
}

impl ComponentPrivacySetting {
    /// The wire code this value stands for.
    pub open spec fn spec_code(self) -> int {
        match self {
            ComponentPrivacySetting::NoneValue => 0,
            ComponentPrivacySetting::Public => 1,
            ComponentPrivacySetting::Private => 2,
        }
    }

    /// The value a wire code decodes to, if it is declared.
    pub open spec fn spec_from_code(code: int) -> Option<ComponentPrivacySetting> {
        if code == 0 {
            Some(ComponentPrivacySetting::NoneValue)
        } else if code == 1 {
            Some(ComponentPrivacySetting::Public)
        } else if code == 2 {
            Some(ComponentPrivacySetting::Private)
        } else {
            None
        }
    }

    /// Decodes a wire code; an integer outside the declared set fails.
    pub fn from_code(code: u8) -> (r: Option<ComponentPrivacySetting>)
        ensures
            r == ComponentPrivacySetting::spec_from_code(code as int),
    {
        match code {
            0 => Some(ComponentPrivacySetting::NoneValue),
            1 => Some(ComponentPrivacySetting::Public),
            2 => Some(ComponentPrivacySetting::Private),
            _ => None,
        }
    }

    /// Re-encodes to the declared integer.
    pub fn code(&self) -> (r: u8)
        ensures
            r as int == self.spec_code(),
    {
        match self {
            ComponentPrivacySetting::NoneValue => 0,
            ComponentPrivacySetting::Public => 1,
            ComponentPrivacySetting::Private => 2,
        }
    }

    /// Every declared value round-trips through its code, and a
    /// declared code decodes to the value that re-encodes to it.
    pub proof fn lemma_code_round_trip(v: ComponentPrivacySetting, code: int)
        ensures
            ComponentPrivacySetting::spec_from_code(v.spec_code()) == Some(v),
            ComponentPrivacySetting::spec_from_code(code) matches Some(w) ==> w.spec_code() == code,
    {
    }
}

#[derive(Debug, Clone, Copy, PartialEq, Eq)]
pub enum DestinyProgressionScope {
    Account,
    Character,
    Clan,
    Item,
    ImplicitFromEquipment,
    Mapped,
    MappedAggregate,
    MappedStat,
    MappedUnlockValue,
}

impl DestinyProgressionScope {
    /// The wire code this value stands for.
    pub open spec fn spec_code(self) -> int {
        match self {
            DestinyProgressionScope::Account => 0,
            DestinyProgressionScope::Character => 1,
            DestinyProgressionScope::Clan => 2,
            DestinyProgressionScope::Item => 3,
            DestinyProgressionScope::ImplicitFromEquipment => 4,
            DestinyProgressionScope::Mapped => 5,
            DestinyProgressionScope::MappedAggregate => 6,
            DestinyProgressionScope::MappedStat => 7,
            DestinyProgressionScope::MappedUnlockValue => 8,
        }
    }

    /// The value a wire code decodes to, if it is declared.
    pub open spec fn spec_from_code(code: int) -> Option<DestinyProgressionScope> {
        if code == 0 {
            Some(DestinyProgressionScope::Account)
        } else if code == 1 {
            Some(DestinyProgressionScope::Character)
        } else if code == 2 {
            Some(DestinyProgressionScope::Clan)
        } else if code == 3 {
            Some(DestinyProgressionScope::Item)
        } else if code == 4 {
            Some(DestinyProgressionScope::ImplicitFromEquipment)
        } else if code == 5 {
            Some(DestinyProgressionScope::Mapped)
        } else if code == 6 {
            Some(DestinyProgressionScope::MappedAggregate)
        } else if code == 7 {
            Some(DestinyProgressionScope::MappedStat)
        } else if code == 8 {
            Some(DestinyProgressionScope::MappedUnlockValue)
        } else {
            None
        }
    }

    /// Decodes a wire code; an integer outside the declared set fails.
    pub fn from_code(code: u8) -> (r: Option<DestinyProgressionScope>)
        ensures
            r == DestinyProgressionScope::spec_from_code(code as int),
    {
        match code {
            0 => Some(DestinyProgressionScope::Account),
            1 => Some(DestinyProgressionScope::Character),
            2 => Some(DestinyProgressionScope::Clan),
            3 => Some(DestinyProgressionScope::Item),
            4 => Some(DestinyProgressionScope::ImplicitFromEquipment),
            5 => Some(DestinyProgressionScope::Mapped),
            6 => Some(DestinyProgressionScope::MappedAggregate),
            7 => Some(DestinyProgressionScope::MappedStat),
            8 => Some(DestinyProgressionScope::MappedUnlockValue),
            _ => None,
        }
    }

    /// Re-encodes to the declared integer.
    pub fn code(&self) -> (r: u8)
        ensures
            r as int == self.spec_code(),
    {
        match self {
            DestinyProgressionScope::Account => 0,
            DestinyProgressionScope::Character => 1,
            DestinyProgressionScope::Clan => 2,
            DestinyProgressionScope::Item => 3,
            DestinyProgressionScope::ImplicitFromEquipment => 4,
            DestinyProgressionScope::Mapped => 5,
            DestinyProgressionScope::MappedAggregate => 6,
            DestinyProgressionScope::MappedStat => 7,
            DestinyProgressionScope::MappedUnlockValue => 8,
        }
    }

    /// Every declared value round-trips through its code, and a
    /// declared code decodes to the value that re-encodes to it.
    pub proof fn lemma_code_round_trip(v: DestinyProgressionScope, code: int)
        ensures
            DestinyProgressionScope::spec_from_code(v.spec_code()) == Some(v),
            DestinyProgressionScope::spec_from_code(code) matches Some(w) ==> w.spec_code() == code,
    {
    }
}

#[derive(Debug, Clone, Copy, PartialEq, Eq)]
pub enum DestinyProgressionStepDisplayEffect {
    NoneValue,
    Character,
    Item,
}

impl DestinyProgressionStepDisplayEffect {
    /// The wire code this value stands for.
    pub open spec fn spec_code(self) -> int {
        match self {
            DestinyProgressionStepDisplayEffect::NoneValue => 0,
            DestinyProgressionStepDisplayEffect::Character => 1,
            DestinyProgressionStepDisplayEffect::Item => 2,
        }
    }

    /// The value a wire code decodes to, if it is declared.
    pub open spec fn spec_from_code(code: int) -> Option<DestinyProgressionStepDisplayEffect> {
        if code == 0 {
            Some(DestinyProgressionStepDisplayEffect::NoneValue)
        } else if code == 1 {
            Some(DestinyProgressionStepDisplayEffect::Character)
        } else if code == 2 {
            Some(DestinyProgressionStepDisplayEffect::Item)
        } else {
            None
        }
    }

    /// Decodes a wire code; an integer outside the declared set fails.
    pub fn from_code(code: u8) -> (r: Option<DestinyProgressionStepDisplayEffect>)
        ensures
            r == DestinyProgressionStepDisplayEffect::spec_from_code(code as int),
    {
        match code {
            0 => Some(DestinyProgressionStepDisplayEffect::NoneValue),
            1 => Some(DestinyProgressionStepDisplayEffect::Character),
            2 => Some(DestinyProgressionStepDisplayEffect::Item),
            _ => None,
        }
    }

    /// Re-encodes to the declared integer.
    pub fn code(&self) -> (r: u8)
        ensures
            r as int == self.spec_code(),
    {
        match self {
            DestinyProgressionStepDisplayEffect::NoneValue => 0,
            DestinyProgressionStepDisplayEffect::Character => 1,
            DestinyProgressionStepDisplayEffect::Item => 2,
        }
    }

    /// Every declared value round-trips through its code, and a
    /// declared code decodes to the value that re-encodes to it.
    pub proof fn lemma_code_round_trip(v: DestinyProgressionStepDisplayEffect, code: int)
        ensures
            DestinyProgressionStepDisplayEffect::spec_from_code(v.spec_code()) == Some(v),
            DestinyProgressionStepDisplayEffect::spec_from_code(code) matches Some(w) ==> w.spec_code() == code,
    {
    }
}

#[derive(Debug, Clone, Copy, PartialEq, Eq)]
pub enum SocketTypeActionType {
    InsertPlug,
    InfuseItem,
    ReinitializeSocket,
}

impl SocketTypeActionType {
    /// The wire code this value stands for.
    pub open spec fn spec_code(self) -> int {
        match self {
            SocketTypeActionType::InsertPlug => 0,
            SocketTypeActionType::InfuseItem => 1,
            SocketTypeActionType::ReinitializeSocket => 2,
        }
    }

    /// The value a wire code decodes to, if it is declared.
    pub open spec fn spec_from_code(code: int) -> Option<SocketTypeActionType> {
        if code == 0 {
            Some(SocketTypeActionType::InsertPlug)
        } else if code == 1 {
            Some(SocketTypeActionType::InfuseItem)
        } else if code == 2 {
            Some(SocketTypeActionType::ReinitializeSocket)
        } else {
            None
        }
    }

    /// Decodes a wire code; an integer outside the declared set fails.
    pub fn from_code(code: u8) -> (r: Option<SocketTypeActionType>)
        ensures
            r == SocketTypeActionType::spec_from_code(code as int),
    {
        match code {
            0 => Some(SocketTypeActionType::InsertPlug),
            1 => Some(SocketTypeActionType::InfuseItem),
            2 => Some(SocketTypeActionType::ReinitializeSocket),
            _ => None,
        }
    }

    /// Re-encodes to the declared integer.
    pub fn code(&self) -> (r: u8)
        ensures
            r as int == self.spec_code(),
    {
        match self {
            SocketTypeActionType::InsertPlug => 0,
            SocketTypeActionType::InfuseItem => 1,
            SocketTypeActionType::ReinitializeSocket => 2,
        }
    }

    /// Every declared value round-trips through its code, and a
    /// declared code decodes to the value that re-encodes to it.
    pub proof fn lemma_code_round_trip(v: SocketTypeActionType, code: int)
        ensures
            SocketTypeActionType::spec_from_code(v.spec_code()) == Some(v),
            SocketTypeActionType::spec_from_code(code) matches Some(w) ==> w.spec_code() == code,
    {
    }
}

#[derive(Debug, Clone, Copy, PartialEq, Eq)]
pub enum DestinySocketVisibility {
    Visible,
    Hidden,
    HiddenWhenEmpty,
    HiddenIfNoPlugsAvailable,
}

impl DestinySocketVisibility {
    /// The wire code this value stands for.
    pub open spec fn spec_code(self) -> int {
        match self {
            DestinySocketVisibility::Visible => 0,
            DestinySocketVisibility::Hidden => 1,
            DestinySocketVisibility::HiddenWhenEmpty => 2,
            DestinySocketVisibility::HiddenIfNoPlugsAvailable => 3,
        }
    }

    /// The value a wire code decodes to, if it is declared.
    pub open spec fn spec_from_code(code: int) -> Option<DestinySocketVisibility> {
        if code == 0 {
            Some(DestinySocketVisibility::Visible)
        } else if code == 1 {
            Some(DestinySocketVisibility::Hidden)
        } else if code == 2 {
            Some(DestinySocketVisibility::HiddenWhenEmpty)
        } else if code == 3 {
            Some(DestinySocketVisibility::HiddenIfNoPlugsAvailable)
        } else {
            None
        }
    }

    /// Decodes a wire code; an integer outside the declared set fails.
    pub fn from_code(code: u8) -> (r: Option<DestinySocketVisibility>)
        ensures
            r == DestinySocketVisibility::spec_from_code(code as int),
    {
        match code {
            0 => Some(DestinySocketVisibility::Visible),
            1 => Some(DestinySocketVisibility::Hidden),
            2 => Some(DestinySocketVisibility::HiddenWhenEmpty),
            3 => Some(DestinySocketVisibility::HiddenIfNoPlugsAvailable),
            _ => None,
        }
    }

    /// Re-encodes to the declared integer.
    pub fn code(&self) -> (r: u8)
        ensures
            r as int == self.spec_code(),
    {
        match self {
            DestinySocketVisibility::Visible => 0,
            DestinySocketVisibility::Hidden => 1,
            DestinySocketVisibility::HiddenWhenEmpty => 2,
            DestinySocketVisibility::HiddenIfNoPlugsAvailable => 3,
        }
    }

    /// Every declared value round-trips through its code, and a
    /// declared code decodes to the value that re-encodes to it.
    pub proof fn lemma_code_round_trip(v: DestinySocketVisibility, code: int)
        ensures
            DestinySocketVisibility::spec_from_code(v.spec_code()) == Some(v),
            DestinySocketVisibility::spec_from_code(code) matches Some(w) ==> w.spec_code() == code,
    {
    }
}

#[derive(Debug, Clone, Copy, PartialEq, Eq)]
pub enum DestinySocketCategoryStyle {
    Unknown,
    Reusable,
    Consumable,
    Unlockable,
    Intrinsic,
    EnergyMeter,
    LargePerk,
    Abilities,
    Supers,
}

impl DestinySocketCategoryStyle {
    /// The wire code this value stands for.
    pub open spec fn spec_code(self) -> int {
        match self {
            DestinySocketCategoryStyle::Unknown => 0,
            DestinySocketCategoryStyle::Reusable => 1,
            DestinySocketCategoryStyle::Consumable => 2,
            DestinySocketCategoryStyle::Unlockable => 3,
            DestinySocketCategoryStyle::Intrinsic => 4,
            DestinySocketCategoryStyle::EnergyMeter => 5,
            DestinySocketCategoryStyle::LargePerk => 6,
            DestinySocketCategoryStyle::Abilities => 7,
            DestinySocketCategoryStyle::Supers => 8,
        }
    }

    /// The value a wire code decodes to, if it is declared.
    pub open spec fn spec_from_code(code: int) -> Option<DestinySocketCategoryStyle> {
        if code == 0 {
            Some(DestinySocketCategoryStyle::Unknown)
        } else if code == 1 {
            Some(DestinySocketCategoryStyle::Reusable)
        } else if code == 2 {
            Some(DestinySocketCategoryStyle::Consumable)
        } else if code == 3 {
            Some(DestinySocketCategoryStyle::Unlockable)
        } else if code == 4 {
            Some(DestinySocketCategoryStyle::Intrinsic)
        } else if code == 5 {
            Some(DestinySocketCategoryStyle::EnergyMeter)
        } else if code == 6 {
            Some(DestinySocketCategoryStyle::LargePerk)
        } else if code == 7 {
            Some(DestinySocketCategoryStyle::Abilities)
        } else if code == 8 {
            Some(DestinySocketCategoryStyle::Supers)
        } else {
            None
        }
    }

    /// Decodes a wire code; an integer outside the declared set fails.
    pub fn from_code(code: u8) -> (r: Option<DestinySocketCategoryStyle>)
        ensures
            r == DestinySocketCategoryStyle::spec_from_code(code as int),
    {
        match code {
            0 => Some(DestinySocketCategoryStyle::Unknown),
            1 => Some(DestinySocketCategoryStyle::Reusable),
            2 => Some(DestinySocketCategoryStyle::Consumable),
            3 => Some(DestinySocketCategoryStyle::Unlockable),
            4 => Some(DestinySocketCategoryStyle::Intrinsic),
            5 => Some(DestinySocketCategoryStyle::EnergyMeter),
            6 => Some(DestinySocketCategoryStyle::LargePerk),
            7 => Some(DestinySocketCategoryStyle::Abilities),
            8 => Some(DestinySocketCategoryStyle::Supers),
            _ => None,
        }
    }

    /// Re-encodes to the declared integer.
    pub fn code(&self) -> (r: u8)
        ensures
            r as int == self.spec_code(),
    {
        match self {
            DestinySocketCategoryStyle::Unknown => 0,
            DestinySocketCategoryStyle::Reusable => 1,
            DestinySocketCategoryStyle::Consumable => 2,
            DestinySocketCategoryStyle::Unlockable => 3,
            DestinySocketCategoryStyle::Intrinsic => 4,
            DestinySocketCategoryStyle::EnergyMeter => 5,
            DestinySocketCategoryStyle::LargePerk => 6,
            DestinySocketCategoryStyle::Abilities => 7,
            DestinySocketCategoryStyle::Supers => 8,
        }
    }

    /// Every declared value round-trips through its code, and a
    /// declared code decodes to the value that re-encodes to it.
    pub proof fn lemma_code_round_trip(v: DestinySocketCategoryStyle, code: int)
        ensures
            DestinySocketCategoryStyle::spec_from_code(v.spec_code()) == Some(v),
            DestinySocketCategoryStyle::spec_from_code(code) matches Some(w) ==> w.spec_code() == code,
    {
    }
}

#[derive(Debug, Clone, Copy, PartialEq, Eq)]
pub enum TierType {
    Unknown,
    Currency,
    Basic,
    Common,
    Rare,
    Superior,
    Exotic,
}

impl TierType {
    /// The wire code this value stands for.
    pub open spec fn spec_code(self) -> int {
        match self {
            TierType::Unknown => 0,
            TierType::Currency => 1,
            TierType::Basic => 2,
            TierType::Common => 3,
            TierType::Rare => 4,
            TierType::Superior => 5,
            TierType::Exotic => 6,
        }
    }

    /// The value a wire code decodes to, if it is declared.
    pub open spec fn spec_from_code(code: int) -> Option<TierType> {
        if code == 0 {
            Some(TierType::Unknown)
        } else if code == 1 {
            Some(TierType::Currency)
        } else if code == 2 {
            Some(TierType::Basic)
        } else if code == 3 {
            Some(TierType::Common)
        } else if code == 4 {
            Some(TierType::Rare)
        } else if code == 5 {
            Some(TierType::Superior)
        } else if code == 6 {
            Some(TierType::Exotic)
        } else {
            None
        }
    }

    /// Decodes a wire code; an integer outside the declared set fails.
    pub fn from_code(code: u8) -> (r: Option<TierType>)
        ensures
            r == TierType::spec_from_code(code as int),
    {
        match code {
            0 => Some(TierType::Unknown),
            1 => Some(TierType::Currency),
            2 => Some(TierType::Basic),
            3 => Some(TierType::Common),
            4 => Some(TierType::Rare),
            5 => Some(TierType::Superior),
            6 => Some(TierType::Exotic),
            _ => None,
        }
    }

    /// Re-encodes to the declared integer.
    pub fn code(&self) -> (r: u8)
        ensures
            r as int == self.spec_code(),
    {
        match self {
            TierType::Unknown => 0,
            TierType::Currency => 1,
            TierType::Basic => 2,
            TierType::Common => 3,
            TierType::Rare => 4,
            TierType::Superior => 5,
            TierType::Exotic => 6,
        }
    }

    /// Every declared value round-trips through its code, and a
    /// declared code decodes to the value that re-encodes to it.
    pub proof fn lemma_code_round_trip(v: TierType, code: int)
        ensures
            TierType::spec_from_code(v.spec_code()) == Some(v),
            TierType::spec_from_code(code) matches Some(w) ==> w.spec_code() == code,
    {
    }
}

#[derive(Debug, Clone, Copy, PartialEq, Eq)]
pub enum BucketScope {
    Character,
    Account,
}

impl BucketScope {
    /// The wire code this value stands for.
    pub open spec fn spec_code(self) -> int {
        match self {
            BucketScope::Character => 0,
            BucketScope::Account => 1,
        }
    }

    /// The value a wire code decodes to, if it is declared.
    pub open spec fn spec_from_code(code: int) -> Option<BucketScope> {
        if code == 0 {
            Some(BucketScope::Character)
        } else if code == 1 {
            Some(BucketScope::Account)
        } else {
            None
        }
    }

    /// Decodes a wire code; an integer outside the declared set fails.
    pub fn from_code(code: u8) -> (r: Option<BucketScope>)
        ensures
            r == BucketScope::spec_from_code(code as int),
    {
        match code {
            0 => Some(BucketScope::Character),
            1 => Some(BucketScope::Account),
            _ => None,
        }
    }

    /// Re-encodes to the declared integer.
    pub fn code(&self) -> (r: u8)
        ensures
            r as int == self.spec_code(),
    {
        match self {
            BucketScope::Character => 0,
            BucketScope::Account => 1,
        }
    }

    /// Every declared value round-trips through its code, and a
    /// declared code decodes to the value that re-encodes to it.
    pub proof fn lemma_code_round_trip(v: BucketScope, code: int)
        ensures
            BucketScope::spec_from_code(v.spec_code()) == Some(v),
            BucketScope::spec_from_code(code) matches Some(w) ==> w.spec_code() == code,
    {
    }
}

#[derive(Debug, Clone, Copy, PartialEq, Eq)]
pub enum BucketCategory {
    Invisible,
    Item,
    Currency,
    Equippable,
    Ignored,
}

impl BucketCategory {
    /// The wire code this value stands for.
    pub open spec fn spec_code(self) -> int {
        match self {
            BucketCategory::Invisible => 0,
            BucketCategory::Item => 1,
            BucketCategory::Currency => 2,
            BucketCategory::Equippable => 3,
            BucketCategory::Ignored => 4,
        }
    }

    /// The value a wire code decodes to, if it is declared.
    pub open spec fn spec_from_code(code: int) -> Option<BucketCategory> {
        if code == 0 {
            Some(BucketCategory::Invisible)
        } else if code == 1 {
            Some(BucketCategory::Item)
        } else if code == 2 {
            Some(BucketCategory::Currency)
        } else if code == 3 {
            Some(BucketCategory::Equippable)
        } else if code == 4 {
            Some(BucketCategory::Ignored)
        } else {
            None
        }
    }

    /// Decodes a wire code; an integer outside the declared set fails.
    pub fn from_code(code: u8) -> (r: Option<BucketCategory>)
        ensures
            r == BucketCategory::spec_from_code(code as int),
    {
        match code {
            0 => Some(BucketCategory::Invisible),
            1 => Some(BucketCategory::Item),
            2 => Some(BucketCategory::Currency),
            3 => Some(BucketCategory::Equippable),
            4 => Some(BucketCategory::Ignored),
            _ => None,
        }
    }

    /// Re-encodes to the declared integer.
    pub fn code(&self) -> (r: u8)
        ensures
            r as int == self.spec_code(),
    {
        match self {
            BucketCategory::Invisible => 0,
            BucketCategory::Item => 1,
            BucketCategory::Currency => 2,
            BucketCategory::Equippable => 3,
            BucketCategory::Ignored => 4,
        }
    }

    /// Every declared value round-trips through its code, and a
    /// declared code decodes to the value that re-encodes to it.
    pub proof fn lemma_code_round_trip(v: BucketCategory, code: int)
        ensures
            BucketCategory::spec_from_code(v.spec_code()) == Some(v),
            BucketCategory::spec_from_code(code) matches Some(w) ==> w.spec_code() == code,
    {
    }
}

#[derive(Debug, Clone, Copy, PartialEq, Eq)]
pub enum ItemLocation {
    Unknown,
    Inventory,
    Vault,
    Vendor,
    Postmaster,
}

impl ItemLocation {
    /// The wire code this value stands for.
    pub open spec fn spec_code(self) -> int {
        match self {
            ItemLocation::Unknown => 0,
            ItemLocation::Inventory => 1,
            ItemLocation::Vault => 2,
            ItemLocation::Vendor => 3,
            ItemLocation::Postmaster => 4,
        }
    }

    /// The value a wire code decodes to, if it is declared.
    pub open spec fn spec_from_code(code: int) -> Option<ItemLocation> {
        if code == 0 {
            Some(ItemLocation::Unknown)
        } else if code == 1 {
            Some(ItemLocation::Inventory)
        } else if code == 2 {
            Some(ItemLocation::Vault)
        } else if code == 3 {
            Some(ItemLocation::Vendor)
        } else if code == 4 {
            Some(ItemLocation::Postmaster)
        } else {
            None
        }
    }

    /// Decodes a wire code; an integer outside the declared set fails.
    pub fn from_code(code: u8) -> (r: Option<ItemLocation>)
        ensures
            r == ItemLocation::spec_from_code(code as int),
    {
        match code {
            0 => Some(ItemLocation::Unknown),
            1 => Some(ItemLocation::Inventory),
            2 => Some(ItemLocation::Vault),
            3 => Some(ItemLocation::Vendor),
            4 => Some(ItemLocation::Postmaster),
            _ => None,
        }
    }

    /// Re-encodes to the declared integer.
    pub fn code(&self) -> (r: u8)
        ensures
            r as int == self.spec_code(),
    {
        match self {
            ItemLocation::Unknown => 0,
            ItemLocation::Inventory => 1,
            ItemLocation::Vault => 2,
            ItemLocation::Vendor => 3,
            ItemLocation::Postmaster => 4,
        }
    }

    /// Every declared value round-trips through its code, and a
    /// declared code decodes to the value that re-encodes to it.
    pub proof fn lemma_code_round_trip(v: ItemLocation, code: int)
        ensures
            ItemLocation::spec_from_code(v.spec_code()) == Some(v),
            ItemLocation::spec_from_code(code) matches Some(w) ==> w.spec_code() == code,
    {
    }
}

#[derive(Debug, Clone, Copy, PartialEq, Eq)]
pub enum DestinyStatAggregationType {
    CharacterAverage,
    Character,
    Item,
}

impl DestinyStatAggregationType {
    /// The wire code this value stands for.
    pub open spec fn spec_code(self) -> int {
        match self {
            DestinyStatAggregationType::CharacterAverage => 0,
            DestinyStatAggregationType::Character => 1,
            DestinyStatAggregationType::Item => 2,
        }
    }

    /// The value a wire code decodes to, if it is declared.
    pub open spec fn spec_from_code(code: int) -> Option<DestinyStatAggregationType> {
        if code == 0 {
            Some(DestinyStatAggregationType::CharacterAverage)
        } else if code == 1 {
            Some(DestinyStatAggregationType::Character)
        } else if code == 2 {
            Some(DestinyStatAggregationType::Item)
        } else {
            None
        }
    }

    /// Decodes a wire code; an integer outside the declared set fails.
    pub fn from_code(code: u8) -> (r: Option<DestinyStatAggregationType>)
        ensures
            r == DestinyStatAggregationType::spec_from_code(code as int),
    {
        match code {
            0 => Some(DestinyStatAggregationType::CharacterAverage),
            1 => Some(DestinyStatAggregationType::Character),
            2 => Some(DestinyStatAggregationType::Item),
            _ => None,
        }
    }

    /// Re-encodes to the declared integer.
    pub fn code(&self) -> (r: u8)
        ensures
            r as int == self.spec_code(),
    {
        match self {
            DestinyStatAggregationType::CharacterAverage => 0,
            DestinyStatAggregationType::Character => 1,
            DestinyStatAggregationType::Item => 2,
        }
    }

    /// Every declared value round-trips through its code, and a
    /// declared code decodes to the value that re-encodes to it.
    pub proof fn lemma_code_round_trip(v: DestinyStatAggregationType, code: int)
        ensures
            DestinyStatAggregationType::spec_from_code(v.spec_code()) == Some(v),
            DestinyStatAggregationType::spec_from_code(code) matches Some(w) ==> w.spec_code() == code,
    {
    }
}

#[derive(Debug, Clone, Copy, PartialEq, Eq)]
pub enum DestinyStatCategory {
    Gameplay,
    Weapon,
    Defense,
    Primary,
}

impl DestinyStatCategory {
    /// The wire code this value stands for.
    pub open spec fn spec_code(self) -> int {
        match self {
            DestinyStatCategory::Gameplay => 0,
            DestinyStatCategory::Weapon => 1,
            DestinyStatCategory::Defense => 2,
            DestinyStatCategory::Primary => 3,
        }
    }

    /// The value a wire code decodes to, if it is declared.
    pub open spec fn spec_from_code(code: int) -> Option<DestinyStatCategory> {
        if code == 0 {
            Some(DestinyStatCategory::Gameplay)
        } else if code == 1 {
            Some(DestinyStatCategory::Weapon)
        } else if code == 2 {
            Some(DestinyStatCategory::Defense)
        } else if code == 3 {
            Some(DestinyStatCategory::Primary)
        } else {
            None
        }
    }

    /// Decodes a wire code; an integer outside the declared set fails.
    pub fn from_code(code: u8) -> (r: Option<DestinyStatCategory>)
        ensures
            r == DestinyStatCategory::spec_from_code(code as int),
    {
        match code {
            0 => Some(DestinyStatCategory::Gameplay),
            1 => Some(DestinyStatCategory::Weapon),
            2 => Some(DestinyStatCategory::Defense),
            3 => Some(DestinyStatCategory::Primary),
            _ => None,
        }
    }

    /// Re-encodes to the declared integer.
    pub fn code(&self) -> (r: u8)
        ensures
            r as int == self.spec_code(),
    {
        match self {
            DestinyStatCategory::Gameplay => 0,
            DestinyStatCategory::Weapon => 1,
            DestinyStatCategory::Defense => 2,
            DestinyStatCategory::Primary => 3,
        }
    }

    /// Every declared value round-trips through its code, and a
    /// declared code decodes to the value that re-encodes to it.
    pub proof fn lemma_code_round_trip(v: DestinyStatCategory, code: int)
        ensures
            DestinyStatCategory::spec_from_code(v.spec_code()) == Some(v),
            DestinyStatCategory::spec_from_code(code) matches Some(w) ==> w.spec_code() == code,
    {
    }
}

#[derive(Debug, Clone, Copy, PartialEq, Eq)]
pub enum DestinyAmmunitionType {
    NoneValue,
    Primary,
    Special,
    Heavy,
    Unknown,
}

impl DestinyAmmunitionType {
    /// The wire code this value stands for.
    pub open spec fn spec_code(self) -> int {
        match self {
            DestinyAmmunitionType::NoneValue => 0,
            DestinyAmmunitionType::Primary => 1,
            DestinyAmmunitionType::Special => 2,
            DestinyAmmunitionType::Heavy => 3,
            DestinyAmmunitionType::Unknown => 4,
        }
    }

    /// The value a wire code decodes to, if it is declared.
    pub open spec fn spec_from_code(code: int) -> Option<DestinyAmmunitionType> {
        if code == 0 {
            Some(DestinyAmmunitionType::NoneValue)
        } else if code == 1 {
            Some(DestinyAmmunitionType::Primary)
        } else if code == 2 {
            Some(DestinyAmmunitionType::Special)
        } else if code == 3 {
            Some(DestinyAmmunitionType::Heavy)
        } else if code == 4 {
            Some(DestinyAmmunitionType::Unknown)
        } else {
            None
        }
    }

    /// Decodes a wire code; an integer outside the declared set fails.
    pub fn from_code(code: u8) -> (r: Option<DestinyAmmunitionType>)
        ensures
            r == DestinyAmmunitionType::spec_from_code(code as int),
    {
        match code {
            0 => Some(DestinyAmmunitionType::NoneValue),
            1 => Some(DestinyAmmunitionType::Primary),
            2 => Some(DestinyAmmunitionType::Special),
            3 => Some(DestinyAmmunitionType::Heavy),
            4 => Some(DestinyAmmunitionType::Unknown),
            _ => None,
        }
    }

    /// Re-encodes to the declared integer.
    pub fn code(&self) -> (r: u8)
        ensures
            r as int == self.spec_code(),
    {
        match self {
            DestinyAmmunitionType::NoneValue => 0,
            DestinyAmmunitionType::Primary => 1,
            DestinyAmmunitionType::Special => 2,
            DestinyAmmunitionType::Heavy => 3,
            DestinyAmmunitionType::Unknown => 4,
        }
    }

    /// Every declared value round-trips through its code, and a
    /// declared code decodes to the value that re-encodes to it.
    pub proof fn lemma_code_round_trip(v: DestinyAmmunitionType, code: int)
        ensures
            DestinyAmmunitionType::spec_from_code(v.spec_code()) == Some(v),
            DestinyAmmunitionType::spec_from_code(code) matches Some(w) ==> w.spec_code() == code,
    {
    }
}

#[derive(Debug, Clone, Copy, PartialEq, Eq)]
pub enum DestinyClass {
    Titan,
    Hunter,
    Warlock,
    Unknown,
}

impl DestinyClass {
    /// The wire code this value stands for.
    pub open spec fn spec_code(self) -> int {
        match self {
            DestinyClass::Titan => 0,
            DestinyClass::Hunter => 1,
            DestinyClass::Warlock => 2,
            DestinyClass::Unknown => 3,
        }
    }

    /// The value a wire code decodes to, if it is declared.
    pub open spec fn spec_from_code(code: int) -> Option<DestinyClass> {
        if code == 0 {
            Some(DestinyClass::Titan)
        } else if code == 1 {
            Some(DestinyClass::Hunter)
        } else if code == 2 {
            Some(DestinyClass::Warlock)
        } else if code == 3 {
            Some(DestinyClass::Unknown)
        } else {
            None
        }
    }

    /// Decodes a wire code; an integer outside the declared set fails.
    pub fn from_code(code: u8) -> (r: Option<DestinyClass>)
        ensures
            r == DestinyClass::spec_from_code(code as int),
    {
        match code {
            0 => Some(DestinyClass::Titan),
            1 => Some(DestinyClass::Hunter),
            2 => Some(DestinyClass::Warlock),
            3 => Some(DestinyClass::Unknown),
            _ => None,
        }
    }

    /// Re-encodes to the declared integer.
    pub fn code(&self) -> (r: u8)
        ensures
            r as int == self.spec_code(),
    {
        match self {
            DestinyClass::Titan => 0,
            DestinyClass::Hunter => 1,
            DestinyClass::Warlock => 2,
            DestinyClass::Unknown => 3,
        }
    }

    /// Every declared value round-trips through its code, and a
    /// declared code decodes to the value that re-encodes to it.
    pub proof fn lemma_code_round_trip(v: DestinyClass, code: int)
        ensures
            DestinyClass::spec_from_code(v.spec_code()) == Some(v),
            DestinyClass::spec_from_code(code) matches Some(w) ==> w.spec_code() == code,
    {
    }
}

#[derive(Debug, Clone, Copy, PartialEq, Eq)]
pub enum DestinyGender {
    Male,
    Female,
    Unknown,
}

impl DestinyGender {
    /// The wire code this value stands for.
    pub open spec fn spec_code(self) -> int {
        match self {
            DestinyGender::Male => 0,
            DestinyGender::Female => 1,
            DestinyGender::Unknown => 2,
        }
    }

    /// The value a wire code decodes to, if it is declared.
    pub open spec fn spec_from_code(code: int) -> Option<DestinyGender> {
        if code == 0 {
            Some(DestinyGender::Male)
        } else if code == 1 {
            Some(DestinyGender::Female)
        } else if code == 2 {
            Some(DestinyGender::Unknown)
        } else {
            None
        }
    }

    /// Decodes a wire code; an integer outside the declared set fails.
    pub fn from_code(code: u8) -> (r: Option<DestinyGender>)
        ensures
            r == DestinyGender::spec_from_code(code as int),
    {
        match code {
            0 => Some(DestinyGender::Male),
            1 => Some(DestinyGender::Female),
            2 => Some(DestinyGender::Unknown),
            _ => None,
        }
    }

    /// Re-encodes to the declared integer.
    pub fn code(&self) -> (r: u8)
        ensures
            r as int == self.spec_code(),
    {
        match self {
            DestinyGender::Male => 0,
            DestinyGender::Female => 1,
            DestinyGender::Unknown => 2,
        }
    }

    /// Every declared value round-trips through its code, and a
    /// declared code decodes to the value that re-encodes to it.
    pub proof fn lemma_code_round_trip(v: DestinyGender, code: int)
        ensures
            DestinyGender::spec_from_code(v.spec_code()) == Some(v),
            DestinyGender::spec_from_code(code) matches Some(w) ==> w.spec_code() == code,
    {
    }
}

#[derive(Debug, Clone, Copy, PartialEq, Eq)]
pub enum DestinyVendorItemRefundPolicy {
    NotRefundable,
    DeletesItem,
    RevokesLicense,
}

impl DestinyVendorItemRefundPolicy {
    /// The wire code this value stands for.
    pub open spec fn spec_code(self) -> int {
        match self {
            DestinyVendorItemRefundPolicy::NotRefundable => 0,
            DestinyVendorItemRefundPolicy::DeletesItem => 1,
            DestinyVendorItemRefundPolicy::RevokesLicense => 2,
        }
    }

    /// The value a wire code decodes to, if it is declared.
    pub open spec fn spec_from_code(code: int) -> Option<DestinyVendorItemRefundPolicy> {
        if code == 0 {
            Some(DestinyVendorItemRefundPolicy::NotRefundable)
        } else if code == 1 {
            Some(DestinyVendorItemRefundPolicy::DeletesItem)
        } else if code == 2 {
            Some(DestinyVendorItemRefundPolicy::RevokesLicense)
        } else {
            None
        }
    }

    /// Decodes a wire code; an integer outside the declared set fails.
    pub fn from_code(code: u8) -> (r: Option<DestinyVendorItemRefundPolicy>)
        ensures
            r == DestinyVendorItemRefundPolicy::spec_from_code(code as int),
    {
        match code {
            0 => Some(DestinyVendorItemRefundPolicy::NotRefundable),
            1 => Some(DestinyVendorItemRefundPolicy::DeletesItem),
            2 => Some(DestinyVendorItemRefundPolicy::RevokesLicense),
            _ => None,
        }
    }

    /// Re-encodes to the declared integer.
    pub fn code(&self) -> (r: u8)
        ensures
            r as int == self.spec_code(),
    {
        match self {
            DestinyVendorItemRefundPolicy::NotRefundable => 0,
            DestinyVendorItemRefundPolicy::DeletesItem => 1,
            DestinyVendorItemRefundPolicy::RevokesLicense => 2,
        }
    }

    /// Every declared value round-trips through its code, and a
    /// declared code decodes to the value that re-encodes to it.
    pub proof fn lemma_code_round_trip(v: DestinyVendorItemRefundPolicy, code: int)
        ensures
            DestinyVendorItemRefundPolicy::spec_from_code(v.spec_code()) == Some(v),
            DestinyVendorItemRefundPolicy::spec_from_code(code) matches Some(w) ==> w.spec_code() == code,
    {
    }
}

#[derive(Debug, Clone, Copy, PartialEq, Eq)]
pub enum DamageType {
    NoneValue,
    Kinetic,
    Arc,
    Thermal,
    Void,
    Raid,
    Stasis,
    Strand,
}

impl DamageType {
    /// The wire code this value stands for.
    pub open spec fn spec_code(self) -> int {
        match self {
            DamageType::NoneValue => 0,
            DamageType::Kinetic => 1,
            DamageType::Arc => 2,
            DamageType::Thermal => 3,
            DamageType::Void => 4,
            DamageType::Raid => 5,
            DamageType::Stasis => 6,
            DamageType::Strand => 7,
        }
    }

    /// The value a wire code decodes to, if it is declared.
    pub open spec fn spec_from_code(code: int) -> Option<DamageType> {
        if code == 0 {
            Some(DamageType::NoneValue)
        } else if code == 1 {
            Some(DamageType::Kinetic)
        } else if code == 2 {
            Some(DamageType::Arc)
        } else if code == 3 {
            Some(DamageType::Thermal)
        } else if code == 4 {
            Some(DamageType::Void)
        } else if code == 5 {
            Some(DamageType::Raid)
        } else if code == 6 {
            Some(DamageType::Stasis)
        } else if code == 7 {
            Some(DamageType::Strand)
        } else {
            None
        }
    }

    /// Decodes a wire code; an integer outside the declared set fails.
    pub fn from_code(code: u8) -> (r: Option<DamageType>)
        ensures
            r == DamageType::spec_from_code(code as int),
    {
        match code {
            0 => Some(DamageType::NoneValue),
            1 => Some(DamageType::Kinetic),
            2 => Some(DamageType::Arc),
            3 => Some(DamageType::Thermal),
            4 => Some(DamageType::Void),
            5 => Some(DamageType::Raid),
            6 => Some(DamageType::Stasis),
            7 => Some(DamageType::Strand),
            _ => None,
        }
    }

    /// Re-encodes to the declared integer.
    pub fn code(&self) -> (r: u8)
        ensures
            r as int == self.spec_code(),
    {
        match self {
            DamageType::NoneValue => 0,
            DamageType::Kinetic => 1,
            DamageType::Arc => 2,
            DamageType::Thermal => 3,
            DamageType::Void => 4,
            DamageType::Raid => 5,
            DamageType::Stasis => 6,
            DamageType::Strand => 7,
        }
    }

    /// Every declared value round-trips through its code, and a
    /// declared code decodes to the value that re-encodes to it.
    pub proof fn lemma_code_round_trip(v: DamageType, code: int)
        ensures
            DamageType::spec_from_code(v.spec_code()) == Some(v),
            DamageType::spec_from_code(code) matches Some(w) ==> w.spec_code() == code,
    {
    }
}

#[derive(Debug, Clone, Copy, PartialEq, Eq)]
pub enum DestinyItemSubType {
    NoneValue,
    Crucible,
    Vanguard,
    Exotic,
    AutoRifle,
    Shotgun,
    Machinegun,
    HandCannon,
    RocketLauncher,
    FusionRifle,
    SniperRifle,
    PulseRifle,
    ScoutRifle,
    Crm,
    Sidearm,
    Sword,
    Mask,
    Shader,
    Ornament,
    FusionRifleLine,
    GrenadeLauncher,
    SubmachineGun,
    TraceRifle,
    HelmetArmor,
    GauntletsArmor,
    ChestArmor,
    LegArmor,
    ClassArmor,
    Bow,
    DummyRepeatableBounty,
    Glaive,
}

impl DestinyItemSubType {
    /// The wire code this value stands for.
    pub open spec fn spec_code(self) -> int {
        match self {
            DestinyItemSubType::NoneValue => 0,
            DestinyItemSubType::Crucible => 1,
            DestinyItemSubType::Vanguard => 2,
            DestinyItemSubType::Exotic => 5,
            DestinyItemSubType::AutoRifle => 6,
            DestinyItemSubType::Shotgun => 7,
            DestinyItemSubType::Machinegun => 8,
            DestinyItemSubType::HandCannon => 9,
            DestinyItemSubType::RocketLauncher => 10,
            DestinyItemSubType::FusionRifle => 11,
            DestinyItemSubType::SniperRifle => 12,
            DestinyItemSubType::PulseRifle => 13,
            DestinyItemSubType::ScoutRifle => 14,
            DestinyItemSubType::Crm => 16,
            DestinyItemSubType::Sidearm => 17,
            DestinyItemSubType::Sword => 18,
            DestinyItemSubType::Mask => 19,
            DestinyItemSubType::Shader => 20,
            DestinyItemSubType::Ornament => 21,
            DestinyItemSubType::FusionRifleLine => 22,
            DestinyItemSubType::GrenadeLauncher => 23,
            DestinyItemSubType::SubmachineGun => 24,
            DestinyItemSubType::TraceRifle => 25,
            DestinyItemSubType::HelmetArmor => 26,
            DestinyItemSubType::GauntletsArmor => 27,
            DestinyItemSubType::ChestArmor => 28,
            DestinyItemSubType::LegArmor => 29,
            DestinyItemSubType::ClassArmor => 30,
            DestinyItemSubType::Bow => 31,
            DestinyItemSubType::DummyRepeatableBounty => 32,
            DestinyItemSubType::Glaive => 33,
        }
    }

    /// The value a wire code decodes to, if it is declared.
    pub open spec fn spec_from_code(code: int) -> Option<DestinyItemSubType> {
        if code == 0 {
            Some(DestinyItemSubType::NoneValue)
        } else if code == 1 {
            Some(DestinyItemSubType::Crucible)
        } else if code == 2 {
            Some(DestinyItemSubType::Vanguard)
        } else if code == 5 {
            Some(DestinyItemSubType::Exotic)
        } else if code == 6 {
            Some(DestinyItemSubType::AutoRifle)
        } else if code == 7 {
            Some(DestinyItemSubType::Shotgun)
        } else if code == 8 {
            Some(DestinyItemSubType::Machinegun)
        } else if code == 9 {
            Some(DestinyItemSubType::HandCannon)
        } else if code == 10 {
            Some(DestinyItemSubType::RocketLauncher)
        } else if code == 11 {
            Some(DestinyItemSubType::FusionRifle)
        } else if code == 12 {
            Some(DestinyItemSubType::SniperRifle)
        } else if code == 13 {
            Some(DestinyItemSubType::PulseRifle)
        } else if code == 14 {
            Some(DestinyItemSubType::ScoutRifle)
        } else if code == 16 {
            Some(DestinyItemSubType::Crm)
        } else if code == 17 {
            Some(DestinyItemSubType::Sidearm)
        } else if code == 18 {
            Some(DestinyItemSubType::Sword)
        } else if code == 19 {
            Some(DestinyItemSubType::Mask)
        } else if code == 20 {
            Some(DestinyItemSubType::Shader)
        } else if code == 21 {
            Some(DestinyItemSubType::Ornament)
        } else if code == 22 {
            Some(DestinyItemSubType::FusionRifleLine)
        } else if code == 23 {
            Some(DestinyItemSubType::GrenadeLauncher)
        } else if code == 24 {
            Some(DestinyItemSubType::SubmachineGun)
        } else if code == 25 {
            Some(DestinyItemSubType::TraceRifle)
        } else if code == 26 {
            Some(DestinyItemSubType::HelmetArmor)
        } else if code == 27 {
            Some(DestinyItemSubType::GauntletsArmor)
        } else if code == 28 {
            Some(DestinyItemSubType::ChestArmor)
        } else if code == 29 {
            Some(DestinyItemSubType::LegArmor)
        } else if code == 30 {
            Some(DestinyItemSubType::ClassArmor)
        } else if code == 31 {
            Some(DestinyItemSubType::Bow)
        } else if code == 32 {
            Some(DestinyItemSubType::DummyRepeatableBounty)
        } else if code == 33 {
            Some(DestinyItemSubType::Glaive)
        } else {
            None
        }
    }

    /// Decodes a wire code; an integer outside the declared set fails.
    pub fn from_code(code: u8) -> (r: Option<DestinyItemSubType>)
        ensures
            r == DestinyItemSubType::spec_from_code(code as int),
    {
        match code {
            0 => Some(DestinyItemSubType::NoneValue),
            1 => Some(DestinyItemSubType::Crucible),
            2 => Some(DestinyItemSubType::Vanguard),
            5 => Some(DestinyItemSubType::Exotic),
            6 => Some(DestinyItemSubType::AutoRifle),
            7 => Some(DestinyItemSubType::Shotgun),
            8 => Some(DestinyItemSubType::Machinegun),
            9 => Some(DestinyItemSubType::HandCannon),
            10 => Some(DestinyItemSubType::RocketLauncher),
            11 => Some(DestinyItemSubType::FusionRifle),
            12 => Some(DestinyItemSubType::SniperRifle),
            13 => Some(DestinyItemSubType::PulseRifle),
            14 => Some(DestinyItemSubType::ScoutRifle),
            16 => Some(DestinyItemSubType::Crm),
            17 => Some(DestinyItemSubType::Sidearm),
            18 => Some(DestinyItemSubType::Sword),
            19 => Some(DestinyItemSubType::Mask),
            20 => Some(DestinyItemSubType::Shader),
            21 => Some(DestinyItemSubType::Ornament),
            22 => Some(DestinyItemSubType::FusionRifleLine),
            23 => Some(DestinyItemSubType::GrenadeLauncher),
            24 => Some(DestinyItemSubType::SubmachineGun),
            25 => Some(DestinyItemSubType::TraceRifle),
            26 => Some(DestinyItemSubType::HelmetArmor),
            27 => Some(DestinyItemSubType::GauntletsArmor),
            28 => Some(DestinyItemSubType::ChestArmor),
            29 => Some(DestinyItemSubType::LegArmor),
            30 => Some(DestinyItemSubType::ClassArmor),
            31 => Some(DestinyItemSubType::Bow),
            32 => Some(DestinyItemSubType::DummyRepeatableBounty),
            33 => Some(DestinyItemSubType::Glaive),
            _ => None,
        }
    }

    /// Re-encodes to the declared integer.
    pub fn code(&self) -> (r: u8)
        ensures
            r as int == self.spec_code(),
    {
        match self {
            DestinyItemSubType::NoneValue => 0,
            DestinyItemSubType::Crucible => 1,
            DestinyItemSubType::Vanguard => 2,
            DestinyItemSubType::Exotic => 5,
            DestinyItemSubType::AutoRifle => 6,
            DestinyItemSubType::Shotgun => 7,
            DestinyItemSubType::Machinegun => 8,
            DestinyItemSubType::HandCannon => 9,
            DestinyItemSubType::RocketLauncher => 10,
            DestinyItemSubType::FusionRifle => 11,
            DestinyItemSubType::SniperRifle => 12,
            DestinyItemSubType::PulseRifle => 13,
            DestinyItemSubType::ScoutRifle => 14,
            DestinyItemSubType::Crm => 16,
            DestinyItemSubType::Sidearm => 17,
            DestinyItemSubType::Sword => 18,
            DestinyItemSubType::Mask => 19,
            DestinyItemSubType::Shader => 20,
            DestinyItemSubType::Ornament => 21,
            DestinyItemSubType::FusionRifleLine => 22,
            DestinyItemSubType::GrenadeLauncher => 23,
            DestinyItemSubType::SubmachineGun => 24,
            DestinyItemSubType::TraceRifle => 25,
            DestinyItemSubType::HelmetArmor => 26,
            DestinyItemSubType::GauntletsArmor => 27,
            DestinyItemSubType::ChestArmor => 28,
            DestinyItemSubType::LegArmor => 29,
            DestinyItemSubType::ClassArmor => 30,
            DestinyItemSubType::Bow => 31,
            DestinyItemSubType::DummyRepeatableBounty => 32,
            DestinyItemSubType::Glaive => 33,
        }
    }

    /// Every declared value round-trips through its code, and a
    /// declared code decodes to the value that re-encodes to it.
    pub proof fn lemma_code_round_trip(v: DestinyItemSubType, code: int)
        ensures
            DestinyItemSubType::spec_from_code(v.spec_code()) == Some(v),
            DestinyItemSubType::spec_from_code(code) matches Some(w) ==> w.spec_code() == code,
    {
    }
}

#[derive(Debug, Clone, Copy, PartialEq, Eq)]
pub enum PlugAvailabilityMode {
    Normal,
    UnavailableIfSocketContainsMatchingPlugCategory,
    AvailableIfSocketContainsMatchingPlugCategory,
}

impl PlugAvailabilityMode {
    /// The wire code this value stands for.
    pub open spec fn spec_code(self) -> int {
        match self {
            PlugAvailabilityMode::Normal => 0,
            PlugAvailabilityMode::UnavailableIfSocketContainsMatchingPlugCategory => 1,
            PlugAvailabilityMode::AvailableIfSocketContainsMatchingPlugCategory => 2,
        }
    }

    /// The value a wire code decodes to, if it is declared.
    pub open spec fn spec_from_code(code: int) -> Option<PlugAvailabilityMode> {
        if code == 0 {
            Some(PlugAvailabilityMode::Normal)
        } else if code == 1 {
            Some(PlugAvailabilityMode::UnavailableIfSocketContainsMatchingPlugCategory)
        } else if code == 2 {
            Some(PlugAvailabilityMode::AvailableIfSocketContainsMatchingPlugCategory)
        } else {
            None
        }
    }

    /// Decodes a wire code; an integer outside the declared set fails.
    pub fn from_code(code: u8) -> (r: Option<PlugAvailabilityMode>)
        ensures
            r == PlugAvailabilityMode::spec_from_code(code as int),
    {
        match code {
            0 => Some(PlugAvailabilityMode::Normal),
            1 => Some(PlugAvailabilityMode::UnavailableIfSocketContainsMatchingPlugCategory),
            2 => Some(PlugAvailabilityMode::AvailableIfSocketContainsMatchingPlugCategory),
            _ => None,
        }
    }

    /// Re-encodes to the declared integer.
    pub fn code(&self) -> (r: u8)
        ensures
            r as int == self.spec_code(),
    {
        match self {
            PlugAvailabilityMode::Normal => 0,
            PlugAvailabilityMode::UnavailableIfSocketContainsMatchingPlugCategory => 1,
            PlugAvailabilityMode::AvailableIfSocketContainsMatchingPlugCategory => 2,
        }
    }

    /// Every declared value round-trips through its code, and a
    /// declared code decodes to the value that re-encodes to it.
    pub proof fn lemma_code_round_trip(v: PlugAvailabilityMode, code: int)
        ensures
            PlugAvailabilityMode::spec_from_code(v.spec_code()) == Some(v),
            PlugAvailabilityMode::spec_from_code(code) matches Some(w) ==> w.spec_code() == code,
    {
    }
}

#[derive(Debug, Clone, Copy, PartialEq, Eq)]
pub enum DestinyEnergyType {
    Any,
    Arc,
    Thermal,
    Void,
    GhostValue,
    Subclass,
    Stasis,
}

impl DestinyEnergyType {
    /// The wire code this value stands for.
    pub open spec fn spec_code(self) -> int {
        match self {
            DestinyEnergyType::Any => 0,
            DestinyEnergyType::Arc => 1,
            DestinyEnergyType::Thermal => 2,
            DestinyEnergyType::Void => 3,
            DestinyEnergyType::GhostValue => 4,
            DestinyEnergyType::Subclass => 5,
            DestinyEnergyType::Stasis => 6,
        }
    }

    /// The value a wire code decodes to, if it is declared.
    pub open spec fn spec_from_code(code: int) -> Option<DestinyEnergyType> {
        if code == 0 {
            Some(DestinyEnergyType::Any)
        } else if code == 1 {
            Some(DestinyEnergyType::Arc)
        } else if code == 2 {
            Some(DestinyEnergyType::Thermal)
        } else if code == 3 {
            Some(DestinyEnergyType::Void)
        } else if code == 4 {
            Some(DestinyEnergyType::GhostValue)
        } else if code == 5 {
            Some(DestinyEnergyType::Subclass)
        } else if code == 6 {
            Some(DestinyEnergyType::Stasis)
        } else {
            None
        }
    }

    /// Decodes a wire code; an integer outside the declared set fails.
    pub fn from_code(code: u8) -> (r: Option<DestinyEnergyType>)
        ensures
            r == DestinyEnergyType::spec_from_code(code as int),
    {
        match code {
            0 => Some(DestinyEnergyType::Any),
            1 => Some(DestinyEnergyType::Arc),
            2 => Some(DestinyEnergyType::Thermal),
            3 => Some(DestinyEnergyType::Void),
            4 => Some(DestinyEnergyType::GhostValue),
            5 => Some(DestinyEnergyType::Subclass),
            6 => Some(DestinyEnergyType::Stasis),
            _ => None,
        }
    }

    /// Re-encodes to the declared integer.
    pub fn code(&self) -> (r: u8)
        ensures
            r as int == self.spec_code(),
    {
        match self {
            DestinyEnergyType::Any => 0,
            DestinyEnergyType::Arc => 1,
            DestinyEnergyType::Thermal => 2,
            DestinyEnergyType::Void => 3,
            DestinyEnergyType::GhostValue => 4,
            DestinyEnergyType::Subclass => 5,
            DestinyEnergyType::Stasis => 6,
        }
    }

    /// Every declared value round-trips through its code, and a
    /// declared code decodes to the value that re-encodes to it.
    pub proof fn lemma_code_round_trip(v: DestinyEnergyType, code: int)
        ensures
            DestinyEnergyType::spec_from_code(v.spec_code()) == Some(v),
            DestinyEnergyType::spec_from_code(code) matches Some(w) ==> w.spec_code() == code,
    {
    }
}

#[derive(Debug, Clone, Copy, PartialEq, Eq)]
pub enum ItemPerkVisibility {
    Visible,
    Disabled,
    Hidden,
}

impl ItemPerkVisibility {
    /// The wire code this value stands for.
    pub open spec fn spec_code(self) -> int {
        match self {
            ItemPerkVisibility::Visible => 0,
            ItemPerkVisibility::Disabled => 1,
            ItemPerkVisibility::Hidden => 2,
        }
    }

    /// The value a wire code decodes to, if it is declared.
    pub open spec fn spec_from_code(code: int) -> Option<ItemPerkVisibility> {
        if code == 0 {
            Some(ItemPerkVisibility::Visible)
        } else if code == 1 {
            Some(ItemPerkVisibility::Disabled)
        } else if code == 2 {
            Some(ItemPerkVisibility::Hidden)
        } else {
            None
        }
    }

    /// Decodes a wire code; an integer outside the declared set fails.
    pub fn from_code(code: u8) -> (r: Option<ItemPerkVisibility>)
        ensures
            r == ItemPerkVisibility::spec_from_code(code as int),
    {
        match code {
            0 => Some(ItemPerkVisibility::Visible),
            1 => Some(ItemPerkVisibility::Disabled),
            2 => Some(ItemPerkVisibility::Hidden),
            _ => None,
        }
    }

    /// Re-encodes to the declared integer.
    pub fn code(&self) -> (r: u8)
        ensures
            r as int == self.spec_code(),
    {
        match self {
            ItemPerkVisibility::Visible => 0,
            ItemPerkVisibility::Disabled => 1,
            ItemPerkVisibility::Hidden => 2,
        }
    }

    /// Every declared value round-trips through its code, and a
    /// declared code decodes to the value that re-encodes to it.
    pub proof fn lemma_code_round_trip(v: ItemPerkVisibility, code: int)
        ensures
            ItemPerkVisibility::spec_from_code(v.spec_code()) == Some(v),
            ItemPerkVisibility::spec_from_code(code) matches Some(w) ==> w.spec_code() == code,
    {
    }
}

#[derive(Debug, Clone, Copy, PartialEq, Eq)]
pub enum SpecialItemType {
    NoneValue,
    SpecialCurrency,
    Armor,
    Weapon,
    Engram,
    Consumable,
    ExchangeMaterial,
    MissionReward,
    Currency,
}

impl SpecialItemType {
    /// The wire code this value stands for.
    pub open spec fn spec_code(self) -> int {
        match self {
            SpecialItemType::NoneValue => 0,
            SpecialItemType::SpecialCurrency => 1,
            SpecialItemType::Armor => 8,
            SpecialItemType::Weapon => 9,
            SpecialItemType::Engram => 23,
            SpecialItemType::Consumable => 24,
            SpecialItemType::ExchangeMaterial => 25,
            SpecialItemType::MissionReward => 27,
            SpecialItemType::Currency => 29,
        }
    }

    /// The value a wire code decodes to, if it is declared.
    pub open spec fn spec_from_code(code: int) -> Option<SpecialItemType> {
        if code == 0 {
            Some(SpecialItemType::NoneValue)
        } else if code == 1 {
            Some(SpecialItemType::SpecialCurrency)
        } else if code == 8 {
            Some(SpecialItemType::Armor)
        } else if code == 9 {
            Some(SpecialItemType::Weapon)
        } else if code == 23 {
            Some(SpecialItemType::Engram)
        } else if code == 24 {
            Some(SpecialItemType::Consumable)
        } else if code == 25 {
            Some(SpecialItemType::ExchangeMaterial)
        } else if code == 27 {
            Some(SpecialItemType::MissionReward)
        } else if code == 29 {
            Some(SpecialItemType::Currency)
        } else {
            None
        }
    }

    /// Decodes a wire code; an integer outside the declared set fails.
    pub fn from_code(code: u8) -> (r: Option<SpecialItemType>)
        ensures
            r == SpecialItemType::spec_from_code(code as int),
    {
        match code {
            0 => Some(SpecialItemType::NoneValue),
            1 => Some(SpecialItemType::SpecialCurrency),
            8 => Some(SpecialItemType::Armor),
            9 => Some(SpecialItemType::Weapon),
            23 => Some(SpecialItemType::Engram),
            24 => Some(SpecialItemType::Consumable),
            25 => Some(SpecialItemType::ExchangeMaterial),
            27 => Some(SpecialItemType::MissionReward),
            29 => Some(SpecialItemType::Currency),
            _ => None,
        }
    }

    /// Re-encodes to the declared integer.
    pub fn code(&self) -> (r: u8)
        ensures
            r as int == self.spec_code(),
    {
        match self {
            SpecialItemType::NoneValue => 0,
            SpecialItemType::SpecialCurrency => 1,
            SpecialItemType::Armor => 8,
            SpecialItemType::Weapon => 9,
            SpecialItemType::Engram => 23,
            SpecialItemType::Consumable => 24,
            SpecialItemType::ExchangeMaterial => 25,
            SpecialItemType::MissionReward => 27,
            SpecialItemType::Currency => 29,
        }
    }

    /// Every declared value round-trips through its code, and a
    /// declared code decodes to the value that re-encodes to it.
    pub proof fn lemma_code_round_trip(v: SpecialItemType, code: int)
        ensures
            SpecialItemType::spec_from_code(v.spec_code()) == Some(v),
            SpecialItemType::spec_from_code(code) matches Some(w) ==> w.spec_code() == code,
    {
    }
}

#[derive(Debug, Clone, Copy, PartialEq, Eq)]
pub enum DestinyItemType {
    NoneValue,
    Currency,
    Armor,
    Weapon,
    Message,
    Engram,
    Consumable,
    ExchangeMaterial,
    MissionReward,
    QuestStep,
    QuestStepComplete,
    Emblem,
    Quest,
    Subclass,
    ClanBanner,
    Aura,
    Mod,
    Dummy,
    Ship,
    Vehicle,
    Emote,
    GhostValue,
    Package,
    Bounty,
    Wrapper,
    SeasonalArtifact,
    Finisher,
    Pattern,
}

impl DestinyItemType {
    /// The wire code this value stands for.
    pub open spec fn spec_code(self) -> int {
        match self {
            DestinyItemType::NoneValue => 0,
            DestinyItemType::Currency => 1,
            DestinyItemType::Armor => 2,
            DestinyItemType::Weapon => 3,
            DestinyItemType::Message => 7,
            DestinyItemType::Engram => 8,
            DestinyItemType::Consumable => 9,
            DestinyItemType::ExchangeMaterial => 10,
            DestinyItemType::MissionReward => 11,
            DestinyItemType::QuestStep => 12,
            DestinyItemType::QuestStepComplete => 13,
            DestinyItemType::Emblem => 14,
            DestinyItemType::Quest => 15,
            DestinyItemType::Subclass => 16,
            DestinyItemType::ClanBanner => 17,
            DestinyItemType::Aura => 18,
            DestinyItemType::Mod => 19,
            DestinyItemType::Dummy => 20,
            DestinyItemType::Ship => 21,
            DestinyItemType::Vehicle => 22,
            DestinyItemType::Emote => 23,
            DestinyItemType::GhostValue => 24,
            DestinyItemType::Package => 25,
            DestinyItemType::Bounty => 26,
            DestinyItemType::Wrapper => 27,
            DestinyItemType::SeasonalArtifact => 28,
            DestinyItemType::Finisher => 29,
            DestinyItemType::Pattern => 30,
        }
    }

    /// The value a wire code decodes to, if it is declared.
    pub open spec fn spec_from_code(code: int) -> Option<DestinyItemType> {
        if code == 0 {
            Some(DestinyItemType::NoneValue)
        } else if code == 1 {
            Some(DestinyItemType::Currency)
        } else if code == 2 {
            Some(DestinyItemType::Armor)
        } else if code == 3 {
            Some(DestinyItemType::Weapon)
        } else if code == 7 {
            Some(DestinyItemType::Message)
        } else if code == 8 {
            Some(DestinyItemType::Engram)
        } else if code == 9 {
            Some(DestinyItemType::Consumable)
        } else if code == 10 {
            Some(DestinyItemType::ExchangeMaterial)
        } else if code == 11 {
            Some(DestinyItemType::MissionReward)
        } else if code == 12 {
            Some(DestinyItemType::QuestStep)
        } else if code == 13 {
            Some(DestinyItemType::QuestStepComplete)
        } else if code == 14 {
            Some(DestinyItemType::Emblem)
        } else if code == 15 {
            Some(DestinyItemType::Quest)
        } else if code == 16 {
            Some(DestinyItemType::Subclass)
        } else if code == 17 {
            Some(DestinyItemType::ClanBanner)
        } else if code == 18 {
            Some(DestinyItemType::Aura)
        } else if code == 19 {
            Some(DestinyItemType::Mod)
        } else if code == 20 {
            Some(DestinyItemType::Dummy)
        } else if code == 21 {
            Some(DestinyItemType::Ship)
        } else if code == 22 {
            Some(DestinyItemType::Vehicle)
        } else if code == 23 {
            Some(DestinyItemType::Emote)
        } else if code == 24 {
            Some(DestinyItemType::GhostValue)
        } else if code == 25 {
            Some(DestinyItemType::Package)
        } else if code == 26 {
            Some(DestinyItemType::Bounty)
        } else if code == 27 {
            Some(DestinyItemType::Wrapper)
        } else if code == 28 {
            Some(DestinyItemType::SeasonalArtifact)
        } else if code == 29 {
            Some(DestinyItemType::Finisher)
        } else if code == 30 {
            Some(DestinyItemType::Pattern)
        } else {
            None
        }
    }

    /// Decodes a wire code; an integer outside the declared set fails.
    pub fn from_code(code: u8) -> (r: Option<DestinyItemType>)
        ensures
            r == DestinyItemType::spec_from_code(code as int),
    {
        match code {
            0 => Some(DestinyItemType::NoneValue),
            1 => Some(DestinyItemType::Currency),
            2 => Some(DestinyItemType::Armor),
            3 => Some(DestinyItemType::Weapon),
            7 => Some(DestinyItemType::Message),
            8 => Some(DestinyItemType::Engram),
            9 => Some(DestinyItemType::Consumable),
            10 => Some(DestinyItemType::ExchangeMaterial),
            11 => Some(DestinyItemType::MissionReward),
            12 => Some(DestinyItemType::QuestStep),
            13 => Some(DestinyItemType::QuestStepComplete),
            14 => Some(DestinyItemType::Emblem),
            15 => Some(DestinyItemType::Quest),
            16 => Some(DestinyItemType::Subclass),
            17 => Some(DestinyItemType::ClanBanner),
            18 => Some(DestinyItemType::Aura),
            19 => Some(DestinyItemType::Mod),
            20 => Some(DestinyItemType::Dummy),
            21 => Some(DestinyItemType::Ship),
            22 => Some(DestinyItemType::Vehicle),
            23 => Some(DestinyItemType::Emote),
            24 => Some(DestinyItemType::GhostValue),
            25 => Some(DestinyItemType::Package),
            26 => Some(DestinyItemType::Bounty),
            27 => Some(DestinyItemType::Wrapper),
            28 => Some(DestinyItemType::SeasonalArtifact),
            29 => Some(DestinyItemType::Finisher),
            30 => Some(DestinyItemType::Pattern),
            _ => None,
        }
    }

    /// Re-encodes to the declared integer.
    pub fn code(&self) -> (r: u8)
        ensures
            r as int == self.spec_code(),
    {
        match self {
            DestinyItemType::NoneValue => 0,
            DestinyItemType::Currency => 1,
            DestinyItemType::Armor => 2,
            DestinyItemType::Weapon => 3,
            DestinyItemType::Message => 7,
            DestinyItemType::Engram => 8,
            DestinyItemType::Consumable => 9,
            DestinyItemType::ExchangeMaterial => 10,
            DestinyItemType::MissionReward => 11,
            DestinyItemType::QuestStep => 12,
            DestinyItemType::QuestStepComplete => 13,
            DestinyItemType::Emblem => 14,
            DestinyItemType::Quest => 15,
            DestinyItemType::Subclass => 16,
            DestinyItemType::ClanBanner => 17,
            DestinyItemType::Aura => 18,
            DestinyItemType::Mod => 19,
            DestinyItemType::Dummy => 20,
            DestinyItemType::Ship => 21,
            DestinyItemType::Vehicle => 22,
            DestinyItemType::Emote => 23,
            DestinyItemType::GhostValue => 24,
            DestinyItemType::Package => 25,
            DestinyItemType::Bounty => 26,
            DestinyItemType::Wrapper => 27,
            DestinyItemType::SeasonalArtifact => 28,
            DestinyItemType::Finisher => 29,
            DestinyItemType::Pattern => 30,
        }
    }

    /// Every declared value round-trips through its code, and a
    /// declared code decodes to the value that re-encodes to it.
    pub proof fn lemma_code_round_trip(v: DestinyItemType, code: int)
        ensures
            DestinyItemType::spec_from_code(v.spec_code()) == Some(v),
            DestinyItemType::spec_from_code(code) matches Some(w) ==> w.spec_code() == code,
    {
    }
}

#[derive(Debug, Clone, Copy, PartialEq, Eq)]
pub enum DestinyBreakerType {
    NoneValue,
    ShieldPiercing,
    Disruption,
    Stagger,
}

impl DestinyBreakerType {
    /// The wire code this value stands for.
    pub open spec fn spec_code(self) -> int {
        match self {
            DestinyBreakerType::NoneValue => 0,
            DestinyBreakerType::ShieldPiercing => 1,
            DestinyBreakerType::Disruption => 2,
            DestinyBreakerType::Stagger => 3,
        }
    }

    /// The value a wire code decodes to, if it is declared.
    pub open spec fn spec_from_code(code: int) -> Option<DestinyBreakerType> {
        if code == 0 {
            Some(DestinyBreakerType::NoneValue)
        } else if code == 1 {
            Some(DestinyBreakerType::ShieldPiercing)
        } else if code == 2 {
            Some(DestinyBreakerType::Disruption)
        } else if code == 3 {
            Some(DestinyBreakerType::Stagger)
        } else {
            None
        }
    }

    /// Decodes a wire code; an integer outside the declared set fails.
    pub fn from_code(code: u8) -> (r: Option<DestinyBreakerType>)
        ensures
            r == DestinyBreakerType::spec_from_code(code as int),
    {
        match code {
            0 => Some(DestinyBreakerType::NoneValue),
            1 => Some(DestinyBreakerType::ShieldPiercing),
            2 => Some(DestinyBreakerType::Disruption),
            3 => Some(DestinyBreakerType::Stagger),
            _ => None,
        }
    }

    /// Re-encodes to the declared integer.
    pub fn code(&self) -> (r: u8)
        ensures
            r as int == self.spec_code(),
    {
        match self {
            DestinyBreakerType::NoneValue => 0,
            DestinyBreakerType::ShieldPiercing => 1,
            DestinyBreakerType::Disruption => 2,
            DestinyBreakerType::Stagger => 3,
        }
    }

    /// Every declared value round-trips through its code, and a
    /// declared code decodes to the value that re-encodes to it.
    pub proof fn lemma_code_round_trip(v: DestinyBreakerType, code: int)
        ensures
            DestinyBreakerType::spec_from_code(v.spec_code()) == Some(v),
            DestinyBreakerType::spec_from_code(code) matches Some(w) ==> w.spec_code() == code,
    {
    }
}

#[derive(Debug, Clone, Copy, PartialEq, Eq)]
pub enum DestinyProgressionRewardItemAcquisitionBehavior {
    Instant,
    PlayerClaimRequired,
}

impl DestinyProgressionRewardItemAcquisitionBehavior {
    /// The wire code this value stands for.
    pub open spec fn spec_code(self) -> int {
        match self {
            DestinyProgressionRewardItemAcquisitionBehavior::Instant => 0,
            DestinyProgressionRewardItemAcquisitionBehavior::PlayerClaimRequired => 1,
        }
    }

    /// The value a wire code decodes to, if it is declared.
    pub open spec fn spec_from_code(code: int) -> Option<DestinyProgressionRewardItemAcquisitionBehavior> {
        if code == 0 {
            Some(DestinyProgressionRewardItemAcquisitionBehavior::Instant)
        } else if code == 1 {
            Some(DestinyProgressionRewardItemAcquisitionBehavior::PlayerClaimRequired)
        } else {
            None
        }
    }

    /// Decodes a wire code; an integer outside the declared set fails.
    pub fn from_code(code: u8) -> (r: Option<DestinyProgressionRewardItemAcquisitionBehavior>)
        ensures
            r == DestinyProgressionRewardItemAcquisitionBehavior::spec_from_code(code as int),
    {
        match code {
            0 => Some(DestinyProgressionRewardItemAcquisitionBehavior::Instant),
            1 => Some(DestinyProgressionRewardItemAcquisitionBehavior::PlayerClaimRequired),
            _ => None,
        }
    }

    /// Re-encodes to the declared integer.
    pub fn code(&self) -> (r: u8)
        ensures
            r as int == self.spec_code(),
    {
        match self {
            DestinyProgressionRewardItemAcquisitionBehavior::Instant => 0,
            DestinyProgressionRewardItemAcquisitionBehavior::PlayerClaimRequired => 1,
        }
    }

    /// Every declared value round-trips through its code, and a
    /// declared code decodes to the value that re-encodes to it.
    pub proof fn lemma_code_round_trip(v: DestinyProgressionRewardItemAcquisitionBehavior, code: int)
        ensures
            DestinyProgressionRewardItemAcquisitionBehavior::spec_from_code(v.spec_code()) == Some(v),
            DestinyProgressionRewardItemAcquisitionBehavior::spec_from_code(code) matches Some(w) ==> w.spec_code() == code,
    {
    }
}

#[derive(Debug, Clone, Copy, PartialEq, Eq)]
pub enum ItemBindStatus {
    NotBound,
    BoundToCharacter,
    BoundToAccount,
    BoundToGuild,
}

impl ItemBindStatus {
    /// The wire code this value stands for.
    pub open spec fn spec_code(self) -> int {
        match self {
            ItemBindStatus::NotBound => 0,
            ItemBindStatus::BoundToCharacter => 1,
            ItemBindStatus::BoundToAccount => 2,
            ItemBindStatus::BoundToGuild => 3,
        }
    }

    /// The value a wire code decodes to, if it is declared.
    pub open spec fn spec_from_code(code: int) -> Option<ItemBindStatus> {
        if code == 0 {
            Some(ItemBindStatus::NotBound)
        } else if code == 1 {
            Some(ItemBindStatus::BoundToCharacter)
        } else if code == 2 {
            Some(ItemBindStatus::BoundToAccount)
        } else if code == 3 {
            Some(ItemBindStatus::BoundToGuild)
        } else {
            None
        }
    }

    /// Decodes a wire code; an integer outside the declared set fails.
    pub fn from_code(code: u8) -> (r: Option<ItemBindStatus>)
        ensures
            r == ItemBindStatus::spec_from_code(code as int),
    {
        match code {
            0 => Some(ItemBindStatus::NotBound),
            1 => Some(ItemBindStatus::BoundToCharacter),
            2 => Some(ItemBindStatus::BoundToAccount),
            3 => Some(ItemBindStatus::BoundToGuild),
            _ => None,
        }
    }

    /// Re-encodes to the declared integer.
    pub fn code(&self) -> (r: u8)
        ensures
            r as int == self.spec_code(),
    {
        match self {
            ItemBindStatus::NotBound => 0,
            ItemBindStatus::BoundToCharacter => 1,
            ItemBindStatus::BoundToAccount => 2,
            ItemBindStatus::BoundToGuild => 3,
        }
    }

    /// Every declared value round-trips through its code, and a
    /// declared code decodes to the value that re-encodes to it.
    pub proof fn lemma_code_round_trip(v: ItemBindStatus, code: int)
        ensures
            ItemBindStatus::spec_from_code(v.spec_code()) == Some(v),
            ItemBindStatus::spec_from_code(code) matches Some(w) ==> w.spec_code() == code,
    {
    }
}

#[derive(Debug, Clone, Copy, PartialEq, Eq)]
pub enum DestinyComponentType {
    NoneValue,
    Profiles,
    VendorReceipts,
    ProfileInventories,
    ProfileCurrencies,
    ProfileProgression,
    PlatformSilver,
    Characters,
    CharacterInventories,
    CharacterProgressions,
    CharacterRenderData,
    CharacterActivities,
    CharacterEquipment,
    CharacterLoadouts,
    ItemInstances,
    ItemObjectives,
    ItemPerks,
    ItemRenderData,
    ItemStats,
    ItemSockets,
    ItemTalentGrids,
    ItemCommonData,
    ItemPlugStates,
    ItemPlugObjectives,
    ItemReusablePlugs,
    Vendors,
    VendorCategories,
    VendorSales,
    Kiosks,
    CurrencyLookups,
    PresentationNodes,
    Collectibles,
    Records,
    Transitory,
    Metrics,
    StringVariables,
    Craftables,
    SocialCommendations,
}

impl DestinyComponentType {
    /// The wire code this value stands for.
    pub open spec fn spec_code(self) -> int {
        match self {
            DestinyComponentType::NoneValue => 0,
            DestinyComponentType::Profiles => 100,
            DestinyComponentType::VendorReceipts => 101,
            DestinyComponentType::ProfileInventories => 102,
            DestinyComponentType::ProfileCurrencies => 103,
            DestinyComponentType::ProfileProgression => 104,
            DestinyComponentType::PlatformSilver => 105,
            DestinyComponentType::Characters => 200,
            DestinyComponentType::CharacterInventories => 201,
            DestinyComponentType::CharacterProgressions => 202,
            DestinyComponentType::CharacterRenderData => 203,
            DestinyComponentType::CharacterActivities => 204,
            DestinyComponentType::CharacterEquipment => 205,
            DestinyComponentType::CharacterLoadouts => 206,
            DestinyComponentType::ItemInstances => 300,
            DestinyComponentType::ItemObjectives => 301,
            DestinyComponentType::ItemPerks => 302,
            DestinyComponentType::ItemRenderData => 303,
            DestinyComponentType::ItemStats => 304,
            DestinyComponentType::ItemSockets => 305,
            DestinyComponentType::ItemTalentGrids => 306,
            DestinyComponentType::ItemCommonData => 307,
            DestinyComponentType::ItemPlugStates => 308,
            DestinyComponentType::ItemPlugObjectives => 309,
            DestinyComponentType::ItemReusablePlugs => 310,
            DestinyComponentType::Vendors => 400,
            DestinyComponentType::VendorCategories => 401,
            DestinyComponentType::VendorSales => 402,
            DestinyComponentType::Kiosks => 500,
            DestinyComponentType::CurrencyLookups => 600,
            DestinyComponentType::PresentationNodes => 700,
            DestinyComponentType::Collectibles => 800,
            DestinyComponentType::Records => 900,
            DestinyComponentType::Transitory => 1000,
            DestinyComponentType::Metrics => 1100,
            DestinyComponentType::StringVariables => 1200,
            DestinyComponentType::Craftables => 1300,
            DestinyComponentType::SocialCommendations => 1400,
        }
    }

    /// The value a wire code decodes to, if it is declared.
    pub open spec fn spec_from_code(code: int) -> Option<DestinyComponentType> {
        if code == 0 {
            Some(DestinyComponentType::NoneValue)
        } else if code == 100 {
            Some(DestinyComponentType::Profiles)
        } else if code == 101 {
            Some(DestinyComponentType::VendorReceipts)
        } else if code == 102 {
            Some(DestinyComponentType::ProfileInventories)
        } else if code == 103 {
            Some(DestinyComponentType::ProfileCurrencies)
        } else if code == 104 {
            Some(DestinyComponentType::ProfileProgression)
        } else if code == 105 {
            Some(DestinyComponentType::PlatformSilver)
        } else if code == 200 {
            Some(DestinyComponentType::Characters)
        } else if code == 201 {
            Some(DestinyComponentType::CharacterInventories)
        } else if code == 202 {
            Some(DestinyComponentType::CharacterProgressions)
        } else if code == 203 {
            Some(DestinyComponentType::CharacterRenderData)
        } else if code == 204 {
            Some(DestinyComponentType::CharacterActivities)
        } else if code == 205 {
            Some(DestinyComponentType::CharacterEquipment)
        } else if code == 206 {
            Some(DestinyComponentType::CharacterLoadouts)
        } else if code == 300 {
            Some(DestinyComponentType::ItemInstances)
        } else if code == 301 {
            Some(DestinyComponentType::ItemObjectives)
        } else if code == 302 {
            Some(DestinyComponentType::ItemPerks)
        } else if code == 303 {
            Some(DestinyComponentType::ItemRenderData)
        } else if code == 304 {
            Some(DestinyComponentType::ItemStats)
        } else if code == 305 {
            Some(DestinyComponentType::ItemSockets)
        } else if code == 306 {
            Some(DestinyComponentType::ItemTalentGrids)
        } else if code == 307 {
            Some(DestinyComponentType::ItemCommonData)
        } else if code == 308 {
            Some(DestinyComponentType::ItemPlugStates)
        } else if code == 309 {
            Some(DestinyComponentType::ItemPlugObjectives)
        } else if code == 310 {
            Some(DestinyComponentType::ItemReusablePlugs)
        } else if code == 400 {
            Some(DestinyComponentType::Vendors)
        } else if code == 401 {
            Some(DestinyComponentType::VendorCategories)
        } else if code == 402 {
            Some(DestinyComponentType::VendorSales)
        } else if code == 500 {
            Some(DestinyComponentType::Kiosks)
        } else if code == 600 {
            Some(DestinyComponentType::CurrencyLookups)
        } else if code == 700 {
            Some(DestinyComponentType::PresentationNodes)
        } else if code == 800 {
            Some(DestinyComponentType::Collectibles)
        } else if code == 900 {
            Some(DestinyComponentType::Records)
        } else if code == 1000 {
            Some(DestinyComponentType::Transitory)
        } else if code == 1100 {
            Some(DestinyComponentType::Metrics)
        } else if code == 1200 {
            Some(DestinyComponentType::StringVariables)
        } else if code == 1300 {
            Some(DestinyComponentType::Craftables)
        } else if code == 1400 {
            Some(DestinyComponentType::SocialCommendations)
        } else {
            None
        }
    }

    /// Decodes a wire code; an integer outside the declared set fails.
    pub fn from_code(code: u16) -> (r: Option<DestinyComponentType>)
        ensures
            r == DestinyComponentType::spec_from_code(code as int),
    {
        match code {
            0 => Some(DestinyComponentType::NoneValue),
            100 => Some(DestinyComponentType::Profiles),
            101 => Some(DestinyComponentType::VendorReceipts),
            102 => Some(DestinyComponentType::ProfileInventories),
            103 => Some(DestinyComponentType::ProfileCurrencies),
            104 => Some(DestinyComponentType::ProfileProgression),
            105 => Some(DestinyComponentType::PlatformSilver),
            200 => Some(DestinyComponentType::Characters),
            201 => Some(DestinyComponentType::CharacterInventories),
            202 => Some(DestinyComponentType::CharacterProgressions),
            203 => Some(DestinyComponentType::CharacterRenderData),
            204 => Some(DestinyComponentType::CharacterActivities),
            205 => Some(DestinyComponentType::CharacterEquipment),
            206 => Some(DestinyComponentType::CharacterLoadouts),
            300 => Some(DestinyComponentType::ItemInstances),
            301 => Some(DestinyComponentType::ItemObjectives),
            302 => Some(DestinyComponentType::ItemPerks),
            303 => Some(DestinyComponentType::ItemRenderData),
            304 => Some(DestinyComponentType::ItemStats),
            305 => Some(DestinyComponentType::ItemSockets),
            306 => Some(DestinyComponentType::ItemTalentGrids),
            307 => Some(DestinyComponentType::ItemCommonData),
            308 => Some(DestinyComponentType::ItemPlugStates),
            309 => Some(DestinyComponentType::ItemPlugObjectives),
            310 => Some(DestinyComponentType::ItemReusablePlugs),
            400 => Some(DestinyComponentType::Vendors),
            401 => Some(DestinyComponentType::VendorCategories),
            402 => Some(DestinyComponentType::VendorSales),
            500 => Some(DestinyComponentType::Kiosks),
            600 => Some(DestinyComponentType::CurrencyLookups),
            700 => Some(DestinyComponentType::PresentationNodes),
            800 => Some(DestinyComponentType::Collectibles),
            900 => Some(DestinyComponentType::Records),
            1000 => Some(DestinyComponentType::Transitory),
            1100 => Some(DestinyComponentType::Metrics),
            1200 => Some(DestinyComponentType::StringVariables),
            1300 => Some(DestinyComponentType::Craftables),
            1400 => Some(DestinyComponentType::SocialCommendations),
            _ => None,
        }
    }

    /// Re-encodes to the declared integer.
    pub fn code(&self) -> (r: u16)
        ensures
            r as int == self.spec_code(),
    {
        match self {
            DestinyComponentType::NoneValue => 0,
            DestinyComponentType::Profiles => 100,
            DestinyComponentType::VendorReceipts => 101,
            DestinyComponentType::ProfileInventories => 102,
            DestinyComponentType::ProfileCurrencies => 103,
            DestinyComponentType::ProfileProgression => 104,
            DestinyComponentType::PlatformSilver => 105,
            DestinyComponentType::Characters => 200,
            DestinyComponentType::CharacterInventories => 201,
            DestinyComponentType::CharacterProgressions => 202,
            DestinyComponentType::CharacterRenderData => 203,
            DestinyComponentType::CharacterActivities => 204,
            DestinyComponentType::CharacterEquipment => 205,
            DestinyComponentType::CharacterLoadouts => 206,
            DestinyComponentType::ItemInstances => 300,
            DestinyComponentType::ItemObjectives => 301,
            DestinyComponentType::ItemPerks => 302,
            DestinyComponentType::ItemRenderData => 303,
            DestinyComponentType::ItemStats => 304,
            DestinyComponentType::ItemSockets => 305,
            DestinyComponentType::ItemTalentGrids => 306,
            DestinyComponentType::ItemCommonData => 307,
            DestinyComponentType::ItemPlugStates => 308,
            DestinyComponentType::ItemPlugObjectives => 309,
            DestinyComponentType::ItemReusablePlugs => 310,
            DestinyComponentType::Vendors => 400,
            DestinyComponentType::VendorCategories => 401,
            DestinyComponentType::VendorSales => 402,
            DestinyComponentType::Kiosks => 500,
            DestinyComponentType::CurrencyLookups => 600,
            DestinyComponentType::PresentationNodes => 700,
            DestinyComponentType::Collectibles => 800,
            DestinyComponentType::Records => 900,
            DestinyComponentType::Transitory => 1000,
            DestinyComponentType::Metrics => 1100,
            DestinyComponentType::StringVariables => 1200,
            DestinyComponentType::Craftables => 1300,
            DestinyComponentType::SocialCommendations => 1400,
        }
    }

    /// Every declared value round-trips through its code, and a
    /// declared code decodes to the value that re-encodes to it.
    pub proof fn lemma_code_round_trip(v: DestinyComponentType, code: int)
        ensures
            DestinyComponentType::spec_from_code(v.spec_code()) == Some(v),
            DestinyComponentType::spec_from_code(code) matches Some(w) ==> w.spec_code() == code,
    {
    }
}

#[derive(Debug, Clone, Copy, PartialEq, Eq)]
pub enum DestinyGamePrivacySetting {
    Open,
    ClanAndFriendsOnly,
    FriendsOnly,
    InvitationOnly,
    Closed,
}

impl DestinyGamePrivacySetting {
    /// The wire code this value stands for.
    pub open spec fn spec_code(self) -> int {
        match self {
            DestinyGamePrivacySetting::Open => 0,
            DestinyGamePrivacySetting::ClanAndFriendsOnly => 1,
            DestinyGamePrivacySetting::FriendsOnly => 2,
            DestinyGamePrivacySetting::InvitationOnly => 3,
            DestinyGamePrivacySetting::Closed => 4,
        }
    }

    /// The value a wire code decodes to, if it is declared.
    pub open spec fn spec_from_code(code: int) -> Option<DestinyGamePrivacySetting> {
        if code == 0 {
            Some(DestinyGamePrivacySetting::Open)
        } else if code == 1 {
            Some(DestinyGamePrivacySetting::ClanAndFriendsOnly)
        } else if code == 2 {
            Some(DestinyGamePrivacySetting::FriendsOnly)
        } else if code == 3 {
            Some(DestinyGamePrivacySetting::InvitationOnly)
        } else if code == 4 {
            Some(DestinyGamePrivacySetting::Closed)
        } else {
            None
        }
    }

    /// Decodes a wire code; an integer outside the declared set fails.
    pub fn from_code(code: u8) -> (r: Option<DestinyGamePrivacySetting>)
        ensures
            r == DestinyGamePrivacySetting::spec_from_code(code as int),
    {
        match code {
            0 => Some(DestinyGamePrivacySetting::Open),
            1 => Some(DestinyGamePrivacySetting::ClanAndFriendsOnly),
            2 => Some(DestinyGamePrivacySetting::FriendsOnly),
            3 => Some(DestinyGamePrivacySetting::InvitationOnly),
            4 => Some(DestinyGamePrivacySetting::Closed),
            _ => None,
        }
    }

    /// Re-encodes to the declared integer.
    pub fn code(&self) -> (r: u8)
        ensures
            r as int == self.spec_code(),
    {
        match self {
            DestinyGamePrivacySetting::Open => 0,
            DestinyGamePrivacySetting::ClanAndFriendsOnly => 1,
            DestinyGamePrivacySetting::FriendsOnly => 2,
            DestinyGamePrivacySetting::InvitationOnly => 3,
            DestinyGamePrivacySetting::Closed => 4,
        }
    }

    /// Every declared value round-trips through its code, and a
    /// declared code decodes to the value that re-encodes to it.
    pub proof fn lemma_code_round_trip(v: DestinyGamePrivacySetting, code: int)
        ensures
            DestinyGamePrivacySetting::spec_from_code(v.spec_code()) == Some(v),
            DestinyGamePrivacySetting::spec_from_code(code) matches Some(w) ==> w.spec_code() == code,
    {
    }
}

#[derive(Debug, Clone, Copy, PartialEq, Eq)]
pub enum DestinyRace {
    Human,
    Awoken,
    Exo,
    Unknown,
}

impl DestinyRace {
    /// The wire code this value stands for.
    pub open spec fn spec_code(self) -> int {
        match self {
            DestinyRace::Human => 0,
            DestinyRace::Awoken => 1,
            DestinyRace::Exo => 2,
            DestinyRace::Unknown => 3,
        }
    }

    /// The value a wire code decodes to, if it is declared.
    pub open spec fn spec_from_code(code: int) -> Option<DestinyRace> {
        if code == 0 {
            Some(DestinyRace::Human)
        } else if code == 1 {
            Some(DestinyRace::Awoken)
        } else if code == 2 {
            Some(DestinyRace::Exo)
        } else if code == 3 {
            Some(DestinyRace::Unknown)
        } else {
            None
        }
    }

    /// Decodes a wire code; an integer outside the declared set fails.
    pub fn from_code(code: u8) -> (r: Option<DestinyRace>)
        ensures
            r == DestinyRace::spec_from_code(code as int),
    {
        match code {
            0 => Some(DestinyRace::Human),
            1 => Some(DestinyRace::Awoken),
            2 => Some(DestinyRace::Exo),
            3 => Some(DestinyRace::Unknown),
            _ => None,
        }
    }

    /// Re-encodes to the declared integer.
    pub fn code(&self) -> (r: u8)
        ensures
            r as int == self.spec_code(),
    {
        match self {
            DestinyRace::Human => 0,
            DestinyRace::Awoken => 1,
            DestinyRace::Exo => 2,
            DestinyRace::Unknown => 3,
        }
    }

    /// Every declared value round-trips through its code, and a
    /// declared code decodes to the value that re-encodes to it.
    pub proof fn lemma_code_round_trip(v: DestinyRace, code: int)
        ensures
            DestinyRace::spec_from_code(v.spec_code()) == Some(v),
            DestinyRace::spec_from_code(code) matches Some(w) ==> w.spec_code() == code,
    {
    }
}

#[derive(Debug, Clone, Copy, PartialEq, Eq)]
pub enum DestinyActivityDifficultyTier {
    Trivial,
    Easy,
    Normal,
    Challenging,
    Hard,
    Brave,
    AlmostImpossible,
    Impossible,
}

impl DestinyActivityDifficultyTier {
    /// The wire code this value stands for.
    pub open spec fn spec_code(self) -> int {
        match self {
            DestinyActivityDifficultyTier::Trivial => 0,
            DestinyActivityDifficultyTier::Easy => 1,
            DestinyActivityDifficultyTier::Normal => 2,
            DestinyActivityDifficultyTier::Challenging => 3,
            DestinyActivityDifficultyTier::Hard => 4,
            DestinyActivityDifficultyTier::Brave => 5,
            DestinyActivityDifficultyTier::AlmostImpossible => 6,
            DestinyActivityDifficultyTier::Impossible => 7,
        }
    }

    /// The value a wire code decodes to, if it is declared.
    pub open spec fn spec_from_code(code: int) -> Option<DestinyActivityDifficultyTier> {
        if code == 0 {
            Some(DestinyActivityDifficultyTier::Trivial)
        } else if code == 1 {
            Some(DestinyActivityDifficultyTier::Easy)
        } else if code == 2 {
            Some(DestinyActivityDifficultyTier::Normal)
        } else if code == 3 {
            Some(DestinyActivityDifficultyTier::Challenging)
        } else if code == 4 {
            Some(DestinyActivityDifficultyTier::Hard)
        } else if code == 5 {
            Some(DestinyActivityDifficultyTier::Brave)
        } else if code == 6 {
            Some(DestinyActivityDifficultyTier::AlmostImpossible)
        } else if code == 7 {
            Some(DestinyActivityDifficultyTier::Impossible)
        } else {
            None
        }
    }

    /// Decodes a wire code; an integer outside the declared set fails.
    pub fn from_code(code: u8) -> (r: Option<DestinyActivityDifficultyTier>)
        ensures
            r == DestinyActivityDifficultyTier::spec_from_code(code as int),
    {
        match code {
            0 => Some(DestinyActivityDifficultyTier::Trivial),
            1 => Some(DestinyActivityDifficultyTier::Easy),
            2 => Some(DestinyActivityDifficultyTier::Normal),
            3 => Some(DestinyActivityDifficultyTier::Challenging),
            4 => Some(DestinyActivityDifficultyTier::Hard),
            5 => Some(DestinyActivityDifficultyTier::Brave),
            6 => Some(DestinyActivityDifficultyTier::AlmostImpossible),
            7 => Some(DestinyActivityDifficultyTier::Impossible),
            _ => None,
        }
    }

    /// Re-encodes to the declared integer.
    pub fn code(&self) -> (r: u8)
        ensures
            r as int == self.spec_code(),
    {
        match self {
            DestinyActivityDifficultyTier::Trivial => 0,
            DestinyActivityDifficultyTier::Easy => 1,
            DestinyActivityDifficultyTier::Normal => 2,
            DestinyActivityDifficultyTier::Challenging => 3,
            DestinyActivityDifficultyTier::Hard => 4,
            DestinyActivityDifficultyTier::Brave => 5,
            DestinyActivityDifficultyTier::AlmostImpossible => 6,
            DestinyActivityDifficultyTier::Impossible => 7,
        }
    }

    /// Every declared value round-trips through its code, and a
    /// declared code decodes to the value that re-encodes to it.
    pub proof fn lemma_code_round_trip(v: DestinyActivityDifficultyTier, code: int)
        ensures
            DestinyActivityDifficultyTier::spec_from_code(v.spec_code()) == Some(v),
            DestinyActivityDifficultyTier::spec_from_code(code) matches Some(w) ==> w.spec_code() == code,
    {
    }
}

#[derive(Debug, Clone, Copy, PartialEq, Eq)]
pub enum DestinyTalentNodeState {
    Invalid,
    CanUpgrade,
    NoPoints,
    NoPrerequisites,
    NoSteps,
    NoUnlock,
    NoMaterial,
    NoGridLevel,
    SwappingLocked,
    MustSwap,
    Complete,
    Unknown,
    CreationOnly,
    Hidden,
}

impl DestinyTalentNodeState {
    /// The wire code this value stands for.
    pub open spec fn spec_code(self) -> int {
        match self {
            DestinyTalentNodeState::Invalid => 0,
            DestinyTalentNodeState::CanUpgrade => 1,
            DestinyTalentNodeState::NoPoints => 2,
            DestinyTalentNodeState::NoPrerequisites => 3,
            DestinyTalentNodeState::NoSteps => 4,
            DestinyTalentNodeState::NoUnlock => 5,
            DestinyTalentNodeState::NoMaterial => 6,
            DestinyTalentNodeState::NoGridLevel => 7,
            DestinyTalentNodeState::SwappingLocked => 8,
            DestinyTalentNodeState::MustSwap => 9,
            DestinyTalentNodeState::Complete => 10,
            DestinyTalentNodeState::Unknown => 11,
            DestinyTalentNodeState::CreationOnly => 12,
            DestinyTalentNodeState::Hidden => 13,
        }
    }

    /// The value a wire code decodes to, if it is declared.
    pub open spec fn spec_from_code(code: int) -> Option<DestinyTalentNodeState> {
        if code == 0 {
            Some(DestinyTalentNodeState::Invalid)
        } else if code == 1 {
            Some(DestinyTalentNodeState::CanUpgrade)
        } else if code == 2 {
            Some(DestinyTalentNodeState::NoPoints)
        } else if code == 3 {
            Some(DestinyTalentNodeState::NoPrerequisites)
        } else if code == 4 {
            Some(DestinyTalentNodeState::NoSteps)
        } else if code == 5 {
            Some(DestinyTalentNodeState::NoUnlock)
        } else if code == 6 {
            Some(DestinyTalentNodeState::NoMaterial)
        } else if code == 7 {
            Some(DestinyTalentNodeState::NoGridLevel)
        } else if code == 8 {
            Some(DestinyTalentNodeState::SwappingLocked)
        } else if code == 9 {
            Some(DestinyTalentNodeState::MustSwap)
        } else if code == 10 {
            Some(DestinyTalentNodeState::Complete)
        } else if code == 11 {
            Some(DestinyTalentNodeState::Unknown)
        } else if code == 12 {
            Some(DestinyTalentNodeState::CreationOnly)
        } else if code == 13 {
            Some(DestinyTalentNodeState::Hidden)
        } else {
            None
        }
    }

    /// Decodes a wire code; an integer outside the declared set fails.
    pub fn from_code(code: u8) -> (r: Option<DestinyTalentNodeState>)
        ensures
            r == DestinyTalentNodeState::spec_from_code(code as int),
    {
        match code {
            0 => Some(DestinyTalentNodeState::Invalid),
            1 => Some(DestinyTalentNodeState::CanUpgrade),
            2 => Some(DestinyTalentNodeState::NoPoints),
            3 => Some(DestinyTalentNodeState::NoPrerequisites),
            4 => Some(DestinyTalentNodeState::NoSteps),
            5 => Some(DestinyTalentNodeState::NoUnlock),
            6 => Some(DestinyTalentNodeState::NoMaterial),
            7 => Some(DestinyTalentNodeState::NoGridLevel),
            8 => Some(DestinyTalentNodeState::SwappingLocked),
            9 => Some(DestinyTalentNodeState::MustSwap),
            10 => Some(DestinyTalentNodeState::Complete),
            11 => Some(DestinyTalentNodeState::Unknown),
            12 => Some(DestinyTalentNodeState::CreationOnly),
            13 => Some(DestinyTalentNodeState::Hidden),
            _ => None,
        }
    }

    /// Re-encodes to the declared integer.
    pub fn code(&self) -> (r: u8)
        ensures
            r as int == self.spec_code(),
    {
        match self {
            DestinyTalentNodeState::Invalid => 0,
            DestinyTalentNodeState::CanUpgrade => 1,
            DestinyTalentNodeState::NoPoints => 2,
            DestinyTalentNodeState::NoPrerequisites => 3,
            DestinyTalentNodeState::NoSteps => 4,
            DestinyTalentNodeState::NoUnlock => 5,
            DestinyTalentNodeState::NoMaterial => 6,
            DestinyTalentNodeState::NoGridLevel => 7,
            DestinyTalentNodeState::SwappingLocked => 8,
            DestinyTalentNodeState::MustSwap => 9,
            DestinyTalentNodeState::Complete => 10,
            DestinyTalentNodeState::Unknown => 11,
            DestinyTalentNodeState::CreationOnly => 12,
            DestinyTalentNodeState::Hidden => 13,
        }
    }

    /// Every declared value round-trips through its code, and a
    /// declared code decodes to the value that re-encodes to it.
    pub proof fn lemma_code_round_trip(v: DestinyTalentNodeState, code: int)
        ensures
            DestinyTalentNodeState::spec_from_code(v.spec_code()) == Some(v),
            DestinyTalentNodeState::spec_from_code(code) matches Some(w) ==> w.spec_code() == code,
    {
    }
}

#[derive(Debug, Clone, Copy, PartialEq, Eq)]
pub enum BungieMembershipType {
    NoneValue,
    TigerXbox,
    TigerPsn,
    TigerSteam,
    TigerBlizzard,
    TigerStadia,
    TigerEgs,
    TigerDemon,
    BungieNext,
    All,
}

impl BungieMembershipType {
    /// The wire code this value stands for.
    pub open spec fn spec_code(self) -> int {
        match self {
            BungieMembershipType::NoneValue => 0,
            BungieMembershipType::TigerXbox => 1,
            BungieMembershipType::TigerPsn => 2,
            BungieMembershipType::TigerSteam => 3,
            BungieMembershipType::TigerBlizzard => 4,
            BungieMembershipType::TigerStadia => 5,
            BungieMembershipType::TigerEgs => 6,
            BungieMembershipType::TigerDemon => 10,
            BungieMembershipType::BungieNext => 254,
            BungieMembershipType::All => -1,
        }
    }

    /// The value a wire code decodes to, if it is declared.
    pub open spec fn spec_from_code(code: int) -> Option<BungieMembershipType> {
        if code == 0 {
            Some(BungieMembershipType::NoneValue)
        } else if code == 1 {
            Some(BungieMembershipType::TigerXbox)
        } else if code == 2 {
            Some(BungieMembershipType::TigerPsn)
        } else if code == 3 {
            Some(BungieMembershipType::TigerSteam)
        } else if code == 4 {
            Some(BungieMembershipType::TigerBlizzard)
        } else if code == 5 {
            Some(BungieMembershipType::TigerStadia)
        } else if code == 6 {
            Some(BungieMembershipType::TigerEgs)
        } else if code == 10 {
            Some(BungieMembershipType::TigerDemon)
        } else if code == 254 {
            Some(BungieMembershipType::BungieNext)
        } else if code == -1 {
            Some(BungieMembershipType::All)
        } else {
            None
        }
    }

    /// Decodes a wire code; an integer outside the declared set fails.
    pub fn from_code(code: i32) -> (r: Option<BungieMembershipType>)
        ensures
            r == BungieMembershipType::spec_from_code(code as int),
    {
        match code {
            0 => Some(BungieMembershipType::NoneValue),
            1 => Some(BungieMembershipType::TigerXbox),
            2 => Some(BungieMembershipType::TigerPsn),
            3 => Some(BungieMembershipType::TigerSteam),
            4 => Some(BungieMembershipType::TigerBlizzard),
            5 => Some(BungieMembershipType::TigerStadia),
            6 => Some(BungieMembershipType::TigerEgs),
            10 => Some(BungieMembershipType::TigerDemon),
            254 => Some(BungieMembershipType::BungieNext),
            -1 => Some(BungieMembershipType::All),
            _ => None,
        }
    }

    /// Re-encodes to the declared integer.
    pub fn code(&self) -> (r: i32)
        ensures
            r as int == self.spec_code(),
    {
        match self {
            BungieMembershipType::NoneValue => 0,
            BungieMembershipType::TigerXbox => 1,
            BungieMembershipType::TigerPsn => 2,
            BungieMembershipType::TigerSteam => 3,
            BungieMembershipType::TigerBlizzard => 4,
            BungieMembershipType::TigerStadia => 5,
            BungieMembershipType::TigerEgs => 6,
            BungieMembershipType::TigerDemon => 10,
            BungieMembershipType::BungieNext => 254,
            BungieMembershipType::All => -1,
        }
    }

    /// Every declared value round-trips through its code, and a
    /// declared code decodes to the value that re-encodes to it.
    pub proof fn lemma_code_round_trip(v: BungieMembershipType, code: int)
        ensures
            BungieMembershipType::spec_from_code(v.spec_code()) == Some(v),
            BungieMembershipType::spec_from_code(code) matches Some(w) ==> w.spec_code() == code,
    {
    }
}

#[derive(Debug, Clone, Copy, PartialEq, Eq)]
pub struct DestinyProgressionRewardItemState {
    pub bits: u8,
}

impl DestinyProgressionRewardItemState {
    pub const INVISIBLE: u8 = 1;
    pub const EARNED: u8 = 2;
    pub const CLAIMED: u8 = 4;
    pub const CLAIM_ALLOWED: u8 = 8;
    /// The union of every named bit.
    pub const KNOWN_BITS: u8 = 15;

    /// Decodes a wire integer by masking against the named bits:
    /// unknown bits are silently truncated, never an error.
    pub fn from_bits_truncate(bits: u8) -> (r: DestinyProgressionRewardItemState)
        ensures
            r.bits == bits & 15,
    {
        DestinyProgressionRewardItemState { bits: bits & 15 }
    }

    /// Re-encodes the retained bits.
    pub fn bits(&self) -> (r: u8)
        ensures
            r == self.bits,
    {
        self.bits
    }

    /// Truncation keeps known bits exactly and clears all others,
    /// and a value made of known bits re-encodes unchanged.
    pub proof fn lemma_truncate(bits: u8)
        ensures
            (bits & 15) & !15 == 0,
            bits & 15 == 15 ==> (bits & 15) & 15 == 15,
    {
        assert((bits & 15) & !15 == 0) by (bit_vector);
        assert((bits & 15) & 15 == bits & 15) by (bit_vector);
    }
}

#[derive(Debug, Clone, Copy, PartialEq, Eq)]
pub struct EquippingItemBlockAttributes {
    pub bits: u8,
}

impl EquippingItemBlockAttributes {
    pub const EQUIP_ON_ACQUIRE: u8 = 1;
    /// The union of every named bit.
    pub const KNOWN_BITS: u8 = 1;

    /// Decodes a wire integer by masking against the named bits:
    /// unknown bits are silently truncated, never an error.
    pub fn from_bits_truncate(bits: u8) -> (r: EquippingItemBlockAttributes)
        ensures
            r.bits == bits & 1,
    {
        EquippingItemBlockAttributes { bits: bits & 1 }
    }

    /// Re-encodes the retained bits.
    pub fn bits(&self) -> (r: u8)
        ensures
            r == self.bits,
    {
        self.bits
    }

    /// Truncation keeps known bits exactly and clears all others,
    /// and a value made of known bits re-encodes unchanged.
    pub proof fn lemma_truncate(bits: u8)
        ensures
            (bits & 1) & !1 == 0,
            bits & 1 == 1 ==> (bits & 1) & 1 == 1,
    {
        assert((bits & 1) & !1 == 0) by (bit_vector);
        assert((bits & 1) & 1 == bits & 1) by (bit_vector);
    }
}

#[derive(Debug, Clone, Copy, PartialEq, Eq)]
pub struct PlugUiStyles {
    pub bits: u8,
}

impl PlugUiStyles {
    pub const MASTERWORK: u8 = 1;
    /// The union of every named bit.
    pub const KNOWN_BITS: u8 = 1;

    /// Decodes a wire integer by masking against the named bits:
    /// unknown bits are silently truncated, never an error.
    pub fn from_bits_truncate(bits: u8) -> (r: PlugUiStyles)
        ensures
            r.bits == bits & 1,
    {
        PlugUiStyles { bits: bits & 1 }
    }

    /// Re-encodes the retained bits.
    pub fn bits(&self) -> (r: u8)
        ensures
            r == self.bits,
    {
        self.bits
    }

    /// Truncation keeps known bits exactly and clears all others,
    /// and a value made of known bits re-encodes unchanged.
    pub proof fn lemma_truncate(bits: u8)
        ensures
            (bits & 1) & !1 == 0,
            bits & 1 == 1 ==> (bits & 1) & 1 == 1,
    {
        assert((bits & 1) & !1 == 0) by (bit_vector);
        assert((bits & 1) & 1 == bits & 1) by (bit_vector);
    }
}

#[derive(Debug, Clone, Copy, PartialEq, Eq)]
pub struct SocketPlugSources {
    pub bits: u8,
}

impl SocketPlugSources {
    pub const INVENTORY_SOURCED: u8 = 1;
    pub const REUSABLE_PLUG_ITEMS: u8 = 2;
    pub const PROFILE_PLUG_SET: u8 = 4;
    pub const CHARACTER_PLUG_SET: u8 = 8;
    /// The union of every named bit.
    pub const KNOWN_BITS: u8 = 15;

    /// Decodes a wire integer by masking against the named bits:
    /// unknown bits are silently truncated, never an error.
    pub fn from_bits_truncate(bits: u8) -> (r: SocketPlugSources)
        ensures
            r.bits == bits & 15,
    {
        SocketPlugSources { bits: bits & 15 }
    }

    /// Re-encodes the retained bits.
    pub fn bits(&self) -> (r: u8)
        ensures
            r == self.bits,
    {
        self.bits
    }

    /// Truncation keeps known bits exactly and clears all others,
    /// and a value made of known bits re-encodes unchanged.
    pub proof fn lemma_truncate(bits: u8)
        ensures
            (bits & 15) & !15 == 0,
            bits & 15 == 15 ==> (bits & 15) & 15 == 15,
    {
        assert((bits & 15) & !15 == 0) by (bit_vector);
        assert((bits & 15) & 15 == bits & 15) by (bit_vector);
    }
}

#[derive(Debug, Clone, Copy, PartialEq, Eq)]
pub struct TransferStatuses {
    pub bits: u8,
}

impl TransferStatuses {
    pub const ITEM_IS_EQUIPPED: u8 = 1;
    pub const NOT_TRANSFERRABLE: u8 = 2;
    pub const NO_ROOM_IN_DESTINATION: u8 = 4;
    /// The union of every named bit.
    pub const KNOWN_BITS: u8 = 7;

    /// Decodes a wire integer by masking against the named bits:
    /// unknown bits are silently truncated, never an error.
    pub fn from_bits_truncate(bits: u8) -> (r: TransferStatuses)
        ensures
            r.bits == bits & 7,
    {
        TransferStatuses { bits: bits & 7 }
    }

    /// Re-encodes the retained bits.
    pub fn bits(&self) -> (r: u8)
        ensures
            r == self.bits,
    {
        self.bits
    }

    /// Truncation keeps known bits exactly and clears all others,
    /// and a value made of known bits re-encodes unchanged.
    pub proof fn lemma_truncate(bits: u8)
        ensures
            (bits & 7) & !7 == 0,
            bits & 7 == 7 ==> (bits & 7) & 7 == 7,
    {
        assert((bits & 7) & !7 == 0) by (bit_vector);
        assert((bits & 7) & 7 == bits & 7) by (bit_vector);
    }
}

#[derive(Debug, Clone, Copy, PartialEq, Eq)]
pub struct ItemState {
    pub bits: u8,
}

impl ItemState {
    pub const LOCKED: u8 = 1;
    pub const TRACKED: u8 = 2;
    pub const MASTERWORK: u8 = 4;
    pub const CRAFTED: u8 = 8;
    pub const HIGHLIGHTED_OBJECTIVE: u8 = 16;
    /// The union of every named bit.
    pub const KNOWN_BITS: u8 = 31;

    /// Decodes a wire integer by masking against the named bits:
    /// unknown bits are silently truncated, never an error.
    pub fn from_bits_truncate(bits: u8) -> (r: ItemState)
        ensures
            r.bits == bits & 31,
    {
        ItemState { bits: bits & 31 }
    }

    /// Re-encodes the retained bits.
    pub fn bits(&self) -> (r: u8)
        ensures
            r == self.bits,
    {
        self.bits
    }

    /// Truncation keeps known bits exactly and clears all others,
    /// and a value made of known bits re-encodes unchanged.
    pub proof fn lemma_truncate(bits: u8)
        ensures
            (bits & 31) & !31 == 0,
            bits & 31 == 31 ==> (bits & 31) & 31 == 31,
    {
        assert((bits & 31) & !31 == 0) by (bit_vector);
        assert((bits & 31) & 31 == bits & 31) by (bit_vector);
    }
}

#[derive(Debug, Clone, Copy, PartialEq, Eq)]
pub struct DestinyGameVersions {
    pub bits: u16,
}

impl DestinyGameVersions {
    pub const DESTINY2: u16 = 1;
    pub const DLC1: u16 = 2;
    pub const DLC2: u16 = 4;
    pub const FORSAKEN: u16 = 8;
    pub const YEAR_TWO_ANNUAL_PASS: u16 = 16;
    pub const SHADOWKEEP: u16 = 32;
    pub const BEYOND_LIGHT: u16 = 64;
    pub const ANNIVERSARY30TH: u16 = 128;
    pub const THE_WITCH_QUEEN: u16 = 256;
    pub const LIGHTFALL: u16 = 512;
    /// The union of every named bit.
    pub const KNOWN_BITS: u16 = 1023;

    /// Decodes a wire integer by masking against the named bits:
    /// unknown bits are silently truncated, never an error.
    pub fn from_bits_truncate(bits: u16) -> (r: DestinyGameVersions)
        ensures
            r.bits == bits & 1023,
    {
        DestinyGameVersions { bits: bits & 1023 }
    }

    /// Re-encodes the retained bits.
    pub fn bits(&self) -> (r: u16)
        ensures
            r == self.bits,
    {
        self.bits
    }

    /// Truncation keeps known bits exactly and clears all others,
    /// and a value made of known bits re-encodes unchanged.
    pub proof fn lemma_truncate(bits: u16)
        ensures
            (bits & 1023) & !1023 == 0,
            bits & 1023 == 1023 ==> (bits & 1023) & 1023 == 1023,
    {
        assert((bits & 1023) & !1023 == 0) by (bit_vector);
        assert((bits & 1023) & 1023 == bits & 1023) by (bit_vector);
    }
}

#[derive(Debug, Clone, Copy, PartialEq, Eq)]
pub struct DestinyPresentationNodeState {
    pub bits: u8,
}

impl DestinyPresentationNodeState {
    pub const INVISIBLE: u8 = 1;
    pub const OBSCURED: u8 = 2;
    /// The union of every named bit.
    pub const KNOWN_BITS: u8 = 3;

    /// Decodes a wire integer by masking against the named bits:
    /// unknown bits are silently truncated, never an error.
    pub fn from_bits_truncate(bits: u8) -> (r: DestinyPresentationNodeState)
        ensures
            r.bits == bits & 3,
    {
        DestinyPresentationNodeState { bits: bits & 3 }
    }

    /// Re-encodes the retained bits.
    pub fn bits(&self) -> (r: u8)
        ensures
            r == self.bits,
    {
        self.bits
    }

    /// Truncation keeps known bits exactly and clears all others,
    /// and a value made of known bits re-encodes unchanged.
    pub proof fn lemma_truncate(bits: u8)
        ensures
            (bits & 3) & !3 == 0,
            bits & 3 == 3 ==> (bits & 3) & 3 == 3,
    {
        assert((bits & 3) & !3 == 0) by (bit_vector);
        assert((bits & 3) & 3 == bits & 3) by (bit_vector);
    }
}

#[derive(Debug, Clone, Copy, PartialEq, Eq)]
pub struct DestinyRecordState {
    pub bits: u8,
}

impl DestinyRecordState {
    pub const RECORD_REDEEMED: u8 = 1;
    pub const REWARD_UNAVAILABLE: u8 = 2;
    pub const OBJECTIVE_NOT_COMPLETED: u8 = 4;
    pub const OBSCURED: u8 = 8;
    pub const INVISIBLE: u8 = 16;
    pub const ENTITLEMENT_UNOWNED: u8 = 32;
    pub const CAN_EQUIP_TITLE: u8 = 64;
    /// The union of every named bit.
    pub const KNOWN_BITS: u8 = 127;

    /// Decodes a wire integer by masking against the named bits:
    /// unknown bits are silently truncated, never an error.
    pub fn from_bits_truncate(bits: u8) -> (r: DestinyRecordState)
        ensures
            r.bits == bits & 127,
    {
        DestinyRecordState { bits: bits & 127 }
    }

    /// Re-encodes the retained bits.
    pub fn bits(&self) -> (r: u8)
        ensures
            r == self.bits,
    {
        self.bits
    }

    /// Truncation keeps known bits exactly and clears all others,
    /// and a value made of known bits re-encodes unchanged.
    pub proof fn lemma_truncate(bits: u8)
        ensures
            (bits & 127) & !127 == 0,
            bits & 127 == 127 ==> (bits & 127) & 127 == 127,
    {
        assert((bits & 127) & !127 == 0) by (bit_vector);
        assert((bits & 127) & 127 == bits & 127) by (bit_vector);
    }
}

#[derive(Debug, Clone, Copy, PartialEq, Eq)]
pub struct DestinyCollectibleState {
    pub bits: u8,
}

impl DestinyCollectibleState {
    pub const NOT_ACQUIRED: u8 = 1;
    pub const OBSCURED: u8 = 2;
    pub const INVISIBLE: u8 = 4;
    pub const CANNOT_AFFORD_MATERIAL_REQUIREMENTS: u8 = 8;
    pub const INVENTORY_SPACE_UNAVAILABLE: u8 = 16;
    pub const UNIQUENESS_VIOLATION: u8 = 32;
    pub const PURCHASE_DISABLED: u8 = 64;
    /// The union of every named bit.
    pub const KNOWN_BITS: u8 = 127;

    /// Decodes a wire integer by masking against the named bits:
    /// unknown bits are silently truncated, never an error.
    pub fn from_bits_truncate(bits: u8) -> (r: DestinyCollectibleState)
        ensures
            r.bits == bits & 127,
    {
        DestinyCollectibleState { bits: bits & 127 }
    }

    /// Re-encodes the retained bits.
    pub fn bits(&self) -> (r: u8)
        ensures
            r == self.bits,
    {
        self.bits
    }

    /// Truncation keeps known bits exactly and clears all others,
    /// and a value made of known bits re-encodes unchanged.
    pub proof fn lemma_truncate(bits: u8)
        ensures
            (bits & 127) & !127 == 0,
            bits & 127 == 127 ==> (bits & 127) & 127 == 127,
    {
        assert((bits & 127) & !127 == 0) by (bit_vector);
        assert((bits & 127) & 127 == bits & 127) by (bit_vector);
    }
}

#[derive(Debug, Clone, Copy, PartialEq, Eq)]
pub struct DestinyPartyMemberStates {
    pub bits: u8,
}

impl DestinyPartyMemberStates {
    pub const FIRETEAM_MEMBER: u8 = 1;
    pub const POSSE_MEMBER: u8 = 2;
    pub const GROUP_MEMBER: u8 = 4;
    pub const PARTY_LEADER: u8 = 8;
    /// The union of every named bit.
    pub const KNOWN_BITS: u8 = 15;

    /// Decodes a wire integer by masking against the named bits:
    /// unknown bits are silently truncated, never an error.
    pub fn from_bits_truncate(bits: u8) -> (r: DestinyPartyMemberStates)
        ensures
            r.bits == bits & 15,
    {
        DestinyPartyMemberStates { bits: bits & 15 }
    }

    /// Re-encodes the retained bits.
    pub fn bits(&self) -> (r: u8)
        ensures
            r == self.bits,
    {
        self.bits
    }

    /// Truncation keeps known bits exactly and clears all others,
    /// and a value made of known bits re-encodes unchanged.
    pub proof fn lemma_truncate(bits: u8)
        ensures
            (bits & 15) & !15 == 0,
            bits & 15 == 15 ==> (bits & 15) & 15 == 15,
    {
        assert((bits & 15) & !15 == 0) by (bit_vector);
        assert((bits & 15) & 15 == bits & 15) by (bit_vector);
    }
}

#[derive(Debug, Clone, Copy, PartialEq, Eq)]
pub struct DestinyJoinClosedReasons {
    pub bits: u16,
}

impl DestinyJoinClosedReasons {
    pub const IN_MATCHMAKING: u16 = 1;
    pub const LOADING: u16 = 2;
    pub const SOLO_MODE: u16 = 4;
    pub const INTERNAL_REASONS: u16 = 8;
    pub const DISALLOWED_BY_GAME_STATE: u16 = 16;
    pub const OFFLINE: u16 = 32768;
    /// The union of every named bit.
    pub const KNOWN_BITS: u16 = 32799;

    /// Decodes a wire integer by masking against the named bits:
    /// unknown bits are silently truncated, never an error.
    pub fn from_bits_truncate(bits: u16) -> (r: DestinyJoinClosedReasons)
        ensures
            r.bits == bits & 32799,
    {
        DestinyJoinClosedReasons { bits: bits & 32799 }
    }

    /// Re-encodes the retained bits.
    pub fn bits(&self) -> (r: u16)
        ensures
            r == self.bits,
    {
        self.bits
    }

    /// Truncation keeps known bits exactly and clears all others,
    /// and a value made of known bits re-encodes unchanged.
    pub proof fn lemma_truncate(bits: u16)
        ensures
            (bits & 32799) & !32799 == 0,
            bits & 32799 == 32799 ==> (bits & 32799) & 32799 == 32799,
    {
        assert((bits & 32799) & !32799 == 0) by (bit_vector);
        assert((bits & 32799) & 32799 == bits & 32799) by (bit_vector);
    }
}

#[derive(Debug, Clone, Copy, PartialEq, Eq)]
pub struct EquipFailureReason {
    pub bits: u8,
}

impl EquipFailureReason {
    pub const ITEM_UNEQUIPPABLE: u8 = 1;
    pub const ITEM_UNIQUE_EQUIP_RESTRICTED: u8 = 2;
    pub const ITEM_FAILED_UNLOCK_CHECK: u8 = 4;
    pub const ITEM_FAILED_LEVEL_CHECK: u8 = 8;
    pub const ITEM_WRAPPED: u8 = 16;
    pub const ITEM_NOT_LOADED: u8 = 32;
    pub const ITEM_EQUIP_BLOCKLISTED: u8 = 64;
    pub const ITEM_LOADOUT_REQUIREMENT_NOT_MET: u8 = 128;
    /// The union of every named bit.
    pub const KNOWN_BITS: u8 = 255;

    /// Decodes a wire integer by masking against the named bits:
    /// unknown bits are silently truncated, never an error.
    pub fn from_bits_truncate(bits: u8) -> (r: EquipFailureReason)
        ensures
            r.bits == bits & 255,
    {
        EquipFailureReason { bits: bits & 255 }
    }

    /// Re-encodes the retained bits.
    pub fn bits(&self) -> (r: u8)
        ensures
            r == self.bits,
    {
        self.bits
    }

    /// Truncation keeps known bits exactly and clears all others,
    /// and a value made of known bits re-encodes unchanged.
    pub proof fn lemma_truncate(bits: u8)
        ensures
            (bits & 255) & !255 == 0,
            bits & 255 == 255 ==> (bits & 255) & 255 == 255,
    {
        assert((bits & 255) & !255 == 0) by (bit_vector);
        assert((bits & 255) & 255 == bits & 255) by (bit_vector);
    }
}

#[derive(Debug, Clone, PartialEq)]
pub struct DestinyDisplayPropertiesDefinition {
    pub icon_hash: u32,
    pub description: String,
    pub name: String,
    pub icon: Option<String>,
    pub icon_sequences: Vec<DestinyIconSequenceDefinition>,
    pub high_res_icon: Option<String>,
    pub has_icon: bool,
}

#[derive(Debug, Clone, PartialEq)]
pub struct DestinyIconSequenceDefinition {
    pub frames: Vec<String>,
}

#[derive(Debug, Clone, PartialEq)]
pub struct ComponentResponse<T> {
    pub data: T,
    pub privacy: ComponentPrivacySetting,
    pub disabled: bool,
}

#[derive(Debug, Clone, PartialEq)]
pub struct DestinyAnimationReference {
    pub anim_name: String,
    pub anim_identifier: String,
    pub path: String,
}

#[derive(Debug, Clone, PartialEq)]
pub struct DestinyDerivedItemCategoryDefinition {
    pub category_description: String,
    pub items: Vec<DestinyDerivedItemDefinition>,
    pub category_index: u32,
}

#[derive(Debug, Clone, PartialEq)]
pub struct DestinyDerivedItemDefinition {
    pub item_hash: u32,
    pub item_name: Option<String>,
    pub item_detail: Option<String>,
    pub item_description: Option<String>,
    pub icon_path: Option<String>,
    pub vendor_item_index: u32,
}

#[derive(Debug, Clone, PartialEq)]
pub struct DestinyItemPlugDefinition {
    pub insertion_rules: Vec<DestinyPlugRuleDefinition>,
    pub plug_category_identifier: String,
    pub plug_category_hash: u32,
    pub on_action_recreate_self: bool,
    pub action_reward_site_hash: u32,
    pub action_reward_item_override_hash: u32,
    pub insertion_material_requirement_hash: u32,
    pub preview_item_override_hash: u32,
    pub enabled_material_requirement_hash: u32,
    pub enabled_rules: Vec<DestinyPlugRuleDefinition>,
    pub ui_plug_label: String,
    pub plug_style: PlugUiStyles,
    pub plug_availability: PlugAvailabilityMode,
    pub alternate_ui_plug_label: String,
    pub alternate_plug_style: PlugUiStyles,
    pub is_dummy_plug: bool,
    pub parent_item_override: DestinyParentItemOverride,
    pub apply_stats_to_socket_owner_item: bool,
    pub energy_capacity: Option<DestinyEnergyCapacityEntry>,
    pub energy_cost: Option<DestinyEnergyCostEntry>,
}

#[derive(Debug, Clone, PartialEq)]
pub struct DestinyPlugRuleDefinition {
    pub failure_message: String,
}

#[derive(Debug, Clone, PartialEq)]
pub struct DestinyParentItemOverride {
    pub additional_equip_requirements_display_strings: Vec<String>,
    pub pip_icon: Option<String>,
}

#[derive(Debug, Clone, PartialEq)]
pub struct DestinyEnergyCapacityEntry {
    pub capacity_value: i32,
    pub energy_type_hash: u32,
    pub energy_type: DestinyEnergyType,
}

#[derive(Debug, Clone, PartialEq)]
pub struct DestinyEnergyCostEntry {
    pub energy_cost: i32,
    pub energy_type_hash: u32,
    pub energy_type: DestinyEnergyType,
}

#[derive(Debug, Clone, PartialEq)]
pub struct DestinyInventoryItemDefinition {
    pub display_properties: DestinyDisplayPropertiesDefinition,
    pub tooltip_notifications: Vec<DestinyItemTooltipNotification>,
    pub collectible_hash: Option<u32>,
    pub icon_watermark: Option<String>,
    pub icon_watermark_shelved: Option<String>,
    pub icon_watermark_featured: Option<String>,
    pub secondary_icon: Option<String>,
    pub secondary_overlay: Option<String>,
    pub secondary_special: Option<String>,
    pub background_color: Option<DestinyColor>,
    pub is_featured_item: bool,
    pub is_holofoil: bool,
    pub is_adept: bool,
    pub screenshot: Option<String>,
    pub item_type_display_name: Option<String>,
    pub flavor_text: Option<String>,
    pub ui_item_display_style: Option<String>,
    pub item_type_and_tier_display_name: Option<String>,
    pub display_source: Option<String>,
    pub tooltip_style: Option<String>,
    pub action: Option<DestinyItemActionBlockDefinition>,
    pub crafting: Option<DestinyItemCraftingBlockDefinition>,
    pub inventory: DestinyItemInventoryBlockDefinition,
    pub set_data: Option<DestinyItemSetBlockDefinition>,
    pub stats: Option<DestinyItemStatBlockDefinition>,
    pub emblem_objective_hash: Option<u32>,
    pub equipping_block: Option<DestinyEquippingBlockDefinition>,
    pub translation_block: Option<DestinyItemTranslationBlockDefinition>,
    pub preview: Option<DestinyItemPreviewBlockDefinition>,
    pub quality: Option<DestinyItemQualityBlockDefinition>,
    pub value: Option<DestinyItemValueBlockDefinition>,
    pub source_data: Option<DestinyItemSourceBlockDefinition>,
    pub objectives: Option<DestinyItemObjectiveBlockDefinition>,
    pub metrics: Option<DestinyItemMetricBlockDefinition>,
    pub plug: Option<DestinyItemPlugDefinition>,
    pub gearset: Option<DestinyItemGearsetBlockDefinition>,
    pub sack: Option<DestinyItemSackBlockDefinition>,
    pub sockets: Option<DestinyItemSocketBlockDefinition>,
    pub summary: Option<DestinyItemSummaryBlockDefinition>,
    pub talent_grid: Option<DestinyItemTalentGridBlockDefinition>,
    pub acquire_reward_site_hash: u32,
    pub acquire_unlock_hash: u32,
    pub investment_stats: Vec<DestinyItemInvestmentStatDefinition>,
    pub perks: Vec<DestinyItemPerkEntryDefinition>,
    pub lore_hash: Option<u32>,
    pub summary_item_hash: Option<u32>,
    pub animations: Vec<DestinyAnimationReference>,
    pub allow_actions: bool,
    pub links: Vec<HyperlinkReference>,
    pub does_postmaster_pull_have_side_effects: bool,
    pub non_transferrable: bool,
    pub item_category_hashes: Vec<u32>,
    pub special_item_type: SpecialItemType,
    pub item_type: DestinyItemType,
    pub item_sub_type: DestinyItemSubType,
    pub class_type: DestinyClass,
    pub breaker_type: DestinyBreakerType,
    pub breaker_type_hash: Option<u32>,
    pub equippable: bool,
    pub damage_type_hashes: Vec<u32>,
    pub damage_types: Vec<DamageType>,
    pub default_damage_type: DamageType,
    pub default_damage_type_hash: Option<u32>,
    pub season_hash: Option<u32>,
    pub is_wrapper: bool,
    pub trait_ids: Vec<String>,
    pub trait_hashes: Vec<u32>,
    pub hash: u32,
    pub index: i32,
    pub redacted: bool,
    pub blacklisted: bool,
}

#[derive(Debug, Clone, PartialEq)]
pub struct DestinyItemTooltipNotification {
    pub display_string: String,
    pub display_style: String,
}

#[derive(Debug, Clone, PartialEq)]
pub struct DestinyItemActionBlockDefinition {
    pub verb_name: String,
    pub verb_description: String,
    pub is_positive: bool,
    pub overlay_screen_name: Option<String>,
    pub overlay_icon: Option<String>,
    pub required_cooldown_seconds: i32,
    pub required_items: Vec<DestinyItemActionRequiredItemDefinition>,
    pub progression_rewards: Vec<DestinyProgressionRewardDefinition>,
    pub reward_sheet_hash: u32,
    pub reward_item_hash: u32,
    pub reward_site_hash: u32,
    pub action_type_label: Option<String>,
    pub required_location: Option<String>,
    pub required_cooldown_hash: u32,
    pub delete_on_action: bool,
    pub consume_entire_stack: bool,
    pub use_on_acquire: bool,
}

#[derive(Debug, Clone, PartialEq)]
pub struct DestinyItemActionRequiredItemDefinition {
    pub count: i32,
    pub item_hash: u32,
    pub delete_on_action: bool,
}

#[derive(Debug, Clone, PartialEq)]
pub struct DestinyProgressionRewardDefinition {
    pub progression_mapping_hash: u32,
    pub amount: i32,
    pub apply_throttles: bool,
}

#[derive(Debug, Clone, PartialEq)]
pub struct DestinyItemCraftingBlockDefinition {
    pub output_item_hash: u32,
    pub required_socket_type_hashes: Vec<u32>,
    pub failed_requirement_strings: Vec<String>,
    pub base_material_requirements: Option<u32>,
    pub bonus_plugs: Vec<DestinyItemCraftingBlockBonusPlugDefinition>,
}

#[derive(Debug, Clone, PartialEq)]
pub struct DestinyItemCraftingBlockBonusPlugDefinition {
    pub socket_type_hash: u32,
    pub plug_item_hash: u32,
}

#[derive(Debug, Clone, PartialEq)]
pub struct DestinyItemInventoryBlockDefinition {
    pub stack_unique_label: Option<String>,
    pub max_stack_size: i32,
    pub bucket_type_hash: u32,
    pub recovery_bucket_type_hash: u32,
    pub tier_type_hash: u32,
    pub is_instance_item: bool,
    pub non_transferrable_original: bool,
    pub tier_type_name: Option<String>,
    pub tier_type: TierType,
    pub expiration_tooltip: Option<String>,
    pub expired_in_activity_message: Option<String>,
    pub expired_in_orbit_message: Option<String>,
    pub suppress_expiration_when_objectives_complete: bool,
    pub recipe_item_hash: Option<u32>,
}

#[derive(Debug, Clone, PartialEq)]
pub struct DestinyItemSetBlockDefinition {
    pub item_list: Vec<DestinyItemSetBlockEntryDefinition>,
    pub tracking_unlock_value_hash: u32,
    pub abandonment_unlock_hash: u32,
    pub require_ordered_set_item_add: bool,
    pub set_is_featured: bool,
    pub set_type: String,
    pub quest_line_name: String,
    pub quest_line_description: String,
    pub quest_step_summary: String,
}

#[derive(Debug, Clone, PartialEq)]
pub struct DestinyItemSetBlockEntryDefinition {
    pub tracking_value: i32,
    pub item_hash: u32,
}

#[derive(Debug, Clone, PartialEq)]
pub struct DestinyItemStatBlockDefinition {
    pub disable_primary_stat_display: bool,
    pub stat_group_hash: Option<u32>,
    pub stats: Vec<(u32, DestinyInventoryItemStatDefinition)>,
    pub has_displayable_stats: bool,
    pub primary_base_stat_hash: u32,
}

#[derive(Debug, Clone, PartialEq)]
pub struct DestinyInventoryItemStatDefinition {
    pub stat_hash: u32,
    pub value: i32,
    pub minimum: i32,
    pub maximum: i32,
    pub display_maximum: Option<i32>,
}

#[derive(Debug, Clone, PartialEq)]
pub struct DestinyEquippingBlockDefinition {
    pub gearset_item_hash: Option<u32>,
    pub unique_label: Option<String>,
    pub unique_label_hash: u32,
    pub equipment_slot_type_hash: u32,
    pub attributes: EquippingItemBlockAttributes,
    pub equipping_sound_hash: u32,
    pub horn_sound_hash: u32,
    pub ammo_type: DestinyAmmunitionType,
    pub display_strings: Vec<String>,
    pub equipable_item_set_hash: Option<u32>,
}

#[derive(Debug, Clone, PartialEq)]
pub struct DestinyItemTranslationBlockDefinition {
    pub weapon_pattern_identifier: Option<String>,
    pub weapon_pattern_hash: u32,
    pub default_dyes: Vec<DyeReference>,
    pub locked_dyes: Vec<DyeReference>,
    pub custom_dyes: Vec<DyeReference>,
    pub arrangements: Vec<DestinyGearArtArrangementReference>,
    pub has_geometry: bool,
}

#[derive(Debug, Clone, PartialEq)]
pub struct DestinyGearArtArrangementReference {
    pub class_hash: u32,
    pub art_arrangement_hash: u32,
}

#[derive(Debug, Clone, PartialEq)]
pub struct DestinyItemPreviewBlockDefinition {
    pub screen_style: String,
    pub preview_vendor_hash: u32,
    pub artifact_hash: Option<u32>,
    pub preview_action_string: String,
    pub derived_item_categories: Vec<DestinyDerivedItemCategoryDefinition>,
}

#[derive(Debug, Clone, PartialEq)]
pub struct DestinyItemQualityBlockDefinition {
    pub item_levels: Vec<i32>,
    pub quality_level: i32,
    pub infusion_category_name: String,
    pub infusion_category_hash: u32,
    pub infusion_category_hashes: Vec<u32>,
    pub progression_level_requirement_hash: u32,
    pub current_version: u32,
    pub versions: Vec<DestinyItemVersionDefinition>,
    pub display_version_watermark_icons: Vec<String>,
}

#[derive(Debug, Clone, PartialEq)]
pub struct DestinyItemVersionDefinition {
    pub power_cap_hash: u32,
}

#[derive(Debug, Clone, PartialEq)]
pub struct DestinyItemValueBlockDefinition {
    pub item_value: Vec<DestinyItemQuantity>,
    pub value_description: String,
}

#[derive(Debug, Clone, PartialEq)]
pub struct DestinyItemSourceBlockDefinition {
    pub source_hashes: Vec<u32>,
    pub sources: Vec<DestinyItemSourceDefinition>,
    pub exclusive: BungieMembershipType,
    pub vendor_sources: Vec<DestinyItemVendorSourceReference>,
}

#[derive(Debug, Clone, PartialEq)]
pub struct DestinyItemVendorSourceReference {
    pub vendor_hash: u32,
    pub vendor_item_indexes: Vec<i32>,
}

#[derive(Debug, Clone, PartialEq)]
pub struct DestinyItemObjectiveBlockDefinition {
    pub objective_hashes: Vec<u32>,
    pub display_activity_hashes: Vec<u32>,
    pub require_full_objective_completion: bool,
    pub questline_item_hash: u32,
    pub narrative: String,
    pub objective_verb_name: String,
    pub quest_type_identifier: String,
    pub quest_type_hash: u32,
    pub completion_reward_site_hash: u32,
    pub next_quest_step_reward_site_hash: u32,
    pub timestamp_unlock_value_hash: u32,
    pub is_global_objective_item: bool,
    pub use_on_objective_completion: bool,
    pub inhibit_completion_unlock_value_hash: u32,
    pub per_objective_display_properties: Vec<DestinyObjectiveDisplayProperties>,
    pub display_as_stat_tracker: bool,
}

#[derive(Debug, Clone, PartialEq)]
pub struct DestinyObjectiveDisplayProperties {
    pub activity_hash: Option<u32>,
    pub display_on_item_preview_screen: bool,
}

#[derive(Debug, Clone, PartialEq)]
pub struct DestinyItemMetricBlockDefinition {
    pub available_metric_category_node_hashes: Vec<u32>,
}

#[derive(Debug, Clone, PartialEq)]
pub struct DestinyItemGearsetBlockDefinition {
    pub tracking_value_max: i32,
    pub item_list: Vec<u32>,
}

#[derive(Debug, Clone, PartialEq)]
pub struct DestinyItemSackBlockDefinition {
    pub detail_action: String,
    pub open_action: String,
    pub seed_unlock_value_hash: u32,
    pub resolved_bit_vector_unlock_value_hash: u32,
    pub resolved_item_count_unlock_value_hash: u32,
    pub select_item_count: i32,
    pub roll_state_unlock_value_hash: u32,
    pub reward_item_list_hash: u32,
    pub vendor_sack_type: Option<String>,
    pub open_on_acquire: bool,
}

#[derive(Debug, Clone, PartialEq)]
pub struct DestinyItemSocketBlockDefinition {
    pub detail: String,
    pub socket_entries: Vec<DestinyItemSocketEntryDefinition>,
    pub intrinsic_sockets: Vec<DestinyItemIntrinsicSocketEntryDefinition>,
    pub socket_categories: Vec<DestinyItemSocketCategoryDefinition>,
}

#[derive(Debug, Clone, PartialEq)]
pub struct DestinyItemSocketEntryDefinition {
    pub socket_type_hash: u32,
    pub single_initial_item_hash: u32,
    pub reusable_plug_items: Vec<DestinyItemSocketEntryPlugItemDefinition>,
    pub prevent_initialization_on_vendor_purchase: bool,
    pub prevent_initialization_when_versioning: bool,
    pub hide_perks_in_item_tooltip: bool,
    pub plug_sources: SocketPlugSources,
    pub reusable_plug_set_hash: Option<u32>,
    pub randomized_plug_set_hash: Option<u32>,
    pub overrides_ui_appearance: bool,
    pub default_visible: bool,
}

#[derive(Debug, Clone, PartialEq)]
pub struct DestinyItemSocketEntryPlugItemDefinition {
    pub plug_item_hash: u32,
}

#[derive(Debug, Clone, PartialEq)]
pub struct DestinyItemIntrinsicSocketEntryDefinition {
    pub plug_item_hash: u32,
    pub socket_type_hash: u32,
    pub default_visible: bool,
}

#[derive(Debug, Clone, PartialEq)]
pub struct DestinyItemSocketCategoryDefinition {
    pub socket_category_hash: u32,
    pub socket_indexes: Vec<i32>,
}

#[derive(Debug, Clone, PartialEq)]
pub struct DestinyItemSummaryBlockDefinition {
    pub sort_priority: i32,
}

#[derive(Debug, Clone, PartialEq)]
pub struct DestinyItemTalentGridBlockDefinition {
    pub talent_grid_hash: u32,
    pub item_detail_string: Option<String>,
    pub build_name: Option<String>,
    pub hud_damage_type: DamageType,
    pub hud_icon: Option<String>,
}

#[derive(Debug, Clone, PartialEq)]
pub struct DestinyItemInvestmentStatDefinition {
    pub stat_type_hash: u32,
    pub value: i32,
    pub is_conditionally_active: bool,
}

#[derive(Debug, Clone, PartialEq)]
pub struct DestinyItemPerkEntryDefinition {
    pub requirement_display_string: String,
    pub perk_hash: u32,
    pub perk_visibility: ItemPerkVisibility,
}

#[derive(Debug, Clone, PartialEq)]
pub struct DestinyItemSourceDefinition {
    pub level: i32,
    pub min_quality: i32,
    pub max_quality: i32,
    pub min_level_required: i32,
    pub max_level_required: i32,
    pub computed_stats: Vec<(u32, DestinyInventoryItemStatDefinition)>,
    pub source_hashes: Vec<u32>,
}

#[derive(Debug, Clone, PartialEq)]
pub struct DestinyArtifactProfileScoped {
    pub artifact_hash: u32,
    pub point_progression: DestinyProgression,
    pub points_acquired: i32,
    pub power_bonus_progression: DestinyProgression,
    pub power_bonus: i32,
}

#[derive(Debug, Clone, PartialEq)]
pub struct DestinyArtifactCharacterScoped {
    pub artifact_hash: u32,
    pub points_used: i32,
    pub reset_count: i32,
    pub tiers: Vec<DestinyArtifactTier>,
}

#[derive(Debug, Clone, PartialEq)]
pub struct DestinyArtifactTier {
    pub tier_hash: u32,
    pub is_unlocked: bool,
    pub points_to_unlock: i32,
    pub items: Vec<DestinyArtifactTierItem>,
}

#[derive(Debug, Clone, PartialEq)]
pub struct DestinyArtifactTierItem {
    pub item_hash: u32,
    pub is_active: bool,
}

#[derive(Debug, Clone, PartialEq)]
pub struct DestinyChallengeStatus {
    pub objective: DestinyObjectiveProgress,
}

#[derive(Debug, Clone, PartialEq)]
pub struct DestinyCharacterCustomization {
    pub personality: u32,
    pub face: u32,
    pub skin_color: u32,
    pub lip_color: u32,
    pub eye_color: u32,
    pub hair_colors: Vec<u32>,
    pub feature_colors: Vec<u32>,
    pub decal_color: u32,
    pub wear_helmet: bool,
    pub hair_index: i32,
    pub feature_index: i32,
    pub decal_index: i32,
}

#[derive(Debug, Clone, PartialEq)]
pub struct DestinyCharacterPeerView {
    pub equipment: Vec<DestinyItemPeerView>,
}

#[derive(Debug, Clone, PartialEq)]
pub struct DestinyItemPeerView {
    pub item_hash: u32,
    pub dyes: Vec<DyeReference>,
}

#[derive(Debug, Clone, PartialEq)]
pub struct DestinyCollectiblesComponent {
    pub collectibles: Vec<(u32, DestinyCollectibleComponent)>,
    pub collection_categories_root_node_hash: u32,
    pub collection_badges_root_node_hash: u32,
}

#[derive(Debug, Clone, PartialEq)]
pub struct DestinyCollectibleComponent {
    pub state: DestinyCollectibleState,
}

#[derive(Debug, Clone, PartialEq)]
pub struct DestinyProfileCollectiblesComponent {
    pub recent_collectible_hashes: Vec<u32>,
    pub newness_flagged_collectible_hashes: Vec<u32>,
    pub collectibles: Vec<(u32, DestinyCollectibleComponent)>,
    pub collection_categories_root_node_hash: u32,
    pub collection_badges_root_node_hash: u32,
}

#[derive(Debug, Clone, PartialEq)]
pub struct DestinyCraftablesComponent {
    pub craftables: Vec<(u32, DestinyCraftableComponent)>,
    pub crafting_root_node_hash: u32,
}

#[derive(Debug, Clone, PartialEq)]
pub struct DestinyCraftableComponent {
    pub visible: bool,
    pub failed_requirement_indexes: Vec<i32>,
    pub sockets: Vec<DestinyCraftableSocketComponent>,
}

#[derive(Debug, Clone, PartialEq)]
pub struct DestinyCraftableSocketComponent {
    pub plug_set_hash: u32,
    pub plugs: Vec<DestinyCraftableSocketPlugComponent>,
}

#[derive(Debug, Clone, PartialEq)]
pub struct DestinyCraftableSocketPlugComponent {
    pub plug_item_hash: u32,
    pub failed_requirement_indexes: Vec<i32>,
}

#[derive(Debug, Clone, PartialEq)]
pub struct DestinyPlatformSilverComponent {
    pub platform_silver: Vec<(BungieMembershipType, DestinyItemComponent)>,
}

#[derive(Debug, Clone, PartialEq)]
pub struct DestinyCurrenciesComponent {
    pub item_quantities: Vec<(u32, i32)>,
}

#[derive(Debug, Clone, PartialEq)]
pub struct DestinyItemReusablePlugsComponent {
    pub plugs: Vec<(i32, Vec<DestinyItemPlugBase>)>,
}

#[derive(Debug, Clone, PartialEq)]
pub struct DestinyItemPlugObjectivesComponent {
    pub objectives_per_plug: Vec<(u32, Vec<DestinyObjectiveProgress>)>,
}

#[derive(Debug, Clone, PartialEq)]
pub struct DestinyItemPlugComponent {
    pub plug_objectives: Vec<DestinyObjectiveProgress>,
    pub plug_item_hash: u32,
    pub can_insert: bool,
    pub enabled: bool,
    pub insert_fail_indexes: Vec<i32>,
    pub enable_fail_indexes: Vec<i32>,
}

#[derive(Debug, Clone, PartialEq)]
pub struct DestinyKiosksComponent {
    pub kiosk_items: Vec<(u32, Vec<DestinyKioskItem>)>,
}

#[derive(Debug, Clone, PartialEq)]
pub struct DestinyKioskItem {
    pub index: i32,
    pub can_acquire: bool,
    pub failure_indexes: Vec<i32>,
    pub flavor_objective: DestinyObjectiveProgress,
}

#[derive(Debug, Clone, PartialEq)]
pub struct DestinyLoadoutsComponent {
    pub loadouts: Vec<DestinyLoadoutComponent>,
}

#[derive(Debug, Clone, PartialEq)]
pub struct DestinyLoadoutComponent {
    pub color_hash: u32,
    pub icon_hash: u32,
    pub name_hash: u32,
    pub items: Vec<DestinyLoadoutItemComponent>,
}

#[derive(Debug, Clone, PartialEq)]
pub struct DestinyLoadoutItemComponent {
    pub item_instance_id: i64,
    pub plug_item_hashes: Vec<u32>,
}

#[derive(Debug, Clone, PartialEq)]
pub struct DestinyMetricsComponent {
    pub metrics: Vec<(u32, DestinyMetricComponent)>,
    pub metrics_root_node_hash: u32,
}

#[derive(Debug, Clone, PartialEq)]
pub struct DestinyMetricComponent {
    pub invisible: bool,
    pub objective_progress: DestinyObjectiveProgress,
}

#[derive(Debug, Clone, PartialEq)]
pub struct DestinyPlugSetsComponent {
    pub plugs: Vec<(u32, Vec<DestinyItemPlug>)>,
}

#[derive(Debug, Clone, PartialEq)]
pub struct DestinyPresentationNodesComponent {
    pub nodes: Vec<(u32, DestinyPresentationNodeComponent)>,
}

#[derive(Debug, Clone, PartialEq)]
pub struct DestinyPresentationNodeComponent {
    pub state: DestinyPresentationNodeState,
    pub objective: DestinyObjectiveProgress,
    pub progress_value: i32,
    pub completion_value: i32,
    pub record_category_score: i32,
}

#[derive(Debug, Clone, PartialEq)]
pub struct DestinyProfileProgressionComponent {
    pub checklists: Vec<(u32, Vec<(u32, bool)>)>,
    pub seasonal_artifact: DestinyArtifactProfileScoped,
}

#[derive(Debug, Clone, PartialEq)]
pub struct DestinyProfileTransitoryComponent {
    pub party_members: Vec<DestinyProfileTransitoryPartyMember>,
    pub current_activity: DestinyProfileTransitoryCurrentActivity,
    pub joinability: DestinyProfileTransitoryJoinability,
    pub tracking: Vec<DestinyProfileTransitoryTrackingEntry>,
    pub last_orbited_destination_hash: u32,
}

#[derive(Debug, Clone, PartialEq)]
pub struct DestinyProfileTransitoryPartyMember {
    pub membership_id: i64,
    pub emblem_hash: u32,
    pub display_name: String,
    pub status: DestinyPartyMemberStates,
}

#[derive(Debug, Clone, PartialEq)]
pub struct DestinyProfileTransitoryCurrentActivity {
    pub start_time: Timestamp,
    pub end_time: Timestamp,
    pub score: FloatText,
    pub highest_opposing_faction_score: FloatText,
    pub number_of_opponents: i32,
    pub number_of_players: i32,
}

#[derive(Debug, Clone, PartialEq)]
pub struct DestinyProfileTransitoryJoinability {
    pub open_slots: i32,
    pub privacy_setting: DestinyGamePrivacySetting,
    pub closed_reasons: DestinyJoinClosedReasons,
}

#[derive(Debug, Clone, PartialEq)]
pub struct DestinyProfileTransitoryTrackingEntry {
    pub location_hash: u32,
    pub item_hash: u32,
    pub objective_hash: u32,
    pub activity_hash: u32,
    pub questline_item_hash: u32,
    pub tracked_date: Timestamp,
}

#[derive(Debug, Clone, PartialEq)]
pub struct DestinyRecordComponent {
    pub state: DestinyRecordState,
    pub objectives: Vec<DestinyObjectiveProgress>,
    pub interval_objectives: Vec<DestinyObjectiveProgress>,
    pub intervals_redeemed_count: i32,
    pub completed_count: i32,
    pub reward_visibilty: Vec<bool>,
}

#[derive(Debug, Clone, PartialEq)]
pub struct DestinyProfileRecordsComponent {
    pub score: i32,
    pub active_score: i32,
    pub legacy_score: i32,
    pub lifetime_score: i32,
    pub tracked_record_hash: Option<u32>,
    pub records: Vec<(u32, DestinyRecordComponent)>,
    pub record_categories_root_node_hash: u32,
    pub record_seals_root_node_hash: u32,
}

#[derive(Debug, Clone, PartialEq)]
pub struct DestinyCharacterRecordsComponent {
    pub featured_record_hashes: Vec<u32>,
    pub records: Vec<(u32, DestinyRecordComponent)>,
    pub record_categories_root_node_hash: u32,
    pub record_seals_root_node_hash: u32,
}

#[derive(Debug, Clone, PartialEq)]
pub struct DestinySocialCommendationsComponent {
    pub total_score: i32,
    pub score_detail_values: Vec<i32>,
    pub commendation_node_scores_by_hash: Vec<(u32, i32)>,
    pub commendation_scores_by_hash: Vec<(u32, i32)>,
}

#[derive(Debug, Clone, PartialEq)]
pub struct DestinyStringVariablesComponent {
    pub integer_values_by_hash: Vec<(u32, i32)>,
}

#[derive(Debug, Clone, PartialEq)]
pub struct DestinyManifest {
    pub version: String,
    pub mobile_asset_content_path: String,
    pub mobile_gear_asset_data_bases: Vec<GearAssetDataBaseDefinition>,
    pub mobile_world_content_paths: Vec<(String, String)>,
    pub json_world_content_paths: Vec<(String, String)>,
    pub json_world_component_content_paths: Vec<(String, Vec<(String, String)>)>,
    pub mobile_clan_banner_database_path: String,
    pub mobile_gear_c_d_n: Vec<(String, String)>,
    pub icon_image_pyramid_info: Vec<ImagePyramidEntry>,
}

#[derive(Debug, Clone, PartialEq)]
pub struct GearAssetDataBaseDefinition {
    pub version: i32,
    pub path: String,
}

#[derive(Debug, Clone, PartialEq)]
pub struct ImagePyramidEntry {
    pub name: String,
    pub factor: FloatText,
}

#[derive(Debug, Clone, PartialEq)]
pub struct DestinyMaterialRequirement {
    pub item_hash: u32,
    pub delete_on_action: bool,
    pub count: i32,
    pub count_is_constant: bool,
    pub omit_from_requirements: bool,
}

#[derive(Debug, Clone, PartialEq)]
pub struct DestinyItemSocketEntryPlugItemRandomizedDefinition {
    pub crafting_requirements: Option<DestinyPlugItemCraftingRequirements>,
    pub weight: FloatText,
    pub alternate_weight: FloatText,
    pub currently_can_roll: bool,
    pub plug_item_hash: u32,
}

#[derive(Debug, Clone, PartialEq)]
pub struct DestinyPlugItemCraftingRequirements {
    pub unlock_requirements: Vec<DestinyPlugItemCraftingUnlockRequirement>,
    pub required_level: Option<i32>,
    pub material_requirement_hashes: Vec<u32>,
}

#[derive(Debug, Clone, PartialEq)]
pub struct DestinyPlugItemCraftingUnlockRequirement {
    pub failure_description: String,
}

#[derive(Debug, Clone, PartialEq)]
pub struct DestinySocketTypeDefinition {
    pub display_properties: DestinyDisplayPropertiesDefinition,
    pub insert_action: Option<DestinyInsertPlugActionDefinition>,
    pub plug_whitelist: Vec<DestinyPlugWhitelistEntryDefinition>,
    pub socket_category_hash: u32,
    pub visibility: DestinySocketVisibility,
    pub always_randomize_sockets: bool,
    pub is_preview_enabled: bool,
    pub hide_duplicate_reusable_plugs: bool,
    pub overrides_ui_appearance: bool,
    pub avoid_duplicates_on_initialization: bool,
    pub currency_scalars: Vec<DestinySocketTypeScalarMaterialRequirementEntry>,
    pub hash: u32,
    pub index: i32,
    pub redacted: bool,
}

#[derive(Debug, Clone, PartialEq)]
pub struct DestinyInsertPlugActionDefinition {
    pub action_execute_seconds: i32,
    pub action_type: SocketTypeActionType,
}

#[derive(Debug, Clone, PartialEq)]
pub struct DestinyPlugWhitelistEntryDefinition {
    pub category_hash: u32,
    pub category_identifier: String,
    pub reinitialization_possible_plug_hashes: Vec<u32>,
}

#[derive(Debug, Clone, PartialEq)]
pub struct DestinySocketTypeScalarMaterialRequirementEntry {
    pub currency_item_hash: u32,
    pub scalar_value: i32,
}

#[derive(Debug, Clone, PartialEq)]
pub struct DestinySocketCategoryDefinition {
    pub display_properties: DestinyDisplayPropertiesDefinition,
    pub ui_category_style: u32,
    pub category_style: DestinySocketCategoryStyle,
    pub hash: u32,
    pub index: i32,
    pub redacted: bool,
}

#[derive(Debug, Clone, PartialEq)]
pub struct DestinyPlugSetDefinition {
    pub display_properties: Option<DestinyDisplayPropertiesDefinition>,
    pub reusable_plug_items: Vec<DestinyItemSocketEntryPlugItemRandomizedDefinition>,
    pub is_fake_plug_set: bool,
    pub hash: u32,
    pub index: i32,
    pub redacted: bool,
}

#[derive(Debug, Clone, PartialEq)]
pub struct DestinyCharacterComponent {
    pub membership_id: i64,
    pub membership_type: BungieMembershipType,
    pub character_id: i64,
    pub date_last_played: Timestamp,
    pub minutes_played_this_session: i64,
    pub minutes_played_total: i64,
    pub light: i32,
    pub stats: Vec<(u32, i32)>,
    pub race_hash: u32,
    pub gender_hash: u32,
    pub class_hash: u32,
    pub race_type: DestinyRace,
    pub class_type: DestinyClass,
    pub gender_type: DestinyGender,
    pub emblem_path: String,
    pub emblem_background_path: String,
    pub emblem_hash: u32,
    pub emblem_color: DestinyColor,
    pub level_progression: DestinyProgression,
    pub base_character_level: i32,
    pub percent_to_next_level: FloatText,
    pub title_record_hash: u32,
}

#[derive(Debug, Clone, PartialEq)]
pub struct DestinyCharacterProgressionComponent {
    pub progressions: Vec<(u32, DestinyProgression)>,
    pub factions: Vec<(u32, DestinyFactionProgression)>,
    pub milestones: Vec<(u32, DestinyMilestone)>,
    pub quests: Vec<DestinyQuestStatus>,
    pub uninstanced_item_objectives: Vec<(u32, Vec<DestinyObjectiveProgress>)>,
    pub uninstanced_item_perks: Vec<(u32, DestinyItemPerksComponent)>,
    pub checklists: Vec<(u32, Vec<(u32, bool)>)>,
    pub seasonal_artifact: DestinyArtifactCharacterScoped,
}

#[derive(Debug, Clone, PartialEq)]
pub struct DestinyCharacterRenderComponent {
    pub custom_dyes: Vec<DyeReference>,
    pub customization: DestinyCharacterCustomization,
    pub peer_view: DestinyCharacterPeerView,
}

#[derive(Debug, Clone, PartialEq)]
pub struct DestinyCharacterActivitiesComponent {
    pub date_activity_started: Timestamp,
    pub available_activities: Vec<DestinyActivity>,
    pub current_activity_hash: u32,
    pub current_activity_mode_hash: u32,
    pub current_activity_mode_type: i32,
    pub current_activity_mode_hashes: Vec<u32>,
    pub current_activity_mode_types: Vec<DestinyActivityModeType>,
    pub current_playlist_activity_hash: u32,
    pub last_completed_story_hash: u32,
}

#[derive(Debug, Clone, PartialEq)]
pub struct DestinyInventoryComponent {
    pub items: Vec<DestinyItemComponent>,
}

#[derive(Debug, Clone, PartialEq)]
pub struct DestinyItemComponent {
    pub item_hash: u32,
    pub item_instance_id: i64,
    pub quantity: i32,
    pub bind_status: ItemBindStatus,
    pub location: ItemLocation,
    pub bucket_hash: u32,
    pub transfer_status: TransferStatuses,
    pub lockable: bool,
    pub state: ItemState,
    pub override_style_item_hash: u32,
    pub expiration_date: Timestamp,
    pub is_wrapper: bool,
    pub tooltip_notification_indexes: Vec<i32>,
    pub metric_hash: u32,
    pub metric_objective: DestinyObjectiveProgress,
    pub version_number: i32,
    pub item_value_visibility: Vec<bool>,
}

#[derive(Debug, Clone, PartialEq)]
pub struct DestinyItemPerksComponent {
    pub perks: Option<Vec<DestinyPerkReference>>,
}

#[derive(Debug, Clone, PartialEq)]
pub struct DestinyItemObjectivesComponent {
    pub objectives: Vec<DestinyObjectiveProgress>,
    pub flavor_objective: DestinyObjectiveProgress,
    pub date_completed: Timestamp,
}

#[derive(Debug, Clone, PartialEq)]
pub struct DestinyItemInstanceComponent {
    pub damage_type: DamageType,
    pub damage_type_hash: u32,
    pub primary_stat: DestinyStat,
    pub item_level: i32,
    pub quality: i32,
    pub is_equipped: bool,
    pub can_equip: bool,
    pub equip_required_level: i32,
    pub unlock_hashes_required_to_equip: Vec<u32>,
    pub cannot_equip_reason: EquipFailureReason,
    pub breaker_type: i32,
    pub breaker_type_hash: u32,
    pub energy: DestinyItemInstanceEnergy,
}

#[derive(Debug, Clone, PartialEq)]
pub struct DestinyItemInstanceEnergy {
    pub energy_type_hash: u32,
    pub energy_type: DestinyEnergyType,
    pub energy_capacity: i32,
    pub energy_used: i32,
    pub energy_unused: i32,
}

#[derive(Debug, Clone, PartialEq)]
pub struct DestinyItemRenderComponent {
    pub use_custom_dyes: bool,
    pub art_regions: Vec<(i32, i32)>,
}

#[derive(Debug, Clone, PartialEq)]
pub struct DestinyItemStatsComponent {
    pub stats: Vec<(u32, DestinyStat)>,
}

#[derive(Debug, Clone, PartialEq)]
pub struct DestinyItemSocketsComponent {
    pub sockets: Vec<DestinyItemSocketState>,
}

#[derive(Debug, Clone, PartialEq)]
pub struct DestinyItemSocketState {
    pub plug_hash: u32,
    pub is_enabled: bool,
    pub is_visible: bool,
    pub enable_fail_indexes: Vec<i32>,
}

#[derive(Debug, Clone, PartialEq)]
pub struct DestinyItemTalentGridComponent {
    pub talent_grid_hash: u32,
    pub nodes: Vec<DestinyTalentNode>,
    pub is_grid_complete: bool,
    pub grid_progression: DestinyProgression,
}

#[derive(Debug, Clone, PartialEq)]
pub struct DestinyVendorReceiptsComponent {
    pub receipts: Vec<DestinyVendorReceipt>,
}

#[derive(Debug, Clone, PartialEq)]
pub struct DestinyProfileComponent {
    pub user_info: UserInfoCard,
    pub date_last_played: Timestamp,
    pub versions_owned: DestinyGameVersions,
    pub character_ids: Vec<String>,
    pub season_hashes: Vec<u32>,
    pub event_card_hashes_owned: Vec<u32>,
    pub current_season_hash: u32,
    pub current_season_reward_power_cap: i32,
    pub active_event_card_hash: u32,
    pub current_guardian_rank: i32,
    pub lifetime_highest_guardian_rank: i32,
}

#[derive(Debug, Clone, PartialEq)]
pub struct DestinyPostGameCarnageReportData {
    pub period: Timestamp,
    pub starting_phase_index: i32,
    pub activity_was_started_from_beginning: bool,
    pub activity_details: DestinyHistoricalStatsActivity,
    pub entries: Vec<DestinyPostGameCarnageReportEntry>,
    pub teams: Vec<DestinyPostGameCarnageReportTeamEntry>,
}

#[derive(Debug, Clone, PartialEq)]
pub struct DestinyHistoricalStatsActivity {
    pub reference_id: u32,
    pub director_activity_hash: u32,
    pub instance_id: u64,
    pub mode: DestinyActivityModeType,
    pub modes: Vec<DestinyActivityModeType>,
    pub is_private: bool,
    pub membership_type: BungieMembershipType,
}

#[derive(Debug, Clone, PartialEq)]
pub struct DestinyPostGameCarnageReportEntry {
    pub standing: i32,
    pub score: DestinyHistoricalStatsValue,
    pub player: DestinyPlayer,
    pub character_id: String,
    pub values: Vec<(String, DestinyHistoricalStatsValue)>,
    pub extended: DestinyPostGameCarnageReportExtendedData,
}

#[derive(Debug, Clone, PartialEq)]
pub struct DestinyHistoricalStatsValue {
    pub stat_id: Option<String>,
    pub basic: DestinyHistoricalStatsValuePair,
    pub pga: Option<DestinyHistoricalStatsValuePair>,
    pub weighted: Option<DestinyHistoricalStatsValuePair>,
    pub activity_id: Option<i64>,
}

#[derive(Debug, Clone, PartialEq)]
pub struct DestinyHistoricalStatsValuePair {
    pub value: FloatText,
    pub display_value: String,
}

#[derive(Debug, Clone, PartialEq)]
pub struct DestinyPlayer {
    pub destiny_user_info: UserInfoCard,
    pub character_class: String,
    pub class_hash: u32,
    pub race_hash: u32,
    pub gender_hash: u32,
    pub character_level: i32,
    pub light_level: i32,
    pub bungie_net_user_info: Option<UserInfoCard>,
    pub clan_name: Option<String>,
    pub clan_tag: Option<String>,
    pub emblem_hash: u32,
}

#[derive(Debug, Clone, PartialEq)]
pub struct DestinyPostGameCarnageReportExtendedData {
    pub weapons: Vec<DestinyHistoricalWeaponStats>,
    pub values: Vec<(String, DestinyHistoricalStatsValue)>,
}

#[derive(Debug, Clone, PartialEq)]
pub struct DestinyHistoricalWeaponStats {
    pub reference_id: u32,
    pub values: Vec<(String, DestinyHistoricalStatsValue)>,
}

#[derive(Debug, Clone, PartialEq)]
pub struct DestinyPostGameCarnageReportTeamEntry {
    pub team_id: i32,
    pub standing: DestinyHistoricalStatsValue,
    pub score: DestinyHistoricalStatsValue,
    pub team_name: String,
}

#[derive(Debug, Clone, PartialEq)]
pub struct DestinyHistoricalStatsPeriodGroup {
    pub period: Timestamp,
    pub activity_details: DestinyHistoricalStatsActivity,
    pub values: Vec<(String, DestinyHistoricalStatsValue)>,
}

#[derive(Debug, Clone, PartialEq)]
pub struct DestinyActivityHistoryResults {
    pub activities: Vec<DestinyHistoricalStatsPeriodGroup>,
}

#[derive(Debug, Clone, PartialEq)]
pub struct DestinyMilestone {
    pub milestone_hash: u32,
    pub available_quests: Option<Vec<DestinyMilestoneQuest>>,
    pub activities: Vec<DestinyMilestoneChallengeActivity>,
    pub values: Vec<(String, FloatText)>,
    pub vendor_hashes: Option<Vec<u32>>,
    pub vendors: Vec<DestinyMilestoneVendor>,
    pub rewards: Vec<DestinyMilestoneRewardCategory>,
    pub start_date: Timestamp,
    pub end_date: Timestamp,
    pub order: i32,
}

#[derive(Debug, Clone, PartialEq)]
pub struct DestinyMilestoneQuest {
    pub quest_item_hash: u32,
    pub status: DestinyQuestStatus,
    pub activity: DestinyMilestoneActivity,
    pub challenges: Vec<DestinyChallengeStatus>,
}

#[derive(Debug, Clone, PartialEq)]
pub struct DestinyMilestoneActivity {
    pub activity_hash: u32,
    pub activity_mode_hash: u32,
    pub activity_mode_type: i32,
    pub modifier_hashes: Vec<u32>,
    pub variants: Vec<DestinyMilestoneActivityVariant>,
}

#[derive(Debug, Clone, PartialEq)]
pub struct DestinyMilestoneActivityVariant {
    pub activity_hash: u32,
    pub completion_status: DestinyMilestoneActivityCompletionStatus,
    pub activity_mode_hash: u32,
    pub activity_mode_type: i32,
}

#[derive(Debug, Clone, PartialEq)]
pub struct DestinyMilestoneActivityCompletionStatus {
    pub completed: bool,
    pub phases: Vec<DestinyMilestoneActivityPhase>,
}

#[derive(Debug, Clone, PartialEq)]
pub struct DestinyMilestoneActivityPhase {
    pub complete: bool,
    pub phase_hash: u32,
}

#[derive(Debug, Clone, PartialEq)]
pub struct DestinyMilestoneChallengeActivity {
    pub activity_hash: u32,
    pub challenges: Vec<DestinyChallengeStatus>,
    pub modifier_hashes: Vec<u32>,
    pub boolean_activity_options: Vec<(u32, bool)>,
    pub loadout_requirement_index: i32,
    pub phases: Vec<DestinyMilestoneActivityPhase>,
}

#[derive(Debug, Clone, PartialEq)]
pub struct DestinyMilestoneVendor {
    pub vendor_hash: u32,
    pub preview_item_hash: u32,
}

#[derive(Debug, Clone, PartialEq)]
pub struct DestinyMilestoneRewardCategory {
    pub reward_category_hash: u32,
    pub entries: Vec<DestinyMilestoneRewardEntry>,
}

#[derive(Debug, Clone, PartialEq)]
pub struct DestinyMilestoneRewardEntry {
    pub reward_entry_hash: u32,
    pub earned: bool,
    pub redeemed: bool,
}

#[derive(Debug, Clone, PartialEq)]
pub struct DestinyMilestoneContent {
    pub about: Option<String>,
    pub status: Option<String>,
    pub tips: Option<Vec<String>>,
    pub item_categories: Vec<DestinyMilestoneContentItemCategory>,
}

#[derive(Debug, Clone, PartialEq)]
pub struct DestinyMilestoneContentItemCategory {
    pub title: Option<String>,
    pub item_hashes: Option<Vec<u32>>,
}

#[derive(Debug, Clone, PartialEq)]
pub struct DestinyPublicMilestone {
    pub milestone_hash: u32,
    pub available_quests: Vec<DestinyPublicMilestoneQuest>,
    pub activities: Vec<DestinyPublicMilestoneChallengeActivity>,
    pub vendor_hashes: Vec<u32>,
    pub vendors: Vec<DestinyPublicMilestoneVendor>,
    pub start_date: Timestamp,
    pub end_date: Timestamp,
    pub order: i32,
}

#[derive(Debug, Clone, PartialEq)]
pub struct DestinyPublicMilestoneQuest {
    pub quest_item_hash: u32,
    pub activity: DestinyPublicMilestoneActivity,
    pub challenges: Vec<DestinyPublicMilestoneChallenge>,
}

#[derive(Debug, Clone, PartialEq)]
pub struct DestinyPublicMilestoneActivity {
    pub activity_hash: u32,
    pub modifier_hashes: Vec<u32>,
    pub variants: Vec<DestinyPublicMilestoneActivityVariant>,
    pub activity_mode_hash: u32,
    pub activity_mode_type: i32,
}

#[derive(Debug, Clone, PartialEq)]
pub struct DestinyPublicMilestoneActivityVariant {
    pub activity_hash: u32,
    pub activity_mode_hash: u32,
    pub activity_mode_type: i32,
}

#[derive(Debug, Clone, PartialEq)]
pub struct DestinyPublicMilestoneChallenge {
    pub objective_hash: u32,
    pub activity_hash: u32,
}

#[derive(Debug, Clone, PartialEq)]
pub struct DestinyPublicMilestoneChallengeActivity {
    pub activity_hash: u32,
    pub challenge_objective_hashes: Vec<u32>,
    pub modifier_hashes: Vec<u32>,
    pub loadout_requirement_index: i32,
    pub phase_hashes: Vec<u32>,
    pub boolean_activity_options: Vec<(u32, bool)>,
}

#[derive(Debug, Clone, PartialEq)]
pub struct DestinyPublicMilestoneVendor {
    pub vendor_hash: u32,
    pub preview_item_hash: u32,
}

#[derive(Debug, Clone, PartialEq)]
pub struct DestinyProgression {
    pub progression_hash: u32,
    pub daily_progress: i32,
    pub daily_limit: i32,
    pub weekly_progress: i32,
    pub weekly_limit: i32,
    pub current_progress: i32,
    pub level: i32,
    pub level_cap: i32,
    pub step_index: i32,
    pub progress_to_next_level: i32,
    pub next_level_at: i32,
    pub current_reset_count: i32,
    pub season_resets: Vec<DestinyProgressionResetEntry>,
    pub reward_item_states: Vec<DestinyProgressionRewardItemState>,
}

#[derive(Debug, Clone, PartialEq)]
pub struct DestinyProgressionResetEntry {
    pub season: i32,
    pub resets: i32,
}

#[derive(Debug, Clone, PartialEq)]
pub struct DestinyItemQuantity {
    pub item_hash: u32,
    pub item_instance_id: Option<i64>,
    pub quantity: i32,
    pub has_conditional_visibility: bool,
}

#[derive(Debug, Clone, PartialEq)]
pub struct DyeReference {
    pub channel_hash: u32,
    pub dye_hash: u32,
}

#[derive(Debug, Clone, PartialEq)]
pub struct DestinyActivity {
    pub activity_hash: u32,
    pub is_new: bool,
    pub can_lead: bool,
    pub can_join: bool,
    pub is_completed: bool,
    pub is_visible: bool,
    pub display_level: Option<i32>,
    pub recommended_light: Option<i32>,
    pub difficulty_tier: DestinyActivityDifficultyTier,
    pub challenges: Vec<DestinyChallengeStatus>,
    pub modifier_hashes: Vec<u32>,
    pub boolean_activity_options: Vec<(u32, bool)>,
    pub loadout_requirement_index: i32,
}

#[derive(Debug, Clone, PartialEq)]
pub struct DestinyStat {
    pub stat_hash: u32,
    pub value: i32,
}

#[derive(Debug, Clone, PartialEq)]
pub struct DestinyTalentNode {
    pub node_index: i32,
    pub node_hash: u32,
    pub state: DestinyTalentNodeState,
    pub is_activated: bool,
    pub step_index: i32,
    pub materials_to_upgrade: Vec<DestinyMaterialRequirement>,
    pub activation_grid_level: i32,
    pub progress_percent: FloatText,
    pub hidden: bool,
    pub node_stats_block: DestinyTalentNodeStatBlock,
}

#[derive(Debug, Clone, PartialEq)]
pub struct DestinyTalentNodeStatBlock {
    pub current_step_stats: Vec<DestinyStat>,
    pub next_step_stats: Vec<DestinyStat>,
}

#[derive(Debug, Clone, PartialEq)]
pub struct DestinyUnlockStatus {
    pub unlock_hash: u32,
    pub is_set: bool,
}

#[derive(Debug, Clone, PartialEq)]
pub struct DestinyPerkReference {
    pub perk_hash: u32,
    pub icon_path: String,
    pub is_active: bool,
    pub visible: bool,
}

#[derive(Debug, Clone, PartialEq)]
pub struct DestinyFactionProgression {
    pub faction_hash: u32,
    pub faction_vendor_index: i32,
    pub progression_hash: u32,
    pub daily_progress: i32,
    pub daily_limit: i32,
    pub weekly_progress: i32,
    pub weekly_limit: i32,
    pub current_progress: i32,
    pub level: i32,
    pub level_cap: i32,
    pub step_index: i32,
    pub progress_to_next_level: i32,
    pub next_level_at: i32,
    pub current_reset_count: i32,
    pub season_resets: Vec<DestinyProgressionResetEntry>,
    pub reward_item_states: Vec<DestinyProgressionRewardItemState>,
}

#[derive(Debug, Clone, PartialEq)]
pub struct DestinyObjectiveProgress {
    pub objective_hash: u32,
    pub destination_hash: u32,
    pub activity_hash: u32,
    pub progress: i32,
    pub completion_value: i32,
    pub complete: bool,
    pub visible: bool,
}

#[derive(Debug, Clone, PartialEq)]
pub struct DestinyQuestStatus {
    pub quest_hash: u32,
    pub step_hash: u32,
    pub step_objectives: Option<Vec<DestinyObjectiveProgress>>,
    pub is_tracked: bool,
    pub item_instance_id: i64,
    pub completed: bool,
    pub redeemed: bool,
    pub started: bool,
    pub vendor_hash: u32,
}

#[derive(Debug, Clone, PartialEq)]
pub struct DestinyProfileResponse {
    pub response_minted_timestamp: Timestamp,
    pub secondary_components_minted_timestamp: Timestamp,
    pub vendor_receipts: Option<ComponentResponse<DestinyVendorReceiptsComponent>>,
    pub profile_inventory: Option<ComponentResponse<DestinyInventoryComponent>>,
    pub profile_currencies: Option<ComponentResponse<DestinyInventoryComponent>>,
    pub profile: Option<ComponentResponse<DestinyProfileComponent>>,
    pub platform_silver: Option<ComponentResponse<DestinyPlatformSilverComponent>>,
    pub profile_kiosks: Option<ComponentResponse<DestinyKiosksComponent>>,
    pub profile_plug_sets: Option<ComponentResponse<DestinyPlugSetsComponent>>,
    pub profile_progression: Option<ComponentResponse<DestinyProfileProgressionComponent>>,
    pub profile_presentation_nodes: Option<ComponentResponse<DestinyPresentationNodesComponent>>,
    pub profile_records: Option<ComponentResponse<DestinyProfileRecordsComponent>>,
    pub profile_collectibles: Option<ComponentResponse<DestinyProfileCollectiblesComponent>>,
    pub profile_transitory_data: Option<ComponentResponse<DestinyProfileTransitoryComponent>>,
    pub metrics: Option<ComponentResponse<DestinyMetricsComponent>>,
    pub profile_string_variables: Option<ComponentResponse<DestinyStringVariablesComponent>>,
    pub profile_commendations: Option<ComponentResponse<DestinySocialCommendationsComponent>>,
    pub characters: Option<ComponentResponse<Vec<(i64, DestinyCharacterComponent)>>>,
    pub character_inventories: Option<ComponentResponse<Vec<(i64, DestinyInventoryComponent)>>>,
    pub character_loadouts: Option<ComponentResponse<Vec<(i64, DestinyLoadoutsComponent)>>>,
    pub character_progressions: Option<ComponentResponse<Vec<(i64, DestinyCharacterProgressionComponent)>>>,
    pub character_render_data: Option<ComponentResponse<Vec<(i64, DestinyCharacterRenderComponent)>>>,
    pub character_activities: Option<ComponentResponse<Vec<(i64, DestinyCharacterActivitiesComponent)>>>,
    pub character_equipment: Option<ComponentResponse<Vec<(i64, DestinyInventoryComponent)>>>,
    pub character_kiosks: Option<ComponentResponse<Vec<(i64, DestinyKiosksComponent)>>>,
    pub character_plug_sets: Option<ComponentResponse<Vec<(i64, DestinyPlugSetsComponent)>>>,
    pub character_uninstanced_item_components: Option<DestinyBaseItemComponentSetOfuint32>,
    pub character_presentation_nodes: Option<ComponentResponse<Vec<(i64, DestinyPresentationNodesComponent)>>>,
    pub character_records: Option<ComponentResponse<Vec<(i64, DestinyCharacterRecordsComponent)>>>,
    pub character_collectibles: Option<ComponentResponse<Vec<(i64, DestinyCollectiblesComponent)>>>,
    pub character_string_variables: Option<ComponentResponse<Vec<(i64, DestinyStringVariablesComponent)>>>,
    pub character_craftables: Option<ComponentResponse<Vec<(i64, DestinyCraftablesComponent)>>>,
    pub item_components: Option<DestinyItemComponentSetOfint64>,
    pub character_currency_lookups: Option<ComponentResponse<Vec<(i64, DestinyCurrenciesComponent)>>>,
}

#[derive(Debug, Clone, PartialEq)]
pub struct DestinyItemPlugBase {
    pub plug_item_hash: u32,
    pub can_insert: bool,
    pub enabled: bool,
    pub insert_fail_indexes: Vec<i32>,
    pub enable_fail_indexes: Vec<i32>,
}

#[derive(Debug, Clone, PartialEq)]
pub struct DestinyItemPlug {
    pub plug_objectives: Vec<DestinyObjectiveProgress>,
    pub plug_item_hash: u32,
    pub can_insert: bool,
    pub enabled: bool,
    pub insert_fail_indexes: Vec<i32>,
    pub enable_fail_indexes: Vec<i32>,
}

#[derive(Debug, Clone, PartialEq)]
pub struct DestinyVendorReceipt {
    pub currency_paid: Vec<DestinyItemQuantity>,
    pub item_received: DestinyItemQuantity,
    pub license_unlock_hash: u32,
    pub purchased_by_character_id: i64,
    pub refund_policy: DestinyVendorItemRefundPolicy,
    pub sequence_number: i32,
    pub time_to_expiration: i64,
    pub expires_on: Timestamp,
}

#[derive(Debug, Clone, PartialEq)]
pub struct HyperlinkReference {
    pub title: String,
    pub url: String,
}

#[derive(Debug, Clone, PartialEq)]
pub struct DestinyColor {
    pub red: u8,
    pub green: u8,
    pub blue: u8,
    pub alpha: u8,
}

#[derive(Debug, Clone, PartialEq)]
pub struct DestinyBaseItemComponentSetOfuint32 {
    pub objectives: ComponentResponse<Vec<(u32, DestinyItemObjectivesComponent)>>,
    pub perks: ComponentResponse<Vec<(u32, DestinyItemPerksComponent)>>,
}

#[derive(Debug, Clone, PartialEq)]
pub struct DestinyItemComponentSetOfint64 {
    pub instances: ComponentResponse<Vec<(i64, DestinyItemInstanceComponent)>>,
    pub render_data: ComponentResponse<Vec<(i64, DestinyItemRenderComponent)>>,
    pub stats: ComponentResponse<Vec<(i64, DestinyItemStatsComponent)>>,
    pub sockets: ComponentResponse<Vec<(i64, DestinyItemSocketsComponent)>>,
    pub reusable_plugs: ComponentResponse<Vec<(i64, DestinyItemReusablePlugsComponent)>>,
    pub plug_objectives: ComponentResponse<Vec<(i64, DestinyItemPlugObjectivesComponent)>>,
    pub talent_grids: ComponentResponse<Vec<(i64, DestinyItemTalentGridComponent)>>,
    pub plug_states: ComponentResponse<Vec<(u32, DestinyItemPlugComponent)>>,
    pub objectives: ComponentResponse<Vec<(i64, DestinyItemObjectivesComponent)>>,
    pub perks: ComponentResponse<Vec<(i64, DestinyItemPerksComponent)>>,
}

#[derive(Debug, Clone, PartialEq)]
pub struct UserInfoCard {
    pub supplemental_display_name: Option<String>,
    pub icon_path: Option<String>,
    pub cross_save_override: BungieMembershipType,
    pub applicable_membership_types: Vec<BungieMembershipType>,
    pub is_public: bool,
    pub membership_type: BungieMembershipType,
    pub membership_id: u64,
    pub display_name: Option<String>,
    pub bungie_global_display_name: Option<String>,
    pub bungie_global_display_name_code: Option<i16>,
}

/// The activity-mode code of the statistics endpoints.
#[derive(Debug, Clone, Copy, PartialEq, Eq)]
pub enum DestinyActivityModeType {
    NoneValue,
    Story,
    Strike,
    Raid,
    AllPvP,
    Patrol,
    AllPvE,
    Control,
    Clash,
    CrimsonDoubles,
    Nightfall,
    HeroicNightfall,
    AllStrikes,
    IronBanner,
    AllMayhem,
    Supremacy,
    PrivateMatchesAll,
    Survival,
    Countdown,
    TrialsOfTheNine,
    Social,
    TrialsCountdown,
    TrialsSurvival,
    IronBannerControl,
    IronBannerClash,
    IronBannerSupremacy,
    ScoredNightfall,
    ScoredHeroicNightfall,
    Rumble,
    AllDoubles,
    Doubles,
    PrivateMatchesClash,
    PrivateMatchesControl,
    PrivateMatchesSupremacy,
    PrivateMatchesCountdown,
    PrivateMatchesSurvival,
    PrivateMatchesMayhem,
    PrivateMatchesRumble,
    HeroicAdventure,
    Showdown,
    Lockdown,
    Scorched,
    ScorchedTeam,
    Gambit,
    AllPvECompetitive,
    Breakthrough,
    BlackArmoryRun,
    Salvage,
    IronBannerSalvage,
    PvPCompetitive,
    PvPQuickplay,
    ClashQuickplay,
    ClashCompetitive,
    ControlQuickplay,
    ControlCompetitive,
    GambitPrime,
    Reckoning,
    Menagerie,
    VexOffensive,
    NightmareHunt,
    Elimination,
    Momentum,
    Dungeon,
    Sundial,
    TrialsOfOsiris,
    Dares,
    Offensive,
    LostSector,
    Rift,
    ZoneControl,
    IronBannerRift,
    IronBannerZoneControl,
    Relic,
}

impl DestinyActivityModeType {
    /// The wire code this value stands for.
    pub open spec fn spec_code(self) -> int {
        match self {
            DestinyActivityModeType::NoneValue => 0,
            DestinyActivityModeType::Story => 2,
            DestinyActivityModeType::Strike => 3,
            DestinyActivityModeType::Raid => 4,
            DestinyActivityModeType::AllPvP => 5,
            DestinyActivityModeType::Patrol => 6,
            DestinyActivityModeType::AllPvE => 7,
            DestinyActivityModeType::Control => 10,
            DestinyActivityModeType::Clash => 12,
            DestinyActivityModeType::CrimsonDoubles => 15,
            DestinyActivityModeType::Nightfall => 16,
            DestinyActivityModeType::HeroicNightfall => 17,
            DestinyActivityModeType::AllStrikes => 18,
            DestinyActivityModeType::IronBanner => 19,
            DestinyActivityModeType::AllMayhem => 25,
            DestinyActivityModeType::Supremacy => 31,
            DestinyActivityModeType::PrivateMatchesAll => 32,
            DestinyActivityModeType::Survival => 37,
            DestinyActivityModeType::Countdown => 38,
            DestinyActivityModeType::TrialsOfTheNine => 39,
            DestinyActivityModeType::Social => 40,
            DestinyActivityModeType::TrialsCountdown => 41,
            DestinyActivityModeType::TrialsSurvival => 42,
            DestinyActivityModeType::IronBannerControl => 43,
            DestinyActivityModeType::IronBannerClash => 44,
            DestinyActivityModeType::IronBannerSupremacy => 45,
            DestinyActivityModeType::ScoredNightfall => 46,
            DestinyActivityModeType::ScoredHeroicNightfall => 47,
            DestinyActivityModeType::Rumble => 48,
            DestinyActivityModeType::AllDoubles => 49,
            DestinyActivityModeType::Doubles => 50,
            DestinyActivityModeType::PrivateMatchesClash => 51,
            DestinyActivityModeType::PrivateMatchesControl => 52,
            DestinyActivityModeType::PrivateMatchesSupremacy => 53,
            DestinyActivityModeType::PrivateMatchesCountdown => 54,
            DestinyActivityModeType::PrivateMatchesSurvival => 55,
            DestinyActivityModeType::PrivateMatchesMayhem => 56,
            DestinyActivityModeType::PrivateMatchesRumble => 57,
            DestinyActivityModeType::HeroicAdventure => 58,
            DestinyActivityModeType::Showdown => 59,
            DestinyActivityModeType::Lockdown => 60,
            DestinyActivityModeType::Scorched => 61,
            DestinyActivityModeType::ScorchedTeam => 62,
            DestinyActivityModeType::Gambit => 63,
            DestinyActivityModeType::AllPvECompetitive => 64,
            DestinyActivityModeType::Breakthrough => 65,
            DestinyActivityModeType::BlackArmoryRun => 66,
            DestinyActivityModeType::Salvage => 67,
            DestinyActivityModeType::IronBannerSalvage => 68,
            DestinyActivityModeType::PvPCompetitive => 69,
            DestinyActivityModeType::PvPQuickplay => 70,
            DestinyActivityModeType::ClashQuickplay => 71,
            DestinyActivityModeType::ClashCompetitive => 72,
            DestinyActivityModeType::ControlQuickplay => 73,
            DestinyActivityModeType::ControlCompetitive => 74,
            DestinyActivityModeType::GambitPrime => 75,
            DestinyActivityModeType::Reckoning => 76,
            DestinyActivityModeType::Menagerie => 77,
            DestinyActivityModeType::VexOffensive => 78,
            DestinyActivityModeType::NightmareHunt => 79,
            DestinyActivityModeType::Elimination => 80,
            DestinyActivityModeType::Momentum => 81,
            DestinyActivityModeType::Dungeon => 82,
            DestinyActivityModeType::Sundial => 83,
            DestinyActivityModeType::TrialsOfOsiris => 84,
            DestinyActivityModeType::Dares => 85,
            DestinyActivityModeType::Offensive => 86,
            DestinyActivityModeType::LostSector => 87,
            DestinyActivityModeType::Rift => 88,
            DestinyActivityModeType::ZoneControl => 89,
            DestinyActivityModeType::IronBannerRift => 90,
            DestinyActivityModeType::IronBannerZoneControl => 91,
            DestinyActivityModeType::Relic => 92,
        }
    }

    /// The value a wire code decodes to, if it is declared.
    pub open spec fn spec_from_code(code: int) -> Option<DestinyActivityModeType> {
        if code == 0 {
            Some(DestinyActivityModeType::NoneValue)
        } else if code == 2 {
            Some(DestinyActivityModeType::Story)
        } else if code == 3 {
            Some(DestinyActivityModeType::Strike)
        } else if code == 4 {
            Some(DestinyActivityModeType::Raid)
        } else if code == 5 {
            Some(DestinyActivityModeType::AllPvP)
        } else if code == 6 {
            Some(DestinyActivityModeType::Patrol)
        } else if code == 7 {
            Some(DestinyActivityModeType::AllPvE)
        } else if code == 10 {
            Some(DestinyActivityModeType::Control)
        } else if code == 12 {
            Some(DestinyActivityModeType::Clash)
        } else if code == 15 {
            Some(DestinyActivityModeType::CrimsonDoubles)
        } else if code == 16 {
            Some(DestinyActivityModeType::Nightfall)
        } else if code == 17 {
            Some(DestinyActivityModeType::HeroicNightfall)
        } else if code == 18 {
            Some(DestinyActivityModeType::AllStrikes)
        } else if code == 19 {
            Some(DestinyActivityModeType::IronBanner)
        } else if code == 25 {
            Some(DestinyActivityModeType::AllMayhem)
        } else if code == 31 {
            Some(DestinyActivityModeType::Supremacy)
        } else if code == 32 {
            Some(DestinyActivityModeType::PrivateMatchesAll)
        } else if code == 37 {
            Some(DestinyActivityModeType::Survival)
        } else if code == 38 {
            Some(DestinyActivityModeType::Countdown)
        } else if code == 39 {
            Some(DestinyActivityModeType::TrialsOfTheNine)
        } else if code == 40 {
            Some(DestinyActivityModeType::Social)
        } else if code == 41 {
            Some(DestinyActivityModeType::TrialsCountdown)
        } else if code == 42 {
            Some(DestinyActivityModeType::TrialsSurvival)
        } else if code == 43 {
            Some(DestinyActivityModeType::IronBannerControl)
        } else if code == 44 {
            Some(DestinyActivityModeType::IronBannerClash)
        } else if code == 45 {
            Some(DestinyActivityModeType::IronBannerSupremacy)
        } else if code == 46 {
            Some(DestinyActivityModeType::ScoredNightfall)
        } else if code == 47 {
            Some(DestinyActivityModeType::ScoredHeroicNightfall)
        } else if code == 48 {
            Some(DestinyActivityModeType::Rumble)
        } else if code == 49 {
            Some(DestinyActivityModeType::AllDoubles)
        } else if code == 50 {
            Some(DestinyActivityModeType::Doubles)
        } else if code == 51 {
            Some(DestinyActivityModeType::PrivateMatchesClash)
        } else if code == 52 {
            Some(DestinyActivityModeType::PrivateMatchesControl)
        } else if code == 53 {
            Some(DestinyActivityModeType::PrivateMatchesSupremacy)
        } else if code == 54 {
            Some(DestinyActivityModeType::PrivateMatchesCountdown)
        } else if code == 55 {
            Some(DestinyActivityModeType::PrivateMatchesSurvival)
        } else if code == 56 {
            Some(DestinyActivityModeType::PrivateMatchesMayhem)
        } else if code == 57 {
            Some(DestinyActivityModeType::PrivateMatchesRumble)
        } else if code == 58 {
            Some(DestinyActivityModeType::HeroicAdventure)
        } else if code == 59 {
            Some(DestinyActivityModeType::Showdown)
        } else if code == 60 {
            Some(DestinyActivityModeType::Lockdown)
        } else if code == 61 {
            Some(DestinyActivityModeType::Scorched)
        } else if code == 62 {
            Some(DestinyActivityModeType::ScorchedTeam)
        } else if code == 63 {
            Some(DestinyActivityModeType::Gambit)
        } else if code == 64 {
            Some(DestinyActivityModeType::AllPvECompetitive)
        } else if code == 65 {
            Some(DestinyActivityModeType::Breakthrough)
        } else if code == 66 {
            Some(DestinyActivityModeType::BlackArmoryRun)
        } else if code == 67 {
            Some(DestinyActivityModeType::Salvage)
        } else if code == 68 {
            Some(DestinyActivityModeType::IronBannerSalvage)
        } else if code == 69 {
            Some(DestinyActivityModeType::PvPCompetitive)
        } else if code == 70 {
            Some(DestinyActivityModeType::PvPQuickplay)
        } else if code == 71 {
            Some(DestinyActivityModeType::ClashQuickplay)
        } else if code == 72 {
            Some(DestinyActivityModeType::ClashCompetitive)
        } else if code == 73 {
            Some(DestinyActivityModeType::ControlQuickplay)
        } else if code == 74 {
            Some(DestinyActivityModeType::ControlCompetitive)
        } else if code == 75 {
            Some(DestinyActivityModeType::GambitPrime)
        } else if code == 76 {
            Some(DestinyActivityModeType::Reckoning)
        } else if code == 77 {
            Some(DestinyActivityModeType::Menagerie)
        } else if code == 78 {
            Some(DestinyActivityModeType::VexOffensive)
        } else if code == 79 {
            Some(DestinyActivityModeType::NightmareHunt)
        } else if code == 80 {
            Some(DestinyActivityModeType::Elimination)
        } else if code == 81 {
            Some(DestinyActivityModeType::Momentum)
        } else if code == 82 {
            Some(DestinyActivityModeType::Dungeon)
        } else if code == 83 {
            Some(DestinyActivityModeType::Sundial)
        } else if code == 84 {
            Some(DestinyActivityModeType::TrialsOfOsiris)
        } else if code == 85 {
            Some(DestinyActivityModeType::Dares)
        } else if code == 86 {
            Some(DestinyActivityModeType::Offensive)
        } else if code == 87 {
            Some(DestinyActivityModeType::LostSector)
        } else if code == 88 {
            Some(DestinyActivityModeType::Rift)
        } else if code == 89 {
            Some(DestinyActivityModeType::ZoneControl)
        } else if code == 90 {
            Some(DestinyActivityModeType::IronBannerRift)
        } else if code == 91 {
            Some(DestinyActivityModeType::IronBannerZoneControl)
        } else if code == 92 {
            Some(DestinyActivityModeType::Relic)
        } else {
            None
        }
    }

    /// Decodes a wire code; an integer outside the declared set fails.
    pub fn from_code(code: i32) -> (r: Option<DestinyActivityModeType>)
        ensures
            r == DestinyActivityModeType::spec_from_code(code as int),
    {
        match code {
            0 => Some(DestinyActivityModeType::NoneValue),
            2 => Some(DestinyActivityModeType::Story),
            3 => Some(DestinyActivityModeType::Strike),
            4 => Some(DestinyActivityModeType::Raid),
            5 => Some(DestinyActivityModeType::AllPvP),
            6 => Some(DestinyActivityModeType::Patrol),
            7 => Some(DestinyActivityModeType::AllPvE),
            10 => Some(DestinyActivityModeType::Control),
            12 => Some(DestinyActivityModeType::Clash),
            15 => Some(DestinyActivityModeType::CrimsonDoubles),
            16 => Some(DestinyActivityModeType::Nightfall),
            17 => Some(DestinyActivityModeType::HeroicNightfall),
            18 => Some(DestinyActivityModeType::AllStrikes),
            19 => Some(DestinyActivityModeType::IronBanner),
            25 => Some(DestinyActivityModeType::AllMayhem),
            31 => Some(DestinyActivityModeType::Supremacy),
            32 => Some(DestinyActivityModeType::PrivateMatchesAll),
            37 => Some(DestinyActivityModeType::Survival),
            38 => Some(DestinyActivityModeType::Countdown),
            39 => Some(DestinyActivityModeType::TrialsOfTheNine),
            40 => Some(DestinyActivityModeType::Social),
            41 => Some(DestinyActivityModeType::TrialsCountdown),
            42 => Some(DestinyActivityModeType::TrialsSurvival),
            43 => Some(DestinyActivityModeType::IronBannerControl),
            44 => Some(DestinyActivityModeType::IronBannerClash),
            45 => Some(DestinyActivityModeType::IronBannerSupremacy),
            46 => Some(DestinyActivityModeType::ScoredNightfall),
            47 => Some(DestinyActivityModeType::ScoredHeroicNightfall),
            48 => Some(DestinyActivityModeType::Rumble),
            49 => Some(DestinyActivityModeType::AllDoubles),
            50 => Some(DestinyActivityModeType::Doubles),
            51 => Some(DestinyActivityModeType::PrivateMatchesClash),
            52 => Some(DestinyActivityModeType::PrivateMatchesControl),
            53 => Some(DestinyActivityModeType::PrivateMatchesSupremacy),
            54 => Some(DestinyActivityModeType::PrivateMatchesCountdown),
            55 => Some(DestinyActivityModeType::PrivateMatchesSurvival),
            56 => Some(DestinyActivityModeType::PrivateMatchesMayhem),
            57 => Some(DestinyActivityModeType::PrivateMatchesRumble),
            58 => Some(DestinyActivityModeType::HeroicAdventure),
            59 => Some(DestinyActivityModeType::Showdown),
            60 => Some(DestinyActivityModeType::Lockdown),
            61 => Some(DestinyActivityModeType::Scorched),
            62 => Some(DestinyActivityModeType::ScorchedTeam),
            63 => Some(DestinyActivityModeType::Gambit),
            64 => Some(DestinyActivityModeType::AllPvECompetitive),
            65 => Some(DestinyActivityModeType::Breakthrough),
            66 => Some(DestinyActivityModeType::BlackArmoryRun),
            67 => Some(DestinyActivityModeType::Salvage),
            68 => Some(DestinyActivityModeType::IronBannerSalvage),
            69 => Some(DestinyActivityModeType::PvPCompetitive),
            70 => Some(DestinyActivityModeType::PvPQuickplay),
            71 => Some(DestinyActivityModeType::ClashQuickplay),
            72 => Some(DestinyActivityModeType::ClashCompetitive),
            73 => Some(DestinyActivityModeType::ControlQuickplay),
            74 => Some(DestinyActivityModeType::ControlCompetitive),
            75 => Some(DestinyActivityModeType::GambitPrime),
            76 => Some(DestinyActivityModeType::Reckoning),
            77 => Some(DestinyActivityModeType::Menagerie),
            78 => Some(DestinyActivityModeType::VexOffensive),
            79 => Some(DestinyActivityModeType::NightmareHunt),
            80 => Some(DestinyActivityModeType::Elimination),
            81 => Some(DestinyActivityModeType::Momentum),
            82 => Some(DestinyActivityModeType::Dungeon),
            83 => Some(DestinyActivityModeType::Sundial),
            84 => Some(DestinyActivityModeType::TrialsOfOsiris),
            85 => Some(DestinyActivityModeType::Dares),
            86 => Some(DestinyActivityModeType::Offensive),
            87 => Some(DestinyActivityModeType::LostSector),
            88 => Some(DestinyActivityModeType::Rift),
            89 => Some(DestinyActivityModeType::ZoneControl),
            90 => Some(DestinyActivityModeType::IronBannerRift),
            91 => Some(DestinyActivityModeType::IronBannerZoneControl),
            92 => Some(DestinyActivityModeType::Relic),
            _ => None,
        }
    }

    /// Re-encodes to the declared integer.
    pub fn code(&self) -> (r: i32)
        ensures
            r as int == self.spec_code(),
    {
        match self {
            DestinyActivityModeType::NoneValue => 0,
            DestinyActivityModeType::Story => 2,
            DestinyActivityModeType::Strike => 3,
            DestinyActivityModeType::Raid => 4,
            DestinyActivityModeType::AllPvP => 5,
            DestinyActivityModeType::Patrol => 6,
            DestinyActivityModeType::AllPvE => 7,
            DestinyActivityModeType::Control => 10,
            DestinyActivityModeType::Clash => 12,
            DestinyActivityModeType::CrimsonDoubles => 15,
            DestinyActivityModeType::Nightfall => 16,
            DestinyActivityModeType::HeroicNightfall => 17,
            DestinyActivityModeType::AllStrikes => 18,
            DestinyActivityModeType::IronBanner => 19,
            DestinyActivityModeType::AllMayhem => 25,
            DestinyActivityModeType::Supremacy => 31,
            DestinyActivityModeType::PrivateMatchesAll => 32,
            DestinyActivityModeType::Survival => 37,
            DestinyActivityModeType::Countdown => 38,
            DestinyActivityModeType::TrialsOfTheNine => 39,
            DestinyActivityModeType::Social => 40,
            DestinyActivityModeType::TrialsCountdown => 41,
            DestinyActivityModeType::TrialsSurvival => 42,
            DestinyActivityModeType::IronBannerControl => 43,
            DestinyActivityModeType::IronBannerClash => 44,
            DestinyActivityModeType::IronBannerSupremacy => 45,
            DestinyActivityModeType::ScoredNightfall => 46,
            DestinyActivityModeType::ScoredHeroicNightfall => 47,
            DestinyActivityModeType::Rumble => 48,
            DestinyActivityModeType::AllDoubles => 49,
            DestinyActivityModeType::Doubles => 50,
            DestinyActivityModeType::PrivateMatchesClash => 51,
            DestinyActivityModeType::PrivateMatchesControl => 52,
            DestinyActivityModeType::PrivateMatchesSupremacy => 53,
            DestinyActivityModeType::PrivateMatchesCountdown => 54,
            DestinyActivityModeType::PrivateMatchesSurvival => 55,
            DestinyActivityModeType::PrivateMatchesMayhem => 56,
            DestinyActivityModeType::PrivateMatchesRumble => 57,
            DestinyActivityModeType::HeroicAdventure => 58,
            DestinyActivityModeType::Showdown => 59,
            DestinyActivityModeType::Lockdown => 60,
            DestinyActivityModeType::Scorched => 61,
            DestinyActivityModeType::ScorchedTeam => 62,
            DestinyActivityModeType::Gambit => 63,
            DestinyActivityModeType::AllPvECompetitive => 64,
            DestinyActivityModeType::Breakthrough => 65,
            DestinyActivityModeType::BlackArmoryRun => 66,
            DestinyActivityModeType::Salvage => 67,
            DestinyActivityModeType::IronBannerSalvage => 68,
            DestinyActivityModeType::PvPCompetitive => 69,
            DestinyActivityModeType::PvPQuickplay => 70,
            DestinyActivityModeType::ClashQuickplay => 71,
            DestinyActivityModeType::ClashCompetitive => 72,
            DestinyActivityModeType::ControlQuickplay => 73,
            DestinyActivityModeType::ControlCompetitive => 74,
            DestinyActivityModeType::GambitPrime => 75,
            DestinyActivityModeType::Reckoning => 76,
            DestinyActivityModeType::Menagerie => 77,
            DestinyActivityModeType::VexOffensive => 78,
            DestinyActivityModeType::NightmareHunt => 79,
            DestinyActivityModeType::Elimination => 80,
            DestinyActivityModeType::Momentum => 81,
            DestinyActivityModeType::Dungeon => 82,
            DestinyActivityModeType::Sundial => 83,
            DestinyActivityModeType::TrialsOfOsiris => 84,
            DestinyActivityModeType::Dares => 85,
            DestinyActivityModeType::Offensive => 86,
            DestinyActivityModeType::LostSector => 87,
            DestinyActivityModeType::Rift => 88,
            DestinyActivityModeType::ZoneControl => 89,
            DestinyActivityModeType::IronBannerRift => 90,
            DestinyActivityModeType::IronBannerZoneControl => 91,
            DestinyActivityModeType::Relic => 92,
        }
    }

    /// Every declared value round-trips through its code, and a
    /// declared code decodes to the value that re-encodes to it.
    pub proof fn lemma_code_round_trip(v: DestinyActivityModeType, code: int)
        ensures
            DestinyActivityModeType::spec_from_code(v.spec_code()) == Some(v),
            DestinyActivityModeType::spec_from_code(code) matches Some(w) ==> w.spec_code() == code,
    {
    }
}


/// The position of the first entry of an association list whose key has
/// the given characters, if any: how the schema's map-valued fields are
/// searched.
pub fn assoc_index<T>(map: &Vec<(String, T)>, key: &str) -> (r: Option<usize>)
    ensures
        match r {
            Some(i) => i < map@.len() && map@[i as int].0@ == key@
                && (forall|j: int| 0 <= j < i ==> (#[trigger] map@[j]).0@ != key@),
            None => forall|j: int| 0 <= j < map@.len() ==> (#[trigger] map@[j]).0@ != key@,
        },
{
    let mut i: usize = 0;
    while i < map.len()
        invariant
            i <= map.len(),
            forall|j: int| 0 <= j < i ==> (#[trigger] map@[j]).0@ != key@,
        decreases map.len() - i,
    {
        if crate::json::str_eq(map[i].0.as_str(), key) {
            return Some(i);
        }
        i = i + 1;
    }
    None
}

impl ComponentPrivacySetting {
    /// The diagnostic for an undeclared wire code: it names the
    /// offending value and this enumeration.
    pub open spec fn spec_unknown_code_message(code: int) -> Seq<char> {
        "unknown ComponentPrivacySetting: "@ + int_dec_string(code)
    }

    /// Decodes a wire code; an integer outside the declared set fails
    /// with a decode error carrying the exact diagnostic above.
    pub fn decode_code(code: u8) -> (r: Result<ComponentPrivacySetting, DecodeError>)
        ensures
            r matches Ok(v) ==> ComponentPrivacySetting::spec_from_code(code as int) == Some(v),
            r is Ok <==> ComponentPrivacySetting::spec_from_code(code as int) is Some,
            r matches Err(e) ==> e.path@.len() == 0
                && e.message@ == ComponentPrivacySetting::spec_unknown_code_message(code as int),
    {
        match ComponentPrivacySetting::from_code(code) {
            Some(v) => Ok(v),
            Option::None => {
                let mut message = "unknown ComponentPrivacySetting: ".to_owned();
                message.append(i64_to_string(code as i64).as_str());
                Err(DecodeError { path: String::new(), message })
            },
        }
    }
}

impl DestinyProgressionScope {
    /// The diagnostic for an undeclared wire code: it names the
    /// offending value and this enumeration.
    pub open spec fn spec_unknown_code_message(code: int) -> Seq<char> {
        "Unknown DestinyProgressionScope variant: "@ + int_dec_string(code)
    }

    /// Decodes a wire code; an integer outside the declared set fails
    /// with a decode error carrying the exact diagnostic above.
    pub fn decode_code(code: u8) -> (r: Result<DestinyProgressionScope, DecodeError>)
        ensures
            r matches Ok(v) ==> DestinyProgressionScope::spec_from_code(code as int) == Some(v),
            r is Ok <==> DestinyProgressionScope::spec_from_code(code as int) is Some,
            r matches Err(e) ==> e.path@.len() == 0
                && e.message@ == DestinyProgressionScope::spec_unknown_code_message(code as int),
    {
        match DestinyProgressionScope::from_code(code) {
            Some(v) => Ok(v),
            Option::None => {
                let mut message = "Unknown DestinyProgressionScope variant: ".to_owned();
                message.append(i64_to_string(code as i64).as_str());
                Err(DecodeError { path: String::new(), message })
            },
        }
    }
}

impl DestinyProgressionStepDisplayEffect {
    /// The diagnostic for an undeclared wire code: it names the
    /// offending value and this enumeration.
    pub open spec fn spec_unknown_code_message(code: int) -> Seq<char> {
        "Unknown DestinyProgressionStepDisplayEffect variant: "@ + int_dec_string(code)
    }

    /// Decodes a wire code; an integer outside the declared set fails
    /// with a decode error carrying the exact diagnostic above.
    pub fn decode_code(code: u8) -> (r: Result<DestinyProgressionStepDisplayEffect, DecodeError>)
        ensures
            r matches Ok(v) ==> DestinyProgressionStepDisplayEffect::spec_from_code(code as int) == Some(v),
            r is Ok <==> DestinyProgressionStepDisplayEffect::spec_from_code(code as int) is Some,
            r matches Err(e) ==> e.path@.len() == 0
                && e.message@ == DestinyProgressionStepDisplayEffect::spec_unknown_code_message(code as int),
    {
        match DestinyProgressionStepDisplayEffect::from_code(code) {
            Some(v) => Ok(v),
            Option::None => {
                let mut message = "Unknown DestinyProgressionStepDisplayEffect variant: ".to_owned();
                message.append(i64_to_string(code as i64).as_str());
                Err(DecodeError { path: String::new(), message })
            },
        }
    }
}

impl SocketTypeActionType {
    /// The diagnostic for an undeclared wire code: it names the
    /// offending value and this enumeration.
    pub open spec fn spec_unknown_code_message(code: int) -> Seq<char> {
        "Unknown SocketTypeActionType variant: "@ + int_dec_string(code)
    }

    /// Decodes a wire code; an integer outside the declared set fails
    /// with a decode error carrying the exact diagnostic above.
    pub fn decode_code(code: u8) -> (r: Result<SocketTypeActionType, DecodeError>)
        ensures
            r matches Ok(v) ==> SocketTypeActionType::spec_from_code(code as int) == Some(v),
            r is Ok <==> SocketTypeActionType::spec_from_code(code as int) is Some,
            r matches Err(e) ==> e.path@.len() == 0
                && e.message@ == SocketTypeActionType::spec_unknown_code_message(code as int),
    {
        match SocketTypeActionType::from_code(code) {
            Some(v) => Ok(v),
            Option::None => {
                let mut message = "Unknown SocketTypeActionType variant: ".to_owned();
                message.append(i64_to_string(code as i64).as_str());
                Err(DecodeError { path: String::new(), message })
            },
        }
    }
}

impl DestinySocketVisibility {
    /// The diagnostic for an undeclared wire code: it names the
    /// offending value and this enumeration.
    pub open spec fn spec_unknown_code_message(code: int) -> Seq<char> {
        "Unknown DestinySocketVisibility variant: "@ + int_dec_string(code)
    }

    /// Decodes a wire code; an integer outside the declared set fails
    /// with a decode error carrying the exact diagnostic above.
    pub fn decode_code(code: u8) -> (r: Result<DestinySocketVisibility, DecodeError>)
        ensures
            r matches Ok(v) ==> DestinySocketVisibility::spec_from_code(code as int) == Some(v),
            r is Ok <==> DestinySocketVisibility::spec_from_code(code as int) is Some,
            r matches Err(e) ==> e.path@.len() == 0
                && e.message@ == DestinySocketVisibility::spec_unknown_code_message(code as int),
    {
        match DestinySocketVisibility::from_code(code) {
            Some(v) => Ok(v),
            Option::None => {
                let mut message = "Unknown DestinySocketVisibility variant: ".to_owned();
                message.append(i64_to_string(code as i64).as_str());
                Err(DecodeError { path: String::new(), message })
            },
        }
    }
}

impl DestinySocketCategoryStyle {
    /// The diagnostic for an undeclared wire code: it names the
    /// offending value and this enumeration.
    pub open spec fn spec_unknown_code_message(code: int) -> Seq<char> {
        "Unknown DestinySocketCategoryStyle variant: "@ + int_dec_string(code)
    }

    /// Decodes a wire code; an integer outside the declared set fails
    /// with a decode error carrying the exact diagnostic above.
    pub fn decode_code(code: u8) -> (r: Result<DestinySocketCategoryStyle, DecodeError>)
        ensures
            r matches Ok(v) ==> DestinySocketCategoryStyle::spec_from_code(code as int) == Some(v),
            r is Ok <==> DestinySocketCategoryStyle::spec_from_code(code as int) is Some,
            r matches Err(e) ==> e.path@.len() == 0
                && e.message@ == DestinySocketCategoryStyle::spec_unknown_code_message(code as int),
    {
        match DestinySocketCategoryStyle::from_code(code) {
            Some(v) => Ok(v),
            Option::None => {
                let mut message = "Unknown DestinySocketCategoryStyle variant: ".to_owned();
                message.append(i64_to_string(code as i64).as_str());
                Err(DecodeError { path: String::new(), message })
            },
        }
    }
}

impl TierType {
    /// The diagnostic for an undeclared wire code: it names the
    /// offending value and this enumeration.
    pub open spec fn spec_unknown_code_message(code: int) -> Seq<char> {
        "Unknown TierType variant: "@ + int_dec_string(code)
    }

    /// Decodes a wire code; an integer outside the declared set fails
    /// with a decode error carrying the exact diagnostic above.
    pub fn decode_code(code: u8) -> (r: Result<TierType, DecodeError>)
        ensures
            r matches Ok(v) ==> TierType::spec_from_code(code as int) == Some(v),
            r is Ok <==> TierType::spec_from_code(code as int) is Some,
            r matches Err(e) ==> e.path@.len() == 0
                && e.message@ == TierType::spec_unknown_code_message(code as int),
    {
        match TierType::from_code(code) {
            Some(v) => Ok(v),
            Option::None => {
                let mut message = "Unknown TierType variant: ".to_owned();
                message.append(i64_to_string(code as i64).as_str());
                Err(DecodeError { path: String::new(), message })
            },
        }
    }
}

impl BucketScope {
    /// The diagnostic for an undeclared wire code: it names the
    /// offending value and this enumeration.
    pub open spec fn spec_unknown_code_message(code: int) -> Seq<char> {
        "Unknown BucketScope variant: "@ + int_dec_string(code)
    }

    /// Decodes a wire code; an integer outside the declared set fails
    /// with a decode error carrying the exact diagnostic above.
    pub fn decode_code(code: u8) -> (r: Result<BucketScope, DecodeError>)
        ensures
            r matches Ok(v) ==> BucketScope::spec_from_code(code as int) == Some(v),
            r is Ok <==> BucketScope::spec_from_code(code as int) is Some,
            r matches Err(e) ==> e.path@.len() == 0
                && e.message@ == BucketScope::spec_unknown_code_message(code as int),
    {
        match BucketScope::from_code(code) {
            Some(v) => Ok(v),
            Option::None => {
                let mut message = "Unknown BucketScope variant: ".to_owned();
                message.append(i64_to_string(code as i64).as_str());
                Err(DecodeError { path: String::new(), message })
            },
        }
    }
}

impl BucketCategory {
    /// The diagnostic for an undeclared wire code: it names the
    /// offending value and this enumeration.
    pub open spec fn spec_unknown_code_message(code: int) -> Seq<char> {
        "Unknown BucketCategory variant: "@ + int_dec_string(code)
    }

    /// Decodes a wire code; an integer outside the declared set fails
    /// with a decode error carrying the exact diagnostic above.
    pub fn decode_code(code: u8) -> (r: Result<BucketCategory, DecodeError>)
        ensures
            r matches Ok(v) ==> BucketCategory::spec_from_code(code as int) == Some(v),
            r is Ok <==> BucketCategory::spec_from_code(code as int) is Some,
            r matches Err(e) ==> e.path@.len() == 0
                && e.message@ == BucketCategory::spec_unknown_code_message(code as int),
    {
        match BucketCategory::from_code(code) {
            Some(v) => Ok(v),
            Option::None => {
                let mut message = "Unknown BucketCategory variant: ".to_owned();
                message.append(i64_to_string(code as i64).as_str());
                Err(DecodeError { path: String::new(), message })
            },
        }
    }
}

impl ItemLocation {
    /// The diagnostic for an undeclared wire code: it names the
    /// offending value and this enumeration.
    pub open spec fn spec_unknown_code_message(code: int) -> Seq<char> {
        "Unknown ItemLocation variant: "@ + int_dec_string(code)
    }

    /// Decodes a wire code; an integer outside the declared set fails
    /// with a decode error carrying the exact diagnostic above.
    pub fn decode_code(code: u8) -> (r: Result<ItemLocation, DecodeError>)
        ensures
            r matches Ok(v) ==> ItemLocation::spec_from_code(code as int) == Some(v),
            r is Ok <==> ItemLocation::spec_from_code(code as int) is Some,
            r matches Err(e) ==> e.path@.len() == 0
                && e.message@ == ItemLocation::spec_unknown_code_message(code as int),
    {
        match ItemLocation::from_code(code) {
            Some(v) => Ok(v),
            Option::None => {
                let mut message = "Unknown ItemLocation variant: ".to_owned();
                message.append(i64_to_string(code as i64).as_str());
                Err(DecodeError { path: String::new(), message })
            },
        }
    }
}

impl DestinyStatAggregationType {
    /// The diagnostic for an undeclared wire code: it names the
    /// offending value and this enumeration.
    pub open spec fn spec_unknown_code_message(code: int) -> Seq<char> {
        "Unknown DestinyStatAggregationType variant: "@ + int_dec_string(code)
    }

    /// Decodes a wire code; an integer outside the declared set fails
    /// with a decode error carrying the exact diagnostic above.
    pub fn decode_code(code: u8) -> (r: Result<DestinyStatAggregationType, DecodeError>)
        ensures
            r matches Ok(v) ==> DestinyStatAggregationType::spec_from_code(code as int) == Some(v),
            r is Ok <==> DestinyStatAggregationType::spec_from_code(code as int) is Some,
            r matches Err(e) ==> e.path@.len() == 0
                && e.message@ == DestinyStatAggregationType::spec_unknown_code_message(code as int),
    {
        match DestinyStatAggregationType::from_code(code) {
            Some(v) => Ok(v),
            Option::None => {
                let mut message = "Unknown DestinyStatAggregationType variant: ".to_owned();
                message.append(i64_to_string(code as i64).as_str());
                Err(DecodeError { path: String::new(), message })
            },
        }
    }
}

impl DestinyStatCategory {
    /// The diagnostic for an undeclared wire code: it names the
    /// offending value and this enumeration.
    pub open spec fn spec_unknown_code_message(code: int) -> Seq<char> {
        "Unknown DestinyStatCategory variant: "@ + int_dec_string(code)
    }

    /// Decodes a wire code; an integer outside the declared set fails
    /// with a decode error carrying the exact diagnostic above.
    pub fn decode_code(code: u8) -> (r: Result<DestinyStatCategory, DecodeError>)
        ensures
            r matches Ok(v) ==> DestinyStatCategory::spec_from_code(code as int) == Some(v),
            r is Ok <==> DestinyStatCategory::spec_from_code(code as int) is Some,
            r matches Err(e) ==> e.path@.len() == 0
                && e.message@ == DestinyStatCategory::spec_unknown_code_message(code as int),
    {
        match DestinyStatCategory::from_code(code) {
            Some(v) => Ok(v),
            Option::None => {
                let mut message = "Unknown DestinyStatCategory variant: ".to_owned();
                message.append(i64_to_string(code as i64).as_str());
                Err(DecodeError { path: String::new(), message })
            },
        }
    }
}

impl DestinyAmmunitionType {
    /// The diagnostic for an undeclared wire code: it names the
    /// offending value and this enumeration.
    pub open spec fn spec_unknown_code_message(code: int) -> Seq<char> {
        "Unknown DestinyAmmunitionType variant: "@ + int_dec_string(code)
    }

    /// Decodes a wire code; an integer outside the declared set fails
    /// with a decode error carrying the exact diagnostic above.
    pub fn decode_code(code: u8) -> (r: Result<DestinyAmmunitionType, DecodeError>)
        ensures
            r matches Ok(v) ==> DestinyAmmunitionType::spec_from_code(code as int) == Some(v),
            r is Ok <==> DestinyAmmunitionType::spec_from_code(code as int) is Some,
            r matches Err(e) ==> e.path@.len() == 0
                && e.message@ == DestinyAmmunitionType::spec_unknown_code_message(code as int),
    {
        match DestinyAmmunitionType::from_code(code) {
            Some(v) => Ok(v),
            Option::None => {
                let mut message = "Unknown DestinyAmmunitionType variant: ".to_owned();
                message.append(i64_to_string(code as i64).as_str());
                Err(DecodeError { path: String::new(), message })
            },
        }
    }
}

impl DestinyClass {
    /// The diagnostic for an undeclared wire code: it names the
    /// offending value and this enumeration.
    pub open spec fn spec_unknown_code_message(code: int) -> Seq<char> {
        "Unknown DestinyClass variant: "@ + int_dec_string(code)
    }

    /// Decodes a wire code; an integer outside the declared set fails
    /// with a decode error carrying the exact diagnostic above.
    pub fn decode_code(code: u8) -> (r: Result<DestinyClass, DecodeError>)
        ensures
            r matches Ok(v) ==> DestinyClass::spec_from_code(code as int) == Some(v),
            r is Ok <==> DestinyClass::spec_from_code(code as int) is Some,
            r matches Err(e) ==> e.path@.len() == 0
                && e.message@ == DestinyClass::spec_unknown_code_message(code as int),
    {
        match DestinyClass::from_code(code) {
            Some(v) => Ok(v),
            Option::None => {
                let mut message = "Unknown DestinyClass variant: ".to_owned();
                message.append(i64_to_string(code as i64).as_str());
                Err(DecodeError { path: String::new(), message })
            },
        }
    }
}

impl DestinyGender {
    /// The diagnostic for an undeclared wire code: it names the
    /// offending value and this enumeration.
    pub open spec fn spec_unknown_code_message(code: int) -> Seq<char> {
        "Unknown DestinyGender variant: "@ + int_dec_string(code)
    }

    /// Decodes a wire code; an integer outside the declared set fails
    /// with a decode error carrying the exact diagnostic above.
    pub fn decode_code(code: u8) -> (r: Result<DestinyGender, DecodeError>)
        ensures
            r matches Ok(v) ==> DestinyGender::spec_from_code(code as int) == Some(v),
            r is Ok <==> DestinyGender::spec_from_code(code as int) is Some,
            r matches Err(e) ==> e.path@.len() == 0
                && e.message@ == DestinyGender::spec_unknown_code_message(code as int),
    {
        match DestinyGender::from_code(code) {
            Some(v) => Ok(v),
            Option::None => {
                let mut message = "Unknown DestinyGender variant: ".to_owned();
                message.append(i64_to_string(code as i64).as_str());
                Err(DecodeError { path: String::new(), message })
            },
        }
    }
}

impl DestinyVendorItemRefundPolicy {
    /// The diagnostic for an undeclared wire code: it names the
    /// offending value and this enumeration.
    pub open spec fn spec_unknown_code_message(code: int) -> Seq<char> {
        "Unknown DestinyVendorItemRefundPolicy variant: "@ + int_dec_string(code)
    }

    /// Decodes a wire code; an integer outside the declared set fails
    /// with a decode error carrying the exact diagnostic above.
    pub fn decode_code(code: u8) -> (r: Result<DestinyVendorItemRefundPolicy, DecodeError>)
        ensures
            r matches Ok(v) ==> DestinyVendorItemRefundPolicy::spec_from_code(code as int) == Some(v),
            r is Ok <==> DestinyVendorItemRefundPolicy::spec_from_code(code as int) is Some,
            r matches Err(e) ==> e.path@.len() == 0
                && e.message@ == DestinyVendorItemRefundPolicy::spec_unknown_code_message(code as int),
    {
        match DestinyVendorItemRefundPolicy::from_code(code) {
            Some(v) => Ok(v),
            Option::None => {
                let mut message = "Unknown DestinyVendorItemRefundPolicy variant: ".to_owned();
                message.append(i64_to_string(code as i64).as_str());
                Err(DecodeError { path: String::new(), message })
            },
        }
    }
}

impl DamageType {
    /// The diagnostic for an undeclared wire code: it names the
    /// offending value and this enumeration.
    pub open spec fn spec_unknown_code_message(code: int) -> Seq<char> {
        "Unknown DamageType variant: "@ + int_dec_string(code)
    }

    /// Decodes a wire code; an integer outside the declared set fails
    /// with a decode error carrying the exact diagnostic above.
    pub fn decode_code(code: u8) -> (r: Result<DamageType, DecodeError>)
        ensures
            r matches Ok(v) ==> DamageType::spec_from_code(code as int) == Some(v),
            r is Ok <==> DamageType::spec_from_code(code as int) is Some,
            r matches Err(e) ==> e.path@.len() == 0
                && e.message@ == DamageType::spec_unknown_code_message(code as int),
    {
        match DamageType::from_code(code) {
            Some(v) => Ok(v),
            Option::None => {
                let mut message = "Unknown DamageType variant: ".to_owned();
                message.append(i64_to_string(code as i64).as_str());
                Err(DecodeError { path: String::new(), message })
            },
        }
    }
}

impl DestinyItemSubType {
    /// The diagnostic for an undeclared wire code: it names the
    /// offending value and this enumeration.
    pub open spec fn spec_unknown_code_message(code: int) -> Seq<char> {
        "Could not deserialize u8 '"@ + int_dec_string(code) + "' to DestinyItemSubType"@
    }

    /// Decodes a wire code; an integer outside the declared set fails
    /// with a decode error carrying the exact diagnostic above.
    pub fn decode_code(code: u8) -> (r: Result<DestinyItemSubType, DecodeError>)
        ensures
            r matches Ok(v) ==> DestinyItemSubType::spec_from_code(code as int) == Some(v),
            r is Ok <==> DestinyItemSubType::spec_from_code(code as int) is Some,
            r matches Err(e) ==> e.path@.len() == 0
                && e.message@ == DestinyItemSubType::spec_unknown_code_message(code as int),
    {
        match DestinyItemSubType::from_code(code) {
            Some(v) => Ok(v),
            Option::None => {
                let mut message = "Could not deserialize u8 '".to_owned();
                message.append(i64_to_string(code as i64).as_str());
                message.append("' to DestinyItemSubType");
                Err(DecodeError { path: String::new(), message })
            },
        }
    }
}

impl PlugAvailabilityMode {
    /// The diagnostic for an undeclared wire code: it names the
    /// offending value and this enumeration.
    pub open spec fn spec_unknown_code_message(code: int) -> Seq<char> {
        "Unknown PlugAvailabilityMode: "@ + int_dec_string(code)
    }

    /// Decodes a wire code; an integer outside the declared set fails
    /// with a decode error carrying the exact diagnostic above.
    pub fn decode_code(code: u8) -> (r: Result<PlugAvailabilityMode, DecodeError>)
        ensures
            r matches Ok(v) ==> PlugAvailabilityMode::spec_from_code(code as int) == Some(v),
            r is Ok <==> PlugAvailabilityMode::spec_from_code(code as int) is Some,
            r matches Err(e) ==> e.path@.len() == 0
                && e.message@ == PlugAvailabilityMode::spec_unknown_code_message(code as int),
    {
        match PlugAvailabilityMode::from_code(code) {
            Some(v) => Ok(v),
            Option::None => {
                let mut message = "Unknown PlugAvailabilityMode: ".to_owned();
                message.append(i64_to_string(code as i64).as_str());
                Err(DecodeError { path: String::new(), message })
            },
        }
    }
}

impl DestinyEnergyType {
    /// The diagnostic for an undeclared wire code: it names the
    /// offending value and this enumeration.
    pub open spec fn spec_unknown_code_message(code: int) -> Seq<char> {
        "Unknown DestinyEnergyType: "@ + int_dec_string(code)
    }

    /// Decodes a wire code; an integer outside the declared set fails
    /// with a decode error carrying the exact diagnostic above.
    pub fn decode_code(code: u8) -> (r: Result<DestinyEnergyType, DecodeError>)
        ensures
            r matches Ok(v) ==> DestinyEnergyType::spec_from_code(code as int) == Some(v),
            r is Ok <==> DestinyEnergyType::spec_from_code(code as int) is Some,
            r matches Err(e) ==> e.path@.len() == 0
                && e.message@ == DestinyEnergyType::spec_unknown_code_message(code as int),
    {
        match DestinyEnergyType::from_code(code) {
            Some(v) => Ok(v),
            Option::None => {
                let mut message = "Unknown DestinyEnergyType: ".to_owned();
                message.append(i64_to_string(code as i64).as_str());
                Err(DecodeError { path: String::new(), message })
            },
        }
    }
}

impl ItemPerkVisibility {
    /// The diagnostic for an undeclared wire code: it names the
    /// offending value and this enumeration.
    pub open spec fn spec_unknown_code_message(code: int) -> Seq<char> {
        "Unknown ItemPerkVisibility: "@ + int_dec_string(code)
    }

    /// Decodes a wire code; an integer outside the declared set fails
    /// with a decode error carrying the exact diagnostic above.
    pub fn decode_code(code: u8) -> (r: Result<ItemPerkVisibility, DecodeError>)
        ensures
            r matches Ok(v) ==> ItemPerkVisibility::spec_from_code(code as int) == Some(v),
            r is Ok <==> ItemPerkVisibility::spec_from_code(code as int) is Some,
            r matches Err(e) ==> e.path@.len() == 0
                && e.message@ == ItemPerkVisibility::spec_unknown_code_message(code as int),
    {
        match ItemPerkVisibility::from_code(code) {
            Some(v) => Ok(v),
            Option::None => {
                let mut message = "Unknown ItemPerkVisibility: ".to_owned();
                message.append(i64_to_string(code as i64).as_str());
                Err(DecodeError { path: String::new(), message })
            },
        }
    }
}

impl SpecialItemType {
    /// The diagnostic for an undeclared wire code: it names the
    /// offending value and this enumeration.
    pub open spec fn spec_unknown_code_message(code: int) -> Seq<char> {
        "Unknown SpecialItemType: "@ + int_dec_string(code)
    }

    /// Decodes a wire code; an integer outside the declared set fails
    /// with a decode error carrying the exact diagnostic above.
    pub fn decode_code(code: u8) -> (r: Result<SpecialItemType, DecodeError>)
        ensures
            r matches Ok(v) ==> SpecialItemType::spec_from_code(code as int) == Some(v),
            r is Ok <==> SpecialItemType::spec_from_code(code as int) is Some,
            r matches Err(e) ==> e.path@.len() == 0
                && e.message@ == SpecialItemType::spec_unknown_code_message(code as int),
    {
        match SpecialItemType::from_code(code) {
            Some(v) => Ok(v),
            Option::None => {
                let mut message = "Unknown SpecialItemType: ".to_owned();
                message.append(i64_to_string(code as i64).as_str());
                Err(DecodeError { path: String::new(), message })
            },
        }
    }
}

impl DestinyItemType {
    /// The diagnostic for an undeclared wire code: it names the
    /// offending value and this enumeration.
    pub open spec fn spec_unknown_code_message(code: int) -> Seq<char> {
        "Unknown DestinyItemType: "@ + int_dec_string(code)
    }

    /// Decodes a wire code; an integer outside the declared set fails
    /// with a decode error carrying the exact diagnostic above.
    pub fn decode_code(code: u8) -> (r: Result<DestinyItemType, DecodeError>)
        ensures
            r matches Ok(v) ==> DestinyItemType::spec_from_code(code as int) == Some(v),
            r is Ok <==> DestinyItemType::spec_from_code(code as int) is Some,
            r matches Err(e) ==> e.path@.len() == 0
                && e.message@ == DestinyItemType::spec_unknown_code_message(code as int),
    {
        match DestinyItemType::from_code(code) {
            Some(v) => Ok(v),
            Option::None => {
                let mut message = "Unknown DestinyItemType: ".to_owned();
                message.append(i64_to_string(code as i64).as_str());
                Err(DecodeError { path: String::new(), message })
            },
        }
    }
}

impl DestinyBreakerType {
    /// The diagnostic for an undeclared wire code: it names the
    /// offending value and this enumeration.
    pub open spec fn spec_unknown_code_message(code: int) -> Seq<char> {
        "Unknown DestinyBreakerType: "@ + int_dec_string(code)
    }

    /// Decodes a wire code; an integer outside the declared set fails
    /// with a decode error carrying the exact diagnostic above.
    pub fn decode_code(code: u8) -> (r: Result<DestinyBreakerType, DecodeError>)
        ensures
            r matches Ok(v) ==> DestinyBreakerType::spec_from_code(code as int) == Some(v),
            r is Ok <==> DestinyBreakerType::spec_from_code(code as int) is Some,
            r matches Err(e) ==> e.path@.len() == 0
                && e.message@ == DestinyBreakerType::spec_unknown_code_message(code as int),
    {
        match DestinyBreakerType::from_code(code) {
            Some(v) => Ok(v),
            Option::None => {
                let mut message = "Unknown DestinyBreakerType: ".to_owned();
                message.append(i64_to_string(code as i64).as_str());
                Err(DecodeError { path: String::new(), message })
            },
        }
    }
}

impl DestinyProgressionRewardItemAcquisitionBehavior {
    /// The diagnostic for an undeclared wire code: it names the
    /// offending value and this enumeration.
    pub open spec fn spec_unknown_code_message(code: int) -> Seq<char> {
        "Unknown DestinyProgressionRewardItemAcquisitionBehavior: "@ + int_dec_string(code)
    }

    /// Decodes a wire code; an integer outside the declared set fails
    /// with a decode error carrying the exact diagnostic above.
    pub fn decode_code(code: u8) -> (r: Result<DestinyProgressionRewardItemAcquisitionBehavior, DecodeError>)
        ensures
            r matches Ok(v) ==> DestinyProgressionRewardItemAcquisitionBehavior::spec_from_code(code as int) == Some(v),
            r is Ok <==> DestinyProgressionRewardItemAcquisitionBehavior::spec_from_code(code as int) is Some,
            r matches Err(e) ==> e.path@.len() == 0
                && e.message@ == DestinyProgressionRewardItemAcquisitionBehavior::spec_unknown_code_message(code as int),
    {
        match DestinyProgressionRewardItemAcquisitionBehavior::from_code(code) {
            Some(v) => Ok(v),
            Option::None => {
                let mut message = "Unknown DestinyProgressionRewardItemAcquisitionBehavior: ".to_owned();
                message.append(i64_to_string(code as i64).as_str());
                Err(DecodeError { path: String::new(), message })
            },
        }
    }
}

impl ItemBindStatus {
    /// The diagnostic for an undeclared wire code: it names the
    /// offending value and this enumeration.
    pub open spec fn spec_unknown_code_message(code: int) -> Seq<char> {
        "Unknown ItemBindStatus: "@ + int_dec_string(code)
    }

    /// Decodes a wire code; an integer outside the declared set fails
    /// with a decode error carrying the exact diagnostic above.
    pub fn decode_code(code: u8) -> (r: Result<ItemBindStatus, DecodeError>)
        ensures
            r matches Ok(v) ==> ItemBindStatus::spec_from_code(code as int) == Some(v),
            r is Ok <==> ItemBindStatus::spec_from_code(code as int) is Some,
            r matches Err(e) ==> e.path@.len() == 0
                && e.message@ == ItemBindStatus::spec_unknown_code_message(code as int),
    {
        match ItemBindStatus::from_code(code) {
            Some(v) => Ok(v),
            Option::None => {
                let mut message = "Unknown ItemBindStatus: ".to_owned();
                message.append(i64_to_string(code as i64).as_str());
                Err(DecodeError { path: String::new(), message })
            },
        }
    }
}

impl DestinyComponentType {
    /// The diagnostic for an undeclared wire code: it names the
    /// offending value and this enumeration.
    pub open spec fn spec_unknown_code_message(code: int) -> Seq<char> {
        "Unknown DestinyComponentType: "@ + int_dec_string(code)
    }

    /// Decodes a wire code; an integer outside the declared set fails
    /// with a decode error carrying the exact diagnostic above.
    pub fn decode_code(code: u16) -> (r: Result<DestinyComponentType, DecodeError>)
        ensures
            r matches Ok(v) ==> DestinyComponentType::spec_from_code(code as int) == Some(v),
            r is Ok <==> DestinyComponentType::spec_from_code(code as int) is Some,
            r matches Err(e) ==> e.path@.len() == 0
                && e.message@ == DestinyComponentType::spec_unknown_code_message(code as int),
    {
        match DestinyComponentType::from_code(code) {
            Some(v) => Ok(v),
            Option::None => {
                let mut message = "Unknown DestinyComponentType: ".to_owned();
                message.append(i64_to_string(code as i64).as_str());
                Err(DecodeError { path: String::new(), message })
            },
        }
    }
}

impl DestinyGamePrivacySetting {
    /// The diagnostic for an undeclared wire code: it names the
    /// offending value and this enumeration.
    pub open spec fn spec_unknown_code_message(code: int) -> Seq<char> {
        "Unknown DestinyGamePrivacySetting: "@ + int_dec_string(code)
    }

    /// Decodes a wire code; an integer outside the declared set fails
    /// with a decode error carrying the exact diagnostic above.
    pub fn decode_code(code: u8) -> (r: Result<DestinyGamePrivacySetting, DecodeError>)
        ensures
            r matches Ok(v) ==> DestinyGamePrivacySetting::spec_from_code(code as int) == Some(v),
            r is Ok <==> DestinyGamePrivacySetting::spec_from_code(code as int) is Some,
            r matches Err(e) ==> e.path@.len() == 0
                && e.message@ == DestinyGamePrivacySetting::spec_unknown_code_message(code as int),
    {
        match DestinyGamePrivacySetting::from_code(code) {
            Some(v) => Ok(v),
            Option::None => {
                let mut message = "Unknown DestinyGamePrivacySetting: ".to_owned();
                message.append(i64_to_string(code as i64).as_str());
                Err(DecodeError { path: String::new(), message })
            },
        }
    }
}

impl DestinyRace {
    /// The diagnostic for an undeclared wire code: it names the
    /// offending value and this enumeration.
    pub open spec fn spec_unknown_code_message(code: int) -> Seq<char> {
        "Unknown DestinyRace: "@ + int_dec_string(code)
    }

    /// Decodes a wire code; an integer outside the declared set fails
    /// with a decode error carrying the exact diagnostic above.
    pub fn decode_code(code: u8) -> (r: Result<DestinyRace, DecodeError>)
        ensures
            r matches Ok(v) ==> DestinyRace::spec_from_code(code as int) == Some(v),
            r is Ok <==> DestinyRace::spec_from_code(code as int) is Some,
            r matches Err(e) ==> e.path@.len() == 0
                && e.message@ == DestinyRace::spec_unknown_code_message(code as int),
    {
        match DestinyRace::from_code(code) {
            Some(v) => Ok(v),
            Option::None => {
                let mut message = "Unknown DestinyRace: ".to_owned();
                message.append(i64_to_string(code as i64).as_str());
                Err(DecodeError { path: String::new(), message })
            },
        }
    }
}

impl DestinyActivityDifficultyTier {
    /// The diagnostic for an undeclared wire code: it names the
    /// offending value and this enumeration.
    pub open spec fn spec_unknown_code_message(code: int) -> Seq<char> {
        "Unknown DestinyActivityDifficultyTier: "@ + int_dec_string(code)
    }

    /// Decodes a wire code; an integer outside the declared set fails
    /// with a decode error carrying the exact diagnostic above.
    pub fn decode_code(code: u8) -> (r: Result<DestinyActivityDifficultyTier, DecodeError>)
        ensures
            r matches Ok(v) ==> DestinyActivityDifficultyTier::spec_from_code(code as int) == Some(v),
            r is Ok <==> DestinyActivityDifficultyTier::spec_from_code(code as int) is Some,
            r matches Err(e) ==> e.path@.len() == 0
                && e.message@ == DestinyActivityDifficultyTier::spec_unknown_code_message(code as int),
    {
        match DestinyActivityDifficultyTier::from_code(code) {
            Some(v) => Ok(v),
            Option::None => {
                let mut message = "Unknown DestinyActivityDifficultyTier: ".to_owned();
                message.append(i64_to_string(code as i64).as_str());
                Err(DecodeError { path: String::new(), message })
            },
        }
    }
}

impl DestinyTalentNodeState {
    /// The diagnostic for an undeclared wire code: it names the
    /// offending value and this enumeration.
    pub open spec fn spec_unknown_code_message(code: int) -> Seq<char> {
        "Unknown DestinyTalentNodeState: "@ + int_dec_string(code)
    }

    /// Decodes a wire code; an integer outside the declared set fails
    /// with a decode error carrying the exact diagnostic above.
    pub fn decode_code(code: u8) -> (r: Result<DestinyTalentNodeState, DecodeError>)
        ensures
            r matches Ok(v) ==> DestinyTalentNodeState::spec_from_code(code as int) == Some(v),
            r is Ok <==> DestinyTalentNodeState::spec_from_code(code as int) is Some,
            r matches Err(e) ==> e.path@.len() == 0
                && e.message@ == DestinyTalentNodeState::spec_unknown_code_message(code as int),
    {
        match DestinyTalentNodeState::from_code(code) {
            Some(v) => Ok(v),
            Option::None => {
                let mut message = "Unknown DestinyTalentNodeState: ".to_owned();
                message.append(i64_to_string(code as i64).as_str());
                Err(DecodeError { path: String::new(), message })
            },
        }
    }
}

impl BungieMembershipType {
    /// The diagnostic for an undeclared wire code: it names the
    /// offending value and this enumeration.
    pub open spec fn spec_unknown_code_message(code: int) -> Seq<char> {
        "unknown BungieMembershipType: "@ + int_dec_string(code)
    }

    /// Decodes a wire code; an integer outside the declared set fails
    /// with a decode error carrying the exact diagnostic above.
    pub fn decode_code(code: i32) -> (r: Result<BungieMembershipType, DecodeError>)
        ensures
            r matches Ok(v) ==> BungieMembershipType::spec_from_code(code as int) == Some(v),
            r is Ok <==> BungieMembershipType::spec_from_code(code as int) is Some,
            r matches Err(e) ==> e.path@.len() == 0
                && e.message@ == BungieMembershipType::spec_unknown_code_message(code as int),
    {
        match BungieMembershipType::from_code(code) {
            Some(v) => Ok(v),
            Option::None => {
                let mut message = "unknown BungieMembershipType: ".to_owned();
                message.append(i64_to_string(code as i64).as_str());
                Err(DecodeError { path: String::new(), message })
            },
        }
    }
}

impl DestinyActivityModeType {
    /// The diagnostic for an undeclared wire code: it names the
    /// offending value and this enumeration.
    pub open spec fn spec_unknown_code_message(code: int) -> Seq<char> {
        "Unknown DestinyActivityModeType: "@ + int_dec_string(code)
    }

    /// Decodes a wire code; an integer outside the declared set fails
    /// with a decode error carrying the exact diagnostic above.
    pub fn decode_code(code: i32) -> (r: Result<DestinyActivityModeType, DecodeError>)
        ensures
            r matches Ok(v) ==> DestinyActivityModeType::spec_from_code(code as int) == Some(v),
            r is Ok <==> DestinyActivityModeType::spec_from_code(code as int) is Some,
            r matches Err(e) ==> e.path@.len() == 0
                && e.message@ == DestinyActivityModeType::spec_unknown_code_message(code as int),
    {
        match DestinyActivityModeType::from_code(code) {
            Some(v) => Ok(v),
            Option::None => {
                let mut message = "Unknown DestinyActivityModeType: ".to_owned();
                message.append(i64_to_string(code as i64).as_str());
                Err(DecodeError { path: String::new(), message })
            },
        }
    }
}

} // verus!
