//! The dataset types within each category: the currency-like kinds and the
//! item-like kinds. Together with a league they identify one cache slot and
//! one remote query.
use vstd::prelude::*;

use crate::catalog::str_eq;
use crate::catalog::NextEnum;

verus! {

/// The currency-like dataset types. The default is `Currency`.
#[derive(PartialEq, Eq, Structural, Clone, Copy, Debug)]
pub enum CurrencyType {
    Currency,
    Fragment,
}

/// The name of a currency-like dataset type.
pub open spec fn currency_type_name(t: CurrencyType) -> Seq<char> {
    match t {
        CurrencyType::Currency => "Currency"@,
        CurrencyType::Fragment => "Fragment"@,
    }
}

/// The currency-like dataset type a name denotes, if any.
pub open spec fn currency_type_from_name(s: Seq<char>) -> Option<CurrencyType> {
    if s == "Currency"@ {
        Some(CurrencyType::Currency)
    } else if s == "Fragment"@ {
        Some(CurrencyType::Fragment)
    } else {
        None
    }
}

impl CurrencyType {
    /// Validates a currency type name.
    pub fn from(s: &str) -> (r: Option<CurrencyType>)
        ensures
            r == currency_type_from_name(s@),
    {
        if str_eq(s, "Currency") {
            Some(CurrencyType::Currency)
        } else if str_eq(s, "Fragment") {
            Some(CurrencyType::Fragment)
        } else {
            None
        }
    }

    /// The type's name, as it appears in queries and cache paths.
    pub fn to_string(&self) -> (r: String)
        ensures
            r@ == currency_type_name(*self),
    {
        match self {
            CurrencyType::Currency => "Currency".to_owned(),
            CurrencyType::Fragment => "Fragment".to_owned(),
        }
    }

    /// Validates a currency type name, falling back to the default type when
    /// the name is not valid; the flag says whether the name was valid.
    pub fn from_or_default(s: &str) -> (r: (bool, CurrencyType))
        ensures
            r.0 == (currency_type_from_name(s@) is Some),
            r.1 == match currency_type_from_name(s@) {
                Some(t) => t,
                None => CurrencyType::Currency,
            },
    {
        match Self::from(s) {
            Some(t) => (true, t),
            None => (false, CurrencyType::Currency),
        }
    }
}

/// The value following a currency type in the listing order, if any.
pub open spec fn currency_type_next(t: CurrencyType) -> Option<CurrencyType> {
    match t {
        CurrencyType::Currency => Some(CurrencyType::Fragment),
        CurrencyType::Fragment => None,
    }
}

impl NextEnum<CurrencyType> for CurrencyType {
    fn next(&self) -> (r: Option<CurrencyType>)
        ensures
            r == currency_type_next(*self),
    {
        match self {
            CurrencyType::Currency => Some(CurrencyType::Fragment),
            CurrencyType::Fragment => None,
        }
    }
}

/// The identity a currency record line refers to; provider payload the core
/// carries but never interprets.
#[allow(non_snake_case)]
pub struct CurrencyDetail {
    pub id: u32,
    pub icon: Option<String>,
    pub name: String,
    pub tradeId: Option<String>,
}

/// The item-like dataset types. The default is `Tattoo`.
#[derive(PartialEq, Eq, Structural, Clone, Copy, Debug)]
pub enum ItemType {
    Tattoo,
    Omen,
    DivinationCard,
    Artifact,
    Oil,
    Incubator,
    UniqueWeapon,
    UniqueArmour,
    UniqueAccessory,
    UniqueFlask,
    UniqueJewel,
    UniqueRelic,
    SkillGem,
    ClusterJewel,
    AtlasMap,
    BlightedMap,
    BlightRavagedMap,
    ScourgedMap,
    UniqueMap,
    DeliriumOrb,
    Invitation,
    Scarab,
    Memory,
    BaseType,
    Fossil,
    Resonator,
    Beast,
    Essence,
    Vial,
}

/// The name of an item-like dataset type, as sent in queries and used in
/// cache paths. `UniqueJewel` renders as `UnqiueJewel`: the provider-facing
/// name this tool has always sent for that type.
pub open spec fn item_type_name(t: ItemType) -> Seq<char> {
    match t {
        ItemType::Tattoo => "Tattoo"@,
        ItemType::Omen => "Omen"@,
        ItemType::DivinationCard => "DivinationCard"@,
        ItemType::Artifact => "Artifact"@,
        ItemType::Oil => "Oil"@,
        ItemType::Incubator => "Incubator"@,
        ItemType::UniqueWeapon => "UniqueWeapon"@,
        ItemType::UniqueArmour => "UniqueArmour"@,
        ItemType::UniqueAccessory => "UniqueAccessory"@,
        ItemType::UniqueFlask => "UniqueFlask"@,
        ItemType::UniqueJewel => "UnqiueJewel"@,
        ItemType::UniqueRelic => "UniqueRelic"@,
        ItemType::SkillGem => "SkillGem"@,
        ItemType::ClusterJewel => "ClusterJewel"@,
        ItemType::AtlasMap => "Map"@,
        ItemType::BlightedMap => "BlightedMap"@,
        ItemType::BlightRavagedMap => "BlightRavagedMap"@,
        ItemType::ScourgedMap => "ScourgedMap"@,
        ItemType::UniqueMap => "UniqueMap"@,
        ItemType::DeliriumOrb => "DeliriumOrb"@,
        ItemType::Invitation => "Invitation"@,
        ItemType::Scarab => "Scarab"@,
        ItemType::Memory => "Memory"@,
        ItemType::BaseType => "BaseType"@,
        ItemType::Fossil => "Fossil"@,
        ItemType::Resonator => "Resonator"@,
        ItemType::Beast => "Beast"@,
        ItemType::Essence => "Essence"@,
        ItemType::Vial => "Vial"@,
    }
}

/// The item-like dataset type a name denotes, if any.
pub open spec fn item_type_from_name(s: Seq<char>) -> Option<ItemType> {
    if s == "Tattoo"@ {
        Some(ItemType::Tattoo)
    } else if s == "Omen"@ {
        Some(ItemType::Omen)
    } else if s == "DivinationCard"@ {
        Some(ItemType::DivinationCard)
    } else if s == "Artifact"@ {
        Some(ItemType::Artifact)
    } else if s == "Oil"@ {
        Some(ItemType::Oil)
    } else if s == "Incubator"@ {
        Some(ItemType::Incubator)
    } else if s == "UniqueWeapon"@ {
        Some(ItemType::UniqueWeapon)
    } else if s == "UniqueArmour"@ {
        Some(ItemType::UniqueArmour)
    } else if s == "UniqueAccessory"@ {
        Some(ItemType::UniqueAccessory)
    } else if s == "UniqueFlask"@ {
        Some(ItemType::UniqueFlask)
    } else if s == "UniqueJewel"@ {
        Some(ItemType::UniqueJewel)
    } else if s == "UniqueRelic"@ {
        Some(ItemType::UniqueRelic)
    } else if s == "SkillGem"@ {
        Some(ItemType::SkillGem)
    } else if s == "ClusterJewel"@ {
        Some(ItemType::ClusterJewel)
    } else if s == "Map"@ {
        Some(ItemType::AtlasMap)
    } else if s == "BlightedMap"@ {
        Some(ItemType::BlightedMap)
    } else if s == "BlightRavagedMap"@ {
        Some(ItemType::BlightRavagedMap)
    } else if s == "ScourgedMap"@ {
        Some(ItemType::ScourgedMap)
    } else if s == "UniqueMap"@ {
        Some(ItemType::UniqueMap)
    } else if s == "DeliriumOrb"@ {
        Some(ItemType::DeliriumOrb)
    } else if s == "Invitation"@ {
        Some(ItemType::Invitation)
    } else if s == "Scarab"@ {
        Some(ItemType::Scarab)
    } else if s == "Memory"@ {
        Some(ItemType::Memory)
    } else if s == "BaseType"@ {
        Some(ItemType::BaseType)
    } else if s == "Fossil"@ {
        Some(ItemType::Fossil)
    } else if s == "Resonator"@ {
        Some(ItemType::Resonator)
    } else if s == "Beast"@ {
        Some(ItemType::Beast)
    } else if s == "Essence"@ {
        Some(ItemType::Essence)
    } else if s == "Vial"@ {
        Some(ItemType::Vial)
    } else {
        None
    }
}

impl ItemType {
    /// Validates an item type name.
    pub fn from(s: &str) -> (r: Option<ItemType>)
        ensures
            r == item_type_from_name(s@),
    {
        if str_eq(s, "Tattoo") {
            Some(ItemType::Tattoo)
        } else if str_eq(s, "Omen") {
            Some(ItemType::Omen)
        } else if str_eq(s, "DivinationCard") {
            Some(ItemType::DivinationCard)
        } else if str_eq(s, "Artifact") {
            Some(ItemType::Artifact)
        } else if str_eq(s, "Oil") {
            Some(ItemType::Oil)
        } else if str_eq(s, "Incubator") {
            Some(ItemType::Incubator)
        } else if str_eq(s, "UniqueWeapon") {
            Some(ItemType::UniqueWeapon)
        } else if str_eq(s, "UniqueArmour") {
            Some(ItemType::UniqueArmour)
        } else if str_eq(s, "UniqueAccessory") {
            Some(ItemType::UniqueAccessory)
        } else if str_eq(s, "UniqueFlask") {
            Some(ItemType::UniqueFlask)
        } else if str_eq(s, "UniqueJewel") {
            Some(ItemType::UniqueJewel)
        } else if str_eq(s, "UniqueRelic") {
            Some(ItemType::UniqueRelic)
        } else if str_eq(s, "SkillGem") {
            Some(ItemType::SkillGem)
        } else if str_eq(s, "ClusterJewel") {
            Some(ItemType::ClusterJewel)
        } else if str_eq(s, "Map") {
            Some(ItemType::AtlasMap)
        } else if str_eq(s, "BlightedMap") {
            Some(ItemType::BlightedMap)
        } else if str_eq(s, "BlightRavagedMap") {
            Some(ItemType::BlightRavagedMap)
        } else if str_eq(s, "ScourgedMap") {
            Some(ItemType::ScourgedMap)
        } else if str_eq(s, "UniqueMap") {
            Some(ItemType::UniqueMap)
        } else if str_eq(s, "DeliriumOrb") {
            Some(ItemType::DeliriumOrb)
        } else if str_eq(s, "Invitation") {
            Some(ItemType::Invitation)
        } else if str_eq(s, "Scarab") {
            Some(ItemType::Scarab)
        } else if str_eq(s, "Memory") {
            Some(ItemType::Memory)
        } else if str_eq(s, "BaseType") {
            Some(ItemType::BaseType)
        } else if str_eq(s, "Fossil") {
            Some(ItemType::Fossil)
        } else if str_eq(s, "Resonator") {
            Some(ItemType::Resonator)
        } else if str_eq(s, "Beast") {
            Some(ItemType::Beast)
        } else if str_eq(s, "Essence") {
            Some(ItemType::Essence)
        } else if str_eq(s, "Vial") {
            Some(ItemType::Vial)
        } else {
            None
        }
    }

    /// The type's name, as it appears in queries and cache paths.
    pub fn to_string(&self) -> (r: String)
        ensures
            r@ == item_type_name(*self),
    {
        match self {
            ItemType::Tattoo => "Tattoo".to_owned(),
            ItemType::Omen => "Omen".to_owned(),
            ItemType::DivinationCard => "DivinationCard".to_owned(),
            ItemType::Artifact => "Artifact".to_owned(),
            ItemType::Oil => "Oil".to_owned(),
            ItemType::Incubator => "Incubator".to_owned(),
            ItemType::UniqueWeapon => "UniqueWeapon".to_owned(),
            ItemType::UniqueArmour => "UniqueArmour".to_owned(),
            ItemType::UniqueAccessory => "UniqueAccessory".to_owned(),
            ItemType::UniqueFlask => "UniqueFlask".to_owned(),
            ItemType::UniqueJewel => "UnqiueJewel".to_owned(),
            ItemType::UniqueRelic => "UniqueRelic".to_owned(),
            ItemType::SkillGem => "SkillGem".to_owned(),
            ItemType::ClusterJewel => "ClusterJewel".to_owned(),
            ItemType::AtlasMap => "Map".to_owned(),
            ItemType::BlightedMap => "BlightedMap".to_owned(),
            ItemType::BlightRavagedMap => "BlightRavagedMap".to_owned(),
            ItemType::ScourgedMap => "ScourgedMap".to_owned(),
            ItemType::UniqueMap => "UniqueMap".to_owned(),
            ItemType::DeliriumOrb => "DeliriumOrb".to_owned(),
            ItemType::Invitation => "Invitation".to_owned(),
            ItemType::Scarab => "Scarab".to_owned(),
            ItemType::Memory => "Memory".to_owned(),
            ItemType::BaseType => "BaseType".to_owned(),
            ItemType::Fossil => "Fossil".to_owned(),
            ItemType::Resonator => "Resonator".to_owned(),
            ItemType::Beast => "Beast".to_owned(),
            ItemType::Essence => "Essence".to_owned(),
            ItemType::Vial => "Vial".to_owned(),
        }
    }

    /// Validates an item type name, falling back to the default type when the
    /// name is not valid; the flag says whether the name was valid.
    pub fn from_or_default(s: &str) -> (r: (bool, ItemType))
        ensures
            r.0 == (item_type_from_name(s@) is Some),
            r.1 == match item_type_from_name(s@) {
                Some(t) => t,
                None => ItemType::Tattoo,
            },
    {
        match Self::from(s) {
            Some(t) => (true, t),
            None => (false, ItemType::Tattoo),
        }
    }
}

/// The value following an item type in the listing order, if any.
pub open spec fn item_type_next(t: ItemType) -> Option<ItemType> {
    match t {
        ItemType::Tattoo => Some(ItemType::Omen),
        ItemType::Omen => Some(ItemType::DivinationCard),
        ItemType::DivinationCard => Some(ItemType::Artifact),
        ItemType::Artifact => Some(ItemType::Oil),
        ItemType::Oil => Some(ItemType::Incubator),
        ItemType::Incubator => Some(ItemType::UniqueWeapon),
        ItemType::UniqueWeapon => Some(ItemType::UniqueArmour),
        ItemType::UniqueArmour => Some(ItemType::UniqueAccessory),
        ItemType::UniqueAccessory => Some(ItemType::UniqueFlask),
        ItemType::UniqueFlask => Some(ItemType::UniqueJewel),
        ItemType::UniqueJewel => Some(ItemType::UniqueRelic),
        ItemType::UniqueRelic => Some(ItemType::SkillGem),
        ItemType::SkillGem => Some(ItemType::ClusterJewel),
        ItemType::ClusterJewel => Some(ItemType::AtlasMap),
        ItemType::AtlasMap => Some(ItemType::BlightedMap),
        ItemType::BlightedMap => Some(ItemType::BlightRavagedMap),
        ItemType::BlightRavagedMap => Some(ItemType::ScourgedMap),
        ItemType::ScourgedMap => Some(ItemType::UniqueMap),
        ItemType::UniqueMap => Some(ItemType::DeliriumOrb),
        ItemType::DeliriumOrb => Some(ItemType::Invitation),
        ItemType::Invitation => Some(ItemType::Scarab),
        ItemType::Scarab => Some(ItemType::Memory),
        ItemType::Memory => Some(ItemType::BaseType),
        ItemType::BaseType => Some(ItemType::Fossil),
        ItemType::Fossil => Some(ItemType::Resonator),
        ItemType::Resonator => Some(ItemType::Beast),
        ItemType::Beast => Some(ItemType::Essence),
        ItemType::Essence => Some(ItemType::Vial),
        ItemType::Vial => None,
    }
}

impl NextEnum<ItemType> for ItemType {
    fn next(&self) -> (r: Option<ItemType>)
        ensures
            r == item_type_next(*self),
    {
        match self {
            ItemType::Tattoo => Some(ItemType::Omen),
            ItemType::Omen => Some(ItemType::DivinationCard),
            ItemType::DivinationCard => Some(ItemType::Artifact),
            ItemType::Artifact => Some(ItemType::Oil),
            ItemType::Oil => Some(ItemType::Incubator),
            ItemType::Incubator => Some(ItemType::UniqueWeapon),
            ItemType::UniqueWeapon => Some(ItemType::UniqueArmour),
            ItemType::UniqueArmour => Some(ItemType::UniqueAccessory),
            ItemType::UniqueAccessory => Some(ItemType::UniqueFlask),
            ItemType::UniqueFlask => Some(ItemType::UniqueJewel),
            ItemType::UniqueJewel => Some(ItemType::UniqueRelic),
            ItemType::UniqueRelic => Some(ItemType::SkillGem),
            ItemType::SkillGem => Some(ItemType::ClusterJewel),
            ItemType::ClusterJewel => Some(ItemType::AtlasMap),
            ItemType::AtlasMap => Some(ItemType::BlightedMap),
            ItemType::BlightedMap => Some(ItemType::BlightRavagedMap),
            ItemType::BlightRavagedMap => Some(ItemType::ScourgedMap),
            ItemType::ScourgedMap => Some(ItemType::UniqueMap),
            ItemType::UniqueMap => Some(ItemType::DeliriumOrb),
            ItemType::DeliriumOrb => Some(ItemType::Invitation),
            ItemType::Invitation => Some(ItemType::Scarab),
            ItemType::Scarab => Some(ItemType::Memory),
            ItemType::Memory => Some(ItemType::BaseType),
            ItemType::BaseType => Some(ItemType::Fossil),
            ItemType::Fossil => Some(ItemType::Resonator),
            ItemType::Resonator => Some(ItemType::Beast),
            ItemType::Beast => Some(ItemType::Essence),
            ItemType::Essence => Some(ItemType::Vial),
            ItemType::Vial => None,
        }
    }
}

} // verus!
