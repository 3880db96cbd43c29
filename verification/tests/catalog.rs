use exilian::catalog::{Category, League, NextEnum};
use exilian::kinds::{CurrencyType, ItemType};

#[test]
fn category_names_roundtrip() {
    assert_eq!(Category::from("Currency"), Some(Category::Currency));
    assert_eq!(Category::from("Item"), Some(Category::Item));
    assert_eq!(Category::from("item"), None);
    assert_eq!(Category::Currency.to_string(), "Currency");
    assert_eq!(Category::Item.to_string(), "Item");
}

#[test]
fn category_default_is_currency() {
    assert_eq!(Category::from_or_default("Item"), (true, Category::Item));
    assert_eq!(Category::from_or_default("bogus"), (false, Category::Currency));
    assert_eq!(Category::from_or_default(""), (false, Category::Currency));
}

#[test]
fn category_chain_lists_both() {
    assert_eq!(Category::Currency.next(), Some(Category::Item));
    assert_eq!(Category::Item.next(), None);
}

#[test]
fn league_names_roundtrip() {
    let all = [
        ("Standard", League::Standard),
        ("Hardcore", League::Hardcore),
        ("Ruthless", League::Ruthless),
        ("Hardcore+Ruthless", League::HCRuthless),
        ("Necropolis", League::Necropolis),
        ("Hardcore+Necropolis", League::NecropolisHC),
        ("Ruthless+Necropolis", League::NecropolisRuthless),
        ("HC+Ruthless+Necropolis", League::NecropolisHCRuthless),
        ("Affliction", League::Affliction),
        ("Hardcore+Affliction", League::AfflictionHC),
        ("Ruthless+Affliction", League::AfflictionRuthless),
        ("HC+Ruthless+Affliction", League::AfflictionHCRuthless),
    ];
    for (name, league) in all {
        assert_eq!(League::from(name), Some(league));
        assert_eq!(league.to_string(), name);
    }
    assert_eq!(League::from("standard"), None);
}

#[test]
fn league_default_is_necropolis() {
    assert_eq!(League::from_or_default("Standard"), (true, League::Standard));
    assert_eq!(League::from_or_default("nothing"), (false, League::Necropolis));
}

#[test]
fn league_chain_walks_all_twelve() {
    let mut count = 1;
    let mut cur = League::Standard;
    while let Some(next) = cur.next() {
        cur = next;
        count += 1;
    }
    assert_eq!(count, 12);
    assert_eq!(cur, League::AfflictionHCRuthless);
}

#[test]
fn currency_type_names_roundtrip() {
    assert_eq!(CurrencyType::from("Currency"), Some(CurrencyType::Currency));
    assert_eq!(CurrencyType::from("Fragment"), Some(CurrencyType::Fragment));
    assert_eq!(CurrencyType::from("Tattoo"), None);
    assert_eq!(CurrencyType::Fragment.to_string(), "Fragment");
}

#[test]
fn currency_type_default_is_currency() {
    assert_eq!(CurrencyType::from_or_default("Fragment"), (true, CurrencyType::Fragment));
    assert_eq!(CurrencyType::from_or_default("x"), (false, CurrencyType::Currency));
}

#[test]
fn currency_type_chain() {
    assert_eq!(CurrencyType::Currency.next(), Some(CurrencyType::Fragment));
    assert_eq!(CurrencyType::Fragment.next(), None);
}

#[test]
fn item_type_names_roundtrip() {
    assert_eq!(ItemType::from("Tattoo"), Some(ItemType::Tattoo));
    assert_eq!(ItemType::from("Map"), Some(ItemType::AtlasMap));
    assert_eq!(ItemType::AtlasMap.to_string(), "Map");
    assert_eq!(ItemType::from("Vial"), Some(ItemType::Vial));
    assert_eq!(ItemType::from("Currency"), None);
}

#[test]
fn unique_jewel_keeps_its_historic_query_name() {
    // The provider-facing name differs from the accepted input name.
    assert_eq!(ItemType::from("UniqueJewel"), Some(ItemType::UniqueJewel));
    assert_eq!(ItemType::UniqueJewel.to_string(), "UnqiueJewel");
    assert_eq!(ItemType::from("UnqiueJewel"), None);
}

#[test]
fn item_type_default_is_tattoo() {
    assert_eq!(ItemType::from_or_default("Omen"), (true, ItemType::Omen));
    assert_eq!(ItemType::from_or_default("???"), (false, ItemType::Tattoo));
}

#[test]
fn item_type_chain_walks_all_twentynine() {
    let mut count = 1;
    let mut cur = ItemType::Tattoo;
    while let Some(next) = cur.next() {
        cur = next;
        count += 1;
    }
    assert_eq!(count, 29);
    assert_eq!(cur, ItemType::Vial);
}
