use exilian::catalog::{Category, League};
use exilian::numerals::{i64_to_dec, u64_to_dec};
use exilian::paths::{cache_dir_path, cache_file_path, endpoint_uri};

#[test]
fn currency_endpoint_uri() {
    let uri = endpoint_uri(&Category::Currency, &League::Standard, "Currency");
    assert_eq!(uri, "https://poe.ninja/api/data/currencyoverview?league=Standard&type=Currency");
}

#[test]
fn item_endpoint_uri() {
    let uri = endpoint_uri(&Category::Item, &League::NecropolisHC, "Scarab");
    assert_eq!(
        uri,
        "https://poe.ninja/api/data/itemoverview?league=Hardcore+Necropolis&type=Scarab"
    );
}

#[test]
fn cache_locations() {
    let base = "/home/u/.cache/exilian";
    assert_eq!(
        cache_dir_path(base, &League::Necropolis, &Category::Item),
        "/home/u/.cache/exilian/Necropolis/item"
    );
    assert_eq!(
        cache_file_path(base, &League::Necropolis, &Category::Item, "Tattoo"),
        "/home/u/.cache/exilian/Necropolis/item/Tattoo.json"
    );
    assert_eq!(
        cache_file_path(base, &League::Standard, &Category::Currency, "Fragment"),
        "/home/u/.cache/exilian/Standard/currency/Fragment.json"
    );
}

#[test]
fn decimal_printing() {
    assert_eq!(u64_to_dec(0), "0");
    assert_eq!(u64_to_dec(7), "7");
    assert_eq!(u64_to_dec(1234567890), "1234567890");
    assert_eq!(u64_to_dec(u64::MAX), "18446744073709551615");
    assert_eq!(i64_to_dec(0), "0");
    assert_eq!(i64_to_dec(-42), "-42");
    assert_eq!(i64_to_dec(i64::MIN), "-9223372036854775808");
    assert_eq!(i64_to_dec(i64::MAX), "9223372036854775807");
}
