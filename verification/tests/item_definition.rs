use gw2shinies_backend::item_definition::{ItemDefinition, RawItem};

fn raw_item(id: u32, name: &str, type_: &str, level: u32, rarity: &str, vendor_value: u32, flags: Vec<&str>, chat_link: &str) -> RawItem {
    RawItem {
        id,
        name: name.to_string(),
        type_: type_.to_string(),
        level,
        rarity: rarity.to_string(),
        vendor_value,
        game_types: vec!["PvE".to_string()],
        flags: flags.into_iter().map(|f| f.to_string()).collect(),
        restrictions: vec![],
        chat_link: chat_link.to_string(),
    }
}

#[test]
fn test_raw_item_to_item_definition_tradeable() {
    let raw = raw_item(
        123,
        "Test Item",
        "Weapon",
        80,
        "Exotic",
        100,
        vec!["Many", "Tradeable"],
        "[&AgH1AAA=]",
    );

    let def: ItemDefinition = raw.into();
    assert_eq!(def.gw2_id, 123);
    assert_eq!(def.name, "Test Item");
    assert_eq!(def.type_, "Weapon");
    assert_eq!(def.rarity, "Exotic");
    assert_eq!(def.level, 80);
    assert_eq!(def.vendor_value, 100);
    assert!(def.is_tradeable);
}

#[test]
fn test_raw_item_to_item_definition_account_bound() {
    let raw = raw_item(
        124,
        "Bound Item",
        "Armor",
        80,
        "Ascended",
        0,
        vec!["AccountBound"],
        "[&AgH2AAA=]",
    );

    let def: ItemDefinition = raw.into();
    assert!(!def.is_tradeable);
}

#[test]
fn test_raw_item_to_item_definition_no_sell() {
    let raw = raw_item(
        125,
        "No Sell Item",
        "Trophy",
        0,
        "Basic",
        10,
        vec!["NoSell"],
        "[&AgH3AAA=]",
    );

    let def: ItemDefinition = raw.into();
    assert!(!def.is_tradeable);
}

#[test]
fn test_soulbind_on_acquire_not_tradeable() {
    let raw = raw_item(
        126,
        "Soulbound Item",
        "Weapon",
        80,
        "Exotic",
        5,
        vec!["SoulbindOnAcquire", "HideSuffix"],
        "[&AgH4AAA=]",
    );
    let def: ItemDefinition = raw.into();
    assert!(!def.is_tradeable);
}

#[test]
fn test_no_flags_is_tradeable() {
    let raw = raw_item(127, "Plain Item", "Trophy", 1, "Basic", 2, vec![], "[&AgH5AAA=]");
    let def: ItemDefinition = raw.into();
    assert!(def.is_tradeable);
}
