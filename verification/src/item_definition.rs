//! Catalog entries: the raw item definition the catalog API returns, the
//! mirrored catalog entry kept in the store, and the ingest mapping between
//! them, including the derivation of the `is_tradeable` flag.

use vstd::prelude::*;

verus! {

/// A mirrored catalog entry. `is_tradeable` is derived from the raw flag
/// list at ingest and is false exactly when a binding flag is present.
#[derive(Debug)]
pub struct ItemDefinition {
    pub gw2_id: i32,
    pub name: String,
    pub type_: String,
    pub rarity: String,
    pub level: i32,
    pub vendor_value: i64,
    pub is_tradeable: bool,
}

/// An item definition as the catalog API returns it. Fields the mirror never
/// reads (descriptions, skins, upgrade links) are dropped at the wire.
#[derive(Debug)]
pub struct RawItem {
    pub id: u32,
    pub name: String,
    pub type_: String,
    pub level: u32,
    pub rarity: String,
    pub vendor_value: u32,
    pub game_types: Vec<String>,
    pub flags: Vec<String>,
    pub restrictions: Vec<String>,
    pub chat_link: String,
}

/// Whether a flag binds the item to an account or bars selling it; any one
/// of these makes the item non-tradeable.
pub open spec fn binding_flag(flag: Seq<char>) -> bool {
    flag == "AccountBound"@ || flag == "SoulbindOnAcquire"@ || flag == "NoSell"@
}

/// An item is tradeable exactly when no flag of its flag list is a binding
/// flag.
pub open spec fn flags_tradeable(flags: Seq<String>) -> bool {
    forall|i: int| 0 <= i < flags.len() ==> !binding_flag(#[trigger] flags[i]@)
}

/// The catalog entry derived from one raw item definition.
pub open spec fn definition_of_raw(item: RawItem) -> ItemDefinition {
    ItemDefinition {
        gw2_id: item.id as i32,
        name: item.name,
        type_: item.type_,
        rarity: item.rarity,
        level: item.level as i32,
        vendor_value: item.vendor_value as i64,
        is_tradeable: flags_tradeable(item.flags@),
    }
}

/// Whether any flag of the list is a binding flag.
fn has_binding_flag(flags: &Vec<String>) -> (r: bool)
    ensures
        r == !flags_tradeable(flags@),
{
    let account_bound: String = "AccountBound".to_owned();
    let soulbind: String = "SoulbindOnAcquire".to_owned();
    let no_sell: String = "NoSell".to_owned();
    let n = flags.len();
    for i in 0..n
        invariant
            n == flags@.len(),
            account_bound@ == "AccountBound"@,
            soulbind@ == "SoulbindOnAcquire"@,
            no_sell@ == "NoSell"@,
            forall|j: int| 0 <= j < i ==> !binding_flag(#[trigger] flags@[j]@),
    {
        if flags[i] == account_bound || flags[i] == soulbind || flags[i] == no_sell {
            return true;
        }
    }
    false
}

impl From<RawItem> for ItemDefinition {
    /// Map a raw item definition to the catalog entry kept in the store,
    /// deriving `is_tradeable` from the flag list.
    fn from(item: RawItem) -> (r: ItemDefinition) {
        let is_tradeable = !has_binding_flag(&item.flags);
        ItemDefinition {
            gw2_id: item.id as i32,
            name: item.name,
            type_: item.type_,
            rarity: item.rarity,
            level: item.level as i32,
            vendor_value: item.vendor_value as i64,
            is_tradeable,
        }
    }
}

impl vstd::std_specs::convert::FromSpecImpl<RawItem> for ItemDefinition {
    open spec fn obeys_from_spec() -> bool {
        true
    }

    open spec fn from_spec(item: RawItem) -> ItemDefinition {
        definition_of_raw(item)
    }
}

} // verus!
