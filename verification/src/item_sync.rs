//! Catalog sync: the decisions of one catalog run. A run fetches the full
//! external id list, skips entirely when the stored row count already equals
//! that list's length, and otherwise upserts every item, batch by batch.

use vstd::prelude::*;
use crate::batching::{batch_partition, chunk_ids};
use crate::item_definition::{definition_of_raw, ItemDefinition, RawItem};

verus! {

/// What one catalog run does after the id list is in hand: nothing, or an
/// upsert pass over every batch in order.
pub enum CatalogSyncPlan {
    Skip,
    Sync(Vec<Vec<u32>>),
}

/// A run skips exactly when the stored row count matches the external id
/// count. A count heuristic, not a set diff: equal counts under concurrent
/// additions and removals pass as current.
pub open spec fn counts_match(ids: Seq<u32>, stored_count: Option<u64>) -> bool {
    stored_count == Some(ids.len() as u64)
}

/// Decide one catalog run from the fetched id list and the stored row
/// count: skip when the counts match, else upsert every id, in the batch
/// partition of the fetched list.
pub fn plan_catalog_sync(all_ids: &Vec<u32>, stored_count: Option<u64>) -> (plan: CatalogSyncPlan)
    ensures
        plan is Skip <==> counts_match(all_ids@, stored_count),
        plan matches CatalogSyncPlan::Sync(batches) ==> batch_partition(batches@, all_ids@),
{
    let counts_equal = match stored_count {
        Some(c) => c == all_ids.len() as u64,
        None => false,
    };
    if counts_equal {
        CatalogSyncPlan::Skip
    } else {
        CatalogSyncPlan::Sync(chunk_ids(all_ids))
    }
}

/// Map one fetched batch of raw item definitions to the catalog entries to
/// upsert, in order.
pub fn map_items(items: Vec<RawItem>) -> (defs: Vec<ItemDefinition>)
    ensures
        defs@.len() == items@.len(),
        forall|i: int| 0 <= i < items@.len() ==> defs@[i] == definition_of_raw(items@[i]),
{
    let ghost items0 = items@;
    let mut rest = items;
    let mut defs: Vec<ItemDefinition> = Vec::new();
    while rest.len() > 0
        invariant
            defs@.len() + rest@.len() == items0.len(),
            rest@ == items0.subrange(defs@.len() as int, items0.len() as int),
            forall|i: int| 0 <= i < defs@.len() ==> defs@[i] == definition_of_raw(items0[i]),
        decreases rest@.len(),
    {
        let x = rest.remove(0);
        assert(x == items0[defs@.len() as int]);
        defs.push(ItemDefinition::from(x));
        proof {
            assert(rest@ =~= items0.subrange(defs@.len() as int, items0.len() as int));
        }
    }
    defs
}

/// Law: catalog sync is idempotent under an unchanged external id count.
/// A completed sync leaves one catalog row per external id; a following run
/// that fetches an id list of that same length finds matching counts and
/// plans no upserts at all.
pub proof fn lemma_catalog_sync_idempotent(ids: Seq<u32>, stored_count: Option<u64>)
    requires
        stored_count == Some(ids.len() as u64),
    ensures
        counts_match(ids, stored_count),
{
}

} // verus!
