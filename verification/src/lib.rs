//! Core logic of a market-mirroring backend: it keeps a catalog of tradable
//! items and a bounded price-history time series current against two external
//! web APIs, through a set of cooperating synchronization engines.
//!
//! This crate holds the verified decision and computation logic of those
//! engines. The unverified shell around it (HTTP calls, the persistent store,
//! task scheduling) hands plain values in and carries the decisions out.

use vstd::prelude::*;

pub mod batching;
pub mod history_pruning;
pub mod history_record;
pub mod item_definition;
pub mod item_sync;
pub mod price_sync;
pub mod recovery;
pub mod runner;

verus! {

/// One side of a live price snapshot: how many units stand at which unit price.
#[derive(PartialEq, Eq, Structural, Clone, Copy, Debug)]
pub struct PriceDetail {
    pub quantity: u32,
    pub unit_price: u32,
}

/// Query parameters accepted by the read-serving item listing.
pub struct ItemParams {
    pub page: Option<u32>,
    pub limit: Option<u32>,
    pub search: Option<String>,
}

/// Connection settings for the persistent store.
pub struct Args {
    pub surreal_uri: String,
    pub surreal_user: String,
    pub surreal_pass: String,
}

/// Largest page size the item listing hands out.
pub const MAX_PAGE_LIMIT: u32 = 100;

/// Page size used when the caller names none.
pub const DEFAULT_PAGE_LIMIT: u32 = 50;

/// The page size a listing request resolves to: the requested limit capped at
/// `MAX_PAGE_LIMIT`, or `DEFAULT_PAGE_LIMIT` when none was requested.
pub open spec fn resolved_limit(params: ItemParams) -> u32 {
    match params.limit {
        Some(l) => if l < MAX_PAGE_LIMIT { l } else { MAX_PAGE_LIMIT },
        None => DEFAULT_PAGE_LIMIT,
    }
}

/// The page number a listing request resolves to: the requested page, or the
/// first page when none was requested. Pages are 1-based; page 0 is read as
/// the first page.
pub open spec fn resolved_page(params: ItemParams) -> u32 {
    match params.page {
        Some(p) => if p == 0 { 1 } else { p },
        None => 1,
    }
}

/// Resolve a listing request to the window it asks for: the page size and the
/// offset of the first row.
pub fn page_window(params: &ItemParams) -> (r: (u32, u64))
    ensures
        r.0 == resolved_limit(*params),
        r.1 == (resolved_page(*params) - 1) * (resolved_limit(*params) as int),
{
    let limit: u32 = match params.limit {
        Some(l) => if l < MAX_PAGE_LIMIT { l } else { MAX_PAGE_LIMIT },
        None => DEFAULT_PAGE_LIMIT,
    };
    let page: u32 = match params.page {
        Some(p) => if p == 0 { 1 } else { p },
        None => 1,
    };
    let p64: u64 = page as u64;
    let l64: u64 = limit as u64;
    assert((p64 - 1) * l64 <= 0xffff_ffffu64 * 100) by (nonlinear_arith)
        requires
            1 <= p64 <= 0xffff_ffffu64,
            l64 <= 100,
    ;
    let start: u64 = (p64 - 1) * l64;
    (limit, start)
}

} // verus!
