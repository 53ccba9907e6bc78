//! Price sync: the computations of one live-price run. A run fetches the
//! ids that carry prices, polls snapshots batch by batch, merges each
//! snapshot into its catalog row, and appends one history sample per
//! snapshot. A failed merge aborts the run; a failed history append is
//! swallowed.

use vstd::prelude::*;
use crate::history_record::{record_of_raw, HistoryRecord, RawPrice};

verus! {

/// The two kinds of store write a price run issues. Their failures are
/// treated asymmetrically, by design: live price currency must succeed,
/// historical appends are best effort.
pub enum StoreWrite {
    PriceMerge,
    HistoryAppend,
}

/// Whether a failed store write aborts the rest of the run: a failed price
/// merge does, a failed history append is swallowed and the run goes on.
pub fn store_failure_aborts_run(write: &StoreWrite) -> (fatal: bool)
    ensures
        fatal <==> write is PriceMerge,
{
    match write {
        StoreWrite::PriceMerge => true,
        StoreWrite::HistoryAppend => false,
    }
}

/// The history samples derived from one fetched price batch taken at `now`,
/// in order: one sample per returned price record.
pub fn price_records(prices: &Vec<RawPrice>, now: i64) -> (records: Vec<HistoryRecord>)
    ensures
        records@.len() == prices@.len(),
        forall|i: int|
            0 <= i < prices@.len() ==> records@[i] == record_of_raw(prices@[i], now),
{
    let n = prices.len();
    let mut records: Vec<HistoryRecord> = Vec::new();
    for i in 0..n
        invariant
            n == prices@.len(),
            records@.len() == i,
            forall|j: int| 0 <= j < i ==> records@[j] == record_of_raw(prices@[j], now),
    {
        records.push(HistoryRecord::from_raw(prices[i], now));
    }
    records
}

} // verus!
