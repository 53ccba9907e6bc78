//! Price-history samples: the row appended to the history table by the live
//! price poller and by chart backfill, and the parsers that build one from
//! the two external wire shapes.

use vstd::prelude::*;

verus! {

/// One timestamped buy/sell observation for a catalog item. `item` is the
/// item's external numeric id; `timestamp` counts UTC seconds since the Unix
/// epoch.
#[derive(PartialEq, Eq, Structural, Clone, Copy, Debug)]
pub struct HistoryRecord {
    pub item: u32,
    pub timestamp: i64,
    pub buy_price: i64,
    pub sell_price: i64,
    pub buy_quantity: i64,
    pub sell_quantity: i64,
}

/// A live price record as the price API returns it.
#[derive(PartialEq, Eq, Structural, Clone, Copy, Debug)]
pub struct RawPrice {
    pub id: u32,
    pub buys: RawPriceDetail,
    pub sells: RawPriceDetail,
}

/// One side of a live price record: pending quantity and unit price.
#[derive(PartialEq, Eq, Structural, Clone, Copy, Debug)]
pub struct RawPriceDetail {
    pub quantity: i32,
    pub unit_price: i64,
}

/// Smallest second count that a calendar timestamp can hold.
pub const TIMESTAMP_SECS_MIN: i64 = -8334601228800;

/// Largest second count that a calendar timestamp can hold.
pub const TIMESTAMP_SECS_MAX: i64 = 8210266876799;

/// Whether a second count lies in the calendar-representable range.
pub open spec fn timestamp_representable(secs: i64) -> bool {
    TIMESTAMP_SECS_MIN <= secs <= TIMESTAMP_SECS_MAX
}

/// Relies on chrono::DateTime::<Utc>::from_timestamp: with a zero nanosecond
/// part it returns Some exactly when the seconds land on a proleptic
/// Gregorian date chrono can represent, which is the contiguous range
/// [`TIMESTAMP_SECS_MIN`, `TIMESTAMP_SECS_MAX`].
#[verifier::external_body]
fn check_timestamp(secs: i64) -> (r: bool)
    ensures
        r == timestamp_representable(secs),
{
    chrono::DateTime::<chrono::Utc>::from_timestamp(secs, 0).is_some()
}

/// The history sample derived from one live price record taken at `now`.
pub open spec fn record_of_raw(raw: RawPrice, now: i64) -> HistoryRecord {
    HistoryRecord {
        item: raw.id,
        timestamp: now,
        buy_price: raw.buys.unit_price,
        sell_price: raw.sells.unit_price,
        buy_quantity: raw.buys.quantity as i64,
        sell_quantity: raw.sells.quantity as i64,
    }
}

/// Whether a chart row is well-formed: it carries at least the five numeric
/// fields (timestamp, sell price, buy price, supply, demand) and its
/// timestamp is calendar-representable.
pub open spec fn chart_row_valid(row: Seq<i64>) -> bool {
    row.len() >= 5 && timestamp_representable(row[0])
}

/// The history sample held in a well-formed chart row for item `id`.
pub open spec fn record_of_chart_row(id: u32, row: Seq<i64>) -> HistoryRecord {
    HistoryRecord {
        item: id,
        timestamp: row[0],
        sell_price: row[1],
        buy_price: row[2],
        sell_quantity: row[3],
        buy_quantity: row[4],
    }
}

impl HistoryRecord {
    /// Build the history sample of one live price record taken at `now`.
    pub fn from_raw(raw: RawPrice, now: i64) -> (r: HistoryRecord)
        ensures
            r == record_of_raw(raw, now),
    {
        HistoryRecord {
            item: raw.id,
            timestamp: now,
            buy_price: raw.buys.unit_price,
            sell_price: raw.sells.unit_price,
            buy_quantity: raw.buys.quantity as i64,
            sell_quantity: raw.sells.quantity as i64,
        }
    }

    /// Parse one chart row for item `id`. A row under five fields, or one
    /// whose timestamp no calendar date can hold, yields no sample.
    pub fn from_bltc(id: u32, data: &Vec<i64>) -> (r: Option<HistoryRecord>)
        ensures
            chart_row_valid(data@) ==> r == Some(record_of_chart_row(id, data@)),
            !chart_row_valid(data@) ==> r is None,
    {
        if data.len() < 5 {
            return None;
        }
        if !check_timestamp(data[0]) {
            return None;
        }
        Some(HistoryRecord {
            item: id,
            timestamp: data[0],
            sell_price: data[1],
            buy_price: data[2],
            sell_quantity: data[3],
            buy_quantity: data[4],
        })
    }
}

} // verus!
