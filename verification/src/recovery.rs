//! History recovery: selection of the items whose history is too thin, and
//! the per-item backfill loop over the chart API. Selected items are worked
//! strictly one at a time; the loop observes cancellation only between
//! items and exits there at once, leaving the rest for the next run.

use vstd::prelude::*;
use crate::history_record::{
    chart_row_valid, record_of_chart_row, HistoryRecord,
};

verus! {

/// An item is selected for backfill while it has fewer than this many
/// stored history points.
pub const RECOVERY_THRESHOLD: u64 = 5;

/// The stored point count of item `id` in a grouped count list: the count
/// of its first entry, or zero when no entry names it.
pub open spec fn count_for(counts: Seq<(u32, u64)>, id: u32) -> u64
    decreases counts.len(),
{
    if counts.len() == 0 {
        0
    } else if counts[0].0 == id {
        counts[0].1
    } else {
        count_for(counts.drop_first(), id)
    }
}

/// Whether item `id` is selected for backfill: its stored point count is
/// strictly under `RECOVERY_THRESHOLD`.
pub open spec fn needs_recovery(counts: Seq<(u32, u64)>, id: u32) -> bool {
    count_for(counts, id) < RECOVERY_THRESHOLD
}

/// Look the stored point count of item `id` up in a grouped count list.
pub fn lookup_count(counts: &Vec<(u32, u64)>, id: u32) -> (count: u64)
    ensures
        count == count_for(counts@, id),
{
    let n = counts.len();
    assert(counts@.subrange(0, n as int) =~= counts@);
    for i in 0..n
        invariant
            n == counts@.len(),
            count_for(counts@, id) == count_for(counts@.subrange(i as int, n as int), id),
    {
        proof {
            assert(counts@.subrange(i as int, n as int).drop_first() =~= counts@.subrange(
                i + 1,
                n as int,
            ));
        }
        if counts[i].0 == id {
            return counts[i].1;
        }
    }
    0
}

/// Select the items to backfill: of the tradeable items, in their given
/// order, those whose stored point count is under the threshold.
pub fn select_recovery_items(items: &Vec<u32>, counts: &Vec<(u32, u64)>) -> (selected: Vec<u32>)
    ensures
        selected@ == items@.filter(|id: u32| needs_recovery(counts@, id)),
{
    let ghost pred = |id: u32| needs_recovery(counts@, id);
    let n = items.len();
    let mut selected: Vec<u32> = Vec::new();
    assert(items@.subrange(0, 0).filter(pred) =~= selected@);
    for i in 0..n
        invariant
            n == items@.len(),
            selected@ == items@.subrange(0, i as int).filter(pred),
            pred == (|id: u32| needs_recovery(counts@, id)),
    {
        let id = items[i];
        let count = lookup_count(counts, id);
        proof {
            reveal(Seq::filter);
            assert(items@.subrange(0, i + 1).drop_last() =~= items@.subrange(0, i as int));
            assert(items@.subrange(0, i + 1).last() == id);
        }
        if count < RECOVERY_THRESHOLD {
            selected.push(id);
        }
    }
    proof {
        assert(items@.subrange(0, n as int) =~= items@);
    }
    selected
}

/// How the chart API answered, read off the HTTP status: not-found is a
/// valid no-data answer, a success status carries a payload to parse, and
/// every client or server error status fails the fetch.
pub enum ChartStatus {
    NoData,
    Payload,
    Failed,
}

/// Classify the chart API's HTTP status. Not-found means the item simply
/// has no chart data: an empty, non-error result. Any other client or
/// server error status is a gateway error. Every remaining status hands
/// its body to the parser.
pub fn classify_chart_status(status: u16) -> (c: ChartStatus)
    ensures
        c is NoData <==> status == 404,
        c is Failed <==> (400 <= status < 600 && status != 404),
        c is Payload <==> !(400 <= status < 600),
{
    if status == 404 {
        ChartStatus::NoData
    } else if 400 <= status && status < 600 {
        ChartStatus::Failed
    } else {
        ChartStatus::Payload
    }
}

/// The history samples held in a chart payload for item `id`: one sample
/// per well-formed row, in row order; undersized rows and rows whose
/// timestamp no calendar date can hold are dropped one by one.
pub open spec fn chart_records(id: u32, rows: Seq<Seq<i64>>) -> Seq<HistoryRecord>
    decreases rows.len(),
{
    if rows.len() == 0 {
        Seq::empty()
    } else {
        let rest = chart_records(id, rows.drop_last());
        if chart_row_valid(rows.last()) {
            rest.push(record_of_chart_row(id, rows.last()))
        } else {
            rest
        }
    }
}

/// Parse a chart payload for item `id` into history samples, dropping
/// malformed rows individually without failing the batch.
pub fn parse_chart(id: u32, rows: &Vec<Vec<i64>>) -> (records: Vec<HistoryRecord>)
    ensures
        records@ == chart_records(id, rows@.map_values(|row: Vec<i64>| row@)),
{
    let ghost all = rows@.map_values(|row: Vec<i64>| row@);
    let n = rows.len();
    let mut records: Vec<HistoryRecord> = Vec::new();
    assert(records@ =~= chart_records(id, all.subrange(0, 0)));
    for i in 0..n
        invariant
            n == rows@.len(),
            all == rows@.map_values(|row: Vec<i64>| row@),
            records@ == chart_records(id, all.subrange(0, i as int)),
    {
        proof {
            assert(all.subrange(0, i + 1).drop_last() =~= all.subrange(0, i as int));
            assert(all.subrange(0, i + 1).last() == rows@[i as int]@);
        }
        match HistoryRecord::from_bltc(id, &rows[i]) {
            Some(record) => records.push(record),
            None => (),
        }
    }
    proof {
        assert(all.subrange(0, n as int) =~= all);
    }
    records
}

/// One backfill pass: the items still to work, front first.
pub struct RecoveryRun {
    pub pending: Vec<u32>,
}

/// What the loop does next: fetch the chart of one item, or finish.
pub enum RecoveryStep {
    FetchChart(u32),
    Finished,
}

impl RecoveryRun {
    /// Start a backfill pass over the selected items, in selection order.
    pub fn new(selected: Vec<u32>) -> (run: RecoveryRun)
        ensures
            run.pending@ == selected@,
    {
        RecoveryRun { pending: selected }
    }

    /// Decide the next move at an item boundary. Cancellation observed here
    /// ends the pass at once and recovers none of the remaining items;
    /// otherwise the front item is taken out and its chart is fetched, and
    /// an empty queue finishes the pass.
    pub fn next_step(&mut self, cancelled: bool) -> (step: RecoveryStep)
        ensures
            cancelled ==> step is Finished && final(self).pending@ == old(self).pending@,
            !cancelled && old(self).pending@.len() == 0 ==> step is Finished
                && final(self).pending@ == old(self).pending@,
            !cancelled && old(self).pending@.len() > 0 ==> step
                == RecoveryStep::FetchChart(old(self).pending@[0])
                && final(self).pending@ == old(self).pending@.drop_first(),
    {
        if cancelled {
            return RecoveryStep::Finished;
        }
        if self.pending.len() == 0 {
            return RecoveryStep::Finished;
        }
        let id = self.pending.remove(0);
        proof {
            assert(self.pending@ =~= old(self).pending@.drop_first());
        }
        RecoveryStep::FetchChart(id)
    }
}

} // verus!
