use gw2shinies_backend::batching::{chunk_ids, ids_query};
use gw2shinies_backend::history_record::{RawPrice, RawPriceDetail};
use gw2shinies_backend::item_sync::{plan_catalog_sync, CatalogSyncPlan};
use gw2shinies_backend::price_sync::{price_records, store_failure_aborts_run, StoreWrite};
use gw2shinies_backend::recovery::{
    classify_chart_status, parse_chart, select_recovery_items, ChartStatus, RecoveryRun,
    RecoveryStep,
};
use gw2shinies_backend::runner::{
    continue_after_action, runner_step, EngineError, RunnerDirective, RunnerEvent,
};
use gw2shinies_backend::{page_window, ItemParams};

#[test]
fn test_catalog_sync_skips_on_matching_count() {
    // A second consecutive run with an unchanged id count plans zero
    // upserts.
    let ids = vec![1u32, 2];
    assert!(matches!(plan_catalog_sync(&ids, Some(2)), CatalogSyncPlan::Skip));
}

#[test]
fn test_catalog_sync_runs_on_count_mismatch() {
    let ids = vec![1u32, 2];
    match plan_catalog_sync(&ids, Some(1)) {
        CatalogSyncPlan::Skip => panic!("a mismatched count must sync"),
        CatalogSyncPlan::Sync(batches) => assert_eq!(batches, vec![vec![1u32, 2]]),
    }
    assert!(matches!(plan_catalog_sync(&ids, None), CatalogSyncPlan::Sync(_)));
}

#[test]
fn test_chunk_ids_batches_of_200() {
    let ids: Vec<u32> = (0..450).collect();
    let batches = chunk_ids(&ids);
    assert_eq!(batches.len(), 3);
    assert_eq!(batches[0].len(), 200);
    assert_eq!(batches[0][0], 0);
    assert_eq!(batches[1].len(), 200);
    assert_eq!(batches[1][0], 200);
    assert_eq!(batches[2].len(), 50);
    assert_eq!(batches[2][49], 449);
    assert_eq!(chunk_ids(&Vec::new()).len(), 0);
}

#[test]
fn test_ids_query_comma_joined() {
    assert_eq!(String::from_utf8(ids_query(&vec![1, 2])).unwrap(), "1,2");
    assert_eq!(String::from_utf8(ids_query(&vec![19684])).unwrap(), "19684");
    assert_eq!(String::from_utf8(ids_query(&vec![0, 10, 4294967295])).unwrap(), "0,10,4294967295");
    assert_eq!(String::from_utf8(ids_query(&Vec::new())).unwrap(), "");
}

#[test]
fn test_price_records_batch() {
    let prices = vec![RawPrice {
        id: 1,
        buys: RawPriceDetail { quantity: 100, unit_price: 50 },
        sells: RawPriceDetail { quantity: 200, unit_price: 60 },
    }];
    let records = price_records(&prices, 1735689600);
    assert_eq!(records.len(), 1);
    assert_eq!(records[0].item, 1);
    assert_eq!(records[0].buy_price, 50);
    assert_eq!(records[0].sell_price, 60);
    assert_eq!(records[0].buy_quantity, 100);
    assert_eq!(records[0].sell_quantity, 200);
    assert_eq!(records[0].timestamp, 1735689600);
}

#[test]
fn test_price_write_failure_asymmetry() {
    // A failed price merge aborts the run; a failed history append is
    // swallowed.
    assert!(store_failure_aborts_run(&StoreWrite::PriceMerge));
    assert!(!store_failure_aborts_run(&StoreWrite::HistoryAppend));
}

#[test]
fn test_recovery_threshold() {
    // Four stored points select an item for backfill; five do not; an item
    // with no entry counts as zero.
    let items = vec![1u32, 2, 3];
    let counts = vec![(1u32, 4u64), (2, 5)];
    let selected = select_recovery_items(&items, &counts);
    assert_eq!(selected, vec![1, 3]);
}

#[test]
fn test_chart_not_found_is_empty_not_error() {
    // An upstream not-found answer is a valid empty result, not an error.
    assert!(matches!(classify_chart_status(404), ChartStatus::NoData));
    assert!(matches!(classify_chart_status(200), ChartStatus::Payload));
    assert!(matches!(classify_chart_status(500), ChartStatus::Failed));
    assert!(matches!(classify_chart_status(403), ChartStatus::Failed));
}

#[test]
fn test_parse_chart_drops_short_rows() {
    let rows = vec![vec![1735689600, 60, 50, 200, 100], vec![1735689600, 60, 50, 200]];
    let records = parse_chart(19684, &rows);
    assert_eq!(records.len(), 1);
    assert_eq!(records[0].item, 19684);
    assert_eq!(records[0].timestamp, 1735689600);
    assert_eq!(records[0].sell_price, 60);
    assert_eq!(records[0].buy_price, 50);
    assert_eq!(records[0].sell_quantity, 200);
    assert_eq!(records[0].buy_quantity, 100);
}

#[test]
fn test_recovery_cancellation_leaves_rest_unrecovered() {
    // The loop observes cancellation at an item boundary and exits at once.
    let mut run = RecoveryRun::new(vec![1, 2, 3]);
    assert!(matches!(run.next_step(false), RecoveryStep::FetchChart(1)));
    assert!(matches!(run.next_step(true), RecoveryStep::Finished));
    assert_eq!(run.pending, vec![2, 3]);
}

#[test]
fn test_recovery_runs_to_completion_without_cancel() {
    let mut run = RecoveryRun::new(vec![5, 7]);
    assert!(matches!(run.next_step(false), RecoveryStep::FetchChart(5)));
    assert!(matches!(run.next_step(false), RecoveryStep::FetchChart(7)));
    assert!(matches!(run.next_step(false), RecoveryStep::Finished));
    assert_eq!(run.pending, Vec::<u32>::new());
}

#[test]
fn test_runner_cancellation_stops_before_next_action() {
    // A worker whose timer race is won by the cancellation signal exits
    // without starting another action.
    assert!(matches!(runner_step(&RunnerEvent::CancelSignal), RunnerDirective::Shutdown));
    assert!(matches!(runner_step(&RunnerEvent::TimerTick), RunnerDirective::RunAction));
}

#[test]
fn test_runner_swallows_action_errors() {
    assert!(continue_after_action(&Ok(())));
    assert!(continue_after_action(&Err(EngineError::Gateway)));
    assert!(continue_after_action(&Err(EngineError::Store)));
}

#[test]
fn test_page_window() {
    let params = ItemParams { page: Some(3), limit: Some(20), search: None };
    assert_eq!(page_window(&params), (20, 40));
    let params = ItemParams { page: None, limit: None, search: None };
    assert_eq!(page_window(&params), (50, 0));
    let params = ItemParams { page: Some(2), limit: Some(1000), search: None };
    assert_eq!(page_window(&params), (100, 100));
}
