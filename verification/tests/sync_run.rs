use billsync::commands::DateRange;
use billsync::orchestrator::Phase;
use billsync::orchestrator::SyncRun;
use billsync::records::DetailOutcome;
use billsync::records::FetchError;
use billsync::records::PageResult;
use billsync::records::RecordDetail;
use billsync::records::RecordSummary;
use billsync::records::StorageError;
use billsync::window::WINDOW_SIZE;

fn range() -> DateRange {
    DateRange { from: String::from("20240101"), to: String::from("20240131") }
}

fn summaries(n: u64) -> Vec<RecordSummary> {
    let mut v: Vec<RecordSummary> = Vec::new();
    let mut i: u64 = 0;
    while i < n {
        v.push(RecordSummary { id: i });
        i += 1;
    }
    v
}

fn detail_of(s: &RecordSummary) -> RecordDetail {
    RecordDetail { id: s.id, amount: s.id * 100 }
}

/// Drive a fresh run through the two-call listing protocol onto `n` summaries.
fn hydrating_run(n: u64) -> SyncRun {
    let mut run = SyncRun::new(range(), WINDOW_SIZE);
    assert!(matches!(run.phase, Phase::DiscoveringCount));

    let probe = run.count_probe_request();
    assert_eq!(probe.page, 1);
    assert_eq!(probe.page_size, 1);
    run.on_count_response(Ok(PageResult { total_count: n as i32, items: summaries(1.min(n)) }));
    assert!(matches!(run.phase, Phase::FetchingListing));
    assert_eq!(run.total_count, n as i32);

    let full = run.listing_request();
    assert_eq!(full.page, 1);
    assert_eq!(full.page_size, n as i32);
    run.on_listing_response(Ok(PageResult { total_count: n as i32, items: summaries(n) }));
    assert!(matches!(run.phase, Phase::Hydrating));
    run
}

#[test]
fn probe_failure_is_fatal() {
    let mut run = SyncRun::new(range(), WINDOW_SIZE);
    run.on_count_response(Err(FetchError {}));
    assert!(matches!(run.phase, Phase::Failed));
}

#[test]
fn listing_failure_is_fatal() {
    let mut run = SyncRun::new(range(), WINDOW_SIZE);
    run.on_count_response(Ok(PageResult { total_count: 7, items: summaries(1) }));
    run.on_listing_response(Err(FetchError {}));
    assert!(matches!(run.phase, Phase::Failed));
}

#[test]
fn empty_listing_persists_empty_batch() {
    let mut run = hydrating_run(0);
    assert!(run.next_window().is_none());
    assert!(run.hydration_complete());
    run.begin_persist();
    assert!(matches!(run.phase, Phase::Persisting));
    assert!(run.batch().is_empty());
    let storage_failed = run.on_persist_response(Ok(()));
    assert!(!storage_failed);
    assert!(matches!(run.phase, Phase::Done));
}

#[test]
fn windows_tile_the_listing() {
    // 65 summaries with width 30 resolve as three windows: 30, 30 and 5.
    let mut run = hydrating_run(65);
    let mut sizes: Vec<usize> = Vec::new();
    while let Some(win) = run.next_window() {
        assert!(win.end - win.start <= WINDOW_SIZE);
        sizes.push(win.end - win.start);
        let outcomes: Vec<DetailOutcome> = run.listing[win.start..win.end]
            .iter()
            .map(|s| DetailOutcome::WithDetail(detail_of(s)))
            .collect();
        let inc = run.on_window_outcomes(outcomes).unwrap();
        assert_eq!(inc, *sizes.last().unwrap());
    }
    assert_eq!(sizes, vec![30, 30, 5]);
}

#[test]
fn all_success_keeps_every_record_in_order() {
    let mut run = hydrating_run(65);
    let mut total_increments: usize = 0;
    while let Some(win) = run.next_window() {
        let outcomes: Vec<DetailOutcome> = run.listing[win.start..win.end]
            .iter()
            .map(|s| DetailOutcome::WithDetail(detail_of(s)))
            .collect();
        total_increments += run.on_window_outcomes(outcomes).unwrap();
    }
    assert!(run.hydration_complete());
    // Progress increments sum exactly to the listing length.
    assert_eq!(total_increments, 65);
    run.begin_persist();
    let batch = run.batch();
    // Completeness under all-success, and listing order throughout.
    assert_eq!(batch.len(), 65);
    for (i, d) in batch.iter().enumerate() {
        assert_eq!(d.id, i as u64);
        assert_eq!(d.amount, i as u64 * 100);
    }
}

#[test]
fn no_data_records_are_dropped_not_reordered() {
    // Records 3, 31 and 64 answer with no usable payload.
    let mut run = hydrating_run(65);
    while let Some(win) = run.next_window() {
        let outcomes: Vec<DetailOutcome> = run.listing[win.start..win.end]
            .iter()
            .map(|s| {
                if s.id == 3 || s.id == 31 || s.id == 64 {
                    DetailOutcome::NoData
                } else {
                    DetailOutcome::WithDetail(detail_of(s))
                }
            })
            .collect();
        run.on_window_outcomes(outcomes).unwrap();
    }
    run.begin_persist();
    let batch = run.batch();
    assert_eq!(batch.len(), 65 - 3);
    let expected: Vec<u64> = (0..65u64).filter(|i| *i != 3 && *i != 31 && *i != 64).collect();
    let got: Vec<u64> = batch.iter().map(|d| d.id).collect();
    assert_eq!(got, expected);
}

#[test]
fn ignored_variant_is_dropped_like_no_data() {
    let mut run = hydrating_run(2);
    let win = run.next_window().unwrap();
    assert_eq!((win.start, win.end), (0, 2));
    let outcomes = vec![
        DetailOutcome::Ignored,
        DetailOutcome::WithDetail(RecordDetail { id: 1, amount: 100 }),
    ];
    let inc = run.on_window_outcomes(outcomes).unwrap();
    assert_eq!(inc, 2);
    run.begin_persist();
    assert_eq!(run.batch().len(), 1);
    assert_eq!(run.batch()[0].id, 1);
}

#[test]
fn transport_error_in_second_window_fails_before_third() {
    // 65 summaries, width 30: summary 47 sits in the second window. Its
    // transport failure ends the run before the third window is issued, and
    // the batch is never released to storage.
    let mut run = hydrating_run(65);
    let mut windows_issued: usize = 0;
    let mut fatal = false;
    while let Some(win) = run.next_window() {
        windows_issued += 1;
        let outcomes: Vec<DetailOutcome> = run.listing[win.start..win.end]
            .iter()
            .map(|s| {
                if s.id == 47 {
                    DetailOutcome::TransportError
                } else {
                    DetailOutcome::WithDetail(detail_of(s))
                }
            })
            .collect();
        match run.on_window_outcomes(outcomes) {
            Ok(_) => {}
            Err(FetchError {}) => {
                fatal = true;
                break;
            }
        }
    }
    assert!(fatal);
    assert_eq!(windows_issued, 2);
    assert!(matches!(run.phase, Phase::Failed));
}

#[test]
fn storage_failure_still_concludes_the_run() {
    let mut run = hydrating_run(1);
    let win = run.next_window().unwrap();
    let outcomes = vec![DetailOutcome::WithDetail(RecordDetail { id: 0, amount: 0 })];
    assert_eq!((win.start, win.end), (0, 1));
    run.on_window_outcomes(outcomes).unwrap();
    run.begin_persist();
    let storage_failed = run.on_persist_response(Err(StorageError {}));
    assert!(storage_failed);
    assert!(matches!(run.phase, Phase::Done));
}
