use content_searcher::pattern::Pattern;
use content_searcher::pipeline::enumerator_step;
use content_searcher::pipeline::limiter_size;
use content_searcher::pipeline::pipeline_transition;
use content_searcher::pipeline::PipelineEvent;
use content_searcher::pipeline::PipelineState;
use content_searcher::pipeline::run_outcome;
use content_searcher::pipeline::size_limit_bytes;
use content_searcher::pipeline::worker_pool_size;
use content_searcher::pipeline::worker_poll;
use content_searcher::pipeline::EnumAction;
use content_searcher::pipeline::Progress;
use content_searcher::pipeline::RunOutcome;
use content_searcher::pipeline::RunTotals;
use content_searcher::pipeline::SearchRequest;
use content_searcher::pipeline::WalkEvent;
use content_searcher::pipeline::WorkerAction;
use content_searcher::pipeline::QUEUE_CAPACITY;
use content_searcher::scan::FileMatch;

fn request(limit: u64, filter: Option<&str>) -> SearchRequest {
    SearchRequest {
        pattern: Pattern::compile("foo").unwrap(),
        size_limit_bytes: limit,
        name_filter: filter.map(|f| Pattern::compile(f).unwrap()),
    }
}

fn file(path: &str, size: Option<u64>) -> WalkEvent {
    WalkEvent::File { path: path.as_bytes().to_vec(), size }
}

#[test]
fn oversized_files_are_skipped() {
    let req = request(10, None);
    assert_eq!(enumerator_step(&req, false, &file("/t/a", Some(11))), EnumAction::Skip);
    assert_eq!(enumerator_step(&req, false, &file("/t/a", Some(10))), EnumAction::Emit);
}

#[test]
fn zero_size_limit_admits_no_nonempty_file() {
    let req = request(0, None);
    for size in [1u64, 5, 1024, u64::MAX] {
        assert_eq!(enumerator_step(&req, false, &file("/t/a", Some(size))), EnumAction::Skip);
    }
}

#[test]
fn name_filter_limits_emitted_paths() {
    let req = request(u64::MAX, Some(r"\.txt$"));
    assert_eq!(enumerator_step(&req, false, &file("/t/a.txt", Some(1))), EnumAction::Emit);
    assert_eq!(enumerator_step(&req, false, &file("/t/b.bin", Some(1))), EnumAction::Skip);
}

#[test]
fn unreadable_metadata_is_skipped() {
    let req = request(u64::MAX, None);
    assert_eq!(enumerator_step(&req, false, &file("/t/a", None)), EnumAction::Skip);
}

#[test]
fn non_files_and_errors_are_skipped_not_fatal() {
    let req = request(u64::MAX, None);
    assert_eq!(enumerator_step(&req, false, &WalkEvent::Failed), EnumAction::Skip);
    assert_eq!(enumerator_step(&req, false, &WalkEvent::NotFile), EnumAction::Skip);
}

#[test]
fn cancellation_stops_enumeration_and_workers() {
    let req = request(u64::MAX, None);
    assert_eq!(enumerator_step(&req, true, &file("/t/a.txt", Some(1))), EnumAction::Stop);
    assert_eq!(enumerator_step(&req, true, &WalkEvent::Failed), EnumAction::Stop);
    assert_eq!(worker_poll(true, true), WorkerAction::Exit);
    assert_eq!(worker_poll(true, false), WorkerAction::Exit);
}

#[test]
fn no_discovery_after_cancellation_observed() {
    let req = request(u64::MAX, None);
    let events = vec![
        file("/t/a", Some(1)),
        file("/t/b", Some(1)),
        file("/t/c", Some(1)),
    ];
    let mut cancelled = false;
    let mut emitted = Vec::new();
    for (i, e) in events.iter().enumerate() {
        if i == 1 {
            // the interrupt arrives during the walk
            cancelled = true;
        }
        match enumerator_step(&req, cancelled, e) {
            EnumAction::Stop => break,
            EnumAction::Emit => emitted.push(i),
            EnumAction::Skip => {}
        }
    }
    assert_eq!(emitted, vec![0]);
}

#[test]
fn workers_scan_while_paths_arrive() {
    assert_eq!(worker_poll(false, true), WorkerAction::Scan);
    assert_eq!(worker_poll(false, false), WorkerAction::Exit);
}

#[test]
fn cancelled_run_reports_cancellation() {
    assert_eq!(run_outcome(true), RunOutcome::Cancelled);
    assert_eq!(run_outcome(false), RunOutcome::Completed);
    assert_eq!(run_outcome(true).finish_message(), "Search cancelled!");
    assert_eq!(run_outcome(false).finish_message(), "All files processed!");
}

#[test]
fn totals_accumulate_per_result() {
    let mut totals = RunTotals::new();
    totals.record(FileMatch { path: String::from("a.txt"), match_count: 2, matches: vec![] });
    totals.record(FileMatch { path: String::from("d/e.rs"), match_count: 3, matches: vec![] });
    assert_eq!(totals.total_matches, 5);
    assert_eq!(totals.files_with_matches, 2);
    assert_eq!(totals.detected_files, vec![String::from("a.txt"), String::from("d/e.rs")]);
}

#[test]
fn progress_counters_are_monotone() {
    let mut p = Progress::new();
    p.inc_discovered();
    p.inc_discovered();
    p.inc_completed();
    assert_eq!(p.discovered, 2);
    assert_eq!(p.completed, 1);
}

#[test]
fn joins_in_order_finish_the_run() {
    let mut phase = PipelineState::Setup;
    phase = pipeline_transition(phase, PipelineEvent::Started);
    assert_eq!(phase, PipelineState::Running);
    phase = pipeline_transition(phase, PipelineEvent::EnumeratorDone);
    assert_eq!(phase, PipelineState::Draining);
    phase = pipeline_transition(phase, PipelineEvent::WorkersDone);
    assert_eq!(phase, PipelineState::Draining);
    phase = pipeline_transition(phase, PipelineEvent::CollectorDone);
    assert_eq!(phase, PipelineState::Finished);
}

#[test]
fn out_of_order_events_do_not_advance_the_run() {
    assert_eq!(
        pipeline_transition(PipelineState::Setup, PipelineEvent::CollectorDone),
        PipelineState::Setup
    );
    assert_eq!(
        pipeline_transition(PipelineState::Running, PipelineEvent::WorkersDone),
        PipelineState::Running
    );
    assert_eq!(
        pipeline_transition(PipelineState::Finished, PipelineEvent::Started),
        PipelineState::Finished
    );
}

#[test]
fn pool_and_limiter_sizes() {
    assert!(worker_pool_size() >= 1);
    assert_eq!(limiter_size(1), 2);
    assert_eq!(limiter_size(8), 16);
    assert_eq!(limiter_size(usize::MAX), usize::MAX);
}

#[test]
fn size_limit_conversion() {
    assert_eq!(size_limit_bytes(0), Some(0));
    assert_eq!(size_limit_bytes(1000), Some(1_048_576_000));
    assert_eq!(size_limit_bytes(u64::MAX), None);
    assert_eq!(QUEUE_CAPACITY, 10_000);
}
