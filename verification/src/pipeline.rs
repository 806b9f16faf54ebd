//! The decisions that drive the concurrent pipeline: which entries the
//! enumerator emits, when a worker exits, what the collector accumulates, the
//! progress counters, the pool and limiter sizes, and the run's outcome.

use crate::pattern::{find_span, Pattern};
use crate::scan::{FileMatch, SpecFileMatch};
use vstd::prelude::*;

verus! {

/// Bound of the path queue and of the results queue.
pub const QUEUE_CAPACITY: usize = 10000;

/// One run's immutable inputs: the compiled pattern, the size ceiling in
/// bytes, and the optional filename filter applied to the full path.
pub struct SearchRequest {
    pub pattern: Pattern,
    pub size_limit_bytes: u64,
    pub name_filter: Option<Pattern>,
}

/// One directory entry as the walk reports it.
pub enum WalkEvent {
    /// The walk failed on this entry.
    Failed,
    /// A directory, symbolic link, or other non-file.
    NotFile,
    /// A regular file: its full path's bytes and, when metadata could be
    /// read, its size in bytes.
    File { path: Vec<u8>, size: Option<u64> },
}

/// What the enumerator does with one entry.
#[derive(Clone, Copy, Debug, PartialEq, Eq, Structural)]
pub enum EnumAction {
    /// Stop enumerating.
    Stop,
    /// Pass over this entry.
    Skip,
    /// Count the file as discovered and send it to the workers.
    Emit,
}

/// A file qualifies when it is a regular file whose full path passes the
/// optional name filter, whose metadata could be read, and whose size does
/// not exceed the ceiling.
pub open spec fn spec_eligible(req: SearchRequest, event: WalkEvent) -> bool {
    match event {
        WalkEvent::File { path, size } => {
            &&& match req.name_filter {
                Some(f) => find_span(f@, path@) is Some,
                None => true,
            }
            &&& match size {
                Some(s) => s <= req.size_limit_bytes,
                None => false,
            }
        },
        _ => false,
    }
}

/// A file above the size ceiling never qualifies, whatever its content or
/// name, so it is never sent to a worker, read, or reported.
pub proof fn lemma_size_ceiling_respected(req: SearchRequest, path: Vec<u8>, size: u64)
    requires
        size > req.size_limit_bytes,
    ensures
        !spec_eligible(req, WalkEvent::File { path, size: Some(size) }),
{
}

/// With a name filter supplied, only files whose full path matches it
/// qualify, so no other file can appear in any result.
pub proof fn lemma_name_filter_respected(req: SearchRequest, path: Vec<u8>, size: Option<u64>)
    ensures
        (req.name_filter matches Some(f) && find_span(f@, path@) is None) ==> !spec_eligible(
            req,
            WalkEvent::File { path, size },
        ),
{
}

/// The enumerator's decision on one entry: stop exactly when cancellation has
/// been observed; otherwise emit exactly the qualifying files and pass over
/// everything else — an entry error never stops the walk.
pub fn enumerator_step(req: &SearchRequest, cancelled: bool, event: &WalkEvent) -> (a: EnumAction)
    ensures
        a == EnumAction::Stop <==> cancelled,
        a == EnumAction::Emit <==> (!cancelled && spec_eligible(*req, *event)),
{
    if cancelled {
        return EnumAction::Stop;
    }
    match event {
        WalkEvent::File { path, size } => {
            let name_ok = match &req.name_filter {
                Some(f) => f.matches_line(path),
                None => true,
            };
            match size {
                Some(s) => if name_ok && *s <= req.size_limit_bytes {
                    EnumAction::Emit
                } else {
                    EnumAction::Skip
                },
                None => EnumAction::Skip,
            }
        },
        _ => EnumAction::Skip,
    }
}

/// What a worker does after polling the path queue.
#[derive(Clone, Copy, Debug, PartialEq, Eq, Structural)]
pub enum WorkerAction {
    /// Terminate: the queue is closed and empty, or cancellation was
    /// observed (a path dequeued alongside it is dropped unscanned).
    Exit,
    /// Scan the dequeued path.
    Scan,
}

/// A worker's decision after one poll of the path queue.
pub fn worker_poll(cancelled: bool, dequeued: bool) -> (a: WorkerAction)
    ensures
        a == WorkerAction::Scan <==> (dequeued && !cancelled),
{
    if dequeued && !cancelled {
        WorkerAction::Scan
    } else {
        WorkerAction::Exit
    }
}

/// The orchestration's phases: set the run up, run all three stages, drain
/// once the enumerator has stopped, finish when the collector returns.
#[derive(Clone, Copy, Debug, PartialEq, Eq, Structural)]
pub enum PipelineState {
    Setup,
    Running,
    Draining,
    Finished,
}

/// What the orchestration observes, in the order it joins the stages.
#[derive(Clone, Copy, Debug, PartialEq, Eq, Structural)]
pub enum PipelineEvent {
    /// Enumerator, workers and collector were all spawned.
    Started,
    /// The enumerator returned, so the path channel is closed.
    EnumeratorDone,
    /// Every worker exited, so the results channel is closed.
    WorkersDone,
    /// The collector drained the remaining results and returned.
    CollectorDone,
}

/// How each phase advances: the channel-closure cascade in join order. An
/// event arriving in any other phase does not advance the run.
pub open spec fn spec_pipeline_transition(s: PipelineState, e: PipelineEvent) -> PipelineState {
    match (s, e) {
        (PipelineState::Setup, PipelineEvent::Started) => PipelineState::Running,
        (PipelineState::Running, PipelineEvent::EnumeratorDone) => PipelineState::Draining,
        (PipelineState::Draining, PipelineEvent::WorkersDone) => PipelineState::Draining,
        (PipelineState::Draining, PipelineEvent::CollectorDone) => PipelineState::Finished,
        _ => s,
    }
}

pub fn pipeline_transition(s: PipelineState, e: PipelineEvent) -> (next: PipelineState)
    ensures
        next == spec_pipeline_transition(s, e),
{
    match (s, e) {
        (PipelineState::Setup, PipelineEvent::Started) => PipelineState::Running,
        (PipelineState::Running, PipelineEvent::EnumeratorDone) => PipelineState::Draining,
        (PipelineState::Draining, PipelineEvent::WorkersDone) => PipelineState::Draining,
        (PipelineState::Draining, PipelineEvent::CollectorDone) => PipelineState::Finished,
        _ => s,
    }
}

/// Joining the enumerator, then the workers, then the collector, in that
/// order, carries a fresh run to its terminal phase.
pub proof fn lemma_join_order_reaches_finished()
    ensures
        spec_pipeline_transition(
            spec_pipeline_transition(
                spec_pipeline_transition(
                    spec_pipeline_transition(PipelineState::Setup, PipelineEvent::Started),
                    PipelineEvent::EnumeratorDone,
                ),
                PipelineEvent::WorkersDone,
            ),
            PipelineEvent::CollectorDone,
        ) == PipelineState::Finished,
{
}

/// The terminal phase is entered only when the collector returns during the
/// drain — never before the channel-closure cascade has run.
pub proof fn lemma_finished_only_after_drain(s: PipelineState, e: PipelineEvent)
    ensures
        spec_pipeline_transition(s, e) == PipelineState::Finished ==> (s == PipelineState::Finished
            || (s == PipelineState::Draining && e == PipelineEvent::CollectorDone)),
{
}

/// How one run ends.
#[derive(Clone, Copy, Debug, PartialEq, Eq, Structural)]
pub enum RunOutcome {
    /// Every discovered file was processed.
    Completed,
    /// The user asked to stop; a partial result is still a success.
    Cancelled,
}

/// Cancellation surfaces as a distinct outcome, never as an error.
pub fn run_outcome(cancelled: bool) -> (o: RunOutcome)
    ensures
        o == RunOutcome::Cancelled <==> cancelled,
{
    if cancelled {
        RunOutcome::Cancelled
    } else {
        RunOutcome::Completed
    }
}

impl RunOutcome {
    /// The message the progress display ends with.
    pub fn finish_message(&self) -> (s: &'static str)
        ensures
            *self == RunOutcome::Cancelled ==> s@ == "Search cancelled!"@,
            *self == RunOutcome::Completed ==> s@ == "All files processed!"@,
    {
        match self {
            RunOutcome::Cancelled => "Search cancelled!",
            RunOutcome::Completed => "All files processed!",
        }
    }
}

/// Relies on num_cpus::get: the number of logical processors of the running
/// machine, documented to be at least one. One worker per processor.
#[verifier::external_body]
pub fn worker_pool_size() -> (n: usize)
    ensures
        1 <= n,
{
    num_cpus::get()
}

/// The I/O limiter admits twice the worker count, independent of how many
/// workers exist; saturates instead of overflowing.
pub fn limiter_size(workers: usize) -> (n: usize)
    requires
        1 <= workers,
    ensures
        workers <= usize::MAX / 2 ==> n == 2 * workers,
        workers > usize::MAX / 2 ==> n == usize::MAX,
        1 <= n,
{
    if workers <= usize::MAX / 2 {
        2 * workers
    } else {
        usize::MAX
    }
}

/// What the collector has accumulated: the run's match total, how many files
/// matched, and their paths in arrival order.
pub struct RunTotals {
    pub total_matches: usize,
    pub files_with_matches: usize,
    pub detected_files: Vec<String>,
}

/// The sum of the match counts of a sequence of results.
pub open spec fn spec_total_matches(fms: Seq<SpecFileMatch>) -> int
    decreases fms.len(),
{
    if fms.len() == 0 {
        0
    } else {
        spec_total_matches(fms.drop_last()) + fms.last().match_count
    }
}

/// Removing one result takes exactly its match count out of the total.
proof fn lemma_total_matches_remove(fms: Seq<SpecFileMatch>, j: int)
    requires
        0 <= j < fms.len(),
    ensures
        spec_total_matches(fms) == spec_total_matches(fms.remove(j)) + fms[j].match_count,
    decreases fms.len(),
{
    if j == fms.len() - 1 {
        assert(fms.remove(j) =~= fms.drop_last());
    } else {
        lemma_total_matches_remove(fms.drop_last(), j);
        assert(fms.remove(j).drop_last() =~= fms.drop_last().remove(j));
        assert(fms.remove(j).last() == fms.last());
    }
}

/// The total of the match counts does not depend on the order in which the
/// results arrived: any two arrival orders of the same results give one
/// total.
pub proof fn lemma_total_matches_permutation(
    a: Seq<SpecFileMatch>,
    b: Seq<SpecFileMatch>,
)
    requires
        a.to_multiset() == b.to_multiset(),
    ensures
        spec_total_matches(a) == spec_total_matches(b),
    decreases a.len(),
{
    a.to_multiset_ensures();
    b.to_multiset_ensures();
    if a.len() == 0 {
        assert(b.len() == 0);
    } else {
        let x = a.last();
        assert(a.contains(x));
        assert(b.to_multiset().count(x) > 0);
        assert(b.contains(x));
        let j = choose|j: int| 0 <= j < b.len() && b[j] == x;
        assert(a.drop_last() =~= a.remove(a.len() - 1));
        assert(a.remove(a.len() - 1).to_multiset() =~= a.to_multiset().remove(x));
        assert(b.remove(j).to_multiset() =~= b.to_multiset().remove(x));
        lemma_total_matches_permutation(a.drop_last(), b.remove(j));
        lemma_total_matches_remove(b, j);
    }
}

impl RunTotals {
    /// Empty totals, before any result has arrived.
    pub fn new() -> (t: RunTotals)
        ensures
            t.total_matches == 0,
            t.files_with_matches == 0,
            t.detected_files@.len() == 0,
    {
        RunTotals { total_matches: 0, files_with_matches: 0, detected_files: Vec::new() }
    }

    /// One received result: its match count joins the total, its path joins
    /// the detected files. The collector is the sole writer of these totals.
    pub fn record(&mut self, fm: FileMatch)
        requires
            old(self).total_matches + fm.match_count <= usize::MAX,
            old(self).files_with_matches < usize::MAX,
        ensures
            final(self).total_matches == old(self).total_matches + fm.match_count,
            final(self).files_with_matches == old(self).files_with_matches + 1,
            final(self).detected_files@ == old(self).detected_files@.push(fm.path),
    {
        self.total_matches = self.total_matches + fm.match_count;
        self.files_with_matches = self.files_with_matches + 1;
        self.detected_files.push(fm.path);
    }
}

/// The two monotone progress counters: files discovered by the enumerator and
/// files completed by the workers.
pub struct Progress {
    pub discovered: u64,
    pub completed: u64,
}

/// Completion never runs ahead of discovery.
pub open spec fn wf_progress(p: Progress) -> bool {
    p.completed <= p.discovered
}

impl Progress {
    pub fn new() -> (p: Progress)
        ensures
            p.discovered == 0,
            p.completed == 0,
            wf_progress(p),
    {
        Progress { discovered: 0, completed: 0 }
    }

    /// One more file discovered; the counter only ever grows.
    pub fn inc_discovered(&mut self)
        requires
            old(self).discovered < u64::MAX,
        ensures
            final(self).discovered == old(self).discovered + 1,
            final(self).completed == old(self).completed,
            wf_progress(*old(self)) ==> wf_progress(*final(self)),
    {
        self.discovered = self.discovered + 1;
    }

    /// One more file completed; never past the discovered count.
    pub fn inc_completed(&mut self)
        requires
            old(self).completed < old(self).discovered,
        ensures
            final(self).completed == old(self).completed + 1,
            final(self).discovered == old(self).discovered,
            wf_progress(*final(self)),
    {
        self.completed = self.completed + 1;
    }
}

/// The size ceiling in bytes for a ceiling given in whole megabytes; `None`
/// when it does not fit in 64 bits.
pub fn size_limit_bytes(mb: u64) -> (r: Option<u64>)
    ensures
        r is Some <==> mb <= u64::MAX / 0x100000,
        r matches Some(b) ==> b == mb * 0x100000,
{
    if mb <= u64::MAX / 0x100000 {
        Some(mb * 0x100000)
    } else {
        None
    }
}

} // verus!
