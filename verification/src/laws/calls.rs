//! The run, call by call: what the functions of its machines return and leave behind.
use std::time::{Duration, Instant};
use vstd::arithmetic::power2::{lemma2_to64, lemma_pow2_unfold, pow2};
use vstd::prelude::*;
use vstd::string::*;

use crate::clock::{duration_nanos, instant_nanos};
use crate::engine::{
    tally, wanted, AssetInput, AssetJob, AssetJobView, AssetStep, AssetStepView, Attempted,
    ControlStep, Discovery, EngineError, EngineOptions, Outcome, PhaseView, Retry, Search,
    SearchInput, SearchInputView, SearchPhaseView, SearchStep, SearchStepView, SearchView, Slot,
    StageError, StageErrorView, Worker, WorkerPhaseView, WorkerStep, WorkerView,
};
use crate::events::{Command, Event, EventView, Stage};
use crate::immich::{asset_views, Asset, ImmichError};
use crate::laws::control::call_failed;
use crate::llm::LlmError;
use crate::text::decimal;

verus! {

// ---------------------------------------------------------------------------
// Commands
// ---------------------------------------------------------------------------

/// A pause and a resume reach a run that is there, paused or not and busy or not, and do nothing
/// without one.
pub proof fn law_a_pause_or_resume_is_done(
    slot: &mut Slot,
    command: Command,
    active: bool,
    cancelled: bool,
    r: ControlStep,
)
    requires
        call_ensures(Slot::take, (slot, command, active, cancelled), r),
    ensures
        *old(slot) == Slot::Running || *old(slot) == Slot::Paused ==> {
            &&& command == Command::Pause ==> r == ControlStep::Pause && *final(slot)
                == Slot::Paused
            &&& command == Command::Resume ==> r == ControlStep::Resume && *final(slot)
                == Slot::Running
        },
        (*old(slot) == Slot::Empty || *old(slot) == Slot::Ending) && (command == Command::Pause
            || command == Command::Resume) ==> r == ControlStep::Nothing && *final(slot) == *old(
            slot,
        ),
{
}

/// A start begins a run where there is none. One that is at work and not cancelled goes on, and
/// any other is cancelled so that its end begins the new one. A quit stops, whatever is there.
pub proof fn law_a_start_or_quit_is_done(
    slot: &mut Slot,
    command: Command,
    active: bool,
    cancelled: bool,
    r: ControlStep,
)
    requires
        call_ensures(Slot::take, (slot, command, active, cancelled), r),
    ensures
        command == Command::Start ==> {
            let there = *old(slot) == Slot::Running || *old(slot) == Slot::Paused;
            &&& *old(slot) == Slot::Empty ==> r == ControlStep::Begin && *final(slot)
                == Slot::Running
            &&& there && active && !cancelled ==> r == ControlStep::Nothing && *final(slot)
                == *old(slot)
            &&& there && (!active || cancelled) ==> r == ControlStep::Cancel && *final(slot)
                == Slot::Ending
            &&& *old(slot) == Slot::Ending ==> r == ControlStep::Nothing && *final(slot)
                == Slot::Ending
        },
        command == Command::Quit ==> r == ControlStep::Stop && *final(slot) == *old(slot),
{
}

/// The end of a cancelled run begins the next, and no other end does anything.
pub proof fn law_an_awaited_end_begins_the_next_run(slot: &mut Slot, r: ControlStep)
    requires
        call_ensures(Slot::ended, (slot,), r),
    ensures
        *old(slot) == Slot::Ending ==> r == ControlStep::Begin && *final(slot) == Slot::Running,
        *old(slot) != Slot::Ending ==> r == ControlStep::Nothing && *final(slot) == *old(slot),
{
}

// ---------------------------------------------------------------------------
// Discovery
// ---------------------------------------------------------------------------

/// A search counts from nothing and from the first page on.
pub proof fn law_searches_start_at_page_one(
    page_size: u32,
    counts: Discovery,
    r: (Search, SearchStep),
)
    requires
        call_ensures(Discovery::new, (), counts),
        call_ensures(Search::begin, (page_size,), r),
    ensures
        counts.page == 1 && counts.scanned == 0 && counts.queued == 0,
        r.0@.discovery.page == 1 && r.0@.discovery.scanned == 0 && r.0@.discovery.queued == 0,
        r.0@.page_size == page_size && r.0@.phase is Listing,
        r.1@ == (SearchStepView::List { page: 1, size: page_size }),
{
}

/// A page is counted whole, and of its items those are handed on that need a description.
pub proof fn law_a_page_is_taken_in(
    counts: &mut Discovery,
    items: Vec<Asset>,
    r: (Vec<Asset>, Event),
)
    requires
        call_ensures(Discovery::take_page, (counts, items), r),
    ensures
        asset_views(r.0@) == wanted(asset_views(items@)),
        final(counts).scanned == old(counts).scanned + items@.len(),
        final(counts).queued == old(counts).queued + r.0@.len(),
        final(counts).page == old(counts).page,
        r.1@ == (EventView::PageLoaded {
            scanned: final(counts).scanned,
            queued: final(counts).queued,
        }),
{
}

/// A later page is followed, whatever was counted; no page or an earlier one ends the search. The
/// counts stay, and the end tells how many were queued.
pub proof fn law_a_later_page_is_followed(
    counts: &mut Discovery,
    next_page: Option<u32>,
    r: bool,
    seen: &Discovery,
    end: Event,
)
    requires
        call_ensures(Discovery::follow, (counts, next_page), r),
        call_ensures(Discovery::finished, (seen,), end),
    ensures
        r <==> next_page is Some && next_page->0 > old(counts).page,
        r ==> final(counts).page == next_page->0,
        !r ==> final(counts).page == old(counts).page,
        final(counts).scanned == old(counts).scanned,
        final(counts).queued == old(counts).queued,
        end@ == (EventView::DiscoveryDone { total_queued: seen.queued }),
{
}

/// With the last photo of a page queued, a search goes on to a later page, whatever it counted,
/// and otherwise tells its end.
pub proof fn law_a_search_goes_on_while_pages_follow(
    search: Search,
    input: SearchInput,
    next_page: Option<u32>,
    r: (Search, SearchStep),
)
    requires
        call_ensures(Search::advance, (search, input), r),
        search@.phase == (SearchPhaseView::Queueing { rest: seq![], next_page }),
        input@ == SearchInputView::Queued(true),
    ensures
        next_page is Some && next_page->0 > search@.discovery.page ==> r.1@ == (
        SearchStepView::List { page: next_page->0, size: search@.page_size }),
        next_page is None || next_page->0 <= search@.discovery.page ==> r.1@
            == SearchStepView::Tell(
            EventView::DiscoveryDone { total_queued: search@.discovery.queued },
        ),
{
}

// ---------------------------------------------------------------------------
// Retries
// ---------------------------------------------------------------------------

/// A call has one attempt more than it has retries; the waits start at two seconds if nothing
/// else is said.
pub proof fn law_attempts_are_one_more_than_retries(
    retries: u32,
    base: Duration,
    r: Retry,
    options: EngineOptions,
)
    requires
        call_ensures(Retry::new, (retries, base), r),
        call_ensures(EngineOptions::default, (), options),
    ensures
        r.attempt == 1,
        r.attempts == retries + 1,
        r.backoff_base == base,
        duration_nanos(options.backoff_base) == 2_000_000_000,
{
}

/// A cancelled run makes no further attempt; any other does.
pub proof fn law_cancelled_calls_are_over(retry: &Retry, cancelled: bool, r: Attempted<Vec<u8>>)
    requires
        call_ensures(Retry::proceed::<Vec<u8>>, (retry, cancelled), r),
    ensures
        cancelled ==> r == Attempted::<Vec<u8>>::Return(Err(StageError::Cancelled)),
        !cancelled ==> r is Call,
{
}

/// A result is returned as it is. A passing failure is tried again while there are attempts, and
/// when there are none left it says how many there were. Any other failure is returned at once.
pub proof fn law_only_passing_failures_are_tried_again(
    retry: &mut Retry,
    result: Result<Vec<u8>, StageError>,
    r: Attempted<Vec<u8>>,
)
    requires
        call_ensures(Retry::settle::<Vec<u8>>, (retry, result), r),
        old(retry).wf(),
    ensures
        final(retry).attempts == old(retry).attempts,
        final(retry).backoff_base == old(retry).backoff_base,
        r is Sleep <==> (result matches Err(error) && error is Transient && old(retry).attempt
            < old(retry).attempts),
        r is Sleep ==> final(retry).attempt == old(retry).attempt + 1,
        !(r is Sleep) ==> final(retry).attempt == old(retry).attempt && r is Return,
        result matches Ok(value) ==> r == Attempted::Return(Ok::<Vec<u8>, StageError>(value)),
        result matches Err(error) ==> (r matches Attempted::Return(Err(left)) ==> match error@ {
            StageErrorView::Transient(message) => left@ == StageErrorView::Transient(
                message + " ("@ + decimal(old(retry).attempts as nat) + " tries)"@,
            ),
            other => left@ == other,
        }),
        !(r matches Attempted::Return(Err(_)) && result is Ok),
{
}

/// The first wait is the base, and a wait after one more attempt is twice as long.
pub proof fn law_waits_double(
    first: &mut Retry,
    second: &mut Retry,
    result: Result<Vec<u8>, StageError>,
    again: Result<Vec<u8>, StageError>,
    wait: Duration,
    next: Duration,
)
    requires
        old(first).wf() && old(second).wf(),
        call_ensures(Retry::settle::<Vec<u8>>, (first, result), Attempted::Sleep(wait)),
        call_ensures(Retry::settle::<Vec<u8>>, (second, again), Attempted::Sleep(next)),
        *old(second) == *final(first),
    ensures
        old(first).attempt == 1 ==> duration_nanos(wait) == duration_nanos(old(first).backoff_base),
        duration_nanos(next) == 2 * duration_nanos(wait),
{
    let base = duration_nanos(old(first).backoff_base);
    let attempt = old(first).attempt as nat;
    lemma2_to64();
    assert(base * pow2(0) == base) by (nonlinear_arith)
        requires
            pow2(0) == 1,
    ;
    lemma_pow2_unfold(attempt);
    let p = pow2((attempt - 1) as nat);
    assert(base * (2 * p) == 2 * (base * p)) by (nonlinear_arith);
}

/// A failure of a server keeps its kind on its way to the asset, and its text names the server.
pub proof fn law_server_failures_keep_their_kind(
    immich: ImmichError,
    llm: LlmError,
    a: StageError,
    b: StageError,
)
    requires
        call_ensures(StageError::from_immich, (immich,), a),
        call_ensures(StageError::from_llm, (llm,), b),
    ensures
        match immich {
            ImmichError::Transient(message) => a@ == StageErrorView::Transient(
                "immich: "@ + message@,
            ),
            ImmichError::Permanent(message) => a@ == StageErrorView::Permanent(
                "immich: "@ + message@,
            ),
            ImmichError::Fatal(message) => a@ == StageErrorView::Fatal("immich: "@ + message@),
        },
        match llm {
            LlmError::Transient(message) => b@ == StageErrorView::Transient("llm: "@ + message@),
            LlmError::Permanent(message) => b@ == StageErrorView::Permanent("llm: "@ + message@),
            LlmError::Fatal(message) => b@ == StageErrorView::Fatal("llm: "@ + message@),
        },
{
}

/// What is shown of a failed setup is the text of the failure.
pub proof fn law_failed_setups_tell_why(error: &EngineError, r: String)
    requires
        call_ensures(EngineError::to_string, (error,), r),
    ensures
        *error matches EngineError::Immich(e) ==> r@ == e@.text(),
        *error matches EngineError::Llm(e) ==> r@ == e@.text(),
{
}

// ---------------------------------------------------------------------------
// One asset
// ---------------------------------------------------------------------------

/// Whichever call of an asset failed, the next step is: to stop the run with the message of a
/// fatal failure, or else, unless the run is cancelled, to report this asset, by its id and name,
/// with the text of the failure.
pub proof fn law_a_failed_call_is_answered(
    job: AssetJob,
    input: AssetInput,
    error: StageErrorView,
    cancelled: bool,
    now: Instant,
    r: (AssetJob, AssetStep),
)
    requires
        call_ensures(AssetJob::advance, (job, input, cancelled, now), r),
        call_failed(job@.phase, input@, error),
    ensures
        error matches StageErrorView::Fatal(message) ==> r.1@ == AssetStepView::StopRun(message),
        error matches StageErrorView::Permanent(message) ==> !cancelled ==> {
            &&& r.1@ == AssetStepView::Report(
                EventView::AssetFailed { id: job@.id, name: job@.name, error: message },
            )
            &&& r.0@.phase == PhaseView::Reporting(Outcome::Failed)
        },
        error matches StageErrorView::Transient(message) ==> !cancelled ==> {
            &&& r.1@ == AssetStepView::Report(
                EventView::AssetFailed { id: job@.id, name: job@.name, error: message },
            )
            &&& r.0@.phase == PhaseView::Reporting(Outcome::Failed)
        },
        !(error is Fatal) && (cancelled || error is Cancelled) ==> r.1@ == AssetStepView::End(
            Outcome::Cancelled,
        ),
{
}

/// An asset is taken on under its id and name, with the prompt, from now on. The first step tells
/// that it is fetched; in a cancelled run nothing is done.
pub proof fn law_an_asset_is_taken_on(
    asset: &Asset,
    prompt: &str,
    dry_run: bool,
    cancelled: bool,
    now: Instant,
    r: (AssetJob, AssetStep),
)
    requires
        call_ensures(AssetJob::begin, (asset, prompt, dry_run, cancelled, now), r),
    ensures
        r.0@.id == asset.id@ && r.0@.name == asset.name@ && r.0@.prompt == prompt@,
        r.0@.dry_run == dry_run && r.0@.started == instant_nanos(now),
        cancelled ==> r.1@ == AssetStepView::End(Outcome::Cancelled),
        !cancelled ==> r.1@ == (AssetStepView::Announce { id: asset.id@, stage: Stage::Fetching }),
{
}

/// A step may be dropped by a cancel exactly if it is not a write.
pub proof fn law_a_write_is_never_dropped(step: &AssetStep, r: bool)
    requires
        call_ensures(AssetStep::interruptible, (step,), r),
    ensures
        r <==> !(step@ is Write),
{
}

/// A new worker has done nothing, holds nothing and looks for a pause first.
pub proof fn law_a_new_worker_has_done_nothing(r: (Worker, WorkerStep))
    requires
        call_ensures(Worker::begin, (), r),
    ensures
        r.0@.done == 0 && r.0@.failed == 0 && r.0@.pending is None,
        r.0@.phase is Waiting,
        r.1@ is WaitForResume,
{
}

/// A phase is only a phase: setting it changes nothing else.
pub proof fn law_phases_are_only_phases(
    job: AssetJobView,
    phase: PhaseView,
    worker: WorkerView,
    work: WorkerPhaseView,
    search: SearchView,
    stage: SearchPhaseView,
)
    ensures
        job.at(phase).phase == phase,
        (AssetJobView { phase: job.phase, ..job.at(phase) }) == job,
        worker.at(work).phase == work,
        (WorkerView { phase: worker.phase, ..worker.at(work) }) == worker,
        search.at(stage).phase == stage,
        (SearchView { phase: search.phase, ..search.at(stage) }) == search,
{
}

/// The numbers of a run are the sums of those of its workers: each worker adds its own.
pub proof fn law_tallies_are_sums(
    counts: &Vec<(u64, u64)>,
    fewer: &Vec<(u64, u64)>,
    r: (u64, u64),
    before: (u64, u64),
)
    requires
        call_ensures(tally, (counts,), r),
        call_ensures(tally, (fewer,), before),
        counts@.len() > 0,
        fewer@ == counts@.drop_last(),
    ensures
        r.0 == before.0 + counts@.last().0,
        r.1 == before.1 + counts@.last().1,
{
}

} // verus!
