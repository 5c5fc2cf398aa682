//! The run: commands, discovery, retries, one asset, and the workers.
use std::time::Duration;
use vstd::arithmetic::power2::{lemma2_to64, lemma_pow2_unfold, pow2};
use vstd::prelude::*;
use vstd::string::*;

use crate::clock::duration_nanos;
use crate::engine::{
    after_end, all_queued, backoff, control_after, controlled, fresh_worker, given_up, job_of,
    law_page_is_reported_then_queued_then_left, law_totals_add_up_over_pages, queue_size, run_end,
    search_steps, stage_of_immich, stage_of_llm, stop_run, totals, wanted, worker_count,
    AssetInputView, AssetJobView, AssetStepView, ControlInput, ControlStep, Discovery, Outcome,
    PhaseView, SearchInputView, SearchPhaseView, SearchStepView, SearchView, Slot, StageErrorView,
    StartReport, WorkerInputView, WorkerPhaseView, WorkerStepView, WorkerView,
};
use crate::events::{Command, Event, EventView, Stage};
use crate::immich::{AssetView, ImmichErrorView, PageView};
use crate::llm::LlmErrorView;
use crate::text::{decimal, is_white};

verus! {

// ---------------------------------------------------------------------------
// Commands
// ---------------------------------------------------------------------------

/// Whether the run is paused once this step is done.
pub open spec fn paused_after(paused: bool, step: ControlStep) -> bool {
    match step {
        ControlStep::Pause => true,
        ControlStep::Resume => false,
        ControlStep::Begin => false,
        _ => paused,
    }
}

/// The slot never says anything else than what was done to the run: it is `Paused` exactly
/// while the last of the steps that pause, resume or start a run was a pause.
pub proof fn law_slot_and_run_agree(slot: Slot, input: ControlInput)
    requires
        slot != Slot::Ending,
        !(input is Ended),
        control_after(slot, input).1 != ControlStep::Cancel,
    ensures
        control_after(slot, input).0 == Slot::Paused <==> paused_after(
            slot == Slot::Paused,
            control_after(slot, input).1,
        ),
{
}

/// A run that is there is paused and resumed on command, whether or not it is paused already
/// and whether or not it is busy. Without a run neither does anything.
pub proof fn law_pause_and_resume_reach_the_run(slot: Slot, busy: bool)
    ensures
        slot == Slot::Running || slot == Slot::Paused ==> {
            &&& controlled(slot, Command::Pause, busy) == (Slot::Paused, ControlStep::Pause)
            &&& controlled(slot, Command::Resume, busy) == (Slot::Running, ControlStep::Resume)
            &&& controlled(
                controlled(slot, Command::Pause, busy).0,
                Command::Resume,
                busy,
            ).1 == ControlStep::Resume
        },
        slot == Slot::Empty || slot == Slot::Ending ==> {
            &&& controlled(slot, Command::Pause, busy) == (slot, ControlStep::Nothing)
            &&& controlled(slot, Command::Resume, busy) == (slot, ControlStep::Nothing)
        },
{
}

/// A start begins a run where there is none, leaves a busy one alone, and has any other cancelled
/// first; its end begins the new one. A quit stops everything in every state.
pub proof fn law_start_and_quit(slot: Slot, busy: bool)
    ensures
        controlled(Slot::Empty, Command::Start, busy) == (Slot::Running, ControlStep::Begin),
        slot == Slot::Running || slot == Slot::Paused ==> {
            &&& controlled(slot, Command::Start, true) == (slot, ControlStep::Nothing)
            &&& controlled(slot, Command::Start, false) == (Slot::Ending, ControlStep::Cancel)
            &&& after_end(controlled(slot, Command::Start, false).0) == (
                Slot::Running,
                ControlStep::Begin,
            )
        },
        controlled(Slot::Ending, Command::Start, busy) == (Slot::Ending, ControlStep::Nothing),
        slot != Slot::Ending ==> after_end(slot) == (slot, ControlStep::Nothing),
        controlled(slot, Command::Quit, busy) == (slot, ControlStep::Stop),
{
}

// ---------------------------------------------------------------------------
// Discovery
// ---------------------------------------------------------------------------

/// The photos to describe are those whose description is missing or holds nothing but white
/// space, each as often as it was found and in that order.
pub proof fn law_wanted_is_a_filter(items: Seq<AssetView>)
    ensures
        wanted(items) == items.filter(
            |a: AssetView|
                a.description is None || forall|i: int|
                    0 <= i < a.description->0.len() ==> is_white(#[trigger] a.description->0[i]),
        ),
    decreases items.len(),
{
    reveal(Seq::filter);
    let missing = |a: AssetView|
        a.description is None || forall|i: int|
            0 <= i < a.description->0.len() ==> is_white(#[trigger] a.description->0[i]);
    if items.len() > 0 {
        law_wanted_is_a_filter(items.drop_last());
        let last = items.last();
        assert(missing(last) <==> last.undescribed());
    } else {
        assert(wanted(items) =~= items.filter(missing));
    }
}

/// A page that was listed adds all its items to those scanned and the wanted ones to those
/// queued, whatever was counted before, and both totals are told.
pub proof fn law_pages_are_counted(search: SearchView, page: PageView)
    requires
        search.phase is Listing,
        search.discovery.scanned + page.items.len() <= u64::MAX,
        search.discovery.queued + wanted(page.items).len() <= u64::MAX,
    ensures
        ({
            let (next, step) = search.after(SearchInputView::Listed(Ok(page)));
            &&& next.discovery.scanned == search.discovery.scanned + page.items.len()
            &&& next.discovery.queued == search.discovery.queued + wanted(page.items).len()
            &&& next.discovery.page == search.discovery.page
            &&& next.page_size == search.page_size
            &&& next.phase == SearchPhaseView::Reporting {
                found: wanted(page.items),
                next_page: page.next_page,
            }
            &&& step == SearchStepView::Tell(
                EventView::PageLoaded {
                    scanned: next.discovery.scanned,
                    queued: next.discovery.queued,
                },
            )
        }),
{
}

/// The photos of a page are queued one by one, from the first on, whatever else was counted.
pub proof fn law_found_photos_are_queued_one_by_one(
    search: SearchView,
    found: Seq<AssetView>,
    next_page: Option<u32>,
)
    requires
        found.len() > 0,
    ensures
        search.at(SearchPhaseView::Reporting { found, next_page }).after(SearchInputView::Told)
            == (
            search.at(SearchPhaseView::Queueing { rest: found.skip(1), next_page }),
            SearchStepView::Queue(found[0]),
        ),
        search.at(SearchPhaseView::Queueing { rest: found, next_page }).after(
            SearchInputView::Queued(true),
        ) == (
            search.at(SearchPhaseView::Queueing { rest: found.skip(1), next_page }),
            SearchStepView::Queue(found[0]),
        ),
{
}

/// When nothing of a page is left to queue, the next step lists page `n` exactly if the page
/// said that `n` comes next and `n` is later than the current page. Otherwise it tells the end
/// of the search. What has been counted so far makes no difference and stays.
pub proof fn law_every_later_page_is_listed(search: SearchView, next_page: Option<u32>)
    ensures
        ({
            let reported = search.at(
                SearchPhaseView::Reporting { found: seq![], next_page },
            ).after(SearchInputView::Told);
            let queued = search.at(
                SearchPhaseView::Queueing { rest: seq![], next_page },
            ).after(SearchInputView::Queued(true));
            let later = next_page is Some && next_page->0 > search.discovery.page;
            &&& reported == queued
            &&& later ==> {
                &&& reported.1 == SearchStepView::List {
                    page: next_page->0,
                    size: search.page_size,
                }
                &&& reported.0.phase is Listing
                &&& reported.0.page_size == search.page_size
                &&& reported.0.discovery == Discovery {
                    page: next_page->0,
                    scanned: search.discovery.scanned,
                    queued: search.discovery.queued,
                }
            }
            &&& !later ==> {
                &&& reported.1 == SearchStepView::Tell(
                    EventView::DiscoveryDone { total_queued: search.discovery.queued },
                )
                &&& reported.0 == search.at(SearchPhaseView::Finishing)
            }
        }),
{
}

/// A page that cannot be listed stops the run with the reason. A photo that could not be queued,
/// the last report and the stop end the search.
pub proof fn law_search_ends(
    search: SearchView,
    error: StageErrorView,
    rest: Seq<AssetView>,
    next_page: Option<u32>,
)
    ensures
        search.at(SearchPhaseView::Listing).after(SearchInputView::Listed(Err(error))) == (
            search.at(SearchPhaseView::Stopping),
            SearchStepView::StopRun(error.text()),
        ),
        search.at(SearchPhaseView::Queueing { rest, next_page }).after(
            SearchInputView::Queued(false),
        ) == (search.at(SearchPhaseView::Over), SearchStepView::End),
        search.at(SearchPhaseView::Finishing).after(SearchInputView::Told) == (
            search.at(SearchPhaseView::Over),
            SearchStepView::End,
        ),
        search.at(SearchPhaseView::Stopping).after(SearchInputView::Stopped) == (
            search.at(SearchPhaseView::Over),
            SearchStepView::End,
        ),
{
}

/// Pages that follow each other from page `first` on: each names the next, and the last none.
pub open spec fn consecutive(pages: Seq<PageView>, first: nat) -> bool {
    &&& first + pages.len() <= u32::MAX
    &&& forall|i: int|
        0 <= i < pages.len() ==> (#[trigger] pages[i]).next_page == if i + 1 < pages.len() {
            Some((first + i + 1) as u32)
        } else {
            None
        }
}

/// All items of these pages.
pub open spec fn all_items(pages: Seq<PageView>) -> Seq<AssetView>
    decreases pages.len(),
{
    if pages.len() == 0 {
        seq![]
    } else {
        pages[0].items + all_items(pages.skip(1))
    }
}

/// What a search is told that lists these pages and can queue all that it finds.
pub open spec fn library_inputs(pages: Seq<PageView>) -> Seq<SearchInputView>
    decreases pages.len(),
{
    if pages.len() == 0 {
        seq![]
    } else {
        seq![SearchInputView::Listed(Ok(pages[0])), SearchInputView::Told] + all_queued(
            wanted(pages[0].items).len(),
        ) + library_inputs(pages.skip(1))
    }
}

/// The photos that these steps queue.
pub open spec fn queued_by(steps: Seq<SearchStepView>) -> Seq<AssetView>
    decreases steps.len(),
{
    if steps.len() == 0 {
        seq![]
    } else {
        let before = queued_by(steps.drop_last());
        match steps.last() {
            SearchStepView::Queue(asset) => before.push(asset),
            _ => before,
        }
    }
}

proof fn lemma_queued_by_both(a: Seq<SearchStepView>, b: Seq<SearchStepView>)
    ensures
        queued_by(a + b) == queued_by(a) + queued_by(b),
    decreases b.len(),
{
    if b.len() == 0 {
        assert(a + b =~= a);
        assert(queued_by(a) + queued_by(b) =~= queued_by(a));
    } else {
        assert((a + b).drop_last() =~= a + b.drop_last());
        lemma_queued_by_both(a, b.drop_last());
        assert(queued_by(a + b) =~= queued_by(a) + queued_by(b));
    }
}

proof fn lemma_queued_by_queue_steps(assets: Seq<AssetView>)
    ensures
        queued_by(assets.map_values(|a: AssetView| SearchStepView::Queue(a))) == assets,
    decreases assets.len(),
{
    let steps = assets.map_values(|a: AssetView| SearchStepView::Queue(a));
    if assets.len() == 0 {
        assert(queued_by(steps) =~= assets);
    } else {
        lemma_queued_by_queue_steps(assets.drop_last());
        assert(steps.drop_last() =~= assets.drop_last().map_values(
            |a: AssetView| SearchStepView::Queue(a),
        ));
        assert(queued_by(steps) =~= assets);
    }
}

proof fn lemma_steps_of_both(
    search: SearchView,
    a: Seq<SearchInputView>,
    b: Seq<SearchInputView>,
) -> (mid: SearchView)
    ensures
        search_steps(search, a + b) == search_steps(search, a) + search_steps(mid, b),
        mid == searched(search, a),
    decreases a.len(),
{
    if a.len() == 0 {
        assert(a + b =~= b);
        assert(search_steps(search, a) + search_steps(search, b) =~= search_steps(search, b));
        search
    } else {
        let next = search.after(a[0]).0;
        let mid = lemma_steps_of_both(next, a.skip(1), b);
        assert((a + b).skip(1) =~= a.skip(1) + b);
        assert(search_steps(search, a + b) =~= search_steps(search, a) + search_steps(mid, b));
        mid
    }
}

/// The search after these inputs.
pub open spec fn searched(search: SearchView, inputs: Seq<SearchInputView>) -> SearchView
    decreases inputs.len(),
{
    if inputs.len() == 0 {
        search
    } else {
        searched(search.after(inputs[0]).0, inputs.skip(1))
    }
}

proof fn lemma_page_is_left(
    search: SearchView,
    rest: Seq<AssetView>,
    next_page: Option<u32>,
)
    ensures
        searched(
            search.at(SearchPhaseView::Queueing { rest, next_page }),
            all_queued((rest.len() + 1) as nat),
        ) == search.at(SearchPhaseView::Queueing { rest: seq![], next_page }).after(
            SearchInputView::Queued(true),
        ).0,
    decreases rest.len(),
{
    let inputs = all_queued((rest.len() + 1) as nat);
    let now = search.at(SearchPhaseView::Queueing { rest, next_page });
    assert(inputs.skip(1) =~= all_queued(rest.len()));
    if rest.len() == 0 {
        assert(rest =~= Seq::<AssetView>::empty());
        assert(searched(now, inputs) == searched(now.after(inputs[0]).0, inputs.skip(1)));
    } else {
        law_found_photos_are_queued_one_by_one(search, rest, next_page);
        lemma_page_is_left(search, rest.skip(1), next_page);
    }
}

proof fn lemma_page_done(search: SearchView, page: PageView)
    requires
        search.phase is Listing,
    ensures
        searched(
            search,
            seq![SearchInputView::Listed(Ok(page)), SearchInputView::Told] + all_queued(
                wanted(page.items).len(),
            ),
        ) == search.with_page(page.items).at(
            SearchPhaseView::Queueing { rest: seq![], next_page: page.next_page },
        ).after(SearchInputView::Queued(true)).0,
{
    let found = wanted(page.items);
    let counted = search.with_page(page.items);
    let next_page = page.next_page;
    let inputs = seq![SearchInputView::Listed(Ok(page)), SearchInputView::Told] + all_queued(
        found.len(),
    );
    let listed = search.after(inputs[0]).0;
    let told = listed.after(inputs.skip(1)[0]).0;
    assert(inputs.skip(1).skip(1) =~= all_queued(found.len()));
    assert(searched(search, inputs) == searched(listed, inputs.skip(1)));
    assert(searched(listed, inputs.skip(1)) == searched(told, all_queued(found.len())));
    if found.len() == 0 {
        assert(found =~= Seq::<AssetView>::empty());
        law_every_later_page_is_listed(counted, next_page);
        assert(searched(told, all_queued(0)) == told);
    } else {
        law_found_photos_are_queued_one_by_one(counted, found, next_page);
        lemma_page_is_left(counted, found.skip(1), next_page);
    }
}

/// Over a whole library of pages, exactly the photos without a description are queued, all of
/// them, in order, however they are spread over the pages.
pub proof fn law_whole_library_is_queued(search: SearchView, pages: Seq<PageView>)
    requires
        search.phase is Listing,
        consecutive(pages, search.discovery.page as nat),
    ensures
        queued_by(search_steps(search, library_inputs(pages))) == wanted(all_items(pages)),
    decreases pages.len(),
{
    if pages.len() == 0 {
        assert(queued_by(search_steps(search, library_inputs(pages))) =~= wanted(
            all_items(pages),
        ));
    } else {
        let page = pages[0];
        let found = wanted(page.items);
        let rest = pages.skip(1);
        let head = seq![SearchInputView::Listed(Ok(page)), SearchInputView::Told] + all_queued(
            found.len(),
        );
        let mid = lemma_steps_of_both(search, head, library_inputs(rest));
        lemma_page_done(search, page);
        law_page_is_reported_then_queued_then_left(search, page);
        let steps = search_steps(search, head);
        let queue = found.map_values(|a: AssetView| SearchStepView::Queue(a));
        let tell = seq![steps[0]];
        let last = seq![steps.last()];
        let counted = search.with_page(page.items);
        law_every_later_page_is_listed(counted, page.next_page);
        assert(steps =~= tell + queue + last);
        lemma_queued_by_both(tell + queue, last);
        lemma_queued_by_both(tell, queue);
        lemma_queued_by_queue_steps(found);
        assert(queued_by(seq![]) =~= Seq::<AssetView>::empty());
        assert(tell.drop_last() =~= Seq::<SearchStepView>::empty());
        assert(last.drop_last() =~= Seq::<SearchStepView>::empty());
        assert(queued_by(steps) =~= found);
        lemma_queued_by_both(steps, search_steps(mid, library_inputs(rest)));
        law_totals_add_up_over_pages(page.items, all_items(rest));
        if rest.len() > 0 {
            assert(pages[0].next_page is Some);
            assert forall|i: int| 0 <= i < rest.len() implies (#[trigger] rest[i]).next_page
                == if i + 1 < rest.len() {
                Some((mid.discovery.page + i + 1) as u32)
            } else {
                None
            } by {
                assert(rest[i] == pages[i + 1]);
            }
            law_whole_library_is_queued(mid, rest);
        } else {
            assert(search_steps(mid, library_inputs(rest)) =~= Seq::<SearchStepView>::empty());
            assert(wanted(all_items(rest)) =~= Seq::<AssetView>::empty());
        }
        assert(queued_by(search_steps(search, library_inputs(pages))) =~= found + wanted(
            all_items(rest),
        ));
    }
}

// ---------------------------------------------------------------------------
// Retries and failures
// ---------------------------------------------------------------------------

/// The first wait is the base, each further one is twice the one before, and there is one fewer
/// than attempts. Only a passing failure is waited for.
pub proof fn law_waits_start_at_the_base_and_double(
    attempt: nat,
    attempts: nat,
    base: nat,
    message: Seq<char>,
)
    requires
        1 <= attempt <= attempts,
    ensures
        attempts > 1 ==> backoff(1, attempts, base, StageErrorView::Transient(message)) == Some(
            base,
        ),
        attempt + 1 < attempts ==> {
            let wait = backoff(attempt, attempts, base, StageErrorView::Transient(message));
            &&& wait is Some
            &&& backoff(attempt + 1, attempts, base, StageErrorView::Transient(message)) == Some(
                2 * wait->0,
            )
        },
        backoff(attempts, attempts, base, StageErrorView::Transient(message)) is None,
        backoff(attempt, attempts, base, StageErrorView::Permanent(message)) is None,
        backoff(attempt, attempts, base, StageErrorView::Fatal(message)) is None,
        backoff(attempt, attempts, base, StageErrorView::Cancelled) is None,
{
    lemma2_to64();
    assert(base * pow2(0) == base) by (nonlinear_arith)
        requires
            pow2(0) == 1,
    ;
    lemma_pow2_unfold(attempt);
    let p = pow2((attempt - 1) as nat);
    assert(base * (2 * p) == 2 * (base * p)) by (nonlinear_arith);
}

/// A passing failure that was given up says how often it was tried; any other stays as it is.
/// No failure changes its kind.
pub proof fn law_given_up_failures_count_the_tries(attempts: nat, message: Seq<char>)
    ensures
        given_up(attempts, StageErrorView::Transient(message)) == StageErrorView::Transient(
            message + " ("@ + decimal(attempts) + " tries)"@,
        ),
        given_up(attempts, StageErrorView::Permanent(message)) == StageErrorView::Permanent(
            message,
        ),
        given_up(attempts, StageErrorView::Fatal(message)) == StageErrorView::Fatal(message),
        given_up(attempts, StageErrorView::Cancelled) == StageErrorView::Cancelled,
{
}

/// A failure of a server keeps its kind, and its message names the server.
pub proof fn law_failures_keep_their_kind(message: Seq<char>)
    ensures
        stage_of_immich(ImmichErrorView::Transient(message)) == StageErrorView::Transient(
            "immich: "@ + message,
        ),
        stage_of_immich(ImmichErrorView::Permanent(message)) == StageErrorView::Permanent(
            "immich: "@ + message,
        ),
        stage_of_immich(ImmichErrorView::Fatal(message)) == StageErrorView::Fatal(
            "immich: "@ + message,
        ),
        stage_of_llm(LlmErrorView::Transient(message)) == StageErrorView::Transient(
            "llm: "@ + message,
        ),
        stage_of_llm(LlmErrorView::Permanent(message)) == StageErrorView::Permanent(
            "llm: "@ + message,
        ),
        stage_of_llm(LlmErrorView::Fatal(message)) == StageErrorView::Fatal("llm: "@ + message),
        StageErrorView::Transient(message).text() == message,
        StageErrorView::Permanent(message).text() == message,
        StageErrorView::Fatal(message).text() == message,
        StageErrorView::Cancelled.text() == "cancelled"@,
{
}

// ---------------------------------------------------------------------------
// One asset
// ---------------------------------------------------------------------------

/// The input says that the call of this phase failed, with this error.
pub open spec fn call_failed(
    phase: PhaseView,
    input: AssetInputView,
    error: StageErrorView,
) -> bool {
    ||| phase is Fetching && input == AssetInputView::Fetched(Err(error))
    ||| phase is Calling && input == AssetInputView::Described(Err(error))
    ||| phase is Writing && input == AssetInputView::Written(Err(error))
}

/// Whichever of the three calls fails: a fatal failure stops the run with its message, even in
/// a run that is being cancelled. Any other failure of a run that is not cancelled is reported
/// for this asset, which then counts as failed. After a cancel it is only the cancel.
pub proof fn law_every_failed_call_is_answered(
    job: AssetJobView,
    input: AssetInputView,
    error: StageErrorView,
    cancelled: bool,
    now: int,
)
    requires
        call_failed(job.phase, input, error),
    ensures
        ({
            let (next, step) = job.after(input, cancelled, now);
            &&& next.id == job.id && next.name == job.name && next.started == job.started
            &&& error matches StageErrorView::Fatal(message) ==> {
                &&& step == AssetStepView::StopRun(message)
                &&& next.phase is Stopping
            }
            &&& (error is Transient || error is Permanent) && !cancelled ==> {
                &&& step == AssetStepView::Report(
                    EventView::AssetFailed {
                        id: job.id,
                        name: job.name,
                        error: match error {
                            StageErrorView::Transient(message) => message,
                            StageErrorView::Permanent(message) => message,
                            _ => seq![],
                        },
                    },
                )
                &&& next.phase == PhaseView::Reporting(Outcome::Failed)
            }
            &&& error is Cancelled || (cancelled && !(error is Fatal)) ==> {
                &&& step == AssetStepView::End(Outcome::Cancelled)
                &&& next.phase is Over
            }
        }),
{
}

/// The time since an instant; a clock that went back counts as no time.
pub open spec fn time_since(start: int, now: int) -> nat {
    if now > start {
        (now - start) as nat
    } else {
        0
    }
}

/// A step that went well leads to the next one whether or not the run is being cancelled: that
/// is noticed where a stage is announced. The times are those of the steps.
pub proof fn law_every_success_moves_on(
    job: AssetJobView,
    jpeg: Seq<u8>,
    text: Seq<char>,
    llm_started: int,
    llm_took: nat,
    cancelled: bool,
    now: int,
)
    ensures
        job.at(PhaseView::AnnouncingFetch).after(
            AssetInputView::Announced(true),
            cancelled,
            now,
        ) == (job.at(PhaseView::Fetching), AssetStepView::Fetch { id: job.id }),
        job.at(PhaseView::Fetching).after(AssetInputView::Fetched(Ok(jpeg)), cancelled, now) == (
            job.at(PhaseView::AnnouncingCall { jpeg }),
            AssetStepView::Announce { id: job.id, stage: Stage::CallingLlm },
        ),
        job.at(PhaseView::AnnouncingCall { jpeg }).after(
            AssetInputView::Announced(true),
            cancelled,
            now,
        ) == (
            job.at(PhaseView::Calling { llm_started: now }),
            AssetStepView::Describe { jpeg, prompt: job.prompt },
        ),
        !job.dry_run ==> job.at(PhaseView::Calling { llm_started }).after(
            AssetInputView::Described(Ok(text)),
            cancelled,
            now,
        ) == (
            job.at(PhaseView::AnnouncingWrite { text, llm_took: time_since(llm_started, now) }),
            AssetStepView::Announce { id: job.id, stage: Stage::Writing },
        ),
        job.at(PhaseView::AnnouncingWrite { text, llm_took }).after(
            AssetInputView::Announced(true),
            cancelled,
            now,
        ) == (
            job.at(PhaseView::Writing { text, llm_took }),
            AssetStepView::Write { id: job.id, text },
        ),
{
}

/// The last call of an asset, which is the write, or the description in a dry run, reports it as
/// done with the description and both times, unless the run is cancelled.
pub proof fn law_last_success_reports_the_asset_done(
    job: AssetJobView,
    text: Seq<char>,
    llm_started: int,
    llm_took: nat,
    now: int,
)
    ensures
        job.at(PhaseView::Writing { text, llm_took }).after(
            AssetInputView::Written(Ok(())),
            false,
            now,
        ) == (
            job.at(PhaseView::Reporting(Outcome::Done)),
            AssetStepView::Report(
                EventView::AssetDone {
                    id: job.id,
                    name: job.name,
                    description: text,
                    took: time_since(job.started, now),
                    llm_took,
                },
            ),
        ),
        job.dry_run ==> job.at(PhaseView::Calling { llm_started }).after(
            AssetInputView::Described(Ok(text)),
            false,
            now,
        ) == (
            job.at(PhaseView::Reporting(Outcome::Done)),
            AssetStepView::Report(
                EventView::AssetDone {
                    id: job.id,
                    name: job.name,
                    description: text,
                    took: time_since(job.started, now),
                    llm_took: time_since(llm_started, now),
                },
            ),
        ),
        job.at(PhaseView::Writing { text, llm_took }).after(
            AssetInputView::Written(Ok(())),
            true,
            now,
        ) == (job.at(PhaseView::Over), AssetStepView::End(Outcome::Cancelled)),
        job.dry_run ==> job.at(PhaseView::Calling { llm_started }).after(
            AssetInputView::Described(Ok(text)),
            true,
            now,
        ) == (job.at(PhaseView::Over), AssetStepView::End(Outcome::Cancelled)),
{
}

/// A stage that could not be announced ends the work as cancelled, and so does a stop of the
/// run. A report ends it with the outcome that was reported. That holds cancelled or not.
pub proof fn law_ends_of_an_asset(
    job: AssetJobView,
    outcome: Outcome,
    cancelled: bool,
    now: int,
)
    ensures
        job.phase is AnnouncingFetch || job.phase is AnnouncingCall || job.phase is AnnouncingWrite
            ==> job.after(AssetInputView::Announced(false), cancelled, now) == (
            job.at(PhaseView::Over),
            AssetStepView::End(Outcome::Cancelled),
        ),
        job.at(PhaseView::Reporting(outcome)).after(
            AssetInputView::Reported,
            cancelled,
            now,
        ) == (job.at(PhaseView::Over), AssetStepView::End(outcome)),
        job.phase is Stopping ==> job.after(AssetInputView::Stopped, cancelled, now) == (
            job.at(PhaseView::Over),
            AssetStepView::End(Outcome::Cancelled),
        ),
{
}

/// A job starts with the id and name of its asset, the prompt and the time. It first announces
/// the fetch; in a cancelled run it ends at once.
pub proof fn law_jobs_begin_with_their_asset(
    asset: AssetView,
    prompt: Seq<char>,
    dry_run: bool,
    now: int,
)
    ensures
        ({
            let job = job_of(asset, prompt, dry_run, now);
            &&& job.id == asset.id && job.name == asset.name && job.prompt == prompt
            &&& job.dry_run == dry_run && job.started == now && job.phase is AnnouncingFetch
            &&& job.begun(false) == (
                job,
                AssetStepView::Announce { id: asset.id, stage: Stage::Fetching },
            )
            &&& job.begun(true).1 == AssetStepView::End(Outcome::Cancelled)
        }),
{
}

/// Only a write that is under way is left to end when the run is cancelled.
pub proof fn law_only_writes_are_left_to_end(step: AssetStepView)
    ensures
        step.can_interrupt() <==> !(step is Write),
{
}

// ---------------------------------------------------------------------------
// Workers
// ---------------------------------------------------------------------------

/// A worker looks for a pause first. Then it checks the asset in its hand, or takes the next
/// from the queue and checks that.
pub proof fn law_workers_check_before_they_start(
    worker: WorkerView,
    asset: AssetView,
)
    ensures
        worker.phase is Waiting && worker.pending == Some(asset) ==> {
            let (next, step) = worker.after(WorkerInputView::Resumed(true));
            &&& next.phase == WorkerPhaseView::Checking(asset) && next.pending is None
            &&& next.done == worker.done && next.failed == worker.failed
            &&& step is Check
        },
        worker.phase is Waiting && worker.pending is None ==> {
            let (next, step) = worker.after(WorkerInputView::Resumed(true));
            &&& next.phase is Receiving && next.pending is None
            &&& next.done == worker.done && next.failed == worker.failed
            &&& step is Receive
        },
        worker.at(WorkerPhaseView::Receiving).after(
            WorkerInputView::Received(Some(asset)),
        ) == (worker.at(WorkerPhaseView::Checking(asset)), WorkerStepView::Check),
        worker.at(WorkerPhaseView::Checking(asset)).after(
            (WorkerInputView::Checked { cancelled: false, paused: false }),
        ) == (
            worker.at(WorkerPhaseView::Starting(asset)),
            WorkerStepView::Start((EventView::AssetStarted { id: asset.id, name: asset.name })),
        ),
        worker.at(WorkerPhaseView::Starting(asset)).after(
            WorkerInputView::Started(StartReport::Told),
        ) == (worker.at(WorkerPhaseView::Processing), WorkerStepView::Process(asset)),
{
}

/// A pause, seen before an asset is started or while its start is told, puts the asset back in
/// hand, and the worker waits.
pub proof fn law_paused_workers_keep_their_asset(worker: WorkerView, asset: AssetView)
    ensures
        worker.phase == WorkerPhaseView::Checking(asset) ==> {
            let (next, step) = worker.after(
                (WorkerInputView::Checked { cancelled: false, paused: true }),
            );
            &&& next.phase is Waiting && next.pending == Some(asset)
            &&& next.done == worker.done && next.failed == worker.failed
            &&& step is WaitForResume
        },
        worker.phase == WorkerPhaseView::Starting(asset) ==> {
            let (next, step) = worker.after(WorkerInputView::Started(StartReport::Paused));
            &&& next.phase is Waiting && next.pending == Some(asset)
            &&& next.done == worker.done && next.failed == worker.failed
            &&& step is WaitForResume
        },
{
}

/// An asset that is done or failed is counted as that, once, and the worker goes on with the
/// next, after a failure too.
pub proof fn law_workers_go_on_after_every_asset(worker: WorkerView)
    requires
        worker.phase is Processing,
    ensures
        ({
            let (next, step) = worker.after(WorkerInputView::Processed(Outcome::Done));
            &&& next.done == worker.done + 1 && next.failed == worker.failed
            &&& next.pending == worker.pending && next.phase is Waiting
            &&& step is WaitForResume
        }),
        ({
            let (next, step) = worker.after(WorkerInputView::Processed(Outcome::Failed));
            &&& next.done == worker.done && next.failed == worker.failed + 1
            &&& next.pending == worker.pending && next.phase is Waiting
            &&& step is WaitForResume
        }),
{
}

/// A worker stops when the run is cancelled, when its start is refused, and at the end of the
/// queue, and at no other time. What it counted stays.
pub proof fn law_workers_stop_only_at_the_end(worker: WorkerView, input: WorkerInputView)
    requires
        worker.expects(input),
    ensures
        worker.after(input).1 is Stop <==> {
            ||| input == WorkerInputView::Resumed(false)
            ||| input == WorkerInputView::Received(None)
            ||| input matches WorkerInputView::Checked { cancelled, .. } && cancelled
            ||| input == WorkerInputView::Started(StartReport::Refused)
            ||| input == WorkerInputView::Processed(Outcome::Cancelled)
        },
        worker.after(input).1 is Stop ==> {
            &&& worker.after(input).0.phase is Stopped
            &&& worker.after(input).0.done == worker.done
            &&& worker.after(input).0.failed == worker.failed
            &&& worker.after(input).0.pending == worker.pending
        },
        fresh_worker().phase is Waiting && fresh_worker().pending is None,
        fresh_worker().done == 0 && fresh_worker().failed == 0,
{
}

// ---------------------------------------------------------------------------
// Runs
// ---------------------------------------------------------------------------

/// A run has as many workers as asked for, and one where none is asked for.
pub proof fn law_runs_have_a_worker(workers: usize, r: usize)
    requires
        call_ensures(worker_count, (workers,), r),
    ensures
        r >= 1,
        workers >= 1 ==> r == workers,
        workers == 0 ==> r == 1,
{
}

/// The queue holds four assets for each worker.
pub proof fn law_queue_holds_four_for_each(workers: usize, r: usize)
    requires
        call_ensures(queue_size, (workers,), r),
    ensures
        r == workers + workers + workers + workers,
{
}

/// A run that was not cancelled reports its end with these numbers, and a cancelled one does
/// not report it.
pub proof fn law_only_whole_runs_report_their_end(
    cancelled: bool,
    done: u64,
    failed: u64,
    elapsed: Duration,
    r: Option<Event>,
)
    requires
        call_ensures(run_end, (cancelled, done, failed, elapsed), r),
    ensures
        r is None <==> cancelled,
        r matches Some(event) ==> event@ == (EventView::RunFinished {
            done,
            failed,
            elapsed: duration_nanos(elapsed),
        }),
{
}

/// A run is stopped for one reason: the first is told, and later ones are not.
pub proof fn law_runs_stop_for_one_reason(cancelled: bool, message: String, r: Option<Event>)
    requires
        call_ensures(stop_run, (cancelled, message), r),
    ensures
        r is None <==> cancelled,
        r matches Some(event) ==> event@ == (EventView::Fatal { error: message@ }),
{
}

/// The totals of a run are the sums over its workers: one more worker adds what it counted.
pub proof fn law_totals_are_sums(counts: Seq<(u64, u64)>, done: u64, failed: u64)
    ensures
        totals(seq![]) == (0nat, 0nat),
        totals(counts.push((done, failed))).0 == totals(counts).0 + done,
        totals(counts.push((done, failed))).1 == totals(counts).1 + failed,
{
    assert(counts.push((done, failed)).drop_last() =~= counts);
}

} // verus!
