use std::time::{Duration, Instant};

use immich_alt_text::engine::{
    queue_size, run_end, stop_run, tally, worker_count, AssetInput, AssetJob, AssetStep,
    Attempted, ControlStep, Discovery, EngineError, EngineOptions, Outcome, Retry, Search,
    SearchInput, SearchStep, Slot, StageError, StartReport, Worker, WorkerInput, WorkerStep,
};
use immich_alt_text::events::{Command, Event, Stage};
use immich_alt_text::immich::{Asset, ImmichError, Page};
use immich_alt_text::llm::LlmError;

fn asset(id: &str, description: Option<&str>) -> Asset {
    Asset {
        id: id.into(),
        name: format!("IMG_{id}.HEIC"),
        description: description.map(|d| d.to_string()),
    }
}

fn fast() -> EngineOptions {
    EngineOptions {
        backoff_base: Duration::from_millis(1),
    }
}

/// Drives an asset through its machine. `fetch`, `describe` and `write` give the results of the
/// three calls, each with its retries. Returns what happened, in words, and the outcome.
fn process(
    dry_run: bool,
    retries: u32,
    mut fetch: impl FnMut() -> Result<(), StageError>,
    mut describe: impl FnMut() -> Result<String, StageError>,
    mut write: impl FnMut() -> Result<(), StageError>,
) -> (Vec<String>, Outcome) {
    let mut seen = Vec::new();
    let (mut job, mut step) =
        AssetJob::begin(&asset("a1", None), "what is it?", dry_run, false, Instant::now());
    loop {
        assert_eq!(step.interruptible(), !matches!(step, AssetStep::Write { .. }));
        let input = match step {
            AssetStep::Announce { id, stage } => {
                assert_eq!(id, "a1");
                seen.push(stage.label().to_string());
                AssetInput::Announced(true)
            }
            AssetStep::Fetch { id } => {
                assert_eq!(id, "a1");
                AssetInput::Fetched(retried(retries, &mut fetch).map(|()| vec![0xff, 0xd8, 7]))
            }
            AssetStep::Describe { jpeg, prompt } => {
                assert_eq!(jpeg, vec![0xff, 0xd8, 7], "the preview that was fetched");
                assert_eq!(prompt, "what is it?");
                AssetInput::Described(retried(retries, &mut describe))
            }
            AssetStep::Write { id, text } => {
                assert_eq!(id, "a1");
                seen.push(format!("write {text}"));
                AssetInput::Written(retried(retries, &mut write))
            }
            AssetStep::Report(event) => {
                seen.push(match event {
                    Event::AssetDone { description, .. } => format!("done {description}"),
                    Event::AssetFailed { error, .. } => format!("failed {error}"),
                    other => panic!("{other:?}"),
                });
                AssetInput::Reported
            }
            AssetStep::StopRun(message) => {
                seen.push(format!("stop {message}"));
                AssetInput::Stopped
            }
            AssetStep::End(outcome) => return (seen, outcome),
        };
        (job, step) = job.advance(input, false, Instant::now());
    }
}

fn retried<T>(
    retries: u32,
    call: &mut impl FnMut() -> Result<T, StageError>,
) -> Result<T, StageError> {
    let mut retry = Retry::new(retries, fast().backoff_base);
    loop {
        match retry.settle(call()) {
            Attempted::Return(result) => return result,
            Attempted::Call | Attempted::Sleep(_) => {}
        }
    }
}

#[test]
fn an_asset_goes_through_its_stages_in_order() {
    let (seen, outcome) = process(false, 3, || Ok(()), || Ok("x".into()), || Ok(()));
    assert_eq!(
        seen,
        vec!["fetching", "calling llm", "writing", "write x", "done x"]
    );
    assert_eq!(outcome, Outcome::Done);
}

#[test]
fn a_dry_run_describes_without_writing() {
    let (seen, outcome) = process(
        true,
        3,
        || Ok(()),
        || Ok("x".into()),
        || panic!("nothing is written in a dry run"),
    );
    assert_eq!(seen, vec!["fetching", "calling llm", "done x"]);
    assert_eq!(outcome, Outcome::Done);
}

#[test]
fn transient_errors_are_retried() {
    let mut calls = 0;
    let (seen, outcome) = process(
        false,
        3,
        || Ok(()),
        || {
            calls += 1;
            if calls < 3 {
                Err(StageError::from_llm(LlmError::Transient("HTTP 503".into())))
            } else {
                Ok("third time".into())
            }
        },
        || Ok(()),
    );
    assert_eq!(seen.last().unwrap(), "done third time");
    assert_eq!(outcome, Outcome::Done);
    assert_eq!(calls, 3);
}

#[test]
fn the_last_transient_error_counts_the_tries() {
    let mut calls = 0;
    let (seen, outcome) = process(
        false,
        3,
        || Ok(()),
        || {
            calls += 1;
            Err(StageError::from_llm(LlmError::Transient("HTTP 500".into())))
        },
        || Ok(()),
    );
    assert_eq!(seen.last().unwrap(), "failed llm: HTTP 500 (4 tries)");
    assert_eq!(outcome, Outcome::Failed);
    assert_eq!(calls, 4);
}

#[test]
fn permanent_errors_are_not_retried() {
    let mut calls = 0;
    let (seen, outcome) = process(
        false,
        3,
        || {
            calls += 1;
            Err(StageError::from_immich(ImmichError::Permanent(
                "HTTP 404".into(),
            )))
        },
        || Ok("x".into()),
        || Ok(()),
    );
    assert_eq!(seen, vec!["fetching", "failed immich: HTTP 404"]);
    assert_eq!(outcome, Outcome::Failed);
    assert_eq!(calls, 1);
}

#[test]
fn a_failed_write_fails_the_asset() {
    let mut calls = 0;
    let (seen, outcome) = process(
        false,
        3,
        || Ok(()),
        || Ok("ok".into()),
        || {
            calls += 1;
            Err(StageError::from_immich(ImmichError::Transient(
                "HTTP 500".into(),
            )))
        },
    );
    assert_eq!(seen.last().unwrap(), "failed immich: HTTP 500 (4 tries)");
    assert_eq!(outcome, Outcome::Failed);
    assert_eq!(calls, 4);
}

#[test]
fn a_fatal_error_stops_the_run() {
    let (seen, outcome) = process(
        false,
        3,
        || Ok(()),
        || Err(StageError::from_llm(LlmError::Fatal("HTTP 401".into()))),
        || Ok(()),
    );
    assert_eq!(
        seen,
        vec!["fetching", "calling llm", "stop llm: HTTP 401"]
    );
    assert_eq!(outcome, Outcome::Cancelled);
}

#[test]
fn a_cancelled_asset_reports_nothing() {
    let now = Instant::now();
    let a = asset("a1", None);
    let (_, step) = AssetJob::begin(&a, "p", false, true, now);
    assert!(matches!(step, AssetStep::End(Outcome::Cancelled)));

    let (job, _) = AssetJob::begin(&a, "p", false, false, now);
    let (_, step) = job.advance(AssetInput::Announced(false), true, now);
    assert!(matches!(step, AssetStep::End(Outcome::Cancelled)));

    let (job, _) = AssetJob::begin(&a, "p", false, false, now);
    let (job, _) = job.advance(AssetInput::Announced(true), false, now);
    let (_, step) = job.advance(
        AssetInput::Fetched(Err(StageError::Permanent("late".into()))),
        true,
        now,
    );
    assert!(matches!(step, AssetStep::End(Outcome::Cancelled)));

    let (job, _) = AssetJob::begin(&a, "p", false, false, now);
    let (job, _) = job.advance(AssetInput::Announced(true), false, now);
    let (_, step) = job.advance(AssetInput::Fetched(Err(StageError::Cancelled)), false, now);
    assert!(matches!(step, AssetStep::End(Outcome::Cancelled)));

    let (job, _) = AssetJob::begin(&a, "p", false, false, now);
    let (job, _) = job.advance(AssetInput::Announced(true), false, now);
    let (_, step) = job.advance(
        AssetInput::Fetched(Err(StageError::Fatal("gone".into()))),
        true,
        now,
    );
    assert!(matches!(step, AssetStep::StopRun(_)));
}

#[test]
fn times_are_measured_from_the_steps() {
    let t0 = Instant::now();
    let at = |secs: u64| t0 + Duration::from_secs(secs);
    let (job, _) = AssetJob::begin(&asset("a1", None), "p", false, false, t0);
    let (job, _) = job.advance(AssetInput::Announced(true), false, at(1));
    let (job, _) = job.advance(AssetInput::Fetched(Ok(vec![1])), false, at(2));
    let (job, _) = job.advance(AssetInput::Announced(true), false, at(3));
    let (job, _) = job.advance(AssetInput::Described(Ok("x".into())), false, at(7));
    let (job, _) = job.advance(AssetInput::Announced(true), false, at(8));
    let (_, step) = job.advance(AssetInput::Written(Ok(())), false, at(10));
    match step {
        AssetStep::Report(event) => assert_eq!(
            event,
            Event::AssetDone {
                id: "a1".into(),
                name: "IMG_a1.HEIC".into(),
                description: "x".into(),
                took: Duration::from_secs(10),
                llm_took: Duration::from_secs(4),
            }
        ),
        other => panic!("{other:?}"),
    }
}

#[test]
fn waits_double() {
    let mut retry = Retry::new(4, EngineOptions::default().backoff_base);
    let mut waits = Vec::new();
    loop {
        match retry.settle::<()>(Err(StageError::Transient("x".into()))) {
            Attempted::Sleep(d) => waits.push(d.as_secs()),
            Attempted::Return(result) => {
                assert_eq!(result.unwrap_err().to_string(), "x (5 tries)");
                break;
            }
            Attempted::Call => panic!("no call without a wait"),
        }
    }
    assert_eq!(waits, vec![2, 4, 8, 16]);
    let mut once = Retry::new(0, fast().backoff_base);
    assert_eq!(once.settle(Ok(5)), Attempted::Return(Ok(5)));
    assert_eq!(StageError::Cancelled.to_string(), "cancelled");
}

#[test]
fn a_pause_keeps_the_asset_in_hand() {
    let (worker, step) = Worker::begin();
    assert!(matches!(step, WorkerStep::WaitForResume));
    let (worker, step) = worker.advance(WorkerInput::Resumed(true));
    assert!(matches!(step, WorkerStep::Receive));
    let (worker, step) = worker.advance(WorkerInput::Received(Some(asset("1", None))));
    assert!(matches!(step, WorkerStep::Check));
    let (worker, step) = worker.advance(WorkerInput::Checked {
        cancelled: false,
        paused: true,
    });
    assert!(matches!(step, WorkerStep::WaitForResume));
    let (worker, step) = worker.advance(WorkerInput::Resumed(true));
    assert!(matches!(step, WorkerStep::Check), "the same asset, none other");
    let (worker, step) = worker.advance(WorkerInput::Checked {
        cancelled: false,
        paused: false,
    });
    match step {
        WorkerStep::Start(event) => assert_eq!(
            event,
            Event::AssetStarted {
                id: "1".into(),
                name: "IMG_1.HEIC".into(),
            }
        ),
        other => panic!("{other:?}"),
    }
    let (worker, step) = worker.advance(WorkerInput::Started(StartReport::Paused));
    assert!(matches!(step, WorkerStep::WaitForResume));
    let (worker, _) = worker.advance(WorkerInput::Resumed(true));
    let (worker, _) = worker.advance(WorkerInput::Checked {
        cancelled: false,
        paused: false,
    });
    let (worker, step) = worker.advance(WorkerInput::Started(StartReport::Told));
    match step {
        WorkerStep::Process(a) => assert_eq!(a, asset("1", None)),
        other => panic!("{other:?}"),
    }
    let (worker, step) = worker.advance(WorkerInput::Processed(Outcome::Done));
    assert!(matches!(step, WorkerStep::WaitForResume));
    assert_eq!((worker.done, worker.failed), (1, 0));
    let (worker, _) = worker.advance(WorkerInput::Resumed(true));
    let (_, step) = worker.advance(WorkerInput::Received(None));
    assert!(matches!(step, WorkerStep::Stop), "the queue is at its end");
}

#[test]
fn a_worker_stops_when_the_run_is_cancelled() {
    let busy = || {
        let (worker, _) = Worker::begin();
        let (worker, _) = worker.advance(WorkerInput::Resumed(true));
        let (worker, _) = worker.advance(WorkerInput::Received(Some(asset("1", None))));
        worker
    };
    let (_, step) = Worker::begin().0.advance(WorkerInput::Resumed(false));
    assert!(matches!(step, WorkerStep::Stop));
    let (_, step) = busy().advance(WorkerInput::Checked {
        cancelled: true,
        paused: true,
    });
    assert!(matches!(step, WorkerStep::Stop));
    let checked = WorkerInput::Checked {
        cancelled: false,
        paused: false,
    };
    let (starting, _) = busy().advance(checked);
    let (_, step) = starting.advance(WorkerInput::Started(StartReport::Refused));
    assert!(matches!(step, WorkerStep::Stop));
}

#[test]
fn described_assets_are_skipped() {
    let mut discovery = Discovery::new();
    assert_eq!(discovery.page, 1);
    let (queued, event) = discovery.take_page(vec![
        asset("a1", None),
        asset("a2", Some("a dog")),
        asset("a3", Some("  ")),
    ]);
    let ids: Vec<&str> = queued.iter().map(|a| a.id.as_str()).collect();
    assert_eq!(ids, vec!["a1", "a3"]);
    assert_eq!(
        event,
        Event::PageLoaded {
            scanned: 3,
            queued: 2
        }
    );
    assert!(!discovery.follow(None));
    assert_eq!(discovery.finished(), Event::DiscoveryDone { total_queued: 2 });
}

#[test]
fn discovery_follows_later_pages_and_adds_up() {
    let mut discovery = Discovery::new();
    discovery.take_page(vec![asset("a1", None), asset("a2", Some("done"))]);
    assert!(discovery.follow(Some(2)));
    let (_, event) = discovery.take_page(vec![asset("a3", None), asset("a4", Some("done"))]);
    assert_eq!(
        event,
        Event::PageLoaded {
            scanned: 4,
            queued: 2
        }
    );
    assert!(!discovery.follow(Some(2)), "the same page again is the end");
    assert!(!discovery.follow(Some(1)));
    assert_eq!(discovery.page, 2);
}

#[test]
fn control_follows_the_run() {
    let mut slot = Slot::Empty;
    assert_eq!(slot.take(Command::Pause, false, false), ControlStep::Nothing);
    assert_eq!(slot.take(Command::Resume, false, false), ControlStep::Nothing);
    assert_eq!(slot.take(Command::Start, false, false), ControlStep::Begin);
    assert_eq!(
        slot.take(Command::Start, true, false),
        ControlStep::Nothing,
        "a run that is on is not started again"
    );
    assert_eq!(slot.take(Command::Pause, true, false), ControlStep::Pause);
    assert_eq!(slot, Slot::Paused);
    assert_eq!(slot.take(Command::Start, true, true), ControlStep::Cancel);
    assert_eq!(slot, Slot::Ending, "nothing starts before the old run has ended");
    assert_eq!(slot.take(Command::Start, false, true), ControlStep::Nothing);
    assert_eq!(slot.take(Command::Pause, false, true), ControlStep::Nothing);
    assert_eq!(slot.take(Command::Resume, false, true), ControlStep::Nothing);
    assert_eq!(slot.ended(), ControlStep::Begin);
    assert_eq!(slot, Slot::Running, "a new run does not inherit the pause");
    assert_eq!(slot.ended(), ControlStep::Nothing);
    assert_eq!(slot.take(Command::Start, false, false), ControlStep::Cancel);
    assert_eq!(slot.ended(), ControlStep::Begin);
    assert_eq!(slot.take(Command::Resume, true, false), ControlStep::Resume);
    assert_eq!(slot.take(Command::Quit, true, false), ControlStep::Stop);
}

#[test]
fn runs_have_a_worker_and_a_report() {
    assert_eq!(worker_count(0), 1);
    assert_eq!(worker_count(3), 3);
    assert_eq!(queue_size(3), 12);
    assert_eq!(tally(&vec![(1, 2), (3, 4), (5, 6)]), (9, 12));
    assert_eq!(tally(&Vec::new()), (0, 0));
    assert_eq!(run_end(true, 1, 2, Duration::ZERO), None);
    assert_eq!(
        run_end(false, 1, 2, Duration::from_secs(3)),
        Some(Event::RunFinished {
            done: 1,
            failed: 2,
            elapsed: Duration::from_secs(3),
        })
    );
    assert_eq!(stop_run(true, "x".into()), None);
    assert_eq!(
        stop_run(false, "x".into()),
        Some(Event::Fatal { error: "x".into() })
    );
}

#[test]
fn errors_keep_their_kind_and_words() {
    assert_eq!(
        StageError::from_immich(ImmichError::Fatal("x".into())),
        StageError::Fatal("immich: x".into())
    );
    assert_eq!(
        StageError::from_llm(LlmError::Permanent("y".into())),
        StageError::Permanent("llm: y".into())
    );
    assert_eq!(
        EngineError::Immich(ImmichError::no_client("z")).to_string(),
        "immich: http client: z"
    );
    assert_eq!(
        EngineError::Llm(LlmError::no_client("z")).to_string(),
        "llm: http client: z"
    );
    assert_eq!(Stage::Writing.label(), "writing");
}

#[test]
fn workers_count_by_outcome() {
    let (mut worker, _) = Worker::begin();
    for outcome in [Outcome::Done, Outcome::Failed, Outcome::Done] {
        (worker, _) = worker.advance(WorkerInput::Resumed(true));
        (worker, _) = worker.advance(WorkerInput::Received(Some(asset("1", None))));
        (worker, _) = worker.advance(WorkerInput::Checked {
            cancelled: false,
            paused: false,
        });
        (worker, _) = worker.advance(WorkerInput::Started(StartReport::Told));
        (worker, _) = worker.advance(WorkerInput::Processed(outcome));
    }
    assert_eq!((worker.done, worker.failed), (2, 1));
}

#[test]
fn a_cancelled_call_is_not_attempted_again() {
    let mut retry = Retry::new(3, fast().backoff_base);
    assert_eq!(retry.proceed::<u8>(false), Attempted::Call);
    let waiting = retry.settle::<u8>(Err(StageError::Transient("x".into())));
    assert!(matches!(waiting, Attempted::Sleep(_)));
    assert_eq!(
        retry.proceed::<u8>(true),
        Attempted::Return(Err(StageError::Cancelled))
    );
    assert_eq!(retry.settle(Ok(1u8)), Attempted::Return(Ok(1)), "a late success counts");
}

/// Two workers on one queue. Takes turns until both have stopped; a pause comes before turn
/// `pause` and a resume twenty turns later. Returns the assets started before, during and after
/// the pause, and what was counted.
fn pool(pause: usize) -> (Vec<String>, Vec<String>, Vec<String>, u64) {
    let mut queue: Vec<Asset> = (0..5).map(|i| asset(&i.to_string(), None)).collect();
    let mut workers: Vec<Option<(Worker, WorkerStep)>> =
        vec![Some(Worker::begin()), Some(Worker::begin())];
    let mut started = [Vec::new(), Vec::new(), Vec::new()];
    let mut counts = Vec::new();
    for turn in 0..200 {
        // The pause is acknowledged once no worker is between its check and its start.
        let paused = turn >= pause && turn < pause + 20;
        let part = if turn < pause { 0 } else if paused { 1 } else { 2 };
        let slot = &mut workers[turn % 2];
        let (worker, step) = match slot.take() {
            Some(busy) => busy,
            None => continue,
        };
        let (worker, step) = match step {
            WorkerStep::WaitForResume if paused => (worker, WorkerStep::WaitForResume),
            WorkerStep::WaitForResume => worker.advance(WorkerInput::Resumed(true)),
            WorkerStep::Receive => {
                let next = if queue.is_empty() { None } else { Some(queue.remove(0)) };
                worker.advance(WorkerInput::Received(next))
            }
            WorkerStep::Check => worker.advance(WorkerInput::Checked {
                cancelled: false,
                paused,
            }),
            WorkerStep::Start(_) if paused => {
                worker.advance(WorkerInput::Started(StartReport::Paused))
            }
            WorkerStep::Start(event) => {
                match event {
                    Event::AssetStarted { id, .. } => started[part].push(id),
                    other => panic!("{other:?}"),
                }
                worker.advance(WorkerInput::Started(StartReport::Told))
            }
            WorkerStep::Process(a) => worker.advance(WorkerInput::Processed(if a.id == "3" {
                Outcome::Failed
            } else {
                Outcome::Done
            })),
            WorkerStep::Stop => {
                counts.push((worker.done, worker.failed));
                continue;
            }
        };
        workers[turn % 2] = Some((worker, step));
    }
    assert_eq!(counts.len(), 2, "both workers stopped");
    let (done, failed) = tally(&counts);
    assert_eq!(failed, 1);
    let [before, during, after] = started;
    (before, during, after, done + failed)
}

#[test]
fn each_queued_asset_is_started_once_by_some_worker() {
    for pause in 0..40 {
        let (before, during, after, counted) = pool(pause);
        assert!(during.is_empty(), "nothing is started while paused");
        let mut all = [before, after].concat();
        all.sort();
        assert_eq!(all, vec!["0", "1", "2", "3", "4"], "pause before turn {pause}");
        assert_eq!(counted, 5);
    }
}

/// Drives a search over these pages. Returns what it did, in words.
fn search(mut pages: Vec<Result<Page, StageError>>, room: usize) -> Vec<String> {
    let mut seen = Vec::new();
    let mut queued = 0;
    let (mut search, mut step) = Search::begin(50);
    loop {
        let input = match step {
            SearchStep::List { page, size } => {
                seen.push(format!("list {page} of {size}"));
                SearchInput::Listed(pages.remove(0))
            }
            SearchStep::Tell(event) => {
                seen.push(match event {
                    Event::PageLoaded { scanned, queued } => format!("loaded {scanned} {queued}"),
                    Event::DiscoveryDone { total_queued } => format!("found {total_queued}"),
                    other => panic!("{other:?}"),
                });
                SearchInput::Told
            }
            SearchStep::Queue(a) => {
                seen.push(format!("queue {}", a.id));
                queued += 1;
                SearchInput::Queued(queued <= room)
            }
            SearchStep::StopRun(message) => {
                seen.push(format!("stop {message}"));
                SearchInput::Stopped
            }
            SearchStep::End => return seen,
        };
        (search, step) = search.advance(input);
    }
}

fn two_pages() -> Vec<Result<Page, StageError>> {
    vec![
        Ok(Page {
            items: vec![asset("a1", None), asset("a2", Some("done")), asset("a3", None)],
            next_page: Some(2),
        }),
        Ok(Page {
            items: vec![asset("a4", Some("done"))],
            next_page: Some(2),
        }),
    ]
}

#[test]
fn a_search_reports_queues_and_follows() {
    assert_eq!(
        search(two_pages(), 9),
        vec![
            "list 1 of 50",
            "loaded 3 2",
            "queue a1",
            "queue a3",
            "list 2 of 50",
            "loaded 4 2",
            "found 2",
        ]
    );
    assert_eq!(
        search(two_pages(), 1),
        vec!["list 1 of 50", "loaded 3 2", "queue a1", "queue a3"],
        "a refused asset ends the search"
    );
}

#[test]
fn a_failed_listing_stops_the_run() {
    let mut pages = two_pages();
    pages[1] = Err(StageError::Permanent("immich: HTTP 400".into()));
    assert_eq!(
        search(pages, 9),
        vec![
            "list 1 of 50",
            "loaded 3 2",
            "queue a1",
            "queue a3",
            "list 2 of 50",
            "stop immich: HTTP 400",
        ]
    );
}
