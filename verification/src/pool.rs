//! Several workers on one queue: what holds of all of them together while a run is not
//! cancelled.
use vstd::multiset::{group_multiset_axioms, Multiset};
use vstd::prelude::*;
use vstd::seq_lib::group_to_multiset_ensures;

use crate::engine::{
    fresh_worker, totals, Outcome, StartReport, WorkerInputView, WorkerStepView, WorkerView,
};
use crate::immich::AssetView;

verus! {

/// The workers of a run and the queue that they share.
pub struct PoolView {
    pub queue: Seq<AssetView>,
    /// Nothing more will be queued.
    pub closed: bool,
    /// A pause is asked for.
    pub pausing: bool,
    /// The pause is acknowledged.
    pub paused: bool,
    pub workers: Seq<WorkerView>,
    /// All that was ever queued, in order.
    pub queued: Seq<AssetView>,
    /// The assets whose start was told, in order.
    pub started: Seq<AssetView>,
}

/// What happens in a run.
pub enum PoolEvent {
    /// Discovery found an asset.
    Queued(AssetView),
    /// Discovery is over.
    Closed,
    Pause,
    PauseAcknowledged,
    Resume,
    /// A worker's last step came to this.
    Turn { worker: int, input: WorkerInputView },
}

/// A run of `n` workers at its start.
pub open spec fn fresh_pool(n: nat) -> PoolView {
    PoolView {
        queue: seq![],
        closed: false,
        pausing: false,
        paused: false,
        workers: Seq::new(n, |i: int| fresh_worker()),
        queued: seq![],
        started: seq![],
    }
}

impl PoolView {
    /// The pool can answer a worker's step with this, while the run is not cancelled: assets
    /// come from the front of the queue and run out only once it is closed, and a pause is seen
    /// as soon as it is asked for.
    pub open spec fn answers(self, input: WorkerInputView) -> bool {
        match input {
            WorkerInputView::Resumed(on) => on,
            WorkerInputView::Received(Some(asset)) => self.queue.len() > 0 && self.queue[0]
                == asset,
            WorkerInputView::Received(None) => self.queue.len() == 0 && self.closed,
            WorkerInputView::Checked { cancelled, paused } => !cancelled && paused == self.pausing,
            WorkerInputView::Started(report) => report != StartReport::Refused,
            WorkerInputView::Processed(outcome) => outcome != Outcome::Cancelled,
        }
    }

    /// This can happen next. A pause is acknowledged once no asset is being handed to a worker.
    pub open spec fn allows(self, event: PoolEvent) -> bool {
        match event {
            PoolEvent::Queued(_) => !self.closed,
            PoolEvent::PauseAcknowledged => self.pausing && forall|i: int|
                0 <= i < self.workers.len() ==> !((#[trigger] self.workers[i]).phase is Starting),
            PoolEvent::Turn { worker, input } => {
                &&& 0 <= worker < self.workers.len()
                &&& self.workers[worker].expects(input)
                &&& self.answers(input)
            },
            _ => true,
        }
    }

    pub open spec fn after(self, event: PoolEvent) -> PoolView {
        match event {
            PoolEvent::Queued(asset) => PoolView {
                queue: self.queue.push(asset),
                queued: self.queued.push(asset),
                ..self
            },
            PoolEvent::Closed => PoolView { closed: true, ..self },
            PoolEvent::Pause => PoolView { pausing: true, ..self },
            PoolEvent::PauseAcknowledged => PoolView { paused: true, ..self },
            PoolEvent::Resume => PoolView { pausing: false, paused: false, ..self },
            PoolEvent::Turn { worker, input } => {
                let (next, step) = self.workers[worker].after(input);
                PoolView {
                    queue: if input is Received && input->Received_0 is Some {
                        self.queue.remove(0)
                    } else {
                        self.queue
                    },
                    workers: self.workers.update(worker, next),
                    started: match step {
                        WorkerStepView::Process(asset) => self.started.push(asset),
                        _ => self.started,
                    },
                    ..self
                }
            },
        }
    }
}

/// The asset that a worker has in hand, if any.
pub open spec fn in_hand(worker: WorkerView) -> Multiset<AssetView> {
    match worker.held() {
        Some(asset) => Multiset::singleton(asset),
        None => Multiset::empty(),
    }
}

/// The assets that the workers have in hand.
pub open spec fn all_in_hand(workers: Seq<WorkerView>) -> Multiset<AssetView>
    decreases workers.len(),
{
    if workers.len() == 0 {
        Multiset::empty()
    } else {
        all_in_hand(workers.drop_last()).add(in_hand(workers.last()))
    }
}

/// The assets that a worker has counted.
pub open spec fn counted(worker: WorkerView) -> nat {
    worker.done + worker.failed
}

/// The assets that the workers have counted.
pub open spec fn all_counted(workers: Seq<WorkerView>) -> nat
    decreases workers.len(),
{
    if workers.len() == 0 {
        0
    } else {
        all_counted(workers.drop_last()) + counted(workers.last())
    }
}

/// The worker is at work on an asset.
pub open spec fn at_work(worker: WorkerView) -> nat {
    if worker.phase is Processing {
        1
    } else {
        0
    }
}

/// How many workers are at work on an asset.
pub open spec fn all_at_work(workers: Seq<WorkerView>) -> nat
    decreases workers.len(),
{
    if workers.len() == 0 {
        0
    } else {
        all_at_work(workers.drop_last()) + at_work(workers.last())
    }
}

impl PoolView {
    /// Each queued asset is in the queue, in one worker's hand or started, and in one of these
    /// only. Each started asset is at work or counted. No asset is being handed to a worker
    /// while the pause is acknowledged, and a worker stops only when the queue is at its end.
    pub open spec fn wf(self) -> bool {
        &&& forall|i: int| 0 <= i < self.workers.len() ==> (#[trigger] self.workers[i]).wf()
        &&& self.queued.to_multiset() =~= self.queue.to_multiset().add(
            all_in_hand(self.workers),
        ).add(self.started.to_multiset())
        &&& self.started.len() == all_counted(self.workers) + all_at_work(self.workers)
        &&& self.paused ==> self.pausing && forall|i: int|
            0 <= i < self.workers.len() ==> !((#[trigger] self.workers[i]).phase is Starting)
        &&& forall|i: int|
            0 <= i < self.workers.len() && (#[trigger] self.workers[i]).phase is Stopped
                ==> self.workers[i].pending is None && self.closed && self.queue.len() == 0
    }

    /// Every worker has stopped.
    pub open spec fn over(self) -> bool {
        forall|i: int| 0 <= i < self.workers.len() ==> (#[trigger] self.workers[i]).phase is Stopped
    }
}

proof fn lemma_update(workers: Seq<WorkerView>, k: int, worker: WorkerView)
    requires
        0 <= k < workers.len(),
    ensures
        forall|asset: AssetView|
            #![trigger all_in_hand(workers.update(k, worker)).count(asset)]
            #![trigger all_in_hand(workers).count(asset)]
            all_in_hand(workers.update(k, worker)).count(asset) + in_hand(workers[k]).count(asset)
                == all_in_hand(workers).count(asset) + in_hand(worker).count(asset),
        all_counted(workers.update(k, worker)) + counted(workers[k]) == all_counted(workers)
            + counted(worker),
        all_at_work(workers.update(k, worker)) + at_work(workers[k]) == all_at_work(workers)
            + at_work(worker),
    decreases workers.len(),
{
    broadcast use group_multiset_axioms;

    let updated = workers.update(k, worker);
    if k == workers.len() - 1 {
        assert(updated.drop_last() =~= workers.drop_last());
    } else {
        assert(updated.drop_last() =~= workers.drop_last().update(k, worker));
        lemma_update(workers.drop_last(), k, worker);
    }
    assert forall|asset: AssetView|
        #![trigger all_in_hand(updated).count(asset)]
        #![trigger all_in_hand(workers).count(asset)]
        all_in_hand(updated).count(asset) + in_hand(workers[k]).count(asset) == all_in_hand(
            workers,
        ).count(asset) + in_hand(worker).count(asset) by {
        let (before, after) = (workers.drop_last(), updated.drop_last());
        assert(all_in_hand(workers).count(asset) == all_in_hand(before).count(asset) + in_hand(
            workers.last(),
        ).count(asset));
        assert(all_in_hand(updated).count(asset) == all_in_hand(after).count(asset) + in_hand(
            updated.last(),
        ).count(asset));
    }
}

/// Whatever happens, no asset is lost or started twice, and each start is counted once the work
/// on it has ended.
pub proof fn law_no_asset_is_lost(pool: PoolView, event: PoolEvent)
    requires
        pool.wf(),
        pool.allows(event),
    ensures
        pool.after(event).wf(),
{
    broadcast use {group_to_multiset_ensures, group_multiset_axioms};

    let next = pool.after(event);
    if let PoolEvent::Turn { worker, input } = event {
        let (moved, step) = pool.workers[worker].after(input);
        lemma_update(pool.workers, worker, moved);
        assert forall|asset: AssetView|
            next.queue.to_multiset().count(asset) + all_in_hand(next.workers).count(asset)
                + next.started.to_multiset().count(asset)
                == pool.queue.to_multiset().count(asset) + all_in_hand(pool.workers).count(asset)
                + #[trigger] pool.started.to_multiset().count(asset) by {
            assert(all_in_hand(pool.workers).count(asset) >= 0);
        }
    }
}

/// No asset is started between the acknowledgement of a pause and the next resume, whichever
/// worker takes a turn. Work that is under way can end meanwhile.
pub proof fn law_no_start_between_pause_and_resume(pool: PoolView, event: PoolEvent)
    requires
        pool.wf(),
        pool.paused,
        pool.allows(event),
    ensures
        pool.after(event).started == pool.started,
        pool.after(event).paused || event is Resume,
        forall|i: int|
            0 <= i < pool.workers.len() && (#[trigger] pool.workers[i]).expects(
                WorkerInputView::Processed(Outcome::Done),
            ) ==> pool.allows(
                PoolEvent::Turn { worker: i, input: WorkerInputView::Processed(Outcome::Done) },
            ),
{
}

/// The pool after these events.
pub open spec fn pool_after(pool: PoolView, events: Seq<PoolEvent>) -> PoolView
    decreases events.len(),
{
    if events.len() == 0 {
        pool
    } else {
        pool_after(pool, events.drop_last()).after(events.last())
    }
}

/// These events can happen one after the other.
pub open spec fn can_happen(pool: PoolView, events: Seq<PoolEvent>) -> bool
    decreases events.len(),
{
    events.len() == 0 || can_happen(pool, events.drop_last()) && pool_after(
        pool,
        events.drop_last(),
    ).allows(events.last())
}

proof fn lemma_runs_keep_wf(n: nat, events: Seq<PoolEvent>)
    requires
        can_happen(fresh_pool(n), events),
    ensures
        pool_after(fresh_pool(n), events).wf(),
        pool_after(fresh_pool(n), events).workers.len() == n,
    decreases events.len(),
{
    if events.len() == 0 {
        lemma_fresh_workers(n);
    } else {
        lemma_runs_keep_wf(n, events.drop_last());
        law_no_asset_is_lost(pool_after(fresh_pool(n), events.drop_last()), events.last());
    }
}

proof fn lemma_fresh_workers(n: nat)
    ensures
        all_in_hand(fresh_pool(n).workers) =~= Multiset::empty(),
        all_counted(fresh_pool(n).workers) == 0,
        all_at_work(fresh_pool(n).workers) == 0,
        fresh_pool(n).wf(),
    decreases n,
{
    broadcast use group_to_multiset_ensures;

    if n > 0 {
        lemma_fresh_workers((n - 1) as nat);
        assert(fresh_pool(n).workers.drop_last() =~= fresh_pool((n - 1) as nat).workers);
    }
}

proof fn lemma_stopped_workers(workers: Seq<WorkerView>)
    requires
        forall|i: int|
            0 <= i < workers.len() ==> (#[trigger] workers[i]).phase is Stopped
                && workers[i].pending is None,
    ensures
        all_in_hand(workers) =~= Multiset::empty(),
        all_at_work(workers) == 0,
    decreases workers.len(),
{
    if workers.len() > 0 {
        let rest = workers.drop_last();
        assert forall|i: int| 0 <= i < rest.len() implies (#[trigger] rest[i]).phase is Stopped
            && rest[i].pending is None by {
            assert(rest[i] == workers[i]);
        }
        lemma_stopped_workers(rest);
        assert(workers.last() == workers[workers.len() - 1]);
    }
}

/// When all workers of a run have stopped, each queued asset was started exactly once, and the
/// workers have counted as many assets, done or failed, as were queued, however often the run
/// was paused.
pub proof fn law_every_queued_asset_is_worked_on_once(n: nat, events: Seq<PoolEvent>)
    requires
        n > 0,
        can_happen(fresh_pool(n), events),
        pool_after(fresh_pool(n), events).over(),
    ensures
        ({
            let end = pool_after(fresh_pool(n), events);
            &&& end.started.to_multiset() =~= end.queued.to_multiset()
            &&& all_counted(end.workers) == end.queued.len()
        }),
{
    broadcast use group_to_multiset_ensures;

    lemma_runs_keep_wf(n, events);
    let end = pool_after(fresh_pool(n), events);
    assert(end.workers[0].phase is Stopped);
    lemma_stopped_workers(end.workers);
    assert(end.queue =~= Seq::<AssetView>::empty());
    assert(end.queued.to_multiset().len() == end.started.to_multiset().len());
}

/// What a run reports as done and failed, added up from the counts of its workers, is what they
/// have counted together.
pub proof fn law_reports_count_every_asset(workers: Seq<WorkerView>, counts: Seq<(u64, u64)>)
    requires
        counts.len() == workers.len(),
        forall|i: int|
            0 <= i < workers.len() ==> (#[trigger] workers[i]).done == counts[i].0
                && workers[i].failed == counts[i].1,
    ensures
        totals(counts).0 + totals(counts).1 == all_counted(workers),
    decreases workers.len(),
{
    if workers.len() > 0 {
        let (rest, fewer) = (workers.drop_last(), counts.drop_last());
        assert forall|i: int| 0 <= i < rest.len() implies (#[trigger] rest[i]).done == fewer[i].0
            && rest[i].failed == fewer[i].1 by {
            assert(rest[i] == workers[i]);
        }
        law_reports_count_every_asset(rest, fewer);
        assert(workers.last() == workers[workers.len() - 1]);
    }
}

} // verus!
