//! The decisions of the engine: retries, the steps of one asset, the worker loop, discovery
//! and control. Each is a machine that takes what just happened and says what to do next; the
//! caller does it and reports back.
use std::time::{Duration, Instant};
use vstd::arithmetic::power2::{
    lemma2_to64, lemma_pow2_adds, lemma_pow2_pos, lemma_pow2_unfold, pow2,
};
use vstd::prelude::*;
use vstd::seq_lib::lemma_seq_contains_after_push;
use vstd::string::*;

use crate::clock::{
    duration_nanos, from_nanos, instant_nanos, max_duration_nanos, time_between,
};
use crate::events::{Command, Event, EventView, Stage};
use crate::immich::{
    asset_views, Asset, AssetView, ImmichError, ImmichErrorView, Page, PageView,
};
use crate::llm::{LlmError, LlmErrorView};
use crate::text::{cat, decimal, decimal_of};

verus! {

/// Knobs that tests change. Production uses `Default`.
#[derive(Debug, Clone, Copy)]
pub struct EngineOptions {
    /// Sleep before the first retry. Doubles on each further retry.
    pub backoff_base: Duration,
}

impl Default for EngineOptions {
    fn default() -> (r: Self)
        ensures
            duration_nanos(r.backoff_base) == 2_000_000_000,
    {
        EngineOptions { backoff_base: Duration::new(2, 0) }
    }
}

/// Why an engine could not be set up.
#[derive(Debug, PartialEq, Eq)]
pub enum EngineError {
    Immich(ImmichError),
    Llm(LlmError),
}

impl EngineError {
    /// The message shown to the user.
    pub fn to_string(&self) -> (r: String)
        ensures
            r@ == match *self {
                EngineError::Immich(error) => error@.text(),
                EngineError::Llm(error) => error@.text(),
            },
    {
        match self {
            EngineError::Immich(error) => error.to_string(),
            EngineError::Llm(error) => error.to_string(),
        }
    }
}

/// How the work on one asset ended.
#[derive(Debug, Clone, Copy, PartialEq, Eq, Structural)]
pub enum Outcome {
    Done,
    Failed,
    Cancelled,
}

/// Why a step of an asset failed.
#[derive(Debug, PartialEq, Eq)]
pub enum StageError {
    Transient(String),
    Permanent(String),
    Fatal(String),
    Cancelled,
}

/// Mathematical model of [`StageError`].
pub enum StageErrorView {
    Transient(Seq<char>),
    Permanent(Seq<char>),
    Fatal(Seq<char>),
    Cancelled,
}

impl View for StageError {
    type V = StageErrorView;

    open spec fn view(&self) -> StageErrorView {
        match *self {
            StageError::Transient(message) => StageErrorView::Transient(message@),
            StageError::Permanent(message) => StageErrorView::Permanent(message@),
            StageError::Fatal(message) => StageErrorView::Fatal(message@),
            StageError::Cancelled => StageErrorView::Cancelled,
        }
    }
}

impl StageErrorView {
    /// The message shown to the user.
    pub open spec fn text(self) -> Seq<char> {
        match self {
            StageErrorView::Transient(message) => message,
            StageErrorView::Permanent(message) => message,
            StageErrorView::Fatal(message) => message,
            StageErrorView::Cancelled => "cancelled"@,
        }
    }
}

/// An Immich failure as a failure of the step that met it.
pub open spec fn stage_of_immich(error: ImmichErrorView) -> StageErrorView {
    match error {
        ImmichErrorView::Transient(_) => StageErrorView::Transient(error.text()),
        ImmichErrorView::Permanent(_) => StageErrorView::Permanent(error.text()),
        ImmichErrorView::Fatal(_) => StageErrorView::Fatal(error.text()),
    }
}

/// An LLM failure as a failure of the step that met it.
pub open spec fn stage_of_llm(error: LlmErrorView) -> StageErrorView {
    match error {
        LlmErrorView::Transient(_) => StageErrorView::Transient(error.text()),
        LlmErrorView::Permanent(_) => StageErrorView::Permanent(error.text()),
        LlmErrorView::Fatal(_) => StageErrorView::Fatal(error.text()),
    }
}

impl StageError {
    /// The message shown to the user.
    pub fn to_string(&self) -> (r: String)
        ensures
            r@ == self@.text(),
    {
        match self {
            StageError::Transient(message) => message.clone(),
            StageError::Permanent(message) => message.clone(),
            StageError::Fatal(message) => message.clone(),
            StageError::Cancelled => "cancelled".to_owned(),
        }
    }

    pub fn from_immich(error: ImmichError) -> (r: Self)
        ensures
            r@ == stage_of_immich(error@),
    {
        let message = error.to_string();
        match error {
            ImmichError::Transient(_) => StageError::Transient(message),
            ImmichError::Permanent(_) => StageError::Permanent(message),
            ImmichError::Fatal(_) => StageError::Fatal(message),
        }
    }

    pub fn from_llm(error: LlmError) -> (r: Self)
        ensures
            r@ == stage_of_llm(error@),
    {
        let message = error.to_string();
        match error {
            LlmError::Transient(_) => StageError::Transient(message),
            LlmError::Permanent(_) => StageError::Permanent(message),
            LlmError::Fatal(_) => StageError::Fatal(message),
        }
    }
}

// ---------------------------------------------------------------------------
// Retries
// ---------------------------------------------------------------------------

/// Where a retried call stands: the attempt under way, out of how many.
#[derive(Debug, Clone, Copy)]
pub struct Retry {
    pub attempt: u32,
    pub attempts: u32,
    pub backoff_base: Duration,
}

/// What to do next for a retried call.
#[derive(Debug, PartialEq, Eq)]
pub enum Attempted<T> {
    /// Make the attempt.
    Call,
    /// The call is over.
    Return(Result<T, StageError>),
    /// Wait this long, then call again.
    Sleep(Duration),
}

/// What an attempt means: `Some` of the wait before the next one, or `None` if it was the last.
pub open spec fn backoff(
    attempt: nat,
    attempts: nat,
    base: nat,
    error: StageErrorView,
) -> Option<nat> {
    if error is Transient && attempt < attempts {
        Some(base * pow2((attempt - 1) as nat))
    } else {
        None
    }
}

/// The failure that is left after the last attempt. A transient one says how often it was
/// tried.
pub open spec fn given_up(attempts: nat, error: StageErrorView) -> StageErrorView {
    match error {
        StageErrorView::Transient(message) => StageErrorView::Transient(
            message + " ("@ + decimal(attempts) + " tries)"@,
        ),
        other => other,
    }
}

impl Retry {
    /// Attempts are counted from one.
    pub open spec fn wf(self) -> bool {
        1 <= self.attempt <= self.attempts
    }

    /// The wait before the next attempt fits in a duration.
    pub open spec fn can_wait(self) -> bool {
        &&& self.attempt <= 32
        &&& duration_nanos(self.backoff_base) * pow2((self.attempt - 1) as nat)
            <= max_duration_nanos()
    }

    /// The first attempt of `retries + 1`.
    pub fn new(retries: u32, backoff_base: Duration) -> (r: Self)
        requires
            retries < u32::MAX,
        ensures
            r.attempt == 1,
            r.attempts == retries + 1,
            r.backoff_base == backoff_base,
            r.wf(),
    {
        Retry { attempt: 1, attempts: retries + 1, backoff_base }
    }

    /// What to do before an attempt, and when one or the wait for it was dropped: once the run
    /// is cancelled no further attempt is made.
    pub fn proceed<T>(&self, cancelled: bool) -> (r: Attempted<T>)
        ensures
            r == if cancelled {
                Attempted::<T>::Return(Err(StageError::Cancelled))
            } else {
                Attempted::Call
            },
    {
        if cancelled {
            Attempted::Return(Err(StageError::Cancelled))
        } else {
            Attempted::Call
        }
    }

    /// Takes the result of an attempt. Only transient failures are worth another attempt, and
    /// each wait is twice the one before.
    pub fn settle<T>(&mut self, result: Result<T, StageError>) -> (r: Attempted<T>)
        requires
            old(self).wf(),
            (result matches Err(error) && error is Transient && old(self).attempt < old(
                self,
            ).attempts) ==> old(self).can_wait(),
        ensures
            final(self).wf(),
            final(self).attempts == old(self).attempts,
            final(self).backoff_base == old(self).backoff_base,
            match result {
                Ok(value) => {
                    &&& r == Attempted::Return(Ok::<T, StageError>(value))
                    &&& final(self).attempt == old(self).attempt
                },
                Err(error) => match backoff(
                    old(self).attempt as nat,
                    old(self).attempts as nat,
                    duration_nanos(old(self).backoff_base),
                    error@,
                ) {
                    Some(delay) => {
                        &&& r is Sleep
                        &&& duration_nanos(r->Sleep_0) == delay
                        &&& final(self).attempt == old(self).attempt + 1
                    },
                    None => {
                        &&& r matches Attempted::Return(Err(e))
                        &&& e@ == given_up(old(self).attempts as nat, error@)
                        &&& final(self).attempt == old(self).attempt
                    },
                },
            },
    {
        match result {
            Ok(value) => Attempted::Return(Ok(value)),
            Err(StageError::Transient(message)) => {
                if self.attempt < self.attempts {
                    let delay = doubled(self.backoff_base, self.attempt - 1);
                    self.attempt = self.attempt + 1;
                    Attempted::Sleep(delay)
                } else {
                    let mut text = cat(message.as_str(), " (");
                    text.append(decimal_of(self.attempts as u64).as_str());
                    text.append(" tries)");
                    Attempted::Return(Err(StageError::Transient(text)))
                }
            },
            Err(error) => Attempted::Return(Err(error)),
        }
    }
}

/// `base` doubled `times` times.
fn doubled(base: Duration, times: u32) -> (r: Duration)
    requires
        duration_nanos(base) * pow2(times as nat) <= max_duration_nanos(),
    ensures
        duration_nanos(r) == duration_nanos(base) * pow2(times as nat),
{
    let ghost b = duration_nanos(base);
    let mut nanos: u128 = base.as_nanos();
    let mut i: u32 = 0;
    proof {
        lemma2_to64();
        assert(b * pow2(0) == b) by (nonlinear_arith)
            requires
                pow2(0) == 1,
        ;
    }
    while i < times
        invariant
            i <= times,
            nanos == b * pow2(i as nat),
            b * pow2(times as nat) <= max_duration_nanos(),
        decreases times - i,
    {
        proof {
            lemma_backoff_grows(b, (i + 1) as nat, times as nat);
            lemma_pow2_unfold((i + 1) as nat);
            assert(b * (2 * pow2(i as nat)) == 2 * (b * pow2(i as nat))) by (nonlinear_arith);
        }
        nanos = nanos * 2;
        i += 1;
    }
    from_nanos(nanos)
}

proof fn lemma_backoff_grows(base: nat, less: nat, more: nat)
    requires
        less <= more,
    ensures
        base * pow2(less) <= base * pow2(more),
{
    let factor = pow2((more - less) as nat);
    lemma_pow2_pos((more - less) as nat);
    lemma_pow2_adds(less, (more - less) as nat);
    let p = pow2(less);
    assert(base * (p * factor) >= base * p) by (nonlinear_arith)
        requires
            factor >= 1,
    ;
}

// ---------------------------------------------------------------------------
// One asset
// ---------------------------------------------------------------------------

/// The work on one asset.
#[derive(Debug)]
pub struct AssetJob {
    pub id: String,
    pub name: String,
    pub prompt: String,
    pub dry_run: bool,
    pub started: Instant,
    pub phase: Phase,
}

/// How far the work on an asset has come.
#[derive(Debug)]
pub enum Phase {
    AnnouncingFetch,
    Fetching,
    AnnouncingCall { jpeg: Vec<u8> },
    Calling { llm_started: Instant },
    AnnouncingWrite { text: String, llm_took: Duration },
    Writing { text: String, llm_took: Duration },
    Reporting(Outcome),
    Stopping,
    Over,
}

/// What came of a step of an asset.
#[derive(Debug)]
pub enum AssetInput {
    /// Whether the stage was announced. It is not once the run is cancelled.
    Announced(bool),
    /// The preview.
    Fetched(Result<Vec<u8>, StageError>),
    Described(Result<String, StageError>),
    Written(Result<(), StageError>),
    Reported,
    Stopped,
}

/// What to do next for an asset.
#[derive(Debug)]
pub enum AssetStep {
    /// Tell that this asset is at this stage.
    Announce { id: String, stage: Stage },
    /// Fetch the preview of this asset.
    Fetch { id: String },
    /// Describe this preview as the prompt says.
    Describe { jpeg: Vec<u8>, prompt: String },
    /// Write this description to this asset.
    Write { id: String, text: String },
    Report(Event),
    /// Stop the whole run for this reason.
    StopRun(String),
    End(Outcome),
}

/// Mathematical model of [`Phase`].
pub enum PhaseView {
    AnnouncingFetch,
    Fetching,
    AnnouncingCall { jpeg: Seq<u8> },
    Calling { llm_started: int },
    AnnouncingWrite { text: Seq<char>, llm_took: nat },
    Writing { text: Seq<char>, llm_took: nat },
    Reporting(Outcome),
    Stopping,
    Over,
}

impl View for Phase {
    type V = PhaseView;

    open spec fn view(&self) -> PhaseView {
        match *self {
            Phase::AnnouncingFetch => PhaseView::AnnouncingFetch,
            Phase::Fetching => PhaseView::Fetching,
            Phase::AnnouncingCall { jpeg } => PhaseView::AnnouncingCall { jpeg: jpeg@ },
            Phase::Calling { llm_started } => PhaseView::Calling {
                llm_started: instant_nanos(llm_started),
            },
            Phase::AnnouncingWrite { text, llm_took } => PhaseView::AnnouncingWrite {
                text: text@,
                llm_took: duration_nanos(llm_took),
            },
            Phase::Writing { text, llm_took } => PhaseView::Writing {
                text: text@,
                llm_took: duration_nanos(llm_took),
            },
            Phase::Reporting(outcome) => PhaseView::Reporting(outcome),
            Phase::Stopping => PhaseView::Stopping,
            Phase::Over => PhaseView::Over,
        }
    }
}

/// Mathematical model of [`AssetInput`].
pub enum AssetInputView {
    Announced(bool),
    Fetched(Result<Seq<u8>, StageErrorView>),
    Described(Result<Seq<char>, StageErrorView>),
    Written(Result<(), StageErrorView>),
    Reported,
    Stopped,
}

impl View for AssetInput {
    type V = AssetInputView;

    open spec fn view(&self) -> AssetInputView {
        match *self {
            AssetInput::Announced(told) => AssetInputView::Announced(told),
            AssetInput::Fetched(Ok(jpeg)) => AssetInputView::Fetched(Ok(jpeg@)),
            AssetInput::Fetched(Err(error)) => AssetInputView::Fetched(Err(error@)),
            AssetInput::Described(Ok(text)) => AssetInputView::Described(Ok(text@)),
            AssetInput::Described(Err(error)) => AssetInputView::Described(Err(error@)),
            AssetInput::Written(Ok(_)) => AssetInputView::Written(Ok(())),
            AssetInput::Written(Err(error)) => AssetInputView::Written(Err(error@)),
            AssetInput::Reported => AssetInputView::Reported,
            AssetInput::Stopped => AssetInputView::Stopped,
        }
    }
}

/// Mathematical model of [`AssetStep`].
pub enum AssetStepView {
    Announce { id: Seq<char>, stage: Stage },
    Fetch { id: Seq<char> },
    Describe { jpeg: Seq<u8>, prompt: Seq<char> },
    Write { id: Seq<char>, text: Seq<char> },
    Report(EventView),
    StopRun(Seq<char>),
    End(Outcome),
}

impl View for AssetStep {
    type V = AssetStepView;

    open spec fn view(&self) -> AssetStepView {
        match *self {
            AssetStep::Announce { id, stage } => AssetStepView::Announce { id: id@, stage },
            AssetStep::Fetch { id } => AssetStepView::Fetch { id: id@ },
            AssetStep::Describe { jpeg, prompt } => AssetStepView::Describe {
                jpeg: jpeg@,
                prompt: prompt@,
            },
            AssetStep::Write { id, text } => AssetStepView::Write { id: id@, text: text@ },
            AssetStep::Report(event) => AssetStepView::Report(event@),
            AssetStep::StopRun(message) => AssetStepView::StopRun(message@),
            AssetStep::End(outcome) => AssetStepView::End(outcome),
        }
    }
}

/// Mathematical model of [`AssetJob`].
pub struct AssetJobView {
    pub id: Seq<char>,
    pub name: Seq<char>,
    pub prompt: Seq<char>,
    pub dry_run: bool,
    pub started: int,
    pub phase: PhaseView,
}

impl View for AssetJob {
    type V = AssetJobView;

    open spec fn view(&self) -> AssetJobView {
        AssetJobView {
            id: self.id@,
            name: self.name@,
            prompt: self.prompt@,
            dry_run: self.dry_run,
            started: instant_nanos(self.started),
            phase: self.phase@,
        }
    }
}

impl AssetJobView {
    /// The input answers the step that this phase waits for.
    pub open spec fn expects(self, input: AssetInputView) -> bool {
        match self.phase {
            PhaseView::AnnouncingFetch => input is Announced,
            PhaseView::Fetching => input is Fetched,
            PhaseView::AnnouncingCall { .. } => input is Announced,
            PhaseView::Calling { .. } => input is Described,
            PhaseView::AnnouncingWrite { .. } => input is Announced,
            PhaseView::Writing { .. } => input is Written,
            PhaseView::Reporting(_) => input is Reported,
            PhaseView::Stopping => input is Stopped,
            PhaseView::Over => false,
        }
    }

    pub open spec fn at(self, phase: PhaseView) -> AssetJobView {
        AssetJobView { phase, ..self }
    }

    /// Telling the stage that the asset is at.
    pub open spec fn announcing(self, stage: Stage) -> AssetStepView {
        AssetStepView::Announce { id: self.id, stage }
    }

    /// The work is over.
    pub open spec fn ended(self, outcome: Outcome) -> (AssetJobView, AssetStepView) {
        (self.at(PhaseView::Over), AssetStepView::End(outcome))
    }

    /// The first step: to tell that the asset is being fetched, unless the run is cancelled.
    pub open spec fn begun(self, cancelled: bool) -> (AssetJobView, AssetStepView) {
        if cancelled {
            self.ended(Outcome::Cancelled)
        } else {
            (self, self.announcing(Stage::Fetching))
        }
    }

    /// A step failed. A fatal failure stops the run even while it is being cancelled; after a
    /// cancel any other failure is only the cancel.
    pub open spec fn failed(
        self,
        error: StageErrorView,
        cancelled: bool,
    ) -> (AssetJobView, AssetStepView) {
        match error {
            StageErrorView::Fatal(message) => (
                self.at(PhaseView::Stopping),
                AssetStepView::StopRun(message),
            ),
            StageErrorView::Cancelled => self.ended(Outcome::Cancelled),
            other => if cancelled {
                self.ended(Outcome::Cancelled)
            } else {
                (
                    self.at(PhaseView::Reporting(Outcome::Failed)),
                    AssetStepView::Report(
                        EventView::AssetFailed {
                            id: self.id,
                            name: self.name,
                            error: other.text(),
                        },
                    ),
                )
            },
        }
    }

    /// Everything went well.
    pub open spec fn finished(
        self,
        text: Seq<char>,
        llm_took: nat,
        cancelled: bool,
        now: int,
    ) -> (AssetJobView, AssetStepView) {
        if cancelled {
            self.ended(Outcome::Cancelled)
        } else {
            (
                self.at(PhaseView::Reporting(Outcome::Done)),
                AssetStepView::Report(
                    EventView::AssetDone {
                        id: self.id,
                        name: self.name,
                        description: text,
                        took: time_between(now, self.started),
                        llm_took,
                    },
                ),
            )
        }
    }

    /// The next phase and step, given what came of the last step, whether the run has been
    /// cancelled, and the time.
    pub open spec fn after(
        self,
        input: AssetInputView,
        cancelled: bool,
        now: int,
    ) -> (AssetJobView, AssetStepView) {
        match (self.phase, input) {
            (PhaseView::AnnouncingFetch, AssetInputView::Announced(true)) => (
                self.at(PhaseView::Fetching),
                AssetStepView::Fetch { id: self.id },
            ),
            (PhaseView::Fetching, AssetInputView::Fetched(Ok(jpeg))) => (
                self.at(PhaseView::AnnouncingCall { jpeg }),
                self.announcing(Stage::CallingLlm),
            ),
            (PhaseView::Fetching, AssetInputView::Fetched(Err(error))) => self.failed(
                error,
                cancelled,
            ),
            (PhaseView::AnnouncingCall { jpeg }, AssetInputView::Announced(true)) => (
                self.at(PhaseView::Calling { llm_started: now }),
                AssetStepView::Describe { jpeg, prompt: self.prompt },
            ),
            (PhaseView::Calling { llm_started }, AssetInputView::Described(Ok(text))) => {
                let llm_took = time_between(now, llm_started);
                if self.dry_run {
                    self.finished(text, llm_took, cancelled, now)
                } else {
                    (
                        self.at(PhaseView::AnnouncingWrite { text, llm_took }),
                        self.announcing(Stage::Writing),
                    )
                }
            },
            (PhaseView::Calling { .. }, AssetInputView::Described(Err(error))) => self.failed(
                error,
                cancelled,
            ),
            (PhaseView::AnnouncingWrite { text, llm_took }, AssetInputView::Announced(true)) => (
                self.at(PhaseView::Writing { text, llm_took }),
                AssetStepView::Write { id: self.id, text },
            ),
            (PhaseView::Writing { text, llm_took }, AssetInputView::Written(Ok(_))) =>
                self.finished(text, llm_took, cancelled, now),
            (PhaseView::Writing { .. }, AssetInputView::Written(Err(error))) => self.failed(
                error,
                cancelled,
            ),
            (PhaseView::Reporting(outcome), AssetInputView::Reported) => self.ended(outcome),
            _ => self.ended(Outcome::Cancelled),
        }
    }
}

/// A new job for an asset.
pub open spec fn job_of(
    asset: AssetView,
    prompt: Seq<char>,
    dry_run: bool,
    now: int,
) -> AssetJobView {
    AssetJobView {
        id: asset.id,
        name: asset.name,
        prompt,
        dry_run,
        started: now,
        phase: PhaseView::AnnouncingFetch,
    }
}

impl AssetStepView {
    /// The step may be dropped as soon as the run is cancelled. A write that is under way is
    /// left to end.
    pub open spec fn can_interrupt(self) -> bool {
        !(self is Write)
    }
}

impl AssetStep {
    /// Whether the step may be dropped as soon as the run is cancelled.
    pub fn interruptible(&self) -> (r: bool)
        ensures
            r == self@.can_interrupt(),
    {
        !matches!(self, AssetStep::Write { .. })
    }
}

impl AssetJob {
    /// Takes an asset on, to be described as the prompt says.
    pub fn begin(
        asset: &Asset,
        prompt: &str,
        dry_run: bool,
        cancelled: bool,
        now: Instant,
    ) -> (r: (AssetJob, AssetStep))
        ensures
            (r.0@, r.1@) == job_of(asset@, prompt@, dry_run, instant_nanos(now)).begun(cancelled),
    {
        let job = AssetJob {
            id: asset.id.clone(),
            name: asset.name.clone(),
            prompt: prompt.to_owned(),
            dry_run,
            started: now,
            phase: Phase::AnnouncingFetch,
        };
        if cancelled {
            return job.end(Outcome::Cancelled);
        }
        job.announce(Phase::AnnouncingFetch, Stage::Fetching)
    }

    /// Takes what came of the last step, whether the run has been cancelled, and the time,
    /// and says what to do next.
    pub fn advance(self, input: AssetInput, cancelled: bool, now: Instant) -> (r: (
        AssetJob,
        AssetStep,
    ))
        requires
            self@.expects(input@),
        ensures
            (r.0@, r.1@) == self@.after(input@, cancelled, instant_nanos(now)),
    {
        let AssetJob { id, name, prompt, dry_run, started, phase } = self;
        let over = AssetJob { id, name, prompt, dry_run, started, phase: Phase::Over };
        match (phase, input) {
            (Phase::AnnouncingFetch, AssetInput::Announced(true)) => {
                let id = over.id.clone();
                (over.enter(Phase::Fetching), AssetStep::Fetch { id })
            },
            (Phase::Fetching, AssetInput::Fetched(Ok(jpeg))) => over.announce(
                Phase::AnnouncingCall { jpeg },
                Stage::CallingLlm,
            ),
            (Phase::Fetching, AssetInput::Fetched(Err(error))) => over.fail(error, cancelled),
            (Phase::AnnouncingCall { jpeg }, AssetInput::Announced(true)) => {
                let step = AssetStep::Describe { jpeg, prompt: over.prompt.clone() };
                (over.enter(Phase::Calling { llm_started: now }), step)
            },
            (Phase::Calling { llm_started }, AssetInput::Described(Ok(text))) => {
                let llm_took = now.saturating_duration_since(llm_started);
                if dry_run {
                    over.finish(text, llm_took, cancelled, now)
                } else {
                    over.announce(Phase::AnnouncingWrite { text, llm_took }, Stage::Writing)
                }
            },
            (Phase::Calling { .. }, AssetInput::Described(Err(error))) => over.fail(
                error,
                cancelled,
            ),
            (Phase::AnnouncingWrite { text, llm_took }, AssetInput::Announced(true)) => {
                let step = AssetStep::Write { id: over.id.clone(), text: text.clone() };
                (over.enter(Phase::Writing { text, llm_took }), step)
            },
            (Phase::Writing { text, llm_took }, AssetInput::Written(Ok(_))) => over.finish(
                text,
                llm_took,
                cancelled,
                now,
            ),
            (Phase::Writing { .. }, AssetInput::Written(Err(error))) => over.fail(
                error,
                cancelled,
            ),
            (Phase::Reporting(outcome), AssetInput::Reported) => over.end(outcome),
            _ => over.end(Outcome::Cancelled),
        }
    }

    fn enter(self, phase: Phase) -> (r: AssetJob)
        ensures
            r@ == self@.at(phase@),
    {
        AssetJob { phase, ..self }
    }

    fn announce(self, phase: Phase, stage: Stage) -> (r: (AssetJob, AssetStep))
        ensures
            (r.0@, r.1@) == (self@.at(phase@), self@.announcing(stage)),
    {
        let id = self.id.clone();
        (self.enter(phase), AssetStep::Announce { id, stage })
    }

    fn end(self, outcome: Outcome) -> (r: (AssetJob, AssetStep))
        ensures
            (r.0@, r.1@) == self@.ended(outcome),
    {
        (self.enter(Phase::Over), AssetStep::End(outcome))
    }

    fn fail(self, error: StageError, cancelled: bool) -> (r: (AssetJob, AssetStep))
        ensures
            (r.0@, r.1@) == self@.failed(error@, cancelled),
    {
        if cancelled && !matches!(error, StageError::Fatal(_)) {
            return self.end(Outcome::Cancelled);
        }
        match error {
            StageError::Fatal(message) => (
                self.enter(Phase::Stopping),
                AssetStep::StopRun(message),
            ),
            StageError::Cancelled => self.end(Outcome::Cancelled),
            other => {
                let event = Event::AssetFailed {
                    id: self.id.clone(),
                    name: self.name.clone(),
                    error: other.to_string(),
                };
                (self.enter(Phase::Reporting(Outcome::Failed)), AssetStep::Report(event))
            },
        }
    }

    fn finish(self, text: String, llm_took: Duration, cancelled: bool, now: Instant) -> (r: (
        AssetJob,
        AssetStep,
    ))
        ensures
            (r.0@, r.1@) == self@.finished(
                text@,
                duration_nanos(llm_took),
                cancelled,
                instant_nanos(now),
            ),
    {
        if cancelled {
            return self.end(Outcome::Cancelled);
        }
        let event = Event::AssetDone {
            id: self.id.clone(),
            name: self.name.clone(),
            description: text,
            took: now.saturating_duration_since(self.started),
            llm_took,
        };
        (self.enter(Phase::Reporting(Outcome::Done)), AssetStep::Report(event))
    }
}

/// One turn of an asset's machine: the input, whether the run has been cancelled, the time.
pub type Turn = (AssetInputView, bool, int);

/// The steps that a job asks for over these turns.
pub open spec fn steps(job: AssetJobView, turns: Seq<Turn>) -> Seq<AssetStepView>
    decreases turns.len(),
{
    if turns.len() == 0 {
        seq![]
    } else {
        let (next, step) = job.after(turns[0].0, turns[0].1, turns[0].2);
        seq![step] + steps(next, turns.skip(1))
    }
}

/// An asset with no failure goes through its stages in order, each told with its id: it is
/// fetched, the preview that came is described as the prompt says, exactly the description is
/// written back, and the asset is reported as done.
pub proof fn law_asset_goes_through_its_stages(
    asset: AssetView,
    prompt: Seq<char>,
    jpeg: Seq<u8>,
    text: Seq<char>,
    started: int,
    t: Seq<int>,
)
    requires
        t.len() == 7,
    ensures
        job_of(asset, prompt, false, started).begun(false) == (
            job_of(asset, prompt, false, started),
            AssetStepView::Announce { id: asset.id, stage: Stage::Fetching },
        ),
        steps(
            job_of(asset, prompt, false, started),
            seq![
                (AssetInputView::Announced(true), false, t[0]),
                (AssetInputView::Fetched(Ok(jpeg)), false, t[1]),
                (AssetInputView::Announced(true), false, t[2]),
                (AssetInputView::Described(Ok(text)), false, t[3]),
                (AssetInputView::Announced(true), false, t[4]),
                (AssetInputView::Written(Ok(())), false, t[5]),
                (AssetInputView::Reported, false, t[6]),
            ],
        ) == seq![
            AssetStepView::Fetch { id: asset.id },
            AssetStepView::Announce { id: asset.id, stage: Stage::CallingLlm },
            AssetStepView::Describe { jpeg, prompt },
            AssetStepView::Announce { id: asset.id, stage: Stage::Writing },
            AssetStepView::Write { id: asset.id, text },
            AssetStepView::Report(
                EventView::AssetDone {
                    id: asset.id,
                    name: asset.name,
                    description: text,
                    took: time_between(t[5], started),
                    llm_took: time_between(t[3], t[2]),
                },
            ),
            AssetStepView::End(Outcome::Done),
        ],
{
    reveal_with_fuel(steps, 8);
}

/// In a dry run an asset with no failure is described and reported, and nothing is written.
pub proof fn law_dry_run_describes_without_writing(
    asset: AssetView,
    prompt: Seq<char>,
    jpeg: Seq<u8>,
    text: Seq<char>,
    started: int,
    t: Seq<int>,
)
    requires
        t.len() == 5,
    ensures
        steps(
            job_of(asset, prompt, true, started),
            seq![
                (AssetInputView::Announced(true), false, t[0]),
                (AssetInputView::Fetched(Ok(jpeg)), false, t[1]),
                (AssetInputView::Announced(true), false, t[2]),
                (AssetInputView::Described(Ok(text)), false, t[3]),
                (AssetInputView::Reported, false, t[4]),
            ],
        ) == seq![
            AssetStepView::Fetch { id: asset.id },
            AssetStepView::Announce { id: asset.id, stage: Stage::CallingLlm },
            AssetStepView::Describe { jpeg, prompt },
            AssetStepView::Report(
                EventView::AssetDone {
                    id: asset.id,
                    name: asset.name,
                    description: text,
                    took: time_between(t[3], started),
                    llm_took: time_between(t[3], t[2]),
                },
            ),
            AssetStepView::End(Outcome::Done),
        ],
{
    reveal_with_fuel(steps, 6);
}

/// Whatever happens in a dry run, no step writes.
pub proof fn law_dry_run_never_writes(job: AssetJobView, turns: Seq<Turn>, i: int)
    requires
        job.dry_run,
        !(job.phase is AnnouncingWrite),
        0 <= i < steps(job, turns).len(),
    ensures
        !(steps(job, turns)[i] is Write),
        steps(job, turns)[i] matches AssetStepView::Announce { stage, .. } ==> stage
            != Stage::Writing,
    decreases turns.len(),
{
    if turns.len() > 0 {
        let (next, step) = job.after(turns[0].0, turns[0].1, turns[0].2);
        if i > 0 {
            assert(steps(job, turns)[i] == steps(next, turns.skip(1))[i - 1]);
            law_dry_run_never_writes(next, turns.skip(1), i - 1);
        }
    }
}

/// Whatever happens, a job announces, fetches and writes its own asset and no other. What it
/// has described is the preview that was fetched, with its prompt, and what it writes is what
/// the model said of it.
pub proof fn law_job_touches_only_its_asset(
    job: AssetJobView,
    input: AssetInputView,
    cancelled: bool,
    now: int,
)
    ensures
        ({
            let (next, step) = job.after(input, cancelled, now);
            &&& next.id == job.id
            &&& next.prompt == job.prompt
            &&& step matches AssetStepView::Announce { id, .. } ==> id == job.id
            &&& step matches AssetStepView::Fetch { id } ==> id == job.id
            &&& step matches AssetStepView::Describe { jpeg, prompt } ==> {
                &&& job.phase == PhaseView::AnnouncingCall { jpeg }
                &&& prompt == job.prompt
            }
            &&& next.phase matches PhaseView::AnnouncingCall { jpeg } ==> input
                == AssetInputView::Fetched(Ok(jpeg))
            &&& step matches AssetStepView::Write { id, text } ==> {
                &&& id == job.id
                &&& job.phase matches PhaseView::AnnouncingWrite { text: described, .. }
                    && described == text
            }
            &&& next.phase matches PhaseView::AnnouncingWrite { text, .. } ==> input
                == AssetInputView::Described(Ok(text))
        }),
{
}

/// An asset is written only after the model has described it, and what is written is a
/// description that came: if the preview or the description fails, nothing is.
pub proof fn law_only_described_assets_are_written(job: AssetJobView, turns: Seq<Turn>, i: int)
    requires
        !(job.phase is AnnouncingWrite),
        0 <= i < steps(job, turns).len(),
        steps(job, turns)[i] is Write,
    ensures
        steps(job, turns)[i]->Write_id == job.id,
        exists|k: int|
            0 <= k < i && (#[trigger] turns[k]).0 == AssetInputView::Described(
                Ok(steps(job, turns)[i]->Write_text),
            ),
    decreases turns.len(),
{
    let (next, step) = job.after(turns[0].0, turns[0].1, turns[0].2);
    let rest = turns.skip(1);
    assert(i > 0);
    assert(steps(job, turns)[i] == steps(next, rest)[i - 1]);
    if next.phase is AnnouncingWrite {
        let (after, written) = next.after(rest[0].0, rest[0].1, rest[0].2);
        if i > 1 {
            assert(steps(next, rest)[i - 1] == steps(after, rest.skip(1))[i - 2]);
            lemma_one_write(after, rest.skip(1), i - 2);
        }
        assert(turns[0].0 == AssetInputView::Described(Ok(steps(job, turns)[i]->Write_text)));
    } else {
        law_only_described_assets_are_written(next, rest, i - 1);
        lemma_one_step_each_turn(job, turns);
        let text = steps(job, turns)[i]->Write_text;
        let k = choose|k: int|
            0 <= k < i - 1 && (#[trigger] rest[k]).0 == AssetInputView::Described(Ok(text));
        assert(turns[k + 1] == rest[k]);
    }
}

proof fn lemma_one_step_each_turn(job: AssetJobView, turns: Seq<Turn>)
    ensures
        steps(job, turns).len() == turns.len(),
    decreases turns.len(),
{
    if turns.len() > 0 {
        let next = job.after(turns[0].0, turns[0].1, turns[0].2).0;
        lemma_one_step_each_turn(next, turns.skip(1));
    }
}

/// Past the announcement of its write a job asks for no further one.
proof fn lemma_one_write(job: AssetJobView, turns: Seq<Turn>, i: int)
    requires
        job.phase is Writing || job.phase is Reporting || job.phase is Stopping
            || job.phase is Over,
        0 <= i < steps(job, turns).len(),
    ensures
        !(steps(job, turns)[i] is Write),
    decreases turns.len(),
{
    let (next, step) = job.after(turns[0].0, turns[0].1, turns[0].2);
    if i > 0 {
        assert(steps(job, turns)[i] == steps(next, turns.skip(1))[i - 1]);
        lemma_one_write(next, turns.skip(1), i - 1);
    }
}

/// Once the run is cancelled no result of a step is reported any more.
pub proof fn law_cancelled_assets_report_nothing(
    job: AssetJobView,
    input: AssetInputView,
    now: int,
)
    ensures
        !(job.after(input, true, now).1 is Report),
{
}

/// An asset counts as done exactly when it was reported as done, and as failed exactly when it
/// was reported as failed.
pub proof fn law_outcomes_match_reports(
    job: AssetJobView,
    input: AssetInputView,
    cancelled: bool,
    now: int,
)
    ensures
        ({
            let (next, step) = job.after(input, cancelled, now);
            &&& step is Report <==> next.phase is Reporting
            &&& next.phase == PhaseView::Reporting(Outcome::Done) <==> (
            step matches AssetStepView::Report(event) && event is AssetDone)
            &&& next.phase == PhaseView::Reporting(Outcome::Failed) <==> (
            step matches AssetStepView::Report(event) && event is AssetFailed)
            &&& step == AssetStepView::End(Outcome::Done) ==> job.phase == PhaseView::Reporting(
                Outcome::Done,
            ) && input is Reported
            &&& step == AssetStepView::End(Outcome::Failed) ==> job.phase == PhaseView::Reporting(
                Outcome::Failed,
            ) && input is Reported
        }),
{
}

/// Every failure of a step ends the work on the asset: it is reported, or it stops the run,
/// or the run was cancelled. No further step of the asset follows.
pub proof fn law_failures_end_the_asset(
    job: AssetJobView,
    error: StageErrorView,
    cancelled: bool,
)
    ensures
        job.failed(error, cancelled).1 is Report || job.failed(error, cancelled).1 is StopRun
            || job.failed(error, cancelled).1 == AssetStepView::End(Outcome::Cancelled),
        job.failed(error, cancelled).1 is StopRun <==> error is Fatal,
        job.failed(error, cancelled).1 is Report <==> !cancelled && (error is Transient
            || error is Permanent),
{
}

/// A call whose every attempt fails for a passing reason is made `retries + 1` times, and the
/// last failure says so. Any other failure is given up at once.
pub proof fn law_attempts_are_counted(retries: nat, attempt: nat, base: nat, error: StageErrorView)
    requires
        1 <= attempt <= retries + 1,
    ensures
        backoff(attempt, retries + 1, base, error) is Some <==> error is Transient && attempt
            <= retries,
        !(error is Transient) ==> given_up(retries + 1, error) == error,
        backoff(attempt, retries + 1, base, error) is Some && attempt < retries ==> backoff(
            attempt + 1,
            retries + 1,
            base,
            error,
        ) == Some(2 * backoff(attempt, retries + 1, base, error)->0),
{
    if attempt < retries {
        lemma_pow2_unfold(attempt);
        let p = pow2((attempt - 1) as nat);
        assert(base * (2 * p) == 2 * (base * p)) by (nonlinear_arith);
    }
}

// ---------------------------------------------------------------------------
// Workers
// ---------------------------------------------------------------------------

/// A worker: it takes assets from the queue, one at a time, and waits while the run is paused.
#[derive(Debug)]
pub struct Worker {
    /// An asset taken from the queue and put back in hand because a pause came.
    pub pending: Option<Asset>,
    pub done: u64,
    pub failed: u64,
    pub phase: WorkerPhase,
}

#[derive(Debug)]
pub enum WorkerPhase {
    Waiting,
    Receiving,
    Checking(Asset),
    Starting(Asset),
    Processing,
    Stopped,
}

/// What came of telling that an asset is started.
#[derive(Debug, Clone, Copy, PartialEq, Eq, Structural)]
pub enum StartReport {
    Told,
    /// The run is cancelled or nobody listens.
    Refused,
    /// A pause came first, and nothing was told.
    Paused,
}

/// What came of a step of a worker.
#[derive(Debug)]
pub enum WorkerInput {
    /// Whether the run goes on. It does not once it is cancelled.
    Resumed(bool),
    /// The next asset, or none if the queue is at its end or the run is cancelled.
    Received(Option<Asset>),
    Checked { cancelled: bool, paused: bool },
    Started(StartReport),
    Processed(Outcome),
}

/// What a worker does next.
#[derive(Debug)]
pub enum WorkerStep {
    /// Wait until the run is not paused.
    WaitForResume,
    /// Take the next asset from the queue.
    Receive,
    /// Look whether the run is cancelled or paused, with no pause coming in between.
    Check,
    /// Tell that the asset is started, unless a pause comes first.
    Start(Event),
    Process(Asset),
    Stop,
}

/// Mathematical model of [`WorkerPhase`].
pub enum WorkerPhaseView {
    Waiting,
    Receiving,
    Checking(AssetView),
    Starting(AssetView),
    Processing,
    Stopped,
}

impl View for WorkerPhase {
    type V = WorkerPhaseView;

    open spec fn view(&self) -> WorkerPhaseView {
        match *self {
            WorkerPhase::Waiting => WorkerPhaseView::Waiting,
            WorkerPhase::Receiving => WorkerPhaseView::Receiving,
            WorkerPhase::Checking(asset) => WorkerPhaseView::Checking(asset@),
            WorkerPhase::Starting(asset) => WorkerPhaseView::Starting(asset@),
            WorkerPhase::Processing => WorkerPhaseView::Processing,
            WorkerPhase::Stopped => WorkerPhaseView::Stopped,
        }
    }
}

/// The model of an optional asset.
pub open spec fn opt_asset(a: Option<Asset>) -> Option<AssetView> {
    match a {
        Some(asset) => Some(asset@),
        None => None,
    }
}

/// Mathematical model of [`WorkerInput`].
pub enum WorkerInputView {
    Resumed(bool),
    Received(Option<AssetView>),
    Checked { cancelled: bool, paused: bool },
    Started(StartReport),
    Processed(Outcome),
}

impl View for WorkerInput {
    type V = WorkerInputView;

    open spec fn view(&self) -> WorkerInputView {
        match *self {
            WorkerInput::Resumed(on) => WorkerInputView::Resumed(on),
            WorkerInput::Received(asset) => WorkerInputView::Received(opt_asset(asset)),
            WorkerInput::Checked { cancelled, paused } => WorkerInputView::Checked {
                cancelled,
                paused,
            },
            WorkerInput::Started(report) => WorkerInputView::Started(report),
            WorkerInput::Processed(outcome) => WorkerInputView::Processed(outcome),
        }
    }
}

/// Mathematical model of [`WorkerStep`].
pub enum WorkerStepView {
    WaitForResume,
    Receive,
    Check,
    Start(EventView),
    Process(AssetView),
    Stop,
}

impl View for WorkerStep {
    type V = WorkerStepView;

    open spec fn view(&self) -> WorkerStepView {
        match *self {
            WorkerStep::WaitForResume => WorkerStepView::WaitForResume,
            WorkerStep::Receive => WorkerStepView::Receive,
            WorkerStep::Check => WorkerStepView::Check,
            WorkerStep::Start(event) => WorkerStepView::Start(event@),
            WorkerStep::Process(asset) => WorkerStepView::Process(asset@),
            WorkerStep::Stop => WorkerStepView::Stop,
        }
    }
}

/// Mathematical model of [`Worker`].
pub struct WorkerView {
    pub pending: Option<AssetView>,
    pub done: nat,
    pub failed: nat,
    pub phase: WorkerPhaseView,
}

impl View for Worker {
    type V = WorkerView;

    open spec fn view(&self) -> WorkerView {
        WorkerView {
            pending: opt_asset(self.pending),
            done: self.done as nat,
            failed: self.failed as nat,
            phase: self.phase@,
        }
    }
}

impl WorkerView {
    /// The input answers the step that this phase waits for, and can be counted.
    pub open spec fn expects(self, input: WorkerInputView) -> bool {
        match self.phase {
            WorkerPhaseView::Waiting => input is Resumed,
            WorkerPhaseView::Receiving => input is Received,
            WorkerPhaseView::Checking(_) => input is Checked,
            WorkerPhaseView::Starting(_) => input is Started,
            WorkerPhaseView::Processing => input is Processed && self.done < u64::MAX
                && self.failed < u64::MAX,
            WorkerPhaseView::Stopped => false,
        }
    }

    pub open spec fn at(self, phase: WorkerPhaseView) -> WorkerView {
        WorkerView { phase, ..self }
    }

    /// Back to the top of the loop.
    pub open spec fn looped(self) -> (WorkerView, WorkerStepView) {
        (self.at(WorkerPhaseView::Waiting), WorkerStepView::WaitForResume)
    }

    pub open spec fn stopped(self) -> (WorkerView, WorkerStepView) {
        (self.at(WorkerPhaseView::Stopped), WorkerStepView::Stop)
    }

    /// The next phase and step, given what came of the last step.
    pub open spec fn after(self, input: WorkerInputView) -> (WorkerView, WorkerStepView) {
        match (self.phase, input) {
            (WorkerPhaseView::Waiting, WorkerInputView::Resumed(true)) => match self.pending {
                Some(asset) => (
                    WorkerView {
                        pending: None,
                        phase: WorkerPhaseView::Checking(asset),
                        ..self
                    },
                    WorkerStepView::Check,
                ),
                None => (self.at(WorkerPhaseView::Receiving), WorkerStepView::Receive),
            },
            (WorkerPhaseView::Receiving, WorkerInputView::Received(Some(asset))) => (
                self.at(WorkerPhaseView::Checking(asset)),
                WorkerStepView::Check,
            ),
            (
                WorkerPhaseView::Checking(asset),
                WorkerInputView::Checked { cancelled, paused },
            ) => if cancelled {
                self.stopped()
            } else if paused {
                WorkerView { pending: Some(asset), ..self }.looped()
            } else {
                (
                    self.at(WorkerPhaseView::Starting(asset)),
                    WorkerStepView::Start(
                        EventView::AssetStarted { id: asset.id, name: asset.name },
                    ),
                )
            },
            (WorkerPhaseView::Starting(asset), WorkerInputView::Started(report)) => match report {
                StartReport::Told => (
                    self.at(WorkerPhaseView::Processing),
                    WorkerStepView::Process(asset),
                ),
                StartReport::Refused => self.stopped(),
                StartReport::Paused => WorkerView { pending: Some(asset), ..self }.looped(),
            },
            (WorkerPhaseView::Processing, WorkerInputView::Processed(outcome)) => match outcome {
                Outcome::Done => WorkerView { done: self.done + 1, ..self }.looped(),
                Outcome::Failed => WorkerView { failed: self.failed + 1, ..self }.looped(),
                Outcome::Cancelled => self.stopped(),
            },
            _ => self.stopped(),
        }
    }

    /// The asset that the worker has in hand, if any.
    pub open spec fn held(self) -> Option<AssetView> {
        match self.phase {
            WorkerPhaseView::Checking(asset) => Some(asset),
            WorkerPhaseView::Starting(asset) => Some(asset),
            _ => self.pending,
        }
    }

    /// The worker has at most one asset in hand.
    pub open spec fn wf(self) -> bool {
        !(self.phase is Waiting) && !(self.phase is Stopped) ==> self.pending is None
    }
}

/// A worker at the start of a run.
pub open spec fn fresh_worker() -> WorkerView {
    WorkerView { pending: None, done: 0, failed: 0, phase: WorkerPhaseView::Waiting }
}

impl Worker {
    /// A new worker.
    pub fn begin() -> (r: (Worker, WorkerStep))
        ensures
            (r.0@, r.1@) == fresh_worker().looped(),
            r.0@.wf(),
    {
        (
            Worker { pending: None, done: 0, failed: 0, phase: WorkerPhase::Waiting },
            WorkerStep::WaitForResume,
        )
    }

    /// Takes what came of the last step and says what to do next.
    pub fn advance(self, input: WorkerInput) -> (r: (Worker, WorkerStep))
        requires
            self@.expects(input@),
        ensures
            (r.0@, r.1@) == self@.after(input@),
    {
        let Worker { pending, done, failed, phase } = self;
        match (phase, input) {
            (WorkerPhase::Waiting, WorkerInput::Resumed(true)) => match pending {
                Some(asset) => (
                    Worker { pending: None, done, failed, phase: WorkerPhase::Checking(asset) },
                    WorkerStep::Check,
                ),
                None => (
                    Worker { pending, done, failed, phase: WorkerPhase::Receiving },
                    WorkerStep::Receive,
                ),
            },
            (WorkerPhase::Receiving, WorkerInput::Received(Some(asset))) => (
                Worker { pending, done, failed, phase: WorkerPhase::Checking(asset) },
                WorkerStep::Check,
            ),
            (WorkerPhase::Checking(asset), WorkerInput::Checked { cancelled, paused }) => {
                if cancelled {
                    stop_worker(pending, done, failed)
                } else if paused {
                    loop_worker(Some(asset), done, failed)
                } else {
                    let event = Event::AssetStarted {
                        id: asset.id.clone(),
                        name: asset.name.clone(),
                    };
                    (
                        Worker { pending, done, failed, phase: WorkerPhase::Starting(asset) },
                        WorkerStep::Start(event),
                    )
                }
            },
            (WorkerPhase::Starting(asset), WorkerInput::Started(report)) => match report {
                StartReport::Told => (
                    Worker { pending, done, failed, phase: WorkerPhase::Processing },
                    WorkerStep::Process(asset),
                ),
                StartReport::Refused => stop_worker(pending, done, failed),
                StartReport::Paused => loop_worker(Some(asset), done, failed),
            },
            (WorkerPhase::Processing, WorkerInput::Processed(outcome)) => match outcome {
                Outcome::Done => loop_worker(pending, done + 1, failed),
                Outcome::Failed => loop_worker(pending, done, failed + 1),
                Outcome::Cancelled => stop_worker(pending, done, failed),
            },
            _ => stop_worker(pending, done, failed),
        }
    }
}

fn loop_worker(pending: Option<Asset>, done: u64, failed: u64) -> (r: (Worker, WorkerStep))
    ensures
        (r.0@, r.1@) == (
            WorkerView {
                pending: opt_asset(pending),
                done: done as nat,
                failed: failed as nat,
                phase: WorkerPhaseView::Waiting,
            },
            WorkerStepView::WaitForResume,
        ),
{
    (Worker { pending, done, failed, phase: WorkerPhase::Waiting }, WorkerStep::WaitForResume)
}

fn stop_worker(pending: Option<Asset>, done: u64, failed: u64) -> (r: (Worker, WorkerStep))
    ensures
        (r.0@, r.1@) == (
            WorkerView {
                pending: opt_asset(pending),
                done: done as nat,
                failed: failed as nat,
                phase: WorkerPhaseView::Stopped,
            },
            WorkerStepView::Stop,
        ),
{
    (Worker { pending, done, failed, phase: WorkerPhase::Stopped }, WorkerStep::Stop)
}

/// No asset is started unless the run was looked at and found neither cancelled nor paused,
/// and none is worked on unless its start was told.
pub proof fn law_no_asset_starts_while_paused(worker: WorkerView, input: WorkerInputView)
    ensures
        worker.after(input).1 is Start ==> input == (WorkerInputView::Checked {
            cancelled: false,
            paused: false,
        }),
        worker.after(input).1 is Process ==> input == WorkerInputView::Started(StartReport::Told),
{
}

/// An asset taken from the queue is not lost to a pause: it stays in hand until it is worked
/// on or the worker stops, and nothing else is taken from the queue meanwhile.
pub proof fn law_pause_keeps_the_asset_in_hand(worker: WorkerView, input: WorkerInputView)
    requires
        worker.wf(),
        worker.expects(input),
    ensures
        worker.after(input).0.wf(),
        worker.held() matches Some(asset) ==> {
            ||| worker.after(input).0.held() == Some(asset) && !(worker.after(input).1 is Receive)
            ||| worker.after(input).1 == WorkerStepView::Process(asset)
            ||| worker.after(input).1 is Stop
        },
        worker.after(input).1 is Receive ==> worker.held() is None,
{
}

/// The steps that a worker asks for over these inputs.
pub open spec fn worker_steps(worker: WorkerView, inputs: Seq<WorkerInputView>) -> Seq<
    WorkerStepView,
>
    decreases inputs.len(),
{
    if inputs.len() == 0 {
        seq![]
    } else {
        let (next, step) = worker.after(inputs[0]);
        seq![step] + worker_steps(next, inputs.skip(1))
    }
}

/// The worker after these inputs.
pub open spec fn worker_after(worker: WorkerView, inputs: Seq<WorkerInputView>) -> WorkerView
    decreases inputs.len(),
{
    if inputs.len() == 0 {
        worker
    } else {
        worker_after(worker.after(inputs[0]).0, inputs.skip(1))
    }
}

/// How often `outcome` came of an asset in these inputs.
pub open spec fn outcomes(inputs: Seq<WorkerInputView>, outcome: Outcome) -> nat
    decreases inputs.len(),
{
    if inputs.len() == 0 {
        0
    } else {
        outcomes(inputs.skip(1), outcome) + if inputs[0] == WorkerInputView::Processed(outcome) {
            1nat
        } else {
            0
        }
    }
}

/// These inputs answer the steps of the worker, one after the other.
pub open spec fn answers(worker: WorkerView, inputs: Seq<WorkerInputView>) -> bool
    decreases inputs.len(),
{
    inputs.len() == 0 || worker.expects(inputs[0]) && answers(
        worker.after(inputs[0]).0,
        inputs.skip(1),
    )
}

/// A worker counts every asset it worked on, once, by its outcome.
pub proof fn law_workers_count_their_assets(worker: WorkerView, inputs: Seq<WorkerInputView>)
    requires
        answers(worker, inputs),
    ensures
        worker_after(worker, inputs).done == worker.done + outcomes(inputs, Outcome::Done),
        worker_after(worker, inputs).failed == worker.failed + outcomes(inputs, Outcome::Failed),
    decreases inputs.len(),
{
    if inputs.len() > 0 {
        law_workers_count_their_assets(worker.after(inputs[0]).0, inputs.skip(1));
    }
}

/// A worker works only on assets that it took from the queue.
pub proof fn law_workers_process_only_queued_assets(
    worker: WorkerView,
    inputs: Seq<WorkerInputView>,
    queue: Seq<AssetView>,
    i: int,
)
    requires
        worker.pending matches Some(asset) ==> queue.contains(asset),
        worker.held() matches Some(asset) ==> queue.contains(asset),
        forall|k: int|
            0 <= k < inputs.len() ==> (#[trigger] inputs[k] matches WorkerInputView::Received(
                Some(asset),
            ) ==> queue.contains(asset)),
        0 <= i < worker_steps(worker, inputs).len(),
    ensures
        worker_steps(worker, inputs)[i] matches WorkerStepView::Process(asset) ==> queue.contains(
            asset,
        ),
    decreases inputs.len(),
{
    if inputs.len() > 0 {
        let (next, step) = worker.after(inputs[0]);
        let rest = inputs.skip(1);
        if i > 0 {
            assert(worker_steps(worker, inputs)[i] == worker_steps(next, rest)[i - 1]);
            assert forall|k: int| 0 <= k < rest.len() implies (
            #[trigger] rest[k] matches WorkerInputView::Received(Some(asset)) ==> queue.contains(
                asset,
            )) by {
                assert(rest[k] == inputs[k + 1]);
            }
            law_workers_process_only_queued_assets(next, rest, queue, i - 1);
        }
    }
}

/// A photo that has a description is never worked on, whatever else happens: a worker fed from
/// the queue of the pages that were found processes only photos without one.
pub proof fn law_described_photos_are_never_touched(
    worker: WorkerView,
    inputs: Seq<WorkerInputView>,
    found: Seq<AssetView>,
    i: int,
)
    requires
        worker.pending is None,
        worker.held() is None,
        forall|k: int|
            0 <= k < inputs.len() ==> (#[trigger] inputs[k] matches WorkerInputView::Received(
                Some(asset),
            ) ==> wanted(found).contains(asset)),
        0 <= i < worker_steps(worker, inputs).len(),
    ensures
        worker_steps(worker, inputs)[i] matches WorkerStepView::Process(asset)
            ==> asset.undescribed() && found.contains(asset),
{
    law_workers_process_only_queued_assets(worker, inputs, wanted(found), i);
    if let WorkerStepView::Process(asset) = worker_steps(worker, inputs)[i] {
        law_described_assets_are_skipped(found, asset);
    }
}

// ---------------------------------------------------------------------------
// Discovery
// ---------------------------------------------------------------------------

/// The search for assets without a description, page by page.
#[derive(Debug, Clone, Copy, PartialEq, Eq)]
pub struct Discovery {
    /// The page to ask for next.
    pub page: u32,
    pub scanned: u64,
    pub queued: u64,
}

/// The assets of a page that need a description, in order.
pub open spec fn wanted(items: Seq<AssetView>) -> Seq<AssetView>
    decreases items.len(),
{
    if items.len() == 0 {
        seq![]
    } else if items.last().undescribed() {
        wanted(items.drop_last()).push(items.last())
    } else {
        wanted(items.drop_last())
    }
}

impl Discovery {
    /// No more is queued than was seen.
    pub open spec fn wf(self) -> bool {
        self.queued <= self.scanned
    }

    /// The first page, with nothing seen.
    pub fn new() -> (r: Self)
        ensures
            r.page == 1 && r.scanned == 0 && r.queued == 0,
            r.wf(),
    {
        Discovery { page: 1, scanned: 0, queued: 0 }
    }

    /// Takes a page in: the assets to queue, and the totals to report.
    pub fn take_page(&mut self, items: Vec<Asset>) -> (r: (Vec<Asset>, Event))
        requires
            old(self).wf(),
            old(self).scanned + items@.len() <= u64::MAX,
        ensures
            asset_views(r.0@) == wanted(asset_views(items@)),
            final(self).page == old(self).page,
            final(self).scanned == old(self).scanned + items@.len(),
            final(self).queued == old(self).queued + r.0@.len(),
            final(self).wf(),
            r.1@ == (EventView::PageLoaded {
                scanned: final(self).scanned,
                queued: final(self).queued,
            }),
    {
        let ghost all = asset_views(items@);
        let total: usize = items.len();
        let mut chosen: Vec<Asset> = Vec::new();
        for item in it: items
            invariant
                asset_views(it.seq()) == all,
                asset_views(chosen@) == wanted(all.take(it.index())),
                chosen@.len() <= it.index(),
        {
            let ghost k = it.index();
            let ghost before = chosen@;
            proof {
                assert(all[k] == item@);
                assert(all.take(k + 1).drop_last() =~= all.take(k));
            }
            if item.needs_description() {
                chosen.push(item);
                assert(asset_views(chosen@) =~= asset_views(before).push(item@));
            }
        }
        assert(all.take(all.len() as int) =~= all);
        self.scanned = self.scanned + total as u64;
        self.queued = self.queued + chosen.len() as u64;
        (chosen, Event::PageLoaded { scanned: self.scanned, queued: self.queued })
    }

    /// Whether there is another page, and moves on to it. Only a later page counts.
    pub fn follow(&mut self, next_page: Option<u32>) -> (r: bool)
        ensures
            r == (next_page matches Some(next) && next > old(self).page),
            r ==> final(self).page > old(self).page,
            *final(self) == (Discovery {
                page: if r {
                    next_page->0
                } else {
                    old(self).page
                },
                ..*old(self)
            }),
    {
        match next_page {
            Some(next) => {
                if next > self.page {
                    self.page = next;
                    true
                } else {
                    false
                }
            },
            None => false,
        }
    }

    /// The report at the end of the search.
    pub fn finished(&self) -> (r: Event)
        ensures
            r@ == (EventView::DiscoveryDone { total_queued: self.queued }),
    {
        Event::DiscoveryDone { total_queued: self.queued }
    }
}

/// The whole search: it lists page after page, reports the totals of each, queues what it
/// found, and reports its end.
#[derive(Debug)]
pub struct Search {
    pub discovery: Discovery,
    pub page_size: u32,
    pub phase: SearchPhase,
}

#[derive(Debug)]
pub enum SearchPhase {
    Listing,
    Reporting { found: Vec<Asset>, next_page: Option<u32> },
    /// An asset is being queued, with these to follow.
    Queueing { rest: Vec<Asset>, next_page: Option<u32> },
    Finishing,
    Stopping,
    Over,
}

/// What came of a step of the search.
#[derive(Debug)]
pub enum SearchInput {
    Listed(Result<Page, StageError>),
    Told,
    /// Whether the asset is in the queue. It is not once the run is cancelled.
    Queued(bool),
    Stopped,
}

/// What the search does next.
#[derive(Debug)]
pub enum SearchStep {
    /// List this page, of so many assets.
    List { page: u32, size: u32 },
    Tell(Event),
    Queue(Asset),
    /// Stop the whole run for this reason.
    StopRun(String),
    End,
}

/// Mathematical model of [`SearchPhase`].
pub enum SearchPhaseView {
    Listing,
    Reporting { found: Seq<AssetView>, next_page: Option<u32> },
    Queueing { rest: Seq<AssetView>, next_page: Option<u32> },
    Finishing,
    Stopping,
    Over,
}

impl View for SearchPhase {
    type V = SearchPhaseView;

    open spec fn view(&self) -> SearchPhaseView {
        match *self {
            SearchPhase::Listing => SearchPhaseView::Listing,
            SearchPhase::Reporting { found, next_page } => SearchPhaseView::Reporting {
                found: asset_views(found@),
                next_page,
            },
            SearchPhase::Queueing { rest, next_page } => SearchPhaseView::Queueing {
                rest: asset_views(rest@),
                next_page,
            },
            SearchPhase::Finishing => SearchPhaseView::Finishing,
            SearchPhase::Stopping => SearchPhaseView::Stopping,
            SearchPhase::Over => SearchPhaseView::Over,
        }
    }
}

/// Mathematical model of [`SearchInput`].
pub enum SearchInputView {
    Listed(Result<PageView, StageErrorView>),
    Told,
    Queued(bool),
    Stopped,
}

impl View for SearchInput {
    type V = SearchInputView;

    open spec fn view(&self) -> SearchInputView {
        match *self {
            SearchInput::Listed(Ok(page)) => SearchInputView::Listed(Ok(page@)),
            SearchInput::Listed(Err(error)) => SearchInputView::Listed(Err(error@)),
            SearchInput::Told => SearchInputView::Told,
            SearchInput::Queued(on) => SearchInputView::Queued(on),
            SearchInput::Stopped => SearchInputView::Stopped,
        }
    }
}

/// Mathematical model of [`SearchStep`].
pub enum SearchStepView {
    List { page: u32, size: u32 },
    Tell(EventView),
    Queue(AssetView),
    StopRun(Seq<char>),
    End,
}

impl View for SearchStep {
    type V = SearchStepView;

    open spec fn view(&self) -> SearchStepView {
        match *self {
            SearchStep::List { page, size } => SearchStepView::List { page, size },
            SearchStep::Tell(event) => SearchStepView::Tell(event@),
            SearchStep::Queue(asset) => SearchStepView::Queue(asset@),
            SearchStep::StopRun(message) => SearchStepView::StopRun(message@),
            SearchStep::End => SearchStepView::End,
        }
    }
}

/// Mathematical model of [`Search`].
pub struct SearchView {
    pub discovery: Discovery,
    pub page_size: u32,
    pub phase: SearchPhaseView,
}

impl View for Search {
    type V = SearchView;

    open spec fn view(&self) -> SearchView {
        SearchView {
            discovery: self.discovery,
            page_size: self.page_size,
            phase: self.phase@,
        }
    }
}

impl SearchView {
    /// The input answers the step that this phase waits for, and can be counted.
    pub open spec fn expects(self, input: SearchInputView) -> bool {
        match self.phase {
            SearchPhaseView::Listing => input is Listed && (input->Listed_0 matches Ok(page)
                ==> self.discovery.scanned + page.items.len() <= u64::MAX),
            SearchPhaseView::Reporting { .. } => input is Told,
            SearchPhaseView::Queueing { .. } => input is Queued,
            SearchPhaseView::Finishing => input is Told,
            SearchPhaseView::Stopping => input is Stopped,
            SearchPhaseView::Over => false,
        }
    }

    pub open spec fn at(self, phase: SearchPhaseView) -> SearchView {
        SearchView { phase, ..self }
    }

    pub open spec fn over(self) -> (SearchView, SearchStepView) {
        (self.at(SearchPhaseView::Over), SearchStepView::End)
    }

    /// The totals with a page of these items.
    pub open spec fn with_page(self, items: Seq<AssetView>) -> SearchView {
        SearchView {
            discovery: Discovery {
                scanned: (self.discovery.scanned + items.len()) as u64,
                queued: (self.discovery.queued + wanted(items).len()) as u64,
                ..self.discovery
            },
            ..self
        }
    }

    /// The page is done with: the search goes on with a later page, or reports its end.
    pub open spec fn turned(self, next_page: Option<u32>) -> (SearchView, SearchStepView) {
        match next_page {
            Some(next) if next > self.discovery.page => (
                SearchView {
                    discovery: Discovery { page: next, ..self.discovery },
                    page_size: self.page_size,
                    phase: SearchPhaseView::Listing,
                },
                SearchStepView::List { page: next, size: self.page_size },
            ),
            _ => (
                self.at(SearchPhaseView::Finishing),
                SearchStepView::Tell(
                    EventView::DiscoveryDone { total_queued: self.discovery.queued },
                ),
            ),
        }
    }

    /// The next of these assets is queued, or the page is done with.
    pub open spec fn queueing(
        self,
        rest: Seq<AssetView>,
        next_page: Option<u32>,
    ) -> (SearchView, SearchStepView) {
        if rest.len() == 0 {
            self.turned(next_page)
        } else {
            (
                self.at(SearchPhaseView::Queueing { rest: rest.skip(1), next_page }),
                SearchStepView::Queue(rest[0]),
            )
        }
    }

    /// The next phase and step, given what came of the last step.
    pub open spec fn after(self, input: SearchInputView) -> (SearchView, SearchStepView) {
        match (self.phase, input) {
            (SearchPhaseView::Listing, SearchInputView::Listed(Ok(page))) => {
                let next = self.with_page(page.items);
                (
                    next.at(
                        SearchPhaseView::Reporting {
                            found: wanted(page.items),
                            next_page: page.next_page,
                        },
                    ),
                    SearchStepView::Tell(
                        EventView::PageLoaded {
                            scanned: next.discovery.scanned,
                            queued: next.discovery.queued,
                        },
                    ),
                )
            },
            (SearchPhaseView::Listing, SearchInputView::Listed(Err(error))) => (
                self.at(SearchPhaseView::Stopping),
                SearchStepView::StopRun(error.text()),
            ),
            (SearchPhaseView::Reporting { found, next_page }, SearchInputView::Told) =>
                self.queueing(found, next_page),
            (SearchPhaseView::Queueing { rest, next_page }, SearchInputView::Queued(true)) =>
                self.queueing(rest, next_page),
            _ => self.over(),
        }
    }
}

/// A search at its start.
pub open spec fn fresh_search(page_size: u32) -> SearchView {
    SearchView {
        discovery: Discovery { page: 1, scanned: 0, queued: 0 },
        page_size,
        phase: SearchPhaseView::Listing,
    }
}

impl Search {
    /// A new search, of pages of `page_size` assets.
    pub fn begin(page_size: u32) -> (r: (Search, SearchStep))
        ensures
            (r.0@, r.1@) == (
                fresh_search(page_size),
                SearchStepView::List { page: 1, size: page_size },
            ),
            r.0.discovery.wf(),
    {
        (
            Search { discovery: Discovery::new(), page_size, phase: SearchPhase::Listing },
            SearchStep::List { page: 1, size: page_size },
        )
    }

    /// Takes what came of the last step and says what to do next.
    pub fn advance(self, input: SearchInput) -> (r: (Search, SearchStep))
        requires
            self.discovery.wf(),
            self@.expects(input@),
        ensures
            (r.0@, r.1@) == self@.after(input@),
            r.0.discovery.wf(),
    {
        let Search { discovery, page_size, phase } = self;
        let mut discovery = discovery;
        match (phase, input) {
            (SearchPhase::Listing, SearchInput::Listed(Ok(page))) => {
                let Page { items, next_page } = page;
                let (found, event) = discovery.take_page(items);
                assert(found@.len() == asset_views(found@).len());
                assert(items@.len() == asset_views(items@).len());
                (
                    Search {
                        discovery,
                        page_size,
                        phase: SearchPhase::Reporting { found, next_page },
                    },
                    SearchStep::Tell(event),
                )
            },
            (SearchPhase::Listing, SearchInput::Listed(Err(error))) => (
                Search { discovery, page_size, phase: SearchPhase::Stopping },
                SearchStep::StopRun(error.to_string()),
            ),
            (SearchPhase::Reporting { found, next_page }, SearchInput::Told) => queue_next(
                discovery,
                page_size,
                found,
                next_page,
            ),
            (SearchPhase::Queueing { rest, next_page }, SearchInput::Queued(true)) => queue_next(
                discovery,
                page_size,
                rest,
                next_page,
            ),
            _ => (Search { discovery, page_size, phase: SearchPhase::Over }, SearchStep::End),
        }
    }
}

fn queue_next(
    discovery: Discovery,
    page_size: u32,
    assets: Vec<Asset>,
    next_page: Option<u32>,
) -> (r: (Search, SearchStep))
    requires
        discovery.wf(),
    ensures
        (r.0@, r.1@) == (SearchView {
            discovery,
            page_size,
            phase: SearchPhaseView::Over,
        }).queueing(asset_views(assets@), next_page),
        r.0.discovery.wf(),
{
    let mut discovery = discovery;
    let mut rest = assets;
    if rest.len() > 0 {
        let asset = rest.remove(0);
        assert(asset_views(rest@) =~= asset_views(assets@).skip(1));
        return (
            Search { discovery, page_size, phase: SearchPhase::Queueing { rest, next_page } },
            SearchStep::Queue(asset),
        );
    }
    if discovery.follow(next_page) {
        let page = discovery.page;
        (
            Search { discovery, page_size, phase: SearchPhase::Listing },
            SearchStep::List { page, size: page_size },
        )
    } else {
        let event = discovery.finished();
        (Search { discovery, page_size, phase: SearchPhase::Finishing }, SearchStep::Tell(event))
    }
}

/// The steps that a search asks for over these inputs.
pub open spec fn search_steps(search: SearchView, inputs: Seq<SearchInputView>) -> Seq<
    SearchStepView,
>
    decreases inputs.len(),
{
    if inputs.len() == 0 {
        seq![]
    } else {
        let (next, step) = search.after(inputs[0]);
        seq![step] + search_steps(next, inputs.skip(1))
    }
}

/// A page that cannot be listed stops the run, with the reason, and the search is over.
pub proof fn law_failed_listing_stops_the_run(search: SearchView, error: StageErrorView)
    requires
        search.phase is Listing,
    ensures
        search_steps(
            search,
            seq![SearchInputView::Listed(Err(error)), SearchInputView::Stopped],
        ) == seq![SearchStepView::StopRun(error.text()), SearchStepView::End],
{
    reveal_with_fuel(search_steps, 3);
}

/// The steps that queue these assets.
pub open spec fn queue_steps(assets: Seq<AssetView>) -> Seq<SearchStepView> {
    assets.map_values(|a: AssetView| SearchStepView::Queue(a))
}

/// So many assets were queued.
pub open spec fn all_queued(n: nat) -> Seq<SearchInputView> {
    Seq::new(n, |i: int| SearchInputView::Queued(true))
}

/// A page that was listed is first reported, then what it holds without a description is
/// queued, all of it and in order, and only then the search goes on with a later page or
/// reports its end.
pub proof fn law_page_is_reported_then_queued_then_left(search: SearchView, page: PageView)
    requires
        search.phase is Listing,
    ensures
        ({
            let found = wanted(page.items);
            let counted = search.with_page(page.items);
            search_steps(
                search,
                seq![SearchInputView::Listed(Ok(page)), SearchInputView::Told] + all_queued(
                    found.len(),
                ),
            ) == seq![
                SearchStepView::Tell(
                    EventView::PageLoaded {
                        scanned: counted.discovery.scanned,
                        queued: counted.discovery.queued,
                    },
                ),
            ] + queue_steps(found) + seq![counted.turned(page.next_page).1]
        }),
{
    let found = wanted(page.items);
    let inputs = seq![SearchInputView::Listed(Ok(page)), SearchInputView::Told] + all_queued(
        found.len(),
    );
    let told = inputs.skip(1);
    let listed = search.after(inputs[0]).0;
    assert(told.skip(1) =~= all_queued(found.len()));
    lemma_queueing(search.with_page(page.items), found, page.next_page);
    let counted = search.with_page(page.items);
    assert(listed.after(told[0]) == counted.queueing(found, page.next_page));
    assert(search_steps(listed, told) =~= queue_steps(found) + seq![
        counted.turned(page.next_page).1,
    ]);
}

proof fn lemma_queueing(search: SearchView, rest: Seq<AssetView>, next_page: Option<u32>)
    ensures
        ({
            let (next, step) = search.queueing(rest, next_page);
            seq![step] + search_steps(next, all_queued(rest.len())) == queue_steps(rest) + seq![
                search.turned(next_page).1,
            ]
        }),
    decreases rest.len(),
{
    let (next, step) = search.queueing(rest, next_page);
    if rest.len() == 0 {
        assert(queue_steps(rest) =~= Seq::<SearchStepView>::empty());
        assert(search_steps(next, all_queued(0)) =~= Seq::<SearchStepView>::empty());
    } else {
        let left = rest.skip(1);
        lemma_queueing(search, left, next_page);
        let inputs = all_queued(rest.len());
        assert(inputs.skip(1) =~= all_queued(left.len()));
        assert(next.after(inputs[0]) == search.queueing(left, next_page));
        assert(queue_steps(rest) =~= seq![SearchStepView::Queue(rest[0])] + queue_steps(left));
        assert(seq![step] + search_steps(next, inputs) =~= queue_steps(rest) + seq![
            search.turned(next_page).1,
        ]);
    }
}

/// Exactly the assets without a description are queued.
pub proof fn law_described_assets_are_skipped(items: Seq<AssetView>, asset: AssetView)
    ensures
        wanted(items).contains(asset) <==> items.contains(asset) && asset.undescribed(),
        wanted(items).len() <= items.len(),
    decreases items.len(),
{
    if items.len() > 0 {
        let rest = items.drop_last();
        law_described_assets_are_skipped(rest, asset);
        assert(items =~= rest.push(items.last()));
        lemma_seq_contains_after_push(rest, items.last(), asset);
        lemma_seq_contains_after_push(wanted(rest), items.last(), asset);
    }
}

/// The queue of two pages together is the queue of the first and then that of the second: the
/// reported totals add up over the pages.
pub proof fn law_totals_add_up_over_pages(first: Seq<AssetView>, second: Seq<AssetView>)
    ensures
        wanted(first + second) == wanted(first) + wanted(second),
    decreases second.len(),
{
    if second.len() == 0 {
        assert(first + second =~= first);
        assert(wanted(first) + wanted(second) =~= wanted(first));
    } else {
        assert((first + second).drop_last() =~= first + second.drop_last());
        assert((first + second).last() == second.last());
        law_totals_add_up_over_pages(first, second.drop_last());
        if second.last().undescribed() {
            assert(wanted(first) + wanted(second) =~= (wanted(first) + wanted(
                second.drop_last(),
            )).push(second.last()));
        }
    }
}

// ---------------------------------------------------------------------------
// Control
// ---------------------------------------------------------------------------

/// The run that the control loop keeps, if any, and whether it is paused.
#[derive(Debug, Clone, Copy, PartialEq, Eq, Structural)]
pub enum Slot {
    Empty,
    Running,
    Paused,
    /// The run is cancelled and has not ended yet. Another starts as soon as it has.
    Ending,
}

/// What the control loop does.
#[derive(Debug, Clone, Copy, PartialEq, Eq, Structural)]
pub enum ControlStep {
    Nothing,
    /// Start a run.
    Begin,
    /// Cancel the run that is there, and tell when it has ended.
    Cancel,
    /// Pause the run, and wait until no asset is being handed to a worker.
    Pause,
    Resume,
    /// Cancel everything and end the loop.
    Stop,
}

/// What a command does to the slot. `busy` says that the run there is active and not
/// cancelled.
pub open spec fn controlled(slot: Slot, command: Command, busy: bool) -> (Slot, ControlStep) {
    let present = slot == Slot::Running || slot == Slot::Paused;
    match command {
        Command::Start => if slot == Slot::Empty {
            (Slot::Running, ControlStep::Begin)
        } else if busy || !present {
            (slot, ControlStep::Nothing)
        } else {
            (Slot::Ending, ControlStep::Cancel)
        },
        Command::Pause => if present {
            (Slot::Paused, ControlStep::Pause)
        } else {
            (slot, ControlStep::Nothing)
        },
        Command::Resume => if present {
            (Slot::Running, ControlStep::Resume)
        } else {
            (slot, ControlStep::Nothing)
        },
        Command::Quit => (slot, ControlStep::Stop),
    }
}

/// What the end of the cancelled run does to the slot.
pub open spec fn after_end(slot: Slot) -> (Slot, ControlStep) {
    if slot == Slot::Ending {
        (Slot::Running, ControlStep::Begin)
    } else {
        (slot, ControlStep::Nothing)
    }
}

impl Slot {
    /// Takes a command. `active` and `cancelled` describe the run that is there.
    pub fn take(&mut self, command: Command, active: bool, cancelled: bool) -> (r: ControlStep)
        ensures
            (*final(self), r) == controlled(*old(self), command, active && !cancelled),
    {
        let present = *self == Slot::Running || *self == Slot::Paused;
        match command {
            Command::Start => {
                if *self == Slot::Empty {
                    *self = Slot::Running;
                    ControlStep::Begin
                } else if active && !cancelled || !present {
                    ControlStep::Nothing
                } else {
                    *self = Slot::Ending;
                    ControlStep::Cancel
                }
            },
            Command::Pause => {
                if present {
                    *self = Slot::Paused;
                    ControlStep::Pause
                } else {
                    ControlStep::Nothing
                }
            },
            Command::Resume => {
                if present {
                    *self = Slot::Running;
                    ControlStep::Resume
                } else {
                    ControlStep::Nothing
                }
            },
            Command::Quit => ControlStep::Stop,
        }
    }

    /// Takes the end of the run that was cancelled.
    pub fn ended(&mut self) -> (r: ControlStep)
        ensures
            (*final(self), r) == after_end(*old(self)),
    {
        if *self == Slot::Ending {
            *self = Slot::Running;
            ControlStep::Begin
        } else {
            ControlStep::Nothing
        }
    }
}

/// What the control loop takes in.
pub enum ControlInput {
    Command { command: Command, busy: bool },
    /// The cancelled run has ended.
    Ended,
}

/// What an input does to the slot.
pub open spec fn control_after(slot: Slot, input: ControlInput) -> (Slot, ControlStep) {
    match input {
        ControlInput::Command { command, busy } => controlled(slot, command, busy),
        ControlInput::Ended => after_end(slot),
    }
}

/// A run begins only where there was none, or at the end of the one that was cancelled for it.
/// Until that end nothing but the end changes the slot.
pub proof fn law_no_run_begins_before_the_old_one_ends(slot: Slot, input: ControlInput)
    ensures
        control_after(slot, input).1 == ControlStep::Begin ==> slot == Slot::Empty || (slot
            == Slot::Ending && input is Ended),
        control_after(slot, input).1 == ControlStep::Cancel <==> control_after(slot, input).0
            == Slot::Ending && slot != Slot::Ending,
        slot == Slot::Ending && !(input is Ended) ==> control_after(slot, input).0
            == Slot::Ending,
{
}

/// How many runs begin over these inputs.
pub open spec fn begins(slot: Slot, inputs: Seq<ControlInput>) -> nat
    decreases inputs.len(),
{
    if inputs.len() == 0 {
        0
    } else {
        let (next, step) = control_after(slot, inputs[0]);
        begins(next, inputs.skip(1)) + if step == ControlStep::Begin {
            1nat
        } else {
            0
        }
    }
}

/// How many cancelled runs end over these inputs.
pub open spec fn ends(slot: Slot, inputs: Seq<ControlInput>) -> nat
    decreases inputs.len(),
{
    if inputs.len() == 0 {
        0
    } else {
        ends(control_after(slot, inputs[0]).0, inputs.skip(1)) + if slot == Slot::Ending
            && inputs[0] is Ended {
            1nat
        } else {
            0
        }
    }
}

/// Runs do not overlap: whatever the control loop takes in, of the runs that it began all but
/// the last have ended.
pub proof fn law_runs_do_not_overlap(slot: Slot, inputs: Seq<ControlInput>)
    ensures
        slot == Slot::Empty ==> begins(slot, inputs) <= ends(slot, inputs) + 1,
        slot != Slot::Empty ==> begins(slot, inputs) <= ends(slot, inputs),
    decreases inputs.len(),
{
    if inputs.len() > 0 {
        law_runs_do_not_overlap(control_after(slot, inputs[0]).0, inputs.skip(1));
    }
}

/// A run that starts is never paused, whatever the run before it was, and a run that is on is
/// not started a second time.
pub proof fn law_new_runs_are_not_paused(slot: Slot, input: ControlInput)
    ensures
        control_after(slot, input).1 == ControlStep::Begin ==> control_after(slot, input).0
            == Slot::Running,
        slot != Slot::Empty ==> controlled(slot, Command::Start, true) == (
            slot,
            ControlStep::Nothing,
        ),
{
}

/// Pausing and resuming a run leaves it as it was.
pub proof fn law_resume_undoes_pause(slot: Slot, busy: bool)
    requires
        slot != Slot::Paused,
    ensures
        controlled(controlled(slot, Command::Pause, busy).0, Command::Resume, busy).0 == slot,
{
}

// ---------------------------------------------------------------------------
// Runs
// ---------------------------------------------------------------------------

/// How many workers a run has: at least one.
pub fn worker_count(workers: usize) -> (r: usize)
    ensures
        r == if workers == 0 {
            1
        } else {
            workers as int
        },
{
    if workers == 0 {
        1
    } else {
        workers
    }
}

/// How many assets may wait in the queue: four for each worker.
pub fn queue_size(workers: usize) -> (r: usize)
    requires
        workers * 4 <= usize::MAX,
    ensures
        r == workers * 4,
{
    workers * 4
}

/// The sum of the done counts and that of the failed counts.
pub open spec fn totals(counts: Seq<(u64, u64)>) -> (nat, nat)
    decreases counts.len(),
{
    if counts.len() == 0 {
        (0, 0)
    } else {
        let (done, failed) = totals(counts.drop_last());
        (done + counts.last().0 as nat, failed + counts.last().1 as nat)
    }
}

proof fn lemma_totals_grow(counts: Seq<(u64, u64)>, k: int)
    requires
        0 <= k <= counts.len(),
    ensures
        totals(counts.take(k)).0 <= totals(counts).0,
        totals(counts.take(k)).1 <= totals(counts).1,
    decreases counts.len(),
{
    if k == counts.len() {
        assert(counts.take(k) =~= counts);
    } else {
        lemma_totals_grow(counts.drop_last(), k);
        assert(counts.drop_last().take(k) =~= counts.take(k));
    }
}

/// Adds up what the workers counted.
pub fn tally(counts: &Vec<(u64, u64)>) -> (r: (u64, u64))
    requires
        totals(counts@).0 <= u64::MAX,
        totals(counts@).1 <= u64::MAX,
    ensures
        (r.0 as nat, r.1 as nat) == totals(counts@),
{
    let mut done: u64 = 0;
    let mut failed: u64 = 0;
    let mut i: usize = 0;
    assert(counts@.take(0) =~= Seq::<(u64, u64)>::empty());
    while i < counts.len()
        invariant
            i <= counts@.len(),
            (done as nat, failed as nat) == totals(counts@.take(i as int)),
            totals(counts@).0 <= u64::MAX,
            totals(counts@).1 <= u64::MAX,
        decreases counts@.len() - i,
    {
        proof {
            lemma_totals_grow(counts@, i + 1);
            assert(counts@.take(i + 1).drop_last() =~= counts@.take(i as int));
        }
        done = done + counts[i].0;
        failed = failed + counts[i].1;
        i += 1;
    }
    assert(counts@.take(i as int) =~= counts@);
    (done, failed)
}

/// The report at the end of a run. A cancelled run has none.
pub fn run_end(cancelled: bool, done: u64, failed: u64, elapsed: Duration) -> (r: Option<Event>)
    ensures
        match r {
            Some(event) => !cancelled && event@ == (EventView::RunFinished {
                done,
                failed,
                elapsed: duration_nanos(elapsed),
            }),
            None => cancelled,
        },
{
    if cancelled {
        None
    } else {
        Some(Event::RunFinished { done, failed, elapsed })
    }
}

/// What to report when a run has to stop: nothing if it is cancelled already, else the reason,
/// once the run is cancelled.
pub fn stop_run(cancelled: bool, message: String) -> (r: Option<Event>)
    ensures
        match r {
            Some(event) => !cancelled && event@ == (EventView::Fatal { error: message@ }),
            None => cancelled,
        },
{
    if cancelled {
        None
    } else {
        Some(Event::Fatal { error: message })
    }
}

} // verus!
