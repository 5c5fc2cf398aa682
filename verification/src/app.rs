//! Pure UI state. `on_event` and `on_key` are the only ways it changes; the clock and the
//! time of day are read there and handed on to `on_event_at` and `on_key_at`.
use std::collections::VecDeque;
use std::time::{Duration, Instant};
use vstd::prelude::*;
use vstd::seq_lib::lemma_seq_contains_after_push;
use vstd::string::*;

use crate::clock::{
    duration_nanos, instant_nanos, max_duration_nanos, share, sum, time_between, zero,
};
use crate::config::{config_complaint, Config, ConfigView};
use crate::events::{opt_action, Action, ActionView, Command, Event, EventView, Key, Stage};
use crate::settings::{
    form_of, opt_text, FormView, SettingsForm, TestOutcome, FIELD_COUNT, MAX_TOKENS,
};
use crate::text::{cat, control, is_control, same};
use crate::urls::{host_of, host_text, url_parts};

verus! {

pub const LOG_CAP: usize = 500;

pub const RATE_WINDOW: usize = 20;

#[derive(Debug, Clone, Copy, PartialEq, Eq, Structural)]
pub enum Screen {
    Run,
    Settings,
}

#[derive(Debug, Clone, PartialEq, Eq)]
pub enum RunState {
    Idle,
    Running,
    Paused,
    Finished,
    Error(String),
}

#[derive(Debug, PartialEq, Eq)]
pub struct InFlight {
    pub id: String,
    pub name: String,
    pub stage: Stage,
    pub started_at: Instant,
}

#[derive(Debug, PartialEq, Eq)]
pub enum LogRow {
    Done { at: String, name: String, took: Duration, description: String },
    Failed { at: String, name: String, error: String },
}

impl Clone for InFlight {
    fn clone(&self) -> (r: Self)
        ensures
            r == *self,
    {
        InFlight {
            id: self.id.clone(),
            name: self.name.clone(),
            stage: self.stage,
            started_at: self.started_at,
        }
    }
}

impl Clone for LogRow {
    fn clone(&self) -> (r: Self)
        ensures
            r == *self,
    {
        match self {
            LogRow::Done { at, name, took, description } => LogRow::Done {
                at: at.clone(),
                name: name.clone(),
                took: *took,
                description: description.clone(),
            },
            LogRow::Failed { at, name, error } => LogRow::Failed {
                at: at.clone(),
                name: name.clone(),
                error: error.clone(),
            },
        }
    }
}

pub struct App {
    pub config: Config,
    pub screen: Screen,
    pub run_state: RunState,
    pub scanned: u64,
    pub queued: u64,
    pub done: u64,
    pub failed: u64,
    pub in_flight: Vec<InFlight>,
    /// Newest first.
    pub log: VecDeque<LogRow>,
    pub log_selected: usize,
    pub log_expanded: bool,
    pub run_started: Option<Instant>,
    /// Set when a run ends so the clock stops.
    pub run_elapsed: Option<Duration>,
    /// Completion instants for the rate estimate. Oldest first.
    pub recent: VecDeque<Instant>,
    pub llm_time_total: Duration,
    pub asset_time_total: Duration,
    pub settings: SettingsForm,
    pub footer_message: Option<String>,
    pub should_quit: bool,
    pub connection_test_id: u64,
}

// ---------------------------------------------------------------------------
// Models
// ---------------------------------------------------------------------------

/// Mathematical model of [`RunState`].
pub enum RunStateView {
    Idle,
    Running,
    Paused,
    Finished,
    Error(Seq<char>),
}

impl View for RunState {
    type V = RunStateView;

    open spec fn view(&self) -> RunStateView {
        match *self {
            RunState::Idle => RunStateView::Idle,
            RunState::Running => RunStateView::Running,
            RunState::Paused => RunStateView::Paused,
            RunState::Finished => RunStateView::Finished,
            RunState::Error(error) => RunStateView::Error(error@),
        }
    }
}

/// Mathematical model of [`InFlight`].
pub struct InFlightView {
    pub id: Seq<char>,
    pub name: Seq<char>,
    pub stage: Stage,
    pub started_at: int,
}

impl View for InFlight {
    type V = InFlightView;

    open spec fn view(&self) -> InFlightView {
        InFlightView {
            id: self.id@,
            name: self.name@,
            stage: self.stage,
            started_at: instant_nanos(self.started_at),
        }
    }
}

/// Mathematical model of [`LogRow`].
pub enum LogRowView {
    Done { at: Seq<char>, name: Seq<char>, took: nat, description: Seq<char> },
    Failed { at: Seq<char>, name: Seq<char>, error: Seq<char> },
}

impl View for LogRow {
    type V = LogRowView;

    open spec fn view(&self) -> LogRowView {
        match *self {
            LogRow::Done { at, name, took, description } => LogRowView::Done {
                at: at@,
                name: name@,
                took: duration_nanos(took),
                description: description@,
            },
            LogRow::Failed { at, name, error } => LogRowView::Failed {
                at: at@,
                name: name@,
                error: error@,
            },
        }
    }
}

pub open spec fn in_flight_views(v: Seq<InFlight>) -> Seq<InFlightView> {
    v.map_values(|e: InFlight| e@)
}

pub open spec fn log_views(v: Seq<LogRow>) -> Seq<LogRowView> {
    v.map_values(|r: LogRow| r@)
}

pub open spec fn instants(v: Seq<Instant>) -> Seq<int> {
    v.map_values(|i: Instant| instant_nanos(i))
}

pub open spec fn opt_instant(i: Option<Instant>) -> Option<int> {
    match i {
        Some(t) => Some(instant_nanos(t)),
        None => None,
    }
}

pub open spec fn opt_duration(d: Option<Duration>) -> Option<nat> {
    match d {
        Some(t) => Some(duration_nanos(t)),
        None => None,
    }
}

/// Mathematical model of [`App`]: durations and instants in nanoseconds.
#[verifier::ext_equal]
pub struct AppView {
    pub config: ConfigView,
    pub screen: Screen,
    pub run_state: RunStateView,
    pub scanned: nat,
    pub queued: nat,
    pub done: nat,
    pub failed: nat,
    pub in_flight: Seq<InFlightView>,
    pub log: Seq<LogRowView>,
    pub log_selected: nat,
    pub log_expanded: bool,
    pub run_started: Option<int>,
    pub run_elapsed: Option<nat>,
    pub recent: Seq<int>,
    pub llm_time_total: nat,
    pub asset_time_total: nat,
    pub settings: FormView,
    pub footer_message: Option<Seq<char>>,
    pub should_quit: bool,
    pub connection_test_id: u64,
}

impl View for App {
    type V = AppView;

    open spec fn view(&self) -> AppView {
        AppView {
            config: self.config@,
            screen: self.screen,
            run_state: self.run_state@,
            scanned: self.scanned as nat,
            queued: self.queued as nat,
            done: self.done as nat,
            failed: self.failed as nat,
            in_flight: in_flight_views(self.in_flight@),
            log: log_views(self.log@),
            log_selected: self.log_selected as nat,
            log_expanded: self.log_expanded,
            run_started: opt_instant(self.run_started),
            run_elapsed: opt_duration(self.run_elapsed),
            recent: instants(self.recent@),
            llm_time_total: duration_nanos(self.llm_time_total),
            asset_time_total: duration_nanos(self.asset_time_total),
            settings: self.settings@,
            footer_message: opt_text(self.footer_message),
            should_quit: self.should_quit,
            connection_test_id: self.connection_test_id,
        }
    }
}

/// The entries of `s` whose id is not `id`, in order.
pub open spec fn without(s: Seq<InFlightView>, id: Seq<char>) -> Seq<InFlightView>
    decreases s.len(),
{
    if s.len() == 0 {
        seq![]
    } else if s.last().id == id {
        without(s.drop_last(), id)
    } else {
        without(s.drop_last(), id).push(s.last())
    }
}

/// The first index from `i` on with this id, or the length.
pub open spec fn first_with(s: Seq<InFlightView>, id: Seq<char>, i: nat) -> nat
    decreases s.len() - i,
{
    if i >= s.len() {
        s.len()
    } else if s[i as int].id == id {
        i
    } else {
        first_with(s, id, i + 1)
    }
}

/// `s` with the first entry of this id moved to `stage`.
pub open spec fn staged(s: Seq<InFlightView>, id: Seq<char>, stage: Stage) -> Seq<InFlightView> {
    let k = first_with(s, id, 0) as int;
    if k < s.len() {
        s.update(k, InFlightView { stage, ..s[k] })
    } else {
        s
    }
}

/// The last `n` elements, or all of them.
pub open spec fn last_of(s: Seq<int>, n: nat) -> Seq<int> {
    if s.len() > n {
        s.skip(s.len() - n)
    } else {
        s
    }
}

impl AppView {
    /// The settings form is whole and its focus is on one of its controls.
    pub open spec fn wf(self) -> bool {
        self.settings.wf() && self.settings.focused < FIELD_COUNT
    }

    /// The event can be counted: no counter and no total overflows.
    pub open spec fn has_room_for(self, event: EventView) -> bool {
        match event {
            EventView::AssetDone { took, llm_took, .. } => {
                &&& self.done < u64::MAX
                &&& self.llm_time_total + llm_took <= max_duration_nanos()
                &&& self.asset_time_total + took <= max_duration_nanos()
            },
            EventView::AssetFailed { .. } => self.failed < u64::MAX,
            _ => true,
        }
    }

    /// How long the run has taken at `now`.
    pub open spec fn elapsed_at(self, now: int) -> nat {
        match (self.run_elapsed, self.run_started) {
            (Some(elapsed), _) => elapsed,
            (None, Some(started)) => time_between(now, started),
            (None, None) => 0,
        }
    }

    /// The state with `row` on top of the log. The oldest row leaves a full log, and the
    /// highlight follows its row while there is one.
    pub open spec fn logged(self, row: LogRowView) -> AppView {
        let grown = seq![row] + self.log;
        let log = if grown.len() > LOG_CAP {
            grown.drop_last()
        } else {
            grown
        };
        AppView {
            log,
            log_selected: if self.log_selected > 0 && self.log_selected + 1 < log.len() {
                self.log_selected + 1
            } else {
                self.log_selected
            },
            ..self
        }
    }

    /// The state after `event` at instant `now`, shown as time of day `at`.
    pub open spec fn after(self, event: EventView, now: int, at: Seq<char>) -> AppView {
        match event {
            EventView::PageLoaded { scanned, queued } => AppView {
                scanned: scanned as nat,
                queued: queued as nat,
                ..self
            },
            EventView::DiscoveryDone { total_queued } => AppView {
                queued: total_queued as nat,
                ..self
            },
            EventView::AssetStarted { id, name } => AppView {
                in_flight: self.in_flight.push(
                    InFlightView { id, name, stage: Stage::Fetching, started_at: now },
                ),
                ..self
            },
            EventView::AssetStage { id, stage } => AppView {
                in_flight: staged(self.in_flight, id, stage),
                ..self
            },
            EventView::AssetDone { id, name, description, took, llm_took } => AppView {
                in_flight: without(self.in_flight, id),
                done: self.done + 1,
                llm_time_total: self.llm_time_total + llm_took,
                asset_time_total: self.asset_time_total + took,
                recent: last_of(self.recent.push(now), RATE_WINDOW as nat),
                ..self
            }.logged(LogRowView::Done { at, name, took, description }),
            EventView::AssetFailed { id, name, error } => AppView {
                in_flight: without(self.in_flight, id),
                failed: self.failed + 1,
                ..self
            }.logged(LogRowView::Failed { at, name, error }),
            EventView::RunFinished { done, failed, elapsed } => AppView {
                done: done as nat,
                failed: failed as nat,
                run_elapsed: Some(elapsed),
                in_flight: seq![],
                run_state: RunStateView::Finished,
                ..self
            },
            EventView::Fatal { error } => AppView {
                run_elapsed: Some(self.elapsed_at(now)),
                in_flight: seq![],
                run_state: RunStateView::Error(error),
                ..self
            },
            EventView::ConnectionTest { id, immich, llm } => if id == self.connection_test_id {
                AppView {
                    settings: FormView {
                        testing: false,
                        test_result: Some((immich, llm)),
                        ..self.settings
                    },
                    ..self
                }
            } else {
                self
            },
        }
    }

    /// The id of the next connection test; after the largest number comes zero.
    pub open spec fn next_test_id(self) -> u64 {
        if self.connection_test_id == u64::MAX {
            0
        } else {
            (self.connection_test_id + 1) as u64
        }
    }

    /// No connection test is awaited any more: a result under way finds another id.
    pub open spec fn test_dropped(self) -> AppView {
        AppView {
            connection_test_id: self.next_test_id(),
            settings: FormView { testing: false, ..self.settings },
            ..self
        }
    }

    /// Counters, times and work in flight cleared; the log stays.
    pub open spec fn cleared(self, run_started: Option<int>) -> AppView {
        AppView {
            scanned: 0,
            queued: 0,
            done: 0,
            failed: 0,
            in_flight: seq![],
            recent: seq![],
            llm_time_total: 0,
            asset_time_total: 0,
            run_started,
            run_elapsed: None,
            ..self
        }
    }

    /// Nothing is running that a start would disturb.
    pub open spec fn can_start(self) -> bool {
        self.run_state is Idle || self.run_state is Finished || self.run_state is Error
    }

    pub open spec fn with_settings(self, settings: FormView) -> AppView {
        AppView { settings, ..self }
    }

    pub open spec fn with_message(self, message: Seq<char>) -> AppView {
        self.with_settings(FormView { message: Some(message), ..self.settings })
    }

    /// What a key does on the run screen: the next state and the action asked for.
    pub open spec fn after_run_key(self, key: Key, now: int) -> (AppView, Option<ActionView>) {
        if self.log_expanded {
            if key == Key::Esc || key == Key::Enter {
                (AppView { log_expanded: false, ..self }, None)
            } else {
                (self, None)
            }
        } else if key == Key::Char('q') {
            (AppView { should_quit: true, ..self }, Some(ActionView::Quit))
        } else if key == Key::Char('s') && self.can_start() {
            (
                AppView {
                    run_state: RunStateView::Running,
                    footer_message: None,
                    ..self.cleared(Some(now))
                },
                Some(ActionView::Send(Command::Start)),
            )
        } else if key == Key::Char('p') && self.run_state is Running {
            (
                AppView { run_state: RunStateView::Paused, ..self },
                Some(ActionView::Send(Command::Pause)),
            )
        } else if key == Key::Char('p') && self.run_state is Paused {
            (
                AppView { run_state: RunStateView::Running, ..self },
                Some(ActionView::Send(Command::Resume)),
            )
        } else if key == Key::Char('c') {
            (
                AppView {
                    connection_test_id: self.next_test_id(),
                    settings: form_of(self.config),
                    footer_message: None,
                    screen: Screen::Settings,
                    ..self
                },
                None,
            )
        } else if key == Key::Up && self.log_selected > 0 {
            (AppView { log_selected: (self.log_selected - 1) as nat, ..self }, None)
        } else if key == Key::Down && self.log_selected + 1 < self.log.len() {
            (AppView { log_selected: self.log_selected + 1, ..self }, None)
        } else if key == Key::Enter && self.log.len() > 0 {
            (AppView { log_expanded: true, ..self }, None)
        } else {
            (self, None)
        }
    }

    /// Asking for a save: refused while a run is on, and answered with the complaint if the
    /// form does not stand for a valid configuration.
    pub open spec fn after_save_request(self) -> (AppView, Option<ActionView>) {
        if self.run_state is Running {
            (self.with_message("pause the run before saving"@), None)
        } else {
            match self.settings.applied(self.config) {
                Ok(config) => (self, Some(ActionView::SaveConfig(config))),
                Err(message) => (self.with_message(message), None),
            }
        }
    }

    /// Asking for a connection test of the configuration in the form.
    pub open spec fn after_test_request(self) -> (AppView, Option<ActionView>) {
        match self.settings.applied(self.config) {
            Ok(config) => (
                AppView {
                    connection_test_id: self.next_test_id(),
                    settings: FormView {
                        testing: true,
                        test_result: None,
                        message: None,
                        ..self.settings
                    },
                    ..self
                },
                Some(ActionView::TestConnections { id: self.next_test_id(), config }),
            ),
            Err(message) => (self.with_message(message), None),
        }
    }

    /// Enter saves on the last text field and on the last control.
    pub open spec fn enter_saves(self) -> bool {
        self.settings.focused + 1 == FIELD_COUNT || self.settings.focused == MAX_TOKENS
    }

    /// What a key does on the settings screen.
    pub open spec fn after_settings_key(self, key: Key) -> (AppView, Option<ActionView>) {
        match key {
            Key::Esc => (AppView { screen: Screen::Run, ..self.test_dropped() }, None),
            Key::Tab => (self.with_settings(self.settings.focused_next()), None),
            Key::BackTab => (self.with_settings(self.settings.focused_previous()), None),
            Key::Enter => if self.enter_saves() {
                self.after_save_request()
            } else {
                (self.with_settings(self.settings.focused_next()), None)
            },
            Key::Backspace => (self.with_settings(self.settings.erased()), None),
            Key::Char(c) => if is_control(c) {
                (self, None)
            } else {
                (self.with_settings(self.settings.typed(c)), None)
            },
            Key::CtrlR => (
                self.with_settings(
                    FormView { show_secrets: !self.settings.show_secrets, ..self.settings },
                ),
                None,
            ),
            Key::CtrlT => self.after_test_request(),
            Key::CtrlS => self.after_save_request(),
            _ => (self, None),
        }
    }

    /// What a key does at instant `now`.
    pub open spec fn after_key(self, key: Key, now: int) -> (AppView, Option<ActionView>) {
        if key == Key::CtrlC {
            (AppView { should_quit: true, ..self }, Some(ActionView::Quit))
        } else {
            match self.screen {
                Screen::Run => self.after_run_key(key, now),
                Screen::Settings => self.after_settings_key(key),
            }
        }
    }

    /// The state once `config` is saved and the engine runs on it.
    pub open spec fn saved(self, config: ConfigView) -> AppView {
        AppView {
            connection_test_id: self.next_test_id(),
            config,
            settings: form_of(config),
            run_state: RunStateView::Idle,
            screen: Screen::Run,
            footer_message: Some("settings saved"@),
            ..self.cleared(None)
        }
    }

    /// The word for the run state in the header.
    pub open spec fn state_word(self) -> Seq<char> {
        match self.run_state {
            RunStateView::Idle => "IDLE"@,
            RunStateView::Running => "RUNNING"@,
            RunStateView::Paused => "PAUSED"@,
            RunStateView::Finished => "FINISHED"@,
            RunStateView::Error(_) => "ERROR"@,
        }
    }
}

/// A new state that shows `config`.
pub open spec fn fresh(config: ConfigView, first_run: bool) -> AppView {
    AppView {
        config,
        screen: if first_run {
            Screen::Settings
        } else {
            Screen::Run
        },
        run_state: RunStateView::Idle,
        scanned: 0,
        queued: 0,
        done: 0,
        failed: 0,
        in_flight: seq![],
        log: seq![],
        log_selected: 0,
        log_expanded: false,
        run_started: None,
        run_elapsed: None,
        recent: seq![],
        llm_time_total: 0,
        asset_time_total: 0,
        settings: form_of(config),
        footer_message: None,
        should_quit: false,
        connection_test_id: 0,
    }
}

// ---------------------------------------------------------------------------
// The state
// ---------------------------------------------------------------------------

/// Hours, minutes and seconds as two digits each, with colons between them.
pub open spec fn is_time_of_day(text: Seq<char>) -> bool {
    &&& text.len() == 8
    &&& text[2] == ':' && text[5] == ':'
    &&& forall|i: int|
        0 <= i < 8 && i != 2 && i != 5 ==> '0' <= #[trigger] text[i] <= '9'
}

/// Formats the local time of day with `chrono::Local::now` and `DateTime::format`. What is said
/// of the text is its form. Which time it is depends on the clock and the machine's time zone.
#[verifier::external_body]
pub(crate) fn timestamp() -> (r: String)
    ensures
        is_time_of_day(r@),
{
    chrono::Local::now().format("%H:%M:%S").to_string()
}

impl App {
    pub fn new(config: Config, first_run: bool) -> (r: Self)
        ensures
            r@ == fresh(config@, first_run),
            r@.wf(),
            r@.bounded(),
    {
        let settings = SettingsForm::from_config(&config);
        let r = App {
            config,
            screen: if first_run {
                Screen::Settings
            } else {
                Screen::Run
            },
            run_state: RunState::Idle,
            scanned: 0,
            queued: 0,
            done: 0,
            failed: 0,
            in_flight: Vec::new(),
            log: VecDeque::new(),
            log_selected: 0,
            log_expanded: false,
            run_started: None,
            run_elapsed: None,
            recent: VecDeque::new(),
            llm_time_total: zero(),
            asset_time_total: zero(),
            settings,
            footer_message: None,
            should_quit: false,
            connection_test_id: 0,
        };
        assert(r@ =~= fresh(config@, first_run));
        r
    }

    /// Takes in what the engine reports.
    pub fn on_event(&mut self, event: Event)
        requires
            old(self)@.has_room_for(event@),
        ensures
            exists|now: int, at: Seq<char>|
                is_time_of_day(at) && final(self)@ == #[trigger] old(self)@.after(event@, now, at),
            old(self)@.wf() ==> final(self)@.wf(),
            old(self)@.bounded() ==> final(self)@.bounded(),
    {
        let now = Instant::now();
        let at = timestamp();
        let ghost shown = at@;
        self.on_event_at(event, now, at);
        proof {
            if old(self)@.bounded() {
                law_events_keep_the_bounds(old(self)@, event@, instant_nanos(now), shown);
            }
        }
        assert(self@ == old(self)@.after(event@, instant_nanos(now), shown));
    }

    /// Takes in what the engine reports, at instant `now` and time of day `at`.
    pub fn on_event_at(&mut self, event: Event, now: Instant, at: String)
        requires
            old(self)@.has_room_for(event@),
        ensures
            final(self)@ == old(self)@.after(event@, instant_nanos(now), at@),
    {
        match event {
            Event::PageLoaded { scanned, queued } => {
                self.scanned = scanned;
                self.queued = queued;
            },
            Event::DiscoveryDone { total_queued } => {
                self.queued = total_queued;
            },
            Event::AssetStarted { id, name } => {
                self.in_flight.push(
                    InFlight { id, name, stage: Stage::Fetching, started_at: now },
                );
                assert(self@ =~= old(self)@.after(event@, instant_nanos(now), at@));
            },
            Event::AssetStage { id, stage } => {
                self.set_stage(id.as_str(), stage);
            },
            Event::AssetDone { id, name, description, took, llm_took } => {
                self.drop_in_flight(id.as_str());
                self.done = self.done + 1;
                self.llm_time_total = sum(self.llm_time_total, llm_took);
                self.asset_time_total = sum(self.asset_time_total, took);
                self.push_recent(now);
                self.push_log(LogRow::Done { at, name, took, description });
            },
            Event::AssetFailed { id, name, error } => {
                self.drop_in_flight(id.as_str());
                self.failed = self.failed + 1;
                self.push_log(LogRow::Failed { at, name, error });
            },
            Event::RunFinished { done, failed, elapsed } => {
                self.done = done;
                self.failed = failed;
                self.run_elapsed = Some(elapsed);
                self.in_flight.clear();
                self.run_state = RunState::Finished;
                assert(self@ =~= old(self)@.after(event@, instant_nanos(now), at@));
            },
            Event::Fatal { error } => {
                self.run_elapsed = Some(self.elapsed(now));
                self.in_flight.clear();
                self.run_state = RunState::Error(error);
                assert(self@ =~= old(self)@.after(event@, instant_nanos(now), at@));
            },
            Event::ConnectionTest { id, immich, llm } => {
                if id == self.connection_test_id {
                    self.settings.testing = false;
                    self.settings.test_result = Some((immich, llm));
                }
            },
        }
    }

    fn set_stage(&mut self, id: &str, stage: Stage)
        ensures
            final(self)@ == (AppView {
                in_flight: staged(old(self)@.in_flight, id@, stage),
                ..old(self)@
            }),
    {
        let ghost s = self@.in_flight;
        let mut i: usize = 0;
        while i < self.in_flight.len()
            invariant
                *self == *old(self),
                s == self@.in_flight,
                i <= self.in_flight@.len(),
                first_with(s, id@, 0) == first_with(s, id@, i as nat),
            decreases self.in_flight@.len() - i,
        {
            assert(s[i as int] == self.in_flight@[i as int]@);
            if same(self.in_flight[i].id.as_str(), id) {
                self.in_flight[i].stage = stage;
                assert(self@ =~= AppView { in_flight: staged(s, id@, stage), ..old(self)@ });
                return;
            }
            i += 1;
        }
    }

    fn drop_in_flight(&mut self, id: &str)
        ensures
            final(self)@ == (AppView {
                in_flight: without(old(self)@.in_flight, id@),
                ..old(self)@
            }),
    {
        let ghost s = self@.in_flight;
        let ghost mut k: int = 0;
        let mut i: usize = 0;
        assert(s.take(0) =~= Seq::<InFlightView>::empty());
        assert(s.skip(0) =~= s);
        assert(without(s.take(0), id@) + s.skip(0) =~= s);
        while i < self.in_flight.len()
            invariant
                0 <= k <= s.len(),
                i == without(s.take(k), id@).len(),
                self@.in_flight == without(s.take(k), id@) + s.skip(k),
                self@ == (AppView { in_flight: self@.in_flight, ..old(self)@ }),
            decreases s.len() - k,
        {
            let ghost kept = without(s.take(k), id@);
            proof {
                assert(self@.in_flight[i as int] == s.skip(k)[0]);
                assert(self@.in_flight[i as int] == self.in_flight@[i as int]@);
                assert(s.take(k + 1).drop_last() =~= s.take(k));
                assert(s.take(k + 1).last() == s[k]);
            }
            if same(self.in_flight[i].id.as_str(), id) {
                let ghost before = self@.in_flight;
                self.in_flight.remove(i);
                assert(self@.in_flight =~= before.remove(i as int));
                assert(self@.in_flight =~= kept + s.skip(k + 1));
            } else {
                i += 1;
                assert(self@.in_flight =~= kept.push(s[k]) + s.skip(k + 1));
            }
            proof {
                k = k + 1;
            }
        }
        proof {
            assert(self@.in_flight.len() == without(s.take(k), id@).len() + s.len() - k);
            assert(s.take(k) =~= s);
            assert(s.skip(k) =~= Seq::<InFlightView>::empty());
            assert(self@.in_flight =~= without(s, id@));
        }
    }

    fn push_recent(&mut self, now: Instant)
        ensures
            final(self)@ == (AppView {
                recent: last_of(
                    old(self)@.recent.push(instant_nanos(now)),
                    RATE_WINDOW as nat,
                ),
                ..old(self)@
            }),
    {
        self.recent.push_back(now);
        let ghost s = old(self)@.recent.push(instant_nanos(now));
        assert(self@.recent =~= s);
        while self.recent.len() > RATE_WINDOW
            invariant
                self@ == (AppView { recent: self@.recent, ..old(self)@ }),
                self.recent@.len() == self@.recent.len(),
                self@.recent.len() <= s.len(),
                self@.recent == s.skip(s.len() - self@.recent.len()),
                self@.recent.len() >= s.len() || self@.recent.len() >= RATE_WINDOW,
            decreases self.recent@.len(),
        {
            let ghost before = self@.recent;
            self.recent.pop_front();
            assert(self@.recent =~= before.skip(1));
            assert(self@.recent =~= s.skip(s.len() - self@.recent.len()));
        }
        assert(self@.recent =~= last_of(s, RATE_WINDOW as nat));
    }

    fn push_log(&mut self, row: LogRow)
        ensures
            final(self)@ == old(self)@.logged(row@),
    {
        self.log.push_front(row);
        assert(self@.log =~= seq![row@] + old(self)@.log);
        if self.log.len() > LOG_CAP {
            self.log.pop_back();
            assert(self@.log =~= (seq![row@] + old(self)@.log).drop_last());
        }
        if self.log_selected > 0 && self.log_selected < self.log.len() && self.log_selected + 1
            < self.log.len() {
            self.log_selected = self.log_selected + 1;
        }
        assert(self@ =~= old(self)@.logged(row@));
    }

    /// Takes in a key press.
    pub fn on_key(&mut self, key: Key) -> (r: Option<Action>)
        requires
            old(self)@.wf(),
        ensures
            exists|now: int|
                (final(self)@, opt_action(r)) == #[trigger] old(self)@.after_key(key, now),
            final(self)@.wf(),
            old(self)@.bounded() ==> final(self)@.bounded(),
    {
        let now = Instant::now();
        let r = self.on_key_at(key, now);
        proof {
            if old(self)@.bounded() {
                law_keys_keep_the_bounds(old(self)@, key, instant_nanos(now));
            }
        }
        assert((self@, opt_action(r)) == old(self)@.after_key(key, instant_nanos(now)));
        r
    }

    /// Takes in a key press at instant `now`.
    pub fn on_key_at(&mut self, key: Key, now: Instant) -> (r: Option<Action>)
        requires
            old(self)@.wf(),
        ensures
            (final(self)@, opt_action(r)) == old(self)@.after_key(key, instant_nanos(now)),
            final(self)@.wf(),
    {
        proof {
            law_keys_keep_the_state_whole(self@, key, instant_nanos(now));
        }
        if matches!(key, Key::CtrlC) {
            self.should_quit = true;
            return Some(Action::Quit);
        }
        match self.screen {
            Screen::Run => self.on_run_key(key, now),
            Screen::Settings => self.on_settings_key(key),
        }
    }

    fn on_run_key(&mut self, key: Key, now: Instant) -> (r: Option<Action>)
        requires
            old(self)@.wf(),
        ensures
            (final(self)@, opt_action(r)) == old(self)@.after_run_key(key, instant_nanos(now)),
    {
        if self.log_expanded {
            if matches!(key, Key::Esc | Key::Enter) {
                self.log_expanded = false;
            }
            return None;
        }
        match key {
            Key::Char('q') => {
                self.should_quit = true;
                Some(Action::Quit)
            },
            Key::Char('s') if self.can_start() => {
                self.reset_run(Some(now));
                self.footer_message = None;
                self.run_state = RunState::Running;
                Some(Action::Send(Command::Start))
            },
            Key::Char('p') if matches!(self.run_state, RunState::Running) => {
                self.run_state = RunState::Paused;
                Some(Action::Send(Command::Pause))
            },
            Key::Char('p') if matches!(self.run_state, RunState::Paused) => {
                self.run_state = RunState::Running;
                Some(Action::Send(Command::Resume))
            },
            Key::Char('c') => {
                self.invalidate_connection_test();
                self.settings = SettingsForm::from_config(&self.config);
                self.footer_message = None;
                self.screen = Screen::Settings;
                None
            },
            Key::Up => {
                if self.log_selected > 0 {
                    self.log_selected = self.log_selected - 1;
                }
                None
            },
            Key::Down => {
                if self.log_selected < self.log.len() && self.log_selected + 1 < self.log.len() {
                    self.log_selected = self.log_selected + 1;
                }
                None
            },
            Key::Enter => {
                if self.log.len() > 0 {
                    self.log_expanded = true;
                }
                None
            },
            _ => None,
        }
    }

    #[verifier::rlimit(40)]
    fn on_settings_key(&mut self, key: Key) -> (r: Option<Action>)
        requires
            old(self)@.wf(),
        ensures
            (final(self)@, opt_action(r)) == old(self)@.after_settings_key(key),
    {
        match key {
            Key::Esc => {
                self.invalidate_connection_test();
                self.screen = Screen::Run;
                None
            },
            Key::Tab => {
                self.settings.focus_next();
                None
            },
            Key::BackTab => {
                self.settings.focus_prev();
                None
            },
            Key::Enter => {
                if self.settings.is_last_focused() || self.settings.focused == MAX_TOKENS {
                    self.save_settings()
                } else {
                    self.settings.focus_next();
                    None
                }
            },
            Key::Backspace => {
                self.settings.backspace();
                None
            },
            Key::Char(c) => {
                if !control(c) {
                    self.settings.insert(c);
                }
                None
            },
            Key::CtrlR => {
                self.settings.toggle_secrets();
                None
            },
            Key::CtrlT => self.test_settings(),
            Key::CtrlS => self.save_settings(),
            _ => None,
        }
    }

    fn test_settings(&mut self) -> (r: Option<Action>)
        requires
            old(self)@.wf(),
        ensures
            (final(self)@, opt_action(r)) == old(self)@.after_test_request(),
    {
        match self.settings.to_config(&self.config) {
            Ok(config) => {
                let id = self.next_connection_test_id();
                self.settings.testing = true;
                self.settings.test_result = None;
                self.settings.message = None;
                Some(Action::TestConnections { id, config })
            },
            Err(message) => {
                self.settings.message = Some(message);
                None
            },
        }
    }

    fn save_settings(&mut self) -> (r: Option<Action>)
        requires
            old(self)@.wf(),
        ensures
            (final(self)@, opt_action(r)) == old(self)@.after_save_request(),
    {
        if matches!(self.run_state, RunState::Running) {
            self.settings.message = Some("pause the run before saving".to_owned());
            return None;
        }
        match self.settings.to_config(&self.config) {
            Ok(config) => Some(Action::SaveConfig(config)),
            Err(message) => {
                self.settings.message = Some(message);
                None
            },
        }
    }

    /// Commits a candidate after persistence and engine replacement both succeed.
    pub fn config_save_succeeded(&mut self, config: Config)
        ensures
            final(self)@ == old(self)@.saved(config@),
            final(self)@.wf(),
    {
        self.invalidate_connection_test();
        self.config = config;
        self.settings = SettingsForm::from_config(&self.config);
        self.reset_run(None);
        self.run_state = RunState::Idle;
        self.screen = Screen::Run;
        self.footer_message = Some("settings saved".to_owned());
    }

    /// Keeps the candidate form and current runtime state after a save failure.
    pub fn config_save_failed(&mut self, message: &str)
        ensures
            final(self)@ == old(self)@.with_message(message@),
    {
        self.settings.message = Some(message.to_owned());
    }

    fn next_connection_test_id(&mut self) -> (r: u64)
        ensures
            r == old(self)@.next_test_id(),
            final(self)@ == (AppView { connection_test_id: r, ..old(self)@ }),
    {
        self.connection_test_id = self.connection_test_id.wrapping_add(1);
        self.connection_test_id
    }

    fn invalidate_connection_test(&mut self)
        ensures
            final(self)@ == old(self)@.test_dropped(),
    {
        self.next_connection_test_id();
        self.settings.testing = false;
    }

    fn can_start(&self) -> (r: bool)
        ensures
            r == self@.can_start(),
    {
        matches!(self.run_state, RunState::Idle | RunState::Finished | RunState::Error(_))
    }

    fn reset_run(&mut self, run_started: Option<Instant>)
        ensures
            final(self)@ == old(self)@.cleared(opt_instant(run_started)),
    {
        self.scanned = 0;
        self.queued = 0;
        self.done = 0;
        self.failed = 0;
        self.in_flight.clear();
        self.recent.clear();
        self.llm_time_total = zero();
        self.asset_time_total = zero();
        self.run_started = run_started;
        self.run_elapsed = None;
        assert(self@ =~= old(self)@.cleared(opt_instant(run_started)));
    }

    /// How long the run has taken at `now`.
    pub fn elapsed(&self, now: Instant) -> (r: Duration)
        ensures
            duration_nanos(r) == self@.elapsed_at(instant_nanos(now)),
    {
        match (self.run_elapsed, self.run_started) {
            (Some(elapsed), _) => elapsed,
            (None, Some(started)) => now.saturating_duration_since(started),
            (None, None) => zero(),
        }
    }

    /// How many of the queued assets are finished: that number and the queue size, or `None`
    /// while nothing is queued. More results than queued assets count as all of them.
    pub fn progress_parts(&self) -> (r: Option<(u64, u64)>)
        requires
            self.done + self.failed <= u64::MAX,
        ensures
            r == if self.queued == 0 {
                None
            } else if self.done + self.failed <= self.queued {
                Some(((self.done + self.failed) as u64, self.queued))
            } else {
                Some((self.queued, self.queued))
            },
    {
        if self.queued == 0 {
            return None;
        }
        let finished = self.done + self.failed;
        if finished <= self.queued {
            Some((finished, self.queued))
        } else {
            Some((self.queued, self.queued))
        }
    }

    /// The completions behind the rate estimate: how many followed the oldest of the last
    /// results, and in what time. `None` with fewer than two results or with no time between
    /// them.
    pub fn rate_window(&self) -> (r: Option<(usize, Duration)>)
        ensures
            match r {
                Some((count, span)) => {
                    &&& self@.recent.len() >= 2
                    &&& count == self@.recent.len() - 1
                    &&& duration_nanos(span) == time_between(
                        self@.recent.last(),
                        self@.recent[0],
                    )
                    &&& duration_nanos(span) > 0
                },
                None => self@.recent.len() < 2 || self@.recent.last() <= self@.recent[0],
            },
    {
        if self.recent.len() < 2 {
            return None;
        }
        assert(self@.recent[0] == instant_nanos(self.recent@[0]));
        assert(self@.recent.last() == instant_nanos(self.recent@.last()));
        let first = self.recent[0];
        let last = self.recent[self.recent.len() - 1];
        let span = last.saturating_duration_since(first);
        if span.as_nanos() == 0 {
            return None;
        }
        Some((self.recent.len() - 1, span))
    }

    /// Queued assets without a result so far.
    pub fn remaining(&self) -> (r: u64)
        requires
            self.done + self.failed <= u64::MAX,
        ensures
            r == if self.queued >= self.done + self.failed {
                self.queued - self.done - self.failed
            } else {
                0
            },
    {
        let finished = self.done + self.failed;
        if self.queued >= finished {
            self.queued - finished
        } else {
            0
        }
    }

    /// Average time in the LLM per finished asset.
    pub fn avg_llm(&self) -> (r: Option<Duration>)
        ensures
            opt_duration(r) == average(self@.llm_time_total, self@.done),
    {
        if self.done > 0 {
            Some(share(self.llm_time_total, self.done))
        } else {
            None
        }
    }

    /// Average time per finished asset.
    pub fn avg_total(&self) -> (r: Option<Duration>)
        ensures
            opt_duration(r) == average(self@.asset_time_total, self@.done),
    {
        if self.done > 0 {
            Some(share(self.asset_time_total, self.done))
        } else {
            None
        }
    }

    /// The word for the run state in the header.
    pub fn state_label(&self) -> (r: &'static str)
        ensures
            r@ == self@.state_word(),
    {
        match self.run_state {
            RunState::Idle => "IDLE",
            RunState::Running => "RUNNING",
            RunState::Paused => "PAUSED",
            RunState::Finished => "FINISHED",
            RunState::Error(_) => "ERROR",
        }
    }

    /// The Immich server in the header.
    pub fn immich_host(&self) -> (r: String)
        ensures
            r@ == host_text(url_parts(self@.config.immich.url), self@.config.immich.url),
    {
        host_of(self.config.immich.url.as_str())
    }

    /// The LLM server in the header.
    pub fn llm_host(&self) -> (r: String)
        ensures
            r@ == host_text(url_parts(self@.config.llm.base_url), self@.config.llm.base_url),
    {
        host_of(self.config.llm.base_url.as_str())
    }
}

// ---------------------------------------------------------------------------
// The main loop
// ---------------------------------------------------------------------------

/// What the main loop does for an action.
#[derive(Debug)]
pub enum MainStep {
    Nothing,
    Send(Command),
    TestConnections { id: u64, config: Config },
    SaveConfig(Config),
    Quit,
}

/// Mathematical model of [`MainStep`].
pub enum MainStepView {
    Nothing,
    Send(Command),
    TestConnections { id: u64, config: ConfigView },
    SaveConfig(ConfigView),
    Quit,
}

impl View for MainStep {
    type V = MainStepView;

    open spec fn view(&self) -> MainStepView {
        match *self {
            MainStep::Nothing => MainStepView::Nothing,
            MainStep::Send(command) => MainStepView::Send(command),
            MainStep::TestConnections { id, config } => MainStepView::TestConnections {
                id,
                config: config@,
            },
            MainStep::SaveConfig(config) => MainStepView::SaveConfig(config@),
            MainStep::Quit => MainStepView::Quit,
        }
    }
}

impl AppView {
    /// The state when a command finds no engine.
    pub open spec fn without_engine(self) -> AppView {
        AppView {
            run_state: RunStateView::Idle,
            footer_message: Some("open settings with c and save a config first"@),
            ..self
        }
    }

    /// What an action leads to, with or without an engine to command.
    pub open spec fn dispatched(self, action: Option<ActionView>, has_engine: bool) -> (
        AppView,
        MainStepView,
    ) {
        if self.should_quit || action == Some(ActionView::Quit) {
            (self, MainStepView::Quit)
        } else {
            match action {
                Some(ActionView::Send(command)) => if has_engine {
                    (self, MainStepView::Send(command))
                } else {
                    (self.without_engine(), MainStepView::Nothing)
                },
                Some(ActionView::TestConnections { id, config }) => (
                    self,
                    MainStepView::TestConnections { id, config },
                ),
                Some(ActionView::SaveConfig(config)) => (self, MainStepView::SaveConfig(config)),
                _ => (self, MainStepView::Nothing),
            }
        }
    }
}

impl App {
    /// Says what the main loop does for an action.
    pub fn dispatch(&mut self, action: Option<Action>, has_engine: bool) -> (r: MainStep)
        ensures
            (final(self)@, r@) == old(self)@.dispatched(opt_action(action), has_engine),
    {
        if self.should_quit {
            return MainStep::Quit;
        }
        match action {
            None => MainStep::Nothing,
            Some(Action::Send(command)) => {
                if has_engine {
                    MainStep::Send(command)
                } else {
                    self.run_state = RunState::Idle;
                    self.footer_message = Some(
                        "open settings with c and save a config first".to_owned(),
                    );
                    MainStep::Nothing
                }
            },
            Some(Action::TestConnections { id, config }) => MainStep::TestConnections {
                id,
                config,
            },
            Some(Action::SaveConfig(config)) => MainStep::SaveConfig(config),
            Some(Action::Quit) => MainStep::Quit,
        }
    }

    /// Takes the end of a save: commits the candidate, or shows why it was not saved.
    pub fn finish_save(&mut self, candidate: Config, failure: Option<String>)
        ensures
            final(self)@ == match failure {
                None => old(self)@.saved(candidate@),
                Some(error) => old(self)@.with_message("save failed: "@ + error@),
            },
    {
        match failure {
            None => self.config_save_succeeded(candidate),
            Some(error) => self.config_save_failed(cat("save failed: ", error.as_str()).as_str()),
        }
    }
}

/// `total` over `done`, or nothing for none.
pub open spec fn average(total: nat, done: nat) -> Option<nat> {
    if done > 0 {
        Some(total / done)
    } else {
        None
    }
}

// ---------------------------------------------------------------------------
// Laws
// ---------------------------------------------------------------------------

/// No key takes a field off the form or the focus off its controls.
pub proof fn law_keys_keep_the_state_whole(app: AppView, key: Key, now: int)
    requires
        app.wf(),
    ensures
        app.after_key(key, now).0.wf(),
{
}

impl AppView {
    /// The log and the rate window are within their limits, the highlight is on a row of the
    /// log, or on the top of an empty one, and an open popup has a row to show.
    pub open spec fn bounded(self) -> bool {
        &&& self.log.len() <= LOG_CAP
        &&& self.recent.len() <= RATE_WINDOW
        &&& self.log_selected == 0 || self.log_selected < self.log.len()
        &&& self.log_expanded ==> self.log.len() > 0
    }
}

/// Events keep the log, the rate window and the highlight within their limits.
pub proof fn law_events_keep_the_bounds(app: AppView, event: EventView, now: int, at: Seq<char>)
    requires
        app.bounded(),
    ensures
        app.after(event, now, at).bounded(),
{
}

/// Keys keep the log, the rate window and the highlight within their limits.
pub proof fn law_keys_keep_the_bounds(app: AppView, key: Key, now: int)
    requires
        app.bounded(),
    ensures
        app.after_key(key, now).0.bounded(),
{
}

/// No key changes the log. While no row is open, the arrows move the highlight by one row and
/// stop at the first and at the last; no other key of the run screen moves it.
pub proof fn law_arrows_move_the_highlight_by_one(app: AppView, key: Key, now: int)
    requires
        app.bounded(),
        app.screen == Screen::Run,
    ensures
        ({
            let next = app.after_key(key, now).0;
            &&& next.bounded()
            &&& next.log == app.log
            &&& next.log_selected == if app.log_expanded {
                app.log_selected
            } else if key == Key::Up && app.log_selected > 0 {
                (app.log_selected - 1) as nat
            } else if key == Key::Down && app.log_selected + 1 < app.log.len() {
                app.log_selected + 1
            } else {
                app.log_selected
            }
            &&& next.log_expanded && !app.log_expanded ==> key == Key::Enter
        }),
{
}

/// The newest result is the top row of the log, above the rows that were there.
pub proof fn law_newest_row_comes_first(app: AppView, row: LogRowView)
    ensures
        app.logged(row).log[0] == row,
        app.logged(row).log.len() > 0,
        forall|i: int|
            0 < i < app.logged(row).log.len() ==> #[trigger] app.logged(row).log[i] == app.log[i
                - 1],
        app.log.len() < LOG_CAP ==> app.logged(row).log.len() == app.log.len() + 1,
{
}

/// The log is newest first: whatever is reported, it stays as it is, or one row comes on top of
/// the rows that were there, of which the last is dropped if the log was full.
pub proof fn law_events_keep_the_log_newest_first(
    app: AppView,
    event: EventView,
    now: int,
    at: Seq<char>,
)
    requires
        app.log.len() <= LOG_CAP,
    ensures
        ({
            let log = app.after(event, now, at).log;
            ||| log == app.log
            ||| log.len() > 0 && log.len() <= LOG_CAP && log.skip(1) == app.log.take(
                log.len() - 1,
            ) && log.len() - 1 == if app.log.len() == LOG_CAP {
                app.log.len() - 1
            } else {
                app.log.len() as int
            }
        }),
{
    let log = app.after(event, now, at).log;
    if log != app.log {
        assert(log.skip(1) =~= app.log.take(log.len() - 1));
    }
}

/// A highlight that left the top row stays on its row when a new one arrives, as long as that
/// row stays in the log.
pub proof fn law_highlight_follows_its_row(app: AppView, row: LogRowView)
    requires
        0 < app.log_selected < app.log.len(),
        app.log_selected + 1 < LOG_CAP,
    ensures
        app.logged(row).log[app.logged(row).log_selected as int] == app.log[app.log_selected
            as int],
{
}

proof fn lemma_without(s: Seq<InFlightView>, id: Seq<char>)
    ensures
        forall|e: InFlightView| #[trigger]
            without(s, id).contains(e) <==> s.contains(e) && e.id != id,
    decreases s.len(),
{
    if s.len() > 0 {
        let t = s.drop_last();
        lemma_without(t, id);
        assert(s =~= t.push(s.last()));
        assert forall|e: InFlightView| #[trigger]
            without(s, id).contains(e) <==> s.contains(e) && e.id != id by {
            lemma_seq_contains_after_push(t, s.last(), e);
            lemma_seq_contains_after_push(without(t, id), s.last(), e);
        }
    }
}

/// A result takes exactly its own asset out of flight, and counts it once.
pub proof fn law_result_ends_its_flight(
    app: AppView,
    id: Seq<char>,
    name: Seq<char>,
    error: Seq<char>,
    description: Seq<char>,
    took: nat,
    llm_took: nat,
    now: int,
    at: Seq<char>,
    entry: InFlightView,
)
    ensures
        ({
            let done = app.after(
                EventView::AssetDone { id, name, description, took, llm_took },
                now,
                at,
            );
            let failed = app.after(EventView::AssetFailed { id, name, error }, now, at);
            &&& done.in_flight.contains(entry) <==> app.in_flight.contains(entry) && entry.id != id
            &&& failed.in_flight.contains(entry) <==> app.in_flight.contains(entry) && entry.id
                != id
            &&& done.done == app.done + 1 && done.failed == app.failed
            &&& failed.failed == app.failed + 1 && failed.done == app.done
        }),
{
    lemma_without(app.in_flight, id);
}

/// A connection test answers only the request it was made for: with another id nothing
/// changes, and every new request, save or leave gives the awaited test another id.
pub proof fn law_stale_test_results_are_dropped(
    app: AppView,
    id: u64,
    immich: TestOutcome,
    llm: TestOutcome,
    now: int,
    at: Seq<char>,
)
    ensures
        id != app.connection_test_id ==> app.after(
            EventView::ConnectionTest { id, immich, llm },
            now,
            at,
        ) == app,
        app.after_test_request().1 matches Some(ActionView::TestConnections { id: new, .. }) ==> {
            &&& new != app.connection_test_id
            &&& app.after_test_request().0.connection_test_id == new
        },
        app.after_settings_key(Key::Esc).0.connection_test_id != app.connection_test_id,
        app.saved(app.config).connection_test_id != app.connection_test_id,
{
}

/// Pausing and resuming leaves everything as it was.
pub proof fn law_resume_undoes_pause(app: AppView, now: int, later: int)
    requires
        app.screen == Screen::Run,
        !app.log_expanded,
        app.run_state is Running,
    ensures
        app.after_key(Key::Char('p'), now).1 == Some(ActionView::Send(Command::Pause)),
        app.after_key(Key::Char('p'), now).0.run_state is Paused,
        app.after_key(Key::Char('p'), now).0.after_key(Key::Char('p'), later) == (
            app,
            Some(ActionView::Send(Command::Resume)),
        ),
{
}

/// A start is asked for only when nothing runs. It resets every counter and keeps the log.
pub proof fn law_start_resets_all_but_the_log(app: AppView, now: int)
    requires
        app.screen == Screen::Run,
        !app.log_expanded,
    ensures
        app.after_key(Key::Char('s'), now).1 == if app.can_start() {
            Some(ActionView::Send(Command::Start))
        } else {
            None
        },
        !app.can_start() ==> app.after_key(Key::Char('s'), now).0 == app,
        app.can_start() ==> {
            let next = app.after_key(Key::Char('s'), now).0;
            &&& next.scanned == 0 && next.queued == 0 && next.done == 0 && next.failed == 0
            &&& next.in_flight.len() == 0 && next.recent.len() == 0
            &&& next.llm_time_total == 0 && next.asset_time_total == 0
            &&& next.run_started == Some(now) && next.run_elapsed is None
            &&& next.log == app.log && next.log_selected == app.log_selected
            &&& next.run_state is Running
        },
{
}

/// While a run is on, no key on the settings screen asks for a save.
pub proof fn law_no_save_while_running(app: AppView, key: Key, now: int)
    requires
        app.screen == Screen::Settings,
        app.run_state is Running,
    ensures
        !(app.after_key(key, now).1 matches Some(ActionView::SaveConfig(_))),
{
}

/// What a key asks to save or to test has passed validation.
pub proof fn law_actions_carry_valid_configs(app: AppView, key: Key, now: int)
    ensures
        match app.after_key(key, now).1 {
            Some(ActionView::SaveConfig(config)) => config_complaint(config) is None,
            Some(ActionView::TestConnections { config, .. }) => config_complaint(config) is None,
            _ => true,
        },
{
}

/// Neither events nor keys change the committed configuration: only a save that succeeded
/// does.
pub proof fn law_only_a_save_changes_the_config(
    app: AppView,
    event: EventView,
    key: Key,
    now: int,
    at: Seq<char>,
    message: Seq<char>,
    config: ConfigView,
)
    ensures
        app.after(event, now, at).config == app.config,
        app.after_key(key, now).0.config == app.config,
        app.with_message(message).config == app.config,
        app.saved(config).config == config,
{
}

/// Control-C quits from every screen and state.
pub proof fn law_control_c_always_quits(app: AppView, now: int)
    ensures
        app.after_key(Key::CtrlC, now) == (
            AppView { should_quit: true, ..app },
            Some(ActionView::Quit),
        ),
{
}

/// Leaving the settings with Esc discards the edits: coming back shows the committed
/// configuration.
pub proof fn law_esc_discards_edits(app: AppView, now: int, later: int)
    requires
        app.screen == Screen::Settings,
        !app.log_expanded,
    ensures
        app.after_key(Key::Esc, now).1 is None,
        app.after_key(Key::Esc, now).0.screen == Screen::Run,
        app.after_key(Key::Esc, now).0.after_key(Key::Char('c'), later).0.settings == form_of(
            app.config,
        ),
{
}

/// Once a run has ended its clock stands still.
pub proof fn law_clock_stops_with_the_run(
    app: AppView,
    event: EventView,
    now: int,
    at: Seq<char>,
    later: int,
)
    requires
        event is RunFinished || event is Fatal,
    ensures
        app.after(event, now, at).elapsed_at(later) == match event {
            EventView::RunFinished { elapsed, .. } => elapsed,
            _ => app.elapsed_at(now),
        },
{
}

} // verus!
