//! The state of the app: what every event, key and save changes, and what it leaves alone.
use std::time::Duration;
use vstd::prelude::*;
use vstd::string::*;

use crate::app::{
    average, first_with, fresh, last_of, staged, without, App, AppView, InFlightView, LogRowView,
    MainStepView, RunStateView, Screen, LOG_CAP, RATE_WINDOW,
};
use crate::clock::{duration_nanos, instant_nanos};
use crate::config::{Config, ConfigView};
use crate::events::{mapped_key, ActionView, Command, EventView, Key, Stage, TermKey};
use crate::settings::{form_of, FormView, TestOutcome, MAX_TOKENS};
use crate::text::is_control;

verus! {

// ---------------------------------------------------------------------------
// Lists
// ---------------------------------------------------------------------------

/// What is left without an id is every other entry, in the same order: leaving out is done entry
/// by entry.
pub proof fn law_without_is_entry_by_entry(s: Seq<InFlightView>, e: InFlightView, id: Seq<char>)
    ensures
        without(seq![], id).len() == 0,
        e.id == id ==> without(s.push(e), id) == without(s, id),
        e.id != id ==> without(s.push(e), id) == without(s, id).push(e),
{
    assert(s.push(e).drop_last() =~= s);
}

proof fn lemma_first_with(s: Seq<InFlightView>, id: Seq<char>, from: nat)
    requires
        from <= s.len(),
    ensures
        from <= first_with(s, id, from) <= s.len(),
        first_with(s, id, from) < s.len() ==> s[first_with(s, id, from) as int].id == id,
        forall|k: int| from <= k < first_with(s, id, from) ==> (#[trigger] s[k]).id != id,
    decreases s.len() - from,
{
    if from < s.len() && s[from as int].id != id {
        lemma_first_with(s, id, from + 1);
    }
}

/// A stage is set on the first entry with the id and on no other. Names, ids and times stay.
pub proof fn law_one_entry_changes_its_stage(
    s: Seq<InFlightView>,
    id: Seq<char>,
    stage: Stage,
    i: int,
)
    requires
        0 <= i < s.len(),
    ensures
        ({
            let r = staged(s, id, stage);
            &&& r.len() == s.len()
            &&& r[i].id == s[i].id && r[i].name == s[i].name && r[i].started_at == s[i].started_at
            &&& s[i].id == id && (forall|k: int| 0 <= k < i ==> (#[trigger] s[k]).id != id)
                ==> r[i].stage == stage
            &&& s[i].id != id ==> r[i] == s[i]
            &&& (exists|k: int| 0 <= k < i && (#[trigger] s[k]).id == id) ==> r[i] == s[i]
        }),
{
    lemma_first_with(s, id, 0);
}

/// The window keeps the newest results: it ends with the newest, holds no more than its size,
/// and loses only from the front.
pub proof fn law_windows_keep_the_newest(s: Seq<int>, n: nat)
    ensures
        s.len() <= n ==> last_of(s, n) == s,
        s.len() > n ==> last_of(s, n).len() == n && last_of(s, n) == s.subrange(
            s.len() - n,
            s.len() as int,
        ),
        RATE_WINDOW == 20,
        LOG_CAP == 500,
{
    if s.len() > n {
        assert(last_of(s, n) =~= s.subrange(s.len() - n, s.len() as int));
    }
}

// ---------------------------------------------------------------------------
// Events
// ---------------------------------------------------------------------------

/// A page sets the two totals of the search; its end sets the number of queued assets.
pub proof fn law_search_totals_are_shown(
    app: AppView,
    scanned: u64,
    queued: u64,
    now: int,
    at: Seq<char>,
)
    ensures
        ({
            let page = app.after(EventView::PageLoaded { scanned, queued }, now, at);
            let end = app.after(EventView::DiscoveryDone { total_queued: queued }, now, at);
            &&& page.scanned == scanned && page.queued == queued
            &&& (AppView { scanned: app.scanned, queued: app.queued, ..page }) == app
            &&& end.queued == queued
            &&& (AppView { queued: app.queued, ..end }) == app
        }),
{
}

/// An asset that starts comes last among those in flight, at its first stage and from now on.
/// A stage changes only the stages.
pub proof fn law_started_assets_are_in_flight(
    app: AppView,
    id: Seq<char>,
    name: Seq<char>,
    stage: Stage,
    now: int,
    at: Seq<char>,
)
    ensures
        ({
            let next = app.after(EventView::AssetStarted { id, name }, now, at);
            let last = next.in_flight.last();
            &&& next.in_flight.len() == app.in_flight.len() + 1
            &&& next.in_flight.drop_last() == app.in_flight
            &&& last.id == id && last.name == name && last.started_at == now
            &&& last.stage == Stage::Fetching
            &&& (AppView { in_flight: app.in_flight, ..next }) == app
        }),
        ({
            let next = app.after(EventView::AssetStage { id, stage }, now, at);
            &&& next.in_flight == staged(app.in_flight, id, stage)
            &&& (AppView { in_flight: app.in_flight, ..next }) == app
        }),
{
    assert(app.in_flight.push(
        InFlightView { id, name, stage: Stage::Fetching, started_at: now },
    ).drop_last() =~= app.in_flight);
}

/// A description counts as one more, adds its times to the totals, ends the flight of its asset
/// and tops the log with its own row. Nothing else changes.
pub proof fn law_descriptions_are_counted_and_logged(
    app: AppView,
    id: Seq<char>,
    name: Seq<char>,
    description: Seq<char>,
    took: nat,
    llm_took: nat,
    now: int,
    at: Seq<char>,
)
    ensures
        ({
            let next = app.after(
                EventView::AssetDone { id, name, description, took, llm_took },
                now,
                at,
            );
            &&& next.done == app.done + 1
            &&& next.llm_time_total == app.llm_time_total + llm_took
            &&& next.asset_time_total == app.asset_time_total + took
            &&& next.in_flight == without(app.in_flight, id)
            &&& next.log.len() > 0
            &&& next.log[0] == (LogRowView::Done { at, name, took, description })
            &&& next.recent == last_of(app.recent.push(now), 20)
            &&& (AppView {
                done: app.done,
                llm_time_total: app.llm_time_total,
                asset_time_total: app.asset_time_total,
                in_flight: app.in_flight,
                log: app.log,
                log_selected: app.log_selected,
                recent: app.recent,
                ..next
            }) == app
        }),
{
}

/// A failure counts as one more, ends the flight of its asset and tops the log with its own row.
/// Nothing else changes: it counts neither for the averages nor for the rate.
pub proof fn law_failures_are_counted_and_logged(
    app: AppView,
    id: Seq<char>,
    name: Seq<char>,
    error: Seq<char>,
    now: int,
    at: Seq<char>,
)
    ensures
        ({
            let next = app.after(EventView::AssetFailed { id, name, error }, now, at);
            &&& next.failed == app.failed + 1
            &&& next.in_flight == without(app.in_flight, id)
            &&& next.log.len() > 0
            &&& next.log[0] == (LogRowView::Failed { at, name, error })
            &&& (AppView {
                failed: app.failed,
                in_flight: app.in_flight,
                log: app.log,
                log_selected: app.log_selected,
                ..next
            }) == app
        }),
{
}

/// A new row comes on top and the others move down by one; of 500 rows the oldest leaves. The
/// highlight stays on the top row, or on its own as long as that is there.
pub proof fn law_rows_move_down(app: AppView, row: LogRowView)
    ensures
        ({
            let next = app.logged(row);
            &&& next.log.len() == if app.log.len() < 500 {
                app.log.len() + 1
            } else if app.log.len() == 500 {
                500nat
            } else {
                app.log.len()
            }
            &&& next.log[0] == row
            &&& forall|i: int|
                0 <= i < next.log.len() - 1 ==> #[trigger] next.log[i + 1] == app.log[i]
            &&& app.log_selected == 0 ==> next.log_selected == 0
            &&& app.log_selected > 0 && app.log_selected + 1 < next.log.len()
                ==> next.log_selected == app.log_selected + 1
            &&& app.log_selected + 1 >= next.log.len() ==> next.log_selected == app.log_selected
            &&& (AppView { log: app.log, log_selected: app.log_selected, ..next }) == app
        }),
{
}

/// A run that ends leaves its numbers and its time, and nothing in flight. One that was stopped
/// leaves the reason, and the time so far.
pub proof fn law_ends_of_a_run(
    app: AppView,
    done: u64,
    failed: u64,
    elapsed: nat,
    error: Seq<char>,
    now: int,
    at: Seq<char>,
)
    ensures
        ({
            let next = app.after(EventView::RunFinished { done, failed, elapsed }, now, at);
            &&& next.done == done && next.failed == failed && next.run_elapsed == Some(elapsed)
            &&& next.in_flight.len() == 0 && next.run_state is Finished
            &&& (AppView {
                done: app.done,
                failed: app.failed,
                run_elapsed: app.run_elapsed,
                in_flight: app.in_flight,
                run_state: app.run_state,
                ..next
            }) == app
        }),
        ({
            let next = app.after(EventView::Fatal { error }, now, at);
            &&& next.run_state == RunStateView::Error(error)
            &&& next.run_elapsed == Some(app.elapsed_at(now))
            &&& next.in_flight.len() == 0
            &&& (AppView {
                run_elapsed: app.run_elapsed,
                in_flight: app.in_flight,
                run_state: app.run_state,
                ..next
            }) == app
        }),
{
}

/// The result of the awaited connection test is shown, each server's own, and ends the wait.
pub proof fn law_awaited_results_are_shown(
    app: AppView,
    immich: TestOutcome,
    llm: TestOutcome,
    now: int,
    at: Seq<char>,
)
    ensures
        ({
            let next = app.after(
                EventView::ConnectionTest { id: app.connection_test_id, immich, llm },
                now,
                at,
            );
            &&& next.settings.test_result == Some((immich, llm))
            &&& !next.settings.testing
            &&& (FormView {
                test_result: app.settings.test_result,
                testing: app.settings.testing,
                ..next.settings
            }) == app.settings
            &&& (AppView { settings: app.settings, ..next }) == app
        }),
{
}

// ---------------------------------------------------------------------------
// Numbers
// ---------------------------------------------------------------------------

/// The clock of a run: still once it ended, the time since the start while it is on, and zero
/// before. A clock that went back counts as no time.
pub proof fn law_elapsed_time(app: AppView, now: int)
    ensures
        app.run_elapsed matches Some(elapsed) ==> app.elapsed_at(now) == elapsed,
        app.run_elapsed is None ==> (app.run_started matches Some(start) ==> {
            &&& now >= start ==> app.elapsed_at(now) == now - start
            &&& now < start ==> app.elapsed_at(now) == 0
        }),
        app.run_elapsed is None && app.run_started is None ==> app.elapsed_at(now) == 0,
{
}

/// Results and queue: what is finished never passes what is queued, and with what remains it
/// makes up the queue.
pub proof fn law_progress_and_rest_make_up_the_queue(
    app: &App,
    progress: Option<(u64, u64)>,
    rest: u64,
)
    requires
        app.done + app.failed <= u64::MAX,
        call_ensures(App::progress_parts, (app,), progress),
        call_ensures(App::remaining, (app,), rest),
    ensures
        progress is None <==> app.queued == 0,
        progress matches Some((finished, all)) ==> {
            &&& all == app.queued
            &&& finished + rest == app.queued
            &&& app.done + app.failed <= app.queued ==> finished == app.done + app.failed
            &&& app.done + app.failed >= app.queued ==> finished == app.queued
        },
        rest == 0 <==> app.done + app.failed >= app.queued,
{
}

/// The rate goes by the results behind the oldest of the window, in the time between the oldest
/// and the newest. With fewer than two, or no time between them, there is none.
pub proof fn law_rate_goes_from_oldest_to_newest(app: &App, r: Option<(usize, Duration)>)
    requires
        call_ensures(App::rate_window, (app,), r),
    ensures
        ({
            let first = instant_nanos(app.recent@[0]);
            let last = instant_nanos(app.recent@.last());
            &&& r is Some <==> app.recent@.len() >= 2 && last > first
            &&& r matches Some((count, span)) ==> {
                &&& count + 1 == app.recent@.len()
                &&& duration_nanos(span) == last - first
            }
        }),
{
    assert(app@.recent.len() == app.recent@.len());
    if app.recent@.len() >= 2 {
        assert(app@.recent[0] == instant_nanos(app.recent@[0]));
        assert(app@.recent.last() == instant_nanos(app.recent@.last()));
    }
}

/// The averages are over the described photos, each of its own total. There is none before the
/// first.
pub proof fn law_averages_are_per_description(
    app: &App,
    llm: Option<Duration>,
    total: Option<Duration>,
)
    requires
        call_ensures(App::avg_llm, (app,), llm),
        call_ensures(App::avg_total, (app,), total),
    ensures
        llm is None <==> app.done == 0,
        total is None <==> app.done == 0,
        llm matches Some(d) ==> app.done * duration_nanos(d) <= duration_nanos(
            app.llm_time_total,
        ) < app.done * (duration_nanos(d) + 1),
        total matches Some(d) ==> app.done * duration_nanos(d) <= duration_nanos(
            app.asset_time_total,
        ) < app.done * (duration_nanos(d) + 1),
{
    if app.done > 0 {
        lemma_average(app@.llm_time_total, app@.done);
        lemma_average(app@.asset_time_total, app@.done);
    }
}

proof fn lemma_average(total: nat, done: nat)
    requires
        done > 0,
    ensures
        average(total, done) matches Some(n) && done * n <= total < done * (n + 1),
{
    let n = total / done;
    assert(done * n <= total < done * (n + 1)) by (nonlinear_arith)
        requires
            done > 0,
            n == total / done,
    ;
}

// ---------------------------------------------------------------------------
// Keys of the run screen
// ---------------------------------------------------------------------------

/// An open row takes two keys, which close it, and no others. Nothing is asked for.
pub proof fn law_open_rows_take_two_keys(app: AppView, key: Key, now: int)
    requires
        app.screen == Screen::Run,
        app.log_expanded,
        key != Key::CtrlC,
    ensures
        ({
            let (next, action) = app.after_key(key, now);
            &&& action is None
            &&& key == Key::Esc || key == Key::Enter ==> !next.log_expanded
            &&& !(key == Key::Esc || key == Key::Enter) ==> next.log_expanded
            &&& (AppView { log_expanded: true, ..next }) == app
        }),
{
}

/// On the run screen `q` quits, `s` starts, `p` pauses and resumes, and no other key asks for
/// anything.
pub proof fn law_what_run_keys_ask_for(app: AppView, key: Key, now: int)
    requires
        app.screen == Screen::Run,
        !app.log_expanded,
    ensures
        ({
            let action = app.after_key(key, now).1;
            let idle = app.run_state is Idle || app.run_state is Finished
                || app.run_state is Error;
            &&& action == Some(ActionView::Quit) <==> key == Key::Char('q') || key == Key::CtrlC
            &&& action == Some(ActionView::Send(Command::Start)) <==> key == Key::Char('s') && idle
            &&& action == Some(ActionView::Send(Command::Pause)) <==> key == Key::Char('p')
                && app.run_state is Running
            &&& action == Some(ActionView::Send(Command::Resume)) <==> key == Key::Char('p')
                && app.run_state is Paused
            &&& !(action matches Some(ActionView::SaveConfig(_)))
            &&& !(action matches Some(ActionView::TestConnections { .. }))
            &&& action != Some(ActionView::Send(Command::Quit))
        }),
{
}

/// What the keys of the run screen change: the state of the run, the highlight, the popup, the
/// screen, and nothing else.
pub proof fn law_what_run_keys_change(app: AppView, now: int)
    requires
        app.screen == Screen::Run,
        !app.log_expanded,
    ensures
        ({
            let next = app.after_key(Key::Char('q'), now).0;
            next.should_quit && (AppView { should_quit: app.should_quit, ..next }) == app
        }),
        app.run_state is Running ==> {
            let next = app.after_key(Key::Char('p'), now).0;
            next.run_state is Paused && (AppView { run_state: app.run_state, ..next }) == app
        },
        app.run_state is Paused ==> {
            let next = app.after_key(Key::Char('p'), now).0;
            next.run_state is Running && (AppView { run_state: app.run_state, ..next }) == app
        },
        !(app.run_state is Running || app.run_state is Paused) ==> app.after_key(
            Key::Char('p'),
            now,
        ).0 == app,
        ({
            let next = app.after_key(Key::Enter, now).0;
            &&& next.log_expanded <==> app.log.len() > 0
            &&& (AppView { log_expanded: false, ..next }) == app
        }),
        ({
            let next = app.after_key(Key::Up, now).0;
            &&& app.log_selected > 0 ==> next.log_selected == app.log_selected - 1
            &&& app.log_selected == 0 ==> next.log_selected == 0
            &&& (AppView { log_selected: app.log_selected, ..next }) == app
        }),
        ({
            let next = app.after_key(Key::Down, now).0;
            &&& app.log_selected + 1 < app.log.len() ==> next.log_selected == app.log_selected
                + 1
            &&& app.log_selected + 1 >= app.log.len() ==> next.log_selected == app.log_selected
            &&& (AppView { log_selected: app.log_selected, ..next }) == app
        }),
        ({
            let next = app.after_key(Key::Char('c'), now).0;
            &&& next.screen == Screen::Settings
            &&& next.settings == form_of(app.config)
            &&& next.footer_message is None
            &&& next.connection_test_id != app.connection_test_id
            &&& (AppView {
                screen: app.screen,
                settings: app.settings,
                footer_message: app.footer_message,
                connection_test_id: app.connection_test_id,
                ..next
            }) == app
        }),
{
}

/// A start clears what the last run left, but for its log, and takes the message away.
pub proof fn law_a_start_begins_anew(app: AppView, now: int)
    requires
        app.screen == Screen::Run,
        !app.log_expanded,
        app.run_state is Idle || app.run_state is Finished || app.run_state is Error,
    ensures
        ({
            let next = app.after_key(Key::Char('s'), now).0;
            &&& next.run_state is Running && next.run_started == Some(now)
            &&& next.run_elapsed is None && next.footer_message is None
            &&& next.scanned == 0 && next.queued == 0 && next.done == 0 && next.failed == 0
            &&& next.in_flight.len() == 0 && next.recent.len() == 0
            &&& next.llm_time_total == 0 && next.asset_time_total == 0
            &&& next.log == app.log && next.log_selected == app.log_selected
            &&& next.config == app.config && next.settings == app.settings
            &&& next.screen == app.screen && next.log_expanded == app.log_expanded
            &&& next.should_quit == app.should_quit
            &&& next.connection_test_id == app.connection_test_id
        }),
{
}

/// Every other key does nothing on the run screen.
pub proof fn law_other_run_keys_do_nothing(app: AppView, key: Key, now: int)
    requires
        app.screen == Screen::Run,
        !app.log_expanded,
        match key {
            Key::Char(c) => c != 'q' && c != 's' && c != 'p' && c != 'c',
            Key::Up | Key::Down | Key::Enter | Key::CtrlC => false,
            _ => true,
        },
    ensures
        app.after_key(key, now) == (app, None::<ActionView>),
{
}

// ---------------------------------------------------------------------------
// Keys of the settings screen
// ---------------------------------------------------------------------------

/// Keys that edit the form change nothing but the form and ask for nothing: characters are
/// typed, control codes are not, Backspace erases, Tab and its reverse move the focus.
pub proof fn law_editing_keys_change_only_the_form(app: AppView, key: Key, now: int)
    requires
        app.screen == Screen::Settings,
        key is Char || key == Key::Backspace || key == Key::Tab || key == Key::BackTab || key
            == Key::CtrlR,
    ensures
        ({
            let (next, action) = app.after_key(key, now);
            &&& action is None
            &&& (AppView { settings: app.settings, ..next }) == app
            &&& key matches Key::Char(c) ==> {
                &&& !is_control(c) ==> next.settings == app.settings.typed(c)
                &&& is_control(c) ==> next == app
            }
            &&& key == Key::Backspace ==> next.settings == app.settings.erased()
            &&& key == Key::Tab ==> next.settings == app.settings.focused_next()
            &&& key == Key::BackTab ==> next.settings == app.settings.focused_previous()
            &&& key == Key::CtrlR ==> {
                &&& next.settings.show_secrets != app.settings.show_secrets
                &&& (FormView {
                    show_secrets: app.settings.show_secrets,
                    ..next.settings
                }) == app.settings
            }
        }),
{
}

/// Esc goes back to the run screen and leaves the test that is awaited, if any, behind.
pub proof fn law_esc_goes_back(app: AppView, now: int)
    requires
        app.screen == Screen::Settings,
    ensures
        ({
            let (next, action) = app.after_key(Key::Esc, now);
            &&& action is None
            &&& next.screen == Screen::Run
            &&& next.connection_test_id != app.connection_test_id
            &&& !next.settings.testing
            &&& (FormView { testing: app.settings.testing, ..next.settings }) == app.settings
            &&& (AppView {
                screen: app.screen,
                connection_test_id: app.connection_test_id,
                settings: app.settings,
                ..next
            }) == app
        }),
{
}

/// Enter saves on the last text field and on the last control, as control-S does everywhere; on
/// any other control it moves on to the next. The arrows do nothing here.
pub proof fn law_enter_moves_on_or_saves(app: AppView, now: int)
    requires
        app.screen == Screen::Settings,
        app.settings.focused < 13,
    ensures
        app.settings.focused == MAX_TOKENS || app.settings.focused == 12 ==> app.after_key(
            Key::Enter,
            now,
        ) == app.after_key(Key::CtrlS, now),
        app.settings.focused != MAX_TOKENS && app.settings.focused != 12 ==> app.after_key(
            Key::Enter,
            now,
        ) == app.after_key(Key::Tab, now),
        app.after_key(Key::Up, now) == (app, None::<ActionView>),
        app.after_key(Key::Down, now) == (app, None::<ActionView>),
{
}

/// A save is asked for with the configuration that the form stands for, and the state waits for
/// its end as it is. While a run is on it is refused; a form that is not valid is answered with
/// what is wrong. Only the message tells of that.
pub proof fn law_saves_hand_on_the_form(app: AppView, now: int)
    requires
        app.screen == Screen::Settings,
    ensures
        ({
            let (next, action) = app.after_key(Key::CtrlS, now);
            let result = app.settings.applied(app.config);
            &&& app.run_state is Running ==> action is None && next.settings.message == Some(
                "pause the run before saving"@,
            )
            &&& !(app.run_state is Running) ==> {
                &&& result matches Ok(config) ==> action == Some(ActionView::SaveConfig(config))
                    && next == app
                &&& result matches Err(message) ==> action is None && next.settings.message
                    == Some(message)
            }
            &&& (FormView { message: app.settings.message, ..next.settings }) == app.settings
            &&& (AppView { settings: app.settings, ..next }) == app
        }),
{
}

/// A connection test is asked for with the configuration that the form stands for, under a new
/// number; the form shows that it is awaited and drops the last result. It needs no saved
/// configuration, and a run does not stand in its way.
pub proof fn law_tests_hand_on_the_form(app: AppView, now: int)
    requires
        app.screen == Screen::Settings,
    ensures
        ({
            let (next, action) = app.after_key(Key::CtrlT, now);
            let result = app.settings.applied(app.config);
            &&& result matches Ok(config) ==> {
                &&& action == Some(
                    ActionView::TestConnections { id: next.connection_test_id, config },
                )
                &&& next.connection_test_id != app.connection_test_id
                &&& next.settings.testing
                &&& next.settings.test_result is None && next.settings.message is None
                &&& (FormView {
                    testing: app.settings.testing,
                    test_result: app.settings.test_result,
                    message: app.settings.message,
                    ..next.settings
                }) == app.settings
                &&& (AppView {
                    connection_test_id: app.connection_test_id,
                    settings: app.settings,
                    ..next
                }) == app
            }
            &&& result matches Err(message) ==> {
                &&& action is None
                &&& next.settings.message == Some(message)
                &&& (FormView { message: app.settings.message, ..next.settings })
                    == app.settings
                &&& (AppView { settings: app.settings, ..next }) == app
            }
        }),
{
}

/// The number of a test goes up by one, and from the largest to zero.
pub proof fn law_test_numbers_go_up(app: AppView)
    ensures
        app.connection_test_id < u64::MAX ==> app.next_test_id() == app.connection_test_id + 1,
        app.connection_test_id == u64::MAX ==> app.next_test_id() == 0,
{
}

// ---------------------------------------------------------------------------
// Saves and the main loop
// ---------------------------------------------------------------------------

/// A save that succeeded makes the candidate the configuration, shows it, forgets the last run
/// but for its log, and says so on the run screen. One that failed only leaves its message.
pub proof fn law_ends_of_a_save(app: &mut App, candidate: Config, failure: Option<String>)
    requires
        call_ensures(App::finish_save, (app, candidate, failure), ()),
    ensures
        failure is None ==> {
            let next = final(app)@;
            &&& next.config == candidate@
            &&& next.settings == form_of(candidate@)
            &&& next.screen == Screen::Run && next.run_state is Idle
            &&& next.footer_message == Some("settings saved"@)
            &&& next.scanned == 0 && next.queued == 0 && next.done == 0 && next.failed == 0
            &&& next.in_flight.len() == 0 && next.recent.len() == 0
            &&& next.llm_time_total == 0 && next.asset_time_total == 0
            &&& next.run_started is None && next.run_elapsed is None
            &&& next.log == old(app)@.log && next.log_selected == old(app)@.log_selected
            &&& next.log_expanded == old(app)@.log_expanded
            &&& next.should_quit == old(app)@.should_quit
            &&& next.connection_test_id != old(app)@.connection_test_id
        },
        failure matches Some(error) ==> {
            let next = final(app)@;
            &&& next.settings.message == Some("save failed: "@ + error@)
            &&& (FormView { message: old(app)@.settings.message, ..next.settings }) == old(
                app,
            )@.settings
            &&& (AppView { settings: old(app)@.settings, ..next }) == old(app)@
        },
{
}

/// The main loop quits once that was asked for, whatever else was. Otherwise it does what was
/// asked; a command without an engine is not sent, and the user is told to save a configuration.
pub proof fn law_the_main_loop_does_what_was_asked(
    app: AppView,
    action: Option<ActionView>,
    has_engine: bool,
)
    ensures
        ({
            let (next, step) = app.dispatched(action, has_engine);
            &&& step is Quit <==> app.should_quit || action == Some(ActionView::Quit)
            &&& !app.should_quit ==> {
                &&& action is None ==> step is Nothing
                &&& action matches Some(ActionView::Send(command)) ==> {
                    &&& has_engine ==> step == MainStepView::Send(command)
                    &&& !has_engine ==> step is Nothing && next.run_state is Idle
                        && next.footer_message == Some(
                        "open settings with c and save a config first"@,
                    )
                }
                &&& action matches Some(ActionView::TestConnections { id, config }) ==> step == (
                MainStepView::TestConnections { id, config })
                &&& action matches Some(ActionView::SaveConfig(config)) ==> step
                    == MainStepView::SaveConfig(config)
            }
            &&& app.should_quit || has_engine || !(action matches Some(ActionView::Send(_)))
                ==> next == app
            &&& (AppView {
                run_state: app.run_state,
                footer_message: app.footer_message,
                ..next
            }) == app
        }),
{
}

/// A new state is idle and empty and shows the configuration; a first run begins with the
/// settings.
pub proof fn law_new_states_are_empty(config: ConfigView, first_run: bool)
    ensures
        ({
            let app = fresh(config, first_run);
            &&& app.screen == Screen::Settings <==> first_run
            &&& app.config == config && app.settings == form_of(config)
            &&& app.run_state is Idle
            &&& app.scanned == 0 && app.queued == 0 && app.done == 0 && app.failed == 0
            &&& app.in_flight.len() == 0 && app.log.len() == 0 && app.recent.len() == 0
            &&& app.log_selected == 0 && !app.log_expanded
            &&& app.run_started is None && app.run_elapsed is None
            &&& app.llm_time_total == 0 && app.asset_time_total == 0
            &&& app.footer_message is None && !app.should_quit
            &&& app.connection_test_id == 0
        }),
{
}

// ---------------------------------------------------------------------------
// Keys of the terminal
// ---------------------------------------------------------------------------

/// A character is itself without control and a shortcut, or nothing, with it; no other key minds
/// the modifier. Every key but those that mean nothing arrives under its own name.
pub proof fn law_keys_arrive_under_their_names(code: TermKey, ctrl: bool)
    ensures
        code matches TermKey::Char(c) ==> {
            &&& mapped_key(code, false) == Some(Key::Char(c))
            &&& mapped_key(code, true) is Some <==> c == 'c' || c == 's' || c == 't' || c == 'r'
        },
        mapped_key(TermKey::Char('c'), true) == Some(Key::CtrlC),
        mapped_key(TermKey::Char('s'), true) == Some(Key::CtrlS),
        mapped_key(TermKey::Char('t'), true) == Some(Key::CtrlT),
        mapped_key(TermKey::Char('r'), true) == Some(Key::CtrlR),
        mapped_key(TermKey::Up, ctrl) == Some(Key::Up),
        mapped_key(TermKey::Down, ctrl) == Some(Key::Down),
        mapped_key(TermKey::Enter, ctrl) == Some(Key::Enter),
        mapped_key(TermKey::Esc, ctrl) == Some(Key::Esc),
        mapped_key(TermKey::Tab, ctrl) == Some(Key::Tab),
        mapped_key(TermKey::BackTab, ctrl) == Some(Key::BackTab),
        mapped_key(TermKey::Backspace, ctrl) == Some(Key::Backspace),
        mapped_key(TermKey::Other, ctrl) is None,
{
}

} // verus!
