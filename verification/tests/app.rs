use std::time::{Duration, Instant};

use immich_alt_text::app::{App, LogRow, RunState, Screen, LOG_CAP, RATE_WINDOW};
use immich_alt_text::config::Config;
use immich_alt_text::events::{Action, Command, Event, Key, Stage};

/// Share of the queue finished so far, from the two numbers it is made of.
fn progress_ratio(a: &App) -> f64 {
    match a.progress_parts() {
        Some((finished, queued)) => finished as f64 / queued as f64,
        None => 0.0,
    }
}

/// Completions per minute, from the window they are counted in.
fn rate_per_min(a: &App) -> Option<f64> {
    let (count, span) = a.rate_window()?;
    Some(count as f64 / span.as_secs_f64() * 60.0)
}

fn eta(a: &App) -> Option<Duration> {
    let rate = rate_per_min(a)?;
    Some(Duration::from_secs_f64((a.remaining() as f64 / rate * 60.0).round()))
}

fn config() -> Config {
    let mut c = Config::default();
    c.immich.url = "https://photos.home.lan".into();
    c.immich.api_key = "k".into();
    c.llm.model = "gemma".into();
    c
}

fn app() -> App {
    App::new(config(), false)
}

fn done(name: &str) -> Event {
    Event::AssetDone {
        id: name.to_string(),
        name: name.to_string(),
        description: format!("desc {name}"),
        took: Duration::from_secs(4),
        llm_took: Duration::from_secs(3),
    }
}

#[test]
fn first_run_opens_settings() {
    assert_eq!(App::new(config(), true).screen, Screen::Settings);
    assert_eq!(app().screen, Screen::Run);
}

#[test]
fn counters_follow_events() {
    let mut a = app();
    a.on_event(Event::PageLoaded {
        scanned: 10,
        queued: 4,
    });
    a.on_event(Event::AssetStarted {
        id: "1".into(),
        name: "1".into(),
    });
    assert_eq!(a.in_flight.len(), 1);
    a.on_event(Event::AssetStage {
        id: "1".into(),
        stage: Stage::Writing,
    });
    assert_eq!(a.in_flight[0].stage, Stage::Writing);
    a.on_event(done("1"));
    a.on_event(Event::AssetStarted {
        id: "2".into(),
        name: "2".into(),
    });
    a.on_event(Event::AssetFailed {
        id: "2".into(),
        name: "2".into(),
        error: "boom".into(),
    });
    assert_eq!((a.scanned, a.queued, a.done, a.failed), (10, 4, 1, 1));
    assert!(a.in_flight.is_empty());
    assert_eq!(a.log.len(), 2);
    assert!(matches!(a.log[0], LogRow::Failed { .. }), "newest first");
    assert_eq!(a.avg_llm(), Some(Duration::from_secs(3)));
    assert_eq!(a.avg_total(), Some(Duration::from_secs(4)));
    assert!((progress_ratio(&a) - 0.5).abs() < 1e-9);
}

#[test]
fn discovery_done_sets_final_queue_size() {
    let mut a = app();
    a.on_event(Event::PageLoaded {
        scanned: 10,
        queued: 4,
    });
    a.on_event(Event::DiscoveryDone { total_queued: 4 });
    assert_eq!(a.queued, 4);
}

#[test]
fn log_is_capped() {
    let mut a = app();
    for i in 0..(LOG_CAP + 25) {
        a.on_event(done(&i.to_string()));
    }
    assert_eq!(a.log.len(), LOG_CAP);
    assert!(
        matches!(&a.log[0], LogRow::Done { name, .. } if name == &(LOG_CAP + 24).to_string())
    );
}

#[test]
fn rate_and_eta_use_recent_completions() {
    let mut a = app();
    let t0 = Instant::now();
    a.queued = 100;
    a.done = 20;
    for i in 0..20u64 {
        a.recent.push_back(t0 + Duration::from_secs(i * 3));
    }
    assert!((rate_per_min(&a).unwrap() - 20.0).abs() < 1e-6);
    assert_eq!(eta(&a), Some(Duration::from_secs(240)));
    assert_eq!(rate_per_min(&app()), None);
}

#[test]
fn start_and_pause_keys() {
    let mut a = app();
    assert_eq!(
        a.on_key(Key::Char('p')),
        None,
        "pause does nothing when idle"
    );
    assert_eq!(a.on_key(Key::Char('s')), Some(Action::Send(Command::Start)));
    assert_eq!(a.run_state, RunState::Running);
    assert_eq!(
        a.on_key(Key::Char('s')),
        None,
        "start does nothing while running"
    );
    assert_eq!(a.on_key(Key::Char('p')), Some(Action::Send(Command::Pause)));
    assert_eq!(a.run_state, RunState::Paused);
    assert_eq!(
        a.on_key(Key::Char('p')),
        Some(Action::Send(Command::Resume))
    );
    assert_eq!(a.run_state, RunState::Running);
}

#[test]
fn start_resets_counters_but_keeps_log() {
    let mut a = app();
    a.on_event(Event::PageLoaded {
        scanned: 5,
        queued: 5,
    });
    a.on_event(done("1"));
    a.on_event(Event::RunFinished {
        done: 1,
        failed: 0,
        elapsed: Duration::from_secs(9),
    });
    assert_eq!(a.run_state, RunState::Finished);
    a.on_key(Key::Char('s'));
    assert_eq!((a.scanned, a.queued, a.done), (0, 0, 0));
    assert_eq!(a.log.len(), 1);
}

#[test]
fn fatal_sets_error_state() {
    let mut a = app();
    a.on_key(Key::Char('s'));
    a.on_event(Event::Fatal {
        error: "HTTP 401".into(),
    });
    assert_eq!(a.run_state, RunState::Error("HTTP 401".into()));
    assert_eq!(a.state_label(), "ERROR");
    assert_eq!(
        a.on_key(Key::Char('s')),
        Some(Action::Send(Command::Start)),
        "start again after an error"
    );
}

#[test]
fn log_scroll_and_expand() {
    let mut a = app();
    a.on_event(done("1"));
    a.on_event(done("2"));
    assert_eq!(a.on_key(Key::Down), None);
    assert_eq!(a.log_selected, 1);
    a.on_key(Key::Down);
    assert_eq!(a.log_selected, 1, "stops at the last row");
    a.on_event(done("3"));
    assert_eq!(
        a.log_selected, 2,
        "highlight follows its row when a new row arrives"
    );
    a.on_key(Key::Enter);
    assert!(a.log_expanded);
    a.on_key(Key::Esc);
    assert!(!a.log_expanded);
    a.on_key(Key::Up);
    a.on_key(Key::Up);
    a.on_key(Key::Up);
    assert_eq!(a.log_selected, 0);
}

#[test]
fn quit_keys() {
    let mut a = app();
    assert_eq!(a.on_key(Key::Char('q')), Some(Action::Quit));
    assert!(a.should_quit);
    let mut a = app();
    a.on_key(Key::Char('c'));
    assert_eq!(
        a.on_key(Key::CtrlC),
        Some(Action::Quit),
        "ctrl-c quits from settings too"
    );
}

#[test]
fn settings_screen_flow() {
    let mut a = app();
    assert_eq!(a.on_key(Key::Char('c')), None);
    assert_eq!(a.screen, Screen::Settings);
    a.on_key(Key::Tab);
    a.on_key(Key::Tab);
    a.on_key(Key::Tab);
    a.on_key(Key::Tab);
    a.on_key(Key::Char('!'));
    assert_eq!(
        a.settings.fields[immich_alt_text::settings::LLM_MODEL].value,
        "gemma!"
    );
    a.on_key(Key::Backspace);
    assert_eq!(a.on_key(Key::Esc), None);
    assert_eq!(a.screen, Screen::Run);
    assert_eq!(a.config.llm.model, "gemma", "esc discards edits");
}

#[test]
fn save_returns_candidate_without_committing_it() {
    let mut a = app();
    a.on_key(Key::Char('c'));
    a.settings.fields[immich_alt_text::settings::WORKERS].value = "3".into();
    let action = a.on_key(Key::CtrlS);
    match &action {
        Some(Action::SaveConfig(cfg)) => assert_eq!(cfg.run.workers, 3),
        other => panic!("{other:?}"),
    }
    assert_eq!(a.screen, Screen::Settings);
    assert_eq!(a.config.run.workers, 1);
    assert_eq!(a.footer_message, None);
}

#[test]
fn saving_from_paused_resets_run_telemetry_but_keeps_log() {
    let mut a = app();
    a.on_key(Key::Char('s'));
    a.on_event(Event::PageLoaded {
        scanned: 12,
        queued: 7,
    });
    a.on_event(done("1"));
    a.on_event(Event::AssetFailed {
        id: "2".into(),
        name: "2".into(),
        error: "boom".into(),
    });
    a.on_event(Event::AssetStarted {
        id: "3".into(),
        name: "3".into(),
    });
    assert_eq!(a.on_key(Key::Char('p')), Some(Action::Send(Command::Pause)));
    assert_eq!(a.run_state, RunState::Paused);
    assert_eq!(a.log.len(), 2);
    assert!(a.run_started.is_some());
    assert_eq!(a.avg_llm(), Some(Duration::from_secs(3)));
    assert_eq!(a.avg_total(), Some(Duration::from_secs(4)));
    assert!(rate_per_min(&a).is_none());

    a.on_key(Key::Char('c'));
    a.settings.fields[immich_alt_text::settings::WORKERS].value = "3".into();
    let action = a.on_key(Key::CtrlS);
    match &action {
        Some(Action::SaveConfig(cfg)) => assert_eq!(cfg.run.workers, 3),
        other => panic!("{other:?}"),
    }

    assert_eq!(a.run_state, RunState::Paused);
    assert_eq!(a.screen, Screen::Settings);
    assert_eq!((a.scanned, a.queued, a.done, a.failed), (12, 7, 1, 1));
    assert_eq!(a.in_flight.len(), 1);
    assert_eq!(a.log.len(), 2);
    assert_eq!(a.recent.len(), 1);
    assert_eq!(a.llm_time_total, Duration::from_secs(3));
    assert_eq!(a.asset_time_total, Duration::from_secs(4));
    assert!(a.run_started.is_some());
    assert_eq!(a.run_elapsed, None);
    assert_eq!(progress_ratio(&a), 2.0 / 7.0);
    assert_eq!(a.avg_llm(), Some(Duration::from_secs(3)));
    assert_eq!(a.avg_total(), Some(Duration::from_secs(4)));
    assert_eq!(rate_per_min(&a), None);

    let candidate = match action {
        Some(Action::SaveConfig(cfg)) => cfg,
        other => panic!("{other:?}"),
    };
    a.config_save_succeeded(candidate);

    assert_eq!(a.config.run.workers, 3);
    assert_eq!(a.run_state, RunState::Idle);
    assert_eq!(a.screen, Screen::Run);
    assert_eq!((a.scanned, a.queued, a.done, a.failed), (0, 0, 0, 0));
    assert!(a.in_flight.is_empty());
    assert_eq!(a.log.len(), 2);
    assert!(a.recent.is_empty());
    assert_eq!(a.llm_time_total, Duration::ZERO);
    assert_eq!(a.asset_time_total, Duration::ZERO);
    assert_eq!(a.run_started, None);
    assert_eq!(a.run_elapsed, None);
    assert_eq!(a.footer_message.as_deref(), Some("settings saved"));
}

#[test]
fn failed_config_save_keeps_candidate_and_runtime_state() {
    let mut a = app();
    a.on_key(Key::Char('s'));
    a.on_event(Event::PageLoaded {
        scanned: 12,
        queued: 7,
    });
    assert_eq!(a.on_key(Key::Char('p')), Some(Action::Send(Command::Pause)));
    let committed = a.config.clone();

    a.on_key(Key::Char('c'));
    a.settings.fields[immich_alt_text::settings::WORKERS].value = "3".into();
    assert!(matches!(a.on_key(Key::CtrlS), Some(Action::SaveConfig(_))));
    a.config_save_failed("save failed");

    assert_eq!(a.config, committed);
    assert_eq!(a.run_state, RunState::Paused);
    assert_eq!(a.screen, Screen::Settings);
    assert_eq!((a.scanned, a.queued), (12, 7));
    assert_eq!(
        a.settings.fields[immich_alt_text::settings::WORKERS].value,
        "3",
        "candidate edits remain available for correction or retry"
    );
    assert_eq!(a.settings.message.as_deref(), Some("save failed"));
}

#[test]
fn save_is_refused_while_running() {
    let mut a = app();
    a.on_key(Key::Char('s'));
    a.on_key(Key::Char('c'));
    assert_eq!(a.on_key(Key::CtrlS), None);
    assert_eq!(a.screen, Screen::Settings);
    assert!(a.settings.message.as_deref().unwrap().contains("pause"));
}

#[test]
fn save_shows_validation_errors() {
    let mut a = app();
    a.on_key(Key::Char('c'));
    a.settings.fields[immich_alt_text::settings::WORKERS].value = "0".into();
    assert_eq!(a.on_key(Key::CtrlS), None);
    assert!(a.settings.message.as_deref().unwrap().contains("workers"));
}

#[test]
fn enter_on_last_field_saves() {
    let mut a = app();
    a.on_key(Key::Char('c'));
    a.settings.focused = immich_alt_text::settings::MAX_TOKENS;
    assert!(matches!(a.on_key(Key::Enter), Some(Action::SaveConfig(_))));
}

#[test]
fn connection_test_round_trip() {
    let mut a = app();
    a.on_key(Key::Char('c'));
    let id = match a.on_key(Key::CtrlT) {
        Some(Action::TestConnections { id, .. }) => id,
        other => panic!("{other:?}"),
    };
    assert!(a.settings.testing);
    a.on_event(Event::ConnectionTest {
        id,
        immich: Ok("v3.1.0".into()),
        llm: Err("HTTP 401".into()),
    });
    assert!(!a.settings.testing);
    let (i, l) = a.settings.test_result.clone().unwrap();
    assert_eq!(i, Ok("v3.1.0".into()));
    assert_eq!(l, Err("HTTP 401".into()));
}

#[test]
fn stale_connection_test_result_cannot_overwrite_newer_result() {
    let mut a = app();
    a.on_key(Key::Char('c'));
    let first = match a.on_key(Key::CtrlT) {
        Some(Action::TestConnections { id, .. }) => id,
        other => panic!("{other:?}"),
    };
    let second = match a.on_key(Key::CtrlT) {
        Some(Action::TestConnections { id, .. }) => id,
        other => panic!("{other:?}"),
    };

    a.on_event(Event::ConnectionTest {
        id: second,
        immich: Ok("new immich".into()),
        llm: Ok("new llm".into()),
    });
    a.on_event(Event::ConnectionTest {
        id: first,
        immich: Err("stale immich".into()),
        llm: Err("stale llm".into()),
    });

    assert_eq!(
        a.settings.test_result,
        Some((Ok("new immich".into()), Ok("new llm".into())))
    );
    assert!(!a.settings.testing);
}

#[test]
fn hosts_for_the_header() {
    let a = app();
    assert_eq!(a.immich_host(), "photos.home.lan");
    assert_eq!(a.llm_host(), "localhost:1234");
}

#[test]
fn events_at_a_given_time_are_shown_with_it() {
    let mut a = app();
    let t0 = Instant::now();
    a.on_event_at(
        Event::AssetStarted {
            id: "1".into(),
            name: "one".into(),
        },
        t0,
        "08:00:00".into(),
    );
    assert_eq!(a.in_flight[0].started_at, t0);
    assert_eq!(a.in_flight[0].stage, Stage::Fetching);
    a.on_event_at(done("1"), t0 + Duration::from_secs(4), "08:00:04".into());
    assert_eq!(
        a.log[0],
        LogRow::Done {
            at: "08:00:04".into(),
            name: "1".into(),
            took: Duration::from_secs(4),
            description: "desc 1".into(),
        }
    );
    assert_eq!(a.recent.back(), Some(&(t0 + Duration::from_secs(4))));
}

#[test]
fn the_log_shows_a_time_of_day() {
    let mut a = app();
    a.on_event(done("1"));
    match &a.log[0] {
        LogRow::Done { at, .. } => {
            assert_eq!(at.len(), 8);
            assert_eq!(at.as_bytes()[2], b':');
            assert_eq!(at.as_bytes()[5], b':');
        }
        other => panic!("{other:?}"),
    }
}

#[test]
fn the_rate_window_is_capped() {
    let mut a = app();
    for i in 0..(RATE_WINDOW + 5) {
        a.on_event(done(&i.to_string()));
    }
    assert_eq!(a.recent.len(), RATE_WINDOW);
}

#[test]
fn a_result_takes_only_its_own_asset_out_of_flight() {
    let mut a = app();
    for id in ["1", "2", "1", "3"] {
        a.on_event(Event::AssetStarted {
            id: id.into(),
            name: id.into(),
        });
    }
    a.on_event(Event::AssetStage {
        id: "1".into(),
        stage: Stage::CallingLlm,
    });
    assert_eq!(a.in_flight[0].stage, Stage::CallingLlm);
    assert_eq!(a.in_flight[2].stage, Stage::Fetching, "only the first of that id");
    a.on_event(Event::AssetStage {
        id: "none".into(),
        stage: Stage::Writing,
    });
    a.on_event(done("1"));
    let ids: Vec<&str> = a.in_flight.iter().map(|f| f.id.as_str()).collect();
    assert_eq!(ids, vec!["2", "3"]);
}

#[test]
fn resume_undoes_pause() {
    let mut a = app();
    a.on_key(Key::Char('s'));
    let started = a.run_started;
    a.on_key(Key::Char('p'));
    a.on_key(Key::Char('p'));
    assert_eq!(a.run_state, RunState::Running);
    assert_eq!(a.run_started, started);
}

#[test]
fn the_clock_stops_with_the_run() {
    let mut a = app();
    let t0 = Instant::now();
    a.on_key_at(Key::Char('s'), t0);
    assert_eq!(a.elapsed(t0 + Duration::from_secs(7)), Duration::from_secs(7));
    a.on_event_at(
        Event::Fatal {
            error: "x".into(),
        },
        t0 + Duration::from_secs(9),
        "08:00:09".into(),
    );
    assert_eq!(a.elapsed(t0 + Duration::from_secs(99)), Duration::from_secs(9));
    assert_eq!(app().elapsed(t0), Duration::ZERO);
}

#[test]
fn keys_in_the_popup_only_close_it() {
    let mut a = app();
    a.on_event(done("1"));
    a.on_key(Key::Enter);
    assert_eq!(a.on_key(Key::Char('q')), None);
    assert_eq!(a.on_key(Key::Char('c')), None);
    assert!(a.log_expanded);
    assert_eq!(a.screen, Screen::Run);
    a.on_key(Key::Enter);
    assert!(!a.log_expanded);
}

#[test]
fn control_characters_are_not_typed() {
    let mut a = app();
    a.on_key(Key::Char('c'));
    a.on_key(Key::Char('\u{1b}'));
    assert_eq!(
        a.settings.fields[immich_alt_text::settings::IMMICH_URL].value,
        "https://photos.home.lan"
    );
}

#[test]
fn leaving_the_settings_drops_the_awaited_test() {
    let mut a = app();
    a.on_key(Key::Char('c'));
    let id = match a.on_key(Key::CtrlT) {
        Some(Action::TestConnections { id, .. }) => id,
        other => panic!("{other:?}"),
    };
    a.on_key(Key::Esc);
    a.on_event(Event::ConnectionTest {
        id,
        immich: Ok("late".into()),
        llm: Ok("late".into()),
    });
    assert_eq!(a.settings.test_result, None);
    assert!(!a.settings.testing);
}

#[test]
fn a_test_of_a_broken_form_shows_the_complaint() {
    let mut a = app();
    a.on_key(Key::Char('c'));
    a.settings.fields[immich_alt_text::settings::RETRIES].value = "x".into();
    assert_eq!(a.on_key(Key::CtrlT), None);
    assert_eq!(
        a.settings.message.as_deref(),
        Some("retries must be a whole number")
    );
}

#[test]
fn a_command_without_an_engine_asks_for_a_config() {
    let mut a = app();
    let action = a.on_key(Key::Char('s'));
    let step = a.dispatch(action, false);
    assert!(matches!(step, immich_alt_text::app::MainStep::Nothing));
    assert_eq!(a.run_state, RunState::Idle);
    assert_eq!(
        a.footer_message.as_deref(),
        Some("open settings with c and save a config first")
    );
    let action = a.on_key(Key::Char('s'));
    assert!(matches!(
        a.dispatch(action, true),
        immich_alt_text::app::MainStep::Send(Command::Start)
    ));
    let action = a.on_key(Key::Char('q'));
    assert!(matches!(
        a.dispatch(action, true),
        immich_alt_text::app::MainStep::Quit
    ));
}

#[test]
fn a_failed_save_shows_why() {
    let mut a = app();
    a.on_key(Key::Char('c'));
    a.finish_save(config(), Some("disk full".into()));
    assert_eq!(a.settings.message.as_deref(), Some("save failed: disk full"));
    assert_eq!(a.screen, Screen::Settings);
    a.finish_save(config(), None);
    assert_eq!(a.screen, Screen::Run);
    assert_eq!(a.footer_message.as_deref(), Some("settings saved"));
}

#[test]
fn averages_round_down_to_a_nanosecond() {
    let mut a = app();
    a.done = 3;
    a.llm_time_total = Duration::from_nanos(11);
    a.asset_time_total = Duration::new(10, 0);
    assert_eq!(a.avg_llm(), Some(Duration::from_nanos(3)));
    assert_eq!(a.avg_total(), Some(Duration::new(10, 0) / 3));
    a.done = 1 << 32;
    a.llm_time_total = Duration::from_secs(1 << 33);
    assert_eq!(a.avg_llm(), Some(Duration::from_secs(2)), "the whole count divides");
    assert_eq!(app().avg_llm(), None);
}

#[test]
fn progress_counts_no_more_than_the_queue() {
    let mut a = app();
    assert_eq!(a.progress_parts(), None);
    a.queued = 4;
    a.done = 3;
    assert_eq!(a.progress_parts(), Some((3, 4)));
    assert_eq!(a.remaining(), 1);
    a.failed = 9;
    assert_eq!(a.progress_parts(), Some((4, 4)));
    assert_eq!(a.remaining(), 0);
}

#[test]
fn hosts_of_odd_addresses() {
    let mut a = app();
    a.config.immich.url = "not a url".into();
    a.config.llm.base_url = "https://[::1]:8443/v1".into();
    assert_eq!(a.immich_host(), "not a url");
    assert_eq!(a.llm_host(), "[::1]:8443");
    a.config.llm.base_url = "http://example.com:80/".into();
    assert_eq!(a.llm_host(), "example.com", "the usual port is left out");
}

#[test]
fn state_words() {
    let mut a = app();
    let cases = [
        (RunState::Idle, "IDLE"),
        (RunState::Running, "RUNNING"),
        (RunState::Paused, "PAUSED"),
        (RunState::Finished, "FINISHED"),
        (RunState::Error("x".into()), "ERROR"),
    ];
    for (state, word) in cases {
        a.run_state = state;
        assert_eq!(a.state_label(), word);
    }
}

#[test]
fn actions_carry_valid_configs() {
    let mut a = app();
    a.on_key(Key::Char('c'));
    a.settings.fields[immich_alt_text::settings::LLM_MODEL].value = "  ".into();
    assert_eq!(a.on_key(Key::CtrlT), None);
    assert_eq!(a.on_key(Key::CtrlS), None);
    a.settings.fields[immich_alt_text::settings::LLM_MODEL].value = " m ".into();
    match a.on_key(Key::CtrlT) {
        Some(Action::TestConnections { config, .. }) => {
            assert!(config.validate().is_ok());
            assert_eq!(config.llm.model, "m");
        }
        other => panic!("{other:?}"),
    }
    assert_eq!(a.config, config(), "nothing is committed yet");
}

#[test]
fn a_full_log_drops_its_oldest_row() {
    let mut a = app();
    for i in 0..LOG_CAP {
        a.on_event(done(&i.to_string()));
    }
    a.log_selected = LOG_CAP - 1;
    let oldest = a.log[LOG_CAP - 2].clone();
    a.on_event(done("new"));
    assert_eq!(a.log.len(), LOG_CAP);
    assert_eq!(a.log[LOG_CAP - 1], oldest);
    assert_eq!(a.log_selected, LOG_CAP - 1, "its row is gone");
    a.log_selected = 3;
    let row = a.log[3].clone();
    a.on_event(done("newer"));
    assert_eq!(a.log[a.log_selected], row);
}

#[test]
fn log_rows_carry_the_time_of_day() {
    let mut a = app();
    a.on_event(done("1"));
    let at = match &a.log[0] {
        LogRow::Done { at, .. } => at.clone(),
        other => panic!("{other:?}"),
    };
    assert_eq!(at.len(), 8, "{at}");
    for (i, c) in at.chars().enumerate() {
        if i == 2 || i == 5 {
            assert_eq!(c, ':');
        } else {
            assert!(c.is_ascii_digit(), "{at}");
        }
    }
}
