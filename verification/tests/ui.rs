use std::collections::VecDeque;
use std::time::{Duration, Instant};

use immich_alt_text::app::{App, InFlight, LogRow, RunState, Screen};
use immich_alt_text::config::{Config, ThemeName};
use immich_alt_text::events::Stage;
use immich_alt_text::theme::Theme;
use immich_alt_text::ui::picture::{Area, Item, Size, Split, TextLine};
use immich_alt_text::ui::run::{
    footer, full_layout, log_line, run_layout, run_picture, run_sizes, tiny_layout, tiny_sizes,
    top_sizes, Estimates, RunLayout,
};
use immich_alt_text::ui::settings::{
    fit_prompt, form_footer, settings_picture, settings_size, test_line, theme_line, value_width,
};
use immich_alt_text::ui::{fmt_clock, fmt_count, fmt_eta_compact, fmt_secs, render, truncate};

#[test]
fn formats() {
    assert_eq!(fmt_clock(Duration::from_secs(6_137)), "01:42:17");
    assert_eq!(fmt_secs(Duration::from_millis(4_321)), "4.3 s");
    assert_eq!(fmt_count(0), "0");
    assert_eq!(fmt_count(999), "999");
    assert_eq!(fmt_count(1_284), "1 284");
    assert_eq!(fmt_count(14_920), "14 920");
    assert_eq!(fmt_count(1_000_000), "1 000 000");
    assert_eq!(truncate("hello", 5), "hello");
    assert_eq!(truncate("hello world", 5), "hell…");
    assert_eq!(truncate("x", 0), "");
}

#[test]
fn times_left_are_rounded_to_minutes() {
    assert_eq!(fmt_eta_compact(Duration::from_secs(29)), "00:00");
    assert_eq!(fmt_eta_compact(Duration::from_secs(30)), "00:01");
    assert_eq!(fmt_eta_compact(Duration::from_secs(8_640)), "02:24");
    assert_eq!(fmt_clock(Duration::from_secs(360_000)), "100:00:00");
}

fn config() -> Config {
    let mut c = Config::default();
    c.immich.url = "https://photos.home.lan".into();
    c.immich.api_key = "secret-key".into();
    c.llm.model = "gemma-3-12b-it".into();
    c
}

/// A mid-run app with fixed numbers so the picture never changes between runs.
fn running_app(now: Instant) -> App {
    let mut app = App::new(config(), false);
    app.run_state = RunState::Running;
    app.scanned = 14_920;
    app.queued = 3_102;
    app.done = 1_284;
    app.failed = 3;
    app.run_started = Some(now - Duration::from_secs(6_137));
    app.llm_time_total = Duration::from_millis(4_100) * app.done as u32;
    app.asset_time_total = Duration::from_millis(4_700) * app.done as u32;
    // 20 completions 4.76 s apart give 12.6 per minute.
    app.recent = (0..20u32)
        .rev()
        .map(|i| now - Duration::from_millis(4_760) * i)
        .collect::<VecDeque<_>>();
    app.in_flight.push(InFlight {
        id: "a1".into(),
        name: "IMG_4471.HEIC".into(),
        stage: Stage::CallingLlm,
        started_at: now - Duration::from_millis(3_200),
    });
    app.log.push_back(LogRow::Done {
        at: "18:42:11".into(),
        name: "IMG_4470.HEIC".into(),
        took: Duration::from_millis(4_300),
        description: "A golden retriever sits on a wooden dock at sunset, looking toward the water while boats pass by.".into(),
    });
    app.log.push_back(LogRow::Done {
        at: "18:42:07".into(),
        name: "IMG_4469.HEIC".into(),
        took: Duration::from_millis(3_900),
        description: "Two children build a sandcastle on a crowded beach under a blue sky.".into(),
    });
    app.log.push_back(LogRow::Failed {
        at: "18:42:02".into(),
        name: "IMG_4468.HEIC".into(),
        error: "llm: timeout after 120 s (4 tries)".into(),
    });
    app.log.push_back(LogRow::Done {
        at: "18:41:58".into(),
        name: "IMG_4467.HEIC".into(),
        took: Duration::from_millis(4_000),
        description: "A plate of pasta with tomato sauce and basil on a white tablecloth.".into(),
    });
    app
}

fn estimates() -> Estimates {
    Estimates {
        rate: Some("12.6".into()),
        eta: Some(Duration::from_secs(8_640)),
    }
}

fn words(line: &TextLine) -> String {
    line.segments.iter().map(|s| s.text.as_str()).collect()
}

/// A screen of characters to draw a picture on.
struct Paper {
    cells: Vec<Vec<char>>,
}

impl Paper {
    fn write(&mut self, x: usize, y: usize, width: usize, text: &str) {
        let row = match self.cells.get_mut(y) {
            Some(row) => row,
            None => return,
        };
        for (i, c) in text.chars().filter(|c| !c.is_control()).take(width).enumerate() {
            if x + i < row.len() {
                row[x + i] = c;
            }
        }
    }

    fn frame(&mut self, area: &Area, left: &TextLine, right: &TextLine) {
        let (x, y) = (area.x as usize, area.y as usize);
        let (w, h) = (area.width as usize, area.height as usize);
        if w < 2 || h < 2 {
            return;
        }
        self.write(x, y, w, &format!("╭{}╮", "─".repeat(w - 2)));
        for i in 1..h - 1 {
            self.write(x, y + i, 1, "│");
            self.write(x + w - 1, y + i, 1, "│");
        }
        self.write(x, y + h - 1, w, &format!("╰{}╯", "─".repeat(w - 2)));
        self.write(x + 1, y, w - 2, &words(left));
        let right = words(right);
        let length = right.chars().count().min(w - 2);
        self.write(x + w - 1 - length, y, length, &right);
    }

    fn lines(&mut self, area: &Area, lines: &[TextLine], skip: usize) {
        for (i, line) in lines.iter().skip(skip).take(area.height as usize).enumerate() {
            let width = area.width as usize;
            self.write(area.x as usize, area.y as usize + i, width, &words(line));
        }
    }

    fn draw(&mut self, item: &Item) {
        match item {
            Item::Frame { area, left, right, .. } => self.frame(area, left, right),
            Item::Lines { area, lines, scroll } => self.lines(area, lines, *scroll as usize),
            Item::Bar { area, cells, counts, below } => {
                let bar = format!("{}{}", "█".repeat(*cells), counts.text);
                self.write(area.x as usize, area.y as usize, area.width as usize, &bar);
                let rest = Area { y: area.y + 1, height: area.height.saturating_sub(1), ..*area };
                self.lines(&rest, below, 0);
            }
            Item::Rows { area, lines, .. } => self.lines(area, lines, 0),
            Item::Blank { area } => {
                for i in 0..area.height as usize {
                    let blank = " ".repeat(area.width as usize);
                    self.write(area.x as usize, area.y as usize + i, area.width as usize, &blank);
                }
            }
            Item::Wrapped { area, content } => {
                self.write(area.x as usize, area.y as usize, area.width as usize, &content.text)
            }
        }
    }
}

fn render_to_string(width: u16, height: u16, app: &App, now: Instant) -> String {
    let area = Area { x: 0, y: 0, width, height };
    let mut paper = Paper {
        cells: vec![vec![' '; width as usize]; height as usize],
    };
    for item in render(app, now, &Theme::btop(), area, &estimates()) {
        paper.draw(&item);
    }
    let rows: Vec<String> = paper.cells.iter().map(|row| row.iter().collect()).collect();
    rows.join("\n")
}

#[test]
fn run_screen_80x24_keeps_side_by_side_and_shows_in_flight() {
    let now = Instant::now();
    let rendered = render_to_string(80, 24, &running_app(now), now);
    let layout_line = rendered.lines().nth(1).unwrap();
    assert!(layout_line.contains("╭ progress"));
    assert!(layout_line.contains("╭ counters"));
    assert!(rendered.contains("╭ in flight"));
    assert!(rendered.contains("done        1 284"));
    assert!(rendered.contains("failed          3"));
    assert!(rendered.contains("avg total   4.7 s"));
    assert!(rendered.contains("eta "));
}

#[test]
fn run_screen_40x10_is_tiny() {
    let now = Instant::now();
    let rendered = render_to_string(40, 10, &running_app(now), now);
    assert!(!rendered.contains("elapsed "));
    assert!(!rendered.contains("failed "));
    assert!(!rendered.contains("╭ progress"));
    assert!(!rendered.contains("╭ counters"));
    assert!(!rendered.contains("╭ log"));
    assert!(rendered.contains("1 287 / 3 102"));
}

#[test]
fn run_screen_79x23_stacks_and_hides_in_flight() {
    let now = Instant::now();
    let rendered = render_to_string(79, 23, &running_app(now), now);
    let layout_line = rendered.lines().nth(1).unwrap();
    assert!(layout_line.contains("╭ progress"));
    assert!(!layout_line.contains("╭ counters"));
    assert!(!rendered.contains("╭ in flight"));
}

#[test]
fn run_screen_shows_dry_run_mode() {
    let now = Instant::now();
    let mut app = running_app(now);
    assert!(!render_to_string(100, 30, &app, now).contains("DRY RUN"));
    app.config.run.dry_run = true;
    let rendered = render_to_string(100, 30, &app, now);
    assert!(rendered.contains("DRY RUN"));
}

#[test]
fn run_screen_120x40() {
    let now = Instant::now();
    let rendered = render_to_string(120, 40, &running_app(now), now);
    let first = rendered.lines().next().unwrap();
    assert!(first.contains(
        " immich-alt-text ─ photos.home.lan ─ gemma-3-12b-it @ localhost:1234 ─ 1 worker "
    ));
    assert!(first.contains(" RUNNING "));
    assert!(rendered.contains("elapsed 01:42:17   rate 12.6/min   eta 02:24:00"));
    assert!(rendered.contains("● IMG_4471.HEIC       calling llm…  3.2 s"));
    assert!(rendered.contains("18:42:11  ✓ IMG_4470.HEIC      4.3 s  A golden retriever"));
    assert!(rendered.contains("18:42:02  ✗ IMG_4468.HEIC             llm: timeout after 120 s"));
    assert!(rendered.contains(" s start    p pause    ↑↓ scroll log    enter expand "));
}

#[test]
fn run_screen_idle() {
    let now = Instant::now();
    let app = App::new(config(), false);
    let rendered = render_to_string(100, 30, &app, now);
    assert!(rendered.contains("press s to start"));
    assert!(rendered.contains(" IDLE "));
    assert!(rendered.contains("avg llm"));
}

#[test]
fn run_screen_error_state() {
    let now = Instant::now();
    let mut app = running_app(now);
    app.run_state = RunState::Error("immich: HTTP 401 Unauthorized: check the API key".into());
    app.run_elapsed = Some(Duration::from_secs(61));
    app.in_flight.clear();
    let rendered = render_to_string(120, 40, &app, now);
    assert!(rendered.contains(" immich: HTTP 401 Unauthorized: check th…  ERROR "));
    assert!(rendered.contains("elapsed 00:01:01"));
    assert!(rendered.contains("stopped"));
}

#[test]
fn log_popup() {
    let now = Instant::now();
    let mut app = running_app(now);
    app.log_expanded = true;
    let rendered = render_to_string(120, 40, &app, now);
    assert!(rendered.contains("╭ IMG_4470.HEIC "));
    assert!(rendered.contains(" esc close ╮"));
    app.log_selected = 9;
    let rendered = render_to_string(120, 40, &app, now);
    assert!(!rendered.contains(" esc close "));
}

#[test]
fn settings_screen() {
    let now = Instant::now();
    let mut app = App::new(config(), true);
    assert_eq!(app.screen, Screen::Settings);
    app.settings.focused = 2;
    app.settings.test_result = Some((Ok("v3.1.0".into()), Err("HTTP 401 Unauthorized".into())));
    let rendered = render_to_string(80, 24, &app, now);
    assert!(rendered.contains("╭ settings "));
    assert!(rendered.contains("  immich url         https://photos.home.lan"));
    assert!(rendered.contains("  immich api key     ••••••••••"));
    assert!(rendered.contains("ctrl-r show"));
    assert!(rendered.contains("▸ llm base url       http://localhost:1234/v1▏"));
    assert!(rendered.contains("immich ✓ v3.1.0   llm ✗ HTTP 401 Unauthorized"));
    assert!(rendered.contains(" ctrl-s save    ctrl-t test "));
}

#[test]
fn settings_screen_with_error_message() {
    let now = Instant::now();
    let mut app = App::new(config(), true);
    app.settings.show_secrets = true;
    app.settings.message = Some("invalid config: run.workers must be at least 1".into());
    let rendered = render_to_string(100, 30, &app, now);
    assert!(rendered.contains("invalid config: run.workers must be at least 1"));
    assert!(rendered.contains("secret-key"));
    assert!(rendered.contains("ctrl-r hide"));
}

#[test]
fn settings_screen_mono_theme_selection() {
    let now = Instant::now();
    let mut app = App::new(config(), true);
    app.settings.focused = immich_alt_text::settings::THEME;
    app.settings.theme = ThemeName::Mono;
    let rendered = render_to_string(100, 30, &app, now);
    assert!(rendered.contains("▸ theme              ( ) btop   (●) mono   ← →"));
    assert!(!rendered.contains("dry run"));
}

#[test]
fn settings_screen_prompt_editor() {
    let now = Instant::now();
    let mut app = App::new(config(), true);
    app.settings.focused = immich_alt_text::settings::PROMPT;
    let rendered = render_to_string(80, 24, &app, now);
    assert!(rendered.contains("▸ prompt             Write alt text for this photo: one or two p"));
    assert!(rendered.contains("no quotes, no \"This image show"));
    assert!(rendered.contains(" s\".▏"));
}

#[test]
fn settings_screen_prompt_editor_scrolls_long_prompts() {
    let now = Instant::now();
    let mut app = App::new(config(), true);
    app.settings.focused = immich_alt_text::settings::PROMPT;
    app.settings.fields[immich_alt_text::settings::PROMPT].value =
        "one\ntwo\nthree\nfour\nfive".into();
    app.settings.prompt_cursor = app.settings.fields[immich_alt_text::settings::PROMPT]
        .value
        .chars()
        .count();
    let rendered = render_to_string(80, 24, &app, now);
    assert!(rendered.contains("two"));
    assert!(!rendered.contains("one"));
}

#[test]
fn settings_screen_tiny_keeps_the_focused_row_visible() {
    let now = Instant::now();
    let mut app = App::new(config(), true);
    app.settings.focused = immich_alt_text::settings::THEME;
    let rendered = render_to_string(40, 10, &app, now);
    assert!(rendered.contains("theme"));
    assert!(rendered.contains("▸ theme"));
}

#[test]
fn boxes_are_inside_their_borders() {
    let area = |x, y, width, height| Area { x, y, width, height };
    assert_eq!(area(0, 0, 10, 5).inner(), area(1, 1, 8, 3));
    assert_eq!(area(3, 4, 1, 0).inner(), area(4, 4, 0, 0));
    assert_eq!(area(u16::MAX, 0, 2, 2).inner(), area(u16::MAX, 1, 0, 0));
}

#[test]
fn the_layout_keeps_rows_in_their_columns() {
    let area = Area { x: 0, y: 0, width: 120, height: 40 };
    match run_layout(area, 2) {
        RunLayout::Full { progress, counters, in_flight, log, footer, .. } => {
            assert_eq!(progress.y, counters.y);
            assert!(progress.x < counters.x);
            assert_eq!(in_flight.unwrap().height, 4);
            assert_eq!((log.x, log.width), (1, 118));
            assert_eq!(footer.height, 1);
        }
        other => panic!("{other:?}"),
    }
    let low = Area { height: 10, ..area };
    assert!(matches!(run_layout(low, 2), RunLayout::Tiny { .. }));
}

#[test]
fn parts_are_sized_by_the_screen() {
    let area = |width, height| Area { x: 0, y: 0, width, height };
    assert_eq!(
        run_sizes(area(120, 40), 3),
        vec![Size::Cells(5), Size::Cells(5), Size::AtLeast(3), Size::Cells(1)]
    );
    assert_eq!(
        run_sizes(area(79, 23), 3),
        vec![Size::Cells(9), Size::Cells(0), Size::AtLeast(3), Size::Cells(1)]
    );
    assert_eq!(run_sizes(area(80, 24), 0)[1], Size::Cells(3));
    assert_eq!(
        top_sizes(79),
        (Split::Rows, vec![Size::Cells(4), Size::Cells(5)])
    );
    assert_eq!(
        top_sizes(80),
        (Split::Columns, vec![Size::Percent(50), Size::Percent(50)])
    );
    assert_eq!(
        top_sizes(100),
        (Split::Columns, vec![Size::Percent(55), Size::Percent(45)])
    );
    assert_eq!(
        tiny_sizes(),
        vec![Size::Cells(1), Size::AtLeast(0), Size::Cells(1)]
    );
    let part = |y| Area { x: 1, y, width: 9, height: 2 };
    assert_eq!(
        tiny_layout(&vec![part(1), part(2), part(3)]),
        RunLayout::Tiny { bar: part(1), footer: part(3) }
    );
    let parts = vec![part(1), part(2), part(3), part(4)];
    let boxes = vec![part(5), part(6)];
    match full_layout(area(80, 23), &parts, &boxes, part(7)) {
        RunLayout::Full { progress, counters, in_flight, log, footer, popup } => {
            assert_eq!((progress, counters), (part(5), part(6)));
            assert_eq!(in_flight, None);
            assert_eq!((log, footer, popup), (part(3), part(4), part(7)));
        }
        other => panic!("{other:?}"),
    }
}

#[test]
fn the_bar_gets_what_the_counts_leave() {
    let now = Instant::now();
    let area = Area { x: 0, y: 0, width: 60, height: 8 };
    let layout = RunLayout::Tiny {
        bar: Area { x: 1, y: 1, width: 40, height: 1 },
        footer: Area { x: 1, y: 6, width: 58, height: 1 },
    };
    let picture = run_picture(&running_app(now), now, &Theme::mono(), area, layout, &estimates());
    match &picture[1] {
        Item::Bar { cells, counts, .. } => {
            assert_eq!(counts.text, " 1 287 / 3 102");
            assert_eq!(*cells, 40 - 14 - 1);
        }
        other => panic!("{other:?}"),
    }
}

#[test]
fn narrow_boxes_shorten_the_pace() {
    let now = Instant::now();
    let area = Area { x: 0, y: 0, width: 79, height: 30 };
    let part = |y, height| Area { x: 1, y, width: 40, height };
    let layout = RunLayout::Full {
        progress: part(1, 4),
        counters: part(5, 5),
        in_flight: None,
        log: part(10, 5),
        footer: part(15, 1),
        popup: part(3, 3),
    };
    let app = running_app(now);
    let picture = run_picture(&app, now, &Theme::mono(), area, layout, &estimates());
    match &picture[2] {
        Item::Bar { below, .. } => {
            assert_eq!(words(&below[0]), "el 01:42:17 rt 12.6/m eta 02:24")
        }
        other => panic!("{other:?}"),
    }
    let nothing = Estimates { rate: None, eta: None };
    let picture = run_picture(&app, now, &Theme::mono(), area, layout, &nothing);
    match &picture[2] {
        Item::Bar { below, .. } => {
            assert_eq!(words(&below[0]), "el 01:42:17 rt --/m eta --:--")
        }
        other => panic!("{other:?}"),
    }
}

#[test]
fn log_lines_fit_their_width() {
    let now = Instant::now();
    let app = running_app(now);
    let theme = Theme::btop();
    let line = log_line(&app.log[0], 58, &theme);
    assert_eq!(
        words(&line),
        "18:42:11  ✓ IMG_4470.HEIC      4.3 s  A golden retriever …"
    );
    assert_eq!(line.segments[1].style, theme.ok);
    assert_eq!(words(&line).chars().count(), 58);
    let line = log_line(&app.log[2], 10, &theme);
    assert_eq!(line.segments[4].text, "  ");
    assert_eq!(line.segments[4].style, theme.err);
}

#[test]
fn keys_that_do_nothing_are_dim() {
    let now = Instant::now();
    let theme = Theme::btop();
    let mut app = running_app(now);
    let line = footer(&app, &theme);
    assert_eq!(line.segments[0].style, theme.dim, "start while running");
    assert_eq!(line.segments[2].style, theme.accent, "pause while running");
    app.run_state = RunState::Paused;
    app.footer_message = Some("hello".into());
    let line = footer(&app, &theme);
    assert!(words(&line).contains(" p resume "));
    assert!(words(&line).ends_with("  hello"));
    app.log.clear();
    let line = footer(&app, &theme);
    assert_eq!(line.segments[4].style, theme.dim, "no log to scroll");
}

#[test]
fn the_form_has_its_size_and_lines() {
    let theme = Theme::btop();
    let mut app = App::new(config(), true);
    let screen = Area { x: 0, y: 0, width: 100, height: 30 };
    assert_eq!(settings_size(&app.settings, screen), (20, 78));
    let small = Area { width: 30, height: 10, ..screen };
    assert_eq!(settings_size(&app.settings, small), (10, 40));
    app.settings.focused = immich_alt_text::settings::PROMPT;
    assert_eq!(settings_size(&app.settings, screen), (23, 78));
    assert_eq!(value_width(76), 42);
    assert_eq!(value_width(33), 0);
    app.settings.testing = true;
    assert_eq!(
        words(&test_line(&app.settings, &theme)),
        "  ctrl-t test connections   testing…"
    );
    assert!(words(&theme_line(&app.settings, &theme)).contains("(●) btop   ( ) mono"));
    assert!(words(&form_footer(&theme)).contains(" esc back "));
}

#[test]
fn a_low_form_scrolls_to_its_focus() {
    let theme = Theme::btop();
    let mut app = App::new(config(), true);
    let area = Area { x: 0, y: 0, width: 60, height: 8 };
    let scroll = |app: &App| match &settings_picture(&app.settings, &theme, area)[1] {
        Item::Lines { scroll, lines, area } => {
            assert_eq!(area.height, 5);
            (*scroll, lines.len())
        }
        other => panic!("{other:?}"),
    };
    assert_eq!(scroll(&app), (0, 15));
    app.settings.focused = immich_alt_text::settings::WORKERS;
    assert_eq!(scroll(&app), (4, 15));
    app.settings.focused = immich_alt_text::settings::DRY_RUN;
    assert_eq!(scroll(&app), (8, 15));
}

fn form_box(picture: &[Item]) -> Area {
    match &picture[0] {
        Item::Frame { area, .. } => *area,
        other => panic!("{other:?}"),
    }
}

#[test]
fn the_form_is_in_the_middle_of_the_screen() {
    let now = Instant::now();
    let mut app = running_app(now);
    app.screen = Screen::Settings;
    let theme = Theme::btop();
    let place = |app: &App, area: Area| form_box(&render(app, now, &theme, area, &estimates()));
    let wanted = settings_size(
        &app.settings,
        Area { x: 0, y: 0, width: 0, height: u16::MAX },
    )
    .0;
    for n in (0..=250u16).chain((251..=64_000).step_by(911)) {
        let screen = Area { x: 3, y: 5, width: n, height: n };
        let height = wanted.min(n);
        let width = n.saturating_sub(2).clamp(40, 78).min(n);
        assert_eq!(
            place(&app, screen),
            Area {
                x: 3 + (n - width + 1) / 2,
                y: 5 + (n - height + 1) / 2,
                width,
                height,
            }
        );
    }
    assert_eq!(
        place(&app, Area { x: 0, y: 0, width: 100, height: 40 }),
        Area { x: 11, y: (40 - wanted + 1) / 2, width: 78, height: wanted }
    );
    // Only 35 columns are left before the largest position.
    let right = Area { x: u16::MAX - 35, y: 0, width: 90, height: 40 };
    let at_the_end = place(&app, right);
    assert_eq!((at_the_end.x, at_the_end.width), (u16::MAX - 35, 35));
}

#[test]
fn the_prompt_gets_the_room_of_the_form() {
    let mut app = running_app(Instant::now());
    for (columns, room) in [(20u16, 1usize), (60, 23), (80, 43), (200, 43)] {
        fit_prompt(
            &mut app.settings,
            Area { x: 0, y: 0, width: columns, height: 30 },
        );
        assert_eq!(app.settings.prompt_width, room, "{columns}");
    }
}

#[test]
fn the_popup_is_in_the_middle_of_the_screen() {
    for n in (11..=300u32).chain((301..=65_000).step_by(907)) {
        let screen = Area { x: 7, y: 9, width: n as u16, height: n as u16 };
        let popup = match run_layout(screen, 2) {
            RunLayout::Full { popup, .. } => popup,
            tiny => panic!("{tiny:?}"),
        };
        let cells = |percent: u32| (n * percent + 50) / 100;
        assert_eq!(
            popup,
            Area {
                x: (7 + cells(15)) as u16,
                y: (9 + cells(25)) as u16,
                width: (cells(85) - cells(15)) as u16,
                height: (cells(75) - cells(25)) as u16,
            }
        );
    }
}

/// Where the parts stand on a screen: the log keeps three rows, and where that is too much the
/// in-flight box gets less, or the top if there is no such box.
fn places(area: Area, workers: u16) -> RunLayout {
    let inner = area.inner();
    let row = |y: u16, height: u16| Area { y: inner.y + y, height, ..inner };
    let wanted: u16 = if area.width < 80 { 9 } else { 5 };
    let top = wanted.min(inner.height - 4);
    let busy = if area.height >= 24 {
        (workers + 2).min(inner.height - top - 4)
    } else {
        0
    };
    let share: u32 = if area.width < 100 { 50 } else { 55 };
    let wide = ((inner.width as u32 * share + 50) / 100) as u16;
    let (progress, counters) = if area.width < 80 {
        let first = ((top + 1) / 2).min(4);
        (row(0, first), row(first, top - first))
    } else {
        (
            Area { width: wide, ..row(0, top) },
            Area { x: inner.x + wide, width: inner.width - wide, ..row(0, top) },
        )
    };
    RunLayout::Full {
        progress,
        counters,
        in_flight: if area.height >= 24 { Some(row(top, busy)) } else { None },
        log: row(top + busy, inner.height - top - busy - 1),
        footer: row(inner.height - 1, 1),
        popup: area,
    }
}

/// The layout without the popup, which has the whole screen here.
fn layout_below_popup(area: Area, workers: usize) -> RunLayout {
    match run_layout(area, workers) {
        RunLayout::Full { progress, counters, in_flight, log, footer, .. } => RunLayout::Full {
            progress,
            counters,
            in_flight,
            log,
            footer,
            popup: area,
        },
        tiny => panic!("{tiny:?}"),
    }
}

#[test]
fn boxes_are_as_wide_as_the_screen_has_room() {
    for width in (0..=160u16).chain((161..=65_000).step_by(1_801)) {
        for height in [11u16, 14, 23, 24, 27, 60_000] {
            let area = Area { x: 4, y: 6, width, height };
            assert_eq!(
                layout_below_popup(area, 2),
                places(area, 2),
                "{width}x{height}"
            );
        }
    }
}

#[test]
fn boxes_are_as_high_as_the_screen_has_room() {
    for workers in [0u16, 1, 7, 8, 11, 12, 28, 64, 40_000] {
        for height in (11..=46u16).chain([47, 58, 70, 71, 90, 200]) {
            for width in [79u16, 80] {
                let area = Area { x: 2, y: 3, width, height };
                assert_eq!(
                    layout_below_popup(area, workers as usize),
                    places(area, workers.max(1)),
                    "{width}x{height} {workers}"
                );
            }
        }
    }
}

#[test]
fn tiny_screens_have_a_bar_and_a_footer() {
    for height in 0..=10u16 {
        let area = Area { x: 2, y: 3, width: 60, height };
        let inner = area.inner();
        match run_layout(area, 1) {
            RunLayout::Tiny { bar, footer } => {
                assert_eq!(bar.y, inner.y);
                if inner.height >= 2 {
                    assert_eq!((bar.height, footer.height), (1, 1));
                    assert_eq!(footer.y + 1, inner.y + inner.height);
                }
                assert!(bar.height <= 1 && footer.height <= 1);
                assert!(bar.y + bar.height <= footer.y);
                assert_eq!(footer.y + footer.height, inner.y + inner.height);
            }
            full => panic!("{full:?}"),
        }
    }
}
