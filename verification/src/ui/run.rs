//! The run screen: header, progress, counters, in-flight, log, popup, footer.
use std::time::{Duration, Instant};
use vstd::prelude::*;
use vstd::string::*;

use crate::app::{
    average, opt_duration, App, AppView, InFlight, InFlightView, LogRow, LogRowView, RunState,
    RunStateView,
};
use crate::clock::{duration_nanos, instant_nanos, time_between};
use crate::settings::opt_text;
use crate::text::{
    cat, decimal, decimal_of, pad_left, pad_right, padded_left, padded_right, shortened,
};
use crate::theme::{Style, Theme};
use crate::ui::picture::{
    asked, centered, end_of, even_margin, inside, items, less, line_views, middle_of, one_line,
    percentage, put, room_from, rounded, seg, shares, smaller, split_area, Area, Item, ItemView,
    LineView, Place, Segment, Size, Split, TextLine,
};
use crate::ui::{
    clock_text, eta_text, fmt_clock, fmt_count, fmt_eta_compact, fmt_secs, grouped, secs_text,
    truncate,
};
use crate::urls::{host_text, url_parts};

verus! {

/// What the screen shows of the pace: results per minute, as a number in words, and the time
/// left.
#[derive(Debug)]
pub struct Estimates {
    pub rate: Option<String>,
    pub eta: Option<Duration>,
}

/// Where the parts of the run screen stand.
#[derive(Debug, Clone, Copy, PartialEq, Eq, Structural)]
pub enum RunLayout {
    /// Too low for boxes: a bar on top, the footer below.
    Tiny { bar: Area, footer: Area },
    Full {
        progress: Area,
        counters: Area,
        in_flight: Option<Area>,
        log: Area,
        footer: Area,
        popup: Area,
    },
}

// ---------------------------------------------------------------------------
// What is shown
// ---------------------------------------------------------------------------

/// The title on the left: servers, model and workers.
pub open spec fn header_left_line(a: AppView, theme: Theme) -> LineView {
    seq![
        seg(" immich-alt-text "@, theme.title),
        seg("─ "@, theme.border),
        seg(host_text(url_parts(a.config.immich.url), a.config.immich.url), theme.value),
        seg(" ─ "@, theme.border),
        seg(a.config.llm.model, theme.value),
        seg(" @ "@, theme.dim),
        seg(host_text(url_parts(a.config.llm.base_url), a.config.llm.base_url), theme.value),
        seg(" ─ "@, theme.border),
        seg(
            decimal(a.config.run.workers as nat) + if a.config.run.workers == 1 {
                " worker "@
            } else {
                " workers "@
            },
            theme.value,
        ),
    ]
}

/// The title on the right: the reason of an error, the dry-run mark, and the run state.
pub open spec fn header_right_line(a: AppView, theme: Theme) -> LineView {
    let error: LineView = match a.run_state {
        RunStateView::Error(message) => seq![
            seg(" "@ + shortened(message, 40) + " "@, theme.err),
        ],
        _ => seq![],
    };
    let dry: LineView = if a.config.run.dry_run {
        seq![seg(" DRY RUN "@, theme.warn)]
    } else {
        seq![]
    };
    error + dry + seq![
        seg(" "@ + a.state_word() + " "@, theme.style_of_state(a.state_word())),
    ]
}

/// The frame of a box with a title.
pub open spec fn boxed(area: Area, title: Seq<char>, theme: Theme) -> ItemView {
    ItemView::Frame {
        area,
        border: theme.border,
        left: seq![seg(" "@ + title + " "@, theme.title)],
        right: seq![],
    }
}

/// Results so far and queue size, behind the bar.
pub open spec fn counts_text(a: AppView) -> Seq<char> {
    " "@ + grouped(decimal(a.done + a.failed)) + " / "@ + grouped(decimal(a.queued))
}

/// The bar in `area`: it takes what the counts and one cell leave.
pub open spec fn bar_item(a: AppView, area: Area, below: Seq<LineView>, theme: Theme) -> ItemView {
    ItemView::Bar {
        area,
        cells: less(area.width as int, counts_text(a).len() as int + 1) as nat,
        counts: seg(counts_text(a), theme.value),
        below,
    }
}

/// Elapsed time, rate and time left, short where there is little room.
pub open spec fn pace_line(
    elapsed: nat,
    rate: Option<Seq<char>>,
    eta: Option<nat>,
    narrow: bool,
    theme: Theme,
) -> LineView {
    if narrow {
        seq![
            seg("el "@, theme.label),
            seg(clock_text(elapsed / 1_000_000_000), theme.value),
            seg(" rt "@, theme.label),
            seg(
                match rate {
                    Some(number) => number + "/m"@,
                    None => "--/m"@,
                },
                theme.value,
            ),
            seg(" eta "@, theme.label),
            seg(
                match eta {
                    Some(nanos) => eta_text(nanos / 1_000_000_000),
                    None => "--:--"@,
                },
                theme.value,
            ),
        ]
    } else {
        seq![
            seg("elapsed "@, theme.label),
            seg(clock_text(elapsed / 1_000_000_000), theme.value),
            seg("   rate "@, theme.label),
            seg(
                match rate {
                    Some(number) => number + "/min"@,
                    None => "--"@,
                },
                theme.value,
            ),
            seg("   eta "@, theme.label),
            seg(
                match eta {
                    Some(nanos) => clock_text(nanos / 1_000_000_000),
                    None => "--:--:--"@,
                },
                theme.value,
            ),
        ]
    }
}

/// Two labelled values side by side.
pub open spec fn pair_line(
    l1: Seq<char>,
    v1: Seq<char>,
    l2: Seq<char>,
    v2: Seq<char>,
    s2: Style,
    theme: Theme,
) -> LineView {
    seq![
        seg(padded_right(l1, 9), theme.label),
        seg(padded_left(v1, ' ', 8), theme.value),
        seg("   "@ + padded_right(l2, 9), theme.label),
        seg(padded_left(v2, ' ', 8), s2),
    ]
}

/// An average, or two dashes for none.
pub open spec fn average_text(nanos: Option<nat>) -> Seq<char> {
    match nanos {
        Some(n) => secs_text(n),
        None => "--"@,
    }
}

/// The counters: failures stand out once there are any.
pub open spec fn counter_lines(a: AppView, theme: Theme) -> Seq<LineView> {
    seq![
        pair_line(
            "scanned"@,
            grouped(decimal(a.scanned)),
            "done"@,
            grouped(decimal(a.done)),
            theme.value,
            theme,
        ),
        pair_line(
            "queued"@,
            grouped(decimal(a.queued)),
            "failed"@,
            grouped(decimal(a.failed)),
            if a.failed > 0 {
                theme.err
            } else {
                theme.value
            },
            theme,
        ),
        pair_line(
            "avg llm"@,
            average_text(average(a.llm_time_total, a.done)),
            "avg total"@,
            average_text(average(a.asset_time_total, a.done)),
            theme.value,
            theme,
        ),
    ]
}

/// One asset in flight: name, stage and time so far.
pub open spec fn in_flight_line(f: InFlightView, now: int, theme: Theme) -> LineView {
    seq![
        seg("● "@, theme.accent),
        seg(padded_right(shortened(f.name, 20), 20), theme.name),
        seg(padded_right(f.stage.name() + "…"@, 14), theme.info),
        seg(secs_text(time_between(now, f.started_at)), theme.duration),
    ]
}

/// What stands in place of assets when none is in flight.
pub open spec fn nothing_in_flight(state: RunStateView) -> Seq<char> {
    match state {
        RunStateView::Idle => "press s to start"@,
        RunStateView::Paused => "paused"@,
        RunStateView::Finished => "finished"@,
        RunStateView::Error(_) => "stopped"@,
        RunStateView::Running => "waiting for the first asset…"@,
    }
}

/// One line for each asset in flight.
pub open spec fn in_flight_lines(a: AppView, now: int, theme: Theme) -> Seq<LineView> {
    if a.in_flight.len() == 0 {
        seq![seq![seg(nothing_in_flight(a.run_state), theme.dim)]]
    } else {
        a.in_flight.map_values(|f: InFlightView| in_flight_line(f, now, theme))
    }
}

/// One row of the log. The text at its end gets what 38 cells of fixed columns leave.
pub open spec fn log_row_line(row: LogRowView, width: nat, theme: Theme) -> LineView {
    let room = less(width as int, 38) as nat;
    match row {
        LogRowView::Done { at, name, took, description } => seq![
            seg(at, theme.dim),
            seg("  ✓ "@, theme.ok),
            seg(padded_right(shortened(name, 16), 16), theme.name),
            seg("  "@ + padded_left(secs_text(took), ' ', 6), theme.duration),
            seg("  "@ + shortened(description, room), theme.value),
        ],
        LogRowView::Failed { at, name, error } => seq![
            seg(at, theme.dim),
            seg("  ✗ "@, theme.err),
            seg(padded_right(shortened(name, 16), 16), theme.name),
            seg("        "@, theme.dim),
            seg("  "@ + shortened(error, room), theme.err),
        ],
    }
}

/// The log in `area`, with the highlight on its row.
pub open spec fn log_item(a: AppView, area: Area, theme: Theme) -> ItemView {
    ItemView::Rows {
        area,
        lines: a.log.map_values(|row: LogRowView| log_row_line(row, area.width as nat, theme)),
        selected: if a.log.len() == 0 {
            None
        } else if a.log_selected < a.log.len() {
            Some(a.log_selected)
        } else {
            Some((a.log.len() - 1) as nat)
        },
        highlight: theme.highlight,
    }
}

/// A key and what it does; dim where it does nothing now.
pub open spec fn key_hint(
    key: Seq<char>,
    label: Seq<char>,
    enabled: bool,
    theme: Theme,
) -> LineView {
    seq![
        seg(
            " "@ + key + " "@,
            if enabled {
                theme.accent
            } else {
                theme.dim
            },
        ),
        seg(
            label + "   "@,
            if enabled {
                theme.label
            } else {
                theme.dim
            },
        ),
    ]
}

/// The key hints and the message behind them.
pub open spec fn footer_line(a: AppView, theme: Theme) -> LineView {
    let hints = key_hint("s"@, "start"@, a.can_start(), theme) + key_hint(
        "p"@,
        if a.run_state is Paused {
            "resume"@
        } else {
            "pause"@
        },
        a.run_state is Running || a.run_state is Paused,
        theme,
    ) + key_hint("↑↓"@, "scroll log"@, a.log.len() > 0, theme) + key_hint(
        "enter"@,
        "expand"@,
        a.log.len() > 0,
        theme,
    ) + key_hint("c"@, "settings"@, true, theme) + key_hint("q"@, "quit"@, true, theme);
    match a.footer_message {
        Some(message) => hints.push(seg("  "@ + message, theme.info)),
        None => hints,
    }
}

/// The highlighted row in full, on top of everything else.
pub open spec fn popup_items(a: AppView, area: Area, theme: Theme) -> Seq<ItemView> {
    if !a.log_expanded || a.log_selected >= a.log.len() {
        seq![]
    } else {
        let (title, body, style) = match a.log[a.log_selected as int] {
            LogRowView::Done { name, description, .. } => (name, description, theme.value),
            LogRowView::Failed { name, error, .. } => (name, error, theme.err),
        };
        seq![
            ItemView::Blank { area },
            ItemView::Frame {
                area,
                border: theme.accent,
                left: seq![seg(" "@ + title + " "@, theme.title)],
                right: seq![seg(" esc close "@, theme.dim)],
            },
            ItemView::Wrapped { area: inside(area), content: seg(body, style) },
        ]
    }
}

/// The line of text in `area`.
pub open spec fn lines_item(area: Area, lines: Seq<LineView>) -> ItemView {
    ItemView::Lines { area, lines, scroll: 0 }
}

/// The frame round the run screen.
pub open spec fn outer_frame(a: AppView, area: Area, theme: Theme) -> ItemView {
    ItemView::Frame {
        area,
        border: theme.border,
        left: header_left_line(a, theme),
        right: header_right_line(a, theme),
    }
}

/// The boxes of the run screen above its log.
pub open spec fn upper_items(
    a: AppView,
    now: int,
    theme: Theme,
    progress: Area,
    counters: Area,
    in_flight: Option<Area>,
    rate: Option<Seq<char>>,
    eta: Option<nat>,
) -> Seq<ItemView> {
    let p = inside(progress);
    let boxes = seq![
        boxed(progress, "progress"@, theme),
        bar_item(a, p, seq![pace_line(a.elapsed_at(now), rate, eta, p.width < 43, theme)], theme),
        boxed(counters, "counters"@, theme),
        lines_item(inside(counters), counter_lines(a, theme)),
    ];
    match in_flight {
        Some(area) => boxes + seq![
            boxed(area, "in flight"@, theme),
            lines_item(inside(area), in_flight_lines(a, now, theme)),
        ],
        None => boxes,
    }
}

/// The run screen in `area`, with its parts where `layout` says.
pub open spec fn run_picture_of(
    a: AppView,
    now: int,
    theme: Theme,
    area: Area,
    layout: RunLayout,
    rate: Option<Seq<char>>,
    eta: Option<nat>,
) -> Seq<ItemView> {
    match layout {
        RunLayout::Tiny { bar, footer } => seq![
            outer_frame(a, area, theme),
            bar_item(a, bar, seq![], theme),
            lines_item(footer, seq![footer_line(a, theme)]),
        ],
        RunLayout::Full { progress, counters, in_flight, log, footer, popup } => seq![
            outer_frame(a, area, theme),
        ] + upper_items(a, now, theme, progress, counters, in_flight, rate, eta) + seq![
            boxed(log, "log"@, theme),
            log_item(a, inside(log), theme),
            lines_item(footer, seq![footer_line(a, theme)]),
        ] + popup_items(a, popup, theme),
    }
}

/// The numbers of the screen can be computed: the results add up.
pub open spec fn drawable(a: AppView) -> bool {
    a.done + a.failed <= u64::MAX
}

/// The time left can be rounded to minutes.
pub open spec fn eta_fits(eta: Option<nat>) -> bool {
    match eta {
        Some(nanos) => nanos / 1_000_000_000 + 30 <= u64::MAX,
        None => true,
    }
}

// ---------------------------------------------------------------------------
// Building it
// ---------------------------------------------------------------------------

fn worker_words(workers: usize) -> (r: String)
    ensures
        r@ == decimal(workers as nat) + if workers == 1 {
            " worker "@
        } else {
            " workers "@
        },
{
    cat(
        decimal_of(workers as u64).as_str(),
        if workers == 1 {
            " worker "
        } else {
            " workers "
        },
    )
}

fn header_left(app: &App, theme: &Theme) -> (r: TextLine)
    ensures
        r@ == header_left_line(app@, *theme),
{
    let r = TextLine::new().text(" immich-alt-text ", theme.title).text(
        "─ ",
        theme.border,
    ).string(app.immich_host(), theme.value).text(" ─ ", theme.border).text(
        app.config.llm.model.as_str(),
        theme.value,
    ).text(" @ ", theme.dim).string(app.llm_host(), theme.value).text(
        " ─ ",
        theme.border,
    ).string(worker_words(app.config.run.workers), theme.value);
    assert(r@ =~= header_left_line(app@, *theme));
    r
}

/// `text` between two spaces.
fn spaced_word(text: &str) -> (r: String)
    ensures
        r@ == " "@ + text@ + " "@,
{
    cat(cat(" ", text).as_str(), " ")
}

fn header_right(app: &App, theme: &Theme) -> (r: TextLine)
    ensures
        r@ == header_right_line(app@, *theme),
{
    let label = app.state_label();
    let mut r = TextLine::new();
    if let RunState::Error(message) = &app.run_state {
        r = r.string(spaced_word(truncate(message.as_str(), 40).as_str()), theme.err);
    }
    if app.config.run.dry_run {
        r = r.text(" DRY RUN ", theme.warn);
    }
    r = r.string(spaced_word(label), theme.state_style(label));
    assert(r@ =~= header_right_line(app@, *theme));
    r
}

fn put_box(picture: &mut Vec<Item>, area: Area, title: &str, theme: &Theme)
    ensures
        items(final(picture)@) == items(old(picture)@).push(boxed(area, title@, *theme)),
{
    let left = TextLine::new().string(spaced_word(title), theme.title);
    assert(left@ =~= seq![seg(" "@ + title@ + " "@, theme.title)]);
    put(picture, Item::Frame { area, border: theme.border, left, right: TextLine::new() });
}

fn put_lines(picture: &mut Vec<Item>, area: Area, lines: Vec<TextLine>)
    ensures
        items(final(picture)@) == items(old(picture)@).push(lines_item(area, line_views(lines@))),
{
    put(picture, Item::Lines { area, lines, scroll: 0 });
}

fn put_bar(picture: &mut Vec<Item>, app: &App, area: Area, below: Vec<TextLine>, theme: &Theme)
    requires
        drawable(app@),
    ensures
        items(final(picture)@) == items(old(picture)@).push(
            bar_item(app@, area, line_views(below@), *theme),
        ),
{
    let mut counts = cat(" ", fmt_count(app.done + app.failed).as_str());
    counts.append(" / ");
    counts.append(fmt_count(app.queued).as_str());
    let taken = counts.as_str().unicode_len();
    let width = area.width as usize;
    let cells: usize = if width > taken {
        width - taken - 1
    } else {
        0
    };
    put(
        picture,
        Item::Bar { area, cells, counts: Segment { text: counts, style: theme.value }, below },
    );
}

fn pace(
    elapsed: Duration,
    estimates: &Estimates,
    narrow: bool,
    theme: &Theme,
) -> (r: TextLine)
    requires
        narrow ==> eta_fits(opt_duration(estimates.eta)),
    ensures
        r@ == pace_line(
            duration_nanos(elapsed),
            opt_text(estimates.rate),
            opt_duration(estimates.eta),
            narrow,
            *theme,
        ),
{
    if narrow {
        let rate = match &estimates.rate {
            Some(number) => cat(number.as_str(), "/m"),
            None => "--/m".to_owned(),
        };
        let eta = match estimates.eta {
            Some(d) => fmt_eta_compact(d),
            None => "--:--".to_owned(),
        };
        let r = TextLine::new().text("el ", theme.label).string(
            fmt_clock(elapsed),
            theme.value,
        ).text(" rt ", theme.label).string(rate, theme.value).text(" eta ", theme.label).string(
            eta,
            theme.value,
        );
        assert(r@ =~= pace_line(
            duration_nanos(elapsed),
            opt_text(estimates.rate),
            opt_duration(estimates.eta),
            narrow,
            *theme,
        ));
        r
    } else {
        let rate = match &estimates.rate {
            Some(number) => cat(number.as_str(), "/min"),
            None => "--".to_owned(),
        };
        let eta = match estimates.eta {
            Some(d) => fmt_clock(d),
            None => "--:--:--".to_owned(),
        };
        let r = TextLine::new().text("elapsed ", theme.label).string(
            fmt_clock(elapsed),
            theme.value,
        ).text("   rate ", theme.label).string(rate, theme.value).text(
            "   eta ",
            theme.label,
        ).string(eta, theme.value);
        assert(r@ =~= pace_line(
            duration_nanos(elapsed),
            opt_text(estimates.rate),
            opt_duration(estimates.eta),
            narrow,
            *theme,
        ));
        r
    }
}

fn put_progress(
    picture: &mut Vec<Item>,
    app: &App,
    now: Instant,
    theme: &Theme,
    area: Area,
    estimates: &Estimates,
)
    requires
        drawable(app@),
        inside(area).width < 43 ==> eta_fits(opt_duration(estimates.eta)),
    ensures
        items(final(picture)@) == items(old(picture)@).push(
            boxed(area, "progress"@, *theme),
        ).push(
            bar_item(
                app@,
                inside(area),
                seq![
                    pace_line(
                        app@.elapsed_at(instant_nanos(now)),
                        opt_text(estimates.rate),
                        opt_duration(estimates.eta),
                        inside(area).width < 43,
                        *theme,
                    ),
                ],
                *theme,
            ),
        ),
{
    put_box(picture, area, "progress", theme);
    let inner = area.inner();
    let line = pace(app.elapsed(now), estimates, inner.width < 43, theme);
    put_bar(picture, app, inner, one_line(line), theme);
}

fn pair(l1: &str, v1: String, l2: &str, v2: String, s2: Style, theme: &Theme) -> (r: TextLine)
    ensures
        r@ == pair_line(l1@, v1@, l2@, v2@, s2, *theme),
{
    let r = TextLine::new().string(pad_right(l1, 9), theme.label).string(
        pad_left(v1.as_str(), ' ', 8),
        theme.value,
    ).string(cat("   ", pad_right(l2, 9).as_str()), theme.label).string(
        pad_left(v2.as_str(), ' ', 8),
        s2,
    );
    assert(r@ =~= pair_line(l1@, v1@, l2@, v2@, s2, *theme));
    r
}

fn average_words(average: Option<Duration>) -> (r: String)
    ensures
        r@ == average_text(opt_duration(average)),
{
    match average {
        Some(d) => fmt_secs(d),
        None => "--".to_owned(),
    }
}

fn counters(app: &App, theme: &Theme) -> (r: Vec<TextLine>)
    ensures
        line_views(r@) == counter_lines(app@, *theme),
{
    let failed_style = if app.failed > 0 {
        theme.err
    } else {
        theme.value
    };
    let mut r: Vec<TextLine> = Vec::new();
    r.push(
        pair(
            "scanned",
            fmt_count(app.scanned),
            "done",
            fmt_count(app.done),
            theme.value,
            theme,
        ),
    );
    r.push(
        pair(
            "queued",
            fmt_count(app.queued),
            "failed",
            fmt_count(app.failed),
            failed_style,
            theme,
        ),
    );
    r.push(
        pair(
            "avg llm",
            average_words(app.avg_llm()),
            "avg total",
            average_words(app.avg_total()),
            theme.value,
            theme,
        ),
    );
    assert(line_views(r@) =~= counter_lines(app@, *theme));
    r
}

fn flight(f: &InFlight, now: Instant, theme: &Theme) -> (r: TextLine)
    ensures
        r@ == in_flight_line(f@, instant_nanos(now), *theme),
{
    let r = TextLine::new().text("● ", theme.accent).string(
        pad_right(truncate(f.name.as_str(), 20).as_str(), 20),
        theme.name,
    ).string(pad_right(cat(f.stage.label(), "…").as_str(), 14), theme.info).string(
        fmt_secs(now.saturating_duration_since(f.started_at)),
        theme.duration,
    );
    assert(r@ =~= in_flight_line(f@, instant_nanos(now), *theme));
    r
}

fn flights(app: &App, now: Instant, theme: &Theme) -> (r: Vec<TextLine>)
    ensures
        line_views(r@) == in_flight_lines(app@, instant_nanos(now), *theme),
{
    if app.in_flight.len() == 0 {
        let text = match app.run_state {
            RunState::Idle => "press s to start",
            RunState::Paused => "paused",
            RunState::Finished => "finished",
            RunState::Error(_) => "stopped",
            RunState::Running => "waiting for the first asset…",
        };
        let line = TextLine::new().text(text, theme.dim);
        assert(line@ =~= seq![seg(nothing_in_flight(app@.run_state), theme.dim)]);
        return one_line(line);
    }
    let ghost all = in_flight_lines(app@, instant_nanos(now), *theme);
    let mut r: Vec<TextLine> = Vec::new();
    let mut i: usize = 0;
    assert(line_views(r@) =~= all.take(0));
    while i < app.in_flight.len()
        invariant
            i <= app.in_flight@.len(),
            app.in_flight@.len() > 0,
            all == in_flight_lines(app@, instant_nanos(now), *theme),
            line_views(r@) == all.take(i as int),
        decreases app.in_flight@.len() - i,
    {
        let ghost before = r@;
        let line = flight(&app.in_flight[i], now, theme);
        assert(app@.in_flight[i as int] == app.in_flight@[i as int]@);
        assert(all[i as int] == line@);
        r.push(line);
        assert(line_views(r@) =~= line_views(before).push(line@));
        assert(all.take(i + 1) =~= all.take(i as int).push(all[i as int]));
        i += 1;
    }
    assert(all.take(i as int) =~= all);
    r
}

/// One row of the log in a line of `width` cells.
pub fn log_line(row: &LogRow, width: usize, theme: &Theme) -> (r: TextLine)
    ensures
        r@ == log_row_line(row@, width as nat, *theme),
{
    let room: usize = if width >= 38 {
        width - 38
    } else {
        0
    };
    let r = match row {
        LogRow::Done { at, name, took, description } => TextLine::new().text(
            at.as_str(),
            theme.dim,
        ).text("  ✓ ", theme.ok).string(
            pad_right(truncate(name.as_str(), 16).as_str(), 16),
            theme.name,
        ).string(
            cat("  ", pad_left(fmt_secs(*took).as_str(), ' ', 6).as_str()),
            theme.duration,
        ).string(cat("  ", truncate(description.as_str(), room).as_str()), theme.value),
        LogRow::Failed { at, name, error } => TextLine::new().text(at.as_str(), theme.dim).text(
            "  ✗ ",
            theme.err,
        ).string(pad_right(truncate(name.as_str(), 16).as_str(), 16), theme.name).text(
            "        ",
            theme.dim,
        ).string(cat("  ", truncate(error.as_str(), room).as_str()), theme.err),
    };
    assert(r@ =~= log_row_line(row@, width as nat, *theme));
    r
}

fn put_log(picture: &mut Vec<Item>, app: &App, area: Area, theme: &Theme)
    ensures
        items(final(picture)@) == items(old(picture)@).push(boxed(area, "log"@, *theme)).push(
            log_item(app@, inside(area), *theme),
        ),
{
    put_box(picture, area, "log", theme);
    let inner = area.inner();
    let width = inner.width as usize;
    let ghost all = app@.log.map_values(
        |row: LogRowView| log_row_line(row, inner.width as nat, *theme),
    );
    let mut lines: Vec<TextLine> = Vec::new();
    let mut i: usize = 0;
    assert(line_views(lines@) =~= all.take(0));
    while i < app.log.len()
        invariant
            i <= app.log@.len(),
            width == inner.width,
            all == app@.log.map_values(
                |row: LogRowView| log_row_line(row, inner.width as nat, *theme),
            ),
            line_views(lines@) == all.take(i as int),
        decreases app.log@.len() - i,
    {
        let ghost before = lines@;
        let line = log_line(&app.log[i], width, theme);
        assert(app@.log[i as int] == app.log@[i as int]@);
        lines.push(line);
        assert(line_views(lines@) =~= line_views(before).push(line@));
        assert(all.take(i + 1) =~= all.take(i as int).push(all[i as int]));
        i += 1;
    }
    assert(all.take(i as int) =~= all);
    let selected: Option<usize> = if app.log.len() == 0 {
        None
    } else if app.log_selected < app.log.len() {
        Some(app.log_selected)
    } else {
        Some(app.log.len() - 1)
    };
    put(picture, Item::Rows { area: inner, lines, selected, highlight: theme.highlight });
}

pub fn hint(line: TextLine, key: &str, label: &str, enabled: bool, theme: &Theme) -> (r: TextLine)
    ensures
        r@ == line@ + key_hint(key@, label@, enabled, *theme),
{
    let (key_style, label_style) = if enabled {
        (theme.accent, theme.label)
    } else {
        (theme.dim, theme.dim)
    };
    let r = line.string(spaced_word(key), key_style).string(cat(label, "   "), label_style);
    assert(r@ =~= line@ + key_hint(key@, label@, enabled, *theme));
    r
}

/// The key hints and the message behind them.
pub fn footer(app: &App, theme: &Theme) -> (r: TextLine)
    ensures
        r@ == footer_line(app@, *theme),
{
    let can_start = matches!(
        app.run_state,
        RunState::Idle | RunState::Finished | RunState::Error(_)
    );
    let paused = matches!(app.run_state, RunState::Paused);
    let can_pause = matches!(app.run_state, RunState::Running | RunState::Paused);
    let has_log = app.log.len() > 0;
    let line = TextLine::new();
    assert(line@ + key_hint("s"@, "start"@, can_start, *theme) =~= key_hint(
        "s"@,
        "start"@,
        can_start,
        *theme,
    ));
    let line = hint(line, "s", "start", can_start, theme);
    let line = hint(
        line,
        "p",
        if paused {
            "resume"
        } else {
            "pause"
        },
        can_pause,
        theme,
    );
    let line = hint(line, "↑↓", "scroll log", has_log, theme);
    let line = hint(line, "enter", "expand", has_log, theme);
    let line = hint(line, "c", "settings", true, theme);
    let line = hint(line, "q", "quit", true, theme);
    match &app.footer_message {
        Some(message) => line.string(cat("  ", message.as_str()), theme.info),
        None => line,
    }
}

fn put_footer(picture: &mut Vec<Item>, app: &App, area: Area, theme: &Theme)
    ensures
        items(final(picture)@) == items(old(picture)@).push(
            lines_item(area, seq![footer_line(app@, *theme)]),
        ),
{
    put_lines(picture, area, one_line(footer(app, theme)));
}

fn put_popup(picture: &mut Vec<Item>, app: &App, area: Area, theme: &Theme)
    ensures
        items(final(picture)@) == items(old(picture)@) + popup_items(app@, area, *theme),
{
    if !app.log_expanded || app.log_selected >= app.log.len() {
        assert(items(picture@) + popup_items(app@, area, *theme) =~= items(picture@));
        return;
    }
    let row = &app.log[app.log_selected];
    assert(app@.log[app.log_selected as int] == app.log@[app.log_selected as int]@);
    let (title, body, style) = match row {
        LogRow::Done { name, description, .. } => (name, description, theme.value),
        LogRow::Failed { name, error, .. } => (name, error, theme.err),
    };
    let left = TextLine::new().string(spaced_word(title.as_str()), theme.title);
    assert(left@ =~= seq![seg(" "@ + title@ + " "@, theme.title)]);
    let right = TextLine::new().text(" esc close ", theme.dim);
    assert(right@ =~= seq![seg(" esc close "@, theme.dim)]);
    put(picture, Item::Blank { area });
    put(picture, Item::Frame { area, border: theme.accent, left, right });
    put(
        picture,
        Item::Wrapped { area: area.inner(), content: Segment { text: body.clone(), style } },
    );
    assert(items(picture@) =~= items(old(picture)@) + popup_items(app@, area, *theme));
}

/// The run screen in `area`, with its parts where `layout` says.
pub fn run_picture(
    app: &App,
    now: Instant,
    theme: &Theme,
    area: Area,
    layout: RunLayout,
    estimates: &Estimates,
) -> (r: Vec<Item>)
    requires
        drawable(app@),
        (layout matches RunLayout::Full { progress, .. } && inside(progress).width < 43)
            ==> eta_fits(opt_duration(estimates.eta)),
    ensures
        items(r@) == run_picture_of(
            app@,
            instant_nanos(now),
            *theme,
            area,
            layout,
            opt_text(estimates.rate),
            opt_duration(estimates.eta),
        ),
{
    let mut picture: Vec<Item> = Vec::new();
    let ghost rate = opt_text(estimates.rate);
    let ghost eta = opt_duration(estimates.eta);
    let ghost t = instant_nanos(now);
    assert(items(picture@) =~= Seq::<ItemView>::empty());
    put(
        &mut picture,
        Item::Frame {
            area,
            border: theme.border,
            left: header_left(app, theme),
            right: header_right(app, theme),
        },
    );
    assert(items(picture@) =~= seq![outer_frame(app@, area, *theme)]);
    match layout {
        RunLayout::Tiny { bar, footer } => {
            let below: Vec<TextLine> = Vec::new();
            assert(line_views(below@) =~= Seq::<LineView>::empty());
            put_bar(&mut picture, app, bar, below, theme);
            put_footer(&mut picture, app, footer, theme);
            assert(items(picture@) =~= run_picture_of(
                app@,
                t,
                *theme,
                area,
                layout,
                rate,
                eta,
            ));
        },
        RunLayout::Full { progress, counters: counters_area, in_flight, log, footer, popup } => {
            put_progress(&mut picture, app, now, theme, progress, estimates);
            put_box(&mut picture, counters_area, "counters", theme);
            put_lines(&mut picture, counters_area.inner(), counters(app, theme));
            if let Some(flight_area) = in_flight {
                put_box(&mut picture, flight_area, "in flight", theme);
                put_lines(&mut picture, flight_area.inner(), flights(app, now, theme));
            }
            let ghost top = seq![outer_frame(app@, area, *theme)] + upper_items(
                app@,
                t,
                *theme,
                progress,
                counters_area,
                in_flight,
                rate,
                eta,
            );
            assert(items(picture@) =~= top);
            put_log(&mut picture, app, log, theme);
            put_footer(&mut picture, app, footer, theme);
            assert(items(picture@) =~= top + seq![
                boxed(log, "log"@, *theme),
                log_item(app@, inside(log), *theme),
                lines_item(footer, seq![footer_line(app@, *theme)]),
            ]);
            put_popup(&mut picture, app, popup, theme);
        },
    }
    picture
}

// ---------------------------------------------------------------------------
// Where it stands
// ---------------------------------------------------------------------------

/// The height of the in-flight box: a line for each worker and the border. The number of
/// workers counts by its low 16 bits.
pub open spec fn flight_height(workers: usize) -> int {
    (if workers == 0 {
        1
    } else {
        workers as int
    }) % 0x1_0000 + 2
}

/// The height of progress and counters on a screen: one above the other below 80 columns, side
/// by side from there on.
pub open spec fn top_height(area: Area) -> int {
    if area.width < 80 {
        9
    } else {
        5
    }
}

/// The height of the in-flight box on a screen: it is shown from 24 rows on.
pub open spec fn busy_height(area: Area, workers: usize) -> int {
    if area.height >= 24 {
        flight_height(workers)
    } else {
        0
    }
}

/// The cells of progress out of `room` beside the counters: half below 100 columns, more from
/// there on.
pub open spec fn progress_width(area: Area, room: int) -> int {
    if area.width < 100 {
        rounded(50 * room)
    } else {
        rounded(55 * room)
    }
}

/// The height of progress and counters where `room` rows are to hold the log's three and the
/// footer as well.
pub open spec fn top_rows(area: Area, room: int) -> int {
    smaller(top_height(area), room - 4)
}

/// The height of the in-flight box in what the other parts leave of `room` rows.
pub open spec fn busy_rows(area: Area, workers: usize, room: int) -> int {
    smaller(busy_height(area, workers), room - top_rows(area, room) - 4)
}

/// The height of progress above the counters, in `top` rows for both.
pub open spec fn progress_rows(top: int) -> int {
    smaller((top + 1) / 2, 4)
}

/// The screen says where its parts stand. Every screen does that is on the terminal, with at
/// least two rows inside the border: only positions past the largest `u16` can leave less room
/// than there are rows.
pub open spec fn settled(area: Area, workers: usize) -> bool {
    let inner = inside(area);
    let room = room_from(inner.y, inner.height);
    if inner.height <= 8 {
        room >= 2
    } else if area.height >= 24 {
        ||| top_height(area) + busy_height(area, workers) + 4 <= room
        ||| 2 * top_height(area) + 4 <= room
    } else {
        room >= 4
    }
}

/// The rows of `inner` from `y` on, `height` of them.
pub open spec fn rows_of(inner: Area, y: int, height: int) -> Area {
    Area { y: (inner.y + y) as u16, height: height as u16, ..inner }
}

/// Where the parts stand on a screen: up to eight rows inside the border a bar on top and the
/// footer below. Above that progress and counters are on top, assets in flight below them, the
/// log in what is left, and the footer in the last row. The log has three rows at least; where
/// that is too much the in-flight box has fewer, or the top if there is no such box. The popup
/// is in the middle, half as high as the screen and seven tenths as wide.
pub open spec fn places(area: Area, workers: usize) -> RunLayout {
    let inner = inside(area);
    let room = room_from(inner.y, inner.height);
    if inner.height <= 8 {
        RunLayout::Tiny { bar: rows_of(inner, 0, 1), footer: rows_of(inner, room - 1, 1) }
    } else {
        let columns = room_from(inner.x, inner.width);
        let wide = progress_width(area, columns);
        let top = top_rows(area, room);
        let busy = busy_rows(area, workers, room);
        RunLayout::Full {
            progress: if area.width < 80 {
                rows_of(inner, 0, progress_rows(top))
            } else {
                Area { width: wide as u16, ..rows_of(inner, 0, top) }
            },
            counters: if area.width < 80 {
                rows_of(inner, progress_rows(top), top - progress_rows(top))
            } else {
                Area {
                    x: (inner.x + wide) as u16,
                    width: (columns - wide) as u16,
                    ..rows_of(inner, 0, top)
                }
            },
            in_flight: if area.height >= 24 {
                Some(rows_of(inner, top, busy))
            } else {
                None
            },
            log: rows_of(inner, top + busy, room - top - busy - 1),
            footer: rows_of(inner, room - 1, 1),
            popup: middle_of(area, Size::Percent(50), Size::Percent(70)),
        }
    }
}

/// The parts keep to their columns and their order in the screen `area`, however high it is, and
/// fill it from the first row inside the border to the last: boxes need more than eight rows,
/// progress is on top, assets in flight are shown from 24 rows on, and below 80 columns progress
/// stands above the counters instead of beside them.
pub open spec fn in_order(layout: RunLayout, area: Area) -> bool {
    let inner = inside(area);
    let bottom = inner.y + room_from(inner.y, inner.height);
    match layout {
        RunLayout::Tiny { bar, footer } => {
            &&& inner.height <= 8
            &&& bar.x == inner.x && bar.width == inner.width
            &&& bar.y == inner.y
            &&& footer.x == inner.x && footer.width == inner.width
            &&& bar.y + bar.height <= footer.y
            &&& footer.y + footer.height == bottom
        },
        RunLayout::Full { progress, counters, in_flight, log, footer, popup } => {
            let columns = room_from(inner.x, inner.width);
            &&& inner.height > 8
            &&& progress.x == inner.x && progress.y == inner.y
            &&& if area.width < 80 {
                &&& progress.width == inner.width
                &&& counters.x == inner.x && counters.width == inner.width
                &&& counters.y == progress.y + progress.height
            } else {
                &&& progress.width == progress_width(area, columns)
                &&& counters.x == progress.x + progress.width
                &&& counters.x + counters.width == inner.x + columns
                &&& counters.y == progress.y && counters.height == progress.height
            }
            &&& in_flight is Some <==> area.height >= 24
            &&& match in_flight {
                Some(f) => {
                    &&& f.x == inner.x && f.width == inner.width
                    &&& f.y == counters.y + counters.height
                    &&& log.y == f.y + f.height
                },
                None => log.y == counters.y + counters.height,
            }
            &&& log.x == inner.x && log.width == inner.width
            &&& footer.x == inner.x && footer.width == inner.width
            &&& footer.y == log.y + log.height
            &&& footer.y + footer.height == bottom
            &&& popup == middle_of(area, Size::Percent(50), Size::Percent(70))
        },
    }
}

/// The parts share a screen that is too low for them: three rows are for the log, if there are
/// as many, and no other part gets more than on a screen that is high enough.
pub open spec fn crowded(layout: RunLayout, area: Area, workers: usize) -> bool {
    match layout {
        RunLayout::Tiny { bar, footer } => {
            &&& bar.height <= 1 && footer.height <= 1
            &&& footer.y == bar.y + bar.height
        },
        RunLayout::Full { progress, counters, in_flight, log, footer, .. } => {
            &&& if area.width < 80 {
                progress.height <= 4 && counters.height <= 5
            } else {
                progress.height <= 5
            }
            &&& in_flight matches Some(f) ==> f.height <= flight_height(workers)
            &&& room_from(inside(area).y, inside(area).height) >= 3 ==> log.height == 3
            &&& footer.height <= 1
        },
    }
}

/// The parts stand where they belong on the screen `area`. Where that is not settled, they still
/// keep their order and share what there is.
pub open spec fn fits(layout: RunLayout, area: Area, workers: usize) -> bool {
    &&& in_order(layout, area)
    &&& if settled(area, workers) {
        layout == places(area, workers)
    } else {
        crowded(layout, area, workers)
    }
}

/// Every screen that is on the terminal, with two rows inside the border, says where its parts
/// stand.
pub proof fn law_screens_are_settled(area: Area, workers: usize)
    requires
        area.y + area.height <= u16::MAX,
        area.height >= 4,
    ensures
        settled(area, workers),
{
}

/// With more than ten rows progress is in the first row inside the frame. From 80 columns on the
/// counters are beside it, below that they are under it, and assets in flight are shown from 24
/// rows on. Every part has a row at least: three are the log's, and one is the footer's. Up to
/// ten rows there are no boxes at all.
pub proof fn law_counters_move_under_progress(layout: RunLayout, area: Area, workers: usize)
    requires
        fits(layout, area, workers),
        area.y + area.height <= u16::MAX,
        area.height >= 4,
    ensures
        layout is Tiny <==> area.height <= 10,
        layout matches RunLayout::Full { progress, counters, in_flight, log, footer, .. } ==> {
            &&& progress.y == inside(area).y
            &&& counters.y == inside(area).y <==> area.width >= 80
            &&& area.width < 80 ==> counters.y == progress.y + progress.height
            &&& in_flight is Some <==> area.height >= 24
            &&& progress.height > 0 && counters.height > 0
            &&& in_flight matches Some(f) ==> f.height > 0
            &&& log.height >= 3
            &&& footer.height == 1
        },
{
    law_screens_are_settled(area, workers);
}

/// The first row inside the frame shows the title of progress, and that of the counters exactly
/// from 80 columns on. The in-flight box is drawn exactly from 24 rows on. Up to ten rows there
/// is nothing but the frame, the bar and the footer.
pub proof fn law_titles_are_where_their_boxes_are(
    a: AppView,
    now: int,
    theme: Theme,
    area: Area,
    layout: RunLayout,
    rate: Option<Seq<char>>,
    eta: Option<nat>,
    workers: usize,
)
    requires
        fits(layout, area, workers),
        area.y + area.height <= u16::MAX,
        area.height >= 4,
    ensures
        ({
            let picture = run_picture_of(a, now, theme, area, layout, rate, eta);
            let first = inside(area).y;
            &&& area.height <= 10 ==> picture.len() == 3 && picture[0] == outer_frame(
                a,
                area,
                theme,
            ) && picture[1] is Bar && picture[2] is Lines
            &&& area.height > 10 ==> {
                &&& exists|progress: Area|
                    progress.y == first && picture[1] == #[trigger] boxed(
                        progress,
                        "progress"@,
                        theme,
                    )
                &&& exists|counters: Area|
                    (counters.y == first <==> area.width >= 80) && picture[3]
                        == #[trigger] boxed(counters, "counters"@, theme)
                &&& area.height >= 24 ==> exists|busy: Area|
                    picture[5] == #[trigger] boxed(busy, "in flight"@, theme)
                &&& area.height < 24 ==> exists|log: Area|
                    picture[5] == #[trigger] boxed(log, "log"@, theme)
            }
        }),
{
    law_counters_move_under_progress(layout, area, workers);
    let picture = run_picture_of(a, now, theme, area, layout, rate, eta);
    if let RunLayout::Full { progress, counters, in_flight, log, .. } = layout {
        assert(picture[1] == boxed(progress, "progress"@, theme));
        assert(picture[3] == boxed(counters, "counters"@, theme));
        match in_flight {
            Some(busy) => assert(picture[5] == boxed(busy, "in flight"@, theme)),
            None => assert(picture[5] == boxed(log, "log"@, theme)),
        }
    }
}

/// The sizes of the four parts of the run screen, from top to bottom.
pub fn run_sizes(area: Area, workers: usize) -> (r: Vec<Size>)
    requires
        flight_height(workers) <= u16::MAX,
    ensures
        r@ == seq![
            Size::Cells(
                if area.width < 80 {
                    9
                } else {
                    5
                },
            ),
            Size::Cells(
                if area.height >= 24 {
                    flight_height(workers) as u16
                } else {
                    0
                },
            ),
            Size::AtLeast(3),
            Size::Cells(1),
        ],
{
    let top: u16 = if area.width < 80 {
        9
    } else {
        5
    };
    let in_flight: u16 = if area.height >= 24 {
        let busy: usize = if workers == 0 {
            1
        } else {
            workers
        };
        (busy % 0x1_0000) as u16 + 2
    } else {
        0
    };
    let mut r: Vec<Size> = Vec::new();
    r.push(Size::Cells(top));
    r.push(Size::Cells(in_flight));
    r.push(Size::AtLeast(3));
    r.push(Size::Cells(1));
    r
}

/// The sizes of the bar, the gap below it and the footer on a tiny screen.
pub fn tiny_sizes() -> (r: Vec<Size>)
    ensures
        r@ == seq![Size::Cells(1), Size::AtLeast(0), Size::Cells(1)],
{
    let mut r: Vec<Size> = Vec::new();
    r.push(Size::Cells(1));
    r.push(Size::AtLeast(0));
    r.push(Size::Cells(1));
    r
}

/// How progress and counters share the top of a screen of this width: one above the other below
/// 80 columns, half each below 100, and with more room for progress from there on.
pub open spec fn top_split(width: u16) -> (Split, Seq<Size>) {
    if width < 80 {
        (Split::Rows, seq![Size::Cells(4), Size::Cells(5)])
    } else if width < 100 {
        (Split::Columns, seq![Size::Percent(50), Size::Percent(50)])
    } else {
        (Split::Columns, seq![Size::Percent(55), Size::Percent(45)])
    }
}

/// How progress and counters share the top of a screen of this width.
pub fn top_sizes(width: u16) -> (r: (Split, Vec<Size>))
    ensures
        (r.0, r.1@) == top_split(width),
{
    let (split, first, second) = if width < 80 {
        (Split::Rows, Size::Cells(4), Size::Cells(5))
    } else if width < 100 {
        (Split::Columns, Size::Percent(50), Size::Percent(50))
    } else {
        (Split::Columns, Size::Percent(55), Size::Percent(45))
    };
    let mut r: Vec<Size> = Vec::new();
    r.push(first);
    r.push(second);
    assert(r@ =~= top_split(width).1);
    (split, r)
}

/// The layout of a tiny screen from the parts it was split into.
pub fn tiny_layout(parts: &Vec<Area>) -> (r: RunLayout)
    requires
        parts@.len() == 3,
    ensures
        r == (RunLayout::Tiny { bar: parts@[0], footer: parts@[2] }),
{
    RunLayout::Tiny { bar: parts[0], footer: parts[2] }
}

/// The layout of a screen from the parts it was split into, the two boxes of its top, and the
/// place of the popup. Assets in flight are shown from 24 rows on.
pub fn full_layout(area: Area, parts: &Vec<Area>, boxes: &Vec<Area>, popup: Area) -> (r: RunLayout)
    requires
        parts@.len() == 4,
        boxes@.len() == 2,
    ensures
        r == (RunLayout::Full {
            progress: boxes@[0],
            counters: boxes@[1],
            in_flight: if area.height >= 24 {
                Some(parts@[1])
            } else {
                None
            },
            log: parts@[2],
            footer: parts@[3],
            popup,
        }),
{
    RunLayout::Full {
        progress: boxes[0],
        counters: boxes[1],
        in_flight: if area.height >= 24 {
            Some(parts[1])
        } else {
            None
        },
        log: parts[2],
        footer: parts[3],
        popup,
    }
}

/// The part of `area` in its middle that is this large each way. Of a part whose size is an odd
/// percentage, where it starts and ends is not said.
pub(crate) fn middle(area: Area, height: Size, width: Size) -> (r: Area)
    ensures
        even_margin(height) ==> (r.y as int, r.height as int) == centered(
            height,
            area.y,
            area.height,
        ),
        even_margin(width) ==> (r.x as int, r.width as int) == centered(
            width,
            area.x,
            area.width,
        ),
{
    let mut rows: Vec<Size> = Vec::new();
    rows.push(height);
    let row = split_area(area, Split::Rows, Place::Center, &rows)[0];
    let mut columns: Vec<Size> = Vec::new();
    columns.push(width);
    split_area(row, Split::Columns, Place::Center, &columns)[0]
}

/// The four parts of a run screen with boxes, from top to bottom.
fn run_rows(area: Area, workers: usize) -> (r: Vec<Area>)
    requires
        flight_height(workers) <= u16::MAX,
        inside(area).height > 8,
    ensures
        r@.len() == 4,
        forall|i: int|
            0 <= i < 4 ==> (#[trigger] r@[i]).x == inside(area).x && r@[i].width == inside(
                area,
            ).width,
        r@[0].y == inside(area).y,
        r@[1].y == r@[0].y + r@[0].height,
        r@[2].y == r@[1].y + r@[1].height,
        r@[3].y == r@[2].y + r@[2].height,
        r@[3].y + r@[3].height == inside(area).y + room_from(
            inside(area).y,
            inside(area).height,
        ),
        r@[0].height <= top_height(area),
        r@[1].height <= busy_height(area, workers),
        r@[3].height <= 1,
        settled(area, workers) ==> {
            let room = room_from(inside(area).y, inside(area).height);
            &&& r@[0].height == top_rows(area, room)
            &&& r@[1].height == busy_rows(area, workers, room)
            &&& r@[3].height == 1
        },
        !settled(area, workers) && room_from(inside(area).y, inside(area).height) >= 3
            ==> r@[2].height == 3,
{
    let sizes = run_sizes(area, workers);
    proof {
        reveal_with_fuel(asked, 5);
        reveal_with_fuel(shares, 5);
    }
    split_area(area.inner(), Split::Rows, Place::Start, &sizes)
}

/// Progress and counters in the top of a run screen of this width.
fn top_boxes(top: Area, width: u16) -> (r: Vec<Area>)
    ensures
        r@.len() == 2,
        width < 80 ==> {
            let room = room_from(top.y, top.height);
            &&& r@[0].x == top.x && r@[0].width == top.width
            &&& r@[1].x == top.x && r@[1].width == top.width
            &&& r@[0].y == top.y
            &&& r@[1].y == r@[0].y + r@[0].height
            &&& room <= 9 ==> r@[0].height == progress_rows(room) && r@[1].height == room
                - progress_rows(room)
        },
        width >= 80 ==> {
            let room = room_from(top.x, top.width);
            &&& r@[0].y == top.y && r@[0].height == top.height
            &&& r@[1].y == top.y && r@[1].height == top.height
            &&& r@[0].x == top.x
            &&& r@[0].width == if width < 100 {
                rounded(50 * room)
            } else {
                rounded(55 * room)
            }
            &&& r@[1].x == r@[0].x + r@[0].width
            &&& r@[1].x + r@[1].width == top.x + room
        },
{
    let (split, sizes) = top_sizes(width);
    proof {
        reveal_with_fuel(asked, 3);
        reveal_with_fuel(percentage, 3);
    }
    let r = split_area(top, split, Place::Start, &sizes);
    proof {
        let room = room_from(top.x, top.width);
        if width >= 80 {
            assert(end_of(r@[1], split) == top.x + rounded(percentage(sizes@, 2) * room));
            assert(percentage(sizes@, 0) * room == 0) by (nonlinear_arith)
                requires
                    percentage(sizes@, 0) == 0,
            ;
            assert(percentage(sizes@, 2) * room == 100 * room) by (nonlinear_arith)
                requires
                    percentage(sizes@, 2) == 100,
            ;
            assert(rounded(0) == 0);
            assert(rounded(100 * room) == room);
        }
    }
    r
}

/// Finds a place for each part of the run screen.
pub fn run_layout(area: Area, workers: usize) -> (r: RunLayout)
    requires
        flight_height(workers) <= u16::MAX,
    ensures
        fits(r, area, workers),
{
    let inner = area.inner();
    if inner.height <= 8 {
        let sizes = tiny_sizes();
        proof {
            reveal_with_fuel(asked, 4);
            reveal_with_fuel(shares, 4);
        }
        return tiny_layout(&split_area(inner, Split::Rows, Place::Start, &sizes));
    }
    let parts = run_rows(area, workers);
    let boxes = top_boxes(parts[0], area.width);
    let popup = middle(area, Size::Percent(50), Size::Percent(70));
    full_layout(area, &parts, &boxes, popup)
}

/// The run screen in `area`.
pub fn run_screen(
    app: &App,
    now: Instant,
    theme: &Theme,
    area: Area,
    estimates: &Estimates,
) -> (r: Vec<Item>)
    requires
        drawable(app@),
        eta_fits(opt_duration(estimates.eta)),
        flight_height(app.config.run.workers) <= u16::MAX,
    ensures
        exists|layout: RunLayout| #[trigger]
            fits(layout, area, app.config.run.workers) && items(r@) == run_picture_of(
                app@,
                instant_nanos(now),
                *theme,
                area,
                layout,
                opt_text(estimates.rate),
                opt_duration(estimates.eta),
            ),
{
    let layout = run_layout(area, app.config.run.workers);
    let r = run_picture(app, now, theme, area, layout, estimates);
    assert(fits(layout, area, app.config.run.workers));
    r
}

} // verus!
