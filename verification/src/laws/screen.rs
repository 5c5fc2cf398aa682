//! The run screen: what stands where, with which text and in which style.
use std::time::Instant;
use vstd::prelude::*;
use vstd::string::*;

use crate::app::{
    opt_duration, App, AppView, InFlightView, LogRow, LogRowView, RunStateView, Screen,
};
use crate::clock::instant_nanos;
use crate::events::Stage;
use crate::settings::opt_text;
use crate::text::{decimal, padded_left, padded_right, shortened};
use crate::theme::{Style, Theme};
use crate::ui::picture::{inside, items, Area, Item, ItemView, LineView};
use crate::ui::run::{
    average_text, fits, footer_line, header_left_line, header_right_line, in_flight_line,
    in_flight_lines, key_hint, log_item, log_row_line, pace_line, pair_line, popup_items,
    run_picture, run_picture_of, upper_items, Estimates, RunLayout,
};
use crate::ui::settings::form_place;
use crate::ui::{clock_text, eta_text, grouped, render, secs_text};
use crate::urls::{host_text, url_parts};

verus! {

// ---------------------------------------------------------------------------
// The popup
// ---------------------------------------------------------------------------

/// The name of a row of the log.
pub open spec fn name_of(row: LogRowView) -> Seq<char> {
    match row {
        LogRowView::Done { name, .. } => name,
        LogRowView::Failed { name, .. } => name,
    }
}

/// What a row of the log says of its photo, in full.
pub open spec fn story_of(row: LogRowView) -> Seq<char> {
    match row {
        LogRowView::Done { description, .. } => description,
        LogRowView::Failed { error, .. } => error,
    }
}

/// An open popup is about the row that the log marks as selected: it is titled with its name and
/// tells its whole description or error, a failure in the error style. It is wiped clean first
/// and drawn on top of everything else.
pub proof fn law_popup_tells_the_selected_row(
    a: AppView,
    now: int,
    theme: Theme,
    area: Area,
    layout: RunLayout,
    rate: Option<Seq<char>>,
    eta: Option<nat>,
)
    requires
        layout is Full,
        a.log_expanded,
        a.log_selected < a.log.len(),
    ensures
        ({
            let picture = run_picture_of(a, now, theme, area, layout, rate, eta);
            let end = picture.len() as int;
            let row = a.log[a.log_selected as int];
            let popup = layout->popup;
            &&& end > 5
            &&& picture[end - 3] == (ItemView::Blank { area: popup })
            &&& picture[end - 2] matches ItemView::Frame { area: framed, left, right, .. }
                && framed == popup && left.len() == 1 && left[0].text == " "@ + name_of(row)
                + " "@ && right.len() == 1 && right[0].text == " esc close "@
            &&& picture[end - 1] matches ItemView::Wrapped { area: told, content }
                && told == inside(popup) && content.text == story_of(row) && content.style == (
            if row is Failed {
                theme.err
            } else {
                theme.value
            })
            &&& picture[end - 5] matches ItemView::Rows { lines, selected, .. } && selected == Some(
                a.log_selected,
            ) && lines.len() == a.log.len()
        }),
{
    let picture = run_picture_of(a, now, theme, area, layout, rate, eta);
    let top = picture.take(picture.len() - 3);
    let all = popup_items(a, layout->popup, theme);
    assert(all.len() == 3);
    assert(picture =~= top + all);
    assert(picture[picture.len() - 5] == log_item(a, inside(layout->log), theme));
}

/// A closed popup, or one with no row to show, is not drawn: the footer is on top.
pub proof fn law_closed_popups_are_not_drawn(
    a: AppView,
    now: int,
    theme: Theme,
    area: Area,
    layout: RunLayout,
    rate: Option<Seq<char>>,
    eta: Option<nat>,
)
    requires
        !a.log_expanded || a.log_selected >= a.log.len(),
    ensures
        ({
            let picture = run_picture_of(a, now, theme, area, layout, rate, eta);
            let end = picture.len() as int;
            &&& end >= 3
            &&& picture[end - 1] matches ItemView::Lines { area: at, lines, .. } && lines.len()
                == 1 && at == (match layout {
                RunLayout::Tiny { footer, .. } => footer,
                RunLayout::Full { footer, .. } => footer,
            })
            &&& forall|i: int|
                0 <= i < end ==> !(#[trigger] picture[i] is Wrapped) && !(picture[i] is Blank)
        }),
{
    let picture = run_picture_of(a, now, theme, area, layout, rate, eta);
    if let RunLayout::Full { popup, .. } = layout {
        assert(popup_items(a, popup, theme) =~= Seq::<ItemView>::empty());
    }
}

/// The popup depends on the selected row and on nothing else of the log: two states that have
/// the same row selected show the same one.
pub proof fn law_popups_of_one_row_are_alike(a: AppView, b: AppView, area: Area, theme: Theme)
    requires
        a.log_expanded && b.log_expanded,
        a.log_selected < a.log.len(),
        b.log_selected < b.log.len(),
        a.log[a.log_selected as int] == b.log[b.log_selected as int],
    ensures
        popup_items(a, area, theme) == popup_items(b, area, theme),
{
}

/// What is drawn last, on the screen as it is built: the text of the selected row.
pub proof fn law_drawn_popup_tells_the_selected_row(
    app: &App,
    now: Instant,
    theme: &Theme,
    area: Area,
    layout: RunLayout,
    estimates: &Estimates,
    r: Vec<Item>,
)
    requires
        call_ensures(run_picture, (app, now, theme, area, layout, estimates), r),
        layout is Full,
        app.log_expanded,
        app.log_selected < app.log@.len(),
    ensures
        r@.len() > 0,
        r@.last() matches Item::Wrapped { content, .. } && (match app.log@[app.log_selected
            as int] {
            LogRow::Done { description, .. } => content.text@ == description@,
            LogRow::Failed { error, .. } => content.text@ == error@,
        }),
{
    let rate = opt_text(estimates.rate);
    let eta = opt_duration(estimates.eta);
    law_popup_tells_the_selected_row(app@, instant_nanos(now), *theme, area, layout, rate, eta);
    assert(app@.log[app.log_selected as int] == app.log@[app.log_selected as int]@);
    assert(items(r@).len() == r@.len());
    assert(items(r@)[r@.len() - 1] == r@.last()@);
}

// ---------------------------------------------------------------------------
// The log
// ---------------------------------------------------------------------------

/// The log shows every row, in its order, and marks the selected one; past the end of the log
/// the last one, and none of an empty log.
pub proof fn law_log_shows_every_row(a: AppView, area: Area, theme: Theme)
    ensures
        log_item(a, area, theme) matches ItemView::Rows { area: at, lines, selected, highlight }
            && {
            &&& at == area && highlight == theme.highlight
            &&& lines.len() == a.log.len()
            &&& forall|i: int|
                0 <= i < lines.len() ==> #[trigger] lines[i] == log_row_line(
                    a.log[i],
                    area.width as nat,
                    theme,
                )
            &&& a.log.len() == 0 <==> selected is None
            &&& a.log_selected < a.log.len() ==> selected == Some(a.log_selected)
            &&& a.log.len() > 0 && a.log_selected >= a.log.len() ==> selected == Some(
                (a.log.len() - 1) as nat,
            )
        },
{
}

/// A row of the log: time, mark, name in sixteen cells, time taken, and as much of the text as
/// the line has room for behind 38 cells. Failures are marked and told in the error style.
pub proof fn law_log_rows(row: LogRowView, width: nat, theme: Theme)
    ensures
        ({
            let line = log_row_line(row, width, theme);
            let room: nat = if width > 38 {
                (width - 38) as nat
            } else {
                0
            };
            &&& line.len() == 5
            &&& line[2].text == padded_right(shortened(name_of(row), 16), 16)
            &&& line[2].style == theme.name
            &&& line[4].text == "  "@ + shortened(story_of(row), room)
            &&& line[0].style == theme.dim
            &&& row matches LogRowView::Done { at, took, .. } ==> {
                &&& line[0].text == at
                &&& line[1].text == "  ✓ "@ && line[1].style == theme.ok
                &&& line[3].text == "  "@ + padded_left(secs_text(took), ' ', 6)
                &&& line[3].style == theme.duration
                &&& line[4].style == theme.value
            }
            &&& row matches LogRowView::Failed { at, .. } ==> {
                &&& line[0].text == at
                &&& line[1].text == "  ✗ "@ && line[1].style == theme.err
                &&& line[3].text == "        "@ && line[3].style == theme.dim
                &&& line[4].style == theme.err
            }
        }),
{
}

// ---------------------------------------------------------------------------
// Progress and counters
// ---------------------------------------------------------------------------

/// Above the log stand progress, counters and, where there is room, the assets in flight, each
/// in a box with its title.
pub proof fn law_boxes_above_the_log(
    a: AppView,
    now: int,
    theme: Theme,
    progress: Area,
    counters: Area,
    in_flight: Option<Area>,
    rate: Option<Seq<char>>,
    eta: Option<nat>,
)
    ensures
        ({
            let top = upper_items(a, now, theme, progress, counters, in_flight, rate, eta);
            &&& top.len() == if in_flight is Some {
                6int
            } else {
                4
            }
            &&& titled(top[0], progress, "progress"@, theme)
            &&& top[1] matches ItemView::Bar { area, cells, counts, below } && {
                &&& area == inside(progress)
                &&& counts.text == " "@ + grouped(decimal(a.done + a.failed)) + " / "@ + grouped(
                    decimal(a.queued),
                )
                &&& counts.style == theme.value
                &&& area.width > counts.text.len() ==> cells + 1 + counts.text.len() == area.width
                &&& area.width <= counts.text.len() ==> cells == 0
                &&& below.len() == 1 && below[0] == pace_line(
                    a.elapsed_at(now),
                    rate,
                    eta,
                    area.width < 43,
                    theme,
                )
            }
            &&& titled(top[2], counters, "counters"@, theme)
            &&& top[3] matches ItemView::Lines { area, lines, scroll } && {
                &&& area == inside(counters) && scroll == 0 && lines.len() == 3
                &&& lines[0] == pair_line(
                    "scanned"@,
                    grouped(decimal(a.scanned)),
                    "done"@,
                    grouped(decimal(a.done)),
                    theme.value,
                    theme,
                )
                &&& lines[1][1].text == padded_left(grouped(decimal(a.queued)), ' ', 8)
                &&& lines[1][3].text == padded_left(grouped(decimal(a.failed)), ' ', 8)
                &&& lines[1][0].text == padded_right("queued"@, 9)
                &&& lines[1][2].text == "   "@ + padded_right("failed"@, 9)
                &&& a.failed > 0 ==> lines[1][3].style == theme.err
                &&& a.failed == 0 ==> lines[1][3].style == theme.value
                &&& lines[2][0].text == padded_right("avg llm"@, 9)
                &&& lines[2][2].text == "   "@ + padded_right("avg total"@, 9)
                &&& a.done == 0 ==> lines[2][1].text == padded_left("--"@, ' ', 8)
                    && lines[2][3].text == padded_left("--"@, ' ', 8)
                &&& a.done > 0 ==> lines[2][1].text == padded_left(
                    secs_text(a.llm_time_total / a.done),
                    ' ',
                    8,
                ) && lines[2][3].text == padded_left(
                    secs_text(a.asset_time_total / a.done),
                    ' ',
                    8,
                )
            }
            &&& in_flight matches Some(box_area) ==> {
                &&& titled(top[4], box_area, "in flight"@, theme)
                &&& top[5] == (ItemView::Lines {
                    area: inside(box_area),
                    lines: in_flight_lines(a, now, theme),
                    scroll: 0,
                })
            }
        }),
{
}

/// A box with this title on the left and none on the right.
pub open spec fn titled(item: ItemView, at: Area, title: Seq<char>, theme: Theme) -> bool {
    item matches ItemView::Frame { area, border, left, right } && {
        &&& area == at && border == theme.border
        &&& left.len() == 1 && left[0].text == " "@ + title + " "@ && left[0].style == theme.title
        &&& right.len() == 0
    }
}

/// Two labelled values: labels nine cells wide and values eight, the values to the right.
pub proof fn law_pairs(
    l1: Seq<char>,
    v1: Seq<char>,
    l2: Seq<char>,
    v2: Seq<char>,
    s2: Style,
    theme: Theme,
)
    ensures
        ({
            let line = pair_line(l1, v1, l2, v2, s2, theme);
            &&& line.len() == 4
            &&& line[0].text == padded_right(l1, 9) && line[0].style == theme.label
            &&& line[1].text == padded_left(v1, ' ', 8) && line[1].style == theme.value
            &&& line[2].text == "   "@ + padded_right(l2, 9) && line[2].style == theme.label
            &&& line[3].text == padded_left(v2, ' ', 8) && line[3].style == s2
        }),
        average_text(None) == "--"@,
{
}

/// The pace: time so far, rate and time left, in this order, each behind its label. What is not
/// known is dashes. Where there is little room everything is shorter and the time left is given
/// in minutes.
pub proof fn law_pace_is_elapsed_rate_and_eta(
    elapsed: nat,
    rate: Option<Seq<char>>,
    eta: Option<nat>,
    narrow: bool,
    theme: Theme,
)
    ensures
        ({
            let line = pace_line(elapsed, rate, eta, narrow, theme);
            &&& line.len() == 6
            &&& forall|i: int|
                0 <= i < 6 ==> (#[trigger] line[i]).style == if i % 2 == 0 {
                    theme.label
                } else {
                    theme.value
                }
            &&& line[1].text == clock_text(elapsed / 1_000_000_000)
            &&& narrow ==> line[0].text == "el "@ && line[2].text == " rt "@ && line[4].text
                == " eta "@
            &&& !narrow ==> line[0].text == "elapsed "@ && line[2].text == "   rate "@
                && line[4].text == "   eta "@
            &&& rate matches Some(number) ==> line[3].text == number + (if narrow {
                "/m"@
            } else {
                "/min"@
            })
            &&& rate is None ==> line[3].text == if narrow {
                "--/m"@
            } else {
                "--"@
            }
            &&& eta matches Some(left) ==> line[5].text == if narrow {
                eta_text(left / 1_000_000_000)
            } else {
                clock_text(left / 1_000_000_000)
            }
            &&& eta is None ==> line[5].text == if narrow {
                "--:--"@
            } else {
                "--:--:--"@
            }
        }),
{
}

// ---------------------------------------------------------------------------
// Assets in flight
// ---------------------------------------------------------------------------

/// Every asset in flight has a line, in its order: name, stage, and the time since it started.
/// Without any there is one line that says why.
pub proof fn law_every_asset_in_flight_has_a_line(a: AppView, now: int, theme: Theme)
    ensures
        ({
            let lines = in_flight_lines(a, now, theme);
            &&& a.in_flight.len() > 0 ==> lines.len() == a.in_flight.len()
            &&& a.in_flight.len() > 0 ==> forall|i: int|
                0 <= i < lines.len() ==> #[trigger] lines[i] == in_flight_line(
                    a.in_flight[i],
                    now,
                    theme,
                )
            &&& a.in_flight.len() == 0 ==> {
                &&& lines.len() == 1 && lines[0].len() == 1 && lines[0][0].style == theme.dim
                &&& lines[0][0].text == match a.run_state {
                    RunStateView::Running => "waiting for the first asset…"@,
                    RunStateView::Paused => "paused"@,
                    RunStateView::Finished => "finished"@,
                    RunStateView::Error(_) => "stopped"@,
                    RunStateView::Idle => "press s to start"@,
                }
            }
        }),
{
}

/// The line of an asset in flight. A clock that went back counts as no time.
pub proof fn law_in_flight_lines(f: InFlightView, now: int, theme: Theme)
    ensures
        ({
            let line = in_flight_line(f, now, theme);
            &&& line.len() == 4
            &&& line[0].text == "● "@ && line[0].style == theme.accent
            &&& line[1].text == padded_right(shortened(f.name, 20), 20)
            &&& line[1].style == theme.name
            &&& line[2].text == padded_right(
                (match f.stage {
                    Stage::Fetching => "fetching"@,
                    Stage::CallingLlm => "calling llm"@,
                    Stage::Writing => "writing"@,
                }) + "…"@,
                14,
            )
            &&& line[2].style == theme.info
            &&& now >= f.started_at ==> line[3].text == secs_text((now - f.started_at) as nat)
            &&& now < f.started_at ==> line[3].text == secs_text(0)
            &&& line[3].style == theme.duration
        }),
{
}

// ---------------------------------------------------------------------------
// Header and footer
// ---------------------------------------------------------------------------

/// The header names the program, both servers, the model and the number of workers.
pub proof fn law_header_names_the_servers(a: AppView, theme: Theme)
    ensures
        ({
            let line = header_left_line(a, theme);
            &&& line.len() == 9
            &&& line[0].text == " immich-alt-text "@ && line[0].style == theme.title
            &&& line[2].text == host_text(url_parts(a.config.immich.url), a.config.immich.url)
            &&& line[4].text == a.config.llm.model
            &&& line[6].text == host_text(url_parts(a.config.llm.base_url), a.config.llm.base_url)
            &&& a.config.run.workers == 1 ==> line[8].text == decimal(1) + " worker "@
            &&& a.config.run.workers != 1 ==> line[8].text == decimal(
                a.config.run.workers as nat,
            ) + " workers "@
            &&& line[1].text == "─ "@ && line[3].text == " ─ "@ && line[5].text == " @ "@
                && line[7].text == " ─ "@
            &&& line[2].style == theme.value && line[4].style == theme.value && line[6].style
                == theme.value && line[8].style == theme.value
            &&& line[1].style == theme.border && line[3].style == theme.border && line[7].style
                == theme.border && line[5].style == theme.dim
        }),
{
}

/// The state of the run is the last word of the header, in bold and in the color of the state. A
/// dry run is marked before it, and the reason of an error comes before both, cut to forty.
pub proof fn law_header_ends_with_the_state(a: AppView, theme: Theme)
    ensures
        ({
            let line = header_right_line(a, theme);
            let end = line.len() as int;
            let marks = if a.config.run.dry_run {
                1int
            } else {
                0
            };
            &&& end == 1 + marks + if a.run_state is Error {
                1int
            } else {
                0
            }
            &&& line[end - 1].text == " "@ + (match a.run_state {
                RunStateView::Idle => "IDLE"@,
                RunStateView::Running => "RUNNING"@,
                RunStateView::Paused => "PAUSED"@,
                RunStateView::Finished => "FINISHED"@,
                RunStateView::Error(_) => "ERROR"@,
            }) + " "@
            &&& line[end - 1].style == (Style {
                bold: true,
                ..match a.run_state {
                    RunStateView::Idle => theme.info,
                    RunStateView::Running => theme.ok,
                    RunStateView::Paused => theme.warn,
                    RunStateView::Finished => theme.info,
                    RunStateView::Error(_) => theme.err,
                }
            })
            &&& a.config.run.dry_run ==> line[end - 2].text == " DRY RUN "@ && line[end - 2].style
                == theme.warn
            &&& a.run_state matches RunStateView::Error(message) ==> line[0].text == " "@
                + shortened(message, 40) + " "@ && line[0].style == theme.err
        }),
{
    reveal_strlit("IDLE");
    reveal_strlit("RUNNING");
    reveal_strlit("PAUSED");
    reveal_strlit("FINISHED");
    reveal_strlit("ERROR");
    assert("RUNNING"@.len() == 7 && "PAUSED"@.len() == 6 && "ERROR"@.len() == 5);
    assert("IDLE"@.len() == 4 && "FINISHED"@.len() == 8);
}

/// A hint is a key and a word, in their colors where the key does something and dim where it
/// does not.
pub proof fn law_hints(key: Seq<char>, label: Seq<char>, enabled: bool, theme: Theme)
    ensures
        ({
            let hint = key_hint(key, label, enabled, theme);
            &&& hint.len() == 2
            &&& hint[0].text == " "@ + key + " "@
            &&& hint[1].text == label + "   "@
            &&& enabled ==> hint[0].style == theme.accent && hint[1].style == theme.label
            &&& !enabled ==> hint[0].style == theme.dim && hint[1].style == theme.dim
        }),
{
}

/// Which hint of the footer is at this place, and whether its key does something now.
pub open spec fn hint_at(line: LineView, place: int) -> LineView {
    line.subrange(2 * place, 2 * place + 2)
}

/// The footer hints at the keys in their order, each lit exactly while its key does something: a
/// start while nothing runs, a pause while a run is on, a resume while it is paused, the log
/// keys while there are rows. A message follows them.
pub proof fn law_footer_lights_the_keys_that_work(a: AppView, theme: Theme)
    ensures
        ({
            let line = footer_line(a, theme);
            let idle = a.run_state is Idle || a.run_state is Finished || a.run_state is Error;
            let rows = a.log.len() > 0;
            &&& hint_at(line, 0) == key_hint("s"@, "start"@, idle, theme)
            &&& a.run_state is Paused ==> hint_at(line, 1) == key_hint(
                "p"@,
                "resume"@,
                true,
                theme,
            )
            &&& a.run_state is Running ==> hint_at(line, 1) == key_hint("p"@, "pause"@, true, theme)
            &&& idle ==> hint_at(line, 1) == key_hint("p"@, "pause"@, false, theme)
            &&& hint_at(line, 2) == key_hint("↑↓"@, "scroll log"@, rows, theme)
            &&& hint_at(line, 3) == key_hint("enter"@, "expand"@, rows, theme)
            &&& hint_at(line, 4) == key_hint("c"@, "settings"@, true, theme)
            &&& hint_at(line, 5) == key_hint("q"@, "quit"@, true, theme)
            &&& a.footer_message is None ==> line.len() == 12
            &&& a.footer_message matches Some(message) ==> {
                &&& line.len() == 13
                &&& line[12].text == "  "@ + message && line[12].style == theme.info
            }
        }),
{
    let line = footer_line(a, theme);
    let idle = a.run_state is Idle || a.run_state is Finished || a.run_state is Error;
    let rows = a.log.len() > 0;
    assert(hint_at(line, 0) =~= key_hint("s"@, "start"@, idle, theme));
    assert(hint_at(line, 2) =~= key_hint("↑↓"@, "scroll log"@, rows, theme));
    assert(hint_at(line, 3) =~= key_hint("enter"@, "expand"@, rows, theme));
    assert(hint_at(line, 4) =~= key_hint("c"@, "settings"@, true, theme));
    assert(hint_at(line, 5) =~= key_hint("q"@, "quit"@, true, theme));
    if a.run_state is Paused {
        assert(hint_at(line, 1) =~= key_hint("p"@, "resume"@, true, theme));
    } else {
        assert(hint_at(line, 1) =~= key_hint("p"@, "pause"@, a.run_state is Running, theme));
    }
}

/// The parts of the run screen in their order: the frame with the header round everything, the
/// boxes above the log, the log in its box, and the footer. A tiny screen has a bar and the
/// footer.
pub proof fn law_parts_of_the_run_screen(
    a: AppView,
    now: int,
    theme: Theme,
    area: Area,
    layout: RunLayout,
    rate: Option<Seq<char>>,
    eta: Option<nat>,
)
    ensures
        ({
            let picture = run_picture_of(a, now, theme, area, layout, rate, eta);
            &&& picture[0] == (ItemView::Frame {
                area,
                border: theme.border,
                left: header_left_line(a, theme),
                right: header_right_line(a, theme),
            })
            &&& layout matches RunLayout::Tiny { bar, footer } ==> {
                &&& picture.len() == 3
                &&& picture[1] matches ItemView::Bar { area: at, cells, counts, below } && {
                    &&& at == bar && below.len() == 0 && counts.style == theme.value
                    &&& counts.text == " "@ + grouped(decimal(a.done + a.failed)) + " / "@
                        + grouped(decimal(a.queued))
                    &&& bar.width > counts.text.len() ==> cells + 1 + counts.text.len()
                        == bar.width
                    &&& bar.width <= counts.text.len() ==> cells == 0
                }
                &&& picture[2] == (ItemView::Lines {
                    area: footer,
                    lines: seq![footer_line(a, theme)],
                    scroll: 0,
                })
            }
            &&& layout matches RunLayout::Full { progress, counters, in_flight, log, footer, .. }
                ==> {
                let top = upper_items(a, now, theme, progress, counters, in_flight, rate, eta);
                let n = top.len() as int;
                &&& picture.len() >= n + 4
                &&& picture.subrange(1, n + 1) == top
                &&& titled(picture[n + 1], log, "log"@, theme)
                &&& picture[n + 2] == log_item(a, inside(log), theme)
                &&& picture[n + 3] == (ItemView::Lines {
                    area: footer,
                    lines: seq![footer_line(a, theme)],
                    scroll: 0,
                })
            }
        }),
{
    let picture = run_picture_of(a, now, theme, area, layout, rate, eta);
    if let RunLayout::Full { progress, counters, in_flight, log, footer, .. } = layout {
        let top = upper_items(a, now, theme, progress, counters, in_flight, rate, eta);
        assert(picture.subrange(1, top.len() as int + 1) =~= top);
    }
}

/// What is drawn is the screen that is shown: the settings in their box, or the run in its frame,
/// which is as large as the terminal.
pub proof fn law_the_current_screen_is_drawn(
    app: &App,
    now: Instant,
    theme: &Theme,
    area: Area,
    estimates: &Estimates,
    r: Vec<Item>,
)
    requires
        call_ensures(render, (app, now, theme, area, estimates), r),
    ensures
        r@.len() >= 3,
        r@[0]@ matches ItemView::Frame { area: at, left, .. } && {
            &&& app.screen == Screen::Settings ==> left.len() == 1 && left[0].text
                == " settings "@ && at == form_place(app@.settings, area)
            &&& app.screen == Screen::Run ==> left[0].text == " immich-alt-text "@ && at == area
        },
{
    assert(items(r@).len() == r@.len());
    if app.screen == Screen::Run {
        let t = instant_nanos(now);
        let rate = opt_text(estimates.rate);
        let eta = opt_duration(estimates.eta);
        let layout = choose|layout: RunLayout| #[trigger]
            fits(layout, area, app.config.run.workers) && items(r@) == run_picture_of(
                app@,
                t,
                *theme,
                area,
                layout,
                rate,
                eta,
            );
        law_parts_of_the_run_screen(app@, t, *theme, area, layout, rate, eta);
        law_header_names_the_servers(app@, *theme);
    }
    assert(items(r@)[0] == r@[0]@);
}

} // verus!
