//! Where things stand: rows of the prompt, areas, and the parts of both screens.
use vstd::prelude::*;
use vstd::string::*;

use crate::graphemes::{display_width, graphemes, joined};
use crate::layout::{
    at_least_one, at_most, cells, cursor_spot, is_newline, law_rows_break_where_they_must,
    lemma_wrapped_nonempty, overflows, prompt_cursor_spot, prompt_layout, prompt_rows, row_starts,
    row_texts, widths_of, wrapped, PromptLayout, Row,
};
use crate::settings::{FormView, SettingsForm, PROMPT};
use crate::ui::picture::{centered, inside, margin, rounded, Area, Size};
use crate::ui::run::{fits, flight_height, law_screens_are_settled, RunLayout};
use crate::ui::settings::{
    fit_prompt, focus_line, form_height, form_place, form_width, scroll_to, settings_size,
    value_room,
};

verus! {

// ---------------------------------------------------------------------------
// Rows of the prompt
// ---------------------------------------------------------------------------

/// A piece takes the cells of its width, and one if it has none. No prompt is narrower than one
/// cell, and no cursor stands behind the end.
pub proof fn law_cells_and_limits(width: usize, n: nat, max: nat)
    ensures
        width > 0 ==> cells(width) == width,
        width == 0 ==> cells(width) == 1,
        n > 0 ==> at_least_one(n) == n,
        at_least_one(0) == 1,
        n <= max ==> at_most(n, max) == n,
        n >= max ==> at_most(n, max) == max,
{
}

proof fn lemma_rows_keep(
    pieces: Seq<Seq<char>>,
    widths: Seq<usize>,
    width: nat,
    j: nat,
    k: nat,
)
    requires
        j <= k <= pieces.len(),
    ensures
        ({
            let early = wrapped(pieces, widths, width, j);
            let late = wrapped(pieces, widths, width, k);
            &&& 0 < early.len() <= late.len()
            &&& forall|i: int| 0 <= i < early.len() - 1 ==> #[trigger] late[i] == early[i]
            &&& late[early.len() - 1].start == early.last().start
            &&& forall|i: int| early.len() <= i < late.len() ==> (#[trigger] late[i]).start >= j
        }),
    decreases k,
{
    lemma_wrapped_nonempty(pieces, widths, width, j);
    if j < k {
        lemma_wrapped_nonempty(pieces, widths, width, (k - 1) as nat);
        lemma_rows_keep(pieces, widths, width, j, (k - 1) as nat);
    }
}

/// The cursor is on the row that holds the piece behind it, or on the last one at the end of the
/// text, and what is before it on that row are the pieces between the start of the row and the
/// cursor.
pub proof fn law_cursor_is_on_the_row_of_its_piece(
    pieces: Seq<Seq<char>>,
    widths: Seq<usize>,
    width: nat,
    cursor: nat,
)
    requires
        cursor <= pieces.len(),
    ensures
        ({
            let rows = wrapped(pieces, widths, width, pieces.len());
            let (row, before) = cursor_spot(pieces, widths, width, cursor);
            &&& row < rows.len()
            &&& rows[row as int].start <= cursor
            &&& row + 1 < rows.len() ==> cursor < rows[row as int + 1].start
            &&& before == joined(pieces.subrange(rows[row as int].start as int, cursor as int))
        }),
{
    let rows = wrapped(pieces, widths, width, pieces.len());
    let early = wrapped(pieces, widths, width, cursor);
    lemma_wrapped_nonempty(pieces, widths, width, cursor);
    law_rows_break_where_they_must(pieces, widths, width, cursor, early.len() - 1);
    let (row, before) = cursor_spot(pieces, widths, width, cursor);
    if cursor < pieces.len() {
        lemma_rows_keep(pieces, widths, width, cursor + 1, pieces.len());
        let next = wrapped(pieces, widths, width, cursor + 1);
        let piece = pieces[cursor as int];
        if is_newline(piece) {
            assert(rows[row as int] == next[row as int]);
        } else if overflows(early.last(), cells(widths[cursor as int]), width) {
            assert(pieces.subrange(cursor as int, cursor as int) =~= Seq::<Seq<char>>::empty());
            assert(joined(Seq::<Seq<char>>::empty()) =~= Seq::<char>::empty());
        } else {
            assert(next.last().start == early.last().start);
        }
    }
}

/// The prompt is wrapped by its clusters and their widths, at the width of the editor, and the
/// cursor stands before the cluster of its number.
pub proof fn law_prompts_are_wrapped_by_clusters(value: Seq<char>, cursor: nat, width: nat)
    ensures
        ({
            let pieces = graphemes(value);
            let room = if width == 0 {
                1
            } else {
                width
            };
            let at = if cursor <= pieces.len() {
                cursor
            } else {
                pieces.len()
            };
            &&& prompt_rows(value, width) == wrapped(
                pieces,
                widths_of(pieces),
                room,
                pieces.len(),
            )
            &&& prompt_cursor_spot(value, cursor, width) == cursor_spot(
                pieces,
                widths_of(pieces),
                room,
                at,
            )
            &&& widths_of(pieces).len() == pieces.len()
            &&& forall|i: int|
                0 <= i < pieces.len() ==> #[trigger] widths_of(pieces)[i] == display_width(
                    pieces[i],
                )
        }),
{
}

/// The texts and the starts of rows are those of the rows, in their order.
pub proof fn law_texts_and_starts_of_rows(rows: Seq<Row>, i: int)
    requires
        0 <= i < rows.len(),
    ensures
        row_texts(rows).len() == rows.len() && row_texts(rows)[i] == rows[i].text,
        row_starts(rows).len() == rows.len() && row_starts(rows)[i] == rows[i].start,
{
}

/// A layout has the texts and starts of all rows, and the column of the cursor in clusters.
pub proof fn law_layouts_show_the_prompt(
    value: &str,
    cursor: usize,
    width: usize,
    r: PromptLayout,
    i: int,
)
    requires
        call_ensures(prompt_layout, (value, cursor, width), r),
        0 <= i < prompt_rows(value@, width as nat).len(),
    ensures
        ({
            let rows = prompt_rows(value@, width as nat);
            let spot = prompt_cursor_spot(value@, cursor as nat, width as nat);
            &&& r.rows@.len() == rows.len() && r.row_starts@.len() == rows.len()
            &&& r.rows@[i]@ == rows[i].text
            &&& r.row_starts@[i] == rows[i].start
            &&& r.cursor_row == spot.0
            &&& r.cursor_column == graphemes(spot.1).len()
        }),
{
    let rows = prompt_rows(value@, width as nat);
    let shown = crate::graphemes::texts(r.rows@);
    let starts = crate::layout::nats(r.row_starts@);
    assert(shown.len() == rows.len());
    assert(starts.len() == rows.len());
    assert(shown[i] == r.rows@[i]@);
    assert(shown[i] == rows[i].text);
    assert(starts[i] == r.row_starts@[i] as nat);
    assert(starts[i] == rows[i].start);
}

// ---------------------------------------------------------------------------
// Areas
// ---------------------------------------------------------------------------

/// Inside a border is one cell less on every side, and nothing where there is no room for both
/// sides. Where an area ends past the largest position, the inside starts at that at the latest.
pub proof fn law_borders_are_one_cell_wide(area: Area)
    ensures
        ({
            let inner = inside(area);
            &&& area.width >= 2 ==> inner.width == area.width - 2
            &&& area.width < 2 ==> inner.width == 0
            &&& area.height >= 2 ==> inner.height == area.height - 2
            &&& area.height < 2 ==> inner.height == 0
            &&& area.x < u16::MAX && area.width > 0 ==> inner.x == area.x + 1
            &&& area.x == u16::MAX || area.width == 0 ==> inner.x == area.x
            &&& area.y < u16::MAX && area.height > 0 ==> inner.y == area.y + 1
            &&& area.y == u16::MAX || area.height == 0 ==> inner.y == area.y
        }),
{
}

/// A part in the middle has its size if there is room, and all of it if there is not. The cells
/// on its two sides differ by one at most.
pub proof fn law_parts_in_the_middle(n: u16, start: u16, length: u16)
    requires
        start + length <= u16::MAX,
    ensures
        ({
            let (first, len) = centered(Size::Cells(n), start, length);
            let before = first - start;
            let after = length - before - len;
            &&& n <= length ==> len == n
            &&& n > length ==> len == length
            &&& 0 <= before && 0 <= after
            &&& before == after || before == after + 1
        }),
{
}

/// A part in the middle with a share of the room has that share, to a cell, and the same on both
/// sides, to a cell.
pub proof fn law_shares_in_the_middle(p: u16, start: u16, length: u16)
    requires
        start + length <= u16::MAX,
        p <= 100,
        p % 2 == 0,
    ensures
        ({
            let (first, len) = centered(Size::Percent(p), start, length);
            let before = first - start;
            let after = length - before - len;
            &&& 0 <= before && 0 <= after && 0 <= len
            &&& -100 <= 100 * len - p * length <= 100
            &&& -1 <= before - after <= 1
        }),
{
    let room = length as int;
    let m = margin(Size::Percent(p), room);
    let h = (100 - p) / 2;
    assert(m == h * room) by (nonlinear_arith)
        requires
            m == (100 - p) * room / 2,
            h == (100 - p) / 2,
            (100 - p) == 2 * h,
    ;
    assert(0 <= h * room <= 50 * room) by (nonlinear_arith)
        requires
            0 <= h <= 50,
            0 <= room,
    ;
    assert(100 * room - 2 * (h * room) == p * room) by (nonlinear_arith)
        requires
            (100 - p) == 2 * h,
    ;
    let a = rounded(m);
    let b = rounded(100 * room - m);
    assert(100 * a - 50 <= m <= 100 * a + 50);
    assert(100 * b - 50 <= 100 * room - m <= 100 * b + 50);
}

/// The popup is in the middle of the screen, half as high and seven tenths as wide.
pub proof fn law_popup_is_in_the_middle(layout: RunLayout, area: Area, workers: usize)
    requires
        fits(layout, area, workers),
        layout is Full,
        area.x + area.width <= u16::MAX,
        area.y + area.height <= u16::MAX,
    ensures
        ({
            let popup = layout->popup;
            &&& area.x <= popup.x && popup.x + popup.width <= area.x + area.width
            &&& area.y <= popup.y && popup.y + popup.height <= area.y + area.height
            &&& -100 <= 100 * popup.height - 50 * area.height <= 100
            &&& -100 <= 100 * popup.width - 70 * area.width <= 100
        }),
{
    law_shares_in_the_middle(50, area.y, area.height);
    law_shares_in_the_middle(70, area.x, area.width);
}

// ---------------------------------------------------------------------------
// The run screen
// ---------------------------------------------------------------------------

/// On a screen that is high enough, below 80 columns progress takes four rows and the counters
/// five below it. From there on both take five, side by side: half of the columns each below 100,
/// and 55 of 100 for progress from there on. The in-flight box takes a row for each worker and
/// its border, from 24 rows on. One row is the footer's, and the log has what is left.
pub proof fn law_sizes_of_the_parts(layout: RunLayout, area: Area, workers: usize)
    requires
        fits(layout, area, workers),
        area.x + area.width <= u16::MAX,
        area.y + area.height <= u16::MAX,
        1 <= workers <= 64,
        area.height >= 11,
        area.height >= 24 ==> area.height >= 17 + workers,
        area.height < 24 ==> area.height >= 15,
    ensures
        layout matches RunLayout::Full { progress, counters, in_flight, log, footer, .. } && {
            let inner = inside(area);
            let above = if area.width < 80 {
                9int
            } else {
                5
            };
            let busy = if area.height >= 24 {
                workers + 2
            } else {
                0
            };
            &&& area.width < 80 ==> progress.height == 4
            &&& area.width >= 80 ==> progress.height == 5
            &&& counters.height == 5
            &&& in_flight matches Some(f) ==> f.height == busy
            &&& in_flight is Some <==> area.height >= 24
            &&& footer.height == 1
            &&& log.height == inner.height - above - busy - 1
            &&& 80 <= area.width < 100 ==> -1 <= 2 * progress.width - inner.width <= 1
            &&& area.width >= 100 ==> -50 <= 100 * progress.width - 55 * inner.width <= 50
            &&& area.width >= 80 ==> progress.width + counters.width == inner.width
        },
{
    law_screens_are_settled(area, workers);
}

/// The in-flight box has a row for each worker and its border; no workers count as one.
pub proof fn law_height_of_the_in_flight_box(workers: usize)
    ensures
        1 <= workers <= 65535 ==> flight_height(workers) == workers + 2,
        flight_height(0) == 3,
{
}

/// On a low screen there are a bar in the first row inside the frame and the footer in the last.
pub proof fn law_parts_of_a_low_screen(layout: RunLayout, area: Area, workers: usize)
    requires
        fits(layout, area, workers),
        area.y + area.height <= u16::MAX,
        4 <= area.height <= 10,
    ensures
        layout matches RunLayout::Tiny { bar, footer } && {
            let inner = inside(area);
            &&& bar.y == inner.y && bar.height == 1
            &&& footer.height == 1 && footer.y + 1 == inner.y + inner.height
        },
{
    law_screens_are_settled(area, workers);
}

// ---------------------------------------------------------------------------
// The settings screen
// ---------------------------------------------------------------------------

/// The form likes a row for each of its eleven fields and nine more, and three more for the
/// prompt while it is edited. It asks for two columns less than the screen has, but for 40 to 78.
pub proof fn law_size_of_the_form(
    form: &SettingsForm,
    area: Area,
    r: (u16, u16),
)
    requires
        form@.wf(),
        call_ensures(settings_size, (form, area), r),
    ensures
        ({
            let likes = if form.focused == PROMPT {
                23int
            } else {
                20
            };
            &&& area.height >= likes ==> r.0 == likes
            &&& area.height < likes ==> r.0 == area.height
            &&& 42 <= area.width <= 80 ==> r.1 == area.width - 2
            &&& area.width < 42 ==> r.1 == 40
            &&& area.width > 80 ==> r.1 == 78
        }),
{
}

/// The form is in the middle of the screen and inside it.
pub proof fn law_form_is_in_the_middle(form: FormView, area: Area)
    requires
        form.wf(),
        area.x + area.width <= u16::MAX,
        area.y + area.height <= u16::MAX,
    ensures
        ({
            let place = form_place(form, area);
            let left = place.x - area.x;
            let right = area.width - left - place.width;
            let top = place.y - area.y;
            let bottom = area.height - top - place.height;
            &&& left >= 0 && right >= 0 && (left == right || left == right + 1)
            &&& top >= 0 && bottom >= 0 && (top == bottom || top == bottom + 1)
            &&& area.height >= form_height(form) ==> place.height == form_height(form)
            &&& area.width >= form_width(area) ==> place.width == form_width(area)
        }),
{
    let high = if form_height(form) <= area.height {
        form_height(form) as u16
    } else {
        area.height
    };
    law_parts_in_the_middle(high, area.y, area.height);
    law_parts_in_the_middle(form_width(area) as u16, area.x, area.width);
}

/// A value has what 34 cells of mark, label and hint leave of the row.
pub proof fn law_room_for_values(width: nat)
    ensures
        width >= 34 ==> value_room(width) == width - 34,
        width < 34 ==> value_room(width) == 0,
{
}

/// A form that is higher than its box scrolls just so far that the line of the focus is the last
/// one shown, and not at all while that is among the first.
pub proof fn law_scrolls_no_further_than_needed(focus: nat, lines: nat, height: nat)
    requires
        focus < lines,
        height > 0,
    ensures
        focus < height ==> scroll_to(focus, lines, height) == 0,
        focus >= height ==> scroll_to(focus, lines, height) + height == focus + 1,
{
}

/// The line of the focus is that of the field, and in the prompt that of the cursor: of a prompt
/// with more than four rows the last one shown.
pub proof fn law_line_of_the_focus(form: FormView, room: nat)
    ensures
        form.focused != PROMPT ==> focus_line(form, room) == form.focused,
        form.focused == PROMPT ==> {
            let row = prompt_cursor_spot(form.prompt(), form.prompt_cursor, room + 1).0;
            &&& row <= 3 ==> focus_line(form, room) == PROMPT + row
            &&& row > 3 ==> focus_line(form, room) == PROMPT + 3
        },
{
}

/// The editor of the prompt is told the width that it is drawn with: the cursor moves by the
/// rows that are shown.
pub proof fn law_editor_has_the_width_it_is_drawn_with(form: &mut SettingsForm, screen: Area)
    requires
        old(form)@.wf(),
        call_ensures(fit_prompt, (form, screen), ()),
    ensures
        final(form)@.prompt_width == value_room(
            inside(form_place(old(form)@, screen)).width as nat,
        ) + 1,
        (FormView { prompt_width: old(form)@.prompt_width, ..final(form)@ }) == old(form)@,
{
}

} // verus!
