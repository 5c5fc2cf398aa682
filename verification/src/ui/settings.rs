//! The settings form screen.
use vstd::prelude::*;
use vstd::string::*;

use crate::config::ThemeName;
use crate::graphemes::{
    graphemes, lemma_joined_prefix, offset_of, piece_offset, split_graphemes, texts,
};
use crate::layout::{
    at_least_one, at_most, law_cursor_is_on_a_row, prompt_cursor_spot, prompt_layout, prompt_rows,
    row_texts, widths_of,
};
use crate::settings::{
    outcome_view, FormView, SettingsForm, TestOutcome, IMMICH_KEY, LLM_KEY, PROMPT, TEXT_FIELDS,
    THEME,
};
use crate::text::{cat, chars_of, pad_right, padded_right, shortened, string_of};
use crate::theme::Theme;
use crate::ui::picture::{
    inside, items, less, line_views, middle_of, one_line, put, seg, smaller, Area, Item, ItemView,
    LineView, Size, TextLine,
};
use crate::ui::run::{hint, key_hint, middle};
use crate::ui::truncate;

verus! {

pub const LABEL_WIDTH: usize = 19;

/// How many rows of the prompt are shown while it is edited.
pub const PROMPT_ROWS: usize = 4;

// ---------------------------------------------------------------------------
// What is shown
// ---------------------------------------------------------------------------

/// The cells for a value in a form of this width: what mark, label and hint leave.
pub open spec fn value_room(width: nat) -> nat {
    less(width as int, 2 + LABEL_WIDTH + 13) as nat
}

/// The mark and the label at the start of a row.
pub open spec fn row_start(label: Seq<char>, focused: bool, theme: Theme) -> LineView {
    seq![
        seg(
            if focused {
                "▸ "@
            } else {
                "  "@
            },
            theme.accent,
        ),
        seg(padded_right(label, LABEL_WIDTH as nat), theme.label),
    ]
}

/// A field in one row: its value, cut to the room there is, with a cursor when focused, and
/// behind a secret how to show or hide it.
pub open spec fn field_line(form: FormView, i: int, room: nat, theme: Theme) -> LineView {
    let focused = i == form.focused;
    let cut = shortened(form.shown(i), room);
    let value = if focused {
        cut.push('▏')
    } else {
        cut
    };
    let line = row_start(form.fields[i].label, focused, theme).push(
        seg(
            padded_right(value, room + 1),
            if focused {
                theme.accent
            } else {
                theme.value
            },
        ),
    );
    if i == IMMICH_KEY || i == LLM_KEY {
        line.push(
            seg(
                if form.show_secrets {
                    "ctrl-r hide"@
                } else {
                    "ctrl-r show"@
                },
                theme.dim,
            ),
        )
    } else {
        line
    }
}

/// The first row of the prompt that is shown, so that the row of the cursor is among them.
pub open spec fn first_prompt_row(cursor_row: nat) -> nat {
    less(cursor_row as int, PROMPT_ROWS - 1) as nat
}

/// A row of the prompt, with the cursor in it if it is there.
pub open spec fn prompt_row_text(
    row: Seq<char>,
    index: nat,
    cursor_row: nat,
    cursor_column: nat,
) -> Seq<char> {
    if index == cursor_row {
        row.insert(piece_offset(graphemes(row), cursor_column) as int, '▏')
    } else {
        row
    }
}

/// Row `index` of the prompt; the first one shown has the label.
pub open spec fn prompt_line(
    form: FormView,
    text: Seq<char>,
    first: bool,
    room: nat,
    theme: Theme,
) -> LineView {
    row_start(
        if first {
            form.fields[PROMPT as int].label
        } else {
            seq![]
        },
        first,
        theme,
    ).push(seg(padded_right(text, room + 1), theme.accent))
}

/// The rows of the prompt while it is edited, wrapped at the room there is and one cell.
pub open spec fn prompt_lines(form: FormView, room: nat, theme: Theme) -> Seq<LineView> {
    let rows = row_texts(prompt_rows(form.prompt(), room + 1));
    let spot = prompt_cursor_spot(form.prompt(), form.prompt_cursor, room + 1);
    let column = graphemes(spot.1).len();
    let first = first_prompt_row(spot.0);
    let shown = smaller(rows.len() - first, PROMPT_ROWS as int) as nat;
    Seq::new(
        shown,
        |i: int|
            prompt_line(
                form,
                prompt_row_text(rows[first + i], (first + i) as nat, spot.0, column),
                i == 0,
                room,
                theme,
            ),
    )
}

/// The rows of the fields before `k`.
pub open spec fn field_lines(form: FormView, k: nat, room: nat, theme: Theme) -> Seq<LineView>
    decreases k,
{
    if k == 0 {
        seq![]
    } else {
        let before = field_lines(form, (k - 1) as nat, room, theme);
        if k - 1 == PROMPT && form.focused == PROMPT {
            before + prompt_lines(form, room, theme)
        } else {
            before.push(field_line(form, k - 1, room, theme))
        }
    }
}

/// One choice of a selector, marked if it is the chosen one.
pub open spec fn choice(label: Seq<char>, chosen: bool, focused: bool, theme: Theme) -> LineView {
    seq![
        seg(
            if chosen {
                "(●) "@ + label
            } else {
                "( ) "@ + label
            },
            if !chosen {
                theme.dim
            } else if focused {
                theme.accent
            } else {
                theme.value
            },
        ),
    ]
}

/// A selector of two choices.
pub open spec fn selector_line(
    label: Seq<char>,
    left: Seq<char>,
    right: Seq<char>,
    right_chosen: bool,
    focused: bool,
    theme: Theme,
) -> LineView {
    let line = row_start(label, focused, theme) + choice(left, !right_chosen, focused, theme)
        + seq![seg("   "@, theme.dim)] + choice(right, right_chosen, focused, theme);
    if focused {
        line.push(seg("   ← →"@, theme.dim))
    } else {
        line
    }
}

pub open spec fn theme_selector(form: FormView, theme: Theme) -> LineView {
    selector_line(
        "theme"@,
        ThemeName::Btop.name(),
        ThemeName::Mono.name(),
        form.theme == ThemeName::Mono,
        form.focused == THEME,
        theme,
    )
}

/// What a server answered to the connection test.
pub open spec fn outcome_line(label: Seq<char>, outcome: TestOutcome, theme: Theme) -> LineView {
    match outcome {
        Ok(text) => seq![
            seg(label + " "@, theme.label),
            seg("✓ "@, theme.ok),
            seg(shortened(text, 20) + "   "@, theme.value),
        ],
        Err(text) => seq![
            seg(label + " "@, theme.label),
            seg("✗ "@, theme.err),
            seg(shortened(text, 28) + "   "@, theme.err),
        ],
    }
}

/// The connection test: how to run it, and how it went.
pub open spec fn test_results(form: FormView, theme: Theme) -> LineView {
    let start = seq![
        seg("  ctrl-t "@, theme.accent),
        seg("test connections   "@, theme.label),
    ];
    if form.testing {
        start.push(seg("testing…"@, theme.warn))
    } else {
        match form.test_result {
            Some((immich, llm)) => start + outcome_line("immich"@, immich, theme) + outcome_line(
                "llm"@,
                llm,
                theme,
            ),
            None => start,
        }
    }
}

pub open spec fn message_line(form: FormView, theme: Theme) -> LineView {
    match form.message {
        Some(message) => seq![seg("  "@ + message, theme.err)],
        None => seq![],
    }
}

/// The lines of the form in a box of this width inside.
pub open spec fn form_lines(form: FormView, width: nat, theme: Theme) -> Seq<LineView> {
    field_lines(form, TEXT_FIELDS as nat, value_room(width), theme) + seq![
        theme_selector(form, theme),
        seq![],
        test_results(form, theme),
        message_line(form, theme),
    ]
}

/// The line that the focus is on: of the prompt, the row of the cursor.
pub open spec fn focus_line(form: FormView, room: nat) -> nat {
    if form.focused == PROMPT {
        let cursor_row = prompt_cursor_spot(form.prompt(), form.prompt_cursor, room + 1).0;
        (PROMPT + cursor_row - first_prompt_row(cursor_row)) as nat
    } else {
        form.focused
    }
}

/// How far a form of `lines` lines scrolls in `height` rows to show the line of the focus.
pub open spec fn scroll_to(focus: nat, lines: nat, height: nat) -> nat {
    smaller(less(focus as int, less(height as int, 1)), less(lines as int, height as int)) as nat
}

/// The key hints of the form.
pub open spec fn form_hints(theme: Theme) -> LineView {
    key_hint("ctrl-s"@, "save"@, true, theme) + key_hint("ctrl-t"@, "test"@, true, theme)
        + key_hint("← →"@, "theme"@, true, theme) + key_hint("ctrl-u"@, "clear"@, true, theme)
        + key_hint("esc"@, "back"@, true, theme)
}

/// The settings screen with its box in `area`.
pub open spec fn settings_picture_of(form: FormView, theme: Theme, area: Area) -> Seq<ItemView> {
    let inner = inside(area);
    let lines = form_lines(form, inner.width as nat, theme);
    let height = less(inner.height as int, 1);
    let focus = focus_line(form, value_room(inner.width as nat));
    seq![
        ItemView::Frame {
            area,
            border: theme.border,
            left: seq![seg(" settings "@, theme.title)],
            right: seq![],
        },
        ItemView::Lines {
            area: Area { height: height as u16, ..inner },
            lines,
            scroll: scroll_to(focus, lines.len(), height as nat),
        },
        ItemView::Lines {
            area: Area {
                y: smaller(inner.y + height, u16::MAX as int) as u16,
                height: 1,
                ..inner
            },
            lines: seq![form_hints(theme)],
            scroll: 0,
        },
    ]
}

// ---------------------------------------------------------------------------
// Building it
// ---------------------------------------------------------------------------

fn start_row(label: &str, focused: bool, theme: &Theme) -> (r: TextLine)
    ensures
        r@ == row_start(label@, focused, *theme),
{
    let r = TextLine::new().text(
        if focused {
            "▸ "
        } else {
            "  "
        },
        theme.accent,
    ).string(pad_right(label, LABEL_WIDTH), theme.label);
    assert(r@ =~= row_start(label@, focused, *theme));
    r
}

fn one_field(form: &SettingsForm, i: usize, room: usize, theme: &Theme) -> (r: TextLine)
    requires
        i < form.fields@.len(),
        room < usize::MAX,
    ensures
        r@ == field_line(form@, i as int, room as nat, *theme),
{
    let focused = i == form.focused;
    let mut value = truncate(form.display_value(i).as_str(), room);
    if focused {
        value.push('▏');
    }
    let style = if focused {
        theme.accent
    } else {
        theme.value
    };
    let line = start_row(form.fields[i].label, focused, theme).string(
        pad_right(value.as_str(), room + 1),
        style,
    );
    if i == IMMICH_KEY || i == LLM_KEY {
        line.text(
            if form.show_secrets {
                "ctrl-r hide"
            } else {
                "ctrl-r show"
            },
            theme.dim,
        )
    } else {
        line
    }
}

fn with_cursor(row: &str, column: usize) -> (r: String)
    ensures
        r@ == row@.insert(piece_offset(graphemes(row@), column as nat) as int, '▏'),
{
    let v = chars_of(row);
    let total: usize = v.len();
    let pieces = split_graphemes(row);
    let at = offset_of(&pieces, column);
    proof {
        if column < texts(pieces@).len() {
            lemma_joined_prefix(texts(pieces@), column as int);
        }
    }
    let mut r = string_of(&v, 0, at);
    r.push('▏');
    r.append(string_of(&v, at, total).as_str());
    assert(r@ =~= row@.insert(at as int, '▏'));
    r
}

fn first_row(cursor_row: usize) -> (r: usize)
    ensures
        r == first_prompt_row(cursor_row as nat),
{
    if cursor_row >= PROMPT_ROWS - 1 {
        cursor_row - (PROMPT_ROWS - 1)
    } else {
        0
    }
}

fn prompt_editor(form: &SettingsForm, room: usize, theme: &Theme) -> (r: (Vec<TextLine>, usize))
    requires
        form@.wf(),
        room < usize::MAX,
        form.focused == PROMPT,
    ensures
        line_views(r.0@) == prompt_lines(form@, room as nat, *theme),
        PROMPT + r.1 == focus_line(form@, room as nat),
        r.0@.len() <= PROMPT_ROWS,
        r.1 < PROMPT_ROWS,
{
    let value = form.fields[PROMPT].value.as_str();
    let layout = prompt_layout(value, form.prompt_cursor, room + 1);
    let ghost rows = row_texts(prompt_rows(form@.prompt(), (room + 1) as nat));
    proof {
        let ps = graphemes(form@.prompt());
        law_cursor_is_on_a_row(
            ps,
            widths_of(ps),
            at_least_one((room + 1) as nat),
            at_most(form@.prompt_cursor, ps.len()),
        );
        assert(texts(layout.rows@) == rows);
        assert(rows.len() == layout.rows@.len());
    }
    let first = first_row(layout.cursor_row);
    let count: usize = if layout.rows.len() - first <= PROMPT_ROWS {
        layout.rows.len() - first
    } else {
        PROMPT_ROWS
    };
    let ghost all = prompt_lines(form@, room as nat, *theme);
    let mut lines: Vec<TextLine> = Vec::new();
    let mut i: usize = 0;
    assert(line_views(lines@) =~= all.take(0));
    while i < count
        invariant
            i <= count,
            form@.wf(),
            room < usize::MAX,
            first + count <= layout.rows@.len(),
            layout.shows(form@.prompt(), form@.prompt_cursor, (room + 1) as nat),
            rows == row_texts(prompt_rows(form@.prompt(), (room + 1) as nat)),
            texts(layout.rows@) == rows,
            first == first_prompt_row(layout.cursor_row as nat),
            all == prompt_lines(form@, room as nat, *theme),
            all.len() == count,
            line_views(lines@) == all.take(i as int),
            lines@.len() == i,
        decreases count - i,
    {
        let ghost before = lines@;
        let index = first + i;
        let row = layout.rows[index].as_str();
        assert(rows[index as int] == row@);
        let text = if index == layout.cursor_row {
            with_cursor(row, layout.cursor_column)
        } else {
            row.to_owned()
        };
        let label = if i == 0 {
            form.fields[PROMPT].label
        } else {
            ""
        };
        proof {
            reveal_strlit("");
            assert(""@ =~= Seq::<char>::empty());
        }
        let line = start_row(label, i == 0, theme).string(
            pad_right(text.as_str(), room + 1),
            theme.accent,
        );
        assert(all[i as int] == line@);
        lines.push(line);
        assert(line_views(lines@) =~= line_views(before).push(line@));
        assert(all.take(i + 1) =~= all.take(i as int).push(all[i as int]));
        i += 1;
    }
    assert(all.take(i as int) =~= all);
    (lines, layout.cursor_row - first)
}

fn all_fields(form: &SettingsForm, room: usize, theme: &Theme) -> (r: (Vec<TextLine>, usize))
    requires
        form@.wf(),
        room < usize::MAX,
    ensures
        line_views(r.0@) == field_lines(form@, TEXT_FIELDS as nat, room as nat, *theme),
        r.1 == focus_line(form@, room as nat),
        r.0@.len() <= TEXT_FIELDS + PROMPT_ROWS,
{
    let mut lines: Vec<TextLine> = Vec::new();
    let mut focus = form.focused;
    let mut i: usize = 0;
    assert(line_views(lines@) =~= Seq::<LineView>::empty());
    while i < TEXT_FIELDS
        invariant
            i <= TEXT_FIELDS,
            form@.wf(),
            room < usize::MAX,
            line_views(lines@) == field_lines(form@, i as nat, room as nat, *theme),
            i <= PROMPT ==> lines@.len() <= i,
            lines@.len() <= i + PROMPT_ROWS,
            form.focused != PROMPT || i <= PROMPT ==> focus == form.focused,
            form.focused == PROMPT && i > PROMPT ==> focus == focus_line(form@, room as nat),
        decreases TEXT_FIELDS - i,
    {
        let ghost before = lines@;
        if i == PROMPT && form.focused == PROMPT {
            let (editor, row) = prompt_editor(form, room, theme);
            let mut editor = editor;
            let ghost added = editor@;
            lines.append(&mut editor);
            focus = PROMPT + row;
            assert(line_views(lines@) =~= line_views(before) + line_views(added));
        } else {
            let line = one_field(form, i, room, theme);
            lines.push(line);
            assert(line_views(lines@) =~= line_views(before).push(line@));
        }
        i += 1;
    }
    (lines, focus)
}

fn put_choice(
    line: TextLine,
    label: &str,
    chosen: bool,
    focused: bool,
    theme: &Theme,
) -> (r: TextLine)
    ensures
        r@ == line@ + choice(label@, chosen, focused, *theme),
{
    let style = if !chosen {
        theme.dim
    } else if focused {
        theme.accent
    } else {
        theme.value
    };
    let r = line.string(
        cat(
            if chosen {
                "(●) "
            } else {
                "( ) "
            },
            label,
        ),
        style,
    );
    assert(r@ =~= line@ + choice(label@, chosen, focused, *theme));
    r
}

fn selector(
    label: &str,
    left: &str,
    right: &str,
    right_chosen: bool,
    focused: bool,
    theme: &Theme,
) -> (r: TextLine)
    ensures
        r@ == selector_line(label@, left@, right@, right_chosen, focused, *theme),
{
    let line = start_row(label, focused, theme);
    let line = put_choice(line, left, !right_chosen, focused, theme);
    let line = line.text("   ", theme.dim);
    let ghost gap = line@;
    assert(gap =~= row_start(label@, focused, *theme) + choice(
        left@,
        !right_chosen,
        focused,
        *theme,
    ) + seq![seg("   "@, theme.dim)]);
    let line = put_choice(line, right, right_chosen, focused, theme);
    if focused {
        line.text("   ← →", theme.dim)
    } else {
        line
    }
}

/// The theme selector.
pub fn theme_line(form: &SettingsForm, theme: &Theme) -> (r: TextLine)
    ensures
        r@ == theme_selector(form@, *theme),
{
    selector(
        "theme",
        ThemeName::Btop.label(),
        ThemeName::Mono.label(),
        form.theme == ThemeName::Mono,
        form.focused == THEME,
        theme,
    )
}

fn put_outcome(
    line: TextLine,
    label: &str,
    outcome: &Result<String, String>,
    theme: &Theme,
) -> (r: TextLine)
    ensures
        r@ == line@ + outcome_line(label@, outcome_view(*outcome), *theme),
{
    let start = line.string(cat(label, " "), theme.label);
    let r = match outcome {
        Ok(text) => start.text("✓ ", theme.ok).string(
            cat(truncate(text.as_str(), 20).as_str(), "   "),
            theme.value,
        ),
        Err(text) => start.text("✗ ", theme.err).string(
            cat(truncate(text.as_str(), 28).as_str(), "   "),
            theme.err,
        ),
    };
    assert(r@ =~= line@ + outcome_line(
        label@,
        outcome_view(*outcome),
        *theme,
    ));
    r
}

/// The connection test: how to run it, and how it went.
pub fn test_line(form: &SettingsForm, theme: &Theme) -> (r: TextLine)
    ensures
        r@ == test_results(form@, *theme),
{
    let line = TextLine::new().text("  ctrl-t ", theme.accent).text(
        "test connections   ",
        theme.label,
    );
    assert(line@ =~= seq![
        seg("  ctrl-t "@, theme.accent),
        seg("test connections   "@, theme.label),
    ]);
    if form.testing {
        return line.text("testing…", theme.warn);
    }
    match &form.test_result {
        Some((immich, llm)) => {
            let line = put_outcome(line, "immich", immich, theme);
            put_outcome(line, "llm", llm, theme)
        },
        None => line,
    }
}

fn message(form: &SettingsForm, theme: &Theme) -> (r: TextLine)
    ensures
        r@ == message_line(form@, *theme),
{
    match &form.message {
        Some(message) => {
            let r = TextLine::new().string(cat("  ", message.as_str()), theme.err);
            assert(r@ =~= message_line(form@, *theme));
            r
        },
        None => TextLine::new(),
    }
}

/// The key hints of the form.
pub fn form_footer(theme: &Theme) -> (r: TextLine)
    ensures
        r@ == form_hints(*theme),
{
    let line = TextLine::new();
    assert(line@ + key_hint("ctrl-s"@, "save"@, true, *theme) =~= key_hint(
        "ctrl-s"@,
        "save"@,
        true,
        *theme,
    ));
    let line = hint(line, "ctrl-s", "save", true, theme);
    let line = hint(line, "ctrl-t", "test", true, theme);
    let line = hint(line, "← →", "theme", true, theme);
    let line = hint(line, "ctrl-u", "clear", true, theme);
    hint(line, "esc", "back", true, theme)
}

/// The cells for a value in a form of this width inside.
pub fn value_width(width: u16) -> (r: usize)
    ensures
        r == value_room(width as nat),
{
    let width = width as usize;
    if width >= 2 + LABEL_WIDTH + 13 {
        width - (2 + LABEL_WIDTH + 13)
    } else {
        0
    }
}

fn scroll_rows(focus: usize, lines: usize, height: usize) -> (r: usize)
    ensures
        r == scroll_to(focus as nat, lines as nat, height as nat),
{
    let max_scroll: usize = if lines >= height {
        lines - height
    } else {
        0
    };
    let visible: usize = if height >= 1 {
        height - 1
    } else {
        0
    };
    let wanted: usize = if focus >= visible {
        focus - visible
    } else {
        0
    };
    if wanted <= max_scroll {
        wanted
    } else {
        max_scroll
    }
}

/// The settings screen with its box in `area`.
pub fn settings_picture(form: &SettingsForm, theme: &Theme, area: Area) -> (r: Vec<Item>)
    requires
        form@.wf(),
    ensures
        items(r@) == settings_picture_of(form@, *theme, area),
{
    let inner = area.inner();
    let room = value_width(inner.width);
    let mut picture: Vec<Item> = Vec::new();
    assert(items(picture@) =~= Seq::<ItemView>::empty());
    let left = TextLine::new().text(" settings ", theme.title);
    assert(left@ =~= seq![seg(" settings "@, theme.title)]);
    put(
        &mut picture,
        Item::Frame { area, border: theme.border, left, right: TextLine::new() },
    );
    let (fields, focus) = all_fields(form, room, theme);
    let mut lines = fields;
    let ghost before = lines@;
    lines.push(theme_line(form, theme));
    lines.push(TextLine::new());
    lines.push(test_line(form, theme));
    lines.push(message(form, theme));
    assert(line_views(lines@) =~= form_lines(form@, inner.width as nat, *theme));
    let height: u16 = inner.height.saturating_sub(1);
    let scroll = scroll_rows(focus, lines.len(), height as usize) as u16;
    put(&mut picture, Item::Lines { area: Area { height, ..inner }, lines, scroll });
    let y: u16 = inner.y.saturating_add(height);
    put(
        &mut picture,
        Item::Lines {
            area: Area { y, height: 1, ..inner },
            lines: one_line(form_footer(theme)),
            scroll: 0,
        },
    );
    assert(items(picture@) =~= settings_picture_of(form@, *theme, area));
    picture
}

/// The height that the form would like: a row for each field and nine more, for the selector,
/// the lines below it, the hints and the border, and more for the prompt while it is edited.
pub open spec fn form_height(form: FormView) -> nat {
    form.fields.len() + if form.focused == PROMPT {
        (9 + PROMPT_ROWS - 1) as nat
    } else {
        9
    }
}

/// The width that the form asks for: two cells less than the screen, but 40 to 78.
pub open spec fn form_width(area: Area) -> int {
    if less(area.width as int, 2) < 40 {
        40
    } else {
        smaller(less(area.width as int, 2), 78)
    }
}

/// The size of the form's box in a screen: as high as it likes, within the screen, and 40 to 78
/// cells wide, within two cells of the screen.
pub fn settings_size(form: &SettingsForm, area: Area) -> (r: (u16, u16))
    requires
        form@.wf(),
    ensures
        r.0 == smaller(form_height(form@) as int, area.height as int),
        r.1 == form_width(area),
{
    let wanted: u16 = if form.focused == PROMPT {
        form.fields.len() as u16 + 9 + PROMPT_ROWS as u16 - 1
    } else {
        form.fields.len() as u16 + 9
    };
    let height = if wanted <= area.height {
        wanted
    } else {
        area.height
    };
    let width = area.width.saturating_sub(2);
    let width: u16 = if width < 40 {
        40
    } else if width > 78 {
        78
    } else {
        width
    };
    (height, width)
}

/// Where the form's box stands: in the middle of the screen, with less width than it asks for
/// where the screen has less.
pub open spec fn form_place(form: FormView, area: Area) -> Area {
    middle_of(
        area,
        Size::Cells(smaller(form_height(form) as int, area.height as int) as u16),
        Size::Cells(form_width(area) as u16),
    )
}

/// Finds the place of the form's box in the middle of the screen.
pub(crate) fn settings_layout(form: &SettingsForm, area: Area) -> (r: Area)
    requires
        form@.wf(),
    ensures
        r == form_place(form@, area),
{
    let (height, width) = settings_size(form, area);
    middle(area, Size::Cells(height), Size::Cells(width))
}

/// Tells the prompt editor of a form how many cells it has on a screen, so that the cursor moves
/// by the rows that are shown.
pub fn fit_prompt(form: &mut SettingsForm, screen: Area)
    requires
        old(form)@.wf(),
    ensures
        final(form)@ == (FormView {
            prompt_width: value_room(inside(form_place(old(form)@, screen)).width as nat) + 1,
            ..old(form)@
        }),
{
    let place = settings_layout(form, screen);
    let room = value_width(place.inner().width);
    form.set_prompt_width(room + 1);
}

/// The line of the focus is on the screen, whatever the form has to scroll for it.
pub proof fn law_focus_is_visible(focus: nat, lines: nat, height: nat)
    requires
        focus < lines,
        height > 0,
    ensures
        scroll_to(focus, lines, height) <= focus < scroll_to(focus, lines, height) + height,
        lines <= height ==> scroll_to(focus, lines, height) == 0,
{
}

/// The row of the cursor is among the rows of the prompt that are shown.
pub proof fn law_cursor_row_is_shown(cursor_row: nat)
    ensures
        first_prompt_row(cursor_row) <= cursor_row < first_prompt_row(cursor_row) + PROMPT_ROWS,
{
}

} // verus!
