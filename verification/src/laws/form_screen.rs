//! The settings screen and the themes: texts and styles.
use vstd::prelude::*;
use vstd::string::*;

use crate::config::ThemeName;
use crate::graphemes::{graphemes, piece_offset};
use crate::layout::{prompt_cursor_spot, prompt_rows, row_texts};
use crate::settings::{FormView, TestOutcome, IMMICH_KEY, LLM_KEY, PROMPT, THEME};
use crate::text::{padded_right, shortened};
use crate::theme::{
    bar_gradient, btop_theme, mono_theme, named_theme, Color, Style, Theme, BAR_STOPS,
};
use crate::ui::picture::{inside, Area, ItemView};
use crate::ui::run::key_hint;
use crate::ui::settings::{
    field_line, field_lines, first_prompt_row, focus_line, form_hints, form_lines, message_line,
    outcome_line, prompt_line, prompt_lines, row_start, scroll_to, settings_picture_of,
    test_results, theme_selector, value_room,
};

verus! {

// ---------------------------------------------------------------------------
// Rows
// ---------------------------------------------------------------------------

/// A row starts with a mark, which tells the focus, and the label in nineteen cells.
pub proof fn law_row_starts(label: Seq<char>, focused: bool, theme: Theme)
    ensures
        ({
            let line = row_start(label, focused, theme);
            &&& line.len() == 2
            &&& focused ==> line[0].text == "▸ "@
            &&& !focused ==> line[0].text == "  "@
            &&& line[0].style == theme.accent
            &&& line[1].text == padded_right(label, 19) && line[1].style == theme.label
        }),
{
}

/// The row of a field: its own label and what is drawn of its own value, cut to the room, with a
/// cursor behind it and in the accent style exactly when it has the focus. Behind a key stands
/// how to show or hide it.
pub proof fn law_rows_of_fields(form: FormView, i: int, room: nat, theme: Theme)
    ensures
        ({
            let line = field_line(form, i, room, theme);
            let value = shortened(form.shown(i), room);
            let key = i == IMMICH_KEY || i == LLM_KEY;
            &&& line.take(2) == row_start(form.fields[i].label, form.focused == i, theme)
            &&& form.focused == i ==> line[2].text == padded_right(value.push('▏'), room + 1)
                && line[2].style == theme.accent
            &&& form.focused != i ==> line[2].text == padded_right(value, room + 1)
                && line[2].style == theme.value
            &&& !key ==> line.len() == 3
            &&& key ==> line.len() == 4 && line[3].style == theme.dim
            &&& key && form.show_secrets ==> line[3].text == "ctrl-r hide"@
            &&& key && !form.show_secrets ==> line[3].text == "ctrl-r show"@
        }),
{
    let line = field_line(form, i, room, theme);
    assert(line.take(2) =~= row_start(form.fields[i].label, form.focused == i, theme));
}

/// While the prompt does not have the focus, every field has one row, in the order of the fields.
pub proof fn law_every_field_has_a_row(form: FormView, k: nat, room: nat, theme: Theme)
    requires
        form.focused != PROMPT,
    ensures
        field_lines(form, k, room, theme).len() == k,
        forall|i: int|
            0 <= i < k ==> #[trigger] field_lines(form, k, room, theme)[i] == field_line(
                form,
                i,
                room,
                theme,
            ),
    decreases k,
{
    if k > 0 {
        law_every_field_has_a_row(form, (k - 1) as nat, room, theme);
    }
}

/// The prompt with the focus stands in its place with its own rows: six fields above it, four
/// below.
pub proof fn law_the_editor_stands_in_its_place(form: FormView, room: nat, theme: Theme)
    requires
        form.focused == PROMPT,
    ensures
        ({
            let lines = field_lines(form, 11, room, theme);
            let editor = prompt_lines(form, room, theme);
            let n = editor.len() as int;
            &&& lines.len() == 10 + n
            &&& forall|i: int|
                0 <= i < 6 ==> #[trigger] lines[i] == field_line(form, i, room, theme)
            &&& lines.subrange(6, 6 + n) == editor
            &&& forall|i: int|
                7 <= i < 11 ==> lines[i + n - 1] == #[trigger] field_line(form, i, room, theme)
        }),
{
    reveal_with_fuel(field_lines, 12);
    let lines = field_lines(form, 11, room, theme);
    let editor = prompt_lines(form, room, theme);
    assert(lines.subrange(6, 6 + editor.len() as int) =~= editor);
}

/// Of the prompt up to four rows are shown, the cursor's among them. The first one shown has the
/// label, and the cursor stands in its row before the cluster of its column.
pub proof fn law_rows_of_the_editor(form: FormView, room: nat, theme: Theme)
    ensures
        ({
            let rows = row_texts(prompt_rows(form.prompt(), room + 1));
            let spot = prompt_cursor_spot(form.prompt(), form.prompt_cursor, room + 1);
            let column = graphemes(spot.1).len();
            let first = if spot.0 > 3 {
                spot.0 - 3
            } else {
                0
            };
            let lines = prompt_lines(form, room, theme);
            &&& first_prompt_row(spot.0) == first
            &&& spot.0 < rows.len() ==> {
                &&& lines.len() == if rows.len() - first <= 4 {
                    rows.len() - first
                } else {
                    4
                }
                &&& forall|i: int|
                    0 <= i < lines.len() ==> {
                        let row = rows[first + i];
                        let text = if first + i == spot.0 {
                            row.insert(piece_offset(graphemes(row), column) as int, '▏')
                        } else {
                            row
                        };
                        #[trigger] lines[i] == prompt_line(form, text, i == 0, room, theme)
                    }
            }
        }),
{
}

/// A row of the editor: the label on the first one, and the text in the accent style.
pub proof fn law_one_row_of_the_editor(
    form: FormView,
    text: Seq<char>,
    first: bool,
    room: nat,
    theme: Theme,
)
    ensures
        ({
            let line = prompt_line(form, text, first, room, theme);
            &&& line.len() == 3
            &&& first ==> line.take(2) == row_start(
                form.fields[PROMPT as int].label,
                true,
                theme,
            )
            &&& !first ==> line.take(2) == row_start(seq![], false, theme)
            &&& line[2].text == padded_right(text, room + 1) && line[2].style == theme.accent
        }),
{
    let line = prompt_line(form, text, first, room, theme);
    if first {
        assert(line.take(2) =~= row_start(form.fields[PROMPT as int].label, true, theme));
    } else {
        assert(line.take(2) =~= row_start(seq![], false, theme));
    }
}

// ---------------------------------------------------------------------------
// Below the fields
// ---------------------------------------------------------------------------

/// Exactly one theme is marked, the one that the form has chosen; the selector shows the arrows
/// while it has the focus.
pub proof fn law_the_chosen_theme_is_marked(form: FormView, theme: Theme)
    ensures
        ({
            let line = theme_selector(form, theme);
            let mono = form.theme == ThemeName::Mono;
            let focused = form.focused == THEME;
            &&& line.take(2) == row_start("theme"@, focused, theme)
            &&& line[2].text == if mono {
                "( ) "@ + "btop"@
            } else {
                "(●) "@ + "btop"@
            }
            &&& line[3].text == "   "@ && line[3].style == theme.dim
            &&& line[4].text == if mono {
                "(●) "@ + "mono"@
            } else {
                "( ) "@ + "mono"@
            }
            &&& mono ==> line[2].style == theme.dim
            &&& !mono ==> line[4].style == theme.dim
            &&& mono ==> line[4].style == if focused {
                theme.accent
            } else {
                theme.value
            }
            &&& !mono ==> line[2].style == if focused {
                theme.accent
            } else {
                theme.value
            }
            &&& !focused ==> line.len() == 5
            &&& focused ==> line.len() == 6 && line[5].text == "   ← →"@ && line[5].style
                == theme.dim
        }),
{
    let line = theme_selector(form, theme);
    assert(line.take(2) =~= row_start("theme"@, form.focused == THEME, theme));
}

/// A server that answered is shown with its text, up to twenty cells, and one that did not with
/// its error, up to 28 and in the error style.
pub proof fn law_outcomes(label: Seq<char>, outcome: TestOutcome, theme: Theme)
    ensures
        ({
            let line = outcome_line(label, outcome, theme);
            &&& line.len() == 3
            &&& line[0].text == label + " "@ && line[0].style == theme.label
            &&& outcome matches Ok(text) ==> {
                &&& line[1].text == "✓ "@ && line[1].style == theme.ok
                &&& line[2].text == shortened(text, 20) + "   "@ && line[2].style == theme.value
            }
            &&& outcome matches Err(text) ==> {
                &&& line[1].text == "✗ "@ && line[1].style == theme.err
                &&& line[2].text == shortened(text, 28) + "   "@ && line[2].style == theme.err
            }
        }),
{
}

/// The test line says how to run the test. While it runs it says so, and afterwards how both
/// servers answered, each under its own name.
pub proof fn law_test_line(form: FormView, theme: Theme)
    ensures
        ({
            let line = test_results(form, theme);
            &&& line[0].text == "  ctrl-t "@ && line[0].style == theme.accent
            &&& line[1].text == "test connections   "@ && line[1].style == theme.label
            &&& form.testing ==> line.len() == 3 && line[2].text == "testing…"@ && line[2].style
                == theme.warn
            &&& !form.testing ==> {
                &&& form.test_result is None ==> line.len() == 2
                &&& form.test_result matches Some((immich, llm)) ==> {
                    &&& line.len() == 8
                    &&& line.subrange(2, 5) == outcome_line("immich"@, immich, theme)
                    &&& line.subrange(5, 8) == outcome_line("llm"@, llm, theme)
                }
            }
        }),
{
    let line = test_results(form, theme);
    if !form.testing {
        if let Some((immich, llm)) = form.test_result {
            assert(line.subrange(2, 5) =~= outcome_line("immich"@, immich, theme));
            assert(line.subrange(5, 8) =~= outcome_line("llm"@, llm, theme));
        }
    }
}

/// A message is shown in the error style, and none leaves its line empty. Below the fields come
/// the theme, an empty line, the test and the message.
pub proof fn law_lines_below_the_fields(form: FormView, width: nat, theme: Theme)
    ensures
        form.message is None ==> message_line(form, theme).len() == 0,
        form.message matches Some(message) ==> {
            let line = message_line(form, theme);
            line.len() == 1 && line[0].text == "  "@ + message && line[0].style == theme.err
        },
        ({
            let lines = form_lines(form, width, theme);
            let fields = field_lines(form, 11, value_room(width), theme);
            let n = fields.len() as int;
            &&& lines.len() == n + 4
            &&& lines.take(n) == fields
            &&& lines[n] == theme_selector(form, theme)
            &&& lines[n + 1].len() == 0
            &&& lines[n + 2] == test_results(form, theme)
            &&& lines[n + 3] == message_line(form, theme)
        }),
{
    let lines = form_lines(form, width, theme);
    let fields = field_lines(form, 11, value_room(width), theme);
    assert(lines.take(fields.len() as int) =~= fields);
}

/// The screen is a box with its title, the lines of the form from the scrolled one on, and the
/// hints in the last row inside the box.
pub proof fn law_parts_of_the_settings_screen(form: FormView, theme: Theme, area: Area)
    requires
        area.y + area.height <= u16::MAX,
    ensures
        ({
            let picture = settings_picture_of(form, theme, area);
            let inner = inside(area);
            let lines = form_lines(form, inner.width as nat, theme);
            &&& picture.len() == 3
            &&& picture[0] matches ItemView::Frame { area: at, border, left, right } && at == area
                && border == theme.border && right.len() == 0 && left.len() == 1 && left[0].text
                == " settings "@ && left[0].style == theme.title
            &&& picture[1] matches ItemView::Lines { area: at, lines: shown, scroll } && {
                &&& shown == lines
                &&& at.x == inner.x && at.width == inner.width && at.y == inner.y
                &&& inner.height > 0 ==> at.height == inner.height - 1
                &&& inner.height == 0 ==> at.height == 0
                &&& scroll == scroll_to(
                    focus_line(form, value_room(inner.width as nat)),
                    lines.len(),
                    at.height as nat,
                )
            }
            &&& picture[2] matches ItemView::Lines { area: at, lines: shown, scroll } && {
                &&& shown.len() == 1 && shown[0] == form_hints(theme) && scroll == 0
                &&& at.x == inner.x && at.width == inner.width && at.height == 1
                &&& inner.height > 0 ==> at.y == inner.y + inner.height - 1
                &&& inner.height == 0 ==> at.y == inner.y
            }
        }),
{
}

/// The hints of the form, all of them lit.
pub proof fn law_hints_of_the_form(theme: Theme)
    ensures
        ({
            let line = form_hints(theme);
            &&& line.len() == 10
            &&& line.subrange(0, 2) == key_hint("ctrl-s"@, "save"@, true, theme)
            &&& line.subrange(2, 4) == key_hint("ctrl-t"@, "test"@, true, theme)
            &&& line.subrange(4, 6) == key_hint("← →"@, "theme"@, true, theme)
            &&& line.subrange(6, 8) == key_hint("ctrl-u"@, "clear"@, true, theme)
            &&& line.subrange(8, 10) == key_hint("esc"@, "back"@, true, theme)
        }),
{
    let line = form_hints(theme);
    assert(line.subrange(0, 2) =~= key_hint("ctrl-s"@, "save"@, true, theme));
    assert(line.subrange(2, 4) =~= key_hint("ctrl-t"@, "test"@, true, theme));
    assert(line.subrange(4, 6) =~= key_hint("← →"@, "theme"@, true, theme));
    assert(line.subrange(6, 8) =~= key_hint("ctrl-u"@, "clear"@, true, theme));
    assert(line.subrange(8, 10) =~= key_hint("esc"@, "back"@, true, theme));
}

// ---------------------------------------------------------------------------
// Themes
// ---------------------------------------------------------------------------

/// A style that is nothing but this color.
pub open spec fn only(style: Style, color: Color) -> bool {
    style.color == Some(color) && !style.bold && !style.dim && !style.reversed
}

/// The styles of the colored theme. Good and bad differ in it, as do names and values.
pub proof fn law_colors_of_the_default_theme()
    ensures
        ({
            let t = named_theme(ThemeName::Btop);
            &&& only(t.border, Color::Indexed(240)) && only(t.label, Color::Indexed(243))
            &&& only(t.value, Color::White) && only(t.ok, Color::Indexed(114))
            &&& only(t.err, Color::Indexed(203)) && only(t.warn, Color::Indexed(221))
            &&& only(t.info, Color::Indexed(81)) && only(t.accent, Color::Indexed(176))
            &&& only(t.name, Color::Indexed(81)) && only(t.duration, Color::Indexed(221))
            &&& only(t.dim, Color::Indexed(243)) && only(t.bar_empty, Color::Indexed(238))
            &&& t.title.color == Some(Color::White) && t.title.bold
            &&& t.highlight.reversed && t.highlight.color is None
            &&& t.gradient
            &&& t.ok != t.err && t.err != t.warn && t.ok != t.warn && t.value != t.err
        }),
{
}

/// Without colors the title, the accent, what is dim and the highlight still stand out.
pub proof fn law_mono_still_tells_things_apart()
    ensures
        ({
            let t = named_theme(ThemeName::Mono);
            &&& t == mono_theme()
            &&& t.title.bold && t.accent.bold && t.dim.dim && t.highlight.reversed
            &&& !t.value.bold && !t.value.dim && !t.value.reversed
            &&& t.border == t.value && t.label == t.value && t.ok == t.value && t.err == t.value
            &&& t.warn == t.value && t.info == t.value && t.name == t.value
            &&& t.duration == t.value && t.bar_empty == t.value
            &&& !t.gradient
        }),
        btop_theme() != mono_theme(),
{
}

/// The bar goes from green through yellow to red in ten steps, and has no color of its own in a
/// theme without gradient.
pub proof fn law_colors_of_the_bar(theme: &Theme, stop: usize, r: Color)
    requires
        stop < 10,
        call_ensures(Theme::bar_stop, (theme, stop), r),
    ensures
        !theme.gradient ==> r == Color::Reset,
        theme.gradient && stop <= 5 ==> r == Color::Indexed((46 + 36 * stop) as u8),
        theme.gradient && 6 <= stop <= 8 ==> r == Color::Indexed((226 - 6 * (stop - 5)) as u8),
        theme.gradient && stop == 9 ==> r == Color::Indexed(196),
        BAR_STOPS == 10 && bar_gradient().len() == 10,
{
}

/// The word of the state is always bold, and each state that needs an eye has its own color.
pub proof fn law_state_words_are_bold(theme: Theme, word: Seq<char>)
    ensures
        theme.style_of_state(word).bold,
        theme.style_of_state("RUNNING"@).color == theme.ok.color,
        theme.style_of_state("PAUSED"@).color == theme.warn.color,
        theme.style_of_state("ERROR"@).color == theme.err.color,
        word != "RUNNING"@ && word != "PAUSED"@ && word != "ERROR"@ ==> theme.style_of_state(
            word,
        ).color == theme.info.color,
{
    reveal_strlit("RUNNING");
    reveal_strlit("PAUSED");
    reveal_strlit("ERROR");
    assert("RUNNING"@.len() == 7 && "PAUSED"@.len() == 6 && "ERROR"@.len() == 5);
}

} // verus!
