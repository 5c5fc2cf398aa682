//! The settings form: what it shows, what its edits change, and the configuration it stands for.
use vstd::prelude::*;
use vstd::string::*;

use crate::config::{config_complaint, Config, ConfigView, ThemeName};
use crate::graphemes::{
    first_piece_from, first_piece_from_at, graphemes, joined, lemma_joined_prefix, piece_offset,
};
use crate::layout::{prompt_cursor_spot, prompt_rows};
use crate::settings::{
    form_of, FormView, SettingsForm, DRY_RUN, FIELD_COUNT, IMMICH_KEY, IMMICH_TIMEOUT, IMMICH_URL,
    LLM_KEY, LLM_MODEL, LLM_TIMEOUT, LLM_URL, MAX_TOKENS, PROMPT, RETRIES, TEXT_FIELDS, THEME,
    WORKERS,
};
use crate::text::{decimal, trimmed, whole_number};

verus! {

// ---------------------------------------------------------------------------
// The configuration that a form stands for
// ---------------------------------------------------------------------------

/// `c` holds what the form shows: the one-line texts without the white space round them, the
/// prompt as it is, the numbers that are written, and both selectors.
pub open spec fn holds_what_is_shown(c: ConfigView, form: FormView) -> bool {
    &&& c.immich.url == trimmed(form.fields[IMMICH_URL as int].value)
    &&& c.immich.api_key == trimmed(form.fields[IMMICH_KEY as int].value)
    &&& c.llm.base_url == trimmed(form.fields[LLM_URL as int].value)
    &&& c.llm.api_key == trimmed(form.fields[LLM_KEY as int].value)
    &&& c.llm.model == trimmed(form.fields[LLM_MODEL as int].value)
    &&& c.llm.prompt == form.fields[PROMPT as int].value
    &&& Some(c.immich.timeout_secs as nat) == written(form, IMMICH_TIMEOUT as int, u64::MAX as nat)
    &&& Some(c.llm.timeout_secs as nat) == written(form, LLM_TIMEOUT as int, u64::MAX as nat)
    &&& Some(c.run.workers as nat) == written(form, WORKERS as int, usize::MAX as nat)
    &&& Some(c.run.retries as nat) == written(form, RETRIES as int, u32::MAX as nat)
    &&& Some(c.llm.max_tokens as nat) == written(form, MAX_TOKENS as int, u32::MAX as nat)
    &&& c.ui.theme == form.theme
    &&& c.run.dry_run == form.dry_run
}

/// The number that is written in a field.
pub open spec fn written(form: FormView, i: int, max: nat) -> Option<nat> {
    whole_number(trimmed(form.fields[i].value), max)
}

/// Every value that the form shows comes from the form and from nowhere else, and the one that
/// it does not show, the page size, from the configuration underneath.
pub proof fn law_every_value_comes_from_the_form(form: FormView, base: ConfigView)
    ensures
        form.applied(base) matches Ok(c) ==> {
            &&& holds_what_is_shown(c, form)
            &&& c.run.page_size == base.run.page_size
        },
{
}

/// The same of the form itself: what a successful conversion returns.
pub proof fn law_conversion_takes_every_value_from_the_form(
    form: &SettingsForm,
    base: &Config,
    r: Result<Config, String>,
)
    requires
        form@.wf(),
        call_ensures(SettingsForm::to_config, (form, base), r),
    ensures
        r matches Ok(c) ==> {
            &&& c.immich.url@ == trimmed(form.fields@[IMMICH_URL as int].value@)
            &&& c.immich.api_key@ == trimmed(form.fields@[IMMICH_KEY as int].value@)
            &&& c.llm.base_url@ == trimmed(form.fields@[LLM_URL as int].value@)
            &&& c.llm.api_key@ == trimmed(form.fields@[LLM_KEY as int].value@)
            &&& c.llm.model@ == trimmed(form.fields@[LLM_MODEL as int].value@)
            &&& c.llm.prompt@ == form.fields@[PROMPT as int].value@
            &&& holds_what_is_shown(c@, form@)
            &&& c.ui.theme == form.theme
            &&& c.run.dry_run == form.dry_run
            &&& c.run.page_size == base.run.page_size
            &&& config_complaint(c@) is None
        },
{
}

/// What lies under the form does not matter but for the page size.
pub proof fn law_only_the_page_size_comes_from_the_base(
    form: FormView,
    first: ConfigView,
    second: ConfigView,
)
    requires
        first.run.page_size == second.run.page_size,
    ensures
        form.applied(first) == form.applied(second),
{
    assert(form.candidate(first) =~= form.candidate(second));
}

/// A form whose numbers can all be read is judged as the configuration that it shows: that comes
/// out if no rule is broken, and otherwise the first broken rule is reported.
pub proof fn law_a_form_is_judged_as_its_configuration(
    form: FormView,
    base: ConfigView,
    c: ConfigView,
)
    requires
        holds_what_is_shown(c, form),
        c.run.page_size == base.run.page_size,
    ensures
        config_complaint(c) is None ==> form.applied(base) == Ok::<ConfigView, Seq<char>>(c),
        config_complaint(c) matches Some(message) ==> form.applied(base) == Err::<
            ConfigView,
            Seq<char>,
        >("invalid config: "@ + message),
{
    assert(form.candidate(base) =~= c);
}

/// The first field that should hold a number and does not is the one complained of, and only
/// then.
pub proof fn law_unreadable_numbers_are_refused_in_order(form: FormView, base: ConfigView)
    ensures
        ({
            let immich = written(form, IMMICH_TIMEOUT as int, u64::MAX as nat);
            let llm = written(form, LLM_TIMEOUT as int, u64::MAX as nat);
            let workers = written(form, WORKERS as int, usize::MAX as nat);
            let retries = written(form, RETRIES as int, u32::MAX as nat);
            let tokens = written(form, MAX_TOKENS as int, u32::MAX as nat);
            let result = form.applied(base);
            &&& immich is None ==> result == Err::<ConfigView, Seq<char>>(
                "immich timeout must be a whole number"@,
            )
            &&& immich is Some && llm is None ==> result == Err::<ConfigView, Seq<char>>(
                "llm timeout must be a whole number"@,
            )
            &&& immich is Some && llm is Some && workers is None ==> result == Err::<
                ConfigView,
                Seq<char>,
            >("workers must be a whole number"@)
            &&& immich is Some && llm is Some && workers is Some && retries is None ==> result
                == Err::<ConfigView, Seq<char>>("retries must be a whole number"@)
            &&& immich is Some && llm is Some && workers is Some && retries is Some
                && tokens is None ==> result == Err::<ConfigView, Seq<char>>(
                "max tokens must be a whole number"@,
            )
        }),
{
}

// ---------------------------------------------------------------------------
// What a fresh form shows
// ---------------------------------------------------------------------------

/// A fresh form shows every value of the configuration under its label, the two keys as secrets
/// and nothing else as one. The first field has the focus and the prompt cursor is at the end.
pub proof fn law_fresh_forms_show_the_configuration(c: ConfigView)
    ensures
        ({
            let form = form_of(c);
            &&& form.wf()
            &&& form.fields[IMMICH_URL as int].value == c.immich.url
            &&& form.fields[IMMICH_URL as int].label == "immich url"@
            &&& form.fields[IMMICH_KEY as int].value == c.immich.api_key
            &&& form.fields[IMMICH_KEY as int].label == "immich api key"@
            &&& form.fields[LLM_URL as int].value == c.llm.base_url
            &&& form.fields[LLM_URL as int].label == "llm base url"@
            &&& form.fields[LLM_KEY as int].value == c.llm.api_key
            &&& form.fields[LLM_KEY as int].label == "llm api key"@
            &&& form.fields[LLM_MODEL as int].value == c.llm.model
            &&& form.fields[LLM_MODEL as int].label == "llm model"@
            &&& form.fields[IMMICH_TIMEOUT as int].value == decimal(c.immich.timeout_secs as nat)
            &&& form.fields[IMMICH_TIMEOUT as int].label == "immich timeout (s)"@
            &&& form.fields[PROMPT as int].value == c.llm.prompt
            &&& form.fields[PROMPT as int].label == "prompt"@
            &&& form.fields[LLM_TIMEOUT as int].value == decimal(c.llm.timeout_secs as nat)
            &&& form.fields[LLM_TIMEOUT as int].label == "llm timeout (s)"@
            &&& form.fields[WORKERS as int].value == decimal(c.run.workers as nat)
            &&& form.fields[WORKERS as int].label == "workers"@
            &&& form.fields[RETRIES as int].value == decimal(c.run.retries as nat)
            &&& form.fields[RETRIES as int].label == "retries"@
            &&& form.fields[MAX_TOKENS as int].value == decimal(c.llm.max_tokens as nat)
            &&& form.fields[MAX_TOKENS as int].label == "max tokens"@
            &&& forall|i: int|
                0 <= i < form.fields.len() ==> (#[trigger] form.fields[i]).secret == (i
                    == IMMICH_KEY || i == LLM_KEY)
            &&& form.theme == c.ui.theme
            &&& form.dry_run == c.run.dry_run
            &&& form.prompt_cursor == graphemes(c.llm.prompt).len()
            &&& form.prompt_width == 43
            &&& form.focused == 0
            &&& !form.show_secrets && !form.testing
            &&& form.test_result is None && form.message is None
        }),
        TEXT_FIELDS == 11 && FIELD_COUNT == 13 && THEME == 11 && DRY_RUN == 12,
{
}

/// A hidden secret is drawn as one dot for each character; everything else as it is.
pub proof fn law_drawn_values(form: FormView, i: int)
    ensures
        form.fields[i].secret && !form.show_secrets ==> {
            &&& form.shown(i).len() == form.fields[i].value.len()
            &&& forall|k: int|
                0 <= k < form.shown(i).len() ==> #[trigger] form.shown(i)[k] == '•'
        },
        !form.fields[i].secret || form.show_secrets ==> form.shown(i) == form.fields[i].value,
{
}

// ---------------------------------------------------------------------------
// Focus and selectors
// ---------------------------------------------------------------------------

/// The focus goes to the next control, from the last to the first, and back the same way.
/// Nothing else changes.
pub proof fn law_focus_goes_round(form: FormView)
    requires
        form.focused < 13,
    ensures
        form.focused < 12 ==> form.focused_next().focused == form.focused + 1,
        form.focused == 12 ==> form.focused_next().focused == 0,
        form.focused > 0 ==> form.focused_previous().focused == form.focused - 1,
        form.focused == 0 ==> form.focused_previous().focused == 12,
        (FormView { focused: form.focused, ..form.focused_next() }) == form,
        (FormView { focused: form.focused, ..form.focused_previous() }) == form,
{
}

/// The selectors change their own value and nothing else: the theme goes to the other one in
/// both directions, the dry run goes on with one and off with the other.
pub proof fn law_selectors_change_only_themselves(
    theme_on: &mut SettingsForm,
    theme_back: &mut SettingsForm,
    dry_on: &mut SettingsForm,
    dry_off: &mut SettingsForm,
)
    requires
        call_ensures(SettingsForm::select_theme_next, (theme_on,), ()),
        call_ensures(SettingsForm::select_theme_prev, (theme_back,), ()),
        call_ensures(SettingsForm::select_dry_run_next, (dry_on,), ()),
        call_ensures(SettingsForm::select_dry_run_prev, (dry_off,), ()),
    ensures
        final(theme_on).theme != old(theme_on).theme,
        (FormView { theme: old(theme_on)@.theme, ..final(theme_on)@ }) == old(theme_on)@,
        final(theme_back).theme != old(theme_back).theme,
        (FormView { theme: old(theme_back)@.theme, ..final(theme_back)@ }) == old(theme_back)@,
        final(dry_on).dry_run,
        (FormView { dry_run: old(dry_on)@.dry_run, ..final(dry_on)@ }) == old(dry_on)@,
        !final(dry_off).dry_run,
        (FormView { dry_run: old(dry_off)@.dry_run, ..final(dry_off)@ }) == old(dry_off)@,
{
    assert(ThemeName::Btop.after() == ThemeName::Mono);
    assert(ThemeName::Mono.after() == ThemeName::Btop);
}

/// Showing the keys and hiding them is one switch. The prompt is never narrower than one cell.
/// Neither changes anything else.
pub proof fn law_switches_change_only_themselves(
    shown: &mut SettingsForm,
    sized: &mut SettingsForm,
    width: usize,
)
    requires
        call_ensures(SettingsForm::toggle_secrets, (shown,), ()),
        call_ensures(SettingsForm::set_prompt_width, (sized, width), ()),
    ensures
        final(shown).show_secrets != old(shown).show_secrets,
        (FormView { show_secrets: old(shown)@.show_secrets, ..final(shown)@ }) == old(shown)@,
        width > 0 ==> final(sized).prompt_width == width,
        width == 0 ==> final(sized).prompt_width == 1,
        (FormView { prompt_width: old(sized)@.prompt_width, ..final(sized)@ }) == old(sized)@,
{
}

/// Enter saves on the last control, which is the dry-run selector.
pub proof fn law_last_control(form: &SettingsForm, r: bool)
    requires
        call_ensures(SettingsForm::is_last_focused, (form,), r),
    ensures
        r <==> form.focused == DRY_RUN,
{
}

// ---------------------------------------------------------------------------
// Edits
// ---------------------------------------------------------------------------

/// Two forms that differ at most in the text of one field.
pub open spec fn same_but_for_text(before: FormView, after: FormView, i: int) -> bool {
    &&& after.fields.len() == before.fields.len()
    &&& after.fields[i].label == before.fields[i].label
    &&& after.fields[i].secret == before.fields[i].secret
    &&& forall|k: int|
        0 <= k < before.fields.len() && k != i ==> #[trigger] after.fields[k] == before.fields[k]
    &&& (FormView {
        fields: before.fields,
        prompt_cursor: before.prompt_cursor,
        ..after
    }) == before
}

/// In a one-line field a character goes to the end of the text, a backspace takes the last one
/// off, and clearing leaves nothing. Only that text changes.
pub proof fn law_one_line_edits(form: FormView, c: char)
    requires
        form.wf(),
        form.focused < TEXT_FIELDS,
        form.focused != PROMPT,
    ensures
        ({
            let i = form.focused as int;
            let before = form.fields[i].value;
            let typed = form.typed(c).fields[i].value;
            let erased = form.erased().fields[i].value;
            &&& typed.len() == before.len() + 1
            &&& typed.take(before.len() as int) == before && typed.last() == c
            &&& before.len() > 0 ==> erased == before.take(before.len() - 1)
            &&& before.len() == 0 ==> erased.len() == 0
            &&& form.cleared().fields[i].value.len() == 0
            &&& same_but_for_text(form, form.typed(c), i)
            &&& same_but_for_text(form, form.erased(), i)
            &&& same_but_for_text(form, form.cleared(), i)
            &&& form.typed(c).prompt_cursor == form.prompt_cursor
            &&& form.erased().prompt_cursor == form.prompt_cursor
            &&& form.cleared().prompt_cursor == form.prompt_cursor
        }),
{
    let before = form.fields[form.focused as int].value;
    assert(before.push(c).take(before.len() as int) =~= before);
    if before.len() > 0 {
        assert(before.drop_last() =~= before.take(before.len() - 1));
    }
}

/// On a selector there is no text to edit.
pub proof fn law_selectors_take_no_text(form: FormView, c: char)
    requires
        form.wf(),
        form.focused >= TEXT_FIELDS,
    ensures
        form.typed(c) == form,
        form.erased() == form,
        form.cleared() == form,
{
}

proof fn lemma_rest_of_pieces(pieces: Seq<Seq<char>>, k: int)
    requires
        0 <= k <= pieces.len(),
    ensures
        joined(pieces) == joined(pieces.take(k)) + joined(pieces.skip(k)),
    decreases pieces.len(),
{
    if k == pieces.len() {
        assert(pieces.take(k) =~= pieces);
        assert(pieces.skip(k) =~= Seq::<Seq<char>>::empty());
        assert(joined(pieces) + joined(pieces.skip(k)) =~= joined(pieces));
    } else {
        let head = pieces.drop_last();
        lemma_rest_of_pieces(head, k);
        assert(head.take(k) =~= pieces.take(k));
        assert(pieces.skip(k).drop_last() =~= head.skip(k));
        assert(pieces.skip(k).last() == pieces.last());
        assert(joined(pieces) =~= joined(pieces.take(k)) + joined(pieces.skip(k)));
    }
}

/// A character typed into the prompt goes between the clusters before the cursor and those after
/// it. The cursor then stands after it: at the first cluster that starts behind it.
pub proof fn law_typing_goes_in_at_the_cursor(form: FormView, c: char)
    requires
        form.wf(),
        form.focused == PROMPT,
        joined(graphemes(form.prompt())) == form.prompt(),
        form.prompt_cursor <= graphemes(form.prompt()).len(),
    ensures
        ({
            let pieces = graphemes(form.prompt());
            let before = joined(pieces.take(form.prompt_cursor as int));
            let after = joined(pieces.skip(form.prompt_cursor as int));
            let next = form.typed(c);
            let text = next.fields[PROMPT as int].value;
            &&& text == before.push(c) + after
            &&& same_but_for_text(form, next, PROMPT as int)
            &&& next.prompt_cursor <= graphemes(text).len()
            &&& next.prompt_cursor < graphemes(text).len() ==> joined(
                graphemes(text).take(next.prompt_cursor as int),
            ).len() > before.len()
            &&& forall|k: int|
                0 <= k < next.prompt_cursor ==> joined(#[trigger] graphemes(text).take(k)).len()
                    <= before.len()
        }),
{
    let pieces = graphemes(form.prompt());
    let k = form.prompt_cursor as int;
    lemma_rest_of_pieces(pieces, k);
    if k == pieces.len() {
        assert(pieces.take(k) =~= pieces);
    }
    let before = joined(pieces.take(k));
    let at = piece_offset(pieces, form.prompt_cursor);
    assert(at == before.len());
    let text = form.typed(c).fields[PROMPT as int].value;
    assert(text =~= before.push(c) + joined(pieces.skip(k)));
    lemma_first_piece_from(graphemes(text), (at + 1) as nat, 0);
}

/// The first piece that starts at or behind an offset: no earlier one does.
proof fn lemma_first_piece_from(pieces: Seq<Seq<char>>, offset: nat, from: nat)
    requires
        from <= pieces.len(),
    ensures
        from <= first_piece_from_at(pieces, offset, from) <= pieces.len(),
        first_piece_from_at(pieces, offset, from) < pieces.len() ==> joined(
            pieces.take(first_piece_from_at(pieces, offset, from) as int),
        ).len() >= offset,
        forall|k: int|
            from <= k < first_piece_from_at(pieces, offset, from) ==> joined(
                #[trigger] pieces.take(k),
            ).len() < offset,
    decreases pieces.len() - from,
{
    if from < pieces.len() && piece_offset(pieces, from) < offset {
        lemma_first_piece_from(pieces, offset, from + 1);
    }
}

/// A backspace in the prompt takes out the one cluster before the cursor and steps back over it.
/// At the start of the prompt there is none.
pub proof fn law_erasing_takes_the_cluster_before_the_cursor(form: FormView)
    requires
        form.wf(),
        form.focused == PROMPT,
        joined(graphemes(form.prompt())) == form.prompt(),
        form.prompt_cursor <= graphemes(form.prompt()).len(),
    ensures
        form.prompt_cursor == 0 ==> form.erased() == form,
        form.prompt_cursor > 0 ==> {
            let pieces = graphemes(form.prompt());
            let next = form.erased();
            &&& next.fields[PROMPT as int].value == joined(
                pieces.take(form.prompt_cursor - 1),
            ) + joined(pieces.skip(form.prompt_cursor as int))
            &&& next.prompt_cursor == form.prompt_cursor - 1
            &&& same_but_for_text(form, next, PROMPT as int)
        },
{
    let pieces = graphemes(form.prompt());
    let k = form.prompt_cursor as int;
    if k > 0 {
        lemma_rest_of_pieces(pieces, k);
        lemma_rest_of_pieces(pieces, k - 1);
        if k == pieces.len() {
            assert(pieces.take(k) =~= pieces);
        }
        let from = piece_offset(pieces, (k - 1) as nat);
        let to = piece_offset(pieces, k as nat);
        assert(form.prompt().take(from as int) =~= joined(pieces.take(k - 1)));
        assert(form.prompt().skip(to as int) =~= joined(pieces.skip(k)));
    }
}

/// A cursor behind the end of the prompt types at the end, and steps back without erasing.
pub proof fn law_cursors_behind_the_end(form: FormView, c: char)
    requires
        form.wf(),
        form.focused == PROMPT,
        joined(graphemes(form.prompt())) == form.prompt(),
        form.prompt_cursor > graphemes(form.prompt()).len(),
    ensures
        form.typed(c).fields[PROMPT as int].value == form.prompt().push(c),
        same_but_for_text(form, form.typed(c), PROMPT as int),
        form.erased().fields[PROMPT as int].value == form.prompt(),
        form.erased().prompt_cursor == form.prompt_cursor - 1,
        same_but_for_text(form, form.erased(), PROMPT as int),
{
    assert(form.typed(c).fields[PROMPT as int].value =~= form.prompt().push(c));
    assert(form.erased().fields[PROMPT as int].value =~= form.prompt());
}

/// Clearing the prompt leaves no text and puts the cursor at its start.
pub proof fn law_clearing_empties_the_prompt(form: FormView)
    requires
        form.wf(),
        form.focused == PROMPT,
    ensures
        form.cleared().fields[PROMPT as int].value.len() == 0,
        form.cleared().prompt_cursor == 0,
        same_but_for_text(form, form.cleared(), PROMPT as int),
{
}

/// A line break is typed into the prompt like any other character, and nowhere else.
pub proof fn law_line_breaks_go_into_the_prompt(form: &mut SettingsForm)
    requires
        old(form)@.wf(),
        call_ensures(SettingsForm::newline, (form,), ()),
    ensures
        old(form).focused == PROMPT ==> final(form)@ == old(form)@.typed('\n'),
        old(form).focused != PROMPT ==> final(form)@ == old(form)@,
{
}

/// The cursor moves by one cluster in the focused prompt and stops at both ends. Nothing else
/// changes.
pub proof fn law_sideways_moves_are_one_cluster(left: &mut SettingsForm, right: &mut SettingsForm)
    requires
        old(right)@.wf(),
        call_ensures(SettingsForm::move_prompt_left, (left,), ()),
        call_ensures(SettingsForm::move_prompt_right, (right,), ()),
    ensures
        old(left).focused == PROMPT && old(left).prompt_cursor > 0 ==> final(left).prompt_cursor
            == old(left).prompt_cursor - 1,
        old(left).focused != PROMPT || old(left).prompt_cursor == 0 ==> final(left).prompt_cursor
            == old(left).prompt_cursor,
        (FormView { prompt_cursor: old(left)@.prompt_cursor, ..final(left)@ }) == old(left)@,
        ({
            let end = graphemes(old(right)@.prompt()).len();
            &&& old(right).focused == PROMPT && old(right).prompt_cursor < end
                ==> final(right).prompt_cursor == old(right).prompt_cursor + 1
            &&& old(right).focused == PROMPT && old(right).prompt_cursor >= end
                ==> final(right).prompt_cursor == end
            &&& old(right).focused != PROMPT ==> final(right).prompt_cursor
                == old(right).prompt_cursor
        }),
        (FormView { prompt_cursor: old(right)@.prompt_cursor, ..final(right)@ }) == old(right)@,
{
}

/// The cursor goes to the row above or below, to the same column or, on a shorter row, to its
/// end. There is no row above the first and none below the last. Nothing else changes.
pub proof fn law_vertical_moves_keep_the_column(form: FormView)
    ensures
        ({
            let rows = prompt_rows(form.prompt(), form.prompt_width);
            let spot = prompt_cursor_spot(form.prompt(), form.prompt_cursor, form.prompt_width);
            let row = spot.0 as int;
            let column = graphemes(spot.1).len();
            let above = graphemes(rows[row - 1].text).len();
            let below = graphemes(rows[row + 1].text).len();
            &&& form.focused == PROMPT && row > 0 && column <= above
                ==> form.moved_up().prompt_cursor == rows[row - 1].start + column
            &&& form.focused == PROMPT && row > 0 && column > above
                ==> form.moved_up().prompt_cursor == rows[row - 1].start + above
            &&& form.focused == PROMPT && row + 1 != rows.len() && column <= below
                ==> form.moved_down().prompt_cursor == rows[row + 1].start + column
            &&& form.focused == PROMPT && row + 1 != rows.len() && column > below
                ==> form.moved_down().prompt_cursor == rows[row + 1].start + below
            &&& form.focused != PROMPT || row == 0 ==> form.moved_up() == form
            &&& form.focused != PROMPT || row + 1 == rows.len() ==> form.moved_down() == form
        }),
        (FormView { prompt_cursor: form.prompt_cursor, ..form.moved_up() }) == form,
        (FormView { prompt_cursor: form.prompt_cursor, ..form.moved_down() }) == form,
{
}

/// Where a cluster starts is the length of all before it; behind the last it is the end.
pub proof fn law_clusters_start_where_the_ones_before_end(pieces: Seq<Seq<char>>, k: int)
    requires
        0 <= k <= pieces.len(),
    ensures
        piece_offset(pieces, 0) == 0,
        piece_offset(pieces, pieces.len()) == joined(pieces).len(),
        k < pieces.len() ==> piece_offset(pieces, (k + 1) as nat) == piece_offset(
            pieces,
            k as nat,
        ) + pieces[k].len(),
        first_piece_from(pieces, 0) == 0,
{
    assert(pieces.take(0) =~= Seq::<Seq<char>>::empty());
    assert(joined(pieces.take(0)).len() == 0);
    if pieces.len() == 0 {
        assert(pieces =~= Seq::<Seq<char>>::empty());
    }
    if k < pieces.len() {
        assert(pieces.take(k + 1).drop_last() =~= pieces.take(k));
        assert(pieces.take(k + 1).last() == pieces[k]);
        if k + 1 == pieces.len() {
            assert(pieces.take(k + 1) =~= pieces);
        }
        lemma_joined_prefix(pieces, k);
    }
}

} // verus!
