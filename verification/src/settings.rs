//! The settings form: field values, focus, edits, and conversion to a [`Config`].
use vstd::prelude::*;
use vstd::string::*;

use crate::config::{
    config_complaint, Config, ConfigView, ImmichConfigView, LlmConfigView, RunConfig,
    ThemeName, UiConfig,
};
use crate::graphemes::{
    count_graphemes, first_piece_from, graphemes, lemma_joined_prefix, offset_of,
    piece_from, piece_offset, split_graphemes, texts,
};
use crate::layout::{
    at_least_one, at_most, law_cursor_is_on_a_row, nats, prompt_cursor_spot,
    prompt_rows, row_starts, row_texts, widths_of,
};
pub use crate::layout::{prompt_layout, PromptLayout};
use crate::text::{
    chars_of, decimal, decimal_of, lemma_decimal_round_trip,
    lemma_trimmed_idempotent, parse_whole, repeat, repeated,
    string_of, trim, trimmed, whole_number,
};

verus! {

pub const IMMICH_URL: usize = 0;

pub const IMMICH_KEY: usize = 1;

pub const LLM_URL: usize = 2;

pub const LLM_KEY: usize = 3;

pub const LLM_MODEL: usize = 4;

pub const IMMICH_TIMEOUT: usize = 5;

pub const PROMPT: usize = 6;

pub const LLM_TIMEOUT: usize = 7;

pub const WORKERS: usize = 8;

pub const RETRIES: usize = 9;

pub const MAX_TOKENS: usize = 10;

pub const THEME: usize = 11;

pub const DRY_RUN: usize = 12;

/// Text fields; the theme and dry-run selectors come after them.
pub const TEXT_FIELDS: usize = 11;

/// Everything that can have the focus.
pub const FIELD_COUNT: usize = 13;

pub const PROMPT_WRAP_WIDTH: usize = 43;

#[derive(Debug, PartialEq, Eq)]
pub struct Field {
    pub label: &'static str,
    pub value: String,
    pub secret: bool,
}

/// Outcome of the last connection test, one entry per server.
pub type TestResult = (Result<String, String>, Result<String, String>);

#[derive(Debug, PartialEq)]
pub struct SettingsForm {
    pub fields: Vec<Field>,
    pub theme: ThemeName,
    pub dry_run: bool,
    /// Cursor position in the prompt, measured in Unicode grapheme clusters.
    pub prompt_cursor: usize,
    pub prompt_width: usize,
    pub focused: usize,
    pub show_secrets: bool,
    pub testing: bool,
    pub test_result: Option<TestResult>,
    /// Validation error or a short status line shown under the form.
    pub message: Option<String>,
}

// ---------------------------------------------------------------------------
// Models
// ---------------------------------------------------------------------------

/// Mathematical model of [`Field`].
#[verifier::ext_equal]
pub struct FieldView {
    pub label: Seq<char>,
    pub value: Seq<char>,
    pub secret: bool,
}

impl View for Field {
    type V = FieldView;

    open spec fn view(&self) -> FieldView {
        FieldView { label: self.label@, value: self.value@, secret: self.secret }
    }
}

/// The model of one server's test result.
pub type TestOutcome = Result<Seq<char>, Seq<char>>;

pub open spec fn outcome_view(r: Result<String, String>) -> TestOutcome {
    match r {
        Ok(s) => Ok(s@),
        Err(s) => Err(s@),
    }
}

pub open spec fn test_view(r: Option<TestResult>) -> Option<(TestOutcome, TestOutcome)> {
    match r {
        Some((immich, llm)) => Some((outcome_view(immich), outcome_view(llm))),
        None => None,
    }
}

/// The model of an optional text.
pub open spec fn opt_text(s: Option<String>) -> Option<Seq<char>> {
    match s {
        Some(t) => Some(t@),
        None => None,
    }
}

pub open spec fn field_views(fields: Seq<Field>) -> Seq<FieldView> {
    fields.map_values(|f: Field| f@)
}

/// Mathematical model of [`SettingsForm`].
#[verifier::ext_equal]
pub struct FormView {
    pub fields: Seq<FieldView>,
    pub theme: ThemeName,
    pub dry_run: bool,
    pub prompt_cursor: nat,
    pub prompt_width: nat,
    pub focused: nat,
    pub show_secrets: bool,
    pub testing: bool,
    pub test_result: Option<(TestOutcome, TestOutcome)>,
    pub message: Option<Seq<char>>,
}

impl View for SettingsForm {
    type V = FormView;

    open spec fn view(&self) -> FormView {
        FormView {
            fields: field_views(self.fields@),
            theme: self.theme,
            dry_run: self.dry_run,
            prompt_cursor: self.prompt_cursor as nat,
            prompt_width: self.prompt_width as nat,
            focused: self.focused as nat,
            show_secrets: self.show_secrets,
            testing: self.testing,
            test_result: test_view(self.test_result),
            message: opt_text(self.message),
        }
    }
}

impl FormView {
    /// The form has all its text fields.
    pub open spec fn wf(self) -> bool {
        self.fields.len() == TEXT_FIELDS
    }

    /// The focus moved to the next control, in a cycle.
    pub open spec fn focused_next(self) -> FormView {
        FormView { focused: (self.focused + 1) % (FIELD_COUNT as nat), ..self }
    }

    /// The focus moved to the previous control, in a cycle.
    pub open spec fn focused_previous(self) -> FormView {
        FormView {
            focused: ((self.focused + FIELD_COUNT - 1) % (FIELD_COUNT as int)) as nat,
            ..self
        }
    }

    pub open spec fn value(self, i: int) -> Seq<char> {
        self.fields[i].value
    }

    /// The form with the text of field `i` replaced.
    pub open spec fn with_value(self, i: int, value: Seq<char>) -> FormView {
        FormView {
            fields: self.fields.update(i, FieldView { value, ..self.fields[i] }),
            ..self
        }
    }

    pub open spec fn with_cursor(self, cursor: nat) -> FormView {
        FormView { prompt_cursor: cursor, ..self }
    }

    pub open spec fn prompt(self) -> Seq<char> {
        self.value(PROMPT as int)
    }

    /// The form after typing `c` into the prompt at the cursor. The cursor moves to the first
    /// grapheme cluster that starts after the new character.
    pub open spec fn prompt_typed(self, c: char) -> FormView {
        let at = piece_offset(graphemes(self.prompt()), self.prompt_cursor);
        let value = self.prompt().insert(at as int, c);
        self.with_value(PROMPT as int, value).with_cursor(
            first_piece_from(graphemes(value), at + 1),
        )
    }

    /// The form after deleting the grapheme cluster before the cursor.
    pub open spec fn prompt_erased(self) -> FormView {
        if self.prompt_cursor == 0 {
            self
        } else {
            let pieces = graphemes(self.prompt());
            let from = piece_offset(pieces, (self.prompt_cursor - 1) as nat);
            let to = piece_offset(pieces, self.prompt_cursor);
            self.with_value(
                PROMPT as int,
                self.prompt().take(from as int) + self.prompt().skip(to as int),
            ).with_cursor((self.prompt_cursor - 1) as nat)
        }
    }

    /// The form after typing `c`.
    pub open spec fn typed(self, c: char) -> FormView {
        if self.focused == PROMPT {
            self.prompt_typed(c)
        } else if self.focused < self.fields.len() {
            self.with_value(self.focused as int, self.value(self.focused as int).push(c))
        } else {
            self
        }
    }

    /// The form after one backspace.
    pub open spec fn erased(self) -> FormView {
        if self.focused == PROMPT {
            self.prompt_erased()
        } else if self.focused < self.fields.len() {
            let value = self.value(self.focused as int);
            self.with_value(
                self.focused as int,
                if value.len() > 0 {
                    value.drop_last()
                } else {
                    value
                },
            )
        } else {
            self
        }
    }

    /// The form with the focused text emptied.
    pub open spec fn cleared(self) -> FormView {
        if self.focused == PROMPT {
            self.with_value(PROMPT as int, seq![]).with_cursor(0)
        } else if self.focused < self.fields.len() {
            self.with_value(self.focused as int, seq![])
        } else {
            self
        }
    }

    /// Where the cursor lands on row `row`: the same column, or the end of a shorter row.
    pub open spec fn landing(self, row: int) -> nat {
        let rows = prompt_rows(self.prompt(), self.prompt_width);
        let spot = prompt_cursor_spot(self.prompt(), self.prompt_cursor, self.prompt_width);
        rows[row].start + at_most(graphemes(spot.1).len(), graphemes(rows[row].text).len())
    }

    /// The row the cursor is on.
    pub open spec fn cursor_row(self) -> nat {
        prompt_cursor_spot(self.prompt(), self.prompt_cursor, self.prompt_width).0
    }

    /// The form after moving the cursor up one row.
    pub open spec fn moved_up(self) -> FormView {
        if self.focused != PROMPT || self.cursor_row() == 0 {
            self
        } else {
            self.with_cursor(self.landing(self.cursor_row() - 1))
        }
    }

    /// The form after moving the cursor down one row.
    pub open spec fn moved_down(self) -> FormView {
        if self.focused != PROMPT || self.cursor_row() + 1 == prompt_rows(
            self.prompt(),
            self.prompt_width,
        ).len() {
            self
        } else {
            self.with_cursor(self.landing(self.cursor_row() as int + 1))
        }
    }

    /// What is drawn for field `i`.
    pub open spec fn shown(self, i: int) -> Seq<char> {
        if self.fields[i].secret && !self.show_secrets {
            repeated('•', self.value(i).len())
        } else {
            self.value(i)
        }
    }

    /// The whole number in field `i`, up to `max`.
    pub open spec fn number(self, i: int, max: nat) -> Option<nat> {
        whole_number(trimmed(self.value(i)), max)
    }

    /// The configuration the form stands for on top of `base`, before validation.
    pub open spec fn candidate(self, base: ConfigView) -> ConfigView {
        ConfigView {
            immich: ImmichConfigView {
                url: trimmed(self.value(IMMICH_URL as int)),
                api_key: trimmed(self.value(IMMICH_KEY as int)),
                timeout_secs: self.number(IMMICH_TIMEOUT as int, u64::MAX as nat)->0 as u64,
            },
            llm: LlmConfigView {
                base_url: trimmed(self.value(LLM_URL as int)),
                api_key: trimmed(self.value(LLM_KEY as int)),
                model: trimmed(self.value(LLM_MODEL as int)),
                max_tokens: self.number(MAX_TOKENS as int, u32::MAX as nat)->0 as u32,
                timeout_secs: self.number(LLM_TIMEOUT as int, u64::MAX as nat)->0 as u64,
                prompt: self.prompt(),
            },
            run: RunConfig {
                workers: self.number(WORKERS as int, usize::MAX as nat)->0 as usize,
                retries: self.number(RETRIES as int, u32::MAX as nat)->0 as u32,
                page_size: base.run.page_size,
                dry_run: self.dry_run,
            },
            ui: UiConfig { theme: self.theme },
        }
    }

    /// The configuration the form stands for on top of `base`, or the first complaint.
    pub open spec fn applied(self, base: ConfigView) -> Result<ConfigView, Seq<char>> {
        if self.number(IMMICH_TIMEOUT as int, u64::MAX as nat) is None {
            Err("immich timeout must be a whole number"@)
        } else if self.number(LLM_TIMEOUT as int, u64::MAX as nat) is None {
            Err("llm timeout must be a whole number"@)
        } else if self.number(WORKERS as int, usize::MAX as nat) is None {
            Err("workers must be a whole number"@)
        } else if self.number(RETRIES as int, u32::MAX as nat) is None {
            Err("retries must be a whole number"@)
        } else if self.number(MAX_TOKENS as int, u32::MAX as nat) is None {
            Err("max tokens must be a whole number"@)
        } else {
            match config_complaint(self.candidate(base)) {
                Some(message) => Err("invalid config: "@ + message),
                None => Ok(self.candidate(base)),
            }
        }
    }
}

pub open spec fn field_of(label: Seq<char>, value: Seq<char>, secret: bool) -> FieldView {
    FieldView { label, value, secret }
}

/// The form that shows `c`.
pub open spec fn form_of(c: ConfigView) -> FormView {
    FormView {
        fields: seq![
            field_of("immich url"@, c.immich.url, false),
            field_of("immich api key"@, c.immich.api_key, true),
            field_of("llm base url"@, c.llm.base_url, false),
            field_of("llm api key"@, c.llm.api_key, true),
            field_of("llm model"@, c.llm.model, false),
            field_of("immich timeout (s)"@, decimal(c.immich.timeout_secs as nat), false),
            field_of("prompt"@, c.llm.prompt, false),
            field_of("llm timeout (s)"@, decimal(c.llm.timeout_secs as nat), false),
            field_of("workers"@, decimal(c.run.workers as nat), false),
            field_of("retries"@, decimal(c.run.retries as nat), false),
            field_of("max tokens"@, decimal(c.llm.max_tokens as nat), false),
        ],
        theme: c.ui.theme,
        dry_run: c.run.dry_run,
        prompt_cursor: graphemes(c.llm.prompt).len(),
        prompt_width: PROMPT_WRAP_WIDTH as nat,
        focused: 0,
        show_secrets: false,
        testing: false,
        test_result: None,
        message: None,
    }
}

// ---------------------------------------------------------------------------
// The form
// ---------------------------------------------------------------------------

impl Clone for Field {
    fn clone(&self) -> (r: Self)
        ensures
            r == *self,
    {
        Field { label: self.label, value: self.value.clone(), secret: self.secret }
    }
}

/// A copy of one server's test result.
pub fn clone_outcome(outcome: &Result<String, String>) -> (r: Result<String, String>)
    ensures
        r == *outcome,
{
    match outcome {
        Ok(text) => Ok(text.clone()),
        Err(text) => Err(text.clone()),
    }
}

impl Clone for SettingsForm {
    fn clone(&self) -> (r: Self)
        ensures
            r@ == self@,
    {
        let fields = self.fields.clone();
        assert(field_views(fields@) =~= field_views(self.fields@));
        SettingsForm {
            fields,
            theme: self.theme,
            dry_run: self.dry_run,
            prompt_cursor: self.prompt_cursor,
            prompt_width: self.prompt_width,
            focused: self.focused,
            show_secrets: self.show_secrets,
            testing: self.testing,
            test_result: match &self.test_result {
                Some((immich, llm)) => Some((clone_outcome(immich), clone_outcome(llm))),
                None => None,
            },
            message: match &self.message {
                Some(text) => Some(text.clone()),
                None => None,
            },
        }
    }
}

fn field(label: &'static str, value: String, secret: bool) -> (r: Field)
    ensures
        r@ == field_of(label@, value@, secret),
{
    Field { label, value, secret }
}

impl SettingsForm {
    /// A fresh form that shows `cfg`.
    pub fn from_config(cfg: &Config) -> (r: Self)
        ensures
            r@ == form_of(cfg@),
    {
        let mut fields: Vec<Field> = Vec::new();
        fields.push(field("immich url", cfg.immich.url.clone(), false));
        fields.push(field("immich api key", cfg.immich.api_key.clone(), true));
        fields.push(field("llm base url", cfg.llm.base_url.clone(), false));
        fields.push(field("llm api key", cfg.llm.api_key.clone(), true));
        fields.push(field("llm model", cfg.llm.model.clone(), false));
        fields.push(field("immich timeout (s)", decimal_of(cfg.immich.timeout_secs), false));
        fields.push(field("prompt", cfg.llm.prompt.clone(), false));
        fields.push(field("llm timeout (s)", decimal_of(cfg.llm.timeout_secs), false));
        fields.push(field("workers", decimal_of(cfg.run.workers as u64), false));
        fields.push(field("retries", decimal_of(cfg.run.retries as u64), false));
        fields.push(field("max tokens", decimal_of(cfg.llm.max_tokens as u64), false));
        let prompt_cursor = count_graphemes(cfg.llm.prompt.as_str());
        let r = SettingsForm {
            fields,
            theme: cfg.ui.theme,
            dry_run: cfg.run.dry_run,
            prompt_cursor,
            prompt_width: PROMPT_WRAP_WIDTH,
            focused: 0,
            show_secrets: false,
            testing: false,
            test_result: None,
            message: None,
        };
        assert(r@.fields =~= form_of(cfg@).fields);
        r
    }

    /// Whether the last control of the form has the focus.
    pub fn is_last_focused(&self) -> (r: bool)
        ensures
            r == (self.focused + 1 == FIELD_COUNT),
    {
        self.focused == FIELD_COUNT - 1
    }

    /// Moves the focus to the next control; after the last comes the first.
    pub fn focus_next(&mut self)
        requires
            old(self).focused < usize::MAX,
        ensures
            final(self)@ == old(self)@.focused_next(),
    {
        self.focused = (self.focused + 1) % FIELD_COUNT;
    }

    /// Moves the focus to the previous control; before the first comes the last.
    pub fn focus_prev(&mut self)
        requires
            old(self).focused + FIELD_COUNT <= usize::MAX,
        ensures
            final(self)@ == old(self)@.focused_previous(),
    {
        self.focused = (self.focused + FIELD_COUNT - 1) % FIELD_COUNT;
    }

    fn set_value(&mut self, i: usize, value: String)
        requires
            i < old(self).fields@.len(),
        ensures
            final(self)@ == old(self)@.with_value(i as int, value@),
            final(self).fields@.len() == old(self).fields@.len(),
    {
        let old_field = &self.fields[i];
        let new_field = Field { label: old_field.label, value, secret: old_field.secret };
        self.fields.set(i, new_field);
        assert(self@.fields =~= old(self)@.with_value(i as int, value@).fields);
    }

    /// Types `c` into the focused text field.
    pub fn insert(&mut self, c: char)
        requires
            old(self)@.wf(),
        ensures
            final(self)@ == old(self)@.typed(c),
    {
        if self.focused == PROMPT {
            self.insert_prompt(c);
        } else if self.focused < self.fields.len() {
            let mut value = self.fields[self.focused].value.clone();
            value.push(c);
            self.set_value(self.focused, value);
        }
    }

    /// Deletes what is before the cursor of the focused text field.
    pub fn backspace(&mut self)
        requires
            old(self)@.wf(),
        ensures
            final(self)@ == old(self)@.erased(),
    {
        if self.focused == PROMPT {
            self.backspace_prompt();
        } else if self.focused < self.fields.len() {
            let v = chars_of(self.fields[self.focused].value.as_str());
            let end: usize = if v.len() > 0 {
                v.len() - 1
            } else {
                0
            };
            let value = string_of(&v, 0, end);
            proof {
                if v@.len() > 0 {
                    assert(value@ =~= v@.drop_last());
                } else {
                    assert(value@ =~= v@);
                }
            }
            self.set_value(self.focused, value);
        }
    }

    /// Breaks the line in the prompt.
    pub fn newline(&mut self)
        requires
            old(self)@.wf(),
        ensures
            final(self)@ == if old(self).focused == PROMPT {
                old(self)@.prompt_typed('\n')
            } else {
                old(self)@
            },
    {
        if self.focused == PROMPT {
            self.insert_prompt('\n');
        }
    }

    /// Moves the prompt cursor back one grapheme cluster.
    pub fn move_prompt_left(&mut self)
        ensures
            final(self)@ == if old(self).focused == PROMPT && old(self).prompt_cursor > 0 {
                old(self)@.with_cursor((old(self).prompt_cursor - 1) as nat)
            } else {
                old(self)@
            },
    {
        if self.focused == PROMPT && self.prompt_cursor > 0 {
            self.prompt_cursor = self.prompt_cursor - 1;
        }
    }

    /// Moves the prompt cursor on one grapheme cluster, up to the end of the prompt.
    pub fn move_prompt_right(&mut self)
        requires
            old(self)@.wf(),
        ensures
            final(self)@ == if old(self).focused == PROMPT {
                old(self)@.with_cursor(
                    at_most(
                        (old(self).prompt_cursor + 1) as nat,
                        graphemes(old(self)@.prompt()).len(),
                    ),
                )
            } else {
                old(self)@
            },
    {
        if self.focused == PROMPT {
            let len = self.prompt_len();
            self.prompt_cursor =
            if self.prompt_cursor < len {
                self.prompt_cursor + 1
            } else {
                len
            };
        }
    }

    /// Moves the prompt cursor up one row.
    pub fn move_prompt_up(&mut self)
        requires
            old(self)@.wf(),
        ensures
            final(self)@ == old(self)@.moved_up(),
    {
        if self.focused != PROMPT {
            return;
        }
        let layout = prompt_layout(self.prompt_value(), self.prompt_cursor, self.prompt_width);
        if layout.cursor_row == 0 {
            return;
        }
        proof {
            lemma_cursor_row(self@);
            assert(row_texts(prompt_rows(self@.prompt(), self@.prompt_width)).len()
                == layout.rows@.len());
        }
        self.land(&layout, layout.cursor_row - 1);
    }

    /// Moves the prompt cursor down one row.
    pub fn move_prompt_down(&mut self)
        requires
            old(self)@.wf(),
        ensures
            final(self)@ == old(self)@.moved_down(),
    {
        if self.focused != PROMPT {
            return;
        }
        let layout = prompt_layout(self.prompt_value(), self.prompt_cursor, self.prompt_width);
        proof {
            lemma_cursor_row(self@);
            assert(row_texts(prompt_rows(self@.prompt(), self@.prompt_width)).len()
                == layout.rows@.len());
        }
        let rows: usize = layout.rows.len();
        if layout.cursor_row + 1 == rows {
            return;
        }
        self.land(&layout, layout.cursor_row + 1);
    }

    fn land(&mut self, layout: &PromptLayout, row: usize)
        requires
            layout.shows(old(self)@.prompt(), old(self)@.prompt_cursor, old(self)@.prompt_width),
            row < prompt_rows(old(self)@.prompt(), old(self)@.prompt_width).len(),
            layout.row_starts@[row as int] + layout.rows@[row as int]@.len() <= usize::MAX,
        ensures
            final(self)@ == old(self)@.with_cursor(old(self)@.landing(row as int)),
    {
        proof {
            let rows = prompt_rows(self@.prompt(), self@.prompt_width);
            assert(texts(layout.rows@).len() == row_texts(rows).len());
            assert(nats(layout.row_starts@).len() == row_starts(rows).len());
            assert(texts(layout.rows@)[row as int] == row_texts(rows)[row as int]);
            assert(nats(layout.row_starts@)[row as int] == row_starts(rows)[row as int]);
        }
        let target_column = count_graphemes(layout.rows[row].as_str());
        let column: usize = if layout.cursor_column < target_column {
            layout.cursor_column
        } else {
            target_column
        };
        self.prompt_cursor = layout.row_starts[row] + column;
    }

    /// Clears the focused text field. The selectors are not text and stay as they are.
    pub fn clear(&mut self)
        requires
            old(self)@.wf(),
        ensures
            final(self)@ == old(self)@.cleared(),
    {
        if self.focused == PROMPT {
            self.set_value(PROMPT, String::new());
            self.prompt_cursor = 0;
        } else if self.focused < self.fields.len() {
            self.set_value(self.focused, String::new());
        }
    }

    fn prompt_value(&self) -> (r: &str)
        requires
            self@.wf(),
        ensures
            r@ == self@.prompt(),
    {
        self.fields[PROMPT].value.as_str()
    }

    fn prompt_len(&self) -> (r: usize)
        requires
            self@.wf(),
        ensures
            r == graphemes(self@.prompt()).len(),
    {
        count_graphemes(self.prompt_value())
    }

    fn insert_prompt(&mut self, c: char)
        requires
            old(self)@.wf(),
        ensures
            final(self)@ == old(self)@.prompt_typed(c),
    {
        let v = chars_of(self.prompt_value());
        let total: usize = v.len();
        let pieces = split_graphemes(self.prompt_value());
        let at = offset_of(&pieces, self.prompt_cursor);
        proof {
            let ps = texts(pieces@);
            if self.prompt_cursor < ps.len() {
                lemma_joined_prefix(ps, self.prompt_cursor as int);
            }
        }
        let mut value = string_of(&v, 0, at);
        value.push(c);
        value.append(string_of(&v, at, total).as_str());
        assert(value@ =~= self@.prompt().insert(at as int, c));
        let new_total: usize = value.as_str().unicode_len();
        assert(new_total == total + 1);
        let new_pieces = split_graphemes(value.as_str());
        self.prompt_cursor = piece_from(&new_pieces, at + 1);
        self.set_value(PROMPT, value);
        assert(self@ =~= old(self)@.prompt_typed(c));
    }

    fn backspace_prompt(&mut self)
        requires
            old(self)@.wf(),
        ensures
            final(self)@ == old(self)@.prompt_erased(),
    {
        if self.prompt_cursor == 0 {
            return;
        }
        let v = chars_of(self.prompt_value());
        let total: usize = v.len();
        let pieces = split_graphemes(self.prompt_value());
        let to = offset_of(&pieces, self.prompt_cursor);
        let from = offset_of(&pieces, self.prompt_cursor - 1);
        proof {
            let ps = texts(pieces@);
            if self.prompt_cursor < ps.len() {
                lemma_joined_prefix(ps, self.prompt_cursor as int);
            }
            if self.prompt_cursor - 1 < ps.len() {
                lemma_joined_prefix(ps, self.prompt_cursor - 1);
            }
        }
        let mut value = string_of(&v, 0, from);
        value.append(string_of(&v, to, total).as_str());
        assert(value@ =~= self@.prompt().take(from as int) + self@.prompt().skip(to as int));
        self.set_value(PROMPT, value);
        self.prompt_cursor = self.prompt_cursor - 1;
        assert(self@ =~= old(self)@.prompt_erased());
    }

    pub fn select_theme_next(&mut self)
        ensures
            final(self)@ == (FormView { theme: old(self).theme.after(), ..old(self)@ }),
    {
        self.theme = self.theme.next();
    }

    pub fn select_theme_prev(&mut self)
        ensures
            final(self)@ == (FormView { theme: final(self).theme, ..old(self)@ }),
            final(self).theme.after() == old(self).theme,
    {
        self.theme = self.theme.previous();
    }

    pub fn select_dry_run_next(&mut self)
        ensures
            final(self)@ == (FormView { dry_run: true, ..old(self)@ }),
    {
        self.dry_run = true;
    }

    pub fn select_dry_run_prev(&mut self)
        ensures
            final(self)@ == (FormView { dry_run: false, ..old(self)@ }),
    {
        self.dry_run = false;
    }

    /// Shows or hides the API keys.
    pub fn toggle_secrets(&mut self)
        ensures
            final(self)@ == (FormView { show_secrets: !old(self).show_secrets, ..old(self)@ }),
    {
        self.show_secrets = !self.show_secrets;
    }

    /// Tells the form how many cells the prompt editor is wide.
    pub fn set_prompt_width(&mut self, width: usize)
        ensures
            final(self)@ == (FormView { prompt_width: at_least_one(width as nat), ..old(self)@ }),
    {
        self.prompt_width = if width == 0 {
            1
        } else {
            width
        };
    }

    /// The text to draw for a field. Secrets show as dots unless revealed.
    pub fn display_value(&self, index: usize) -> (r: String)
        requires
            index < self.fields@.len(),
        ensures
            r@ == self@.shown(index as int),
    {
        let field = &self.fields[index];
        if field.secret && !self.show_secrets {
            repeat('•', field.value.as_str().unicode_len())
        } else {
            field.value.clone()
        }
    }

    fn number(&self, i: usize, max: u64) -> (r: Option<u64>)
        requires
            i < self.fields@.len(),
        ensures
            match r {
                Some(n) => self@.number(i as int, max as nat) == Some(n as nat) && n <= max,
                None => self@.number(i as int, max as nat) is None,
            },
    {
        parse_whole(trim(self.fields[i].value.as_str()).as_str(), max)
    }

    /// Applies the fields onto a copy of `base`. Values without a field stay as they are.
    pub fn to_config(&self, base: &Config) -> (r: Result<Config, String>)
        requires
            self@.wf(),
        ensures
            match r {
                Ok(c) => self@.applied(base@) == Ok::<ConfigView, Seq<char>>(c@),
                Err(e) => self@.applied(base@) == Err::<ConfigView, Seq<char>>(e@),
            },
    {
        let mut cfg = base.clone();
        cfg.immich.url = trim(self.fields[IMMICH_URL].value.as_str());
        cfg.immich.api_key = trim(self.fields[IMMICH_KEY].value.as_str());
        cfg.immich.timeout_secs =
        match self.number(IMMICH_TIMEOUT, u64::MAX) {
            Some(n) => n,
            None => return Err("immich timeout must be a whole number".to_owned()),
        };
        cfg.llm.base_url = trim(self.fields[LLM_URL].value.as_str());
        cfg.llm.api_key = trim(self.fields[LLM_KEY].value.as_str());
        cfg.llm.model = trim(self.fields[LLM_MODEL].value.as_str());
        cfg.llm.prompt = self.fields[PROMPT].value.clone();
        cfg.llm.timeout_secs =
        match self.number(LLM_TIMEOUT, u64::MAX) {
            Some(n) => n,
            None => return Err("llm timeout must be a whole number".to_owned()),
        };
        cfg.run.workers =
        match self.number(WORKERS, usize::MAX as u64) {
            Some(n) => n as usize,
            None => return Err("workers must be a whole number".to_owned()),
        };
        cfg.run.retries =
        match self.number(RETRIES, u32::MAX as u64) {
            Some(n) => n as u32,
            None => return Err("retries must be a whole number".to_owned()),
        };
        cfg.llm.max_tokens =
        match self.number(MAX_TOKENS, u32::MAX as u64) {
            Some(n) => n as u32,
            None => return Err("max tokens must be a whole number".to_owned()),
        };
        cfg.ui.theme = self.theme;
        cfg.run.dry_run = self.dry_run;
        assert(cfg@ =~= self@.candidate(base@));
        match cfg.validate() {
            Ok(_) => Ok(cfg),
            Err(error) => Err(error.to_string()),
        }
    }
}

// ---------------------------------------------------------------------------
// Laws
// ---------------------------------------------------------------------------

/// `c` with the white space round its one-line texts taken off.
pub open spec fn tidied(c: ConfigView) -> ConfigView {
    ConfigView {
        immich: ImmichConfigView {
            url: trimmed(c.immich.url),
            api_key: trimmed(c.immich.api_key),
            ..c.immich
        },
        llm: LlmConfigView {
            base_url: trimmed(c.llm.base_url),
            api_key: trimmed(c.llm.api_key),
            model: trimmed(c.llm.model),
            ..c.llm
        },
        ..c
    }
}

/// A form that nobody edited gives its configuration back, white space round the one-line
/// texts aside, or says what is wrong with it.
pub proof fn law_unedited_form_gives_the_config_back(c: ConfigView)
    ensures
        form_of(c).applied(c) == match config_complaint(tidied(c)) {
            None => Ok::<ConfigView, Seq<char>>(tidied(c)),
            Some(message) => Err("invalid config: "@ + message),
        },
{
    lemma_decimal_round_trip(c.immich.timeout_secs as nat, u64::MAX as nat);
    lemma_decimal_round_trip(c.llm.timeout_secs as nat, u64::MAX as nat);
    lemma_decimal_round_trip(c.run.workers as nat, usize::MAX as nat);
    lemma_decimal_round_trip(c.run.retries as nat, u32::MAX as nat);
    lemma_decimal_round_trip(c.llm.max_tokens as nat, u32::MAX as nat);
    assert(form_of(c).candidate(c) =~= tidied(c));
}

/// A configuration that leaves the form has passed validation and keeps the values that the
/// form does not show.
pub proof fn law_form_output_is_valid(form: FormView, base: ConfigView)
    requires
        form.applied(base) is Ok,
    ensures
        config_complaint(form.applied(base)->Ok_0) is None,
        form.applied(base)->Ok_0.run.page_size == base.run.page_size,
        form.applied(base)->Ok_0.llm.prompt == form.prompt(),
{
}

/// A configuration that was saved from the form comes back from it unchanged.
pub proof fn law_saved_config_is_stable(form: FormView, base: ConfigView)
    requires
        form.applied(base) is Ok,
    ensures
        form_of(form.applied(base)->Ok_0).applied(form.applied(base)->Ok_0) == form.applied(base),
{
    let c = form.applied(base)->Ok_0;
    lemma_trimmed_idempotent(form.value(IMMICH_URL as int));
    lemma_trimmed_idempotent(form.value(IMMICH_KEY as int));
    lemma_trimmed_idempotent(form.value(LLM_URL as int));
    lemma_trimmed_idempotent(form.value(LLM_KEY as int));
    lemma_trimmed_idempotent(form.value(LLM_MODEL as int));
    assert(tidied(c) =~= c);
    law_unedited_form_gives_the_config_back(c);
}

/// The two ways to move the focus undo each other.
pub proof fn law_focus_moves_undo_each_other(form: FormView)
    requires
        form.focused < FIELD_COUNT,
    ensures
        form.focused_next().focused_previous() == form,
        form.focused_previous().focused_next() == form,
        form.focused_next().focused < FIELD_COUNT,
        form.focused_previous().focused < FIELD_COUNT,
{
}

/// Typing, erasing and clearing leave every field alone but the focused one, and the
/// selectors hold no text to edit.
pub proof fn law_edits_stay_in_the_focused_field(form: FormView, c: char, i: int)
    requires
        form.wf(),
        0 <= i < form.fields.len(),
        i != form.focused,
    ensures
        form.typed(c).fields[i] == form.fields[i],
        form.erased().fields[i] == form.fields[i],
        form.cleared().fields[i] == form.fields[i],
        form.typed(c).wf() && form.erased().wf() && form.cleared().wf(),
        form.focused >= TEXT_FIELDS ==> form.typed(c) == form && form.erased() == form
            && form.cleared() == form,
{
}

/// In a one-line field a backspace undoes the character typed last.
pub proof fn law_backspace_undoes_typing(form: FormView, c: char)
    requires
        form.wf(),
        form.focused != PROMPT,
    ensures
        form.typed(c).erased() == form,
{
    if form.focused < form.fields.len() {
        let i = form.focused as int;
        assert(form.value(i).push(c).drop_last() =~= form.value(i));
        assert(form.typed(c).erased().fields =~= form.fields);
    }
}

/// A hidden secret shows nothing of its text but the length.
pub proof fn law_hidden_secrets_show_only_their_length(a: FormView, b: FormView, i: int)
    requires
        a.fields[i].secret && !a.show_secrets,
        b.fields[i].secret && !b.show_secrets,
        a.value(i).len() == b.value(i).len(),
    ensures
        a.shown(i) == b.shown(i),
{
}

proof fn lemma_cursor_row(form: FormView)
    ensures
        form.cursor_row() < prompt_rows(form.prompt(), form.prompt_width).len(),
{
    let ps = graphemes(form.prompt());
    law_cursor_is_on_a_row(
        ps,
        widths_of(ps),
        at_least_one(form.prompt_width),
        at_most(form.prompt_cursor, ps.len()),
    );
}

} // verus!
