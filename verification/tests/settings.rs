use immich_alt_text::config::{Config, ThemeName};
use immich_alt_text::settings::{
    prompt_layout, SettingsForm, DRY_RUN, IMMICH_KEY, IMMICH_TIMEOUT, IMMICH_URL, LLM_KEY,
    LLM_MODEL, LLM_TIMEOUT, LLM_URL, MAX_TOKENS, PROMPT, PROMPT_WRAP_WIDTH, RETRIES, THEME,
    WORKERS,
};

fn base() -> Config {
    let mut c = Config::default();
    c.immich.url = "https://photos.home.lan".into();
    c.immich.api_key = "secret-key".into();
    c.llm.model = "gemma".into();
    c.llm.prompt = "custom prompt".into();
    c.run.workers = 2;
    c
}

#[test]
fn from_config_fills_all_fields() {
    let f = SettingsForm::from_config(&base());
    assert_eq!(f.fields.len(), 11);
    assert_eq!(f.fields[IMMICH_URL].value, "https://photos.home.lan");
    assert_eq!(f.fields[IMMICH_KEY].value, "secret-key");
    assert_eq!(f.fields[LLM_URL].value, "http://localhost:1234/v1");
    assert_eq!(f.fields[LLM_KEY].value, "");
    assert_eq!(f.fields[LLM_MODEL].value, "gemma");
    assert_eq!(f.fields[PROMPT].value, "custom prompt");
    assert_eq!(f.fields[IMMICH_TIMEOUT].value, "30");
    assert_eq!(f.fields[LLM_TIMEOUT].value, "120");
    assert_eq!(f.fields[WORKERS].value, "2");
    assert_eq!(f.fields[RETRIES].value, "3");
    assert_eq!(f.fields[MAX_TOKENS].value, "200");
    assert_eq!(f.theme, ThemeName::Btop);
    assert!(!f.dry_run);
    assert_eq!(f.focused, 0);
}

#[test]
fn secrets_are_masked_until_revealed() {
    let mut f = SettingsForm::from_config(&base());
    assert_eq!(f.display_value(IMMICH_KEY), "••••••••••");
    assert_eq!(f.display_value(IMMICH_URL), "https://photos.home.lan");
    f.toggle_secrets();
    assert_eq!(f.display_value(IMMICH_KEY), "secret-key");
}

#[test]
fn focus_wraps_both_ways() {
    let mut f = SettingsForm::from_config(&base());
    f.focus_prev();
    assert_eq!(f.focused, DRY_RUN);
    f.focus_next();
    assert_eq!(f.focused, IMMICH_URL);
}

#[test]
fn theme_selection_cycles_without_text_editing() {
    let mut f = SettingsForm::from_config(&base());
    f.focused = THEME;
    f.select_theme_next();
    assert_eq!(f.theme, ThemeName::Mono);
    f.select_theme_prev();
    assert_eq!(f.theme, ThemeName::Btop);
    f.insert('x');
    assert!(f.fields.iter().all(|field| !field.value.ends_with('x')));
}

#[test]
fn dry_run_selection_toggles_without_text_editing() {
    let mut f = SettingsForm::from_config(&base());
    f.focused = DRY_RUN;
    f.select_dry_run_next();
    assert!(f.dry_run);
    f.select_dry_run_prev();
    assert!(!f.dry_run);
    f.insert('x');
    assert!(f.fields.iter().all(|field| !field.value.ends_with('x')));
}

#[test]
fn to_config_persists_dry_run_selection() {
    let mut f = SettingsForm::from_config(&base());
    f.dry_run = true;
    let cfg = f.to_config(&base()).unwrap();
    assert!(cfg.run.dry_run);
}

#[test]
fn edits_apply_to_the_focused_field() {
    let mut f = SettingsForm::from_config(&base());
    f.focused = LLM_MODEL;
    f.backspace();
    f.insert('X');
    assert_eq!(f.fields[LLM_MODEL].value, "gemmX");
}

#[test]
fn prompt_editor_supports_newlines_and_cursor_movement() {
    let mut f = SettingsForm::from_config(&base());
    f.focused = PROMPT;
    f.clear();
    f.insert('A');
    f.newline();
    f.insert('B');
    f.move_prompt_up();
    f.insert('!');
    f.move_prompt_down();
    f.backspace();

    assert_eq!(f.fields[PROMPT].value, "A!\n");
}

#[test]
fn prompt_editor_keeps_the_full_multiline_value_when_saved() {
    let mut f = SettingsForm::from_config(&base());
    f.fields[PROMPT].value = "\nfirst line\nsecond line\n".into();
    let cfg = f.to_config(&base()).unwrap();
    assert_eq!(cfg.llm.prompt, "\nfirst line\nsecond line\n");
}

#[test]
fn prompt_editor_treats_a_zwj_emoji_as_one_editable_unit() {
    let mut f = SettingsForm::from_config(&base());
    f.focused = PROMPT;
    f.clear();
    f.insert('👩');
    f.insert('\u{200d}');
    f.insert('💻');
    f.backspace();

    assert!(f.fields[PROMPT].value.is_empty());
}

#[test]
fn prompt_editor_moves_across_soft_wrapped_rows() {
    let mut f = SettingsForm::from_config(&base());
    f.focused = PROMPT;
    f.clear();
    for _ in 0..(PROMPT_WRAP_WIDTH + 5) {
        f.insert('x');
    }

    f.move_prompt_up();

    assert_eq!(f.prompt_cursor, 5);
}

#[test]
fn clear_removes_the_focused_text_field_but_not_theme() {
    let mut f = SettingsForm::from_config(&base());
    f.focused = PROMPT;
    f.clear();
    assert!(f.fields[PROMPT].value.is_empty());

    f.focused = THEME;
    f.clear();
    assert_eq!(f.theme, ThemeName::Btop);
}

#[test]
fn to_config_keeps_file_only_values() {
    let mut f = SettingsForm::from_config(&base());
    f.fields[WORKERS].value = "4".into();
    f.fields[PROMPT].value = "updated prompt".into();
    f.fields[IMMICH_TIMEOUT].value = "45".into();
    f.fields[LLM_TIMEOUT].value = "180".into();
    f.fields[RETRIES].value = "5".into();
    f.fields[MAX_TOKENS].value = "300".into();
    f.theme = ThemeName::Mono;
    let cfg = f.to_config(&base()).unwrap();
    assert_eq!(cfg.run.workers, 4);
    assert_eq!(cfg.run.retries, 5);
    assert_eq!(cfg.llm.max_tokens, 300);
    assert_eq!(cfg.llm.prompt, "updated prompt");
    assert_eq!(cfg.immich.timeout_secs, 45);
    assert_eq!(cfg.llm.timeout_secs, 180);
    assert_eq!(cfg.ui.theme, ThemeName::Mono);
}

#[test]
fn to_config_reports_bad_numbers_and_invalid_values() {
    let mut f = SettingsForm::from_config(&base());
    f.fields[WORKERS].value = "many".into();
    assert!(f.to_config(&base()).unwrap_err().contains("workers"));

    let mut f = SettingsForm::from_config(&base());
    f.fields[WORKERS].value = "0".into();
    assert!(f.to_config(&base()).unwrap_err().contains("workers"));

    let mut f = SettingsForm::from_config(&base());
    f.fields[IMMICH_URL].value = "nope".into();
    assert!(f.to_config(&base()).unwrap_err().contains("immich.url"));

    let mut f = SettingsForm::from_config(&base());
    f.fields[IMMICH_TIMEOUT].value = "not-a-number".into();
    assert!(f.to_config(&base()).unwrap_err().contains("immich timeout"));

    let mut f = SettingsForm::from_config(&base());
    f.fields[LLM_TIMEOUT].value = "not-a-number".into();
    assert!(f.to_config(&base()).unwrap_err().contains("llm timeout"));
}

#[test]
fn an_unedited_form_gives_the_config_back() {
    let cfg = base();
    let form = SettingsForm::from_config(&cfg);
    assert_eq!(form.to_config(&cfg).unwrap(), cfg);
}

#[test]
fn white_space_round_one_line_fields_is_dropped() {
    let mut f = SettingsForm::from_config(&base());
    f.fields[IMMICH_URL].value = "  https://photos.home.lan \t".into();
    f.fields[WORKERS].value = " +7 ".into();
    let cfg = f.to_config(&base()).unwrap();
    assert_eq!(cfg.immich.url, "https://photos.home.lan");
    assert_eq!(cfg.run.workers, 7);
}

#[test]
fn each_number_has_its_own_complaint() {
    let cases = [
        (IMMICH_TIMEOUT, "immich timeout must be a whole number"),
        (LLM_TIMEOUT, "llm timeout must be a whole number"),
        (WORKERS, "workers must be a whole number"),
        (RETRIES, "retries must be a whole number"),
        (MAX_TOKENS, "max tokens must be a whole number"),
    ];
    for (field, message) in cases {
        for text in ["", "-1", "1.5", "99999999999999999999"] {
            let mut f = SettingsForm::from_config(&base());
            f.fields[field].value = text.into();
            assert_eq!(f.to_config(&base()).unwrap_err(), message);
        }
    }
    let mut f = SettingsForm::from_config(&base());
    f.fields[RETRIES].value = "4294967296".into();
    assert_eq!(
        f.to_config(&base()).unwrap_err(),
        "retries must be a whole number"
    );
}

#[test]
fn focus_moves_undo_each_other() {
    let mut f = SettingsForm::from_config(&base());
    for focused in 0..=DRY_RUN {
        f.focused = focused;
        f.focus_next();
        f.focus_prev();
        assert_eq!(f.focused, focused);
    }
    f.focused = DRY_RUN;
    assert!(f.is_last_focused());
    f.focused = THEME;
    assert!(!f.is_last_focused());
}

#[test]
fn backspace_undoes_typing_and_stops_at_the_start() {
    let mut f = SettingsForm::from_config(&base());
    f.focused = LLM_KEY;
    f.insert('é');
    assert_eq!(f.fields[LLM_KEY].value, "é");
    f.backspace();
    f.backspace();
    assert_eq!(f.fields[LLM_KEY].value, "");
    assert_eq!(f.clone(), f);
}

#[test]
fn prompt_cursor_moves_by_grapheme_clusters() {
    let mut f = SettingsForm::from_config(&base());
    f.focused = PROMPT;
    f.fields[PROMPT].value = "ae\u{301}b".into();
    f.prompt_cursor = 0;
    f.move_prompt_right();
    f.move_prompt_right();
    assert_eq!(f.prompt_cursor, 2);
    f.insert('-');
    assert_eq!(f.fields[PROMPT].value, "ae\u{301}-b");
    f.move_prompt_right();
    f.move_prompt_right();
    assert_eq!(f.prompt_cursor, 4, "stops at the end");
    f.move_prompt_left();
    f.move_prompt_left();
    f.backspace();
    assert_eq!(f.fields[PROMPT].value, "a-b", "a cluster goes as a whole");
    assert_eq!(f.prompt_cursor, 1);
    f.focused = LLM_URL;
    f.move_prompt_left();
    assert_eq!(f.prompt_cursor, 1, "only in the prompt");
}

#[test]
fn prompt_rows_wrap_at_the_width_and_at_line_ends() {
    let layout = prompt_layout("abcd\nef", 7, 3);
    assert_eq!(layout.rows, vec!["abc", "d", "ef"]);
    assert_eq!(layout.row_starts, vec![0, 3, 5]);
    assert_eq!((layout.cursor_row, layout.cursor_column), (2, 2));

    let layout = prompt_layout("日本語", 1, 4);
    assert_eq!(layout.rows, vec!["日本", "語"], "wide characters take two cells");
    assert_eq!((layout.cursor_row, layout.cursor_column), (0, 1));

    let layout = prompt_layout("", 9, 0);
    assert_eq!(layout.rows, vec![""]);
    assert_eq!((layout.cursor_row, layout.cursor_column), (0, 0));
}

#[test]
fn prompt_width_follows_the_screen() {
    let mut f = SettingsForm::from_config(&base());
    f.focused = PROMPT;
    f.fields[PROMPT].value = "abcdef".into();
    f.prompt_cursor = 6;
    f.set_prompt_width(4);
    f.move_prompt_up();
    assert_eq!(f.prompt_cursor, 2);
    f.move_prompt_down();
    assert_eq!(f.prompt_cursor, 6);
    f.set_prompt_width(0);
    assert_eq!(f.prompt_width, 1);
}

#[test]
fn hidden_secrets_show_only_their_length() {
    let mut f = SettingsForm::from_config(&base());
    f.fields[IMMICH_KEY].value = "äöü".into();
    f.fields[LLM_KEY].value = "abc".into();
    assert_eq!(f.display_value(IMMICH_KEY), f.display_value(LLM_KEY));
    assert_eq!(f.display_value(LLM_KEY), "•••");
    assert_eq!(f.display_value(LLM_MODEL), "gemma");
}

#[test]
fn a_saved_config_comes_back_unchanged() {
    let mut f = SettingsForm::from_config(&base());
    f.fields[LLM_MODEL].value = "  gemma 3  ".into();
    f.fields[RETRIES].value = "007".into();
    let saved = f.to_config(&base()).unwrap();
    assert_eq!(saved.llm.model, "gemma 3");
    assert_eq!(saved.run.retries, 7);
    let again = SettingsForm::from_config(&saved);
    assert_eq!(again.to_config(&saved).unwrap(), saved);
    assert_eq!(saved.run.page_size, base().run.page_size);
}

#[test]
fn edits_leave_the_other_fields_alone() {
    let before = SettingsForm::from_config(&base());
    for focused in 0..=DRY_RUN {
        let mut f = before.clone();
        f.focused = focused;
        f.insert('z');
        f.clear();
        for i in 0..f.fields.len() {
            let cleared = i == focused && !before.fields[i].value.is_empty();
            assert_eq!(f.fields[i] != before.fields[i], cleared);
        }
    }
}

#[test]
fn prompt_rows_hold_the_whole_text() {
    let text = "one two\n\nthree 日本語 four";
    for width in 1..12 {
        let layout = prompt_layout(text, 0, width);
        assert_eq!(layout.rows.concat(), text.replace('\n', ""));
        assert_eq!(layout.rows.len(), layout.row_starts.len());
        for cursor in 0..30 {
            let layout = prompt_layout(text, cursor, width);
            assert!(layout.cursor_row < layout.rows.len());
        }
    }
}
