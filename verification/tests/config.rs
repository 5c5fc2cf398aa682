use immich_alt_text::config::{
    default_path, first_save_step, next_save_step, next_temp_step, state_dir, temp_name, Config,
    ImmichConfig, LlmConfig, RunConfig, SaveStage, SaveStep, TempResult, TempStep, ThemeName,
    UiConfig, DEFAULT_PROMPT, TEMP_FILE_TRIES,
};

fn full() -> Config {
    Config {
        immich: ImmichConfig {
            url: "https://photos.home.lan".into(),
            api_key: "k1".into(),
            timeout_secs: 30,
        },
        llm: LlmConfig {
            base_url: "http://localhost:1234/v1".into(),
            api_key: String::new(),
            model: "gemma-3-12b-it".into(),
            max_tokens: 200,
            timeout_secs: 120,
            prompt: "describe".into(),
        },
        run: RunConfig {
            workers: 2,
            retries: 3,
            page_size: 500,
            dry_run: false,
        },
        ui: UiConfig {
            theme: ThemeName::Mono,
        },
    }
}

#[test]
fn rejects_bad_url() {
    let mut cfg = full();
    cfg.immich.url = "photos.home.lan".into();
    let err = cfg.validate().unwrap_err().to_string();
    assert!(err.contains("immich.url"), "{err}");

    let mut cfg = full();
    cfg.llm.base_url = "ftp://x".into();
    let err = cfg.validate().unwrap_err().to_string();
    assert!(err.contains("llm.base_url"), "{err}");
}

#[test]
fn rejects_zero_workers_and_bad_page_size() {
    let mut cfg = full();
    cfg.run.workers = 0;
    assert!(cfg.validate().is_err());

    let mut cfg = full();
    cfg.run.page_size = 1001;
    assert!(cfg.validate().is_err());
}

#[test]
fn rejects_extreme_worker_retry_and_page_limits() {
    let mut cfg = full();
    cfg.run.workers = usize::MAX;
    assert!(cfg
        .validate()
        .unwrap_err()
        .to_string()
        .contains("run.workers"));

    let mut cfg = full();
    cfg.run.retries = u32::MAX;
    assert!(cfg
        .validate()
        .unwrap_err()
        .to_string()
        .contains("run.retries"));

    let mut cfg = full();
    cfg.run.page_size = u32::MAX;
    assert!(cfg
        .validate()
        .unwrap_err()
        .to_string()
        .contains("run.page_size"));
}

#[test]
fn rejects_empty_key_and_model() {
    let mut cfg = full();
    cfg.immich.api_key = "  ".into();
    assert!(cfg.validate().is_err());

    let mut cfg = full();
    cfg.llm.model = String::new();
    assert!(cfg.validate().is_err());
}

#[test]
fn default_paths_follow_xdg() {
    let home = || Some(b"/home/me".to_vec());
    let p = path(default_path(None, home()));
    assert!(p.ends_with("immich-alt-text/config.toml"), "{p:?}");
    let s = path(state_dir(None, home()));
    assert!(s.ends_with("immich-alt-text"), "{s:?}");
}

fn path(bytes: Vec<u8>) -> std::path::PathBuf {
    std::path::PathBuf::from(String::from_utf8(bytes).unwrap())
}

#[test]
fn paths_use_the_environment_or_fall_back() {
    let home = || Some(b"/home/me".to_vec());
    assert_eq!(
        default_path(None, home()),
        b"/home/me/.config/immich-alt-text/config.toml".to_vec()
    );
    assert_eq!(
        default_path(Some(b"".to_vec()), home()),
        b"/home/me/.config/immich-alt-text/config.toml".to_vec(),
        "an empty variable counts as not set"
    );
    assert_eq!(
        default_path(Some(b"/cfg/".to_vec()), home()),
        b"/cfg/immich-alt-text/config.toml".to_vec()
    );
    assert_eq!(
        state_dir(None, home()),
        b"/home/me/.local/state/immich-alt-text".to_vec()
    );
    assert_eq!(
        state_dir(Some(b"/state".to_vec()), None),
        b"/state/immich-alt-text".to_vec()
    );
    assert_eq!(
        state_dir(None, None),
        b"./.local/state/immich-alt-text".to_vec()
    );
}

#[test]
fn defaults_are_those_of_an_empty_file() {
    let cfg = Config::default();
    assert_eq!(cfg.run.workers, 1);
    assert_eq!(cfg.run.retries, 3);
    assert_eq!(cfg.run.page_size, 1000);
    assert!(!cfg.run.dry_run);
    assert_eq!(cfg.llm.max_tokens, 200);
    assert_eq!(cfg.llm.timeout_secs, 120);
    assert_eq!(cfg.immich.timeout_secs, 30);
    assert_eq!(cfg.llm.base_url, "http://localhost:1234/v1");
    assert_eq!(cfg.llm.prompt, DEFAULT_PROMPT);
    assert_eq!(cfg.ui.theme, ThemeName::Btop);
    assert_eq!(cfg.clone(), cfg);
}

fn complaint(change: impl Fn(&mut Config)) -> String {
    let mut cfg = full();
    change(&mut cfg);
    cfg.validate().unwrap_err().to_string()
}

#[test]
fn every_rule_has_its_message() {
    assert!(full().validate().is_ok());
    assert_eq!(
        complaint(|c| c.immich.url = "".into()),
        "invalid config: immich.url: relative URL without a base"
    );
    assert_eq!(
        complaint(|c| c.llm.base_url = "ftp://x".into()),
        "invalid config: llm.base_url must start with http:// or https://"
    );
    assert_eq!(
        complaint(|c| c.immich.api_key = "\t ".into()),
        "invalid config: immich.api_key must not be empty"
    );
    assert_eq!(
        complaint(|c| c.llm.model = " ".into()),
        "invalid config: llm.model must not be empty"
    );
    assert_eq!(
        complaint(|c| c.llm.max_tokens = 0),
        "invalid config: llm.max_tokens must be at least 1"
    );
    assert_eq!(
        complaint(|c| c.run.workers = 65),
        "invalid config: run.workers must be between 1 and 64"
    );
    assert_eq!(
        complaint(|c| c.run.retries = 11),
        "invalid config: run.retries must be at most 10"
    );
    assert_eq!(
        complaint(|c| c.run.page_size = 0),
        "invalid config: run.page_size must be between 1 and 1000"
    );
}

#[test]
fn the_first_broken_rule_is_reported() {
    let text = complaint(|c| {
        c.immich.url = "ftp://x".into();
        c.run.workers = 0;
    });
    assert_eq!(
        text,
        "invalid config: immich.url must start with http:// or https://"
    );
}

#[test]
fn limits_themselves_are_valid() {
    let mut cfg = full();
    cfg.run.workers = 64;
    cfg.run.retries = 10;
    cfg.run.page_size = 1000;
    assert!(cfg.validate().is_ok());
}

#[test]
fn themes_cycle_both_ways() {
    for theme in [ThemeName::Btop, ThemeName::Mono] {
        assert_eq!(theme.next().previous(), theme);
        assert_eq!(theme.previous().next(), theme);
    }
    assert_eq!(ThemeName::Btop.label(), "btop");
    assert_eq!(ThemeName::Mono.label(), "mono");
}

#[test]
fn a_save_persists_only_after_all_three_stages() {
    for fail_at in [Some(SaveStage::Write), Some(SaveStage::Flush), Some(SaveStage::Sync), None] {
        let mut step = first_save_step();
        let mut stages = Vec::new();
        while let SaveStep::Stage(stage) = step {
            stages.push(stage);
            step = next_save_step(stage, Some(stage) != fail_at);
        }
        match fail_at {
            Some(stage) => {
                assert_eq!(step, SaveStep::Discard);
                assert_eq!(stages.last(), Some(&stage));
            }
            None => {
                assert_eq!(step, SaveStep::Persist);
                assert_eq!(stages, vec![SaveStage::Write, SaveStage::Flush, SaveStage::Sync]);
            }
        }
    }
}

#[test]
fn temp_files_are_tried_until_a_name_is_free() {
    assert_eq!(next_temp_step(1, TempResult::Created), TempStep::Use);
    assert_eq!(next_temp_step(1, TempResult::Exists), TempStep::TryNext);
    assert_eq!(
        next_temp_step(TEMP_FILE_TRIES, TempResult::Exists),
        TempStep::GiveUp
    );
    assert_eq!(next_temp_step(7, TempResult::Failed), TempStep::Report);
}

#[test]
fn temp_names_are_hidden_and_differ() {
    let file = b"config.toml".to_vec();
    assert_eq!(temp_name(&file, 42, 0), b".config.toml.42.0.tmp".to_vec());
    assert_eq!(temp_name(&file, 42, 17), b".config.toml.42.17.tmp".to_vec());
    assert_ne!(temp_name(&file, 1, 11), temp_name(&file, 1, 1));
}
