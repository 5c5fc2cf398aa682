//! Configuration: values, defaults, validation, file locations and the steps of a save.
use vstd::prelude::*;
use vstd::string::*;
use vstd::utf8::{encode_utf8, encode_utf8_decode_utf8};

use crate::text::{blank, cat, decimal, decimal_of, is_blank, lemma_decimal_digits, same};
use crate::urls::{parse_url, parsed_view, url_parts, ParsedUrl, UrlParts};

verus! {

/// Prompt used when the config file does not set `llm.prompt`.
pub const DEFAULT_PROMPT: &'static str = "Write alt text for this photo: one or two plain sentences describing what is visible. No preamble, no quotes, no \"This image shows\".";

pub const MAX_WORKERS: usize = 64;

pub const MAX_RETRIES: u32 = 10;

pub const MAX_PAGE_SIZE: u32 = 1000;

/// Whole config file. Missing keys take defaults.
#[derive(Debug, PartialEq)]
pub struct Config {
    pub immich: ImmichConfig,
    pub llm: LlmConfig,
    pub run: RunConfig,
    pub ui: UiConfig,
}

#[derive(Debug, PartialEq)]
pub struct ImmichConfig {
    pub url: String,
    pub api_key: String,
    pub timeout_secs: u64,
}

#[derive(Debug, PartialEq)]
pub struct LlmConfig {
    pub base_url: String,
    pub api_key: String,
    pub model: String,
    pub max_tokens: u32,
    pub timeout_secs: u64,
    pub prompt: String,
}

#[derive(Debug, Clone, Copy, PartialEq, Eq, Structural)]
pub struct RunConfig {
    pub workers: usize,
    pub retries: u32,
    pub page_size: u32,
    /// Describe the photos without writing anything back.
    pub dry_run: bool,
}

#[derive(Debug, Clone, Copy, PartialEq, Eq, Structural)]
pub struct UiConfig {
    pub theme: ThemeName,
}

#[derive(Debug, Clone, Copy, PartialEq, Eq, Structural)]
pub enum ThemeName {
    Btop,
    Mono,
}

#[derive(Debug, Clone)]
pub enum ConfigError {
    Invalid(String),
}

// ---------------------------------------------------------------------------
// Models
// ---------------------------------------------------------------------------

/// Mathematical model of [`Config`].
#[verifier::ext_equal]
pub struct ConfigView {
    pub immich: ImmichConfigView,
    pub llm: LlmConfigView,
    pub run: RunConfig,
    pub ui: UiConfig,
}

#[verifier::ext_equal]
pub struct ImmichConfigView {
    pub url: Seq<char>,
    pub api_key: Seq<char>,
    pub timeout_secs: u64,
}

#[verifier::ext_equal]
pub struct LlmConfigView {
    pub base_url: Seq<char>,
    pub api_key: Seq<char>,
    pub model: Seq<char>,
    pub max_tokens: u32,
    pub timeout_secs: u64,
    pub prompt: Seq<char>,
}

impl View for ImmichConfig {
    type V = ImmichConfigView;

    open spec fn view(&self) -> ImmichConfigView {
        ImmichConfigView {
            url: self.url@,
            api_key: self.api_key@,
            timeout_secs: self.timeout_secs,
        }
    }
}

impl View for LlmConfig {
    type V = LlmConfigView;

    open spec fn view(&self) -> LlmConfigView {
        LlmConfigView {
            base_url: self.base_url@,
            api_key: self.api_key@,
            model: self.model@,
            max_tokens: self.max_tokens,
            timeout_secs: self.timeout_secs,
            prompt: self.prompt@,
        }
    }
}

impl View for Config {
    type V = ConfigView;

    open spec fn view(&self) -> ConfigView {
        ConfigView { immich: self.immich@, llm: self.llm@, run: self.run, ui: self.ui }
    }
}

impl ConfigError {
    /// The message shown to the user.
    pub open spec fn text(self) -> Seq<char> {
        match self {
            ConfigError::Invalid(message) => "invalid config: "@ + message@,
        }
    }

    /// The message shown to the user.
    pub fn to_string(&self) -> (r: String)
        ensures
            r@ == self.text(),
    {
        match self {
            ConfigError::Invalid(message) => cat("invalid config: ", message.as_str()),
        }
    }
}

// ---------------------------------------------------------------------------
// Defaults and copies
// ---------------------------------------------------------------------------

impl Clone for ImmichConfig {
    fn clone(&self) -> (r: Self)
        ensures
            r == *self,
    {
        ImmichConfig {
            url: self.url.clone(),
            api_key: self.api_key.clone(),
            timeout_secs: self.timeout_secs,
        }
    }
}

impl Clone for LlmConfig {
    fn clone(&self) -> (r: Self)
        ensures
            r == *self,
    {
        LlmConfig {
            base_url: self.base_url.clone(),
            api_key: self.api_key.clone(),
            model: self.model.clone(),
            max_tokens: self.max_tokens,
            timeout_secs: self.timeout_secs,
            prompt: self.prompt.clone(),
        }
    }
}

impl Clone for Config {
    fn clone(&self) -> (r: Self)
        ensures
            r == *self,
    {
        Config { immich: self.immich.clone(), llm: self.llm.clone(), run: self.run, ui: self.ui }
    }
}

impl Default for ImmichConfig {
    fn default() -> (r: Self)
        ensures
            r@ == default_immich(),
    {
        ImmichConfig { url: String::new(), api_key: String::new(), timeout_secs: 30 }
    }
}

impl Default for LlmConfig {
    fn default() -> (r: Self)
        ensures
            r@ == default_llm(),
    {
        LlmConfig {
            base_url: "http://localhost:1234/v1".to_owned(),
            api_key: String::new(),
            model: String::new(),
            max_tokens: 200,
            timeout_secs: 120,
            prompt: DEFAULT_PROMPT.to_owned(),
        }
    }
}

impl Default for RunConfig {
    fn default() -> (r: Self)
        ensures
            r == default_run(),
    {
        RunConfig { workers: 1, retries: 3, page_size: 1000, dry_run: false }
    }
}

impl Default for ThemeName {
    fn default() -> (r: Self)
        ensures
            r == ThemeName::Btop,
    {
        ThemeName::Btop
    }
}

impl Default for UiConfig {
    fn default() -> (r: Self)
        ensures
            r.theme == ThemeName::Btop,
    {
        UiConfig { theme: ThemeName::default() }
    }
}

impl Default for Config {
    fn default() -> (r: Self)
        ensures
            r@ == default_config(),
    {
        Config {
            immich: ImmichConfig::default(),
            llm: LlmConfig::default(),
            run: RunConfig::default(),
            ui: UiConfig::default(),
        }
    }
}

pub open spec fn default_immich() -> ImmichConfigView {
    ImmichConfigView { url: seq![], api_key: seq![], timeout_secs: 30 }
}

pub open spec fn default_llm() -> LlmConfigView {
    LlmConfigView {
        base_url: "http://localhost:1234/v1"@,
        api_key: seq![],
        model: seq![],
        max_tokens: 200,
        timeout_secs: 120,
        prompt: DEFAULT_PROMPT@,
    }
}

pub open spec fn default_run() -> RunConfig {
    RunConfig { workers: 1, retries: 3, page_size: 1000, dry_run: false }
}

/// The configuration of an empty file.
pub open spec fn default_config() -> ConfigView {
    ConfigView {
        immich: default_immich(),
        llm: default_llm(),
        run: default_run(),
        ui: UiConfig { theme: ThemeName::Btop },
    }
}

// ---------------------------------------------------------------------------
// Theme names
// ---------------------------------------------------------------------------

impl ThemeName {
    /// The theme after this one, in a cycle.
    pub open spec fn after(self) -> ThemeName {
        match self {
            ThemeName::Btop => ThemeName::Mono,
            ThemeName::Mono => ThemeName::Btop,
        }
    }

    /// The name in the config file and on the settings screen.
    pub open spec fn name(self) -> Seq<char> {
        match self {
            ThemeName::Btop => "btop"@,
            ThemeName::Mono => "mono"@,
        }
    }

    /// The next theme, in a cycle.
    pub fn next(self) -> (r: ThemeName)
        ensures
            r == self.after(),
    {
        match self {
            ThemeName::Btop => ThemeName::Mono,
            ThemeName::Mono => ThemeName::Btop,
        }
    }

    /// The previous theme, in a cycle.
    pub fn previous(self) -> (r: ThemeName)
        ensures
            r.after() == self,
    {
        match self {
            ThemeName::Btop => ThemeName::Mono,
            ThemeName::Mono => ThemeName::Btop,
        }
    }

    /// The name in the config file and on the settings screen.
    pub fn label(self) -> (r: &'static str)
        ensures
            r@ == self.name(),
    {
        match self {
            ThemeName::Btop => "btop",
            ThemeName::Mono => "mono",
        }
    }
}

// ---------------------------------------------------------------------------
// Validation
// ---------------------------------------------------------------------------

/// What is wrong with a URL field, if anything.
pub open spec fn url_complaint(field: Seq<char>, parsed: ParsedUrl) -> Option<Seq<char>> {
    match parsed {
        Err(error) => Some(field + ": "@ + error),
        Ok(parts) => if parts.scheme == "http"@ || parts.scheme == "https"@ {
            None
        } else {
            Some(field + " must start with http:// or https://"@)
        },
    }
}

/// The first rule that `c` breaks, given what its two URLs parse to.
pub open spec fn complaint(c: ConfigView, immich: ParsedUrl, llm: ParsedUrl) -> Option<Seq<char>> {
    if url_complaint("immich.url"@, immich) is Some {
        url_complaint("immich.url"@, immich)
    } else if url_complaint("llm.base_url"@, llm) is Some {
        url_complaint("llm.base_url"@, llm)
    } else if blank(c.immich.api_key) {
        Some("immich.api_key must not be empty"@)
    } else if blank(c.llm.model) {
        Some("llm.model must not be empty"@)
    } else if c.llm.max_tokens == 0 {
        Some("llm.max_tokens must be at least 1"@)
    } else if !(1 <= c.run.workers <= MAX_WORKERS) {
        Some("run.workers must be between 1 and "@ + decimal(MAX_WORKERS as nat))
    } else if c.run.retries > MAX_RETRIES {
        Some("run.retries must be at most "@ + decimal(MAX_RETRIES as nat))
    } else if !(1 <= c.run.page_size <= MAX_PAGE_SIZE) {
        Some("run.page_size must be between 1 and "@ + decimal(MAX_PAGE_SIZE as nat))
    } else {
        None
    }
}

/// The first rule that `c` breaks.
pub open spec fn config_complaint(c: ConfigView) -> Option<Seq<char>> {
    complaint(c, url_parts(c.immich.url), url_parts(c.llm.base_url))
}

/// A check that passes exactly when there is no complaint, and otherwise reports it.
pub open spec fn reports(r: Result<(), ConfigError>, complaint: Option<Seq<char>>) -> bool {
    match r {
        Ok(_) => complaint is None,
        Err(ConfigError::Invalid(message)) => complaint == Some(message@),
    }
}

fn invalid(message: &str) -> (r: Result<(), ConfigError>)
    ensures
        reports(r, Some(message@)),
{
    Err(ConfigError::Invalid(message.to_owned()))
}

/// Checks one URL field, given what it parses to.
pub fn check_parsed_url(field: &str, parsed: &Result<UrlParts, String>) -> (r: Result<
    (),
    ConfigError,
>)
    ensures
        reports(r, url_complaint(field@, parsed_view(*parsed))),
{
    match parsed {
        Err(error) => {
            invalid(cat(cat(field, ": ").as_str(), error.as_str()).as_str())
        },
        Ok(parts) => if same(parts.scheme.as_str(), "http") || same(
            parts.scheme.as_str(),
            "https",
        ) {
            Ok(())
        } else {
            invalid(cat(field, " must start with http:// or https://").as_str())
        },
    }
}

impl Config {
    /// Checks every rule, given what the two URLs parse to.
    pub fn validate_parsed(
        &self,
        immich: &Result<UrlParts, String>,
        llm: &Result<UrlParts, String>,
    ) -> (r: Result<(), ConfigError>)
        ensures
            reports(r, complaint(self@, parsed_view(*immich), parsed_view(*llm))),
    {
        let checked = check_parsed_url("immich.url", immich);
        if checked.is_err() {
            return checked;
        }
        let checked = check_parsed_url("llm.base_url", llm);
        if checked.is_err() {
            return checked;
        }
        if is_blank(self.immich.api_key.as_str()) {
            return invalid("immich.api_key must not be empty");
        }
        if is_blank(self.llm.model.as_str()) {
            return invalid("llm.model must not be empty");
        }
        if self.llm.max_tokens == 0 {
            return invalid("llm.max_tokens must be at least 1");
        }
        if !(1 <= self.run.workers && self.run.workers <= MAX_WORKERS) {
            return invalid(
                cat(
                    "run.workers must be between 1 and ",
                    decimal_of(MAX_WORKERS as u64).as_str(),
                ).as_str(),
            );
        }
        if self.run.retries > MAX_RETRIES {
            return invalid(
                cat(
                    "run.retries must be at most ",
                    decimal_of(MAX_RETRIES as u64).as_str(),
                ).as_str(),
            );
        }
        if !(1 <= self.run.page_size && self.run.page_size <= MAX_PAGE_SIZE) {
            return invalid(
                cat(
                    "run.page_size must be between 1 and ",
                    decimal_of(MAX_PAGE_SIZE as u64).as_str(),
                ).as_str(),
            );
        }
        Ok(())
    }

    /// Checks every rule of the config file and reports the first one that is broken.
    pub fn validate(&self) -> (r: Result<(), ConfigError>)
        ensures
            reports(r, config_complaint(self@)),
    {
        let immich = parse_url(self.immich.url.as_str());
        let llm = parse_url(self.llm.base_url.as_str());
        self.validate_parsed(&immich, &llm)
    }
}

// ---------------------------------------------------------------------------
// File locations
// ---------------------------------------------------------------------------

/// `segment` under the directory `base`, as bytes of a path.
pub open spec fn path_join(base: Seq<u8>, segment: Seq<u8>) -> Seq<u8> {
    if base.len() == 0 {
        segment
    } else if base.last() == 47 {
        base + segment
    } else {
        base.push(47) + segment
    }
}

/// The home directory: `$HOME`, or the current directory.
pub open spec fn home_dir(home: Option<Seq<u8>>) -> Seq<u8> {
    match home {
        Some(h) => h,
        None => encode_utf8("."@),
    }
}

/// `$XDG_CONFIG_HOME`, or `~/.config` when it is not set or empty.
pub open spec fn config_home(xdg: Option<Seq<u8>>, home: Option<Seq<u8>>) -> Seq<u8> {
    match xdg {
        Some(dir) if dir.len() > 0 => dir,
        _ => path_join(home_dir(home), encode_utf8(".config"@)),
    }
}

/// `$XDG_STATE_HOME`, or `~/.local/state` when it is not set or empty.
pub open spec fn state_home(xdg: Option<Seq<u8>>, home: Option<Seq<u8>>) -> Seq<u8> {
    match xdg {
        Some(dir) if dir.len() > 0 => dir,
        _ => path_join(
            path_join(home_dir(home), encode_utf8(".local"@)),
            encode_utf8("state"@),
        ),
    }
}

/// The model of an optional byte string.
pub open spec fn opt_bytes(v: Option<Vec<u8>>) -> Option<Seq<u8>> {
    match v {
        Some(b) => Some(b@),
        None => None,
    }
}

fn push_segment(base: Vec<u8>, segment: &str) -> (r: Vec<u8>)
    ensures
        r@ == path_join(base@, encode_utf8(segment@)),
{
    let mut r = base;
    if r.len() > 0 && r[r.len() - 1] != 47 {
        r.push(47);
    }
    let r = append_text(r, segment);
    assert(r@ =~= path_join(base@, encode_utf8(segment@)));
    r
}

fn home(var: Option<Vec<u8>>) -> (r: Vec<u8>)
    ensures
        r@ == home_dir(opt_bytes(var)),
{
    match var {
        Some(h) => h,
        None => push_segment(Vec::new(), "."),
    }
}

/// `$XDG_CONFIG_HOME/immich-alt-text/config.toml`, or `~/.config/...`.
/// Takes the values of `$XDG_CONFIG_HOME` and `$HOME` and gives the bytes of the path.
pub fn default_path(xdg_config_home: Option<Vec<u8>>, home_var: Option<Vec<u8>>) -> (r: Vec<u8>)
    ensures
        r@ == path_join(
            path_join(
                config_home(opt_bytes(xdg_config_home), opt_bytes(home_var)),
                encode_utf8("immich-alt-text"@),
            ),
            encode_utf8("config.toml"@),
        ),
{
    let dir = match xdg_config_home {
        Some(dir) if dir.len() > 0 => dir,
        _ => push_segment(home(home_var), ".config"),
    };
    push_segment(push_segment(dir, "immich-alt-text"), "config.toml")
}

/// `$XDG_STATE_HOME/immich-alt-text`, or `~/.local/state/...`. Holds the debug log.
/// Takes the values of `$XDG_STATE_HOME` and `$HOME` and gives the bytes of the path.
pub fn state_dir(xdg_state_home: Option<Vec<u8>>, home_var: Option<Vec<u8>>) -> (r: Vec<u8>)
    ensures
        r@ == path_join(
            state_home(opt_bytes(xdg_state_home), opt_bytes(home_var)),
            encode_utf8("immich-alt-text"@),
        ),
{
    let dir = match xdg_state_home {
        Some(dir) if dir.len() > 0 => dir,
        _ => push_segment(push_segment(home(home_var), ".local"), "state"),
    };
    push_segment(dir, "immich-alt-text")
}

// ---------------------------------------------------------------------------
// Saving
// ---------------------------------------------------------------------------

/// The stages of a temporary file before it replaces the config file.
#[derive(Debug, Clone, Copy, PartialEq, Eq, Structural)]
pub enum SaveStage {
    Write,
    Flush,
    Sync,
}

/// What to do next with the temporary file.
#[derive(Debug, Clone, Copy, PartialEq, Eq, Structural)]
pub enum SaveStep {
    Stage(SaveStage),
    /// Rename it over the config file.
    Persist,
    /// Remove it and report the failure.
    Discard,
}

/// The step after a stage.
pub open spec fn step_after(stage: SaveStage, succeeded: bool) -> SaveStep {
    if !succeeded {
        SaveStep::Discard
    } else {
        match stage {
            SaveStage::Write => SaveStep::Stage(SaveStage::Flush),
            SaveStage::Flush => SaveStep::Stage(SaveStage::Sync),
            SaveStage::Sync => SaveStep::Persist,
        }
    }
}

/// Starts to fill a temporary file.
pub fn first_save_step() -> (r: SaveStep)
    ensures
        r == SaveStep::Stage(SaveStage::Write),
{
    SaveStep::Stage(SaveStage::Write)
}

/// Goes on after a stage of the temporary file.
pub fn next_save_step(stage: SaveStage, succeeded: bool) -> (r: SaveStep)
    ensures
        r == step_after(stage, succeeded),
{
    if !succeeded {
        return SaveStep::Discard;
    }
    match stage {
        SaveStage::Write => SaveStep::Stage(SaveStage::Flush),
        SaveStage::Flush => SaveStep::Stage(SaveStage::Sync),
        SaveStage::Sync => SaveStep::Persist,
    }
}

/// Where a temporary file ends up that stands at `step` when its stages go like this. Results
/// beyond the last stage count for nothing.
pub open spec fn save_end(step: SaveStep, results: Seq<bool>) -> SaveStep
    decreases results.len(),
{
    match step {
        SaveStep::Stage(stage) => if results.len() == 0 {
            step
        } else {
            save_end(step_after(stage, results[0]), results.skip(1))
        },
        _ => step,
    }
}

/// The config file is replaced only by a file that was written, flushed and synced, in that
/// order; after any failure the temporary file is removed and the config file stays.
pub proof fn law_only_a_synced_file_replaces_the_config(results: Seq<bool>)
    requires
        results.len() >= 3,
    ensures
        save_end(SaveStep::Stage(SaveStage::Write), results) == if results[0] && results[1]
            && results[2] {
            SaveStep::Persist
        } else {
            SaveStep::Discard
        },
{
    reveal_with_fuel(save_end, 4);
}

/// How many names are tried for a temporary file.
pub const TEMP_FILE_TRIES: u32 = 128;

/// What came of creating a temporary file.
#[derive(Debug, Clone, Copy, PartialEq, Eq, Structural)]
pub enum TempResult {
    Created,
    /// A file of that name is there already.
    Exists,
    Failed,
}

/// What to do after creating a temporary file.
#[derive(Debug, Clone, Copy, PartialEq, Eq, Structural)]
pub enum TempStep {
    Use,
    /// Try the next name.
    TryNext,
    /// No name was free.
    GiveUp,
    /// Report the failure.
    Report,
}

/// Goes on after try number `tried` of creating a temporary file.
pub fn next_temp_step(tried: u32, result: TempResult) -> (r: TempStep)
    ensures
        r == match result {
            TempResult::Created => TempStep::Use,
            TempResult::Exists => if tried < TEMP_FILE_TRIES {
                TempStep::TryNext
            } else {
                TempStep::GiveUp
            },
            TempResult::Failed => TempStep::Report,
        },
{
    match result {
        TempResult::Created => TempStep::Use,
        TempResult::Exists => if tried < TEMP_FILE_TRIES {
            TempStep::TryNext
        } else {
            TempStep::GiveUp
        },
        TempResult::Failed => TempStep::Report,
    }
}

/// The end of a temporary file's name: the process and a running number.
pub open spec fn temp_suffix(process: u32, sequence: u64) -> Seq<char> {
    "."@ + decimal(process as nat) + "."@ + decimal(sequence as nat) + ".tmp"@
}

/// The name of a temporary file beside `file_name`: hidden, and told apart by its end.
pub open spec fn temp_name_of(file_name: Seq<u8>, process: u32, sequence: u64) -> Seq<u8> {
    encode_utf8("."@) + file_name + encode_utf8(temp_suffix(process, sequence))
}

fn append_text(base: Vec<u8>, text: &str) -> (r: Vec<u8>)
    ensures
        r@ == base@ + encode_utf8(text@),
{
    let mut r = base;
    let bytes = text.as_bytes();
    let ghost start = r@;
    let mut i: usize = 0;
    while i < bytes.len()
        invariant
            i <= bytes@.len(),
            r@ == start + bytes@.take(i as int),
        decreases bytes@.len() - i,
    {
        r.push(bytes[i]);
        i += 1;
        assert(r@ =~= start + bytes@.take(i as int));
    }
    assert(bytes@.take(bytes@.len() as int) =~= bytes@);
    r
}

/// The name of a temporary file beside `file_name`, as bytes.
pub fn temp_name(file_name: &Vec<u8>, process: u32, sequence: u64) -> (r: Vec<u8>)
    ensures
        r@ == temp_name_of(file_name@, process, sequence),
{
    let mut suffix = cat(".", decimal_of(process as u64).as_str());
    suffix.append(".");
    suffix.append(decimal_of(sequence).as_str());
    suffix.append(".tmp");
    let mut r = append_text(Vec::new(), ".");
    let ghost start = r@;
    let mut i: usize = 0;
    while i < file_name.len()
        invariant
            i <= file_name@.len(),
            r@ == start + file_name@.take(i as int),
        decreases file_name@.len() - i,
    {
        r.push(file_name[i]);
        i += 1;
        assert(r@ =~= start + file_name@.take(i as int));
    }
    assert(file_name@.take(i as int) =~= file_name@);
    assert(start =~= encode_utf8("."@));
    append_text(r, suffix.as_str())
}

/// Two running numbers of one process never give the same temporary name.
pub proof fn law_temp_names_differ(file_name: Seq<u8>, process: u32, first: u64, second: u64)
    requires
        first != second,
    ensures
        temp_name_of(file_name, process, first) != temp_name_of(file_name, process, second),
{
    let a = temp_name_of(file_name, process, first);
    let b = temp_name_of(file_name, process, second);
    if a == b {
        let head = encode_utf8("."@) + file_name;
        assert(a.skip(head.len() as int) =~= encode_utf8(temp_suffix(process, first)));
        assert(b.skip(head.len() as int) =~= encode_utf8(temp_suffix(process, second)));
        encode_utf8_decode_utf8(temp_suffix(process, first));
        encode_utf8_decode_utf8(temp_suffix(process, second));
        let x = temp_suffix(process, first);
        let y = temp_suffix(process, second);
        assert(x == y);
        let start = "."@ + decimal(process as nat) + "."@;
        let x_digits = decimal(first as nat);
        let y_digits = decimal(second as nat);
        assert(x.len() == start.len() + x_digits.len() + ".tmp"@.len());
        assert(y.len() == start.len() + y_digits.len() + ".tmp"@.len());
        assert(x.skip(start.len() as int).take(x_digits.len() as int) =~= x_digits);
        assert(y.skip(start.len() as int).take(y_digits.len() as int) =~= y_digits);
        lemma_decimal_digits(first as nat);
        lemma_decimal_digits(second as nat);
    }
}

} // verus!
