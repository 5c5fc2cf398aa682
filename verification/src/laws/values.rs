//! Texts, numbers, times and the configuration: what their forms mean.
use vstd::prelude::*;
use vstd::string::*;
use vstd::utf8::encode_utf8;

use crate::clock::time_between;
use crate::config::{
    config_complaint, config_home, default_config, default_path, first_save_step, next_temp_step,
    path_join, state_dir, state_home, step_after, temp_name_of, temp_suffix, ConfigView, Config,
    ConfigError, SaveStage, SaveStep, TempResult, TempStep, ThemeName, DEFAULT_PROMPT,
};
use crate::text::{
    all_digits, blank, decimal, digits_value, is_control, is_digit, is_white, lemma_decimal_digits,
    padded_left, padded_right, repeated, shortened, trimmed, trimmed_end, trimmed_start,
    whole_number,
};
use crate::ui::{clock_text, eta_text, grouped, secs_number, secs_text, two_digits};
use crate::urls::{host_text, url_parts, ParsedUrl};

verus! {

// ---------------------------------------------------------------------------
// Characters and white space
// ---------------------------------------------------------------------------

/// White space by code points, and the control codes.
pub proof fn law_white_space_and_control_codes(c: char)
    ensures
        ({
            let n = c as int;
            &&& is_white(c) <==> 9 <= n <= 13 || n == 32 || n == 133 || n == 160 || n == 5760
                || 8192 <= n <= 8202 || n == 8232 || n == 8233 || n == 8239 || n == 8287 || n
                == 12288
            &&& is_control(c) <==> n < 32 || 127 <= n < 160
        }),
{
}

/// `from..to` is what is left of `s` when the white space at both ends is off: nothing but that
/// is outside, and what is left does not start or end with any.
pub open spec fn solid_part(s: Seq<char>, from: int, to: int) -> bool {
    &&& 0 <= from <= to <= s.len()
    &&& forall|i: int| 0 <= i < from ==> is_white(#[trigger] s[i])
    &&& forall|i: int| to <= i < s.len() ==> is_white(#[trigger] s[i])
    &&& from < to ==> !is_white(s[from]) && !is_white(s[to - 1])
}

proof fn lemma_start_of(s: Seq<char>) -> (k: int)
    ensures
        0 <= k <= s.len(),
        trimmed_start(s) == s.skip(k),
        forall|i: int| 0 <= i < k ==> is_white(#[trigger] s[i]),
        k < s.len() ==> !is_white(s[k]),
    decreases s.len(),
{
    if s.len() > 0 && is_white(s[0]) {
        let t = s.drop_first();
        let k = lemma_start_of(t);
        assert(t.skip(k) =~= s.skip(k + 1));
        assert forall|i: int| 0 <= i < k + 1 implies is_white(#[trigger] s[i]) by {
            if i > 0 {
                assert(t[i - 1] == s[i]);
            }
        }
        k + 1
    } else {
        assert(s.skip(0) =~= s);
        0
    }
}

proof fn lemma_end_of(s: Seq<char>) -> (k: int)
    ensures
        0 <= k <= s.len(),
        trimmed_end(s) == s.take(k),
        forall|i: int| k <= i < s.len() ==> is_white(#[trigger] s[i]),
        k > 0 ==> !is_white(s[k - 1]),
    decreases s.len(),
{
    if s.len() > 0 && is_white(s.last()) {
        let t = s.drop_last();
        let k = lemma_end_of(t);
        assert(t.take(k) =~= s.take(k));
        assert forall|i: int| k <= i < s.len() implies is_white(#[trigger] s[i]) by {
            if i < t.len() {
                assert(t[i] == s[i]);
            }
        }
        k
    } else {
        assert(s.take(s.len() as int) =~= s);
        s.len() as int
    }
}

/// Trimming takes the white space off both ends and nothing else. A text is blank exactly if
/// nothing is left of it.
pub proof fn law_trimming_leaves_the_solid_part(s: Seq<char>)
    ensures
        exists|from: int, to: int|
            #[trigger] solid_part(s, from, to) && trimmed(s) == s.subrange(from, to),
        blank(s) <==> trimmed(s).len() == 0,
{
    let from = lemma_start_of(s);
    let t = s.skip(from);
    let n = lemma_end_of(t);
    let to = from + n;
    assert forall|i: int| to <= i < s.len() implies is_white(#[trigger] s[i]) by {
        assert(t[i - from] == s[i]);
    }
    if from < to {
        assert(t[n - 1] == s[to - 1]);
    }
    assert(trimmed(s) =~= s.subrange(from, to));
    assert(solid_part(s, from, to));
}

// ---------------------------------------------------------------------------
// Numbers
// ---------------------------------------------------------------------------

/// A number is written in digits that stand for it, without leading zeros.
pub proof fn law_decimals_stand_for_their_number(n: nat)
    ensures
        all_digits(decimal(n)),
        digits_value(decimal(n)) == n,
        n < 10 ==> decimal(n).len() == 1,
        n > 0 ==> decimal(n)[0] != '0',
    decreases n,
{
    lemma_decimal_digits(n);
    if n >= 10 {
        law_decimals_stand_for_their_number(n / 10);
        lemma_decimal_digits(n / 10);
    }
}

/// A digit behind a number makes it ten times as large and adds the digit.
pub proof fn law_digits_count_in_tens(s: Seq<char>, c: char)
    requires
        '0' <= c <= '9',
    ensures
        digits_value(s.push(c)) == 10 * digits_value(s) + (c as int - 48),
        digits_value(seq![]) == 0,
{
    assert(s.push(c).drop_last() =~= s);
}

/// A whole number is one or more digits, with or without a plus sign before them, up to the
/// limit. Nothing else is one.
pub proof fn law_whole_numbers(d: Seq<char>, s: Seq<char>, max: nat)
    ensures
        d.len() > 0 && all_digits(d) && digits_value(d) <= max ==> {
            &&& whole_number(d, max) == Some(digits_value(d))
            &&& whole_number(seq!['+'] + d, max) == Some(digits_value(d))
        },
        d.len() > 0 && all_digits(d) && digits_value(d) > max ==> {
            &&& whole_number(d, max) is None
            &&& whole_number(seq!['+'] + d, max) is None
        },
        whole_number(seq![], max) is None,
        whole_number(seq!['+'], max) is None,
        (exists|i: int| 0 < i < s.len() && !is_digit(#[trigger] s[i])) ==> whole_number(s, max)
            is None,
        s.len() > 0 && !is_digit(s[0]) && s[0] != '+' ==> whole_number(s, max) is None,
{
    assert((seq!['+'] + d).skip(1) =~= d);
    assert(seq!['+'].skip(1).len() == 0);
    if d.len() > 0 && all_digits(d) {
        assert(is_digit(d[0]));
    }
    if exists|i: int| 0 < i < s.len() && !is_digit(#[trigger] s[i]) {
        let i = choose|i: int| 0 < i < s.len() && !is_digit(#[trigger] s[i]);
        assert(s.skip(1)[i - 1] == s[i]);
    }
}

/// Padding fills up to the width on its side and changes nothing of the text; a text that is
/// long enough stays as it is.
pub proof fn law_padding_fills_up(s: Seq<char>, fill: char, width: nat)
    ensures
        s.len() >= width ==> padded_right(s, width) == s && padded_left(s, fill, width) == s,
        s.len() < width ==> {
            let right = padded_right(s, width);
            let left = padded_left(s, fill, width);
            let gap = width - s.len();
            &&& right.len() == width && right.take(s.len() as int) == s
            &&& forall|i: int| s.len() <= i < width ==> #[trigger] right[i] == ' '
            &&& left.len() == width && left.skip(gap) == s
            &&& forall|i: int| 0 <= i < gap ==> #[trigger] left[i] == fill
        },
{
    if s.len() < width {
        assert(padded_right(s, width).take(s.len() as int) =~= s);
        assert(padded_left(s, fill, width).skip(width - s.len()) =~= s);
    }
}

/// A text that is too long keeps its start and ends with an ellipsis in the last of its cells.
pub proof fn law_cut_texts_end_with_an_ellipsis(s: Seq<char>, max: nat)
    ensures
        s.len() <= max ==> shortened(s, max) == s,
        s.len() > max && max > 0 ==> {
            let r = shortened(s, max);
            &&& r.len() == max
            &&& r.last() == '…'
            &&& r.take(max - 1) == s.take(max - 1)
        },
        max == 0 ==> shortened(s, max).len() == 0,
{
    if s.len() > max && max > 0 {
        assert(shortened(s, max).take(max - 1) =~= s.take(max - 1));
    }
}

/// Copies of a character are that character, so many times.
pub proof fn law_copies(c: char, n: nat)
    ensures
        repeated(c, n).len() == n,
        forall|i: int| 0 <= i < n ==> #[trigger] repeated(c, n)[i] == c,
{
}

/// In groups of three, counted from the right: every fourth character is a space, and the others
/// are those of the text, in their order.
pub proof fn law_groups_of_three(s: Seq<char>, j: int)
    requires
        0 <= j < grouped(s).len(),
    ensures
        grouped(s).len() == s.len() + (s.len() - 1) / 3,
        ({
            let c = grouped(s)[grouped(s).len() - 1 - j];
            &&& j % 4 == 3 ==> c == ' '
            &&& j % 4 != 3 ==> c == s[s.len() - 1 - (j - j / 4)]
        }),
    decreases s.len(),
{
    if s.len() > 3 {
        let head = s.take(s.len() - 3);
        lemma_grouped_length(head);
        if j >= 4 {
            law_groups_of_three(head, j - 4);
            let g = grouped(head);
            assert(grouped(s)[grouped(s).len() - 1 - j] == g[g.len() - 1 - (j - 4)]);
        }
    }
}

proof fn lemma_grouped_length(s: Seq<char>)
    ensures
        s.len() > 0 ==> grouped(s).len() == s.len() + (s.len() - 1) / 3,
        s.len() == 0 ==> grouped(s).len() == 0,
    decreases s.len(),
{
    if s.len() > 3 {
        lemma_grouped_length(s.take(s.len() - 3));
    }
}

// ---------------------------------------------------------------------------
// Times
// ---------------------------------------------------------------------------

proof fn lemma_two_digits(n: nat)
    ensures
        two_digits(n).len() >= 2,
        all_digits(two_digits(n)),
        digits_value(two_digits(n)) == n,
        n < 100 ==> two_digits(n).len() == 2,
{
    lemma_decimal_digits(n);
    if n < 10 {
        let t = two_digits(n);
        assert(t =~= seq!['0', decimal(n)[0]]);
        assert(t.drop_last() =~= seq!['0']);
        assert(t.drop_last().drop_last() =~= Seq::<char>::empty());
        assert(decimal(n).drop_last() =~= Seq::<char>::empty());
        assert(digits_value(t.drop_last().drop_last()) == 0);
        assert(digits_value(t.drop_last()) == 0);
        assert(digits_value(decimal(n)) == n);
        assert(decimal(n).last() == t.last());
        assert(digits_value(decimal(n).drop_last()) == 0);
        assert(digits_value(t) == n);
        assert(is_digit(decimal(n)[0]));
    } else {
        assert(decimal(n).len() == decimal(n / 10).len() + 1);
        lemma_decimal_digits(n / 10);
        if n < 100 {
            assert(decimal(n / 10).len() == 1);
        }
    }
}

/// The time from one instant to a later one is what lies between them, and nothing the other
/// way.
pub proof fn law_time_never_goes_back(later: int, earlier: int)
    ensures
        later >= earlier ==> time_between(later, earlier) == later - earlier,
        later <= earlier ==> time_between(later, earlier) == 0,
{
}

/// Seconds are shown as their number and their unit.
pub proof fn law_seconds_have_their_unit(nanos: nat)
    ensures
        secs_text(nanos) == secs_number(nanos) + " s"@,
{
}

/// A clock reads back: hours, minutes and seconds make up the time, with less than sixty of the
/// smaller ones.
pub proof fn law_clocks_read_back(secs: nat)
    ensures
        ({
            let t = clock_text(secs);
            let n = t.len() as int;
            let hours = digits_value(t.take(n - 6));
            let minutes = digits_value(t.subrange(n - 5, n - 3));
            let seconds = digits_value(t.subrange(n - 2, n));
            &&& n >= 8
            &&& t[n - 6] == ':' && t[n - 3] == ':'
            &&& 3600 * hours + 60 * minutes + seconds == secs
            &&& minutes < 60 && seconds < 60
            &&& secs < 360000 ==> n == 8
        }),
{
    let hours = secs / 3600;
    let minutes = secs % 3600 / 60;
    let seconds = secs % 60;
    lemma_two_digits(hours);
    lemma_two_digits(minutes);
    lemma_two_digits(seconds);
    reveal_strlit(":");
    let t = clock_text(secs);
    let n = t.len() as int;
    assert(t.take(n - 6) =~= two_digits(hours));
    assert(t.subrange(n - 5, n - 3) =~= two_digits(minutes));
    assert(t.subrange(n - 2, n) =~= two_digits(seconds));
    assert(3600 * hours + 60 * minutes + seconds == secs);
}

/// The short form of a time left is the nearest minute: it is at most half a minute off.
pub proof fn law_short_times_are_the_nearest_minute(secs: nat)
    ensures
        ({
            let t = eta_text(secs);
            let n = t.len() as int;
            let hours = digits_value(t.take(n - 3));
            let minutes = digits_value(t.subrange(n - 2, n));
            &&& n >= 5
            &&& t[n - 3] == ':'
            &&& minutes < 60
            &&& 60 * (60 * hours + minutes) - 30 <= secs < 60 * (60 * hours + minutes) + 30
        }),
{
    let total = (secs + 30) / 60;
    lemma_two_digits(total / 60);
    lemma_two_digits(total % 60);
    reveal_strlit(":");
    let t = eta_text(secs);
    let n = t.len() as int;
    assert(t.take(n - 3) =~= two_digits(total / 60));
    assert(t.subrange(n - 2, n) =~= two_digits(total % 60));
}

// ---------------------------------------------------------------------------
// The rules of a configuration
// ---------------------------------------------------------------------------

/// The rules, in the order in which they are checked.
pub open spec fn rule(c: ConfigView, i: int) -> bool {
    if i == 0 {
        web_address(url_parts(c.immich.url))
    } else if i == 1 {
        web_address(url_parts(c.llm.base_url))
    } else if i == 2 {
        exists|k: int| 0 <= k < c.immich.api_key.len() && !is_white(#[trigger] c.immich.api_key[k])
    } else if i == 3 {
        exists|k: int| 0 <= k < c.llm.model.len() && !is_white(#[trigger] c.llm.model[k])
    } else if i == 4 {
        c.llm.max_tokens >= 1
    } else if i == 5 {
        1 <= c.run.workers <= 64
    } else if i == 6 {
        c.run.retries <= 10
    } else {
        1 <= c.run.page_size <= 1000
    }
}

/// A URL of one of the two web schemes.
pub open spec fn web_address(parsed: ParsedUrl) -> bool {
    parsed matches Ok(parts) && (parts.scheme == "http"@ || parts.scheme == "https"@)
}

/// What is said of a broken rule.
pub open spec fn words(c: ConfigView, i: int) -> Seq<char> {
    if i == 0 {
        address_words("immich.url"@, url_parts(c.immich.url))
    } else if i == 1 {
        address_words("llm.base_url"@, url_parts(c.llm.base_url))
    } else if i == 2 {
        "immich.api_key must not be empty"@
    } else if i == 3 {
        "llm.model must not be empty"@
    } else if i == 4 {
        "llm.max_tokens must be at least 1"@
    } else if i == 5 {
        "run.workers must be between 1 and "@ + decimal(64)
    } else if i == 6 {
        "run.retries must be at most "@ + decimal(10)
    } else {
        "run.page_size must be between 1 and "@ + decimal(1000)
    }
}

/// What is said of an address that is none of the web.
pub open spec fn address_words(field: Seq<char>, parsed: ParsedUrl) -> Seq<char> {
    match parsed {
        Ok(_) => field + " must start with http:// or https://"@,
        Err(error) => field + ": "@ + error,
    }
}

/// A configuration is valid exactly if it keeps every rule. The first rule that it breaks is the
/// one that is reported.
pub proof fn law_first_broken_rule_is_reported(c: ConfigView, i: int)
    requires
        0 <= i < 8,
    ensures
        config_complaint(c) is None <==> (forall|k: int| 0 <= k < 8 ==> #[trigger] rule(c, k)),
        !rule(c, i) && (forall|k: int| 0 <= k < i ==> #[trigger] rule(c, k)) ==> config_complaint(
            c,
        ) == Some(words(c, i)),
{
    assert(blank(c.immich.api_key) <==> !rule(c, 2));
    assert(blank(c.llm.model) <==> !rule(c, 3));
    let all = rule(c, 0) && rule(c, 1) && rule(c, 2) && rule(c, 3) && rule(c, 4) && rule(c, 5)
        && rule(c, 6) && rule(c, 7);
    if all {
        assert forall|k: int| 0 <= k < 8 implies #[trigger] rule(c, k) by {
            assert(k == 0 || k == 1 || k == 2 || k == 3 || k == 4 || k == 5 || k == 6 || k == 7);
        }
    }
    assert(config_complaint(c) is None <==> all);
    if !rule(c, i) && (forall|k: int| 0 <= k < i ==> #[trigger] rule(c, k)) {
        assert(i > 0 ==> rule(c, 0));
        assert(i > 1 ==> rule(c, 1));
        assert(i > 2 ==> rule(c, 2));
        assert(i > 3 ==> rule(c, 3));
        assert(i > 4 ==> rule(c, 4));
        assert(i > 5 ==> rule(c, 5));
        assert(i > 6 ==> rule(c, 6));
    }
}

/// A check passes exactly if no rule is broken, and reports the first that is.
pub proof fn law_checks_report_the_first_broken_rule(c: &Config, r: Result<(), ConfigError>)
    requires
        call_ensures(Config::validate, (c,), r),
    ensures
        r is Ok <==> (forall|k: int| 0 <= k < 8 ==> #[trigger] rule(c@, k)),
        r matches Err(ConfigError::Invalid(message)) ==> config_complaint(c@) == Some(message@),
{
    law_first_broken_rule_is_reported(c@, 0);
}

/// What an empty file stands for.
pub proof fn law_defaults()
    ensures
        ({
            let c = default_config();
            &&& c.immich.url.len() == 0 && c.immich.api_key.len() == 0
            &&& c.immich.timeout_secs == 30
            &&& c.llm.base_url == "http://localhost:1234/v1"@
            &&& c.llm.api_key.len() == 0 && c.llm.model.len() == 0
            &&& c.llm.max_tokens == 200 && c.llm.timeout_secs == 120
            &&& c.llm.prompt == DEFAULT_PROMPT@
            &&& c.run.workers == 1 && c.run.retries == 3 && c.run.page_size == 1000
            &&& !c.run.dry_run
            &&& c.ui.theme == ThemeName::Btop
        }),
{
}

/// There are two themes, each after the other, under their own names.
pub proof fn law_two_themes(theme: ThemeName)
    ensures
        theme.after() != theme,
        theme.after().after() == theme,
        ThemeName::Btop.name() == "btop"@,
        ThemeName::Mono.name() == "mono"@,
{
}

/// A server is shown by its host, with the port if it has one of its own; what is no URL with a
/// host is shown whole.
pub proof fn law_shown_hosts(parsed: ParsedUrl, url: Seq<char>)
    ensures
        parsed matches Ok(parts) ==> (parts.host matches Some(host) ==> {
            &&& parts.port is None ==> host_text(parsed, url) == host
            &&& parts.port matches Some(port) ==> host_text(parsed, url) == host.push(':')
                + decimal(port as nat)
        }),
        (parsed matches Ok(parts) && parts.host is None) || parsed is Err ==> host_text(
            parsed,
            url,
        ) == url,
{
    if let Ok(parts) = parsed {
        if let (Some(host), Some(port)) = (parts.host, parts.port) {
            assert(host_text(parsed, url) =~= host.push(':') + decimal(port as nat));
        }
    }
}

// ---------------------------------------------------------------------------
// Files
// ---------------------------------------------------------------------------

/// A path is joined with one slash: it starts with the directory, ends with the segment, and has
/// a slash between them that is not doubled.
pub proof fn law_paths_join_with_one_slash(base: Seq<u8>, segment: Seq<u8>)
    ensures
        ({
            let path = path_join(base, segment);
            let before = path.len() - segment.len();
            &&& path.skip(before) == segment
            &&& base.is_prefix_of(path)
            &&& base.len() == 0 ==> before == 0
            &&& base.len() > 0 ==> path[before - 1] == 47
            &&& base.len() > 0 && base.last() == 47 ==> before == base.len()
            &&& base.len() > 0 && base.last() != 47 ==> before == base.len() + 1
        }),
{
    let path = path_join(base, segment);
    assert(path.skip(path.len() - segment.len()) =~= segment);
    assert(path.take(base.len() as int) =~= base);
}

/// The configuration lies under its own name in the directory for configurations: the one that
/// is set, and otherwise `.config` in the home directory, which is the current one if unknown.
pub proof fn law_place_of_the_configuration(
    xdg: Option<Vec<u8>>,
    home: Option<Vec<u8>>,
    r: Vec<u8>,
)
    requires
        call_ensures(default_path, (xdg, home), r),
    ensures
        ({
            let set = xdg matches Some(dir) && dir@.len() > 0;
            let own = match home {
                Some(dir) => dir@,
                None => encode_utf8("."@),
            };
            let dir = if set {
                xdg->0@
            } else {
                path_join(own, encode_utf8(".config"@))
            };
            r@ == path_join(
                path_join(dir, encode_utf8("immich-alt-text"@)),
                encode_utf8("config.toml"@),
            )
        }),
{
}

/// The debug log lies in the directory for states: the one that is set, and otherwise
/// `.local/state` in the home directory.
pub proof fn law_place_of_the_debug_log(
    xdg: Option<Vec<u8>>,
    home: Option<Vec<u8>>,
    r: Vec<u8>,
)
    requires
        call_ensures(state_dir, (xdg, home), r),
    ensures
        ({
            let set = xdg matches Some(dir) && dir@.len() > 0;
            let own = match home {
                Some(dir) => dir@,
                None => encode_utf8("."@),
            };
            let dir = if set {
                xdg->0@
            } else {
                path_join(path_join(own, encode_utf8(".local"@)), encode_utf8("state"@))
            };
            r@ == path_join(dir, encode_utf8("immich-alt-text"@))
        }),
{
}

/// A directory that is set does not need a home, and one that is empty counts as not set.
pub proof fn law_set_directories_come_first(dir: Seq<u8>, home: Option<Seq<u8>>)
    ensures
        dir.len() > 0 ==> config_home(Some(dir), home) == dir && state_home(Some(dir), home) == dir,
        config_home(Some(seq![]), home) == config_home(None, home),
        state_home(Some(seq![]), home) == state_home(None, home),
{
}

/// A file is written, flushed, synced and only then put in place. A stage that fails has it
/// removed.
pub proof fn law_stages_of_a_save(stage: SaveStage, first: SaveStep)
    requires
        call_ensures(first_save_step, (), first),
    ensures
        first == SaveStep::Stage(SaveStage::Write),
        step_after(SaveStage::Write, true) == SaveStep::Stage(SaveStage::Flush),
        step_after(SaveStage::Flush, true) == SaveStep::Stage(SaveStage::Sync),
        step_after(SaveStage::Sync, true) == SaveStep::Persist,
        step_after(stage, false) == SaveStep::Discard,
{
}

/// A name that is taken leads to the next one, 128 times at most. A file that was created is
/// used, and any other failure is reported at once.
pub proof fn law_temporary_names_are_tried(tried: u32, result: TempResult, r: TempStep)
    requires
        call_ensures(next_temp_step, (tried, result), r),
    ensures
        r is Use <==> result is Created,
        r is Report <==> result is Failed,
        r is TryNext <==> result is Exists && tried < 128,
        r is GiveUp <==> result is Exists && tried >= 128,
{
}

/// A temporary file is hidden beside its target and named after it: a dot, the name, and an end
/// that tells the process and the number.
pub proof fn law_temporary_names(name: Seq<u8>, process: u32, sequence: u64)
    ensures
        ({
            let temp = temp_name_of(name, process, sequence);
            let start = encode_utf8("."@).len() as int;
            &&& temp.take(start) == encode_utf8("."@)
            &&& temp.subrange(start, start + name.len()) == name
            &&& temp.skip(start + name.len()) == encode_utf8(temp_suffix(process, sequence))
        }),
        temp_suffix(process, sequence) == "."@ + decimal(process as nat) + "."@ + decimal(
            sequence as nat,
        ) + ".tmp"@,
{
    let temp = temp_name_of(name, process, sequence);
    let start = encode_utf8("."@).len() as int;
    assert(temp.take(start) =~= encode_utf8("."@));
    assert(temp.subrange(start, start + name.len()) =~= name);
    assert(temp.skip(start + name.len()) =~= encode_utf8(temp_suffix(process, sequence)));
}

} // verus!
