//! Pictures of the app: what stands where, in which style. Drawing them is the caller's.
pub mod picture;
pub mod run;
pub mod settings;

use std::time::{Duration, Instant};
use vstd::prelude::*;
use vstd::string::*;

use crate::app::{opt_duration, App, Screen};
use crate::clock::{duration_nanos, instant_nanos, whole_secs};
use crate::settings::opt_text;
use crate::text::{
    cat, chars_of, decimal, decimal_of, pad_left, padded_left, shortened, string_of,
};
use crate::theme::Theme;
use crate::ui::picture::{items, Area, Item};
use crate::ui::run::{
    drawable, eta_fits, fits, flight_height, run_picture_of, run_screen, Estimates, RunLayout,
};
use crate::ui::settings::{form_place, settings_layout, settings_picture, settings_picture_of};

verus! {

/// Two digits at least.
pub open spec fn two_digits(n: nat) -> Seq<char> {
    padded_left(decimal(n), '0', 2)
}

fn two(n: u64) -> (r: String)
    ensures
        r@ == two_digits(n as nat),
{
    pad_left(decimal_of(n).as_str(), '0', 2)
}

/// These seconds as `HH:MM:SS`.
pub open spec fn clock_text(secs: nat) -> Seq<char> {
    two_digits(secs / 3600) + ":"@ + two_digits(secs % 3600 / 60) + ":"@ + two_digits(secs % 60)
}

/// `HH:MM:SS`.
pub fn fmt_clock(d: Duration) -> (r: String)
    ensures
        r@ == clock_text(duration_nanos(d) / 1_000_000_000),
{
    let s = whole_secs(d);
    let mut r = two(s / 3600);
    r.append(":");
    r.append(two((s % 3600) / 60).as_str());
    r.append(":");
    r.append(two(s % 60).as_str());
    r
}

/// The seconds of a duration of these nanoseconds, with one decimal.
pub uninterp spec fn secs_number(nanos: nat) -> Seq<char>;

/// Shows the seconds of a duration with one decimal: `Duration::as_secs_f64`, formatted. The
/// text depends on the length of the duration alone.
#[verifier::external_body]
fn seconds(d: Duration) -> (r: String)
    ensures
        r@ == secs_number(duration_nanos(d)),
{
    format!("{:.1}", d.as_secs_f64())
}

/// The seconds of a duration and their unit.
pub open spec fn secs_text(nanos: nat) -> Seq<char> {
    secs_number(nanos) + " s"@
}

/// `4.3 s`.
pub fn fmt_secs(d: Duration) -> (r: String)
    ensures
        r@ == secs_text(duration_nanos(d)),
{
    cat(seconds(d).as_str(), " s")
}

/// These minutes, rounded from seconds, as `HH:MM`.
pub open spec fn eta_text(secs: nat) -> Seq<char> {
    two_digits((secs + 30) / 60 / 60) + ":"@ + two_digits((secs + 30) / 60 % 60)
}

/// `HH:MM`, to the nearest minute.
pub fn fmt_eta_compact(d: Duration) -> (r: String)
    requires
        duration_nanos(d) / 1_000_000_000 + 30 <= u64::MAX,
    ensures
        r@ == eta_text(duration_nanos(d) / 1_000_000_000),
{
    let total_minutes = (whole_secs(d) + 30) / 60;
    let mut r = two(total_minutes / 60);
    r.append(":");
    r.append(two(total_minutes % 60).as_str());
    r
}

/// `s` in groups of three from the right, with a space between the groups.
pub open spec fn grouped(s: Seq<char>) -> Seq<char>
    decreases s.len(),
{
    if s.len() <= 3 {
        s
    } else {
        grouped(s.take(s.len() - 3)).push(' ') + s.skip(s.len() - 3)
    }
}

/// The first `k` characters of `s`, each with a space before it where a group of three starts.
spec fn spaced(s: Seq<char>, k: nat) -> Seq<char>
    decreases k,
{
    if k == 0 {
        seq![]
    } else {
        let before = spaced(s, (k - 1) as nat);
        if k > 1 && (s.len() - (k - 1)) % 3 == 0 {
            before.push(' ').push(s[k - 1])
        } else {
            before.push(s[k - 1])
        }
    }
}

proof fn lemma_spaced_prefix(s: Seq<char>, k: nat)
    requires
        s.len() > 3,
        k <= s.len() - 3,
    ensures
        spaced(s, k) == spaced(s.take(s.len() - 3), k),
    decreases k,
{
    if k > 0 {
        lemma_spaced_prefix(s, (k - 1) as nat);
    }
}

proof fn lemma_spaced_is_grouped(s: Seq<char>)
    ensures
        spaced(s, s.len()) == grouped(s),
    decreases s.len(),
{
    reveal_with_fuel(spaced, 4);
    if s.len() <= 3 {
        assert(spaced(s, s.len()) =~= s);
    } else {
        let n = (s.len() - 3) as nat;
        let head = s.take(s.len() - 3);
        lemma_spaced_prefix(s, n);
        lemma_spaced_is_grouped(head);
        assert(spaced(s, n) == grouped(head));
        assert(spaced(s, n + 1) == grouped(head).push(' ').push(s[n as int]));
        assert(spaced(s, n + 2) == spaced(s, n + 1).push(s[n as int + 1]));
        assert(spaced(s, n + 3) == spaced(s, n + 2).push(s[n as int + 2]));
        assert(spaced(s, s.len()) =~= grouped(head).push(' ') + s.skip(s.len() - 3));
    }
}

/// `1 284`, groups of three separated by a space.
pub fn fmt_count(n: u64) -> (r: String)
    ensures
        r@ == grouped(decimal(n as nat)),
{
    let digits = chars_of(decimal_of(n).as_str());
    let mut out = String::new();
    let mut i: usize = 0;
    while i < digits.len()
        invariant
            i <= digits@.len(),
            out@ == spaced(digits@, i as nat),
        decreases digits@.len() - i,
    {
        if i > 0 && (digits.len() - i) % 3 == 0 {
            out.push(' ');
        }
        out.push(digits[i]);
        i += 1;
    }
    proof {
        lemma_spaced_is_grouped(digits@);
    }
    out
}

/// Cuts `s` to `max` cells and appends `…` when it had to cut.
pub fn truncate(s: &str, max: usize) -> (r: String)
    ensures
        r@ == shortened(s@, max as nat),
{
    let v = chars_of(s);
    if v.len() <= max {
        return s.to_owned();
    }
    if max == 0 {
        return String::new();
    }
    let mut out = string_of(&v, 0, max - 1);
    out.push('…');
    assert(out@ =~= shortened(s@, max as nat));
    out
}

/// What is cut off never makes a text longer than it may be, and a text that fits stays whole.
pub proof fn law_truncated_text_fits(s: Seq<char>, max: nat)
    ensures
        shortened(s, max).len() <= max,
        s.len() <= max ==> shortened(s, max) == s,
{
}

/// The picture of the current screen in the whole of `area`.
pub fn render(
    app: &App,
    now: Instant,
    theme: &Theme,
    area: Area,
    estimates: &Estimates,
) -> (r: Vec<Item>)
    requires
        app@.wf(),
        app.screen == Screen::Run ==> {
            &&& drawable(app@)
            &&& eta_fits(opt_duration(estimates.eta))
            &&& flight_height(app.config.run.workers) <= u16::MAX
        },
    ensures
        match app.screen {
            Screen::Run => exists|layout: RunLayout| #[trigger]
                fits(layout, area, app.config.run.workers) && items(r@) == run_picture_of(
                    app@,
                    instant_nanos(now),
                    *theme,
                    area,
                    layout,
                    opt_text(estimates.rate),
                    opt_duration(estimates.eta),
                ),
            Screen::Settings => items(r@) == settings_picture_of(
                app@.settings,
                *theme,
                form_place(app@.settings, area),
            ),
        },
{
    match app.screen {
        Screen::Run => run_screen(app, now, theme, area, estimates),
        Screen::Settings => {
            let place = settings_layout(&app.settings, area);
            settings_picture(&app.settings, theme, place)
        },
    }
}

} // verus!
