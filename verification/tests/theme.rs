use immich_alt_text::config::ThemeName;
use immich_alt_text::theme::{Color, Style, Theme, BAR_STOPS};

/// Color of one bar cell at position `t` in 0.0..=1.0, at the nearest stop of the gradient.
fn bar_color(theme: &Theme, t: f64) -> Color {
    theme.bar_stop((t.clamp(0.0, 1.0) * (BAR_STOPS - 1) as f64).round() as usize)
}

#[test]
fn from_name_selects_the_expected_variant() {
    let btop = Theme::from_name(ThemeName::Btop);
    assert_eq!(btop.border, Theme::btop().border);
    assert_eq!(btop.ok, Theme::btop().ok);

    let mono = Theme::from_name(ThemeName::Mono);
    assert_eq!(mono.border, Theme::mono().border);
    assert_eq!(mono.accent, Theme::mono().accent);
}

#[test]
fn mono_turns_colors_off() {
    let theme = Theme::mono();
    let plain = Style::plain();

    assert_eq!(theme.border, plain);
    assert_eq!(theme.label, plain);
    assert_eq!(theme.value, plain);
    assert_eq!(theme.ok, plain);
    assert_eq!(theme.err, plain);
    assert_eq!(theme.warn, plain);
    assert_eq!(theme.info, plain);
    assert_eq!(theme.name, plain);
    assert_eq!(theme.duration, plain);
    assert_eq!(theme.bar_empty, plain);
    assert_eq!(theme.title, plain.bold());
    assert_eq!(theme.accent, plain.bold());
    assert_eq!(theme.dim, plain.dim());
    assert_eq!(theme.highlight, plain.reversed());
    assert_eq!(bar_color(&theme, 0.5), Color::Reset);
}

#[test]
fn state_style_maps_status_words_to_expected_styles() {
    let theme = Theme::btop();

    assert_eq!(theme.state_style("RUNNING"), theme.ok.bold());
    assert_eq!(theme.state_style("PAUSED"), theme.warn.bold());
    assert_eq!(theme.state_style("ERROR"), theme.err.bold());
    assert_eq!(theme.state_style("IDLE"), theme.info.bold());
    assert_eq!(theme.state_style("FINISHED"), theme.info.bold());
}

#[test]
fn bar_color_uses_gradient_stops_and_clamps_input() {
    let theme = Theme::btop();

    assert_eq!(bar_color(&theme, -1.0), Color::Indexed(46));
    assert_eq!(bar_color(&theme, 0.0), Color::Indexed(46));
    assert_eq!(bar_color(&theme, 0.5), Color::Indexed(226));
    assert_eq!(bar_color(&theme, 1.0), Color::Indexed(196));
    assert_eq!(bar_color(&theme, 2.0), Color::Indexed(196));
}

#[test]
fn btop_has_its_colors() {
    let theme = Theme::btop();
    assert_eq!(theme.border.color, Some(Color::Indexed(240)));
    assert_eq!(theme.title, Style::plain().fg(Color::White).bold());
    assert_eq!(theme.label, theme.dim);
    assert_eq!(theme.err.color, Some(Color::Indexed(203)));
    assert_eq!(theme.highlight, Style::plain().reversed());
}
