use immich_alt_text::events::{map_key, Key, Stage, TermKey};

#[test]
fn maps_plain_terminal_keys_to_app_keys() {
    let cases = [
        (TermKey::Char('s'), Key::Char('s')),
        (TermKey::Up, Key::Up),
        (TermKey::Down, Key::Down),
        (TermKey::Enter, Key::Enter),
        (TermKey::Esc, Key::Esc),
        (TermKey::Tab, Key::Tab),
        (TermKey::BackTab, Key::BackTab),
        (TermKey::Backspace, Key::Backspace),
    ];

    for (code, expected) in cases {
        assert_eq!(map_key(code, false), Some(expected));
    }
}

#[test]
fn maps_supported_control_shortcuts() {
    let cases = [
        ('c', Key::CtrlC),
        ('s', Key::CtrlS),
        ('t', Key::CtrlT),
        ('r', Key::CtrlR),
    ];

    for (character, expected) in cases {
        assert_eq!(map_key(TermKey::Char(character), true), Some(expected));
    }
}

#[test]
fn ignores_unhandled_keys() {
    assert_eq!(map_key(TermKey::Char('x'), true), None);
    assert_eq!(map_key(TermKey::Other, false), None);
}

#[test]
fn other_keys_ignore_the_control_modifier() {
    assert_eq!(map_key(TermKey::Enter, true), Some(Key::Enter));
    assert_eq!(map_key(TermKey::Other, true), None);
}

#[test]
fn stage_labels() {
    assert_eq!(Stage::Fetching.label(), "fetching");
    assert_eq!(Stage::CallingLlm.label(), "calling llm");
    assert_eq!(Stage::Writing.label(), "writing");
}
