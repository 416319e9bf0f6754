use crokey::{parse, KeyCode, KeyEvent, KeyModifiers};

fn mods(control: bool, alt: bool, shift: bool) -> KeyModifiers {
    KeyModifiers { control, alt, shift }
}

fn no_mod(code: KeyCode) -> KeyEvent {
    KeyEvent::new(code, mods(false, false, false))
}

fn check_ok(raw: &str, key: KeyEvent) {
    let parsed = parse(raw);
    assert!(parsed.is_ok(), "failed to parse {:?} as key", raw);
    assert_eq!(parsed.unwrap(), key);
}

#[test]
fn check_key_parsing() {
    assert!(parse("").is_err());
    check_ok("left", no_mod(KeyCode::Left));
    check_ok("RIGHT", no_mod(KeyCode::Right));
    check_ok("Home", no_mod(KeyCode::Home));
    check_ok("backtab", KeyEvent::new(KeyCode::BackTab, mods(false, false, true)));
    check_ok("f1", no_mod(KeyCode::F(1)));
    check_ok("F2", no_mod(KeyCode::F(2)));
    check_ok("Enter", no_mod(KeyCode::Enter));
    check_ok("alt-enter", KeyEvent::new(KeyCode::Enter, mods(false, true, false)));
    check_ok("insert", no_mod(KeyCode::Insert));
    check_ok("ctrl-q", KeyEvent::new(KeyCode::Char('q'), mods(true, false, false)));
    check_ok("shift-q", KeyEvent::new(KeyCode::Char('Q'), mods(false, false, true)));
    check_ok("ctrl-Q", KeyEvent::new(KeyCode::Char('q'), mods(true, false, false)));
    check_ok("shift-Q", KeyEvent::new(KeyCode::Char('Q'), mods(false, false, true)));
    check_ok("ctrl-shift-Q", KeyEvent::new(KeyCode::Char('Q'), mods(true, false, true)));
    check_ok("-", no_mod(KeyCode::Char('-')));
    check_ok("Hyphen", no_mod(KeyCode::Char('-')));
    check_ok("alt--", KeyEvent::new(KeyCode::Char('-'), mods(false, true, false)));
    check_ok("alt-hyphen", KeyEvent::new(KeyCode::Char('-'), mods(false, true, false)));
    check_ok("alt-hyphen", KeyEvent::new(KeyCode::Char('-'), mods(false, true, false)));
    check_ok("ctrl-Shift-alt-space", KeyEvent::new(KeyCode::Char(' '), mods(true, true, true)));
    check_ok("ctrl-shift-alt--", KeyEvent::new(KeyCode::Char('-'), mods(true, true, true)));
}

#[test]
fn single_characters() {
    check_ok("0", no_mod(KeyCode::Char('0')));
    check_ok("9", no_mod(KeyCode::Char('9')));
    check_ok("x", no_mod(KeyCode::Char('x')));
    check_ok("X", no_mod(KeyCode::Char('x')));
    check_ok("]", no_mod(KeyCode::Char(']')));
    check_ok("ඞ", no_mod(KeyCode::Char('ඞ')));
    check_ok("f", no_mod(KeyCode::Char('f')));
    check_ok("F", no_mod(KeyCode::Char('f')));
}

#[test]
fn named_keys() {
    check_ok("backspace", no_mod(KeyCode::Backspace));
    check_ok("bAcKsPaCe", no_mod(KeyCode::Backspace));
    check_ok("esc", no_mod(KeyCode::Esc));
    check_ok("up", no_mod(KeyCode::Up));
    check_ok("down", no_mod(KeyCode::Down));
    check_ok("end", no_mod(KeyCode::End));
    check_ok("pageup", no_mod(KeyCode::PageUp));
    check_ok("pagedown", no_mod(KeyCode::PageDown));
    check_ok("tab", no_mod(KeyCode::Tab));
    check_ok("del", no_mod(KeyCode::Delete));
    check_ok("delete", no_mod(KeyCode::Delete));
    check_ok("ins", no_mod(KeyCode::Insert));
    check_ok("space", no_mod(KeyCode::Char(' ')));
    check_ok(" ", no_mod(KeyCode::Char(' ')));
}

#[test]
fn case_insensitive() {
    assert_eq!(parse("CTRL-ENTER").unwrap(), parse("ctrl-enter").unwrap());
    assert_eq!(parse("Ctrl-Enter").unwrap(), parse("ctrl-enter").unwrap());
    assert_eq!(
        parse("ctrl-enter").unwrap(),
        KeyEvent::new(KeyCode::Enter, mods(true, false, false))
    );
}

#[test]
fn modifier_order_insensitive() {
    assert_eq!(parse("ctrl-alt-f10").unwrap(), parse("alt-ctrl-f10").unwrap());
    assert_eq!(
        parse("ctrl-alt-f10").unwrap(),
        KeyEvent::new(KeyCode::F(10), mods(true, true, false))
    );
    assert_eq!(parse("shift-alt-2").unwrap(), parse("ALT-SHIFT-2").unwrap());
    assert_eq!(parse("ctrl-alt-shift-c").unwrap(), parse("shift-ctrl-alt-c").unwrap());
}

#[test]
fn modifier_repeat_idempotent() {
    assert_eq!(parse("ctrl-ctrl-c").unwrap(), parse("ctrl-c").unwrap());
    assert_eq!(parse("alt-alt-alt-x").unwrap(), parse("alt-x").unwrap());
    assert_eq!(parse("shift-shift-backtab").unwrap(), parse("shift-backtab").unwrap());
}

#[test]
fn shift_letter_casing() {
    assert_eq!(
        parse("shift-q").unwrap(),
        KeyEvent::new(KeyCode::Char('Q'), mods(false, false, true))
    );
    assert_eq!(
        parse("ctrl-q").unwrap(),
        KeyEvent::new(KeyCode::Char('q'), mods(true, false, false))
    );
}

#[test]
fn backtab_implies_shift() {
    let backtab = parse("backtab").unwrap();
    assert_eq!(backtab, KeyEvent::new(KeyCode::BackTab, mods(false, false, true)));
    assert_eq!(parse("shift-backtab").unwrap(), backtab);
}

#[test]
fn unknown_token_failure() {
    let err = parse("").unwrap_err();
    assert_eq!(err.raw, "");
    let err = parse("ctrl-unknownkey").unwrap_err();
    assert_eq!(err.raw, "unknownkey");
    let err = parse("ctrl-alt-nope").unwrap_err();
    assert_eq!(err.raw, "nope");
}

#[test]
fn hyphen_literal_equivalence() {
    let hyphen = no_mod(KeyCode::Char('-'));
    assert_eq!(parse("-").unwrap(), hyphen);
    assert_eq!(parse("hyphen").unwrap(), hyphen);
    assert_eq!(parse("minus").unwrap(), hyphen);
}

#[test]
fn key_pattern() {
    assert!(parse("ctrl-alt-shift-c").unwrap() == parse("ctrl-alt-shift-c").unwrap());
    assert!(parse("ctrl-c").unwrap() != parse("ctrl-alt-shift-c").unwrap());
    assert!(parse("ctrl-alt-b").unwrap() == parse("ctrl-alt-b").unwrap());
    assert!(parse("ctrl-b").unwrap() == parse("ctrl-b").unwrap());
    assert!(parse("alt-b").unwrap() == parse("alt-b").unwrap());
    assert!(parse("ctrl-b").unwrap() != parse("alt-b").unwrap());
    assert!(parse("alt-b").unwrap() != parse("ctrl-b").unwrap());
    assert!(parse("alt-b").unwrap() != parse("ctrl-alt-b").unwrap());
    assert!(parse("ctrl-b").unwrap() != parse("ctrl-alt-b").unwrap());
    assert!(parse("ctrl-alt-b").unwrap() != parse("alt-b").unwrap());
    assert!(parse("ctrl-alt-b").unwrap() != parse("ctrl-b").unwrap());
}

#[test]
fn function_key_bounds() {
    check_ok("f12", no_mod(KeyCode::F(12)));
    assert!(parse("f0").is_err());
    assert!(parse("f13").is_err());
    assert!(parse("f99").is_err());
}
