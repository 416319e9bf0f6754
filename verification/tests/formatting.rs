use crokey::{parse, KeyCode, KeyEvent, KeyEventFormat, KeyModifiers};

fn mods(control: bool, alt: bool, shift: bool) -> KeyModifiers {
    KeyModifiers { control, alt, shift }
}

fn no_mod(code: KeyCode) -> KeyEvent {
    KeyEvent::new(code, mods(false, false, false))
}

#[test]
fn format() {
    let format = KeyEventFormat::default();
    assert_eq!(format.to_string(no_mod(KeyCode::Insert)), "Insert");
    assert_eq!(format.to_string(no_mod(KeyCode::Char(' '))), "Space");
    assert_eq!(
        format.to_string(KeyEvent::new(KeyCode::Char(' '), mods(false, true, false))),
        "Alt-Space"
    );
    assert_eq!(
        format.to_string(KeyEvent::new(KeyCode::Char(' '), mods(false, false, true))),
        "Shift-Space"
    );
    assert_eq!(
        format.to_string(KeyEvent::new(KeyCode::Char('-'), mods(false, true, false))),
        "Alt-Hyphen"
    );
}

#[test]
fn format_modifier_order_is_fixed() {
    let format = KeyEventFormat::default();
    assert_eq!(format.to_string(parse("shift-alt-ctrl-c").unwrap()), "Ctrl-Alt-Shift-c");
    assert_eq!(format.to_string(parse("alt-ctrl-enter").unwrap()), "Ctrl-Alt-Enter");
}

#[test]
fn format_letters_default() {
    let format = KeyEventFormat::default();
    assert_eq!(format.to_string(parse("shift-a").unwrap()), "Shift-a");
    assert_eq!(format.to_string(parse("ctrl-c").unwrap()), "Ctrl-c");
    assert_eq!(format.to_string(no_mod(KeyCode::Char('q'))), "q");
}

#[test]
fn format_function_keys() {
    let format = KeyEventFormat::default();
    assert_eq!(format.to_string(no_mod(KeyCode::F(6))), "F6");
    assert_eq!(
        format.to_string(KeyEvent::new(KeyCode::F(10), mods(true, false, false))),
        "Ctrl-F10"
    );
    assert_eq!(format.to_string(no_mod(KeyCode::F(12))), "F12");
}

#[test]
fn implicit_shift_compact() {
    let format = KeyEventFormat::default().with_implicit_shift().with_control("^");
    assert_eq!(format.to_string(parse("shift-a").unwrap()), "A");
    assert_eq!(format.to_string(parse("ctrl-c").unwrap()), "^c");
    // Shift on a non-letter key still renders explicitly.
    assert_eq!(format.to_string(parse("shift-f6").unwrap()), "Shift-F6");
    assert_eq!(format.to_string(parse("shift-space").unwrap()), "Shift-Space");
}

#[test]
fn custom_labels() {
    let format = KeyEventFormat::default().with_alt("M-").with_shift("S-");
    assert_eq!(format.to_string(parse("alt-x").unwrap()), "M-x");
    assert_eq!(format.to_string(parse("shift-enter").unwrap()), "S-Enter");
}

#[test]
fn lowercase_key_names() {
    let format = KeyEventFormat::default().with_lowercase_keys();
    assert_eq!(format.to_string(no_mod(KeyCode::Insert)), "insert");
    assert_eq!(format.to_string(parse("ctrl-pageup").unwrap()), "Ctrl-pageup");
    assert_eq!(format.to_string(no_mod(KeyCode::F(11))), "f11");
}

#[test]
fn round_trip_default() {
    assert_eq!(
        KeyEventFormat::default().to_string(parse("alt-enter").unwrap()),
        "Alt-Enter"
    );
    assert_eq!(parse("Alt-Enter").unwrap(), parse("alt-enter").unwrap());
    let inputs = [
        "a", "A", "shift-a", "ctrl-alt-shift-q", "backtab", "shift-backtab", "f1", "f12",
        "ctrl-f10", "space", "hyphen", "-", "alt--", "esc", "enter", "left", "right", "up",
        "down", "home", "end", "pageup", "pagedown", "backspace", "del", "delete", "ins",
        "insert", "tab", "ctrl-Shift-alt-space", "ඞ", "shift-ඞ", "]", "shift-2",
    ];
    let format = KeyEventFormat::default();
    for raw in inputs {
        let event = parse(raw).unwrap();
        let rendered = format.to_string(event);
        assert_eq!(parse(&rendered).unwrap(), event, "round trip failed for {:?}", raw);
    }
}
