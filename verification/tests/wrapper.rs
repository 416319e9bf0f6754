use crokey::{as_letter, parse, CroKey, KeyCode, KeyEvent, KeyModifiers};
use std::collections::HashMap;

fn mods(control: bool, alt: bool, shift: bool) -> KeyModifiers {
    KeyModifiers { control, alt, shift }
}

#[test]
fn wrapper_round_trip() {
    let key = CroKey::from_text("ctrl-k").unwrap();
    assert_eq!(key.key, KeyEvent::new(KeyCode::Char('k'), mods(true, false, false)));
    assert_eq!(key.to_text(), "Ctrl-k");
    assert_eq!(CroKey::from_text("Ctrl-K").unwrap(), key);
    let err = CroKey::from_text("ctrl-nope").unwrap_err();
    assert_eq!(err.raw, "nope");
}

#[test]
fn wrapper_conversions() {
    let event = KeyEvent::new(KeyCode::Enter, mods(false, true, false));
    let wrapped: CroKey = event.into();
    assert_eq!(wrapped, CroKey::new(event));
    let back: KeyEvent = wrapped.into();
    assert_eq!(back, event);
}

#[test]
fn wrapper_as_map_key() {
    let mut bindings: HashMap<CroKey, &str> = HashMap::new();
    bindings.insert(CroKey::from_text("a").unwrap(), "aardvark");
    bindings.insert(CroKey::from_text("shift-b").unwrap(), "babirussa");
    bindings.insert(CroKey::from_text("ctrl-k").unwrap(), "koala");
    bindings.insert(CroKey::from_text("alt-j").unwrap(), "jaguar");
    let event = KeyEvent::new(KeyCode::Char('B'), mods(false, false, true));
    assert_eq!(bindings.get(&CroKey::new(event)), Some(&"babirussa"));
    let missing = KeyEvent::new(KeyCode::Char('b'), mods(false, false, false));
    assert_eq!(bindings.get(&CroKey::new(missing)), None);
}

#[test]
fn as_letter_cases() {
    let plain = parse("q").unwrap();
    assert_eq!(as_letter(plain), Some('q'));
    let with_ctrl = parse("ctrl-q").unwrap();
    assert_eq!(as_letter(with_ctrl), None);
    let named = parse("enter").unwrap();
    assert_eq!(as_letter(named), None);
}

#[test]
fn modifier_set_semantics() {
    let a = mods(true, false, true);
    let b = mods(false, true, false);
    assert_eq!(a.union(b), mods(true, true, true));
    assert_eq!(a.union(b), b.union(a));
    assert_eq!(a.union(a), a);
    assert!(a.contains(mods(true, false, false)));
    assert!(!a.contains(mods(false, true, false)));
    assert!(KeyModifiers::empty().is_empty());
    assert!(!a.is_empty());
}
