//! The structured form of a key combination: a key code plus a set of
//! modifiers. Values are plain data with structural equality; the parser
//! and the formatter translate between them and text.

use vstd::prelude::*;

verus! {

/// Identity of the key that was pressed, independent of modifiers.
///
/// Function keys carry their index, which is meaningful only in `1..=12`
/// (see [`KeyCode::is_valid`]); character keys carry the character itself.
#[derive(Clone, Copy, PartialEq, Eq, Hash, Debug, Structural)]
pub enum KeyCode {
    Backspace,
    Enter,
    Left,
    Right,
    Up,
    Down,
    Home,
    End,
    PageUp,
    PageDown,
    Tab,
    BackTab,
    Delete,
    Insert,
    Esc,
    /// A function key, with its index.
    F(u8),
    /// A literal character key (including space and hyphen).
    Char(char),
}

impl KeyCode {
    /// A key code is valid when a function-key index lies in `1..=12`.
    pub open spec fn is_valid(self) -> bool {
        match self {
            KeyCode::F(n) => 1 <= n <= 12,
            _ => true,
        }
    }
}

/// An unordered set of key modifiers over the universe
/// {Control, Alt, Shift}. Two values are equal exactly when they hold the
/// same modifiers; there is no notion of order or repetition.
#[derive(Clone, Copy, PartialEq, Eq, Hash, Debug, Structural)]
pub struct KeyModifiers {
    pub control: bool,
    pub alt: bool,
    pub shift: bool,
}

impl KeyModifiers {
    /// The empty modifier set.
    pub fn empty() -> (r: KeyModifiers)
        ensures
            r == (KeyModifiers { control: false, alt: false, shift: false }),
    {
        KeyModifiers { control: false, alt: false, shift: false }
    }

    /// The set holding exactly the modifiers the three flags select.
    pub fn new(control: bool, alt: bool, shift: bool) -> (r: KeyModifiers)
        ensures
            r == (KeyModifiers { control, alt, shift }),
    {
        KeyModifiers { control, alt, shift }
    }

    /// Set union, in spec form.
    pub open spec fn union_spec(self, other: KeyModifiers) -> KeyModifiers {
        KeyModifiers {
            control: self.control || other.control,
            alt: self.alt || other.alt,
            shift: self.shift || other.shift,
        }
    }

    /// Set union: commutative and idempotent, since each flag is a plain
    /// disjunction.
    pub fn union(self, other: KeyModifiers) -> (r: KeyModifiers)
        ensures
            r == self.union_spec(other),
    {
        KeyModifiers {
            control: self.control || other.control,
            alt: self.alt || other.alt,
            shift: self.shift || other.shift,
        }
    }

    /// Set containment, in spec form.
    pub open spec fn contains_spec(self, other: KeyModifiers) -> bool {
        &&& (other.control ==> self.control)
        &&& (other.alt ==> self.alt)
        &&& (other.shift ==> self.shift)
    }

    /// Does this set hold every modifier of `other`?
    pub fn contains(self, other: KeyModifiers) -> (r: bool)
        ensures
            r == self.contains_spec(other),
    {
        (!other.control || self.control) && (!other.alt || self.alt) && (!other.shift
            || self.shift)
    }

    /// Is this the empty set?
    pub fn is_empty(self) -> (r: bool)
        ensures
            r == (self == (KeyModifiers { control: false, alt: false, shift: false })),
    {
        !self.control && !self.alt && !self.shift
    }
}

/// One concrete key combination: a key code and the modifiers held with it.
/// Equality is structural: same code, same modifier set.
#[derive(Clone, Copy, PartialEq, Eq, Hash, Debug, Structural)]
pub struct KeyEvent {
    pub code: KeyCode,
    pub modifiers: KeyModifiers,
}

impl KeyEvent {
    /// A key event is valid when its code is.
    pub open spec fn is_valid(self) -> bool {
        self.code.is_valid()
    }

    /// Pair a code with a modifier set.
    pub fn new(code: KeyCode, modifiers: KeyModifiers) -> (r: KeyEvent)
        ensures
            r == (KeyEvent { code, modifiers }),
    {
        KeyEvent { code, modifiers }
    }
}

} // verus!
