//! Formatting a [`KeyEvent`] back into a textual description, under a small
//! configuration: the labels used for the three modifiers, an implicit-shift
//! mode in which Shift on a letter is shown by uppercasing the letter rather
//! than by a label, and a capitalization policy for key names.
//!
//! Modifiers always render in the fixed order Control, Alt, Shift, whatever
//! order the source text used: the modifier set carries no order.
//! [`format_spec`] is the mathematical description of the rendering, and
//! [`KeyEventFormat::to_string`] is proved to follow it.

use vstd::prelude::*;
use vstd::string::*;

use crate::chars::{ascii_letter, digit_char, digit_to_char, is_ascii_letter, lower_char,
    push_char, to_lower, to_upper, upper_char};
use crate::key::{KeyCode, KeyEvent};

verus! {

/// The mathematical content of a [`KeyEventFormat`]: its view.
pub ghost struct KeyEventFormatView {
    pub control: Seq<char>,
    pub alt: Seq<char>,
    pub shift: Seq<char>,
    pub implicit_shift: bool,
    pub lowercase_keys: bool,
}

/// How key events are rendered to text.
///
/// `control`, `alt` and `shift` are the labels written (in that fixed
/// order) for the modifiers that are present, each already carrying its own
/// separator, as in the default `Ctrl-`. With `implicit_shift`, Shift on a
/// letter key is shown by uppercasing the letter instead of by the label;
/// for any other key the label still appears. With `lowercase_keys`, the
/// names of special keys render in lowercase (`insert` instead of
/// `Insert`).
#[derive(Clone, Debug)]
pub struct KeyEventFormat {
    pub control: String,
    pub alt: String,
    pub shift: String,
    pub implicit_shift: bool,
    pub lowercase_keys: bool,
}

impl View for KeyEventFormat {
    type V = KeyEventFormatView;

    open spec fn view(&self) -> KeyEventFormatView {
        KeyEventFormatView {
            control: self.control@,
            alt: self.alt@,
            shift: self.shift@,
            implicit_shift: self.implicit_shift,
            lowercase_keys: self.lowercase_keys,
        }
    }
}

/// The default configuration: `Ctrl-`, `Alt-` and `Shift-` labels,
/// explicit Shift, capitalized key names. This is the rendering the
/// round-trip law is about.
pub open spec fn default_format_spec() -> KeyEventFormatView {
    KeyEventFormatView {
        control: "Ctrl-"@,
        alt: "Alt-"@,
        shift: "Shift-"@,
        implicit_shift: false,
        lowercase_keys: false,
    }
}

/// Is Shift shown by the casing of the character itself rather than by a
/// label? Only with implicit-shift mode, Shift present, and a letter key.
pub open spec fn implicit_shift_applies(f: KeyEventFormatView, e: KeyEvent) -> bool {
    f.implicit_shift && e.modifiers.shift && (e.code matches KeyCode::Char(c) && is_ascii_letter(
        c,
    ))
}

/// The modifier labels of an event, in the fixed order Control, Alt,
/// Shift, each present exactly when the modifier is.
pub open spec fn modifier_prefix(f: KeyEventFormatView, e: KeyEvent) -> Seq<char> {
    (if e.modifiers.control {
        f.control
    } else {
        Seq::<char>::empty()
    }) + (if e.modifiers.alt {
        f.alt
    } else {
        Seq::<char>::empty()
    }) + (if e.modifiers.shift && !implicit_shift_applies(f, e) {
        f.shift
    } else {
        Seq::<char>::empty()
    })
}

/// The default table-driven spelling of a named key, in the requested
/// casing. Function keys and character keys are rendered elsewhere; for
/// them this is empty.
pub open spec fn key_name(code: KeyCode, lower: bool) -> Seq<char> {
    match code {
        KeyCode::Backspace => if lower {
            "backspace"@
        } else {
            "Backspace"@
        },
        KeyCode::Enter => if lower {
            "enter"@
        } else {
            "Enter"@
        },
        KeyCode::Left => if lower {
            "left"@
        } else {
            "Left"@
        },
        KeyCode::Right => if lower {
            "right"@
        } else {
            "Right"@
        },
        KeyCode::Up => if lower {
            "up"@
        } else {
            "Up"@
        },
        KeyCode::Down => if lower {
            "down"@
        } else {
            "Down"@
        },
        KeyCode::Home => if lower {
            "home"@
        } else {
            "Home"@
        },
        KeyCode::End => if lower {
            "end"@
        } else {
            "End"@
        },
        KeyCode::PageUp => if lower {
            "pageup"@
        } else {
            "PageUp"@
        },
        KeyCode::PageDown => if lower {
            "pagedown"@
        } else {
            "PageDown"@
        },
        KeyCode::Tab => if lower {
            "tab"@
        } else {
            "Tab"@
        },
        KeyCode::BackTab => if lower {
            "backtab"@
        } else {
            "BackTab"@
        },
        KeyCode::Delete => if lower {
            "delete"@
        } else {
            "Delete"@
        },
        KeyCode::Insert => if lower {
            "insert"@
        } else {
            "Insert"@
        },
        KeyCode::Esc => if lower {
            "esc"@
        } else {
            "Esc"@
        },
        KeyCode::F(_) => Seq::<char>::empty(),
        KeyCode::Char(_) => Seq::<char>::empty(),
    }
}

/// The decimal digits of a function-key index in `1..=12`.
pub open spec fn fkey_digits(n: u8) -> Seq<char> {
    if n >= 10 {
        seq!['1', digit_char(n - 10)]
    } else {
        seq![digit_char(n as int)]
    }
}

/// The rendering of the key itself, after the modifier labels.
pub open spec fn base_text(f: KeyEventFormatView, e: KeyEvent) -> Seq<char> {
    match e.code {
        KeyCode::F(n) => (if f.lowercase_keys {
            seq!['f']
        } else {
            seq!['F']
        }) + fkey_digits(n),
        KeyCode::Char(c) => if c == ' ' {
            if f.lowercase_keys {
                "space"@
            } else {
                "Space"@
            }
        } else if c == '-' {
            if f.lowercase_keys {
                "hyphen"@
            } else {
                "Hyphen"@
            }
        } else {
            seq![
                if implicit_shift_applies(f, e) {
                    to_upper(c)
                } else {
                    to_lower(c)
                },
            ]
        },
        _ => key_name(e.code, f.lowercase_keys),
    }
}

/// The whole rendering of an event: modifier labels, then the key, with no
/// separator after the last label.
pub open spec fn format_spec(f: KeyEventFormatView, e: KeyEvent) -> Seq<char> {
    modifier_prefix(f, e) + base_text(f, e)
}

impl Default for KeyEventFormat {
    /// The default configuration; see [`default_format_spec`].
    fn default() -> (r: KeyEventFormat)
        ensures
            r@ == default_format_spec(),
    {
        KeyEventFormat {
            control: String::from_str("Ctrl-"),
            alt: String::from_str("Alt-"),
            shift: String::from_str("Shift-"),
            implicit_shift: false,
            lowercase_keys: false,
        }
    }
}

impl KeyEventFormat {
    /// Replace the label written for Control.
    pub fn with_control(self, label: &str) -> (r: KeyEventFormat)
        ensures
            r@ == (KeyEventFormatView { control: label@, ..self@ }),
    {
        KeyEventFormat { control: String::from_str(label), ..self }
    }

    /// Replace the label written for Alt.
    pub fn with_alt(self, label: &str) -> (r: KeyEventFormat)
        ensures
            r@ == (KeyEventFormatView { alt: label@, ..self@ }),
    {
        KeyEventFormat { alt: String::from_str(label), ..self }
    }

    /// Replace the label written for Shift.
    pub fn with_shift(self, label: &str) -> (r: KeyEventFormat)
        ensures
            r@ == (KeyEventFormatView { shift: label@, ..self@ }),
    {
        KeyEventFormat { shift: String::from_str(label), ..self }
    }

    /// Show Shift on letter keys by uppercasing the letter.
    pub fn with_implicit_shift(self) -> (r: KeyEventFormat)
        ensures
            r@ == (KeyEventFormatView { implicit_shift: true, ..self@ }),
    {
        KeyEventFormat { implicit_shift: true, ..self }
    }

    /// Render the names of special keys in lowercase.
    pub fn with_lowercase_keys(self) -> (r: KeyEventFormat)
        ensures
            r@ == (KeyEventFormatView { lowercase_keys: true, ..self@ }),
    {
        KeyEventFormat { lowercase_keys: true, ..self }
    }

    /// Render the event as text under this configuration.
    pub fn to_string(&self, key: KeyEvent) -> (s: String)
        requires
            key.is_valid(),
        ensures
            s@ == format_spec(self@, key),
    {
        let mut s = String::new();
        let implicit: bool = match key.code {
            KeyCode::Char(c) => self.implicit_shift && key.modifiers.shift && ascii_letter(c),
            _ => false,
        };
        if key.modifiers.control {
            s.append(self.control.as_str());
        }
        if key.modifiers.alt {
            s.append(self.alt.as_str());
        }
        if key.modifiers.shift && !implicit {
            s.append(self.shift.as_str());
        }
        proof {
            assert(s@ =~= modifier_prefix(self@, key));
        }
        match key.code {
            KeyCode::F(n) => {
                if self.lowercase_keys {
                    push_char(&mut s, 'f');
                } else {
                    push_char(&mut s, 'F');
                }
                if n >= 10 {
                    push_char(&mut s, '1');
                    push_char(&mut s, digit_to_char(n - 10));
                } else {
                    push_char(&mut s, digit_to_char(n));
                }
            },
            KeyCode::Char(c) => {
                if c == ' ' {
                    if self.lowercase_keys {
                        s.append("space");
                    } else {
                        s.append("Space");
                    }
                } else if c == '-' {
                    if self.lowercase_keys {
                        s.append("hyphen");
                    } else {
                        s.append("Hyphen");
                    }
                } else {
                    let r = if implicit {
                        upper_char(c)
                    } else {
                        lower_char(c)
                    };
                    push_char(&mut s, r);
                }
            },
            _ => {
                let name = key_name_text(key.code, self.lowercase_keys);
                s.append(name);
            },
        }
        proof {
            assert(s@ =~= format_spec(self@, key));
        }
        s
    }
}

/// The spelling of a named key, as a string slice.
fn key_name_text(code: KeyCode, lower: bool) -> (r: &'static str)
    ensures
        r@ == key_name(code, lower),
{
    match code {
        KeyCode::Backspace => if lower {
            "backspace"
        } else {
            "Backspace"
        },
        KeyCode::Enter => if lower {
            "enter"
        } else {
            "Enter"
        },
        KeyCode::Left => if lower {
            "left"
        } else {
            "Left"
        },
        KeyCode::Right => if lower {
            "right"
        } else {
            "Right"
        },
        KeyCode::Up => if lower {
            "up"
        } else {
            "Up"
        },
        KeyCode::Down => if lower {
            "down"
        } else {
            "Down"
        },
        KeyCode::Home => if lower {
            "home"
        } else {
            "Home"
        },
        KeyCode::End => if lower {
            "end"
        } else {
            "End"
        },
        KeyCode::PageUp => if lower {
            "pageup"
        } else {
            "PageUp"
        },
        KeyCode::PageDown => if lower {
            "pagedown"
        } else {
            "PageDown"
        },
        KeyCode::Tab => if lower {
            "tab"
        } else {
            "Tab"
        },
        KeyCode::BackTab => if lower {
            "backtab"
        } else {
            "BackTab"
        },
        KeyCode::Delete => if lower {
            "delete"
        } else {
            "Delete"
        },
        KeyCode::Insert => if lower {
            "insert"
        } else {
            "Insert"
        },
        KeyCode::Esc => if lower {
            "esc"
        } else {
            "Esc"
        },
        KeyCode::F(_) => {
            proof {
                reveal_strlit("");
                assert(""@ =~= Seq::<char>::empty());
            }
            ""
        },
        KeyCode::Char(_) => {
            proof {
                reveal_strlit("");
                assert(""@ =~= Seq::<char>::empty());
            }
            ""
        },
    }
}

} // verus!
