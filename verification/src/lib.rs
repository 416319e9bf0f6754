//! Keyboard key combinations: parsing from text, formatting back to text.
//!
//! A key combination such as `ctrl-alt-shift-c` pairs a [`KeyCode`] with a
//! set of modifiers ([`KeyModifiers`]). [`parse`] turns a textual
//! description into a [`KeyEvent`], [`KeyEventFormat`] renders an event
//! back to text, and both directions agree: parsing ignores case and
//! modifier order ([`lemma_parse_case_insensitive`],
//! [`lemma_modifier_order_insensitive`]), and with the default format,
//! formatting an event produced by the parser and parsing the result gives
//! the event back ([`lemma_round_trip_default`]).

mod chars;
mod format;
mod key;
mod laws;
mod parse;
mod wrapper;

pub use chars::{lower_seq, to_lower, to_upper};
pub use format::{base_text, default_format_spec, format_spec, implicit_shift_applies, key_name,
    modifier_prefix, KeyEventFormat, KeyEventFormatView};
pub use key::{KeyCode, KeyEvent, KeyModifiers};
pub use laws::{lemma_format_reparses, lemma_modifier_order_insensitive, lemma_modifier_repeat,
    lemma_parse_canonical, lemma_parse_case_insensitive, lemma_round_trip_default,
    modifier_flags, modifier_text, modifiers_text, parser_canonical, Modifier};
pub use parse::{code_of_name, no_mods, parse, parse_lowered, parse_spec, strip_modifiers,
    ParseKeyError};
pub use wrapper::CroKey;

use vstd::prelude::*;

verus! {

/// The character of a plain letter event: `Some(c)` exactly when the event
/// is a character key pressed with no modifier at all.
pub open spec fn as_letter_spec(key: KeyEvent) -> Option<char> {
    match key.code {
        KeyCode::Char(c) => {
            if key.modifiers == (KeyModifiers { control: false, alt: false, shift: false }) {
                Some(c)
            } else {
                None
            }
        },
        _ => None,
    }
}

/// Return the raw char if the event is a letter event.
pub fn as_letter(key: KeyEvent) -> (r: Option<char>)
    ensures
        r == as_letter_spec(key),
{
    match key.code {
        KeyCode::Char(c) => {
            if !key.modifiers.control && !key.modifiers.alt && !key.modifiers.shift {
                Some(c)
            } else {
                None
            }
        },
        _ => None,
    }
}

} // verus!
