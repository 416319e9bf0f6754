//! A thin value object around [`KeyEvent`], convenient as a map key in
//! keybinding tables: it parses from text, renders to text with the default
//! configuration, and its equality and hash are exactly those of the wrapped
//! event.

use vstd::prelude::*;

use crate::format::{default_format_spec, format_spec, KeyEventFormat};
use crate::key::KeyEvent;
use crate::parse::{parse, parse_spec, ParseKeyError};

verus! {

/// One key combination, wrapped for use as a lookup key. Owns nothing
/// beyond the event itself; equality is the event's structural equality.
#[derive(Clone, Copy, PartialEq, Eq, Hash, Debug, Structural)]
pub struct CroKey {
    pub key: KeyEvent,
}

impl CroKey {
    /// Wrap an event.
    pub fn new(key: KeyEvent) -> (r: CroKey)
        ensures
            r == (CroKey { key }),
    {
        CroKey { key }
    }

    /// Construct from a textual description; the same grammar and the same
    /// error as [`parse`].
    pub fn from_text(raw: &str) -> (r: Result<CroKey, ParseKeyError>)
        ensures
            (parse_spec(raw@) matches Ok(e) ==> r matches Ok(k) && k.key == e),
            (parse_spec(raw@) matches Err(rem) ==> r matches Err(err) && err.raw@ == rem),
    {
        match parse(raw) {
            Ok(key) => Ok(CroKey { key }),
            Err(e) => Err(e),
        }
    }

    /// Render with the default configuration.
    pub fn to_text(&self) -> (s: String)
        requires
            self.key.is_valid(),
        ensures
            s@ == format_spec(default_format_spec(), self.key),
    {
        let format = KeyEventFormat::default();
        format.to_string(self.key)
    }
}

impl From<KeyEvent> for CroKey {
    /// Wrapping an event is [`CroKey::new`].
    fn from(key: KeyEvent) -> (r: CroKey) {
        CroKey { key }
    }
}

impl vstd::std_specs::convert::FromSpecImpl<KeyEvent> for CroKey {
    open spec fn obeys_from_spec() -> bool {
        true
    }

    open spec fn from_spec(key: KeyEvent) -> CroKey {
        CroKey { key }
    }
}

impl From<CroKey> for KeyEvent {
    /// Unwrapping gives the event back.
    fn from(k: CroKey) -> (r: KeyEvent) {
        k.key
    }
}

impl vstd::std_specs::convert::FromSpecImpl<CroKey> for KeyEvent {
    open spec fn obeys_from_spec() -> bool {
        true
    }

    open spec fn from_spec(k: CroKey) -> KeyEvent {
        k.key
    }
}

} // verus!
