//! Parsing a textual key-combination description, such as `ctrl-alt-shift-c`
//! or `F6`, into a [`KeyEvent`].
//!
//! The whole input is first folded to lowercase, then modifier prefixes
//! (`ctrl-`, `alt-`, `shift-`) are stripped greedily, in any order and with
//! repetition, and the remainder is resolved against a fixed table of key
//! names, or taken as a literal character key when it is a single character.
//! [`parse_spec`] is the mathematical description of exactly that process,
//! and [`parse`] is proved to follow it.

use vstd::prelude::*;
use vstd::string::*;

use crate::chars::{lower_char, lower_seq, push_char, to_lower, to_upper, upper_char};
use crate::key::{KeyCode, KeyEvent, KeyModifiers};

verus! {

/// The modifier set holding nothing.
pub open spec fn no_mods() -> KeyModifiers {
    KeyModifiers { control: false, alt: false, shift: false }
}

/// Does the text begin with the `ctrl-` prefix?
pub open spec fn is_ctrl_prefix(s: Seq<char>) -> bool {
    s.len() >= 5 && s[0] == 'c' && s[1] == 't' && s[2] == 'r' && s[3] == 'l' && s[4] == '-'
}

/// Does the text begin with the `alt-` prefix?
pub open spec fn is_alt_prefix(s: Seq<char>) -> bool {
    s.len() >= 4 && s[0] == 'a' && s[1] == 'l' && s[2] == 't' && s[3] == '-'
}

/// Does the text begin with the `shift-` prefix?
pub open spec fn is_shift_prefix(s: Seq<char>) -> bool {
    s.len() >= 6 && s[0] == 's' && s[1] == 'h' && s[2] == 'i' && s[3] == 'f' && s[4] == 't'
        && s[5] == '-'
}

/// Strip the leading modifier prefixes of a lowercased input, accumulating
/// the corresponding flags. Repeats only re-set an already-set flag, and the
/// loop stops at the first position where no prefix matches.
pub open spec fn strip_modifiers(s: Seq<char>, m: KeyModifiers) -> (Seq<char>, KeyModifiers)
    decreases s.len(),
{
    if is_ctrl_prefix(s) {
        strip_modifiers(s.skip(5), KeyModifiers { control: true, ..m })
    } else if is_alt_prefix(s) {
        strip_modifiers(s.skip(4), KeyModifiers { alt: true, ..m })
    } else if is_shift_prefix(s) {
        strip_modifiers(s.skip(6), KeyModifiers { shift: true, ..m })
    } else {
        (s, m)
    }
}

/// The fixed table of multi-character key names, on an already-lowercased
/// remainder. Unknown names resolve to `None`.
pub open spec fn code_of_name(s: Seq<char>) -> Option<KeyCode> {
    if s == "esc"@ {
        Some(KeyCode::Esc)
    } else if s == "enter"@ {
        Some(KeyCode::Enter)
    } else if s == "left"@ {
        Some(KeyCode::Left)
    } else if s == "right"@ {
        Some(KeyCode::Right)
    } else if s == "up"@ {
        Some(KeyCode::Up)
    } else if s == "down"@ {
        Some(KeyCode::Down)
    } else if s == "home"@ {
        Some(KeyCode::Home)
    } else if s == "end"@ {
        Some(KeyCode::End)
    } else if s == "pageup"@ {
        Some(KeyCode::PageUp)
    } else if s == "pagedown"@ {
        Some(KeyCode::PageDown)
    } else if s == "backtab"@ {
        Some(KeyCode::BackTab)
    } else if s == "backspace"@ {
        Some(KeyCode::Backspace)
    } else if s == "del"@ {
        Some(KeyCode::Delete)
    } else if s == "delete"@ {
        Some(KeyCode::Delete)
    } else if s == "insert"@ {
        Some(KeyCode::Insert)
    } else if s == "ins"@ {
        Some(KeyCode::Insert)
    } else if s == "f1"@ {
        Some(KeyCode::F(1))
    } else if s == "f2"@ {
        Some(KeyCode::F(2))
    } else if s == "f3"@ {
        Some(KeyCode::F(3))
    } else if s == "f4"@ {
        Some(KeyCode::F(4))
    } else if s == "f5"@ {
        Some(KeyCode::F(5))
    } else if s == "f6"@ {
        Some(KeyCode::F(6))
    } else if s == "f7"@ {
        Some(KeyCode::F(7))
    } else if s == "f8"@ {
        Some(KeyCode::F(8))
    } else if s == "f9"@ {
        Some(KeyCode::F(9))
    } else if s == "f10"@ {
        Some(KeyCode::F(10))
    } else if s == "f11"@ {
        Some(KeyCode::F(11))
    } else if s == "f12"@ {
        Some(KeyCode::F(12))
    } else if s == "space"@ {
        Some(KeyCode::Char(' '))
    } else if s == "hyphen"@ {
        Some(KeyCode::Char('-'))
    } else if s == "minus"@ {
        Some(KeyCode::Char('-'))
    } else if s == "tab"@ {
        Some(KeyCode::Tab)
    } else {
        None
    }
}

/// What parsing yields on an input that has already been folded to
/// lowercase: either the key event, or the unresolved remainder.
pub open spec fn parse_lowered(low: Seq<char>) -> Result<KeyEvent, Seq<char>> {
    let (rem, m) = strip_modifiers(low, no_mods());
    match code_of_name(rem) {
        Some(code) => {
            // The tab-with-shift key always carries Shift, whether or not a
            // "shift-" prefix was written.
            let m2 = if code == KeyCode::BackTab {
                KeyModifiers { shift: true, ..m }
            } else {
                m
            };
            Ok(KeyEvent { code, modifiers: m2 })
        },
        None => {
            if rem.len() == 1 {
                // A single character is a literal key; with Shift held, the
                // stored character is its uppercase form.
                let c = if m.shift {
                    to_upper(rem[0])
                } else {
                    rem[0]
                };
                Ok(KeyEvent { code: KeyCode::Char(c), modifiers: m })
            } else {
                Err(rem)
            }
        },
    }
}

/// What parsing yields on any input: the input is folded to lowercase
/// first, so parsing is insensitive to the case of the text.
pub open spec fn parse_spec(s: Seq<char>) -> Result<KeyEvent, Seq<char>> {
    parse_lowered(lower_seq(s))
}

/// The error of [`parse`]: no key combination can be derived from the text.
#[derive(Debug)]
pub struct ParseKeyError {
    /// The part of the input which couldn't be resolved, after lowercasing
    /// and modifier stripping: not necessarily the whole input.
    pub raw: String,
}

impl ParseKeyError {
    /// Wrap the unresolved text.
    pub fn new(s: String) -> (r: Self)
        ensures
            r.raw == s,
    {
        ParseKeyError { raw: s }
    }
}

/// The input, folded to ASCII lowercase, as a vector of characters.
fn lowered_chars(raw: &str) -> (v: Vec<char>)
    ensures
        v@ == lower_seq(raw@),
{
    let n = raw.unicode_len();
    let mut v: Vec<char> = Vec::new();
    let mut i: usize = 0;
    while i < n
        invariant
            i <= n,
            n == raw@.len(),
            v@.len() == i,
            forall|j: int| 0 <= j < i ==> v@[j] == to_lower(raw@[j]),
        decreases n - i,
    {
        let c = raw.get_char(i);
        v.push(lower_char(c));
        i += 1;
    }
    proof {
        assert(v@ =~= lower_seq(raw@));
    }
    v
}

/// Does the suffix of `v` starting at `idx` begin with `ctrl-`?
fn ctrl_prefix_at(v: &Vec<char>, idx: usize) -> (r: bool)
    requires
        idx <= v@.len(),
    ensures
        r == is_ctrl_prefix(v@.skip(idx as int)),
{
    proof {
        assert(forall|k: int|
            0 <= k < v@.len() - idx ==> #[trigger] v@.skip(idx as int)[k] == v@[idx + k]);
    }
    v.len() - idx >= 5 && v[idx] == 'c' && v[idx + 1] == 't' && v[idx + 2] == 'r' && v[idx + 3]
        == 'l' && v[idx + 4] == '-'
}

/// Does the suffix of `v` starting at `idx` begin with `alt-`?
fn alt_prefix_at(v: &Vec<char>, idx: usize) -> (r: bool)
    requires
        idx <= v@.len(),
    ensures
        r == is_alt_prefix(v@.skip(idx as int)),
{
    proof {
        assert(forall|k: int|
            0 <= k < v@.len() - idx ==> #[trigger] v@.skip(idx as int)[k] == v@[idx + k]);
    }
    v.len() - idx >= 4 && v[idx] == 'a' && v[idx + 1] == 'l' && v[idx + 2] == 't' && v[idx + 3]
        == '-'
}

/// Does the suffix of `v` starting at `idx` begin with `shift-`?
fn shift_prefix_at(v: &Vec<char>, idx: usize) -> (r: bool)
    requires
        idx <= v@.len(),
    ensures
        r == is_shift_prefix(v@.skip(idx as int)),
{
    proof {
        assert(forall|k: int|
            0 <= k < v@.len() - idx ==> #[trigger] v@.skip(idx as int)[k] == v@[idx + k]);
    }
    v.len() - idx >= 6 && v[idx] == 's' && v[idx + 1] == 'h' && v[idx + 2] == 'i' && v[idx + 3]
        == 'f' && v[idx + 4] == 't' && v[idx + 5] == '-'
}

/// Are a `String` and a string slice the same sequence of characters?
fn str_eq(a: &String, b: &str) -> (r: bool)
    ensures
        r == (a@ == b@),
{
    let bs = String::from_str(b);
    a.eq(&bs)
}

/// The characters of `v` from `idx` on, collected into a `String`.
fn remainder_string(v: &Vec<char>, idx: usize) -> (r: String)
    requires
        idx <= v@.len(),
    ensures
        r@ == v@.skip(idx as int),
{
    let mut r = String::new();
    let mut i: usize = idx;
    while i < v.len()
        invariant
            idx <= i <= v@.len(),
            r@ == v@.subrange(idx as int, i as int),
        decreases v@.len() - i,
    {
        push_char(&mut r, v[i]);
        proof {
            assert(r@ =~= v@.subrange(idx as int, i + 1 as int));
        }
        i += 1;
    }
    proof {
        assert(r@ =~= v@.skip(idx as int));
    }
    r
}

/// Resolve an already-lowercased remainder against the name table.
fn name_code(rem: &String) -> (r: Option<KeyCode>)
    ensures
        r == code_of_name(rem@),
{
    if str_eq(rem, "esc") {
        Some(KeyCode::Esc)
    } else if str_eq(rem, "enter") {
        Some(KeyCode::Enter)
    } else if str_eq(rem, "left") {
        Some(KeyCode::Left)
    } else if str_eq(rem, "right") {
        Some(KeyCode::Right)
    } else if str_eq(rem, "up") {
        Some(KeyCode::Up)
    } else if str_eq(rem, "down") {
        Some(KeyCode::Down)
    } else if str_eq(rem, "home") {
        Some(KeyCode::Home)
    } else if str_eq(rem, "end") {
        Some(KeyCode::End)
    } else if str_eq(rem, "pageup") {
        Some(KeyCode::PageUp)
    } else if str_eq(rem, "pagedown") {
        Some(KeyCode::PageDown)
    } else if str_eq(rem, "backtab") {
        Some(KeyCode::BackTab)
    } else if str_eq(rem, "backspace") {
        Some(KeyCode::Backspace)
    } else if str_eq(rem, "del") {
        Some(KeyCode::Delete)
    } else if str_eq(rem, "delete") {
        Some(KeyCode::Delete)
    } else if str_eq(rem, "insert") {
        Some(KeyCode::Insert)
    } else if str_eq(rem, "ins") {
        Some(KeyCode::Insert)
    } else if str_eq(rem, "f1") {
        Some(KeyCode::F(1))
    } else if str_eq(rem, "f2") {
        Some(KeyCode::F(2))
    } else if str_eq(rem, "f3") {
        Some(KeyCode::F(3))
    } else if str_eq(rem, "f4") {
        Some(KeyCode::F(4))
    } else if str_eq(rem, "f5") {
        Some(KeyCode::F(5))
    } else if str_eq(rem, "f6") {
        Some(KeyCode::F(6))
    } else if str_eq(rem, "f7") {
        Some(KeyCode::F(7))
    } else if str_eq(rem, "f8") {
        Some(KeyCode::F(8))
    } else if str_eq(rem, "f9") {
        Some(KeyCode::F(9))
    } else if str_eq(rem, "f10") {
        Some(KeyCode::F(10))
    } else if str_eq(rem, "f11") {
        Some(KeyCode::F(11))
    } else if str_eq(rem, "f12") {
        Some(KeyCode::F(12))
    } else if str_eq(rem, "space") {
        Some(KeyCode::Char(' '))
    } else if str_eq(rem, "hyphen") {
        Some(KeyCode::Char('-'))
    } else if str_eq(rem, "minus") {
        Some(KeyCode::Char('-'))
    } else if str_eq(rem, "tab") {
        Some(KeyCode::Tab)
    } else {
        None
    }
}

/// Parse a textual key-combination description.
///
/// The text is folded to lowercase, leading `ctrl-`, `alt-` and `shift-`
/// prefixes (any order, repeats allowed) become the modifier set, and the
/// remainder must be a known key name or a single character. On failure the
/// error carries the unresolved remainder.
pub fn parse(raw: &str) -> (r: Result<KeyEvent, ParseKeyError>)
    ensures
        (parse_spec(raw@) matches Ok(e) ==> r matches Ok(ev) && ev == e),
        (parse_spec(raw@) matches Err(rem) ==> r matches Err(err) && err.raw@ == rem),
{
    let v = lowered_chars(raw);
    let vn: usize = v.len();
    let ghost low = lower_seq(raw@);
    let mut idx: usize = 0;
    let mut mods = KeyModifiers::empty();
    proof {
        assert(v@.skip(0) =~= v@);
    }
    loop
        invariant
            idx <= vn,
            vn == v@.len(),
            v@ == low,
            low == lower_seq(raw@),
            strip_modifiers(low, no_mods()) == strip_modifiers(v@.skip(idx as int), mods),
        ensures
            idx <= vn,
            vn == v@.len(),
            v@ == low,
            strip_modifiers(low, no_mods()) == (v@.skip(idx as int), mods),
        decreases v@.len() - idx,
    {
        if ctrl_prefix_at(&v, idx) {
            proof {
                assert(v@.skip(idx as int).skip(5) =~= v@.skip(idx + 5));
            }
            idx = idx + 5;
            mods = KeyModifiers { control: true, ..mods };
        } else if alt_prefix_at(&v, idx) {
            proof {
                assert(v@.skip(idx as int).skip(4) =~= v@.skip(idx + 4));
            }
            idx = idx + 4;
            mods = KeyModifiers { alt: true, ..mods };
        } else if shift_prefix_at(&v, idx) {
            proof {
                assert(v@.skip(idx as int).skip(6) =~= v@.skip(idx + 6));
            }
            idx = idx + 6;
            mods = KeyModifiers { shift: true, ..mods };
        } else {
            break ;
        }
    }
    let rem = remainder_string(&v, idx);
    match name_code(&rem) {
        Some(code) => {
            if code == KeyCode::BackTab {
                mods = KeyModifiers { shift: true, ..mods };
            }
            Ok(KeyEvent { code, modifiers: mods })
        },
        None => {
            let n: usize = v.len() - idx;
            if n == 1 {
                let c0 = v[idx];
                let c = if mods.shift {
                    upper_char(c0)
                } else {
                    c0
                };
                Ok(KeyEvent { code: KeyCode::Char(c), modifiers: mods })
            } else {
                Err(ParseKeyError::new(rem))
            }
        },
    }
}

} // verus!
