//! The laws of the parser and the formatter, stated once and proved for all
//! inputs: parsing ignores the case of the text and the order and repetition
//! of modifier prefixes, and with the default configuration, formatting a
//! parsed event and parsing the result gives the event back.

use vstd::prelude::*;

use crate::chars::{lemma_case_fold, lemma_lower_seq_concat, lower_seq, to_lower, to_upper};
use crate::format::{base_text, default_format_spec, fkey_digits, format_spec,
    implicit_shift_applies, key_name};
use crate::key::{KeyCode, KeyEvent, KeyModifiers};
use crate::parse::{code_of_name, is_alt_prefix, is_ctrl_prefix, is_shift_prefix, no_mods,
    parse_spec, strip_modifiers};

verus! {

/// Law: parsing is case-insensitive. Two inputs whose characters agree up
/// to ASCII case parse to exactly the same outcome, event or error.
pub proof fn lemma_parse_case_insensitive(a: Seq<char>, b: Seq<char>)
    requires
        a.len() == b.len(),
        forall|i: int| 0 <= i < a.len() ==> to_lower(a[i]) == to_lower(b[i]),
    ensures
        parse_spec(a) == parse_spec(b),
{
    assert(lower_seq(a) =~= lower_seq(b));
}

/// One modifier token of the textual grammar.
#[derive(Clone, Copy, PartialEq, Eq, Debug, Structural)]
pub enum Modifier {
    Control,
    Alt,
    Shift,
}

/// The text of one modifier prefix token.
pub open spec fn modifier_text(m: Modifier) -> Seq<char> {
    match m {
        Modifier::Control => "ctrl-"@,
        Modifier::Alt => "alt-"@,
        Modifier::Shift => "shift-"@,
    }
}

/// The text of a whole run of modifier prefix tokens.
pub open spec fn modifiers_text(ms: Seq<Modifier>) -> Seq<char>
    decreases ms.len(),
{
    if ms.len() == 0 {
        Seq::<char>::empty()
    } else {
        modifier_text(ms[0]) + modifiers_text(ms.skip(1))
    }
}

/// The modifier set a run of tokens denotes: which tokens occur, order and
/// repetition forgotten.
pub open spec fn modifier_flags(ms: Seq<Modifier>) -> KeyModifiers {
    KeyModifiers {
        control: ms.contains(Modifier::Control),
        alt: ms.contains(Modifier::Alt),
        shift: ms.contains(Modifier::Shift),
    }
}

/// Stripping a `ctrl-` prefix takes one definition step.
proof fn lemma_strip_ctrl(t: Seq<char>, m: KeyModifiers)
    ensures
        strip_modifiers("ctrl-"@ + t, m) == strip_modifiers(
            t,
            KeyModifiers { control: true, ..m },
        ),
{
    reveal_strlit("ctrl-");
    let s = "ctrl-"@ + t;
    assert(is_ctrl_prefix(s));
    assert(s.skip(5) =~= t);
}

/// Stripping an `alt-` prefix takes one definition step.
proof fn lemma_strip_alt(t: Seq<char>, m: KeyModifiers)
    ensures
        strip_modifiers("alt-"@ + t, m) == strip_modifiers(t, KeyModifiers { alt: true, ..m }),
{
    reveal_strlit("alt-");
    reveal_strlit("ctrl-");
    let s = "alt-"@ + t;
    assert(!is_ctrl_prefix(s));
    assert(is_alt_prefix(s));
    assert(s.skip(4) =~= t);
}

/// Stripping a `shift-` prefix takes one definition step.
proof fn lemma_strip_shift(t: Seq<char>, m: KeyModifiers)
    ensures
        strip_modifiers("shift-"@ + t, m) == strip_modifiers(
            t,
            KeyModifiers { shift: true, ..m },
        ),
{
    reveal_strlit("shift-");
    reveal_strlit("ctrl-");
    reveal_strlit("alt-");
    let s = "shift-"@ + t;
    assert(!is_ctrl_prefix(s));
    assert(!is_alt_prefix(s));
    assert(is_shift_prefix(s));
    assert(s.skip(6) =~= t);
}

/// A sequence contains an element exactly when its head is the element or
/// its tail contains it.
proof fn lemma_contains_head_tail(ms: Seq<Modifier>, x: Modifier)
    requires
        ms.len() > 0,
    ensures
        ms.contains(x) == (ms[0] == x || ms.skip(1).contains(x)),
{
    if ms.skip(1).contains(x) {
        let i = choose|i: int| 0 <= i < ms.skip(1).len() && ms.skip(1)[i] == x;
        assert(ms[i + 1] == x);
    }
    if ms.contains(x) && ms[0] != x {
        let i = choose|i: int| 0 <= i < ms.len() && ms[i] == x;
        assert(ms.skip(1)[i - 1] == x);
    }
}

/// Stripping a run of modifier tokens accumulates exactly the set of
/// modifiers that occur in the run, and goes on with the rest of the text.
proof fn lemma_strip_tokens(ms: Seq<Modifier>, t: Seq<char>, m: KeyModifiers)
    ensures
        strip_modifiers(modifiers_text(ms) + t, m) == strip_modifiers(
            t,
            m.union_spec(modifier_flags(ms)),
        ),
    decreases ms.len(),
{
    if ms.len() == 0 {
        assert(modifiers_text(ms) + t =~= t);
        assert(!ms.contains(Modifier::Control) && !ms.contains(Modifier::Alt) && !ms.contains(
            Modifier::Shift,
        ));
        assert(m.union_spec(modifier_flags(ms)) == m);
    } else {
        let head = ms[0];
        let rest = ms.skip(1);
        let m1 = match head {
            Modifier::Control => KeyModifiers { control: true, ..m },
            Modifier::Alt => KeyModifiers { alt: true, ..m },
            Modifier::Shift => KeyModifiers { shift: true, ..m },
        };
        assert(modifiers_text(ms) + t =~= modifier_text(head) + (modifiers_text(rest) + t));
        match head {
            Modifier::Control => lemma_strip_ctrl(modifiers_text(rest) + t, m),
            Modifier::Alt => lemma_strip_alt(modifiers_text(rest) + t, m),
            Modifier::Shift => lemma_strip_shift(modifiers_text(rest) + t, m),
        }
        lemma_strip_tokens(rest, t, m1);
        lemma_contains_head_tail(ms, Modifier::Control);
        lemma_contains_head_tail(ms, Modifier::Alt);
        lemma_contains_head_tail(ms, Modifier::Shift);
        assert(m1.union_spec(modifier_flags(rest)) == m.union_spec(modifier_flags(ms)));
    }
}

/// The text of a run of modifier tokens is already lowercase.
proof fn lemma_tokens_lowercase(ms: Seq<Modifier>)
    ensures
        lower_seq(modifiers_text(ms)) == modifiers_text(ms),
    decreases ms.len(),
{
    reveal_strlit("ctrl-");
    reveal_strlit("alt-");
    reveal_strlit("shift-");
    if ms.len() == 0 {
        assert(lower_seq(modifiers_text(ms)) =~= modifiers_text(ms));
    } else {
        lemma_tokens_lowercase(ms.skip(1));
        assert(lower_seq(modifiers_text(ms)) =~= modifiers_text(ms));
    }
}

/// What parsing does on a run of modifier tokens followed by anything: the
/// run becomes its modifier set, and the rest is parsed after it.
proof fn lemma_parse_tokens(ms: Seq<Modifier>, rest: Seq<char>)
    ensures
        strip_modifiers(lower_seq(modifiers_text(ms) + rest), no_mods()) == strip_modifiers(
            lower_seq(rest),
            no_mods().union_spec(modifier_flags(ms)),
        ),
{
    lemma_lower_seq_concat(modifiers_text(ms), rest);
    lemma_tokens_lowercase(ms);
    lemma_strip_tokens(ms, lower_seq(rest), no_mods());
}

/// Law: modifier order insensitivity. Two runs of modifier tokens that
/// denote the same modifier set, in whatever order and with whatever
/// repetition, parse identically in front of any remainder.
pub proof fn lemma_modifier_order_insensitive(
    ms1: Seq<Modifier>,
    ms2: Seq<Modifier>,
    rest: Seq<char>,
)
    requires
        modifier_flags(ms1) == modifier_flags(ms2),
    ensures
        parse_spec(modifiers_text(ms1) + rest) == parse_spec(modifiers_text(ms2) + rest),
{
    lemma_parse_tokens(ms1, rest);
    lemma_parse_tokens(ms2, rest);
}

/// Law: modifier idempotence. Writing the same modifier prefix twice, as in
/// `ctrl-ctrl-c`, parses exactly as writing it once.
pub proof fn lemma_modifier_repeat(m: Modifier, rest: Seq<char>)
    ensures
        parse_spec(modifier_text(m) + (modifier_text(m) + rest)) == parse_spec(
            modifier_text(m) + rest,
        ),
{
    let two = seq![m, m];
    let one = seq![m];
    assert(two.skip(1) =~= one);
    assert(one.skip(1) =~= Seq::<Modifier>::empty());
    assert(modifiers_text(Seq::<Modifier>::empty()) == Seq::<char>::empty());
    assert(modifiers_text(one) == modifier_text(m) + modifiers_text(one.skip(1)));
    assert(modifiers_text(one) =~= modifier_text(m));
    assert(modifiers_text(two) == modifier_text(m) + modifiers_text(two.skip(1)));
    assert(modifiers_text(two) =~= modifier_text(m) + modifier_text(m));
    assert(two.contains(m) && one.contains(m));
    assert(forall|x: Modifier| two.contains(x) ==> x == m);
    assert(forall|x: Modifier| one.contains(x) ==> x == m);
    assert(modifier_flags(two) == modifier_flags(one));
    lemma_modifier_order_insensitive(two, one, rest);
    assert(modifiers_text(two) + rest =~= modifier_text(m) + (modifier_text(m) + rest));
    assert(modifiers_text(one) + rest =~= modifier_text(m) + rest);
}

/// The shape of every event the parser produces: a valid key code, a
/// character key stored in the casing its Shift flag dictates, and Shift
/// always present on the tab-with-shift key.
pub open spec fn parser_canonical(e: KeyEvent) -> bool {
    &&& e.code.is_valid()
    &&& (e.code matches KeyCode::Char(c) ==> (if e.modifiers.shift {
        to_upper(c) == c
    } else {
        to_lower(c) == c
    }))
    &&& (e.code == KeyCode::BackTab ==> e.modifiers.shift)
}

/// Stripping modifier prefixes of an all-lowercase text leaves an
/// all-lowercase remainder.
proof fn lemma_strip_result_lowered(s: Seq<char>, m: KeyModifiers)
    requires
        forall|i: int| 0 <= i < s.len() ==> to_lower(s[i]) == s[i],
    ensures
        forall|i: int|
            0 <= i < strip_modifiers(s, m).0.len() ==> to_lower(#[trigger] strip_modifiers(
                s,
                m,
            ).0[i]) == strip_modifiers(s, m).0[i],
    decreases s.len(),
{
    let rem = strip_modifiers(s, m).0;
    if is_ctrl_prefix(s) {
        assert(forall|i: int| 0 <= i < s.skip(5).len() ==> #[trigger] s.skip(5)[i] == s[i + 5]);
        lemma_strip_result_lowered(s.skip(5), KeyModifiers { control: true, ..m });
        assert(rem == strip_modifiers(s.skip(5), KeyModifiers { control: true, ..m }).0);
    } else if is_alt_prefix(s) {
        assert(forall|i: int| 0 <= i < s.skip(4).len() ==> #[trigger] s.skip(4)[i] == s[i + 4]);
        lemma_strip_result_lowered(s.skip(4), KeyModifiers { alt: true, ..m });
        assert(rem == strip_modifiers(s.skip(4), KeyModifiers { alt: true, ..m }).0);
    } else if is_shift_prefix(s) {
        assert(forall|i: int| 0 <= i < s.skip(6).len() ==> #[trigger] s.skip(6)[i] == s[i + 6]);
        lemma_strip_result_lowered(s.skip(6), KeyModifiers { shift: true, ..m });
        assert(rem == strip_modifiers(s.skip(6), KeyModifiers { shift: true, ..m }).0);
    } else {
        assert(rem == s);
    }
}

/// The concrete characters of every name in the parser's table.
proof fn lemma_table_shapes()
    ensures
        "esc"@ == seq!['e', 's', 'c'],
        "enter"@ == seq!['e', 'n', 't', 'e', 'r'],
        "left"@ == seq!['l', 'e', 'f', 't'],
        "right"@ == seq!['r', 'i', 'g', 'h', 't'],
        "up"@ == seq!['u', 'p'],
        "down"@ == seq!['d', 'o', 'w', 'n'],
        "home"@ == seq!['h', 'o', 'm', 'e'],
        "end"@ == seq!['e', 'n', 'd'],
        "pageup"@ == seq!['p', 'a', 'g', 'e', 'u', 'p'],
        "pagedown"@ == seq!['p', 'a', 'g', 'e', 'd', 'o', 'w', 'n'],
        "backtab"@ == seq!['b', 'a', 'c', 'k', 't', 'a', 'b'],
        "backspace"@ == seq!['b', 'a', 'c', 'k', 's', 'p', 'a', 'c', 'e'],
        "del"@ == seq!['d', 'e', 'l'],
        "delete"@ == seq!['d', 'e', 'l', 'e', 't', 'e'],
        "insert"@ == seq!['i', 'n', 's', 'e', 'r', 't'],
        "ins"@ == seq!['i', 'n', 's'],
        "f1"@ == seq!['f', '1'],
        "f2"@ == seq!['f', '2'],
        "f3"@ == seq!['f', '3'],
        "f4"@ == seq!['f', '4'],
        "f5"@ == seq!['f', '5'],
        "f6"@ == seq!['f', '6'],
        "f7"@ == seq!['f', '7'],
        "f8"@ == seq!['f', '8'],
        "f9"@ == seq!['f', '9'],
        "f10"@ == seq!['f', '1', '0'],
        "f11"@ == seq!['f', '1', '1'],
        "f12"@ == seq!['f', '1', '2'],
        "space"@ == seq!['s', 'p', 'a', 'c', 'e'],
        "hyphen"@ == seq!['h', 'y', 'p', 'h', 'e', 'n'],
        "minus"@ == seq!['m', 'i', 'n', 'u', 's'],
        "tab"@ == seq!['t', 'a', 'b'],
{
    reveal_strlit("esc");
    reveal_strlit("enter");
    reveal_strlit("left");
    reveal_strlit("right");
    reveal_strlit("up");
    reveal_strlit("down");
    reveal_strlit("home");
    reveal_strlit("end");
    reveal_strlit("pageup");
    reveal_strlit("pagedown");
    reveal_strlit("backtab");
    reveal_strlit("backspace");
    reveal_strlit("del");
    reveal_strlit("delete");
    reveal_strlit("insert");
    reveal_strlit("ins");
    reveal_strlit("f1");
    reveal_strlit("f2");
    reveal_strlit("f3");
    reveal_strlit("f4");
    reveal_strlit("f5");
    reveal_strlit("f6");
    reveal_strlit("f7");
    reveal_strlit("f8");
    reveal_strlit("f9");
    reveal_strlit("f10");
    reveal_strlit("f11");
    reveal_strlit("f12");
    reveal_strlit("space");
    reveal_strlit("hyphen");
    reveal_strlit("minus");
    reveal_strlit("tab");
    assert("esc"@ =~= seq!['e', 's', 'c']);
    assert("enter"@ =~= seq!['e', 'n', 't', 'e', 'r']);
    assert("left"@ =~= seq!['l', 'e', 'f', 't']);
    assert("right"@ =~= seq!['r', 'i', 'g', 'h', 't']);
    assert("up"@ =~= seq!['u', 'p']);
    assert("down"@ =~= seq!['d', 'o', 'w', 'n']);
    assert("home"@ =~= seq!['h', 'o', 'm', 'e']);
    assert("end"@ =~= seq!['e', 'n', 'd']);
    assert("pageup"@ =~= seq!['p', 'a', 'g', 'e', 'u', 'p']);
    assert("pagedown"@ =~= seq!['p', 'a', 'g', 'e', 'd', 'o', 'w', 'n']);
    assert("backtab"@ =~= seq!['b', 'a', 'c', 'k', 't', 'a', 'b']);
    assert("backspace"@ =~= seq!['b', 'a', 'c', 'k', 's', 'p', 'a', 'c', 'e']);
    assert("del"@ =~= seq!['d', 'e', 'l']);
    assert("delete"@ =~= seq!['d', 'e', 'l', 'e', 't', 'e']);
    assert("insert"@ =~= seq!['i', 'n', 's', 'e', 'r', 't']);
    assert("ins"@ =~= seq!['i', 'n', 's']);
    assert("f1"@ =~= seq!['f', '1']);
    assert("f2"@ =~= seq!['f', '2']);
    assert("f3"@ =~= seq!['f', '3']);
    assert("f4"@ =~= seq!['f', '4']);
    assert("f5"@ =~= seq!['f', '5']);
    assert("f6"@ =~= seq!['f', '6']);
    assert("f7"@ =~= seq!['f', '7']);
    assert("f8"@ =~= seq!['f', '8']);
    assert("f9"@ =~= seq!['f', '9']);
    assert("f10"@ =~= seq!['f', '1', '0']);
    assert("f11"@ =~= seq!['f', '1', '1']);
    assert("f12"@ =~= seq!['f', '1', '2']);
    assert("space"@ =~= seq!['s', 'p', 'a', 'c', 'e']);
    assert("hyphen"@ =~= seq!['h', 'y', 'p', 'h', 'e', 'n']);
    assert("minus"@ =~= seq!['m', 'i', 'n', 'u', 's']);
    assert("tab"@ =~= seq!['t', 'a', 'b']);
}

/// Law, first half of the round trip: every event the parser produces is
/// canonical in the sense of [`parser_canonical`].
pub proof fn lemma_parse_canonical(s: Seq<char>, e: KeyEvent)
    requires
        parse_spec(s) == Ok::<KeyEvent, Seq<char>>(e),
    ensures
        parser_canonical(e),
{
    let low = lower_seq(s);
    assert forall|i: int| 0 <= i < low.len() implies to_lower(low[i]) == low[i] by {
        lemma_case_fold(s[i]);
    }
    lemma_strip_result_lowered(low, no_mods());
    let rem = strip_modifiers(low, no_mods()).0;
    let m = strip_modifiers(low, no_mods()).1;
    match code_of_name(rem) {
        Some(code) => {
            assert(code.is_valid());
        },
        None => {
            assert(rem.len() == 1);
            lemma_case_fold(rem[0]);
        },
    }
}

/// The lowercase forms of the default modifier labels are the parser's
/// modifier prefixes.
proof fn lemma_lower_default_labels()
    ensures
        lower_seq("Ctrl-"@) == "ctrl-"@,
        lower_seq("Alt-"@) == "alt-"@,
        lower_seq("Shift-"@) == "shift-"@,
        lower_seq(Seq::<char>::empty()) == Seq::<char>::empty(),
{
    reveal_strlit("Ctrl-");
    reveal_strlit("ctrl-");
    reveal_strlit("Alt-");
    reveal_strlit("alt-");
    reveal_strlit("Shift-");
    reveal_strlit("shift-");
    assert(lower_seq("Ctrl-"@) =~= "ctrl-"@);
    assert(lower_seq("Alt-"@) =~= "alt-"@);
    assert(lower_seq("Shift-"@) =~= "shift-"@);
    assert(lower_seq(Seq::<char>::empty()) =~= Seq::<char>::empty());
}

/// No name of the table, lowercased, starts with a modifier prefix, and
/// each resolves in the table to its own key code.
proof fn lemma_named_key_reparses(code: KeyCode)
    requires
        !(code matches KeyCode::F(_)),
        !(code matches KeyCode::Char(_)),
    ensures
        code_of_name(lower_seq(key_name(code, false))) == Some(code),
        !is_ctrl_prefix(lower_seq(key_name(code, false))),
        !is_alt_prefix(lower_seq(key_name(code, false))),
        !is_shift_prefix(lower_seq(key_name(code, false))),
{
    lemma_table_shapes();
    reveal_strlit("Backspace");
    reveal_strlit("backspace");
    reveal_strlit("Enter");
    reveal_strlit("enter");
    reveal_strlit("Left");
    reveal_strlit("left");
    reveal_strlit("Right");
    reveal_strlit("right");
    reveal_strlit("Up");
    reveal_strlit("up");
    reveal_strlit("Down");
    reveal_strlit("down");
    reveal_strlit("Home");
    reveal_strlit("home");
    reveal_strlit("End");
    reveal_strlit("end");
    reveal_strlit("PageUp");
    reveal_strlit("pageup");
    reveal_strlit("PageDown");
    reveal_strlit("pagedown");
    reveal_strlit("Tab");
    reveal_strlit("tab");
    reveal_strlit("BackTab");
    reveal_strlit("backtab");
    reveal_strlit("Delete");
    reveal_strlit("delete");
    reveal_strlit("Insert");
    reveal_strlit("insert");
    reveal_strlit("Esc");
    reveal_strlit("esc");
    match code {
        KeyCode::Backspace => {
            assert(lower_seq("Backspace"@) =~= "backspace"@);
        },
        KeyCode::Enter => {
            assert(lower_seq("Enter"@) =~= "enter"@);
        },
        KeyCode::Left => {
            assert(lower_seq("Left"@) =~= "left"@);
        },
        KeyCode::Right => {
            assert(lower_seq("Right"@) =~= "right"@);
        },
        KeyCode::Up => {
            assert(lower_seq("Up"@) =~= "up"@);
        },
        KeyCode::Down => {
            assert(lower_seq("Down"@) =~= "down"@);
        },
        KeyCode::Home => {
            assert(lower_seq("Home"@) =~= "home"@);
        },
        KeyCode::End => {
            assert(lower_seq("End"@) =~= "end"@);
        },
        KeyCode::PageUp => {
            assert(lower_seq("PageUp"@) =~= "pageup"@);
        },
        KeyCode::PageDown => {
            assert(lower_seq("PageDown"@) =~= "pagedown"@);
        },
        KeyCode::Tab => {
            assert(lower_seq("Tab"@) =~= "tab"@);
        },
        KeyCode::BackTab => {
            assert(lower_seq("BackTab"@) =~= "backtab"@);
        },
        KeyCode::Delete => {
            assert(lower_seq("Delete"@) =~= "delete"@);
        },
        KeyCode::Insert => {
            assert(lower_seq("Insert"@) =~= "insert"@);
        },
        KeyCode::Esc => {
            assert(lower_seq("Esc"@) =~= "esc"@);
        },
        _ => {
            assert(false);
        },
    }
}

/// A function key's rendering, lowercased, resolves in the table to the
/// same function key, and is too short to start with a modifier prefix.
proof fn lemma_fkey_reparses(n: u8)
    requires
        1 <= n <= 12,
    ensures
        code_of_name(lower_seq(seq!['F'] + fkey_digits(n))) == Some(KeyCode::F(n)),
        !is_ctrl_prefix(lower_seq(seq!['F'] + fkey_digits(n))),
        !is_alt_prefix(lower_seq(seq!['F'] + fkey_digits(n))),
        !is_shift_prefix(lower_seq(seq!['F'] + fkey_digits(n))),
{
    lemma_table_shapes();
    let low = lower_seq(seq!['F'] + fkey_digits(n));
    if n == 1 {
        assert(low =~= "f1"@);
    } else if n == 2 {
        assert(low =~= "f2"@);
    } else if n == 3 {
        assert(low =~= "f3"@);
    } else if n == 4 {
        assert(low =~= "f4"@);
    } else if n == 5 {
        assert(low =~= "f5"@);
    } else if n == 6 {
        assert(low =~= "f6"@);
    } else if n == 7 {
        assert(low =~= "f7"@);
    } else if n == 8 {
        assert(low =~= "f8"@);
    } else if n == 9 {
        assert(low =~= "f9"@);
    } else if n == 10 {
        assert(low =~= "f10"@);
    } else if n == 11 {
        assert(low =~= "f11"@);
    } else {
        assert(low =~= "f12"@);
    }
}

/// Law, second half of the round trip: a canonical event, rendered with the
/// default configuration, parses back to exactly itself.
#[verifier::rlimit(100)]
pub proof fn lemma_format_reparses(e: KeyEvent)
    requires
        parser_canonical(e),
    ensures
        parse_spec(format_spec(default_format_spec(), e)) == Ok::<KeyEvent, Seq<char>>(e),
{
    let f = default_format_spec();
    let txt = format_spec(f, e);
    let base = base_text(f, e);
    let lowbase = lower_seq(base);
    assert(!implicit_shift_applies(f, e));
    lemma_table_shapes();
    lemma_lower_default_labels();

    // The lowered rendering of the key itself resolves back to the key, and
    // starts with no modifier prefix.
    match e.code {
        KeyCode::F(n) => {
            lemma_fkey_reparses(n);
            assert(base == seq!['F'] + fkey_digits(n));
        },
        KeyCode::Char(c) => {
            if c == ' ' {
                reveal_strlit("Space");
                assert(lowbase =~= "space"@);
            } else if c == '-' {
                reveal_strlit("Hyphen");
                assert(lowbase =~= "hyphen"@);
            } else {
                lemma_case_fold(c);
                assert(base == seq![to_lower(c)]);
                assert(lowbase =~= seq![to_lower(c)]);
                assert(lowbase.len() == 1);
                assert(code_of_name(lowbase) == Option::<KeyCode>::None);
            }
        },
        _ => {
            lemma_named_key_reparses(e.code);
            assert(base == key_name(e.code, false));
        },
    }
    assert(code_of_name(lowbase) == (match e.code {
        KeyCode::Char(c) => if c == ' ' || c == '-' {
            Some(e.code)
        } else {
            None
        },
        _ => Some(e.code),
    }));
    assert(!is_ctrl_prefix(lowbase) && !is_alt_prefix(lowbase) && !is_shift_prefix(lowbase));

    // Lower the whole rendering and peel the modifier labels one by one.
    let p1 = if e.modifiers.control {
        "Ctrl-"@
    } else {
        Seq::<char>::empty()
    };
    let p2 = if e.modifiers.alt {
        "Alt-"@
    } else {
        Seq::<char>::empty()
    };
    let p3 = if e.modifiers.shift {
        "Shift-"@
    } else {
        Seq::<char>::empty()
    };
    assert(txt == ((p1 + p2) + p3) + base);
    lemma_lower_seq_concat((p1 + p2) + p3, base);
    lemma_lower_seq_concat(p1 + p2, p3);
    lemma_lower_seq_concat(p1, p2);
    let q1 = if e.modifiers.control {
        "ctrl-"@
    } else {
        Seq::<char>::empty()
    };
    let q2 = if e.modifiers.alt {
        "alt-"@
    } else {
        Seq::<char>::empty()
    };
    let q3 = if e.modifiers.shift {
        "shift-"@
    } else {
        Seq::<char>::empty()
    };
    assert(lower_seq(p1) == q1 && lower_seq(p2) == q2 && lower_seq(p3) == q3);
    assert(lower_seq(txt) =~= q1 + (q2 + (q3 + lowbase)));

    let m0 = no_mods();
    let mc = KeyModifiers { control: e.modifiers.control, alt: false, shift: false };
    let ma = KeyModifiers { control: e.modifiers.control, alt: e.modifiers.alt, shift: false };
    if e.modifiers.control {
        lemma_strip_ctrl(q2 + (q3 + lowbase), m0);
    } else {
        assert(q1 + (q2 + (q3 + lowbase)) =~= q2 + (q3 + lowbase));
    }
    assert(strip_modifiers(lower_seq(txt), m0) == strip_modifiers(q2 + (q3 + lowbase), mc));
    if e.modifiers.alt {
        lemma_strip_alt(q3 + lowbase, mc);
    } else {
        assert(q2 + (q3 + lowbase) =~= q3 + lowbase);
    }
    assert(strip_modifiers(lower_seq(txt), m0) == strip_modifiers(q3 + lowbase, ma));
    if e.modifiers.shift {
        lemma_strip_shift(lowbase, ma);
    } else {
        assert(q3 + lowbase =~= lowbase);
    }
    assert(ma == e.modifiers || KeyModifiers { shift: true, ..ma } == e.modifiers);
    assert(strip_modifiers(lower_seq(txt), m0) == strip_modifiers(lowbase, e.modifiers));
    assert(strip_modifiers(lowbase, e.modifiers) == (lowbase, e.modifiers));

    // Resolve the remainder: the same event comes back.
    match e.code {
        KeyCode::Char(c) => {
            if c != ' ' && c != '-' {
                lemma_case_fold(c);
                assert(lowbase[0] == to_lower(c));
            }
        },
        _ => {},
    }
}

/// Law: round trip. Any event the parser produces, rendered with the
/// default configuration, parses back to exactly that event.
pub proof fn lemma_round_trip_default(s: Seq<char>, e: KeyEvent)
    requires
        parse_spec(s) == Ok::<KeyEvent, Seq<char>>(e),
    ensures
        parse_spec(format_spec(default_format_spec(), e)) == Ok::<KeyEvent, Seq<char>>(e),
{
    lemma_parse_canonical(s, e);
    lemma_format_reparses(e);
}

} // verus!
