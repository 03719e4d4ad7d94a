//! Key modifiers, key codes and key bindings, and how they are read from the
//! text of a configuration file (`"q"`, `"<C-c>"`, `"<S-A-Tab>"`, `"F5"`).

use vstd::prelude::*;
use vstd::string::StrSliceExecFns;
use crate::text::{
    ascii_lower, ascii_lower_seq, concat, eq_ignore_ascii_case, is_ascii_upper, is_uppercase,
    lowercase, parse_int_spec, parse_u8, str_eq, to_lowercase, trim, trim_spec, char_is_uppercase,
    char_to_ascii_lowercase, is_white_space, is_ascii_char, trim_start_spec, trim_end_spec, digits_value, digit_value, all_digits,
};

verus! {

/// A set of modifier keys, one bit per key.
#[derive(Debug, Clone, Copy, PartialEq, Eq, Hash, Default, Structural)]
pub struct KeyModifiers {
    bits: u8,
}

impl View for KeyModifiers {
    type V = u8;

    closed spec fn view(&self) -> u8 {
        self.bits
    }
}

pub open spec fn shift_bit() -> u8 { 1 }
pub open spec fn alt_bit() -> u8 { 2 }
pub open spec fn control_bit() -> u8 { 4 }
pub open spec fn super_bit() -> u8 { 8 }
pub open spec fn hyper_bit() -> u8 { 16 }
pub open spec fn meta_bit() -> u8 { 32 }

impl KeyModifiers {
    /// No modifier.
    pub fn empty() -> (r: KeyModifiers)
        ensures
            r@ == 0,
    {
        KeyModifiers { bits: 0 }
    }

    #[allow(non_snake_case)]
    pub fn SHIFT() -> (r: KeyModifiers)
        ensures
            r@ == shift_bit(),
    {
        KeyModifiers { bits: 1 }
    }

    #[allow(non_snake_case)]
    pub fn ALT() -> (r: KeyModifiers)
        ensures
            r@ == alt_bit(),
    {
        KeyModifiers { bits: 2 }
    }

    #[allow(non_snake_case)]
    pub fn CONTROL() -> (r: KeyModifiers)
        ensures
            r@ == control_bit(),
    {
        KeyModifiers { bits: 4 }
    }

    #[allow(non_snake_case)]
    pub fn SUPER() -> (r: KeyModifiers)
        ensures
            r@ == super_bit(),
    {
        KeyModifiers { bits: 8 }
    }

    #[allow(non_snake_case)]
    pub fn HYPER() -> (r: KeyModifiers)
        ensures
            r@ == hyper_bit(),
    {
        KeyModifiers { bits: 16 }
    }

    #[allow(non_snake_case)]
    pub fn META() -> (r: KeyModifiers)
        ensures
            r@ == meta_bit(),
    {
        KeyModifiers { bits: 32 }
    }

    /// Every modifier.
    pub fn all() -> (r: KeyModifiers)
        ensures
            r@ == shift_bit() | alt_bit() | control_bit() | super_bit() | hyper_bit() | meta_bit(),
    {
        assert(1u8 | 2u8 | 4u8 | 8u8 | 16u8 | 32u8 == 63u8) by (bit_vector);
        KeyModifiers { bits: 63 }
    }

    /// The set whose bits are `bits`.
    pub fn from_bits_retain(bits: u8) -> (r: KeyModifiers)
        ensures
            r@ == bits,
    {
        KeyModifiers { bits }
    }

    pub fn bits(&self) -> (r: u8)
        ensures
            r == self@,
    {
        self.bits
    }

    pub fn is_empty(&self) -> (r: bool)
        ensures
            r == (self@ == 0),
    {
        self.bits == 0
    }

    /// Adds every modifier of `other`.
    pub fn insert(&mut self, other: KeyModifiers)
        ensures
            final(self)@ == old(self)@ | other@,
    {
        self.bits = self.bits | other.bits;
    }

    /// Whether every modifier of `other` is in the set.
    pub fn contains(&self, other: KeyModifiers) -> (r: bool)
        ensures
            r == (self@ & other@ == other@),
    {
        (self.bits & other.bits) == other.bits
    }

    /// The modifiers of both sets.
    pub fn union(self, other: KeyModifiers) -> (r: KeyModifiers)
        ensures
            r@ == self@ | other@,
    {
        KeyModifiers { bits: self.bits | other.bits }
    }
}

/// Adding modifiers twice is adding them once.
pub proof fn lemma_insert_idempotent(a: u8, b: u8)
    ensures
        (a | b) | b == a | b,
{
    assert((a | b) | b == a | b) by (bit_vector);
}

/// The order in which modifiers are added does not matter.
pub proof fn lemma_insert_commutes(a: u8, b: u8, c: u8)
    ensures
        (a | b) | c == (a | c) | b,
{
    assert((a | b) | c == (a | c) | b) by (bit_vector);
}

/// A set holds what was just added to it, and all it held before.
pub proof fn lemma_insert_contains(a: u8, b: u8)
    ensures
        (a | b) & b == b,
        (a | b) & a == a,
{
    assert((a | b) & b == b) by (bit_vector);
    assert((a | b) & a == a) by (bit_vector);
}

/// A key on the keyboard.
#[derive(Debug, Clone, Copy, PartialEq, Eq, Hash, Structural)]
pub enum KeyCode {
    Char(char),
    Backspace,
    Enter,
    Left,
    Right,
    Up,
    Down,
    Home,
    End,
    PageUp,
    PageDown,
    Tab,
    BackTab,
    Delete,
    Insert,
    F(u8),
    Esc,
}

/// The key that a lower-case key name denotes, for the names of special keys.
pub open spec fn named_key(lower: Seq<char>) -> Option<KeyCode> {
    if lower == "space"@ {
        Some(KeyCode::Char(' '))
    } else if lower == "backspace"@ {
        Some(KeyCode::Backspace)
    } else if lower == "enter"@ {
        Some(KeyCode::Enter)
    } else if lower == "left"@ {
        Some(KeyCode::Left)
    } else if lower == "right"@ {
        Some(KeyCode::Right)
    } else if lower == "up"@ {
        Some(KeyCode::Up)
    } else if lower == "down"@ {
        Some(KeyCode::Down)
    } else if lower == "home"@ {
        Some(KeyCode::Home)
    } else if lower == "end"@ {
        Some(KeyCode::End)
    } else if lower == "pageup"@ {
        Some(KeyCode::PageUp)
    } else if lower == "pagedown"@ {
        Some(KeyCode::PageDown)
    } else if lower == "tab"@ {
        Some(KeyCode::Tab)
    } else if lower == "backtab"@ {
        Some(KeyCode::BackTab)
    } else if lower == "delete"@ {
        Some(KeyCode::Delete)
    } else if lower == "insert"@ {
        Some(KeyCode::Insert)
    } else if lower == "esc"@ {
        Some(KeyCode::Esc)
    } else {
        None
    }
}

/// The key named by `s`, whose lower case is `lower`: a special key name, `f`
/// followed by a `u8` literal, or a single character taken as it is written.
pub open spec fn keycode_spec(s: Seq<char>, lower: Seq<char>) -> Result<KeyCode, Seq<char>> {
    match named_key(lower) {
        Some(k) => Ok(k),
        None => {
            if lower.len() > 0 && lower[0] == 'f' && parse_int_spec(
                lower.drop_first(),
                false,
                0,
                255,
            ) is Some {
                Ok(KeyCode::F(parse_int_spec(lower.drop_first(), false, 0, 255)->0 as u8))
            } else if s.len() == 1 {
                Ok(KeyCode::Char(s[0]))
            } else {
                Err("Unknown key: "@ + s)
            }
        },
    }
}

/// The lower case of a single character names no special key and no function key.
proof fn lemma_short_lower_names_no_key(l: Seq<char>)
    requires
        l.len() == 1 || l == seq!['i', '\u{307}'],
    ensures
        named_key(l) is None,
        !(l.len() > 0 && l[0] == 'f' && parse_int_spec(l.drop_first(), false, 0, 255) is Some),
{
    reveal_strlit("space");
    reveal_strlit("backspace");
    reveal_strlit("enter");
    reveal_strlit("left");
    reveal_strlit("right");
    reveal_strlit("up");
    reveal_strlit("down");
    reveal_strlit("home");
    reveal_strlit("end");
    reveal_strlit("pageup");
    reveal_strlit("pagedown");
    reveal_strlit("tab");
    reveal_strlit("backtab");
    reveal_strlit("delete");
    reveal_strlit("insert");
    reveal_strlit("esc");
    assert(l != "up"@ && l != "space"@ && l != "backspace"@ && l != "enter"@ && l != "left"@);
    assert(l != "right"@ && l != "down"@ && l != "home"@ && l != "end"@ && l != "pageup"@);
    assert(l != "pagedown"@ && l != "tab"@ && l != "backtab"@ && l != "delete"@ && l != "insert"@);
    assert(l != "esc"@);
}

impl KeyCode {
    /// Reads a key name whose lower case `lower` has already been computed.
    pub fn from_lowercased(s: &str, lower: &str) -> (r: Result<KeyCode, String>)
        ensures
            match keycode_spec(s@, lower@) {
                Ok(k) => r matches Ok(k2) && k2 == k,
                Err(e) => r matches Err(m) && m@ == e,
            },
    {
        if str_eq(lower, "space") {
            return Ok(KeyCode::Char(' '));
        }
        if str_eq(lower, "backspace") {
            return Ok(KeyCode::Backspace);
        }
        if str_eq(lower, "enter") {
            return Ok(KeyCode::Enter);
        }
        if str_eq(lower, "left") {
            return Ok(KeyCode::Left);
        }
        if str_eq(lower, "right") {
            return Ok(KeyCode::Right);
        }
        if str_eq(lower, "up") {
            return Ok(KeyCode::Up);
        }
        if str_eq(lower, "down") {
            return Ok(KeyCode::Down);
        }
        if str_eq(lower, "home") {
            return Ok(KeyCode::Home);
        }
        if str_eq(lower, "end") {
            return Ok(KeyCode::End);
        }
        if str_eq(lower, "pageup") {
            return Ok(KeyCode::PageUp);
        }
        if str_eq(lower, "pagedown") {
            return Ok(KeyCode::PageDown);
        }
        if str_eq(lower, "tab") {
            return Ok(KeyCode::Tab);
        }
        if str_eq(lower, "backtab") {
            return Ok(KeyCode::BackTab);
        }
        if str_eq(lower, "delete") {
            return Ok(KeyCode::Delete);
        }
        if str_eq(lower, "insert") {
            return Ok(KeyCode::Insert);
        }
        if str_eq(lower, "esc") {
            return Ok(KeyCode::Esc);
        }
        assert(named_key(lower@) is None);
        let n = lower.unicode_len();
        if n > 0 && lower.get_char(0) == 'f' {
            let rest = lower.substring_char(1, n);
            assert(rest@ == lower@.drop_first());
            if let Some(num) = parse_u8(rest) {
                return Ok(KeyCode::F(num));
            }
        }
        if s.unicode_len() == 1 {
            return Ok(KeyCode::Char(s.get_char(0)));
        }
        Err(concat("Unknown key: ", s))
    }

    /// Reads a key name: a special key (`enter`, `PageUp`, `ESC`, ...) in any
    /// case, a function key (`f5`, `F12`), or a single character.
    pub fn from_str(s: &str) -> (r: Result<KeyCode, String>)
        ensures
            match keycode_spec(s@, lowercase(s@)) {
                Ok(k) => r matches Ok(k2) && k2 == k,
                Err(e) => r matches Err(m) && m@ == e,
            },
            s@.len() == 1 ==> (r matches Ok(k) && k == KeyCode::Char(s@[0])),
            (forall|i: int| 0 <= i < s@.len() ==> is_ascii_char(#[trigger] s@[i])) ==> match keycode_spec(
                s@,
                ascii_lower_seq(s@),
            ) {
                Ok(k) => r matches Ok(k2) && k2 == k,
                Err(e) => r matches Err(m) && m@ == e,
            },
    {
        let lower = to_lowercase(s);
        proof {
            if s@.len() == 1 {
                lemma_short_lower_names_no_key(lower@);
            }
        }
        KeyCode::from_lowercased(s, lower.as_str())
    }
}


/// A key together with the modifiers held while it is pressed.
#[derive(Debug, Clone, Copy, PartialEq, Eq, Hash, Structural)]
pub struct KeyBind {
    pub code: KeyCode,
    pub modifiers: KeyModifiers,
}

/// The pieces of `s` between the separators `sep`, as `str::split` yields them.
pub open spec fn split_on(s: Seq<char>, sep: char) -> Seq<Seq<char>>
    decreases s.len(),
{
    if s.len() == 0 {
        seq![Seq::<char>::empty()]
    } else {
        let init = split_on(s.drop_last(), sep);
        if s.last() == sep {
            init.push(Seq::<char>::empty())
        } else {
            init.update(init.len() - 1, init.last().push(s.last()))
        }
    }
}

/// The modifier bit that a part of `<...>` names: `C`, `S`, `A`, `D`, `H` or `M`.
pub open spec fn modifier_flag(p: Seq<char>) -> Option<u8> {
    if p == seq!['C'] {
        Some(control_bit())
    } else if p == seq!['S'] {
        Some(shift_bit())
    } else if p == seq!['A'] {
        Some(alt_bit())
    } else if p == seq!['D'] {
        Some(super_bit())
    } else if p == seq!['H'] {
        Some(hyper_bit())
    } else if p == seq!['M'] {
        Some(meta_bit())
    } else {
        None
    }
}

/// The modifiers that `parts` name, or the first part that names none.
pub open spec fn fold_modifiers(parts: Seq<Seq<char>>) -> Result<u8, Seq<char>>
    decreases parts.len(),
{
    if parts.len() == 0 {
        Ok(0)
    } else {
        match fold_modifiers(parts.drop_last()) {
            Err(e) => Err(e),
            Ok(b) => match modifier_flag(parts.last()) {
                Some(f) => Ok(b | f),
                None => Err(parts.last()),
            },
        }
    }
}

/// The text a binding is read from: trimmed, unless it is a single space.
pub open spec fn prepared_input(s: Seq<char>) -> Seq<char> {
    if s == seq![' '] {
        s
    } else {
        trim_spec(s)
    }
}

pub open spec fn is_bracketed(t: Seq<char>) -> bool {
    t.len() > 0 && t[0] == '<' && t.last() == '>'
}

/// The modifiers and the key name of a binding's text, or the error message.
pub open spec fn split_input_spec(s: Seq<char>) -> Result<(u8, Seq<char>), Seq<char>> {
    let t = prepared_input(s);
    if t.len() == 0 {
        Err("Keybinding cannot be empty"@)
    } else if is_bracketed(t) {
        let parts = split_on(t.subrange(1, t.len() - 1), '-');
        match fold_modifiers(parts.drop_last()) {
            Ok(b) => Ok((b, parts.last())),
            Err(m) => Err("Unknown modifier: "@ + m),
        }
    } else {
        Ok((0u8, t))
    }
}

/// Whether a key name means the space bar before it is looked up.
pub open spec fn names_space(k: Seq<char>) -> bool {
    ascii_lower_seq(k) == ascii_lower_seq("space"@) || k == seq![' ']
}

/// The key a binding's key name denotes.
pub open spec fn key_code_spec(k: Seq<char>) -> Result<KeyCode, Seq<char>> {
    if names_space(k) {
        Ok(KeyCode::Char(' '))
    } else {
        keycode_spec(k, lowercase(k))
    }
}

/// A binding in normal form, given whether the key's character is upper case:
/// an upper-case character becomes `Shift` with its ASCII lower case, and
/// `BackTab` becomes `Shift` with `Tab`.
pub open spec fn normalize_spec(code: KeyCode, bits: u8, upper: bool) -> (KeyCode, u8) {
    match code {
        KeyCode::Char(c) => if upper {
            (KeyCode::Char(ascii_lower(c)), bits | shift_bit())
        } else {
            (code, bits)
        },
        KeyCode::BackTab => (KeyCode::Tab, bits | shift_bit()),
        _ => (code, bits),
    }
}

/// Whether a key is an upper-case character.
pub open spec fn upper_char(code: KeyCode) -> bool {
    code matches KeyCode::Char(c) && is_uppercase(c)
}

/// What reading a key binding from `s` gives: the key and the modifier bits,
/// or the error message.
pub open spec fn keybind_spec(s: Seq<char>) -> Result<(KeyCode, u8), Seq<char>> {
    match split_input_spec(s) {
        Err(e) => Err(e),
        Ok((b, k)) => match key_code_spec(k) {
            Err(e) => Err(e),
            Ok(code) => Ok(normalize_spec(code, b, upper_char(code))),
        },
    }
}

proof fn lemma_split_on_nonempty(s: Seq<char>, sep: char)
    ensures
        split_on(s, sep).len() >= 1,
    decreases s.len(),
{
    if s.len() > 0 {
        lemma_split_on_nonempty(s.drop_last(), sep);
    }
}

proof fn lemma_split_on_prefix(u: Seq<char>, s: Seq<char>, sep: char)
    requires
        u.len() <= s.len(),
        u == s.subrange(0, u.len() as int),
    ensures
        split_on(s, sep).len() >= split_on(u, sep).len(),
        forall|k: int|
            0 <= k < split_on(u, sep).len() - 1 ==> split_on(s, sep)[k] == split_on(u, sep)[k],
    decreases s.len() - u.len(),
{
    if s.len() > u.len() {
        let s1 = s.drop_last();
        assert(u =~= s1.subrange(0, u.len() as int));
        lemma_split_on_prefix(u, s1, sep);
        lemma_split_on_nonempty(s1, sep);
    } else {
        assert(u =~= s);
    }
}

proof fn lemma_fold_prefix_err(p: Seq<Seq<char>>, parts: Seq<Seq<char>>)
    requires
        p.len() <= parts.len(),
        p == parts.subrange(0, p.len() as int),
        fold_modifiers(p) is Err,
    ensures
        fold_modifiers(parts) == fold_modifiers(p),
    decreases parts.len() - p.len(),
{
    if parts.len() > p.len() {
        let q = parts.drop_last();
        assert(p =~= q.subrange(0, p.len() as int));
        lemma_fold_prefix_err(p, q);
    } else {
        assert(p =~= parts);
    }
}

proof fn lemma_trim_start_shape(s: Seq<char>)
    ensures
        trim_start_spec(s).len() == 0 || !is_white_space(trim_start_spec(s)[0]),
    decreases s.len(),
{
    if s.len() > 0 && is_white_space(s[0]) {
        lemma_trim_start_shape(s.drop_first());
    }
}

proof fn lemma_trim_end_shape(s: Seq<char>)
    ensures
        trim_end_spec(s).len() <= s.len(),
        trim_end_spec(s) == s.subrange(0, trim_end_spec(s).len() as int),
        trim_end_spec(s).len() == 0 || !is_white_space(trim_end_spec(s).last()),
    decreases s.len(),
{
    if s.len() > 0 && is_white_space(s.last()) {
        lemma_trim_end_shape(s.drop_last());
        let r = trim_end_spec(s.drop_last());
        assert(r =~= s.subrange(0, r.len() as int));
    } else {
        assert(s =~= s.subrange(0, s.len() as int));
    }
}

/// Trimmed text starts and ends with no white space, so trimming it again changes nothing.
pub proof fn lemma_trim_idempotent(s: Seq<char>)
    ensures
        trim_spec(trim_spec(s)) == trim_spec(s),
        trim_spec(s).len() == 0 || (!is_white_space(trim_spec(s)[0]) && !is_white_space(
            trim_spec(s).last(),
        )),
{
    let ts = trim_start_spec(s);
    let r = trim_spec(s);
    lemma_trim_start_shape(s);
    lemma_trim_end_shape(ts);
    if r.len() > 0 {
        assert(r[0] == ts[0]);
    }
    assert(trim_start_spec(r) == r);
    assert(trim_end_spec(r) == r);
}

/// White space around a binding does not matter: reading `s` gives what reading
/// `s` without its surrounding white space gives, unless `s` is a single space.
pub proof fn lemma_keybind_ignores_surrounding_space(s: Seq<char>)
    requires
        s != seq![' '],
    ensures
        keybind_spec(s) == keybind_spec(trim_spec(s)),
{
    lemma_trim_idempotent(s);
    let r = trim_spec(s);
    if r == seq![' '] {
        assert(r[0] == ' ');
    }
    assert(prepared_input(r) == prepared_input(s));
}

proof fn lemma_fold_swap_then(
    p: Seq<Seq<char>>,
    a: Seq<char>,
    b: Seq<char>,
    q: Seq<Seq<char>>,
)
    requires
        modifier_flag(a) is Some,
        modifier_flag(b) is Some,
    ensures
        fold_modifiers(p.push(a).push(b) + q) == fold_modifiers(p.push(b).push(a) + q),
    decreases q.len(),
{
    if q.len() == 0 {
        assert(p.push(a).push(b) + q =~= p.push(a).push(b));
        assert(p.push(b).push(a) + q =~= p.push(b).push(a));
        assert(p.push(a).push(b).drop_last() =~= p.push(a));
        assert(p.push(b).push(a).drop_last() =~= p.push(b));
        assert(p.push(a).drop_last() =~= p);
        assert(p.push(b).drop_last() =~= p);
        let fa = modifier_flag(a)->0;
        let fb = modifier_flag(b)->0;
        match fold_modifiers(p) {
            Ok(x) => {
                assert(fold_modifiers(p.push(a)) == Ok::<u8, Seq<char>>(x | fa));
                assert(fold_modifiers(p.push(b)) == Ok::<u8, Seq<char>>(x | fb));
                assert(fold_modifiers(p.push(a).push(b)) == Ok::<u8, Seq<char>>((x | fa) | fb));
                assert(fold_modifiers(p.push(b).push(a)) == Ok::<u8, Seq<char>>((x | fb) | fa));
                assert((x | fa) | fb == (x | fb) | fa) by (bit_vector);
            },
            Err(e) => {
                assert(fold_modifiers(p.push(a)) == Err::<u8, Seq<char>>(e));
                assert(fold_modifiers(p.push(b)) == Err::<u8, Seq<char>>(e));
                assert(fold_modifiers(p.push(a).push(b)) == Err::<u8, Seq<char>>(e));
                assert(fold_modifiers(p.push(b).push(a)) == Err::<u8, Seq<char>>(e));
            },
        }
    } else {
        lemma_fold_swap_then(p, a, b, q.drop_last());
        assert((p.push(a).push(b) + q).drop_last() =~= p.push(a).push(b) + q.drop_last());
        assert((p.push(b).push(a) + q).drop_last() =~= p.push(b).push(a) + q.drop_last());
        assert((p.push(a).push(b) + q).last() == q.last());
        assert((p.push(b).push(a) + q).last() == q.last());
    }
}

/// The order in which modifiers are written does not matter: swapping two
/// neighbouring modifier names in `<...>` reads the same modifiers, or fails
/// on the same unknown name.
pub proof fn lemma_modifier_order_irrelevant(
    p: Seq<Seq<char>>,
    a: Seq<char>,
    b: Seq<char>,
    q: Seq<Seq<char>>,
)
    requires
        modifier_flag(a) is Some,
        modifier_flag(b) is Some,
    ensures
        fold_modifiers(p.push(a).push(b) + q) == fold_modifiers(p.push(b).push(a) + q),
{
    lemma_fold_swap_then(p, a, b, q);
}

proof fn lemma_split_on_concat(x: Seq<char>, y: Seq<char>, sep: char)
    ensures
        split_on(x.push(sep) + y, sep) == split_on(x, sep) + split_on(y, sep),
    decreases y.len(),
{
    if y.len() == 0 {
        assert(x.push(sep) + y =~= x.push(sep));
        assert(x.push(sep).drop_last() =~= x);
        assert(split_on(x, sep).push(Seq::<char>::empty()) =~= split_on(x, sep) + split_on(y, sep));
    } else {
        let y1 = y.drop_last();
        lemma_split_on_concat(x, y1, sep);
        lemma_split_on_nonempty(y1, sep);
        assert((x.push(sep) + y).drop_last() =~= x.push(sep) + y1);
        assert((x.push(sep) + y).last() == y.last());
        let a = split_on(x, sep);
        let b = split_on(y1, sep);
        if y.last() == sep {
            assert((a + b).push(Seq::<char>::empty()) =~= a + b.push(Seq::<char>::empty()));
        } else {
            assert((a + b).update((a + b).len() - 1, (a + b).last().push(y.last())) =~= a + b.update(
                b.len() - 1,
                b.last().push(y.last()),
            ));
        }
    }
}

proof fn lemma_split_on_without_sep(k: Seq<char>, sep: char)
    requires
        !k.contains(sep),
    ensures
        split_on(k, sep) == seq![k],
    decreases k.len(),
{
    if k.len() == 0 {
        assert(k =~= Seq::<char>::empty());
    } else {
        let k1 = k.drop_last();
        assert forall|i: int| 0 <= i < k1.len() implies k1[i] != sep by {
            assert(k1[i] == k[i]);
        }
        lemma_split_on_without_sep(k1, sep);
        assert(k.last() == k[k.len() - 1]);
        assert(k1.push(k.last()) =~= k);
        assert(seq![k1].update(0, k1.push(k.last())) =~= seq![k]);
    }
}

/// The text `<m-...-k>`: the modifier letters `ms`, each followed by `-`, then
/// the key name `k`, in angle brackets.
pub open spec fn bracketed_binding(ms: Seq<char>, k: Seq<char>) -> Seq<char>
    decreases ms.len(),
{
    if ms.len() == 0 {
        seq!['<'] + k + seq!['>']
    } else {
        bracketed_binding(ms.drop_last(), seq![ms.last(), '-'] + k)
    }
}

proof fn lemma_bracketed_text(ms: Seq<char>, k: Seq<char>)
    requires
        ms.len() <= 2,
    ensures
        ms.len() == 1 ==> bracketed_binding(ms, k) == seq!['<', ms[0], '-'] + k + seq!['>'],
        ms.len() == 2 ==> bracketed_binding(ms, k) == seq!['<', ms[0], '-', ms[1], '-'] + k + seq!['>'],
{
    reveal_with_fuel(bracketed_binding, 3);
    if ms.len() == 1 {
        assert(ms.drop_last() =~= Seq::<char>::empty());
        assert(ms.last() == ms[0]);
        assert(seq!['<'] + (seq![ms[0], '-'] + k) + seq!['>'] =~= seq!['<', ms[0], '-'] + k + seq!['>']);
    } else if ms.len() == 2 {
        let k1 = seq![ms[1], '-'] + k;
        let m0 = ms.drop_last();
        assert(m0 =~= seq![ms[0]]);
        assert(ms.last() == ms[1]);
        assert(m0.drop_last() =~= Seq::<char>::empty());
        assert(m0.last() == ms[0]);
        assert(bracketed_binding(ms, k) == bracketed_binding(m0, k1));
        assert(bracketed_binding(m0, k1) == bracketed_binding(m0.drop_last(), seq![ms[0], '-'] + k1));
        assert(seq!['<'] + (seq![ms[0], '-'] + k1) + seq!['>'] =~= seq!['<', ms[0], '-', ms[1], '-'] + k
            + seq!['>']);
    }
}

proof fn lemma_modifier_letter(m: char)
    requires
        modifier_flag(seq![m]) is Some,
    ensures
        m != '-',
        m != '<' && m != '>',
{
    if m == '-' || m == '<' || m == '>' {
        assert(seq![m] != seq!['C'] && seq![m] != seq!['S'] && seq![m] != seq!['A']) by {
            assert(seq![m][0] == m);
        }
        assert(seq![m] != seq!['D'] && seq![m] != seq!['H'] && seq![m] != seq!['M']) by {
            assert(seq![m][0] == m);
        }
    }
}

/// What `<m1-k>` and `<m1-m2-k>` split into.
proof fn lemma_split_bracketed(m1: char, m2: char, k: Seq<char>)
    requires
        modifier_flag(seq![m1]) is Some,
        modifier_flag(seq![m2]) is Some,
        !k.contains('-'),
    ensures
        split_input_spec(bracketed_binding(seq![m1], k)) == Ok::<(u8, Seq<char>), Seq<char>>(
            (0u8 | modifier_flag(seq![m1])->0, k),
        ),
        split_input_spec(bracketed_binding(seq![m1, m2], k)) == Ok::<(u8, Seq<char>), Seq<char>>(
            ((0u8 | modifier_flag(seq![m1])->0) | modifier_flag(seq![m2])->0, k),
        ),
{
    lemma_modifier_letter(m1);
    lemma_modifier_letter(m2);
    lemma_bracketed_text(seq![m1], k);
    lemma_bracketed_text(seq![m1, m2], k);
    lemma_split_on_without_sep(k, '-');
    lemma_split_on_without_sep(seq![m1], '-');
    lemma_split_on_without_sep(seq![m2], '-');
    let f1 = modifier_flag(seq![m1])->0;
    let f2 = modifier_flag(seq![m2])->0;
    // <m1-k>
    let t1 = seq!['<', m1, '-'] + k + seq!['>'];
    assert(t1[0] == '<' && t1.last() == '>');
    assert(trim_start_spec(t1) == t1);
    assert(trim_end_spec(t1) == t1);
    assert(t1 != seq![' ']) by {
        assert(t1.len() != 1);
    }
    let inner1 = t1.subrange(1, t1.len() - 1);
    assert(inner1 =~= seq![m1].push('-') + k);
    lemma_split_on_concat(seq![m1], k, '-');
    let parts1 = split_on(inner1, '-');
    assert(parts1 =~= seq![seq![m1], k]);
    assert(parts1.drop_last() =~= seq![seq![m1]]);
    assert(seq![seq![m1]].drop_last() =~= Seq::<Seq<char>>::empty());
    assert(seq![seq![m1]].last() == seq![m1]);
    assert(fold_modifiers(Seq::<Seq<char>>::empty()) == Ok::<u8, Seq<char>>(0u8));
    assert(fold_modifiers(seq![seq![m1]]) == Ok::<u8, Seq<char>>(0u8 | f1));
    // <m1-m2-k>
    let t2 = seq!['<', m1, '-', m2, '-'] + k + seq!['>'];
    assert(t2[0] == '<' && t2.last() == '>');
    assert(trim_start_spec(t2) == t2);
    assert(trim_end_spec(t2) == t2);
    assert(t2 != seq![' ']) by {
        assert(t2.len() != 1);
    }
    let inner2 = t2.subrange(1, t2.len() - 1);
    let rest = seq![m2].push('-') + k;
    assert(inner2 =~= seq![m1].push('-') + rest);
    lemma_split_on_concat(seq![m1], rest, '-');
    lemma_split_on_concat(seq![m2], k, '-');
    let parts2 = split_on(inner2, '-');
    assert(parts2 =~= seq![seq![m1], seq![m2], k]);
    assert(parts2.drop_last() =~= seq![seq![m1], seq![m2]]);
    assert(seq![seq![m1], seq![m2]].drop_last() =~= seq![seq![m1]]);
    assert(seq![seq![m1], seq![m2]].last() == seq![m2]);
    assert(fold_modifiers(seq![seq![m1], seq![m2]]) == Ok::<u8, Seq<char>>((0u8 | f1) | f2));
}

/// Modifiers may be written in any order, and repeated: `<m1-m2-k>` reads as
/// `<m2-m1-k>`, and `<m1-m1-k>` reads as `<m1-k>`, for modifier letters `m1`,
/// `m2` and a key name `k` without `-`.
pub proof fn lemma_modifier_text_order_and_repetition(m1: char, m2: char, k: Seq<char>)
    requires
        modifier_flag(seq![m1]) is Some,
        modifier_flag(seq![m2]) is Some,
        !k.contains('-'),
    ensures
        keybind_spec(bracketed_binding(seq![m1, m2], k)) == keybind_spec(bracketed_binding(seq![m2, m1], k)),
        keybind_spec(bracketed_binding(seq![m1, m1], k)) == keybind_spec(bracketed_binding(seq![m1], k)),
{
    lemma_split_bracketed(m1, m2, k);
    lemma_split_bracketed(m2, m1, k);
    lemma_split_bracketed(m1, m1, k);
    let f1 = modifier_flag(seq![m1])->0;
    let f2 = modifier_flag(seq![m2])->0;
    assert((0u8 | f1) | f2 == (0u8 | f2) | f1) by (bit_vector);
    assert((0u8 | f1) | f1 == 0u8 | f1) by (bit_vector);
}

/// Each modifier letter names its own modifier, with the bit that modifier has:
/// `S` Shift (1), `A` Alt (2), `C` Control (4), `D` Super (8), `H` Hyper (16)
/// and `M` Meta (32); so `<D-k>` reads Super and `<H-k>` reads Hyper, for any
/// key name `k` without `-`.
pub proof fn lemma_modifier_letters(k: Seq<char>)
    requires
        !k.contains('-'),
    ensures
        shift_bit() == 1 && alt_bit() == 2 && control_bit() == 4,
        super_bit() == 8 && hyper_bit() == 16 && meta_bit() == 32,
        modifier_flag(seq!['S']) == Some(1u8),
        modifier_flag(seq!['A']) == Some(2u8),
        modifier_flag(seq!['C']) == Some(4u8),
        modifier_flag(seq!['D']) == Some(8u8),
        modifier_flag(seq!['H']) == Some(16u8),
        modifier_flag(seq!['M']) == Some(32u8),
        split_input_spec(bracketed_binding(seq!['S'], k)) == Ok::<(u8, Seq<char>), Seq<char>>((1u8, k)),
        split_input_spec(bracketed_binding(seq!['A'], k)) == Ok::<(u8, Seq<char>), Seq<char>>((2u8, k)),
        split_input_spec(bracketed_binding(seq!['C'], k)) == Ok::<(u8, Seq<char>), Seq<char>>((4u8, k)),
        split_input_spec(bracketed_binding(seq!['D'], k)) == Ok::<(u8, Seq<char>), Seq<char>>((8u8, k)),
        split_input_spec(bracketed_binding(seq!['H'], k)) == Ok::<(u8, Seq<char>), Seq<char>>((16u8, k)),
        split_input_spec(bracketed_binding(seq!['M'], k)) == Ok::<(u8, Seq<char>), Seq<char>>((32u8, k)),
{
    assert(seq!['S'] != seq!['C']) by { assert(seq!['S'][0] != seq!['C'][0]); }
    assert(seq!['A'] != seq!['C'] && seq!['A'] != seq!['S']) by {
        assert(seq!['A'][0] != seq!['C'][0] && seq!['A'][0] != seq!['S'][0]);
    }
    assert(seq!['D'] != seq!['C'] && seq!['D'] != seq!['S'] && seq!['D'] != seq!['A']) by {
        assert(seq!['D'][0] != seq!['C'][0] && seq!['D'][0] != seq!['S'][0] && seq!['D'][0] != seq!['A'][0]);
    }
    assert(seq!['H'] != seq!['C'] && seq!['H'] != seq!['S'] && seq!['H'] != seq!['A'] && seq!['H'] != seq!['D']) by {
        assert(seq!['H'][0] != seq!['C'][0] && seq!['H'][0] != seq!['S'][0] && seq!['H'][0] != seq!['A'][0]
            && seq!['H'][0] != seq!['D'][0]);
    }
    assert(seq!['M'] != seq!['C'] && seq!['M'] != seq!['S'] && seq!['M'] != seq!['A'] && seq!['M'] != seq!['D']
        && seq!['M'] != seq!['H']) by {
        assert(seq!['M'][0] != seq!['C'][0] && seq!['M'][0] != seq!['S'][0] && seq!['M'][0] != seq!['A'][0]
            && seq!['M'][0] != seq!['D'][0] && seq!['M'][0] != seq!['H'][0]);
    }
    lemma_split_bracketed('S', 'S', k);
    lemma_split_bracketed('A', 'A', k);
    lemma_split_bracketed('C', 'C', k);
    lemma_split_bracketed('D', 'D', k);
    lemma_split_bracketed('H', 'H', k);
    lemma_split_bracketed('M', 'M', k);
    assert(0u8 | 1u8 == 1u8 && 0u8 | 2u8 == 2u8 && 0u8 | 4u8 == 4u8) by (bit_vector);
    assert(0u8 | 8u8 == 8u8 && 0u8 | 16u8 == 16u8 && 0u8 | 32u8 == 32u8) by (bit_vector);
}

/// The name of a function key with a one-digit number: `f` and the digit.
pub open spec fn fkey_name(d: char) -> Seq<char> {
    seq!['f', d]
}

proof fn lemma_fkey_name(d: char)
    requires
        '1' <= d <= '9',
    ensures
        named_key(fkey_name(d)) is None,
{
    let l = fkey_name(d);
    reveal_strlit("space");
    reveal_strlit("backspace");
    reveal_strlit("enter");
    reveal_strlit("left");
    reveal_strlit("right");
    reveal_strlit("up");
    reveal_strlit("down");
    reveal_strlit("home");
    reveal_strlit("end");
    reveal_strlit("pageup");
    reveal_strlit("pagedown");
    reveal_strlit("tab");
    reveal_strlit("backtab");
    reveal_strlit("delete");
    reveal_strlit("insert");
    reveal_strlit("esc");
    assert(l.len() != "space"@.len());
    assert(l.len() != "backspace"@.len());
    assert(l.len() != "enter"@.len());
    assert(l.len() != "left"@.len());
    assert(l.len() != "right"@.len());
    assert(l[0] != "up"@[0]);
    assert(l.len() != "down"@.len());
    assert(l.len() != "home"@.len());
    assert(l.len() != "end"@.len());
    assert(l.len() != "pageup"@.len());
    assert(l.len() != "pagedown"@.len());
    assert(l.len() != "tab"@.len());
    assert(l.len() != "backtab"@.len());
    assert(l.len() != "delete"@.len());
    assert(l.len() != "insert"@.len());
    assert(l.len() != "esc"@.len());
}

/// Each special key name, in lower case, denotes the key of that name, whatever
/// the text `s` it was lowered from: `space` the space bar, `left` Left, `right`
/// Right, `up` Up, `down` Down, and so on; `f` and a number a function key.
pub proof fn lemma_key_names(s: Seq<char>)
    ensures
        keycode_spec(s, "space"@) == Ok::<KeyCode, Seq<char>>(KeyCode::Char(' ')),
        keycode_spec(s, "backspace"@) == Ok::<KeyCode, Seq<char>>(KeyCode::Backspace),
        keycode_spec(s, "enter"@) == Ok::<KeyCode, Seq<char>>(KeyCode::Enter),
        keycode_spec(s, "left"@) == Ok::<KeyCode, Seq<char>>(KeyCode::Left),
        keycode_spec(s, "right"@) == Ok::<KeyCode, Seq<char>>(KeyCode::Right),
        keycode_spec(s, "up"@) == Ok::<KeyCode, Seq<char>>(KeyCode::Up),
        keycode_spec(s, "down"@) == Ok::<KeyCode, Seq<char>>(KeyCode::Down),
        keycode_spec(s, "home"@) == Ok::<KeyCode, Seq<char>>(KeyCode::Home),
        keycode_spec(s, "end"@) == Ok::<KeyCode, Seq<char>>(KeyCode::End),
        keycode_spec(s, "pageup"@) == Ok::<KeyCode, Seq<char>>(KeyCode::PageUp),
        keycode_spec(s, "pagedown"@) == Ok::<KeyCode, Seq<char>>(KeyCode::PageDown),
        keycode_spec(s, "tab"@) == Ok::<KeyCode, Seq<char>>(KeyCode::Tab),
        keycode_spec(s, "backtab"@) == Ok::<KeyCode, Seq<char>>(KeyCode::BackTab),
        keycode_spec(s, "delete"@) == Ok::<KeyCode, Seq<char>>(KeyCode::Delete),
        keycode_spec(s, "insert"@) == Ok::<KeyCode, Seq<char>>(KeyCode::Insert),
        keycode_spec(s, "esc"@) == Ok::<KeyCode, Seq<char>>(KeyCode::Esc),
        forall|d: char| '1' <= d <= '9' ==> #[trigger] keycode_spec(s, fkey_name(d)) == Ok::<KeyCode, Seq<char>>(
            KeyCode::F((d as u32 - 48) as u8),
        ),
{
    reveal_strlit("space");
    reveal_strlit("backspace");
    reveal_strlit("enter");
    reveal_strlit("left");
    reveal_strlit("right");
    reveal_strlit("up");
    reveal_strlit("down");
    reveal_strlit("home");
    reveal_strlit("end");
    reveal_strlit("pageup");
    reveal_strlit("pagedown");
    reveal_strlit("tab");
    reveal_strlit("backtab");
    reveal_strlit("delete");
    reveal_strlit("insert");
    reveal_strlit("esc");
    assert(named_key("space"@) == Some(KeyCode::Char(' ')));
    assert("backspace"@.len() != "space"@.len());
    assert(named_key("backspace"@) == Some(KeyCode::Backspace));
    assert("enter"@[0] != "space"@[0]);
    assert("enter"@.len() != "backspace"@.len());
    assert(named_key("enter"@) == Some(KeyCode::Enter));
    assert("left"@.len() != "space"@.len());
    assert("left"@.len() != "backspace"@.len());
    assert("left"@.len() != "enter"@.len());
    assert(named_key("left"@) == Some(KeyCode::Left));
    assert("right"@[0] != "space"@[0]);
    assert("right"@.len() != "backspace"@.len());
    assert("right"@[0] != "enter"@[0]);
    assert("right"@.len() != "left"@.len());
    assert(named_key("right"@) == Some(KeyCode::Right));
    assert("up"@.len() != "space"@.len());
    assert("up"@.len() != "backspace"@.len());
    assert("up"@.len() != "enter"@.len());
    assert("up"@.len() != "left"@.len());
    assert("up"@.len() != "right"@.len());
    assert(named_key("up"@) == Some(KeyCode::Up));
    assert("down"@.len() != "space"@.len());
    assert("down"@.len() != "backspace"@.len());
    assert("down"@.len() != "enter"@.len());
    assert("down"@[0] != "left"@[0]);
    assert("down"@.len() != "right"@.len());
    assert("down"@.len() != "up"@.len());
    assert(named_key("down"@) == Some(KeyCode::Down));
    assert("home"@.len() != "space"@.len());
    assert("home"@.len() != "backspace"@.len());
    assert("home"@.len() != "enter"@.len());
    assert("home"@[0] != "left"@[0]);
    assert("home"@.len() != "right"@.len());
    assert("home"@.len() != "up"@.len());
    assert("home"@[0] != "down"@[0]);
    assert(named_key("home"@) == Some(KeyCode::Home));
    assert("end"@.len() != "space"@.len());
    assert("end"@.len() != "backspace"@.len());
    assert("end"@.len() != "enter"@.len());
    assert("end"@.len() != "left"@.len());
    assert("end"@.len() != "right"@.len());
    assert("end"@.len() != "up"@.len());
    assert("end"@.len() != "down"@.len());
    assert("end"@.len() != "home"@.len());
    assert(named_key("end"@) == Some(KeyCode::End));
    assert("pageup"@.len() != "space"@.len());
    assert("pageup"@.len() != "backspace"@.len());
    assert("pageup"@.len() != "enter"@.len());
    assert("pageup"@.len() != "left"@.len());
    assert("pageup"@.len() != "right"@.len());
    assert("pageup"@.len() != "up"@.len());
    assert("pageup"@.len() != "down"@.len());
    assert("pageup"@.len() != "home"@.len());
    assert("pageup"@.len() != "end"@.len());
    assert(named_key("pageup"@) == Some(KeyCode::PageUp));
    assert("pagedown"@.len() != "space"@.len());
    assert("pagedown"@.len() != "backspace"@.len());
    assert("pagedown"@.len() != "enter"@.len());
    assert("pagedown"@.len() != "left"@.len());
    assert("pagedown"@.len() != "right"@.len());
    assert("pagedown"@.len() != "up"@.len());
    assert("pagedown"@.len() != "down"@.len());
    assert("pagedown"@.len() != "home"@.len());
    assert("pagedown"@.len() != "end"@.len());
    assert("pagedown"@.len() != "pageup"@.len());
    assert(named_key("pagedown"@) == Some(KeyCode::PageDown));
    assert("tab"@.len() != "space"@.len());
    assert("tab"@.len() != "backspace"@.len());
    assert("tab"@.len() != "enter"@.len());
    assert("tab"@.len() != "left"@.len());
    assert("tab"@.len() != "right"@.len());
    assert("tab"@.len() != "up"@.len());
    assert("tab"@.len() != "down"@.len());
    assert("tab"@.len() != "home"@.len());
    assert("tab"@[0] != "end"@[0]);
    assert("tab"@.len() != "pageup"@.len());
    assert("tab"@.len() != "pagedown"@.len());
    assert(named_key("tab"@) == Some(KeyCode::Tab));
    assert("backtab"@.len() != "space"@.len());
    assert("backtab"@.len() != "backspace"@.len());
    assert("backtab"@.len() != "enter"@.len());
    assert("backtab"@.len() != "left"@.len());
    assert("backtab"@.len() != "right"@.len());
    assert("backtab"@.len() != "up"@.len());
    assert("backtab"@.len() != "down"@.len());
    assert("backtab"@.len() != "home"@.len());
    assert("backtab"@.len() != "end"@.len());
    assert("backtab"@.len() != "pageup"@.len());
    assert("backtab"@.len() != "pagedown"@.len());
    assert("backtab"@.len() != "tab"@.len());
    assert(named_key("backtab"@) == Some(KeyCode::BackTab));
    assert("delete"@.len() != "space"@.len());
    assert("delete"@.len() != "backspace"@.len());
    assert("delete"@.len() != "enter"@.len());
    assert("delete"@.len() != "left"@.len());
    assert("delete"@.len() != "right"@.len());
    assert("delete"@.len() != "up"@.len());
    assert("delete"@.len() != "down"@.len());
    assert("delete"@.len() != "home"@.len());
    assert("delete"@.len() != "end"@.len());
    assert("delete"@[0] != "pageup"@[0]);
    assert("delete"@.len() != "pagedown"@.len());
    assert("delete"@.len() != "tab"@.len());
    assert("delete"@.len() != "backtab"@.len());
    assert(named_key("delete"@) == Some(KeyCode::Delete));
    assert("insert"@.len() != "space"@.len());
    assert("insert"@.len() != "backspace"@.len());
    assert("insert"@.len() != "enter"@.len());
    assert("insert"@.len() != "left"@.len());
    assert("insert"@.len() != "right"@.len());
    assert("insert"@.len() != "up"@.len());
    assert("insert"@.len() != "down"@.len());
    assert("insert"@.len() != "home"@.len());
    assert("insert"@.len() != "end"@.len());
    assert("insert"@[0] != "pageup"@[0]);
    assert("insert"@.len() != "pagedown"@.len());
    assert("insert"@.len() != "tab"@.len());
    assert("insert"@.len() != "backtab"@.len());
    assert("insert"@[0] != "delete"@[0]);
    assert(named_key("insert"@) == Some(KeyCode::Insert));
    assert("esc"@.len() != "space"@.len());
    assert("esc"@.len() != "backspace"@.len());
    assert("esc"@.len() != "enter"@.len());
    assert("esc"@.len() != "left"@.len());
    assert("esc"@.len() != "right"@.len());
    assert("esc"@.len() != "up"@.len());
    assert("esc"@.len() != "down"@.len());
    assert("esc"@.len() != "home"@.len());
    assert("esc"@[1] != "end"@[1]);
    assert("esc"@.len() != "pageup"@.len());
    assert("esc"@.len() != "pagedown"@.len());
    assert("esc"@[0] != "tab"@[0]);
    assert("esc"@.len() != "backtab"@.len());
    assert("esc"@.len() != "delete"@.len());
    assert("esc"@.len() != "insert"@.len());
    assert(named_key("esc"@) == Some(KeyCode::Esc));
    assert forall|d: char| '1' <= d <= '9' implies #[trigger] keycode_spec(s, fkey_name(d)) == Ok::<KeyCode, Seq<char>>(
        KeyCode::F((d as u32 - 48) as u8),
    ) by {
        lemma_fkey_name(d);
        let b = fkey_name(d).drop_first();
        assert(b =~= seq![d]);
        assert(b.drop_last() =~= Seq::<char>::empty());
        assert(b.last() == d);
        assert(all_digits(b));
        assert(digits_value(b) == digits_value(b.drop_last()) * 10 + digit_value(d));
    }
}

/// An upper-case letter stands for its lower case with Shift (bit 1), and
/// BackTab for Tab with Shift; any other key keeps its modifiers unchanged.
pub proof fn lemma_normal_form(code: KeyCode, bits: u8, c: char)
    ensures
        'A' <= c <= 'Z' ==> normalize_spec(KeyCode::Char(c), bits, true) == (
            KeyCode::Char(((c as u32) + 32) as char),
            bits | 1u8,
        ),
        normalize_spec(KeyCode::Char(c), bits, false) == (KeyCode::Char(c), bits),
        normalize_spec(KeyCode::BackTab, bits, false) == (KeyCode::Tab, bits | 1u8),
        !(code is Char) && code != KeyCode::BackTab ==> normalize_spec(code, bits, false) == (code, bits),
{
}

impl KeyBind {
    /// Splits a binding's text into its modifiers and its key name.
    pub fn split_input(s: &str) -> (r: Result<(KeyModifiers, &str), String>)
        ensures
            match split_input_spec(s@) {
                Ok((b, k)) => r matches Ok(p) && p.0@ == b && p.1@ == k,
                Err(e) => r matches Err(m) && m@ == e,
            },
    {
        proof {
            reveal_strlit(" ");
            assert(" "@ =~= seq![' ']);
        }
        let t = if !str_eq(s, " ") {
            trim(s)
        } else {
            s
        };
        assert(t@ == prepared_input(s@));
        let n = t.unicode_len();
        if n == 0 {
            return Err(String::from_str("Keybinding cannot be empty"));
        }
        let mut modifiers = KeyModifiers::empty();
        if !(t.get_char(0) == '<' && t.get_char(n - 1) == '>') {
            return Ok((modifiers, t));
        }
        let inner = t.substring_char(1, n - 1);
        let ghost inner_s = inner@;
        let m = inner.unicode_len();
        let mut start: usize = 0;
        let mut i: usize = 0;
        proof {
            assert(inner_s.subrange(0, 0) =~= Seq::<char>::empty());
        }
        while i < m
            invariant
                m == inner_s.len(),
                inner@ == inner_s,
                n == t@.len(),
                n >= 2,
                inner_s == t@.subrange(1, n as int - 1),
                t@ == prepared_input(s@),
                is_bracketed(t@),
                start <= i <= m,
                split_on(inner_s.subrange(0, i as int), '-').last() == inner_s.subrange(start as int, i as int),
                split_on(inner_s.subrange(0, i as int), '-').len() >= 1,
                fold_modifiers(split_on(inner_s.subrange(0, i as int), '-').drop_last()) == Ok::<u8, Seq<char>>(modifiers@),
            decreases m - i,
        {
            let ghost pre = inner_s.subrange(0, i as int);
            let ghost nxt = inner_s.subrange(0, i as int + 1);
            assert(nxt.drop_last() =~= pre);
            assert(nxt.last() == inner_s[i as int]);
            let c = inner.get_char(i);
            if c == '-' {
                let part = inner.substring_char(start, i);
                assert(split_on(nxt, '-') == split_on(pre, '-').push(Seq::<char>::empty()));
                assert(split_on(nxt, '-').drop_last() =~= split_on(pre, '-'));
                assert(split_on(pre, '-') =~= split_on(pre, '-').drop_last().push(part@));
                let flag = if str_eq(part, "C") {
                    KeyModifiers::CONTROL()
                } else if str_eq(part, "S") {
                    KeyModifiers::SHIFT()
                } else if str_eq(part, "A") {
                    KeyModifiers::ALT()
                } else if str_eq(part, "D") {
                    KeyModifiers::SUPER()
                } else if str_eq(part, "H") {
                    KeyModifiers::HYPER()
                } else if str_eq(part, "M") {
                    KeyModifiers::META()
                } else {
                    proof {
                        reveal_strlit("C");
                        reveal_strlit("S");
                        reveal_strlit("A");
                        reveal_strlit("D");
                        reveal_strlit("H");
                        reveal_strlit("M");
                        assert("C"@ =~= seq!['C']);
                        assert("S"@ =~= seq!['S']);
                        assert("A"@ =~= seq!['A']);
                        assert("D"@ =~= seq!['D']);
                        assert("H"@ =~= seq!['H']);
                        assert("M"@ =~= seq!['M']);
                        assert(modifier_flag(part@) is None);
                        let sp = split_on(pre, '-');
                        assert(fold_modifiers(sp) == Err::<u8, Seq<char>>(part@));
                        assert(inner_s.subrange(0, m as int) =~= inner_s);
                        assert(nxt =~= inner_s.subrange(0, nxt.len() as int));
                        lemma_split_on_prefix(nxt, inner_s, '-');
                        lemma_split_on_nonempty(inner_s, '-');
                        let full = split_on(inner_s, '-').drop_last();
                        assert(sp =~= full.subrange(0, sp.len() as int));
                        lemma_fold_prefix_err(sp, full);
                    }
                    return Err(concat("Unknown modifier: ", part));
                };
                proof {
                    reveal_strlit("C");
                    reveal_strlit("S");
                    reveal_strlit("A");
                    reveal_strlit("D");
                    reveal_strlit("H");
                    reveal_strlit("M");
                    assert("C"@ =~= seq!['C']);
                    assert("S"@ =~= seq!['S']);
                    assert("A"@ =~= seq!['A']);
                    assert("D"@ =~= seq!['D']);
                    assert("H"@ =~= seq!['H']);
                    assert("M"@ =~= seq!['M']);
                    assert(modifier_flag(part@) == Some(flag@));
                }
                modifiers.insert(flag);
                start = i + 1;
                assert(split_on(nxt, '-').last() =~= inner_s.subrange(start as int, i as int + 1));
            } else {
                let ghost sp = split_on(pre, '-');
                assert(split_on(nxt, '-') == sp.update(sp.len() - 1, sp.last().push(c)));
                assert(split_on(nxt, '-').drop_last() =~= sp.drop_last());
                assert(split_on(nxt, '-').last() =~= inner_s.subrange(start as int, i as int + 1));
            }
            i = i + 1;
        }
        assert(inner_s.subrange(0, m as int) =~= inner_s);
        assert(inner_s =~= t@.subrange(1, t@.len() - 1));
        let key = inner.substring_char(start, m);
        Ok((modifiers, key))
    }

    /// The binding in normal form, given whether `code`'s character is upper case.
    pub fn normalize(code: KeyCode, modifiers: KeyModifiers, upper: bool) -> (r: KeyBind)
        ensures
            (r.code, r.modifiers@) == normalize_spec(code, modifiers@, upper),
    {
        let mut modifiers = modifiers;
        match code {
            KeyCode::Char(c) => {
                if upper {
                    modifiers.insert(KeyModifiers::SHIFT());
                    KeyBind { code: KeyCode::Char(char_to_ascii_lowercase(c)), modifiers }
                } else {
                    KeyBind { code, modifiers }
                }
            },
            KeyCode::BackTab => {
                modifiers.insert(KeyModifiers::SHIFT());
                KeyBind { code: KeyCode::Tab, modifiers }
            },
            _ => KeyBind { code, modifiers },
        }
    }

    /// Reads a key binding: a key name (see `KeyCode::from_str`), or `<`, modifier
    /// letters each followed by `-`, the key name and `>`. Surrounding white space
    /// is ignored; an upper-case character stands for itself with `Shift`.
    pub fn from_str(s: &str) -> (r: Result<KeyBind, String>)
        ensures
            match keybind_spec(s@) {
                Ok((code, bits)) => r matches Ok(kb) && kb.code == code && kb.modifiers@ == bits,
                Err(e) => r matches Err(m) && m@ == e,
            },
            r matches Ok(kb) ==> kb.code != KeyCode::BackTab,
            r matches Ok(kb) ==> (kb.code matches KeyCode::Char(c) ==> !is_ascii_upper(c)),
            split_input_spec(s@) matches Ok((b, k)) ==> (k.len() == 1 ==> (r matches Ok(kb) && (
            kb.code,
            kb.modifiers@,
            ) == normalize_spec(KeyCode::Char(k[0]), b, is_uppercase(k[0])))),
    {
        let (modifiers, key) = match KeyBind::split_input(s) {
            Ok(p) => p,
            Err(e) => return Err(e),
        };
        proof {
            reveal_strlit(" ");
            assert(" "@ =~= seq![' ']);
        }
        let code = if eq_ignore_ascii_case(key, "space") || str_eq(key, " ") {
            KeyCode::Char(' ')
        } else {
            match KeyCode::from_str(key) {
                Ok(k) => k,
                Err(e) => return Err(e),
            }
        };
        proof {
            if key@.len() == 1 {
                reveal_strlit("space");
                assert(ascii_lower_seq(key@).len() != ascii_lower_seq("space"@).len());
                assert(code == KeyCode::Char(key@[0]));
            }
        }
        let upper = match code {
            KeyCode::Char(c) => char_is_uppercase(c),
            _ => false,
        };
        proof {
            if !(code matches KeyCode::Char(_)) {
                assert(!upper_char(code));
            }
        }
        let r = KeyBind::normalize(code, modifiers, upper);
        proof {
            if let KeyCode::Char(c) = r.code {
                if let KeyCode::Char(c0) = code {
                    if upper {
                        assert(c == ascii_lower(c0));
                    } else {
                        assert(c == c0);
                    }
                }
            }
        }
        Ok(r)
    }
}

impl std::str::FromStr for KeyCode {
    type Err = String;

    fn from_str(s: &str) -> (r: Result<KeyCode, String>)
        ensures
            match keycode_spec(s@, lowercase(s@)) {
                Ok(k) => r matches Ok(k2) && k2 == k,
                Err(e) => r matches Err(m) && m@ == e,
            },
            s@.len() == 1 ==> (r matches Ok(k) && k == KeyCode::Char(s@[0])),
            (forall|i: int| 0 <= i < s@.len() ==> is_ascii_char(#[trigger] s@[i])) ==> match keycode_spec(
                s@,
                ascii_lower_seq(s@),
            ) {
                Ok(k) => r matches Ok(k2) && k2 == k,
                Err(e) => r matches Err(m) && m@ == e,
            },
    {
        KeyCode::from_str(s)
    }
}

impl std::str::FromStr for KeyBind {
    type Err = String;

    fn from_str(s: &str) -> (r: Result<KeyBind, String>)
        ensures
            match keybind_spec(s@) {
                Ok((code, bits)) => r matches Ok(kb) && kb.code == code && kb.modifiers@ == bits,
                Err(e) => r matches Err(m) && m@ == e,
            },
            r matches Ok(kb) ==> kb.code != KeyCode::BackTab,
            r matches Ok(kb) ==> (kb.code matches KeyCode::Char(c) ==> !is_ascii_upper(c)),
            split_input_spec(s@) matches Ok((b, k)) ==> (k.len() == 1 ==> (r matches Ok(kb) && (
            kb.code,
            kb.modifiers@,
            ) == normalize_spec(KeyCode::Char(k[0]), b, is_uppercase(k[0])))),
    {
        KeyBind::from_str(s)
    }
}

} // verus!
