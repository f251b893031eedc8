//! The shortcut-string grammar: parses a human-authored string such as
//! `"Alt+Shift+ArrowUp"` into a structured chord (modifier set plus key code).
//!
//! The grammar is closed and exact: the input is split on `'+'`, whitespace is
//! trimmed around each token, every token but the last must be a recognized
//! modifier name, and the last token must be one of a fixed key table. Any
//! unrecognized token makes the whole parse fail. Parsing is pure and
//! deterministic: the result is a function of the input string alone.

use vstd::prelude::*;
use vstd::string::StrSliceExecFns;

verus! {

/// The set of modifier keys held in a chord.
#[derive(Clone, Copy, PartialEq, Eq, Structural, Debug)]
pub struct Modifiers {
    pub super_key: bool,
    pub alt: bool,
    pub control: bool,
    pub shift: bool,
}

impl Modifiers {
    /// The empty modifier set.
    pub open spec fn empty_spec() -> Modifiers {
        Modifiers { super_key: false, alt: false, control: false, shift: false }
    }

    /// Returns the empty modifier set.
    pub fn empty() -> (m: Modifiers)
        ensures
            m == Modifiers::empty_spec(),
    {
        Modifiers { super_key: false, alt: false, control: false, shift: false }
    }
}

/// The non-modifier key of a chord; the closed key table of the grammar.
#[derive(Clone, Copy, PartialEq, Eq, Structural, Debug)]
pub enum KeyCode {
    KeyA,
    KeyB,
    KeyC,
    KeyD,
    KeyE,
    KeyF,
    KeyG,
    KeyH,
    KeyI,
    KeyJ,
    KeyK,
    KeyL,
    KeyM,
    KeyN,
    KeyO,
    KeyP,
    KeyQ,
    KeyR,
    KeyS,
    KeyT,
    KeyU,
    KeyV,
    KeyW,
    KeyX,
    KeyY,
    KeyZ,
    Digit0,
    Digit1,
    Digit2,
    Digit3,
    Digit4,
    Digit5,
    Digit6,
    Digit7,
    Digit8,
    Digit9,
    F1,
    F2,
    F3,
    F4,
    F5,
    F6,
    F7,
    F8,
    F9,
    F10,
    F11,
    F12,
    ArrowUp,
    ArrowDown,
    ArrowLeft,
    ArrowRight,
    Space,
    Enter,
    Tab,
    Escape,
    Backspace,
    Delete,
    Home,
    End,
    PageUp,
    PageDown,
}

/// One physical key combination: a modifier set plus one non-modifier key.
/// Equality is structural: same modifier set and same key means same chord.
#[derive(Clone, Copy, PartialEq, Eq, Structural, Debug)]
pub struct Chord {
    pub modifiers: Modifiers,
    pub key: KeyCode,
}

/// The characters stripped from the ends of each token, the Unicode
/// `White_Space` set.
pub open spec fn is_space_char(c: char) -> bool {
    let u = c as u32;
    (0x9 <= u && u <= 0xD) || u == 0x20 || u == 0x85 || u == 0xA0 || u == 0x1680 || (0x2000 <= u
        && u <= 0x200A) || u == 0x2028 || u == 0x2029 || u == 0x202F || u == 0x205F || u == 0x3000
}

fn is_space(c: char) -> (b: bool)
    ensures
        b == is_space_char(c),
{
    let u: u32 = c as u32;
    (0x9 <= u && u <= 0xD) || u == 0x20 || u == 0x85 || u == 0xA0 || u == 0x1680 || (0x2000 <= u
        && u <= 0x200A) || u == 0x2028 || u == 0x2029 || u == 0x202F || u == 0x205F || u == 0x3000
}

/// Splitting a string on `'+'`: always at least one token, and an empty
/// string yields one empty token.
pub open spec fn split_plus(s: Seq<char>) -> Seq<Seq<char>>
    decreases s.len(),
{
    if s.len() == 0 {
        seq![Seq::<char>::empty()]
    } else {
        let r = split_plus(s.drop_last());
        if s.last() == '+' {
            r.push(Seq::<char>::empty())
        } else {
            r.drop_last().push(r.last().push(s.last()))
        }
    }
}

proof fn lemma_split_plus_nonempty(s: Seq<char>)
    ensures
        split_plus(s).len() >= 1,
    decreases s.len(),
{
    if s.len() > 0 {
        lemma_split_plus_nonempty(s.drop_last());
    }
}

/// Leading whitespace removed.
pub open spec fn trim_start(t: Seq<char>) -> Seq<char>
    decreases t.len(),
{
    if t.len() > 0 && is_space_char(t.first()) {
        trim_start(t.drop_first())
    } else {
        t
    }
}

/// Trailing whitespace removed.
pub open spec fn trim_end(t: Seq<char>) -> Seq<char>
    decreases t.len(),
{
    if t.len() > 0 && is_space_char(t.last()) {
        trim_end(t.drop_last())
    } else {
        t
    }
}

/// Whitespace removed from both ends.
pub open spec fn trim_spec(t: Seq<char>) -> Seq<char> {
    trim_end(trim_start(t))
}

/// The tokens of a shortcut string: split on `'+'`, each token trimmed.
pub open spec fn tokens_of(s: Seq<char>) -> Seq<Seq<char>> {
    split_plus(s).map_values(|t: Seq<char>| trim_spec(t))
}

/// Whether a token names a modifier key.
pub open spec fn is_modifier_token(t: Seq<char>) -> bool {
    t == "Cmd"@ || t == "Super"@ || t == "Alt"@ || t == "Ctrl"@ || t == "Shift"@
}

/// The modifier set `m` extended with the modifier named by `t`, or `None`
/// if `t` names no modifier.
pub open spec fn apply_modifier(m: Modifiers, t: Seq<char>) -> Option<Modifiers> {
    if t == "Cmd"@ || t == "Super"@ {
        Some(Modifiers { super_key: true, alt: m.alt, control: m.control, shift: m.shift })
    } else if t == "Alt"@ {
        Some(Modifiers { super_key: m.super_key, alt: true, control: m.control, shift: m.shift })
    } else if t == "Ctrl"@ {
        Some(Modifiers { super_key: m.super_key, alt: m.alt, control: true, shift: m.shift })
    } else if t == "Shift"@ {
        Some(Modifiers { super_key: m.super_key, alt: m.alt, control: m.control, shift: true })
    } else {
        None
    }
}

/// The modifier set named by a sequence of modifier tokens, folded from the
/// left; `None` as soon as any token is unrecognized.
pub open spec fn mods_of(toks: Seq<Seq<char>>) -> Option<Modifiers>
    decreases toks.len(),
{
    if toks.len() == 0 {
        Some(Modifiers::empty_spec())
    } else {
        match mods_of(toks.drop_last()) {
            Some(m) => apply_modifier(m, toks.last()),
            None => None,
        }
    }
}

/// The key code named by a token: the closed key table. Letters `A`-`Z`,
/// digits `0`-`9`, function keys `F1`-`F12`, arrows, and a fixed set of
/// named keys. Spelling is exact and case-sensitive.
pub open spec fn key_code_of(t: Seq<char>) -> Option<KeyCode> {
    if t == "A"@ {
        Some(KeyCode::KeyA)
    } else if t == "B"@ {
        Some(KeyCode::KeyB)
    } else if t == "C"@ {
        Some(KeyCode::KeyC)
    } else if t == "D"@ {
        Some(KeyCode::KeyD)
    } else if t == "E"@ {
        Some(KeyCode::KeyE)
    } else if t == "F"@ {
        Some(KeyCode::KeyF)
    } else if t == "G"@ {
        Some(KeyCode::KeyG)
    } else if t == "H"@ {
        Some(KeyCode::KeyH)
    } else if t == "I"@ {
        Some(KeyCode::KeyI)
    } else if t == "J"@ {
        Some(KeyCode::KeyJ)
    } else if t == "K"@ {
        Some(KeyCode::KeyK)
    } else if t == "L"@ {
        Some(KeyCode::KeyL)
    } else if t == "M"@ {
        Some(KeyCode::KeyM)
    } else if t == "N"@ {
        Some(KeyCode::KeyN)
    } else if t == "O"@ {
        Some(KeyCode::KeyO)
    } else if t == "P"@ {
        Some(KeyCode::KeyP)
    } else if t == "Q"@ {
        Some(KeyCode::KeyQ)
    } else if t == "R"@ {
        Some(KeyCode::KeyR)
    } else if t == "S"@ {
        Some(KeyCode::KeyS)
    } else if t == "T"@ {
        Some(KeyCode::KeyT)
    } else if t == "U"@ {
        Some(KeyCode::KeyU)
    } else if t == "V"@ {
        Some(KeyCode::KeyV)
    } else if t == "W"@ {
        Some(KeyCode::KeyW)
    } else if t == "X"@ {
        Some(KeyCode::KeyX)
    } else if t == "Y"@ {
        Some(KeyCode::KeyY)
    } else if t == "Z"@ {
        Some(KeyCode::KeyZ)
    } else if t == "0"@ {
        Some(KeyCode::Digit0)
    } else if t == "1"@ {
        Some(KeyCode::Digit1)
    } else if t == "2"@ {
        Some(KeyCode::Digit2)
    } else if t == "3"@ {
        Some(KeyCode::Digit3)
    } else if t == "4"@ {
        Some(KeyCode::Digit4)
    } else if t == "5"@ {
        Some(KeyCode::Digit5)
    } else if t == "6"@ {
        Some(KeyCode::Digit6)
    } else if t == "7"@ {
        Some(KeyCode::Digit7)
    } else if t == "8"@ {
        Some(KeyCode::Digit8)
    } else if t == "9"@ {
        Some(KeyCode::Digit9)
    } else if t == "F1"@ {
        Some(KeyCode::F1)
    } else if t == "F2"@ {
        Some(KeyCode::F2)
    } else if t == "F3"@ {
        Some(KeyCode::F3)
    } else if t == "F4"@ {
        Some(KeyCode::F4)
    } else if t == "F5"@ {
        Some(KeyCode::F5)
    } else if t == "F6"@ {
        Some(KeyCode::F6)
    } else if t == "F7"@ {
        Some(KeyCode::F7)
    } else if t == "F8"@ {
        Some(KeyCode::F8)
    } else if t == "F9"@ {
        Some(KeyCode::F9)
    } else if t == "F10"@ {
        Some(KeyCode::F10)
    } else if t == "F11"@ {
        Some(KeyCode::F11)
    } else if t == "F12"@ {
        Some(KeyCode::F12)
    } else if t == "ArrowUp"@ {
        Some(KeyCode::ArrowUp)
    } else if t == "ArrowDown"@ {
        Some(KeyCode::ArrowDown)
    } else if t == "ArrowLeft"@ {
        Some(KeyCode::ArrowLeft)
    } else if t == "ArrowRight"@ {
        Some(KeyCode::ArrowRight)
    } else if t == "Space"@ {
        Some(KeyCode::Space)
    } else if t == "Enter"@ {
        Some(KeyCode::Enter)
    } else if t == "Tab"@ {
        Some(KeyCode::Tab)
    } else if t == "Escape"@ {
        Some(KeyCode::Escape)
    } else if t == "Backspace"@ {
        Some(KeyCode::Backspace)
    } else if t == "Delete"@ {
        Some(KeyCode::Delete)
    } else if t == "Home"@ {
        Some(KeyCode::Home)
    } else if t == "End"@ {
        Some(KeyCode::End)
    } else if t == "PageUp"@ {
        Some(KeyCode::PageUp)
    } else if t == "PageDown"@ {
        Some(KeyCode::PageDown)
    } else {
        None
    }
}

/// What `parse` accepts: all tokens but the last name modifiers, folded into
/// a modifier set, and the last token names a key. Any failure is total
/// failure.
pub open spec fn chord_of(s: Seq<char>) -> Option<Chord> {
    let toks = tokens_of(s);
    match mods_of(toks.drop_last()) {
        Some(m) => match key_code_of(toks.last()) {
            Some(k) => Some(Chord { modifiers: m, key: k }),
            None => None,
        },
        None => None,
    }
}

/// The characters of `s` as a vector.
fn to_chars(s: &str) -> (r: Vec<char>)
    ensures
        r@ == s@,
{
    let n = s.unicode_len();
    let mut r: Vec<char> = Vec::new();
    let mut i: usize = 0;
    while i < n
        invariant
            i <= n,
            n == s@.len(),
            r@ == s@.subrange(0, i as int),
        decreases n - i,
    {
        let c = s.get_char(i);
        r.push(c);
        proof {
            assert(r@ =~= s@.subrange(0, i + 1 as int));
        }
        i = i + 1;
    }
    proof {
        assert(s@.subrange(0, n as int) =~= s@);
    }
    r
}

/// Whether the token `t` spells exactly the pattern `pat`.
fn token_matches(t: &Vec<char>, pat: &str) -> (b: bool)
    ensures
        b == (t@ == pat@),
{
    let n = pat.unicode_len();
    if t.len() != n {
        proof {
            assert(t@.len() != pat@.len());
        }
        return false;
    }
    let mut i: usize = 0;
    while i < n
        invariant
            i <= n,
            n == pat@.len(),
            t@.len() == n,
            forall|k: int| 0 <= k < i ==> t@[k] == pat@[k],
        decreases n - i,
    {
        if t[i] != pat.get_char(i) {
            proof {
                assert(t@[i as int] != pat@[i as int]);
            }
            return false;
        }
        i = i + 1;
    }
    proof {
        assert(t@ =~= pat@);
    }
    true
}

proof fn lemma_trim_start_at(t: Seq<char>, i: int)
    requires
        0 <= i <= t.len(),
        forall|k: int| 0 <= k < i ==> is_space_char(t[k]),
        i < t.len() ==> !is_space_char(t[i]),
    ensures
        trim_start(t) == t.subrange(i, t.len() as int),
    decreases i,
{
    if i == 0 {
        assert(t.subrange(0, t.len() as int) =~= t);
    } else {
        assert(is_space_char(t.first()));
        lemma_trim_start_at(t.drop_first(), i - 1);
        assert(t.drop_first().subrange(i - 1, t.drop_first().len() as int) =~= t.subrange(
            i,
            t.len() as int,
        ));
    }
}

proof fn lemma_trim_end_at(t: Seq<char>, j: int)
    requires
        0 <= j <= t.len(),
        forall|k: int| j <= k < t.len() ==> is_space_char(t[k]),
        j > 0 ==> !is_space_char(t[j - 1]),
    ensures
        trim_end(t) == t.subrange(0, j),
    decreases t.len() - j,
{
    if j == t.len() {
        assert(t.subrange(0, t.len() as int) =~= t);
    } else {
        assert(is_space_char(t.last()));
        lemma_trim_end_at(t.drop_last(), j);
        assert(t.drop_last().subrange(0, j) =~= t.subrange(0, j));
    }
}

/// The token `t` with whitespace removed from both ends.
fn trim_token(t: &Vec<char>) -> (r: Vec<char>)
    ensures
        r@ == trim_spec(t@),
{
    let len = t.len();
    let mut start: usize = 0;
    while start < len && is_space(t[start])
        invariant
            start <= len,
            len == t@.len(),
            forall|k: int| 0 <= k < start ==> is_space_char(t@[k]),
        decreases len - start,
    {
        start = start + 1;
    }
    proof {
        lemma_trim_start_at(t@, start as int);
    }
    if start == len {
        proof {
            assert(t@.subrange(start as int, len as int) =~= Seq::<char>::empty());
        }
        return Vec::new();
    }
    let mut end: usize = len;
    while end > start && is_space(t[end - 1])
        invariant
            start <= end <= len,
            len == t@.len(),
            forall|k: int| end <= k < len ==> is_space_char(t@[k]),
        decreases end,
    {
        end = end - 1;
    }
    proof {
        let mid = t@.subrange(start as int, len as int);
        lemma_trim_end_at(mid, end - start);
        assert(mid.subrange(0, end - start) =~= t@.subrange(start as int, end as int));
    }
    let mut r: Vec<char> = Vec::new();
    let mut k: usize = start;
    while k < end
        invariant
            start <= k <= end <= len,
            len == t@.len(),
            r@ == t@.subrange(start as int, k as int),
        decreases end - k,
    {
        let c = t[k];
        r.push(c);
        proof {
            assert(r@ =~= t@.subrange(start as int, k + 1 as int));
        }
        k = k + 1;
    }
    r
}

/// The key code named by `t`, or `None` for an unrecognized key token.
fn key_code_lookup(t: &Vec<char>) -> (r: Option<KeyCode>)
    ensures
        r == key_code_of(t@),
{
    if token_matches(t, "A") {
        Some(KeyCode::KeyA)
    } else if token_matches(t, "B") {
        Some(KeyCode::KeyB)
    } else if token_matches(t, "C") {
        Some(KeyCode::KeyC)
    } else if token_matches(t, "D") {
        Some(KeyCode::KeyD)
    } else if token_matches(t, "E") {
        Some(KeyCode::KeyE)
    } else if token_matches(t, "F") {
        Some(KeyCode::KeyF)
    } else if token_matches(t, "G") {
        Some(KeyCode::KeyG)
    } else if token_matches(t, "H") {
        Some(KeyCode::KeyH)
    } else if token_matches(t, "I") {
        Some(KeyCode::KeyI)
    } else if token_matches(t, "J") {
        Some(KeyCode::KeyJ)
    } else if token_matches(t, "K") {
        Some(KeyCode::KeyK)
    } else if token_matches(t, "L") {
        Some(KeyCode::KeyL)
    } else if token_matches(t, "M") {
        Some(KeyCode::KeyM)
    } else if token_matches(t, "N") {
        Some(KeyCode::KeyN)
    } else if token_matches(t, "O") {
        Some(KeyCode::KeyO)
    } else if token_matches(t, "P") {
        Some(KeyCode::KeyP)
    } else if token_matches(t, "Q") {
        Some(KeyCode::KeyQ)
    } else if token_matches(t, "R") {
        Some(KeyCode::KeyR)
    } else if token_matches(t, "S") {
        Some(KeyCode::KeyS)
    } else if token_matches(t, "T") {
        Some(KeyCode::KeyT)
    } else if token_matches(t, "U") {
        Some(KeyCode::KeyU)
    } else if token_matches(t, "V") {
        Some(KeyCode::KeyV)
    } else if token_matches(t, "W") {
        Some(KeyCode::KeyW)
    } else if token_matches(t, "X") {
        Some(KeyCode::KeyX)
    } else if token_matches(t, "Y") {
        Some(KeyCode::KeyY)
    } else if token_matches(t, "Z") {
        Some(KeyCode::KeyZ)
    } else if token_matches(t, "0") {
        Some(KeyCode::Digit0)
    } else if token_matches(t, "1") {
        Some(KeyCode::Digit1)
    } else if token_matches(t, "2") {
        Some(KeyCode::Digit2)
    } else if token_matches(t, "3") {
        Some(KeyCode::Digit3)
    } else if token_matches(t, "4") {
        Some(KeyCode::Digit4)
    } else if token_matches(t, "5") {
        Some(KeyCode::Digit5)
    } else if token_matches(t, "6") {
        Some(KeyCode::Digit6)
    } else if token_matches(t, "7") {
        Some(KeyCode::Digit7)
    } else if token_matches(t, "8") {
        Some(KeyCode::Digit8)
    } else if token_matches(t, "9") {
        Some(KeyCode::Digit9)
    } else if token_matches(t, "F1") {
        Some(KeyCode::F1)
    } else if token_matches(t, "F2") {
        Some(KeyCode::F2)
    } else if token_matches(t, "F3") {
        Some(KeyCode::F3)
    } else if token_matches(t, "F4") {
        Some(KeyCode::F4)
    } else if token_matches(t, "F5") {
        Some(KeyCode::F5)
    } else if token_matches(t, "F6") {
        Some(KeyCode::F6)
    } else if token_matches(t, "F7") {
        Some(KeyCode::F7)
    } else if token_matches(t, "F8") {
        Some(KeyCode::F8)
    } else if token_matches(t, "F9") {
        Some(KeyCode::F9)
    } else if token_matches(t, "F10") {
        Some(KeyCode::F10)
    } else if token_matches(t, "F11") {
        Some(KeyCode::F11)
    } else if token_matches(t, "F12") {
        Some(KeyCode::F12)
    } else if token_matches(t, "ArrowUp") {
        Some(KeyCode::ArrowUp)
    } else if token_matches(t, "ArrowDown") {
        Some(KeyCode::ArrowDown)
    } else if token_matches(t, "ArrowLeft") {
        Some(KeyCode::ArrowLeft)
    } else if token_matches(t, "ArrowRight") {
        Some(KeyCode::ArrowRight)
    } else if token_matches(t, "Space") {
        Some(KeyCode::Space)
    } else if token_matches(t, "Enter") {
        Some(KeyCode::Enter)
    } else if token_matches(t, "Tab") {
        Some(KeyCode::Tab)
    } else if token_matches(t, "Escape") {
        Some(KeyCode::Escape)
    } else if token_matches(t, "Backspace") {
        Some(KeyCode::Backspace)
    } else if token_matches(t, "Delete") {
        Some(KeyCode::Delete)
    } else if token_matches(t, "Home") {
        Some(KeyCode::Home)
    } else if token_matches(t, "End") {
        Some(KeyCode::End)
    } else if token_matches(t, "PageUp") {
        Some(KeyCode::PageUp)
    } else if token_matches(t, "PageDown") {
        Some(KeyCode::PageDown)
    } else {
        None
    }
}

proof fn lemma_mods_of_extends_none(toks: Seq<Seq<char>>, i: int)
    requires
        0 <= i <= toks.len(),
        mods_of(toks.subrange(0, i)) is None,
    ensures
        mods_of(toks) is None,
    decreases toks.len() - i,
{
    if i == toks.len() {
        assert(toks.subrange(0, i) =~= toks);
    } else {
        assert(toks.subrange(0, i + 1).drop_last() =~= toks.subrange(0, i));
        lemma_mods_of_extends_none(toks, i + 1);
    }
}

/// Parses a shortcut string into a chord, or fails on any unrecognized
/// token. Total and deterministic: every input yields the same
/// `chord_of` result on every call, and no input faults.
pub fn parse(input: &str) -> (r: Option<Chord>)
    ensures
        r == chord_of(input@),
{
    let chars = to_chars(input);
    let ghost s = input@;
    // Split on '+'.
    let mut toks: Vec<Vec<char>> = Vec::new();
    let mut cur: Vec<char> = Vec::new();
    let mut i: usize = 0;
    while i < chars.len()
        invariant
            i <= chars@.len(),
            chars@ == s,
            toks@.len() + 1 == split_plus(s.subrange(0, i as int)).len(),
            forall|k: int|
                0 <= k < toks@.len() ==> toks@[k]@ == split_plus(s.subrange(0, i as int))[k],
            cur@ == split_plus(s.subrange(0, i as int)).last(),
        decreases chars@.len() - i,
    {
        let c = chars[i];
        proof {
            assert(s.subrange(0, i + 1 as int).drop_last() =~= s.subrange(0, i as int));
            assert(s.subrange(0, i + 1 as int).last() == s[i as int]);
        }
        if c == '+' {
            toks.push(cur);
            cur = Vec::new();
        } else {
            cur.push(c);
        }
        i = i + 1;
    }
    proof {
        assert(s.subrange(0, s.len() as int) =~= s);
    }
    toks.push(cur);
    // Trim every token.
    let mut trimmed: Vec<Vec<char>> = Vec::new();
    let mut j: usize = 0;
    while j < toks.len()
        invariant
            j <= toks@.len(),
            toks@.len() == split_plus(s).len(),
            forall|k: int| 0 <= k < toks@.len() ==> toks@[k]@ == split_plus(s)[k],
            trimmed@.len() == j,
            forall|k: int| 0 <= k < j ==> trimmed@[k]@ == tokens_of(s)[k],
        decreases toks@.len() - j,
    {
        let t = trim_token(&toks[j]);
        trimmed.push(t);
        j = j + 1;
    }
    proof {
        lemma_split_plus_nonempty(s);
    }
    // Fold the modifier tokens.
    let n = trimmed.len();
    let ghost toks_spec = tokens_of(s);
    assert(n == toks_spec.len() && n >= 1);
    let mut m = Modifiers::empty();
    let mut p: usize = 0;
    proof {
        assert(toks_spec.subrange(0, 0) =~= Seq::<Seq<char>>::empty());
    }
    while p < n - 1
        invariant
            p <= n - 1,
            n >= 1,
            n == trimmed@.len(),
            n == toks_spec.len(),
            forall|k: int| 0 <= k < n ==> trimmed@[k]@ == toks_spec[k],
            s == input@,
            toks_spec == tokens_of(s),
            mods_of(toks_spec.subrange(0, p as int)) == Some(m),
        decreases n - 1 - p,
    {
        let tok = &trimmed[p];
        proof {
            assert(toks_spec.subrange(0, p + 1 as int).drop_last() =~= toks_spec.subrange(
                0,
                p as int,
            ));
            assert(toks_spec.subrange(0, p + 1 as int).last() == tok@);
        }
        if token_matches(tok, "Cmd") || token_matches(tok, "Super") {
            m = Modifiers { super_key: true, alt: m.alt, control: m.control, shift: m.shift };
        } else if token_matches(tok, "Alt") {
            m = Modifiers { super_key: m.super_key, alt: true, control: m.control, shift: m.shift };
        } else if token_matches(tok, "Ctrl") {
            m = Modifiers { super_key: m.super_key, alt: m.alt, control: true, shift: m.shift };
        } else if token_matches(tok, "Shift") {
            m = Modifiers { super_key: m.super_key, alt: m.alt, control: m.control, shift: true };
        } else {
            proof {
                assert(mods_of(toks_spec.subrange(0, p + 1 as int)) is None);
                assert(toks_spec.drop_last().subrange(0, p + 1 as int) =~= toks_spec.subrange(
                    0,
                    p + 1 as int,
                ));
                lemma_mods_of_extends_none(toks_spec.drop_last(), p + 1);
            }
            return None;
        }
        p = p + 1;
    }
    proof {
        assert(toks_spec.subrange(0, n - 1 as int) =~= toks_spec.drop_last());
    }
    // The last token names the key.
    let key_tok = &trimmed[n - 1];
    proof {
        assert(key_tok@ == toks_spec.last());
    }
    match key_code_lookup(key_tok) {
        Some(k) => Some(Chord { modifiers: m, key: k }),
        None => None,
    }
}

/// Parsing is deterministic: equal inputs always yield equal results.
pub proof fn lemma_parse_deterministic(s1: Seq<char>, s2: Seq<char>)
    requires
        s1 == s2,
    ensures
        chord_of(s1) == chord_of(s2),
{
}

proof fn lemma_mods_of_bad_token(toks: Seq<Seq<char>>, i: int)
    requires
        0 <= i < toks.len(),
        !is_modifier_token(toks[i]),
    ensures
        mods_of(toks) is None,
    decreases toks.len(),
{
    if i == toks.len() - 1 {
        assert(toks.last() == toks[i]);
    } else {
        lemma_mods_of_bad_token(toks.drop_last(), i);
    }
}

/// Any token sequence holding an unrecognized modifier token, or an
/// unrecognized key token, is rejected as a whole: `parse` returns failure.
pub proof fn lemma_reject_unknown_tokens(s: Seq<char>)
    requires
        ({
            let toks = tokens_of(s);
            (exists|i: int| 0 <= i < toks.len() - 1 && !is_modifier_token(toks[i]))
                || key_code_of(toks.last()) is None
        }),
    ensures
        chord_of(s) is None,
{
    let toks = tokens_of(s);
    if exists|i: int| 0 <= i < toks.len() - 1 && !is_modifier_token(toks[i]) {
        let i = choose|i: int| 0 <= i < toks.len() - 1 && !is_modifier_token(toks[i]);
        assert(toks.drop_last()[i] == toks[i]);
        lemma_mods_of_bad_token(toks.drop_last(), i);
    }
}

} // verus!
