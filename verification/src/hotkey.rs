//! Global hotkeys written as text, such as `ctrl+alt+space`: parsing, the fallbacks
//! tried when the wanted one is taken, and what the user is told.
use vstd::prelude::*;

use crate::text::{chars_of, copy_str, lowercase, push_char, str_eq, str_trim, to_lowercase, trim, views};

verus! {

/// A key that a hotkey can end in.
#[derive(Debug, Clone, Copy, PartialEq, Eq, Structural)]
pub enum KeyCode {
    Space,
    /// A function key, `F1` to `F12`.
    F(u8),
    /// A letter key, `a` to `z`.
    Letter(char),
    /// A digit key, `0` to `9`.
    Digit(u8),
}

/// A parsed hotkey: the modifiers held and the key pressed.
#[derive(Debug, Clone, Copy, PartialEq, Eq, Structural)]
pub struct Hotkey {
    pub ctrl: bool,
    pub alt: bool,
    pub shift: bool,
    pub super_key: bool,
    pub key: KeyCode,
}

/// The state while reading the tokens of a hotkey: the modifiers seen, the last key seen.
#[derive(Debug, Clone, Copy, PartialEq, Eq, Structural)]
pub struct HotkeyState {
    pub ctrl: bool,
    pub alt: bool,
    pub shift: bool,
    pub super_key: bool,
    pub key: Option<KeyCode>,
}

/// `s` cut at every `+`, as `str::split('+')` does: one piece more than there are `+`.
pub open spec fn split_plus(s: Seq<char>) -> Seq<Seq<char>>
    decreases s.len(),
{
    if s.len() == 0 {
        seq![seq![]]
    } else {
        let r = split_plus(s.drop_last());
        if s.last() == '+' {
            r.push(seq![])
        } else {
            r.update(r.len() - 1, r.last().push(s.last()))
        }
    }
}

/// The number of a function key token, `f1` to `f12`.
pub open spec fn function_key(t: Seq<char>) -> Option<u8> {
    if t == "f1"@ {
        Some(1u8)
    } else if t == "f2"@ {
        Some(2u8)
    } else if t == "f3"@ {
        Some(3u8)
    } else if t == "f4"@ {
        Some(4u8)
    } else if t == "f5"@ {
        Some(5u8)
    } else if t == "f6"@ {
        Some(6u8)
    } else if t == "f7"@ {
        Some(7u8)
    } else if t == "f8"@ {
        Some(8u8)
    } else if t == "f9"@ {
        Some(9u8)
    } else if t == "f10"@ {
        Some(10u8)
    } else if t == "f11"@ {
        Some(11u8)
    } else if t == "f12"@ {
        Some(12u8)
    } else {
        None
    }
}

/// The key a one-character token names: a letter or a digit.
pub open spec fn char_key(c: char) -> Option<KeyCode> {
    if 'a' <= c && c <= 'z' {
        Some(KeyCode::Letter(c))
    } else if '0' <= c && c <= '9' {
        Some(KeyCode::Digit(((c as u32) - 48) as u8))
    } else {
        None
    }
}

/// The state after reading one (trimmed, lower-case) token; `None` for a token that
/// names nothing.
pub open spec fn apply_token(st: HotkeyState, t: Seq<char>) -> Option<HotkeyState> {
    if t == "ctrl"@ || t == "control"@ {
        Some(HotkeyState { ctrl: true, ..st })
    } else if t == "alt"@ {
        Some(HotkeyState { alt: true, ..st })
    } else if t == "shift"@ {
        Some(HotkeyState { shift: true, ..st })
    } else if t == "win"@ || t == "super"@ || t == "meta"@ {
        Some(HotkeyState { super_key: true, ..st })
    } else if t == "space"@ {
        Some(HotkeyState { key: Some(KeyCode::Space), ..st })
    } else if function_key(t) is Some {
        Some(HotkeyState { key: Some(KeyCode::F(function_key(t)->0)), ..st })
    } else if t.len() == 1 && char_key(t[0]) is Some {
        Some(HotkeyState { key: Some(char_key(t[0])->0), ..st })
    } else {
        None
    }
}

/// Nothing held, no key.
pub open spec fn empty_state() -> HotkeyState {
    HotkeyState { ctrl: false, alt: false, shift: false, super_key: false, key: None }
}

/// The state after reading all tokens in order, each trimmed; `None` once a token
/// names nothing.
pub open spec fn read_tokens(toks: Seq<Seq<char>>) -> Option<HotkeyState>
    decreases toks.len(),
{
    if toks.len() == 0 {
        Some(empty_state())
    } else {
        match read_tokens(toks.drop_last()) {
            Some(st) => apply_token(st, trim(toks.last())),
            None => None,
        }
    }
}

/// The hotkey a text describes, compared without regard to case: tokens separated by
/// `+`, at least one modifier and a key. A bare key is no global hotkey.
pub open spec fn hotkey_of(spec: Seq<char>) -> Option<Hotkey> {
    match read_tokens(split_plus(lowercase(spec))) {
        Some(st) => if !(st.ctrl || st.alt || st.shift || st.super_key) {
            None
        } else {
            match st.key {
                Some(k) => Some(
                    Hotkey { ctrl: st.ctrl, alt: st.alt, shift: st.shift, super_key: st.super_key, key: k },
                ),
                None => None,
            }
        },
        None => None,
    }
}

/// The pieces of `s` between `+` signs.
pub fn split_on_plus(s: &str) -> (res: Vec<String>)
    ensures
        views(res@) == split_plus(s@),
{
    let cs = chars_of(s);
    let mut res: Vec<String> = Vec::new();
    let mut cur = String::new();
    let mut i: usize = 0;
    assert(cs@.take(0) =~= Seq::<char>::empty());
    assert(views(res@).push(cur@) =~= split_plus(cs@.take(0)));
    while i < cs.len()
        invariant
            cs@ == s@,
            i <= cs.len(),
            views(res@).push(cur@) == split_plus(cs@.take(i as int)),
        decreases cs.len() - i,
    {
        assert(cs@.take(i + 1).drop_last() =~= cs@.take(i as int));
        let ghost before = views(res@).push(cur@);
        if cs[i] == '+' {
            let done = cur;
            let ghost d = done@;
            res.push(done);
            cur = String::new();
            assert(views(res@) =~= views(res@).drop_last().push(d));
            assert(views(res@).push(cur@) =~= before.push(Seq::<char>::empty()));
        } else {
            push_char(&mut cur, cs[i]);
            assert(views(res@).push(cur@) =~= before.update(
                before.len() - 1,
                before.last().push(cs@[i as int]),
            ));
        }
        i += 1;
    }
    assert(cs@.take(i as int) =~= cs@);
    let ghost r = views(res@);
    res.push(cur);
    assert(views(res@) =~= r.push(views(res@).last()));
    res
}

fn function_key_of(t: &str) -> (res: Option<u8>)
    ensures
        res == function_key(t@),
{
    if str_eq(t, "f1") {
        Some(1)
    } else if str_eq(t, "f2") {
        Some(2)
    } else if str_eq(t, "f3") {
        Some(3)
    } else if str_eq(t, "f4") {
        Some(4)
    } else if str_eq(t, "f5") {
        Some(5)
    } else if str_eq(t, "f6") {
        Some(6)
    } else if str_eq(t, "f7") {
        Some(7)
    } else if str_eq(t, "f8") {
        Some(8)
    } else if str_eq(t, "f9") {
        Some(9)
    } else if str_eq(t, "f10") {
        Some(10)
    } else if str_eq(t, "f11") {
        Some(11)
    } else if str_eq(t, "f12") {
        Some(12)
    } else {
        None
    }
}

fn char_key_of(c: char) -> (res: Option<KeyCode>)
    ensures
        res == char_key(c),
{
    if 'a' <= c && c <= 'z' {
        Some(KeyCode::Letter(c))
    } else if '0' <= c && c <= '9' {
        let d: u32 = (c as u32) - 48;
        Some(KeyCode::Digit(d as u8))
    } else {
        None
    }
}

/// The state after reading one token.
pub fn read_token(st: HotkeyState, t: &str) -> (res: Option<HotkeyState>)
    ensures
        res == apply_token(st, t@),
{
    if str_eq(t, "ctrl") || str_eq(t, "control") {
        return Some(HotkeyState { ctrl: true, ..st });
    }
    if str_eq(t, "alt") {
        return Some(HotkeyState { alt: true, ..st });
    }
    if str_eq(t, "shift") {
        return Some(HotkeyState { shift: true, ..st });
    }
    if str_eq(t, "win") || str_eq(t, "super") || str_eq(t, "meta") {
        return Some(HotkeyState { super_key: true, ..st });
    }
    if str_eq(t, "space") {
        return Some(HotkeyState { key: Some(KeyCode::Space), ..st });
    }
    match function_key_of(t) {
        Some(n) => {
            return Some(HotkeyState { key: Some(KeyCode::F(n)), ..st });
        },
        None => {},
    }
    let cs = chars_of(t);
    if cs.len() == 1 {
        match char_key_of(cs[0]) {
            Some(k) => {
                return Some(HotkeyState { key: Some(k), ..st });
            },
            None => {},
        }
    }
    None
}

proof fn lemma_read_tokens_stays_none(ts: Seq<Seq<char>>, i: int)
    requires
        0 <= i <= ts.len(),
        read_tokens(ts.take(i)) is None,
    ensures
        read_tokens(ts) is None,
    decreases ts.len(),
{
    if ts.len() == i {
        assert(ts.take(i) =~= ts);
    } else {
        assert(ts.drop_last().take(i) =~= ts.take(i));
        lemma_read_tokens_stays_none(ts.drop_last(), i);
    }
}

/// Parses a hotkey such as `ctrl+alt+space`, without regard to case or to whitespace
/// around the tokens. `None` for an unknown token, a missing key, or no modifier.
pub fn parse_hotkey(spec: &str) -> (res: Option<Hotkey>)
    ensures
        res == hotkey_of(spec@),
{
    let lower = to_lowercase(spec);
    let toks = split_on_plus(lower.as_str());
    let ghost ts = views(toks@);
    let mut st = HotkeyState { ctrl: false, alt: false, shift: false, super_key: false, key: None };
    let mut i: usize = 0;
    assert(ts.take(0) =~= Seq::<Seq<char>>::empty());
    while i < toks.len()
        invariant
            i <= toks.len(),
            ts == views(toks@),
            ts == split_plus(lowercase(spec@)),
            read_tokens(ts.take(i as int)) == Some(st),
        decreases toks.len() - i,
    {
        assert(ts.take(i + 1).drop_last() =~= ts.take(i as int));
        assert(ts.take(i + 1).last() == toks@[i as int]@);
        let t = str_trim(toks[i].as_str());
        assert(read_tokens(ts.take(i + 1)) == apply_token(st, t@));
        match read_token(st, t.as_str()) {
            Some(next) => {
                st = next;
            },
            None => {
                proof {
                    lemma_read_tokens_stays_none(ts, i + 1);
                }
                return None;
            },
        }
        i += 1;
    }
    assert(ts.take(i as int) =~= ts);
    if !(st.ctrl || st.alt || st.shift || st.super_key) {
        return None;
    }
    match st.key {
        Some(k) => Some(Hotkey { ctrl: st.ctrl, alt: st.alt, shift: st.shift, super_key: st.super_key, key: k }),
        None => None,
    }
}

/// The hotkeys tried in turn: the wanted one, then the fallbacks that differ from it.
pub open spec fn hotkey_candidates(spec: Seq<char>) -> Seq<Seq<char>> {
    seq![spec] + (if spec != "ctrl+alt+space"@ { seq!["ctrl+alt+space"@] } else { seq![] })
        + (if spec != "ctrl+shift+space"@ { seq!["ctrl+shift+space"@] } else { seq![] })
        + (if spec != "ctrl+alt+c"@ { seq!["ctrl+alt+c"@] } else { seq![] })
        + (if spec != "alt+shift+c"@ { seq!["alt+shift+c"@] } else { seq![] })
}

/// The hotkeys tried in turn: the wanted one, then the fallbacks that differ from it.
pub fn candidate_hotkeys(spec: &str) -> (res: Vec<String>)
    ensures
        views(res@) == hotkey_candidates(spec@),
{
    let mut v: Vec<String> = Vec::new();
    v.push(copy_str(spec));
    let ghost s0 = views(v@);
    assert(s0 =~= seq![spec@]);
    if !str_eq(spec, "ctrl+alt+space") {
        v.push(copy_str("ctrl+alt+space"));
    }
    let ghost s1 = views(v@);
    assert(s1 =~= s0 + (if spec@ != "ctrl+alt+space"@ { seq!["ctrl+alt+space"@] } else { seq![] }));
    if !str_eq(spec, "ctrl+shift+space") {
        v.push(copy_str("ctrl+shift+space"));
    }
    let ghost s2 = views(v@);
    assert(s2 =~= s1 + (if spec@ != "ctrl+shift+space"@ { seq!["ctrl+shift+space"@] } else { seq![] }));
    if !str_eq(spec, "ctrl+alt+c") {
        v.push(copy_str("ctrl+alt+c"));
    }
    let ghost s3 = views(v@);
    assert(s3 =~= s2 + (if spec@ != "ctrl+alt+c"@ { seq!["ctrl+alt+c"@] } else { seq![] }));
    if !str_eq(spec, "alt+shift+c") {
        v.push(copy_str("alt+shift+c"));
    }
    assert(views(v@) =~= s3 + (if spec@ != "alt+shift+c"@ { seq!["alt+shift+c"@] } else { seq![] }));
    v
}

/// The message given when a fallback was registered in place of the wanted hotkey.
pub open spec fn fallback_message(spec: Seq<char>, used: Seq<char>) -> Seq<char> {
    "Хоткей «"@ + spec + "» занят или некорректен — используется «"@ + used + "»"@
}

/// The outcome of registering a hotkey, given which candidate, if any, was registered:
/// nothing to say for the wanted one, a warning for a fallback, an error for none.
pub fn hotkey_outcome(spec: &str, registered: Option<&str>) -> (res: Result<Option<String>, String>)
    ensures
        match registered {
            None => res matches Err(e) && e@ == "Не удалось зарегистрировать ни один хоткей — используйте трей."@,
            Some(used) => if used@ == spec@ {
                res matches Ok(None)
            } else {
                res matches Ok(Some(m)) && m@ == fallback_message(spec@, used@)
            },
        },
{
    match registered {
        None => Err(copy_str("Не удалось зарегистрировать ни один хоткей — используйте трей.")),
        Some(used) => {
            if str_eq(used, spec) {
                Ok(None)
            } else {
                let mut m = copy_str("Хоткей «");
                m.append(spec);
                m.append("» занят или некорректен — используется «");
                m.append(used);
                m.append("»");
                Ok(Some(m))
            }
        },
    }
}

} // verus!
