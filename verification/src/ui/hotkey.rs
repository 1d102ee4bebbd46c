//! Parsing of hotkey settings such as `Ctrl+Alt+W` into Windows modifier
//! flags and virtual-key codes.

use vstd::prelude::*;

use crate::text::{
    ascii_lower, ascii_lower_exec, ascii_upper, ascii_upper_exec, chars_eq, chars_of, is_ascii_alnum,
    is_ws, lead_ws, parse_u32, parse_u32_spec, split_chars, split_spec, trail_ws, trim_chars, trim_spec,
};

verus! {

/// Modifier flag of the Alt key (`MOD_ALT`).
pub const MOD_ALT: u32 = 0x1;
/// Modifier flag of the Control key (`MOD_CONTROL`).
pub const MOD_CONTROL: u32 = 0x2;
/// Modifier flag of the Shift key (`MOD_SHIFT`).
pub const MOD_SHIFT: u32 = 0x4;

/// Windows virtual-key codes used by hotkey settings.
pub const VK_BACK: u32 = 0x08;
pub const VK_TAB: u32 = 0x09;
pub const VK_RETURN: u32 = 0x0D;
pub const VK_ESCAPE: u32 = 0x1B;
pub const VK_SPACE: u32 = 0x20;
pub const VK_PRIOR: u32 = 0x21;
pub const VK_NEXT: u32 = 0x22;
pub const VK_END: u32 = 0x23;
pub const VK_HOME: u32 = 0x24;
pub const VK_LEFT: u32 = 0x25;
pub const VK_UP: u32 = 0x26;
pub const VK_RIGHT: u32 = 0x27;
pub const VK_DOWN: u32 = 0x28;
pub const VK_INSERT: u32 = 0x2D;
pub const VK_DELETE: u32 = 0x2E;
pub const VK_F1: u32 = 0x70;
pub const VK_OEM_1: u32 = 0xBA;
pub const VK_OEM_PLUS: u32 = 0xBB;
pub const VK_OEM_COMMA: u32 = 0xBC;
pub const VK_OEM_MINUS: u32 = 0xBD;
pub const VK_OEM_PERIOD: u32 = 0xBE;
pub const VK_OEM_2: u32 = 0xBF;
pub const VK_OEM_3: u32 = 0xC0;
pub const VK_OEM_4: u32 = 0xDB;
pub const VK_OEM_5: u32 = 0xDC;
pub const VK_OEM_6: u32 = 0xDD;
pub const VK_OEM_7: u32 = 0xDE;

/// A key name as it is matched: trimmed, ASCII upper-cased, spaces removed.
pub open spec fn normalized_key(raw: Seq<char>) -> Seq<char> {
    trim_spec(raw).map_values(|c: char| ascii_upper(c)).filter(|c: char| c != ' ')
}

/// The code of a one-character key name.
pub open spec fn single_key_code(ch: char, fallback: u32) -> u32 {
    if is_ascii_alnum(ch) {
        ch as u32
    } else if ch == ' ' {
        VK_SPACE
    } else if ch == '-' {
        VK_OEM_MINUS
    } else if ch == '=' || ch == '+' {
        VK_OEM_PLUS
    } else if ch == ',' {
        VK_OEM_COMMA
    } else if ch == '.' {
        VK_OEM_PERIOD
    } else if ch == '/' {
        VK_OEM_2
    } else if ch == ';' {
        VK_OEM_1
    } else if ch == '\'' {
        VK_OEM_7
    } else if ch == '[' {
        VK_OEM_4
    } else if ch == ']' {
        VK_OEM_6
    } else if ch == '\\' {
        VK_OEM_5
    } else if ch == '`' {
        VK_OEM_3
    } else {
        fallback
    }
}

/// The code of a named key such as `ESC` or `PAGEUP`.
pub open spec fn named_key_code(key: Seq<char>, fallback: u32) -> u32 {
    if key == "SPACE"@ || key == "SPACEBAR"@ {
        VK_SPACE
    } else if key == "ENTER"@ || key == "RETURN"@ {
        VK_RETURN
    } else if key == "ESC"@ || key == "ESCAPE"@ {
        VK_ESCAPE
    } else if key == "TAB"@ {
        VK_TAB
    } else if key == "BACKSPACE"@ || key == "BKSP"@ {
        VK_BACK
    } else if key == "DELETE"@ || key == "DEL"@ {
        VK_DELETE
    } else if key == "INSERT"@ || key == "INS"@ {
        VK_INSERT
    } else if key == "HOME"@ {
        VK_HOME
    } else if key == "END"@ {
        VK_END
    } else if key == "PAGEUP"@ || key == "PGUP"@ {
        VK_PRIOR
    } else if key == "PAGEDOWN"@ || key == "PGDN"@ {
        VK_NEXT
    } else if key == "UP"@ || key == "ARROWUP"@ {
        VK_UP
    } else if key == "DOWN"@ || key == "ARROWDOWN"@ {
        VK_DOWN
    } else if key == "LEFT"@ || key == "ARROWLEFT"@ {
        VK_LEFT
    } else if key == "RIGHT"@ || key == "ARROWRIGHT"@ {
        VK_RIGHT
    } else {
        fallback
    }
}

/// The virtual-key code of a key name: a letter, digit or punctuation mark,
/// `F1` to `F24`, or a named key; `fallback` for anything else.
pub open spec fn vkey_code(raw: Seq<char>, fallback: u32) -> u32 {
    let key = normalized_key(raw);
    if key.len() == 0 {
        fallback
    } else if key.len() == 1 {
        single_key_code(key[0], fallback)
    } else if key[0] == 'F' && parse_u32_spec(key.drop_first()) is Some && 1 <= parse_u32_spec(
        key.drop_first(),
    )->0 <= 24 {
        (VK_F1 + parse_u32_spec(key.drop_first())->0 - 1) as u32
    } else {
        named_key_code(key, fallback)
    }
}

fn normalize_key(raw: &str) -> (r: Vec<char>)
    ensures
        r@ == normalized_key(raw@),
{
    let cs = chars_of(raw);
    let t = trim_chars(cs.as_slice());
    let ghost up = t@.map_values(|c: char| ascii_upper(c));
    let mut out: Vec<char> = Vec::new();
    let mut i: usize = 0;
    while i < t.len()
        invariant
            i <= t.len(),
            up == t@.map_values(|c: char| ascii_upper(c)),
            out@ == up.take(i as int).filter(|c: char| c != ' '),
        decreases t.len() - i,
    {
        let u = ascii_upper_exec(t[i]);
        proof {
            reveal_with_fuel(Seq::filter, 1);
            assert(up.take(i + 1).drop_last() =~= up.take(i as int));
            assert(up.take(i + 1).last() == u);
        }
        if u != ' ' {
            out.push(u);
        }
        i = i + 1;
    }
    assert(up.take(t.len() as int) =~= up);
    out
}

fn single_key_exec(ch: char, fallback: u32) -> (r: u32)
    ensures
        r == single_key_code(ch, fallback),
{
    if ('0' <= ch && ch <= '9') || ('A' <= ch && ch <= 'Z') || ('a' <= ch && ch <= 'z') {
        ch as u32
    } else if ch == ' ' {
        VK_SPACE
    } else if ch == '-' {
        VK_OEM_MINUS
    } else if ch == '=' || ch == '+' {
        VK_OEM_PLUS
    } else if ch == ',' {
        VK_OEM_COMMA
    } else if ch == '.' {
        VK_OEM_PERIOD
    } else if ch == '/' {
        VK_OEM_2
    } else if ch == ';' {
        VK_OEM_1
    } else if ch == '\'' {
        VK_OEM_7
    } else if ch == '[' {
        VK_OEM_4
    } else if ch == ']' {
        VK_OEM_6
    } else if ch == '\\' {
        VK_OEM_5
    } else if ch == '`' {
        VK_OEM_3
    } else {
        fallback
    }
}

fn named_key_exec(key: &[char], fallback: u32) -> (r: u32)
    ensures
        r == named_key_code(key@, fallback),
{
    if chars_eq(key, "SPACE") || chars_eq(key, "SPACEBAR") {
        VK_SPACE
    } else if chars_eq(key, "ENTER") || chars_eq(key, "RETURN") {
        VK_RETURN
    } else if chars_eq(key, "ESC") || chars_eq(key, "ESCAPE") {
        VK_ESCAPE
    } else if chars_eq(key, "TAB") {
        VK_TAB
    } else if chars_eq(key, "BACKSPACE") || chars_eq(key, "BKSP") {
        VK_BACK
    } else if chars_eq(key, "DELETE") || chars_eq(key, "DEL") {
        VK_DELETE
    } else if chars_eq(key, "INSERT") || chars_eq(key, "INS") {
        VK_INSERT
    } else if chars_eq(key, "HOME") {
        VK_HOME
    } else if chars_eq(key, "END") {
        VK_END
    } else if chars_eq(key, "PAGEUP") || chars_eq(key, "PGUP") {
        VK_PRIOR
    } else if chars_eq(key, "PAGEDOWN") || chars_eq(key, "PGDN") {
        VK_NEXT
    } else if chars_eq(key, "UP") || chars_eq(key, "ARROWUP") {
        VK_UP
    } else if chars_eq(key, "DOWN") || chars_eq(key, "ARROWDOWN") {
        VK_DOWN
    } else if chars_eq(key, "LEFT") || chars_eq(key, "ARROWLEFT") {
        VK_LEFT
    } else if chars_eq(key, "RIGHT") || chars_eq(key, "ARROWRIGHT") {
        VK_RIGHT
    } else {
        fallback
    }
}

/// Executable [`vkey_code`].
pub fn parse_windows_vkey(raw_key: &str, fallback: u32) -> (r: u32)
    ensures
        r == vkey_code(raw_key@, fallback),
{
    let key = normalize_key(raw_key);
    if key.len() == 0 {
        return fallback;
    }
    if key.len() == 1 {
        return single_key_exec(key[0], fallback);
    }
    if key[0] == 'F' {
        let mut rest: Vec<char> = Vec::new();
        let mut i: usize = 1;
        while i < key.len()
            invariant
                1 <= i <= key.len(),
                rest@ == key@.subrange(1, i as int),
            decreases key.len() - i,
        {
            rest.push(key[i]);
            i = i + 1;
        }
        assert(rest@ =~= key@.drop_first());
        match parse_u32(rest.as_slice()) {
            Some(num) => {
                if 1 <= num && num <= 24 {
                    return VK_F1 + num - 1;
                }
            },
            None => {},
        }
    }
    named_key_exec(key.as_slice(), fallback)
}

/// The non-empty trimmed pieces of a hotkey setting between `+` signs.
pub open spec fn hotkey_parts(s: Seq<char>) -> Seq<Seq<char>> {
    split_spec(s, '+').map_values(|p: Seq<char>| trim_spec(p)).filter(|p: Seq<char>| p.len() > 0)
}

/// `p` with ASCII letters lower-cased.
pub open spec fn lower_all(p: Seq<char>) -> Seq<char> {
    p.map_values(|c: char| ascii_lower(c))
}

/// Whether one of the first `n` parts names the modifier called `a` or `b`.
pub open spec fn names_modifier(parts: Seq<Seq<char>>, n: int, a: Seq<char>, b: Seq<char>) -> bool {
    exists|i: int| 0 <= i < n && (lower_all(#[trigger] parts[i]) == a || lower_all(parts[i]) == b)
}

/// The modifier flags named before the last part: `ctrl`/`control`,
/// `shift` and `alt` in any letter case; other words are ignored.
pub open spec fn hotkey_mods(parts: Seq<Seq<char>>) -> u32 {
    let n = if parts.len() > 0 {
        parts.len() - 1
    } else {
        0
    };
    ((if names_modifier(parts, n, "ctrl"@, "control"@) {
        MOD_CONTROL
    } else {
        0
    }) + (if names_modifier(parts, n, "shift"@, "shift"@) {
        MOD_SHIFT
    } else {
        0
    }) + (if names_modifier(parts, n, "alt"@, "alt"@) {
        MOD_ALT
    } else {
        0
    })) as u32
}

/// The `(modifiers, key)` of a hotkey setting: the last part is the key
/// (`default_key` when there are no parts), parsed with `default_key` as
/// the fallback code.
pub open spec fn hotkey_of(s: Seq<char>, default_key: char) -> (u32, u32) {
    let parts = hotkey_parts(s);
    let key = if parts.len() > 0 {
        parts.last()
    } else {
        seq![default_key]
    };
    (hotkey_mods(parts), vkey_code(key, default_key as u32))
}

fn lower_eq(p: &[char], lit: &str) -> (r: bool)
    ensures
        r == (lower_all(p@) == lit@),
{
    let mut l: Vec<char> = Vec::new();
    let mut i: usize = 0;
    while i < p.len()
        invariant
            i <= p.len(),
            l@ == lower_all(p@.take(i as int)),
        decreases p.len() - i,
    {
        l.push(ascii_lower_exec(p[i]));
        i = i + 1;
        assert(lower_all(p@.take(i as int)) =~= lower_all(p@.take(i - 1)).push(ascii_lower(p@[i - 1])));
    }
    assert(p@.take(p.len() as int) =~= p@);
    chars_eq(l.as_slice(), lit)
}

fn hotkey_parts_exec(s: &str) -> (r: Vec<Vec<char>>)
    ensures
        r@.map_values(|p: Vec<char>| p@) == hotkey_parts(s@),
{
    let cs = chars_of(s);
    let pieces = split_chars(cs.as_slice(), '+');
    let ghost sp = split_spec(s@, '+');
    let ghost tr = sp.map_values(|p: Seq<char>| trim_spec(p));
    let mut out: Vec<Vec<char>> = Vec::new();
    let mut i: usize = 0;
    assert(pieces@.map_values(|p: Vec<char>| p@).len() == pieces@.len());
    while i < pieces.len()
        invariant
            i <= pieces.len(),
            sp == split_spec(s@, '+'),
            pieces@.map_values(|p: Vec<char>| p@) == sp,
            pieces@.len() == sp.len(),
            tr == sp.map_values(|p: Seq<char>| trim_spec(p)),
            out@.map_values(|p: Vec<char>| p@) == tr.take(i as int).filter(|p: Seq<char>| p.len() > 0),
        decreases pieces.len() - i,
    {
        let t = trim_chars(pieces[i].as_slice());
        let ghost before = out@.map_values(|p: Vec<char>| p@);
        proof {
            reveal_with_fuel(Seq::filter, 1);
            assert(tr.take(i + 1).drop_last() =~= tr.take(i as int));
            assert(sp[i as int] == pieces@[i as int]@);
            assert(tr.take(i + 1).last() == t@);
        }
        if t.len() > 0 {
            out.push(t);
            assert(out@.map_values(|p: Vec<char>| p@) =~= before.push(tr[i as int]));
        }
        i = i + 1;
    }
    assert(tr.take(pieces.len() as int) =~= tr);
    out
}

fn parse_hotkey(s: &str, default_key: char) -> (r: (u32, u32))
    requires
        'A' <= default_key <= 'Z',
    ensures
        r == hotkey_of(s@, default_key),
{
    let parts = hotkey_parts_exec(s);
    let ghost pv = parts@.map_values(|p: Vec<char>| p@);
    let n: usize = if parts.len() > 0 {
        parts.len() - 1
    } else {
        0
    };
    let mut ctrl = false;
    let mut shift = false;
    let mut alt = false;
    let mut i: usize = 0;
    while i < n
        invariant
            i <= n,
            n <= parts.len(),
            pv == parts@.map_values(|p: Vec<char>| p@),
            ctrl == names_modifier(pv, i as int, "ctrl"@, "control"@),
            shift == names_modifier(pv, i as int, "shift"@, "shift"@),
            alt == names_modifier(pv, i as int, "alt"@, "alt"@),
        decreases n - i,
    {
        let p = parts[i].as_slice();
        assert(pv[i as int] == p@);
        if lower_eq(p, "ctrl") || lower_eq(p, "control") {
            ctrl = true;
        }
        if lower_eq(p, "shift") {
            shift = true;
        }
        if lower_eq(p, "alt") {
            alt = true;
        }
        i = i + 1;
    }
    let mods: u32 = (if ctrl {
        MOD_CONTROL
    } else {
        0
    }) + (if shift {
        MOD_SHIFT
    } else {
        0
    }) + (if alt {
        MOD_ALT
    } else {
        0
    });
    let mut key: Vec<char> = Vec::new();
    if parts.len() > 0 {
        let last = parts[parts.len() - 1].as_slice();
        let mut k: usize = 0;
        while k < last.len()
            invariant
                k <= last.len(),
                key@ == last@.take(k as int),
            decreases last.len() - k,
        {
            key.push(last[k]);
            k = k + 1;
            assert(last@.take(k as int) =~= last@.take(k - 1).push(last@[k - 1]));
        }
        assert(last@.take(last.len() as int) =~= last@);
        assert(pv.last() == last@);
    } else {
        key.push(default_key);
    }
    let key_str = crate::text::string_of(key.as_slice());
    let code = parse_windows_vkey(key_str.as_str(), default_key as u32);
    (mods, code)
}

/// The `(MOD_* flags, virtual key)` of a global hotkey setting such as
/// `Ctrl+Shift+W`; the key defaults to `W`.
pub fn parse_global_hotkey(s: &str) -> (r: (u32, u32))
    ensures
        r == hotkey_of(s@, 'W'),
{
    parse_hotkey(s, 'W')
}

/// The `(modifier bits, virtual key)` of a push-to-talk hotkey setting such
/// as `Ctrl+Alt+L` (bit 0 Alt, bit 1 Ctrl, bit 2 Shift); the key defaults to `L`.
pub fn parse_ptt_hotkey(s: &str) -> (r: (u32, u32))
    ensures
        r == hotkey_of(s@, 'L'),
{
    parse_hotkey(s, 'L')
}

/// `c` is an ASCII letter.
pub open spec fn is_ascii_letter(c: char) -> bool {
    ('A' <= c && c <= 'Z') || ('a' <= c && c <= 'z')
}

/// Keeping what satisfies a predicate that everything satisfies keeps all.
proof fn lemma_filter_keeps_all(s: Seq<char>, pred: spec_fn(char) -> bool)
    requires
        forall|k: int| 0 <= k < s.len() ==> pred(#[trigger] s[k]),
    ensures
        s.filter(pred) == s,
    decreases s.len(),
{
    reveal_with_fuel(Seq::filter, 1);
    if s.len() > 0 {
        let init = s.drop_last();
        assert forall|k: int| 0 <= k < init.len() implies pred(#[trigger] init[k]) by {
            assert(init[k] == s[k]);
        }
        lemma_filter_keeps_all(init, pred);
        assert(pred(s[s.len() - 1]));
        assert(init.push(s.last()) =~= s);
    }
}

/// A key name made of ASCII letters is matched in upper case, as it is.
proof fn lemma_normalized_letters(s: Seq<char>)
    requires
        forall|k: int| 0 <= k < s.len() ==> is_ascii_letter(#[trigger] s[k]),
    ensures
        normalized_key(s) == s.map_values(|c: char| ascii_upper(c)),
{
    if s.len() > 0 {
        assert(!is_ws(s[0]));
        assert(!is_ws(s.last()));
    }
    assert(lead_ws(s) == 0);
    assert(s.skip(0) =~= s);
    assert(trail_ws(s) == 0);
    assert(s.take(s.len() as int) =~= s);
    assert(trim_spec(s) == s);
    let up = s.map_values(|c: char| ascii_upper(c));
    assert forall|k: int| 0 <= k < up.len() implies (|c: char| c != ' ')(#[trigger] up[k]) by {
        assert(up[k] == ascii_upper(s[k]));
    }
    lemma_filter_keeps_all(up, |c: char| c != ' ');
}

/// An upper-case name of two or more letters that does not begin with `F`
/// is looked up in the table of named keys.
proof fn lemma_named_lookup(s: Seq<char>, fallback: u32)
    requires
        s.len() >= 2,
        forall|k: int| 0 <= k < s.len() ==> 'A' <= #[trigger] s[k] && s[k] <= 'Z',
        s[0] != 'F',
    ensures
        vkey_code(s, fallback) == named_key_code(s, fallback),
{
    assert forall|k: int| 0 <= k < s.len() implies is_ascii_letter(#[trigger] s[k]) by {}
    lemma_normalized_letters(s);
    assert(s.map_values(|c: char| ascii_upper(c)) =~= s);
}

/// The key name `name` gives `code`, whatever the fallback.
proof fn lemma_named_key(name: Seq<char>, code: u32, f: u32)
    requires
        name.len() >= 2,
        forall|k: int| 0 <= k < name.len() ==> 'A' <= #[trigger] name[k] && name[k] <= 'Z',
        name[0] != 'F',
        named_key_code(name, f) == code,
    ensures
        vkey_code(name, f) == code,
{
    lemma_named_lookup(name, f);
}

/// Key names made of letters are matched whatever their case: a name and
/// its upper-case form give the same code.
pub proof fn law_key_names_ignore_case(s: Seq<char>, f: u32)
    requires
        forall|k: int| 0 <= k < s.len() ==> is_ascii_letter(#[trigger] s[k]),
    ensures
        vkey_code(s, f) == vkey_code(s.map_values(|c: char| ascii_upper(c)), f),
{
    let up = s.map_values(|c: char| ascii_upper(c));
    assert forall|k: int| 0 <= k < up.len() implies is_ascii_letter(#[trigger] up[k]) by {
        assert(up[k] == ascii_upper(s[k]));
    }
    lemma_normalized_letters(s);
    lemma_normalized_letters(up);
    assert(up.map_values(|c: char| ascii_upper(c)) =~= up);
}

/// The key names `SPACE` and `SPACEBAR` give `VK_SPACE`, whatever the fallback.
pub proof fn law_named_key_space(f: u32)
    ensures
        vkey_code("SPACE"@, f) == VK_SPACE,
        vkey_code("SPACEBAR"@, f) == VK_SPACE,
{
    reveal_strlit("SPACE");
    reveal_strlit("SPACEBAR");
    assert("SPACE"@.len() == 5);
    assert("SPACEBAR"@.len() == 8);
    lemma_named_key("SPACE"@, VK_SPACE, f);
    lemma_named_key("SPACEBAR"@, VK_SPACE, f);
}

/// The key names `ENTER` and `RETURN` give `VK_RETURN`, whatever the fallback.
pub proof fn law_named_key_enter(f: u32)
    ensures
        vkey_code("ENTER"@, f) == VK_RETURN,
        vkey_code("RETURN"@, f) == VK_RETURN,
{
    reveal_strlit("SPACE");
    reveal_strlit("SPACEBAR");
    reveal_strlit("ENTER");
    reveal_strlit("RETURN");
    assert("SPACE"@.len() == 5);
    assert("SPACEBAR"@.len() == 8);
    assert("ENTER"@.len() == 5);
    assert("RETURN"@.len() == 6);
    assert("ENTER"@[0] != "SPACE"@[0]);
    lemma_named_key("ENTER"@, VK_RETURN, f);
    lemma_named_key("RETURN"@, VK_RETURN, f);
}

/// The key names `ESC` and `ESCAPE` give `VK_ESCAPE`, whatever the fallback.
pub proof fn law_named_key_escape(f: u32)
    ensures
        vkey_code("ESC"@, f) == VK_ESCAPE,
        vkey_code("ESCAPE"@, f) == VK_ESCAPE,
{
    reveal_strlit("SPACE");
    reveal_strlit("SPACEBAR");
    reveal_strlit("ENTER");
    reveal_strlit("RETURN");
    reveal_strlit("ESC");
    reveal_strlit("ESCAPE");
    assert("SPACE"@.len() == 5);
    assert("SPACEBAR"@.len() == 8);
    assert("ENTER"@.len() == 5);
    assert("RETURN"@.len() == 6);
    assert("ESC"@.len() == 3);
    assert("ESCAPE"@.len() == 6);
    lemma_named_key("ESC"@, VK_ESCAPE, f);
    assert("ESCAPE"@[0] != "RETURN"@[0]);
    lemma_named_key("ESCAPE"@, VK_ESCAPE, f);
}

/// The key name `TAB` gives `VK_TAB`, whatever the fallback.
pub proof fn law_named_key_tab(f: u32)
    ensures
        vkey_code("TAB"@, f) == VK_TAB,
{
    reveal_strlit("SPACE");
    reveal_strlit("SPACEBAR");
    reveal_strlit("ENTER");
    reveal_strlit("RETURN");
    reveal_strlit("ESC");
    reveal_strlit("ESCAPE");
    reveal_strlit("TAB");
    assert("SPACE"@.len() == 5);
    assert("SPACEBAR"@.len() == 8);
    assert("ENTER"@.len() == 5);
    assert("RETURN"@.len() == 6);
    assert("ESC"@.len() == 3);
    assert("ESCAPE"@.len() == 6);
    assert("TAB"@.len() == 3);
    assert("TAB"@[0] != "ESC"@[0]);
    lemma_named_key("TAB"@, VK_TAB, f);
}

/// The key names `BACKSPACE` and `BKSP` give `VK_BACK`, whatever the fallback.
pub proof fn law_named_key_backspace(f: u32)
    ensures
        vkey_code("BACKSPACE"@, f) == VK_BACK,
        vkey_code("BKSP"@, f) == VK_BACK,
{
    reveal_strlit("SPACE");
    reveal_strlit("SPACEBAR");
    reveal_strlit("ENTER");
    reveal_strlit("RETURN");
    reveal_strlit("ESC");
    reveal_strlit("ESCAPE");
    reveal_strlit("TAB");
    reveal_strlit("BACKSPACE");
    reveal_strlit("BKSP");
    assert("SPACE"@.len() == 5);
    assert("SPACEBAR"@.len() == 8);
    assert("ENTER"@.len() == 5);
    assert("RETURN"@.len() == 6);
    assert("ESC"@.len() == 3);
    assert("ESCAPE"@.len() == 6);
    assert("TAB"@.len() == 3);
    assert("BACKSPACE"@.len() == 9);
    assert("BKSP"@.len() == 4);
    lemma_named_key("BACKSPACE"@, VK_BACK, f);
    lemma_named_key("BKSP"@, VK_BACK, f);
}

/// The key names `DELETE` and `DEL` give `VK_DELETE`, whatever the fallback.
pub proof fn law_named_key_delete(f: u32)
    ensures
        vkey_code("DELETE"@, f) == VK_DELETE,
        vkey_code("DEL"@, f) == VK_DELETE,
{
    reveal_strlit("SPACE");
    reveal_strlit("SPACEBAR");
    reveal_strlit("ENTER");
    reveal_strlit("RETURN");
    reveal_strlit("ESC");
    reveal_strlit("ESCAPE");
    reveal_strlit("TAB");
    reveal_strlit("BACKSPACE");
    reveal_strlit("BKSP");
    reveal_strlit("DELETE");
    reveal_strlit("DEL");
    assert("SPACE"@.len() == 5);
    assert("SPACEBAR"@.len() == 8);
    assert("ENTER"@.len() == 5);
    assert("RETURN"@.len() == 6);
    assert("ESC"@.len() == 3);
    assert("ESCAPE"@.len() == 6);
    assert("TAB"@.len() == 3);
    assert("BACKSPACE"@.len() == 9);
    assert("BKSP"@.len() == 4);
    assert("DELETE"@.len() == 6);
    assert("DEL"@.len() == 3);
    assert("DELETE"@[0] != "RETURN"@[0]);
    assert("DELETE"@[0] != "ESCAPE"@[0]);
    lemma_named_key("DELETE"@, VK_DELETE, f);
    assert("DEL"@[0] != "ESC"@[0]);
    assert("DEL"@[0] != "TAB"@[0]);
    lemma_named_key("DEL"@, VK_DELETE, f);
}

/// The key names `INSERT` and `INS` give `VK_INSERT`, whatever the fallback.
pub proof fn law_named_key_insert(f: u32)
    ensures
        vkey_code("INSERT"@, f) == VK_INSERT,
        vkey_code("INS"@, f) == VK_INSERT,
{
    reveal_strlit("SPACE");
    reveal_strlit("SPACEBAR");
    reveal_strlit("ENTER");
    reveal_strlit("RETURN");
    reveal_strlit("ESC");
    reveal_strlit("ESCAPE");
    reveal_strlit("TAB");
    reveal_strlit("BACKSPACE");
    reveal_strlit("BKSP");
    reveal_strlit("DELETE");
    reveal_strlit("DEL");
    reveal_strlit("INSERT");
    reveal_strlit("INS");
    assert("SPACE"@.len() == 5);
    assert("SPACEBAR"@.len() == 8);
    assert("ENTER"@.len() == 5);
    assert("RETURN"@.len() == 6);
    assert("ESC"@.len() == 3);
    assert("ESCAPE"@.len() == 6);
    assert("TAB"@.len() == 3);
    assert("BACKSPACE"@.len() == 9);
    assert("BKSP"@.len() == 4);
    assert("DELETE"@.len() == 6);
    assert("DEL"@.len() == 3);
    assert("INSERT"@.len() == 6);
    assert("INS"@.len() == 3);
    assert("INSERT"@[0] != "RETURN"@[0]);
    assert("INSERT"@[0] != "ESCAPE"@[0]);
    assert("INSERT"@[0] != "DELETE"@[0]);
    lemma_named_key("INSERT"@, VK_INSERT, f);
    assert("INS"@[0] != "ESC"@[0]);
    assert("INS"@[0] != "TAB"@[0]);
    assert("INS"@[0] != "DEL"@[0]);
    lemma_named_key("INS"@, VK_INSERT, f);
}

/// The key name `HOME` gives `VK_HOME`, whatever the fallback.
pub proof fn law_named_key_home(f: u32)
    ensures
        vkey_code("HOME"@, f) == VK_HOME,
{
    reveal_strlit("SPACE");
    reveal_strlit("SPACEBAR");
    reveal_strlit("ENTER");
    reveal_strlit("RETURN");
    reveal_strlit("ESC");
    reveal_strlit("ESCAPE");
    reveal_strlit("TAB");
    reveal_strlit("BACKSPACE");
    reveal_strlit("BKSP");
    reveal_strlit("DELETE");
    reveal_strlit("DEL");
    reveal_strlit("INSERT");
    reveal_strlit("INS");
    reveal_strlit("HOME");
    assert("SPACE"@.len() == 5);
    assert("SPACEBAR"@.len() == 8);
    assert("ENTER"@.len() == 5);
    assert("RETURN"@.len() == 6);
    assert("ESC"@.len() == 3);
    assert("ESCAPE"@.len() == 6);
    assert("TAB"@.len() == 3);
    assert("BACKSPACE"@.len() == 9);
    assert("BKSP"@.len() == 4);
    assert("DELETE"@.len() == 6);
    assert("DEL"@.len() == 3);
    assert("INSERT"@.len() == 6);
    assert("INS"@.len() == 3);
    assert("HOME"@.len() == 4);
    assert("HOME"@[0] != "BKSP"@[0]);
    lemma_named_key("HOME"@, VK_HOME, f);
}

/// The key name `END` gives `VK_END`, whatever the fallback.
pub proof fn law_named_key_end(f: u32)
    ensures
        vkey_code("END"@, f) == VK_END,
{
    reveal_strlit("SPACE");
    reveal_strlit("SPACEBAR");
    reveal_strlit("ENTER");
    reveal_strlit("RETURN");
    reveal_strlit("ESC");
    reveal_strlit("ESCAPE");
    reveal_strlit("TAB");
    reveal_strlit("BACKSPACE");
    reveal_strlit("BKSP");
    reveal_strlit("DELETE");
    reveal_strlit("DEL");
    reveal_strlit("INSERT");
    reveal_strlit("INS");
    reveal_strlit("HOME");
    reveal_strlit("END");
    assert("SPACE"@.len() == 5);
    assert("SPACEBAR"@.len() == 8);
    assert("ENTER"@.len() == 5);
    assert("RETURN"@.len() == 6);
    assert("ESC"@.len() == 3);
    assert("ESCAPE"@.len() == 6);
    assert("TAB"@.len() == 3);
    assert("BACKSPACE"@.len() == 9);
    assert("BKSP"@.len() == 4);
    assert("DELETE"@.len() == 6);
    assert("DEL"@.len() == 3);
    assert("INSERT"@.len() == 6);
    assert("INS"@.len() == 3);
    assert("HOME"@.len() == 4);
    assert("END"@.len() == 3);
    assert("END"@[1] != "ESC"@[1]);
    assert("END"@[0] != "TAB"@[0]);
    assert("END"@[0] != "DEL"@[0]);
    assert("END"@[0] != "INS"@[0]);
    lemma_named_key("END"@, VK_END, f);
}

/// The key names `PAGEUP` and `PGUP` give `VK_PRIOR`, whatever the fallback.
pub proof fn law_named_key_page_up(f: u32)
    ensures
        vkey_code("PAGEUP"@, f) == VK_PRIOR,
        vkey_code("PGUP"@, f) == VK_PRIOR,
{
    reveal_strlit("SPACE");
    reveal_strlit("SPACEBAR");
    reveal_strlit("ENTER");
    reveal_strlit("RETURN");
    reveal_strlit("ESC");
    reveal_strlit("ESCAPE");
    reveal_strlit("TAB");
    reveal_strlit("BACKSPACE");
    reveal_strlit("BKSP");
    reveal_strlit("DELETE");
    reveal_strlit("DEL");
    reveal_strlit("INSERT");
    reveal_strlit("INS");
    reveal_strlit("HOME");
    reveal_strlit("END");
    reveal_strlit("PAGEUP");
    reveal_strlit("PGUP");
    assert("SPACE"@.len() == 5);
    assert("SPACEBAR"@.len() == 8);
    assert("ENTER"@.len() == 5);
    assert("RETURN"@.len() == 6);
    assert("ESC"@.len() == 3);
    assert("ESCAPE"@.len() == 6);
    assert("TAB"@.len() == 3);
    assert("BACKSPACE"@.len() == 9);
    assert("BKSP"@.len() == 4);
    assert("DELETE"@.len() == 6);
    assert("DEL"@.len() == 3);
    assert("INSERT"@.len() == 6);
    assert("INS"@.len() == 3);
    assert("HOME"@.len() == 4);
    assert("END"@.len() == 3);
    assert("PAGEUP"@.len() == 6);
    assert("PGUP"@.len() == 4);
    assert("PAGEUP"@[0] != "RETURN"@[0]);
    assert("PAGEUP"@[0] != "ESCAPE"@[0]);
    assert("PAGEUP"@[0] != "DELETE"@[0]);
    assert("PAGEUP"@[0] != "INSERT"@[0]);
    lemma_named_key("PAGEUP"@, VK_PRIOR, f);
    assert("PGUP"@[0] != "BKSP"@[0]);
    assert("PGUP"@[0] != "HOME"@[0]);
    lemma_named_key("PGUP"@, VK_PRIOR, f);
}

/// The key names `PAGEDOWN` and `PGDN` give `VK_NEXT`, whatever the fallback.
pub proof fn law_named_key_page_down(f: u32)
    ensures
        vkey_code("PAGEDOWN"@, f) == VK_NEXT,
        vkey_code("PGDN"@, f) == VK_NEXT,
{
    reveal_strlit("SPACE");
    reveal_strlit("SPACEBAR");
    reveal_strlit("ENTER");
    reveal_strlit("RETURN");
    reveal_strlit("ESC");
    reveal_strlit("ESCAPE");
    reveal_strlit("TAB");
    reveal_strlit("BACKSPACE");
    reveal_strlit("BKSP");
    reveal_strlit("DELETE");
    reveal_strlit("DEL");
    reveal_strlit("INSERT");
    reveal_strlit("INS");
    reveal_strlit("HOME");
    reveal_strlit("END");
    reveal_strlit("PAGEUP");
    reveal_strlit("PGUP");
    reveal_strlit("PAGEDOWN");
    reveal_strlit("PGDN");
    assert("SPACE"@.len() == 5);
    assert("SPACEBAR"@.len() == 8);
    assert("ENTER"@.len() == 5);
    assert("RETURN"@.len() == 6);
    assert("ESC"@.len() == 3);
    assert("ESCAPE"@.len() == 6);
    assert("TAB"@.len() == 3);
    assert("BACKSPACE"@.len() == 9);
    assert("BKSP"@.len() == 4);
    assert("DELETE"@.len() == 6);
    assert("DEL"@.len() == 3);
    assert("INSERT"@.len() == 6);
    assert("INS"@.len() == 3);
    assert("HOME"@.len() == 4);
    assert("END"@.len() == 3);
    assert("PAGEUP"@.len() == 6);
    assert("PGUP"@.len() == 4);
    assert("PAGEDOWN"@.len() == 8);
    assert("PGDN"@.len() == 4);
    assert("PAGEDOWN"@[0] != "SPACEBAR"@[0]);
    lemma_named_key("PAGEDOWN"@, VK_NEXT, f);
    assert("PGDN"@[0] != "BKSP"@[0]);
    assert("PGDN"@[0] != "HOME"@[0]);
    assert("PGDN"@[2] != "PGUP"@[2]);
    lemma_named_key("PGDN"@, VK_NEXT, f);
}

/// The key names `UP` and `ARROWUP` give `VK_UP`, whatever the fallback.
pub proof fn law_named_key_up(f: u32)
    ensures
        vkey_code("UP"@, f) == VK_UP,
        vkey_code("ARROWUP"@, f) == VK_UP,
{
    reveal_strlit("SPACE");
    reveal_strlit("SPACEBAR");
    reveal_strlit("ENTER");
    reveal_strlit("RETURN");
    reveal_strlit("ESC");
    reveal_strlit("ESCAPE");
    reveal_strlit("TAB");
    reveal_strlit("BACKSPACE");
    reveal_strlit("BKSP");
    reveal_strlit("DELETE");
    reveal_strlit("DEL");
    reveal_strlit("INSERT");
    reveal_strlit("INS");
    reveal_strlit("HOME");
    reveal_strlit("END");
    reveal_strlit("PAGEUP");
    reveal_strlit("PGUP");
    reveal_strlit("PAGEDOWN");
    reveal_strlit("PGDN");
    reveal_strlit("UP");
    reveal_strlit("ARROWUP");
    assert("SPACE"@.len() == 5);
    assert("SPACEBAR"@.len() == 8);
    assert("ENTER"@.len() == 5);
    assert("RETURN"@.len() == 6);
    assert("ESC"@.len() == 3);
    assert("ESCAPE"@.len() == 6);
    assert("TAB"@.len() == 3);
    assert("BACKSPACE"@.len() == 9);
    assert("BKSP"@.len() == 4);
    assert("DELETE"@.len() == 6);
    assert("DEL"@.len() == 3);
    assert("INSERT"@.len() == 6);
    assert("INS"@.len() == 3);
    assert("HOME"@.len() == 4);
    assert("END"@.len() == 3);
    assert("PAGEUP"@.len() == 6);
    assert("PGUP"@.len() == 4);
    assert("PAGEDOWN"@.len() == 8);
    assert("PGDN"@.len() == 4);
    assert("UP"@.len() == 2);
    assert("ARROWUP"@.len() == 7);
    lemma_named_key("UP"@, VK_UP, f);
    lemma_named_key("ARROWUP"@, VK_UP, f);
}

/// The key names `DOWN` and `ARROWDOWN` give `VK_DOWN`, whatever the fallback.
pub proof fn law_named_key_down(f: u32)
    ensures
        vkey_code("DOWN"@, f) == VK_DOWN,
        vkey_code("ARROWDOWN"@, f) == VK_DOWN,
{
    reveal_strlit("SPACE");
    reveal_strlit("SPACEBAR");
    reveal_strlit("ENTER");
    reveal_strlit("RETURN");
    reveal_strlit("ESC");
    reveal_strlit("ESCAPE");
    reveal_strlit("TAB");
    reveal_strlit("BACKSPACE");
    reveal_strlit("BKSP");
    reveal_strlit("DELETE");
    reveal_strlit("DEL");
    reveal_strlit("INSERT");
    reveal_strlit("INS");
    reveal_strlit("HOME");
    reveal_strlit("END");
    reveal_strlit("PAGEUP");
    reveal_strlit("PGUP");
    reveal_strlit("PAGEDOWN");
    reveal_strlit("PGDN");
    reveal_strlit("UP");
    reveal_strlit("ARROWUP");
    reveal_strlit("DOWN");
    reveal_strlit("ARROWDOWN");
    assert("SPACE"@.len() == 5);
    assert("SPACEBAR"@.len() == 8);
    assert("ENTER"@.len() == 5);
    assert("RETURN"@.len() == 6);
    assert("ESC"@.len() == 3);
    assert("ESCAPE"@.len() == 6);
    assert("TAB"@.len() == 3);
    assert("BACKSPACE"@.len() == 9);
    assert("BKSP"@.len() == 4);
    assert("DELETE"@.len() == 6);
    assert("DEL"@.len() == 3);
    assert("INSERT"@.len() == 6);
    assert("INS"@.len() == 3);
    assert("HOME"@.len() == 4);
    assert("END"@.len() == 3);
    assert("PAGEUP"@.len() == 6);
    assert("PGUP"@.len() == 4);
    assert("PAGEDOWN"@.len() == 8);
    assert("PGDN"@.len() == 4);
    assert("UP"@.len() == 2);
    assert("ARROWUP"@.len() == 7);
    assert("DOWN"@.len() == 4);
    assert("ARROWDOWN"@.len() == 9);
    assert("DOWN"@[0] != "BKSP"@[0]);
    assert("DOWN"@[0] != "HOME"@[0]);
    assert("DOWN"@[0] != "PGUP"@[0]);
    assert("DOWN"@[0] != "PGDN"@[0]);
    lemma_named_key("DOWN"@, VK_DOWN, f);
    assert("ARROWDOWN"@[0] != "BACKSPACE"@[0]);
    lemma_named_key("ARROWDOWN"@, VK_DOWN, f);
}

/// The key names `LEFT` and `ARROWLEFT` give `VK_LEFT`, whatever the fallback.
pub proof fn law_named_key_left(f: u32)
    ensures
        vkey_code("LEFT"@, f) == VK_LEFT,
        vkey_code("ARROWLEFT"@, f) == VK_LEFT,
{
    reveal_strlit("SPACE");
    reveal_strlit("SPACEBAR");
    reveal_strlit("ENTER");
    reveal_strlit("RETURN");
    reveal_strlit("ESC");
    reveal_strlit("ESCAPE");
    reveal_strlit("TAB");
    reveal_strlit("BACKSPACE");
    reveal_strlit("BKSP");
    reveal_strlit("DELETE");
    reveal_strlit("DEL");
    reveal_strlit("INSERT");
    reveal_strlit("INS");
    reveal_strlit("HOME");
    reveal_strlit("END");
    reveal_strlit("PAGEUP");
    reveal_strlit("PGUP");
    reveal_strlit("PAGEDOWN");
    reveal_strlit("PGDN");
    reveal_strlit("UP");
    reveal_strlit("ARROWUP");
    reveal_strlit("DOWN");
    reveal_strlit("ARROWDOWN");
    reveal_strlit("LEFT");
    reveal_strlit("ARROWLEFT");
    assert("SPACE"@.len() == 5);
    assert("SPACEBAR"@.len() == 8);
    assert("ENTER"@.len() == 5);
    assert("RETURN"@.len() == 6);
    assert("ESC"@.len() == 3);
    assert("ESCAPE"@.len() == 6);
    assert("TAB"@.len() == 3);
    assert("BACKSPACE"@.len() == 9);
    assert("BKSP"@.len() == 4);
    assert("DELETE"@.len() == 6);
    assert("DEL"@.len() == 3);
    assert("INSERT"@.len() == 6);
    assert("INS"@.len() == 3);
    assert("HOME"@.len() == 4);
    assert("END"@.len() == 3);
    assert("PAGEUP"@.len() == 6);
    assert("PGUP"@.len() == 4);
    assert("PAGEDOWN"@.len() == 8);
    assert("PGDN"@.len() == 4);
    assert("UP"@.len() == 2);
    assert("ARROWUP"@.len() == 7);
    assert("DOWN"@.len() == 4);
    assert("ARROWDOWN"@.len() == 9);
    assert("LEFT"@.len() == 4);
    assert("ARROWLEFT"@.len() == 9);
    assert("LEFT"@[0] != "BKSP"@[0]);
    assert("LEFT"@[0] != "HOME"@[0]);
    assert("LEFT"@[0] != "PGUP"@[0]);
    assert("LEFT"@[0] != "PGDN"@[0]);
    assert("LEFT"@[0] != "DOWN"@[0]);
    lemma_named_key("LEFT"@, VK_LEFT, f);
    assert("ARROWLEFT"@[0] != "BACKSPACE"@[0]);
    assert("ARROWLEFT"@[5] != "ARROWDOWN"@[5]);
    lemma_named_key("ARROWLEFT"@, VK_LEFT, f);
}

/// The key names `RIGHT` and `ARROWRIGHT` give `VK_RIGHT`, whatever the fallback.
pub proof fn law_named_key_right(f: u32)
    ensures
        vkey_code("RIGHT"@, f) == VK_RIGHT,
        vkey_code("ARROWRIGHT"@, f) == VK_RIGHT,
{
    reveal_strlit("SPACE");
    reveal_strlit("SPACEBAR");
    reveal_strlit("ENTER");
    reveal_strlit("RETURN");
    reveal_strlit("ESC");
    reveal_strlit("ESCAPE");
    reveal_strlit("TAB");
    reveal_strlit("BACKSPACE");
    reveal_strlit("BKSP");
    reveal_strlit("DELETE");
    reveal_strlit("DEL");
    reveal_strlit("INSERT");
    reveal_strlit("INS");
    reveal_strlit("HOME");
    reveal_strlit("END");
    reveal_strlit("PAGEUP");
    reveal_strlit("PGUP");
    reveal_strlit("PAGEDOWN");
    reveal_strlit("PGDN");
    reveal_strlit("UP");
    reveal_strlit("ARROWUP");
    reveal_strlit("DOWN");
    reveal_strlit("ARROWDOWN");
    reveal_strlit("LEFT");
    reveal_strlit("ARROWLEFT");
    reveal_strlit("RIGHT");
    reveal_strlit("ARROWRIGHT");
    assert("SPACE"@.len() == 5);
    assert("SPACEBAR"@.len() == 8);
    assert("ENTER"@.len() == 5);
    assert("RETURN"@.len() == 6);
    assert("ESC"@.len() == 3);
    assert("ESCAPE"@.len() == 6);
    assert("TAB"@.len() == 3);
    assert("BACKSPACE"@.len() == 9);
    assert("BKSP"@.len() == 4);
    assert("DELETE"@.len() == 6);
    assert("DEL"@.len() == 3);
    assert("INSERT"@.len() == 6);
    assert("INS"@.len() == 3);
    assert("HOME"@.len() == 4);
    assert("END"@.len() == 3);
    assert("PAGEUP"@.len() == 6);
    assert("PGUP"@.len() == 4);
    assert("PAGEDOWN"@.len() == 8);
    assert("PGDN"@.len() == 4);
    assert("UP"@.len() == 2);
    assert("ARROWUP"@.len() == 7);
    assert("DOWN"@.len() == 4);
    assert("ARROWDOWN"@.len() == 9);
    assert("LEFT"@.len() == 4);
    assert("ARROWLEFT"@.len() == 9);
    assert("RIGHT"@.len() == 5);
    assert("ARROWRIGHT"@.len() == 10);
    assert("RIGHT"@[0] != "SPACE"@[0]);
    assert("RIGHT"@[0] != "ENTER"@[0]);
    lemma_named_key("RIGHT"@, VK_RIGHT, f);
    lemma_named_key("ARROWRIGHT"@, VK_RIGHT, f);
}

} // verus!
