//! Key-token resolution for push-to-talk.
//!
//! User-facing tokens (browser-style key names such as `ShiftLeft`, short
//! aliases such as `alt`, and named mouse buttons including the side
//! buttons) are mapped case-insensitively to the platform's native
//! virtual-key codes through a fixed lookup table. Unrecognized tokens are
//! dropped. A single character outside the table would need the platform's
//! keyboard-layout service; without that service it resolves to nothing.

use vstd::prelude::*;
use vstd::string::StrSliceExecFns;

verus! {

pub const VK_RBUTTON: u32 = 0x02;

pub const VK_MBUTTON: u32 = 0x04;

pub const VK_XBUTTON1: u32 = 0x05;

pub const VK_XBUTTON2: u32 = 0x06;

pub const VK_BACK: u32 = 0x08;

pub const VK_TAB: u32 = 0x09;

pub const VK_RETURN: u32 = 0x0D;

pub const VK_PAUSE: u32 = 0x13;

pub const VK_CAPITAL: u32 = 0x14;

pub const VK_ESCAPE: u32 = 0x1B;

pub const VK_SPACE: u32 = 0x20;

pub const VK_PRIOR: u32 = 0x21;

pub const VK_NEXT: u32 = 0x22;

pub const VK_END: u32 = 0x23;

pub const VK_HOME: u32 = 0x24;

pub const VK_LEFT: u32 = 0x25;

pub const VK_UP: u32 = 0x26;

pub const VK_RIGHT: u32 = 0x27;

pub const VK_DOWN: u32 = 0x28;

pub const VK_SNAPSHOT: u32 = 0x2C;

pub const VK_INSERT: u32 = 0x2D;

pub const VK_DELETE: u32 = 0x2E;

pub const VK_LWIN: u32 = 0x5B;

pub const VK_RWIN: u32 = 0x5C;

pub const VK_F1: u32 = 0x70;

pub const VK_F2: u32 = 0x71;

pub const VK_F3: u32 = 0x72;

pub const VK_F4: u32 = 0x73;

pub const VK_F5: u32 = 0x74;

pub const VK_F6: u32 = 0x75;

pub const VK_F7: u32 = 0x76;

pub const VK_F8: u32 = 0x77;

pub const VK_F9: u32 = 0x78;

pub const VK_F10: u32 = 0x79;

pub const VK_F11: u32 = 0x7A;

pub const VK_F12: u32 = 0x7B;

pub const VK_NUMLOCK: u32 = 0x90;

pub const VK_SCROLL: u32 = 0x91;

pub const VK_LSHIFT: u32 = 0xA0;

pub const VK_RSHIFT: u32 = 0xA1;

pub const VK_LCONTROL: u32 = 0xA2;

pub const VK_RCONTROL: u32 = 0xA3;

pub const VK_LMENU: u32 = 0xA4;

pub const VK_RMENU: u32 = 0xA5;

/// ASCII upper-case letters fold to lower case; everything else is kept.
pub open spec fn ascii_lower(c: char) -> char {
    if 'A' <= c && c <= 'Z' {
        (((c as u8) + 32) as char)
    } else {
        c
    }
}

/// The Unicode white-space characters, as trimming recognizes them.
pub open spec fn is_space(c: char) -> bool {
    ||| c == ' '
    ||| ('\u{09}' <= c && c <= '\u{0d}')
    ||| c == '\u{85}'
    ||| c == '\u{a0}'
    ||| c == '\u{1680}'
    ||| ('\u{2000}' <= c && c <= '\u{200a}')
    ||| c == '\u{2028}'
    ||| c == '\u{2029}'
    ||| c == '\u{202f}'
    ||| c == '\u{205f}'
    ||| c == '\u{3000}'
}

pub open spec fn lower_seq(s: Seq<char>) -> Seq<char> {
    s.map_values(|c: char| ascii_lower(c))
}

pub open spec fn trim_front(s: Seq<char>) -> Seq<char>
    decreases s.len(),
{
    if s.len() > 0 && is_space(s[0]) {
        trim_front(s.drop_first())
    } else {
        s
    }
}

pub open spec fn trim_back(s: Seq<char>) -> Seq<char>
    decreases s.len(),
{
    if s.len() > 0 && is_space(s.last()) {
        trim_back(s.drop_last())
    } else {
        s
    }
}

/// A token as the lookup table sees it: folded to lower case, then stripped
/// of leading and trailing white space.
pub open spec fn normalized(s: Seq<char>) -> Seq<char> {
    trim_front(trim_back(lower_seq(s)))
}

proof fn lemma_trim_front_subrange(s: Seq<char>, start: int)
    requires
        0 <= start <= s.len(),
        forall|i: int| 0 <= i < start ==> is_space(s[i]),
        start == s.len() || !is_space(s[start]),
    ensures
        trim_front(s) == s.subrange(start, s.len() as int),
    decreases start,
{
    if start == 0 {
        assert(s.subrange(0, s.len() as int) =~= s);
    } else {
        let t = s.drop_first();
        assert(t =~= s.subrange(1, s.len() as int));
        lemma_trim_front_subrange(t, start - 1);
        assert(t.subrange(start - 1, t.len() as int) =~= s.subrange(start, s.len() as int));
    }
}

proof fn lemma_trim_back_subrange(s: Seq<char>, end: int)
    requires
        0 <= end <= s.len(),
        forall|i: int| end <= i < s.len() ==> is_space(s[i]),
        end == 0 || !is_space(s[end - 1]),
    ensures
        trim_back(s) == s.subrange(0, end),
    decreases s.len(),
{
    if end == s.len() {
        assert(s.subrange(0, end) =~= s);
    } else {
        assert(is_space(s.last()));
        let t = s.drop_last();
        lemma_trim_back_subrange(t, end);
        assert(t.subrange(0, end) =~= s.subrange(0, end));
    }
}

/// Exec mirror of `is_space`.
fn is_space_char(c: char) -> (r: bool)
    ensures
        r == is_space(c),
{
    c == ' ' || ('\u{09}' <= c && c <= '\u{0d}') || c == '\u{85}' || c == '\u{a0}' || c
        == '\u{1680}' || ('\u{2000}' <= c && c <= '\u{200a}') || c == '\u{2028}' || c == '\u{2029}'
        || c == '\u{202f}' || c == '\u{205f}' || c == '\u{3000}'
}

/// Fold to lower case and trim, producing the characters the table matches.
fn normalize(token: &str) -> (r: Vec<char>)
    ensures
        r@ == normalized(token@),
{
    let n = token.unicode_len();
    let mut low: Vec<char> = Vec::new();
    let mut j: usize = 0;
    while j < n
        invariant
            n == token@.len(),
            j <= n,
            low@.len() == j,
            forall|k: int| 0 <= k < j ==> low@[k] == ascii_lower(token@[k]),
        decreases n - j,
    {
        let c = token.get_char(j);
        if 'A' <= c && c <= 'Z' {
            low.push(((c as u8) + 32) as char);
        } else {
            low.push(c);
        }
        j += 1;
    }
    proof {
        assert(low@ =~= lower_seq(token@));
    }

    let mut end: usize = low.len();
    while end > 0 && is_space_char(low[end - 1])
        invariant
            end <= low@.len(),
            forall|k: int| end <= k < low@.len() ==> is_space(low@[k]),
        decreases end,
    {
        end -= 1;
    }
    let mut start: usize = 0;
    while start < end && is_space_char(low[start])
        invariant
            start <= end <= low@.len(),
            forall|k: int| 0 <= k < start ==> is_space(low@[k]),
        decreases end - start,
    {
        start += 1;
    }

    let mut out: Vec<char> = Vec::new();
    let mut k: usize = start;
    while k < end
        invariant
            start <= k <= end <= low@.len(),
            out@ == low@.subrange(start as int, k as int),
        decreases end - k,
    {
        proof {
            assert(low@.subrange(start as int, k as int + 1) =~= low@.subrange(
                start as int,
                k as int,
            ).push(low@[k as int]));
        }
        out.push(low[k]);
        k += 1;
    }

    proof {
        lemma_trim_back_subrange(low@, end as int);
        let trimmed = low@.subrange(0, end as int);
        lemma_trim_front_subrange(trimmed, start as int);
        assert(trimmed.subrange(start as int, trimmed.len() as int) =~= low@.subrange(
            start as int,
            end as int,
        ));
    }
    out
}

/// True when the collected token characters equal the literal `lit`.
fn token_is(t: &Vec<char>, lit: &str) -> (r: bool)
    ensures
        r == (t@ == lit@),
{
    let n = lit.unicode_len();
    if t.len() != n {
        proof {
            assert(t@ != lit@) by {
                if t@ == lit@ {
                    assert(t@.len() == lit@.len());
                }
            }
        }
        return false;
    }
    let mut i: usize = 0;
    while i < n
        invariant
            i <= n,
            n == lit@.len(),
            t@.len() == n,
            forall|k: int| 0 <= k < i ==> t@[k] == lit@[k],
        decreases n - i,
    {
        if t[i] != lit.get_char(i) {
            proof {
                assert(t@ != lit@) by {
                    if t@ == lit@ {
                        assert(t@[i as int] == lit@[i as int]);
                    }
                }
            }
            return false;
        }
        i += 1;
    }
    proof {
        assert(t@ =~= lit@);
    }
    true
}

/// The fixed token table: the virtual-key code a normalized token resolves
/// to, or `None` for a token the table does not recognize.
pub open spec fn spec_token_to_vk(t: Seq<char>) -> Option<u32> {
    if t == "ctrl"@ || t == "control"@ || t == "lctrl"@ || t == "lcontrol"@ || t == "controlleft"@ {
        Option::Some(VK_LCONTROL)
    } else if t == "rctrl"@ || t == "rcontrol"@ || t == "controlright"@ {
        Option::Some(VK_RCONTROL)
    } else if t == "shift"@ || t == "lshift"@ || t == "shiftleft"@ {
        Option::Some(VK_LSHIFT)
    } else if t == "rshift"@ || t == "shiftright"@ {
        Option::Some(VK_RSHIFT)
    } else if t == "alt"@ || t == "lalt"@ || t == "lmenu"@ || t == "altleft"@ || t == "menu"@ {
        Option::Some(VK_LMENU)
    } else if t == "ralt"@ || t == "rmenu"@ || t == "altright"@ || t == "altgr"@ {
        Option::Some(VK_RMENU)
    } else if t == "super"@ || t == "meta"@ || t == "win"@ || t == "metaleft"@ || t == "osleft"@ {
        Option::Some(VK_LWIN)
    } else if t == "metaright"@ || t == "osright"@ {
        Option::Some(VK_RWIN)
    } else if t == "space"@ {
        Option::Some(VK_SPACE)
    } else if t == "enter"@ || t == "return"@ || t == "numpadenter"@ {
        Option::Some(VK_RETURN)
    } else if t == "escape"@ || t == "esc"@ {
        Option::Some(VK_ESCAPE)
    } else if t == "backspace"@ {
        Option::Some(VK_BACK)
    } else if t == "tab"@ {
        Option::Some(VK_TAB)
    } else if t == "delete"@ || t == "del"@ {
        Option::Some(VK_DELETE)
    } else if t == "insert"@ || t == "ins"@ {
        Option::Some(VK_INSERT)
    } else if t == "home"@ {
        Option::Some(VK_HOME)
    } else if t == "end"@ {
        Option::Some(VK_END)
    } else if t == "pageup"@ {
        Option::Some(VK_PRIOR)
    } else if t == "pagedown"@ {
        Option::Some(VK_NEXT)
    } else if t == "arrowup"@ || t == "up"@ {
        Option::Some(VK_UP)
    } else if t == "arrowdown"@ || t == "down"@ {
        Option::Some(VK_DOWN)
    } else if t == "arrowleft"@ || t == "left"@ {
        Option::Some(VK_LEFT)
    } else if t == "arrowright"@ || t == "right"@ {
        Option::Some(VK_RIGHT)
    } else if t == "capslock"@ {
        Option::Some(VK_CAPITAL)
    } else if t == "f1"@ {
        Option::Some(VK_F1)
    } else if t == "f2"@ {
        Option::Some(VK_F2)
    } else if t == "f3"@ {
        Option::Some(VK_F3)
    } else if t == "f4"@ {
        Option::Some(VK_F4)
    } else if t == "f5"@ {
        Option::Some(VK_F5)
    } else if t == "f6"@ {
        Option::Some(VK_F6)
    } else if t == "f7"@ {
        Option::Some(VK_F7)
    } else if t == "f8"@ {
        Option::Some(VK_F8)
    } else if t == "f9"@ {
        Option::Some(VK_F9)
    } else if t == "f10"@ {
        Option::Some(VK_F10)
    } else if t == "f11"@ {
        Option::Some(VK_F11)
    } else if t == "f12"@ {
        Option::Some(VK_F12)
    } else if t == "print"@ || t == "printscreen"@ {
        Option::Some(VK_SNAPSHOT)
    } else if t == "scrolllock"@ {
        Option::Some(VK_SCROLL)
    } else if t == "pause"@ {
        Option::Some(VK_PAUSE)
    } else if t == "numlock"@ {
        Option::Some(VK_NUMLOCK)
    } else if t == "mouse2"@ || t == "mouseright"@ || t == "rightbutton"@ {
        Option::Some(VK_RBUTTON)
    } else if t == "mouse3"@ || t == "mousemiddle"@ || t == "middlebutton"@ {
        Option::Some(VK_MBUTTON)
    } else if t == "mouse4"@ || t == "xbutton1"@ {
        Option::Some(VK_XBUTTON1)
    } else if t == "mouse5"@ || t == "xbutton2"@ {
        Option::Some(VK_XBUTTON2)
    } else {
        Option::None
    }
}

/// Resolve one user-facing token to a virtual-key code through the fixed
/// table, case-insensitively. Unrecognized tokens, including single
/// characters that only the platform's keyboard-layout service could place,
/// resolve to `None`.
pub fn token_to_vk(token: &str) -> (r: Option<u32>)
    ensures
        r == spec_token_to_vk(normalized(token@)),
{
    let t = normalize(token);
    if token_is(&t, "ctrl") || token_is(&t, "control") || token_is(&t, "lctrl") || token_is(
        &t,
        "lcontrol",
    ) || token_is(&t, "controlleft") {
        Option::Some(VK_LCONTROL)
    } else if token_is(&t, "rctrl") || token_is(&t, "rcontrol") || token_is(&t, "controlright") {
        Option::Some(VK_RCONTROL)
    } else if token_is(&t, "shift") || token_is(&t, "lshift") || token_is(&t, "shiftleft") {
        Option::Some(VK_LSHIFT)
    } else if token_is(&t, "rshift") || token_is(&t, "shiftright") {
        Option::Some(VK_RSHIFT)
    } else if token_is(&t, "alt") || token_is(&t, "lalt") || token_is(&t, "lmenu") || token_is(
        &t,
        "altleft",
    ) || token_is(&t, "menu") {
        Option::Some(VK_LMENU)
    } else if token_is(&t, "ralt") || token_is(&t, "rmenu") || token_is(&t, "altright") || token_is(
        &t,
        "altgr",
    ) {
        Option::Some(VK_RMENU)
    } else if token_is(&t, "super") || token_is(&t, "meta") || token_is(&t, "win") || token_is(
        &t,
        "metaleft",
    ) || token_is(&t, "osleft") {
        Option::Some(VK_LWIN)
    } else if token_is(&t, "metaright") || token_is(&t, "osright") {
        Option::Some(VK_RWIN)
    } else if token_is(&t, "space") {
        Option::Some(VK_SPACE)
    } else if token_is(&t, "enter") || token_is(&t, "return") || token_is(&t, "numpadenter") {
        Option::Some(VK_RETURN)
    } else if token_is(&t, "escape") || token_is(&t, "esc") {
        Option::Some(VK_ESCAPE)
    } else if token_is(&t, "backspace") {
        Option::Some(VK_BACK)
    } else if token_is(&t, "tab") {
        Option::Some(VK_TAB)
    } else if token_is(&t, "delete") || token_is(&t, "del") {
        Option::Some(VK_DELETE)
    } else if token_is(&t, "insert") || token_is(&t, "ins") {
        Option::Some(VK_INSERT)
    } else if token_is(&t, "home") {
        Option::Some(VK_HOME)
    } else if token_is(&t, "end") {
        Option::Some(VK_END)
    } else if token_is(&t, "pageup") {
        Option::Some(VK_PRIOR)
    } else if token_is(&t, "pagedown") {
        Option::Some(VK_NEXT)
    } else if token_is(&t, "arrowup") || token_is(&t, "up") {
        Option::Some(VK_UP)
    } else if token_is(&t, "arrowdown") || token_is(&t, "down") {
        Option::Some(VK_DOWN)
    } else if token_is(&t, "arrowleft") || token_is(&t, "left") {
        Option::Some(VK_LEFT)
    } else if token_is(&t, "arrowright") || token_is(&t, "right") {
        Option::Some(VK_RIGHT)
    } else if token_is(&t, "capslock") {
        Option::Some(VK_CAPITAL)
    } else if token_is(&t, "f1") {
        Option::Some(VK_F1)
    } else if token_is(&t, "f2") {
        Option::Some(VK_F2)
    } else if token_is(&t, "f3") {
        Option::Some(VK_F3)
    } else if token_is(&t, "f4") {
        Option::Some(VK_F4)
    } else if token_is(&t, "f5") {
        Option::Some(VK_F5)
    } else if token_is(&t, "f6") {
        Option::Some(VK_F6)
    } else if token_is(&t, "f7") {
        Option::Some(VK_F7)
    } else if token_is(&t, "f8") {
        Option::Some(VK_F8)
    } else if token_is(&t, "f9") {
        Option::Some(VK_F9)
    } else if token_is(&t, "f10") {
        Option::Some(VK_F10)
    } else if token_is(&t, "f11") {
        Option::Some(VK_F11)
    } else if token_is(&t, "f12") {
        Option::Some(VK_F12)
    } else if token_is(&t, "print") || token_is(&t, "printscreen") {
        Option::Some(VK_SNAPSHOT)
    } else if token_is(&t, "scrolllock") {
        Option::Some(VK_SCROLL)
    } else if token_is(&t, "pause") {
        Option::Some(VK_PAUSE)
    } else if token_is(&t, "numlock") {
        Option::Some(VK_NUMLOCK)
    } else if token_is(&t, "mouse2") || token_is(&t, "mouseright") || token_is(&t, "rightbutton") {
        Option::Some(VK_RBUTTON)
    } else if token_is(&t, "mouse3") || token_is(&t, "mousemiddle") || token_is(
        &t,
        "middlebutton",
    ) {
        Option::Some(VK_MBUTTON)
    } else if token_is(&t, "mouse4") || token_is(&t, "xbutton1") {
        Option::Some(VK_XBUTTON1)
    } else if token_is(&t, "mouse5") || token_is(&t, "xbutton2") {
        Option::Some(VK_XBUTTON2)
    } else {
        Option::None
    }
}

/// The table lookup as a function value, for use with `filter_map`.
pub open spec fn token_code_fn() -> spec_fn(String) -> Option<u32> {
    |k: String| spec_token_to_vk(normalized(k@))
}

/// The codes a whole token list resolves to, in order, unrecognized tokens
/// dropped.
pub open spec fn resolved_codes(keys: Seq<String>) -> Seq<u32> {
    keys.filter_map(token_code_fn())
}

/// Resolve every token of `keys` through the table, dropping the
/// unrecognized ones.
pub fn resolve_tokens(keys: &Vec<String>) -> (r: Vec<u32>)
    ensures
        r@ == resolved_codes(keys@),
{
    let mut r: Vec<u32> = Vec::new();
    let mut i: usize = 0;
    while i < keys.len()
        invariant
            i <= keys@.len(),
            r@ == keys@.take(i as int).filter_map(token_code_fn()),
        decreases keys@.len() - i,
    {
        proof {
            keys@.lemma_filter_map_take_succ(token_code_fn(), i as int);
        }
        let ghost r_old = r@;
        if let Option::Some(vk) = token_to_vk(keys[i].as_str()) {
            r.push(vk);
            proof {
                assert(token_code_fn()(keys@[i as int]) == Option::Some(vk));
                assert(r@ =~= r_old + seq![vk]);
            }
        } else {
            proof {
                assert(token_code_fn()(keys@[i as int]) is None);
                assert(r@ =~= r_old + Seq::<u32>::empty());
            }
        }
        i += 1;
    }
    proof {
        assert(keys@.take(keys@.len() as int) =~= keys@);
    }
    r
}

/// The code one token contributes when the host supplies a layout-resolved
/// code alongside it: the fixed table decides first; a token the table
/// does not recognize takes the host's code, or is dropped when the host
/// has none.
pub open spec fn token_code_with(k: String, layout_code: Option<u32>) -> Option<u32> {
    match spec_token_to_vk(normalized(k@)) {
        Option::Some(vk) => Option::Some(vk),
        Option::None => layout_code,
    }
}

/// The layout answer supplied for position `i`; nothing beyond the
/// supplied entries.
pub open spec fn layout_at(layout: Seq<Option<u32>>, i: int) -> Option<u32> {
    if 0 <= i < layout.len() {
        layout[i]
    } else {
        Option::None
    }
}

/// The codes a token list resolves to when the host supplies a
/// layout-resolved code per position: the fixed table first, the layout
/// answer for a table miss, nothing when both fail.
pub open spec fn resolved_codes_with(keys: Seq<String>, layout: Seq<Option<u32>>) -> Seq<u32>
    decreases keys.len(),
{
    if keys.len() == 0 {
        Seq::empty()
    } else {
        let rest = resolved_codes_with(keys.drop_last(), layout);
        match token_code_with(keys.last(), layout_at(layout, keys.len() - 1)) {
            Option::Some(vk) => rest + seq![vk],
            Option::None => rest,
        }
    }
}

/// Resolve every token, taking for each position the fixed table's code,
/// or the host-supplied layout code where the table misses. The
/// layout-aware single-character lookup belongs to the platform's keyboard
/// service: a host with one passes its answers in `layout_codes`, position
/// for position; a platform without one supplies nothing and such tokens
/// are dropped.
pub fn resolve_tokens_with(keys: &Vec<String>, layout_codes: &Vec<Option<u32>>) -> (r: Vec<u32>)
    ensures
        r@ == resolved_codes_with(keys@, layout_codes@),
{
    let mut r: Vec<u32> = Vec::new();
    let mut i: usize = 0;
    while i < keys.len()
        invariant
            i <= keys@.len(),
            r@ == resolved_codes_with(keys@.take(i as int), layout_codes@),
        decreases keys@.len() - i,
    {
        proof {
            assert(keys@.take(i as int + 1).drop_last() =~= keys@.take(i as int));
            assert(keys@.take(i as int + 1).last() == keys@[i as int]);
        }
        let ghost r_old = r@;
        let code = match token_to_vk(keys[i].as_str()) {
            Option::Some(vk) => Option::Some(vk),
            Option::None => {
                if i < layout_codes.len() {
                    layout_codes[i]
                } else {
                    Option::None
                }
            },
        };
        proof {
            assert(code == token_code_with(keys@[i as int], layout_at(layout_codes@, i as int)));
        }
        if let Option::Some(vk) = code {
            r.push(vk);
            proof {
                assert(r@ =~= r_old + seq![vk]);
            }
        }
        i += 1;
    }
    proof {
        assert(keys@.take(keys@.len() as int) =~= keys@);
    }
    r
}

} // verus!
