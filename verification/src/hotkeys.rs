//! Global hotkeys: which shortcut each binding becomes, and which action a
//! press means.
use std::collections::HashMap;
use std::str::FromStr;

use vstd::prelude::*;

use crate::config::{Hotkey, Key, KeyModifiers};
use crate::error::AppError;
use crate::text::{decimal, join2, join3};

verus! {

/// What a hotkey does. A save hotkey knows its place in the list of bindings.
#[derive(Debug, Clone, Copy, PartialEq, Eq, Structural)]
pub enum HotkeyAction {
    SaveReplay { index: usize },
    ToggleReplayBuffer,
    ToggleRecording,
}

/// A character in upper case, if it is an ASCII letter.
pub open spec fn ascii_upper(c: char) -> char {
    if 'a' <= c <= 'z' {
        ((c as u32 - 32) as u32) as char
    } else {
        c
    }
}

/// The name of the key code of a key.
pub open spec fn code_text(key: Key) -> Seq<char> {
    match key {
        Key::Char(c) => if crate::text::is_digit(c) {
            "Digit"@.push(c)
        } else {
            "Key"@.push(ascii_upper(c))
        },
        Key::F(n) => "F"@ + crate::text::dec(n as nat),
        Key::Numpad(n) => "Numpad"@ + crate::text::dec(n as nat),
        Key::Space => "Space"@,
        Key::Enter => "Enter"@,
        Key::Escape => "Escape"@,
        Key::Tab => "Tab"@,
        Key::Backspace => "Backspace"@,
        Key::Delete => "Delete"@,
        Key::Insert => "Insert"@,
        Key::Home => "Home"@,
        Key::End => "End"@,
        Key::PageUp => "PageUp"@,
        Key::PageDown => "PageDown"@,
        Key::Up => "ArrowUp"@,
        Key::Down => "ArrowDown"@,
        Key::Left => "ArrowLeft"@,
        Key::Right => "ArrowRight"@,
        Key::PrintScreen => "PrintScreen"@,
        Key::ScrollLock => "ScrollLock"@,
        Key::Pause => "Pause"@,
    }
}

fn to_ascii_upper(c: char) -> (r: char)
    ensures
        r == ascii_upper(c),
{
    if 'a' <= c && c <= 'z' {
        let code: u8 = c as u8;
        (code - 32) as char
    } else {
        c
    }
}

/// The name of the key code of a key.
pub fn code_name(key: Key) -> (r: String)
    ensures
        r@ == code_text(key),
{
    match key {
        Key::Char(c) => {
            let mut s = if '0' <= c && c <= '9' {
                "Digit".to_owned()
            } else {
                "Key".to_owned()
            };
            if '0' <= c && c <= '9' {
                s.push(c);
            } else {
                s.push(to_ascii_upper(c));
            }
            s
        },
        Key::F(n) => join2("F", decimal(n as u64).as_str()),
        Key::Numpad(n) => join2("Numpad", decimal(n as u64).as_str()),
        Key::Space => "Space".to_owned(),
        Key::Enter => "Enter".to_owned(),
        Key::Escape => "Escape".to_owned(),
        Key::Tab => "Tab".to_owned(),
        Key::Backspace => "Backspace".to_owned(),
        Key::Delete => "Delete".to_owned(),
        Key::Insert => "Insert".to_owned(),
        Key::Home => "Home".to_owned(),
        Key::End => "End".to_owned(),
        Key::PageUp => "PageUp".to_owned(),
        Key::PageDown => "PageDown".to_owned(),
        Key::Up => "ArrowUp".to_owned(),
        Key::Down => "ArrowDown".to_owned(),
        Key::Left => "ArrowLeft".to_owned(),
        Key::Right => "ArrowRight".to_owned(),
        Key::PrintScreen => "PrintScreen".to_owned(),
        Key::ScrollLock => "ScrollLock".to_owned(),
        Key::Pause => "Pause".to_owned(),
    }
}

/// The number of the key code with this name, if there is one.
pub uninterp spec fn code_number(name: Seq<char>) -> Option<u32>;

/// `Code::from_str` of the `keyboard-types` crate, as `global-hotkey` offers
/// it: the number of the key code with this name. Which names there are is a
/// table; it has far fewer entries than a key code has room for.
#[verifier::external_body]
fn find_code(name: &str) -> (r: Option<u32>)
    ensures
        r == code_number(name@),
        r is Some ==> r->0 < 0x10000,
{
    let code = global_hotkey::hotkey::Code::from_str(name);
    code.ok().map(|c| c as u32)
}

/// The modifiers as a shortcut keeps them: the legacy "super" bit becomes the
/// "meta" bit.
pub open spec fn kept_mods(mods: u32) -> u32 {
    if mods & 0x2000 != 0 {
        (mods & !0x2000u32) | 0x40
    } else {
        mods
    }
}

/// The number that stands for a shortcut.
pub open spec fn shortcut_id(mods: u32, code: u32) -> u32 {
    (kept_mods(mods) << 16) | code
}

/// `HotKey::new` and `HotKey::id` of `global-hotkey`: the number of the
/// shortcut with these modifier bits and the key code of this name. The
/// modifiers stand above the lower half, which holds the code.
#[verifier::external_body]
fn hotkey_id(mods: u32, name: &str) -> (r: Option<u32>)
    requires
        mods & !0x2249u32 == 0,
    ensures
        match code_number(name@) {
            Some(code) => r == Some(shortcut_id(mods, code)),
            None => r is None,
        },
{
    let code = global_hotkey::hotkey::Code::from_str(name).ok()?;
    let mods = global_hotkey::hotkey::Modifiers::from_bits_truncate(mods);
    Some(global_hotkey::hotkey::HotKey::new(Some(mods), code).id())
}

/// The error for a key that has no code. `shown` is the key as the user sees
/// it.
pub open spec fn unsupported(shown: Seq<char>) -> Seq<char> {
    "unsupported key "@ + shown
}

fn unsupported_key(shown: &str) -> (r: AppError)
    ensures
        r matches AppError::Hotkey(text) && text@ == unsupported(shown@),
{
    AppError::Hotkey(join2("unsupported key ", shown))
}

/// The number of the key code of a key.
pub fn to_code(key: Key, shown: &str) -> (r: Result<u32, AppError>)
    ensures
        match r {
            Ok(code) => code_number(code_text(key)) == Some(code) && code < 0x10000,
            Err(error) => code_number(code_text(key)) is None && (error matches AppError::Hotkey(
                text,
            ) && text@ == unsupported(shown@)),
        },
{
    let name = code_name(key);
    match find_code(name.as_str()) {
        Some(code) => Ok(code),
        None => Err(unsupported_key(shown)),
    }
}

/// The bits of modifiers.
pub open spec fn mod_bits(m: KeyModifiers) -> u32 {
    (if m.ctrl {
        0x8u32
    } else {
        0u32
    }) | (if m.alt {
        0x1u32
    } else {
        0u32
    }) | (if m.shift {
        0x200u32
    } else {
        0u32
    }) | (if m.super_key {
        0x2000u32
    } else {
        0u32
    })
}

fn bits_of(m: KeyModifiers) -> (r: u32)
    ensures
        r == mod_bits(m),
        r & !0x2249u32 == 0,
{
    let ctrl: u32 = if m.ctrl {
        0x8
    } else {
        0
    };
    let alt: u32 = if m.alt {
        0x1
    } else {
        0
    };
    let shift: u32 = if m.shift {
        0x200
    } else {
        0
    };
    let meta: u32 = if m.super_key {
        0x2000
    } else {
        0
    };
    assert((ctrl | alt | shift | meta) & !0x2249u32 == 0) by (bit_vector)
        requires
            ctrl == 0 || ctrl == 0x8,
            alt == 0 || alt == 0x1,
            shift == 0 || shift == 0x200,
            meta == 0 || meta == 0x2000,
    ;
    ctrl | alt | shift | meta
}

/// A shortcut as the system knows it.
#[derive(Debug, Clone, Copy, PartialEq, Eq, Structural)]
pub struct Shortcut {
    /// The modifier bits.
    pub mods: u32,
    /// The number of the key code.
    pub code: u32,
    /// The number that a press comes with.
    pub id: u32,
}

/// The shortcut of a binding whose key has this code.
pub open spec fn shortcut_of(modifiers: KeyModifiers, code: u32) -> Shortcut {
    let mods = mod_bits(modifiers);
    Shortcut { mods: kept_mods(mods), code, id: shortcut_id(mods, code) }
}

/// The shortcut of a binding. `shown` is its key as the user sees it.
pub fn to_hotkey(binding: Hotkey, shown: &str) -> (r: Result<Shortcut, AppError>)
    ensures
        match code_number(code_text(binding.key)) {
            Some(code) => r == Ok::<Shortcut, AppError>(shortcut_of(binding.modifiers, code)),
            None => r matches Err(AppError::Hotkey(text)) && text@ == unsupported(shown@),
        },
{
    let mods: u32 = bits_of(binding.modifiers);
    let code: u32 = match to_code(binding.key, shown) {
        Ok(code) => code,
        Err(error) => return Err(error),
    };
    let name = code_name(binding.key);
    let kept: u32 = if mods & 0x2000 != 0 {
        (mods & !0x2000u32) | 0x40
    } else {
        mods
    };
    match hotkey_id(mods, name.as_str()) {
        Some(id) => Ok(Shortcut { mods: kept, code, id }),
        None => Err(unsupported_key(shown)),
    }
}

/// The shortcuts that are registered, and the bindings that were refused,
/// typically because another application owns them.
#[derive(Debug)]
pub struct Hotkeys {
    pub ids: HashMap<u32, HotkeyAction>,
    /// What each refused binding does, in words, and why it was refused.
    pub rejected: Vec<(String, String)>,
}

/// What a list of refused bindings says.
pub open spec fn refusals(list: Seq<(String, String)>) -> Seq<Seq<char>> {
    list.map_values(|p: (String, String)| p.0@ + ": "@ + p.1@)
}

impl Hotkeys {
    /// Nothing is registered.
    pub fn new() -> (r: Self)
        ensures
            r.ids@ == Map::<u32, HotkeyAction>::empty(),
            r.rejected.len() == 0,
    {
        Hotkeys { ids: HashMap::new(), rejected: Vec::new() }
    }

    /// Takes over a shortcut that the system registered.
    pub fn registered(&mut self, shortcut: Shortcut, action: HotkeyAction)
        ensures
            final(self).ids@ == old(self).ids@.insert(shortcut.id, action),
            final(self).rejected == old(self).rejected,
    {
        self.ids.insert(shortcut.id, action);
    }

    /// Takes over that a binding was refused; it is skipped rather than
    /// failing the start.
    pub fn refused(&mut self, label: String, reason: String)
        ensures
            final(self).ids == old(self).ids,
            final(self).rejected@ == old(self).rejected@.push((label, reason)),
    {
        self.rejected.push((label, reason));
    }

    /// The action of a key event: the one of its shortcut, when the key goes
    /// down.
    pub fn action(&self, id: u32, pressed: bool) -> (r: Option<HotkeyAction>)
        ensures
            r == if pressed && self.ids@.contains_key(id) {
                Some(self.ids@[id])
            } else {
                None
            },
    {
        if !pressed {
            return None;
        }
        match self.ids.get(&id) {
            Some(action) => Some(*action),
            None => None,
        }
    }

    /// A description of the problem for the user when any binding could not
    /// be installed.
    pub fn problem(&self) -> (r: Option<String>)
        ensures
            match r {
                Some(text) => self.rejected.len() > 0 && text@ == crate::text::joined(
                    refusals(self.rejected@),
                    ". "@,
                ),
                None => self.rejected.len() == 0,
            },
    {
        if self.rejected.len() == 0 {
            return None;
        }
        let mut parts: Vec<String> = Vec::new();
        let mut i: usize = 0;
        while i < self.rejected.len()
            invariant
                i <= self.rejected.len(),
                parts.len() == i,
                forall|k: int|
                    0 <= k < i ==> (#[trigger] parts@[k])@ == refusals(self.rejected@)[k],
            decreases self.rejected.len() - i,
        {
            parts.push(
                join3(self.rejected[i].0.as_str(), ": ", self.rejected[i].1.as_str()),
            );
            i = i + 1;
        }
        assert(crate::text::views(parts@) =~= refusals(self.rejected@));
        Some(crate::text::join(&parts, ". "))
    }
}

/// Shortcuts that differ in a modifier or in the key have different numbers,
/// so a press means one binding.
pub proof fn different_shortcuts_have_different_ids(
    a: KeyModifiers,
    b: KeyModifiers,
    code_a: u32,
    code_b: u32,
)
    requires
        a != b || code_a != code_b,
        code_a < 0x10000,
        code_b < 0x10000,
    ensures
        shortcut_of(a, code_a).id != shortcut_of(b, code_b).id,
{
    let x = mod_bits(a);
    let y = mod_bits(b);
    mods_are_told_apart(a, b);
    if x != y {
        assert(((if x & 0x2000 != 0 {
            (x & !0x2000u32) | 0x40
        } else {
            x
        }) << 16) | code_a != ((if y & 0x2000 != 0 {
            (y & !0x2000u32) | 0x40
        } else {
            y
        }) << 16) | code_b) by (bit_vector)
            requires
                x & !0x2209u32 == 0,
                y & !0x2209u32 == 0,
                x != y,
                code_a < 0x10000,
                code_b < 0x10000,
        ;
    } else {
        let m = kept_mods(x);
        assert((m << 16) | code_a != (m << 16) | code_b) by (bit_vector)
            requires
                code_a != code_b,
                code_a < 0x10000,
                code_b < 0x10000,
        ;
    }
}

proof fn mods_are_told_apart(a: KeyModifiers, b: KeyModifiers)
    ensures
        mod_bits(a) & !0x2209u32 == 0,
        mod_bits(b) & !0x2209u32 == 0,
        a != b ==> mod_bits(a) != mod_bits(b),
{
    let (c1, a1, s1, m1) = (a.ctrl, a.alt, a.shift, a.super_key);
    let (c2, a2, s2, m2) = (b.ctrl, b.alt, b.shift, b.super_key);
    let x = mod_bits(a);
    let y = mod_bits(b);
    assert(x & !0x2209u32 == 0 && (x & 0x8 != 0) == c1 && (x & 0x1 != 0) == a1 && (x & 0x200 != 0)
        == s1 && (x & 0x2000 != 0) == m1) by (bit_vector)
        requires
            x == (if c1 {
                0x8u32
            } else {
                0u32
            }) | (if a1 {
                0x1u32
            } else {
                0u32
            }) | (if s1 {
                0x200u32
            } else {
                0u32
            }) | (if m1 {
                0x2000u32
            } else {
                0u32
            }),
    ;
    assert(y & !0x2209u32 == 0 && (y & 0x8 != 0) == c2 && (y & 0x1 != 0) == a2 && (y & 0x200 != 0)
        == s2 && (y & 0x2000 != 0) == m2) by (bit_vector)
        requires
            y == (if c2 {
                0x8u32
            } else {
                0u32
            }) | (if a2 {
                0x1u32
            } else {
                0u32
            }) | (if s2 {
                0x200u32
            } else {
                0u32
            }) | (if m2 {
                0x2000u32
            } else {
                0u32
            }),
    ;
}

/// Each modifier that is held has its own bit in a shortcut, the key stands in
/// the lower half of its number and the modifiers above it.
pub proof fn a_shortcut_holds_its_modifiers(m: KeyModifiers, code: u32)
    requires
        code < 0x10000,
    ensures
        shortcut_of(m, code).code == code,
        shortcut_of(m, code).mods & 0x1 != 0 <==> m.alt,
        shortcut_of(m, code).mods & 0x8 != 0 <==> m.ctrl,
        shortcut_of(m, code).mods & 0x200 != 0 <==> m.shift,
        shortcut_of(m, code).mods & 0x40 != 0 <==> m.super_key,
        shortcut_of(m, code).mods & !0x249u32 == 0,
        shortcut_of(m, code).id & 0xffff == code,
        shortcut_of(m, code).id >> 16 == shortcut_of(m, code).mods,
{
    let (c1, a1, s1, m1) = (m.ctrl, m.alt, m.shift, m.super_key);
    let x = mod_bits(m);
    mods_are_told_apart(m, m);
    assert(x & !0x2209u32 == 0 && (x & 0x8 != 0) == c1 && (x & 0x1 != 0) == a1 && (x & 0x200 != 0)
        == s1 && (x & 0x2000 != 0) == m1) by (bit_vector)
        requires
            x == (if c1 {
                0x8u32
            } else {
                0u32
            }) | (if a1 {
                0x1u32
            } else {
                0u32
            }) | (if s1 {
                0x200u32
            } else {
                0u32
            }) | (if m1 {
                0x2000u32
            } else {
                0u32
            }),
    ;
    let k = kept_mods(x);
    assert((k & 0x1 != 0) == (x & 0x1 != 0) && (k & 0x8 != 0) == (x & 0x8 != 0) && (k & 0x200 != 0)
        == (x & 0x200 != 0) && (k & 0x40 != 0) == (x & 0x2000 != 0) && k & !0x249u32 == 0) by (
    bit_vector)
        requires
            x & !0x2209u32 == 0,
            k == if x & 0x2000 != 0 {
                (x & !0x2000u32) | 0x40
            } else {
                x
            },
    ;
    assert(((k << 16) | code) & 0xffff == code && ((k << 16) | code) >> 16 == k) by (bit_vector)
        requires
            k & !0x249u32 == 0,
            code < 0x10000,
    ;
}

/// A letter is the key with its capital, a digit the key of its row.
pub proof fn letters_and_digits_have_their_keys(k: int)
    ensures
        0 <= k < 26 ==> code_text(Key::Char(('a' as int + k) as char)) == "Key"@.push(
            ('A' as int + k) as char,
        ) && code_text(Key::Char(('A' as int + k) as char)) == "Key"@.push(('A' as int + k) as char),
        0 <= k < 10 ==> code_text(Key::Char(('0' as int + k) as char)) == "Digit"@.push(
            ('0' as int + k) as char,
        ),
        0 <= k < 10 ==> code_text(Key::Numpad(k as u8)) == "Numpad"@.push(('0' as int + k) as char),
{
    if 0 <= k < 10 {
        assert("Numpad"@ + crate::text::dec(k as nat) =~= "Numpad"@.push(('0' as int + k) as char));
    }
}

} // verus!
