//! Conversion between the settings and the state of the settings page.
use vstd::prelude::*;

use crate::config::{
    EncoderPreference, GameAction, Hotkey, HotkeyActionKind, HotkeyBinding, Key, KeyModifiers, Language,
};
use crate::numbers::round_ratio;
use crate::text::{decimal, join2, join3, split, to_uppercase};

pub mod audio;
pub mod changes;
pub mod games;
pub mod meaning;
pub mod page;

verus! {

/// The unchanged level: the bit pattern of 1.0.
pub const UNIT_VOLUME: u32 = 0x3f80_0000;

/// Hotkey rows use key capture action ids from this value upwards.
pub const SAVE_ACTION_BASE: i32 = 100;

pub open spec fn encoder_index(encoder: EncoderPreference) -> int {
    match encoder {
        EncoderPreference::Auto => 0,
        EncoderPreference::Nvenc => 1,
        EncoderPreference::QuickSync => 2,
        EncoderPreference::Amf => 3,
        EncoderPreference::Software => 4,
    }
}

pub open spec fn encoder_at(index: int) -> EncoderPreference {
    if index == 1 {
        EncoderPreference::Nvenc
    } else if index == 2 {
        EncoderPreference::QuickSync
    } else if index == 3 {
        EncoderPreference::Amf
    } else if index == 4 {
        EncoderPreference::Software
    } else {
        EncoderPreference::Auto
    }
}

pub open spec fn language_index(language: Language) -> int {
    match language {
        Language::English => 0,
        Language::Spanish => 1,
        Language::French => 2,
        Language::German => 3,
        Language::Russian => 4,
        Language::Portuguese => 5,
        Language::Italian => 6,
    }
}

pub open spec fn language_at(index: int) -> Language {
    if index == 1 {
        Language::Spanish
    } else if index == 2 {
        Language::French
    } else if index == 3 {
        Language::German
    } else if index == 4 {
        Language::Russian
    } else if index == 5 {
        Language::Portuguese
    } else if index == 6 {
        Language::Italian
    } else {
        Language::English
    }
}

pub open spec fn action_index(action: HotkeyActionKind) -> int {
    match action {
        HotkeyActionKind::SaveReplay => 0,
        HotkeyActionKind::ToggleBuffer => 1,
        HotkeyActionKind::ToggleRecording => 2,
    }
}

pub open spec fn action_at(index: int) -> HotkeyActionKind {
    if index == 1 {
        HotkeyActionKind::ToggleBuffer
    } else if index == 2 {
        HotkeyActionKind::ToggleRecording
    } else {
        HotkeyActionKind::SaveReplay
    }
}

pub open spec fn game_action_index(action: GameAction) -> int {
    match action {
        GameAction::Buffer => 0,
        GameAction::Recording => 1,
        GameAction::Ignore => 2,
    }
}

pub open spec fn game_action_at(index: int) -> GameAction {
    if index == 1 {
        GameAction::Recording
    } else if index == 2 {
        GameAction::Ignore
    } else {
        GameAction::Buffer
    }
}

pub(crate) fn index_of_encoder(encoder: EncoderPreference) -> (r: i32)
    ensures
        r == encoder_index(encoder),
{
    match encoder {
        EncoderPreference::Auto => 0,
        EncoderPreference::Nvenc => 1,
        EncoderPreference::QuickSync => 2,
        EncoderPreference::Amf => 3,
        EncoderPreference::Software => 4,
    }
}

pub(crate) fn encoder_of_index(index: i32) -> (r: EncoderPreference)
    ensures
        r == encoder_at(index as int),
{
    match index {
        1 => EncoderPreference::Nvenc,
        2 => EncoderPreference::QuickSync,
        3 => EncoderPreference::Amf,
        4 => EncoderPreference::Software,
        _ => EncoderPreference::Auto,
    }
}

pub(crate) fn index_of_language(language: Language) -> (r: i32)
    ensures
        r == language_index(language),
{
    match language {
        Language::English => 0,
        Language::Spanish => 1,
        Language::French => 2,
        Language::German => 3,
        Language::Russian => 4,
        Language::Portuguese => 5,
        Language::Italian => 6,
    }
}

pub(crate) fn language_of_index(index: i32) -> (r: Language)
    ensures
        r == language_at(index as int),
{
    match index {
        1 => Language::Spanish,
        2 => Language::French,
        3 => Language::German,
        4 => Language::Russian,
        5 => Language::Portuguese,
        6 => Language::Italian,
        _ => Language::English,
    }
}

fn index_of_action(action: HotkeyActionKind) -> (r: i32)
    ensures
        r == action_index(action),
{
    match action {
        HotkeyActionKind::SaveReplay => 0,
        HotkeyActionKind::ToggleBuffer => 1,
        HotkeyActionKind::ToggleRecording => 2,
    }
}

fn action_of_index(index: i32) -> (r: HotkeyActionKind)
    ensures
        r == action_at(index as int),
{
    match index {
        1 => HotkeyActionKind::ToggleBuffer,
        2 => HotkeyActionKind::ToggleRecording,
        _ => HotkeyActionKind::SaveReplay,
    }
}

pub(crate) fn index_of_game_action(action: GameAction) -> (r: i32)
    ensures
        r == game_action_index(action),
{
    match action {
        GameAction::Buffer => 0,
        GameAction::Recording => 1,
        GameAction::Ignore => 2,
    }
}

pub(crate) fn game_action_of_index(index: i32) -> (r: GameAction)
    ensures
        r == game_action_at(index as int),
{
    match index {
        1 => GameAction::Recording,
        2 => GameAction::Ignore,
        _ => GameAction::Buffer,
    }
}

/// The quality preset with this frame rate and bitrate; the number of presets
/// stands for custom.
pub open spec fn preset_of(fps: u32, bitrate_kbps: u32) -> int {
    if fps == 30 && bitrate_kbps == 8000 {
        0
    } else if fps == 60 && bitrate_kbps == 15000 {
        1
    } else if fps == 60 && bitrate_kbps == 30000 {
        2
    } else {
        3
    }
}

/// The name of a quality preset.
pub open spec fn preset_name(preset: int) -> Seq<char> {
    if preset == 0 {
        "Low"@
    } else if preset == 1 {
        "Standard"@
    } else {
        "High"@
    }
}

/// The quality preset with this frame rate and bitrate; the number of presets
/// stands for custom.
pub fn quality_index(fps: u32, bitrate_kbps: u32) -> (r: i32)
    ensures
        r == preset_of(fps, bitrate_kbps),
{
    if fps == 30 && bitrate_kbps == 8000 {
        0
    } else if fps == 60 && bitrate_kbps == 15000 {
        1
    } else if fps == 60 && bitrate_kbps == 30000 {
        2
    } else {
        3
    }
}

/// Short quality description for the top bar.
pub fn quality_label(fps: u32, bitrate_kbps: u32) -> (r: String)
    ensures
        r@ == (if preset_of(fps, bitrate_kbps) < 3 {
            preset_name(preset_of(fps, bitrate_kbps)) + " quality, "@ + crate::text::dec(
                fps as nat,
            ) + " fps"@
        } else {
            crate::text::dec(fps as nat) + " fps, "@ + crate::text::dec(
                crate::numbers::nearest(bitrate_kbps as nat, 1000),
            ) + " Mbps"@
        }),
{
    let preset: i32 = quality_index(fps, bitrate_kbps);
    if preset < 3 {
        let name = if preset == 0 {
            "Low"
        } else if preset == 1 {
            "Standard"
        } else {
            "High"
        };
        let mut s = join3(name, " quality, ", decimal(fps as u64).as_str());
        s.append(" fps");
        s
    } else {
        let mut s = join2(decimal(fps as u64).as_str(), " fps, ");
        s.append(decimal(round_ratio(bitrate_kbps as u64, 1000)).as_str());
        s.append(" Mbps");
        s
    }
}

/// Keycap texts for the text of a hotkey, for example `ALT` and `F7`.
pub fn key_parts(hotkey: &str) -> (r: Vec<String>)
    ensures
        crate::text::views(r@) == crate::text::split_at_char(hotkey@, '+').map_values(
            |p: Seq<char>| crate::text::uppercase(p),
        ),
{
    let parts = split(hotkey, '+');
    let ghost pieces = crate::text::views(parts@);
    let mut out: Vec<String> = Vec::new();
    let mut i: usize = 0;
    while i < parts.len()
        invariant
            i <= parts.len(),
            out.len() == i,
            pieces == crate::text::views(parts@),
            forall|k: int| 0 <= k < i ==> (#[trigger] out@[k])@ == crate::text::uppercase(pieces[k]),
        decreases parts.len() - i,
    {
        out.push(to_uppercase(parts[i].as_str()));
        i = i + 1;
    }
    assert(crate::text::views(out@) =~= pieces.map_values(
        |p: Seq<char>| crate::text::uppercase(p),
    ));
    out
}

/// A hotkey row of the settings page. The binding is what its text means, or
/// why it means nothing.
#[derive(Debug)]
pub struct HotkeyRow {
    pub binding: Result<Hotkey, String>,
    pub action_index: i32,
    pub minutes: i32,
    pub seconds: i32,
}

/// What the row of a hotkey shows.
pub open spec fn row_of(b: HotkeyBinding) -> HotkeyRow {
    HotkeyRow {
        binding: Ok(b.binding),
        action_index: action_index(b.action) as i32,
        minutes: (b.seconds / 60) as i32,
        seconds: (b.seconds % 60) as i32,
    }
}

fn hotkey_row(b: &HotkeyBinding) -> (r: HotkeyRow)
    ensures
        r == row_of(*b),
{
    HotkeyRow {
        binding: Ok(b.binding),
        action_index: index_of_action(b.action),
        minutes: (b.seconds / 60) as i32,
        seconds: (b.seconds % 60) as i32,
    }
}

/// The rows of the hotkeys, in order.
pub fn set_hotkeys(bindings: &Vec<HotkeyBinding>) -> (r: Vec<HotkeyRow>)
    ensures
        r@ == bindings@.map_values(|b: HotkeyBinding| row_of(b)),
{
    let mut rows: Vec<HotkeyRow> = Vec::new();
    let mut i: usize = 0;
    while i < bindings.len()
        invariant
            i <= bindings.len(),
            rows.len() == i,
            forall|k: int| 0 <= k < i ==> rows@[k] == row_of(bindings@[k]),
        decreases bindings.len() - i,
    {
        rows.push(hotkey_row(&bindings[i]));
        i = i + 1;
    }
    assert(rows@ =~= bindings@.map_values(|b: HotkeyBinding| row_of(b)));
    rows
}

/// Replaces the binding of one row after a key capture.
pub fn set_hotkey_binding(rows: &mut Vec<HotkeyRow>, index: usize, hotkey: Hotkey)
    ensures
        final(rows)@ == (if index < old(rows).len() {
            old(rows)@.update(
                index as int,
                HotkeyRow { binding: Ok(hotkey), ..old(rows)@[index as int] },
            )
        } else {
            old(rows)@
        }),
{
    if index < rows.len() {
        let row = HotkeyRow {
            binding: Ok(hotkey),
            action_index: rows[index].action_index,
            minutes: rows[index].minutes,
            seconds: rows[index].seconds,
        };
        rows[index] = row;
    }
}

/// How many keys a hotkey can be made of.
pub const KEYS: usize = 99;

/// How many hotkeys are offered for a new row: every key with every combination
/// of the four modifiers, and alone.
pub const OFFERED: usize = 1584;

/// How many hotkeys there are of the function keys one to twelve with a
/// modifier.
pub const FUNCTION_HOTKEYS: usize = 180;

/// How many hotkeys there are of any key with a modifier.
pub const MODIFIED_HOTKEYS: usize = 1485;

/// The keys that a hotkey can be made of: the function keys one to twelve, the
/// letters, the digits, the keypad, the named keys and the other function keys.
pub open spec fn key_at(k: int) -> Key {
    if k < 12 {
        Key::F((k + 1) as u8)
    } else if k < 38 {
        Key::Char((97 + (k - 12)) as char)
    } else if k < 48 {
        Key::Char((48 + (k - 38)) as char)
    } else if k < 58 {
        Key::Numpad((k - 48) as u8)
    } else if k < 76 {
        named_key(k - 58)
    } else {
        Key::F((k - 76 + 13) as u8)
    }
}

/// The keys that have a name of their own.
pub open spec fn named_key(k: int) -> Key {
    if k == 0 {
        Key::Space
    } else if k == 1 {
        Key::Enter
    } else if k == 2 {
        Key::Escape
    } else if k == 3 {
        Key::Tab
    } else if k == 4 {
        Key::Backspace
    } else if k == 5 {
        Key::Delete
    } else if k == 6 {
        Key::Insert
    } else if k == 7 {
        Key::Home
    } else if k == 8 {
        Key::End
    } else if k == 9 {
        Key::PageUp
    } else if k == 10 {
        Key::PageDown
    } else if k == 11 {
        Key::Up
    } else if k == 12 {
        Key::Down
    } else if k == 13 {
        Key::Left
    } else if k == 14 {
        Key::Right
    } else if k == 15 {
        Key::PrintScreen
    } else if k == 16 {
        Key::ScrollLock
    } else {
        Key::Pause
    }
}

/// Whether a hotkey can be made of a key: the function keys one to thirty-five,
/// the letters in lower case, the digits, the digits of the keypad and the named
/// keys. No other key has a key code of its own.
pub open spec fn is_known_key(key: Key) -> bool {
    match key {
        Key::F(n) => 1 <= n <= 35,
        Key::Char(c) => 'a' <= c <= 'z' || '0' <= c <= '9',
        Key::Numpad(n) => n <= 9,
        _ => true,
    }
}

/// Whether a hotkey can work: its key has a key code. Any modifiers will do.
pub open spec fn is_supported(hotkey: Hotkey) -> bool {
    is_known_key(hotkey.key)
}

/// The modifiers that a number stands for, one bit each.
pub open spec fn modifiers_at(with: int) -> KeyModifiers {
    KeyModifiers {
        ctrl: (with / 2) % 2 == 1,
        alt: with % 2 == 1,
        shift: (with / 4) % 2 == 1,
        super_key: (with / 8) % 2 == 1,
    }
}

/// The hotkeys that are offered for a new row, in this order: the function keys
/// one to twelve with `Alt`, then the same with `Ctrl`, with both, and so on
/// through the combinations of the four modifiers; then the other keys in the
/// same way; then every key alone.
pub open spec fn offered(n: int) -> Hotkey {
    if n < FUNCTION_HOTKEYS {
        Hotkey { modifiers: modifiers_at(n / 12 + 1), key: key_at(n % 12) }
    } else if n < MODIFIED_HOTKEYS {
        let k = n - FUNCTION_HOTKEYS;
        Hotkey { modifiers: modifiers_at(k / 87 + 1), key: key_at(k % 87 + 12) }
    } else {
        Hotkey { modifiers: modifiers_at(0), key: key_at(n - MODIFIED_HOTKEYS) }
    }
}

/// Whether a row has this hotkey.
pub open spec fn uses(rows: Seq<HotkeyRow>, hotkey: Hotkey) -> bool {
    exists|i: int|
        0 <= i < rows.len() && (#[trigger] rows[i]).binding == Ok::<Hotkey, String>(hotkey)
}

fn find_named_key(k: usize) -> (r: Key)
    ensures
        r == named_key(k as int),
{
    match k {
        0 => Key::Space,
        1 => Key::Enter,
        2 => Key::Escape,
        3 => Key::Tab,
        4 => Key::Backspace,
        5 => Key::Delete,
        6 => Key::Insert,
        7 => Key::Home,
        8 => Key::End,
        9 => Key::PageUp,
        10 => Key::PageDown,
        11 => Key::Up,
        12 => Key::Down,
        13 => Key::Left,
        14 => Key::Right,
        15 => Key::PrintScreen,
        16 => Key::ScrollLock,
        _ => Key::Pause,
    }
}

fn find_key(k: usize) -> (r: Key)
    requires
        k < KEYS,
    ensures
        r == key_at(k as int),
{
    if k < 12 {
        Key::F((k + 1) as u8)
    } else if k < 38 {
        let code: u8 = (97 + (k - 12)) as u8;
        Key::Char(code as char)
    } else if k < 48 {
        let code: u8 = (48 + (k - 38)) as u8;
        Key::Char(code as char)
    } else if k < 58 {
        Key::Numpad((k - 48) as u8)
    } else if k < 76 {
        find_named_key(k - 58)
    } else {
        Key::F((k - 76 + 13) as u8)
    }
}

fn find_modifiers(with: usize) -> (r: KeyModifiers)
    ensures
        r == modifiers_at(with as int),
{
    KeyModifiers {
        ctrl: (with / 2) % 2 == 1,
        alt: with % 2 == 1,
        shift: (with / 4) % 2 == 1,
        super_key: (with / 8) % 2 == 1,
    }
}

fn offered_hotkey(n: usize) -> (r: Hotkey)
    requires
        n < OFFERED,
    ensures
        r == offered(n as int),
{
    if n < FUNCTION_HOTKEYS {
        Hotkey { modifiers: find_modifiers(n / 12 + 1), key: find_key(n % 12) }
    } else if n < MODIFIED_HOTKEYS {
        let k: usize = n - FUNCTION_HOTKEYS;
        Hotkey { modifiers: find_modifiers(k / 87 + 1), key: find_key(k % 87 + 12) }
    } else {
        Hotkey { modifiers: find_modifiers(0), key: find_key(n - MODIFIED_HOTKEYS) }
    }
}

fn uses_hotkey(rows: &Vec<HotkeyRow>, hotkey: Hotkey) -> (r: bool)
    ensures
        r == uses(rows@, hotkey),
{
    let mut i: usize = 0;
    while i < rows.len()
        invariant
            i <= rows.len(),
            forall|k: int|
                0 <= k < i ==> (#[trigger] rows@[k]).binding != Ok::<Hotkey, String>(hotkey),
        decreases rows.len() - i,
    {
        if let Ok(b) = &rows[i].binding {
            if *b == hotkey {
                assert(rows@[i as int].binding == Ok::<Hotkey, String>(hotkey));
                return true;
            }
        }
        i = i + 1;
    }
    false
}

/// The place of the first offered hotkey from `n` on that no row has, zero when
/// there is none.
pub open spec fn first_free(rows: Seq<HotkeyRow>, n: nat) -> nat
    decreases OFFERED - n,
{
    if n >= OFFERED {
        0
    } else if !uses(rows, offered(n as int)) {
        n
    } else {
        first_free(rows, n + 1)
    }
}

proof fn first_free_is_free(rows: Seq<HotkeyRow>, n: nat, at: nat)
    requires
        n <= at < OFFERED,
        !uses(rows, offered(at as int)),
    ensures
        first_free(rows, n) < OFFERED,
        !uses(rows, offered(first_free(rows, n) as int)),
    decreases at - n,
{
    if uses(rows, offered(n as int)) {
        first_free_is_free(rows, n + 1, at);
    }
}

/// The number that stands for modifiers.
spec fn modifier_number(modifiers: KeyModifiers) -> int {
    (if modifiers.alt {
        1int
    } else {
        0
    }) + (if modifiers.ctrl {
        2int
    } else {
        0
    }) + (if modifiers.shift {
        4int
    } else {
        0
    }) + (if modifiers.super_key {
        8int
    } else {
        0
    })
}

proof fn every_key_has_a_place(key: Key) -> (k: int)
    requires
        is_known_key(key),
    ensures
        0 <= k < KEYS,
        key_at(k) == key,
{
    match key {
        Key::F(n) => if n <= 12 {
            n - 1
        } else {
            n - 13 + 76
        },
        Key::Char(c) => {
            let code = c as int;
            if 'a' <= c {
                assert((97 + (code - 97)) as char == c);
                code - 97 + 12
            } else {
                assert((48 + (code - 48)) as char == c);
                code - 48 + 38
            }
        },
        Key::Numpad(n) => n + 48,
        Key::Space => 58,
        Key::Enter => 59,
        Key::Escape => 60,
        Key::Tab => 61,
        Key::Backspace => 62,
        Key::Delete => 63,
        Key::Insert => 64,
        Key::Home => 65,
        Key::End => 66,
        Key::PageUp => 67,
        Key::PageDown => 68,
        Key::Up => 69,
        Key::Down => 70,
        Key::Left => 71,
        Key::Right => 72,
        Key::PrintScreen => 73,
        Key::ScrollLock => 74,
        Key::Pause => 75,
    }
}

/// Every hotkey that can work is offered.
pub proof fn every_supported_hotkey_is_offered(hotkey: Hotkey) -> (n: int)
    requires
        is_supported(hotkey),
    ensures
        0 <= n < OFFERED,
        offered(n) == hotkey,
{
    let k = every_key_has_a_place(hotkey.key);
    let with = modifier_number(hotkey.modifiers);
    assert(0 <= with < 16);
    assert(modifiers_at(with) == hotkey.modifiers);
    if with == 0 {
        MODIFIED_HOTKEYS + k
    } else if k < 12 {
        let n = (with - 1) * 12 + k;
        assert(n / 12 == with - 1 && n % 12 == k);
        n
    } else {
        let m = (with - 1) * 87 + (k - 12);
        assert(m / 87 == with - 1 && m % 87 == k - 12);
        FUNCTION_HOTKEYS + m
    }
}

/// What is offered can work.
pub proof fn every_offered_hotkey_is_supported(n: int)
    requires
        0 <= n < OFFERED,
    ensures
        is_supported(offered(n)),
{
}

proof fn function_hotkeys_differ(a: int, b: int)
    requires
        0 <= a < b < FUNCTION_HOTKEYS,
    ensures
        offered(a) != offered(b),
{
    if offered(a) == offered(b) {
        assert(a % 12 == b % 12);
        let (x, y) = (a / 12 + 1, b / 12 + 1);
        assert(1 <= x < 16 && 1 <= y < 16);
        assert(x % 2 == y % 2);
        assert((x / 2) % 2 == (y / 2) % 2);
        assert((x / 4) % 2 == (y / 4) % 2);
        assert((x / 8) % 2 == (y / 8) % 2);
        assert(x == y);
    }
}

/// As long as there are fewer rows than hotkeys of the first function keys, one
/// of these is free.
proof fn some_hotkey_is_free(rows: Seq<HotkeyRow>)
    requires
        rows.len() < FUNCTION_HOTKEYS,
    ensures
        exists|n: int| 0 <= n < FUNCTION_HOTKEYS && !uses(rows, #[trigger] offered(n)),
{
    if forall|n: int| 0 <= n < FUNCTION_HOTKEYS ==> uses(rows, #[trigger] offered(n)) {
        let all = Seq::new(FUNCTION_HOTKEYS as nat, |n: int| offered(n));
        let taken = rows.map_values(
            |row: HotkeyRow|
                match row.binding {
                    Ok(hotkey) => hotkey,
                    Err(_) => offered(0),
                },
        );
        assert(all.no_duplicates()) by {
            assert forall|a: int, b: int| 0 <= a < b < all.len() implies all[a] != all[b] by {
                function_hotkeys_differ(a, b);
            }
        }
        all.unique_seq_to_set();
        taken.lemma_cardinality_of_set();
        assert forall|hotkey: Hotkey| all.to_set().contains(hotkey) implies taken.to_set().contains(
            hotkey,
        ) by {
            let n = choose|n: int| 0 <= n < all.len() && all[n] == hotkey;
            assert(uses(rows, offered(n)));
            let i = choose|i: int|
                0 <= i < rows.len() && (#[trigger] rows[i]).binding == Ok::<Hotkey, String>(hotkey);
            assert(taken[i] == hotkey);
        }
        vstd::set_lib::lemma_len_subset(all.to_set(), taken.to_set());
    }
}

/// Appends a save row with a binding that is not used yet: the first one of the
/// offered hotkeys that no row has. Only where every hotkey that can work is
/// taken, the new row has the first of them.
pub fn add_hotkey(rows: &mut Vec<HotkeyRow>)
    ensures
        final(rows)@ == old(rows)@.push(
            row_of(
                HotkeyBinding {
                    binding: offered(first_free(old(rows)@, 0) as int),
                    action: HotkeyActionKind::SaveReplay,
                    seconds: 15,
                },
            ),
        ),
        (exists|h: Hotkey| is_supported(h) && !#[trigger] uses(old(rows)@, h)) ==> !uses(
            old(rows)@,
            final(rows)@.last().binding->Ok_0,
        ),
        old(rows).len() < FUNCTION_HOTKEYS ==> !uses(
            old(rows)@,
            final(rows)@.last().binding->Ok_0,
        ),
        is_supported(final(rows)@.last().binding->Ok_0),
{
    let mut n: usize = 0;
    while n < OFFERED && uses_hotkey(rows, offered_hotkey(n))
        invariant
            n <= OFFERED,
            rows@ == old(rows)@,
            first_free(rows@, 0) == first_free(rows@, n as nat),
        decreases OFFERED - n,
    {
        n = n + 1;
    }
    if n >= OFFERED {
        n = 0;
    }
    proof {
        if rows.len() < FUNCTION_HOTKEYS {
            some_hotkey_is_free(rows@);
        }
        if exists|h: Hotkey| is_supported(h) && !#[trigger] uses(rows@, h) {
            let h = choose|h: Hotkey| is_supported(h) && !#[trigger] uses(rows@, h);
            let k = every_supported_hotkey_is_offered(h);
            assert(!uses(rows@, offered(k)));
        }
        every_offered_hotkey_is_supported(first_free(rows@, 0) as int);
        if exists|k: int| 0 <= k < OFFERED && !uses(rows@, #[trigger] offered(k)) {
            let k = choose|k: int| 0 <= k < OFFERED && !uses(rows@, #[trigger] offered(k));
            first_free_is_free(rows@, 0, k as nat);
        }
    }
    rows.push(
        hotkey_row(
            &HotkeyBinding {
                binding: offered_hotkey(n),
                action: HotkeyActionKind::SaveReplay,
                seconds: 15,
            },
        ),
    );
}

/// Removes a row. The last one stays.
pub fn remove_hotkey(rows: &mut Vec<HotkeyRow>, index: usize)
    ensures
        final(rows)@ == (if old(rows).len() > 1 && index < old(rows).len() {
            old(rows)@.remove(index as int)
        } else {
            old(rows)@
        }),
{
    if rows.len() > 1 && index < rows.len() {
        let _ = rows.remove(index);
    }
}

/// `value` kept between `low` and `high`.
pub open spec fn clamped(value: int, low: int, high: int) -> int {
    if value < low {
        low
    } else if value > high {
        high
    } else {
        value
    }
}

fn clamp(value: i32, low: i32, high: i32) -> (r: i32)
    requires
        low <= high,
    ensures
        r == clamped(value as int, low as int, high as int),
{
    if value < low {
        low
    } else if value > high {
        high
    } else {
        value
    }
}

/// How many seconds minutes and seconds on the page mean.
pub open spec fn page_seconds(minutes: i32, seconds: i32) -> int {
    clamped(minutes as int, 0, 60) * 60 + clamped(seconds as int, 0, 59)
}

/// How many seconds minutes and seconds on the page mean.
pub fn seconds_of(minutes: i32, seconds: i32) -> (r: u32)
    ensures
        r == page_seconds(minutes, seconds),
        r <= 3659,
{
    clamp(minutes, 0, 60) as u32 * 60 + clamp(seconds, 0, 59) as u32
}

/// The hotkey that a row means.
pub open spec fn binding_of(row: HotkeyRow) -> HotkeyBinding {
    HotkeyBinding {
        binding: row.binding->Ok_0,
        action: action_at(row.action_index as int),
        seconds: if action_at(row.action_index as int) == HotkeyActionKind::SaveReplay {
            page_seconds(row.minutes, row.seconds) as u32
        } else {
            0
        },
    }
}

/// Whether every row has a hotkey.
pub open spec fn all_bound(rows: Seq<HotkeyRow>) -> bool {
    forall|i: int| 0 <= i < rows.len() ==> (#[trigger] rows[i]).binding is Ok
}

/// The hotkeys that the rows mean, or the first row that means none.
pub fn collect_hotkeys(rows: &Vec<HotkeyRow>) -> (r: Result<Vec<HotkeyBinding>, String>)
    ensures
        match r {
            Ok(bindings) => all_bound(rows@) && bindings@ == rows@.map_values(
                |row: HotkeyRow| binding_of(row),
            ),
            Err(text) => exists|i: int|
                0 <= i < rows.len() && all_bound(rows@.take(i)) && (#[trigger] rows@[i]).binding
                    is Err && text@ == "Hotkey "@ + crate::text::dec((i + 1) as nat) + ": "@
                    + rows@[i].binding->Err_0@,
        },
{
    let mut bindings: Vec<HotkeyBinding> = Vec::new();
    let mut i: usize = 0;
    while i < rows.len()
        invariant
            i <= rows.len(),
            bindings.len() == i,
            forall|k: int| 0 <= k < i ==> (#[trigger] rows@[k]).binding is Ok,
            forall|k: int| 0 <= k < i ==> bindings@[k] == binding_of(rows@[k]),
        decreases rows.len() - i,
    {
        let row = &rows[i];
        match &row.binding {
            Ok(binding) => {
                let action = action_of_index(row.action_index);
                let seconds: u32 = if action == HotkeyActionKind::SaveReplay {
                    seconds_of(row.minutes, row.seconds)
                } else {
                    0
                };
                bindings.push(HotkeyBinding { binding: *binding, action, seconds });
            },
            Err(reason) => {
                let mut text = join3("Hotkey ", decimal(i as u64 + 1).as_str(), ": ");
                text.append(reason.as_str());
                assert(all_bound(rows@.take(i as int)));
                assert(rows@[i as int].binding is Err);
                return Err(text);
            },
        }
        i = i + 1;
    }
    assert(bindings@ =~= rows@.map_values(|row: HotkeyRow| binding_of(row)));
    Ok(bindings)
}

/// The longest clip that a hotkey saves, in seconds.
pub open spec fn longest_save(bindings: Seq<HotkeyBinding>) -> u32
    decreases bindings.len(),
{
    if bindings.len() == 0 {
        0
    } else {
        let rest = longest_save(bindings.drop_last());
        let b = bindings.last();
        if b.action == HotkeyActionKind::SaveReplay && b.seconds > rest {
            b.seconds
        } else {
            rest
        }
    }
}

pub(crate) fn find_longest_save(bindings: &Vec<HotkeyBinding>) -> (r: u32)
    ensures
        r == longest_save(bindings@),
{
    let mut longest: u32 = 0;
    let mut i: usize = 0;
    while i < bindings.len()
        invariant
            i <= bindings.len(),
            longest == longest_save(bindings@.take(i as int)),
        decreases bindings.len() - i,
    {
        let b = &bindings[i];
        assert(bindings@.take(i + 1).drop_last() =~= bindings@.take(i as int));
        if b.action == HotkeyActionKind::SaveReplay && b.seconds > longest {
            longest = b.seconds;
        }
        i = i + 1;
    }
    assert(bindings@.take(i as int) =~= bindings@);
    longest
}

/// The keys are listed by groups, each in its own order: the function keys of a
/// keyboard, letters, digits, the number pad, named keys, further function keys.
pub proof fn the_keys_are_listed_in_order(k: int)
    requires
        0 <= k,
    ensures
        k < 12 ==> key_at(k) == Key::F((k + 1) as u8),
        k < 26 ==> key_at(12 + k) == Key::Char(('a' as int + k) as char),
        k < 10 ==> key_at(38 + k) == Key::Char(('0' as int + k) as char) && key_at(48 + k)
            == Key::Numpad(k as u8),
        k < 12 ==> key_at(76 + k) == Key::F((k + 13) as u8),
        key_at(58) == Key::Space && key_at(59) == Key::Enter && key_at(60) == Key::Escape,
        key_at(61) == Key::Tab && key_at(62) == Key::Backspace && key_at(63) == Key::Delete,
        key_at(64) == Key::Insert && key_at(65) == Key::Home && key_at(66) == Key::End,
        key_at(67) == Key::PageUp && key_at(68) == Key::PageDown && key_at(69) == Key::Up,
        key_at(70) == Key::Down && key_at(71) == Key::Left && key_at(72) == Key::Right,
        key_at(73) == Key::PrintScreen && key_at(74) == Key::ScrollLock && key_at(75) == Key::Pause,
{
}

} // verus!
