use global_hotkey::hotkey::{Code, HotKey, Modifiers};
use openclips::config::{Hotkey, Key, KeyModifiers};
use openclips::error::AppError;
use openclips::hotkeys::{code_name, to_code, to_hotkey, HotkeyAction, Hotkeys};

fn mods(ctrl: bool, alt: bool, shift: bool, super_key: bool) -> KeyModifiers {
    KeyModifiers {
        ctrl,
        alt,
        shift,
        super_key,
    }
}

#[test]
fn maps_every_key_kind() {
    for key in [
        Key::Char('8'),
        Key::Char('a'),
        Key::F(12),
        Key::Numpad(5),
        Key::Space,
        Key::PrintScreen,
        Key::Up,
    ] {
        assert!(
            to_code(key, "key").is_ok(),
            "{key:?} should map to a key code"
        );
    }
}

#[test]
fn maps_modifiers() {
    let binding = Hotkey {
        modifiers: mods(true, false, true, false),
        key: Key::F(9),
    };
    let hotkey = to_hotkey(binding, "F9").expect("mapped");
    assert_eq!(hotkey.mods, (Modifiers::CONTROL | Modifiers::SHIFT).bits());
    assert_eq!(hotkey.code, Code::F9 as u32);
    assert_eq!(
        hotkey.id,
        HotKey::new(Some(Modifiers::CONTROL | Modifiers::SHIFT), Code::F9).id()
    );
}

#[test]
fn the_super_key_becomes_meta() {
    let binding = Hotkey {
        modifiers: mods(false, true, false, true),
        key: Key::Char('q'),
    };
    let hotkey = to_hotkey(binding, "Q").expect("mapped");
    assert_eq!(hotkey.mods, (Modifiers::ALT | Modifiers::META).bits());
    assert_eq!(
        hotkey.id,
        HotKey::new(Some(Modifiers::ALT | Modifiers::META), Code::KeyQ).id()
    );
    let bare = Hotkey {
        modifiers: mods(false, false, false, false),
        key: Key::Char('q'),
    };
    assert_eq!(
        to_hotkey(bare, "Q").expect("mapped").id,
        HotKey::new(None, Code::KeyQ).id()
    );
}

#[test]
fn keys_have_code_names() {
    assert_eq!(code_name(Key::Char('7')), "Digit7");
    assert_eq!(code_name(Key::Char('z')), "KeyZ");
    assert_eq!(code_name(Key::F(24)), "F24");
    assert_eq!(code_name(Key::Numpad(0)), "Numpad0");
    assert_eq!(code_name(Key::Left), "ArrowLeft");
    assert_eq!(code_name(Key::PageUp), "PageUp");
}

#[test]
fn an_unknown_key_is_reported() {
    match to_code(Key::F(99), "F99") {
        Err(AppError::Hotkey(text)) => assert_eq!(text, "unsupported key F99"),
        other => panic!("unexpected {other:?}"),
    }
    let binding = Hotkey {
        modifiers: mods(true, false, false, false),
        key: Key::Char('!'),
    };
    assert!(matches!(to_hotkey(binding, "!"), Err(AppError::Hotkey(_))));
}

#[test]
fn different_shortcuts_have_different_numbers() {
    let mut seen: Vec<u32> = Vec::new();
    for bits in 0..16 {
        for key in [Key::F(1), Key::F(2), Key::Space] {
            let m = mods(bits & 1 != 0, bits & 2 != 0, bits & 4 != 0, bits & 8 != 0);
            let id = to_hotkey(Hotkey { modifiers: m, key }, "k").expect("mapped").id;
            assert!(!seen.contains(&id));
            seen.push(id);
        }
    }
}

#[test]
fn presses_find_their_action() {
    let binding = Hotkey {
        modifiers: mods(false, true, false, false),
        key: Key::F(7),
    };
    let shortcut = to_hotkey(binding, "F7").expect("mapped");
    let mut hotkeys = Hotkeys::new();
    assert_eq!(hotkeys.problem(), None);
    hotkeys.registered(shortcut, HotkeyAction::SaveReplay { index: 2 });
    assert_eq!(
        hotkeys.action(shortcut.id, true),
        Some(HotkeyAction::SaveReplay { index: 2 })
    );
    assert_eq!(hotkeys.action(shortcut.id, false), None);
    assert_eq!(hotkeys.action(shortcut.id + 1, true), None);
    hotkeys.refused("Save".to_owned(), "taken".to_owned());
    hotkeys.refused("Record".to_owned(), "busy".to_owned());
    assert_eq!(
        hotkeys.problem().as_deref(),
        Some("Save: taken. Record: busy")
    );
}
