//! Hotkey parsing and identity.

use global_hotkey::code::Code;
use global_hotkey::error::Error;
use global_hotkey::hotkey::HotKey;
use global_hotkey::hotkey::MOD_ALT;
use global_hotkey::hotkey::MOD_CONTROL;
use global_hotkey::hotkey::MOD_META;
use global_hotkey::hotkey::MOD_SHIFT;
use global_hotkey::hotkey::MOD_SUPER;
use global_hotkey::parse::parse_hotkey;

#[test]
fn test_parse_hotkey() {
    let r = parse_hotkey("KeyX").unwrap();
    assert_eq!(r.mods, 0);
    assert_eq!(r.key, Code::KeyX);

    let r = parse_hotkey("CTRL+KeyX").unwrap();
    assert_eq!(r.mods, MOD_CONTROL);
    assert_eq!(r.key, Code::KeyX);

    let r = parse_hotkey("SHIFT+KeyC").unwrap();
    assert_eq!(r.mods, MOD_SHIFT);
    assert_eq!(r.key, Code::KeyC);

    let r = parse_hotkey("SHIFT+KeyC").unwrap();
    assert_eq!(r.mods, MOD_SHIFT);
    assert_eq!(r.key, Code::KeyC);

    let r = parse_hotkey("super+ctrl+SHIFT+alt+ArrowUp").unwrap();
    assert_eq!(r.mods, MOD_SUPER | MOD_CONTROL | MOD_SHIFT | MOD_ALT);
    assert_eq!(r.key, Code::ArrowUp);

    let r = parse_hotkey("Digit5").unwrap();
    assert_eq!(r.mods, 0);
    assert_eq!(r.key, Code::Digit5);

    let r = parse_hotkey("KeyG").unwrap();
    assert_eq!(r.mods, 0);
    assert_eq!(r.key, Code::KeyG);

    let r = parse_hotkey("SHiFT+F12").unwrap();
    assert_eq!(r.mods, MOD_SHIFT);
    assert_eq!(r.key, Code::F12);

    let r = parse_hotkey("CmdOrCtrl+Space").unwrap();
    assert_eq!(r.mods, MOD_CONTROL);
    assert_eq!(r.key, Code::Space);
}

#[test]
fn test_equality() {
    let h1 = parse_hotkey("Shift+KeyR").unwrap();
    let h2 = parse_hotkey("Shift+KeyR").unwrap();
    let h3 = HotKey::new(Some(MOD_SHIFT), Code::KeyR);
    let h4 = parse_hotkey("Alt+KeyR").unwrap();
    let h5 = parse_hotkey("Alt+KeyR").unwrap();
    let h6 = parse_hotkey("KeyR").unwrap();

    assert!(h1 == h2 && h2 == h3 && h3 != h4 && h4 == h5 && h5 != h6);
    assert!(
        h1.id() == h2.id()
            && h2.id() == h3.id()
            && h3.id() != h4.id()
            && h4.id() == h5.id()
            && h5.id() != h6.id()
    );
}

#[test]
fn distinct_combinations_get_distinct_ids() {
    let hotkeys = [
        HotKey::new(None, Code::KeyA),
        HotKey::new(Some(MOD_SHIFT), Code::KeyA),
        HotKey::new(Some(MOD_CONTROL), Code::KeyA),
        HotKey::new(Some(MOD_ALT), Code::KeyA),
        HotKey::new(Some(MOD_SUPER), Code::KeyA),
        HotKey::new(Some(MOD_CONTROL | MOD_SHIFT), Code::KeyA),
        HotKey::new(None, Code::KeyB),
        HotKey::new(None, Code::Space),
        HotKey::new(None, Code::F5),
        HotKey::new(Some(MOD_CONTROL | MOD_SHIFT), Code::KeyX),
    ];
    for i in 0..hotkeys.len() {
        for j in 0..hotkeys.len() {
            if i != j {
                assert_ne!(hotkeys[i].id(), hotkeys[j].id());
            }
        }
    }
}

#[test]
fn meta_is_normalized_to_super() {
    let with_meta = HotKey::new(Some(MOD_META), Code::KeyZ);
    let with_super = HotKey::new(Some(MOD_SUPER), Code::KeyZ);
    assert_eq!(with_meta.mods, MOD_SUPER);
    assert_eq!(with_meta, with_super);
    assert_eq!(with_meta.id(), with_super.id());
}

#[test]
fn matches_masks_out_lock_bits() {
    let hk = HotKey::new(Some(MOD_CONTROL | MOD_SHIFT), Code::KeyX);
    assert!(hk.matches(MOD_CONTROL | MOD_SHIFT, Code::KeyX));
    assert!(hk.matches(MOD_CONTROL | MOD_SHIFT | MOD_META, Code::KeyX));
    assert!(!hk.matches(MOD_CONTROL, Code::KeyX));
    assert!(!hk.matches(MOD_CONTROL | MOD_SHIFT, Code::KeyY));
}

#[test]
fn parse_rejects_empty_token() {
    let r = parse_hotkey("ctrl++KeyX");
    match r {
        Err(Error::EmptyHotKeyToken(s)) => assert_eq!(s, "ctrl++KeyX"),
        other => panic!("expected EmptyHotKeyToken, got {:?}", other),
    }
}

#[test]
fn parse_rejects_modifier_after_key() {
    assert!(matches!(
        parse_hotkey("shift+KeyQ+alt"),
        Err(Error::UnexpectedHotKeyFormat(_))
    ));
    assert!(matches!(
        parse_hotkey("Ctrl+Shift+C+A"),
        Err(Error::UnexpectedHotKeyFormat(_))
    ));
}

#[test]
fn parse_rejects_modifiers_without_key() {
    assert!(matches!(
        parse_hotkey("ctrl+shift"),
        Err(Error::UnexpectedHotKeyFormat(_))
    ));
}

#[test]
fn parse_rejects_unknown_key() {
    match parse_hotkey("KeyQQ") {
        Err(Error::UnrecognizedHotKeyCode(s)) => assert_eq!(s, "KeyQQ"),
        other => panic!("expected UnrecognizedHotKeyCode, got {:?}", other),
    }
    match parse_hotkey("ctrl+ NotAKey ") {
        Err(Error::UnrecognizedHotKeyCode(s)) => assert_eq!(s, "NotAKey"),
        other => panic!("expected UnrecognizedHotKeyCode, got {:?}", other),
    }
}

#[test]
fn parse_trims_tokens() {
    let r = parse_hotkey("ctrl + KeyP").unwrap();
    assert_eq!(r.mods, MOD_CONTROL);
    assert_eq!(r.key, Code::KeyP);
}

#[test]
fn parse_key_aliases() {
    let r = parse_hotkey("CoMmAnD+`").unwrap();
    assert_eq!(r.mods, MOD_SUPER);
    assert_eq!(r.key, Code::Backquote);
    let r = parse_hotkey("option+NUMADD").unwrap();
    assert_eq!(r.mods, MOD_ALT);
    assert_eq!(r.key, Code::NumpadAdd);
    let r = parse_hotkey("ESC").unwrap();
    assert_eq!(r.key, Code::Escape);
    let r = parse_hotkey("UP").unwrap();
    assert_eq!(r.key, Code::ArrowUp);
}

#[test]
fn from_str_round_trips() {
    let hk: HotKey = "shift+alt+KeyQ".parse().unwrap();
    assert_eq!(hk.mods, MOD_SHIFT | MOD_ALT);
    assert_eq!(hk.key, Code::KeyQ);
    assert_eq!(hk, HotKey::new(Some(MOD_SHIFT | MOD_ALT), Code::KeyQ));
    assert!("shift+KeyQ+alt".parse::<HotKey>().is_err());
}
