//! The registration table, the grab controller bookkeeping, and the
//! event-matching engine.

use global_hotkey::code::Code;
use global_hotkey::error::Error;
use global_hotkey::events::process_key_event;
use global_hotkey::events::HotKeyState;
use global_hotkey::events::KeyEvent;
use global_hotkey::events::KeyEventKind;
use global_hotkey::grab::batch_result;
use global_hotkey::grab::grab_mask_variants;
use global_hotkey::grab::register_hotkey;
use global_hotkey::grab::registration_request;
use global_hotkey::grab::unregister_hotkey;
use global_hotkey::grab::unregistration_request;
use global_hotkey::hotkey::HotKey;
use global_hotkey::hotkey::MOD_ALT;
use global_hotkey::hotkey::MOD_CONTROL;
use global_hotkey::hotkey::MOD_SHIFT;
use global_hotkey::hotkey::MOD_SUPER;
use global_hotkey::registry::RegistrationTable;
use global_hotkey::xkeys::keycode_to_x11_scancode;
use global_hotkey::xkeys::modifiers_to_x11_mods;

// The scancode a test pretends the X server assigned to the grabbed
// key symbol.
const KEYCODE_X: u32 = 53;

fn press(keycode: u32, state: u32) -> KeyEvent {
    KeyEvent { kind: KeyEventKind::Press, keycode, state }
}

fn release(keycode: u32, state: u32) -> KeyEvent {
    KeyEvent { kind: KeyEventKind::Release, keycode, state }
}

#[test]
fn duplicate_registration_rejected() {
    let mut table = RegistrationTable::new();
    let hk = HotKey::new(Some(MOD_CONTROL | MOD_SHIFT), Code::KeyX);
    assert!(register_hotkey(&mut table, &hk, KEYCODE_X, false).is_ok());
    assert_eq!(table.len(), 1);
    let second = register_hotkey(&mut table, &hk, KEYCODE_X, false);
    assert!(matches!(second, Err(Error::AlreadyRegistered(_))));
    assert_eq!(table.len(), 1);
}

#[test]
fn denied_grab_is_already_registered() {
    let mut table = RegistrationTable::new();
    let hk = HotKey::new(Some(MOD_ALT), Code::KeyD);
    let r = register_hotkey(&mut table, &hk, 40, true);
    assert!(matches!(r, Err(Error::AlreadyRegistered(_))));
    assert_eq!(table.len(), 0);
}

#[test]
fn unregister_unknown_is_noop() {
    let mut table = RegistrationTable::new();
    let registered = HotKey::new(Some(MOD_CONTROL), Code::KeyA);
    assert!(register_hotkey(&mut table, &registered, 38, false).is_ok());
    let never_registered = HotKey::new(Some(MOD_SUPER), Code::KeyB);
    unregister_hotkey(&mut table, &never_registered, 56);
    assert_eq!(table.len(), 1);
    assert!(table.is_registered(38, modifiers_to_x11_mods(MOD_CONTROL)));

    let mut empty = RegistrationTable::new();
    unregister_hotkey(&mut empty, &never_registered, 56);
    assert_eq!(empty.len(), 0);
}

#[test]
fn register_unregister_register_round_trip() {
    let mut table = RegistrationTable::new();
    let hk = HotKey::new(Some(MOD_CONTROL | MOD_SHIFT), Code::KeyX);
    assert!(register_hotkey(&mut table, &hk, KEYCODE_X, false).is_ok());
    unregister_hotkey(&mut table, &hk, KEYCODE_X);
    assert_eq!(table.len(), 0);
    assert!(register_hotkey(&mut table, &hk, KEYCODE_X, false).is_ok());
    assert_eq!(table.len(), 1);
}

#[test]
fn press_and_release_notify_exactly_once() {
    let mut table = RegistrationTable::new();
    let hk = HotKey::new(Some(MOD_CONTROL | MOD_SHIFT), Code::KeyX);
    let x_mods = modifiers_to_x11_mods(hk.mods);
    assert!(register_hotkey(&mut table, &hk, KEYCODE_X, false).is_ok());

    // NumLock (Mod2) is reported in the state and must be ignored.
    let numlock = 0x10;
    let out = process_key_event(&mut table, press(KEYCODE_X, x_mods | numlock));
    assert_eq!(out.len(), 1);
    assert_eq!(out[0].id, hk.id());
    assert_eq!(out[0].state, HotKeyState::Pressed);
    assert!(table.is_pressed(KEYCODE_X, x_mods));

    // A second identical press is de-duplicated.
    let out = process_key_event(&mut table, press(KEYCODE_X, x_mods | numlock));
    assert_eq!(out.len(), 0);

    // A release fires whatever the modifier state is by then.
    let out = process_key_event(&mut table, release(KEYCODE_X, 0));
    assert_eq!(out.len(), 1);
    assert_eq!(out[0].id, hk.id());
    assert_eq!(out[0].state, HotKeyState::Released);
    assert!(!table.is_pressed(KEYCODE_X, x_mods));

    // A second release fires nothing.
    let out = process_key_event(&mut table, release(KEYCODE_X, 0));
    assert_eq!(out.len(), 0);
}

#[test]
fn press_with_wrong_modifiers_is_silent() {
    let mut table = RegistrationTable::new();
    let hk = HotKey::new(Some(MOD_CONTROL | MOD_SHIFT), Code::KeyX);
    let x_mods = modifiers_to_x11_mods(hk.mods);
    assert!(register_hotkey(&mut table, &hk, KEYCODE_X, false).is_ok());
    let control_only = modifiers_to_x11_mods(MOD_CONTROL);
    let out = process_key_event(&mut table, press(KEYCODE_X, control_only));
    assert_eq!(out.len(), 0);
    let out = process_key_event(&mut table, press(99, x_mods));
    assert_eq!(out.len(), 0);
    assert!(!table.is_pressed(KEYCODE_X, x_mods));
}

#[test]
fn lock_fanout_scenario() {
    // Control+Shift+KeyX, pressed while NumLock and CapsLock are on.
    let mut table = RegistrationTable::new();
    let hk = HotKey::new(Some(MOD_CONTROL | MOD_SHIFT), Code::KeyX);
    let req = registration_request(&hk).unwrap();
    assert_eq!(req.keysym, 0x58); // the key symbol for KeyX
    assert_eq!(req.x_mods, 0x01 | 0x04);
    assert_eq!(
        grab_mask_variants(req.x_mods),
        vec![0x05, 0x15, 0x07, 0x17]
    );
    assert!(register_hotkey(&mut table, &hk, KEYCODE_X, false).is_ok());
    let both_locks = 0x10 | 0x02;
    let out = process_key_event(&mut table, press(KEYCODE_X, req.x_mods | both_locks));
    assert_eq!(out.len(), 1);
    assert_eq!(out[0].id, hk.id());
    assert_eq!(out[0].state, HotKeyState::Pressed);
    let out = process_key_event(&mut table, release(KEYCODE_X, both_locks));
    assert_eq!(out.len(), 1);
    assert_eq!(out[0].id, hk.id());
    assert_eq!(out[0].state, HotKeyState::Released);
}

#[test]
fn batch_register_keeps_earlier_successes() {
    // register_all([valid, conflicting]): the batch fails overall, but
    // the valid hotkey stays registered.
    let mut table = RegistrationTable::new();
    let valid = HotKey::new(Some(MOD_CONTROL), Code::KeyA);
    let conflicting = HotKey::new(Some(MOD_CONTROL), Code::KeyA);
    let mut failures: Vec<Error> = Vec::new();
    for hk in [valid, conflicting] {
        if let Err(e) = register_hotkey(&mut table, &hk, 38, false) {
            failures.push(e);
        }
    }
    let outcome = batch_result(failures);
    match outcome {
        Err(Error::MultipleFailures(v)) => {
            assert_eq!(v.len(), 1);
            assert!(matches!(v[0], Error::AlreadyRegistered(_)));
        }
        other => panic!("expected MultipleFailures, got {:?}", other),
    }
    assert_eq!(table.len(), 1);
    assert!(table.is_registered(38, modifiers_to_x11_mods(MOD_CONTROL)));
}

#[test]
fn batch_of_successes_is_ok() {
    assert!(batch_result(Vec::new()).is_ok());
}

#[test]
fn unsupported_key_fails_registration() {
    let hk = HotKey::new(Some(MOD_CONTROL), Code::F13);
    match registration_request(&hk) {
        Err(Error::FailedToRegister(msg)) => {
            assert_eq!(
                msg,
                "Unable to register accelerator (unknown scancode for this key: F13)."
            );
        }
        other => panic!("expected FailedToRegister, got {:?}", other),
    }
    match unregistration_request(&hk) {
        Err(Error::FailedToUnRegister(h)) => assert_eq!(h.id(), hk.id()),
        other => panic!("expected FailedToUnRegister, got {:?}", other),
    }
}

#[test]
fn keysym_translation_table() {
    assert_eq!(keycode_to_x11_scancode(Code::KeyA), Some(0x41));
    assert_eq!(keycode_to_x11_scancode(Code::KeyX), Some(0x58));
    assert_eq!(keycode_to_x11_scancode(Code::Digit0), Some(0x30));
    assert_eq!(keycode_to_x11_scancode(Code::Space), Some(0x20));
    assert_eq!(keycode_to_x11_scancode(Code::Enter), Some(0xFF0D));
    assert_eq!(keycode_to_x11_scancode(Code::F12), Some(0xFFC9));
    // NumLock is translated to the F1 key symbol, as the table has it.
    assert_eq!(keycode_to_x11_scancode(Code::NumLock), Some(0xFFBE));
    assert_eq!(keycode_to_x11_scancode(Code::F1), Some(0xFFBE));
    assert_eq!(keycode_to_x11_scancode(Code::MediaPause), Some(0x1008FF31));
    assert_eq!(keycode_to_x11_scancode(Code::Quote), Some(0xAD0));
    assert_eq!(keycode_to_x11_scancode(Code::NumpadEnter), None);
    assert_eq!(keycode_to_x11_scancode(Code::NumpadEqual), None);
    assert_eq!(keycode_to_x11_scancode(Code::F13), None);
    assert_eq!(keycode_to_x11_scancode(Code::F24), None);
}

#[test]
fn modifier_translation_table() {
    assert_eq!(modifiers_to_x11_mods(0), 0);
    assert_eq!(modifiers_to_x11_mods(MOD_SHIFT), 0x01);
    assert_eq!(modifiers_to_x11_mods(MOD_CONTROL), 0x04);
    assert_eq!(modifiers_to_x11_mods(MOD_ALT), 0x08);
    assert_eq!(modifiers_to_x11_mods(MOD_SUPER), 0x40);
    assert_eq!(
        modifiers_to_x11_mods(MOD_SHIFT | MOD_CONTROL | MOD_ALT | MOD_SUPER),
        0x4D
    );
}

#[test]
fn two_hotkeys_on_one_scancode() {
    // Two different modifier masks on the same key: a press fires only
    // the matching one; a release clears whichever is held.
    let mut table = RegistrationTable::new();
    let plain = HotKey::new(None, Code::KeyX);
    let shifted = HotKey::new(Some(MOD_SHIFT), Code::KeyX);
    assert!(register_hotkey(&mut table, &plain, KEYCODE_X, false).is_ok());
    assert!(register_hotkey(&mut table, &shifted, KEYCODE_X, false).is_ok());
    assert_eq!(table.len(), 2);

    let out = process_key_event(&mut table, press(KEYCODE_X, 0x01));
    assert_eq!(out.len(), 1);
    assert_eq!(out[0].id, shifted.id());

    let out = process_key_event(&mut table, release(KEYCODE_X, 0x01));
    assert_eq!(out.len(), 1);
    assert_eq!(out[0].id, shifted.id());
    assert!(!table.is_pressed(KEYCODE_X, 0x01));
}
