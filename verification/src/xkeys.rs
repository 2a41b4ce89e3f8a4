//! Translation to the native X11 vocabulary: shortcut modifier bits to
//! the X modifier mask, key codes to X key symbols, and the masking of
//! lock modifiers out of a reported event state.

use vstd::prelude::*;

use crate::code::Code;
use crate::hotkey::MOD_ALT;
use crate::hotkey::MOD_CONTROL;
use crate::hotkey::MOD_META;
use crate::hotkey::MOD_SHIFT;
use crate::hotkey::MOD_SUPER;

verus! {

/// The X11 Shift modifier mask.
pub const X_SHIFT_MASK: u32 = 0x01;

/// The X11 Lock (CapsLock) modifier mask.
pub const X_LOCK_MASK: u32 = 0x02;

/// The X11 Control modifier mask.
pub const X_CONTROL_MASK: u32 = 0x04;

/// The X11 Mod1 (Alt) modifier mask.
pub const X_MOD1_MASK: u32 = 0x08;

/// The X11 Mod2 (NumLock) modifier mask.
pub const X_MOD2_MASK: u32 = 0x10;

/// The X11 Mod4 (Super) modifier mask.
pub const X_MOD4_MASK: u32 = 0x40;

/// The modifier bits a key event is matched on; NumLock and CapsLock
/// are reported by the X server but deliberately ignored.
pub const X_BASE_STATE: u32 = X_CONTROL_MASK | X_SHIFT_MASK | X_MOD4_MASK | X_MOD1_MASK;

/// The native modifier mask for a hotkey's modifier bits.
pub open spec fn x11_mods_of(mods: u32) -> u32 {
    (if mods & MOD_SHIFT != 0 {
        X_SHIFT_MASK
    } else {
        0u32
    }) | (if mods & (MOD_SUPER | MOD_META) != 0 {
        X_MOD4_MASK
    } else {
        0u32
    }) | (if mods & MOD_ALT != 0 {
        X_MOD1_MASK
    } else {
        0u32
    }) | (if mods & MOD_CONTROL != 0 {
        X_CONTROL_MASK
    } else {
        0u32
    })
}

/// A reported event state with the lock modifiers masked out.
pub open spec fn masked_state(state: u32) -> u32 {
    state & X_BASE_STATE
}

/// Translates a hotkey's modifier bits to the native X11 modifier
/// mask.
pub fn modifiers_to_x11_mods(mods: u32) -> (r: u32)
    ensures
        r == x11_mods_of(mods),
{
    (if mods & MOD_SHIFT != 0 {
        X_SHIFT_MASK
    } else {
        0u32
    }) | (if mods & (MOD_SUPER | MOD_META) != 0 {
        X_MOD4_MASK
    } else {
        0u32
    }) | (if mods & MOD_ALT != 0 {
        X_MOD1_MASK
    } else {
        0u32
    }) | (if mods & MOD_CONTROL != 0 {
        X_CONTROL_MASK
    } else {
        0u32
    })
}

/// The X key symbol a key code resolves to, if this backend supports
/// the key.
pub open spec fn keysym_of(key: Code) -> Option<u32> {
    match key {
        Code::KeyA => Option::Some(0x41u32),
        Code::KeyB => Option::Some(0x42u32),
        Code::KeyC => Option::Some(0x43u32),
        Code::KeyD => Option::Some(0x44u32),
        Code::KeyE => Option::Some(0x45u32),
        Code::KeyF => Option::Some(0x46u32),
        Code::KeyG => Option::Some(0x47u32),
        Code::KeyH => Option::Some(0x48u32),
        Code::KeyI => Option::Some(0x49u32),
        Code::KeyJ => Option::Some(0x4Au32),
        Code::KeyK => Option::Some(0x4Bu32),
        Code::KeyL => Option::Some(0x4Cu32),
        Code::KeyM => Option::Some(0x4Du32),
        Code::KeyN => Option::Some(0x4Eu32),
        Code::KeyO => Option::Some(0x4Fu32),
        Code::KeyP => Option::Some(0x50u32),
        Code::KeyQ => Option::Some(0x51u32),
        Code::KeyR => Option::Some(0x52u32),
        Code::KeyS => Option::Some(0x53u32),
        Code::KeyT => Option::Some(0x54u32),
        Code::KeyU => Option::Some(0x55u32),
        Code::KeyV => Option::Some(0x56u32),
        Code::KeyW => Option::Some(0x57u32),
        Code::KeyX => Option::Some(0x58u32),
        Code::KeyY => Option::Some(0x59u32),
        Code::KeyZ => Option::Some(0x5Au32),
        Code::Backslash => Option::Some(0x5Cu32),
        Code::BracketLeft => Option::Some(0x5Bu32),
        Code::BracketRight => Option::Some(0x5Du32),
        Code::Backquote => Option::Some(0x60u32),
        Code::Comma => Option::Some(0x2Cu32),
        Code::Digit0 => Option::Some(0x30u32),
        Code::Digit1 => Option::Some(0x31u32),
        Code::Digit2 => Option::Some(0x32u32),
        Code::Digit3 => Option::Some(0x33u32),
        Code::Digit4 => Option::Some(0x34u32),
        Code::Digit5 => Option::Some(0x35u32),
        Code::Digit6 => Option::Some(0x36u32),
        Code::Digit7 => Option::Some(0x37u32),
        Code::Digit8 => Option::Some(0x38u32),
        Code::Digit9 => Option::Some(0x39u32),
        Code::Equal => Option::Some(0x3Du32),
        Code::Minus => Option::Some(0x2Du32),
        Code::Period => Option::Some(0x2Eu32),
        Code::Quote => Option::Some(0xAD0u32),
        Code::Semicolon => Option::Some(0x3Bu32),
        Code::Slash => Option::Some(0x2Fu32),
        Code::Backspace => Option::Some(0xFF08u32),
        Code::CapsLock => Option::Some(0xFFE5u32),
        Code::Enter => Option::Some(0xFF0Du32),
        Code::Space => Option::Some(0x20u32),
        Code::Tab => Option::Some(0xFF09u32),
        Code::Delete => Option::Some(0xFFFFu32),
        Code::End => Option::Some(0xFF57u32),
        Code::Home => Option::Some(0xFF50u32),
        Code::Insert => Option::Some(0xFF63u32),
        Code::PageDown => Option::Some(0xFF56u32),
        Code::PageUp => Option::Some(0xFF55u32),
        Code::ArrowDown => Option::Some(0xFF54u32),
        Code::ArrowLeft => Option::Some(0xFF51u32),
        Code::ArrowRight => Option::Some(0xFF53u32),
        Code::ArrowUp => Option::Some(0xFF52u32),
        Code::Numpad0 => Option::Some(0xFFB0u32),
        Code::Numpad1 => Option::Some(0xFFB1u32),
        Code::Numpad2 => Option::Some(0xFFB2u32),
        Code::Numpad3 => Option::Some(0xFFB3u32),
        Code::Numpad4 => Option::Some(0xFFB4u32),
        Code::Numpad5 => Option::Some(0xFFB5u32),
        Code::Numpad6 => Option::Some(0xFFB6u32),
        Code::Numpad7 => Option::Some(0xFFB7u32),
        Code::Numpad8 => Option::Some(0xFFB8u32),
        Code::Numpad9 => Option::Some(0xFFB9u32),
        Code::NumpadAdd => Option::Some(0xFFABu32),
        Code::NumpadDecimal => Option::Some(0xFFAEu32),
        Code::NumpadDivide => Option::Some(0xFFAFu32),
        Code::NumpadMultiply => Option::Some(0xFFAAu32),
        Code::NumpadSubtract => Option::Some(0xFFADu32),
        Code::Escape => Option::Some(0xFF1Bu32),
        Code::PrintScreen => Option::Some(0xFF61u32),
        Code::ScrollLock => Option::Some(0xFF14u32),
        Code::NumLock => Option::Some(0xFFBEu32),
        Code::F1 => Option::Some(0xFFBEu32),
        Code::F2 => Option::Some(0xFFBFu32),
        Code::F3 => Option::Some(0xFFC0u32),
        Code::F4 => Option::Some(0xFFC1u32),
        Code::F5 => Option::Some(0xFFC2u32),
        Code::F6 => Option::Some(0xFFC3u32),
        Code::F7 => Option::Some(0xFFC4u32),
        Code::F8 => Option::Some(0xFFC5u32),
        Code::F9 => Option::Some(0xFFC6u32),
        Code::F10 => Option::Some(0xFFC7u32),
        Code::F11 => Option::Some(0xFFC8u32),
        Code::F12 => Option::Some(0xFFC9u32),
        Code::AudioVolumeDown => Option::Some(0x1008FF11u32),
        Code::AudioVolumeMute => Option::Some(0x1008FF12u32),
        Code::AudioVolumeUp => Option::Some(0x1008FF13u32),
        Code::MediaPlay => Option::Some(0x1008FF14u32),
        Code::MediaPause => Option::Some(0x1008FF31u32),
        Code::MediaStop => Option::Some(0x1008FF15u32),
        Code::MediaTrackNext => Option::Some(0x1008FF17u32),
        Code::MediaTrackPrevious => Option::Some(0x1008FF16u32),
        Code::Pause => Option::Some(0xFF13u32),
        _ => Option::None,
    }
}

/// Translates a key code to its X key symbol; keys this backend cannot
/// grab yield `None`.
pub fn keycode_to_x11_scancode(key: Code) -> (r: Option<u32>)
    ensures
        r == keysym_of(key),
{
    match key {
            Code::KeyA => Option::Some(0x41),
            Code::KeyB => Option::Some(0x42),
            Code::KeyC => Option::Some(0x43),
            Code::KeyD => Option::Some(0x44),
            Code::KeyE => Option::Some(0x45),
            Code::KeyF => Option::Some(0x46),
            Code::KeyG => Option::Some(0x47),
            Code::KeyH => Option::Some(0x48),
            Code::KeyI => Option::Some(0x49),
            Code::KeyJ => Option::Some(0x4A),
            Code::KeyK => Option::Some(0x4B),
            Code::KeyL => Option::Some(0x4C),
            Code::KeyM => Option::Some(0x4D),
            Code::KeyN => Option::Some(0x4E),
            Code::KeyO => Option::Some(0x4F),
            Code::KeyP => Option::Some(0x50),
            Code::KeyQ => Option::Some(0x51),
            Code::KeyR => Option::Some(0x52),
            Code::KeyS => Option::Some(0x53),
            Code::KeyT => Option::Some(0x54),
            Code::KeyU => Option::Some(0x55),
            Code::KeyV => Option::Some(0x56),
            Code::KeyW => Option::Some(0x57),
            Code::KeyX => Option::Some(0x58),
            Code::KeyY => Option::Some(0x59),
            Code::KeyZ => Option::Some(0x5A),
            Code::Backslash => Option::Some(0x5C),
            Code::BracketLeft => Option::Some(0x5B),
            Code::BracketRight => Option::Some(0x5D),
            Code::Backquote => Option::Some(0x60),
            Code::Comma => Option::Some(0x2C),
            Code::Digit0 => Option::Some(0x30),
            Code::Digit1 => Option::Some(0x31),
            Code::Digit2 => Option::Some(0x32),
            Code::Digit3 => Option::Some(0x33),
            Code::Digit4 => Option::Some(0x34),
            Code::Digit5 => Option::Some(0x35),
            Code::Digit6 => Option::Some(0x36),
            Code::Digit7 => Option::Some(0x37),
            Code::Digit8 => Option::Some(0x38),
            Code::Digit9 => Option::Some(0x39),
            Code::Equal => Option::Some(0x3D),
            Code::Minus => Option::Some(0x2D),
            Code::Period => Option::Some(0x2E),
            Code::Quote => Option::Some(0xAD0),
            Code::Semicolon => Option::Some(0x3B),
            Code::Slash => Option::Some(0x2F),
            Code::Backspace => Option::Some(0xFF08),
            Code::CapsLock => Option::Some(0xFFE5),
            Code::Enter => Option::Some(0xFF0D),
            Code::Space => Option::Some(0x20),
            Code::Tab => Option::Some(0xFF09),
            Code::Delete => Option::Some(0xFFFF),
            Code::End => Option::Some(0xFF57),
            Code::Home => Option::Some(0xFF50),
            Code::Insert => Option::Some(0xFF63),
            Code::PageDown => Option::Some(0xFF56),
            Code::PageUp => Option::Some(0xFF55),
            Code::ArrowDown => Option::Some(0xFF54),
            Code::ArrowLeft => Option::Some(0xFF51),
            Code::ArrowRight => Option::Some(0xFF53),
            Code::ArrowUp => Option::Some(0xFF52),
            Code::Numpad0 => Option::Some(0xFFB0),
            Code::Numpad1 => Option::Some(0xFFB1),
            Code::Numpad2 => Option::Some(0xFFB2),
            Code::Numpad3 => Option::Some(0xFFB3),
            Code::Numpad4 => Option::Some(0xFFB4),
            Code::Numpad5 => Option::Some(0xFFB5),
            Code::Numpad6 => Option::Some(0xFFB6),
            Code::Numpad7 => Option::Some(0xFFB7),
            Code::Numpad8 => Option::Some(0xFFB8),
            Code::Numpad9 => Option::Some(0xFFB9),
            Code::NumpadAdd => Option::Some(0xFFAB),
            Code::NumpadDecimal => Option::Some(0xFFAE),
            Code::NumpadDivide => Option::Some(0xFFAF),
            Code::NumpadMultiply => Option::Some(0xFFAA),
            Code::NumpadSubtract => Option::Some(0xFFAD),
            Code::Escape => Option::Some(0xFF1B),
            Code::PrintScreen => Option::Some(0xFF61),
            Code::ScrollLock => Option::Some(0xFF14),
            Code::NumLock => Option::Some(0xFFBE),
            Code::F1 => Option::Some(0xFFBE),
            Code::F2 => Option::Some(0xFFBF),
            Code::F3 => Option::Some(0xFFC0),
            Code::F4 => Option::Some(0xFFC1),
            Code::F5 => Option::Some(0xFFC2),
            Code::F6 => Option::Some(0xFFC3),
            Code::F7 => Option::Some(0xFFC4),
            Code::F8 => Option::Some(0xFFC5),
            Code::F9 => Option::Some(0xFFC6),
            Code::F10 => Option::Some(0xFFC7),
            Code::F11 => Option::Some(0xFFC8),
            Code::F12 => Option::Some(0xFFC9),
            Code::AudioVolumeDown => Option::Some(0x1008FF11),
            Code::AudioVolumeMute => Option::Some(0x1008FF12),
            Code::AudioVolumeUp => Option::Some(0x1008FF13),
            Code::MediaPlay => Option::Some(0x1008FF14),
            Code::MediaPause => Option::Some(0x1008FF31),
            Code::MediaStop => Option::Some(0x1008FF15),
            Code::MediaTrackNext => Option::Some(0x1008FF17),
            Code::MediaTrackPrevious => Option::Some(0x1008FF16),
            Code::Pause => Option::Some(0xFF13),
        _ => Option::None,
    }
}

/// Matching is insensitive to the lock modifiers: OR-ing NumLock or
/// CapsLock (or both) into a reported state never changes the masked
/// state a hotkey is matched on.
pub proof fn lemma_lock_bits_ignored(state: u32)
    ensures
        masked_state(state | X_MOD2_MASK) == masked_state(state),
        masked_state(state | X_LOCK_MASK) == masked_state(state),
        masked_state(state | X_MOD2_MASK | X_LOCK_MASK) == masked_state(state),
{
    assert(0x04u32 | 0x01u32 | 0x40u32 | 0x08u32 == 0x4Du32) by (bit_vector);
    assert((state | 0x10u32) & 0x4Du32 == state & 0x4Du32) by (bit_vector);
    assert((state | 0x02u32) & 0x4Du32 == state & 0x4Du32) by (bit_vector);
    assert((state | 0x10u32 | 0x02u32) & 0x4Du32 == state & 0x4Du32) by (bit_vector);
}

} // verus!
