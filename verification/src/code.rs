//! The physical-key codes a hotkey can be bound to, named after the
//! positions on a standard keyboard.

use vstd::prelude::*;
use vstd::string::StrSliceExecFns;
use vstd::string::StringExecFns;

use crate::error::Error;

verus! {

/// A physical key position.  Together with a modifier set it forms a
/// hotkey combination.
#[derive(Clone, Copy, PartialEq, Eq, Structural, Debug, Hash)]
pub enum Code {
    KeyA,
    KeyB,
    KeyC,
    KeyD,
    KeyE,
    KeyF,
    KeyG,
    KeyH,
    KeyI,
    KeyJ,
    KeyK,
    KeyL,
    KeyM,
    KeyN,
    KeyO,
    KeyP,
    KeyQ,
    KeyR,
    KeyS,
    KeyT,
    KeyU,
    KeyV,
    KeyW,
    KeyX,
    KeyY,
    KeyZ,
    Digit0,
    Digit1,
    Digit2,
    Digit3,
    Digit4,
    Digit5,
    Digit6,
    Digit7,
    Digit8,
    Digit9,
    Backquote,
    Backslash,
    BracketLeft,
    BracketRight,
    Comma,
    Equal,
    Minus,
    Period,
    Quote,
    Semicolon,
    Slash,
    Backspace,
    CapsLock,
    Enter,
    Space,
    Tab,
    Delete,
    End,
    Home,
    Insert,
    PageDown,
    PageUp,
    PrintScreen,
    ScrollLock,
    Escape,
    Pause,
    NumLock,
    ArrowDown,
    ArrowLeft,
    ArrowRight,
    ArrowUp,
    Numpad0,
    Numpad1,
    Numpad2,
    Numpad3,
    Numpad4,
    Numpad5,
    Numpad6,
    Numpad7,
    Numpad8,
    Numpad9,
    NumpadAdd,
    NumpadDecimal,
    NumpadDivide,
    NumpadEnter,
    NumpadEqual,
    NumpadMultiply,
    NumpadSubtract,
    F1,
    F2,
    F3,
    F4,
    F5,
    F6,
    F7,
    F8,
    F9,
    F10,
    F11,
    F12,
    F13,
    F14,
    F15,
    F16,
    F17,
    F18,
    F19,
    F20,
    F21,
    F22,
    F23,
    F24,
    AudioVolumeDown,
    AudioVolumeMute,
    AudioVolumeUp,
    MediaPlay,
    MediaPause,
    MediaStop,
    MediaTrackNext,
    MediaTrackPrevious,
}

/// The canonical name of a key code, as used in the canonical
/// "modifiers+key" string a hotkey id is derived from.
pub open spec fn spec_name(code: Code) -> Seq<char> {
    match code {
        Code::KeyA => "KeyA"@,
        Code::KeyB => "KeyB"@,
        Code::KeyC => "KeyC"@,
        Code::KeyD => "KeyD"@,
        Code::KeyE => "KeyE"@,
        Code::KeyF => "KeyF"@,
        Code::KeyG => "KeyG"@,
        Code::KeyH => "KeyH"@,
        Code::KeyI => "KeyI"@,
        Code::KeyJ => "KeyJ"@,
        Code::KeyK => "KeyK"@,
        Code::KeyL => "KeyL"@,
        Code::KeyM => "KeyM"@,
        Code::KeyN => "KeyN"@,
        Code::KeyO => "KeyO"@,
        Code::KeyP => "KeyP"@,
        Code::KeyQ => "KeyQ"@,
        Code::KeyR => "KeyR"@,
        Code::KeyS => "KeyS"@,
        Code::KeyT => "KeyT"@,
        Code::KeyU => "KeyU"@,
        Code::KeyV => "KeyV"@,
        Code::KeyW => "KeyW"@,
        Code::KeyX => "KeyX"@,
        Code::KeyY => "KeyY"@,
        Code::KeyZ => "KeyZ"@,
        Code::Digit0 => "Digit0"@,
        Code::Digit1 => "Digit1"@,
        Code::Digit2 => "Digit2"@,
        Code::Digit3 => "Digit3"@,
        Code::Digit4 => "Digit4"@,
        Code::Digit5 => "Digit5"@,
        Code::Digit6 => "Digit6"@,
        Code::Digit7 => "Digit7"@,
        Code::Digit8 => "Digit8"@,
        Code::Digit9 => "Digit9"@,
        Code::Backquote => "Backquote"@,
        Code::Backslash => "Backslash"@,
        Code::BracketLeft => "BracketLeft"@,
        Code::BracketRight => "BracketRight"@,
        Code::Comma => "Comma"@,
        Code::Equal => "Equal"@,
        Code::Minus => "Minus"@,
        Code::Period => "Period"@,
        Code::Quote => "Quote"@,
        Code::Semicolon => "Semicolon"@,
        Code::Slash => "Slash"@,
        Code::Backspace => "Backspace"@,
        Code::CapsLock => "CapsLock"@,
        Code::Enter => "Enter"@,
        Code::Space => "Space"@,
        Code::Tab => "Tab"@,
        Code::Delete => "Delete"@,
        Code::End => "End"@,
        Code::Home => "Home"@,
        Code::Insert => "Insert"@,
        Code::PageDown => "PageDown"@,
        Code::PageUp => "PageUp"@,
        Code::PrintScreen => "PrintScreen"@,
        Code::ScrollLock => "ScrollLock"@,
        Code::Escape => "Escape"@,
        Code::Pause => "Pause"@,
        Code::NumLock => "NumLock"@,
        Code::ArrowDown => "ArrowDown"@,
        Code::ArrowLeft => "ArrowLeft"@,
        Code::ArrowRight => "ArrowRight"@,
        Code::ArrowUp => "ArrowUp"@,
        Code::Numpad0 => "Numpad0"@,
        Code::Numpad1 => "Numpad1"@,
        Code::Numpad2 => "Numpad2"@,
        Code::Numpad3 => "Numpad3"@,
        Code::Numpad4 => "Numpad4"@,
        Code::Numpad5 => "Numpad5"@,
        Code::Numpad6 => "Numpad6"@,
        Code::Numpad7 => "Numpad7"@,
        Code::Numpad8 => "Numpad8"@,
        Code::Numpad9 => "Numpad9"@,
        Code::NumpadAdd => "NumpadAdd"@,
        Code::NumpadDecimal => "NumpadDecimal"@,
        Code::NumpadDivide => "NumpadDivide"@,
        Code::NumpadEnter => "NumpadEnter"@,
        Code::NumpadEqual => "NumpadEqual"@,
        Code::NumpadMultiply => "NumpadMultiply"@,
        Code::NumpadSubtract => "NumpadSubtract"@,
        Code::F1 => "F1"@,
        Code::F2 => "F2"@,
        Code::F3 => "F3"@,
        Code::F4 => "F4"@,
        Code::F5 => "F5"@,
        Code::F6 => "F6"@,
        Code::F7 => "F7"@,
        Code::F8 => "F8"@,
        Code::F9 => "F9"@,
        Code::F10 => "F10"@,
        Code::F11 => "F11"@,
        Code::F12 => "F12"@,
        Code::F13 => "F13"@,
        Code::F14 => "F14"@,
        Code::F15 => "F15"@,
        Code::F16 => "F16"@,
        Code::F17 => "F17"@,
        Code::F18 => "F18"@,
        Code::F19 => "F19"@,
        Code::F20 => "F20"@,
        Code::F21 => "F21"@,
        Code::F22 => "F22"@,
        Code::F23 => "F23"@,
        Code::F24 => "F24"@,
        Code::AudioVolumeDown => "AudioVolumeDown"@,
        Code::AudioVolumeMute => "AudioVolumeMute"@,
        Code::AudioVolumeUp => "AudioVolumeUp"@,
        Code::MediaPlay => "MediaPlay"@,
        Code::MediaPause => "MediaPause"@,
        Code::MediaStop => "MediaStop"@,
        Code::MediaTrackNext => "MediaTrackNext"@,
        Code::MediaTrackPrevious => "MediaTrackPrevious"@,
    }
}

impl Code {
    /// The canonical name of this key code.
    pub fn name(&self) -> (s: &'static str)
        ensures
            s@ == spec_name(*self),
    {
        match self {
            Code::KeyA => "KeyA",
            Code::KeyB => "KeyB",
            Code::KeyC => "KeyC",
            Code::KeyD => "KeyD",
            Code::KeyE => "KeyE",
            Code::KeyF => "KeyF",
            Code::KeyG => "KeyG",
            Code::KeyH => "KeyH",
            Code::KeyI => "KeyI",
            Code::KeyJ => "KeyJ",
            Code::KeyK => "KeyK",
            Code::KeyL => "KeyL",
            Code::KeyM => "KeyM",
            Code::KeyN => "KeyN",
            Code::KeyO => "KeyO",
            Code::KeyP => "KeyP",
            Code::KeyQ => "KeyQ",
            Code::KeyR => "KeyR",
            Code::KeyS => "KeyS",
            Code::KeyT => "KeyT",
            Code::KeyU => "KeyU",
            Code::KeyV => "KeyV",
            Code::KeyW => "KeyW",
            Code::KeyX => "KeyX",
            Code::KeyY => "KeyY",
            Code::KeyZ => "KeyZ",
            Code::Digit0 => "Digit0",
            Code::Digit1 => "Digit1",
            Code::Digit2 => "Digit2",
            Code::Digit3 => "Digit3",
            Code::Digit4 => "Digit4",
            Code::Digit5 => "Digit5",
            Code::Digit6 => "Digit6",
            Code::Digit7 => "Digit7",
            Code::Digit8 => "Digit8",
            Code::Digit9 => "Digit9",
            Code::Backquote => "Backquote",
            Code::Backslash => "Backslash",
            Code::BracketLeft => "BracketLeft",
            Code::BracketRight => "BracketRight",
            Code::Comma => "Comma",
            Code::Equal => "Equal",
            Code::Minus => "Minus",
            Code::Period => "Period",
            Code::Quote => "Quote",
            Code::Semicolon => "Semicolon",
            Code::Slash => "Slash",
            Code::Backspace => "Backspace",
            Code::CapsLock => "CapsLock",
            Code::Enter => "Enter",
            Code::Space => "Space",
            Code::Tab => "Tab",
            Code::Delete => "Delete",
            Code::End => "End",
            Code::Home => "Home",
            Code::Insert => "Insert",
            Code::PageDown => "PageDown",
            Code::PageUp => "PageUp",
            Code::PrintScreen => "PrintScreen",
            Code::ScrollLock => "ScrollLock",
            Code::Escape => "Escape",
            Code::Pause => "Pause",
            Code::NumLock => "NumLock",
            Code::ArrowDown => "ArrowDown",
            Code::ArrowLeft => "ArrowLeft",
            Code::ArrowRight => "ArrowRight",
            Code::ArrowUp => "ArrowUp",
            Code::Numpad0 => "Numpad0",
            Code::Numpad1 => "Numpad1",
            Code::Numpad2 => "Numpad2",
            Code::Numpad3 => "Numpad3",
            Code::Numpad4 => "Numpad4",
            Code::Numpad5 => "Numpad5",
            Code::Numpad6 => "Numpad6",
            Code::Numpad7 => "Numpad7",
            Code::Numpad8 => "Numpad8",
            Code::Numpad9 => "Numpad9",
            Code::NumpadAdd => "NumpadAdd",
            Code::NumpadDecimal => "NumpadDecimal",
            Code::NumpadDivide => "NumpadDivide",
            Code::NumpadEnter => "NumpadEnter",
            Code::NumpadEqual => "NumpadEqual",
            Code::NumpadMultiply => "NumpadMultiply",
            Code::NumpadSubtract => "NumpadSubtract",
            Code::F1 => "F1",
            Code::F2 => "F2",
            Code::F3 => "F3",
            Code::F4 => "F4",
            Code::F5 => "F5",
            Code::F6 => "F6",
            Code::F7 => "F7",
            Code::F8 => "F8",
            Code::F9 => "F9",
            Code::F10 => "F10",
            Code::F11 => "F11",
            Code::F12 => "F12",
            Code::F13 => "F13",
            Code::F14 => "F14",
            Code::F15 => "F15",
            Code::F16 => "F16",
            Code::F17 => "F17",
            Code::F18 => "F18",
            Code::F19 => "F19",
            Code::F20 => "F20",
            Code::F21 => "F21",
            Code::F22 => "F22",
            Code::F23 => "F23",
            Code::F24 => "F24",
            Code::AudioVolumeDown => "AudioVolumeDown",
            Code::AudioVolumeMute => "AudioVolumeMute",
            Code::AudioVolumeUp => "AudioVolumeUp",
            Code::MediaPlay => "MediaPlay",
            Code::MediaPause => "MediaPause",
            Code::MediaStop => "MediaStop",
            Code::MediaTrackNext => "MediaTrackNext",
            Code::MediaTrackPrevious => "MediaTrackPrevious",
        }
    }
}


/// ASCII lowercase letters mapped to uppercase; everything else is
/// kept as it is.  Hotkey strings are matched case-insensitively.
pub open spec fn upper_char_spec(c: char) -> char {
    match c {
        'a' => 'A',
        'b' => 'B',
        'c' => 'C',
        'd' => 'D',
        'e' => 'E',
        'f' => 'F',
        'g' => 'G',
        'h' => 'H',
        'i' => 'I',
        'j' => 'J',
        'k' => 'K',
        'l' => 'L',
        'm' => 'M',
        'n' => 'N',
        'o' => 'O',
        'p' => 'P',
        'q' => 'Q',
        'r' => 'R',
        's' => 'S',
        't' => 'T',
        'u' => 'U',
        'v' => 'V',
        'w' => 'W',
        'x' => 'X',
        'y' => 'Y',
        'z' => 'Z',
        _ => c,
    }
}

/// A character sequence uppercased letter by letter.
pub open spec fn upper_chars(s: Seq<char>) -> Seq<char> {
    Seq::new(s.len(), |i: int| upper_char_spec(s[i]))
}

/// Uppercases one character.
pub fn upper_char(c: char) -> (r: char)
    ensures
        r == upper_char_spec(c),
{
    match c {
            'a' => 'A',
            'b' => 'B',
            'c' => 'C',
            'd' => 'D',
            'e' => 'E',
            'f' => 'F',
            'g' => 'G',
            'h' => 'H',
            'i' => 'I',
            'j' => 'J',
            'k' => 'K',
            'l' => 'L',
            'm' => 'M',
            'n' => 'N',
            'o' => 'O',
            'p' => 'P',
            'q' => 'Q',
            'r' => 'R',
            's' => 'S',
            't' => 'T',
            'u' => 'U',
            'v' => 'V',
            'w' => 'W',
            'x' => 'X',
            'y' => 'Y',
            'z' => 'Z',
        _ => c,
    }
}

/// Whether `a`, uppercased, reads exactly as `b`.
pub fn upper_eq(a: &str, b: &str) -> (r: bool)
    ensures
        r == (upper_chars(a@) == b@),
{
    let la = a.unicode_len();
    let lb = b.unicode_len();
    if la != lb {
        proof {
            assert(upper_chars(a@).len() == a@.len());
        }
        return false;
    }
    let mut i: usize = 0;
    while i < la
        invariant
            la == a@.len(),
            la == b@.len(),
            i <= la,
            forall|j: int| 0 <= j < i ==> upper_chars(a@)[j] == b@[j],
        decreases la - i,
    {
        let ca = a.get_char(i);
        let cb = b.get_char(i);
        if upper_char(ca) != cb {
            proof {
                assert(upper_chars(a@)[i as int] != b@[i as int]);
            }
            return false;
        }
        i += 1;
    }
    proof {
        assert(upper_chars(a@) =~= b@);
    }
    true
}


/// The key names for letters, digits and punctuation, matched against an uppercased token.
pub open spec fn key_group_a(u: Seq<char>) -> Option<Code> {
    if u == "BACKQUOTE"@ || u == "`"@ {
        Option::Some(Code::Backquote)
    } else if u == "BACKSLASH"@ || u == "\\"@ {
        Option::Some(Code::Backslash)
    } else if u == "BRACKETLEFT"@ || u == "["@ {
        Option::Some(Code::BracketLeft)
    } else if u == "BRACKETRIGHT"@ || u == "]"@ {
        Option::Some(Code::BracketRight)
    } else if u == "COMMA"@ || u == ","@ {
        Option::Some(Code::Comma)
    } else if u == "DIGIT0"@ || u == "0"@ {
        Option::Some(Code::Digit0)
    } else if u == "DIGIT1"@ || u == "1"@ {
        Option::Some(Code::Digit1)
    } else if u == "DIGIT2"@ || u == "2"@ {
        Option::Some(Code::Digit2)
    } else if u == "DIGIT3"@ || u == "3"@ {
        Option::Some(Code::Digit3)
    } else if u == "DIGIT4"@ || u == "4"@ {
        Option::Some(Code::Digit4)
    } else if u == "DIGIT5"@ || u == "5"@ {
        Option::Some(Code::Digit5)
    } else if u == "DIGIT6"@ || u == "6"@ {
        Option::Some(Code::Digit6)
    } else if u == "DIGIT7"@ || u == "7"@ {
        Option::Some(Code::Digit7)
    } else if u == "DIGIT8"@ || u == "8"@ {
        Option::Some(Code::Digit8)
    } else if u == "DIGIT9"@ || u == "9"@ {
        Option::Some(Code::Digit9)
    } else if u == "EQUAL"@ || u == "="@ {
        Option::Some(Code::Equal)
    } else if u == "KEYA"@ || u == "A"@ {
        Option::Some(Code::KeyA)
    } else if u == "KEYB"@ || u == "B"@ {
        Option::Some(Code::KeyB)
    } else if u == "KEYC"@ || u == "C"@ {
        Option::Some(Code::KeyC)
    } else if u == "KEYD"@ || u == "D"@ {
        Option::Some(Code::KeyD)
    } else if u == "KEYE"@ || u == "E"@ {
        Option::Some(Code::KeyE)
    } else if u == "KEYF"@ || u == "F"@ {
        Option::Some(Code::KeyF)
    } else if u == "KEYG"@ || u == "G"@ {
        Option::Some(Code::KeyG)
    } else if u == "KEYH"@ || u == "H"@ {
        Option::Some(Code::KeyH)
    } else if u == "KEYI"@ || u == "I"@ {
        Option::Some(Code::KeyI)
    } else if u == "KEYJ"@ || u == "J"@ {
        Option::Some(Code::KeyJ)
    } else if u == "KEYK"@ || u == "K"@ {
        Option::Some(Code::KeyK)
    } else if u == "KEYL"@ || u == "L"@ {
        Option::Some(Code::KeyL)
    } else if u == "KEYM"@ || u == "M"@ {
        Option::Some(Code::KeyM)
    } else if u == "KEYN"@ || u == "N"@ {
        Option::Some(Code::KeyN)
    } else if u == "KEYO"@ || u == "O"@ {
        Option::Some(Code::KeyO)
    } else if u == "KEYP"@ || u == "P"@ {
        Option::Some(Code::KeyP)
    } else if u == "KEYQ"@ || u == "Q"@ {
        Option::Some(Code::KeyQ)
    } else if u == "KEYR"@ || u == "R"@ {
        Option::Some(Code::KeyR)
    } else if u == "KEYS"@ || u == "S"@ {
        Option::Some(Code::KeyS)
    } else if u == "KEYT"@ || u == "T"@ {
        Option::Some(Code::KeyT)
    } else if u == "KEYU"@ || u == "U"@ {
        Option::Some(Code::KeyU)
    } else if u == "KEYV"@ || u == "V"@ {
        Option::Some(Code::KeyV)
    } else if u == "KEYW"@ || u == "W"@ {
        Option::Some(Code::KeyW)
    } else if u == "KEYX"@ || u == "X"@ {
        Option::Some(Code::KeyX)
    } else if u == "KEYY"@ || u == "Y"@ {
        Option::Some(Code::KeyY)
    } else if u == "KEYZ"@ || u == "Z"@ {
        Option::Some(Code::KeyZ)
    } else if u == "MINUS"@ || u == "-"@ {
        Option::Some(Code::Minus)
    } else if u == "PERIOD"@ || u == "."@ {
        Option::Some(Code::Period)
    } else if u == "QUOTE"@ || u == "'"@ {
        Option::Some(Code::Quote)
    } else if u == "SEMICOLON"@ || u == ";"@ {
        Option::Some(Code::Semicolon)
    } else if u == "SLASH"@ || u == "/"@ {
        Option::Some(Code::Slash)
    } else {
        Option::None
    }
}

fn lookup_group_a(tok: &str) -> (r: Option<Code>)
    ensures
        r == key_group_a(upper_chars(tok@)),
{
    if upper_eq(tok, "BACKQUOTE") || upper_eq(tok, "`") {
        Option::Some(Code::Backquote)
    } else if upper_eq(tok, "BACKSLASH") || upper_eq(tok, "\\") {
        Option::Some(Code::Backslash)
    } else if upper_eq(tok, "BRACKETLEFT") || upper_eq(tok, "[") {
        Option::Some(Code::BracketLeft)
    } else if upper_eq(tok, "BRACKETRIGHT") || upper_eq(tok, "]") {
        Option::Some(Code::BracketRight)
    } else if upper_eq(tok, "COMMA") || upper_eq(tok, ",") {
        Option::Some(Code::Comma)
    } else if upper_eq(tok, "DIGIT0") || upper_eq(tok, "0") {
        Option::Some(Code::Digit0)
    } else if upper_eq(tok, "DIGIT1") || upper_eq(tok, "1") {
        Option::Some(Code::Digit1)
    } else if upper_eq(tok, "DIGIT2") || upper_eq(tok, "2") {
        Option::Some(Code::Digit2)
    } else if upper_eq(tok, "DIGIT3") || upper_eq(tok, "3") {
        Option::Some(Code::Digit3)
    } else if upper_eq(tok, "DIGIT4") || upper_eq(tok, "4") {
        Option::Some(Code::Digit4)
    } else if upper_eq(tok, "DIGIT5") || upper_eq(tok, "5") {
        Option::Some(Code::Digit5)
    } else if upper_eq(tok, "DIGIT6") || upper_eq(tok, "6") {
        Option::Some(Code::Digit6)
    } else if upper_eq(tok, "DIGIT7") || upper_eq(tok, "7") {
        Option::Some(Code::Digit7)
    } else if upper_eq(tok, "DIGIT8") || upper_eq(tok, "8") {
        Option::Some(Code::Digit8)
    } else if upper_eq(tok, "DIGIT9") || upper_eq(tok, "9") {
        Option::Some(Code::Digit9)
    } else if upper_eq(tok, "EQUAL") || upper_eq(tok, "=") {
        Option::Some(Code::Equal)
    } else if upper_eq(tok, "KEYA") || upper_eq(tok, "A") {
        Option::Some(Code::KeyA)
    } else if upper_eq(tok, "KEYB") || upper_eq(tok, "B") {
        Option::Some(Code::KeyB)
    } else if upper_eq(tok, "KEYC") || upper_eq(tok, "C") {
        Option::Some(Code::KeyC)
    } else if upper_eq(tok, "KEYD") || upper_eq(tok, "D") {
        Option::Some(Code::KeyD)
    } else if upper_eq(tok, "KEYE") || upper_eq(tok, "E") {
        Option::Some(Code::KeyE)
    } else if upper_eq(tok, "KEYF") || upper_eq(tok, "F") {
        Option::Some(Code::KeyF)
    } else if upper_eq(tok, "KEYG") || upper_eq(tok, "G") {
        Option::Some(Code::KeyG)
    } else if upper_eq(tok, "KEYH") || upper_eq(tok, "H") {
        Option::Some(Code::KeyH)
    } else if upper_eq(tok, "KEYI") || upper_eq(tok, "I") {
        Option::Some(Code::KeyI)
    } else if upper_eq(tok, "KEYJ") || upper_eq(tok, "J") {
        Option::Some(Code::KeyJ)
    } else if upper_eq(tok, "KEYK") || upper_eq(tok, "K") {
        Option::Some(Code::KeyK)
    } else if upper_eq(tok, "KEYL") || upper_eq(tok, "L") {
        Option::Some(Code::KeyL)
    } else if upper_eq(tok, "KEYM") || upper_eq(tok, "M") {
        Option::Some(Code::KeyM)
    } else if upper_eq(tok, "KEYN") || upper_eq(tok, "N") {
        Option::Some(Code::KeyN)
    } else if upper_eq(tok, "KEYO") || upper_eq(tok, "O") {
        Option::Some(Code::KeyO)
    } else if upper_eq(tok, "KEYP") || upper_eq(tok, "P") {
        Option::Some(Code::KeyP)
    } else if upper_eq(tok, "KEYQ") || upper_eq(tok, "Q") {
        Option::Some(Code::KeyQ)
    } else if upper_eq(tok, "KEYR") || upper_eq(tok, "R") {
        Option::Some(Code::KeyR)
    } else if upper_eq(tok, "KEYS") || upper_eq(tok, "S") {
        Option::Some(Code::KeyS)
    } else if upper_eq(tok, "KEYT") || upper_eq(tok, "T") {
        Option::Some(Code::KeyT)
    } else if upper_eq(tok, "KEYU") || upper_eq(tok, "U") {
        Option::Some(Code::KeyU)
    } else if upper_eq(tok, "KEYV") || upper_eq(tok, "V") {
        Option::Some(Code::KeyV)
    } else if upper_eq(tok, "KEYW") || upper_eq(tok, "W") {
        Option::Some(Code::KeyW)
    } else if upper_eq(tok, "KEYX") || upper_eq(tok, "X") {
        Option::Some(Code::KeyX)
    } else if upper_eq(tok, "KEYY") || upper_eq(tok, "Y") {
        Option::Some(Code::KeyY)
    } else if upper_eq(tok, "KEYZ") || upper_eq(tok, "Z") {
        Option::Some(Code::KeyZ)
    } else if upper_eq(tok, "MINUS") || upper_eq(tok, "-") {
        Option::Some(Code::Minus)
    } else if upper_eq(tok, "PERIOD") || upper_eq(tok, ".") {
        Option::Some(Code::Period)
    } else if upper_eq(tok, "QUOTE") || upper_eq(tok, "'") {
        Option::Some(Code::Quote)
    } else if upper_eq(tok, "SEMICOLON") || upper_eq(tok, ";") {
        Option::Some(Code::Semicolon)
    } else if upper_eq(tok, "SLASH") || upper_eq(tok, "/") {
        Option::Some(Code::Slash)
    } else {
        Option::None
    }
}


/// The key names for whitespace, navigation and editing keys, matched against an uppercased token.
pub open spec fn key_group_b(u: Seq<char>) -> Option<Code> {
    if u == "BACKSPACE"@ {
        Option::Some(Code::Backspace)
    } else if u == "CAPSLOCK"@ {
        Option::Some(Code::CapsLock)
    } else if u == "ENTER"@ {
        Option::Some(Code::Enter)
    } else if u == "SPACE"@ {
        Option::Some(Code::Space)
    } else if u == "TAB"@ {
        Option::Some(Code::Tab)
    } else if u == "DELETE"@ {
        Option::Some(Code::Delete)
    } else if u == "END"@ {
        Option::Some(Code::End)
    } else if u == "HOME"@ {
        Option::Some(Code::Home)
    } else if u == "INSERT"@ {
        Option::Some(Code::Insert)
    } else if u == "PAGEDOWN"@ {
        Option::Some(Code::PageDown)
    } else if u == "PAGEUP"@ {
        Option::Some(Code::PageUp)
    } else if u == "PRINTSCREEN"@ {
        Option::Some(Code::PrintScreen)
    } else if u == "SCROLLLOCK"@ {
        Option::Some(Code::ScrollLock)
    } else if u == "ARROWDOWN"@ || u == "DOWN"@ {
        Option::Some(Code::ArrowDown)
    } else if u == "ARROWLEFT"@ || u == "LEFT"@ {
        Option::Some(Code::ArrowLeft)
    } else if u == "ARROWRIGHT"@ || u == "RIGHT"@ {
        Option::Some(Code::ArrowRight)
    } else if u == "ARROWUP"@ || u == "UP"@ {
        Option::Some(Code::ArrowUp)
    } else {
        Option::None
    }
}

fn lookup_group_b(tok: &str) -> (r: Option<Code>)
    ensures
        r == key_group_b(upper_chars(tok@)),
{
    if upper_eq(tok, "BACKSPACE") {
        Option::Some(Code::Backspace)
    } else if upper_eq(tok, "CAPSLOCK") {
        Option::Some(Code::CapsLock)
    } else if upper_eq(tok, "ENTER") {
        Option::Some(Code::Enter)
    } else if upper_eq(tok, "SPACE") {
        Option::Some(Code::Space)
    } else if upper_eq(tok, "TAB") {
        Option::Some(Code::Tab)
    } else if upper_eq(tok, "DELETE") {
        Option::Some(Code::Delete)
    } else if upper_eq(tok, "END") {
        Option::Some(Code::End)
    } else if upper_eq(tok, "HOME") {
        Option::Some(Code::Home)
    } else if upper_eq(tok, "INSERT") {
        Option::Some(Code::Insert)
    } else if upper_eq(tok, "PAGEDOWN") {
        Option::Some(Code::PageDown)
    } else if upper_eq(tok, "PAGEUP") {
        Option::Some(Code::PageUp)
    } else if upper_eq(tok, "PRINTSCREEN") {
        Option::Some(Code::PrintScreen)
    } else if upper_eq(tok, "SCROLLLOCK") {
        Option::Some(Code::ScrollLock)
    } else if upper_eq(tok, "ARROWDOWN") || upper_eq(tok, "DOWN") {
        Option::Some(Code::ArrowDown)
    } else if upper_eq(tok, "ARROWLEFT") || upper_eq(tok, "LEFT") {
        Option::Some(Code::ArrowLeft)
    } else if upper_eq(tok, "ARROWRIGHT") || upper_eq(tok, "RIGHT") {
        Option::Some(Code::ArrowRight)
    } else if upper_eq(tok, "ARROWUP") || upper_eq(tok, "UP") {
        Option::Some(Code::ArrowUp)
    } else {
        Option::None
    }
}


/// The key names for the numeric keypad, matched against an uppercased token.
pub open spec fn key_group_c(u: Seq<char>) -> Option<Code> {
    if u == "NUMLOCK"@ {
        Option::Some(Code::NumLock)
    } else if u == "NUMPAD0"@ || u == "NUM0"@ {
        Option::Some(Code::Numpad0)
    } else if u == "NUMPAD1"@ || u == "NUM1"@ {
        Option::Some(Code::Numpad1)
    } else if u == "NUMPAD2"@ || u == "NUM2"@ {
        Option::Some(Code::Numpad2)
    } else if u == "NUMPAD3"@ || u == "NUM3"@ {
        Option::Some(Code::Numpad3)
    } else if u == "NUMPAD4"@ || u == "NUM4"@ {
        Option::Some(Code::Numpad4)
    } else if u == "NUMPAD5"@ || u == "NUM5"@ {
        Option::Some(Code::Numpad5)
    } else if u == "NUMPAD6"@ || u == "NUM6"@ {
        Option::Some(Code::Numpad6)
    } else if u == "NUMPAD7"@ || u == "NUM7"@ {
        Option::Some(Code::Numpad7)
    } else if u == "NUMPAD8"@ || u == "NUM8"@ {
        Option::Some(Code::Numpad8)
    } else if u == "NUMPAD9"@ || u == "NUM9"@ {
        Option::Some(Code::Numpad9)
    } else if u == "NUMPADADD"@ || u == "NUMADD"@ || u == "NUMPADPLUS"@ || u == "NUMPLUS"@ {
        Option::Some(Code::NumpadAdd)
    } else if u == "NUMPADDECIMAL"@ || u == "NUMDECIMAL"@ {
        Option::Some(Code::NumpadDecimal)
    } else if u == "NUMPADDIVIDE"@ || u == "NUMDIVIDE"@ {
        Option::Some(Code::NumpadDivide)
    } else if u == "NUMPADENTER"@ || u == "NUMENTER"@ {
        Option::Some(Code::NumpadEnter)
    } else if u == "NUMPADEQUAL"@ || u == "NUMEQUAL"@ {
        Option::Some(Code::NumpadEqual)
    } else if u == "NUMPADMULTIPLY"@ || u == "NUMMULTIPLY"@ {
        Option::Some(Code::NumpadMultiply)
    } else if u == "NUMPADSUBTRACT"@ || u == "NUMSUBTRACT"@ {
        Option::Some(Code::NumpadSubtract)
    } else {
        Option::None
    }
}

fn lookup_group_c(tok: &str) -> (r: Option<Code>)
    ensures
        r == key_group_c(upper_chars(tok@)),
{
    if upper_eq(tok, "NUMLOCK") {
        Option::Some(Code::NumLock)
    } else if upper_eq(tok, "NUMPAD0") || upper_eq(tok, "NUM0") {
        Option::Some(Code::Numpad0)
    } else if upper_eq(tok, "NUMPAD1") || upper_eq(tok, "NUM1") {
        Option::Some(Code::Numpad1)
    } else if upper_eq(tok, "NUMPAD2") || upper_eq(tok, "NUM2") {
        Option::Some(Code::Numpad2)
    } else if upper_eq(tok, "NUMPAD3") || upper_eq(tok, "NUM3") {
        Option::Some(Code::Numpad3)
    } else if upper_eq(tok, "NUMPAD4") || upper_eq(tok, "NUM4") {
        Option::Some(Code::Numpad4)
    } else if upper_eq(tok, "NUMPAD5") || upper_eq(tok, "NUM5") {
        Option::Some(Code::Numpad5)
    } else if upper_eq(tok, "NUMPAD6") || upper_eq(tok, "NUM6") {
        Option::Some(Code::Numpad6)
    } else if upper_eq(tok, "NUMPAD7") || upper_eq(tok, "NUM7") {
        Option::Some(Code::Numpad7)
    } else if upper_eq(tok, "NUMPAD8") || upper_eq(tok, "NUM8") {
        Option::Some(Code::Numpad8)
    } else if upper_eq(tok, "NUMPAD9") || upper_eq(tok, "NUM9") {
        Option::Some(Code::Numpad9)
    } else if upper_eq(tok, "NUMPADADD") || upper_eq(tok, "NUMADD") || upper_eq(tok, "NUMPADPLUS") || upper_eq(tok, "NUMPLUS") {
        Option::Some(Code::NumpadAdd)
    } else if upper_eq(tok, "NUMPADDECIMAL") || upper_eq(tok, "NUMDECIMAL") {
        Option::Some(Code::NumpadDecimal)
    } else if upper_eq(tok, "NUMPADDIVIDE") || upper_eq(tok, "NUMDIVIDE") {
        Option::Some(Code::NumpadDivide)
    } else if upper_eq(tok, "NUMPADENTER") || upper_eq(tok, "NUMENTER") {
        Option::Some(Code::NumpadEnter)
    } else if upper_eq(tok, "NUMPADEQUAL") || upper_eq(tok, "NUMEQUAL") {
        Option::Some(Code::NumpadEqual)
    } else if upper_eq(tok, "NUMPADMULTIPLY") || upper_eq(tok, "NUMMULTIPLY") {
        Option::Some(Code::NumpadMultiply)
    } else if upper_eq(tok, "NUMPADSUBTRACT") || upper_eq(tok, "NUMSUBTRACT") {
        Option::Some(Code::NumpadSubtract)
    } else {
        Option::None
    }
}


/// The key names for escape, the function keys and the audio keys, matched against an uppercased token.
pub open spec fn key_group_d(u: Seq<char>) -> Option<Code> {
    if u == "ESCAPE"@ || u == "ESC"@ {
        Option::Some(Code::Escape)
    } else if u == "F1"@ {
        Option::Some(Code::F1)
    } else if u == "F2"@ {
        Option::Some(Code::F2)
    } else if u == "F3"@ {
        Option::Some(Code::F3)
    } else if u == "F4"@ {
        Option::Some(Code::F4)
    } else if u == "F5"@ {
        Option::Some(Code::F5)
    } else if u == "F6"@ {
        Option::Some(Code::F6)
    } else if u == "F7"@ {
        Option::Some(Code::F7)
    } else if u == "F8"@ {
        Option::Some(Code::F8)
    } else if u == "F9"@ {
        Option::Some(Code::F9)
    } else if u == "F10"@ {
        Option::Some(Code::F10)
    } else if u == "F11"@ {
        Option::Some(Code::F11)
    } else if u == "F12"@ {
        Option::Some(Code::F12)
    } else if u == "AUDIOVOLUMEDOWN"@ || u == "VOLUMEDOWN"@ {
        Option::Some(Code::AudioVolumeDown)
    } else if u == "AUDIOVOLUMEUP"@ || u == "VOLUMEUP"@ {
        Option::Some(Code::AudioVolumeUp)
    } else if u == "AUDIOVOLUMEMUTE"@ || u == "VOLUMEMUTE"@ {
        Option::Some(Code::AudioVolumeMute)
    } else if u == "F13"@ {
        Option::Some(Code::F13)
    } else if u == "F14"@ {
        Option::Some(Code::F14)
    } else if u == "F15"@ {
        Option::Some(Code::F15)
    } else if u == "F16"@ {
        Option::Some(Code::F16)
    } else if u == "F17"@ {
        Option::Some(Code::F17)
    } else if u == "F18"@ {
        Option::Some(Code::F18)
    } else if u == "F19"@ {
        Option::Some(Code::F19)
    } else if u == "F20"@ {
        Option::Some(Code::F20)
    } else if u == "F21"@ {
        Option::Some(Code::F21)
    } else if u == "F22"@ {
        Option::Some(Code::F22)
    } else if u == "F23"@ {
        Option::Some(Code::F23)
    } else if u == "F24"@ {
        Option::Some(Code::F24)
    } else {
        Option::None
    }
}

fn lookup_group_d(tok: &str) -> (r: Option<Code>)
    ensures
        r == key_group_d(upper_chars(tok@)),
{
    if upper_eq(tok, "ESCAPE") || upper_eq(tok, "ESC") {
        Option::Some(Code::Escape)
    } else if upper_eq(tok, "F1") {
        Option::Some(Code::F1)
    } else if upper_eq(tok, "F2") {
        Option::Some(Code::F2)
    } else if upper_eq(tok, "F3") {
        Option::Some(Code::F3)
    } else if upper_eq(tok, "F4") {
        Option::Some(Code::F4)
    } else if upper_eq(tok, "F5") {
        Option::Some(Code::F5)
    } else if upper_eq(tok, "F6") {
        Option::Some(Code::F6)
    } else if upper_eq(tok, "F7") {
        Option::Some(Code::F7)
    } else if upper_eq(tok, "F8") {
        Option::Some(Code::F8)
    } else if upper_eq(tok, "F9") {
        Option::Some(Code::F9)
    } else if upper_eq(tok, "F10") {
        Option::Some(Code::F10)
    } else if upper_eq(tok, "F11") {
        Option::Some(Code::F11)
    } else if upper_eq(tok, "F12") {
        Option::Some(Code::F12)
    } else if upper_eq(tok, "AUDIOVOLUMEDOWN") || upper_eq(tok, "VOLUMEDOWN") {
        Option::Some(Code::AudioVolumeDown)
    } else if upper_eq(tok, "AUDIOVOLUMEUP") || upper_eq(tok, "VOLUMEUP") {
        Option::Some(Code::AudioVolumeUp)
    } else if upper_eq(tok, "AUDIOVOLUMEMUTE") || upper_eq(tok, "VOLUMEMUTE") {
        Option::Some(Code::AudioVolumeMute)
    } else if upper_eq(tok, "F13") {
        Option::Some(Code::F13)
    } else if upper_eq(tok, "F14") {
        Option::Some(Code::F14)
    } else if upper_eq(tok, "F15") {
        Option::Some(Code::F15)
    } else if upper_eq(tok, "F16") {
        Option::Some(Code::F16)
    } else if upper_eq(tok, "F17") {
        Option::Some(Code::F17)
    } else if upper_eq(tok, "F18") {
        Option::Some(Code::F18)
    } else if upper_eq(tok, "F19") {
        Option::Some(Code::F19)
    } else if upper_eq(tok, "F20") {
        Option::Some(Code::F20)
    } else if upper_eq(tok, "F21") {
        Option::Some(Code::F21)
    } else if upper_eq(tok, "F22") {
        Option::Some(Code::F22)
    } else if upper_eq(tok, "F23") {
        Option::Some(Code::F23)
    } else if upper_eq(tok, "F24") {
        Option::Some(Code::F24)
    } else {
        Option::None
    }
}


/// The key code an uppercased token names, if any.
pub open spec fn key_from_upper(u: Seq<char>) -> Option<Code> {
    if key_group_a(u) is Some {
        key_group_a(u)
    } else if key_group_b(u) is Some {
        key_group_b(u)
    } else if key_group_c(u) is Some {
        key_group_c(u)
    } else {
        key_group_d(u)
    }
}

/// The key code a token names, matched case-insensitively.
pub fn lookup_key(tok: &str) -> (r: Option<Code>)
    ensures
        r == key_from_upper(upper_chars(tok@)),
{
    if let Option::Some(c) = lookup_group_a(tok) {
        return Option::Some(c);
    }
    if let Option::Some(c) = lookup_group_b(tok) {
        return Option::Some(c);
    }
    if let Option::Some(c) = lookup_group_c(tok) {
        return Option::Some(c);
    }
    lookup_group_d(tok)
}

/// Parses a single key name, case-insensitively.  Fails exactly on
/// tokens that name no key of this backend, and the error carries the
/// offending token.
pub fn parse_key(key: &str) -> (r: Result<Code, Error>)
    ensures
        r is Ok <==> key_from_upper(upper_chars(key@)) is Some,
        r matches Result::Ok(c) ==> key_from_upper(upper_chars(key@)) == Option::Some(c),
        r matches Result::Err(e) ==> e matches Error::UnrecognizedHotKeyCode(t) && t@ == key@,
{
    match lookup_key(key) {
        Option::Some(c) => Result::Ok(c),
        Option::None => Result::Err(Error::UnrecognizedHotKeyCode(String::from_str(key))),
    }
}

} // verus!
