//! Hotkey identity: a set of shortcut modifiers, one physical key, and
//! a stable id derived by hashing the canonical "modifiers+key" string.

use std::collections::hash_map::DefaultHasher;
use std::hash::Hasher;
use vstd::prelude::*;
use vstd::std_specs::hash::DefaultHasherAdditionalSpecFns;
use vstd::string::StringExecFns;
use vstd::string::StringSliceAdditionalSpecFns;
use vstd::utf8::encode_utf8;

use crate::code::spec_name;
use crate::code::Code;

verus! {

/// The Shift modifier bit.
pub const MOD_SHIFT: u32 = 1;

/// The Control modifier bit.
pub const MOD_CONTROL: u32 = 2;

/// The Alt (Option) modifier bit.
pub const MOD_ALT: u32 = 4;

/// The Super (Command, Windows) modifier bit.
pub const MOD_SUPER: u32 = 8;

/// The Meta modifier bit; a hotkey built with Meta is normalized to
/// Super.
pub const MOD_META: u32 = 16;

/// The four modifier bits a hotkey distinguishes; anything else in a
/// reported modifier state is ignored when matching.
pub const BASE_MODS: u32 = MOD_SHIFT | MOD_CONTROL | MOD_ALT | MOD_SUPER;

/// Meta folded into Super; other bits are kept as given.
pub open spec fn normalize_mods(m: u32) -> u32 {
    if m & MOD_META != 0 {
        (m & !MOD_META) | MOD_SUPER
    } else {
        m
    }
}

/// The canonical "modifiers+key" string a hotkey id is derived from:
/// the active shortcut modifiers in a fixed order, then the key name.
pub open spec fn canonical_chars(mods: u32, key: Code) -> Seq<char> {
    (if mods & MOD_SHIFT != 0 {
        "shift+"@
    } else {
        Seq::<char>::empty()
    }) + (if mods & MOD_CONTROL != 0 {
        "control+"@
    } else {
        Seq::<char>::empty()
    }) + (if mods & MOD_ALT != 0 {
        "alt+"@
    } else {
        Seq::<char>::empty()
    }) + (if mods & MOD_SUPER != 0 {
        "super+"@
    } else {
        Seq::<char>::empty()
    }) + spec_name(key)
}

/// The id of a hotkey: the canonical string hashed with the standard
/// library's default hasher, truncated to 32 bits.  Equal
/// (modifiers, key) pairs always give equal ids.
pub open spec fn id_of(mods: u32, key: Code) -> u32 {
    DefaultHasher::spec_finish(seq![encode_utf8(canonical_chars(mods, key))]) as u32
}

/// A keyboard shortcut: an optional combination of modifier bits and
/// one key code, with the id derived from them.
#[derive(Clone, Copy, PartialEq, Eq, Structural, Debug, Hash)]
pub struct HotKey {
    pub mods: u32,
    pub key: Code,
    pub id: u32,
}

impl HotKey {
    /// The stored id.
    pub open spec fn spec_id(self) -> u32 {
        self.id
    }

    /// A hotkey is well formed when its id is the one derived from its
    /// modifiers and key.
    pub open spec fn wf(self) -> bool {
        self.spec_id() == id_of(self.mods, self.key)
    }

    /// Creates a new hotkey from an optional modifier set and a key
    /// code.  Meta is folded into Super, and the id is derived from
    /// the normalized combination.
    pub fn new(mods: Option<u32>, key: Code) -> (hk: HotKey)
        ensures
            hk.mods == normalize_mods(match mods {
                Option::Some(m) => m,
                Option::None => 0u32,
            }),
            hk.key == key,
            hk.wf(),
    {
        let m0: u32 = match mods {
            Option::Some(m) => m,
            Option::None => 0,
        };
        let m: u32 = if m0 & MOD_META != 0 {
            (m0 & !MOD_META) | MOD_SUPER
        } else {
            m0
        };
        let mut s = String::new();
        if m & MOD_SHIFT != 0 {
            s.append("shift+");
        }
        if m & MOD_CONTROL != 0 {
            s.append("control+");
        }
        if m & MOD_ALT != 0 {
            s.append("alt+");
        }
        if m & MOD_SUPER != 0 {
            s.append("super+");
        }
        s.append(key.name());
        proof {
            assert(s@ =~= canonical_chars(m, key));
        }
        let mut hasher = DefaultHasher::new();
        hasher.write(s.as_str().as_bytes());
        let h = hasher.finish();
        proof {
            assert(hasher@ =~= seq![encode_utf8(canonical_chars(m, key))]);
        }
        HotKey { mods: m, key, id: #[verifier::truncate] (h as u32) }
    }

    /// The id associated with this hotkey: a hash of the canonical
    /// string for its modifiers and key.
    pub fn id(&self) -> (r: u32)
        ensures
            r == self.spec_id(),
    {
        self.id
    }

    /// Whether a reported modifier state and key code match this
    /// hotkey.  Only the four shortcut modifier bits of the state are
    /// considered.
    pub fn matches(&self, modifiers: u32, key: Code) -> (r: bool)
        ensures
            r == (self.mods == modifiers & BASE_MODS && self.key == key),
    {
        self.mods == (modifiers & BASE_MODS) && self.key == key
    }
}

/// Hotkeys built from equal (modifiers, key) pairs always share an id:
/// the id is a function of the normalized combination alone.
pub proof fn lemma_equal_combo_equal_id(h1: HotKey, h2: HotKey)
    requires
        h1.wf(),
        h2.wf(),
        h1.mods == h2.mods,
        h1.key == h2.key,
    ensures
        h1.spec_id() == h2.spec_id(),
{
}

} // verus!
