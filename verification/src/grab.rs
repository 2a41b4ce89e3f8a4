//! The grab controller: translating a hotkey to the native grab it
//! needs, the lock-modifier fan-out policy, and the authoritative
//! bookkeeping of registrations and unregistrations.
//!
//! The native calls themselves (resolving a key symbol to a scancode,
//! grabbing and ungrabbing) are made by the embedding program, which
//! reports their outcomes back into the functions here.

use vstd::prelude::*;
use vstd::string::StringExecFns;

use crate::code::spec_name;
use crate::code::Code;
use crate::error::Error;
use crate::hotkey::HotKey;
use crate::registry::register_allowed;
use crate::registry::remove_combo_seq;
use crate::registry::table_after_register;
use crate::registry::RegistrationTable;
use crate::xkeys::keycode_to_x11_scancode;
use crate::xkeys::keysym_of;
use crate::xkeys::modifiers_to_x11_mods;
use crate::xkeys::x11_mods_of;
use crate::xkeys::X_LOCK_MASK;
use crate::xkeys::X_MOD2_MASK;

verus! {

/// What the embedding program must grab (or ungrab) for a hotkey: the
/// key symbol to resolve to a scancode, and the base native modifier
/// mask to fan out over the lock-modifier variants.
#[derive(Clone, Copy, PartialEq, Eq, Structural, Debug)]
pub struct GrabRequest {
    pub keysym: u32,
    pub x_mods: u32,
}

/// The description carried by a registration failure for a key with no
/// native translation.
pub open spec fn register_fail_chars(key: Code) -> Seq<char> {
    "Unable to register accelerator (unknown scancode for this key: "@ + spec_name(key) + ")."@
}

/// Translates a hotkey for registration.  Fails exactly when the key
/// has no native key symbol.
pub fn registration_request(hotkey: &HotKey) -> (r: Result<GrabRequest, Error>)
    ensures
        r is Ok <==> keysym_of(hotkey.key) is Some,
        r matches Result::Ok(g) ==> Option::Some(g.keysym) == keysym_of(hotkey.key)
            && g.x_mods == x11_mods_of(hotkey.mods),
        r matches Result::Err(e) ==> e matches Error::FailedToRegister(msg) && msg@
            == register_fail_chars(hotkey.key),
{
    match keycode_to_x11_scancode(hotkey.key) {
        Option::Some(keysym) => Result::Ok(
            GrabRequest { keysym, x_mods: modifiers_to_x11_mods(hotkey.mods) },
        ),
        Option::None => {
            let mut msg = String::from_str(
                "Unable to register accelerator (unknown scancode for this key: ",
            );
            msg.append(hotkey.key.name());
            msg.append(").");
            proof {
                assert(msg@ =~= register_fail_chars(hotkey.key));
            }
            Result::Err(Error::FailedToRegister(msg))
        },
    }
}

/// Translates a hotkey for unregistration.  Fails exactly when the key
/// has no native key symbol, the only way an unregistration can fail.
pub fn unregistration_request(hotkey: &HotKey) -> (r: Result<GrabRequest, Error>)
    ensures
        r is Ok <==> keysym_of(hotkey.key) is Some,
        r matches Result::Ok(g) ==> Option::Some(g.keysym) == keysym_of(hotkey.key)
            && g.x_mods == x11_mods_of(hotkey.mods),
        r matches Result::Err(e) ==> e == Error::FailedToUnRegister(*hotkey),
{
    match keycode_to_x11_scancode(hotkey.key) {
        Option::Some(keysym) => Result::Ok(
            GrabRequest { keysym, x_mods: modifiers_to_x11_mods(hotkey.mods) },
        ),
        Option::None => Result::Err(Error::FailedToUnRegister(*hotkey)),
    }
}

/// The lock-modifier fan-out: a combination is grabbed (and ungrabbed)
/// under its base mask and under the base mask with NumLock, CapsLock,
/// and both OR-ed in, so that a toggled lock key never hides a hotkey.
pub fn grab_mask_variants(x_mods: u32) -> (v: Vec<u32>)
    ensures
        v@ == seq![
            x_mods,
            x_mods | X_MOD2_MASK,
            x_mods | X_LOCK_MASK,
            x_mods | X_MOD2_MASK | X_LOCK_MASK,
        ],
{
    let mut v: Vec<u32> = Vec::new();
    v.push(x_mods);
    v.push(x_mods | X_MOD2_MASK);
    v.push(x_mods | X_LOCK_MASK);
    v.push(x_mods | X_MOD2_MASK | X_LOCK_MASK);
    proof {
        assert(v@ =~= seq![
            x_mods,
            x_mods | X_MOD2_MASK,
            x_mods | X_LOCK_MASK,
            x_mods | X_MOD2_MASK | X_LOCK_MASK,
        ]);
    }
    v
}

/// Records the outcome of a registration attempt whose grabs the
/// embedding program has already performed.  `grab_denied` reports a
/// native exclusivity conflict; the local table remains authoritative
/// for duplicate detection, so a duplicate combination is rejected
/// even when the native grabs succeeded.
pub fn register_hotkey(
    table: &mut RegistrationTable,
    hotkey: &HotKey,
    keycode: u32,
    grab_denied: bool,
) -> (r: Result<(), Error>)
    requires
        old(table).wf(),
    ensures
        final(table).wf(),
        final(table)@ == table_after_register(
            old(table)@,
            keycode,
            hotkey.spec_id(),
            x11_mods_of(hotkey.mods),
            grab_denied,
        ),
        r is Ok <==> register_allowed(
            old(table)@,
            keycode,
            x11_mods_of(hotkey.mods),
            grab_denied,
        ),
        r matches Result::Err(e) ==> e == Error::AlreadyRegistered(*hotkey),
{
    let x_mods = modifiers_to_x11_mods(hotkey.mods);
    if grab_denied {
        return Result::Err(Error::AlreadyRegistered(*hotkey));
    }
    if table.insert_entry(keycode, hotkey.id(), x_mods) {
        Result::Ok(())
    } else {
        Result::Err(Error::AlreadyRegistered(*hotkey))
    }
}

/// Records an unregistration: every entry for the hotkey's combination
/// leaves the table.  Unregistering a combination that was never
/// registered is a no-op; it is not an error.
pub fn unregister_hotkey(table: &mut RegistrationTable, hotkey: &HotKey, keycode: u32)
    requires
        old(table).wf(),
    ensures
        final(table).wf(),
        final(table)@ == remove_combo_seq(old(table)@, keycode, x11_mods_of(hotkey.mods)),
{
    let x_mods = modifiers_to_x11_mods(hotkey.mods);
    table.remove_combo(keycode, x_mods);
}

/// Aggregates the outcome of a best-effort batch: success when no item
/// failed, otherwise an error carrying every failure in attempt order,
/// so that no failure is masked by a later one.
pub fn batch_result(failures: Vec<Error>) -> (r: Result<(), Error>)
    ensures
        r is Ok <==> failures@.len() == 0,
        r matches Result::Err(e) ==> e matches Error::MultipleFailures(v) && v@ == failures@,
{
    if failures.is_empty() {
        Result::Ok(())
    } else {
        Result::Err(Error::MultipleFailures(failures))
    }
}

} // verus!
