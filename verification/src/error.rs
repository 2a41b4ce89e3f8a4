//! The errors registration, unregistration and hotkey parsing can
//! produce.

use vstd::prelude::*;

use crate::hotkey::HotKey;

verus! {

/// An error from the hotkey engine.
#[derive(Debug)]
pub enum Error {
    /// The combination is already registered, either locally or by a
    /// conflicting native grab.
    AlreadyRegistered(HotKey),
    /// The hotkey's key has no native translation; the payload is a
    /// human-readable description.
    FailedToRegister(String),
    /// The hotkey's key has no native translation, so its grabs cannot
    /// be released.
    FailedToUnRegister(HotKey),
    /// A hotkey string named a key this backend does not know.
    UnrecognizedHotKeyCode(String),
    /// A hotkey string contained an empty token.
    EmptyHotKeyToken(String),
    /// A hotkey string was malformed: a second non-modifier key, a
    /// modifier after the key, or no key at all.
    UnexpectedHotKeyFormat(String),
    /// The worker owning the native connection is gone and cannot
    /// answer commands.
    WorkerUnavailable,
    /// The failures of a best-effort batch operation, in the order the
    /// items were attempted.
    MultipleFailures(Vec<Error>),
}

} // verus!
