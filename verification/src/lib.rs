//! Global keyboard shortcut bookkeeping for an X11-style windowing system.
//!
//! The crate models the core of a global hotkey engine: a registration
//! table that maps native scancodes to registered (hotkey id, modifier
//! mask) combinations, the grab-controller policy that fans a grab out
//! over the lock-modifier variants, and the translation of raw key
//! press/release events into de-duplicated notifications.  All native
//! calls (opening the display, grabbing keys, polling events) are left
//! to the embedding program, which feeds their outcomes into the
//! verified functions here.

pub mod code;
pub mod error;
pub mod events;
pub mod grab;
pub mod hotkey;
pub mod parse;
pub mod registry;
pub mod xkeys;

pub use code::Code;
pub use error::Error;
pub use events::GlobalHotKeyEvent;
pub use events::HotKeyState;
pub use events::KeyEvent;
pub use events::KeyEventKind;
pub use hotkey::HotKey;
pub use registry::RegEntry;
pub use registry::RegistrationTable;
