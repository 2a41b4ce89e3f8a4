//! The drain-phase logic of the event loop: matching raw key
//! press/release events against the registration table and producing
//! de-duplicated pressed/released notifications.

use vstd::prelude::*;

use crate::registry::set_pressed_e;
use crate::registry::unique_combos;
use crate::registry::RegEntry;
use crate::registry::RegistrationTable;
use crate::xkeys::masked_state;
use crate::xkeys::X_BASE_STATE;

verus! {

/// Whether a raw input event reports a key going down or up.
#[derive(Clone, Copy, PartialEq, Eq, Structural, Debug)]
pub enum KeyEventKind {
    Press,
    Release,
}

/// A raw key event as the windowing system reports it: the physical
/// key's scancode and the full modifier state, lock bits included.
#[derive(Clone, Copy, PartialEq, Eq, Structural, Debug)]
pub struct KeyEvent {
    pub kind: KeyEventKind,
    pub keycode: u32,
    pub state: u32,
}

/// Whether a notification reports its hotkey pressed or released.
#[derive(Clone, Copy, PartialEq, Eq, Structural, Debug)]
pub enum HotKeyState {
    Pressed,
    Released,
}

/// A notification delivered to the application: which hotkey, and
/// whether it was pressed or released.
#[derive(Clone, Copy, PartialEq, Eq, Structural, Debug)]
pub struct GlobalHotKeyEvent {
    pub id: u32,
    pub state: HotKeyState,
}

/// A press of `keycode` with masked modifier state `m` fires an entry
/// when the entry is for that scancode with exactly that mask and is
/// not already held down.
pub open spec fn press_fires(e: RegEntry, keycode: u32, m: u32) -> bool {
    e.scancode == keycode && e.mods == m && !e.pressed
}

/// A release of `keycode` fires every held-down entry for that
/// scancode, whatever the current modifier state: physical key-up is
/// unambiguous even if modifiers drifted while the key was held.
pub open spec fn release_fires(e: RegEntry, keycode: u32) -> bool {
    e.scancode == keycode && e.pressed
}

/// The table after a press event: every fired entry is marked held.
pub open spec fn table_after_press(t: Seq<RegEntry>, keycode: u32, m: u32) -> Seq<RegEntry> {
    Seq::new(
        t.len(),
        |i: int|
            if press_fires(t[i], keycode, m) {
                set_pressed_e(t[i], true)
            } else {
                t[i]
            },
    )
}

/// The table after a release event: every fired entry is cleared.
pub open spec fn table_after_release(t: Seq<RegEntry>, keycode: u32) -> Seq<RegEntry> {
    Seq::new(
        t.len(),
        |i: int|
            if release_fires(t[i], keycode) {
                set_pressed_e(t[i], false)
            } else {
                t[i]
            },
    )
}

/// The pressed notifications a press event emits, in table order.
pub open spec fn pressed_events(t: Seq<RegEntry>, keycode: u32, m: u32) -> Seq<GlobalHotKeyEvent>
    decreases t.len(),
{
    if t.len() == 0 {
        Seq::<GlobalHotKeyEvent>::empty()
    } else {
        pressed_events(t.drop_last(), keycode, m) + if press_fires(t.last(), keycode, m) {
            seq![GlobalHotKeyEvent { id: t.last().hotkey_id, state: HotKeyState::Pressed }]
        } else {
            Seq::<GlobalHotKeyEvent>::empty()
        }
    }
}

/// The released notifications a release event emits, in table order.
pub open spec fn released_events(t: Seq<RegEntry>, keycode: u32) -> Seq<GlobalHotKeyEvent>
    decreases t.len(),
{
    if t.len() == 0 {
        Seq::<GlobalHotKeyEvent>::empty()
    } else {
        released_events(t.drop_last(), keycode) + if release_fires(t.last(), keycode) {
            seq![GlobalHotKeyEvent { id: t.last().hotkey_id, state: HotKeyState::Released }]
        } else {
            Seq::<GlobalHotKeyEvent>::empty()
        }
    }
}

/// The notifications one raw key event produces against a table.
pub open spec fn event_notifications(t: Seq<RegEntry>, ev: KeyEvent) -> Seq<GlobalHotKeyEvent> {
    match ev.kind {
        KeyEventKind::Press => pressed_events(t, ev.keycode, masked_state(ev.state)),
        KeyEventKind::Release => released_events(t, ev.keycode),
    }
}

/// The table one raw key event leaves behind.
pub open spec fn table_after_event(t: Seq<RegEntry>, ev: KeyEvent) -> Seq<RegEntry> {
    match ev.kind {
        KeyEventKind::Press => table_after_press(t, ev.keycode, masked_state(ev.state)),
        KeyEventKind::Release => table_after_release(t, ev.keycode),
    }
}

/// Processes one raw key event: a press fires every not-yet-held entry
/// whose mask equals the event's lock-masked modifier state and marks
/// it held; a release fires every held entry for the scancode,
/// whatever the modifier state, and clears it.  Returns the emitted
/// notifications in table order.
pub fn process_key_event(table: &mut RegistrationTable, event: KeyEvent) -> (out: Vec<
    GlobalHotKeyEvent,
>)
    requires
        old(table).wf(),
    ensures
        final(table).wf(),
        final(table)@ == table_after_event(old(table)@, event),
        out@ == event_notifications(old(table)@, event),
{
    let m = event.state & X_BASE_STATE;
    let mut out: Vec<GlobalHotKeyEvent> = Vec::new();
    let ghost t0 = table@;
    let n = table.len();
    let mut i: usize = 0;
    match event.kind {
        KeyEventKind::Press => {
            while i < n
                invariant
                    table.wf(),
                    i <= n,
                    n == t0.len(),
                    table@.len() == t0.len(),
                    m == masked_state(event.state),
                    forall|j: int|
                        0 <= j < i ==> table@[j] == (if press_fires(
                            t0[j],
                            event.keycode,
                            m,
                        ) {
                            set_pressed_e(t0[j], true)
                        } else {
                            t0[j]
                        }),
                    forall|j: int| i <= j < t0.len() ==> table@[j] == t0[j],
                    out@ == pressed_events(t0.take(i as int), event.keycode, m),
                decreases n - i,
            {
                let e = table.entry_at(i);
                proof {
                    assert(t0.take(i + 1 as int).drop_last() =~= t0.take(i as int));
                    assert(t0.take(i + 1 as int).last() == t0[i as int]);
                }
                if e.scancode == event.keycode && e.mods == m && !e.pressed {
                    out.push(GlobalHotKeyEvent { id: e.hotkey_id, state: HotKeyState::Pressed });
                    table.set_pressed_at(i, true);
                }
                i += 1;
            }
            proof {
                assert(t0.take(t0.len() as int) =~= t0);
                assert(table@ =~= table_after_press(t0, event.keycode, m));
            }
        },
        KeyEventKind::Release => {
            while i < n
                invariant
                    table.wf(),
                    i <= n,
                    n == t0.len(),
                    table@.len() == t0.len(),
                    forall|j: int|
                        0 <= j < i ==> table@[j] == (if release_fires(t0[j], event.keycode) {
                            set_pressed_e(t0[j], false)
                        } else {
                            t0[j]
                        }),
                    forall|j: int| i <= j < t0.len() ==> table@[j] == t0[j],
                    out@ == released_events(t0.take(i as int), event.keycode),
                decreases n - i,
            {
                let e = table.entry_at(i);
                proof {
                    assert(t0.take(i + 1 as int).drop_last() =~= t0.take(i as int));
                    assert(t0.take(i + 1 as int).last() == t0[i as int]);
                }
                if e.scancode == event.keycode && e.pressed {
                    out.push(GlobalHotKeyEvent { id: e.hotkey_id, state: HotKeyState::Released });
                    table.set_pressed_at(i, false);
                }
                i += 1;
            }
            proof {
                assert(t0.take(t0.len() as int) =~= t0);
                assert(table@ =~= table_after_release(t0, event.keycode));
            }
        },
    }
    out
}

/// A table in which no entry fires for a press emits no pressed
/// notification.
proof fn lemma_pressed_events_empty(t: Seq<RegEntry>, keycode: u32, m: u32)
    requires
        forall|i: int| 0 <= i < t.len() ==> !press_fires(t[i], keycode, m),
    ensures
        pressed_events(t, keycode, m) == Seq::<GlobalHotKeyEvent>::empty(),
    decreases t.len(),
{
    if t.len() > 0 {
        assert forall|i: int| 0 <= i < t.drop_last().len() implies !press_fires(
            t.drop_last()[i],
            keycode,
            m,
        ) by {
            assert(t.drop_last()[i] == t[i]);
        }
        lemma_pressed_events_empty(t.drop_last(), keycode, m);
        assert(t[t.len() - 1] == t.last());
        assert(pressed_events(t, keycode, m) =~= Seq::<GlobalHotKeyEvent>::empty());
    }
}

/// A table in which no entry fires for a release emits no released
/// notification.
proof fn lemma_released_events_empty(t: Seq<RegEntry>, keycode: u32)
    requires
        forall|i: int| 0 <= i < t.len() ==> !release_fires(t[i], keycode),
    ensures
        released_events(t, keycode) == Seq::<GlobalHotKeyEvent>::empty(),
    decreases t.len(),
{
    if t.len() > 0 {
        assert forall|i: int| 0 <= i < t.drop_last().len() implies !release_fires(
            t.drop_last()[i],
            keycode,
        ) by {
            assert(t.drop_last()[i] == t[i]);
        }
        lemma_released_events_empty(t.drop_last(), keycode);
        assert(t[t.len() - 1] == t.last());
        assert(released_events(t, keycode) =~= Seq::<GlobalHotKeyEvent>::empty());
    }
}

/// A matching press fires exactly once: in a well-formed table the
/// entry for the event's (scancode, masked modifier state) is unique,
/// and the event emits exactly one pressed notification, for that
/// entry's hotkey.
pub proof fn lemma_press_fires_exactly_once(t: Seq<RegEntry>, keycode: u32, m: u32, i: int)
    requires
        unique_combos(t),
        0 <= i < t.len(),
        press_fires(t[i], keycode, m),
    ensures
        pressed_events(t, keycode, m) == seq![
            GlobalHotKeyEvent { id: t[i].hotkey_id, state: HotKeyState::Pressed },
        ],
    decreases t.len(),
{
    assert(t[t.len() - 1] == t.last());
    if i == t.len() - 1 {
        assert forall|j: int| 0 <= j < t.drop_last().len() implies !press_fires(
            t.drop_last()[j],
            keycode,
            m,
        ) by {
            assert(t.drop_last()[j] == t[j]);
            if press_fires(t[j], keycode, m) {
                assert(crate::registry::is_combo(t[i], t[j].scancode, t[j].mods));
            }
        }
        lemma_pressed_events_empty(t.drop_last(), keycode, m);
        assert(pressed_events(t, keycode, m) =~= seq![
            GlobalHotKeyEvent { id: t[i].hotkey_id, state: HotKeyState::Pressed },
        ]);
    } else {
        assert(unique_combos(t.drop_last())) by {
            assert forall|p: int, q: int|
                0 <= p < q < t.drop_last().len() implies !crate::registry::is_combo(
                t.drop_last()[q],
                t.drop_last()[p].scancode,
                t.drop_last()[p].mods,
            ) by {
                assert(t.drop_last()[p] == t[p]);
                assert(t.drop_last()[q] == t[q]);
            }
        }
        assert(t.drop_last()[i] == t[i]);
        lemma_press_fires_exactly_once(t.drop_last(), keycode, m, i);
        assert(!press_fires(t.last(), keycode, m)) by {
            if press_fires(t.last(), keycode, m) {
                assert(crate::registry::is_combo(t[t.len() - 1], t[i].scancode, t[i].mods));
            }
        }
        assert(pressed_events(t, keycode, m) =~= seq![
            GlobalHotKeyEvent { id: t[i].hotkey_id, state: HotKeyState::Pressed },
        ]);
    }
}

/// Pressing is de-duplicated: after a press event, an identical press
/// event fires nothing, because every matching entry is already held.
pub proof fn lemma_second_press_fires_nothing(t: Seq<RegEntry>, keycode: u32, m: u32)
    ensures
        pressed_events(table_after_press(t, keycode, m), keycode, m) == Seq::<
            GlobalHotKeyEvent,
        >::empty(),
{
    let t1 = table_after_press(t, keycode, m);
    assert forall|i: int| 0 <= i < t1.len() implies !press_fires(t1[i], keycode, m) by {
        if press_fires(t[i], keycode, m) {
            assert(t1[i] == set_pressed_e(t[i], true));
        } else {
            assert(t1[i] == t[i]);
        }
    }
    lemma_pressed_events_empty(t1, keycode, m);
}

/// A release fires exactly once when exactly one entry for the
/// scancode is held, whatever the event's modifier state.
pub proof fn lemma_release_fires_exactly_once(t: Seq<RegEntry>, keycode: u32, i: int)
    requires
        0 <= i < t.len(),
        release_fires(t[i], keycode),
        forall|j: int| 0 <= j < t.len() && j != i ==> !release_fires(t[j], keycode),
    ensures
        released_events(t, keycode) == seq![
            GlobalHotKeyEvent { id: t[i].hotkey_id, state: HotKeyState::Released },
        ],
    decreases t.len(),
{
    assert(t[t.len() - 1] == t.last());
    if i == t.len() - 1 {
        assert forall|j: int| 0 <= j < t.drop_last().len() implies !release_fires(
            t.drop_last()[j],
            keycode,
        ) by {
            assert(t.drop_last()[j] == t[j]);
        }
        lemma_released_events_empty(t.drop_last(), keycode);
        assert(released_events(t, keycode) =~= seq![
            GlobalHotKeyEvent { id: t[i].hotkey_id, state: HotKeyState::Released },
        ]);
    } else {
        assert(t.drop_last()[i] == t[i]);
        assert forall|j: int|
            0 <= j < t.drop_last().len() && j != i implies !release_fires(
            t.drop_last()[j],
            keycode,
        ) by {
            assert(t.drop_last()[j] == t[j]);
        }
        lemma_release_fires_exactly_once(t.drop_last(), keycode, i);
        assert(released_events(t, keycode) =~= seq![
            GlobalHotKeyEvent { id: t[i].hotkey_id, state: HotKeyState::Released },
        ]);
    }
}

/// After a release event, no entry for the scancode is held any more,
/// so an immediate second release fires nothing.
pub proof fn lemma_release_clears_scancode(t: Seq<RegEntry>, keycode: u32)
    ensures
        forall|j: int|
            0 <= j < table_after_release(t, keycode).len() ==> !release_fires(
                #[trigger] table_after_release(t, keycode)[j],
                keycode,
            ),
        released_events(table_after_release(t, keycode), keycode) == Seq::<
            GlobalHotKeyEvent,
        >::empty(),
{
    let t1 = table_after_release(t, keycode);
    assert forall|j: int| 0 <= j < t1.len() implies !release_fires(t1[j], keycode) by {
        if release_fires(t[j], keycode) {
            assert(t1[j] == set_pressed_e(t[j], false));
        } else {
            assert(t1[j] == t[j]);
        }
    }
    lemma_released_events_empty(t1, keycode);
}

/// The full press/release cycle for a registered combination: a press
/// whose lock-masked modifier state matches a unique, not-yet-held
/// entry emits exactly one pressed notification and marks the entry
/// held; a following release of the scancode, whatever its modifier
/// state, emits exactly one released notification and clears the
/// entry.
pub proof fn lemma_press_release_cycle(t: Seq<RegEntry>, keycode: u32, m: u32, i: int)
    requires
        unique_combos(t),
        0 <= i < t.len(),
        press_fires(t[i], keycode, m),
        forall|j: int| 0 <= j < t.len() ==> !release_fires(t[j], keycode),
    ensures
        ({
            let t1 = table_after_press(t, keycode, m);
            &&& pressed_events(t, keycode, m) == seq![
                GlobalHotKeyEvent { id: t[i].hotkey_id, state: HotKeyState::Pressed },
            ]
            &&& t1[i].pressed
            &&& pressed_events(t1, keycode, m) == Seq::<GlobalHotKeyEvent>::empty()
            &&& released_events(t1, keycode) == seq![
                GlobalHotKeyEvent { id: t[i].hotkey_id, state: HotKeyState::Released },
            ]
            &&& forall|j: int|
                0 <= j < table_after_release(t1, keycode).len() ==> !(
                #[trigger] table_after_release(t1, keycode)[j]).pressed
                || table_after_release(t1, keycode)[j].scancode != keycode
        }),
{
    let t1 = table_after_press(t, keycode, m);
    lemma_press_fires_exactly_once(t, keycode, m, i);
    lemma_second_press_fires_nothing(t, keycode, m);
    assert(t1[i] == set_pressed_e(t[i], true));
    assert forall|j: int| 0 <= j < t1.len() && j != i implies !release_fires(t1[j], keycode) by {
        if press_fires(t[j], keycode, m) {
            assert(crate::registry::is_combo(t[j], keycode, m));
            assert(crate::registry::is_combo(t[i], keycode, m));
            if j < i {
                assert(!crate::registry::is_combo(t[i], t[j].scancode, t[j].mods));
            } else {
                assert(!crate::registry::is_combo(t[j], t[i].scancode, t[i].mods));
            }
        } else {
            assert(t1[j] == t[j]);
        }
    }
    lemma_release_fires_exactly_once(t1, keycode, i);
    lemma_release_clears_scancode(t1, keycode);
    assert forall|j: int|
        0 <= j < table_after_release(t1, keycode).len() implies !(
    #[trigger] table_after_release(t1, keycode)[j]).pressed || table_after_release(
        t1,
        keycode,
    )[j].scancode != keycode by {
        assert(!release_fires(table_after_release(t1, keycode)[j], keycode));
    }
}

} // verus!
