//! The registration table: which (scancode, modifier mask) combinations
//! are registered, under which hotkey id, and whether each one is
//! currently held down.
//!
//! The table is owned by a single event-processing worker; no two
//! entries ever share the same (scancode, modifier mask) combination.

use vstd::prelude::*;

verus! {

/// One registered combination: a native scancode, the id of the hotkey
/// registered for it, the native modifier mask the grab was made with,
/// and whether the combination is currently held down.
#[derive(Clone, Copy, PartialEq, Eq, Structural, Debug)]
pub struct RegEntry {
    pub scancode: u32,
    pub hotkey_id: u32,
    pub mods: u32,
    pub pressed: bool,
}

/// `e` is an entry for the combination (`scancode`, `mods`).
pub open spec fn is_combo(e: RegEntry, scancode: u32, mods: u32) -> bool {
    e.scancode == scancode && e.mods == mods
}

/// Some entry of `t` is for the combination (`scancode`, `mods`).
pub open spec fn has_combo(t: Seq<RegEntry>, scancode: u32, mods: u32) -> bool {
    exists|i: int| 0 <= i < t.len() && is_combo(t[i], scancode, mods)
}

/// How many entries of `t` are for the combination (`scancode`, `mods`).
pub open spec fn count_combo(t: Seq<RegEntry>, scancode: u32, mods: u32) -> nat
    decreases t.len(),
{
    if t.len() == 0 {
        0
    } else {
        count_combo(t.drop_last(), scancode, mods) + if is_combo(t.last(), scancode, mods) {
            1nat
        } else {
            0nat
        }
    }
}

/// No two entries of `t` share a (scancode, modifier mask) combination.
pub open spec fn unique_combos(t: Seq<RegEntry>) -> bool {
    forall|i: int, j: int|
        0 <= i < j < t.len() ==> !is_combo(t[j], t[i].scancode, t[i].mods)
}

/// An entry with its pressed flag replaced.
pub open spec fn set_pressed_e(e: RegEntry, pressed: bool) -> RegEntry {
    RegEntry { pressed, ..e }
}

/// A fresh, never-pressed entry for a newly registered combination.
pub open spec fn new_entry(scancode: u32, hotkey_id: u32, mods: u32) -> RegEntry {
    RegEntry { scancode, hotkey_id, mods, pressed: false }
}

/// Registration succeeds exactly when the native grab was not denied
/// and the combination is not already in the table.
pub open spec fn register_allowed(t: Seq<RegEntry>, scancode: u32, mods: u32, grab_denied: bool) -> bool {
    !grab_denied && !has_combo(t, scancode, mods)
}

/// The table after a registration attempt: a new entry is appended on
/// success, and the table is left untouched on failure.
pub open spec fn table_after_register(
    t: Seq<RegEntry>,
    scancode: u32,
    hotkey_id: u32,
    mods: u32,
    grab_denied: bool,
) -> Seq<RegEntry> {
    if register_allowed(t, scancode, mods, grab_denied) {
        t.push(new_entry(scancode, hotkey_id, mods))
    } else {
        t
    }
}

/// The table after unregistering a combination: every entry for it is
/// removed and all others are kept, in order.
pub open spec fn remove_combo_seq(t: Seq<RegEntry>, scancode: u32, mods: u32) -> Seq<RegEntry>
    decreases t.len(),
{
    if t.len() == 0 {
        t
    } else {
        remove_combo_seq(t.drop_last(), scancode, mods) + if is_combo(t.last(), scancode, mods) {
            Seq::<RegEntry>::empty()
        } else {
            seq![t.last()]
        }
    }
}

/// In-process map from native scancodes to the combinations registered
/// for them.  Abstractly a sequence of entries in registration order;
/// the well-formedness invariant keeps combinations unique.
pub struct RegistrationTable {
    entries: Vec<RegEntry>,
}

impl View for RegistrationTable {
    type V = Seq<RegEntry>;

    closed spec fn view(&self) -> Seq<RegEntry> {
        self.entries@
    }
}

impl RegistrationTable {
    /// The table invariant: no duplicate combinations.
    pub open spec fn wf(&self) -> bool {
        unique_combos(self@)
    }

    /// An empty table, as the event loop starts with.
    pub fn new() -> (t: Self)
        ensures
            t@ == Seq::<RegEntry>::empty(),
            t.wf(),
    {
        RegistrationTable { entries: Vec::new() }
    }

    /// Number of entries over all scancodes.
    pub fn len(&self) -> (n: usize)
        ensures
            n == self@.len(),
    {
        self.entries.len()
    }

    /// The `i`-th entry in registration order.
    pub fn entry_at(&self, i: usize) -> (e: RegEntry)
        requires
            i < self@.len(),
        ensures
            e == self@[i as int],
    {
        self.entries[i]
    }

    /// Whether the combination (`scancode`, `mods`) is registered.
    pub fn is_registered(&self, scancode: u32, mods: u32) -> (r: bool)
        ensures
            r == has_combo(self@, scancode, mods),
    {
        let mut i: usize = 0;
        while i < self.entries.len()
            invariant
                i <= self@.len(),
                forall|j: int| 0 <= j < i ==> !is_combo(self@[j], scancode, mods),
            decreases self@.len() - i,
        {
            let e = self.entries[i];
            if e.scancode == scancode && e.mods == mods {
                return true;
            }
            i += 1;
        }
        false
    }

    /// Whether the combination (`scancode`, `mods`) is registered and
    /// currently held down.
    pub fn is_pressed(&self, scancode: u32, mods: u32) -> (r: bool)
        ensures
            r == exists|i: int|
                0 <= i < self@.len() && is_combo(self@[i], scancode, mods) && self@[i].pressed,
    {
        let mut i: usize = 0;
        while i < self.entries.len()
            invariant
                i <= self@.len(),
                forall|j: int|
                    0 <= j < i ==> !(is_combo(self@[j], scancode, mods) && self@[j].pressed),
            decreases self@.len() - i,
        {
            let e = self.entries[i];
            if e.scancode == scancode && e.mods == mods && e.pressed {
                return true;
            }
            i += 1;
        }
        false
    }

    /// Flip the pressed flag of the `i`-th entry; combinations are
    /// untouched, so uniqueness is preserved.
    pub(crate) fn set_pressed_at(&mut self, i: usize, pressed: bool)
        requires
            old(self).wf(),
            i < old(self)@.len(),
        ensures
            final(self).wf(),
            final(self)@ == old(self)@.update(
                i as int,
                set_pressed_e(old(self)@[i as int], pressed),
            ),
    {
        let mut e = self.entries[i];
        e.pressed = pressed;
        self.entries[i] = e;
        proof {
            assert forall|p: int, q: int| 0 <= p < q < self@.len() implies !is_combo(
                self@[q],
                self@[p].scancode,
                self@[p].mods,
            ) by {
                assert(self@[p].scancode == old(self)@[p].scancode);
                assert(self@[p].mods == old(self)@[p].mods);
                assert(self@[q].scancode == old(self)@[q].scancode);
                assert(self@[q].mods == old(self)@[q].mods);
                assert(!is_combo(old(self)@[q], old(self)@[p].scancode, old(self)@[p].mods));
            }
        }
    }

    /// Record a registration: append a fresh entry unless the
    /// combination is already present.  Returns whether the entry was
    /// inserted; local bookkeeping is authoritative for duplicate
    /// detection.
    pub fn insert_entry(&mut self, scancode: u32, hotkey_id: u32, mods: u32) -> (inserted: bool)
        requires
            old(self).wf(),
        ensures
            final(self).wf(),
            inserted == !has_combo(old(self)@, scancode, mods),
            inserted ==> final(self)@ == old(self)@.push(new_entry(scancode, hotkey_id, mods)),
            !inserted ==> final(self)@ == old(self)@,
    {
        if self.is_registered(scancode, mods) {
            return false;
        }
        let e = RegEntry { scancode, hotkey_id, mods, pressed: false };
        self.entries.push(e);
        proof {
            assert forall|i: int, j: int| 0 <= i < j < self@.len() implies !is_combo(
                self@[j],
                self@[i].scancode,
                self@[i].mods,
            ) by {
                if j == self@.len() - 1 {
                    assert(!is_combo(old(self)@[i], scancode, mods));
                }
            }
        }
        true
    }

    /// Record an unregistration: drop every entry for the combination.
    /// Removing a combination that was never registered leaves the
    /// table unchanged.
    pub fn remove_combo(&mut self, scancode: u32, mods: u32)
        requires
            old(self).wf(),
        ensures
            final(self).wf(),
            final(self)@ == remove_combo_seq(old(self)@, scancode, mods),
    {
        let ghost t0 = self@;
        let mut kept: Vec<RegEntry> = Vec::new();
        let mut i: usize = 0;
        while i < self.entries.len()
            invariant
                i <= t0.len(),
                self@ == t0,
                kept@ == remove_combo_seq(t0.take(i as int), scancode, mods),
            decreases t0.len() - i,
        {
            let e = self.entries[i];
            proof {
                assert(t0.take(i + 1 as int).drop_last() =~= t0.take(i as int));
                assert(t0.take(i + 1 as int).last() == t0[i as int]);
            }
            if !(e.scancode == scancode && e.mods == mods) {
                kept.push(e);
                proof {
                    assert(kept@ =~= remove_combo_seq(t0.take(i + 1 as int), scancode, mods));
                }
            } else {
                proof {
                    assert(kept@ =~= remove_combo_seq(t0.take(i + 1 as int), scancode, mods));
                }
            }
            i += 1;
        }
        proof {
            assert(t0.take(t0.len() as int) =~= t0);
        }
        self.entries = kept;
        proof {
            lemma_remove_combo_entries(t0, scancode, mods);
            lemma_remove_combo_unique(t0, scancode, mods);
        }
    }
}

/// Every entry of the table after an unregistration was an entry of the
/// table before it.
proof fn lemma_remove_combo_entries(t: Seq<RegEntry>, scancode: u32, mods: u32)
    ensures
        forall|i: int|
            0 <= i < remove_combo_seq(t, scancode, mods).len() ==> t.contains(
                #[trigger] remove_combo_seq(t, scancode, mods)[i],
            ),
    decreases t.len(),
{
    if t.len() > 0 {
        lemma_remove_combo_entries(t.drop_last(), scancode, mods);
        assert forall|i: int| 0 <= i < remove_combo_seq(t, scancode, mods).len() implies t.contains(
            #[trigger] remove_combo_seq(t, scancode, mods)[i],
        ) by {
            let r = remove_combo_seq(t, scancode, mods);
            let rp = remove_combo_seq(t.drop_last(), scancode, mods);
            if i < rp.len() {
                assert(r[i] == rp[i]);
                let j = choose|j: int| 0 <= j < t.drop_last().len() && t.drop_last()[j] == rp[i];
                assert(t[j] == rp[i]);
            } else {
                assert(r[i] == t.last());
                assert(t[t.len() - 1] == t.last());
            }
        }
    }
}

/// Unregistration preserves the uniqueness invariant.
proof fn lemma_remove_combo_unique(t: Seq<RegEntry>, scancode: u32, mods: u32)
    requires
        unique_combos(t),
    ensures
        unique_combos(remove_combo_seq(t, scancode, mods)),
    decreases t.len(),
{
    if t.len() > 0 {
        assert(unique_combos(t.drop_last()));
        lemma_remove_combo_unique(t.drop_last(), scancode, mods);
        lemma_remove_combo_entries(t.drop_last(), scancode, mods);
        let r = remove_combo_seq(t, scancode, mods);
        let rp = remove_combo_seq(t.drop_last(), scancode, mods);
        assert forall|i: int, j: int| 0 <= i < j < r.len() implies !is_combo(
            r[j],
            r[i].scancode,
            r[i].mods,
        ) by {
            if j < rp.len() {
            } else {
                // r[j] is t.last(); r[i] is some entry of t.drop_last()
                assert(r[j] == t.last());
                assert(r[i] == rp[i]);
                let k = choose|k: int|
                    0 <= k < t.drop_last().len() && t.drop_last()[k] == rp[i];
                assert(t[k] == rp[i]);
                assert(!is_combo(t[t.len() - 1], t[k].scancode, t[k].mods));
            }
        }
    }
}

/// After unregistering a combination, no entry for it remains.
pub proof fn lemma_remove_combo_removes_all(t: Seq<RegEntry>, scancode: u32, mods: u32)
    ensures
        !has_combo(remove_combo_seq(t, scancode, mods), scancode, mods),
    decreases t.len(),
{
    if t.len() > 0 {
        lemma_remove_combo_removes_all(t.drop_last(), scancode, mods);
        let r = remove_combo_seq(t, scancode, mods);
        let rp = remove_combo_seq(t.drop_last(), scancode, mods);
        assert forall|i: int| 0 <= i < r.len() implies !is_combo(r[i], scancode, mods) by {
            if i < rp.len() {
                assert(r[i] == rp[i]);
                assert(!has_combo(rp, scancode, mods));
            }
        }
    }
}

/// Unregistering a combination that was never registered leaves the
/// table unchanged.
pub proof fn lemma_unregister_unregistered_is_noop(t: Seq<RegEntry>, scancode: u32, mods: u32)
    requires
        !has_combo(t, scancode, mods),
    ensures
        remove_combo_seq(t, scancode, mods) == t,
    decreases t.len(),
{
    if t.len() == 0 {
    } else {
        assert(!has_combo(t.drop_last(), scancode, mods)) by {
            assert forall|i: int| 0 <= i < t.drop_last().len() implies !is_combo(
                t.drop_last()[i],
                scancode,
                mods,
            ) by {
                assert(t[i] == t.drop_last()[i]);
            }
        }
        lemma_unregister_unregistered_is_noop(t.drop_last(), scancode, mods);
        assert(!is_combo(t.last(), scancode, mods)) by {
            assert(t[t.len() - 1] == t.last());
        }
        assert(remove_combo_seq(t, scancode, mods) =~= t);
    }
}

/// If a combination is absent, no entry counts towards it.
proof fn lemma_count_combo_zero(t: Seq<RegEntry>, scancode: u32, mods: u32)
    requires
        !has_combo(t, scancode, mods),
    ensures
        count_combo(t, scancode, mods) == 0,
    decreases t.len(),
{
    if t.len() > 0 {
        assert(!has_combo(t.drop_last(), scancode, mods)) by {
            assert forall|i: int| 0 <= i < t.drop_last().len() implies !is_combo(
                t.drop_last()[i],
                scancode,
                mods,
            ) by {
                assert(t[i] == t.drop_last()[i]);
            }
        }
        lemma_count_combo_zero(t.drop_last(), scancode, mods);
        assert(t[t.len() - 1] == t.last());
    }
}

/// Registering the same combination twice fails the second time, and
/// the table keeps exactly one entry for the combination.
pub proof fn lemma_duplicate_register_rejected(
    t: Seq<RegEntry>,
    scancode: u32,
    first_id: u32,
    second_id: u32,
    mods: u32,
)
    requires
        unique_combos(t),
        register_allowed(t, scancode, mods, false),
    ensures
        ({
            let t1 = table_after_register(t, scancode, first_id, mods, false);
            &&& !register_allowed(t1, scancode, mods, false)
            &&& table_after_register(t1, scancode, second_id, mods, false) == t1
            &&& count_combo(t1, scancode, mods) == 1
        }),
{
    let t1 = table_after_register(t, scancode, first_id, mods, false);
    assert(t1 == t.push(new_entry(scancode, first_id, mods)));
    assert(is_combo(t1[t.len() as int], scancode, mods));
    lemma_count_combo_zero(t, scancode, mods);
    assert(t1.drop_last() =~= t);
    assert(t1.last() == new_entry(scancode, first_id, mods));
}

/// Registering, unregistering, then registering the same combination
/// again succeeds, and the intermediate unregistration restores the
/// original table exactly.
pub proof fn lemma_register_unregister_roundtrip(
    t: Seq<RegEntry>,
    scancode: u32,
    hotkey_id: u32,
    mods: u32,
)
    requires
        register_allowed(t, scancode, mods, false),
    ensures
        ({
            let t1 = table_after_register(t, scancode, hotkey_id, mods, false);
            let t2 = remove_combo_seq(t1, scancode, mods);
            &&& t2 == t
            &&& register_allowed(t2, scancode, mods, false)
        }),
{
    let t1 = table_after_register(t, scancode, hotkey_id, mods, false);
    assert(t1 == t.push(new_entry(scancode, hotkey_id, mods)));
    assert(t1.drop_last() =~= t);
    assert(t1.last() == new_entry(scancode, hotkey_id, mods));
    lemma_unregister_unregistered_is_noop(t, scancode, mods);
    assert(remove_combo_seq(t1, scancode, mods) =~= t);
}

} // verus!
