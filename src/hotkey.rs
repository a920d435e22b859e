use vstd::prelude::*;

verus! {

/// Modifier bit for either Alt key.
pub const MOD_ALT: u32 = 0x0001;

/// Modifier bit for either Ctrl key.
pub const MOD_CONTROL: u32 = 0x0002;

/// Modifier bit for either Shift key.
pub const MOD_SHIFT: u32 = 0x0004;

/// Modifier bit for either Windows key.
pub const MOD_WIN: u32 = 0x0008;

/// Asks the system for one trigger per press, not one per auto-repeat.
pub const MOD_NOREPEAT: u32 = 0x4000;

/// The slot of the hotkey that toggles mute.
pub const SLOT_TOGGLE: i32 = 1;

/// The slot of the hotkey that forces unmute (the push-to-talk combination).
pub const SLOT_UNMUTE: i32 = 2;

/// The four modifier checkboxes of a key-combination selector.
#[derive(Clone, Copy, Debug, PartialEq, Eq, Structural)]
pub struct ModKeyView {
    pub ctrl: bool,
    pub alt: bool,
    pub shift: bool,
    pub win: bool,
}

/// The mask handed to the system for a set of modifiers, always with
/// auto-repeat suppressed.
pub open spec fn mask_of(m: ModKeyView) -> u32 {
    (if m.ctrl { MOD_CONTROL } else { 0u32 }) | (if m.alt { MOD_ALT } else { 0u32 }) | (if m.shift {
        MOD_SHIFT
    } else {
        0u32
    }) | (if m.win { MOD_WIN } else { 0u32 }) | MOD_NOREPEAT
}

impl ModKeyView {
    pub fn new(ctrl: bool, alt: bool, shift: bool, win: bool) -> (r: ModKeyView)
        ensures
            r == (ModKeyView { ctrl, alt, shift, win }),
    {
        ModKeyView { ctrl, alt, shift, win }
    }

    /// The registration mask of these modifiers: one bit per checked
    /// modifier, the no-repeat bit, and nothing else.
    pub fn modifier_mask(&self) -> (r: u32)
        ensures
            r == mask_of(*self),
            (r & MOD_CONTROL != 0) == self.ctrl,
            (r & MOD_ALT != 0) == self.alt,
            (r & MOD_SHIFT != 0) == self.shift,
            (r & MOD_WIN != 0) == self.win,
            r & MOD_NOREPEAT != 0,
            r & !0x400fu32 == 0,
    {
        let c: u32 = if self.ctrl { MOD_CONTROL } else { 0 };
        let a: u32 = if self.alt { MOD_ALT } else { 0 };
        let s: u32 = if self.shift { MOD_SHIFT } else { 0 };
        let w: u32 = if self.win { MOD_WIN } else { 0 };
        let r = c | a | s | w | MOD_NOREPEAT;
        let ghost (ctrl, alt, shift, win) = (self.ctrl, self.alt, self.shift, self.win);
        assert(
            (r & 2 != 0) == ctrl && (r & 1 != 0) == alt && (r & 4 != 0) == shift && (r & 8 != 0)
                == win && r & 0x4000 != 0 && r & !0x400fu32 == 0
        ) by (bit_vector)
            requires
                c == (if ctrl { 2u32 } else { 0u32 }),
                a == (if alt { 1u32 } else { 0u32 }),
                s == (if shift { 4u32 } else { 0u32 }),
                w == (if win { 8u32 } else { 0u32 }),
                r == c | a | s | w | 0x4000u32,
        ;
        r
    }
}

/// One global hotkey: the slot it is registered under, its modifier mask
/// and its virtual-key code.
#[derive(Clone, Copy, Debug, PartialEq, Eq, Structural)]
pub struct HotkeyBinding {
    pub slot: i32,
    pub modifiers: u32,
    pub key_code: u32,
}

impl HotkeyBinding {
    /// The binding of `key_code` with the modifiers `m` under `slot`.
    pub fn new(slot: i32, m: &ModKeyView, key_code: u32) -> (r: HotkeyBinding)
        ensures
            r == (HotkeyBinding { slot, modifiers: mask_of(*m), key_code }),
    {
        HotkeyBinding { slot, modifiers: m.modifier_mask(), key_code }
    }
}

/// The hotkeys that are live with the system, at most one per slot.
pub struct HotkeyRegistry {
    bindings: Vec<HotkeyBinding>,
}

/// No two bindings of `s` share a slot.
pub open spec fn one_per_slot(s: Seq<HotkeyBinding>) -> bool {
    forall|i: int, j: int|
        0 <= i < s.len() && 0 <= j < s.len() && #[trigger] s[i].slot == #[trigger] s[j].slot
            ==> i == j
}

/// Whether some binding of `s` is registered under `slot`.
pub open spec fn has_slot(s: Seq<HotkeyBinding>, slot: i32) -> bool {
    exists|i: int| 0 <= i < s.len() && (#[trigger] s[i]).slot == slot
}

impl HotkeyRegistry {
    /// The live bindings.
    pub closed spec fn live(&self) -> Seq<HotkeyBinding> {
        self.bindings@
    }

    pub open spec fn wf(&self) -> bool {
        one_per_slot(self.live())
    }

    /// A registry with nothing registered.
    pub fn new() -> (r: HotkeyRegistry)
        ensures
            r.wf(),
            r.live().len() == 0,
    {
        HotkeyRegistry { bindings: Vec::new() }
    }

    /// Whether a binding is live under `slot`.
    pub fn is_bound(&self, slot: i32) -> (r: bool)
        ensures
            r == has_slot(self.live(), slot),
    {
        let mut k: usize = 0;
        while k < self.bindings.len()
            invariant
                k <= self.bindings@.len(),
                forall|i: int| 0 <= i < k ==> (#[trigger] self.bindings@[i]).slot != slot,
            decreases self.bindings@.len() - k,
        {
            if self.bindings[k].slot == slot {
                return true;
            }
            k = k + 1;
        }
        false
    }

    /// The binding live under `slot`, if any.
    pub fn binding(&self, slot: i32) -> (r: Option<HotkeyBinding>)
        requires
            self.wf(),
        ensures
            r.is_some() == has_slot(self.live(), slot),
            r.is_some() ==> self.live().contains(r.unwrap()) && r.unwrap().slot == slot,
    {
        let mut k: usize = 0;
        while k < self.bindings.len()
            invariant
                k <= self.bindings@.len(),
                forall|i: int| 0 <= i < k ==> (#[trigger] self.bindings@[i]).slot != slot,
            decreases self.bindings@.len() - k,
        {
            if self.bindings[k].slot == slot {
                let b = self.bindings[k];
                assert(self.bindings@[k as int] == b);
                return Some(b);
            }
            k = k + 1;
        }
        None
    }

    /// Records that the system released the binding of `slot`, if there was
    /// one; true when there was.
    pub fn unregister(&mut self, slot: i32) -> (r: bool)
        requires
            old(self).wf(),
        ensures
            final(self).wf(),
            r == has_slot(old(self).live(), slot),
            !has_slot(final(self).live(), slot),
            forall|b: HotkeyBinding|
                #[trigger] final(self).live().contains(b) <==> (old(self).live().contains(b)
                    && b.slot != slot),
    {
        let mut kept: Vec<HotkeyBinding> = Vec::new();
        let mut found = false;
        let mut k: usize = 0;
        while k < self.bindings.len()
            invariant
                k <= self.bindings@.len(),
                one_per_slot(self.bindings@),
                one_per_slot(kept@),
                found == exists|i: int| 0 <= i < k && (#[trigger] self.bindings@[i]).slot == slot,
                forall|i: int| 0 <= i < kept@.len() ==> (#[trigger] kept@[i]).slot != slot,
                forall|b: HotkeyBinding|
                    #[trigger] kept@.contains(b) <==> (exists|i: int|
                        0 <= i < k && #[trigger] self.bindings@[i] == b) && b.slot != slot,
                forall|i: int, j: int|
                    0 <= i < kept@.len() && k <= j < self.bindings@.len() ==> (#[trigger] kept@[i]).slot
                        != (#[trigger] self.bindings@[j]).slot,
            decreases self.bindings@.len() - k,
        {
            let b = self.bindings[k];
            let ghost before = kept@;
            if b.slot == slot {
                found = true;
            } else {
                kept.push(b);
                assert forall|c: HotkeyBinding| #[trigger] kept@.contains(c) <==> (before.contains(c) || c == b) by {
                    if kept@.contains(c) && c != b {
                        let x = choose|x: int| 0 <= x < kept@.len() && kept@[x] == c;
                        assert(before[x] == c);
                    }
                    if c == b {
                        assert(kept@[kept@.len() - 1] == c);
                    }
                    if before.contains(c) {
                        let x = choose|x: int| 0 <= x < before.len() && before[x] == c;
                        assert(kept@[x] == c);
                    }
                }
                assert forall|i: int, j: int|
                    0 <= i < kept@.len() && 0 <= j < kept@.len() && #[trigger] kept@[i].slot == #[trigger] kept@[j].slot
                    implies i == j by {
                    if i < before.len() && j == before.len() {
                        assert(before[i].slot != self.bindings@[k as int].slot);
                    }
                    if j < before.len() && i == before.len() {
                        assert(before[j].slot != self.bindings@[k as int].slot);
                    }
                }
            }
            assert forall|c: HotkeyBinding| #[trigger] kept@.contains(c) <==> (exists|i: int|
                0 <= i < k + 1 && #[trigger] self.bindings@[i] == c) && c.slot != slot by {
                if (exists|i: int| 0 <= i < k + 1 && #[trigger] self.bindings@[i] == c) && c.slot != slot {
                    let i = choose|i: int| 0 <= i < k + 1 && #[trigger] self.bindings@[i] == c;
                    if i < k {
                        assert(before.contains(c));
                    }
                }
                if before.contains(c) {
                    let i = choose|i: int| 0 <= i < k && #[trigger] self.bindings@[i] == c;
                    assert(0 <= i < k + 1 && self.bindings@[i] == c);
                }
            }
            k = k + 1;
        }
        self.bindings = kept;
        assert forall|b: HotkeyBinding|
            #[trigger] self.bindings@.contains(b) <==> (old(self).live().contains(b) && b.slot != slot) by {
            if old(self).live().contains(b) {
                let i = choose|i: int| 0 <= i < old(self).bindings@.len() && old(self).bindings@[i] == b;
                assert(exists|x: int| 0 <= x < k && #[trigger] old(self).bindings@[x] == b);
            }
        }
        found
    }

    /// Records what the system answered when asked to register `b`, after
    /// the binding of its slot was released: `b` is live under its slot when
    /// `accepted` holds, and the slot is free otherwise.
    pub fn register(&mut self, b: HotkeyBinding, accepted: bool)
        requires
            old(self).wf(),
        ensures
            final(self).wf(),
            has_slot(final(self).live(), b.slot) == accepted,
            forall|c: HotkeyBinding|
                #[trigger] final(self).live().contains(c) <==> (old(self).live().contains(c)
                    && c.slot != b.slot || accepted && c == b),
    {
        self.unregister(b.slot);
        if accepted {
            let ghost before = self.bindings@;
            self.bindings.push(b);
            assert(self.bindings@[before.len() as int] == b);
            assert forall|c: HotkeyBinding| #[trigger] self.bindings@.contains(c) <==> (before.contains(c) || c == b) by {
                if self.bindings@.contains(c) && c != b {
                    let x = choose|x: int| 0 <= x < self.bindings@.len() && self.bindings@[x] == c;
                    assert(before[x] == c);
                }
                if before.contains(c) {
                    let x = choose|x: int| 0 <= x < before.len() && before[x] == c;
                    assert(self.bindings@[x] == c);
                }
            }
            assert forall|i: int, j: int|
                0 <= i < self.bindings@.len() && 0 <= j < self.bindings@.len() && #[trigger] self.bindings@[i].slot == #[trigger] self.bindings@[j].slot
                implies i == j by {
                if i < before.len() && j == before.len() {
                    assert(!has_slot(before, b.slot));
                    assert(before[i].slot != b.slot);
                }
                if j < before.len() && i == before.len() {
                    assert(before[j].slot != b.slot);
                }
            }
        }
    }
}

} // verus!
