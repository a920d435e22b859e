use mute_assistant::{HotkeyBinding, HotkeyRegistry, ModKeyView, SLOT_TOGGLE, SLOT_UNMUTE};

#[test]
fn modifier_mask_sets_one_bit_per_modifier_and_no_repeat() {
    assert_eq!(ModKeyView::new(false, false, false, false).modifier_mask(), 0x4000);
    assert_eq!(ModKeyView::new(true, false, false, false).modifier_mask(), 0x4002);
    assert_eq!(ModKeyView::new(false, true, false, false).modifier_mask(), 0x4001);
    assert_eq!(ModKeyView::new(false, false, true, false).modifier_mask(), 0x4004);
    assert_eq!(ModKeyView::new(false, false, false, true).modifier_mask(), 0x4008);
    assert_eq!(ModKeyView::new(true, true, true, true).modifier_mask(), 0x400F);
}

#[test]
fn binding_carries_slot_mask_and_key() {
    let b = HotkeyBinding::new(SLOT_TOGGLE, &ModKeyView::new(false, true, false, false), 0x4D);
    assert_eq!(b, HotkeyBinding { slot: 1, modifiers: 0x4001, key_code: 0x4D });
}

#[test]
fn re_registering_a_slot_replaces_its_binding() {
    let mut reg = HotkeyRegistry::new();
    let first = HotkeyBinding { slot: SLOT_TOGGLE, modifiers: 0x4001, key_code: 0x4D };
    let second = HotkeyBinding { slot: SLOT_TOGGLE, modifiers: 0x4002, key_code: 0x4E };
    reg.register(first, true);
    reg.register(second, true);
    assert_eq!(reg.binding(SLOT_TOGGLE), Some(second));
    assert!(reg.unregister(SLOT_TOGGLE));
    assert!(!reg.is_bound(SLOT_TOGGLE));
}

#[test]
fn refused_registration_leaves_the_slot_free() {
    let mut reg = HotkeyRegistry::new();
    let first = HotkeyBinding { slot: SLOT_UNMUTE, modifiers: 0x4001, key_code: 0x41 };
    reg.register(first, true);
    reg.register(HotkeyBinding { slot: SLOT_UNMUTE, modifiers: 0x4002, key_code: 0x42 }, false);
    assert!(!reg.is_bound(SLOT_UNMUTE));
    assert_eq!(reg.binding(SLOT_UNMUTE), None);
}

#[test]
fn slots_are_independent() {
    let mut reg = HotkeyRegistry::new();
    let t = HotkeyBinding { slot: SLOT_TOGGLE, modifiers: 0x4001, key_code: 0x4D };
    let u = HotkeyBinding { slot: SLOT_UNMUTE, modifiers: 0x4002, key_code: 0x41 };
    reg.register(t, true);
    reg.register(u, true);
    assert!(reg.unregister(SLOT_UNMUTE));
    assert_eq!(reg.binding(SLOT_TOGGLE), Some(t));
}

#[test]
fn unregistering_a_free_slot_reports_false() {
    let mut reg = HotkeyRegistry::new();
    assert!(!reg.unregister(SLOT_TOGGLE));
}
