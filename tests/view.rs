use mute_assistant::{
    dispatch, is_key_release, set_hotkey, status_label, toggle_flag, is_mute_flag, Action,
    DialogKind, Gesture, HotkeyRegistry, MainView, ModKeyView, MuteView, PushView, SLOT_TOGGLE,
    SLOT_UNMUTE, WM_HOTKEY, WM_LBUTTONDBLCLK, WM_TRAY,
};

const DOWN: i16 = -32768;
const UP: i16 = 0;

#[test]
fn combo_lists_checked_modifiers_then_key() {
    let p = PushView::new(true, ModKeyView::new(true, false, false, false), 0x41);
    assert_eq!(p.get_key_codes(), vec![0x11, 0x41]);
    let p = PushView::new(true, ModKeyView::new(true, true, true, true), 0x20);
    assert_eq!(p.get_key_codes(), vec![0x11, 0x12, 0x10, 0x5B, 0x5C, 0x20]);
    let p = PushView::new(false, ModKeyView::new(false, false, false, false), 0x70);
    assert_eq!(p.get_key_codes(), vec![0x70]);
    assert!(!p.is_enable());
}

#[test]
fn main_key_already_among_modifiers_is_listed_once() {
    let p = PushView::new(true, ModKeyView::new(true, false, false, false), 0x11);
    assert_eq!(p.get_key_codes(), vec![0x11]);
    let p = PushView::new(true, ModKeyView::new(false, false, false, true), 0x5B);
    assert_eq!(p.get_key_codes(), vec![0x5B, 0x5C]);
    let p = PushView::new(true, ModKeyView::new(false, true, true, false), 0x10);
    assert_eq!(p.get_key_codes(), vec![0x12, 0x10]);
}

#[test]
fn selectors_bind_their_own_slots() {
    let m = MuteView::new(ModKeyView::new(false, true, false, false), 0x4D);
    assert_eq!(m.binding().slot, SLOT_TOGGLE);
    assert_eq!(m.binding().modifiers, 0x4001);
    let p = PushView::new(true, ModKeyView::new(true, false, false, false), 0x41);
    assert_eq!(p.binding().slot, SLOT_UNMUTE);
    assert_eq!(p.binding().modifiers, 0x4002);
    assert_eq!(p.binding().key_code, 0x41);
}

#[test]
fn releasing_one_key_of_push_combo_mutes() {
    let push = PushView::new(true, ModKeyView::new(true, false, false, false), 0x41);
    let mut view = MainView::new(false);
    assert_eq!(push.get_key_codes().len(), 2);
    assert_eq!(view.on_tick(&push, &[DOWN, DOWN]), Action::Nothing);
    assert_eq!(view.gesture, Gesture::PushActive);
    assert!(is_key_release(&[DOWN, UP]));
    assert_eq!(view.on_tick(&push, &[DOWN, UP]), Action::Mute);
    assert_eq!(view.gesture, Gesture::Idle);
    view.mute(true);
    assert!(view.switch_on);
    assert_eq!(view.status(), "静音");
}

#[test]
fn disabled_push_to_talk_never_mutes() {
    let push = PushView::new(false, ModKeyView::new(true, false, false, false), 0x41);
    let mut view = MainView::new(false);
    assert_eq!(view.on_tick(&push, &[UP, UP]), Action::Nothing);
    assert_eq!(view.gesture, Gesture::Idle);
}

#[test]
fn toggle_hotkey_twice_returns_switch_to_original() {
    let mut flag: i32 = 0;
    let mut view = MainView::new(is_mute_flag(flag));
    let original = view.switch_on;
    assert_eq!(dispatch(WM_HOTKEY, 1, 0), Action::Toggle);
    assert_eq!(view.on_message(WM_HOTKEY, 1, 0), Action::Toggle);
    flag = toggle_flag(flag);
    view.toggle(is_mute_flag(flag));
    assert_eq!(view.switch_on, !original);
    assert_eq!(view.status(), "静音");
    assert_eq!(view.on_message(WM_HOTKEY, 1, 0), Action::Toggle);
    flag = toggle_flag(flag);
    view.toggle(is_mute_flag(flag));
    assert_eq!(view.switch_on, original);
    assert_eq!(view.status(), "正常");
}

#[test]
fn refused_reserved_combination_reverts_switch() {
    let mut reg = HotkeyRegistry::new();
    let ctrl_alt_del = MuteView::new(ModKeyView::new(true, true, false, false), 0x2E);
    let b = ctrl_alt_del.binding();
    assert_eq!(b.modifiers, 0x4003);
    let out = set_hotkey(&mut reg, b, false);
    assert!(!out.switch_on);
    assert_eq!(out.dialog, DialogKind::Error);
    assert_eq!(out.message, "设置失败, 快捷键已被占用");
    assert!(!reg.is_bound(SLOT_TOGGLE));
    assert_eq!(reg.binding(SLOT_TOGGLE), None);
}

#[test]
fn accepted_hotkey_turns_switch_on() {
    let mut reg = HotkeyRegistry::new();
    let b = MuteView::new(ModKeyView::new(false, true, false, false), 0x4D).binding();
    let out = set_hotkey(&mut reg, b, true);
    assert!(out.switch_on);
    assert_eq!(out.dialog, DialogKind::Info);
    assert_eq!(out.message, "设置成功");
    assert_eq!(reg.binding(SLOT_TOGGLE), Some(b));
}

#[test]
fn tray_double_click_shows_window_without_touching_mute() {
    let mut view = MainView::new(true);
    view.hide_window();
    assert!(!view.visible);
    assert_eq!(view.on_message(WM_TRAY, 0, WM_LBUTTONDBLCLK as isize), Action::ShowWindow);
    assert!(view.visible);
    assert!(view.switch_on);
    assert_eq!(view.status(), "静音");
}

#[test]
fn other_tray_events_and_unknown_hotkeys_are_forwarded() {
    assert_eq!(dispatch(WM_TRAY, 0, 0x0201), Action::Forward);
    assert_eq!(dispatch(WM_HOTKEY, 7, 0), Action::Forward);
    assert_eq!(dispatch(WM_HOTKEY, 2, 0), Action::Unmute);
}

#[test]
fn tray_event_is_read_from_low_bits() {
    let high = (1isize << 32) | WM_LBUTTONDBLCLK as isize;
    if std::mem::size_of::<isize>() == 8 {
        assert_eq!(dispatch(WM_TRAY, 0, high), Action::ShowWindow);
    }
}

#[test]
fn other_messages_are_forwarded() {
    assert_eq!(dispatch(0x000F, 0, 0), Action::Forward);
    let mut view = MainView::new(false);
    assert_eq!(view.on_message(0x0010, 3, 4), Action::Forward);
    assert_eq!(view, MainView::new(false));
}

#[test]
fn unconfirmed_mute_changes_nothing() {
    let mut view = MainView::new(false);
    view.mute(false);
    assert!(!view.switch_on);
    assert_eq!(view.status(), status_label(false));
    view.mute(true);
    view.unmute(false);
    assert!(view.switch_on);
    view.unmute(true);
    assert!(!view.switch_on);
    assert_eq!(view.status(), "正常");
    view.show_window();
    assert!(view.visible);
}
