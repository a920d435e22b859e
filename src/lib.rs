//! Core of a tray utility that mutes the default audio output through a
//! global hotkey and re-mutes when a push-to-talk key combination is let go.
//!
//! The operating system calls (audio endpoint, hotkey registration, key-state
//! polling, window messages) are made by the program around this library; the
//! library decides what to do with what those calls report.

mod hotkey;
mod keys;
mod poller;
mod view;
mod volume;

pub use hotkey::{
    has_slot, mask_of, one_per_slot, HotkeyBinding, HotkeyRegistry, ModKeyView, MOD_ALT, MOD_CONTROL,
    MOD_NOREPEAT, MOD_SHIFT, MOD_WIN, SLOT_TOGGLE, SLOT_UNMUTE,
};
pub use keys::{is_listed_key, key_codes, key_label, key_name, LAST_KEY_CODE};
pub use poller::{any_up, is_key_release, key_is_up};
pub use volume::{
    check_stage, failed, flag_is_muted, hresult_failed, is_mute_flag, lemma_toggle_inverts, mute_flag,
    toggle_flag, toggled, AudioInitError, InitStage,
};
pub use view::{
    combo_codes, modifier_codes, dispatch, message_action, set_hotkey, set_message, status_label, status_text,
    Action, DialogKind, Gesture, MainView, MuteView, PushView, SetOutcome, VK_CONTROL, VK_LWIN, VK_MENU,
    VK_RWIN, VK_SHIFT, WM_APP, WM_HOTKEY, WM_LBUTTONDBLCLK, WM_TRAY,
};
