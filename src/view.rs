use vstd::prelude::*;
use crate::hotkey::{
    has_slot, mask_of, HotkeyBinding, HotkeyRegistry, ModKeyView, SLOT_TOGGLE, SLOT_UNMUTE,
};
use crate::poller::{any_up, is_key_release};

verus! {

/// Virtual-key code of the Shift key.
pub const VK_SHIFT: u32 = 0x10;

/// Virtual-key code of the Ctrl key.
pub const VK_CONTROL: u32 = 0x11;

/// Virtual-key code of the Alt key.
pub const VK_MENU: u32 = 0x12;

/// Virtual-key code of the left Windows key.
pub const VK_LWIN: u32 = 0x5B;

/// Virtual-key code of the right Windows key.
pub const VK_RWIN: u32 = 0x5C;

/// The window message that reports a triggered hotkey; its first parameter
/// is the hotkey's slot.
pub const WM_HOTKEY: u32 = 0x0312;

/// The first message number free for applications.
pub const WM_APP: u32 = 0x8000;

/// The message the tray icon sends; its second parameter is the mouse event.
pub const WM_TRAY: u32 = WM_APP + 1;

/// The mouse event of a double click with the left button.
pub const WM_LBUTTONDBLCLK: u32 = 0x0203;

/// The modifier keys polled for a push-to-talk combination: the checked
/// modifiers, the Windows modifier as both of its keys.
pub open spec fn modifier_codes(m: ModKeyView) -> Seq<u32> {
    (if m.ctrl { seq![VK_CONTROL] } else { seq![] }) + (if m.alt { seq![VK_MENU] } else { seq![] })
        + (if m.shift { seq![VK_SHIFT] } else { seq![] }) + (if m.win {
        seq![VK_LWIN, VK_RWIN]
    } else {
        seq![]
    })
}

/// The keys polled for a push-to-talk combination, each once: the modifier
/// keys, then the main key unless it is one of them.
pub open spec fn combo_codes(m: ModKeyView, key: u32) -> Seq<u32> {
    if modifier_codes(m).contains(key) {
        modifier_codes(m)
    } else {
        modifier_codes(m).push(key)
    }
}

/// A snapshot of the push-to-talk selector: whether it is switched on, and
/// the combination it holds.
#[derive(Clone, Copy, Debug, PartialEq, Eq, Structural)]
pub struct PushView {
    pub enabled: bool,
    pub mods: ModKeyView,
    pub key_code: u32,
}

impl PushView {
    pub fn new(enabled: bool, mods: ModKeyView, key_code: u32) -> (r: PushView)
        ensures
            r == (PushView { enabled, mods, key_code }),
    {
        PushView { enabled, mods, key_code }
    }

    /// The key codes whose state is polled for this combination, each once.
    pub fn get_key_codes(&self) -> (r: Vec<u32>)
        ensures
            r@ == combo_codes(self.mods, self.key_code),
            r@.len() > 0,
            r@.contains(self.key_code),
            forall|i: int, j: int| 0 <= i < j < r@.len() ==> r@[i] != r@[j],
    {
        let mut codes: Vec<u32> = Vec::new();
        if self.mods.ctrl {
            codes.push(VK_CONTROL);
        }
        if self.mods.alt {
            codes.push(VK_MENU);
        }
        if self.mods.shift {
            codes.push(VK_SHIFT);
        }
        if self.mods.win {
            codes.push(VK_LWIN);
            codes.push(VK_RWIN);
        }
        assert(codes@ =~= modifier_codes(self.mods));
        let ghost mods = codes@;
        assert(forall|i: int, j: int| 0 <= i < j < mods.len() ==> mods[i] != mods[j]);
        let mut listed = false;
        let mut k: usize = 0;
        while k < codes.len()
            invariant
                codes@ == mods,
                k <= codes@.len(),
                listed == exists|i: int| 0 <= i < k && codes@[i] == self.key_code,
            decreases codes@.len() - k,
        {
            if codes[k] == self.key_code {
                listed = true;
            }
            k = k + 1;
        }
        if !listed {
            codes.push(self.key_code);
            assert(codes@[mods.len() as int] == self.key_code);
        } else {
            proof {
                let i = choose|i: int| 0 <= i < k && codes@[i] == self.key_code;
                assert(codes@[i] == self.key_code);
            }
        }
        codes
    }

    /// Whether push-to-talk is switched on.
    pub fn is_enable(&self) -> (r: bool)
        ensures
            r == self.enabled,
    {
        self.enabled
    }

    /// The force-unmute hotkey this selector registers.
    pub fn binding(&self) -> (r: HotkeyBinding)
        ensures
            r == (HotkeyBinding {
                slot: SLOT_UNMUTE,
                modifiers: mask_of(self.mods),
                key_code: self.key_code,
            }),
    {
        HotkeyBinding::new(SLOT_UNMUTE, &self.mods, self.key_code)
    }
}

/// A snapshot of the mute-toggle hotkey selector.
#[derive(Clone, Copy, Debug, PartialEq, Eq, Structural)]
pub struct MuteView {
    pub mods: ModKeyView,
    pub key_code: u32,
}

impl MuteView {
    pub fn new(mods: ModKeyView, key_code: u32) -> (r: MuteView)
        ensures
            r == (MuteView { mods, key_code }),
    {
        MuteView { mods, key_code }
    }

    /// The mute-toggle hotkey this selector registers.
    pub fn binding(&self) -> (r: HotkeyBinding)
        ensures
            r == (HotkeyBinding {
                slot: SLOT_TOGGLE,
                modifiers: mask_of(self.mods),
                key_code: self.key_code,
            }),
    {
        HotkeyBinding::new(SLOT_TOGGLE, &self.mods, self.key_code)
    }
}

/// What the caller is to do after an event.
#[derive(Clone, Copy, Debug, PartialEq, Eq, Structural)]
pub enum Action {
    /// Nothing.
    Nothing,
    /// Set the endpoint muted, then report back through `MainView::mute`.
    Mute,
    /// Set the endpoint unmuted, then report back through `MainView::unmute`.
    Unmute,
    /// Invert the endpoint's mute flag, read it back, and report it through
    /// `MainView::toggle`.
    Toggle,
    /// Show the settings window.
    ShowWindow,
    /// Hand the message on to the window's previous handler.
    Forward,
}

/// What a window message asks for: the tray icon's double click shows the
/// window, the toggle and unmute hotkeys act on the endpoint, and every other
/// message is forwarded unchanged.
pub open spec fn message_action(msg: u32, wparam: usize, lparam: isize) -> Action {
    if msg == WM_TRAY {
        if lparam as u32 == WM_LBUTTONDBLCLK {
            Action::ShowWindow
        } else {
            Action::Forward
        }
    } else if msg == WM_HOTKEY {
        if wparam == SLOT_TOGGLE as usize {
            Action::Toggle
        } else if wparam == SLOT_UNMUTE as usize {
            Action::Unmute
        } else {
            Action::Forward
        }
    } else {
        Action::Forward
    }
}

/// The action a window message asks for.
pub fn dispatch(msg: u32, wparam: usize, lparam: isize) -> (r: Action)
    ensures
        r == message_action(msg, wparam, lparam),
{
    if msg == WM_TRAY {
        let event = #[verifier::truncate] (lparam as u32);
        if event == WM_LBUTTONDBLCLK {
            Action::ShowWindow
        } else {
            Action::Forward
        }
    } else if msg == WM_HOTKEY {
        if wparam == SLOT_TOGGLE as usize {
            Action::Toggle
        } else if wparam == SLOT_UNMUTE as usize {
            Action::Unmute
        } else {
            Action::Forward
        }
    } else {
        Action::Forward
    }
}

/// The status text shown for a mute state.
pub open spec fn status_text(muted: bool) -> Seq<char> {
    if muted {
        "静音"@
    } else {
        "正常"@
    }
}

/// The status text shown for a mute state.
pub fn status_label(muted: bool) -> (r: &'static str)
    ensures
        r@ == status_text(muted),
{
    if muted {
        "静音"
    } else {
        "正常"
    }
}

/// The push-to-talk gesture.
#[derive(Clone, Copy, Debug, PartialEq, Eq, Structural)]
pub enum Gesture {
    /// No combination is being held.
    Idle,
    /// The whole combination was held at the last poll.
    PushActive,
}

/// The displayed state of the application: whether the settings window is
/// shown, the master mute switch (the status text follows it), and the
/// push-to-talk gesture.
#[derive(Clone, Copy, Debug, PartialEq, Eq, Structural)]
pub struct MainView {
    pub visible: bool,
    pub switch_on: bool,
    pub gesture: Gesture,
}

impl MainView {
    /// The display at start-up, showing the endpoint's current mute state.
    pub fn new(muted: bool) -> (r: MainView)
        ensures
            r == (MainView { visible: false, switch_on: muted, gesture: Gesture::Idle }),
    {
        MainView { visible: false, switch_on: muted, gesture: Gesture::Idle }
    }

    /// The status text, which always matches the switch.
    pub fn status(&self) -> (r: &'static str)
        ensures
            r@ == status_text(self.switch_on),
    {
        status_label(self.switch_on)
    }

    pub fn show_window(&mut self)
        ensures
            *final(self) == (MainView { visible: true, ..*old(self) }),
    {
        self.visible = true;
    }

    pub fn hide_window(&mut self)
        ensures
            *final(self) == (MainView { visible: false, ..*old(self) }),
    {
        self.visible = false;
    }

    /// Records the outcome of setting the endpoint muted: the switch turns on
    /// when the system confirmed it, and nothing changes otherwise.
    pub fn mute(&mut self, confirmed: bool)
        ensures
            *final(self) == (MainView {
                switch_on: if confirmed { true } else { old(self).switch_on },
                ..*old(self)
            }),
    {
        if confirmed {
            self.switch_on = true;
        }
    }

    /// Records the outcome of setting the endpoint unmuted: the switch turns
    /// off when the system confirmed it, and nothing changes otherwise.
    pub fn unmute(&mut self, confirmed: bool)
        ensures
            *final(self) == (MainView {
                switch_on: if confirmed { false } else { old(self).switch_on },
                ..*old(self)
            }),
    {
        if confirmed {
            self.switch_on = false;
        }
    }

    /// Records the mute state read back from the endpoint after a toggle.
    pub fn toggle(&mut self, muted_now: bool)
        ensures
            *final(self) == (MainView { switch_on: muted_now, ..*old(self) }),
    {
        self.switch_on = muted_now;
    }

    /// One poll of the push-to-talk combination, with one key-state reading
    /// per code of `push.get_key_codes()`. While push-to-talk is on, a poll
    /// that finds any key of the combination up asks to mute and ends the
    /// gesture; one that finds all of them held keeps the gesture active.
    /// Holding the combination never unmutes by itself: unmuting comes from
    /// the force-unmute hotkey, which is registered with the same keys.
    pub fn on_tick(&mut self, push: &PushView, key_states: &[i16]) -> (r: Action)
        ensures
            r == (if push.enabled && any_up(key_states@) {
                Action::Mute
            } else {
                Action::Nothing
            }),
            *final(self) == (MainView {
                gesture: if push.enabled && !any_up(key_states@) {
                    Gesture::PushActive
                } else {
                    Gesture::Idle
                },
                ..*old(self)
            }),
    {
        if !push.is_enable() {
            self.gesture = Gesture::Idle;
            return Action::Nothing;
        }
        if is_key_release(key_states) {
            self.gesture = Gesture::Idle;
            Action::Mute
        } else {
            self.gesture = Gesture::PushActive;
            Action::Nothing
        }
    }

    /// Handles one window message: a double click on the tray icon shows
    /// the window; everything else leaves the display as it is.
    pub fn on_message(&mut self, msg: u32, wparam: usize, lparam: isize) -> (r: Action)
        ensures
            r == message_action(msg, wparam, lparam),
            *final(self) == (MainView {
                visible: old(self).visible || r == Action::ShowWindow,
                ..*old(self)
            }),
    {
        let r = dispatch(msg, wparam, lparam);
        if r == Action::ShowWindow {
            self.show_window();
        }
        r
    }
}

/// The kind of dialog shown after trying to set a hotkey.
#[derive(Clone, Copy, Debug, PartialEq, Eq, Structural)]
pub enum DialogKind {
    Info,
    Error,
}

/// What the settings window shows after trying to set a hotkey: the state
/// of the hotkey's enabling switch and a dialog.
pub struct SetOutcome {
    pub switch_on: bool,
    pub dialog: DialogKind,
    pub message: &'static str,
}

/// The dialog text after trying to set a hotkey.
pub open spec fn set_message(accepted: bool) -> Seq<char> {
    if accepted {
        "设置成功"@
    } else {
        "设置失败, 快捷键已被占用"@
    }
}

/// Records the system's answer to registering `b` (after its slot was
/// released) and says what to show: on success the switch turns on with an
/// information dialog; on refusal the switch turns off with an error dialog,
/// and the slot is left with no binding.
pub fn set_hotkey(registry: &mut HotkeyRegistry, b: HotkeyBinding, accepted: bool) -> (r: SetOutcome)
    requires
        old(registry).wf(),
    ensures
        final(registry).wf(),
        has_slot(final(registry).live(), b.slot) == accepted,
        forall|c: HotkeyBinding|
            #[trigger] final(registry).live().contains(c) <==> (old(registry).live().contains(c)
                && c.slot != b.slot || accepted && c == b),
        r.switch_on == accepted,
        r.dialog == (if accepted { DialogKind::Info } else { DialogKind::Error }),
        r.message@ == set_message(accepted),
{
    registry.register(b, accepted);
    if accepted {
        SetOutcome { switch_on: true, dialog: DialogKind::Info, message: "设置成功" }
    } else {
        SetOutcome { switch_on: false, dialog: DialogKind::Error, message: "设置失败, 快捷键已被占用" }
    }
}

} // verus!
