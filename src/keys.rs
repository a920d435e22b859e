use vstd::prelude::*;

verus! {

/// The virtual-key codes offered for a hotkey or a push-to-talk combination.
pub open spec fn is_listed_key(code: u32) -> bool {
    ||| 0x01 <= code <= 0x06
    ||| code == 0x08 || code == 0x09 || code == 0x0C || code == 0x0D
    ||| 0x10 <= code <= 0x39
    ||| 0x41 <= code <= 0x5D
    ||| 0x5F <= code <= 0x87
    ||| code == 0x90 || code == 0x91
    ||| 0xA0 <= code <= 0xB7
}

/// The highest listed virtual-key code.
pub const LAST_KEY_CODE: u32 = 0xB7;

/// The human-readable name of each offered virtual-key code.
pub open spec fn key_name(code: u32) -> Option<Seq<char>> {
    match code {
        0x01 => Some("Left mouse button"@),
        0x02 => Some("Right mouse button"@),
        0x03 => Some("Control-break processing"@),
        0x04 => Some("Middle mouse button (three-button mouse)"@),
        0x05 => Some("X1 mouse button"@),
        0x06 => Some("X2 mouse button"@),
        0x08 => Some("BACKSPACE key"@),
        0x09 => Some("TAB key"@),
        0x0C => Some("CLEAR key"@),
        0x0D => Some("ENTER key"@),
        0x10 => Some("SHIFT key"@),
        0x11 => Some("CTRL key"@),
        0x12 => Some("ALT key"@),
        0x13 => Some("PAUSE key"@),
        0x14 => Some("CAPS LOCK key"@),
        0x15 => Some("IME Hangul mode"@),
        0x16 => Some("IME On"@),
        0x17 => Some("IME Junja mode"@),
        0x18 => Some("IME final mode"@),
        0x19 => Some("IME Kanji mode"@),
        0x1A => Some("IME Off"@),
        0x1B => Some("ESC key"@),
        0x1C => Some("IME convert"@),
        0x1D => Some("IME nonconvert"@),
        0x1E => Some("IME accept"@),
        0x1F => Some("IME mode change request"@),
        0x20 => Some("SPACEBAR"@),
        0x21 => Some("PAGE UP key"@),
        0x22 => Some("PAGE DOWN key"@),
        0x23 => Some("END key"@),
        0x24 => Some("HOME key"@),
        0x25 => Some("LEFT ARROW key"@),
        0x26 => Some("UP ARROW key"@),
        0x27 => Some("RIGHT ARROW key"@),
        0x28 => Some("DOWN ARROW key"@),
        0x29 => Some("SELECT key"@),
        0x2A => Some("PRINT key"@),
        0x2B => Some("EXECUTE key"@),
        0x2C => Some("PRINT SCREEN key"@),
        0x2D => Some("INS key"@),
        0x2E => Some("DEL key"@),
        0x2F => Some("HELP key"@),
        0x30 => Some("0 key"@),
        0x31 => Some("1 key"@),
        0x32 => Some("2 key"@),
        0x33 => Some("3 key"@),
        0x34 => Some("4 key"@),
        0x35 => Some("5 key"@),
        0x36 => Some("6 key"@),
        0x37 => Some("7 key"@),
        0x38 => Some("8 key"@),
        0x39 => Some("9 key"@),
        0x41 => Some("A key"@),
        0x42 => Some("B key"@),
        0x43 => Some("C key"@),
        0x44 => Some("D key"@),
        0x45 => Some("E key"@),
        0x46 => Some("F key"@),
        0x47 => Some("G key"@),
        0x48 => Some("H key"@),
        0x49 => Some("I key"@),
        0x4A => Some("J key"@),
        0x4B => Some("K key"@),
        0x4C => Some("L key"@),
        0x4D => Some("M key"@),
        0x4E => Some("N key"@),
        0x4F => Some("O key"@),
        0x50 => Some("P key"@),
        0x51 => Some("Q key"@),
        0x52 => Some("R key"@),
        0x53 => Some("S key"@),
        0x54 => Some("T key"@),
        0x55 => Some("U key"@),
        0x56 => Some("V key"@),
        0x57 => Some("W key"@),
        0x58 => Some("X key"@),
        0x59 => Some("Y key"@),
        0x5A => Some("Z key"@),
        0x5B => Some("Left Windows key (Natural keyboard)"@),
        0x5C => Some("Right Windows key (Natural keyboard)"@),
        0x5D => Some("Applications key (Natural keyboard)"@),
        0x5F => Some("Computer Sleep key"@),
        0x60 => Some("Numeric keypad 0 key"@),
        0x61 => Some("Numeric keypad 1 key"@),
        0x62 => Some("Numeric keypad 2 key"@),
        0x63 => Some("Numeric keypad 3 key"@),
        0x64 => Some("Numeric keypad 4 key"@),
        0x65 => Some("Numeric keypad 5 key"@),
        0x66 => Some("Numeric keypad 6 key"@),
        0x67 => Some("Numeric keypad 7 key"@),
        0x68 => Some("Numeric keypad 8 key"@),
        0x69 => Some("Numeric keypad 9 key"@),
        0x6A => Some("Multiply key"@),
        0x6B => Some("Add key"@),
        0x6C => Some("Separator key"@),
        0x6D => Some("Subtract key"@),
        0x6E => Some("Decimal key"@),
        0x6F => Some("Divide key"@),
        0x70 => Some("F1 key"@),
        0x71 => Some("F2 key"@),
        0x72 => Some("F3 key"@),
        0x73 => Some("F4 key"@),
        0x74 => Some("F5 key"@),
        0x75 => Some("F6 key"@),
        0x76 => Some("F7 key"@),
        0x77 => Some("F8 key"@),
        0x78 => Some("F9 key"@),
        0x79 => Some("F10 key"@),
        0x7A => Some("F11 key"@),
        0x7B => Some("F12 key"@),
        0x7C => Some("F13 key"@),
        0x7D => Some("F14 key"@),
        0x7E => Some("F15 key"@),
        0x7F => Some("F16 key"@),
        0x80 => Some("F17 key"@),
        0x81 => Some("F18 key"@),
        0x82 => Some("F19 key"@),
        0x83 => Some("F20 key"@),
        0x84 => Some("F21 key"@),
        0x85 => Some("F22 key"@),
        0x86 => Some("F23 key"@),
        0x87 => Some("F24 key"@),
        0x90 => Some("NUM LOCK key"@),
        0x91 => Some("SCROLL LOCK key"@),
        0xA0 => Some("Left SHIFT key"@),
        0xA1 => Some("Right SHIFT key"@),
        0xA2 => Some("Left CONTROL key"@),
        0xA3 => Some("Right CONTROL key"@),
        0xA4 => Some("Left MENU key"@),
        0xA5 => Some("Right MENU key"@),
        0xA6 => Some("Browser Back key"@),
        0xA7 => Some("Browser Forward key"@),
        0xA8 => Some("Browser Refresh key"@),
        0xA9 => Some("Browser Stop key"@),
        0xAA => Some("Browser Search key"@),
        0xAB => Some("Browser Favorites key"@),
        0xAC => Some("Browser Start and Home key"@),
        0xAD => Some("Volume Mute key"@),
        0xAE => Some("Volume Down key"@),
        0xAF => Some("Volume Up key"@),
        0xB0 => Some("Next Track key"@),
        0xB1 => Some("Previous Track key"@),
        0xB2 => Some("Stop Media key"@),
        0xB3 => Some("Play/Pause Media key"@),
        0xB4 => Some("Start Mail key"@),
        0xB5 => Some("Select Media key"@),
        0xB6 => Some("Start Application 1 key"@),
        0xB7 => Some("Start Application 2 key"@),
        _ => None,
    }
}

/// The human-readable name of a listed virtual-key code; `None` for a code
/// that is not offered.
pub fn key_label(code: u32) -> (r: Option<&'static str>)
    ensures
        r.is_some() == is_listed_key(code),
        r.is_some() == key_name(code).is_some(),
        r matches Some(s) ==> s@ == key_name(code).unwrap(),
{
    match code {
        0x01 => Some("Left mouse button"),
        0x02 => Some("Right mouse button"),
        0x03 => Some("Control-break processing"),
        0x04 => Some("Middle mouse button (three-button mouse)"),
        0x05 => Some("X1 mouse button"),
        0x06 => Some("X2 mouse button"),
        0x08 => Some("BACKSPACE key"),
        0x09 => Some("TAB key"),
        0x0C => Some("CLEAR key"),
        0x0D => Some("ENTER key"),
        0x10 => Some("SHIFT key"),
        0x11 => Some("CTRL key"),
        0x12 => Some("ALT key"),
        0x13 => Some("PAUSE key"),
        0x14 => Some("CAPS LOCK key"),
        0x15 => Some("IME Hangul mode"),
        0x16 => Some("IME On"),
        0x17 => Some("IME Junja mode"),
        0x18 => Some("IME final mode"),
        0x19 => Some("IME Kanji mode"),
        0x1A => Some("IME Off"),
        0x1B => Some("ESC key"),
        0x1C => Some("IME convert"),
        0x1D => Some("IME nonconvert"),
        0x1E => Some("IME accept"),
        0x1F => Some("IME mode change request"),
        0x20 => Some("SPACEBAR"),
        0x21 => Some("PAGE UP key"),
        0x22 => Some("PAGE DOWN key"),
        0x23 => Some("END key"),
        0x24 => Some("HOME key"),
        0x25 => Some("LEFT ARROW key"),
        0x26 => Some("UP ARROW key"),
        0x27 => Some("RIGHT ARROW key"),
        0x28 => Some("DOWN ARROW key"),
        0x29 => Some("SELECT key"),
        0x2A => Some("PRINT key"),
        0x2B => Some("EXECUTE key"),
        0x2C => Some("PRINT SCREEN key"),
        0x2D => Some("INS key"),
        0x2E => Some("DEL key"),
        0x2F => Some("HELP key"),
        0x30 => Some("0 key"),
        0x31 => Some("1 key"),
        0x32 => Some("2 key"),
        0x33 => Some("3 key"),
        0x34 => Some("4 key"),
        0x35 => Some("5 key"),
        0x36 => Some("6 key"),
        0x37 => Some("7 key"),
        0x38 => Some("8 key"),
        0x39 => Some("9 key"),
        0x41 => Some("A key"),
        0x42 => Some("B key"),
        0x43 => Some("C key"),
        0x44 => Some("D key"),
        0x45 => Some("E key"),
        0x46 => Some("F key"),
        0x47 => Some("G key"),
        0x48 => Some("H key"),
        0x49 => Some("I key"),
        0x4A => Some("J key"),
        0x4B => Some("K key"),
        0x4C => Some("L key"),
        0x4D => Some("M key"),
        0x4E => Some("N key"),
        0x4F => Some("O key"),
        0x50 => Some("P key"),
        0x51 => Some("Q key"),
        0x52 => Some("R key"),
        0x53 => Some("S key"),
        0x54 => Some("T key"),
        0x55 => Some("U key"),
        0x56 => Some("V key"),
        0x57 => Some("W key"),
        0x58 => Some("X key"),
        0x59 => Some("Y key"),
        0x5A => Some("Z key"),
        0x5B => Some("Left Windows key (Natural keyboard)"),
        0x5C => Some("Right Windows key (Natural keyboard)"),
        0x5D => Some("Applications key (Natural keyboard)"),
        0x5F => Some("Computer Sleep key"),
        0x60 => Some("Numeric keypad 0 key"),
        0x61 => Some("Numeric keypad 1 key"),
        0x62 => Some("Numeric keypad 2 key"),
        0x63 => Some("Numeric keypad 3 key"),
        0x64 => Some("Numeric keypad 4 key"),
        0x65 => Some("Numeric keypad 5 key"),
        0x66 => Some("Numeric keypad 6 key"),
        0x67 => Some("Numeric keypad 7 key"),
        0x68 => Some("Numeric keypad 8 key"),
        0x69 => Some("Numeric keypad 9 key"),
        0x6A => Some("Multiply key"),
        0x6B => Some("Add key"),
        0x6C => Some("Separator key"),
        0x6D => Some("Subtract key"),
        0x6E => Some("Decimal key"),
        0x6F => Some("Divide key"),
        0x70 => Some("F1 key"),
        0x71 => Some("F2 key"),
        0x72 => Some("F3 key"),
        0x73 => Some("F4 key"),
        0x74 => Some("F5 key"),
        0x75 => Some("F6 key"),
        0x76 => Some("F7 key"),
        0x77 => Some("F8 key"),
        0x78 => Some("F9 key"),
        0x79 => Some("F10 key"),
        0x7A => Some("F11 key"),
        0x7B => Some("F12 key"),
        0x7C => Some("F13 key"),
        0x7D => Some("F14 key"),
        0x7E => Some("F15 key"),
        0x7F => Some("F16 key"),
        0x80 => Some("F17 key"),
        0x81 => Some("F18 key"),
        0x82 => Some("F19 key"),
        0x83 => Some("F20 key"),
        0x84 => Some("F21 key"),
        0x85 => Some("F22 key"),
        0x86 => Some("F23 key"),
        0x87 => Some("F24 key"),
        0x90 => Some("NUM LOCK key"),
        0x91 => Some("SCROLL LOCK key"),
        0xA0 => Some("Left SHIFT key"),
        0xA1 => Some("Right SHIFT key"),
        0xA2 => Some("Left CONTROL key"),
        0xA3 => Some("Right CONTROL key"),
        0xA4 => Some("Left MENU key"),
        0xA5 => Some("Right MENU key"),
        0xA6 => Some("Browser Back key"),
        0xA7 => Some("Browser Forward key"),
        0xA8 => Some("Browser Refresh key"),
        0xA9 => Some("Browser Stop key"),
        0xAA => Some("Browser Search key"),
        0xAB => Some("Browser Favorites key"),
        0xAC => Some("Browser Start and Home key"),
        0xAD => Some("Volume Mute key"),
        0xAE => Some("Volume Down key"),
        0xAF => Some("Volume Up key"),
        0xB0 => Some("Next Track key"),
        0xB1 => Some("Previous Track key"),
        0xB2 => Some("Stop Media key"),
        0xB3 => Some("Play/Pause Media key"),
        0xB4 => Some("Start Mail key"),
        0xB5 => Some("Select Media key"),
        0xB6 => Some("Start Application 1 key"),
        0xB7 => Some("Start Application 2 key"),
        _ => None,
    }
}

/// Every listed virtual-key code, in ascending order, each once.
pub fn key_codes() -> (r: Vec<u32>)
    ensures
        forall|i: int, j: int| 0 <= i < j < r@.len() ==> r@[i] < r@[j],
        forall|c: u32| r@.contains(c) <==> is_listed_key(c),
{
    let mut r: Vec<u32> = Vec::new();
    let mut c: u32 = 0;
    while c <= LAST_KEY_CODE
        invariant
            c <= LAST_KEY_CODE + 1,
            forall|i: int, j: int| 0 <= i < j < r@.len() ==> r@[i] < r@[j],
            forall|i: int| 0 <= i < r@.len() ==> r@[i] < c,
            forall|d: u32| r@.contains(d) <==> (d < c && is_listed_key(d)),
        decreases LAST_KEY_CODE + 1 - c,
    {
        let ghost before = r@;
        if key_label(c).is_some() {
            r.push(c);
            assert forall|d: u32| r@.contains(d) <==> (before.contains(d) || d == c) by {
                if r@.contains(d) && d != c {
                    let k = choose|k: int| 0 <= k < r@.len() && r@[k] == d;
                    assert(before[k] == d);
                }
                if d == c {
                    assert(r@[r@.len() - 1] == d);
                }
                if before.contains(d) {
                    let k = choose|k: int| 0 <= k < before.len() && before[k] == d;
                    assert(r@[k] == d);
                }
            }
        }
        c = c + 1;
    }
    r
}

} // verus!
