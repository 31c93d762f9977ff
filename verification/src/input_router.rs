//! Where input events go, and how keys are named on the way.
use vstd::prelude::*;

use crate::context_menu::Coordinate;
use crate::scene::{Scene, VisualId};

verus! {

/// Classification of a pointer event's destination.
#[derive(Debug, Clone, Copy, PartialEq, Eq, Structural)]
pub enum InteractionTarget {
    Scene,
    Content(VisualId),
}

/// The kind of pointer event being delivered.
#[derive(Debug, Clone, Copy, PartialEq, Eq, Structural)]
pub enum PointerEventKind {
    Down,
    Up,
    Motion,
    Scroll(Coordinate, Coordinate),
}

/// A keyboard event, its key a USB HID usage id.
#[derive(Debug, Clone, Copy, PartialEq, Eq, Structural)]
pub struct KeyboardEvent {
    pub key: u16,
    pub pressed: bool,
}

/// Delivers input events to application content.
pub trait InputSink {
    /// A pointer event at a normalized position on the content.
    fn handle_pointer(&mut self, kind: PointerEventKind, u: Coordinate, v: Coordinate);

    fn handle_keyboard(&mut self, event: KeyboardEvent);
}

/// Classification of a keyboard event's routing destination.
#[derive(Debug, Clone, Copy, PartialEq, Eq, Structural)]
pub enum KeyRouting {
    /// A shortcut of the compositor.
    Global,
    /// To the focused visual.
    Content,
}

/// A sink that keeps every event it is given.
#[derive(Debug)]
pub struct RecordingInputSink {
    pub pointers: Vec<(PointerEventKind, Coordinate, Coordinate)>,
    pub keys: Vec<KeyboardEvent>,
}

impl Default for RecordingInputSink {
    fn default() -> (r: Self)
        ensures
            r.pointers@.len() == 0,
            r.keys@.len() == 0,
    {
        RecordingInputSink::new()
    }
}

impl RecordingInputSink {
    pub fn new() -> (r: Self)
        ensures
            r.pointers@.len() == 0,
            r.keys@.len() == 0,
    {
        RecordingInputSink { pointers: Vec::new(), keys: Vec::new() }
    }

    pub fn clear(&mut self)
        ensures
            final(self).pointers@.len() == 0,
            final(self).keys@.len() == 0,
    {
        self.pointers.clear();
        self.keys.clear();
    }
}

impl InputSink for RecordingInputSink {
    fn handle_pointer(&mut self, kind: PointerEventKind, u: Coordinate, v: Coordinate)
        ensures
            final(self).pointers@ == old(self).pointers@.push((kind, u, v)),
            final(self).keys@ == old(self).keys@,
    {
        self.pointers.push((kind, u, v));
    }

    fn handle_keyboard(&mut self, event: KeyboardEvent)
        ensures
            final(self).keys@ == old(self).keys@.push(event),
            final(self).pointers@ == old(self).pointers@,
    {
        self.keys.push(event);
    }
}

/// The HID usage id of a Linux evdev key code, or zero for a key that has
/// none here. Codes that run together are given together.
pub open spec fn hid_usage(code: int) -> int {
    if code == 1 {
        0x29
    } else if 2 <= code <= 11 {
        0x1e + (code - 2)
    } else if 12 <= code <= 13 {
        0x2d + (code - 12)
    } else if 14 <= code <= 15 {
        0x2a + (code - 14)
    } else if code == 16 {
        0x14
    } else if code == 17 {
        0x1a
    } else if code == 18 {
        0x08
    } else if code == 19 {
        0x15
    } else if code == 20 {
        0x17
    } else if code == 21 {
        0x1c
    } else if code == 22 {
        0x18
    } else if code == 23 {
        0x0c
    } else if 24 <= code <= 25 {
        0x12 + (code - 24)
    } else if 26 <= code <= 27 {
        0x2f + (code - 26)
    } else if code == 28 {
        0x28
    } else if code == 29 || code == 42 {
        0xe1
    } else if code == 30 {
        0x04
    } else if code == 31 {
        0x16
    } else if code == 32 {
        0x07
    } else if 33 <= code <= 35 {
        0x09 + (code - 33)
    } else if 36 <= code <= 38 {
        0x0d + (code - 36)
    } else if 39 <= code <= 41 {
        0x33 + (code - 39)
    } else if code == 43 {
        0x31
    } else if code == 44 {
        0x1d
    } else if code == 45 {
        0x1b
    } else if code == 46 {
        0x06
    } else if code == 47 {
        0x19
    } else if code == 48 {
        0x05
    } else if code == 49 {
        0x11
    } else if code == 50 {
        0x10
    } else if 51 <= code <= 53 {
        0x36 + (code - 51)
    } else if code == 54 {
        0xe5
    } else if code == 55 {
        0x55
    } else if code == 56 {
        0xe2
    } else if code == 57 {
        0x2c
    } else if 58 <= code <= 85 {
        0x39 + (code - 58)
    } else if 86 <= code <= 100 {
        0x56 + (code - 86)
    } else if code == 101 {
        0x87
    } else if 102 <= code <= 103 {
        0x66
    } else if 104 <= code <= 115 {
        0x67 + (code - 104)
    } else {
        0
    }
}

/// The usage is one of a letter.
pub open spec fn is_letter_usage(usage: int) -> bool {
    0x04 <= usage <= 0x1d
}

/// Converts a Linux evdev key code to a USB HID usage id; zero for keys
/// that have none here.
pub fn linux_to_hid(code: u32) -> (r: u16)
    ensures
        r == hid_usage(code as int),
{
    match code {
        1 => 0x29,
        2 => 0x1e,
        3 => 0x1f,
        4 => 0x20,
        5 => 0x21,
        6 => 0x22,
        7 => 0x23,
        8 => 0x24,
        9 => 0x25,
        10 => 0x26,
        11 => 0x27,
        12 => 0x2d,
        13 => 0x2e,
        14 => 0x2a,
        15 => 0x2b,
        16 => 0x14,
        17 => 0x1a,
        18 => 0x08,
        19 => 0x15,
        20 => 0x17,
        21 => 0x1c,
        22 => 0x18,
        23 => 0x0c,
        24 => 0x12,
        25 => 0x13,
        26 => 0x2f,
        27 => 0x30,
        28 => 0x28,
        29 => 0xe1,
        30 => 0x04,
        31 => 0x16,
        32 => 0x07,
        33 => 0x09,
        34 => 0x0a,
        35 => 0x0b,
        36 => 0x0d,
        37 => 0x0e,
        38 => 0x0f,
        39 => 0x33,
        40 => 0x34,
        41 => 0x35,
        42 => 0xe1,
        43 => 0x31,
        44 => 0x1d,
        45 => 0x1b,
        46 => 0x06,
        47 => 0x19,
        48 => 0x05,
        49 => 0x11,
        50 => 0x10,
        51 => 0x36,
        52 => 0x37,
        53 => 0x38,
        54 => 0xe5,
        55 => 0x55,
        56 => 0xe2,
        57 => 0x2c,
        101 => 0x87,
        102 => 0x66,
        103 => 0x66,
        _ => if 58 <= code && code <= 85 {
            (0x39 + (code - 58)) as u16
        } else if 86 <= code && code <= 100 {
            (0x56 + (code - 86)) as u16
        } else if 104 <= code && code <= 115 {
            (0x67 + (code - 104)) as u16
        } else {
            0
        },
    }
}

/// Whether a pointer event goes to the scene or to the selected visual's
/// content. A held modifier keeps it with the scene.
pub fn classify_pointer_target(scene: &Scene, shift: bool, ctrl: bool, alt: bool) -> (r:
    InteractionTarget)
    ensures
        r == match scene@.selected_id {
            Some(vid) if !shift && !ctrl && !alt => InteractionTarget::Content(vid),
            _ => InteractionTarget::Scene,
        },
{
    if shift || ctrl || alt {
        return InteractionTarget::Scene;
    }
    match scene.selected_id {
        Some(vid) => InteractionTarget::Content(vid),
        None => InteractionTarget::Scene,
    }
}

/// The pixel at a normalized position of an extent, given the truncated
/// products of position and size: never beyond the last pixel.
pub fn uv_to_pixels(scaled: (u32, u32), width: u32, height: u32) -> (r: (u32, u32))
    ensures
        r.0 == if width == 0 {
            0
        } else if scaled.0 < width {
            scaled.0
        } else {
            (width - 1) as u32
        },
        r.1 == if height == 0 {
            0
        } else if scaled.1 < height {
            scaled.1
        } else {
            (height - 1) as u32
        },
{
    let last_x: u32 = width.saturating_sub(1);
    let last_y: u32 = height.saturating_sub(1);
    (
        if scaled.0 < last_x {
            scaled.0
        } else {
            last_x
        },
        if scaled.1 < last_y {
            scaled.1
        } else {
            last_y
        },
    )
}

/// Digits and function keys keep their order, and a key without a usage
/// id is told apart from every other.
pub proof fn law_digit_and_function_keys_run_on(i: int)
    ensures
        0 <= i < 10 ==> hid_usage(2 + i) == 0x1e + i,
        0 <= i < 12 ==> hid_usage(59 + i) == 0x3a + i,
        0 <= i < 12 ==> hid_usage(104 + i) == 0x67 + i,
        hid_usage(i) == 0 <==> i < 1 || i > 115,
{
}

/// Every letter has one key: no two keys share the usage of a letter.
pub proof fn law_letters_are_told_apart(a: int, b: int)
    requires
        is_letter_usage(hid_usage(a)),
        hid_usage(a) == hid_usage(b),
    ensures
        a == b,
{
}

/// The rows of letters, left to right, as they stand on a keyboard.
pub open spec fn letter_row(row: int) -> Seq<char> {
    if row == 0 {
        "qwertyuiop"@
    } else if row == 1 {
        "asdfghjkl"@
    } else {
        "zxcvbnm"@
    }
}

/// The key codes of each row run on, and the usage of a key is that of its
/// letter, counted from the letter a.
pub proof fn law_letters_stand_in_rows(row: int, i: int)
    requires
        0 <= row < 3,
        0 <= i < letter_row(row).len(),
    ensures
        hid_usage(16 + 14 * row + i) == 4 + (letter_row(row)[i] as int - 'a' as int),
{
    reveal_strlit("qwertyuiop");
    reveal_strlit("asdfghjkl");
    reveal_strlit("zxcvbnm");
}

} // verus!
