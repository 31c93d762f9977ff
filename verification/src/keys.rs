//! Key codes as the seat reports them.
use vstd::prelude::*;

verus! {

pub const TAB: u32 = 23;

pub const ENTER: u32 = 36;

pub const CTRL_L: u32 = 37;

pub const SHIFT_L: u32 = 50;

pub const SHIFT_R: u32 = 62;

pub const ALT_L: u32 = 64;

pub const F1: u32 = 67;

pub const F2: u32 = 68;

pub const F3: u32 = 69;

pub const CTRL_R: u32 = 105;

pub const ALT_R: u32 = 108;

pub const UP: u32 = 111;

pub const DOWN: u32 = 116;

pub const META_L: u32 = 133;

pub const META_R: u32 = 134;

/// A key that changes what others mean.
#[derive(Debug, Clone, Copy, PartialEq, Eq, Structural)]
pub enum Modifier {
    Ctrl,
    Shift,
    Alt,
    Meta,
}

/// The modifier a key is, if it is one.
pub open spec fn modifier_key(key: u32) -> Option<Modifier> {
    if key == CTRL_L || key == CTRL_R {
        Some(Modifier::Ctrl)
    } else if key == SHIFT_L || key == SHIFT_R {
        Some(Modifier::Shift)
    } else if key == ALT_L || key == ALT_R {
        Some(Modifier::Alt)
    } else if key == META_L || key == META_R {
        Some(Modifier::Meta)
    } else {
        None
    }
}

pub fn modifier_of(key: u32) -> (r: Option<Modifier>)
    ensures
        r == modifier_key(key),
{
    if key == CTRL_L || key == CTRL_R {
        Some(Modifier::Ctrl)
    } else if key == SHIFT_L || key == SHIFT_R {
        Some(Modifier::Shift)
    } else if key == ALT_L || key == ALT_R {
        Some(Modifier::Alt)
    } else if key == META_L || key == META_R {
        Some(Modifier::Meta)
    } else {
        None
    }
}

} // verus!
