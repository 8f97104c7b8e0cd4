use vstd::prelude::*;

verus! {

/// Modifier bits of a keybind, as wlroots numbers them.
pub const WLR_MODIFIER_SHIFT: u16 = 1;

pub const WLR_MODIFIER_CAPS: u16 = 2;

pub const WLR_MODIFIER_CTRL: u16 = 4;

pub const WLR_MODIFIER_ALT: u16 = 8;

pub const WLR_MODIFIER_MOD2: u16 = 16;

pub const WLR_MODIFIER_MOD3: u16 = 32;

pub const WLR_MODIFIER_LOGO: u16 = 64;

pub const WLR_MODIFIER_MOD5: u16 = 128;

} // verus!
