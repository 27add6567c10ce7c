//! The game's four-color palette, loaded by the `SetPalette` command.
//!
//! Palette: "SODA-CAP" by Cappuchi.
use vstd::prelude::*;

verus! {

pub const SODACAP_PALETTE: [u32; 4] = [0xfca6ac, 0xff7d6e, 0xe8e7cb, 0x2176cc];

} // verus!
