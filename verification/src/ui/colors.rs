//! The palette, as packed `0x00RRGGBB` values.

use vstd::prelude::*;

verus! {

pub const BACKGROUND: u32 = 0x282A36;

pub const CURRENT_LINE: u32 = 0x6272A4;

pub const SELECTION: u32 = 0x44475A;

pub const FOREGROUND: u32 = 0xF8F8F2;

pub const COMMENT: u32 = 0x6272A4;

pub const RED: u32 = 0xFF5555;

pub const ORANGE: u32 = 0xFFB86C;

pub const YELLOW: u32 = 0xF1FA8C;

pub const GREEN: u32 = 0x50FA7B;

pub const CYAN: u32 = 0x8BE9FD;

pub const PURPLE: u32 = 0xBD93F9;

pub const PINK: u32 = 0xFF79C6;

} // verus!
