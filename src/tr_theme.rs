use vstd::prelude::*;
use crate::button::{ButtonStyle, ButtonStyleSheet};
use crate::display::{Color, Font};

verus! {

/// Monochrome display: white foreground on black (RGB565 values).
pub const FG: u16 = 0xFFFF;
pub const BG: u16 = 0x0000;

pub open spec fn fg() -> Color {
    Color { value: FG }
}

pub open spec fn bg() -> Color {
    Color { value: BG }
}

pub const FONT_NORMAL: Font = Font::Normal;
pub const FONT_BOLD: Font = Font::Bold;
pub const FONT_MONO: Font = Font::Mono;

/// Inverted text on a rounded, filled background; pressed draws the same
/// without the rounding.
pub fn button_default() -> (s: ButtonStyleSheet)
    ensures
        s.normal == (ButtonStyle { font: FONT_BOLD, text_color: bg(), border_horiz: true }),
        s.active == (ButtonStyle { font: FONT_BOLD, text_color: fg(), border_horiz: true }),
{
    ButtonStyleSheet {
        normal: ButtonStyle { font: FONT_BOLD, text_color: Color { value: BG }, border_horiz: true },
        active: ButtonStyle { font: FONT_BOLD, text_color: Color { value: FG }, border_horiz: true },
    }
}

} // verus!
