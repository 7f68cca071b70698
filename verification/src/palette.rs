use vstd::prelude::*;

verus! {

/// The preset colors offered to the menu layer.
#[derive(Clone, Copy, Debug, PartialEq, Eq, Structural)]
pub enum Color {
    White,
    Blue,
    Purple,
    Pink,
    Turquoise,
    Green,
    Yellow,
    Orange,
    Red,
}

/// The RGB channels of each preset color.
pub open spec fn spec_rgb(c: Color) -> (u8, u8, u8) {
    match c {
        Color::White => (255u8, 255u8, 255u8),
        Color::Blue => (0u8, 0u8, 255u8),
        Color::Purple => (128u8, 0u8, 128u8),
        Color::Pink => (255u8, 192u8, 203u8),
        Color::Turquoise => (64u8, 224u8, 208u8),
        Color::Green => (0u8, 255u8, 0u8),
        Color::Yellow => (255u8, 255u8, 0u8),
        Color::Orange => (255u8, 165u8, 0u8),
        Color::Red => (255u8, 0u8, 0u8),
    }
}

impl Color {
    /// The preset's RGB channels, as handed to `set_color`.
    pub fn get_rgb(&self) -> (rgb: (u8, u8, u8))
        ensures
            rgb == spec_rgb(*self),
    {
        match self {
            Color::White => (255, 255, 255),
            Color::Blue => (0, 0, 255),
            Color::Purple => (128, 0, 128),
            Color::Pink => (255, 192, 203),
            Color::Turquoise => (64, 224, 208),
            Color::Green => (0, 255, 0),
            Color::Yellow => (255, 255, 0),
            Color::Orange => (255, 165, 0),
            Color::Red => (255, 0, 0),
        }
    }
}

/// The preset animations offered to the menu layer (ProtocolA effects).
#[derive(Clone, Copy, Debug, PartialEq, Eq, Structural)]
pub enum Animation {
    JumpRGB,
    JumpRGBYCMW,
    CrossfadeRGB,
    CrossfadeRGBYCMW,
    BlinkRGBYCMW,
}

/// The effect code of each preset animation.
pub open spec fn spec_animation_code(a: Animation) -> u8 {
    match a {
        Animation::JumpRGB => 0x87u8,
        Animation::JumpRGBYCMW => 0x88u8,
        Animation::CrossfadeRGB => 0x89u8,
        Animation::CrossfadeRGBYCMW => 0x8au8,
        Animation::BlinkRGBYCMW => 0x95u8,
    }
}

impl Animation {
    /// The preset's effect code, as handed to `set_custom_effect`.
    pub fn get_code(&self) -> (code: u8)
        ensures
            code == spec_animation_code(*self),
    {
        match self {
            Animation::JumpRGB => 0x87,
            Animation::JumpRGBYCMW => 0x88,
            Animation::CrossfadeRGB => 0x89,
            Animation::CrossfadeRGBYCMW => 0x8a,
            Animation::BlinkRGBYCMW => 0x95,
        }
    }
}

} // verus!
