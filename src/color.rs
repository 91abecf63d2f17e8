//! Decoding of the packed legacy color integer into an HSL color whose
//! lightness is lifted into the upper half of the scale.
//!
//! The HSL color is given in exact fractions; turning it into RGB floats is
//! left to the caller's color library.
use vstd::prelude::*;

verus! {

/// Hue numerators are fractions of a full turn times this.
pub const HUE_DEN: u32 = 255;

/// Saturation numerators are the saturation times this.
pub const SATURATION_DEN: u32 = 255;

/// Lightness numerators are the lightness times this.
pub const LIGHTNESS_DEN: u32 = 510;

/// The four 8-bit channels of a packed color, from the high byte down.
#[derive(Clone, Copy, Debug, PartialEq, Eq, Structural)]
pub struct Channels {
    pub alpha: u8,
    pub hue: u8,
    pub saturation: u8,
    pub lightness: u8,
}

/// An HSL color as exact fractions: the hue is `hue_num / HUE_DEN` of a full
/// turn (times 360 for degrees), the saturation `saturation_num / SATURATION_DEN` and
/// the lightness `lightness_num / LIGHTNESS_DEN`.
#[derive(Clone, Copy, Debug, PartialEq, Eq, Structural)]
pub struct HslFractions {
    pub hue_num: u32,
    pub saturation_num: u32,
    pub lightness_num: u32,
}

/// The color a body part is drawn with.
#[derive(Clone, Copy, Debug, PartialEq, Eq, Structural)]
pub enum SkinColor {
    /// The skin's own colors.
    Original,
    /// The skin tinted with this color, fully opaque.
    Colorable(HslFractions),
}

/// The byte of `packed` that starts at bit `shift`.
pub open spec fn byte_at(packed: i32, shift: u32) -> u8 {
    (((#[verifier::truncate] (packed as u32)) >> shift) & 0xffu32) as u8
}

pub open spec fn channels_spec(packed: i32) -> Channels {
    Channels {
        alpha: byte_at(packed, 24),
        hue: byte_at(packed, 16),
        saturation: byte_at(packed, 8),
        lightness: byte_at(packed, 0),
    }
}

/// Hue byte `h` stands for `h / 255` of a turn, taken modulo a full turn so
/// that the degrees lie in `[0, 360)`: the top byte value is a full turn,
/// which is `0`.
pub open spec fn hue_num_spec(h: u8) -> u32 {
    (h as int % HUE_DEN as int) as u32
}

/// Lightness byte `l` stands for `l / 255`; the floor maps it to
/// `1/2 + (l / 255) / 2`, which is `(255 + l) / 510`.
pub open spec fn floored_lightness_num_spec(l: u8) -> u32 {
    (255 + l as int) as u32
}

pub open spec fn hsl_of(c: Channels) -> HslFractions {
    HslFractions {
        hue_num: hue_num_spec(c.hue),
        saturation_num: c.saturation as u32,
        lightness_num: floored_lightness_num_spec(c.lightness),
    }
}

/// What a body part is drawn with: the skin's own colors unless custom colors
/// are on, else the packed color decoded (the alpha byte is dropped).
pub open spec fn recolor_spec(custom: bool, packed: i32) -> SkinColor {
    if custom {
        SkinColor::Colorable(hsl_of(channels_spec(packed)))
    } else {
        SkinColor::Original
    }
}

/// Splits a packed color into its four bytes.
pub fn channels(packed: i32) -> (r: Channels)
    ensures
        r == channels_spec(packed),
{
    let u = #[verifier::truncate] (packed as u32);
    assert((u & 0xffu32) == ((u >> 0u32) & 0xffu32)) by (bit_vector);
    Channels {
        alpha: ((u >> 24u32) & 0xffu32) as u8,
        hue: ((u >> 16u32) & 0xffu32) as u8,
        saturation: ((u >> 8u32) & 0xffu32) as u8,
        lightness: (u & 0xffu32) as u8,
    }
}

/// The HSL color that a set of channels stands for, with the lightness floor
/// applied.
pub fn floored_hsl(c: Channels) -> (r: HslFractions)
    ensures
        r == hsl_of(c),
{
    HslFractions {
        hue_num: c.hue as u32 % HUE_DEN,
        saturation_num: c.saturation as u32,
        lightness_num: 255 + c.lightness as u32,
    }
}

/// The color that a body part is drawn with.
pub fn recolor(custom: bool, packed: i32) -> (r: SkinColor)
    ensures
        r == recolor_spec(custom, packed),
{
    if custom {
        SkinColor::Colorable(floored_hsl(channels(packed)))
    } else {
        SkinColor::Original
    }
}

/// Recoloring depends on its inputs alone: the same inputs give the same color.
pub proof fn lemma_recolor_deterministic(custom: bool, a: i32, b: i32)
    requires
        a == b,
    ensures
        recolor_spec(custom, a) == recolor_spec(custom, b),
{
}

/// A recolored part is never darker than half lightness, never lighter than
/// full lightness, and its hue lies within a turn: `[0, 360)` degrees.
pub proof fn lemma_recolor_lightness_floor(packed: i32)
    ensures
        recolor_spec(true, packed) matches SkinColor::Colorable(c) && 2 * c.lightness_num
            >= LIGHTNESS_DEN && c.lightness_num <= LIGHTNESS_DEN && c.hue_num < HUE_DEN
            && c.saturation_num <= SATURATION_DEN,
{
}

} // verus!
