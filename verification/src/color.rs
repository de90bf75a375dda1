//! Colours of the bar and the rules that choose them from a measurement.
use crate::reading::{
    Reading, BITS_20, BITS_30, BITS_50, BITS_60, BITS_80,
};
use vstd::arithmetic::power2::*;
use vstd::prelude::*;

verus! {

/// The colours of the workspace tags, as `0xRRGGBB`.
pub const TAG_COLORS: [u32; 9] = [
    0xFF6B6B,
    0x4ECDC4,
    0x45B7D1,
    0x96CEB4,
    0xFECA57,
    0xFF9FF3,
    0x54A0FF,
    0x5F27CD,
    0x00D2D3,
];

/// A colour by its channels, with its opacity in percent.
#[derive(Clone, Copy, Debug, PartialEq, Eq, Structural)]
pub struct Rgba {
    pub r: u8,
    pub g: u8,
    pub b: u8,
    /// Opacity in percent: 100 covers what lies below.
    pub alpha: u8,
}

/// The colour `0xRRGGBB` at an opacity: bits above the red channel are dropped.
pub open spec fn rgba(hex: u32, alpha: u8) -> Rgba {
    Rgba {
        r: ((hex as int / 0x1_0000) % 0x100) as u8,
        g: ((hex as int / 0x100) % 0x100) as u8,
        b: (hex as int % 0x100) as u8,
        alpha,
    }
}

/// Splits `0xRRGGBB` into channels, at an opacity in percent.
pub fn rgba_alpha(hex: u32, alpha: u8) -> (color: Rgba)
    ensures
        color == rgba(hex, alpha),
{
    proof {
        assert((hex >> 16) & 0xFF == (hex / 0x1_0000) % 0x100) by (bit_vector);
        assert((hex >> 8) & 0xFF == (hex / 0x100) % 0x100) by (bit_vector);
        assert(hex & 0xFF == hex % 0x100) by (bit_vector);
    }
    let r: u32 = (hex >> 16) & 0xFF;
    let g: u32 = (hex >> 8) & 0xFF;
    let b: u32 = hex & 0xFF;
    Rgba { r: r as u8, g: g as u8, b: b as u8, alpha }
}

/// Background and text colour of a usage: green up to 30 percent, yellow up to
/// 60, orange up to 80, red above and where there is no number.
pub open spec fn usage_palette(u: Reading) -> (Rgba, Rgba) {
    if u.at_most(30) {
        (rgba(0x1FBF51, 90), rgba(0xFFFFFF, 100))
    } else if u.at_most(60) {
        (rgba(0xF4C20D, 90), rgba(0x000000, 100))
    } else if u.at_most(80) {
        (rgba(0xFF8C1A, 90), rgba(0xFFFFFF, 100))
    } else {
        (rgba(0xE53935, 90), rgba(0xFFFFFF, 100))
    }
}

/// Background and text colour of a charge: green above 50 percent, yellow above
/// 20, red below and where there is no number.
pub open spec fn battery_palette(pct: Reading) -> (Rgba, Rgba) {
    if pct.above(50) {
        (rgba(0x1FBF51, 90), rgba(0xFFFFFF, 100))
    } else if pct.above(20) {
        (rgba(0xF4C20D, 90), rgba(0x000000, 100))
    } else {
        (rgba(0xE53935, 90), rgba(0xFFFFFF, 100))
    }
}

/// Chooses background and text colour for a usage.
pub fn usage_colors(u: Reading) -> (colors: (Rgba, Rgba))
    ensures
        colors == usage_palette(u),
{
    proof {
        crate::reading::lemma_limit_bits();
    }
    if let Some(true) = u.at_most_bits(BITS_30) {
        (rgba_alpha(0x1FBF51, 90), rgba_alpha(0xFFFFFF, 100))
    } else if let Some(true) = u.at_most_bits(BITS_60) {
        (rgba_alpha(0xF4C20D, 90), rgba_alpha(0x000000, 100))
    } else if let Some(true) = u.at_most_bits(BITS_80) {
        (rgba_alpha(0xFF8C1A, 90), rgba_alpha(0xFFFFFF, 100))
    } else {
        (rgba_alpha(0xE53935, 90), rgba_alpha(0xFFFFFF, 100))
    }
}

/// Chooses background and text colour for a battery charge.
pub fn battery_colors(pct: Reading) -> (colors: (Rgba, Rgba))
    ensures
        colors == battery_palette(pct),
{
    proof {
        crate::reading::lemma_limit_bits();
    }
    if let Some(false) = pct.at_most_bits(BITS_50) {
        (rgba_alpha(0x1FBF51, 90), rgba_alpha(0xFFFFFF, 100))
    } else if let Some(false) = pct.at_most_bits(BITS_20) {
        (rgba_alpha(0xF4C20D, 90), rgba_alpha(0x000000, 100))
    } else {
        (rgba_alpha(0xE53935, 90), rgba_alpha(0xFFFFFF, 100))
    }
}

/// The channels hold the whole of a `0xRRGGBB` colour: put together again they
/// give its twenty-four bits back.
pub proof fn law_channels_recompose(hex: u32, alpha: u8)
    ensures
        rgba(hex, alpha).r * 0x1_0000 + rgba(hex, alpha).g * 0x100 + rgba(hex, alpha).b
            == hex as int % 0x100_0000,
        rgba(hex, alpha).alpha == alpha,
{
}

/// How alarming a usage colour is: green 0, yellow 1, orange 2, red 3.
pub open spec fn usage_alarm(u: Reading) -> nat {
    if usage_palette(u).0 == rgba(0x1FBF51, 90) {
        0
    } else if usage_palette(u).0 == rgba(0xF4C20D, 90) {
        1
    } else if usage_palette(u).0 == rgba(0xFF8C1A, 90) {
        2
    } else {
        3
    }
}

/// How alarming a battery colour is: green 0, yellow 1, red 3.
pub open spec fn battery_alarm(pct: Reading) -> nat {
    if battery_palette(pct).0 == rgba(0x1FBF51, 90) {
        0
    } else if battery_palette(pct).0 == rgba(0xF4C20D, 90) {
        1
    } else {
        3
    }
}

/// A higher usage never gets a calmer colour.
pub proof fn law_usage_alarm_grows(a: Reading, b: Reading)
    requires
        !a.is_nan(),
        !b.is_nan(),
        a.scaled() <= b.scaled(),
    ensures
        usage_alarm(a) <= usage_alarm(b),
{
    lemma_limits_ordered();
}

/// A higher charge never gets a more alarming colour.
pub proof fn law_battery_alarm_falls(a: Reading, b: Reading)
    requires
        !a.is_nan(),
        !b.is_nan(),
        a.scaled() <= b.scaled(),
    ensures
        battery_alarm(b) <= battery_alarm(a),
{
    lemma_limits_ordered();
}

/// The limits keep their order when scaled.
proof fn lemma_limits_ordered()
    ensures
        0 < 20 * pow2(crate::reading::unit_exponent()) < 30 * pow2(
            crate::reading::unit_exponent(),
        ) < 50 * pow2(crate::reading::unit_exponent()) < 60 * pow2(
            crate::reading::unit_exponent(),
        ) < 80 * pow2(crate::reading::unit_exponent()),
{
    lemma_pow2_pos(crate::reading::unit_exponent());
}

/// A usage up to 30 percent is green with white text, up to 60 yellow with black text, up
/// to 80 orange with white text, and a higher one or none at all red with white text.
pub proof fn law_usage_colours(u: Reading)
    ensures
        ({
            let (bg, fg) = usage_palette(u);
            let unit = pow2(149);
            let number = !u.is_nan();
            &&& number && u.scaled() <= 30 * unit ==> bg == rgba(0x1FBF51, 90) && fg == rgba(
                0xFFFFFF,
                100,
            )
            &&& number && 30 * unit < u.scaled() <= 60 * unit ==> bg == rgba(0xF4C20D, 90) && fg
                == rgba(0x000000, 100)
            &&& number && 60 * unit < u.scaled() <= 80 * unit ==> bg == rgba(0xFF8C1A, 90) && fg
                == rgba(0xFFFFFF, 100)
            &&& number && u.scaled() > 80 * unit ==> bg == rgba(0xE53935, 90) && fg == rgba(
                0xFFFFFF,
                100,
            )
            &&& !number ==> bg == rgba(0xE53935, 90) && fg == rgba(0xFFFFFF, 100)
        }),
{
    lemma_limits_ordered();
}

/// A charge above 50 percent is green with white text, above 20 yellow with black text,
/// and a lower one or none at all red with white text.
pub proof fn law_battery_colours(pct: Reading)
    ensures
        ({
            let (bg, fg) = battery_palette(pct);
            let unit = pow2(149);
            let number = !pct.is_nan();
            &&& number && pct.scaled() > 50 * unit ==> bg == rgba(0x1FBF51, 90) && fg == rgba(
                0xFFFFFF,
                100,
            )
            &&& number && 20 * unit < pct.scaled() <= 50 * unit ==> bg == rgba(0xF4C20D, 90) && fg
                == rgba(0x000000, 100)
            &&& number && pct.scaled() <= 20 * unit ==> bg == rgba(0xE53935, 90) && fg == rgba(
                0xFFFFFF,
                100,
            )
            &&& !number ==> bg == rgba(0xE53935, 90) && fg == rgba(0xFFFFFF, 100)
        }),
{
    lemma_limits_ordered();
}

} // verus!
