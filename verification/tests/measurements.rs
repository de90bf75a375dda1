use gpui_bar::color::{battery_colors, rgba_alpha, usage_colors, Rgba, TAG_COLORS};
use gpui_bar::devices::{clamp_percent, lowered_volume, Gauge};
use gpui_bar::icons::{
    monitor_num_to_icon, volume_icon, ICON_M0, ICON_M1, ICON_VOL_HIGH, ICON_VOL_LOW, ICON_VOL_MID,
    ICON_VOL_MUTE,
};
use gpui_bar::reading::{Reading, BITS_20, BITS_30, BITS_50, BITS_60, BITS_80};

const GREEN: u32 = 0x1FBF51;
const YELLOW: u32 = 0xF4C20D;
const ORANGE: u32 = 0xFF8C1A;
const RED: u32 = 0xE53935;

fn reading(value: f32) -> Reading {
    Reading { bits: value.to_bits() }
}

fn usage_fill(value: f32) -> Rgba {
    usage_colors(reading(value)).0
}

fn battery_fill(value: f32) -> Rgba {
    battery_colors(reading(value)).0
}

#[test]
fn limit_patterns_are_the_limits() {
    assert_eq!(BITS_20, 20.0f32.to_bits());
    assert_eq!(BITS_30, 30.0f32.to_bits());
    assert_eq!(BITS_50, 50.0f32.to_bits());
    assert_eq!(BITS_60, 60.0f32.to_bits());
    assert_eq!(BITS_80, 80.0f32.to_bits());
}

#[test]
fn comparison_agrees_with_the_machine() {
    let samples = [
        0.0f32, -0.0, 1.0e-45, 0.5, 19.99, 20.0, 20.01, 29.999, 30.0, 30.001, 49.9, 50.0, 50.1,
        60.0, 60.0001, 80.0, 80.00001, 100.0, 3.0e38, -1.0, -50.0, -3.0e38, f32::INFINITY,
        f32::NEG_INFINITY,
    ];
    for a in samples {
        for limit in [0.0f32, 20.0, 30.0, 50.0, 60.0, 80.0, 100.0] {
            assert_eq!(reading(a).at_most_bits(limit.to_bits()), Some(a <= limit));
        }
    }
    assert_eq!(reading(f32::NAN).at_most_bits(BITS_50), None);
    assert_eq!(reading(-f32::NAN).at_most_bits(BITS_50), None);
}

#[test]
fn usage_colours_by_limit() {
    assert_eq!(usage_fill(0.0), rgba_alpha(GREEN, 90));
    assert_eq!(usage_fill(-4.0), rgba_alpha(GREEN, 90));
    assert_eq!(usage_fill(30.0), rgba_alpha(GREEN, 90));
    assert_eq!(usage_fill(30.000002), rgba_alpha(YELLOW, 90));
    assert_eq!(usage_fill(60.0), rgba_alpha(YELLOW, 90));
    assert_eq!(usage_fill(60.000004), rgba_alpha(ORANGE, 90));
    assert_eq!(usage_fill(80.0), rgba_alpha(ORANGE, 90));
    assert_eq!(usage_fill(80.00001), rgba_alpha(RED, 90));
    assert_eq!(usage_fill(f32::INFINITY), rgba_alpha(RED, 90));
    assert_eq!(usage_fill(f32::NAN), rgba_alpha(RED, 90));
    assert_eq!(usage_colors(reading(45.0)).1, rgba_alpha(0x000000, 100));
    assert_eq!(usage_colors(reading(70.0)).1, rgba_alpha(0xFFFFFF, 100));
}

#[test]
fn battery_colours_by_limit() {
    assert_eq!(battery_fill(100.0), rgba_alpha(GREEN, 90));
    assert_eq!(battery_fill(50.000004), rgba_alpha(GREEN, 90));
    assert_eq!(battery_fill(50.0), rgba_alpha(YELLOW, 90));
    assert_eq!(battery_fill(20.000002), rgba_alpha(YELLOW, 90));
    assert_eq!(battery_fill(20.0), rgba_alpha(RED, 90));
    assert_eq!(battery_fill(-1.0), rgba_alpha(RED, 90));
    assert_eq!(battery_fill(f32::NAN), rgba_alpha(RED, 90));
    assert_eq!(battery_colors(reading(30.0)).1, rgba_alpha(0x000000, 100));
}

#[test]
fn higher_usage_is_never_calmer() {
    let order = [GREEN, YELLOW, ORANGE, RED];
    let mut last = 0;
    for value in [0.0f32, 10.0, 30.0, 31.0, 60.0, 61.0, 80.0, 81.0, 200.0] {
        let place = order.iter().position(|c| rgba_alpha(*c, 90) == usage_fill(value)).unwrap();
        assert!(place >= last);
        last = place;
    }
    assert_eq!(last, 3);
}

#[test]
fn higher_charge_is_never_more_alarming() {
    let order = [RED, YELLOW, GREEN];
    let mut last = 0;
    for value in [0.0f32, 10.0, 20.0, 21.0, 50.0, 51.0, 100.0] {
        let place = order.iter().position(|c| rgba_alpha(*c, 90) == battery_fill(value)).unwrap();
        assert!(place >= last);
        last = place;
    }
    assert_eq!(last, 2);
}

#[test]
fn channels_of_a_colour() {
    assert_eq!(rgba_alpha(0x4ECDC4, 70), Rgba { r: 0x4E, g: 0xCD, b: 0xC4, alpha: 70 });
    assert_eq!(rgba_alpha(0xFF123456, 100), Rgba { r: 0x12, g: 0x34, b: 0x56, alpha: 100 });
    for hex in TAG_COLORS {
        let c = rgba_alpha(hex, 100);
        assert_eq!((c.r as u32) * 0x10000 + (c.g as u32) * 0x100 + c.b as u32, hex);
    }
}

#[test]
fn opacity_in_percent_is_exact() {
    for (percent, alpha) in [(90u8, 0.9f32), (85, 0.85), (92, 0.92), (88, 0.88), (95, 0.95), (70, 0.7)] {
        assert_eq!(percent as f32 / 100.0, alpha);
    }
}

#[test]
fn speaker_glyphs() {
    assert_eq!(volume_icon(50, false, false), ICON_VOL_MUTE);
    assert_eq!(volume_icon(50, true, true), ICON_VOL_MUTE);
    assert_eq!(volume_icon(0, false, true), ICON_VOL_MUTE);
    assert_eq!(volume_icon(-3, false, true), ICON_VOL_MUTE);
    assert_eq!(volume_icon(1, false, true), ICON_VOL_LOW);
    assert_eq!(volume_icon(33, false, true), ICON_VOL_LOW);
    assert_eq!(volume_icon(34, false, true), ICON_VOL_MID);
    assert_eq!(volume_icon(66, false, true), ICON_VOL_MID);
    assert_eq!(volume_icon(67, false, true), ICON_VOL_HIGH);
    assert_eq!(volume_icon(100, false, true), ICON_VOL_HIGH);
}

#[test]
fn monitor_names() {
    assert_eq!(monitor_num_to_icon(0), ICON_M0);
    assert_eq!(monitor_num_to_icon(1), ICON_M1);
    assert_eq!(monitor_num_to_icon(2), "M2");
    assert_eq!(monitor_num_to_icon(47), "M47");
    assert_eq!(monitor_num_to_icon(-1), "M-1");
    assert_eq!(monitor_num_to_icon(i32::MIN), "M-2147483648");
}

#[test]
fn volume_limits() {
    assert_eq!(clamp_percent(-5), 0);
    assert_eq!(clamp_percent(0), 0);
    assert_eq!(clamp_percent(55), 55);
    assert_eq!(clamp_percent(100), 100);
    assert_eq!(clamp_percent(140), 100);
    assert_eq!(lowered_volume(50), 45);
    assert_eq!(lowered_volume(3), 0);
    assert_eq!(lowered_volume(150), 100);
    assert_eq!(lowered_volume(i32::MIN + 5), 0);
}

#[test]
fn clicks_lower_to_silence() {
    let mut v = 62;
    for clicks in 1..=12 {
        v = lowered_volume(v);
        assert_eq!(v, 62 - 5 * clicks);
    }
    assert_eq!(lowered_volume(v), 0);
    assert_eq!(lowered_volume(0), 0);
}

#[test]
fn zero_gauge_is_the_text_of_zero() {
    let zero = Gauge::zero();
    assert_eq!(zero.value.bits, 0.0f32.to_bits());
    assert_eq!(zero.text, format!("{:.0}", 0.0f32));
}
