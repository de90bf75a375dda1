//! What the bar looks like, for every state and every measurement.
use crate::color::{rgba, Rgba};
use crate::devices::{AudioModel, SnapshotModel};
use crate::state::{BarModel, Button, Click, MonitorModel};
use crate::view::{
    shown, BarView, BarViewModel, Frame, Hover, Widget, BAR_PADDING, LAYOUT_COUNT,
    PILL_GAP, TAG_GAP, WINDOW_HEIGHT, WINDOW_WIDTH,
};
use vstd::prelude::*;

verus! {

/// After a message of the window manager each of the nine buttons shows what the message
/// says of its own tag: red for an urgent tag, else the tag's colour in full for a filled
/// one, else most of it for a selected one, else a touch of it for an occupied one, else
/// white; and white text on the first three, unless the tag is the bright fifth. A tag that
/// the message does not speak of looks empty, and what was shown before does not matter.
pub proof fn law_tags_follow_the_message(
    s: BarModel,
    m: MonitorModel,
    snapshot: SnapshotModel,
    brightness: Option<i64>,
    master: Option<AudioModel>,
    index: int,
)
    requires
        0 <= index < 9,
    ensures
        ({
            let tags = shown(
                crate::state::shared_applied(s, m),
                snapshot,
                brightness,
                master,
            ).tags;
            let colors: Seq<u32> = seq![
                0xFF6B6B,
                0x4ECDC4,
                0x45B7D1,
                0x96CEB4,
                0xFECA57,
                0xFF9FF3,
                0x54A0FF,
                0x5F27CD,
                0x00D2D3,
            ];
            let c = colors[index];
            let w = tags[index];
            let dark = rgba(0x333333, 100);
            let text = if index == 4 {
                dark
            } else {
                rgba(0xFFFFFF, 100)
            };
            let told = index < m.tags.len();
            let t = m.tags[index];
            &&& tags.len() == 9
            &&& (w.bg, w.border_color, w.fg) == (if told && t.is_urg {
                (rgba(0xDB3645, 100), rgba(0xBC2130, 100), text)
            } else if told && t.is_filled {
                (rgba(c, 100), rgba(c, 100), text)
            } else if told && t.is_selected {
                (rgba(c, 70), rgba(c, 100), text)
            } else if told && t.is_occ {
                (rgba(c, 30), rgba(c, 60), dark)
            } else {
                (rgba(0xFFFFFF, 90), rgba(0xDEE2E6, 100), dark)
            })
        }),
{
}

/// Each button shows what the bar last heard of its own tag, in the tag's own colour, and
/// looks empty where it heard nothing.
pub proof fn law_tags_show_what_is_known(
    s: BarModel,
    snapshot: SnapshotModel,
    brightness: Option<i64>,
    master: Option<AudioModel>,
    index: int,
)
    requires
        0 <= index < 9,
    ensures
        ({
            let w = shown(s, snapshot, brightness, master).tags[index];
            let colors: Seq<u32> = seq![
                0xFF6B6B,
                0x4ECDC4,
                0x45B7D1,
                0x96CEB4,
                0xFECA57,
                0xFF9FF3,
                0x54A0FF,
                0x5F27CD,
                0x00D2D3,
            ];
            let c = colors[index];
            let dark = rgba(0x333333, 100);
            let text = if index == 4 {
                dark
            } else {
                rgba(0xFFFFFF, 100)
            };
            let known = s.monitor is Some && index < s.monitor.unwrap().tags.len();
            let t = s.monitor.unwrap().tags[index];
            (w.bg, w.border_color, w.fg) == (if known && t.is_urg {
                (rgba(0xDB3645, 100), rgba(0xBC2130, 100), text)
            } else if known && t.is_filled {
                (rgba(c, 100), rgba(c, 100), text)
            } else if known && t.is_selected {
                (rgba(c, 70), rgba(c, 100), text)
            } else if known && t.is_occ {
                (rgba(c, 30), rgba(c, 60), dark)
            } else {
                (rgba(0xFFFFFF, 90), rgba(0xDEE2E6, 100), dark)
            })
        }),
{
}

/// Each tag button bears its own name and glyph and has the measures of a button.
pub proof fn law_tag_buttons(
    s: BarModel,
    snapshot: SnapshotModel,
    brightness: Option<i64>,
    master: Option<AudioModel>,
    index: int,
)
    requires
        0 <= index < 9,
    ensures
        ({
            let w = shown(s, snapshot, brightness, master).tags[index];
            let glyphs = seq![
                '\u{F0A1E}',
                '\u{F0239}',
                '\u{F0A1B}',
                '\u{F0B79}',
                '\u{F024B}',
                '\u{F0388}',
                '\u{F0567}',
                '\u{F01F0}',
                '\u{F0297}',
            ];
            &&& w.id == seq!['t', 'a', 'g', '-'] + crate::text::decimal_nat(index as nat)
            &&& w.label == seq![glyphs[index]]
            &&& w.frame == (Frame {
                width: Some(38),
                height: 32,
                pad_x: 0,
                pad_y: 0,
                radius: 6,
                border: 2,
                text_size: 18,
            })
            &&& w.hover == (Hover::Faded { opacity: 85 })
            &&& w.on_left == Some(Click::Tag { index: index as usize })
            &&& w.on_right is None
        }),
{
    reveal_strlit("tag-");
    assert("tag-"@ =~= seq!['t', 'a', 'g', '-']);
    crate::icons::law_tag_glyphs(index);
}

/// Every pill looks as it is asked to and has the measures of a pill.
pub proof fn law_any_pill(
    id: Seq<char>,
    bg: Rgba,
    border_color: Rgba,
    fg: Rgba,
    label: Seq<char>,
)
    ensures
        ({
            let w = crate::view::pill(id, bg, border_color, fg, label);
            &&& w.id == id && w.label == label
            &&& (w.bg, w.border_color, w.fg) == (bg, border_color, fg)
            &&& w.frame == (Frame {
                width: None,
                height: 26,
                pad_x: 10,
                pad_y: 3,
                radius: 12,
                border: 1,
                text_size: 14,
            })
            &&& w.hover == Hover::Same
            &&& w.on_left is None && w.on_right is None
        }),
{
}

/// A usage pill bears its glyph and the measured number, in the colours of the usage.
pub proof fn law_any_usage_pill(
    id: Seq<char>,
    icon: Seq<char>,
    gauge: crate::devices::GaugeModel,
)
    ensures
        ({
            let w = crate::view::usage_pill(id, icon, gauge);
            let (bg, fg) = crate::color::usage_palette(gauge.value);
            &&& w.id == id
            &&& w.label == icon + seq![' ', ' '] + gauge.text + seq!['%']
            &&& (w.bg, w.border_color, w.fg) == (bg, bg, fg)
            &&& w.frame == (Frame {
                width: None,
                height: 26,
                pad_x: 10,
                pad_y: 3,
                radius: 12,
                border: 1,
                text_size: 14,
            })
            &&& w.hover == Hover::Same
            &&& w.on_left is None && w.on_right is None
        }),
{
    lemma_marks();
    assert(icon + "  "@ + (gauge.text + "%"@) =~= icon + seq![' ', ' '] + gauge.text + seq!['%']);
}

/// The marks in labels.
proof fn lemma_marks()
    ensures
        "  "@ == seq![' ', ' '],
        "%"@ == seq!['%'],
        "--"@ == seq!['-', '-'],
{
    reveal_strlit("  ");
    reveal_strlit("%");
    reveal_strlit("--");
    assert("  "@ =~= seq![' ', ' ']);
    assert("%"@ =~= seq!['%']);
    assert("--"@ =~= seq!['-', '-']);
}

/// The first three pills show the processor, the memory and the battery, each with its
/// glyph, its own number and the colours of its own value; the battery's glyph tells
/// whether it charges.
pub proof fn law_measurement_pills(
    s: BarModel,
    snapshot: SnapshotModel,
    brightness: Option<i64>,
    master: Option<AudioModel>,
)
    ensures
        ({
            let pills = shown(s, snapshot, brightness, master).right_pills;
            let (cpu_bg, cpu_fg) = crate::color::usage_palette(snapshot.cpu_average.value);
            let (mem_bg, mem_fg) = crate::color::usage_palette(snapshot.memory_usage_percent.value);
            let (bat_bg, bat_fg) = crate::color::battery_palette(snapshot.battery_percent.value);
            let gap = seq![' ', ' '];
            &&& pills.len() == 9
            &&& pills[0].id == "cpu"@
            &&& pills[0].label == seq!['\u{F4BC}'] + gap + snapshot.cpu_average.text + seq!['%']
            &&& (pills[0].bg, pills[0].border_color, pills[0].fg) == (cpu_bg, cpu_bg, cpu_fg)
            &&& pills[1].id == "mem"@
            &&& pills[1].label == seq!['\u{F035B}'] + gap + snapshot.memory_usage_percent.text
                + seq!['%']
            &&& (pills[1].bg, pills[1].border_color, pills[1].fg) == (mem_bg, mem_bg, mem_fg)
            &&& pills[2].id == "battery"@
            &&& snapshot.is_charging ==> pills[2].label == seq!['\u{F0084}'] + gap
                + snapshot.battery_percent.text + seq!['%']
            &&& !snapshot.is_charging ==> pills[2].label == seq!['\u{F0079}'] + gap
                + snapshot.battery_percent.text + seq!['%']
            &&& (pills[2].bg, pills[2].border_color, pills[2].fg) == (bat_bg, bat_bg, bat_fg)
            &&& forall|i: int|
                0 <= i < 3 ==> {
                    &&& (#[trigger] pills[i]).frame == (Frame {
                        width: None,
                        height: 26,
                        pad_x: 10,
                        pad_y: 3,
                        radius: 12,
                        border: 1,
                        text_size: 14,
                    })
                    &&& pills[i].hover == Hover::Same
                    &&& pills[i].on_left is None && pills[i].on_right is None
                }
        }),
{
    lemma_marks();
    crate::icons::law_glyphs();
    law_any_usage_pill("cpu"@, seq!['\u{F4BC}'], snapshot.cpu_average);
    law_any_usage_pill("mem"@, seq!['\u{F035B}'], snapshot.memory_usage_percent);
    let text = snapshot.battery_percent.text;
    assert(seq!['\u{F0084}'] + "  "@ + (text + "%"@) =~= seq!['\u{F0084}'] + seq![' ', ' '] + text
        + seq!['%']);
    assert(seq!['\u{F0079}'] + "  "@ + (text + "%"@) =~= seq!['\u{F0079}'] + seq![' ', ' '] + text
        + seq!['%']);
}

/// The fourth pill shows the brightness as it is, or dashes where it is not known, and
/// offers a click of either button.
pub proof fn law_brightness_is_shown(
    s: BarModel,
    snapshot: SnapshotModel,
    brightness: Option<i64>,
    master: Option<AudioModel>,
)
    ensures
        ({
            let w = shown(s, snapshot, brightness, master).right_pills[3];
            let head = seq!['\u{F00DE}', ' ', ' '];
            &&& w.id == "brightness"@
            &&& brightness matches Some(p) ==> w.label == head + crate::text::decimal_int(p as int)
                + seq!['%']
            &&& brightness is None ==> w.label == head + seq!['-', '-']
            &&& (w.bg, w.border_color, w.fg) == (
                rgba(0xFDE047, 92),
                rgba(0xFACC15, 100),
                rgba(0x1F2937, 100),
            )
            &&& w.frame == (Frame {
                width: None,
                height: 26,
                pad_x: 10,
                pad_y: 3,
                radius: 12,
                border: 1,
                text_size: 14,
            })
            &&& w.hover == Hover::Same
            &&& w.on_left == Some(Click::Brightness { button: Button::Left })
            &&& w.on_right == Some(Click::Brightness { button: Button::Right })
        }),
{
    lemma_marks();
    crate::icons::law_glyphs();
    let w = shown(s, snapshot, brightness, master).right_pills[3];
    let head = seq!['\u{F00DE}', ' ', ' '];
    match brightness {
        Some(p) => {
            assert(w.label =~= head + crate::text::decimal_int(p as int) + seq!['%']);
        },
        None => {
            assert(w.label =~= head + seq!['-', '-']);
        },
    }
}

/// The fifth pill shows the volume of the device, brought into 0 to 100, with the speaker
/// of that volume; it is teal where the device is heard and grey where it is muted. Without
/// a device it is grey and silent, with dashes. It offers a click of either button.
pub proof fn law_volume_is_shown(
    s: BarModel,
    snapshot: SnapshotModel,
    brightness: Option<i64>,
    master: Option<AudioModel>,
)
    ensures
        ({
            let w = shown(s, snapshot, brightness, master).right_pills[4];
            let gap = seq![' ', ' '];
            &&& w.id == "volume"@
            &&& master matches Some(d) ==> {
                let v = crate::devices::clamped(d.volume);
                let glyph = if d.is_muted || v <= 0 {
                    '\u{F075F}'
                } else if v < 34 {
                    '\u{F057F}'
                } else if v < 67 {
                    '\u{F0580}'
                } else {
                    '\u{F057E}'
                };
                &&& w.label == seq![glyph] + gap + crate::text::decimal_int(v) + seq!['%']
                &&& d.is_muted ==> (w.bg, w.border_color, w.fg) == (
                    rgba(0x787878, 85),
                    rgba(0x888888, 100),
                    rgba(0xEEEEEE, 100),
                )
                &&& !d.is_muted ==> (w.bg, w.border_color, w.fg) == (
                    rgba(0x14B8A6, 90),
                    rgba(0x14B8A6, 100),
                    rgba(0xFFFFFF, 100),
                )
            }
            &&& master is None ==> {
                &&& w.label == seq!['\u{F075F}'] + gap + seq!['-', '-']
                &&& (w.bg, w.border_color, w.fg) == (
                    rgba(0x787878, 85),
                    rgba(0x888888, 100),
                    rgba(0xEEEEEE, 100),
                )
            }
            &&& w.frame == (Frame {
                width: None,
                height: 26,
                pad_x: 10,
                pad_y: 3,
                radius: 12,
                border: 1,
                text_size: 14,
            })
            &&& w.hover == Hover::Same
            &&& w.on_left == Some(Click::Volume { button: Button::Left })
            &&& w.on_right == Some(Click::Volume { button: Button::Right })
        }),
{
    lemma_marks();
    let w = shown(s, snapshot, brightness, master).right_pills[4];
    match master {
        Some(d) => {
            let v = crate::devices::clamped(d.volume);
            let icon = crate::icons::speaker(crate::icons::loudness(v, d.is_muted, true))@;
            crate::icons::law_speaker_glyph(v, d.is_muted, true);
            assert(w.label =~= icon + seq![' ', ' '] + crate::text::decimal_int(v) + seq!['%']);
        },
        None => {
            crate::icons::law_speaker_glyph(0, true, false);
        },
    }
}

/// The sixth pill offers a screenshot and turns orange under the pointer.
pub proof fn law_screenshot_is_offered(
    s: BarModel,
    snapshot: SnapshotModel,
    brightness: Option<i64>,
    master: Option<AudioModel>,
)
    ensures
        ({
            let w = shown(s, snapshot, brightness, master).right_pills[5];
            &&& w.id == "screenshot"@
            &&& w.label == seq!['\u{F0104}']
            &&& (w.bg, w.border_color, w.fg) == (
                rgba(0x00CCCC, 90),
                rgba(0x00CCCC, 90),
                rgba(0xFFFFFF, 100),
            )
            &&& w.frame == (Frame {
                width: None,
                height: 26,
                pad_x: 10,
                pad_y: 3,
                radius: 12,
                border: 1,
                text_size: 15,
            })
            &&& w.hover == (Hover::Filled { color: rgba(0xFF8800, 95) })
            &&& w.on_left == Some(Click::Screenshot)
            &&& w.on_right is None
        }),
{
    crate::icons::law_glyphs();
}

/// The last three pills show the clock's text, the monitor's name and the scale; only the
/// clock offers a click.
pub proof fn law_last_pills(
    s: BarModel,
    snapshot: SnapshotModel,
    brightness: Option<i64>,
    master: Option<AudioModel>,
)
    ensures
        ({
            let pills = shown(s, snapshot, brightness, master).right_pills;
            let white = rgba(0xFFFFFF, 100);
            &&& pills[6].id == "time"@
            &&& pills[6].label == seq!['\u{F0954}', ' ', ' '] + s.formated_now
            &&& (pills[6].bg, pills[6].border_color, pills[6].fg) == (
                rgba(0x4DA3FF, 90),
                rgba(0x4DA3FF, 90),
                white,
            )
            &&& pills[6].on_left == Some(Click::Time)
            &&& pills[6].on_right is None
            &&& pills[7].id == "monitor"@
            &&& pills[7].label == seq!['\u{F0379}', ' ', ' '] + crate::icons::monitor_name(
                s.monitor_num as int,
            )
            &&& (pills[7].bg, pills[7].border_color, pills[7].fg) == (
                rgba(0x9B59B6, 90),
                rgba(0x9B59B6, 90),
                white,
            )
            &&& pills[7].on_left is None && pills[7].on_right is None
            &&& pills[8].id == "scale"@
            &&& pills[8].label == "s: 1.00"@
            &&& (pills[8].bg, pills[8].border_color, pills[8].fg) == (
                rgba(0x787878, 88),
                rgba(0x787878, 88),
                white,
            )
            &&& pills[8].on_left is None && pills[8].on_right is None
            &&& forall|i: int|
                6 <= i < 9 ==> (#[trigger] pills[i]).frame == (Frame {
                    width: None,
                    height: 26,
                    pad_x: 10,
                    pad_y: 3,
                    radius: 12,
                    border: 1,
                    text_size: 14,
                }) && pills[i].hover == Hover::Same
        }),
{
    lemma_marks();
    crate::icons::law_glyphs();
    let pills = shown(s, snapshot, brightness, master).right_pills;
    assert(pills[6].label =~= seq!['\u{F0954}', ' ', ' '] + s.formated_now);
    assert(pills[7].label =~= seq!['\u{F0379}', ' ', ' '] + crate::icons::monitor_name(
        s.monitor_num as int,
    ));
}

/// The layout button bears the symbol that the window manager gave, green while the
/// selector is open and orange while it is closed, and offers to open or close it.
pub proof fn law_layout_button(
    s: BarModel,
    snapshot: SnapshotModel,
    brightness: Option<i64>,
    master: Option<AudioModel>,
)
    ensures
        ({
            let v = shown(s, snapshot, brightness, master);
            let w = v.layout_button;
            let white = rgba(0xFFFFFF, 100);
            &&& w.id == "layout-toggle"@
            &&& w.label == s.layout_symbol
            &&& s.layout_selector_open ==> (w.bg, w.border_color, w.fg) == (
                rgba(0x3CB371, 85),
                rgba(0x3CB371, 100),
                white,
            )
            &&& !s.layout_selector_open ==> (w.bg, w.border_color, w.fg) == (
                rgba(0xD35400, 85),
                rgba(0xD35400, 100),
                white,
            )
            &&& w.frame == (Frame {
                width: None,
                height: 26,
                pad_x: 10,
                pad_y: 3,
                radius: 12,
                border: 1,
                text_size: 14,
            })
            &&& w.hover == Hover::Same
            &&& w.on_left == Some(Click::LayoutToggle)
            &&& w.on_right is None
            &&& v.layout_options is Some <==> s.layout_selector_open
        }),
{
}

/// An entry of the selector is green exactly where its own symbol is the one that the
/// window manager gave, and blue elsewhere.
pub proof fn law_layout_entries(s: BarModel, k: int)
    requires
        0 <= k < 3,
    ensures
        ({
            let w = crate::view::layout_options(s)[k];
            let white = rgba(0xFFFFFF, 100);
            &&& crate::view::layout_options(s).len() == 3
            &&& LAYOUT_COUNT == 3
            &&& w.id == "layout-opt-"@ + crate::text::decimal_nat(k as nat)
            &&& w.label == s.layout_symbol ==> (w.bg, w.border_color, w.fg) == (
                rgba(0x3CB371, 85),
                rgba(0x3CB371, 100),
                white,
            )
            &&& w.label != s.layout_symbol ==> (w.bg, w.border_color, w.fg) == (
                rgba(0x4169E1, 85),
                rgba(0x4169E1, 100),
                white,
            )
            &&& w.frame == (Frame {
                width: None,
                height: 26,
                pad_x: 10,
                pad_y: 3,
                radius: 12,
                border: 1,
                text_size: 14,
            })
            &&& w.hover == Hover::Same
        }),
{
}

/// The entries that the bar shows are those of the selector.
pub proof fn law_selector_shows_its_entries(
    s: BarModel,
    snapshot: SnapshotModel,
    brightness: Option<i64>,
    master: Option<AudioModel>,
)
    ensures
        s.layout_selector_open ==> shown(s, snapshot, brightness, master).layout_options == Some(
            crate::view::layout_options(s),
        ),
{
}

/// The models of a widget and of the whole bar leave nothing out and keep the order.
pub proof fn law_view_models(w: Widget, v: BarView, widgets: Seq<Widget>)
    ensures
        w@.id == w.id@ && w@.label == w.label@,
        w@.frame == w.frame && w@.hover == w.hover,
        w@.bg == w.bg && w@.border_color == w.border_color && w@.fg == w.fg,
        w@.on_left == w.on_left && w@.on_right == w.on_right,
        crate::view::row(widgets).len() == widgets.len(),
        forall|i: int|
            0 <= i < widgets.len() ==> #[trigger] crate::view::row(widgets)[i] == widgets[i]@,
        v@ == (BarViewModel {
            tags: crate::view::row(v.tags@),
            layout_button: v.layout_button@,
            layout_options: match v.layout_options {
                Some(options) => Some(crate::view::row(options@)),
                None => None,
            },
            right_pills: crate::view::row(v.right_pills@),
        }),
{
}

/// The size of the window and the space between its widgets.
pub proof fn law_measures()
    ensures
        WINDOW_WIDTH == 800,
        WINDOW_HEIGHT == 40,
        BAR_PADDING == 4,
        TAG_GAP == 4,
        PILL_GAP == 6,
{
}

/// The bar is made of its parts, each in its place.
pub proof fn law_bar_is_made_of_its_parts(
    s: BarModel,
    snapshot: SnapshotModel,
    brightness: Option<i64>,
    master: Option<AudioModel>,
    index: int,
)
    requires
        0 <= index < 9,
    ensures
        ({
            let v = shown(s, snapshot, brightness, master);
            &&& v.tags[index] == crate::view::tag_widget(s, index)
            &&& v.layout_button == crate::view::layout_button(s)
            &&& v.right_pills[0] == crate::view::usage_pill(
                "cpu"@,
                crate::icons::ICON_CPU@,
                snapshot.cpu_average,
            )
            &&& v.right_pills[1] == crate::view::usage_pill(
                "mem"@,
                crate::icons::ICON_MEM@,
                snapshot.memory_usage_percent,
            )
            &&& v.right_pills[2] == crate::view::battery_pill(
                snapshot.battery_percent,
                snapshot.is_charging,
            )
            &&& v.right_pills[3] == crate::view::brightness_pill(brightness)
            &&& v.right_pills[4] == crate::view::volume_pill(master)
            &&& v.right_pills[5] == crate::view::screenshot_pill()
            &&& v.right_pills[6] == crate::view::time_pill(s)
            &&& v.right_pills[7] == crate::view::monitor_pill(s)
            &&& v.right_pills[8] == crate::view::scale_pill()
        }),
{
}

} // verus!
