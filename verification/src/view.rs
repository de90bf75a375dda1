//! What the bar shows: tag buttons, the layout selector and pills, each with its
//! text, colours and measures. Measures are in pixels.
use crate::color::{battery_colors, rgba_alpha, usage_colors, Rgba, TAG_COLORS};
use crate::devices::{clamp_percent, AudioDevice, Gauge, SystemSnapshot};
use crate::icons::{
    monitor_num_to_icon, volume_icon, ICON_BAT_CHG, ICON_BAT_FULL, ICON_BRIGHT, ICON_CPU, ICON_MEM,
    ICON_MON, ICON_SHOT, ICON_TIME, TAG_COUNT, TAG_ICONS,
};
use crate::state::{Button, Click, GpuiBar, TagStatus};
use crate::text::{joined, decimal_i64, decimal_u64};
use vstd::prelude::*;

verus! {

/// The size of the bar's window.
pub const WINDOW_WIDTH: u32 = 800;

pub const WINDOW_HEIGHT: u32 = 40;

/// The space between the window's edge and its widgets.
pub const BAR_PADDING: u32 = 4;

/// The space between two tag buttons.
pub const TAG_GAP: u32 = 4;

/// The space between two pills, and between the groups on the left.
pub const PILL_GAP: u32 = 6;

/// The measures of a widget.
#[derive(Clone, Copy, Debug, PartialEq, Eq, Structural)]
pub struct Frame {
    /// As wide as its text where there is none.
    pub width: Option<u32>,
    pub height: u32,
    pub pad_x: u32,
    pub pad_y: u32,
    pub radius: u32,
    pub border: u32,
    pub text_size: u32,
}

/// How a widget looks under the pointer.
#[derive(Clone, Copy, Debug, PartialEq, Eq, Structural)]
pub enum Hover {
    Same,
    /// At an opacity in percent.
    Faded { opacity: u8 },
    /// Filled and framed in a colour.
    Filled { color: Rgba },
}

/// A tag button or a pill, with what a click on it means for either mouse button.
#[derive(Debug)]
pub struct Widget {
    pub id: String,
    pub frame: Frame,
    pub bg: Rgba,
    pub border_color: Rgba,
    pub fg: Rgba,
    pub hover: Hover,
    pub label: String,
    pub on_left: Option<Click>,
    pub on_right: Option<Click>,
}

/// What a [`Widget`] holds.
#[verifier::ext_equal]
pub struct WidgetModel {
    pub id: Seq<char>,
    pub frame: Frame,
    pub bg: Rgba,
    pub border_color: Rgba,
    pub fg: Rgba,
    pub hover: Hover,
    pub label: Seq<char>,
    pub on_left: Option<Click>,
    pub on_right: Option<Click>,
}

impl View for Widget {
    type V = WidgetModel;

    open spec fn view(&self) -> WidgetModel {
        WidgetModel {
            id: self.id@,
            frame: self.frame,
            bg: self.bg,
            border_color: self.border_color,
            fg: self.fg,
            hover: self.hover,
            label: self.label@,
            on_left: self.on_left,
            on_right: self.on_right,
        }
    }
}

/// What a row of widgets holds.
pub open spec fn row(widgets: Seq<Widget>) -> Seq<WidgetModel> {
    widgets.map_values(|w: Widget| w@)
}

/// The measures of a tag button.
pub open spec fn tag_frame() -> Frame {
    Frame {
        width: Some(38),
        height: 32,
        pad_x: 0,
        pad_y: 0,
        radius: 6,
        border: 2,
        text_size: 18,
    }
}

/// The measures of a pill.
pub open spec fn pill_frame(text_size: u32) -> Frame {
    Frame { width: None, height: 26, pad_x: 10, pad_y: 3, radius: 12, border: 1, text_size }
}

/// The colour of texts on a strong background.
pub open spec fn white() -> Rgba {
    crate::color::rgba(0xFFFFFF, 100)
}

/// The colour of texts on a pale background.
pub open spec fn dark() -> Rgba {
    crate::color::rgba(0x333333, 100)
}

/// Fill, frame and emphasis of a tag button. Urgency comes before being filled,
/// that before being selected, that before being occupied; a tag of which nothing
/// is known looks like an empty one.
pub open spec fn tag_look(color: u32, status: Option<TagStatus>) -> (Rgba, Rgba, bool) {
    let idle = (crate::color::rgba(0xFFFFFF, 90), crate::color::rgba(0xDEE2E6, 100), false);
    match status {
        None => idle,
        Some(s) => if s.is_urg {
            (crate::color::rgba(0xDB3645, 100), crate::color::rgba(0xBC2130, 100), true)
        } else if s.is_filled {
            (crate::color::rgba(color, 100), crate::color::rgba(color, 100), true)
        } else if s.is_selected {
            (crate::color::rgba(color, 70), crate::color::rgba(color, 100), true)
        } else if s.is_occ {
            (crate::color::rgba(color, 30), crate::color::rgba(color, 60), false)
        } else {
            idle
        },
    }
}

/// What is known of a tag.
pub open spec fn status_of(s: crate::state::BarModel, index: int) -> Option<TagStatus> {
    match s.monitor {
        Some(m) => if 0 <= index < m.tags.len() {
            Some(m.tags[index])
        } else {
            None
        },
        None => None,
    }
}

/// The name of a tag button.
pub open spec fn tag_id(index: nat) -> Seq<char> {
    "tag-"@ + crate::text::decimal_nat(index)
}

/// The button of a tag. Its text is white where the button is emphasised, except
/// on the bright fifth tag.
pub open spec fn tag_widget(s: crate::state::BarModel, index: int) -> WidgetModel {
    let (bg, border_color, is_active) = tag_look(TAG_COLORS@[index], status_of(s, index));
    WidgetModel {
        id: tag_id(index as nat),
        frame: tag_frame(),
        bg,
        border_color,
        fg: if is_active && index != 4 {
            white()
        } else {
            dark()
        },
        hover: Hover::Faded { opacity: 85 },
        label: TAG_ICONS@[index]@,
        on_left: Some(Click::Tag { index: index as usize }),
        on_right: None,
    }
}

/// A pill that takes no clicks.
pub open spec fn pill(
    id: Seq<char>,
    bg: Rgba,
    border_color: Rgba,
    fg: Rgba,
    label: Seq<char>,
) -> WidgetModel {
    WidgetModel {
        id,
        frame: pill_frame(14),
        bg,
        border_color,
        fg,
        hover: Hover::Same,
        label,
        on_left: None,
        on_right: None,
    }
}

/// A glyph and a text, two blanks apart.
pub open spec fn labelled(icon: Seq<char>, text: Seq<char>) -> Seq<char> {
    icon + "  "@ + text
}

/// A glyph and a percentage, two blanks apart.
pub open spec fn percent_label(icon: Seq<char>, number: Seq<char>) -> Seq<char> {
    labelled(icon, number + "%"@)
}

/// Writes a glyph and a text.
fn make_label(icon: &str, text: &str) -> (s: String)
    ensures
        s@ == labelled(icon@, text@),
{
    let mut s = joined(icon, "  ");
    s.append(text);
    s
}

/// Writes a glyph and a percentage.
fn make_percent_label(icon: &str, number: &str) -> (s: String)
    ensures
        s@ == percent_label(icon@, number@),
{
    let percent = joined(number, "%");
    make_label(icon, percent.as_str())
}

impl GpuiBar {
    /// The button of a tag.
    pub fn render_tag(&self, index: usize) -> (w: Widget)
        requires
            index < TAG_COUNT,
        ensures
            w@ == tag_widget(self@, index as int),
    {
        let icon = TAG_ICONS[index];
        let tag_color: u32 = TAG_COLORS[index];
        let status: Option<TagStatus> = match &self.monitor_info_opt {
            Some(monitor) => if index < monitor.tag_status_vec.len() {
                Some(monitor.tag_status_vec[index])
            } else {
                None
            },
            None => None,
        };
        let (bg, border_color, is_active) = match status {
            Some(s) => if s.is_urg {
                (rgba_alpha(0xDB3645, 100), rgba_alpha(0xBC2130, 100), true)
            } else if s.is_filled {
                (rgba_alpha(tag_color, 100), rgba_alpha(tag_color, 100), true)
            } else if s.is_selected {
                (rgba_alpha(tag_color, 70), rgba_alpha(tag_color, 100), true)
            } else if s.is_occ {
                (rgba_alpha(tag_color, 30), rgba_alpha(tag_color, 60), false)
            } else {
                (rgba_alpha(0xFFFFFF, 90), rgba_alpha(0xDEE2E6, 100), false)
            },
            None => (rgba_alpha(0xFFFFFF, 90), rgba_alpha(0xDEE2E6, 100), false),
        };
        let fg = if is_active {
            if index == 4 {
                rgba_alpha(0x333333, 100)
            } else {
                rgba_alpha(0xFFFFFF, 100)
            }
        } else {
            rgba_alpha(0x333333, 100)
        };
        let number = decimal_u64(index as u64);
        Widget {
            id: joined("tag-", number.as_str()),
            frame: Frame {
                width: Some(38),
                height: 32,
                pad_x: 0,
                pad_y: 0,
                radius: 6,
                border: 2,
                text_size: 18,
            },
            bg,
            border_color,
            fg,
            hover: Hover::Faded { opacity: 85 },
            label: icon.to_owned(),
            on_left: Some(Click::Tag { index }),
            on_right: None,
        }
    }

    /// A pill that takes no clicks.
    pub fn render_pill(
        &self,
        id: &str,
        bg: Rgba,
        border_color: Rgba,
        fg: Rgba,
        content: String,
    ) -> (w: Widget)
        ensures
            w@ == pill(id@, bg, border_color, fg, content@),
    {
        Widget {
            id: id.to_owned(),
            frame: Frame {
                width: None,
                height: 26,
                pad_x: 10,
                pad_y: 3,
                radius: 12,
                border: 1,
                text_size: 14,
            },
            bg,
            border_color,
            fg,
            hover: Hover::Same,
            label: content,
            on_left: None,
            on_right: None,
        }
    }
}

/// The pill of a usage.
pub open spec fn usage_pill(
    id: Seq<char>,
    icon: Seq<char>,
    gauge: crate::devices::GaugeModel,
) -> WidgetModel {
    let (bg, fg) = crate::color::usage_palette(gauge.value);
    pill(id, bg, bg, fg, percent_label(icon, gauge.text))
}

/// The pill of the battery.
pub open spec fn battery_pill(charge: crate::devices::GaugeModel, charging: bool) -> WidgetModel {
    let (bg, fg) = crate::color::battery_palette(charge.value);
    let icon = if charging {
        ICON_BAT_CHG@
    } else {
        ICON_BAT_FULL@
    };
    pill("battery"@, bg, bg, fg, percent_label(icon, charge.text))
}

/// The pill of the screen's brightness, dashes where it is not known.
pub open spec fn brightness_pill(percent: Option<i64>) -> WidgetModel {
    let label = match percent {
        Some(p) => percent_label(ICON_BRIGHT@, crate::text::decimal_int(p as int)),
        None => labelled(ICON_BRIGHT@, "--"@),
    };
    WidgetModel {
        on_left: Some(Click::Brightness { button: Button::Left }),
        on_right: Some(Click::Brightness { button: Button::Right }),
        ..pill(
            "brightness"@,
            crate::color::rgba(0xFDE047, 92),
            crate::color::rgba(0xFACC15, 100),
            crate::color::rgba(0x1F2937, 100),
            label,
        )
    }
}

/// The pill of the volume: dashes without a device, grey where nothing is heard
/// for want of a device or for being muted.
pub open spec fn volume_pill(master: Option<crate::devices::AudioModel>) -> WidgetModel {
    let (volume, muted, has_device) = match master {
        Some(d) => (crate::devices::clamped(d.volume), d.is_muted, true),
        None => (0, true, false),
    };
    let icon = crate::icons::speaker(crate::icons::loudness(volume, muted, has_device))@;
    let label = if has_device {
        percent_label(icon, crate::text::decimal_int(volume))
    } else {
        labelled(icon, "--"@)
    };
    let (bg, border_color, fg) = if muted {
        (
            crate::color::rgba(0x787878, 85),
            crate::color::rgba(0x888888, 100),
            crate::color::rgba(0xEEEEEE, 100),
        )
    } else {
        (crate::color::rgba(0x14B8A6, 90), crate::color::rgba(0x14B8A6, 100), white())
    };
    WidgetModel {
        on_left: Some(Click::Volume { button: Button::Left }),
        on_right: Some(Click::Volume { button: Button::Right }),
        ..pill("volume"@, bg, border_color, fg, label)
    }
}

/// The pill that takes a screenshot. It turns orange under the pointer.
pub open spec fn screenshot_pill() -> WidgetModel {
    WidgetModel {
        frame: pill_frame(15),
        hover: Hover::Filled { color: crate::color::rgba(0xFF8800, 95) },
        on_left: Some(Click::Screenshot),
        ..pill(
            "screenshot"@,
            crate::color::rgba(0x00CCCC, 90),
            crate::color::rgba(0x00CCCC, 90),
            white(),
            ICON_SHOT@,
        )
    }
}

/// The pill of the clock.
pub open spec fn time_pill(s: crate::state::BarModel) -> WidgetModel {
    WidgetModel {
        on_left: Some(Click::Time),
        ..pill(
            "time"@,
            crate::color::rgba(0x4DA3FF, 90),
            crate::color::rgba(0x4DA3FF, 90),
            white(),
            labelled(ICON_TIME@, s.formated_now),
        )
    }
}

/// The button that opens and closes the layout selector: green while open.
pub open spec fn layout_button(s: crate::state::BarModel) -> WidgetModel {
    let color: u32 = if s.layout_selector_open {
        0x3CB371
    } else {
        0xD35400
    };
    WidgetModel {
        on_left: Some(Click::LayoutToggle),
        ..pill(
            "layout-toggle"@,
            crate::color::rgba(color, 85),
            crate::color::rgba(color, 100),
            white(),
            s.layout_symbol,
        )
    }
}

/// The symbols of the layouts: tiled, floating and one window at a time. The
/// window manager knows a layout by its place here.
pub const LAYOUT_SYMBOLS: [&'static str; 3] = ["[]=", "><>", "[M]"];

/// The number of layouts.
pub const LAYOUT_COUNT: usize = 3;

/// The name of a layout's entry in the selector.
pub open spec fn layout_option_id(index: nat) -> Seq<char> {
    "layout-opt-"@ + crate::text::decimal_nat(index)
}

/// Whether a layout is the current one.
pub open spec fn is_current_layout(s: crate::state::BarModel, index: int) -> bool {
    LAYOUT_SYMBOLS@[index]@ == s.layout_symbol
}

/// The entry of a layout in the selector: green for the current layout.
pub open spec fn layout_option(s: crate::state::BarModel, index: int) -> WidgetModel {
    let color: u32 = if is_current_layout(s, index) {
        0x3CB371
    } else {
        0x4169E1
    };
    WidgetModel {
        on_left: Some(Click::LayoutOption { layout_index: index as u32 }),
        ..pill(
            layout_option_id(index as nat),
            crate::color::rgba(color, 85),
            crate::color::rgba(color, 100),
            white(),
            LAYOUT_SYMBOLS@[index]@,
        )
    }
}

/// The entries of the layout selector.
pub open spec fn layout_options(s: crate::state::BarModel) -> Seq<WidgetModel> {
    Seq::new(LAYOUT_COUNT as nat, |i: int| layout_option(s, i))
}

/// The pill of the monitor.
pub open spec fn monitor_pill(s: crate::state::BarModel) -> WidgetModel {
    pill(
        "monitor"@,
        crate::color::rgba(0x9B59B6, 90),
        crate::color::rgba(0x9B59B6, 90),
        white(),
        labelled(ICON_MON@, crate::icons::monitor_name(s.monitor_num as int)),
    )
}

/// The pill of the scale factor.
pub open spec fn scale_pill() -> WidgetModel {
    pill(
        "scale"@,
        crate::color::rgba(0x787878, 88),
        crate::color::rgba(0x787878, 88),
        white(),
        "s: 1.00"@,
    )
}

impl GpuiBar {
    /// The pill of a usage.
    pub fn render_usage_pill(&self, id: &str, icon: &str, gauge: &Gauge) -> (w: Widget)
        ensures
            w@ == usage_pill(id@, icon@, gauge@),
    {
        let (bg, fg) = usage_colors(gauge.value);
        self.render_pill(id, bg, bg, fg, make_percent_label(icon, gauge.text.as_str()))
    }

    /// The pill of the battery, at zero and not charging where nothing was measured.
    pub fn render_battery_pill(&self, snapshot: Option<&SystemSnapshot>) -> (w: Widget)
        ensures
            w@ == battery_pill(
                crate::devices::shown_snapshot(snapshot).battery_percent,
                crate::devices::shown_snapshot(snapshot).is_charging,
            ),
    {
        let zero = Gauge::zero();
        let (charge, charging) = match snapshot {
            Some(s) => (&s.battery_percent, s.is_charging),
            None => (&zero, false),
        };
        let icon = if charging {
            ICON_BAT_CHG
        } else {
            ICON_BAT_FULL
        };
        let (bg, fg) = battery_colors(charge.value);
        self.render_pill("battery", bg, bg, fg, make_percent_label(icon, charge.text.as_str()))
    }

    /// The pill of the screen's brightness.
    pub fn render_brightness_pill(&self, percent: Option<i64>) -> (w: Widget)
        ensures
            w@ == brightness_pill(percent),
    {
        let label = match percent {
            Some(p) => make_percent_label(ICON_BRIGHT, decimal_i64(p).as_str()),
            None => make_label(ICON_BRIGHT, "--"),
        };
        let bg = rgba_alpha(0xFDE047, 92);
        let border_color = rgba_alpha(0xFACC15, 100);
        let fg = rgba_alpha(0x1F2937, 100);
        let mut w = self.render_pill("brightness", bg, border_color, fg, label);
        w.on_left = Some(Click::Brightness { button: Button::Left });
        w.on_right = Some(Click::Brightness { button: Button::Right });
        w
    }

    /// The pill of the volume of the main audio device.
    pub fn render_volume_pill(&self, master: Option<&AudioDevice>) -> (w: Widget)
        ensures
            w@ == volume_pill(crate::devices::audio_model(master)),
    {
        let (volume, muted, has_device): (i32, bool, bool) = match master {
            Some(d) => (clamp_percent(d.volume), d.is_muted, true),
            None => (0, true, false),
        };
        let icon = volume_icon(volume, muted, has_device);
        let label = if has_device {
            make_percent_label(icon, decimal_i64(volume as i64).as_str())
        } else {
            make_label(icon, "--")
        };
        let (bg, border_color, fg) = if muted || !has_device {
            (rgba_alpha(0x787878, 85), rgba_alpha(0x888888, 100), rgba_alpha(0xEEEEEE, 100))
        } else {
            (rgba_alpha(0x14B8A6, 90), rgba_alpha(0x14B8A6, 100), rgba_alpha(0xFFFFFF, 100))
        };
        let mut w = self.render_pill("volume", bg, border_color, fg, label);
        w.on_left = Some(Click::Volume { button: Button::Left });
        w.on_right = Some(Click::Volume { button: Button::Right });
        w
    }

    /// The pill that takes a screenshot.
    pub fn render_screenshot_pill(&self) -> (w: Widget)
        ensures
            w@ == screenshot_pill(),
    {
        let bg = rgba_alpha(0x00CCCC, 90);
        let hover_bg = rgba_alpha(0xFF8800, 95);
        let fg = rgba_alpha(0xFFFFFF, 100);
        let mut w = self.render_pill("screenshot", bg, bg, fg, ICON_SHOT.to_owned());
        w.frame.text_size = 15;
        w.hover = Hover::Filled { color: hover_bg };
        w.on_left = Some(Click::Screenshot);
        w
    }

    /// The pill of the clock.
    pub fn render_time_pill(&self) -> (w: Widget)
        ensures
            w@ == time_pill(self@),
    {
        let bg = rgba_alpha(0x4DA3FF, 90);
        let label = make_label(ICON_TIME, self.formated_now.as_str());
        let mut w = self.render_pill("time", bg, bg, rgba_alpha(0xFFFFFF, 100), label);
        w.on_left = Some(Click::Time);
        w
    }

    /// The button that opens and closes the layout selector.
    pub fn render_layout_button(&self) -> (w: Widget)
        ensures
            w@ == layout_button(self@),
    {
        let color: u32 = if self.layout_selector_open {
            0x3CB371
        } else {
            0xD35400
        };
        let mut w = self.render_pill(
            "layout-toggle",
            rgba_alpha(color, 85),
            rgba_alpha(color, 100),
            rgba_alpha(0xFFFFFF, 100),
            self.layout_symbol.clone(),
        );
        w.on_left = Some(Click::LayoutToggle);
        w
    }

    /// The entries of the layout selector.
    pub fn render_layout_options(&self) -> (options: Vec<Widget>)
        ensures
            row(options@) == layout_options(self@),
    {
        let mut options: Vec<Widget> = Vec::new();
        let mut idx: usize = 0;
        while idx < LAYOUT_COUNT
            invariant
                idx <= LAYOUT_COUNT,
                options@.len() == idx,
                forall|j: int| 0 <= j < idx ==> (#[trigger] options@[j])@ == layout_option(self@, j),
            decreases LAYOUT_COUNT - idx,
        {
            let symbol = LAYOUT_SYMBOLS[idx].to_owned();
            let color: u32 = if symbol == self.layout_symbol {
                0x3CB371
            } else {
                0x4169E1
            };
            let number = decimal_u64(idx as u64);
            let id = joined("layout-opt-", number.as_str());
            let mut option = self.render_pill(
                id.as_str(),
                rgba_alpha(color, 85),
                rgba_alpha(color, 100),
                rgba_alpha(0xFFFFFF, 100),
                symbol,
            );
            option.on_left = Some(Click::LayoutOption { layout_index: idx as u32 });
            assert(option@ == layout_option(self@, idx as int));
            options.push(option);
            idx = idx + 1;
        }
        assert(row(options@) =~= layout_options(self@));
        options
    }

    /// The pill of the monitor.
    pub fn render_monitor_pill(&self) -> (w: Widget)
        ensures
            w@ == monitor_pill(self@),
    {
        let bg = rgba_alpha(0x9B59B6, 90);
        let name = monitor_num_to_icon(self.monitor_num);
        let label = make_label(ICON_MON, name.as_str());
        self.render_pill("monitor", bg, bg, rgba_alpha(0xFFFFFF, 100), label)
    }

    /// The pill of the scale factor.
    pub fn render_scale_pill(&self) -> (w: Widget)
        ensures
            w@ == scale_pill(),
    {
        let bg = rgba_alpha(0x787878, 88);
        self.render_pill("scale", bg, bg, rgba_alpha(0xFFFFFF, 100), "s: 1.00".to_owned())
    }
}

/// All that the bar shows, from left to right.
#[derive(Debug)]
pub struct BarView {
    pub tags: Vec<Widget>,
    pub layout_button: Widget,
    pub layout_options: Option<Vec<Widget>>,
    pub right_pills: Vec<Widget>,
}

/// What a [`BarView`] holds.
#[verifier::ext_equal]
pub struct BarViewModel {
    pub tags: Seq<WidgetModel>,
    pub layout_button: WidgetModel,
    pub layout_options: Option<Seq<WidgetModel>>,
    pub right_pills: Seq<WidgetModel>,
}

impl View for BarView {
    type V = BarViewModel;

    open spec fn view(&self) -> BarViewModel {
        BarViewModel {
            tags: row(self.tags@),
            layout_button: self.layout_button@,
            layout_options: match self.layout_options {
                Some(options) => Some(row(options@)),
                None => None,
            },
            right_pills: row(self.right_pills@),
        }
    }
}

/// The row of tag buttons.
pub open spec fn tag_row(s: crate::state::BarModel) -> Seq<WidgetModel> {
    Seq::new(TAG_COUNT as nat, |i: int| tag_widget(s, i))
}

/// The bar as it is shown: nine tags, the layout button, the layouts while the
/// selector is open, and the pills.
pub open spec fn shown(
    s: crate::state::BarModel,
    snapshot: crate::devices::SnapshotModel,
    brightness: Option<i64>,
    master: Option<crate::devices::AudioModel>,
) -> BarViewModel {
    BarViewModel {
        tags: tag_row(s),
        layout_button: layout_button(s),
        layout_options: if s.layout_selector_open {
            Some(layout_options(s))
        } else {
            None
        },
        right_pills: seq![
            usage_pill("cpu"@, ICON_CPU@, snapshot.cpu_average),
            usage_pill("mem"@, ICON_MEM@, snapshot.memory_usage_percent),
            battery_pill(snapshot.battery_percent, snapshot.is_charging),
            brightness_pill(brightness),
            volume_pill(master),
            screenshot_pill(),
            time_pill(s),
            monitor_pill(s),
            scale_pill(),
        ],
    }
}

impl GpuiBar {
    /// All that the bar shows, given the latest measurements.
    pub fn render(
        &self,
        snapshot: Option<&SystemSnapshot>,
        brightness: Option<i64>,
        master: Option<&AudioDevice>,
    ) -> (view: BarView)
        ensures
            view@ == shown(
                self@,
                crate::devices::shown_snapshot(snapshot),
                brightness,
                crate::devices::audio_model(master),
            ),
    {
        let zero = Gauge::zero();
        let (cpu, mem) = match snapshot {
            Some(s) => (&s.cpu_average, &s.memory_usage_percent),
            None => (&zero, &zero),
        };
        let mut tags: Vec<Widget> = Vec::new();
        let mut i: usize = 0;
        while i < TAG_COUNT
            invariant
                i <= TAG_COUNT,
                tags@.len() == i,
                forall|j: int| 0 <= j < i ==> (#[trigger] tags@[j])@ == tag_widget(self@, j),
            decreases TAG_COUNT - i,
        {
            let tag = self.render_tag(i);
            tags.push(tag);
            i = i + 1;
        }
        assert(row(tags@) =~= tag_row(self@));
        let layout_button = self.render_layout_button();
        let layout_options = if self.layout_selector_open {
            Some(self.render_layout_options())
        } else {
            None
        };
        let mut right_pills: Vec<Widget> = Vec::new();
        right_pills.push(self.render_usage_pill("cpu", ICON_CPU, cpu));
        right_pills.push(self.render_usage_pill("mem", ICON_MEM, mem));
        right_pills.push(self.render_battery_pill(snapshot));
        right_pills.push(self.render_brightness_pill(brightness));
        right_pills.push(self.render_volume_pill(master));
        right_pills.push(self.render_screenshot_pill());
        right_pills.push(self.render_time_pill());
        right_pills.push(self.render_monitor_pill());
        right_pills.push(self.render_scale_pill());
        let view = BarView { tags, layout_button, layout_options, right_pills };
        assert(view@.right_pills =~= shown(
            self@,
            crate::devices::shown_snapshot(snapshot),
            brightness,
            crate::devices::audio_model(master),
        ).right_pills);
        view
    }
}

} // verus!
