use gpui_bar::color::{rgba_alpha, TAG_COLORS};
use gpui_bar::devices::{AudioDevice, Gauge, SystemSnapshot};
use gpui_bar::icons::{
    ICON_BAT_CHG, ICON_BAT_FULL, ICON_BRIGHT, ICON_CPU, ICON_MEM, ICON_MON, ICON_SHOT, ICON_TIME,
    ICON_VOL_LOW, ICON_VOL_HIGH, ICON_VOL_MUTE, TAG_ICONS,
};
use gpui_bar::reading::Reading;
use gpui_bar::state::{Button, Click, GpuiBar, MonitorInfo, TagStatus};
use gpui_bar::view::{BarView, Hover, Widget};

fn gauge(value: f32) -> Gauge {
    Gauge { value: Reading { bits: value.to_bits() }, text: format!("{:.0}", value) }
}

fn snapshot() -> SystemSnapshot {
    SystemSnapshot {
        cpu_average: gauge(12.4),
        memory_usage_percent: gauge(61.5),
        battery_percent: gauge(20.0),
        is_charging: true,
    }
}

fn tag(is_selected: bool, is_urg: bool, is_filled: bool, is_occ: bool) -> TagStatus {
    TagStatus { is_selected, is_urg, is_filled, is_occ }
}

fn bar_with(tags: Vec<TagStatus>) -> GpuiBar {
    let mut bar = GpuiBar::new(0, 0);
    bar.apply_shared(MonitorInfo {
        monitor_num: 0,
        ltsymbol: "[]=".to_string(),
        tag_status_vec: tags,
    });
    bar
}

fn all(view: &BarView) -> Vec<&Widget> {
    let mut widgets: Vec<&Widget> = view.tags.iter().collect();
    widgets.push(&view.layout_button);
    if let Some(options) = &view.layout_options {
        widgets.extend(options.iter());
    }
    widgets.extend(view.right_pills.iter());
    widgets
}

#[test]
fn nine_idle_tags_at_the_start() {
    let view = GpuiBar::new(0, 0).render(None, None, None);
    assert_eq!(view.tags.len(), 9);
    for (i, w) in view.tags.iter().enumerate() {
        assert_eq!(w.id, format!("tag-{}", i));
        assert_eq!(w.label, TAG_ICONS[i]);
        assert_eq!(w.bg, rgba_alpha(0xFFFFFF, 90));
        assert_eq!(w.border_color, rgba_alpha(0xDEE2E6, 100));
        assert_eq!(w.fg, rgba_alpha(0x333333, 100));
        assert_eq!(w.hover, Hover::Faded { opacity: 85 });
        assert_eq!((w.frame.width, w.frame.height), (Some(38), 32));
        assert_eq!((w.frame.radius, w.frame.border, w.frame.text_size), (6, 2, 18));
    }
}

#[test]
fn tag_looks_by_status() {
    let bar = bar_with(vec![
        tag(true, true, true, true),
        tag(true, false, true, true),
        tag(true, false, false, true),
        tag(false, false, false, true),
        tag(true, false, false, false),
        tag(false, false, false, false),
    ]);
    let urgent = bar.render_tag(0);
    assert_eq!(urgent.bg, rgba_alpha(0xDB3645, 100));
    assert_eq!(urgent.border_color, rgba_alpha(0xBC2130, 100));
    assert_eq!(urgent.fg, rgba_alpha(0xFFFFFF, 100));
    let filled = bar.render_tag(1);
    assert_eq!(filled.bg, rgba_alpha(TAG_COLORS[1], 100));
    assert_eq!(filled.border_color, rgba_alpha(TAG_COLORS[1], 100));
    let selected = bar.render_tag(2);
    assert_eq!(selected.bg, rgba_alpha(TAG_COLORS[2], 70));
    assert_eq!(selected.border_color, rgba_alpha(TAG_COLORS[2], 100));
    assert_eq!(selected.fg, rgba_alpha(0xFFFFFF, 100));
    let occupied = bar.render_tag(3);
    assert_eq!(occupied.bg, rgba_alpha(TAG_COLORS[3], 30));
    assert_eq!(occupied.border_color, rgba_alpha(TAG_COLORS[3], 60));
    assert_eq!(occupied.fg, rgba_alpha(0x333333, 100));
    let fifth = bar.render_tag(4);
    assert_eq!(fifth.bg, rgba_alpha(TAG_COLORS[4], 70));
    assert_eq!(fifth.fg, rgba_alpha(0x333333, 100));
    assert_eq!(bar.render_tag(5).bg, rgba_alpha(0xFFFFFF, 90));
    assert_eq!(bar.render_tag(8).bg, rgba_alpha(0xFFFFFF, 90));
}

#[test]
fn pills_in_order() {
    let mut bar = GpuiBar::new(0, 0);
    bar.formated_now = "2024-01-02 03:04".to_string();
    bar.monitor_num = 5;
    let device = AudioDevice { name: "Master".to_string(), volume: 130, is_muted: false };
    let s = snapshot();
    let pills = bar.render(Some(&s), Some(70), Some(&device)).right_pills;
    let ids: Vec<&str> = pills.iter().map(|p| p.id.as_str()).collect();
    assert_eq!(
        ids,
        vec![
            "cpu", "mem", "battery", "brightness", "volume", "screenshot", "time", "monitor",
            "scale"
        ]
    );
    let labels: Vec<String> = pills.iter().map(|p| p.label.clone()).collect();
    assert_eq!(
        labels,
        vec![
            format!("{}  12%", ICON_CPU),
            format!("{}  62%", ICON_MEM),
            format!("{}  20%", ICON_BAT_CHG),
            format!("{}  70%", ICON_BRIGHT),
            format!("{}  100%", ICON_VOL_HIGH),
            ICON_SHOT.to_string(),
            format!("{}  2024-01-02 03:04", ICON_TIME),
            format!("{}  M5", ICON_MON),
            "s: 1.00".to_string(),
        ]
    );
    assert_eq!(pills[0].bg, rgba_alpha(0x1FBF51, 90));
    assert_eq!(pills[0].border_color, pills[0].bg);
    assert_eq!(pills[1].bg, rgba_alpha(0xFF8C1A, 90));
    assert_eq!(pills[2].bg, rgba_alpha(0xE53935, 90));
    assert_eq!(pills[3].bg, rgba_alpha(0xFDE047, 92));
    assert_eq!(pills[3].border_color, rgba_alpha(0xFACC15, 100));
    assert_eq!(pills[3].fg, rgba_alpha(0x1F2937, 100));
    assert_eq!(pills[4].bg, rgba_alpha(0x14B8A6, 90));
    assert_eq!(pills[4].border_color, rgba_alpha(0x14B8A6, 100));
    assert_eq!(pills[5].bg, rgba_alpha(0x00CCCC, 90));
    assert_eq!(pills[5].frame.text_size, 15);
    assert_eq!(pills[5].hover, Hover::Filled { color: rgba_alpha(0xFF8800, 95) });
    assert_eq!(pills[6].bg, rgba_alpha(0x4DA3FF, 90));
    assert_eq!(pills[7].bg, rgba_alpha(0x9B59B6, 90));
    assert_eq!(pills[8].bg, rgba_alpha(0x787878, 88));
    assert_eq!(pills[8].frame.text_size, 14);
    assert_eq!((pills[8].frame.height, pills[8].frame.pad_x, pills[8].frame.pad_y), (26, 10, 3));
    assert_eq!((pills[8].frame.radius, pills[8].frame.border), (12, 1));
    assert_eq!(pills[8].frame.width, None);
    assert_eq!(pills[8].hover, Hover::Same);
}

#[test]
fn pills_without_measurements() {
    let pills = GpuiBar::new(0, 0).render(None, None, None).right_pills;
    assert_eq!(pills[0].label, format!("{}  0%", ICON_CPU));
    assert_eq!(pills[0].bg, rgba_alpha(0x1FBF51, 90));
    assert_eq!(pills[2].label, format!("{}  0%", ICON_BAT_FULL));
    assert_eq!(pills[2].bg, rgba_alpha(0xE53935, 90));
    assert_eq!(pills[3].label, format!("{}  --", ICON_BRIGHT));
    assert_eq!(pills[4].label, format!("{}  --", ICON_VOL_MUTE));
    assert_eq!(pills[4].bg, rgba_alpha(0x787878, 85));
    assert_eq!(pills[4].border_color, rgba_alpha(0x888888, 100));
    assert_eq!(pills[4].fg, rgba_alpha(0xEEEEEE, 100));
}

#[test]
fn volume_pill_states() {
    let bar = GpuiBar::new(0, 0);
    let muted = AudioDevice { name: "m".to_string(), volume: 20, is_muted: true };
    let w = bar.render_volume_pill(Some(&muted));
    assert_eq!(w.label, format!("{}  20%", ICON_VOL_MUTE));
    assert_eq!(w.bg, rgba_alpha(0x787878, 85));
    let low = AudioDevice { name: "m".to_string(), volume: 20, is_muted: false };
    assert_eq!(bar.render_volume_pill(Some(&low)).label, format!("{}  20%", ICON_VOL_LOW));
    let below = AudioDevice { name: "m".to_string(), volume: -9, is_muted: false };
    let w = bar.render_volume_pill(Some(&below));
    assert_eq!(w.label, format!("{}  0%", ICON_VOL_MUTE));
    assert_eq!(w.bg, rgba_alpha(0x14B8A6, 90));
}

#[test]
fn layout_selector() {
    let mut bar = GpuiBar::new(0, 0);
    let closed = bar.render(None, None, None);
    assert!(closed.layout_options.is_none());
    assert_eq!(closed.layout_button.id, "layout-toggle");
    assert_eq!(closed.layout_button.label, "[]=");
    assert_eq!(closed.layout_button.bg, rgba_alpha(0xD35400, 85));
    assert_eq!(closed.layout_button.border_color, rgba_alpha(0xD35400, 100));
    bar.click(Click::LayoutToggle, None);
    bar.layout_symbol = "><>".to_string();
    let open = bar.render(None, None, None);
    assert_eq!(open.layout_button.bg, rgba_alpha(0x3CB371, 85));
    let options = open.layout_options.unwrap();
    let labels: Vec<&str> = options.iter().map(|o| o.label.as_str()).collect();
    assert_eq!(labels, vec!["[]=", "><>", "[M]"]);
    assert_eq!(options[0].id, "layout-opt-0");
    assert_eq!(options[2].id, "layout-opt-2");
    assert_eq!(options[0].bg, rgba_alpha(0x4169E1, 85));
    assert_eq!(options[1].bg, rgba_alpha(0x3CB371, 85));
    assert_eq!(options[1].border_color, rgba_alpha(0x3CB371, 100));
    assert_eq!(options[2].bg, rgba_alpha(0x4169E1, 85));
    bar.layout_symbol = "HHH".to_string();
    for option in bar.render_layout_options() {
        assert_eq!(option.bg, rgba_alpha(0x4169E1, 85));
    }
    bar.click(Click::LayoutOption { layout_index: 1 }, None);
    assert!(bar.render(None, None, None).layout_options.is_none());
}

#[test]
fn widget_names_are_distinct() {
    let mut bar = GpuiBar::new(0, 0);
    bar.click(Click::LayoutToggle, None);
    let view = bar.render(None, None, None);
    let widgets = all(&view);
    assert_eq!(widgets.len(), 22);
    for i in 0..widgets.len() {
        for j in 0..i {
            assert_ne!(widgets[i].id, widgets[j].id);
        }
    }
}

#[test]
fn clicks_on_offer() {
    let mut bar = GpuiBar::new(0, 0);
    bar.click(Click::LayoutToggle, None);
    let view = bar.render(None, None, None);
    for (index, w) in view.tags.iter().enumerate() {
        assert_eq!(w.on_left, Some(Click::Tag { index }));
        assert_eq!(w.on_right, None);
    }
    assert_eq!(view.layout_button.on_left, Some(Click::LayoutToggle));
    for (i, w) in view.layout_options.as_ref().unwrap().iter().enumerate() {
        assert_eq!(w.on_left, Some(Click::LayoutOption { layout_index: i as u32 }));
    }
    let left: Vec<Option<Click>> = view.right_pills.iter().map(|p| p.on_left).collect();
    let right: Vec<Option<Click>> = view.right_pills.iter().map(|p| p.on_right).collect();
    let brightness = |button| Some(Click::Brightness { button });
    let volume = |button| Some(Click::Volume { button });
    assert_eq!(
        left,
        vec![
            None,
            None,
            None,
            brightness(Button::Left),
            volume(Button::Left),
            Some(Click::Screenshot),
            Some(Click::Time),
            None,
            None,
        ]
    );
    assert_eq!(
        right,
        vec![
            None,
            None,
            None,
            brightness(Button::Right),
            volume(Button::Right),
            None,
            None,
            None,
            None,
        ]
    );
}

#[test]
fn clicks_show_after_the_answer() {
    let mut bar = bar_with(vec![tag(true, false, false, false), tag(false, false, false, true)]);
    bar.formated_now = "12:00:00".to_string();
    let before = format!("{:?}", bar.render(None, None, None));
    bar.click(Click::Tag { index: 1 }, None);
    bar.click(Click::Time, None);
    bar.click(Click::Screenshot, None);
    assert_eq!(format!("{:?}", bar.render(None, None, None)), before);
}
