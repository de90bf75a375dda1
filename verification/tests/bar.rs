use chrono::Local;
use gpui_bar::clock::{clock_text, CivilTime, LocalTime, FORMAT_MINUTES, FORMAT_SECONDS};
use gpui_bar::devices::AudioDevice;
use gpui_bar::state::{
    redraws, Action, Button, Click, Command, GpuiBar, MonitorInfo, TagStatus, TickPhase, CLOCK_PERIOD,
    MONITOR_PERIOD,
};
use gpui_bar::text::{joined, decimal_i64, decimal_u64, shared_path};

fn status(is_selected: bool) -> TagStatus {
    TagStatus { is_selected, is_urg: false, is_filled: false, is_occ: false }
}

fn monitor(num: i32, symbol: &str, selected: &[bool]) -> MonitorInfo {
    MonitorInfo {
        monitor_num: num,
        ltsymbol: symbol.to_string(),
        tag_status_vec: selected.iter().map(|s| status(*s)).collect(),
    }
}

fn device(volume: i32, is_muted: bool) -> AudioDevice {
    AudioDevice { name: "Master".to_string(), volume, is_muted }
}

#[test]
fn numerals() {
    assert_eq!(decimal_u64(0), "0");
    assert_eq!(decimal_u64(907), "907");
    assert_eq!(decimal_u64(u64::MAX), "18446744073709551615");
    assert_eq!(decimal_i64(-40), "-40");
    assert_eq!(decimal_i64(i64::MIN), "-9223372036854775808");
    assert_eq!(joined("ab", "c"), "abc");
}

#[test]
fn path_is_the_last_argument() {
    let arg = |s: &str| s.to_string();
    assert_eq!(shared_path(&vec![]), "");
    assert_eq!(shared_path(&vec![arg("bar")]), "");
    assert_eq!(shared_path(&vec![arg("bar"), arg("/dev/shm/m0")]), "/dev/shm/m0");
    assert_eq!(shared_path(&vec![arg("bar"), arg("-v"), arg("x")]), "x");
}

#[test]
fn bar_at_the_start() {
    let bar = GpuiBar::new(7, 8);
    assert_eq!(bar.active_tab, 0);
    assert!(bar.monitor_info_opt.is_none());
    assert_eq!(bar.formated_now, "");
    assert!(bar.show_seconds);
    assert_eq!(bar.layout_symbol, "[]=");
    assert_eq!(bar.monitor_num, 0);
    assert!(!bar.layout_selector_open);
    assert_eq!((bar.last_clock_update, bar.last_monitor_update), (7, 8));
}

#[test]
fn message_moves_the_active_tag() {
    let mut bar = GpuiBar::new(0, 0);
    bar.apply_shared(monitor(1, "><>", &[false, true, false, true, false]));
    assert_eq!(bar.active_tab, 3);
    assert_eq!(bar.layout_symbol, "><>");
    assert_eq!(bar.monitor_num, 1);
    assert_eq!(bar.monitor_info_opt.as_ref().unwrap().tag_status_vec.len(), 5);
    bar.apply_shared(monitor(2, "[M]", &[false; 9]));
    assert_eq!(bar.active_tab, 3);
    assert_eq!(bar.monitor_num, 2);
    bar.apply_shared(monitor(2, "[M]", &[]));
    assert_eq!(bar.active_tab, 3);
}

#[test]
fn message_leaves_the_users_choices() {
    let mut bar = GpuiBar::new(1, 2);
    bar.click(Click::Time, None);
    bar.click(Click::LayoutToggle, None);
    bar.formated_now = "now".to_string();
    bar.apply_shared(monitor(4, "[M]", &[true]));
    assert!(!bar.show_seconds);
    assert!(bar.layout_selector_open);
    assert_eq!(bar.formated_now, "now");
    assert_eq!((bar.last_clock_update, bar.last_monitor_update), (1, 2));
}

#[test]
fn tag_commands() {
    let mut bar = GpuiBar::new(0, 0);
    bar.monitor_num = 3;
    for index in 0..9usize {
        let action = bar.click(Click::Tag { index }, None);
        assert_eq!(bar.active_tab, index);
        let expected = Command::ViewTag { tag_bit: 1 << index, monitor_num: 3 };
        assert!(matches!(action, Action::Send { command } if command == expected));
        assert_eq!(bar.send_tag_command(true), expected);
        assert_eq!(
            bar.send_tag_command(false),
            Command::ToggleTag { tag_bit: 1 << index, monitor_num: 3 }
        );
    }
    bar.active_tab = 31;
    assert_eq!(
        bar.send_tag_command(true),
        Command::ViewTag { tag_bit: 0x8000_0000, monitor_num: 3 }
    );
}

#[test]
fn layout_clicks() {
    let mut bar = GpuiBar::new(0, 0);
    bar.monitor_num = 1;
    assert!(matches!(bar.click(Click::LayoutToggle, None), Action::Nothing));
    assert!(bar.layout_selector_open);
    let action = bar.click(Click::LayoutOption { layout_index: 2 }, None);
    let expected = Command::SetLayout { layout_index: 2, monitor_num: 1 };
    assert!(matches!(action, Action::Send { command } if command == expected));
    assert!(!bar.layout_selector_open);
    assert_eq!(bar.layout_symbol, "[]=");
    assert_eq!(bar.send_layout_command(0), Command::SetLayout { layout_index: 0, monitor_num: 1 });
}

#[test]
fn toggles_undo_themselves() {
    let mut bar = GpuiBar::new(0, 0);
    bar.click(Click::Time, None);
    assert!(!bar.show_seconds);
    bar.click(Click::Time, None);
    assert!(bar.show_seconds);
    bar.click(Click::LayoutToggle, None);
    bar.click(Click::LayoutToggle, None);
    assert!(!bar.layout_selector_open);
}

#[test]
fn brightness_clicks() {
    let mut bar = GpuiBar::new(0, 0);
    let up = bar.click(Click::Brightness { button: Button::Left }, None);
    assert!(matches!(up, Action::AdjustBrightness { percent: 5 }));
    let down = bar.click(Click::Brightness { button: Button::Right }, None);
    assert!(matches!(down, Action::AdjustBrightness { percent: -5 }));
}

#[test]
fn volume_clicks() {
    let mut bar = GpuiBar::new(0, 0);
    let d = device(48, true);
    match bar.click(Click::Volume { button: Button::Left }, Some(&d)) {
        Action::ToggleMute { device } => assert_eq!(device, "Master"),
        other => panic!("{:?}", other),
    }
    match bar.click(Click::Volume { button: Button::Right }, Some(&d)) {
        Action::SetVolume { device, volume, is_muted } => {
            assert_eq!(device, "Master");
            assert_eq!(volume, 43);
            assert!(is_muted);
        }
        other => panic!("{:?}", other),
    }
    assert!(matches!(bar.click(Click::Volume { button: Button::Left }, None), Action::Nothing));
    assert!(matches!(bar.click(Click::Volume { button: Button::Right }, None), Action::Nothing));
}

#[test]
fn screenshot_click() {
    let mut bar = GpuiBar::new(0, 0);
    let action = bar.click(Click::Screenshot, None);
    assert!(matches!(action, Action::Spawn { program: "flameshot", argument: "gui" }));
}

fn civil(year: i32, month: u32, day: u32, hour: u32, minute: u32, second: u32) -> LocalTime {
    LocalTime { utc: CivilTime { year, month, day, hour, minute, second }, offset: 0 }
}

fn shifted(t: LocalTime, offset: i32) -> LocalTime {
    LocalTime { utc: t.utc, offset }
}

#[test]
fn clock_texts() {
    let t = civil(2024, 2, 29, 7, 5, 9);
    assert_eq!(clock_text(&t, true), "2024-02-29 07:05:09");
    assert_eq!(clock_text(&t, false), "2024-02-29 07:05");
    assert_eq!(clock_text(&civil(1999, 12, 31, 23, 59, 59), true), "1999-12-31 23:59:59");
    assert_eq!(clock_text(&civil(33, 4, 3, 0, 0, 0), false), "0033-04-03 00:00");
    assert_eq!(clock_text(&civil(-5, 1, 1, 12, 0, 0), false), "-0005-01-01 12:00");
    assert_eq!(clock_text(&civil(10000, 1, 1, 0, 0, 1), true), "+10000-01-01 00:00:01");
    assert_eq!(clock_text(&civil(262142, 12, 31, 23, 59, 59), false), "+262142-12-31 23:59");
    assert_eq!(clock_text(&civil(-262143, 1, 1, 0, 0, 0), false), "-262143-01-01 00:00");
}

#[test]
fn seconds_extend_minutes() {
    let t = civil(2030, 10, 11, 12, 13, 14);
    assert_eq!(clock_text(&t, true), joined(&clock_text(&t, false), ":14"));
}

#[test]
fn every_step_of_a_tick() {
    let mut bar = GpuiBar::new(1_000, 2_000);
    assert_eq!(bar.tick(TickPhase::CheckClock, 1_000 + CLOCK_PERIOD - 1), TickPhase::CheckMonitors);
    assert_eq!(bar.formated_now, "");
    assert_eq!(bar.tick(TickPhase::CheckClock, 0), TickPhase::CheckMonitors);
    assert_eq!(bar.tick(TickPhase::CheckClock, 1_000 + CLOCK_PERIOD), TickPhase::StampClock);
    assert_eq!(bar.formated_now.len(), 19);
    assert_eq!(bar.last_clock_update, 1_000);
    assert_eq!(bar.tick(TickPhase::StampClock, 5), TickPhase::CheckMonitors);
    assert_eq!(bar.last_clock_update, 5);
    assert_eq!(bar.tick(TickPhase::CheckMonitors, 2_000 + MONITOR_PERIOD - 1), TickPhase::Done);
    assert_eq!(
        bar.tick(TickPhase::CheckMonitors, 2_000 + MONITOR_PERIOD),
        TickPhase::StampMonitors
    );
    assert_eq!(bar.last_monitor_update, 2_000);
    assert_eq!(bar.tick(TickPhase::StampMonitors, 9), TickPhase::Done);
    assert_eq!(bar.last_monitor_update, 9);
    assert_eq!(bar.tick(TickPhase::Done, 77), TickPhase::Done);
    assert_eq!((bar.last_clock_update, bar.last_monitor_update), (5, 9));
}

#[test]
fn tick_shows_the_local_time() {
    for seconds in [true, false] {
        let mut bar = GpuiBar::new(0, 0);
        bar.show_seconds = seconds;
        let format = if seconds { FORMAT_SECONDS } else { FORMAT_MINUTES };
        let before = Local::now().format(format).to_string();
        bar.tick(TickPhase::CheckClock, CLOCK_PERIOD);
        let after = Local::now().format(format).to_string();
        assert!(before <= bar.formated_now && bar.formated_now <= after);
    }
}

#[test]
fn clock_rests_after_a_renewal() {
    let mut bar = GpuiBar::new(0, 0);
    bar.tick(TickPhase::CheckClock, 10 * CLOCK_PERIOD);
    bar.tick(TickPhase::StampClock, 10 * CLOCK_PERIOD + 3);
    bar.formated_now = "kept".to_string();
    let next = bar.tick(TickPhase::CheckClock, 11 * CLOCK_PERIOD + 2);
    assert_eq!(next, TickPhase::CheckMonitors);
    assert_eq!(bar.formated_now, "kept");
}

#[test]
fn texts_tell_times_apart() {
    let times = [
        civil(2024, 1, 11, 1, 1, 1),
        civil(2024, 11, 1, 1, 1, 1),
        civil(2024, 1, 1, 11, 1, 1),
        civil(2024, 1, 1, 1, 11, 1),
        civil(2024, 1, 1, 1, 1, 11),
        civil(202, 4, 11, 1, 1, 1),
        civil(20241, 1, 1, 1, 1, 1),
        civil(-2024, 1, 11, 1, 1, 1),
    ];
    for i in 0..times.len() {
        for j in 0..i {
            assert_ne!(clock_text(&times[i], true), clock_text(&times[j], true));
        }
    }
}

#[test]
fn a_tick_a_second_later_renews_the_clock() {
    let mut bar = GpuiBar::new(500, 500);
    assert_eq!(bar.tick(TickPhase::CheckClock, 1_000_000_500), TickPhase::StampClock);
}

#[test]
fn monitors_rest_after_a_renewal() {
    let mut bar = GpuiBar::new(0, 0);
    bar.tick(TickPhase::StampMonitors, 100);
    assert_eq!(bar.tick(TickPhase::CheckMonitors, 99 + MONITOR_PERIOD), TickPhase::Done);
    assert_eq!(bar.tick(TickPhase::CheckMonitors, 100 + MONITOR_PERIOD), TickPhase::StampMonitors);
}

#[test]
fn only_the_screenshot_draws_nothing_anew() {
    assert!(!redraws(Click::Screenshot));
    assert!(redraws(Click::Tag { index: 0 }));
    assert!(redraws(Click::LayoutToggle));
    assert!(redraws(Click::LayoutOption { layout_index: 1 }));
    assert!(redraws(Click::Brightness { button: Button::Right }));
    assert!(redraws(Click::Volume { button: Button::Left }));
    assert!(redraws(Click::Time));
}

#[test]
fn texts_in_a_time_zone() {
    let noon = civil(2023, 6, 30, 12, 0, 0);
    assert_eq!(clock_text(&shifted(noon, 7200), true), "2023-06-30 14:00:00");
    assert_eq!(clock_text(&shifted(noon, -12601), true), "2023-06-30 08:29:59");
    assert_eq!(clock_text(&shifted(noon, 43200), false), "2023-07-01 00:00");
    assert_eq!(clock_text(&shifted(noon, -43201), true), "2023-06-29 23:59:59");
    let leap = civil(2024, 2, 28, 23, 30, 0);
    assert_eq!(clock_text(&shifted(leap, 3600), false), "2024-02-29 00:30");
    let march = civil(2023, 3, 1, 0, 10, 0);
    assert_eq!(clock_text(&shifted(march, -3600), false), "2023-02-28 23:10");
    let eve = civil(1999, 12, 31, 23, 59, 59);
    assert_eq!(clock_text(&shifted(eve, 1), true), "2000-01-01 00:00:00");
    let new_year = civil(2000, 1, 1, 0, 0, 0);
    assert_eq!(clock_text(&shifted(new_year, -86399), true), "1999-12-31 00:00:01");
}

#[test]
fn texts_beyond_the_first_and_the_last_day() {
    let last = civil(262142, 12, 31, 23, 30, 0);
    assert_eq!(clock_text(&shifted(last, 3600), true), "+262143-01-01 00:30:00");
    let first = civil(-262143, 1, 1, 0, 30, 0);
    assert_eq!(clock_text(&shifted(first, -3600), true), "-262144-12-31 23:30:00");
}

#[test]
fn shown_time_is_the_local_one() {
    let mut bar = GpuiBar::new(0, 0);
    bar.show_time(&shifted(civil(2021, 8, 31, 23, 0, 5), 5400));
    assert_eq!(bar.formated_now, "2021-09-01 00:30:05");
    bar.show_seconds = false;
    bar.show_time(&civil(2021, 8, 31, 23, 0, 5));
    assert_eq!(bar.formated_now, "2021-08-31 23:00");
}
