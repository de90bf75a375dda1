//! The state of the bar and how it changes: with the window manager's messages,
//! with the clock and with clicks.
use crate::clock::{clock_text, local_now, CivilTime, ClockLog, LocalTime};
use crate::devices::{lowered_volume, AudioDevice, BRIGHTNESS_STEP, VOLUME_STEP};
use crate::icons::TAG_COUNT;
use vstd::arithmetic::power2::*;
use vstd::prelude::*;

verus! {

/// What the window manager says of one workspace tag.
#[derive(Clone, Copy, Debug, PartialEq, Eq, Structural)]
pub struct TagStatus {
    pub is_selected: bool,
    pub is_urg: bool,
    pub is_filled: bool,
    pub is_occ: bool,
}

/// What the window manager says of one monitor.
#[derive(Debug)]
pub struct MonitorInfo {
    pub monitor_num: i32,
    pub ltsymbol: String,
    pub tag_status_vec: Vec<TagStatus>,
}

/// What a [`MonitorInfo`] holds.
#[verifier::ext_equal]
pub struct MonitorModel {
    pub monitor_num: i32,
    pub ltsymbol: Seq<char>,
    pub tags: Seq<TagStatus>,
}

impl View for MonitorInfo {
    type V = MonitorModel;

    open spec fn view(&self) -> MonitorModel {
        MonitorModel {
            monitor_num: self.monitor_num,
            ltsymbol: self.ltsymbol@,
            tags: self.tag_status_vec@,
        }
    }
}

/// The state of the bar. Stamps are readings of a steady clock in nanoseconds.
pub struct GpuiBar {
    pub active_tab: usize,
    pub monitor_info_opt: Option<MonitorInfo>,
    pub formated_now: String,
    pub show_seconds: bool,
    pub layout_symbol: String,
    pub monitor_num: i32,
    pub layout_selector_open: bool,
    pub last_clock_update: u128,
    pub last_monitor_update: u128,
    /// What the local clock gave whenever the bar read it.
    pub clock: ClockLog,
}

/// What a [`GpuiBar`] holds.
#[verifier::ext_equal]
pub struct BarModel {
    pub active_tab: nat,
    pub monitor: Option<MonitorModel>,
    pub formated_now: Seq<char>,
    pub show_seconds: bool,
    pub layout_symbol: Seq<char>,
    pub monitor_num: i32,
    pub layout_selector_open: bool,
    pub last_clock_update: u128,
    pub last_monitor_update: u128,
    pub readings: Seq<LocalTime>,
}

impl View for GpuiBar {
    type V = BarModel;

    open spec fn view(&self) -> BarModel {
        BarModel {
            active_tab: self.active_tab as nat,
            monitor: match self.monitor_info_opt {
                Some(m) => Some(m@),
                None => None,
            },
            formated_now: self.formated_now@,
            show_seconds: self.show_seconds,
            layout_symbol: self.layout_symbol@,
            monitor_num: self.monitor_num,
            layout_selector_open: self.layout_selector_open,
            last_clock_update: self.last_clock_update,
            last_monitor_update: self.last_monitor_update,
            readings: self.clock@,
        }
    }
}

/// The bar before anything was heard: the first tag is active, the clock is
/// empty and shows seconds, the tiled layout is assumed, the selector is closed.
pub open spec fn initial_bar(clock_stamp: u128, monitor_stamp: u128) -> BarModel {
    BarModel {
        active_tab: 0,
        monitor: None,
        formated_now: Seq::empty(),
        show_seconds: true,
        layout_symbol: "[]="@,
        monitor_num: 0,
        layout_selector_open: false,
        last_clock_update: clock_stamp,
        last_monitor_update: monitor_stamp,
        readings: Seq::empty(),
    }
}

/// The index of the last selected tag, `current` if no tag is selected.
pub open spec fn last_selected(tags: Seq<TagStatus>, current: nat) -> nat
    decreases tags.len(),
{
    if tags.len() == 0 {
        current
    } else if tags.last().is_selected {
        (tags.len() - 1) as nat
    } else {
        last_selected(tags.drop_last(), current)
    }
}

/// The bar after a message of the window manager.
pub open spec fn shared_applied(s: BarModel, m: MonitorModel) -> BarModel {
    BarModel {
        active_tab: last_selected(m.tags, s.active_tab),
        monitor: Some(m),
        layout_symbol: m.ltsymbol,
        monitor_num: m.monitor_num,
        ..s
    }
}

/// A request to the window manager.
#[derive(Clone, Copy, Debug, PartialEq, Eq, Structural)]
pub enum Command {
    /// Show the tag of a bit alone.
    ViewTag { tag_bit: u32, monitor_num: i32 },
    /// Show or hide the tag of a bit.
    ToggleTag { tag_bit: u32, monitor_num: i32 },
    /// Arrange the windows by a layout.
    SetLayout { layout_index: u32, monitor_num: i32 },
}

/// The request about the active tag: its bit is two to the power of its index.
pub open spec fn tag_command(s: BarModel, is_view: bool) -> Command {
    let tag_bit = pow2(s.active_tab) as u32;
    if is_view {
        Command::ViewTag { tag_bit, monitor_num: s.monitor_num }
    } else {
        Command::ToggleTag { tag_bit, monitor_num: s.monitor_num }
    }
}

impl GpuiBar {
    /// The bar at the start.
    pub fn new(clock_stamp: u128, monitor_stamp: u128) -> (bar: Self)
        ensures
            bar@ == initial_bar(clock_stamp, monitor_stamp),
    {
        GpuiBar {
            active_tab: 0,
            monitor_info_opt: None,
            formated_now: String::new(),
            show_seconds: true,
            layout_symbol: "[]=".to_owned(),
            monitor_num: 0,
            layout_selector_open: false,
            last_clock_update: clock_stamp,
            last_monitor_update: monitor_stamp,
            clock: ClockLog::new(),
        }
    }

    /// Takes over what the window manager says.
    pub fn apply_shared(&mut self, info: MonitorInfo)
        ensures
            final(self)@ == shared_applied(old(self)@, info@),
    {
        self.layout_symbol = info.ltsymbol.clone();
        self.monitor_num = info.monitor_num;
        let ghost tags = info.tag_status_vec@;
        let ghost before = self.active_tab as nat;
        let count: usize = info.tag_status_vec.len();
        let mut active: usize = self.active_tab;
        let mut idx: usize = 0;
        while idx < count
            invariant
                idx <= count,
                count == info.tag_status_vec@.len(),
                tags == info.tag_status_vec@,
                active == last_selected(tags.take(idx as int), before),
            decreases count - idx,
        {
            assert(tags.take(idx + 1).drop_last() =~= tags.take(idx as int));
            if info.tag_status_vec[idx].is_selected {
                active = idx;
            }
            idx = idx + 1;
        }
        assert(tags.take(count as int) =~= tags);
        self.active_tab = active;
        self.monitor_info_opt = Some(info);
    }

    /// The request to view or to toggle the active tag.
    pub fn send_tag_command(&self, is_view: bool) -> (command: Command)
        requires
            self.active_tab < 32,
        ensures
            command == tag_command(self@, is_view),
    {
        let shift: u32 = self.active_tab as u32;
        let tag_bit: u32 = 1u32 << shift;
        proof {
            lemma_tag_bit(shift);
        }
        if is_view {
            Command::ViewTag { tag_bit, monitor_num: self.monitor_num }
        } else {
            Command::ToggleTag { tag_bit, monitor_num: self.monitor_num }
        }
    }

    /// The request to arrange the windows by a layout.
    pub fn send_layout_command(&self, layout_index: u32) -> (command: Command)
        ensures
            command == (Command::SetLayout { layout_index, monitor_num: self@.monitor_num }),
    {
        Command::SetLayout { layout_index, monitor_num: self.monitor_num }
    }
}

/// A shifted one is a power of two.
proof fn lemma_tag_bit(shift: u32)
    requires
        shift < 32,
    ensures
        1u32 << shift == pow2(shift as nat),
        pow2(shift as nat) <= u32::MAX,
{
    vstd::bits::lemma_u32_pow2_no_overflow(shift as nat);
    vstd::bits::lemma_u32_shl_is_mul(1, shift);
}

/// How long the bar waits from one tick to the next, in seconds.
pub const TICK_SECS: u64 = 1;

/// How old the clock's text gets before a tick renews it, in nanoseconds.
pub const CLOCK_PERIOD: u128 = 900_000_000;

/// How old the measurements get before a tick renews them, in nanoseconds.
pub const MONITOR_PERIOD: u128 = 2_000_000_000;

/// The steps of a tick. Each is taken with a fresh reading of the steady clock.
#[derive(Clone, Copy, Debug, PartialEq, Eq, Structural)]
pub enum TickPhase {
    /// See whether the clock's text is to be renewed, and renew it.
    CheckClock,
    /// Note when the clock's text was renewed.
    StampClock,
    /// See whether the measurements are to be renewed.
    CheckMonitors,
    /// The measurements have been renewed: note when.
    StampMonitors,
    /// The tick is over.
    Done,
}

/// The time from a stamp to a reading, nothing if the reading is earlier.
pub open spec fn elapsed(since: u128, now: u128) -> int {
    if now >= since {
        now - since
    } else {
        0
    }
}

/// Whether a tick renews the clock's text.
pub open spec fn clock_is_due(s: BarModel, now: u128) -> bool {
    elapsed(s.last_clock_update, now) >= CLOCK_PERIOD
}

/// Whether a tick renews the measurements.
pub open spec fn monitors_are_due(s: BarModel, now: u128) -> bool {
    elapsed(s.last_monitor_update, now) >= MONITOR_PERIOD
}

/// The bar showing a time.
pub open spec fn time_shown(s: BarModel, t: CivilTime) -> BarModel {
    BarModel { formated_now: t.text(s.show_seconds), ..s }
}

/// The bar after a step of a tick; `t` is the moment that the local clock gives, where
/// it is read.
pub open spec fn tick_state(s: BarModel, phase: TickPhase, now: u128, t: LocalTime) -> BarModel {
    match phase {
        TickPhase::CheckClock => if clock_is_due(s, now) {
            BarModel { readings: s.readings.push(t), ..time_shown(s, t.civil()) }
        } else {
            s
        },
        TickPhase::StampClock => BarModel { last_clock_update: now, ..s },
        TickPhase::StampMonitors => BarModel { last_monitor_update: now, ..s },
        TickPhase::CheckMonitors => s,
        TickPhase::Done => s,
    }
}

/// The step that follows a step of a tick. Before [`TickPhase::StampMonitors`]
/// the measurements are renewed.
pub open spec fn tick_next(s: BarModel, phase: TickPhase, now: u128) -> TickPhase {
    match phase {
        TickPhase::CheckClock => if clock_is_due(s, now) {
            TickPhase::StampClock
        } else {
            TickPhase::CheckMonitors
        },
        TickPhase::StampClock => TickPhase::CheckMonitors,
        TickPhase::CheckMonitors => if monitors_are_due(s, now) {
            TickPhase::StampMonitors
        } else {
            TickPhase::Done
        },
        TickPhase::StampMonitors => TickPhase::Done,
        TickPhase::Done => TickPhase::Done,
    }
}

impl GpuiBar {
    /// Shows a time, with or without seconds as the bar is set.
    pub fn show_time(&mut self, t: &LocalTime)
        requires
            t.valid(),
        ensures
            final(self)@ == time_shown(old(self)@, t.civil()),
    {
        self.formated_now = clock_text(t, self.show_seconds);
    }

    /// Takes one step of a tick and says which follows. The local clock is read once
    /// where the clock's text is renewed, and not at all elsewhere; the text shows the
    /// moment that this very reading gave.
    pub fn tick(&mut self, phase: TickPhase, now: u128) -> (next: TickPhase)
        ensures
            next == tick_next(old(self)@, phase, now),
            exists|t: LocalTime|
                #[trigger] t.valid() && final(self)@ == tick_state(old(self)@, phase, now, t),
            !(phase == TickPhase::CheckClock && clock_is_due(old(self)@, now)) ==> forall|
                t: LocalTime,
            | final(self)@ == #[trigger] tick_state(old(self)@, phase, now, t),
            phase == TickPhase::CheckClock && now - old(self).last_clock_update >= 900_000_000 ==> {
                let t = final(self).clock@.last();
                &&& final(self).clock@ == old(self).clock@.push(t)
                &&& t.valid()
                &&& final(self).formated_now@ == t.civil().text(old(self).show_seconds)
                &&& final(self)@ == tick_state(old(self)@, phase, now, t)
            },
            !(phase == TickPhase::CheckClock && now - old(self).last_clock_update >= 900_000_000)
                ==> final(self).clock@ == old(self).clock@ && final(self).formated_now@
                == old(self).formated_now@,
    {
        let ghost sample = LocalTime {
            utc: CivilTime { year: 1970, month: 1, day: 1, hour: 0, minute: 0, second: 0 },
            offset: 0,
        };
        assert(sample.valid());
        match phase {
            TickPhase::CheckClock => {
                if now.saturating_sub(self.last_clock_update) >= CLOCK_PERIOD {
                    let t = local_now(&mut self.clock);
                    self.show_time(&t);
                    TickPhase::StampClock
                } else {
                    TickPhase::CheckMonitors
                }
            },
            TickPhase::StampClock => {
                self.last_clock_update = now;
                TickPhase::CheckMonitors
            },
            TickPhase::CheckMonitors => {
                if now.saturating_sub(self.last_monitor_update) >= MONITOR_PERIOD {
                    TickPhase::StampMonitors
                } else {
                    TickPhase::Done
                }
            },
            TickPhase::StampMonitors => {
                self.last_monitor_update = now;
                TickPhase::Done
            },
            TickPhase::Done => TickPhase::Done,
        }
    }
}

/// A mouse button.
#[derive(Clone, Copy, Debug, PartialEq, Eq, Structural)]
pub enum Button {
    Left,
    Right,
}

/// Where the user clicked. Only brightness and volume tell the buttons apart, the
/// rest take the left one.
#[derive(Clone, Copy, Debug, PartialEq, Eq, Structural)]
pub enum Click {
    Tag { index: usize },
    LayoutToggle,
    LayoutOption { layout_index: u32 },
    Brightness { button: Button },
    Volume { button: Button },
    Screenshot,
    Time,
}

/// What is to be done outside of the bar after a click.
#[derive(Debug)]
pub enum Action {
    Nothing,
    /// Hand a request to the window manager.
    Send { command: Command },
    /// Change the brightness by a number of percent.
    AdjustBrightness { percent: i32 },
    /// Mute a device, or let it be heard again.
    ToggleMute { device: String },
    /// Set the volume of a device and whether it is muted.
    SetVolume { device: String, volume: i32, is_muted: bool },
    /// Start a program with one argument.
    Spawn { program: &'static str, argument: &'static str },
}

/// What an [`Action`] holds.
#[verifier::ext_equal]
pub enum ActionModel {
    Nothing,
    Send { command: Command },
    AdjustBrightness { percent: int },
    ToggleMute { device: Seq<char> },
    SetVolume { device: Seq<char>, volume: int, is_muted: bool },
    Spawn { program: Seq<char>, argument: Seq<char> },
}

impl View for Action {
    type V = ActionModel;

    open spec fn view(&self) -> ActionModel {
        match *self {
            Action::Nothing => ActionModel::Nothing,
            Action::Send { command } => ActionModel::Send { command },
            Action::AdjustBrightness { percent } => ActionModel::AdjustBrightness {
                percent: percent as int,
            },
            Action::ToggleMute { device } => ActionModel::ToggleMute { device: device@ },
            Action::SetVolume { device, volume, is_muted } => ActionModel::SetVolume {
                device: device@,
                volume: volume as int,
                is_muted,
            },
            Action::Spawn { program, argument } => ActionModel::Spawn {
                program: program@,
                argument: argument@,
            },
        }
    }
}

/// The bar after a click.
pub open spec fn clicked(s: BarModel, click: Click) -> BarModel {
    match click {
        Click::Tag { index } => BarModel { active_tab: index as nat, ..s },
        Click::LayoutToggle => BarModel { layout_selector_open: !s.layout_selector_open, ..s },
        Click::LayoutOption { layout_index } => BarModel { layout_selector_open: false, ..s },
        Click::Time => BarModel { show_seconds: !s.show_seconds, ..s },
        Click::Brightness { button } => s,
        Click::Volume { button } => s,
        Click::Screenshot => s,
    }
}

/// What a click asks to be done, given the main audio device.
pub open spec fn click_action(
    s: BarModel,
    click: Click,
    master: Option<crate::devices::AudioModel>,
) -> ActionModel {
    match click {
        Click::Tag { index } => ActionModel::Send { command: tag_command(clicked(s, click), true) },
        Click::LayoutToggle => ActionModel::Nothing,
        Click::LayoutOption { layout_index } => ActionModel::Send {
            command: Command::SetLayout { layout_index, monitor_num: s.monitor_num },
        },
        Click::Brightness { button } => ActionModel::AdjustBrightness {
            percent: match button {
                Button::Left => 5,
                Button::Right => -5,
            },
        },
        Click::Volume { button } => match (button, master) {
            (_, None) => ActionModel::Nothing,
            (Button::Left, Some(d)) => ActionModel::ToggleMute { device: d.name },
            (Button::Right, Some(d)) => ActionModel::SetVolume {
                device: d.name,
                volume: crate::devices::lowered(d.volume),
                is_muted: d.is_muted,
            },
        },
        Click::Screenshot => ActionModel::Spawn { program: "flameshot"@, argument: "gui"@ },
        Click::Time => ActionModel::Nothing,
    }
}

/// Whether the bar takes a click, given the main audio device: the tag exists, and a
/// volume to be lowered stays in the range of its type.
pub open spec fn takes(click: Click, master: Option<crate::devices::AudioModel>) -> bool {
    match click {
        Click::Tag { index } => index < TAG_COUNT,
        Click::Volume { button: Button::Right } => master matches Some(d) ==> d.volume >= i32::MIN
            + VOLUME_STEP,
        _ => true,
    }
}

/// Whether the bar is drawn anew after a click: always, but for a screenshot.
pub fn redraws(click: Click) -> (redraw: bool)
    ensures
        redraw == !(click is Screenshot),
{
    match click {
        Click::Screenshot => false,
        _ => true,
    }
}

impl GpuiBar {
    /// Reacts to a click, given the main audio device.
    pub fn click(&mut self, click: Click, master: Option<&AudioDevice>) -> (action: Action)
        requires
            takes(click, crate::devices::audio_model(master)),
        ensures
            final(self)@ == clicked(old(self)@, click),
            action@ == click_action(
                old(self)@,
                click,
                crate::devices::audio_model(master),
            ),
    {
        match click {
            Click::Tag { index } => {
                self.active_tab = index;
                Action::Send { command: self.send_tag_command(true) }
            },
            Click::LayoutToggle => {
                self.layout_selector_open = !self.layout_selector_open;
                Action::Nothing
            },
            Click::LayoutOption { layout_index } => {
                let command = self.send_layout_command(layout_index);
                self.layout_selector_open = false;
                Action::Send { command }
            },
            Click::Brightness { button: Button::Left } => Action::AdjustBrightness {
                percent: BRIGHTNESS_STEP,
            },
            Click::Brightness { button: Button::Right } => Action::AdjustBrightness {
                percent: -BRIGHTNESS_STEP,
            },
            Click::Volume { button } => match master {
                None => Action::Nothing,
                Some(d) => match button {
                    Button::Left => Action::ToggleMute { device: d.name.clone() },
                    Button::Right => Action::SetVolume {
                        device: d.name.clone(),
                        volume: lowered_volume(d.volume),
                        is_muted: d.is_muted,
                    },
                },
            },
            Click::Screenshot => Action::Spawn { program: "flameshot", argument: "gui" },
            Click::Time => {
                self.show_seconds = !self.show_seconds;
                Action::Nothing
            },
        }
    }
}

} // verus!
