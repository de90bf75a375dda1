//! What the bar is told about the machine: measurements and the audio device.
use crate::reading::Reading;
use vstd::prelude::*;

verus! {

/// A measured percentage together with its text, rounded to a whole number.
#[derive(Debug)]
pub struct Gauge {
    pub value: Reading,
    pub text: String,
}

/// What a [`Gauge`] holds.
#[verifier::ext_equal]
pub struct GaugeModel {
    pub value: Reading,
    pub text: Seq<char>,
}

impl View for Gauge {
    type V = GaugeModel;

    open spec fn view(&self) -> GaugeModel {
        GaugeModel { value: self.value, text: self.text@ }
    }
}

/// The gauge at zero percent.
pub open spec fn zero_gauge() -> GaugeModel {
    GaugeModel { value: Reading { bits: 0 }, text: "0"@ }
}

impl Gauge {
    /// The gauge at zero percent, shown before anything was measured.
    pub fn zero() -> (g: Self)
        ensures
            g@ == zero_gauge(),
    {
        Gauge { value: Reading { bits: 0 }, text: "0".to_owned() }
    }
}

/// The latest measurements of the system monitor.
#[derive(Debug)]
pub struct SystemSnapshot {
    pub cpu_average: Gauge,
    pub memory_usage_percent: Gauge,
    pub battery_percent: Gauge,
    pub is_charging: bool,
}

/// What a [`SystemSnapshot`] holds.
#[verifier::ext_equal]
pub struct SnapshotModel {
    pub cpu_average: GaugeModel,
    pub memory_usage_percent: GaugeModel,
    pub battery_percent: GaugeModel,
    pub is_charging: bool,
}

impl View for SystemSnapshot {
    type V = SnapshotModel;

    open spec fn view(&self) -> SnapshotModel {
        SnapshotModel {
            cpu_average: self.cpu_average@,
            memory_usage_percent: self.memory_usage_percent@,
            battery_percent: self.battery_percent@,
            is_charging: self.is_charging,
        }
    }
}

/// What is shown of the measurements: zero and not charging where there are none.
pub open spec fn shown_snapshot(snapshot: Option<&SystemSnapshot>) -> SnapshotModel {
    match snapshot {
        Some(s) => s@,
        None => SnapshotModel {
            cpu_average: zero_gauge(),
            memory_usage_percent: zero_gauge(),
            battery_percent: zero_gauge(),
            is_charging: false,
        },
    }
}

/// An audio device.
#[derive(Debug)]
pub struct AudioDevice {
    pub name: String,
    /// In percent, as the device reports it.
    pub volume: i32,
    pub is_muted: bool,
}

/// What an [`AudioDevice`] holds.
#[verifier::ext_equal]
pub struct AudioModel {
    pub name: Seq<char>,
    pub volume: int,
    pub is_muted: bool,
}

impl View for AudioDevice {
    type V = AudioModel;

    open spec fn view(&self) -> AudioModel {
        AudioModel { name: self.name@, volume: self.volume as int, is_muted: self.is_muted }
    }
}

/// The audio device behind a reference, if there is one.
pub open spec fn audio_model(device: Option<&AudioDevice>) -> Option<AudioModel> {
    match device {
        Some(d) => Some(d@),
        None => None,
    }
}

/// A volume brought into the range from 0 to 100 percent.
pub open spec fn clamped(volume: int) -> int {
    if volume < 0 {
        0
    } else if volume > 100 {
        100
    } else {
        volume
    }
}

/// By how much one click lowers the volume, in percent.
pub const VOLUME_STEP: i32 = 5;

/// By how much one click changes the brightness, in percent.
pub const BRIGHTNESS_STEP: i32 = 5;

/// Brings a volume into the range from 0 to 100 percent.
pub fn clamp_percent(volume: i32) -> (v: i32)
    ensures
        v == clamped(volume as int),
{
    if volume < 0 {
        0
    } else if volume > 100 {
        100
    } else {
        volume
    }
}

/// The volume that a click sets.
pub open spec fn lowered(volume: int) -> int {
    clamped(volume - VOLUME_STEP)
}

/// The volume that a click sets, for the one that the device reports.
pub fn lowered_volume(volume: i32) -> (v: i32)
    requires
        volume >= i32::MIN + VOLUME_STEP,
    ensures
        v == lowered(volume as int),
{
    clamp_percent(volume - VOLUME_STEP)
}

/// The volume after a number of clicks, each lowering what the one before set.
pub open spec fn lowered_times(volume: int, clicks: nat) -> int
    decreases clicks,
{
    if clicks == 0 {
        volume
    } else {
        lowered(lowered_times(volume, (clicks - 1) as nat))
    }
}

/// Lowering never leaves the range from 0 to 100, and from a volume in that range
/// `n` clicks take away five percent each until nothing is left.
pub proof fn law_clicks_lower_to_silence(volume: int, clicks: nat)
    requires
        0 <= volume <= 100,
    ensures
        0 <= lowered_times(volume, clicks) <= 100,
        lowered_times(volume, clicks) == (if volume >= 5 * clicks {
            volume - 5 * clicks
        } else {
            0
        }),
    decreases clicks,
{
    if clicks > 0 {
        law_clicks_lower_to_silence(volume, (clicks - 1) as nat);
    }
}

/// A volume inside the range from 0 to 100 stays, one outside goes to the nearer end; a
/// click takes five percent off and stays in the range.
pub proof fn law_volumes_stay_in_range(volume: int)
    ensures
        0 <= volume <= 100 ==> clamped(volume) == volume,
        volume < 0 ==> clamped(volume) == 0,
        volume > 100 ==> clamped(volume) == 100,
        5 <= volume <= 105 ==> lowered(volume) == volume - 5,
        volume < 5 ==> lowered(volume) == 0,
        volume > 105 ==> lowered(volume) == 100,
        VOLUME_STEP == 5,
        BRIGHTNESS_STEP == 5,
{
}

/// What was measured is shown as it was measured; where nothing was, every gauge is the
/// number zero with the text of zero, and the battery is not charging.
pub proof fn law_measurements_are_shown(snapshot: Option<&SystemSnapshot>)
    ensures
        ({
            let shown = shown_snapshot(snapshot);
            match snapshot {
                Some(m) => {
                    &&& shown.cpu_average.value == m.cpu_average.value
                    &&& shown.cpu_average.text == m.cpu_average.text@
                    &&& shown.memory_usage_percent.value == m.memory_usage_percent.value
                    &&& shown.memory_usage_percent.text == m.memory_usage_percent.text@
                    &&& shown.battery_percent.value == m.battery_percent.value
                    &&& shown.battery_percent.text == m.battery_percent.text@
                    &&& shown.is_charging == m.is_charging
                },
                None => {
                    &&& shown.cpu_average.value.bits == 0
                    &&& shown.cpu_average.text == seq!['0']
                    &&& shown.memory_usage_percent.value.bits == 0
                    &&& shown.memory_usage_percent.text == seq!['0']
                    &&& shown.battery_percent.value.bits == 0
                    &&& shown.battery_percent.text == seq!['0']
                    &&& !shown.is_charging
                },
            }
        }),
{
    reveal_strlit("0");
    assert("0"@ =~= seq!['0']);
}

/// The model of a gauge, of measurements and of a device leaves nothing out.
pub proof fn law_device_models(g: Gauge, m: SystemSnapshot, d: AudioDevice)
    ensures
        g@.value == g.value && g@.text == g.text@,
        m@.cpu_average == m.cpu_average@ && m@.memory_usage_percent == m.memory_usage_percent@,
        m@.battery_percent == m.battery_percent@ && m@.is_charging == m.is_charging,
        d@.name == d.name@ && d@.volume == d.volume && d@.is_muted == d.is_muted,
        audio_model(Some(&d)) == Some(d@),
        audio_model(None) is None,
        zero_gauge().value.bits == 0,
        zero_gauge().text == seq!['0'],
{
    reveal_strlit("0");
    assert("0"@ =~= seq!['0']);
}

} // verus!
