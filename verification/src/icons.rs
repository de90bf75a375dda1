//! The glyphs of the bar's font and the rules that choose among them.
use crate::text::{joined, decimal_i64};
use vstd::prelude::*;

verus! {

/// The font that holds the glyphs.
pub const NERD_FONT: &'static str = "JetBrainsMono Nerd Font";

/// The number of workspace tags.
pub const TAG_COUNT: usize = 9;

/// The glyphs of the workspace tags.
pub const TAG_ICONS: [&'static str; 9] = [
    "\u{F0A1E}",
    "\u{F0239}",
    "\u{F0A1B}",
    "\u{F0B79}",
    "\u{F024B}",
    "\u{F0388}",
    "\u{F0567}",
    "\u{F01F0}",
    "\u{F0297}",
];

pub const ICON_CPU: &'static str = "\u{F4BC}";

pub const ICON_MEM: &'static str = "\u{F035B}";

pub const ICON_BAT_FULL: &'static str = "\u{F0079}";

pub const ICON_BAT_CHG: &'static str = "\u{F0084}";

pub const ICON_VOL_HIGH: &'static str = "\u{F057E}";

pub const ICON_VOL_MID: &'static str = "\u{F0580}";

pub const ICON_VOL_LOW: &'static str = "\u{F057F}";

pub const ICON_VOL_MUTE: &'static str = "\u{F075F}";

pub const ICON_BRIGHT: &'static str = "\u{F00DE}";

pub const ICON_SHOT: &'static str = "\u{F0104}";

pub const ICON_TIME: &'static str = "\u{F0954}";

pub const ICON_MON: &'static str = "\u{F0379}";

pub const ICON_M0: &'static str = "\u{F02DA}";

pub const ICON_M1: &'static str = "\u{F02DB}";

/// How loud the speaker glyph looks, from 0 for silence to 3.
pub open spec fn loudness(volume: int, muted: bool, has_device: bool) -> nat {
    if !has_device || muted || volume <= 0 {
        0
    } else if volume < 34 {
        1
    } else if volume < 67 {
        2
    } else {
        3
    }
}

/// The speaker glyph of a loudness.
pub open spec fn speaker(level: nat) -> &'static str {
    if level == 0 {
        ICON_VOL_MUTE
    } else if level == 1 {
        ICON_VOL_LOW
    } else if level == 2 {
        ICON_VOL_MID
    } else {
        ICON_VOL_HIGH
    }
}

/// Chooses the speaker glyph for a volume in percent.
pub fn volume_icon(volume: i32, muted: bool, has_device: bool) -> (icon: &'static str)
    ensures
        icon == speaker(loudness(volume as int, muted, has_device)),
{
    if !has_device || muted || volume <= 0 {
        ICON_VOL_MUTE
    } else if volume < 34 {
        ICON_VOL_LOW
    } else if volume < 67 {
        ICON_VOL_MID
    } else {
        ICON_VOL_HIGH
    }
}

/// The name of a monitor: a glyph for the first two, `M` and the number for
/// the others.
pub open spec fn monitor_name(n: int) -> Seq<char> {
    if n == 0 {
        ICON_M0@
    } else if n == 1 {
        ICON_M1@
    } else {
        "M"@ + crate::text::decimal_int(n)
    }
}

/// Names a monitor.
pub fn monitor_num_to_icon(n: i32) -> (name: String)
    ensures
        name@ == monitor_name(n as int),
{
    match n {
        0 => ICON_M0.to_owned(),
        1 => ICON_M1.to_owned(),
        n => joined("M", decimal_i64(n as i64).as_str()),
    }
}

/// The speaker glyphs differ from each other.
proof fn lemma_speakers_distinct(a: nat, b: nat)
    requires
        a <= 3,
        b <= 3,
        speaker(a)@ == speaker(b)@,
    ensures
        a == b,
{
    reveal_strlit("\u{F057E}");
    reveal_strlit("\u{F0580}");
    reveal_strlit("\u{F057F}");
    reveal_strlit("\u{F075F}");
    assert(ICON_VOL_MUTE@[0] == '\u{F075F}');
    assert(ICON_VOL_LOW@[0] == '\u{F057F}');
    assert(ICON_VOL_MID@[0] == '\u{F0580}');
    assert(ICON_VOL_HIGH@[0] == '\u{F057E}');
    assert(speaker(a)@[0] == speaker(b)@[0]);
}

/// The speaker glyph tells the loudness, a louder device never looks quieter,
/// and silence is shown exactly where nothing can be heard.
pub proof fn law_speaker_tells_loudness(v: int, w: int, muted: bool, has_device: bool)
    requires
        v <= w,
    ensures
        loudness(v, muted, has_device) <= loudness(w, muted, has_device),
        speaker(loudness(v, muted, has_device))@ == speaker(loudness(w, muted, has_device))@
            <==> loudness(v, muted, has_device) == loudness(w, muted, has_device),
        speaker(loudness(v, muted, has_device))@ == ICON_VOL_MUTE@ <==> !has_device || muted || v
            <= 0,
{
    if speaker(loudness(v, muted, has_device))@ == speaker(loudness(w, muted, has_device))@ {
        lemma_speakers_distinct(loudness(v, muted, has_device), loudness(w, muted, has_device));
    }
    if speaker(loudness(v, muted, has_device))@ == ICON_VOL_MUTE@ {
        lemma_speakers_distinct(loudness(v, muted, has_device), 0);
    }
}

/// Two monitors never share a name.
pub proof fn law_monitor_names_distinct(m: int, n: int)
    requires
        monitor_name(m) == monitor_name(n),
    ensures
        m == n,
{
    reveal_strlit("\u{F02DA}");
    reveal_strlit("\u{F02DB}");
    reveal_strlit("M");
    assert(ICON_M0@[0] == '\u{F02DA}');
    assert(ICON_M1@[0] == '\u{F02DB}');
    assert("M"@[0] == 'M');
    assert(monitor_name(m)[0] == monitor_name(n)[0]);
    if m != 0 && m != 1 {
        assert(crate::text::decimal_int(m) =~= monitor_name(m).skip(1));
        assert(crate::text::decimal_int(n) =~= monitor_name(n).skip(1));
        crate::text::lemma_decimal_int_injective(m, n);
    }
}

/// Each glyph is one character of the font's private range.
pub proof fn law_glyphs()
    ensures
        ICON_CPU@ == seq!['\u{F4BC}'],
        ICON_MEM@ == seq!['\u{F035B}'],
        ICON_BAT_FULL@ == seq!['\u{F0079}'],
        ICON_BAT_CHG@ == seq!['\u{F0084}'],
        ICON_VOL_HIGH@ == seq!['\u{F057E}'],
        ICON_VOL_MID@ == seq!['\u{F0580}'],
        ICON_VOL_LOW@ == seq!['\u{F057F}'],
        ICON_VOL_MUTE@ == seq!['\u{F075F}'],
        ICON_BRIGHT@ == seq!['\u{F00DE}'],
        ICON_SHOT@ == seq!['\u{F0104}'],
        ICON_TIME@ == seq!['\u{F0954}'],
        ICON_MON@ == seq!['\u{F0379}'],
        ICON_M0@ == seq!['\u{F02DA}'],
        ICON_M1@ == seq!['\u{F02DB}'],
        NERD_FONT@ == "JetBrainsMono Nerd Font"@,
        TAG_COUNT == 9,
{
    reveal_strlit("\u{F4BC}");
    reveal_strlit("\u{F035B}");
    reveal_strlit("\u{F0079}");
    reveal_strlit("\u{F0084}");
    reveal_strlit("\u{F057E}");
    reveal_strlit("\u{F0580}");
    reveal_strlit("\u{F057F}");
    reveal_strlit("\u{F075F}");
    reveal_strlit("\u{F00DE}");
    reveal_strlit("\u{F0104}");
    reveal_strlit("\u{F0954}");
    reveal_strlit("\u{F0379}");
    reveal_strlit("\u{F02DA}");
    reveal_strlit("\u{F02DB}");
}

/// The glyph of each tag.
pub proof fn law_tag_glyphs(index: int)
    requires
        0 <= index < 9,
    ensures
        TAG_ICONS@[index]@ == seq![
            seq![
                '\u{F0A1E}',
                '\u{F0239}',
                '\u{F0A1B}',
                '\u{F0B79}',
                '\u{F024B}',
                '\u{F0388}',
                '\u{F0567}',
                '\u{F01F0}',
                '\u{F0297}',
            ][index],
        ],
{
    reveal_strlit("\u{F0A1E}");
    reveal_strlit("\u{F0239}");
    reveal_strlit("\u{F0A1B}");
    reveal_strlit("\u{F0B79}");
    reveal_strlit("\u{F024B}");
    reveal_strlit("\u{F0388}");
    reveal_strlit("\u{F0567}");
    reveal_strlit("\u{F01F0}");
    reveal_strlit("\u{F0297}");
    assert(TAG_ICONS@[0]@ =~= seq!['\u{F0A1E}']);
    assert(TAG_ICONS@[1]@ =~= seq!['\u{F0239}']);
    assert(TAG_ICONS@[2]@ =~= seq!['\u{F0A1B}']);
    assert(TAG_ICONS@[3]@ =~= seq!['\u{F0B79}']);
    assert(TAG_ICONS@[4]@ =~= seq!['\u{F024B}']);
    assert(TAG_ICONS@[5]@ =~= seq!['\u{F0388}']);
    assert(TAG_ICONS@[6]@ =~= seq!['\u{F0567}']);
    assert(TAG_ICONS@[7]@ =~= seq!['\u{F01F0}']);
    assert(TAG_ICONS@[8]@ =~= seq!['\u{F0297}']);
}

/// The speaker glyph of every volume: silent without a device, muted or at nothing, low
/// below 34 percent, middling below 67, high from there on.
pub proof fn law_speaker_glyph(volume: int, muted: bool, has_device: bool)
    ensures
        ({
            let glyph = speaker(loudness(volume, muted, has_device))@;
            let heard = has_device && !muted;
            &&& !heard || volume <= 0 ==> glyph == seq!['\u{F075F}']
            &&& heard && 0 < volume < 34 ==> glyph == seq!['\u{F057F}']
            &&& heard && 34 <= volume < 67 ==> glyph == seq!['\u{F0580}']
            &&& heard && 67 <= volume ==> glyph == seq!['\u{F057E}']
        }),
{
    law_glyphs();
}

/// The first two monitors have a glyph, every other one is `M` and its number.
pub proof fn law_monitor_names(n: int)
    ensures
        n == 0 ==> monitor_name(n) == seq!['\u{F02DA}'],
        n == 1 ==> monitor_name(n) == seq!['\u{F02DB}'],
        n != 0 && n != 1 ==> monitor_name(n) == seq!['M'] + crate::text::decimal_int(n),
{
    law_glyphs();
    reveal_strlit("M");
    assert("M"@ =~= seq!['M']);
}

} // verus!
