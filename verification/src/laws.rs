//! What holds of the bar across its operations.
use crate::clock::LocalTime;
use crate::devices::VOLUME_STEP;
use crate::icons::TAG_COUNT;
use crate::state::{
    ActionModel, BarModel, Button, Click, Command, MonitorModel, TagStatus, TickPhase, TICK_SECS,
};
use crate::view::{BarViewModel, WidgetModel, LAYOUT_COUNT, LAYOUT_SYMBOLS};
use vstd::arithmetic::power2::*;
use vstd::prelude::*;

verus! {

/// The active tag is the last one that the window manager reports as selected;
/// where it reports none, the active tag stays.
pub proof fn law_active_tab_is_last_selected(s: BarModel, m: MonitorModel)
    ensures
        ({
            let active = crate::state::shared_applied(s, m).active_tab as int;
            if exists|i: int| 0 <= i < m.tags.len() && (#[trigger] m.tags[i]).is_selected {
                &&& 0 <= active < m.tags.len()
                &&& m.tags[active].is_selected
                &&& forall|j: int| active < j < m.tags.len() ==> !(#[trigger] m.tags[j]).is_selected
            } else {
                active == s.active_tab
            }
        }),
    decreases m.tags.len(),
{
    if m.tags.len() > 0 && !m.tags.last().is_selected {
        let shorter = MonitorModel { tags: m.tags.drop_last(), ..m };
        law_active_tab_is_last_selected(s, shorter);
        assert forall|i: int| 0 <= i < m.tags.len() && (#[trigger] m.tags[i]).is_selected implies {
            &&& i < shorter.tags.len()
            &&& shorter.tags[i].is_selected
        } by {}
        if exists|i: int| 0 <= i < shorter.tags.len() && (#[trigger] shorter.tags[i]).is_selected {
            let i = choose|i: int|
                0 <= i < shorter.tags.len() && (#[trigger] shorter.tags[i]).is_selected;
            assert(m.tags[i].is_selected);
            let active = crate::state::shared_applied(s, m).active_tab as int;
            assert forall|j: int| active < j < m.tags.len() implies !(
            #[trigger] m.tags[j]).is_selected by {
                if j < shorter.tags.len() {
                    assert(!shorter.tags[j].is_selected);
                }
            }
        }
    } else if m.tags.len() > 0 {
        assert(m.tags[m.tags.len() - 1].is_selected);
    }
}

/// A message of the window manager sets what the bar knows of the monitor and
/// leaves the clock, the choice of seconds and the layout selector alone. The same
/// message again changes nothing.
pub proof fn law_message_sets_monitor_only(s: BarModel, m: MonitorModel)
    ensures
        ({
            let after = crate::state::shared_applied(s, m);
            &&& after.monitor == Some(m)
            &&& after.layout_symbol == m.ltsymbol
            &&& after.monitor_num == m.monitor_num
            &&& after.formated_now == s.formated_now
            &&& after.show_seconds == s.show_seconds
            &&& after.layout_selector_open == s.layout_selector_open
            &&& after.last_clock_update == s.last_clock_update
            &&& after.last_monitor_update == s.last_monitor_update
            &&& after.readings == s.readings
            &&& crate::state::shared_applied(after, m) == after
        }),
{
    lemma_last_selected_again(m.tags, s.active_tab);
}

/// The last selected tag stays the last selected tag.
proof fn lemma_last_selected_again(tags: Seq<TagStatus>, current: nat)
    ensures
        crate::state::last_selected(tags, crate::state::last_selected(tags, current))
            == crate::state::last_selected(tags, current),
    decreases tags.len(),
{
    if tags.len() > 0 && !tags.last().is_selected {
        lemma_last_selected_again(tags.drop_last(), current);
    }
}

/// Whatever the audio device, a click on a tag makes it active and asks the window
/// manager to view it on the bar's monitor, by a bit of its own: clicks on two tags ask
/// for different bits.
pub proof fn law_tag_click_views_tag(
    s: BarModel,
    master: Option<crate::devices::AudioModel>,
    i: usize,
    j: usize,
)
    requires
        i < TAG_COUNT,
    ensures
        crate::state::click_action(s, Click::Tag { index: i }, master) == (ActionModel::Send {
            command: Command::ViewTag {
                tag_bit: pow2(i as nat) as u32,
                monitor_num: s.monitor_num,
            },
        }),
        crate::state::clicked(s, Click::Tag { index: i }).active_tab == i,
        pow2(i as nat) as u32 == pow2(i as nat),
        j < TAG_COUNT && i != j ==> pow2(i as nat) as u32 != pow2(j as nat) as u32,
{
    vstd::bits::lemma_u32_pow2_no_overflow(i as nat);
    if j < TAG_COUNT {
        vstd::bits::lemma_u32_pow2_no_overflow(j as nat);
        if i < j {
            lemma_pow2_strictly_increases(i as nat, j as nat);
        } else if j < i {
            lemma_pow2_strictly_increases(j as nat, i as nat);
        }
    }
}

/// A second click on the clock or on the layout button takes the first one back.
pub proof fn law_toggles_undo_themselves(s: BarModel)
    ensures
        crate::state::clicked(crate::state::clicked(s, Click::Time), Click::Time) == s,
        crate::state::clicked(crate::state::clicked(s, Click::LayoutToggle), Click::LayoutToggle)
            == s,
{
}

/// No click changes what the bar knows of the monitor, the text of the clock or the
/// stamps; clicks on brightness, volume and screenshot change nothing in the bar.
pub proof fn law_clicks_leave_the_rest(s: BarModel, click: Click)
    ensures
        ({
            let after = crate::state::clicked(s, click);
            &&& after.monitor == s.monitor
            &&& after.formated_now == s.formated_now
            &&& after.layout_symbol == s.layout_symbol
            &&& after.monitor_num == s.monitor_num
            &&& after.last_clock_update == s.last_clock_update
            &&& after.last_monitor_update == s.last_monitor_update
            &&& click is Brightness || click is Volume || click is Screenshot ==> after == s
        }),
{
}

/// The readings of the steady clock that a tick takes.
pub struct TickReadings {
    pub clock_check: u128,
    pub clock_stamp: u128,
    pub monitor_check: u128,
    pub monitor_stamp: u128,
}

/// The reading that belongs to a step.
pub open spec fn reading_for(r: TickReadings, phase: TickPhase) -> u128 {
    match phase {
        TickPhase::CheckClock => r.clock_check,
        TickPhase::StampClock => r.clock_stamp,
        TickPhase::CheckMonitors => r.monitor_check,
        TickPhase::StampMonitors => r.monitor_stamp,
        TickPhase::Done => r.monitor_stamp,
    }
}

/// The bar and the next step after a number of steps of a tick.
pub open spec fn tick_run(s: BarModel, r: TickReadings, t: LocalTime, steps: nat) -> (
    BarModel,
    TickPhase,
)
    decreases steps,
{
    if steps == 0 {
        (s, TickPhase::CheckClock)
    } else {
        let (before, phase) = tick_run(s, r, t, (steps - 1) as nat);
        (
            crate::state::tick_state(before, phase, reading_for(r, phase), t),
            crate::state::tick_next(before, phase, reading_for(r, phase)),
        )
    }
}

/// What each step of a tick leads to: the text of the clock is renewed where its stamp
/// is 900 ms old, and then stamped; the measurements are to be renewed where theirs is
/// two seconds old, and then stamped; and the tick is over.
pub proof fn law_steps_of_a_tick(s: BarModel, now: u128)
    ensures
        ({
            let clock_old = now - s.last_clock_update >= 900_000_000;
            let monitors_old = now - s.last_monitor_update >= 2_000_000_000;
            let next = |phase: TickPhase| crate::state::tick_next(s, phase, now);
            &&& next(TickPhase::CheckClock) == TickPhase::StampClock <==> clock_old
            &&& next(TickPhase::CheckClock) == TickPhase::CheckMonitors <==> !clock_old
            &&& next(TickPhase::StampClock) == TickPhase::CheckMonitors
            &&& next(TickPhase::CheckMonitors) == TickPhase::StampMonitors <==> monitors_old
            &&& next(TickPhase::CheckMonitors) == TickPhase::Done <==> !monitors_old
            &&& next(TickPhase::StampMonitors) == TickPhase::Done
            &&& next(TickPhase::Done) == TickPhase::Done
        }),
{
}

/// What each step of a tick changes: only the steps that stamp touch a stamp, each its
/// own; only a check of a clock 900 ms old touches the text, which then shows the moment
/// that was read and nothing else.
pub proof fn law_changes_of_a_tick(s: BarModel, now: u128, t: LocalTime)
    ensures
        ({
            let after = |phase: TickPhase| crate::state::tick_state(s, phase, now, t);
            let checked = after(TickPhase::CheckClock);
            &&& now - s.last_clock_update >= 900_000_000 ==> checked == BarModel {
                formated_now: t.civil().text(s.show_seconds),
                readings: s.readings.push(t),
                ..s
            }
            &&& now - s.last_clock_update < 900_000_000 ==> checked == s
            &&& after(TickPhase::StampClock) == BarModel { last_clock_update: now, ..s }
            &&& after(TickPhase::CheckMonitors) == s
            &&& after(TickPhase::StampMonitors) == BarModel { last_monitor_update: now, ..s }
            &&& after(TickPhase::Done) == s
        }),
{
}

/// Four steps complete a tick. It renews the clock's text and its stamp if and only
/// if the stamp is at least 900 ms old, and the stamp of the measurements if and only
/// if that is at least two seconds old; it changes nothing else.
pub proof fn law_tick_completes(s: BarModel, r: TickReadings, t: LocalTime)
    ensures
        tick_run(s, r, t, 4).1 == TickPhase::Done,
        ({
            let clock_old = r.clock_check - s.last_clock_update >= 900_000_000;
            let monitors_old = r.monitor_check - s.last_monitor_update >= 2_000_000_000;
            tick_run(s, r, t, 4).0 == (BarModel {
                formated_now: if clock_old {
                    t.civil().text(s.show_seconds)
                } else {
                    s.formated_now
                },
                readings: if clock_old {
                    s.readings.push(t)
                } else {
                    s.readings
                },
                last_clock_update: if clock_old {
                    r.clock_stamp
                } else {
                    s.last_clock_update
                },
                last_monitor_update: if monitors_old {
                    r.monitor_stamp
                } else {
                    s.last_monitor_update
                },
                ..s
            })
        }),
{
    reveal_with_fuel(tick_run, 5);
}

/// After a tick has renewed the clock, the ticks of the next 900 ms leave its text
/// alone, and after one has renewed the measurements, those of the next two seconds
/// leave them alone.
pub proof fn law_renewals_keep_apart(
    s: BarModel,
    r: TickReadings,
    t: LocalTime,
    later: TickReadings,
    u: LocalTime,
)
    ensures
        ({
            let first = tick_run(s, r, t, 4).0;
            let second = tick_run(first, later, u, 4).0;
            &&& r.clock_check - s.last_clock_update >= 900_000_000 && later.clock_check
                < r.clock_stamp + 900_000_000 ==> second.formated_now == first.formated_now
                && second.last_clock_update == first.last_clock_update
            &&& r.monitor_check - s.last_monitor_update >= 2_000_000_000 && later.monitor_check
                < r.monitor_stamp + 2_000_000_000 ==> second.last_monitor_update
                == first.last_monitor_update
        }),
{
    law_tick_completes(s, r, t);
    law_tick_completes(tick_run(s, r, t, 4).0, later, u);
}

/// Ticks that keep their distance of a second renew the clock each time: a tick that
/// comes no sooner than a second after the last renewal shows the moment that it read.
pub proof fn law_each_tick_renews_the_clock(s: BarModel, r: TickReadings, t: LocalTime)
    requires
        r.clock_check >= s.last_clock_update + 1_000_000_000,
    ensures
        tick_run(s, r, t, 4).0.formated_now == t.civil().text(s.show_seconds),
        tick_run(s, r, t, 4).0.last_clock_update == r.clock_stamp,
        tick_run(s, r, t, 4).0.readings == s.readings.push(t),
        TICK_SECS == 1,
{
    law_tick_completes(s, r, t);
}

/// A tag button is emphasised exactly where the tag is urgent, filled or selected,
/// and an urgent tag looks urgent whatever else holds of it.
pub proof fn law_tag_emphasis(color: u32, status: TagStatus)
    ensures
        crate::view::tag_look(color, Some(status)).2 <==> status.is_urg || status.is_filled
            || status.is_selected,
        status.is_urg ==> crate::view::tag_look(color, Some(status)) == crate::view::tag_look(
            color,
            Some(
                TagStatus {
                    is_selected: false,
                    is_urg: true,
                    is_filled: false,
                    is_occ: false,
                },
            ),
        ),
{
}

/// The layouts are listed exactly while the selector is open: a click on the layout
/// button opens or closes it, a click on a layout closes it.
pub proof fn law_selector_shown_while_open(
    s: BarModel,
    layout_index: u32,
    snapshot: crate::devices::SnapshotModel,
    brightness: Option<i64>,
    master: Option<crate::devices::AudioModel>,
)
    ensures
        crate::view::shown(s, snapshot, brightness, master).layout_options is Some
            <==> s.layout_selector_open,
        crate::view::shown(
            crate::state::clicked(s, Click::LayoutToggle),
            snapshot,
            brightness,
            master,
        ).layout_options is Some <==> !s.layout_selector_open,
        crate::view::shown(
            crate::state::clicked(s, Click::LayoutOption { layout_index }),
            snapshot,
            brightness,
            master,
        ).layout_options is None,
{
}

/// What is shown waits for the answer: a click on a tag, on the clock, on brightness,
/// volume or screenshot changes nothing on the bar until the window manager, a tick or
/// a new measurement does.
pub proof fn law_clicks_show_after_the_answer(
    s: BarModel,
    click: Click,
    snapshot: crate::devices::SnapshotModel,
    brightness: Option<i64>,
    master: Option<crate::devices::AudioModel>,
)
    requires
        !(click is LayoutToggle),
        !(click is LayoutOption),
    ensures
        crate::view::shown(crate::state::clicked(s, click), snapshot, brightness, master)
            == crate::view::shown(s, snapshot, brightness, master),
{
    let after = crate::state::clicked(s, click);
    assert(crate::view::tag_row(after) =~= crate::view::tag_row(s)) by {
        assert forall|i: int| 0 <= i < TAG_COUNT implies crate::view::tag_widget(after, i)
            == crate::view::tag_widget(s, i) by {
            assert(crate::view::status_of(after, i) == crate::view::status_of(s, i));
        }
    }
    assert(crate::view::layout_options(after) =~= crate::view::layout_options(s)) by {
        assert forall|i: int| 0 <= i < LAYOUT_COUNT implies crate::view::layout_option(after, i)
            == crate::view::layout_option(s, i) by {
            assert(crate::view::is_current_layout(after, i)
                == crate::view::is_current_layout(s, i));
        }
    }
}

/// At most one layout of the selector is the current one.
pub proof fn law_one_current_layout(s: BarModel, i: int, j: int)
    requires
        0 <= i < LAYOUT_COUNT,
        0 <= j < LAYOUT_COUNT,
        crate::view::is_current_layout(s, i),
        crate::view::is_current_layout(s, j),
    ensures
        i == j,
{
    reveal_strlit("[]=");
    reveal_strlit("><>");
    reveal_strlit("[M]");
    assert(LAYOUT_SYMBOLS@[0]@[1] == ']');
    assert(LAYOUT_SYMBOLS@[1]@[1] == '<');
    assert(LAYOUT_SYMBOLS@[2]@[1] == 'M');
    assert(LAYOUT_SYMBOLS@[i]@[1] == LAYOUT_SYMBOLS@[j]@[1]);
}

/// All widgets of a bar, from left to right.
pub open spec fn all_widgets(v: BarViewModel) -> Seq<WidgetModel> {
    v.tags + seq![v.layout_button] + (match v.layout_options {
        Some(options) => options,
        None => Seq::empty(),
    }) + v.right_pills
}

/// The number of layouts that are listed.
pub open spec fn listed_layouts(s: BarModel) -> int {
    if s.layout_selector_open {
        LAYOUT_COUNT as int
    } else {
        0
    }
}

/// Which widget stands at a place, counted from the left.
proof fn lemma_widget_places(
    s: BarModel,
    snapshot: crate::devices::SnapshotModel,
    brightness: Option<i64>,
    master: Option<crate::devices::AudioModel>,
    k: int,
)
    requires
        0 <= k < all_widgets(crate::view::shown(s, snapshot, brightness, master)).len(),
    ensures
        ({
            let v = crate::view::shown(s, snapshot, brightness, master);
            let right = TAG_COUNT + 1 + listed_layouts(s);
            &&& all_widgets(v).len() == right + v.right_pills.len()
            &&& all_widgets(v)[k] == (if k < TAG_COUNT {
                crate::view::tag_row(s)[k]
            } else if k == TAG_COUNT {
                crate::view::layout_button(s)
            } else if k < right {
                crate::view::layout_options(s)[k - TAG_COUNT - 1]
            } else {
                v.right_pills[k - right]
            })
        }),
{
}

/// The tag buttons have names of their own, which start with `ta`.
proof fn lemma_tag_ids(s: BarModel)
    ensures
        forall|i: int|
            0 <= i < TAG_COUNT ==> {
                let id = (#[trigger] crate::view::tag_row(s)[i]).id;
                id.len() >= 4 && id[0] == 't' && id[1] == 'a'
            },
        forall|i: int, j: int|
            0 <= i < j < TAG_COUNT ==> (#[trigger] crate::view::tag_row(s)[i]).id != (
            #[trigger] crate::view::tag_row(s)[j]).id,
{
    reveal_strlit("tag-");
    assert forall|i: int, j: int| 0 <= i < j < TAG_COUNT implies (
    #[trigger] crate::view::tag_row(s)[i]).id != (#[trigger] crate::view::tag_row(s)[j]).id by {
        let a = crate::view::tag_id(i as nat);
        let b = crate::view::tag_id(j as nat);
        if a == b {
            assert(a.skip(4) =~= crate::text::decimal_nat(i as nat));
            assert(b.skip(4) =~= crate::text::decimal_nat(j as nat));
            crate::text::lemma_decimal_nat_injective(i as nat, j as nat);
        }
    }
}

/// The entries of the selector have names of their own, which start with `l` and
/// differ from that of the layout button.
proof fn lemma_layout_ids(s: BarModel)
    ensures
        crate::view::layout_button(s).id.len() >= 8,
        crate::view::layout_button(s).id[0] == 'l',
        crate::view::layout_button(s).id[7] == 't',
        forall|i: int|
            0 <= i < LAYOUT_COUNT ==> {
                let id = (#[trigger] crate::view::layout_options(s)[i]).id;
                id.len() >= 11 && id[0] == 'l' && id[7] == 'o'
            },
        forall|i: int, j: int|
            0 <= i < j < LAYOUT_COUNT ==> (#[trigger] crate::view::layout_options(s)[i]).id != (
            #[trigger] crate::view::layout_options(s)[j]).id,
{
    reveal_strlit("layout-toggle");
    reveal_strlit("layout-opt-");
    assert forall|i: int, j: int| 0 <= i < j < LAYOUT_COUNT implies (
    #[trigger] crate::view::layout_options(s)[i]).id != (
    #[trigger] crate::view::layout_options(s)[j]).id by {
        let a = crate::view::layout_option_id(i as nat);
        let b = crate::view::layout_option_id(j as nat);
        if a == b {
            assert(a.skip(11) =~= crate::text::decimal_nat(i as nat));
            assert(b.skip(11) =~= crate::text::decimal_nat(j as nat));
            crate::text::lemma_decimal_nat_injective(i as nat, j as nat);
        }
    }
}

/// The pills on the right have names of their own, unlike those of the tags and of
/// the layouts.
proof fn lemma_pill_ids(
    s: BarModel,
    snapshot: crate::devices::SnapshotModel,
    brightness: Option<i64>,
    master: Option<crate::devices::AudioModel>,
)
    ensures
        ({
            let pills = crate::view::shown(s, snapshot, brightness, master).right_pills;
            &&& pills.len() == 9
            &&& forall|i: int|
                0 <= i < 9 ==> {
                    let id = (#[trigger] pills[i]).id;
                    id.len() >= 3 && id[0] != 'l' && !(id[0] == 't' && id[1] == 'a')
                }
            &&& forall|i: int, j: int|
                0 <= i < j < 9 ==> (#[trigger] pills[i]).id != (#[trigger] pills[j]).id
        }),
{
    reveal_strlit("cpu");
    reveal_strlit("mem");
    reveal_strlit("battery");
    reveal_strlit("brightness");
    reveal_strlit("volume");
    reveal_strlit("screenshot");
    reveal_strlit("time");
    reveal_strlit("monitor");
    reveal_strlit("scale");
    let pills = crate::view::shown(s, snapshot, brightness, master).right_pills;
    let names = seq![
        "cpu"@,
        "mem"@,
        "battery"@,
        "brightness"@,
        "volume"@,
        "screenshot"@,
        "time"@,
        "monitor"@,
        "scale"@,
    ];
    assert(forall|i: int| 0 <= i < 9 ==> (#[trigger] pills[i]).id == names[i]);
    assert forall|i: int, j: int| 0 <= i < j < 9 implies (#[trigger] pills[i]).id != (
    #[trigger] pills[j]).id by {
        let a = names[i];
        let b = names[j];
        assert(a[0] != b[0] || a[1] != b[1] || a[2] != b[2]);
    }
}

/// No two widgets of a bar share a name.
pub proof fn law_widget_ids_distinct(
    s: BarModel,
    snapshot: crate::devices::SnapshotModel,
    brightness: Option<i64>,
    master: Option<crate::devices::AudioModel>,
    i: int,
    j: int,
)
    requires
        0 <= i < j < all_widgets(crate::view::shown(s, snapshot, brightness, master)).len(),
    ensures
        ({
            let widgets = all_widgets(crate::view::shown(s, snapshot, brightness, master));
            widgets[i].id != widgets[j].id
        }),
{
    lemma_tag_ids(s);
    lemma_layout_ids(s);
    lemma_pill_ids(s, snapshot, brightness, master);
    let v = crate::view::shown(s, snapshot, brightness, master);
    let widgets = all_widgets(v);
    lemma_widget_places(s, snapshot, brightness, master, i);
    lemma_widget_places(s, snapshot, brightness, master, j);
    let a = widgets[i].id;
    let b = widgets[j].id;
    if a == b {
        assert(a[0] == b[0] && a[1] == b[1]);
        assert(a[7] == b[7]);
    }
}

/// The bar takes every click that it offers, but for a right click on the volume of a
/// device that reports one less than five above the least `i32`. Each tag offers the click on
/// itself, and, while the selector is open, each layout the choice of itself.
pub proof fn law_offered_clicks_are_taken(
    s: BarModel,
    snapshot: crate::devices::SnapshotModel,
    brightness: Option<i64>,
    master: Option<crate::devices::AudioModel>,
    i: int,
)
    requires
        0 <= i < all_widgets(crate::view::shown(s, snapshot, brightness, master)).len(),
    ensures
        ({
            let w = all_widgets(crate::view::shown(s, snapshot, brightness, master))[i];
            let k = i - TAG_COUNT - 1;
            &&& w.on_left matches Some(click) ==> crate::state::takes(click, master)
            &&& w.on_right matches Some(click) ==> {
                ||| crate::state::takes(click, master)
                ||| click == (Click::Volume { button: Button::Right }) && (master matches Some(d)
                    && d.volume < i32::MIN + VOLUME_STEP)
            }
            &&& i < TAG_COUNT ==> w.on_left == Some(Click::Tag { index: i as usize })
            &&& s.layout_selector_open && 0 <= k < LAYOUT_COUNT ==> {
                &&& w.on_left == Some(Click::LayoutOption { layout_index: k as u32 })
                &&& w.label == LAYOUT_SYMBOLS@[k]@
            }
        }),
{
    lemma_widget_places(s, snapshot, brightness, master, i);
}

/// The bar at the start: the first tag, no monitor yet, an empty clock with seconds, the
/// tiled layout, a closed selector, and the stamps that it was given.
pub proof fn law_bar_at_the_start(clock_stamp: u128, monitor_stamp: u128)
    ensures
        ({
            let s = crate::state::initial_bar(clock_stamp, monitor_stamp);
            &&& s.active_tab == 0
            &&& s.monitor is None
            &&& s.formated_now.len() == 0
            &&& s.show_seconds
            &&& s.layout_symbol == seq!['[', ']', '=']
            &&& s.monitor_num == 0
            &&& !s.layout_selector_open
            &&& s.last_clock_update == clock_stamp
            &&& s.last_monitor_update == monitor_stamp
            &&& s.readings.len() == 0
        }),
{
    reveal_strlit("[]=");
    assert("[]="@ =~= seq!['[', ']', '=']);
}

/// A request about the active tag carries the bit of that tag and the bar's monitor:
/// to view it alone, or to toggle it.
pub proof fn law_tag_requests(s: BarModel)
    requires
        s.active_tab < 32,
    ensures
        crate::state::tag_command(s, true) == (Command::ViewTag {
            tag_bit: pow2(s.active_tab) as u32,
            monitor_num: s.monitor_num,
        }),
        crate::state::tag_command(s, false) == (Command::ToggleTag {
            tag_bit: pow2(s.active_tab) as u32,
            monitor_num: s.monitor_num,
        }),
        pow2(s.active_tab) as u32 == pow2(s.active_tab),
{
    vstd::bits::lemma_u32_pow2_no_overflow(s.active_tab);
}

/// What each click changes in the bar, and that it changes nothing else: a tag becomes
/// the active one, the selector opens or closes, the seconds come or go.
pub proof fn law_what_clicks_change(s: BarModel, index: usize, layout_index: u32, button: Button)
    ensures
        crate::state::clicked(s, Click::Tag { index }) == (BarModel {
            active_tab: index as nat,
            ..s
        }),
        crate::state::clicked(s, Click::LayoutToggle) == (BarModel {
            layout_selector_open: !s.layout_selector_open,
            ..s
        }),
        crate::state::clicked(s, Click::LayoutOption { layout_index }) == (BarModel {
            layout_selector_open: false,
            ..s
        }),
        crate::state::clicked(s, Click::Time) == (BarModel { show_seconds: !s.show_seconds, ..s }),
        crate::state::clicked(s, Click::Brightness { button }) == s,
        crate::state::clicked(s, Click::Volume { button }) == s,
        crate::state::clicked(s, Click::Screenshot) == s,
{
}

/// A right click on the volume asks to set the volume of that very device five percent
/// lower, within 0 to 100, and to leave it muted or heard as it is.
pub proof fn law_lowering_keeps_the_mute_state(s: BarModel, d: crate::devices::AudioModel)
    ensures
        ({
            let click = Click::Volume { button: Button::Right };
            let action = crate::state::click_action(s, click, Some(d));
            &&& action matches ActionModel::SetVolume { device, volume, is_muted }
            &&& device == d.name
            &&& is_muted == d.is_muted
            &&& 0 <= volume <= 100
            &&& 5 <= d.volume <= 105 ==> volume == d.volume - 5
            &&& d.volume < 5 ==> volume == 0
            &&& d.volume > 105 ==> volume == 100
        }),
{
}

/// A left click on the volume asks to toggle the mute of that very device; without a
/// device a click on the volume asks for nothing.
pub proof fn law_left_click_toggles_mute(
    s: BarModel,
    d: crate::devices::AudioModel,
    button: Button,
)
    ensures
        crate::state::click_action(s, Click::Volume { button: Button::Left }, Some(d)) == (
        ActionModel::ToggleMute { device: d.name }),
        crate::state::click_action(s, Click::Volume { button }, None) == ActionModel::Nothing,
{
}

/// Whatever the bar and the device: the two clicks on the brightness ask for five percent
/// up and down, so that one takes the other back; a screenshot starts `flameshot gui`; the
/// clock and the layout button ask for nothing outside.
pub proof fn law_other_clicks_ask(s: BarModel, master: Option<crate::devices::AudioModel>)
    ensures
        crate::state::click_action(s, Click::Brightness { button: Button::Left }, master) == (
        ActionModel::AdjustBrightness { percent: 5 }),
        crate::state::click_action(s, Click::Brightness { button: Button::Right }, master) == (
        ActionModel::AdjustBrightness { percent: -5 }),
        crate::state::click_action(s, Click::Screenshot, master) == (ActionModel::Spawn {
            program: "flameshot"@,
            argument: "gui"@,
        }),
        crate::state::click_action(s, Click::Time, master) == ActionModel::Nothing,
        crate::state::click_action(s, Click::LayoutToggle, master) == ActionModel::Nothing,
{
}

/// Choosing a layout asks for that layout on the bar's monitor.
pub proof fn law_layout_choice_asks_for_it(
    s: BarModel,
    layout_index: u32,
    master: Option<crate::devices::AudioModel>,
)
    ensures
        crate::state::click_action(s, Click::LayoutOption { layout_index }, master) == (
        ActionModel::Send {
            command: Command::SetLayout { layout_index, monitor_num: s.monitor_num },
        }),
{
}

/// A click on the `k`-th entry of the open selector, which bears the symbol of the `k`-th
/// layout, asks the window manager for the `k`-th layout on the bar's monitor.
pub proof fn law_entry_asks_for_its_layout(
    s: BarModel,
    snapshot: crate::devices::SnapshotModel,
    brightness: Option<i64>,
    master: Option<crate::devices::AudioModel>,
    k: int,
)
    requires
        s.layout_selector_open,
        0 <= k < 3,
    ensures
        ({
            let options = crate::view::shown(s, snapshot, brightness, master).layout_options;
            let entry = options.unwrap()[k];
            let symbols = seq![seq!['[', ']', '='], seq!['>', '<', '>'], seq!['[', 'M', ']']];
            &&& options is Some
            &&& options.unwrap().len() == 3
            &&& entry.label == symbols[k]
            &&& entry.on_left is Some
            &&& crate::state::click_action(s, entry.on_left.unwrap(), master) == (
            ActionModel::Send {
                command: Command::SetLayout { layout_index: k as u32, monitor_num: s.monitor_num },
            })
            &&& entry.on_right is None
        }),
{
    reveal_strlit("[]=");
    reveal_strlit("><>");
    reveal_strlit("[M]");
    assert(LAYOUT_SYMBOLS@[0]@ =~= seq!['[', ']', '=']);
    assert(LAYOUT_SYMBOLS@[1]@ =~= seq!['>', '<', '>']);
    assert(LAYOUT_SYMBOLS@[2]@ =~= seq!['[', 'M', ']']);
}

/// A click on the `k`-th tag button asks the window manager to view the `k`-th tag on the
/// bar's monitor.
pub proof fn law_button_asks_for_its_tag(
    s: BarModel,
    snapshot: crate::devices::SnapshotModel,
    brightness: Option<i64>,
    master: Option<crate::devices::AudioModel>,
    k: int,
)
    requires
        0 <= k < 9,
    ensures
        ({
            let button = crate::view::shown(s, snapshot, brightness, master).tags[k];
            &&& button.on_left is Some
            &&& crate::state::click_action(s, button.on_left.unwrap(), master) == (
            ActionModel::Send {
                command: Command::ViewTag {
                    tag_bit: pow2(k as nat) as u32,
                    monitor_num: s.monitor_num,
                },
            })
            &&& crate::state::clicked(s, button.on_left.unwrap()).active_tab == k
            &&& button.on_right is None
        }),
{
}

/// Exactly these clicks are not taken: one on a tag that does not exist, and a right click
/// on a volume that cannot be lowered within its type.
pub proof fn law_clicks_taken(click: Click, master: Option<crate::devices::AudioModel>)
    ensures
        !crate::state::takes(click, master) <==> {
            ||| click matches Click::Tag { index } && index >= 9
            ||| click == (Click::Volume { button: Button::Right }) && (master matches Some(d)
                && d.volume < -2147483643)
        },
{
}

/// The models of the bar, of a monitor and of an action leave nothing out.
pub proof fn law_state_models(
    bar: crate::state::GpuiBar,
    info: crate::state::MonitorInfo,
    action: crate::state::Action,
)
    ensures
        bar@.active_tab == bar.active_tab,
        bar@.monitor is Some <==> bar.monitor_info_opt is Some,
        bar.monitor_info_opt matches Some(m) ==> bar@.monitor == Some(m@),
        bar@.formated_now == bar.formated_now@,
        bar@.show_seconds == bar.show_seconds,
        bar@.layout_symbol == bar.layout_symbol@,
        bar@.monitor_num == bar.monitor_num,
        bar@.layout_selector_open == bar.layout_selector_open,
        bar@.last_clock_update == bar.last_clock_update,
        bar@.last_monitor_update == bar.last_monitor_update,
        bar@.readings == bar.clock@,
        info@.monitor_num == info.monitor_num,
        info@.ltsymbol == info.ltsymbol@,
        info@.tags == info.tag_status_vec@,
        action@ == (match action {
            crate::state::Action::Nothing => ActionModel::Nothing,
            crate::state::Action::Send { command } => ActionModel::Send { command },
            crate::state::Action::AdjustBrightness { percent } => ActionModel::AdjustBrightness {
                percent: percent as int,
            },
            crate::state::Action::ToggleMute { device } => ActionModel::ToggleMute {
                device: device@,
            },
            crate::state::Action::SetVolume { device, volume, is_muted } => ActionModel::SetVolume {
                device: device@,
                volume: volume as int,
                is_muted,
            },
            crate::state::Action::Spawn { program, argument } => ActionModel::Spawn {
                program: program@,
                argument: argument@,
            },
        }),
{
}

/// Messages, clicks and ticks never leave on the clock anything but what it gave when it was
/// last read, with or without seconds, and the empty text before that: what holds of the
/// bar at the start holds after each of them.
pub proof fn law_clock_shows_its_last_reading(
    s: BarModel,
    m: MonitorModel,
    click: Click,
    phase: TickPhase,
    now: u128,
    t: LocalTime,
    clock_stamp: u128,
    monitor_stamp: u128,
)
    ensures
        ({
            let honest = |b: BarModel|
                if b.readings.len() == 0 {
                    b.formated_now.len() == 0
                } else {
                    let last = b.readings.last().civil();
                    b.formated_now == last.text(true) || b.formated_now == last.text(false)
                };
            &&& honest(crate::state::initial_bar(clock_stamp, monitor_stamp))
            &&& honest(s) ==> honest(crate::state::shared_applied(s, m))
            &&& honest(s) ==> honest(crate::state::clicked(s, click))
            &&& honest(s) ==> honest(crate::state::tick_state(s, phase, now, t))
        }),
{
}

} // verus!
