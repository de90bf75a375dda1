//! The loop that watches the window manager's messages: which step follows
//! which, and which messages are passed on.
use vstd::prelude::*;

verus! {

/// How long one wait for a message lasts, in seconds.
pub const WAIT_SECS: u64 = 2;

/// How many messages may be under way to the bar.
pub const CHANNEL_CAPACITY: usize = 64;

/// How a wait for a message ended.
#[derive(Clone, Copy, Debug, PartialEq, Eq, Structural)]
pub enum WaitOutcome {
    Message,
    TimedOut,
    Failed,
}

/// What the loop has just done.
#[derive(Clone, Copy, Debug, PartialEq, Eq, Structural)]
pub enum WatchEvent {
    /// The stop flag was read.
    Checked { stop: bool },
    /// A wait ended.
    Waited { outcome: WaitOutcome },
    /// The latest message was asked for: its time stamp, if one came.
    Read { timestamp: Option<u128> },
    /// A message was handed on: whether it was taken.
    Sent { accepted: bool },
}

/// What the loop does next.
#[derive(Clone, Copy, Debug, PartialEq, Eq, Structural)]
pub enum WatchAction {
    /// Read the stop flag.
    Check,
    /// Wait for a message.
    Wait,
    /// Ask for the latest message.
    Read,
    /// Hand on the message that was read.
    Send,
    /// Leave the loop.
    Exit,
}

/// The watcher remembers the time stamp of the last message that it handed on.
#[derive(Clone, Copy, Debug, PartialEq, Eq, Structural)]
pub struct Watcher {
    pub prev_ts: u128,
}

/// The step that follows an event.
pub open spec fn next_action(w: Watcher, event: WatchEvent) -> WatchAction {
    match event {
        WatchEvent::Checked { stop } => if stop {
            WatchAction::Exit
        } else {
            WatchAction::Wait
        },
        WatchEvent::Waited { outcome } => match outcome {
            WaitOutcome::Message => WatchAction::Read,
            WaitOutcome::TimedOut => WatchAction::Check,
            WaitOutcome::Failed => WatchAction::Exit,
        },
        WatchEvent::Read { timestamp: Some(ts) } => if ts != w.prev_ts {
            WatchAction::Send
        } else {
            WatchAction::Check
        },
        WatchEvent::Read { timestamp: None } => WatchAction::Check,
        WatchEvent::Sent { accepted } => if accepted {
            WatchAction::Check
        } else {
            WatchAction::Exit
        },
    }
}

/// The watcher after an event: reading a message remembers its time stamp.
pub open spec fn next_watcher(w: Watcher, event: WatchEvent) -> Watcher {
    match event {
        WatchEvent::Read { timestamp: Some(ts) } => Watcher { prev_ts: ts },
        _ => w,
    }
}

impl Watcher {
    /// A watcher that has handed on nothing.
    pub fn new() -> (w: Self)
        ensures
            w == (Watcher { prev_ts: 0 }),
    {
        Watcher { prev_ts: 0 }
    }

    /// Takes note of an event and says what to do next.
    pub fn step(&mut self, event: WatchEvent) -> (action: WatchAction)
        ensures
            action == next_action(*old(self), event),
            *final(self) == next_watcher(*old(self), event),
    {
        match event {
            WatchEvent::Checked { stop } => if stop {
                WatchAction::Exit
            } else {
                WatchAction::Wait
            },
            WatchEvent::Waited { outcome } => match outcome {
                WaitOutcome::Message => WatchAction::Read,
                WaitOutcome::TimedOut => WatchAction::Check,
                WaitOutcome::Failed => WatchAction::Exit,
            },
            WatchEvent::Read { timestamp: Some(ts) } => if self.prev_ts != ts {
                self.prev_ts = ts;
                WatchAction::Send
            } else {
                WatchAction::Check
            },
            WatchEvent::Read { timestamp: None } => WatchAction::Check,
            WatchEvent::Sent { accepted } => if accepted {
                WatchAction::Check
            } else {
                WatchAction::Exit
            },
        }
    }
}

/// The watcher after a whole run of events.
pub open spec fn watcher_after(w: Watcher, events: Seq<WatchEvent>) -> Watcher
    decreases events.len(),
{
    if events.len() == 0 {
        w
    } else {
        next_watcher(watcher_after(w, events.drop_last()), events.last())
    }
}

/// The time stamps of the messages handed on in a run of events, in order.
pub open spec fn handed_on(w: Watcher, events: Seq<WatchEvent>) -> Seq<u128>
    decreases events.len(),
{
    if events.len() == 0 {
        Seq::empty()
    } else {
        let before = handed_on(w, events.drop_last());
        let last = events.last();
        if next_action(watcher_after(w, events.drop_last()), last) == WatchAction::Send {
            before.push(last->timestamp.unwrap())
        } else {
            before
        }
    }
}

/// The time stamps of the messages read in a run of events, in order.
pub open spec fn stamps_read(events: Seq<WatchEvent>) -> Seq<u128>
    decreases events.len(),
{
    if events.len() == 0 {
        Seq::empty()
    } else {
        match events.last() {
            WatchEvent::Read { timestamp: Some(ts) } => stamps_read(events.drop_last()).push(ts),
            _ => stamps_read(events.drop_last()),
        }
    }
}

/// A sequence without the entries that equal the one before them; `prev` counts
/// as the entry before the first.
pub open spec fn without_repeats(prev: u128, stamps: Seq<u128>) -> Seq<u128>
    decreases stamps.len(),
{
    if stamps.len() == 0 {
        Seq::empty()
    } else {
        let kept = without_repeats(prev, stamps.drop_last());
        let before = if stamps.len() >= 2 {
            stamps[stamps.len() - 2]
        } else {
            prev
        };
        if stamps.last() != before {
            kept.push(stamps.last())
        } else {
            kept
        }
    }
}

/// In every run of events the messages handed on are the messages read, but for
/// those whose time stamp equals that of the message read just before. So no time
/// stamp is handed on twice in a row, the first differs from the one that the
/// watcher started with, and the watcher remembers the last one read.
pub proof fn law_no_repeats_handed_on(w: Watcher, events: Seq<WatchEvent>)
    ensures
        handed_on(w, events) == without_repeats(w.prev_ts, stamps_read(events)),
        forall|i: int|
            0 < i < handed_on(w, events).len() ==> handed_on(w, events)[i - 1] != #[trigger] handed_on(
                w,
                events,
            )[i],
        handed_on(w, events).len() > 0 ==> handed_on(w, events)[0] != w.prev_ts,
        watcher_after(w, events).prev_ts == (if handed_on(w, events).len() > 0 {
            handed_on(w, events).last()
        } else {
            w.prev_ts
        }),
        watcher_after(w, events).prev_ts == (if stamps_read(events).len() > 0 {
            stamps_read(events).last()
        } else {
            w.prev_ts
        }),
    decreases events.len(),
{
    if events.len() > 0 {
        let earlier = events.drop_last();
        law_no_repeats_handed_on(w, earlier);
        if let WatchEvent::Read { timestamp: Some(ts) } = events.last() {
            assert(stamps_read(events).drop_last() =~= stamps_read(earlier));
        }
    }
}

/// Once the stop flag is seen, a wait fails or a message is refused, the loop is
/// left; nothing else leaves it.
pub proof fn law_loop_left_only_on_stop_or_failure(w: Watcher, event: WatchEvent)
    ensures
        next_action(w, event) == WatchAction::Exit <==> {
            ||| event == (WatchEvent::Checked { stop: true })
            ||| event == (WatchEvent::Waited { outcome: WaitOutcome::Failed })
            ||| event == (WatchEvent::Sent { accepted: false })
        },
{
}

/// Whatever the watcher remembers: a stop flag that is not set is followed by a wait, a
/// wait that ended with a message by reading it, a message with a new time stamp by
/// handing it on; a wait that timed out, nothing read, an old time stamp and a message
/// taken by another look at the stop flag. Reading remembers the time stamp, and nothing
/// else changes the memory.
pub proof fn law_loop_goes_on(w: Watcher, ts: u128)
    ensures
        next_action(w, WatchEvent::Checked { stop: false }) == WatchAction::Wait,
        next_action(w, WatchEvent::Checked { stop: true }) == WatchAction::Exit,
        next_action(w, WatchEvent::Waited { outcome: WaitOutcome::Message }) == WatchAction::Read,
        next_action(w, WatchEvent::Waited { outcome: WaitOutcome::TimedOut }) == WatchAction::Check,
        next_action(w, WatchEvent::Waited { outcome: WaitOutcome::Failed }) == WatchAction::Exit,
        ts != w.prev_ts <==> next_action(w, WatchEvent::Read { timestamp: Some(ts) })
            == WatchAction::Send,
        ts == w.prev_ts <==> next_action(w, WatchEvent::Read { timestamp: Some(ts) })
            == WatchAction::Check,
        next_action(w, WatchEvent::Read { timestamp: None }) == WatchAction::Check,
        next_action(w, WatchEvent::Sent { accepted: true }) == WatchAction::Check,
        next_action(w, WatchEvent::Sent { accepted: false }) == WatchAction::Exit,
        next_watcher(w, WatchEvent::Read { timestamp: Some(ts) }).prev_ts == ts,
        next_watcher(w, WatchEvent::Read { timestamp: None }) == w,
        forall|stop: bool| next_watcher(w, WatchEvent::Checked { stop }) == w,
        forall|outcome: WaitOutcome| next_watcher(w, WatchEvent::Waited { outcome }) == w,
        forall|accepted: bool| next_watcher(w, WatchEvent::Sent { accepted }) == w,
{
}

/// Whether an event tells how an action went.
pub open spec fn answers(action: WatchAction, event: WatchEvent) -> bool {
    match action {
        WatchAction::Check => event is Checked,
        WatchAction::Wait => event is Waited,
        WatchAction::Read => event is Read,
        WatchAction::Send => event is Sent,
        WatchAction::Exit => false,
    }
}

/// Whether events are a run of the loop: it starts with a look at the stop flag, and
/// each further event answers the action that the one before asked for.
pub open spec fn is_run(w: Watcher, events: Seq<WatchEvent>) -> bool {
    &&& events.len() > 0 ==> events[0] is Checked
    &&& forall|i: int|
        #![trigger events.take(i)]
        0 <= i < events.len() - 1 ==> answers(
            next_action(watcher_after(w, events.take(i)), events[i]),
            events[i + 1],
        )
}

/// In every run of the loop each message that arrives is read, each message read whose
/// time stamp differs from that of the one read before is handed on, and the loop waits
/// for messages until it is stopped: after a stop, a failed wait or a refused message
/// nothing follows.
pub proof fn law_arrived_messages_are_read(w: Watcher, events: Seq<WatchEvent>, i: int)
    requires
        is_run(w, events),
        0 <= i < events.len() - 1,
    ensures
        ({
            let earlier = stamps_read(events.take(i));
            let before = if earlier.len() > 0 {
                earlier.last()
            } else {
                w.prev_ts
            };
            match events[i] {
                WatchEvent::Checked { stop } => !stop && events[i + 1] is Waited,
                WatchEvent::Waited { outcome: WaitOutcome::Message } => events[i + 1] is Read,
                WatchEvent::Waited { outcome: WaitOutcome::TimedOut } => events[i + 1] is Checked,
                WatchEvent::Waited { outcome: WaitOutcome::Failed } => false,
                WatchEvent::Read { timestamp: Some(ts) } => if ts != before {
                    events[i + 1] is Sent
                } else {
                    events[i + 1] is Checked
                },
                WatchEvent::Read { timestamp: None } => events[i + 1] is Checked,
                WatchEvent::Sent { accepted } => accepted && events[i + 1] is Checked,
            }
        }),
{
    law_no_repeats_handed_on(w, events.take(i));
    assert(answers(next_action(watcher_after(w, events.take(i)), events[i]), events[i + 1]));
}

/// How long a wait lasts and how many messages may be under way.
pub proof fn law_loop_limits()
    ensures
        WAIT_SECS == 2,
        CHANNEL_CAPACITY == 64,
{
}

} // verus!
