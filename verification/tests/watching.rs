use gpui_bar::watcher::{WaitOutcome, WatchAction, WatchEvent, Watcher};

fn read(ts: u128) -> WatchEvent {
    WatchEvent::Read { timestamp: Some(ts) }
}

#[test]
fn every_event_of_the_loop() {
    let mut w = Watcher::new();
    assert_eq!(w.prev_ts, 0);
    assert_eq!(w.step(WatchEvent::Checked { stop: false }), WatchAction::Wait);
    assert_eq!(w.step(WatchEvent::Checked { stop: true }), WatchAction::Exit);
    let waited = |outcome| WatchEvent::Waited { outcome };
    assert_eq!(w.step(waited(WaitOutcome::Message)), WatchAction::Read);
    assert_eq!(w.step(waited(WaitOutcome::TimedOut)), WatchAction::Check);
    assert_eq!(w.step(waited(WaitOutcome::Failed)), WatchAction::Exit);
    assert_eq!(w.step(WatchEvent::Read { timestamp: None }), WatchAction::Check);
    assert_eq!(w.step(WatchEvent::Sent { accepted: true }), WatchAction::Check);
    assert_eq!(w.step(WatchEvent::Sent { accepted: false }), WatchAction::Exit);
    assert_eq!(w.prev_ts, 0);
    assert_eq!(w.step(read(4)), WatchAction::Send);
    assert_eq!(w.prev_ts, 4);
    assert_eq!(w.step(read(4)), WatchAction::Check);
}

#[test]
fn first_stamp_of_zero_is_not_handed_on() {
    let mut w = Watcher::new();
    assert_eq!(w.step(read(0)), WatchAction::Check);
    assert_eq!(w.step(read(u128::MAX)), WatchAction::Send);
    assert_eq!(w.step(read(0)), WatchAction::Send);
}

#[test]
fn repeats_are_not_handed_on() {
    let mut w = Watcher::new();
    let mut sent = Vec::new();
    for ts in [5u128, 5, 7, 7, 7, 5, 9] {
        if w.step(read(ts)) == WatchAction::Send {
            sent.push(ts);
            w.step(WatchEvent::Sent { accepted: true });
        }
        w.step(WatchEvent::Checked { stop: false });
    }
    assert_eq!(sent, vec![5, 7, 5, 9]);
    assert_eq!(w.prev_ts, 9);
}
