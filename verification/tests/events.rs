use sorcerer::{EventLoop, Launch, TriggerEvent, TriggerInfo};

fn s(text: &str) -> String {
    text.to_string()
}

fn tick(spell: &str, at: u64) -> TriggerEvent {
    TriggerEvent { spell_id: s(spell), info: TriggerInfo::Timer { timestamp_sec: at } }
}

fn run(spell: &str, at: u64, ttl_ms: u64) -> Launch {
    Launch { spell_id: s(spell), info: TriggerInfo::Timer { timestamp_sec: at }, ttl_ms }
}

#[test]
fn new_loop_is_open() {
    let l = EventLoop::new(7);
    assert_eq!(l, EventLoop { ttl_ms: 7, closed: false });
}

#[test]
fn event_launches_its_run() {
    let mut l = EventLoop::new(120_000);
    assert_eq!(l.on_event(Some(tick("spell-1", 5))), Some(run("spell-1", 5, 120_000)));
    assert!(!l.closed);
    let peer = TriggerEvent {
        spell_id: s("spell-2"),
        info: TriggerInfo::Peer { peer_id: s("peer"), connected: true },
    };
    assert_eq!(
        l.on_event(Some(peer)),
        Some(Launch {
            spell_id: s("spell-2"),
            info: TriggerInfo::Peer { peer_id: s("peer"), connected: true },
            ttl_ms: 120_000,
        })
    );
}

#[test]
fn same_spell_may_run_twice_at_once() {
    let mut l = EventLoop::new(1);
    assert_eq!(l.on_event(Some(tick("spell-1", 5))), Some(run("spell-1", 5, 1)));
    assert_eq!(l.on_event(Some(tick("spell-1", 6))), Some(run("spell-1", 6, 1)));
}

#[test]
fn loop_stops_when_the_channel_closes() {
    let mut l = EventLoop::new(1);
    assert_eq!(l.on_event(Some(tick("spell-1", 5))), Some(run("spell-1", 5, 1)));
    assert_eq!(l.on_event(None), None);
    assert!(l.closed);
    assert_eq!(l.on_event(Some(tick("spell-1", 6))), None);
    assert_eq!(l.on_event(None), None);
    assert!(l.closed);
    assert_eq!(l.ttl_ms, 1);
}

#[test]
fn every_event_of_a_batch_launches() {
    let l = EventLoop::new(9);
    for m in [0u64, 1, 3, 100] {
        let events: Vec<TriggerEvent> = (0..m).map(|i| tick(&format!("spell-{i}"), i)).collect();
        let launches = l.dispatch(&events);
        let expected: Vec<Launch> = (0..m).map(|i| run(&format!("spell-{i}"), i, 9)).collect();
        assert_eq!(launches, expected);
    }
}

#[test]
fn order_of_events_changes_only_the_order_of_runs() {
    let l = EventLoop::new(9);
    let events = vec![tick("spell-a", 1), tick("spell-b", 2), tick("spell-c", 3)];
    let reversed: Vec<TriggerEvent> = events.iter().rev().cloned().collect();
    let mut forward = l.dispatch(&events);
    let backward = l.dispatch(&reversed);
    forward.reverse();
    assert_eq!(forward, backward);
    assert_eq!(backward.len(), 3);
}

#[test]
fn closed_loop_launches_nothing() {
    let mut l = EventLoop::new(9);
    l.on_event(None);
    assert_eq!(l.dispatch(&vec![tick("spell-a", 1)]), vec![]);
}

#[test]
fn clone_of_an_event_is_equal() {
    let e = TriggerEvent {
        spell_id: s("spell-2"),
        info: TriggerInfo::Peer { peer_id: s("peer"), connected: false },
    };
    assert_eq!(e.clone(), e);
    assert_eq!(tick("spell-1", 3).clone(), tick("spell-1", 3));
}
