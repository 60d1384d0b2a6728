use hotk::{Event, EventQueue, EventType, KeyCode, Mod, PollStep};

fn event(id: u32) -> Event {
    Event { id, code: KeyCode::KeyA, mods: vec![Mod::Control], event_type: EventType::Pressed }
}

#[test]
fn cancelled_poll_returns_no_event() {
    let mut queue = EventQueue::new(4);
    assert!(matches!(queue.poll(true), PollStep::Done));
    assert!(queue.offer(event(1)));
    assert!(matches!(queue.poll(true), PollStep::Done));
    match queue.poll(false) {
        PollStep::Ready(e) => assert_eq!(e.id, 1),
        _ => panic!("the waiting event was kept through the cancelled poll"),
    }
}

#[test]
fn poll_delivers_in_order_then_waits_then_ends() {
    let mut queue = EventQueue::new(2);
    assert!(matches!(queue.poll(false), PollStep::Pending));
    assert!(queue.offer(event(1)));
    assert!(queue.offer(event(2)));
    assert!(!queue.offer(event(3)));
    match queue.poll(false) {
        PollStep::Ready(e) => assert_eq!(e.id, 1),
        _ => panic!("expected the first event"),
    }
    queue.close();
    assert!(!queue.offer(event(4)));
    match queue.poll(false) {
        PollStep::Ready(e) => assert_eq!(e.id, 2),
        _ => panic!("expected the second event"),
    }
    assert!(matches!(queue.poll(false), PollStep::Done));
}
