//! Event relay and capacity-one queue semantics.

use room_bridge::mailbox::Mailbox;
use room_bridge::relay::EventRelay;
use room_bridge::state::SessionEvent;

fn ev(code: u64) -> SessionEvent {
    SessionEvent::Other { code }
}

fn code_of(ev: &SessionEvent) -> u64 {
    match ev {
        SessionEvent::Other { code } => *code,
        _ => panic!("expected a plain coded event"),
    }
}

#[test]
fn mailbox_buffers_at_most_one() {
    let mut m: Mailbox<u32> = Mailbox::empty();
    assert!(!m.occupied());
    assert!(m.offer(1).is_none());
    assert!(m.occupied());
    // Backpressure: the second offer is handed back unchanged.
    assert_eq!(m.offer(2), Some(2));
    assert_eq!(m.drain(), Some(1));
    assert!(m.drain().is_none());
}

#[test]
fn relay_forwards_one_event_per_slot() {
    let mut relay = EventRelay::start();
    assert!(relay.step(false, Some(ev(1))).is_none());
    // The slot is full: the next events are undelivered, not queued.
    let rejected = relay.step(false, Some(ev(2)));
    assert_eq!(code_of(&rejected.expect("slot was full")), 2);
    let rejected = relay.step(false, Some(ev(3)));
    assert_eq!(code_of(&rejected.expect("slot was full")), 3);
    assert!(relay.running);

    // The caller polls: at most one buffered event, never a backlog.
    let polled = relay.outbox.drain();
    assert_eq!(code_of(&polled.expect("one event was buffered")), 1);
    assert!(relay.outbox.drain().is_none());
}

#[test]
fn relay_stops_within_one_iteration() {
    let mut relay = EventRelay::start();
    relay.step(false, Some(ev(7)));
    // The stop signal is observed on the very next iteration, and the
    // buffered event is dropped, not drained.
    relay.step(true, Some(ev(8)));
    assert!(!relay.running);
    assert!(relay.outbox.drain().is_none());
}

#[test]
fn relay_idles_without_events() {
    let mut relay = EventRelay::start();
    assert!(relay.step(false, None).is_none());
    assert!(relay.running);
    assert!(relay.outbox.drain().is_none());
}

#[test]
fn named_events_pass_through_unchanged() {
    let mut relay = EventRelay::start();
    relay.step(false, Some(SessionEvent::ParticipantConnected { identity: "alice".to_owned() }));
    match relay.outbox.drain() {
        Some(SessionEvent::ParticipantConnected { identity }) => assert_eq!(identity, "alice"),
        _ => panic!("expected the participant event back"),
    }
    relay.step(false, Some(SessionEvent::TrackSubscribed { track_name: "cam1".to_owned() }));
    match relay.outbox.drain() {
        Some(SessionEvent::TrackSubscribed { track_name }) => assert_eq!(track_name, "cam1"),
        _ => panic!("expected the track event back"),
    }
    relay.step(false, Some(SessionEvent::ParticipantDisconnected { identity: "alice".to_owned() }));
    match relay.outbox.drain() {
        Some(SessionEvent::ParticipantDisconnected { identity }) => assert_eq!(identity, "alice"),
        _ => panic!("expected the departure event back"),
    }
}

#[test]
fn delivery_order_is_submission_order() {
    // Interleaved offers and drains through the capacity-one slot: the
    // values come out exactly in the order they were accepted.
    let mut m: Mailbox<u32> = Mailbox::empty();
    assert!(m.offer(10).is_none());
    assert_eq!(m.offer(11), Some(11)); // turned away, not reordered
    assert_eq!(m.drain(), Some(10));
    assert!(m.offer(12).is_none());
    assert_eq!(m.drain(), Some(12));
    assert!(m.offer(13).is_none());
    assert_eq!(m.offer(14), Some(14));
    assert_eq!(m.drain(), Some(13));
    assert!(m.drain().is_none());
}
