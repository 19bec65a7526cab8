//! The caller-facing handle over the real capacity-one channels, and the
//! worker loop's dequeue step.

use room_bridge::handle::{RoomHandle, Submission};
use room_bridge::relay::{RelayDelivery, RelayWorker};
use room_bridge::state::{Command, ConnectionState, RoomAction, SessionEvent};
use room_bridge::supervisor::{worker_step, Supervisor};

#[test]
fn submission_sees_backpressure_on_full_queue() {
    let (mut handle, _rx) = RoomHandle::new();
    assert!(!handle.is_multiplayer());

    // The first submission fills the capacity-one queue.
    assert!(matches!(
        handle.create_room("room-A".to_owned(), "alice".to_owned()),
        Submission::Accepted
    ));
    // Nothing drained it: the second submission comes back unsent,
    // carrying exactly the intent that was offered.
    match handle.create_room("room-B".to_owned(), "bob".to_owned()) {
        Submission::Backpressure(RoomAction::ConnectRoom { room_id, user_uuid }) => {
            assert_eq!(room_id, "room-B");
            assert_eq!(user_uuid, "bob");
        },
        other => panic!("expected backpressure with the connect intent, got {other:?}"),
    }
}

#[test]
fn guards_follow_the_published_snapshot() {
    let (mut handle, _rx) = RoomHandle::new();
    // Not connected: leave and publish are refused locally.
    assert!(matches!(
        handle.leave("room-A".to_owned(), "alice".to_owned()),
        Submission::Refused
    ));
    assert!(matches!(
        handle.publish_video_track("cam1".to_owned()),
        Submission::Refused
    ));

    handle.refresh_state(ConnectionState::Connected);
    assert!(handle.is_multiplayer());
    // Connected: connect is refused locally, publish goes through.
    assert!(matches!(
        handle.create_room("room-A".to_owned(), "alice".to_owned()),
        Submission::Refused
    ));
    assert!(matches!(
        handle.publish_video_track("cam1".to_owned()),
        Submission::Accepted
    ));
}

#[test]
fn rejected_intents_come_back_unchanged() {
    let (mut handle, _rx) = RoomHandle::new();
    handle.refresh_state(ConnectionState::Connected);

    // Fill the queue, then watch each intent bounce back intact.
    assert!(matches!(
        handle.publish_video_track("cam1".to_owned()),
        Submission::Accepted
    ));
    match handle.publish_video_track("cam2".to_owned()) {
        Submission::Backpressure(RoomAction::PublishVideo { track_name }) => {
            assert_eq!(track_name, "cam2");
        },
        other => panic!("expected backpressure with the publish intent, got {other:?}"),
    }
    match handle.leave("room-A".to_owned(), "alice".to_owned()) {
        Submission::Backpressure(RoomAction::LeaveRoom { room_id, user_uuid }) => {
            assert_eq!(room_id, "room-A");
            assert_eq!(user_uuid, "alice");
        },
        other => panic!("expected backpressure with the leave intent, got {other:?}"),
    }
}

#[test]
fn worker_processes_submissions_in_order() {
    let (mut handle, rx) = RoomHandle::new();
    let mut sup = Supervisor::new();

    assert!(matches!(
        handle.create_room("room-A".to_owned(), "alice".to_owned()),
        Submission::Accepted
    ));
    let (cmd, retired, done) = worker_step(&rx, &mut sup);
    assert!(matches!(cmd, Command::OpenSession { .. }));
    assert!(retired.is_empty());
    assert!(!done);
    assert_eq!(sup.state, ConnectionState::Connecting);
}

#[test]
fn worker_exits_after_leave() {
    let (mut handle, rx) = RoomHandle::new();
    let mut sup = Supervisor::new();

    handle.refresh_state(ConnectionState::Connected);
    assert!(matches!(
        handle.leave("room-A".to_owned(), "alice".to_owned()),
        Submission::Accepted
    ));
    let (cmd, _retired, done) = worker_step(&rx, &mut sup);
    assert!(matches!(cmd, Command::RemoveParticipant { .. }));
    assert!(done);
    assert_eq!(sup.state, ConnectionState::NotConnected);
    assert!(sup.finished);
}

#[test]
fn worker_exits_when_queue_closes() {
    let (handle, rx) = RoomHandle::new();
    drop(handle);
    let mut sup = Supervisor::new();
    let (cmd, retired, done) = worker_step(&rx, &mut sup);
    assert!(matches!(cmd, Command::NoWork));
    assert!(retired.is_empty());
    assert!(done);
}

#[test]
fn polled_events_arrive_through_the_relay_channel() {
    // Event relay scenario: three events arrive faster than the caller
    // polls; the caller observes at most one buffered event per poll.
    let (mut handle, _rx) = RoomHandle::new();
    assert!(handle.poll_event().is_none());

    let tx = handle.install_event_channel();
    let mut worker = RelayWorker::start(tx);

    assert!(matches!(
        worker.step(false, Some(SessionEvent::Other { code: 1 })),
        RelayDelivery::Forwarded
    ));
    assert!(matches!(
        worker.step(false, Some(SessionEvent::Other { code: 2 })),
        RelayDelivery::Undelivered(SessionEvent::Other { code: 2 })
    ));
    assert!(matches!(
        worker.step(false, Some(SessionEvent::Other { code: 3 })),
        RelayDelivery::Undelivered(SessionEvent::Other { code: 3 })
    ));

    // One poll surfaces exactly the one buffered event.
    let polled = handle.poll_event();
    assert!(matches!(polled, Some(SessionEvent::Other { code: 1 })));
    // No backlog accumulated behind it.
    assert!(handle.poll_event().is_none());
}

#[test]
fn relay_worker_stops_on_signal() {
    let (mut handle, _rx) = RoomHandle::new();
    let tx = handle.install_event_channel();
    let mut worker = RelayWorker::start(tx);
    assert!(matches!(
        worker.step(true, Some(SessionEvent::Other { code: 9 })),
        RelayDelivery::Undelivered(SessionEvent::Other { code: 9 })
    ));
}

#[test]
fn relay_worker_idles_without_events() {
    let (mut handle, _rx) = RoomHandle::new();
    let tx = handle.install_event_channel();
    let mut worker = RelayWorker::start(tx);
    assert!(matches!(worker.step(false, None), RelayDelivery::Idle));
    assert!(handle.poll_event().is_none());
}
