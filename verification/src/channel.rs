//! The bounded channels that carry actions to the supervisor's worker and
//! session events back to the polling caller. The transport is flume's
//! capacity-one bounded channel; each call the logic makes goes through a
//! trusted wrapper. The far end of a channel lives on another thread, so a
//! wrapper's contract states only what holds of every outcome.

use vstd::prelude::*;

use crate::state::RoomAction;
use crate::state::SessionEvent;

verus! {

#[verifier::external_type_specification]
#[verifier::external_body]
#[verifier::reject_recursive_types(T)]
pub struct ExSender<T>(flume::Sender<T>);

#[verifier::external_type_specification]
#[verifier::external_body]
#[verifier::reject_recursive_types(T)]
pub struct ExReceiver<T>(flume::Receiver<T>);

/// Relies on flume::bounded with capacity 1: the action queue, whose
/// backpressure serializes submissions one at a time.
#[verifier::external_body]
pub(crate) fn action_channel() -> (pair: (flume::Sender<RoomAction>, flume::Receiver<
    RoomAction,
>)) {
    flume::bounded(1)
}

/// Relies on flume::bounded with capacity 1: the event relay's outbound
/// channel towards the polling caller.
#[verifier::external_body]
pub(crate) fn event_channel() -> (pair: (flume::Sender<SessionEvent>, flume::Receiver<
    SessionEvent,
>)) {
    flume::bounded(1)
}

/// Relies on flume::Sender::try_send: a rejected message (full or
/// disconnected channel) is handed back unchanged inside the error.
#[verifier::external_body]
pub(crate) fn try_send_action(tx: &flume::Sender<RoomAction>, action: RoomAction) -> (rejected:
    Option<RoomAction>)
    ensures
        rejected matches Some(a) ==> a == action,
{
    match tx.try_send(action) {
        Ok(()) => None,
        Err(e) => Some(e.into_inner()),
    }
}

/// Relies on flume::Receiver::recv: blocks until a message arrives or all
/// senders are dropped.
#[verifier::external_body]
pub(crate) fn recv_action(rx: &flume::Receiver<RoomAction>) -> (r: Option<RoomAction>) {
    rx.recv().ok()
}

/// Relies on flume::Sender::try_send on the event channel: a rejected
/// event is handed back unchanged inside the error.
#[verifier::external_body]
pub(crate) fn try_send_event(tx: &flume::Sender<SessionEvent>, event: SessionEvent) -> (rejected:
    Option<SessionEvent>)
    ensures
        rejected matches Some(e) ==> e == event,
{
    match tx.try_send(event) {
        Ok(()) => None,
        Err(e) => Some(e.into_inner()),
    }
}

/// Relies on flume::Receiver::try_recv: non-blocking, returns a buffered
/// event if one is waiting.
#[verifier::external_body]
pub(crate) fn try_recv_event(rx: &flume::Receiver<SessionEvent>) -> (r: Option<SessionEvent>) {
    rx.try_recv().ok()
}

} // verus!
