//! The caller-facing handle: the polling side of the bridge. It submits
//! intents to the supervisor's action queue, reads the published
//! connection-state snapshot, and drains at most one relayed session event
//! per tick. None of its operations block.

use vstd::prelude::*;

use crate::channel::action_channel;
use crate::channel::event_channel;
use crate::channel::try_recv_event;
use crate::channel::try_send_action;
use crate::state::ConnectionState;
use crate::state::RoomAction;
use crate::state::SessionEvent;

verus! {

/// How a submission attempt ended: accepted by the queue; refused by the
/// local connection-state guard before anything was sent; or handed back
/// by the capacity-one queue's backpressure, carrying the exact intent
/// that did not go through.
#[derive(Clone, Debug)]
pub enum Submission {
    Accepted,
    Refused,
    Backpressure(RoomAction),
}

/// The polling caller's end of the bridge: the action-queue sender, the
/// event-relay receiver once a connection delivered one, and the latest
/// published snapshot of the connection state.
pub struct RoomHandle {
    action_tx: flume::Sender<RoomAction>,
    event_rx: Option<flume::Receiver<SessionEvent>>,
    state_view: ConnectionState,
}

impl RoomHandle {
    /// The latest connection-state snapshot this handle has seen.
    pub closed spec fn snapshot(self) -> ConnectionState {
        self.state_view
    }

    /// Whether an event-relay receiver is installed.
    pub closed spec fn has_event_source(self) -> bool {
        self.event_rx is Some
    }

    /// A fresh handle plus the receiving end of its action queue, which
    /// the supervisor's worker loop takes ownership of.
    pub fn new() -> (r: (RoomHandle, flume::Receiver<RoomAction>))
        ensures
            r.0.snapshot() is NotConnected,
            !r.0.has_event_source(),
    {
        let (tx, rx) = action_channel();
        let handle = RoomHandle {
            action_tx: tx,
            event_rx: None,
            state_view: ConnectionState::NotConnected,
        };
        (handle, rx)
    }

    /// Record the connection-state snapshot the supervisor published.
    pub fn refresh_state(&mut self, s: ConnectionState)
        ensures
            final(self).snapshot() == s,
            final(self).has_event_source() == old(self).has_event_source(),
    {
        self.state_view = s;
    }

    /// Open the event-relay channel: the receiving end is installed in
    /// this handle, the sending end is returned for the relay worker.
    pub fn install_event_channel(&mut self) -> (tx: flume::Sender<SessionEvent>)
        ensures
            final(self).has_event_source(),
            final(self).snapshot() == old(self).snapshot(),
    {
        let (tx, rx) = event_channel();
        self.event_rx = Some(rx);
        tx
    }

    /// Whether the last published snapshot says the session is live.
    pub fn is_multiplayer(&self) -> (b: bool)
        ensures
            b == (self.snapshot() is Connected),
    {
        match self.state_view {
            ConnectionState::Connected => true,
            _ => false,
        }
    }

    /// Offer one intent to the capacity-one queue: accepted, or handed
    /// back unchanged under backpressure while an action is in flight.
    fn offer(&mut self, action: RoomAction) -> (s: Submission)
        ensures
            *final(self) == *old(self),
            !(s is Refused),
            s matches Submission::Backpressure(a) ==> a == action,
    {
        match try_send_action(&self.action_tx, action) {
            None => Submission::Accepted,
            Some(a) => Submission::Backpressure(a),
        }
    }

    /// Submit the intent to connect, unless the session is already live:
    /// exactly a ConnectRoom intent with these ids goes on the queue,
    /// once; under backpressure it comes back unsent.
    pub fn create_room(&mut self, room_id: String, user_uuid: String) -> (s: Submission)
        ensures
            *final(self) == *old(self),
            (old(self).snapshot() is Connected) <==> s is Refused,
            s matches Submission::Backpressure(a) ==> a == (RoomAction::ConnectRoom {
                room_id,
                user_uuid,
            }),
    {
        if self.is_multiplayer() {
            return Submission::Refused;
        }
        self.offer(RoomAction::ConnectRoom { room_id, user_uuid })
    }

    /// Submit the intent to leave, meaningful only while the session is
    /// live: exactly a LeaveRoom intent with these ids goes on the queue,
    /// once; under backpressure it comes back unsent.
    pub fn leave(&mut self, room_id: String, user_uuid: String) -> (s: Submission)
        ensures
            *final(self) == *old(self),
            !(old(self).snapshot() is Connected) <==> s is Refused,
            s matches Submission::Backpressure(a) ==> a == (RoomAction::LeaveRoom {
                room_id,
                user_uuid,
            }),
    {
        if !self.is_multiplayer() {
            return Submission::Refused;
        }
        self.offer(RoomAction::LeaveRoom { room_id, user_uuid })
    }

    /// Submit the intent to publish a named track, meaningful only while
    /// the session is live: exactly a PublishVideo intent with this name
    /// goes on the queue, once; under backpressure it comes back unsent.
    pub fn publish_video_track(&mut self, track_name: String) -> (s: Submission)
        ensures
            *final(self) == *old(self),
            !(old(self).snapshot() is Connected) <==> s is Refused,
            s matches Submission::Backpressure(a) ==> a == (RoomAction::PublishVideo {
                track_name,
            }),
    {
        if !self.is_multiplayer() {
            return Submission::Refused;
        }
        self.offer(RoomAction::PublishVideo { track_name })
    }

    /// The per-tick poll: one non-blocking check of the event relay,
    /// surfacing at most one buffered event. Without an installed relay
    /// there is never an event.
    pub fn poll_event(&self) -> (ev: Option<SessionEvent>)
        ensures
            !self.has_event_source() ==> ev is None,
    {
        match &self.event_rx {
            Some(rx) => try_recv_event(rx),
            None => None,
        }
    }
}

} // verus!
