//! Core data model: connection states, lifecycle actions, session events,
//! and the commands the supervisor hands to its surrounding worker loop.

use vstd::prelude::*;

verus! {

/// Why a lifecycle operation failed: signing the access credential,
/// establishing the connection, publishing a track, or a management-API call.
#[derive(Clone, Copy, PartialEq, Eq, Structural, Debug)]
pub enum FailureReason {
    CredentialSigning,
    ConnectionEstablish,
    Publish,
    ManagementApi,
}

/// The published connection state. Mutated only by the supervisor; read by
/// arbitrary callers through an immutable snapshot.
#[derive(Clone, Copy, PartialEq, Eq, Structural, Debug)]
pub enum ConnectionState {
    NotConnected,
    Connecting,
    Connected,
    Failed(FailureReason),
}

/// An intent submitted by a caller and consumed exactly once by the
/// supervisor, in submission order.
#[derive(Clone, Debug)]
pub enum RoomAction {
    ConnectRoom { room_id: String, user_uuid: String },
    LeaveRoom { room_id: String, user_uuid: String },
    PublishVideo { track_name: String },
}

/// An event arriving from the remote session, relayed to the polling caller.
#[derive(Clone, Debug)]
pub enum SessionEvent {
    ParticipantConnected { identity: String },
    ParticipantDisconnected { identity: String },
    TrackSubscribed { track_name: String },
    Other { code: u64 },
}

/// What the worker loop around the supervisor must perform next. The
/// supervisor only decides; the blocking network work happens outside.
#[derive(Clone, Debug)]
pub enum Command {
    /// Nothing to perform.
    NoWork,
    /// Open the session: sign a credential and connect to the room.
    OpenSession { room_id: String, user_uuid: String },
    /// Ask the room-management service to remove the participant.
    RemoveParticipant { room_id: String, user_uuid: String },
    /// Create the native video source and publish the named track.
    LaunchTrack { track_name: String },
    /// Ask the session to stop publishing the named track.
    DetachTrack { track_name: String },
    /// Report a failure back to the caller.
    Report { error: FailureReason },
}

/// How the blocking connection attempt ended.
#[derive(Clone, Copy, PartialEq, Eq, Structural, Debug)]
pub enum ConnectOutcome {
    Opened,
    TransientFailure,
    FatalFailure,
}

/// The allowed moves of the connection state: strictly
/// NotConnected -> Connecting -> Connected -> NotConnected, with the explicit
/// failure exits Connecting -> Failed and Failed -> NotConnected.
pub open spec fn state_edge(pre: ConnectionState, post: ConnectionState) -> bool {
    ||| post == pre
    ||| (pre is NotConnected && post is Connecting)
    ||| (pre is Connecting && post is Connected)
    ||| (pre is Connecting && post is Failed)
    ||| (pre is Connected && post is NotConnected)
    ||| (pre is Failed && post is NotConnected)
}

} // verus!
