//! The connection supervisor: the one owner of the session handle, the
//! track registry and the published connection state. It serializes all
//! lifecycle operations: the worker loop around it dequeues one action at a
//! time, lets the supervisor decide, performs the blocking network work the
//! returned command names, and reports the outcome back.

use vstd::prelude::*;

use crate::channel::recv_action;
use crate::publisher::VideoPublisher;
use crate::state::Command;
use crate::state::ConnectOutcome;
use crate::state::ConnectionState;
use crate::state::FailureReason;
use crate::state::RoomAction;
use crate::state::state_edge;
use crate::stop::StopFlag;

verus! {

/// Whether some registered track carries the given name.
pub open spec fn contains_track(ts: Seq<VideoPublisher>, name: Seq<char>) -> bool {
    exists|i: int| 0 <= i < ts.len() && ts[i].track_name@ == name
}

/// Track names are unique: the registry is a mapping keyed by name.
pub open spec fn names_unique(ts: Seq<VideoPublisher>) -> bool {
    forall|i: int, j: int|
        0 <= i < j < ts.len() ==> ts[i].track_name@ != ts[j].track_name@
}

/// How many registered tracks carry the given name.
pub open spec fn count_named(ts: Seq<VideoPublisher>, name: Seq<char>) -> int
    decreases ts.len(),
{
    if ts.len() == 0 {
        0
    } else {
        (if ts.last().track_name@ == name {
            1int
        } else {
            0int
        }) + count_named(ts.drop_last(), name)
    }
}

/// What one publish request does to the registry: an already-registered
/// name leaves everything unchanged; with a session, an unregistered name
/// is appended; without one, nothing is registered.
pub open spec fn publish_step(pre: Supervisor, post: Supervisor, name: Seq<char>) -> bool {
    &&& post.state == pre.state
    &&& post.has_session == pre.has_session
    &&& post.finished == pre.finished
    &&& (contains_track(pre.tracks@, name) ==> post.tracks@ == pre.tracks@)
    &&& (!contains_track(pre.tracks@, name) && pre.has_session ==> {
        &&& post.tracks@.len() == pre.tracks@.len() + 1
        &&& post.tracks@.drop_last() == pre.tracks@
        &&& post.tracks@.last().track_name@ == name
    })
    &&& (!contains_track(pre.tracks@, name) && !pre.has_session ==> post.tracks@
        == pre.tracks@)
}

/// The supervisor's owned state. `finished` marks a supervisor whose
/// session was left: it is single-use and accepts no further actions.
pub struct Supervisor {
    pub state: ConnectionState,
    pub has_session: bool,
    pub relay_stop: Option<StopFlag>,
    pub tracks: Vec<VideoPublisher>,
    pub retried: bool,
    pub finished: bool,
}

impl Supervisor {
    /// The supervisor's invariant: the registry is keyed by unique names,
    /// every registered track has a running frame pump, and a connected
    /// supervisor holds a session.
    pub open spec fn wf(self) -> bool {
        &&& names_unique(self.tracks@)
        &&& forall|i: int| 0 <= i < self.tracks@.len() ==> self.tracks@[i].handle is Some
        &&& self.state is Connected ==> self.has_session
    }

    /// A fresh supervisor: not connected, no session, nothing registered.
    pub fn new() -> (s: Self)
        ensures
            s.wf(),
            s.state is NotConnected,
            !s.has_session,
            s.relay_stop is None,
            s.tracks@.len() == 0,
            !s.retried,
            !s.finished,
    {
        Supervisor {
            state: ConnectionState::NotConnected,
            has_session: false,
            relay_stop: None,
            tracks: Vec::new(),
            retried: false,
            finished: false,
        }
    }

    /// Whether some track with this name is registered.
    pub fn has_track(&self, name: &String) -> (b: bool)
        ensures
            b == contains_track(self.tracks@, name@),
    {
        let n = self.tracks.len();
        let mut i: usize = 0;
        while i < n
            invariant
                i <= n,
                n == self.tracks@.len(),
                forall|k: int| 0 <= k < i ==> self.tracks@[k].track_name@ != name@,
            decreases n - i,
        {
            if self.tracks[i].track_name == *name {
                return true;
            }
            i = i + 1;
        }
        false
    }

    /// Dequeue-side entry point: decide what one submitted action means.
    /// Actions are handed in one at a time, in submission order; the
    /// returned command is the blocking work the worker must now perform,
    /// and the returned publishers are the ones retired by a leave, every
    /// frame pump among them already told to stop.
    pub fn handle_action(&mut self, action: RoomAction) -> (r: (Command, Vec<VideoPublisher>))
        requires
            old(self).wf(),
            !old(self).finished,
            !(old(self).state is Connecting),
        ensures
            final(self).wf(),
            state_edge(old(self).state, final(self).state),
            (action matches RoomAction::LeaveRoom { .. }) == final(self).finished,
            action matches RoomAction::ConnectRoom { room_id, user_uuid } ==> {
                &&& r.1@.len() == 0
                &&& final(self).tracks@ == old(self).tracks@
                &&& final(self).has_session == old(self).has_session
                &&& final(self).relay_stop == old(self).relay_stop
                &&& final(self).retried == old(self).retried
                &&& (old(self).state is NotConnected ==> final(self).state is Connecting
                    && r.0 == (Command::OpenSession { room_id, user_uuid }))
                &&& (!(old(self).state is NotConnected) ==> *final(self) == *old(self)
                    && r.0 == (Command::Report { error: FailureReason::ConnectionEstablish }))
            },
            action matches RoomAction::LeaveRoom { room_id, user_uuid } ==> {
                &&& final(self).state is NotConnected
                &&& !final(self).has_session
                &&& final(self).tracks@.len() == 0
                &&& r.0 == (Command::RemoveParticipant { room_id, user_uuid })
                &&& r.1@.len() == old(self).tracks@.len()
                &&& forall|i: int|
                    0 <= i < r.1@.len() ==> ((#[trigger] r.1@[i]).handle matches Some(h)
                        && h.stop.fired)
                &&& (old(self).relay_stop is Some ==> (final(self).relay_stop matches Some(f)
                    && f.fired))
            },
            action matches RoomAction::PublishVideo { track_name } ==> {
                &&& r.1@.len() == 0
                &&& publish_step(*old(self), *final(self), track_name@)
                &&& (!contains_track(old(self).tracks@, track_name@) && old(self).has_session
                    ==> r.0 == (Command::LaunchTrack { track_name }))
            },
    {
        match action {
            RoomAction::ConnectRoom { room_id, user_uuid } => {
                let cmd = self.start_connect(room_id, user_uuid);
                (cmd, Vec::new())
            },
            RoomAction::LeaveRoom { room_id, user_uuid } => self.leave(room_id, user_uuid),
            RoomAction::PublishVideo { track_name } => {
                let cmd = self.publish_video(track_name);
                (cmd, Vec::new())
            },
        }
    }

    /// Begin connecting. Only a not-yet-connected supervisor may open a
    /// session; any other state is an explicit, reported rejection rather
    /// than a silent reconnect.
    pub fn start_connect(&mut self, room_id: String, user_uuid: String) -> (cmd: Command)
        requires
            old(self).wf(),
            !old(self).finished,
            !(old(self).state is Connecting),
        ensures
            final(self).wf(),
            !final(self).finished,
            state_edge(old(self).state, final(self).state),
            old(self).state is NotConnected ==> {
                &&& final(self).state is Connecting
                &&& cmd == (Command::OpenSession { room_id, user_uuid })
                &&& final(self).tracks@ == old(self).tracks@
                &&& final(self).has_session == old(self).has_session
                &&& final(self).relay_stop == old(self).relay_stop
                &&& final(self).retried == old(self).retried
            },
            !(old(self).state is NotConnected) ==> *final(self) == *old(self) && cmd == (
            Command::Report { error: FailureReason::ConnectionEstablish }),
    {
        match self.state {
            ConnectionState::NotConnected => {
                self.state = ConnectionState::Connecting;
                Command::OpenSession { room_id, user_uuid }
            },
            _ => Command::Report { error: FailureReason::ConnectionEstablish },
        }
    }

    /// Settle a connection attempt. On success the session handle is
    /// stored, the event relay is started (a fresh stop signal is armed for
    /// it) and the state becomes Connected. A transient failure is retried
    /// exactly once; any further failure is terminal and reported, leaving
    /// the explicit Failed state rather than sticking at Connecting.
    pub fn complete_connect(
        &mut self,
        room_id: String,
        user_uuid: String,
        outcome: ConnectOutcome,
    ) -> (cmd: Command)
        requires
            old(self).wf(),
            old(self).state is Connecting,
        ensures
            final(self).wf(),
            state_edge(old(self).state, final(self).state),
            final(self).tracks@ == old(self).tracks@,
            final(self).finished == old(self).finished,
            outcome is Opened ==> {
                &&& final(self).state is Connected
                &&& final(self).has_session
                &&& final(self).relay_stop matches Some(f) && !f.fired
                &&& final(self).retried == old(self).retried
                &&& cmd is NoWork
            },
            outcome is TransientFailure && !old(self).retried ==> {
                &&& final(self).state is Connecting
                &&& final(self).retried
                &&& final(self).has_session == old(self).has_session
                &&& final(self).relay_stop == old(self).relay_stop
                &&& cmd == (Command::OpenSession { room_id, user_uuid })
            },
            (outcome is FatalFailure || (outcome is TransientFailure && old(self).retried))
                ==> {
                &&& final(self).state == ConnectionState::Failed(
                    FailureReason::ConnectionEstablish,
                )
                &&& final(self).has_session == old(self).has_session
                &&& final(self).relay_stop == old(self).relay_stop
                &&& cmd == (Command::Report { error: FailureReason::ConnectionEstablish })
            },
    {
        match outcome {
            ConnectOutcome::Opened => {
                self.has_session = true;
                self.relay_stop = Some(StopFlag::armed());
                self.state = ConnectionState::Connected;
                Command::NoWork
            },
            ConnectOutcome::TransientFailure => {
                if !self.retried {
                    self.retried = true;
                    Command::OpenSession { room_id, user_uuid }
                } else {
                    self.state = ConnectionState::Failed(FailureReason::ConnectionEstablish);
                    Command::Report { error: FailureReason::ConnectionEstablish }
                }
            },
            ConnectOutcome::FatalFailure => {
                self.state = ConnectionState::Failed(FailureReason::ConnectionEstablish);
                Command::Report { error: FailureReason::ConnectionEstablish }
            },
        }
    }

    /// Leave the room: the relay's stop signal is fired, every registered
    /// track is retired with its frame pump told to stop, the registry is
    /// emptied, the state returns to NotConnected, and this supervisor is
    /// finished (a session is single-use, not restartable in place). The
    /// command asks the management service to remove the participant.
    pub fn leave(&mut self, room_id: String, user_uuid: String) -> (r: (
        Command,
        Vec<VideoPublisher>,
    ))
        requires
            old(self).wf(),
            !old(self).finished,
            !(old(self).state is Connecting),
        ensures
            final(self).wf(),
            state_edge(old(self).state, final(self).state),
            final(self).state is NotConnected,
            !final(self).has_session,
            final(self).finished,
            final(self).tracks@.len() == 0,
            old(self).relay_stop is Some ==> (final(self).relay_stop matches Some(f)
                && f.fired),
            r.0 == (Command::RemoveParticipant { room_id, user_uuid }),
            r.1@.len() == old(self).tracks@.len(),
            forall|i: int|
                0 <= i < r.1@.len() ==> ((#[trigger] r.1@[i]).handle matches Some(h)
                    && h.stop.fired),
            forall|i: int|
                0 <= i < r.1@.len() ==> (#[trigger] r.1@[i]).track_name == old(
                    self,
                ).tracks@[r.1@.len() - 1 - i].track_name,
    {
        match &mut self.relay_stop {
            Some(f) => f.fire(),
            None => {},
        }
        let ghost n = self.tracks@.len() as int;
        let mut retired: Vec<VideoPublisher> = Vec::new();
        while self.tracks.len() > 0
            invariant
                old(self).relay_stop is Some ==> (self.relay_stop matches Some(f) && f.fired),
                names_unique(self.tracks@),
                forall|i: int|
                    0 <= i < self.tracks@.len() ==> self.tracks@[i].handle is Some,
                self.tracks@ == old(self).tracks@.take(self.tracks@.len() as int),
                retired@.len() + self.tracks@.len() == n,
                n == old(self).tracks@.len(),
                forall|i: int|
                    0 <= i < retired@.len() ==> ((#[trigger] retired@[i]).handle matches Some(h)
                        && h.stop.fired),
                forall|i: int|
                    0 <= i < retired@.len() ==> (#[trigger] retired@[i]).track_name == old(
                        self,
                    ).tracks@[n - 1 - i].track_name,
            decreases self.tracks@.len(),
        {
            let mut p = match self.tracks.pop() {
                Some(p) => p,
                None => {
                    proof {
                        assert(false);
                    }
                    VideoPublisher::new(String::new())
                },
            };
            match &mut p.handle {
                Some(h) => h.stop.fire(),
                None => {},
            }
            retired.push(p);
        }
        self.has_session = false;
        self.state = ConnectionState::NotConnected;
        self.finished = true;
        (Command::RemoveParticipant { room_id, user_uuid }, retired)
    }

    /// Register and start one named video track. A name that is already
    /// registered is left alone (publishing is idempotent by name); without
    /// a session the request is rejected and reported.
    pub fn publish_video(&mut self, track_name: String) -> (cmd: Command)
        requires
            old(self).wf(),
            !old(self).finished,
            !(old(self).state is Connecting),
        ensures
            final(self).wf(),
            !final(self).finished,
            publish_step(*old(self), *final(self), track_name@),
            final(self).state == old(self).state,
            final(self).has_session == old(self).has_session,
            final(self).relay_stop == old(self).relay_stop,
            contains_track(old(self).tracks@, track_name@) ==> *final(self) == *old(self)
                && cmd is NoWork,
            !contains_track(old(self).tracks@, track_name@) && old(self).has_session ==> {
                &&& final(self).tracks@.len() == old(self).tracks@.len() + 1
                &&& final(self).tracks@.drop_last() == old(self).tracks@
                &&& final(self).tracks@.last().track_name == track_name
                &&& final(self).tracks@.last().handle matches Some(h) && !h.stop.fired
                &&& cmd == (Command::LaunchTrack { track_name })
            },
            !contains_track(old(self).tracks@, track_name@) && !old(self).has_session
                ==> *final(self) == *old(self) && cmd == (Command::Report {
                error: FailureReason::Publish,
            }),
            contains_track(final(self).tracks@, track_name@) == (contains_track(
                old(self).tracks@,
                track_name@,
            ) || old(self).has_session),
    {
        if self.has_track(&track_name) {
            return Command::NoWork;
        }
        if self.has_session {
            let mut p = VideoPublisher::new(track_name.clone());
            let (_, mut cmds) = p.publish();
            self.tracks.push(p);
            proof {
                assert(self.tracks@.drop_last() == old(self).tracks@);
            }
            match cmds.pop() {
                Some(cmd) => cmd,
                None => {
                    proof {
                        assert(false);
                    }
                    Command::NoWork
                },
            }
        } else {
            Command::Report { error: FailureReason::Publish }
        }
    }

    /// Acknowledge a terminal failure, returning to NotConnected so that a
    /// fresh connection may be attempted.
    pub fn acknowledge_failure(&mut self)
        requires
            old(self).wf(),
            old(self).state is Failed,
        ensures
            final(self).wf(),
            state_edge(old(self).state, final(self).state),
            final(self).state is NotConnected,
            final(self).tracks@ == old(self).tracks@,
            final(self).has_session == old(self).has_session,
            final(self).finished == old(self).finished,
    {
        self.state = ConnectionState::NotConnected;
    }
}

/// What the outcome of the management-API call a leave issues means: a
/// failure is reported back to the caller instead of being swallowed;
/// success needs no further work.
pub fn management_report(succeeded: bool) -> (cmd: Command)
    ensures
        succeeded ==> cmd is NoWork,
        !succeeded ==> cmd == (Command::Report { error: FailureReason::ManagementApi }),
{
    if succeeded {
        Command::NoWork
    } else {
        Command::Report { error: FailureReason::ManagementApi }
    }
}

/// One turn of the supervisor's worker loop: block until the next action
/// arrives on the capacity-one queue and let the supervisor decide what it
/// means. Returns the command the worker must now perform, the publishers
/// a leave retired, and whether the loop is over (the queue closed, or the
/// session was left — a supervisor is single-use).
pub fn worker_step(rx: &flume::Receiver<RoomAction>, sup: &mut Supervisor) -> (r: (
    Command,
    Vec<VideoPublisher>,
    bool,
))
    requires
        old(sup).wf(),
        !old(sup).finished,
        !(old(sup).state is Connecting),
    ensures
        final(sup).wf(),
        state_edge(old(sup).state, final(sup).state),
        final(sup).finished ==> r.2,
        !r.2 ==> !final(sup).finished,
        !r.2 ==> r.1@.len() == 0,
        forall|i: int|
            0 <= i < r.1@.len() ==> ((#[trigger] r.1@[i]).handle matches Some(h)
                && h.stop.fired),
        final(sup).finished ==> (r.0 matches Command::RemoveParticipant { .. })
            && final(sup).state is NotConnected && final(sup).tracks@.len() == 0,
        r.2 && !final(sup).finished ==> r.0 is NoWork && *final(sup) == *old(sup)
            && r.1@.len() == 0,
{
    match recv_action(rx) {
        Some(action) => {
            let is_leave = match &action {
                RoomAction::LeaveRoom { .. } => true,
                _ => false,
            };
            let (cmd, retired) = sup.handle_action(action);
            (cmd, retired, is_leave)
        },
        None => (Command::NoWork, Vec::new(), true),
    }
}

} // verus!
