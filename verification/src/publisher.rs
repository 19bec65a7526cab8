//! Per-track video publisher: owns one outgoing track's lifecycle — the
//! frame-pump handle with its stop signal — and guarantees that the stop
//! signal is released on every destruction path, not only on explicit
//! unpublish.

use vstd::prelude::*;

use crate::state::Command;
use crate::stop::StopFlag;

verus! {

/// What a publisher's destruction path does: the pump handle, if any, is
/// taken out with its stop signal fired; nothing else changes.
pub open spec fn teardown_step(
    pre: VideoPublisher,
    post: VideoPublisher,
    retired: Option<PumpHandle>,
) -> bool {
    &&& post.track_name == pre.track_name
    &&& post.handle is None
    &&& (retired is Some <==> pre.handle is Some)
    &&& (retired matches Some(h) ==> h.stop.fired)
}

/// The controller's end of a running frame pump: the sending half of the
/// pump's one-shot stop signal.
#[derive(Clone, Copy, PartialEq, Eq, Structural, Debug)]
pub struct PumpHandle {
    pub stop: StopFlag,
}

/// One named outgoing video track. While published it holds the handle of
/// its frame pump; ownership of that handle's stop signal is exclusive to
/// this publisher.
pub struct VideoPublisher {
    pub track_name: String,
    pub handle: Option<PumpHandle>,
}

impl VideoPublisher {
    /// A publisher for the named track, with no pump running yet.
    pub fn new(track_name: String) -> (p: Self)
        ensures
            p.track_name == track_name,
            p.handle is None,
    {
        VideoPublisher { track_name, handle: None }
    }

    /// Whether a frame pump is currently running for this track.
    pub fn is_published(&self) -> (b: bool)
        ensures
            b == (self.handle is Some),
    {
        self.handle.is_some()
    }

    /// Start publishing: any prior publication is undone first — its pump
    /// stopped and its track detached from the session — then a fresh
    /// pump handle is installed. The retired handle, stop signal fired,
    /// is handed back, and the commands are exactly what the session must
    /// perform: detach the prior track if one was live, then launch this
    /// one.
    pub fn publish(&mut self) -> (r: (Option<PumpHandle>, Vec<Command>))
        ensures
            final(self).track_name == old(self).track_name,
            final(self).handle matches Some(h) && !h.stop.fired,
            r.0 is Some <==> old(self).handle is Some,
            r.0 matches Some(h) ==> h.stop.fired,
            old(self).handle is None ==> r.1@ == seq![
                Command::LaunchTrack { track_name: old(self).track_name },
            ],
            old(self).handle is Some ==> r.1@ == seq![
                Command::DetachTrack { track_name: old(self).track_name },
                Command::LaunchTrack { track_name: old(self).track_name },
            ],
    {
        let had_pump = self.handle.is_some();
        let retired = self.release_pump();
        let mut cmds: Vec<Command> = Vec::new();
        if had_pump {
            cmds.push(Command::DetachTrack { track_name: self.track_name.clone() });
        }
        cmds.push(Command::LaunchTrack { track_name: self.track_name.clone() });
        self.handle = Some(PumpHandle { stop: StopFlag::armed() });
        proof {
            if old(self).handle is None {
                assert(cmds@ =~= seq![
                    Command::LaunchTrack { track_name: old(self).track_name },
                ]);
            } else {
                assert(cmds@ =~= seq![
                    Command::DetachTrack { track_name: old(self).track_name },
                    Command::LaunchTrack { track_name: old(self).track_name },
                ]);
            }
        }
        (retired, cmds)
    }

    /// Stop publishing: the pump's stop signal is fired and the handle
    /// released; the command asks the session to stop sending the track.
    /// Idempotent: with no pump running, nothing happens.
    pub fn unpublish(&mut self) -> (r: (Option<PumpHandle>, Command))
        ensures
            final(self).track_name == old(self).track_name,
            final(self).handle is None,
            r.0 is Some <==> old(self).handle is Some,
            r.0 matches Some(h) ==> h.stop.fired,
            old(self).handle is Some ==> (r.1 matches Command::DetachTrack { track_name }
                && track_name == old(self).track_name),
            old(self).handle is None ==> r.1 is NoWork,
    {
        let had_pump = self.handle.is_some();
        let retired = self.release_pump();
        if had_pump {
            (retired, Command::DetachTrack { track_name: self.track_name.clone() })
        } else {
            (retired, Command::NoWork)
        }
    }

    /// The destruction path: whatever else happens to this publisher, an
    /// active pump's stop signal must be fired when it is torn down.
    pub fn teardown(&mut self) -> (retired: Option<PumpHandle>)
        ensures
            teardown_step(*old(self), *final(self), retired),
            final(self).track_name == old(self).track_name,
            final(self).handle is None,
            retired is Some <==> old(self).handle is Some,
            retired matches Some(h) ==> h.stop.fired,
    {
        self.release_pump()
    }

    /// Take the pump handle out, firing its stop signal on the way.
    fn release_pump(&mut self) -> (retired: Option<PumpHandle>)
        ensures
            final(self).track_name == old(self).track_name,
            final(self).handle is None,
            retired is Some <==> old(self).handle is Some,
            retired matches Some(h) ==> h.stop.fired,
    {
        match self.handle.take() {
            Some(mut h) => {
                h.stop.fire();
                Some(h)
            },
            None => None,
        }
    }
}

} // verus!
