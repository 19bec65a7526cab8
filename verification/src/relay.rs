//! The event relay adapter: a cooperative loop that moves events from the
//! session's native event stream into a capacity-one outbox the polling
//! caller drains, and stops cleanly the moment its stop signal fires.

use vstd::prelude::*;

use crate::channel::try_send_event;
use crate::mailbox::Mailbox;
use crate::state::SessionEvent;

verus! {

/// The relay's state: whether the loop is still running, and the bounded
/// outbox towards the polling caller.
pub struct EventRelay {
    pub running: bool,
    pub outbox: Mailbox<SessionEvent>,
}

impl EventRelay {
    /// A running relay with an empty outbox, started when a connection
    /// succeeds.
    pub fn start() -> (r: Self)
        ensures
            r.running,
            r.outbox@ is None,
    {
        EventRelay { running: true, outbox: Mailbox::empty() }
    }

    /// One iteration of the adapter loop. The stop signal is checked
    /// first, non-blockingly: a fired signal ends the loop on this very
    /// iteration, dropping the outbox without draining it. Otherwise at
    /// most one incoming event is forwarded; while the outbox is full the
    /// incoming event is handed back undelivered (best-effort,
    /// at-most-one-buffered delivery, never an unbounded backlog).
    pub fn step(&mut self, stop_requested: bool, incoming: Option<SessionEvent>) -> (undelivered:
        Option<SessionEvent>)
        requires
            old(self).running,
        ensures
            stop_requested ==> {
                &&& !final(self).running
                &&& final(self).outbox@ is None
                &&& undelivered == incoming
            },
            !stop_requested ==> final(self).running,
            !stop_requested && old(self).outbox@ is None ==> final(self).outbox@ == incoming
                && undelivered is None,
            !stop_requested && old(self).outbox@ is Some ==> final(self).outbox@ == old(
                self,
            ).outbox@ && undelivered == incoming,
    {
        if stop_requested {
            self.running = false;
            let _ = self.outbox.drain();
            return incoming;
        }
        match incoming {
            Some(ev) => self.outbox.offer(ev),
            None => None,
        }
    }
}

/// What one iteration of the working relay did with the incoming event:
/// offered it to the channel and had it taken; offered it and had it
/// handed back (the exact event, undelivered); or saw no event at all.
#[derive(Clone, Debug)]
pub enum RelayDelivery {
    Forwarded,
    Undelivered(SessionEvent),
    Idle,
}

/// The relay's working end over the real outbound channel: the same loop
/// body as the model, but the outbox is the capacity-one channel whose far
/// end the polling caller drains, so whether an offer is accepted depends
/// on that other thread; an event never disappears silently — it is
/// forwarded or handed back.
pub struct RelayWorker {
    running: bool,
    sender: flume::Sender<SessionEvent>,
}

impl RelayWorker {
    /// Whether the worker's loop is still running.
    pub closed spec fn is_running(self) -> bool {
        self.running
    }

    /// A running relay worker feeding the given outbound channel.
    pub fn start(sender: flume::Sender<SessionEvent>) -> (r: Self)
        ensures
            r.is_running(),
    {
        RelayWorker { running: true, sender }
    }

    /// One iteration over the real channel: check the stop signal first —
    /// a fired signal ends the loop on this very iteration, handing any
    /// incoming event back undelivered — else offer the incoming event to
    /// the channel: it is either forwarded or handed back, never dropped.
    pub fn step(&mut self, stop_requested: bool, incoming: Option<SessionEvent>) -> (d:
        RelayDelivery)
        requires
            old(self).is_running(),
        ensures
            stop_requested ==> !final(self).is_running(),
            !stop_requested ==> final(self).is_running(),
            incoming is None <==> d is Idle,
            d matches RelayDelivery::Undelivered(e) ==> incoming == Some(e),
            d is Forwarded ==> !stop_requested && incoming is Some,
            stop_requested ==> (incoming matches Some(e) ==> d == RelayDelivery::Undelivered(
                e,
            )),
    {
        if stop_requested {
            self.running = false;
            return match incoming {
                Some(e) => RelayDelivery::Undelivered(e),
                None => RelayDelivery::Idle,
            };
        }
        match incoming {
            Some(ev) => match try_send_event(&self.sender, ev) {
                None => RelayDelivery::Forwarded,
                Some(back) => RelayDelivery::Undelivered(back),
            },
            None => RelayDelivery::Idle,
        }
    }
}

} // verus!
