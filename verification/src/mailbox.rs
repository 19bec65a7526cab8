//! A bounded slot of capacity one: the queue discipline shared by the action
//! queue and the event relay. A producer that offers while the slot is full
//! observes backpressure (the value is handed back); a consumer drains at
//! most one buffered value per poll.

use vstd::prelude::*;

verus! {

/// A single-slot buffer. Its view is the buffered value, if any; by
/// construction it never holds more than one value.
pub struct Mailbox<T> {
    slot: Option<T>,
}

impl<T> Mailbox<T> {
    /// What the mailbox currently buffers.
    pub closed spec fn view(&self) -> Option<T> {
        self.slot
    }

    /// A fresh, empty mailbox.
    pub fn empty() -> (m: Self)
        ensures
            m@ is None,
    {
        Mailbox { slot: None }
    }

    /// Whether a value is currently buffered.
    pub fn occupied(&self) -> (b: bool)
        ensures
            b == (self@ is Some),
    {
        self.slot.is_some()
    }

    /// Offer a value. If the slot is empty the value is stored; otherwise
    /// the slot keeps its older value and the offered one is handed back,
    /// which is the backpressure a capacity-one queue imposes.
    pub fn offer(&mut self, v: T) -> (rejected: Option<T>)
        ensures
            old(self)@ is None ==> final(self)@ == Some(v) && rejected is None,
            old(self)@ is Some ==> final(self)@ == old(self)@ && rejected == Some(v),
    {
        if self.slot.is_some() {
            Some(v)
        } else {
            self.slot = Some(v);
            None
        }
    }

    /// Drain the buffered value, if any, leaving the slot empty. The value
    /// returned is exactly the one that was offered: submission order is
    /// delivery order.
    pub fn drain(&mut self) -> (taken: Option<T>)
        ensures
            final(self)@ is None,
            taken == old(self)@,
    {
        self.slot.take()
    }
}

/// One operation on a mailbox: a producer's offer or a consumer's drain.
/// Running a sequence of these through `run_slot` mirrors, case for
/// case, the contracts of `offer` and `drain` above.
pub enum SlotOp<T> {
    Offer(T),
    Drain,
}

/// The slot contents, the values accepted so far and the values
/// delivered so far, after a sequence of operations on an initially
/// empty slot: an offer to a full slot is turned away, a drain of an
/// empty slot yields nothing.
pub open spec fn run_slot<T>(ops: Seq<SlotOp<T>>) -> (Option<T>, Seq<T>, Seq<T>)
    decreases ops.len(),
{
    if ops.len() == 0 {
        (None, Seq::empty(), Seq::empty())
    } else {
        let (slot, accepted, delivered) = run_slot(ops.drop_last());
        match ops.last() {
            SlotOp::Offer(v) => if slot is Some {
                (slot, accepted, delivered)
            } else {
                (Some(v), accepted.push(v), delivered)
            },
            SlotOp::Drain => match slot {
                Some(v) => (None, accepted, delivered.push(v)),
                None => (None, accepted, delivered),
            },
        }
    }
}

/// Law: through a capacity-one slot, delivery order is submission order.
/// Under any interleaving of offers and drains, the delivered values are
/// exactly the accepted ones, in the order they were accepted, with at
/// most one accepted value still buffered.
pub proof fn lemma_delivery_follows_submission<T>(ops: Seq<SlotOp<T>>)
    ensures
        ({
            let (slot, accepted, delivered) = run_slot(ops);
            &&& delivered.len() <= accepted.len()
            &&& delivered == accepted.take(delivered.len() as int)
            &&& (slot matches Some(v) ==> accepted.len() == delivered.len() + 1 && v
                == accepted.last())
            &&& (slot is None ==> accepted.len() == delivered.len())
        }),
    decreases ops.len(),
{
    if ops.len() > 0 {
        lemma_delivery_follows_submission(ops.drop_last());
        let (slot, accepted, delivered) = run_slot(ops.drop_last());
        let (slot1, accepted1, delivered1) = run_slot(ops);
        match ops.last() {
            SlotOp::Offer(v) => {
                if slot is None {
                    assert(delivered1 =~= accepted1.take(delivered1.len() as int));
                }
            },
            SlotOp::Drain => {
                if slot is Some {
                    assert(delivered1 =~= accepted1.take(delivered1.len() as int));
                }
            },
        }
    }
}

/// How many values a mailbox buffers: zero or one, never more.
pub open spec fn buffered_count<T>(m: Mailbox<T>) -> int {
    if m@ is Some {
        1
    } else {
        0
    }
}

/// A mailbox never buffers more than one value: delivery is best-effort
/// with at most one event waiting, not an unbounded backlog.
pub proof fn lemma_at_most_one_buffered<T>(m: Mailbox<T>)
    ensures
        buffered_count(m) <= 1,
{
}

} // verus!
