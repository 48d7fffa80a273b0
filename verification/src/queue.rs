//! The bounded FIFO queue between the two producers (ingress loop, poller)
//! and its single consumer, the device writer. A full queue rejects the
//! message — delivery to the hardware is best effort and never blocks the
//! protocol loop.

use vstd::prelude::*;
use crate::state::{MessageModel, StatusMessage};

verus! {

/// A bounded first-in-first-out queue of status messages.
pub struct MessageQueue {
    items: Vec<StatusMessage>,
    capacity: usize,
}

impl View for MessageQueue {
    type V = Seq<MessageModel>;

    closed spec fn view(&self) -> Seq<MessageModel> {
        self.items@.map_values(|m: StatusMessage| m@)
    }
}

impl MessageQueue {
    /// The fixed capacity the queue was created with.
    pub closed spec fn spec_capacity(&self) -> nat {
        self.capacity as nat
    }

    /// The queue never holds more than its capacity.
    pub closed spec fn wf(&self) -> bool {
        self.items@.len() <= self.capacity && self.capacity >= 1
    }

    pub fn new(capacity: usize) -> (r: Self)
        requires
            capacity >= 1,
        ensures
            r.wf(),
            r@ == Seq::<MessageModel>::empty(),
            r.spec_capacity() == capacity,
    {
        let r = MessageQueue { items: Vec::new(), capacity };
        proof {
            assert(r@ =~= Seq::<MessageModel>::empty());
        }
        r
    }

    /// Appends the message at the back if the queue has room; a full queue
    /// rejects it and is left untouched.
    pub fn enqueue(&mut self, msg: StatusMessage) -> (ok: bool)
        requires
            old(self).wf(),
        ensures
            final(self).wf(),
            final(self).spec_capacity() == old(self).spec_capacity(),
            ok == (old(self)@.len() < old(self).spec_capacity()),
            ok ==> final(self)@ == old(self)@.push(msg@),
            !ok ==> final(self)@ == old(self)@,
    {
        if self.items.len() < self.capacity {
            self.items.push(msg);
            proof {
                assert(self@ =~= old(self)@.push(msg@));
            }
            true
        } else {
            false
        }
    }

    /// Removes and returns the oldest message; an empty queue returns nothing
    /// and is left untouched.
    pub fn dequeue(&mut self) -> (r: Option<StatusMessage>)
        requires
            old(self).wf(),
        ensures
            final(self).wf(),
            final(self).spec_capacity() == old(self).spec_capacity(),
            match r {
                Some(m) => old(self)@.len() > 0 && m@ == old(self)@.first() && final(self)@ == old(
                    self,
                )@.drop_first(),
                None => old(self)@.len() == 0 && final(self)@ == old(self)@,
            },
    {
        if self.items.len() > 0 {
            let m = self.items.remove(0);
            proof {
                assert(self@ =~= old(self)@.drop_first());
            }
            Some(m)
        } else {
            None
        }
    }

    pub fn len(&self) -> (n: usize)
        ensures
            n == self@.len(),
    {
        self.items.len()
    }
}

/// The queue's content after enqueueing `msgs` one by one, in the case where
/// every message fits.
pub open spec fn spec_enqueue_all(contents: Seq<MessageModel>, msgs: Seq<MessageModel>) -> Seq<
    MessageModel,
>
    decreases msgs.len(),
{
    if msgs.len() == 0 {
        contents
    } else {
        spec_enqueue_all(contents, msgs.drop_last()).push(msgs.last())
    }
}

/// The sequence that repeated dequeuing delivers, oldest first, from given
/// contents.
pub open spec fn spec_drain(contents: Seq<MessageModel>) -> Seq<MessageModel>
    decreases contents.len(),
{
    if contents.len() == 0 {
        Seq::<MessageModel>::empty()
    } else {
        seq![contents.first()] + spec_drain(contents.drop_first())
    }
}

pub proof fn lemma_drain_is_identity(contents: Seq<MessageModel>)
    ensures
        spec_drain(contents) == contents,
    decreases contents.len(),
{
    if contents.len() == 0 {
        assert(spec_drain(contents) =~= contents);
    } else {
        lemma_drain_is_identity(contents.drop_first());
        assert(spec_drain(contents) =~= contents);
    }
}

pub proof fn lemma_enqueue_all_appends(contents: Seq<MessageModel>, msgs: Seq<MessageModel>)
    ensures
        spec_enqueue_all(contents, msgs) == contents + msgs,
    decreases msgs.len(),
{
    if msgs.len() == 0 {
        assert(spec_enqueue_all(contents, msgs) =~= contents + msgs);
    } else {
        lemma_enqueue_all_appends(contents, msgs.drop_last());
        assert(spec_enqueue_all(contents, msgs) =~= contents + msgs);
    }
}

/// Ordering law: whatever messages are successfully enqueued, by either
/// producer, the consumer dequeues exactly the prior contents followed by
/// those messages, in enqueue order.
pub proof fn lemma_fifo_order(contents: Seq<MessageModel>, msgs: Seq<MessageModel>)
    ensures
        spec_drain(spec_enqueue_all(contents, msgs)) == contents + msgs,
{
    lemma_enqueue_all_appends(contents, msgs);
    lemma_drain_is_identity(contents + msgs);
}

} // verus!
