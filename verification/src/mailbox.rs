//! The mailbox: an ordered, append-only, in-memory store of received
//! messages. One background task writes; any number of request handlers read.
//! Callers that share a mailbox across tasks serialize each call behind a
//! mutual-exclusion primitive; every operation here is a single atomic unit of
//! work on the owned state, so a reader never observes a partially appended
//! element.

use vstd::prelude::*;

use crate::message::{MessageModel, MessageRecord};

verus! {

/// The model of a sequence of stored records: each record's own model, in
/// the same order.
pub open spec fn records_model(s: Seq<MessageRecord>) -> Seq<MessageModel> {
    s.map_values(|m: MessageRecord| m@)
}

/// The in-process store accumulating received messages, in delivery order.
/// It only ever grows: no operation removes or reorders an element.
pub struct Mailbox {
    messages: Vec<MessageRecord>,
}

impl View for Mailbox {
    type V = Seq<MessageModel>;

    closed spec fn view(&self) -> Seq<MessageModel> {
        records_model(self.messages@)
    }
}

impl Mailbox {
    /// A mailbox starts empty.
    pub fn new() -> (r: Mailbox)
        ensures
            r@ == Seq::<MessageModel>::empty(),
    {
        let r = Mailbox { messages: Vec::new() };
        proof {
            assert(r@ =~= Seq::<MessageModel>::empty());
        }
        r
    }

    /// Adds `message` as the new last element; everything already stored
    /// stays, in its place.
    pub fn append(&mut self, message: MessageRecord)
        ensures
            final(self)@ == old(self)@.push(message@),
    {
        let ghost before = self.messages@;
        self.messages.push(message);
        proof {
            assert(self@ =~= records_model(before).push(self.messages@.last()@));
        }
    }

    /// The count of stored elements at the instant of the call.
    pub fn length(&self) -> (n: usize)
        ensures
            n as nat == self@.len(),
    {
        self.messages.len()
    }

    /// A copy of the current contents. The returned vector is owned by the
    /// caller: appends made after the call cannot reach it (read isolation).
    pub fn snapshot(&self) -> (r: Vec<MessageRecord>)
        ensures
            records_model(r@) == self@,
    {
        let r = self.messages.clone();
        proof {
            assert forall|i: int| 0 <= i < r@.len() implies r@[i]@ == self.messages@[i]@ by {
                assert(cloned::<MessageRecord>(self.messages[i], r[i]));
            }
            assert(records_model(r@) =~= self@);
        }
        r
    }
}

/// Read isolation: a snapshot taken just before an append still models the
/// pre-append contents once the append has happened; the reader holding the
/// snapshot never observes the mutation.
pub fn snapshot_then_append(mailbox: &mut Mailbox, message: MessageRecord) -> (snap: Vec<
    MessageRecord,
>)
    ensures
        records_model(snap@) == old(mailbox)@,
        final(mailbox)@ == old(mailbox)@.push(message@),
{
    let snap = mailbox.snapshot();
    mailbox.append(message);
    snap
}

} // verus!
