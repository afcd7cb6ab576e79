//! The unit of data the bus delivers: a message, held opaque.

use vstd::prelude::*;

verus! {

/// The mathematical model of a received message: the sequences of characters
/// and bytes the contracts speak of.
pub struct MessageModel {
    pub topic: Seq<char>,
    pub payload: Seq<u8>,
    pub reply_to: Option<Seq<char>>,
}

/// One message delivered by the bus: the topic it arrived on, its payload
/// bytes, and the reply-to address the bus may have attached. The payload is
/// opaque to this library: nothing here ever parses it.
pub struct MessageRecord {
    pub topic: String,
    pub payload: Vec<u8>,
    pub reply_to: Option<String>,
}

impl View for MessageRecord {
    type V = MessageModel;

    open spec fn view(&self) -> MessageModel {
        MessageModel {
            topic: self.topic@,
            payload: self.payload@,
            reply_to: match self.reply_to {
                Some(s) => Some(s@),
                None => None,
            },
        }
    }
}

impl Clone for MessageRecord {
    /// A clone models the same message.
    fn clone(&self) -> (r: Self)
        ensures
            r@ == self@,
    {
        let payload = self.payload.clone();
        let reply_to = match &self.reply_to {
            Some(s) => Some(s.clone()),
            None => None,
        };
        proof {
            assert forall|i: int| 0 <= i < payload@.len() implies payload@[i] == self.payload@[i] by {
                assert(cloned::<u8>(self.payload[i], payload[i]));
            }
            assert(payload@ =~= self.payload@);
        }
        MessageRecord { topic: self.topic.clone(), payload, reply_to }
    }
}

} // verus!
