//! The subscriber loop's decision core: from the current state and the next
//! thing the bus subscription yielded, decide the next state and perform the
//! per-message action (append to the mailbox). The surrounding runtime loop —
//! awaiting the next delivery — stays outside the library; it feeds every
//! outcome through `on_event`.

use vstd::prelude::*;

use crate::mailbox::{records_model, Mailbox};
use crate::message::{MessageModel, MessageRecord};

verus! {

/// The two states of the subscriber task. It starts `Running` once the
/// subscription is open; it moves to `Terminated` — and stays there — when
/// the stream ends or fails. Message delivery is a repeated action within
/// `Running`, not a state change.
#[derive(Clone, Copy, PartialEq, Eq, Structural, Debug)]
pub enum SubscriberState {
    Running,
    Terminated,
}

/// What one wait on the subscription can yield: a delivered message, the
/// orderly end of the stream, or an unrecoverable failure while reading it.
pub enum BusEvent {
    Delivered(MessageRecord),
    Closed,
    Failed,
}

/// The next state after `event`, given the current `state`.
pub open spec fn next_state(state: SubscriberState, event: BusEvent) -> SubscriberState {
    match (state, event) {
        (SubscriberState::Running, BusEvent::Delivered(_)) => SubscriberState::Running,
        _ => SubscriberState::Terminated,
    }
}

/// The mailbox contents after `event`, given the current `state` and
/// contents: a message delivered while running is appended; nothing else
/// ever changes the mailbox.
pub open spec fn next_mailbox(
    state: SubscriberState,
    event: BusEvent,
    mailbox: Seq<MessageModel>,
) -> Seq<MessageModel> {
    match (state, event) {
        (SubscriberState::Running, BusEvent::Delivered(m)) => mailbox.push(m@),
        _ => mailbox,
    }
}

/// One step of the subscriber: appends a message delivered while running and
/// keeps running; on a closed or failed stream, terminates and leaves the
/// mailbox as it was. A terminated subscriber never changes the mailbox
/// again.
pub fn on_event(state: SubscriberState, event: BusEvent, mailbox: &mut Mailbox) -> (next:
    SubscriberState)
    ensures
        next == next_state(state, event),
        final(mailbox)@ == next_mailbox(state, event, old(mailbox)@),
{
    match (state, event) {
        (SubscriberState::Running, BusEvent::Delivered(message)) => {
            mailbox.append(message);
            SubscriberState::Running
        },
        _ => SubscriberState::Terminated,
    }
}

/// The mailbox contents after a running subscriber has processed the
/// deliveries `msgs` one by one, starting from `init`: each step appends the
/// first remaining message.
pub open spec fn mailbox_after(init: Seq<MessageModel>, msgs: Seq<MessageModel>) -> Seq<
    MessageModel,
>
    decreases msgs.len(),
{
    if msgs.len() == 0 {
        init
    } else {
        mailbox_after(init.push(msgs.first()), msgs.drop_first())
    }
}

/// Order preservation: processing the deliveries `msgs` in order leaves the
/// mailbox holding exactly what it held before, followed by `msgs`, in that
/// order — nothing lost, nothing reordered. From an empty start the mailbox
/// holds exactly `msgs`.
pub proof fn lemma_order_preservation(init: Seq<MessageModel>, msgs: Seq<MessageModel>)
    ensures
        mailbox_after(init, msgs) == init + msgs,
    decreases msgs.len(),
{
    if msgs.len() == 0 {
        assert(mailbox_after(init, msgs) =~= init + msgs);
    } else {
        lemma_order_preservation(init.push(msgs.first()), msgs.drop_first());
        assert(init.push(msgs.first()) + msgs.drop_first() =~= init + msgs);
    }
}

/// No loss: after W deliveries, each appended without error, the length is
/// exactly the starting length plus W.
pub proof fn lemma_no_loss(init: Seq<MessageModel>, msgs: Seq<MessageModel>)
    ensures
        mailbox_after(init, msgs).len() == init.len() + msgs.len(),
{
    lemma_order_preservation(init, msgs);
}

/// Monotonic length: a length observed after some prefix of the deliveries
/// never exceeds a length observed after a longer prefix; in particular no
/// observed length exceeds the final one.
pub proof fn lemma_length_monotonic(
    init: Seq<MessageModel>,
    msgs: Seq<MessageModel>,
    i: int,
    j: int,
)
    requires
        0 <= i <= j <= msgs.len(),
    ensures
        mailbox_after(init, msgs.take(i)).len() <= mailbox_after(init, msgs.take(j)).len(),
{
    lemma_no_loss(init, msgs.take(i));
    lemma_no_loss(init, msgs.take(j));
}

/// Runs the subscriber over a batch of back-to-back deliveries: every message
/// is appended, in delivery order, and the subscriber is still running at the
/// end.
pub fn run_deliveries(mailbox: &mut Mailbox, deliveries: Vec<MessageRecord>) -> (state:
    SubscriberState)
    ensures
        final(mailbox)@ == old(mailbox)@ + records_model(deliveries@),
        final(mailbox)@ == mailbox_after(old(mailbox)@, records_model(deliveries@)),
        state == SubscriberState::Running,
{
    let mut state = SubscriberState::Running;
    let n = deliveries.len();
    let mut i: usize = 0;
    while i < n
        invariant
            n == deliveries@.len(),
            0 <= i <= n,
            state == SubscriberState::Running,
            mailbox@ == old(mailbox)@ + records_model(deliveries@.take(i as int)),
        decreases n - i,
    {
        let message = deliveries[i].clone();
        state = on_event(state, BusEvent::Delivered(message), mailbox);
        i = i + 1;
        proof {
            assert(records_model(deliveries@.take(i as int)) =~= records_model(
                deliveries@.take(i - 1),
            ).push(deliveries@[i - 1]@));
            assert(mailbox@ =~= old(mailbox)@ + records_model(deliveries@.take(i as int)));
        }
    }
    proof {
        assert(deliveries@.take(n as int) =~= deliveries@);
        lemma_order_preservation(old(mailbox)@, records_model(deliveries@));
    }
    state
}

} // verus!
