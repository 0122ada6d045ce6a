//! The queue that carries the messages of background tasks to the thread that owns the
//! application state: unbounded, in the order of sending, emptied by each poll.

use vstd::prelude::*;
use crate::message::TerminalMessage;

verus! {

/// The messages sent and not yet polled.
pub struct Transcript {
    pending: Vec<TerminalMessage>,
}

impl View for Transcript {
    type V = Seq<TerminalMessage>;

    /// The queued messages, oldest first.
    closed spec fn view(&self) -> Seq<TerminalMessage> {
        self.pending@
    }
}

/// The queue after `message` was sent.
pub open spec fn after_send(queued: Seq<TerminalMessage>, message: TerminalMessage) -> Seq<
    TerminalMessage,
> {
    queued.push(message)
}

/// The queue after each of `messages` was sent, in their order.
pub open spec fn after_sends(queued: Seq<TerminalMessage>, messages: Seq<TerminalMessage>) -> Seq<
    TerminalMessage,
>
    decreases messages.len(),
{
    if messages.len() == 0 {
        queued
    } else {
        after_send(after_sends(queued, messages.drop_last()), messages.last())
    }
}

/// What a poll hands out.
pub open spec fn polled(queued: Seq<TerminalMessage>) -> Seq<TerminalMessage> {
    queued
}

/// The queue after a poll.
pub open spec fn after_poll(queued: Seq<TerminalMessage>) -> Seq<TerminalMessage> {
    Seq::empty()
}

impl Transcript {
    /// A queue that holds nothing.
    pub fn new() -> (transcript: Transcript)
        ensures
            transcript@ == Seq::<TerminalMessage>::empty(),
    {
        Transcript { pending: Vec::new() }
    }

    /// Puts `message` behind all that is queued.
    pub fn send(&mut self, message: TerminalMessage)
        ensures
            final(self)@ == after_send(old(self)@, message),
    {
        self.pending.push(message);
    }

    /// Hands out all that is queued, oldest first, and leaves the queue empty.
    pub fn poll(&mut self) -> (messages: Vec<TerminalMessage>)
        ensures
            messages@ == polled(old(self)@),
            final(self)@ == after_poll(old(self)@),
    {
        let mut messages: Vec<TerminalMessage> = Vec::new();
        std::mem::swap(&mut self.pending, &mut messages);
        messages
    }
}

/// Sending puts the messages behind what is queued, in the order of sending.
pub proof fn lemma_sends_append(queued: Seq<TerminalMessage>, messages: Seq<TerminalMessage>)
    ensures
        after_sends(queued, messages) == queued + messages,
    decreases messages.len(),
{
    if messages.len() == 0 {
        assert(queued + messages =~= queued);
    } else {
        lemma_sends_append(queued, messages.drop_last());
        assert((queued + messages.drop_last()).push(messages.last()) =~= queued + messages);
    }
}

/// A poll drains the queue. After any number of sends on an empty queue the next poll
/// hands out all the messages sent, in the order of sending, and a second poll right
/// after it hands out none.
pub proof fn lemma_poll_drains(messages: Seq<TerminalMessage>)
    ensures
        polled(after_sends(Seq::empty(), messages)) == messages,
        polled(after_poll(after_sends(Seq::empty(), messages))) == Seq::<TerminalMessage>::empty(),
{
    lemma_sends_append(Seq::empty(), messages);
    assert(Seq::<TerminalMessage>::empty() + messages =~= messages);
}

} // verus!
