//! The ordered queue of messages that one session owns.
use vstd::prelude::*;
use crate::message::{views_of, Message, MessageView};

verus! {

/// An ordered run of messages. It grows only at its end and shrinks only by
/// giving up everything at once.
#[derive(Debug, PartialEq, Eq)]
pub struct MessageQueue {
    items: Vec<Message>,
}

impl View for MessageQueue {
    type V = Seq<MessageView>;

    closed spec fn view(&self) -> Seq<MessageView> {
        views_of(self.items@)
    }
}

/// A copy of `messages`, message by message.
pub fn copy_messages(messages: &Vec<Message>) -> (copy: Vec<Message>)
    ensures
        views_of(copy@) == views_of(messages@),
{
    let mut copy: Vec<Message> = Vec::new();
    let mut i: usize = 0;
    while i < messages.len()
        invariant
            i <= messages.len(),
            views_of(copy@) == views_of(messages@).take(i as int),
        decreases messages.len() - i,
    {
        let ghost before = copy@;
        let message = messages[i].clone();
        copy.push(message);
        proof {
            assert(views_of(copy@) =~= views_of(before).push(message@));
            assert(views_of(messages@).take(i + 1) =~= views_of(messages@).take(i as int).push(
                messages[i as int]@,
            ));
        }
        i += 1;
    }
    proof {
        assert(views_of(messages@).take(i as int) =~= views_of(messages@));
    }
    copy
}

impl Clone for MessageQueue {
    fn clone(&self) -> (copy: Self)
        ensures
            copy@ == self@,
    {
        MessageQueue { items: copy_messages(&self.items) }
    }
}

impl MessageQueue {
    /// A queue that holds nothing.
    pub fn new() -> (queue: MessageQueue)
        ensures
            queue@ == Seq::<MessageView>::empty(),
    {
        let queue = MessageQueue { items: Vec::new() };
        proof {
            assert(queue@ =~= Seq::<MessageView>::empty());
        }
        queue
    }

    /// A queue that holds `messages`, first to last.
    pub fn from_messages(messages: Vec<Message>) -> (queue: MessageQueue)
        ensures
            queue@ == views_of(messages@),
    {
        MessageQueue { items: messages }
    }

    /// How many messages wait in the queue.
    pub fn len(&self) -> (n: usize)
        ensures
            n == self@.len(),
    {
        self.items.len()
    }

    /// Whether nothing waits in the queue.
    pub fn is_empty(&self) -> (empty: bool)
        ensures
            empty == (self@.len() == 0),
    {
        self.items.len() == 0
    }

    /// Puts `message` behind all that wait already.
    pub fn append(&mut self, message: Message)
        ensures
            final(self)@ == old(self)@.push(message@),
    {
        self.items.push(message);
        proof {
            assert(views_of(self.items@) =~= views_of(old(self).items@).push(message@));
        }
    }

    /// Hands out everything that waits, first to last, and leaves the queue
    /// empty.
    pub fn consume_all(&mut self) -> (messages: Vec<Message>)
        ensures
            views_of(messages@) == old(self)@,
            final(self)@ == Seq::<MessageView>::empty(),
    {
        let mut messages: Vec<Message> = Vec::new();
        std::mem::swap(&mut self.items, &mut messages);
        proof {
            assert(self@ =~= Seq::<MessageView>::empty());
        }
        messages
    }

    /// A copy of what waits, first to last; the queue keeps it.
    pub fn peek_all(&self) -> (messages: Vec<Message>)
        ensures
            views_of(messages@) == self@,
    {
        copy_messages(&self.items)
    }
}

} // verus!
