//! The request-scoped side of the message queue: loaded from the session
//! record when a request comes in, appended to and read while it is served,
//! and flushed back when the response goes out.
use vstd::prelude::*;
use crate::message::{views_of, Level, Message, MessageView};
use crate::queue::MessageQueue;
use crate::session::{queued, SessionRecord};

verus! {

/// What [`Messages`] is to a contract.
pub struct MessagesView {
    /// Appended and not yet handed to a reader, first to last.
    pub pending: Seq<MessageView>,
    /// Handed to the current reader and not yet read, first to last.
    pub readable: Seq<MessageView>,
    /// Whether the session record has to be written when the response goes
    /// out.
    pub modified: bool,
}

impl MessagesView {
    /// The state at the start of a request whose session holds `record`.
    pub open spec fn loaded(record: Option<Seq<MessageView>>) -> MessagesView {
        MessagesView { pending: queued(record), readable: Seq::empty(), modified: false }
    }

    /// The state that holds nothing and owes the session nothing.
    pub open spec fn cleared() -> MessagesView {
        MessagesView { pending: Seq::empty(), readable: Seq::empty(), modified: false }
    }

    /// A reader receives the queue: what was pending becomes readable, what
    /// an earlier reader left unread is gone, and nothing is pending.
    pub open spec fn observe(self) -> MessagesView {
        MessagesView { pending: Seq::empty(), readable: self.pending, modified: self.modified }
    }

    /// One message is appended.
    pub open spec fn push(self, message: MessageView) -> MessagesView {
        MessagesView {
            pending: self.pending.push(message),
            readable: self.readable,
            modified: true,
        }
    }

    /// Several messages are appended, first to last.
    pub open spec fn push_all(self, messages: Seq<MessageView>) -> MessagesView
        decreases messages.len(),
    {
        if messages.len() == 0 {
            self
        } else {
            self.push_all(messages.drop_last()).push(messages.last())
        }
    }

    /// The reader reads all that it was handed.
    pub open spec fn consume(self) -> MessagesView {
        MessagesView {
            pending: self.pending,
            readable: Seq::empty(),
            modified: self.modified || self.readable.len() > 0,
        }
    }

    /// What the session holds after the response went out, given that it
    /// held `record` before.
    pub open spec fn flushed(self, record: Option<Seq<MessageView>>) -> Option<Seq<MessageView>> {
        if self.modified {
            Some(self.pending)
        } else {
            record
        }
    }
}

/// The messages of the request that is being served.
#[derive(Debug, PartialEq, Eq)]
pub struct Messages {
    pending: MessageQueue,
    readable: MessageQueue,
    modified: bool,
}

impl View for Messages {
    type V = MessagesView;

    closed spec fn view(&self) -> MessagesView {
        MessagesView {
            pending: self.pending@,
            readable: self.readable@,
            modified: self.modified,
        }
    }
}

impl Messages {
    /// Starts a request: takes the queue that the session record holds, an
    /// empty one where it holds none.
    pub fn load(record: &SessionRecord) -> (messages: Messages)
        ensures
            messages@ == MessagesView::loaded(record@),
    {
        Messages { pending: record.messages(), readable: MessageQueue::new(), modified: false }
    }

    /// Hands the queue to the next reader: what was pending becomes
    /// readable, and what an earlier reader left unread is gone.
    pub fn observe(&mut self)
        ensures
            final(self)@ == old(self)@.observe(),
    {
        let handed = self.pending.consume_all();
        self.readable = MessageQueue::from_messages(handed);
    }

    /// Appends a message of the given level. This cannot fail.
    pub fn push(&mut self, level: Level, text: &str)
        ensures
            final(self)@ == old(self)@.push(MessageView { level, text: text@ }),
    {
        self.pending.append(Message::new(level, text));
        self.modified = true;
    }

    /// Appends a debug message.
    pub fn debug(&mut self, text: &str)
        ensures
            final(self)@ == old(self)@.push(MessageView { level: Level::Debug, text: text@ }),
    {
        self.push(Level::Debug, text);
    }

    /// Appends an info message.
    pub fn info(&mut self, text: &str)
        ensures
            final(self)@ == old(self)@.push(MessageView { level: Level::Info, text: text@ }),
    {
        self.push(Level::Info, text);
    }

    /// Appends a success message.
    pub fn success(&mut self, text: &str)
        ensures
            final(self)@ == old(self)@.push(MessageView { level: Level::Success, text: text@ }),
    {
        self.push(Level::Success, text);
    }

    /// Appends a warning.
    pub fn warning(&mut self, text: &str)
        ensures
            final(self)@ == old(self)@.push(MessageView { level: Level::Warning, text: text@ }),
    {
        self.push(Level::Warning, text);
    }

    /// Appends an error message.
    pub fn error(&mut self, text: &str)
        ensures
            final(self)@ == old(self)@.push(MessageView { level: Level::Error, text: text@ }),
    {
        self.push(Level::Error, text);
    }

    /// How many messages the current reader can read.
    pub fn len(&self) -> (n: usize)
        ensures
            n == self@.readable.len(),
    {
        self.readable.len()
    }

    /// Whether the current reader has nothing to read.
    pub fn is_empty(&self) -> (empty: bool)
        ensures
            empty == (self@.readable.len() == 0),
    {
        self.readable.is_empty()
    }

    /// Whether the session record will be written when the response goes
    /// out.
    pub fn is_modified(&self) -> (modified: bool)
        ensures
            modified == self@.modified,
    {
        self.modified
    }

    /// Reads all that the current reader was handed, first to last. A
    /// second read finds nothing.
    pub fn consume(&mut self) -> (messages: Vec<Message>)
        ensures
            views_of(messages@) == old(self)@.readable,
            final(self)@ == old(self)@.consume(),
    {
        let messages = self.readable.consume_all();
        if messages.len() > 0 {
            self.modified = true;
        }
        messages
    }

    /// Ends a request: writes the queue to `record` if anything was
    /// appended or read, then clears the request's state. Returns whether
    /// the record was written.
    pub fn flush(&mut self, record: &mut SessionRecord) -> (written: bool)
        ensures
            written == old(self)@.modified,
            final(record)@ == old(self)@.flushed(old(record)@),
            final(self)@ == MessagesView::cleared(),
    {
        let written = self.modified;
        let rest = self.pending.consume_all();
        if written {
            record.set_messages(MessageQueue::from_messages(rest));
        }
        self.readable = MessageQueue::new();
        self.modified = false;
        written
    }
}

} // verus!
