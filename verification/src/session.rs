//! What a session keeps between requests, and an in-memory store of
//! sessions keyed by their identifiers.
use std::collections::HashMap;
use vstd::prelude::*;
use crate::message::MessageView;
use crate::queue::MessageQueue;

verus! {

/// The queue that a record stands for: what it holds, or nothing where no
/// queue was ever written to it.
pub open spec fn queued(record: Option<Seq<MessageView>>) -> Seq<MessageView> {
    match record {
        Some(messages) => messages,
        None => Seq::empty(),
    }
}

/// What one session keeps: its message queue, once one has been written.
#[derive(Debug, PartialEq, Eq)]
pub struct SessionRecord {
    messages: Option<MessageQueue>,
}

impl View for SessionRecord {
    type V = Option<Seq<MessageView>>;

    closed spec fn view(&self) -> Option<Seq<MessageView>> {
        match self.messages {
            Some(queue) => Some(queue@),
            None => None,
        }
    }
}

impl Clone for SessionRecord {
    fn clone(&self) -> (copy: Self)
        ensures
            copy@ == self@,
    {
        match &self.messages {
            Some(queue) => SessionRecord { messages: Some(queue.clone()) },
            None => SessionRecord { messages: None },
        }
    }
}

impl Default for SessionRecord {
    fn default() -> (record: Self)
        ensures
            record@ == None::<Seq<MessageView>>,
    {
        SessionRecord { messages: None }
    }
}

impl SessionRecord {
    /// A record to which no queue was written yet.
    pub fn new() -> (record: SessionRecord)
        ensures
            record@ == None::<Seq<MessageView>>,
    {
        SessionRecord { messages: None }
    }

    /// A record that holds `queue`.
    pub fn with_messages(queue: MessageQueue) -> (record: SessionRecord)
        ensures
            record@ == Some(queue@),
    {
        SessionRecord { messages: Some(queue) }
    }

    /// Whether a queue was written to the record.
    pub fn has_messages(&self) -> (has: bool)
        ensures
            has == self@.is_some(),
    {
        self.messages.is_some()
    }

    /// A copy of the queue that the record stands for: the one written to
    /// it, or an empty one.
    pub fn messages(&self) -> (queue: MessageQueue)
        ensures
            queue@ == queued(self@),
    {
        match &self.messages {
            Some(queue) => queue.clone(),
            None => MessageQueue::new(),
        }
    }

    /// Writes `queue` to the record, in place of what it held.
    pub fn set_messages(&mut self, queue: MessageQueue)
        ensures
            final(self)@ == Some(queue@),
    {
        self.messages = Some(queue);
    }
}

/// The record that a store gives for `session`: the one put there, or the
/// empty record.
pub open spec fn record_of(
    store: Map<u64, Option<Seq<MessageView>>>,
    session: u64,
) -> Option<Seq<MessageView>> {
    if store.contains_key(session) {
        store[session]
    } else {
        None
    }
}

/// Session records in memory, keyed by session identifier. A session that
/// was never put reads as the empty record.
pub struct SessionStore {
    records: HashMap<u64, SessionRecord>,
}

impl View for SessionStore {
    type V = Map<u64, Option<Seq<MessageView>>>;

    closed spec fn view(&self) -> Map<u64, Option<Seq<MessageView>>> {
        Map::new(|id: u64| self.records@.contains_key(id), |id: u64| self.records@[id]@)
    }
}

impl SessionStore {
    /// A store without sessions.
    pub fn new() -> (store: SessionStore)
        ensures
            store@ == Map::<u64, Option<Seq<MessageView>>>::empty(),
    {
        let store = SessionStore { records: HashMap::new() };
        proof {
            assert(store@ =~= Map::<u64, Option<Seq<MessageView>>>::empty());
        }
        store
    }

    /// Whether a record was put for `session`.
    pub fn contains(&self, session: u64) -> (known: bool)
        ensures
            known == self@.contains_key(session),
    {
        self.records.contains_key(&session)
    }

    /// A copy of the record of `session`; the empty record where none was
    /// put.
    pub fn get(&self, session: u64) -> (record: SessionRecord)
        ensures
            record@ == record_of(self@, session),
    {
        match self.records.get(&session) {
            Some(record) => record.clone(),
            None => SessionRecord::new(),
        }
    }

    /// Puts `record` for `session`, in place of what was there. No other
    /// session is touched.
    pub fn put(&mut self, session: u64, record: SessionRecord)
        ensures
            final(self)@ == old(self)@.insert(session, record@),
    {
        self.records.insert(session, record);
        proof {
            assert(self@ =~= old(self)@.insert(session, record@));
        }
    }

    /// Forgets `session`. No other session is touched.
    pub fn delete(&mut self, session: u64)
        ensures
            final(self)@ == old(self)@.remove(session),
    {
        self.records.remove(&session);
        proof {
            assert(self@ =~= old(self)@.remove(session));
        }
    }
}

} // verus!
