use flash_messages::manager::Messages;
use flash_messages::message::{Level, Message};
use flash_messages::queue::MessageQueue;
use flash_messages::session::{SessionRecord, SessionStore};

fn record_with(messages: Vec<Message>) -> SessionRecord {
    SessionRecord::with_messages(MessageQueue::from_messages(messages))
}

#[test]
fn new_record_holds_no_queue() {
    let record = SessionRecord::new();
    assert!(!record.has_messages());
    assert!(record.messages().is_empty());
    assert_eq!(SessionRecord::default(), record);
}

#[test]
fn record_keeps_what_is_written() {
    let mut record = SessionRecord::new();
    let mut queue = MessageQueue::new();
    queue.append(Message::new(Level::Info, "stored"));
    record.set_messages(queue);
    assert!(record.has_messages());
    assert_eq!(record.messages().peek_all(), vec![Message::new(Level::Info, "stored")]);
    assert_eq!(record.clone(), record);
}

#[test]
fn record_with_empty_queue_differs_from_new_record() {
    let written = record_with(Vec::new());
    assert!(written.has_messages());
    assert!(written.messages().is_empty());
    assert_ne!(written, SessionRecord::new());
}

#[test]
fn store_gives_the_empty_record_for_an_unknown_session() {
    let store = SessionStore::new();
    assert!(!store.contains(1));
    assert_eq!(store.get(1), SessionRecord::new());
}

#[test]
fn store_gives_back_what_was_put() {
    let mut store = SessionStore::new();
    store.put(5, record_with(vec![Message::new(Level::Error, "e")]));
    assert!(store.contains(5));
    assert_eq!(store.get(5), record_with(vec![Message::new(Level::Error, "e")]));
    store.put(5, record_with(Vec::new()));
    assert_eq!(store.get(5), record_with(Vec::new()));
}

#[test]
fn store_put_leaves_other_sessions_alone() {
    let mut store = SessionStore::new();
    store.put(1, record_with(vec![Message::new(Level::Info, "one")]));
    store.put(2, record_with(vec![Message::new(Level::Info, "two")]));
    assert_eq!(store.get(1), record_with(vec![Message::new(Level::Info, "one")]));
    assert_eq!(store.get(2), record_with(vec![Message::new(Level::Info, "two")]));
    assert!(!store.contains(3));
}

#[test]
fn store_delete_forgets_one_session_only() {
    let mut store = SessionStore::new();
    store.put(1, record_with(vec![Message::new(Level::Info, "one")]));
    store.put(2, record_with(vec![Message::new(Level::Info, "two")]));
    store.delete(1);
    assert!(!store.contains(1));
    assert_eq!(store.get(1), SessionRecord::new());
    assert_eq!(store.get(2), record_with(vec![Message::new(Level::Info, "two")]));
    store.delete(9);
    assert!(store.contains(2));
}

#[test]
fn load_of_a_new_record_has_nothing() {
    let mut messages = Messages::load(&SessionRecord::new());
    assert!(messages.is_empty());
    assert_eq!(messages.len(), 0);
    assert!(!messages.is_modified());
    messages.observe();
    assert!(messages.is_empty());
    assert_eq!(messages.consume(), Vec::new());
    assert!(!messages.is_modified());
}

#[test]
fn stored_messages_are_readable_after_the_reader_received_them() {
    let record = record_with(vec![
        Message::new(Level::Info, "first"),
        Message::new(Level::Warning, "second"),
    ]);
    let mut messages = Messages::load(&record);
    assert!(messages.is_empty());
    messages.observe();
    assert_eq!(messages.len(), 2);
    assert!(!messages.is_modified());
    assert_eq!(
        messages.consume(),
        vec![Message::new(Level::Info, "first"), Message::new(Level::Warning, "second")]
    );
    assert!(messages.is_modified());
    assert!(messages.is_empty());
}

#[test]
fn appended_messages_are_read_in_insertion_order() {
    let mut messages = Messages::load(&SessionRecord::new());
    messages.error("e");
    messages.debug("d");
    messages.warning("w");
    messages.info("i");
    messages.success("s");
    messages.push(Level::Info, "again");
    assert!(messages.is_modified());
    assert!(messages.is_empty());
    messages.observe();
    assert_eq!(
        messages.consume(),
        vec![
            Message::new(Level::Error, "e"),
            Message::new(Level::Debug, "d"),
            Message::new(Level::Warning, "w"),
            Message::new(Level::Info, "i"),
            Message::new(Level::Success, "s"),
            Message::new(Level::Info, "again"),
        ]
    );
}

#[test]
fn appended_messages_come_behind_stored_ones() {
    let record = record_with(vec![Message::new(Level::Info, "stored")]);
    let mut messages = Messages::load(&record);
    messages.debug("new");
    messages.observe();
    assert_eq!(
        messages.consume(),
        vec![Message::new(Level::Info, "stored"), Message::new(Level::Debug, "new")]
    );
}

#[test]
fn second_read_finds_nothing() {
    let mut messages = Messages::load(&SessionRecord::new());
    messages.info("once");
    messages.observe();
    assert_eq!(messages.consume().len(), 1);
    assert_eq!(messages.consume(), Vec::new());
    messages.observe();
    assert_eq!(messages.consume(), Vec::new());
}

#[test]
fn a_reader_that_does_not_read_still_takes_the_queue() {
    let mut messages = Messages::load(&SessionRecord::new());
    messages.info("lost");
    messages.observe();
    assert_eq!(messages.len(), 1);
    messages.observe();
    assert_eq!(messages.len(), 0);
    assert_eq!(messages.consume(), Vec::new());
}

#[test]
fn appending_after_receiving_leaves_the_readable_side_alone() {
    let record = record_with(vec![Message::new(Level::Info, "old")]);
    let mut messages = Messages::load(&record);
    messages.observe();
    messages.info("new");
    assert_eq!(messages.len(), 1);
    assert_eq!(messages.consume(), vec![Message::new(Level::Info, "old")]);
    messages.observe();
    assert_eq!(messages.consume(), vec![Message::new(Level::Info, "new")]);
}

#[test]
fn flush_of_an_untouched_request_writes_nothing() {
    let mut record = record_with(vec![Message::new(Level::Info, "kept")]);
    let mut messages = Messages::load(&record);
    messages.observe();
    assert!(!messages.flush(&mut record));
    assert_eq!(record, record_with(vec![Message::new(Level::Info, "kept")]));

    let mut new_record = SessionRecord::new();
    let mut nothing = Messages::load(&new_record);
    assert!(!nothing.flush(&mut new_record));
    assert_eq!(new_record, SessionRecord::new());
}

#[test]
fn flush_writes_what_is_pending() {
    let mut record = SessionRecord::new();
    let mut messages = Messages::load(&record);
    messages.info("a");
    messages.error("b");
    assert!(messages.flush(&mut record));
    assert_eq!(
        record,
        record_with(vec![Message::new(Level::Info, "a"), Message::new(Level::Error, "b")])
    );
}

#[test]
fn flush_after_reading_writes_an_empty_queue() {
    let mut record = record_with(vec![Message::new(Level::Info, "shown")]);
    let mut messages = Messages::load(&record);
    messages.observe();
    assert_eq!(messages.consume().len(), 1);
    assert!(messages.flush(&mut record));
    assert_eq!(record, record_with(Vec::new()));
}

#[test]
fn flush_clears_the_request_state() {
    let mut record = SessionRecord::new();
    let mut messages = Messages::load(&record);
    messages.info("a");
    messages.observe();
    messages.info("b");
    assert!(messages.flush(&mut record));
    assert!(!messages.is_modified());
    assert!(messages.is_empty());
    messages.observe();
    assert!(messages.is_empty());
    assert_eq!(messages, Messages::load(&SessionRecord::new()));
    let mut untouched = SessionRecord::new();
    assert!(!messages.flush(&mut untouched));
    assert_eq!(untouched, SessionRecord::new());
}
