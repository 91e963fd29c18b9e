use flash_messages::message::{join_messages, render_listing, Level, Message};
use flash_messages::queue::{copy_messages, MessageQueue};

#[test]
fn level_names_are_lower_case() {
    assert_eq!(Level::Debug.as_str(), "debug");
    assert_eq!(Level::Info.as_str(), "info");
    assert_eq!(Level::Success.as_str(), "success");
    assert_eq!(Level::Warning.as_str(), "warning");
    assert_eq!(Level::Error.as_str(), "error");
}

#[test]
fn message_keeps_level_and_text() {
    let message = Message::new(Level::Warning, "disk almost full");
    assert_eq!(message.level, Level::Warning);
    assert_eq!(message.text, "disk almost full");
}

#[test]
fn message_renders_as_level_colon_text() {
    assert_eq!(Message::new(Level::Info, "Hello, world!").render(), "info: Hello, world!");
    assert_eq!(Message::new(Level::Error, "").render(), "error: ");
    assert_eq!(Message::new(Level::Success, "saved").render(), "success: saved");
    assert_eq!(Message::new(Level::Debug, "a: b, c").render(), "debug: a: b, c");
}

#[test]
fn message_clone_is_equal() {
    let message = Message::new(Level::Debug, "héllo");
    assert_eq!(message.clone(), message);
}

#[test]
fn join_of_nothing_is_empty() {
    assert_eq!(join_messages(&Vec::new()), "");
}

#[test]
fn join_of_one_has_no_separator() {
    let messages = vec![Message::new(Level::Warning, "careful")];
    assert_eq!(join_messages(&messages), "warning: careful");
}

#[test]
fn join_keeps_order_and_separates_with_comma_space() {
    let messages = vec![
        Message::new(Level::Info, "Hello, world!"),
        Message::new(Level::Debug, "This is a debug message."),
        Message::new(Level::Error, "third"),
    ];
    assert_eq!(
        join_messages(&messages),
        "info: Hello, world!, debug: This is a debug message., error: third"
    );
}

#[test]
fn listing_of_nothing_is_the_placeholder() {
    assert_eq!(render_listing(&Vec::new()), "No messages yet!");
}

#[test]
fn listing_of_messages_is_the_joined_text() {
    let messages = vec![
        Message::new(Level::Info, "Hello, world!"),
        Message::new(Level::Debug, "This is a debug message."),
    ];
    assert_eq!(
        render_listing(&messages),
        "info: Hello, world!, debug: This is a debug message."
    );
}

#[test]
fn listing_of_one_empty_text_is_not_the_placeholder() {
    let messages = vec![Message::new(Level::Info, "")];
    assert_eq!(render_listing(&messages), "info: ");
}

#[test]
fn new_queue_is_empty() {
    let queue = MessageQueue::new();
    assert!(queue.is_empty());
    assert_eq!(queue.len(), 0);
    assert_eq!(queue.peek_all(), Vec::new());
}

#[test]
fn queue_appends_at_the_end() {
    let mut queue = MessageQueue::new();
    queue.append(Message::new(Level::Info, "one"));
    queue.append(Message::new(Level::Error, "two"));
    queue.append(Message::new(Level::Info, "one"));
    assert_eq!(queue.len(), 3);
    assert!(!queue.is_empty());
    assert_eq!(
        queue.peek_all(),
        vec![
            Message::new(Level::Info, "one"),
            Message::new(Level::Error, "two"),
            Message::new(Level::Info, "one"),
        ]
    );
}

#[test]
fn queue_gives_up_everything_at_once() {
    let mut queue = MessageQueue::new();
    queue.append(Message::new(Level::Debug, "a"));
    queue.append(Message::new(Level::Warning, "b"));
    let taken = queue.consume_all();
    assert_eq!(
        taken,
        vec![Message::new(Level::Debug, "a"), Message::new(Level::Warning, "b")]
    );
    assert!(queue.is_empty());
    assert_eq!(queue.consume_all(), Vec::new());
}

#[test]
fn queue_from_messages_keeps_them() {
    let messages = vec![Message::new(Level::Error, "x"), Message::new(Level::Info, "y")];
    let queue = MessageQueue::from_messages(copy_messages(&messages));
    assert_eq!(queue.len(), 2);
    assert_eq!(queue.peek_all(), messages);
}

#[test]
fn queue_clone_is_independent() {
    let mut queue = MessageQueue::new();
    queue.append(Message::new(Level::Info, "kept"));
    let mut copy = queue.clone();
    assert_eq!(copy, queue);
    copy.append(Message::new(Level::Info, "only in the copy"));
    assert_eq!(queue.len(), 1);
    assert_eq!(copy.len(), 2);
}

#[test]
fn copy_of_messages_is_equal() {
    let messages = vec![Message::new(Level::Debug, "1"), Message::new(Level::Debug, "2")];
    assert_eq!(copy_messages(&messages), messages);
    assert_eq!(copy_messages(&Vec::new()), Vec::new());
}
