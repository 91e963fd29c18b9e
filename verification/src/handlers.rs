//! The two route handlers.
use vstd::prelude::*;
use crate::manager::{Messages, MessagesView};
use crate::message::{listing, render_listing, Level, MessageView};
use crate::response::{Response, ResponseView};
use crate::route::Route;

verus! {

/// The info message that the first handler queues.
pub open spec fn greeting() -> MessageView {
    MessageView { level: Level::Info, text: "Hello, world!"@ }
}

/// The debug message that the first handler queues.
pub open spec fn debug_note() -> MessageView {
    MessageView { level: Level::Debug, text: "This is a debug message."@ }
}

/// The state after the first handler ran from `state`: the two messages
/// stand behind all that was pending, and nothing else changed but the mark
/// that the session has to be written.
pub open spec fn after_set_messages(state: MessagesView) -> MessagesView {
    state.push(greeting()).push(debug_note())
}

/// The state after the second handler ran from `state`: it took all that
/// was pending and read it.
pub open spec fn after_read_messages(state: MessagesView) -> MessagesView {
    state.observe().consume()
}

/// Serves `/`: appends an info message and a debug message, in that order,
/// behind all that is pending, and sends the client to the reading route.
pub fn set_messages_handler(messages: &mut Messages) -> (response: Response<String>)
    ensures
        final(messages)@ == after_set_messages(old(messages)@),
        response@ == ResponseView::redirect(Route::ReadMessages.spec_path()),
{
    messages.info("Hello, world!");
    messages.debug("This is a debug message.");
    Response::redirect(Route::ReadMessages.path())
}

/// Serves `/read-messages`: takes the queue, reads all of it and gives
/// the text to show: each message as `level: text`, joined by `", "`, or
/// `No messages yet!` where there is none.
pub fn read_messages_handler(messages: &mut Messages) -> (body: String)
    ensures
        final(messages)@ == after_read_messages(old(messages)@),
        body@ == listing(old(messages)@.pending),
{
    messages.observe();
    let read = messages.consume();
    render_listing(&read)
}

} // verus!
