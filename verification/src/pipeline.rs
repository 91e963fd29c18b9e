//! One request from start to end, in the fixed order of its steps: load the
//! queue, run the handler, run the transformers, flush the queue.
use vstd::prelude::*;
use crate::handlers::{
    after_read_messages,
    after_set_messages,
    read_messages_handler,
    set_messages_handler,
};
use crate::manager::{Messages, MessagesView};
use crate::message::{listing, MessageView};
use crate::response::{Annotation, Response, ResponseView};
use crate::route::Route;
use crate::session::{record_of, SessionRecord, SessionStore};
use crate::transform::{chain, passed_all, run_chain, spec_chain};

verus! {

/// The state after the handler of `route` ran from `state`.
pub open spec fn handled(route: Route, state: MessagesView) -> MessagesView {
    match route {
        Route::SetMessages => after_set_messages(state),
        Route::ReadMessages => after_read_messages(state),
    }
}

/// The response that the handler of `route` gives from `state`.
pub open spec fn reply(route: Route, state: MessagesView) -> ResponseView {
    match route {
        Route::SetMessages => ResponseView::redirect(Route::ReadMessages.spec_path()),
        Route::ReadMessages => ResponseView::text(listing(state.pending)),
    }
}

/// The state at the end of a request for `route`, just before the flush, in
/// a session that held `record`.
pub open spec fn served(route: Route, record: Option<Seq<MessageView>>) -> MessagesView {
    passed_all(spec_chain(), handled(route, MessagesView::loaded(record)), Annotation::Plain)
}

/// The response to a request for `route` in a session that held `record`.
pub open spec fn response_to(route: Route, record: Option<Seq<MessageView>>) -> ResponseView {
    reply(route, MessagesView::loaded(record))
}

/// What the session holds after a request for `route`, given that it held
/// `record` before.
pub open spec fn record_after(route: Route, record: Option<Seq<MessageView>>) -> Option<
    Seq<MessageView>,
> {
    served(route, record).flushed(record)
}

/// The store after a request for `route` in `session`.
pub open spec fn store_after(
    store: Map<u64, Option<Seq<MessageView>>>,
    session: u64,
    route: Route,
) -> Map<u64, Option<Seq<MessageView>>> {
    let record = record_of(store, session);
    if served(route, record).modified {
        store.insert(session, record_after(route, record))
    } else {
        store
    }
}

/// Runs the handler of `route`.
pub fn dispatch(route: Route, messages: &mut Messages) -> (response: Response<String>)
    ensures
        final(messages)@ == handled(route, old(messages)@),
        response@ == reply(route, old(messages)@),
{
    match route {
        Route::SetMessages => set_messages_handler(messages),
        Route::ReadMessages => Response::text(read_messages_handler(messages)),
    }
}

/// Serves one request for `route` in a session that holds `record`: loads
/// the queue, runs the handler, then the transformers in their order, and
/// flushes the queue to `record`. Returns the response and whether the
/// record was written.
pub fn respond(route: Route, record: &mut SessionRecord) -> (result: (Response<String>, bool))
    ensures
        result.0@ == response_to(route, old(record)@),
        result.1 == served(route, old(record)@).modified,
        final(record)@ == record_after(route, old(record)@),
{
    let mut messages = Messages::load(record);
    let response = dispatch(route, &mut messages);
    let transformers = chain();
    let response = run_chain(&transformers, &mut messages, response);
    let written = messages.flush(record);
    (response, written)
}

/// Serves one request for `route` in `session` against the store: reads
/// the session's record, serves the request, and puts the record back where
/// it was written. No other session is read or touched.
pub fn serve(store: &mut SessionStore, session: u64, route: Route) -> (response: Response<String>)
    ensures
        response@ == response_to(route, record_of(old(store)@, session)),
        final(store)@ == store_after(old(store)@, session, route),
{
    let mut record = store.get(session);
    let (response, written) = respond(route, &mut record);
    if written {
        store.put(session, record);
    }
    response
}

} // verus!
