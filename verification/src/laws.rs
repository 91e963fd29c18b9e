//! What holds of the message lifecycle as a whole, proved from the
//! definitions that the functions' contracts use.
use vstd::prelude::*;
use crate::handlers::{after_set_messages, debug_note, greeting};
use crate::manager::MessagesView;
use crate::message::{joined, listing, placeholder, MessageView};
use crate::pipeline::{record_after, reply, response_to, served, store_after};
use crate::route::Route;
use crate::session::{queued, record_of};
use crate::transform::{passed_all, spec_chain};

verus! {

/// Appending several messages puts them behind what was pending, in the
/// order in which they were appended, leaves what is readable alone and
/// marks the state as modified if there was anything to append.
pub proof fn push_all_appends_in_order(state: MessagesView, appended: Seq<MessageView>)
    ensures
        state.push_all(appended).pending == state.pending + appended,
        state.push_all(appended).readable == state.readable,
        state.push_all(appended).modified == (state.modified || appended.len() > 0),
    decreases appended.len(),
{
    if appended.len() == 0 {
        assert(state.pending + appended =~= state.pending);
    } else {
        push_all_appends_in_order(state, appended.drop_last());
        assert(state.pending + appended =~= (state.pending + appended.drop_last()).push(
            appended.last(),
        ));
    }
}

/// Whatever is appended while one request is served, the next reader of
/// that request, reading before anything was consumed, gets all of it in the
/// order of appending, behind what was pending before. Where nothing was
/// pending, it gets exactly what was appended, and the text shown for it is
/// each message as `level: text`, joined by `", "`.
pub proof fn appended_messages_are_read_in_order(state: MessagesView, appended: Seq<MessageView>)
    ensures
        state.push_all(appended).observe().readable == state.pending + appended,
        reply(Route::ReadMessages, state.push_all(appended)).body == listing(
            state.pending + appended,
        ),
        state.pending.len() == 0 ==> state.push_all(appended).observe().readable == appended,
        state.pending.len() == 0 && appended.len() > 0 ==> listing(
            state.push_all(appended).observe().readable,
        ) == joined(appended),
{
    push_all_appends_in_order(state, appended);
    if state.pending.len() == 0 {
        assert(state.pending + appended =~= appended);
    }
}

/// A list with one more message is written out as the list before it, then
/// `", "`, then the new message; a single message stands alone.
pub proof fn joined_unfolds(messages: Seq<MessageView>, last: MessageView)
    ensures
        joined(messages.push(last)) == if messages.len() == 0 {
            last.rendered()
        } else {
            joined(messages) + ", "@ + last.rendered()
        },
{
    let all = messages.push(last);
    assert(all.drop_last() =~= messages);
    assert(all.last() == last);
}

/// Two lists written out one behind the other are written out as the first,
/// then `", "`, then the second; an empty list adds nothing, not even a
/// separator.
pub proof fn joined_concat(front: Seq<MessageView>, back: Seq<MessageView>)
    ensures
        joined(front + back) == if front.len() == 0 {
            joined(back)
        } else if back.len() == 0 {
            joined(front)
        } else {
            joined(front) + ", "@ + joined(back)
        },
    decreases back.len(),
{
    if front.len() == 0 {
        assert(front + back =~= back);
    } else if back.len() == 0 {
        assert(front + back =~= front);
    } else {
        let all = front + back;
        let last = back.last().rendered();
        assert(all.drop_last() =~= front + back.drop_last());
        assert(all.last() == back.last());
        joined_concat(front, back.drop_last());
        if back.len() == 1 {
            assert(back.drop_last().len() == 0);
            assert(joined(all) == joined(front) + ", "@ + last);
        } else {
            assert(joined(all) == (joined(front) + ", "@ + joined(back.drop_last())) + ", "@
                + last);
            assert(joined(all) =~= joined(front) + ", "@ + (joined(back.drop_last()) + ", "@
                + last));
        }
    }
}

/// The handler of `/` only appends: the queue after it is the queue before
/// it with the info message and the debug message behind it. So the queue
/// grows by two, every earlier message keeps its place, what is readable
/// stays, and a second run appends a second pair behind the first.
pub proof fn set_messages_only_appends(state: MessagesView)
    ensures
        after_set_messages(state).pending == state.pending + seq![greeting(), debug_note()],
        after_set_messages(state).pending.len() == state.pending.len() + 2,
        forall|i: int|
            0 <= i < state.pending.len() ==> after_set_messages(state).pending[i]
                == state.pending[i],
        after_set_messages(state).readable == state.readable,
        after_set_messages(state).modified,
        after_set_messages(after_set_messages(state)).pending == state.pending + seq![
            greeting(),
            debug_note(),
            greeting(),
            debug_note(),
        ],
{
    assert(after_set_messages(state).pending =~= state.pending + seq![greeting(), debug_note()]);
    assert(after_set_messages(after_set_messages(state)).pending =~= state.pending + seq![
        greeting(),
        debug_note(),
        greeting(),
        debug_note(),
    ]);
}

/// A list of at least one message is never written out as the empty text,
/// so the placeholder is shown exactly where the joined text is empty.
pub proof fn joined_is_nonempty(messages: Seq<MessageView>)
    requires
        messages.len() > 0,
    ensures
        joined(messages).len() > 0,
        listing(messages) == joined(messages),
    decreases messages.len(),
{
    reveal_strlit(": ");
    let last = messages.last().rendered();
    assert(last.len() >= 2);
    if messages.len() > 1 {
        assert(joined(messages).len() >= last.len());
    }
}

/// At the end of every request both the pending and the readable side of
/// the queue are empty: the two transformers each took the queue after the
/// handler ran. So the session record is either left as it was or
/// written with an empty queue, and it is written on every request for `/`.
pub proof fn request_leaves_queue_empty(route: Route, record: Option<Seq<MessageView>>)
    ensures
        served(route, record).pending.len() == 0,
        served(route, record).readable.len() == 0,
        record_after(route, record) == if served(route, record).modified {
            Some(Seq::<MessageView>::empty())
        } else {
            record
        },
        served(route, record).modified == (route == Route::SetMessages || queued(record).len()
            > 0),
{
    let chain = spec_chain();
    assert(chain.drop_last() =~= seq![chain[0]]);
    assert(chain.drop_last().drop_last() =~= Seq::empty());
    reveal_with_fuel(passed_all, 3);
    assert(served(route, record).pending =~= Seq::<MessageView>::empty());
    assert(served(route, record).readable =~= Seq::<MessageView>::empty());
}

/// The request that follows a request for `/` in the same session, and asks
/// for `/read-messages`, is answered with the placeholder: what `/` queued
/// was handed to the transformers of its own response and is gone.
pub proof fn redirect_target_finds_nothing(record: Option<Seq<MessageView>>)
    ensures
        response_to(Route::ReadMessages, record_after(Route::SetMessages, record)).body
            == placeholder(),
{
    request_leaves_queue_empty(Route::SetMessages, record);
}

/// Two requests in one session that were both loaded before either was
/// flushed are not merged: where the later flush writes, the session holds
/// what that request had pending, whatever the earlier flush wrote; where it
/// does not write, what the earlier flush left stands.
pub proof fn last_flush_wins(
    first: MessagesView,
    second: MessagesView,
    record: Option<Seq<MessageView>>,
)
    ensures
        second.modified ==> second.flushed(first.flushed(record)) == Some(second.pending),
        !second.modified ==> second.flushed(first.flushed(record)) == first.flushed(record),
{
}

/// Requests in two distinct sessions do not see each other. Serving one
/// leaves the other's record as it was, so the other is answered as if it
/// had been alone, and the store ends the same whichever of the two is
/// flushed first.
pub proof fn sessions_are_isolated(
    store: Map<u64, Option<Seq<MessageView>>>,
    a: u64,
    b: u64,
    route_a: Route,
    route_b: Route,
)
    requires
        a != b,
    ensures
        record_of(store_after(store, a, route_a), b) == record_of(store, b),
        response_to(route_b, record_of(store_after(store, a, route_a), b)) == response_to(
            route_b,
            record_of(store, b),
        ),
        record_of(store_after(store_after(store, a, route_a), b, route_b), a) == record_of(
            store_after(store, a, route_a),
            a,
        ),
        store_after(store_after(store, a, route_a), b, route_b) == store_after(
            store_after(store, b, route_b),
            a,
            route_a,
        ),
{
    assert(record_of(store_after(store, b, route_b), a) == record_of(store, a));
    assert(store_after(store_after(store, a, route_a), b, route_b) =~= store_after(
        store_after(store, b, route_b),
        a,
        route_a,
    ));
}

} // verus!
