//! The transformers that see every response on its way out.
use vstd::prelude::*;
use crate::manager::{Messages, MessagesView};
use crate::response::{Annotation, Response};

verus! {

/// A transformer of outgoing responses.
#[derive(Clone, Copy, Debug, PartialEq, Eq, Structural)]
pub enum Transformer {
    /// Would build an error page.
    ErrorPage,
    /// Would build a rendered page.
    RenderPage,
}

impl Transformer {
    /// The annotation that makes this transformer act.
    pub open spec fn spec_marker(self) -> Annotation {
        match self {
            Transformer::ErrorPage => Annotation::ErrorPage,
            Transformer::RenderPage => Annotation::RenderPage,
        }
    }

    /// The annotation that makes this transformer act.
    pub fn marker(self) -> (marker: Annotation)
        ensures
            marker == self.spec_marker(),
    {
        match self {
            Transformer::ErrorPage => Annotation::ErrorPage,
            Transformer::RenderPage => Annotation::RenderPage,
        }
    }

    /// Runs this transformer on `response`.
    pub fn apply<B>(self, messages: &mut Messages, response: Response<B>) -> (out: Response<B>)
        ensures
            out == response,
            final(messages)@ == passed(old(messages)@, response.annotation, self.spec_marker()),
    {
        match self {
            Transformer::ErrorPage => error_page(messages, response),
            Transformer::RenderPage => render_page(messages, response),
        }
    }
}

/// The state after a transformer that acts on `marker` saw a response that
/// carries `attached`: it receives the queue in any case, and reads it only
/// where the response carries its marker.
pub open spec fn passed(state: MessagesView, attached: Annotation, marker: Annotation) -> MessagesView {
    if attached == marker {
        state.observe().consume()
    } else {
        state.observe()
    }
}

/// The state after the transformers of `chain` ran, first to last, on a
/// response that carries `attached`.
pub open spec fn passed_all(
    chain: Seq<Transformer>,
    state: MessagesView,
    attached: Annotation,
) -> MessagesView
    decreases chain.len(),
{
    if chain.len() == 0 {
        state
    } else {
        passed(passed_all(chain.drop_last(), state, attached), attached, chain.last().spec_marker())
    }
}

/// The error-page transformer. It receives the queue, and reads it where the
/// response asks for an error page. No page is built from what was read:
/// status, headers, body and annotation go on exactly as they came.
pub fn error_page<B>(messages: &mut Messages, response: Response<B>) -> (out: Response<B>)
    ensures
        out == response,
        final(messages)@ == passed(old(messages)@, response.annotation, Annotation::ErrorPage),
{
    messages.observe();
    if response.has_annotation(Annotation::ErrorPage) {
        let _read = messages.consume();
        response
    } else {
        response
    }
}

/// The render-page transformer. It receives the queue, and reads it where
/// the response asks for a rendered page. No page is built from what was
/// read: status, headers, body and annotation go on exactly as they came.
pub fn render_page<B>(messages: &mut Messages, response: Response<B>) -> (out: Response<B>)
    ensures
        out == response,
        final(messages)@ == passed(old(messages)@, response.annotation, Annotation::RenderPage),
{
    messages.observe();
    if response.has_annotation(Annotation::RenderPage) {
        let _read = messages.consume();
        response
    } else {
        response
    }
}

/// The chain that every response passes: the error page first, next to the
/// handler, then the rendered page.
pub open spec fn spec_chain() -> Seq<Transformer> {
    seq![Transformer::ErrorPage, Transformer::RenderPage]
}

/// The chain that every response passes, in the order in which it runs.
pub fn chain() -> (chain: Vec<Transformer>)
    ensures
        chain@ == spec_chain(),
{
    let mut chain: Vec<Transformer> = Vec::new();
    chain.push(Transformer::ErrorPage);
    chain.push(Transformer::RenderPage);
    proof {
        assert(chain@ =~= spec_chain());
    }
    chain
}

/// Runs the transformers of `chain` on `response`, first to last, each with
/// the response that the one before it gave.
pub fn run_chain<B>(chain: &Vec<Transformer>, messages: &mut Messages, response: Response<B>) -> (out:
    Response<B>)
    ensures
        out == response,
        final(messages)@ == passed_all(chain@, old(messages)@, response.annotation),
{
    let ghost attached = response.annotation;
    let ghost start = messages@;
    let mut current = response;
    let mut i: usize = 0;
    while i < chain.len()
        invariant
            i <= chain.len(),
            current == response,
            attached == response.annotation,
            messages@ == passed_all(chain@.take(i as int), start, attached),
        decreases chain.len() - i,
    {
        proof {
            assert(chain@.take(i + 1).drop_last() =~= chain@.take(i as int));
            assert(chain@.take(i + 1).last() == chain@[i as int]);
        }
        current = chain[i].apply(messages, current);
        i += 1;
    }
    proof {
        assert(chain@.take(i as int) =~= chain@);
    }
    current
}

} // verus!
