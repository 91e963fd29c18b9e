//! Responses as the pipeline sees them: a status, headers, a body and an
//! optional annotation that asks a later transformer to act.
use vstd::prelude::*;
use vstd::string::*;

verus! {

/// Status of a response that carries what was asked for.
pub const STATUS_OK: u16 = 200;

/// Status of a response that sends the client to another place.
pub const STATUS_FOUND: u16 = 302;

/// What a handler may attach to a response to ask a transformer to render
/// messages into it.
#[derive(Clone, Copy, Debug, PartialEq, Eq, Structural)]
pub enum Annotation {
    /// Nothing is asked for.
    Plain,
    /// An error page is wanted.
    ErrorPage,
    /// A rendered page is wanted.
    RenderPage,
}

/// One header line.
#[derive(Debug, PartialEq, Eq)]
pub struct Header {
    pub name: String,
    pub value: String,
}

impl View for Header {
    type V = (Seq<char>, Seq<char>);

    open spec fn view(&self) -> (Seq<char>, Seq<char>) {
        (self.name@, self.value@)
    }
}

impl Header {
    /// A header line with the given name and value.
    pub fn new(name: &str, value: &str) -> (header: Header)
        ensures
            header@ == (name@, value@),
    {
        Header { name: String::from_str(name), value: String::from_str(value) }
    }
}

/// A response with a body of type `B`.
#[derive(Debug, PartialEq, Eq)]
pub struct Response<B> {
    pub status: u16,
    pub headers: Vec<Header>,
    pub annotation: Annotation,
    pub body: B,
}

/// The header lines of a response as pairs of name and value.
pub open spec fn header_views(headers: Seq<Header>) -> Seq<(Seq<char>, Seq<char>)> {
    headers.map_values(|h: Header| h@)
}

/// What a response with a text body is to a contract.
pub struct ResponseView {
    pub status: u16,
    pub headers: Seq<(Seq<char>, Seq<char>)>,
    pub annotation: Annotation,
    pub body: Seq<char>,
}

impl ResponseView {
    /// A redirect to `location`: status 302, one `location` header, no body.
    pub open spec fn redirect(location: Seq<char>) -> ResponseView {
        ResponseView {
            status: STATUS_FOUND,
            headers: seq![("location"@, location)],
            annotation: Annotation::Plain,
            body: Seq::empty(),
        }
    }

    /// A plain-text page: status 200, one `content-type` header, the text as
    /// body.
    pub open spec fn text(body: Seq<char>) -> ResponseView {
        ResponseView {
            status: STATUS_OK,
            headers: seq![("content-type"@, "text/plain; charset=utf-8"@)],
            annotation: Annotation::Plain,
            body,
        }
    }
}

impl View for Response<String> {
    type V = ResponseView;

    open spec fn view(&self) -> ResponseView {
        ResponseView {
            status: self.status,
            headers: header_views(self.headers@),
            annotation: self.annotation,
            body: self.body@,
        }
    }
}

impl Response<String> {
    /// A response that sends the client to `location`.
    pub fn redirect(location: &str) -> (response: Response<String>)
        ensures
            response@ == ResponseView::redirect(location@),
    {
        let mut headers: Vec<Header> = Vec::new();
        headers.push(Header::new("location", location));
        let response = Response {
            status: STATUS_FOUND,
            headers,
            annotation: Annotation::Plain,
            body: String::new(),
        };
        proof {
            assert(header_views(response.headers@) =~= seq![("location"@, location@)]);
        }
        response
    }

    /// A plain-text page with `body` as its text.
    pub fn text(body: String) -> (response: Response<String>)
        ensures
            response@ == ResponseView::text(body@),
    {
        let mut headers: Vec<Header> = Vec::new();
        headers.push(Header::new("content-type", "text/plain; charset=utf-8"));
        let response = Response { status: STATUS_OK, headers, annotation: Annotation::Plain, body };
        proof {
            assert(header_views(response.headers@) =~= seq![
                ("content-type"@, "text/plain; charset=utf-8"@),
            ]);
        }
        response
    }
}

impl<B> Response<B> {
    /// The same response with `annotation` attached in place of what it
    /// carried.
    pub fn with_annotation(self, annotation: Annotation) -> (response: Response<B>)
        ensures
            response.status == self.status,
            response.headers == self.headers,
            response.body == self.body,
            response.annotation == annotation,
    {
        Response { status: self.status, headers: self.headers, annotation, body: self.body }
    }

    /// Whether the response carries `annotation`.
    pub fn has_annotation(&self, annotation: Annotation) -> (has: bool)
        ensures
            has == (self.annotation == annotation),
    {
        self.annotation == annotation
    }
}

} // verus!
