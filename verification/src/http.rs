//! A plain model of the HTTP responses that the service produces.
use vstd::prelude::*;

verus! {

/// An HTTP status code, held as its number.
#[derive(Clone, Copy, Debug, PartialEq, Eq, Structural)]
pub struct StatusCode {
    pub code: u16,
}

impl StatusCode {
    /// `200 OK`
    pub fn ok() -> (s: StatusCode)
        ensures
            s.code == 200,
    {
        StatusCode { code: 200 }
    }

    /// `303 See Other`
    pub fn see_other() -> (s: StatusCode)
        ensures
            s.code == 303,
    {
        StatusCode { code: 303 }
    }

    /// `400 Bad Request`
    pub fn bad_request() -> (s: StatusCode)
        ensures
            s.code == 400,
    {
        StatusCode { code: 400 }
    }

    /// `500 Internal Server Error`
    pub fn internal_server_error() -> (s: StatusCode)
        ensures
            s.code == 500,
    {
        StatusCode { code: 500 }
    }

    /// The numeric code.
    pub fn as_u16(&self) -> (c: u16)
        ensures
            c == self.code,
    {
        self.code
    }

    /// The response made of this status alone: no header, no body.
    pub fn into_response(self) -> (r: HttpResponse)
        ensures
            r@ == (ResponseView { status: self.code, headers: Seq::empty(), body: BodyView::Empty }),
    {
        let r = HttpResponse { status: self, headers: Vec::new(), body: Body::Empty };
        assert(r@.headers =~= Seq::<(HeaderName, Seq<char>)>::empty());
        r
    }

    /// Whether the status is in the `2xx` range.
    pub open spec fn spec_is_success(self) -> bool {
        200 <= self.code < 300
    }

    /// Whether the status is in the `2xx` range.
    pub fn is_success(&self) -> (b: bool)
        ensures
            b == self.spec_is_success(),
    {
        200 <= self.code && self.code < 300
    }
}

/// The header names that the service sets on its responses.
#[derive(Clone, Copy, Debug, PartialEq, Eq, Structural)]
pub enum HeaderName {
    Location,
    SetCookie,
    ContentType,
    Server,
}

/// One response header.
pub struct Header {
    pub name: HeaderName,
    pub value: String,
}

/// The body of a response, by how the framework renders it.
pub enum Body {
    /// No body at all.
    Empty,
    /// A text body (rendered as `text/plain; charset=utf-8` unless a header overrides it).
    Text(String),
    /// An HTML body (rendered as `text/html; charset=utf-8` unless a header overrides it).
    Html(String),
}

/// The mathematical value of a [`Body`].
pub enum BodyView {
    Empty,
    Text(Seq<char>),
    Html(Seq<char>),
}

impl View for Body {
    type V = BodyView;

    open spec fn view(&self) -> BodyView {
        match self {
            Body::Empty => BodyView::Empty,
            Body::Text(s) => BodyView::Text(s@),
            Body::Html(s) => BodyView::Html(s@),
        }
    }
}

/// A complete response: status, headers in the order they are set, body.
pub struct HttpResponse {
    pub status: StatusCode,
    pub headers: Vec<Header>,
    pub body: Body,
}

/// The mathematical value of an [`HttpResponse`].
pub struct ResponseView {
    pub status: u16,
    pub headers: Seq<(HeaderName, Seq<char>)>,
    pub body: BodyView,
}

pub open spec fn header_view(h: Header) -> (HeaderName, Seq<char>) {
    (h.name, h.value@)
}

impl View for HttpResponse {
    type V = ResponseView;

    open spec fn view(&self) -> ResponseView {
        ResponseView {
            status: self.status.code,
            headers: self.headers@.map_values(|h: Header| header_view(h)),
            body: self.body@,
        }
    }
}

/// Whether `text` occurs in `page`.
pub open spec fn shows(page: Seq<char>, text: Seq<char>) -> bool {
    exists|k: int| 0 <= k && k + text.len() <= page.len() && #[trigger] page.subrange(k, k + text.len()) == text
}

/// Builds one header from a name and a text value.
pub fn header(name: HeaderName, value: &str) -> (h: Header)
    ensures
        h.name == name,
        h.value@ == value@,
{
    Header { name, value: value.to_owned() }
}

/// A response with the given status, one header and no body.
pub fn response_with_header(status: StatusCode, name: HeaderName, value: &str) -> (r: HttpResponse)
    ensures
        r@ == (ResponseView { status: status.code, headers: seq![(name, value@)], body: BodyView::Empty }),
{
    let mut headers: Vec<Header> = Vec::new();
    headers.push(header(name, value));
    let r = HttpResponse { status, headers, body: Body::Empty };
    assert(r@.headers =~= seq![(name, value@)]);
    r
}

} // verus!
