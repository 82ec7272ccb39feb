//! The landing page.
use vstd::prelude::*;
use crate::http::{header, Body, BodyView, Header, HeaderName, HttpResponse, ResponseView, StatusCode};

verus! {

/// The answer that serves the landing page `page`.
pub open spec fn home_view(page: Seq<char>) -> ResponseView {
    ResponseView {
        status: 200,
        headers: seq![(HeaderName::Server, "axum"@), (HeaderName::ContentType, "text/html"@)],
        body: BodyView::Text(page),
    }
}

/// Serves the landing page `page` as HTML.
pub fn home(page: &str) -> (r: HttpResponse)
    ensures
        r@ == home_view(page@),
{
    let mut headers: Vec<Header> = Vec::new();
    headers.push(header(HeaderName::Server, "axum"));
    headers.push(header(HeaderName::ContentType, "text/html"));
    let r = HttpResponse { status: StatusCode::ok(), headers, body: Body::Text(page.to_owned()) };
    assert(r@.headers =~= home_view(page@).headers);
    r
}

} // verus!
