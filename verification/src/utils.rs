//! Small response builders shared by the handlers.
use vstd::prelude::*;
use crate::http::{header, Body, BodyView, Header, HeaderName, HttpResponse, ResponseView, StatusCode};

verus! {

/// The text of every opaque `500` answer. It says nothing of the error, whose cause is kept
/// for the log only.
pub const E500_TEXT: &'static str = "Something went wrong";

/// The answer that [`e500_response`] gives: status 500, no header, the fixed text as body.
pub open spec fn e500_view() -> ResponseView {
    ResponseView { status: 500, headers: Seq::empty(), body: BodyView::Text(E500_TEXT@) }
}

/// An opaque `500 Internal Server Error`: the same status and text whatever went wrong.
pub fn e500() -> (r: (StatusCode, String))
    ensures
        r.0.code == 500,
        r.1@ == E500_TEXT@,
{
    (StatusCode::internal_server_error(), E500_TEXT.to_owned())
}

/// The response that [`e500`] turns into: status 500, no header, the fixed text as body.
pub fn e500_response() -> (r: HttpResponse)
    ensures
        r@ == e500_view(),
{
    let (status, text) = e500();
    let r = HttpResponse { status, headers: Vec::new(), body: Body::Text(text) };
    assert(r@.headers =~= Seq::<(HeaderName, Seq<char>)>::empty());
    r
}

/// The response of a redirect to `location`.
pub open spec fn see_other_view(location: Seq<char>) -> ResponseView {
    ResponseView { status: 303, headers: seq![(HeaderName::Location, location)], body: BodyView::Empty }
}

/// `303 See Other` to `location`, without a body.
pub fn see_other(location: &str) -> (r: HttpResponse)
    ensures
        r@ == see_other_view(location@),
{
    crate::http::response_with_header(StatusCode::see_other(), HeaderName::Location, location)
}

/// The value of the cookie that carries a one-time message to the next page.
pub open spec fn flash_cookie(message: Seq<char>) -> Seq<char> {
    "_flash="@ + message
}

/// The response of a redirect to `location` that leaves `message` in the flash cookie.
pub open spec fn flash_redirect_view(location: Seq<char>, message: Seq<char>) -> ResponseView {
    ResponseView {
        status: 303,
        headers: seq![(HeaderName::Location, location), (HeaderName::SetCookie, flash_cookie(message))],
        body: BodyView::Empty,
    }
}

/// `303 See Other` to `location` that sets the flash cookie to `message`.
pub fn flash_redirect(location: &str, message: &str) -> (r: HttpResponse)
    ensures
        r@ == flash_redirect_view(location@, message@),
{
    let mut cookie = "_flash=".to_owned();
    cookie.append(message);
    let mut headers: Vec<Header> = Vec::new();
    headers.push(header(HeaderName::Location, location));
    headers.push(Header { name: HeaderName::SetCookie, value: cookie });
    let r = HttpResponse { status: StatusCode::see_other(), headers, body: Body::Empty };
    assert(r@.headers =~= seq![(HeaderName::Location, location@), (HeaderName::SetCookie, flash_cookie(message@))]);
    r
}

} // verus!
