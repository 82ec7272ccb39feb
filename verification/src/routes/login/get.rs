//! The login page.
use vstd::prelude::*;
use crate::http::{shows, header, Body, BodyView, Header, HeaderName, HttpResponse, ResponseView, StatusCode};

verus! {

/// The login page up to where the error message goes.
pub const LOGIN_PAGE_HEAD: &'static str = r#"<!DOCTYPE html>
<html lang="en">
<head>
    <meta http-equiv="content-type" content="text/html; charset=utf-8">
    <title>Login</title>
</head>
<body>
    "#;

/// The login page after the error message.
pub const LOGIN_PAGE_TAIL: &'static str = r#"
    <form action="/login" method="post">
        <label>Username
            <input
                type="text"
                placeholder="Enter Username"
                name="username"
            > 
        </label>
        <label>Password
            <input
                type="password"
                placeholder="Enter Password"
                name="password"
            > 
        </label>
        <button type="submit">Login</button>
    </form>
</body>
</html>"#;

/// The HTML paragraph that shows a flash message, or nothing when there is none.
pub open spec fn error_html(flash: Option<Seq<char>>) -> Seq<char> {
    match flash {
        None => Seq::empty(),
        Some(message) => "<p><i>"@ + message + "</i></p>"@,
    }
}

/// The login page showing `error_html`.
pub open spec fn login_page(error_html: Seq<char>) -> Seq<char> {
    LOGIN_PAGE_HEAD@ + error_html + LOGIN_PAGE_TAIL@
}

/// The answer to a request for the login page, given the flash message it carries.
pub open spec fn login_form_view(flash: Option<Seq<char>>) -> ResponseView {
    ResponseView {
        status: 200,
        headers: seq![
            (HeaderName::ContentType, "text/html; charset=UTF-8"@),
            (HeaderName::SetCookie, "_flash=;Max-Age=0"@),
        ],
        body: BodyView::Html(login_page(error_html(flash))),
    }
}

/// The login form. A message left in the `_flash` cookie is shown above the form, and the
/// cookie is cleared so that it shows only once.
pub fn login_form(flash: Option<&str>) -> (r: HttpResponse)
    ensures
        r@ == login_form_view(match flash { None => None, Some(m) => Some(m@) }),
{
    let ghost flash_view = match flash { None => None, Some(m) => Some(m@) };
    let mut page = LOGIN_PAGE_HEAD.to_owned();
    match flash {
        None => {
            assert(page@ =~= LOGIN_PAGE_HEAD@ + error_html(flash_view));
        },
        Some(message) => {
            page.append("<p><i>");
            page.append(message);
            page.append("</i></p>");
            assert(page@ =~= LOGIN_PAGE_HEAD@ + error_html(flash_view));
        },
    }
    page.append(LOGIN_PAGE_TAIL);
    assert(page@ =~= login_page(error_html(flash_view)));
    let mut headers: Vec<Header> = Vec::new();
    headers.push(header(HeaderName::ContentType, "text/html; charset=UTF-8"));
    headers.push(header(HeaderName::SetCookie, "_flash=;Max-Age=0"));
    let r = HttpResponse { status: StatusCode::ok(), headers, body: Body::Html(page) };
    assert(r@.headers =~= seq![
        (HeaderName::ContentType, "text/html; charset=UTF-8"@),
        (HeaderName::SetCookie, "_flash=;Max-Age=0"@),
    ]);
    r
}

/// Whatever message the `_flash` cookie carries, the login page shows it as a paragraph.
pub proof fn lemma_login_form_shows_flash(message: Seq<char>)
    ensures
        login_form_view(Some(message)).body matches BodyView::Html(page)
            && shows(page, "<p><i>"@ + message + "</i></p>"@),
{
    let text = "<p><i>"@ + message + "</i></p>"@;
    let page = login_page(error_html(Some(message)));
    let k: int = LOGIN_PAGE_HEAD@.len() as int;
    assert(page.subrange(k, k + text.len()) =~= text);
}

/// Whatever the flash cookie holds, the login page answers `200` with exactly two headers:
/// the HTML content type, and a `Set-Cookie` that clears the flash cookie, so that a message
/// shows only once. And the page with a message is the page without one, with the message's
/// paragraph inserted at one place.
pub proof fn lemma_login_form_headers_and_page(flash: Option<Seq<char>>, message: Seq<char>)
    ensures
        login_form_view(flash).status == 200,
        login_form_view(flash).headers == seq![
            (HeaderName::ContentType, "text/html; charset=UTF-8"@),
            (HeaderName::SetCookie, "_flash=;Max-Age=0"@),
        ],
        login_form_view(None).body is Html,
        login_form_view(Some(message)).body is Html,
        exists|k: int|
            0 <= k <= login_form_view(None).body->Html_0.len() && login_form_view(Some(message)).body->Html_0
                == #[trigger] login_form_view(None).body->Html_0.subrange(0, k) + ("<p><i>"@ + message
                + "</i></p>"@) + login_form_view(None).body->Html_0.subrange(
                k,
                login_form_view(None).body->Html_0.len() as int,
            ),
{
    let plain = login_page(error_html(None));
    let with = login_page(error_html(Some(message)));
    let k: int = LOGIN_PAGE_HEAD@.len() as int;
    assert(plain.subrange(0, k) =~= LOGIN_PAGE_HEAD@);
    assert(plain.subrange(k, plain.len() as int) =~= LOGIN_PAGE_TAIL@);
    assert(with =~= plain.subrange(0, k) + ("<p><i>"@ + message + "</i></p>"@) + plain.subrange(
        k,
        plain.len() as int,
    ));
    assert(login_form_view(None).body->Html_0 == plain);
    assert(login_form_view(Some(message)).body->Html_0 == with);
}

} // verus!
