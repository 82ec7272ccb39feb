//! The password change form.
use vstd::prelude::*;
use crate::http::{shows, header, Body, BodyView, Header, HeaderName, HttpResponse, ResponseView, StatusCode};
use crate::routes::login::get::error_html;
use crate::utils::{see_other, see_other_view};

verus! {

/// The password page up to where the flash message goes.
pub const PASSWORD_PAGE_HEAD: &'static str = r#"<!DOCTYPE html>
<html lang="en">
<head>
    <meta http-equiv="content-type" content="text/html; charset=utf-8">
    <title>Change Password</title>
</head>
<body>
    "#;

/// The password page after the flash message.
pub const PASSWORD_PAGE_TAIL: &'static str = r#"
    <form action="/admin/password" method="post">
        <label>Current password
            <input
                type="password"
                placeholder="Enter current password"
                name="current_password"
            >
        </label>
        <label>New password
            <input
                type="password"
                placeholder="Enter new password"
                name="new_password"
            >
        </label>
        <label>Confirm new password
            <input
                type="password"
                placeholder="Type the new password again"
                name="new_password_check"
            >
        </label>
        <button type="submit">Change password</button>
    </form>
</body>
</html>"#;

/// The password page showing `error_html`.
pub open spec fn password_page(error_html: Seq<char>) -> Seq<char> {
    PASSWORD_PAGE_HEAD@ + error_html + PASSWORD_PAGE_TAIL@
}

/// The answer to a request for the password page.
pub open spec fn change_password_form_view(user_id: Option<u128>, flash: Option<Seq<char>>) -> ResponseView {
    match user_id {
        None => see_other_view("/login"@),
        Some(_) => ResponseView {
            status: 200,
            headers: seq![
                (HeaderName::ContentType, "text/html; charset=UTF-8"@),
                (HeaderName::SetCookie, "_flash=;Max-Age=0"@),
            ],
            body: BodyView::Html(password_page(error_html(flash))),
        },
    }
}

/// The password change form. An anonymous visitor is sent to the login page; a logged-in
/// user gets the form, with the message left in the `_flash` cookie shown above it, and the
/// cookie is cleared so that it shows only once.
pub fn change_password_form(user_id: Option<u128>, flash: Option<&str>) -> (r: HttpResponse)
    ensures
        r@ == change_password_form_view(user_id, match flash { None => None, Some(m) => Some(m@) }),
{
    if user_id.is_none() {
        return see_other("/login");
    }
    let ghost flash_view = match flash { None => None, Some(m) => Some(m@) };
    let mut page = PASSWORD_PAGE_HEAD.to_owned();
    match flash {
        None => {
            assert(page@ =~= PASSWORD_PAGE_HEAD@ + error_html(flash_view));
        },
        Some(message) => {
            page.append("<p><i>");
            page.append(message);
            page.append("</i></p>");
            assert(page@ =~= PASSWORD_PAGE_HEAD@ + error_html(flash_view));
        },
    }
    page.append(PASSWORD_PAGE_TAIL);
    assert(page@ =~= password_page(error_html(flash_view)));
    let mut headers: Vec<Header> = Vec::new();
    headers.push(header(HeaderName::ContentType, "text/html; charset=UTF-8"));
    headers.push(header(HeaderName::SetCookie, "_flash=;Max-Age=0"));
    let r = HttpResponse { status: StatusCode::ok(), headers, body: Body::Html(page) };
    assert(r@.headers =~= seq![
        (HeaderName::ContentType, "text/html; charset=UTF-8"@),
        (HeaderName::SetCookie, "_flash=;Max-Age=0"@),
    ]);
    r
}

/// Whatever message the `_flash` cookie carries, the password page of a logged-in user
/// shows it as a paragraph.
pub proof fn lemma_password_form_shows_flash(user_id: u128, message: Seq<char>)
    ensures
        change_password_form_view(Some(user_id), Some(message)).body matches BodyView::Html(page)
            && shows(page, "<p><i>"@ + message + "</i></p>"@),
{
    let text = "<p><i>"@ + message + "</i></p>"@;
    let page = password_page(error_html(Some(message)));
    let k: int = PASSWORD_PAGE_HEAD@.len() as int;
    assert(page.subrange(k, k + text.len()) =~= text);
}

/// A visitor without a user in the session is always sent to the login page, whatever the
/// flash cookie holds: `303` with the single header `Location: /login` and no body. A
/// logged-in user always gets the page (`200`) with the HTML content type and the flash
/// cookie cleared.
pub proof fn lemma_password_form_requires_login(user_id: u128, flash: Option<Seq<char>>)
    ensures
        change_password_form_view(None, flash) == (ResponseView {
            status: 303,
            headers: seq![(HeaderName::Location, "/login"@)],
            body: BodyView::Empty,
        }),
        change_password_form_view(Some(user_id), flash).status == 200,
        change_password_form_view(Some(user_id), flash).headers == seq![
            (HeaderName::ContentType, "text/html; charset=UTF-8"@),
            (HeaderName::SetCookie, "_flash=;Max-Age=0"@),
        ],
{
}

} // verus!
