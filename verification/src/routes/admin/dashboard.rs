//! The administration dashboard.
use vstd::prelude::*;
use crate::http::{Body, BodyView, HeaderName, HttpResponse, ResponseView, StatusCode};
use crate::utils::{see_other, see_other_view};

verus! {

/// The dashboard page up to the user name.
pub const DASHBOARD_PAGE_HEAD: &'static str = r#"<!DOCTYPE html>
<html lang="en">
<head>
    <meta http-equiv="content-type" content="text/html; charset=utf-8">
    <title>Admin dashboard</title>
</head>
<body>
    <p>Wellcome "#;

/// The dashboard page after the user name.
pub const DASHBOARD_PAGE_TAIL: &'static str = r#"</p>
</body>
</html>"#;

/// The dashboard page greeting `username`.
pub open spec fn dashboard_page(username: Seq<char>) -> Seq<char> {
    DASHBOARD_PAGE_HEAD@ + username + DASHBOARD_PAGE_TAIL@
}

/// Who may see the dashboard: the id of the logged-in user, or the redirect that an
/// anonymous visitor gets.
pub open spec fn dashboard_gate(user_id: Option<u128>) -> Result<u128, ResponseView> {
    match user_id {
        None => Err(see_other_view("/login"@)),
        Some(id) => Ok(id),
    }
}

/// The first half of a dashboard request: an anonymous visitor is sent to the login page;
/// for a logged-in user the user id is handed on, to look up the user name.
pub fn admin_dashboard(user_id: Option<u128>) -> (r: Result<u128, HttpResponse>)
    ensures
        match (r, dashboard_gate(user_id)) {
            (Ok(id), Ok(expected)) => id == expected,
            (Err(resp), Err(expected)) => resp@ == expected,
            _ => false,
        },
{
    match user_id {
        None => Err(see_other("/login")),
        Some(id) => Ok(id),
    }
}

/// The answer for a logged-in user: the dashboard page greeting them.
pub open spec fn dashboard_view(username: Seq<char>) -> ResponseView {
    ResponseView { status: 200, headers: Seq::empty(), body: BodyView::Html(dashboard_page(username)) }
}

/// The second half of a dashboard request: the page greeting the user by name.
pub fn admin_dashboard_page(username: &str) -> (r: HttpResponse)
    ensures
        r@ == dashboard_view(username@),
{
    let mut page = DASHBOARD_PAGE_HEAD.to_owned();
    page.append(username);
    page.append(DASHBOARD_PAGE_TAIL);
    let r = HttpResponse { status: StatusCode::ok(), headers: Vec::new(), body: Body::Html(page) };
    assert(r@.headers =~= Seq::<(HeaderName, Seq<char>)>::empty());
    assert(r@.body == BodyView::Html(dashboard_page(username@)));
    r
}

/// The session decides who sees the dashboard: after a successful login the session holds
/// the user's id and the dashboard lets them in; after a logout the session is destroyed and
/// the dashboard sends the visitor to the login page.
pub proof fn lemma_login_admits_and_logout_expels(user_id: u128)
    ensures
        crate::routes::login::post::login_session(Ok(user_id)) == Some(user_id),
        dashboard_gate(crate::routes::login::post::login_session(Ok(user_id))) == Ok::<u128, ResponseView>(user_id),
        crate::routes::admin::logout::log_out_view(Some(user_id)).0,
        dashboard_gate(None) == Err::<u128, ResponseView>(see_other_view("/login"@)),
{
}

/// A logged-in user's dashboard answers `200` with no header, and the page greets them by
/// name: whatever the user name, the page holds "Wellcome ", the name, and the end of that
/// paragraph.
pub proof fn lemma_dashboard_greets(username: Seq<char>)
    ensures
        dashboard_view(username).status == 200,
        dashboard_view(username).headers.len() == 0,
        dashboard_view(username).body matches BodyView::Html(page)
            && crate::http::shows(page, "Wellcome "@ + username + "</p>"@),
{
    reveal_strlit(r#"<!DOCTYPE html>
<html lang="en">
<head>
    <meta http-equiv="content-type" content="text/html; charset=utf-8">
    <title>Admin dashboard</title>
</head>
<body>
    <p>Wellcome "#);
    reveal_strlit(r#"</p>
</body>
</html>"#);
    reveal_strlit("Wellcome ");
    reveal_strlit("</p>");
    let text = "Wellcome "@ + username + "</p>"@;
    let page = dashboard_page(username);
    let k: int = DASHBOARD_PAGE_HEAD@.len() - 9;
    assert(DASHBOARD_PAGE_HEAD@.subrange(k, DASHBOARD_PAGE_HEAD@.len() as int) =~= "Wellcome "@);
    assert(DASHBOARD_PAGE_TAIL@.subrange(0, 4) =~= "</p>"@);
    assert(page.subrange(k, k + text.len()) =~= text);
}

} // verus!
