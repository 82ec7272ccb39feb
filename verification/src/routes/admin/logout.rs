//! Logging out.
use vstd::prelude::*;
use crate::http::{header, Body, BodyView, Header, HeaderName, HttpResponse, ResponseView, StatusCode};
use crate::utils::{see_other, see_other_view};

verus! {

/// What a logout does.
pub struct LogOutOutcome {
    /// Whether the session is to be destroyed.
    pub destroy_session: bool,
    /// The answer.
    pub response: HttpResponse,
}

/// The answer to a logout of a logged-in user.
pub open spec fn logged_out_view() -> ResponseView {
    ResponseView {
        status: 303,
        headers: seq![
            (HeaderName::SetCookie, "_flash=You have successfully logged out."@),
            (HeaderName::Location, "/login"@),
        ],
        body: BodyView::Empty,
    }
}

/// Whether a logout destroys the session, and its answer, given the user id in the session.
pub open spec fn log_out_view(user_id: Option<u128>) -> (bool, ResponseView) {
    match user_id {
        None => (false, see_other_view("/login"@)),
        Some(_) => (true, logged_out_view()),
    }
}

/// Logs out. Without a user in the session it only redirects to the login page; otherwise
/// it destroys the session and redirects to the login page with a goodbye message.
pub fn log_out(user_id: Option<u128>) -> (r: LogOutOutcome)
    ensures
        r.destroy_session == log_out_view(user_id).0,
        r.response@ == log_out_view(user_id).1,
{
    match user_id {
        None => LogOutOutcome { destroy_session: false, response: see_other("/login") },
        Some(_) => {
            let mut headers: Vec<Header> = Vec::new();
            headers.push(header(HeaderName::SetCookie, "_flash=You have successfully logged out."));
            headers.push(header(HeaderName::Location, "/login"));
            let response = HttpResponse { status: StatusCode::see_other(), headers, body: Body::Empty };
            assert(response@.headers =~= logged_out_view().headers);
            LogOutOutcome { destroy_session: true, response }
        },
    }
}

/// Whatever the session holds, a logout answers with a redirect to the login page, and it
/// destroys the session exactly when a user was logged in.
pub proof fn lemma_log_out_redirects_to_login(user_id: Option<u128>)
    ensures
        log_out_view(user_id).1.status == 303,
        log_out_view(user_id).1.headers.contains((HeaderName::Location, "/login"@)),
        log_out_view(user_id).0 == user_id.is_some(),
{
    let r = log_out_view(user_id).1;
    if user_id.is_some() {
        assert(r.headers[1] == (HeaderName::Location, "/login"@));
    } else {
        assert(r.headers[0] == (HeaderName::Location, "/login"@));
    }
}

/// What a logout answers, exactly: for a logged-in user, the session is destroyed and the
/// redirect to the login page leaves "You have successfully logged out." in the flash cookie;
/// for an anonymous visitor, the session is left alone and the answer is the bare redirect to
/// the login page.
pub proof fn lemma_log_out_answers(user_id: u128)
    ensures
        log_out_view(Some(user_id)) == (
            true,
            ResponseView {
                status: 303,
                headers: seq![
                    (HeaderName::SetCookie, "_flash=You have successfully logged out."@),
                    (HeaderName::Location, "/login"@),
                ],
                body: BodyView::Empty,
            },
        ),
        log_out_view(None) == (
            false,
            ResponseView { status: 303, headers: seq![(HeaderName::Location, "/login"@)], body: BodyView::Empty },
        ),
{
}

} // verus!
