//! Submitting the login form.
use vstd::prelude::*;
use crate::authentication::{AuthError, AuthErrorView, Credentials, auth_outcome_view};
use crate::http::{BodyView, HeaderName, HttpResponse, ResponseView, StatusCode};
use crate::utils::{flash_redirect, flash_redirect_view};

verus! {

/// The submitted login form.
pub struct FormData {
    pub username: String,
    pub password: String,
}

/// Why a login failed. Each variant carries the display text of the error that caused it.
pub enum LoginError {
    /// The credentials were refused.
    AuthError(String),
    /// The credentials could not be checked.
    UnexpectedError(String),
}

impl LoginError {
    /// What the error says to the user.
    pub open spec fn spec_message(&self) -> Seq<char> {
        match self {
            LoginError::AuthError(_) => "Authentication failed"@,
            LoginError::UnexpectedError(_) => "Something went wrong"@,
        }
    }

    /// What the error says to the user.
    pub fn message(&self) -> (m: String)
        ensures
            m@ == self.spec_message(),
    {
        match self {
            LoginError::AuthError(_) => "Authentication failed".to_owned(),
            LoginError::UnexpectedError(_) => "Something went wrong".to_owned(),
        }
    }

    /// The display text of the error that caused this one.
    pub fn source(&self) -> (s: &str)
        ensures
            s@ == match self {
                LoginError::AuthError(t) => t@,
                LoginError::UnexpectedError(t) => t@,
            },
    {
        match self {
            LoginError::AuthError(t) => t.as_str(),
            LoginError::UnexpectedError(t) => t.as_str(),
        }
    }
}

/// The login error that a failed credential check becomes: refused credentials are an
/// authentication failure, anything else is unexpected; the check's error is kept as the
/// source.
pub fn login_error(e: AuthError) -> (r: LoginError)
    ensures
        match e@ {
            AuthErrorView::InvalidCredentials(t) => r matches LoginError::AuthError(s) && s@ == t,
            AuthErrorView::UnexpectedError(t) => r matches LoginError::UnexpectedError(s) && s@ == t,
        },
{
    match e {
        AuthError::InvalidCredentials(t) => LoginError::AuthError(t),
        AuthError::UnexpectedError(t) => LoginError::UnexpectedError(t),
    }
}

/// Back to the login page, with the error's message in the flash cookie.
pub fn login_redirect(e: &LoginError) -> (r: HttpResponse)
    ensures
        r@ == flash_redirect_view("/login"@, e.spec_message()),
{
    let message = e.message();
    flash_redirect("/login", message.as_str())
}

/// The credentials that the form offers.
pub fn credentials(form: FormData) -> (c: Credentials)
    ensures
        c.username@ == form.username@,
        c.password@ == form.password@,
{
    Credentials { username: form.username, password: form.password }
}

/// What a login attempt does once its credentials have been checked.
pub struct LoginOutcome {
    /// The user id to remember in the session, if any.
    pub session_user_id: Option<u128>,
    /// The answer: `Ok` for a successful login, `Err` for a refused one.
    pub response: Result<HttpResponse, HttpResponse>,
}

/// The answer to a successful login.
pub open spec fn dashboard_redirect_view() -> ResponseView {
    ResponseView {
        status: 303,
        headers: seq![(HeaderName::Location, "/admin/dashboard"@)],
        body: BodyView::Empty,
    }
}

/// The user id that a login attempt puts in the session.
pub open spec fn login_session(outcome: Result<u128, AuthErrorView>) -> Option<u128> {
    match outcome {
        Ok(id) => Some(id),
        Err(_) => None,
    }
}

/// The answer to a login attempt, given the outcome of the credential check: the redirect to
/// the dashboard, or the redirect back to the login page with the reason in the flash cookie.
pub open spec fn login_response(outcome: Result<u128, AuthErrorView>) -> Result<ResponseView, ResponseView> {
    match outcome {
        Ok(_) => Ok(dashboard_redirect_view()),
        Err(e) => Err(flash_redirect_view(
            "/login"@,
            match e {
                AuthErrorView::InvalidCredentials(_) => "Authentication failed"@,
                AuthErrorView::UnexpectedError(_) => "Something went wrong"@,
            },
        )),
    }
}

/// Decides a login attempt from the outcome of the credential check.
///
/// Accepted credentials put the user id in the session and redirect to the dashboard.
/// Refused ones leave the session alone and redirect back to the login page with the message
/// "Authentication failed"; a check that could not be made does the same with the message
/// "Something went wrong".
pub fn login(outcome: Result<u128, AuthError>) -> (r: LoginOutcome)
    ensures
        r.session_user_id == login_session(auth_outcome_view(outcome)),
        match r.response {
            Ok(resp) => Ok::<ResponseView, ResponseView>(resp@),
            Err(resp) => Err(resp@),
        } == login_response(auth_outcome_view(outcome)),
        match auth_outcome_view(outcome) {
            Ok(_) => r.response matches Ok(resp) && resp@ == dashboard_redirect_view(),
            Err(e) => {
                r.response matches Err(resp) && resp@ == flash_redirect_view(
                    "/login"@,
                    match e {
                        AuthErrorView::InvalidCredentials(_) => "Authentication failed"@,
                        AuthErrorView::UnexpectedError(_) => "Something went wrong"@,
                    },
                )
            },
        },
{
    match outcome {
        Ok(user_id) => {
            let response = crate::http::response_with_header(
                StatusCode::see_other(),
                HeaderName::Location,
                "/admin/dashboard",
            );
            LoginOutcome { session_user_id: Some(user_id), response: Ok(response) }
        },
        Err(e) => {
            let error = login_error(e);
            LoginOutcome { session_user_id: None, response: Err(login_redirect(&error)) }
        },
    }
}

/// What a login attempt answers, exactly: accepted credentials remember the user in the
/// session and redirect to the dashboard; refused credentials remember nobody and redirect
/// back to the login page with "Authentication failed" in the flash cookie; a check that
/// could not be made does the same with "Something went wrong".
pub proof fn lemma_login_answers(user_id: u128, reason: Seq<char>)
    ensures
        login_session(Ok(user_id)) == Some(user_id),
        login_response(Ok(user_id)) == Ok::<ResponseView, ResponseView>(
            ResponseView {
                status: 303,
                headers: seq![(HeaderName::Location, "/admin/dashboard"@)],
                body: BodyView::Empty,
            },
        ),
        login_session(Err(AuthErrorView::InvalidCredentials(reason))) == None::<u128>,
        login_response(Err(AuthErrorView::InvalidCredentials(reason))) == Err::<ResponseView, ResponseView>(
            ResponseView {
                status: 303,
                headers: seq![
                    (HeaderName::Location, "/login"@),
                    (HeaderName::SetCookie, "_flash="@ + "Authentication failed"@),
                ],
                body: BodyView::Empty,
            },
        ),
        login_session(Err(AuthErrorView::UnexpectedError(reason))) == None::<u128>,
        login_response(Err(AuthErrorView::UnexpectedError(reason))) == Err::<ResponseView, ResponseView>(
            ResponseView {
                status: 303,
                headers: seq![
                    (HeaderName::Location, "/login"@),
                    (HeaderName::SetCookie, "_flash="@ + "Something went wrong"@),
                ],
                body: BodyView::Empty,
            },
        ),
{
}

} // verus!
