use zero2prod::authentication::AuthError;
use zero2prod::domain::NewSubscriber;
use zero2prod::http::{Body, HeaderName, HttpResponse};
use zero2prod::routes::admin::dashboard::{admin_dashboard, admin_dashboard_page};
use zero2prod::routes::admin::logout::log_out;
use zero2prod::routes::admin::password::get::change_password_form;
use zero2prod::routes::admin::password::post::{
    change_password, ChangePassword, ChangePasswordAction, ChangePasswordEvent, FormData,
};
use zero2prod::routes::health_check::health_check;
use zero2prod::routes::home::home;
use zero2prod::routes::login::get::login_form;
use zero2prod::routes::login::post::{credentials, login, login_redirect, LoginError};
use zero2prod::routes::newsletters::{
    publish_newsletter, BodyData, ConfirmedSubscriber, Content, PublishError,
};
use zero2prod::routes::subscriptions::{subscribe, subscription_saved};
use zero2prod::routes::subscriptions_confirm::{confirm, Parameters};
use zero2prod::startup::{listen_address, routes, Endpoint, Method};
use zero2prod::utils::{e500, e500_response, see_other};

fn header_values(r: &HttpResponse) -> Vec<(HeaderName, String)> {
    r.headers.iter().map(|h| (h.name, h.value.clone())).collect()
}

fn location(r: &HttpResponse) -> Option<String> {
    r.headers
        .iter()
        .find(|h| h.name == HeaderName::Location)
        .map(|h| h.value.clone())
}

fn assert_is_redirect_to(r: &HttpResponse, to: &str) {
    assert_eq!(r.status.as_u16(), 303);
    assert_eq!(location(r).as_deref(), Some(to));
}

fn html(r: &HttpResponse) -> String {
    match &r.body {
        Body::Html(s) => s.clone(),
        _ => panic!("not an HTML body"),
    }
}

fn flash_of(r: &HttpResponse) -> Option<String> {
    r.headers
        .iter()
        .find(|h| h.name == HeaderName::SetCookie)
        .and_then(|h| h.value.strip_prefix("_flash=").map(|s| s.to_string()))
}

fn form(current: &str, new: &str, check: &str) -> FormData {
    FormData {
        current_password: current.to_string(),
        new_password: new.to_string(),
        new_password_check: check.to_string(),
    }
}

#[test]
fn lib_health_ckeck_succeds() {
    let response = health_check();
    assert!(response.is_success())
}

#[test]
fn health_check_health_ckeck_succeds() {
    let response = health_check();
    assert!(response.is_success())
}

#[test]
fn health_check_is_exactly_ok() {
    assert_eq!(health_check().as_u16(), 200);
}

#[test]
fn you_must_be_logged_in_to_access_the_admin_dashboard() {
    let response = admin_dashboard(None).err().expect("an anonymous visitor is redirected");
    assert_is_redirect_to(&response, "/login");
}

#[test]
fn logout_clears_session_state() {
    let user_id: u128 = 42;
    let username = "ursula";
    // Part 1 - Login
    let outcome = login(Ok(user_id));
    assert_eq!(outcome.session_user_id, Some(user_id));
    let response = outcome.response.ok().expect("accepted login");
    assert_is_redirect_to(&response, "/admin/dashboard");
    // Part 2 - Follow the redirect
    let id = admin_dashboard(outcome.session_user_id).ok().expect("logged in");
    assert_eq!(id, user_id);
    let page = admin_dashboard_page(username);
    assert_eq!(page.status.as_u16(), 200);
    assert!(html(&page).contains(&format!("Wellcome {}", username)));
    // Part 3 - Logout
    assert!(routes()
        .iter()
        .any(|r| r.method == Method::Post && r.path == "/admin/logout" && r.endpoint == Endpoint::LogOut));
    let out = log_out(Some(user_id));
    assert!(out.destroy_session);
    assert_is_redirect_to(&out.response, "/login");
    // Part 4 - Follow the redirect
    let flash = flash_of(&out.response).unwrap();
    let html_page = html(&login_form(Some(&flash)));
    assert!(html_page.contains(r#"<p><i>You have successfully logged out.</i></p>"#));
    // Part 5 - Attempt to load admin panel with the destroyed session
    let response = admin_dashboard(None).err().expect("redirected after logout");
    assert_is_redirect_to(&response, "/login");
}

/// A credential store for one user, as the server's storage would keep it.
struct Store {
    user_id: u128,
    username: String,
    password: String,
}

impl Store {
    fn check(&self, username: &str, password: &str) -> Result<u128, AuthError> {
        if username == self.username && password == self.password {
            Ok(self.user_id)
        } else {
            Err(AuthError::InvalidCredentials("Invalid credentials.".to_string()))
        }
    }

    /// Runs the password change against this store, doing the work each step asks for.
    fn change(&mut self, form: FormData, session: Option<u128>) -> HttpResponse {
        let (mut state, mut action) =
            change_password(ChangePassword::Start { form }, ChangePasswordEvent::SessionRead { user_id: session });
        loop {
            let event = match action {
                ChangePasswordAction::Respond { response } => return response,
                ChangePasswordAction::FetchUsername { .. } => {
                    ChangePasswordEvent::UsernameFetched { username: self.username.clone() }
                }
                ChangePasswordAction::ValidateCredentials { credentials } => ChangePasswordEvent::CredentialsChecked {
                    outcome: self.check(&credentials.username, &credentials.password),
                },
                ChangePasswordAction::StorePassword { user_id, new_password } => {
                    assert_eq!(user_id, self.user_id);
                    self.password = new_password;
                    ChangePasswordEvent::PasswordStored
                }
            };
            let next = change_password(state, event);
            state = next.0;
            action = next.1;
        }
    }
}

fn run_change(
    form: FormData,
    session: Option<u128>,
    username: &str,
    check: Result<u128, AuthError>,
) -> (Vec<ChangePasswordAction>, HttpResponse) {
    let mut actions = Vec::new();
    let mut check = Some(check);
    let (mut state, mut action) =
        change_password(ChangePassword::Start { form }, ChangePasswordEvent::SessionRead { user_id: session });
    loop {
        let event = match &action {
            ChangePasswordAction::Respond { .. } => break,
            ChangePasswordAction::FetchUsername { .. } => {
                ChangePasswordEvent::UsernameFetched { username: username.to_string() }
            }
            ChangePasswordAction::ValidateCredentials { .. } => {
                ChangePasswordEvent::CredentialsChecked { outcome: check.take().unwrap() }
            }
            ChangePasswordAction::StorePassword { .. } => ChangePasswordEvent::PasswordStored,
        };
        actions.push(action);
        let next = change_password(state, event);
        state = next.0;
        action = next.1;
    }
    assert!(matches!(state, ChangePassword::Finished));
    match action {
        ChangePasswordAction::Respond { response } => (actions, response),
        _ => unreachable!(),
    }
}

#[test]
fn changing_password_works() {
    let mut store = Store { user_id: 7, username: "ursula".to_string(), password: "old-password".to_string() };
    let new_password = "a-brand-new-password";
    // Part 1 - Login
    let c = credentials(zero2prod::routes::login::post::FormData {
        username: "ursula".to_string(),
        password: "old-password".to_string(),
    });
    let outcome = login(store.check(&c.username, &c.password));
    assert_is_redirect_to(outcome.response.as_ref().ok().unwrap(), "/admin/dashboard");
    // Part 2 - Change password
    let response = store.change(form("old-password", new_password, new_password), outcome.session_user_id);
    assert_is_redirect_to(&response, "/admin/password");
    assert_eq!(store.password, new_password);
    // Part 3 - Follow the redirect
    let flash = flash_of(&response).unwrap();
    let page = change_password_form(outcome.session_user_id, Some(&flash));
    assert!(html(&page).contains("<p><i>Your password has been changed.</i></p>"));
    // Part 4 - Logout
    let out = log_out(outcome.session_user_id);
    assert_is_redirect_to(&out.response, "/login");
    // Part 6 - Login using the new password
    let outcome = login(store.check("ursula", new_password));
    assert_eq!(outcome.session_user_id, Some(7));
    assert_is_redirect_to(outcome.response.as_ref().ok().unwrap(), "/admin/dashboard");
    // The old password no longer works
    let outcome = login(store.check("ursula", "old-password"));
    assert_eq!(outcome.session_user_id, None);
}

#[test]
fn change_password_without_session_redirects_to_login() {
    let (actions, response) = run_change(form("a", "b", "b"), None, "u", Ok(1));
    assert!(actions.is_empty());
    assert_is_redirect_to(&response, "/login");
    assert_eq!(flash_of(&response), None);
}

#[test]
fn change_password_rejects_mismatched_new_passwords() {
    let (actions, response) = run_change(form("a", "b", "c"), Some(3), "u", Ok(3));
    assert_eq!(actions.len(), 1);
    assert!(matches!(actions[0], ChangePasswordAction::FetchUsername { user_id: 3 }));
    assert_is_redirect_to(&response, "/admin/password");
    assert_eq!(
        flash_of(&response).as_deref(),
        Some("You entered two different new passwords - the field values must match.")
    );
}

#[test]
fn change_password_rejects_wrong_current_password() {
    let (actions, response) = run_change(
        form("wrong", "b", "b"),
        Some(3),
        "u",
        Err(AuthError::InvalidCredentials("Invalid credentials.".to_string())),
    );
    assert_eq!(actions.len(), 2);
    assert!(!actions.iter().any(|a| matches!(a, ChangePasswordAction::StorePassword { .. })));
    assert_is_redirect_to(&response, "/admin/password");
    assert_eq!(flash_of(&response).as_deref(), Some("The current password is incorrect."));
}

#[test]
fn change_password_reports_failed_check_as_500() {
    let (_, response) = run_change(
        form("a", "b", "b"),
        Some(3),
        "u",
        Err(AuthError::UnexpectedError("database down".to_string())),
    );
    assert_eq!(response.status.as_u16(), 500);
    assert!(response.headers.is_empty());
    match &response.body {
        Body::Text(t) => assert_eq!(t, "Something went wrong"),
        _ => panic!("text body expected"),
    }
}

#[test]
fn login_form_without_flash() {
    let r = login_form(None);
    assert_eq!(r.status.as_u16(), 200);
    assert_eq!(
        header_values(&r),
        vec![
            (HeaderName::ContentType, "text/html; charset=UTF-8".to_string()),
            (HeaderName::SetCookie, "_flash=;Max-Age=0".to_string()),
        ]
    );
    let page = html(&r);
    assert!(page.starts_with("<!DOCTYPE html>"));
    assert!(!page.contains("<p><i>"));
    assert!(page.contains(r#"<form action="/login" method="post">"#));
}

#[test]
fn login_form_shows_flash() {
    let r = login_form(Some("Authentication failed"));
    let page = html(&r);
    assert!(page.contains("<body>\n    <p><i>Authentication failed</i></p>\n    <form"));
}

#[test]
fn refused_login_redirects_with_message() {
    let outcome = login(Err(AuthError::InvalidCredentials("Invalid credentials.".to_string())));
    assert_eq!(outcome.session_user_id, None);
    let response = outcome.response.err().unwrap();
    assert_is_redirect_to(&response, "/login");
    assert_eq!(flash_of(&response).as_deref(), Some("Authentication failed"));
    assert_eq!(
        header_values(&response),
        vec![
            (HeaderName::Location, "/login".to_string()),
            (HeaderName::SetCookie, "_flash=Authentication failed".to_string()),
        ]
    );
}

#[test]
fn failed_credential_check_redirects_with_generic_message() {
    let outcome = login(Err(AuthError::UnexpectedError("pool timed out".to_string())));
    assert_eq!(outcome.session_user_id, None);
    let response = outcome.response.err().unwrap();
    assert_eq!(flash_of(&response).as_deref(), Some("Something went wrong"));
}

#[test]
fn login_redirect_carries_error_message() {
    let e = LoginError::UnexpectedError("boom".to_string());
    assert_eq!(e.message(), "Something went wrong");
    assert_eq!(e.source(), "boom");
    let r = login_redirect(&LoginError::AuthError("x".to_string()));
    assert_eq!(flash_of(&r).as_deref(), Some("Authentication failed"));
}

#[test]
fn login_form_data_becomes_credentials() {
    let c = credentials(zero2prod::routes::login::post::FormData {
        username: "ann".to_string(),
        password: "pw".to_string(),
    });
    assert_eq!(c.username, "ann");
    assert_eq!(c.password, "pw");
}

#[test]
fn anonymous_logout_only_redirects() {
    let out = log_out(None);
    assert!(!out.destroy_session);
    assert_eq!(header_values(&out.response), vec![(HeaderName::Location, "/login".to_string())]);
}

#[test]
fn logout_leaves_goodbye_message() {
    let out = log_out(Some(1));
    assert_eq!(
        header_values(&out.response),
        vec![
            (HeaderName::SetCookie, "_flash=You have successfully logged out.".to_string()),
            (HeaderName::Location, "/login".to_string()),
        ]
    );
}

#[test]
fn password_form_requires_login() {
    assert_is_redirect_to(&change_password_form(None, None), "/login");
    let page = html(&change_password_form(Some(1), None));
    assert!(page.contains(r#"name="new_password_check""#));
    assert!(!page.contains("<p><i>"));
}

#[test]
fn e500_is_opaque() {
    let (status, text) = e500();
    assert_eq!(status.as_u16(), 500);
    assert_eq!(text, "Something went wrong");
    let r = e500_response();
    assert_eq!(r.status.as_u16(), 500);
    assert!(r.headers.is_empty());
    assert!(matches!(&r.body, Body::Text(t) if t == "Something went wrong"));
}

#[test]
fn change_password_out_of_order_event_is_500() {
    let (state, action) = change_password(
        ChangePassword::Start { form: form("a", "b", "b") },
        ChangePasswordEvent::PasswordStored,
    );
    assert!(matches!(state, ChangePassword::Finished));
    match action {
        ChangePasswordAction::Respond { response } => {
            assert_eq!(response.status.as_u16(), 500);
            assert!(response.headers.is_empty());
            assert!(matches!(response.body, Body::Empty));
        }
        _ => panic!("the flow ends"),
    }
}

#[test]
fn see_other_sets_location_only() {
    let r = see_other("/somewhere");
    assert_eq!(r.status.as_u16(), 303);
    assert_eq!(header_values(&r), vec![(HeaderName::Location, "/somewhere".to_string())]);
    assert!(matches!(r.body, Body::Empty));
}

#[test]
fn home_serves_page_as_html() {
    let r = home("<h1>hi</h1>");
    assert_eq!(r.status.as_u16(), 200);
    assert_eq!(
        header_values(&r),
        vec![
            (HeaderName::Server, "axum".to_string()),
            (HeaderName::ContentType, "text/html".to_string()),
        ]
    );
    assert!(matches!(&r.body, Body::Text(t) if t == "<h1>hi</h1>"));
}

fn body_data() -> BodyData {
    BodyData {
        title: "Issue".to_string(),
        content: Content { html: "<p>hi</p>".to_string(), text: "hi".to_string() },
    }
}

#[test]
fn publishing_succeeds_when_subscribers_load() {
    let subscribers = vec![ConfirmedSubscriber { email: "a@b.c".to_string() }];
    let r = publish_newsletter(&body_data(), Ok(subscribers));
    assert_eq!(r.ok().unwrap().as_u16(), 200);
}

#[test]
fn publishing_fails_with_500_when_lookup_fails() {
    let r = publish_newsletter(&body_data(), Err("connection refused".to_string()));
    let e = r.err().unwrap();
    assert_eq!(e.message(), "connection refused");
    let response = e.into_response();
    assert_eq!(response.status.as_u16(), 500);
    assert!(response.headers.is_empty());
    let e = PublishError::UnexpectedError("x".to_string());
    assert_eq!(e.into_response().status.as_u16(), 500);
}

#[test]
fn invalid_subscription_is_bad_request() {
    let r = subscribe(Err("empty name".to_string()));
    assert_eq!(r.err().unwrap().as_u16(), 400);
}

#[test]
fn subscription_is_ok_once_saved() {
    let n = NewSubscriber { email: "ursula@example.com".to_string(), name: "le guin".to_string() };
    let n = subscribe(Ok(n)).ok().unwrap();
    assert_eq!(n.name, "le guin");
    assert_eq!(subscription_saved(Ok(())).as_u16(), 200);
    assert_eq!(subscription_saved(Err("duplicate key".to_string())).as_u16(), 500);
}

#[test]
fn new_subscriber_reports_first_failure() {
    let r = NewSubscriber::from_parsed(Err("bad name".to_string()), Err("bad email".to_string()));
    assert_eq!(r.err().unwrap(), "bad name");
    let r = NewSubscriber::from_parsed(Ok("n".to_string()), Err("bad email".to_string()));
    assert_eq!(r.err().unwrap(), "bad email");
    let r = NewSubscriber::from_parsed(Ok("n".to_string()), Ok("e@x.y".to_string())).ok().unwrap();
    assert_eq!((r.name.as_str(), r.email.as_str()), ("n", "e@x.y"));
}

#[test]
fn confirm_is_ok() {
    let p = Parameters { subscription_token: "abc".to_string() };
    assert_eq!(confirm(&p).as_u16(), 200);
}

#[test]
fn route_table_has_distinct_routes() {
    let table = routes();
    assert_eq!(table.len(), 11);
    for i in 0..table.len() {
        for j in (i + 1)..table.len() {
            assert!(table[i].method != table[j].method || table[i].path != table[j].path);
            assert!(table[i].endpoint != table[j].endpoint);
        }
    }
    assert!(table
        .iter()
        .any(|r| r.method == Method::Get && r.path == "/health_check" && r.endpoint == Endpoint::HealthCheck));
    assert!(table
        .iter()
        .any(|r| r.method == Method::Post && r.path == "/login" && r.endpoint == Endpoint::Login));
}

#[test]
fn listen_address_joins_host_and_port() {
    assert_eq!(listen_address("127.0.0.1", 8000), "127.0.0.1:8000");
    assert_eq!(listen_address("localhost", 0), "localhost:0");
    assert_eq!(listen_address("0.0.0.0", 65535), "0.0.0.0:65535");
    assert_eq!(listen_address("h", 10), "h:10");
}

#[test]
fn health_check_health_check_works() {
    let table = routes();
    let route = table
        .iter()
        .find(|r| r.method == Method::Get && r.path == "/health_check")
        .expect("the probe is routed");
    assert_eq!(route.endpoint, Endpoint::HealthCheck);
    // The probe answers with a bare status: success, and no body at all.
    let status = health_check();
    assert!(status.is_success());
    let response = status.into_response();
    assert!(response.status.is_success());
    assert!(response.headers.is_empty());
    assert!(matches!(response.body, Body::Empty));
}
