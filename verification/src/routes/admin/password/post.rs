//! The password change form: a flow that alternates storage work (done by the caller) and
//! decisions (made here), one event at a time.
use vstd::prelude::*;
use crate::authentication::{AuthError, AuthErrorView, Credentials};
use crate::http::{Body, BodyView, HeaderName, HttpResponse, ResponseView, StatusCode};
use crate::utils::{e500_response, e500_view, flash_redirect, flash_redirect_view, see_other, see_other_view};

verus! {

/// Where the flow sends the user back to after a submission.
pub const PASSWORD_PAGE: &'static str = "/admin/password";

/// Flash message when the new password and its confirmation differ.
pub const MISMATCH_MESSAGE: &'static str = "You entered two different new passwords - the field values must match.";

/// Flash message when the current password does not check out.
pub const WRONG_PASSWORD_MESSAGE: &'static str = "The current password is incorrect.";

/// Flash message after a successful change.
pub const CHANGED_MESSAGE: &'static str = "Your password has been changed.";

/// The submitted form.
pub struct FormData {
    pub current_password: String,
    pub new_password: String,
    pub new_password_check: String,
}

/// The mathematical value of a [`FormData`].
pub struct FormView {
    pub current_password: Seq<char>,
    pub new_password: Seq<char>,
    pub new_password_check: Seq<char>,
}

impl View for FormData {
    type V = FormView;

    open spec fn view(&self) -> FormView {
        FormView {
            current_password: self.current_password@,
            new_password: self.new_password@,
            new_password_check: self.new_password_check@,
        }
    }
}

/// Where a password change stands.
pub enum ChangePassword {
    /// The form has been received; the session has not been read yet.
    Start { form: FormData },
    /// The user is logged in; their user name is being looked up.
    FetchingUsername { user_id: u128, form: FormData },
    /// The confirmation matched; the current password is being checked.
    Validating { user_id: u128, new_password: String },
    /// The new password is being stored.
    Storing,
    /// A response has been given.
    Finished,
}

/// The mathematical value of a [`ChangePassword`].
pub enum ChangePasswordView {
    Start { form: FormView },
    FetchingUsername { user_id: u128, form: FormView },
    Validating { user_id: u128, new_password: Seq<char> },
    Storing,
    Finished,
}

impl View for ChangePassword {
    type V = ChangePasswordView;

    open spec fn view(&self) -> ChangePasswordView {
        match self {
            ChangePassword::Start { form } => ChangePasswordView::Start { form: form@ },
            ChangePassword::FetchingUsername { user_id, form } => ChangePasswordView::FetchingUsername {
                user_id: *user_id,
                form: form@,
            },
            ChangePassword::Validating { user_id, new_password } => ChangePasswordView::Validating {
                user_id: *user_id,
                new_password: new_password@,
            },
            ChangePassword::Storing => ChangePasswordView::Storing,
            ChangePassword::Finished => ChangePasswordView::Finished,
        }
    }
}

/// What the caller reports back after doing the work it was asked for.
pub enum ChangePasswordEvent {
    /// The session was read; it holds this user id, if any.
    SessionRead { user_id: Option<u128> },
    /// The user name of the logged-in user.
    UsernameFetched { username: String },
    /// The outcome of checking the current password.
    CredentialsChecked { outcome: Result<u128, AuthError> },
    /// The new password has been stored.
    PasswordStored,
}

/// The mathematical value of a [`ChangePasswordEvent`].
pub enum ChangePasswordEventView {
    SessionRead { user_id: Option<u128> },
    UsernameFetched { username: Seq<char> },
    CredentialsChecked { outcome: Result<u128, AuthErrorView> },
    PasswordStored,
}

impl View for ChangePasswordEvent {
    type V = ChangePasswordEventView;

    open spec fn view(&self) -> ChangePasswordEventView {
        match self {
            ChangePasswordEvent::SessionRead { user_id } => ChangePasswordEventView::SessionRead { user_id: *user_id },
            ChangePasswordEvent::UsernameFetched { username } => ChangePasswordEventView::UsernameFetched {
                username: username@,
            },
            ChangePasswordEvent::CredentialsChecked { outcome } => ChangePasswordEventView::CredentialsChecked {
                outcome: crate::authentication::auth_outcome_view(*outcome),
            },
            ChangePasswordEvent::PasswordStored => ChangePasswordEventView::PasswordStored,
        }
    }
}

/// What the flow asks the caller to do next.
pub enum ChangePasswordAction {
    /// Look up the user name of this user.
    FetchUsername { user_id: u128 },
    /// Check these credentials.
    ValidateCredentials { credentials: Credentials },
    /// Store this password for this user.
    StorePassword { user_id: u128, new_password: String },
    /// Send this response; the flow is over.
    Respond { response: HttpResponse },
}

/// The mathematical value of a [`ChangePasswordAction`].
pub enum ChangePasswordActionView {
    FetchUsername { user_id: u128 },
    ValidateCredentials { username: Seq<char>, password: Seq<char> },
    StorePassword { user_id: u128, new_password: Seq<char> },
    Respond { response: ResponseView },
}

impl View for ChangePasswordAction {
    type V = ChangePasswordActionView;

    open spec fn view(&self) -> ChangePasswordActionView {
        match self {
            ChangePasswordAction::FetchUsername { user_id } => ChangePasswordActionView::FetchUsername {
                user_id: *user_id,
            },
            ChangePasswordAction::ValidateCredentials { credentials } => ChangePasswordActionView::ValidateCredentials {
                username: credentials.username@,
                password: credentials.password@,
            },
            ChangePasswordAction::StorePassword { user_id, new_password } => ChangePasswordActionView::StorePassword {
                user_id: *user_id,
                new_password: new_password@,
            },
            ChangePasswordAction::Respond { response } => ChangePasswordActionView::Respond { response: response@ },
        }
    }
}

/// The answer that ends a flow that received an event it was not waiting for.
pub open spec fn out_of_order_response() -> ResponseView {
    ResponseView { status: 500, headers: Seq::empty(), body: BodyView::Empty }
}

fn out_of_order() -> (r: HttpResponse)
    ensures
        r@ == out_of_order_response(),
{
    let r = HttpResponse { status: StatusCode::internal_server_error(), headers: Vec::new(), body: Body::Empty };
    assert(r@.headers =~= Seq::<(HeaderName, Seq<char>)>::empty());
    r
}

/// One step of the flow: the next state and the next action.
pub open spec fn change_password_step(
    state: ChangePasswordView,
    event: ChangePasswordEventView,
) -> (ChangePasswordView, ChangePasswordActionView) {
    match (state, event) {
        (ChangePasswordView::Start { form }, ChangePasswordEventView::SessionRead { user_id }) => match user_id {
            None => (
                ChangePasswordView::Finished,
                ChangePasswordActionView::Respond { response: see_other_view("/login"@) },
            ),
            Some(id) => (
                ChangePasswordView::FetchingUsername { user_id: id, form },
                ChangePasswordActionView::FetchUsername { user_id: id },
            ),
        },
        (
            ChangePasswordView::FetchingUsername { user_id, form },
            ChangePasswordEventView::UsernameFetched { username },
        ) => if form.new_password != form.new_password_check {
            (
                ChangePasswordView::Finished,
                ChangePasswordActionView::Respond {
                    response: flash_redirect_view(PASSWORD_PAGE@, MISMATCH_MESSAGE@),
                },
            )
        } else {
            (
                ChangePasswordView::Validating { user_id, new_password: form.new_password },
                ChangePasswordActionView::ValidateCredentials { username, password: form.current_password },
            )
        },
        (
            ChangePasswordView::Validating { user_id, new_password },
            ChangePasswordEventView::CredentialsChecked { outcome },
        ) => match outcome {
            Ok(_) => (ChangePasswordView::Storing, ChangePasswordActionView::StorePassword { user_id, new_password }),
            Err(AuthErrorView::InvalidCredentials(_)) => (
                ChangePasswordView::Finished,
                ChangePasswordActionView::Respond {
                    response: flash_redirect_view(PASSWORD_PAGE@, WRONG_PASSWORD_MESSAGE@),
                },
            ),
            Err(AuthErrorView::UnexpectedError(_)) => (
                ChangePasswordView::Finished,
                ChangePasswordActionView::Respond { response: e500_view() },
            ),
        },
        (ChangePasswordView::Storing, ChangePasswordEventView::PasswordStored) => (
            ChangePasswordView::Finished,
            ChangePasswordActionView::Respond { response: flash_redirect_view(PASSWORD_PAGE@, CHANGED_MESSAGE@) },
        ),
        _ => (ChangePasswordView::Finished, ChangePasswordActionView::Respond { response: out_of_order_response() }),
    }
}

/// Advances the password change by one event.
///
/// Without a logged-in user it redirects to `/login`. Otherwise it has the user name looked
/// up, then refuses a new password that differs from its confirmation, then has the current
/// password checked: a wrong one is reported on the password page, a failed check answers an
/// opaque `500`. Only after a successful check is the new password stored, and the user is
/// sent back to the password page with a confirmation. An event that does not answer the work
/// the flow is waiting for ends it with a bare `500`.
pub fn change_password(state: ChangePassword, event: ChangePasswordEvent) -> (r: (
    ChangePassword,
    ChangePasswordAction,
))
    ensures
        r.0@ == change_password_step(state@, event@).0,
        r.1@ == change_password_step(state@, event@).1,
{
    match state {
        ChangePassword::Start { form } => match event {
            ChangePasswordEvent::SessionRead { user_id } => match user_id {
                None => (ChangePassword::Finished, ChangePasswordAction::Respond { response: see_other("/login") }),
                Some(id) => (
                    ChangePassword::FetchingUsername { user_id: id, form },
                    ChangePasswordAction::FetchUsername { user_id: id },
                ),
            },
            _ => (ChangePassword::Finished, ChangePasswordAction::Respond { response: out_of_order() }),
        },
        ChangePassword::FetchingUsername { user_id, form } => match event {
            ChangePasswordEvent::UsernameFetched { username } => {
                if form.new_password != form.new_password_check {
                    (
                        ChangePassword::Finished,
                        ChangePasswordAction::Respond { response: flash_redirect(PASSWORD_PAGE, MISMATCH_MESSAGE) },
                    )
                } else {
                    let FormData { current_password, new_password, new_password_check: _ } = form;
                    (
                        ChangePassword::Validating { user_id, new_password },
                        ChangePasswordAction::ValidateCredentials {
                            credentials: Credentials { username, password: current_password },
                        },
                    )
                }
            },
            _ => (ChangePassword::Finished, ChangePasswordAction::Respond { response: out_of_order() }),
        },
        ChangePassword::Validating { user_id, new_password } => match event {
            ChangePasswordEvent::CredentialsChecked { outcome } => match outcome {
                Ok(_) => (ChangePassword::Storing, ChangePasswordAction::StorePassword { user_id, new_password }),
                Err(AuthError::InvalidCredentials(_)) => (
                    ChangePassword::Finished,
                    ChangePasswordAction::Respond { response: flash_redirect(PASSWORD_PAGE, WRONG_PASSWORD_MESSAGE) },
                ),
                Err(AuthError::UnexpectedError(_)) => (
                    ChangePassword::Finished,
                    ChangePasswordAction::Respond { response: e500_response() },
                ),
            },
            _ => (ChangePassword::Finished, ChangePasswordAction::Respond { response: out_of_order() }),
        },
        ChangePassword::Storing => match event {
            ChangePasswordEvent::PasswordStored => (
                ChangePassword::Finished,
                ChangePasswordAction::Respond { response: flash_redirect(PASSWORD_PAGE, CHANGED_MESSAGE) },
            ),
            _ => (ChangePassword::Finished, ChangePasswordAction::Respond { response: out_of_order() }),
        },
        ChangePassword::Finished => (ChangePassword::Finished, ChangePasswordAction::Respond { response: out_of_order() }),
    }
}

/// The actions that a flow in `state` takes on a sequence of events, one per event.
pub open spec fn change_password_run(
    state: ChangePasswordView,
    events: Seq<ChangePasswordEventView>,
) -> Seq<ChangePasswordActionView>
    decreases events.len(),
{
    if events.len() == 0 {
        Seq::empty()
    } else {
        let (next, action) = change_password_step(state, events[0]);
        seq![action] + change_password_run(next, events.drop_first())
    }
}

/// What holds of every state reached from a flow started on `form`.
pub open spec fn flow_invariant(form: FormView, state: ChangePasswordView) -> bool {
    match state {
        ChangePasswordView::Start { form: f } => f == form,
        ChangePasswordView::FetchingUsername { form: f, .. } => f == form,
        ChangePasswordView::Validating { new_password, .. } => {
            &&& new_password == form.new_password
            &&& form.new_password == form.new_password_check
        },
        _ => true,
    }
}

proof fn lemma_store_only_when_confirmed_and_checked(
    form: FormView,
    state: ChangePasswordView,
    events: Seq<ChangePasswordEventView>,
    i: int,
)
    requires
        flow_invariant(form, state),
        0 <= i < events.len(),
    ensures
        change_password_run(state, events).len() == events.len(),
        change_password_run(state, events)[i] is StorePassword ==> {
            &&& change_password_run(state, events)[i]->StorePassword_new_password == form.new_password
            &&& form.new_password == form.new_password_check
            &&& events[i] matches ChangePasswordEventView::CredentialsChecked { outcome: Ok(_) }
        },
    decreases events.len(),
{
    lemma_run_len(state, events);
    let (next, action) = change_password_step(state, events[0]);
    assert(flow_invariant(form, next));
    if i > 0 {
        lemma_store_only_when_confirmed_and_checked(form, next, events.drop_first(), i - 1);
        assert(change_password_run(state, events)[i] == change_password_run(next, events.drop_first())[i - 1]);
        assert(events[i] == events.drop_first()[i - 1]);
    }
}

proof fn lemma_run_len(state: ChangePasswordView, events: Seq<ChangePasswordEventView>)
    ensures
        change_password_run(state, events).len() == events.len(),
    decreases events.len(),
{
    if events.len() > 0 {
        let (next, action) = change_password_step(state, events[0]);
        lemma_run_len(next, events.drop_first());
    }
}

/// A password change stores a new password only as the answer to a successful check of the
/// current password, and the password it stores is the new password of the submitted form,
/// which equals its confirmation: whatever the events, a form whose two new passwords differ
/// never has its password stored.
pub proof fn lemma_password_stored_only_when_confirmed_and_checked(
    form: FormView,
    events: Seq<ChangePasswordEventView>,
    i: int,
)
    requires
        0 <= i < events.len(),
        change_password_run(ChangePasswordView::Start { form }, events)[i] is StorePassword,
    ensures
        change_password_run(ChangePasswordView::Start { form }, events)[i]->StorePassword_new_password
            == form.new_password,
        form.new_password == form.new_password_check,
        events[i] matches ChangePasswordEventView::CredentialsChecked { outcome: Ok(_) },
{
    lemma_store_only_when_confirmed_and_checked(form, ChangePasswordView::Start { form }, events, i);
}

/// The redirect back to the password page that leaves `message` (given literally) in the
/// flash cookie.
pub open spec fn password_page_redirect(message: Seq<char>) -> ResponseView {
    ResponseView {
        status: 303,
        headers: seq![
            (crate::http::HeaderName::Location, "/admin/password"@),
            (crate::http::HeaderName::SetCookie, "_flash="@ + message),
        ],
        body: BodyView::Empty,
    }
}

/// Once the user name is known, the confirmation alone decides what happens: when the new
/// password equals its confirmation the flow always goes on to check the user's current
/// password, and only when the two differ does it stop with the mismatch message on the
/// password page, checking and storing nothing.
pub proof fn lemma_confirmation_decides(user_id: u128, form: FormView, username: Seq<char>)
    ensures
        form.new_password == form.new_password_check ==> change_password_step(
            ChangePasswordView::FetchingUsername { user_id, form },
            ChangePasswordEventView::UsernameFetched { username },
        ) == (
            ChangePasswordView::Validating { user_id, new_password: form.new_password },
            ChangePasswordActionView::ValidateCredentials { username, password: form.current_password },
        ),
        form.new_password != form.new_password_check ==> change_password_step(
            ChangePasswordView::FetchingUsername { user_id, form },
            ChangePasswordEventView::UsernameFetched { username },
        ) == (
            ChangePasswordView::Finished,
            ChangePasswordActionView::Respond {
                response: password_page_redirect(
                    "You entered two different new passwords - the field values must match."@,
                ),
            },
        ),
{
    assert(crate::utils::flash_cookie(MISMATCH_MESSAGE@)
        == "_flash="@ + "You entered two different new passwords - the field values must match."@);
}

/// A logged-in user who types the same new password twice, and whose current password checks
/// out, gets exactly this: their user name is looked up, their name and current password are
/// checked, the new password is stored for their user id, and they are sent back to the
/// password page with "Your password has been changed.".
pub proof fn lemma_successful_change(
    user_id: u128,
    form: FormView,
    username: Seq<char>,
    checked_id: u128,
)
    requires
        form.new_password == form.new_password_check,
    ensures
        change_password_run(
            ChangePasswordView::Start { form },
            seq![
                ChangePasswordEventView::SessionRead { user_id: Some(user_id) },
                ChangePasswordEventView::UsernameFetched { username },
                ChangePasswordEventView::CredentialsChecked { outcome: Ok(checked_id) },
                ChangePasswordEventView::PasswordStored,
            ],
        ) == seq![
            ChangePasswordActionView::FetchUsername { user_id },
            ChangePasswordActionView::ValidateCredentials { username, password: form.current_password },
            ChangePasswordActionView::StorePassword { user_id, new_password: form.new_password },
            ChangePasswordActionView::Respond {
                response: password_page_redirect("Your password has been changed."@),
            },
        ],
{
    let events = seq![
        ChangePasswordEventView::SessionRead { user_id: Some(user_id) },
        ChangePasswordEventView::UsernameFetched { username },
        ChangePasswordEventView::CredentialsChecked { outcome: Ok(checked_id) },
        ChangePasswordEventView::PasswordStored,
    ];
    let s0 = ChangePasswordView::Start { form };
    let s1 = ChangePasswordView::FetchingUsername { user_id, form };
    let s2 = ChangePasswordView::Validating { user_id, new_password: form.new_password };
    let s3 = ChangePasswordView::Storing;
    let s4 = ChangePasswordView::Finished;
    let e1 = events.drop_first();
    let e2 = e1.drop_first();
    let e3 = e2.drop_first();
    let e4 = e3.drop_first();
    assert(e1 =~= events.subrange(1, 4));
    assert(e2 =~= events.subrange(2, 4));
    assert(e3 =~= events.subrange(3, 4));
    assert(e4 =~= Seq::<ChangePasswordEventView>::empty());
    assert(crate::utils::flash_cookie(CHANGED_MESSAGE@) == "_flash="@ + "Your password has been changed."@);
    let last = ChangePasswordActionView::Respond { response: password_page_redirect("Your password has been changed."@) };
    assert(change_password_run(s4, e4) =~= Seq::<ChangePasswordActionView>::empty());
    assert(change_password_run(s3, e3) =~= seq![last]);
    assert(change_password_run(s2, e2) =~= seq![
        ChangePasswordActionView::StorePassword { user_id, new_password: form.new_password },
        last,
    ]);
    assert(change_password_run(s1, e1) =~= seq![
        ChangePasswordActionView::ValidateCredentials { username, password: form.current_password },
        ChangePasswordActionView::StorePassword { user_id, new_password: form.new_password },
        last,
    ]);
    assert(change_password_run(s0, events) =~= seq![
        ChangePasswordActionView::FetchUsername { user_id },
        ChangePasswordActionView::ValidateCredentials { username, password: form.current_password },
        ChangePasswordActionView::StorePassword { user_id, new_password: form.new_password },
        last,
    ]);
}

/// The other ways a password change ends: a visitor without a user in the session is sent to
/// the login page before anything is looked up; a logged-in user's id is handed on to look
/// up their name; a current password that does not check out sends the user back to the
/// password page with "The current password is incorrect." and stores nothing; a check that
/// could not be made answers an opaque `500` with "Something went wrong" and stores nothing.
pub proof fn lemma_change_password_refusals(
    form: FormView,
    user_id: u128,
    new_password: Seq<char>,
    reason: Seq<char>,
)
    ensures
        change_password_step(
            ChangePasswordView::Start { form },
            ChangePasswordEventView::SessionRead { user_id: None },
        ) == (
            ChangePasswordView::Finished,
            ChangePasswordActionView::Respond {
                response: ResponseView {
                    status: 303,
                    headers: seq![(HeaderName::Location, "/login"@)],
                    body: BodyView::Empty,
                },
            },
        ),
        change_password_step(
            ChangePasswordView::Start { form },
            ChangePasswordEventView::SessionRead { user_id: Some(user_id) },
        ) == (
            ChangePasswordView::FetchingUsername { user_id, form },
            ChangePasswordActionView::FetchUsername { user_id },
        ),
        change_password_step(
            ChangePasswordView::Validating { user_id, new_password },
            ChangePasswordEventView::CredentialsChecked {
                outcome: Err(AuthErrorView::InvalidCredentials(reason)),
            },
        ) == (
            ChangePasswordView::Finished,
            ChangePasswordActionView::Respond {
                response: password_page_redirect("The current password is incorrect."@),
            },
        ),
        change_password_step(
            ChangePasswordView::Validating { user_id, new_password },
            ChangePasswordEventView::CredentialsChecked { outcome: Err(AuthErrorView::UnexpectedError(reason)) },
        ) == (
            ChangePasswordView::Finished,
            ChangePasswordActionView::Respond {
                response: ResponseView {
                    status: 500,
                    headers: Seq::empty(),
                    body: BodyView::Text("Something went wrong"@),
                },
            },
        ),
{
    assert(crate::utils::flash_cookie(WRONG_PASSWORD_MESSAGE@) == "_flash="@ + "The current password is incorrect."@);
}

} // verus!
