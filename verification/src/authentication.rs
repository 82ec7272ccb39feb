//! What the credential check hands to the handlers: who asks, and how a check can fail.
use vstd::prelude::*;

verus! {

/// A user name and the password offered for it.
pub struct Credentials {
    pub username: String,
    pub password: String,
}

/// Why a credential check failed. Each variant carries the display text of the whole error.
pub enum AuthError {
    /// The user name is unknown or the password does not match.
    InvalidCredentials(String),
    /// The check itself could not be carried out.
    UnexpectedError(String),
}

/// The mathematical value of an [`AuthError`].
pub enum AuthErrorView {
    InvalidCredentials(Seq<char>),
    UnexpectedError(Seq<char>),
}

impl View for AuthError {
    type V = AuthErrorView;

    open spec fn view(&self) -> AuthErrorView {
        match self {
            AuthError::InvalidCredentials(s) => AuthErrorView::InvalidCredentials(s@),
            AuthError::UnexpectedError(s) => AuthErrorView::UnexpectedError(s@),
        }
    }
}

/// The outcome of a credential check: the user's id or the reason it failed.
pub open spec fn auth_outcome_view(r: Result<u128, AuthError>) -> Result<u128, AuthErrorView> {
    match r {
        Ok(id) => Ok(id),
        Err(e) => Err(e@),
    }
}

} // verus!
