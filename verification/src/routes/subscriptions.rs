//! Subscribing to the newsletter.
use vstd::prelude::*;
use crate::domain::NewSubscriber;
use crate::http::StatusCode;

verus! {

/// The submitted subscription form.
pub struct FormData {
    pub name: String,
    pub email: String,
}

/// The first half of a subscription: a form that does not validate is answered
/// `400 Bad Request`; a valid one goes on to be saved.
pub fn subscribe(parsed: Result<NewSubscriber, String>) -> (r: Result<NewSubscriber, StatusCode>)
    ensures
        parsed is Err ==> (r matches Err(s) && s.code == 400),
        parsed matches Ok(n) ==> (r matches Ok(m) && m.name@ == n.name@ && m.email@ == n.email@),
{
    match parsed {
        Ok(n) => Ok(n),
        Err(_) => Err(StatusCode::bad_request()),
    }
}

/// The second half of a subscription: `200 OK` once it is saved, `500 Internal Server
/// Error` when saving failed.
pub fn subscription_saved(saved: Result<(), String>) -> (s: StatusCode)
    ensures
        saved is Ok ==> s.code == 200,
        saved is Err ==> s.code == 500,
{
    match saved {
        Ok(_) => StatusCode::ok(),
        Err(_) => StatusCode::internal_server_error(),
    }
}

} // verus!
