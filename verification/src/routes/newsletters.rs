//! Publishing a newsletter issue.
use vstd::prelude::*;
use crate::http::{Body, BodyView, HttpResponse, ResponseView, StatusCode};

verus! {

/// The body of a publication request.
pub struct BodyData {
    pub title: String,
    pub content: Content,
}

/// The two renderings of an issue.
pub struct Content {
    pub html: String,
    pub text: String,
}

/// A subscriber who confirmed their subscription.
pub struct ConfirmedSubscriber {
    pub email: String,
}

/// Why publishing failed. The variant carries the display text of its cause, which is also
/// its own display text.
pub enum PublishError {
    UnexpectedError(String),
}

impl PublishError {
    /// The display text of the error (that of its cause).
    pub fn message(&self) -> (m: &str)
        ensures
            m@ == match self {
                PublishError::UnexpectedError(t) => t@,
            },
    {
        match self {
            PublishError::UnexpectedError(t) => t.as_str(),
        }
    }

    /// A failed publication answers `500 Internal Server Error`, without a body.
    pub fn into_response(self) -> (r: HttpResponse)
        ensures
            r@ == (ResponseView { status: 500, headers: Seq::empty(), body: BodyView::Empty }),
    {
        match self {
            PublishError::UnexpectedError(_) => {
                let r = HttpResponse { status: StatusCode::internal_server_error(), headers: Vec::new(), body: Body::Empty };
                assert(r@.headers =~= Seq::empty());
                r
            },
        }
    }
}

/// Decides a publication from the lookup of the confirmed subscribers: `200 OK` when the
/// lookup succeeded, otherwise an unexpected error that carries the lookup's error text.
pub fn publish_newsletter(_body: &BodyData, subscribers: Result<Vec<ConfirmedSubscriber>, String>) -> (r: Result<
    StatusCode,
    PublishError,
>)
    ensures
        subscribers is Ok ==> (r matches Ok(s) && s.code == 200),
        subscribers matches Err(t) ==> (r matches Err(PublishError::UnexpectedError(u)) && u@ == t@),
{
    match subscribers {
        Ok(_) => Ok(StatusCode::ok()),
        Err(t) => Err(PublishError::UnexpectedError(t)),
    }
}

} // verus!
