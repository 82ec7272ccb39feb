//! Confirming a subscription.
use vstd::prelude::*;
use crate::http::StatusCode;

verus! {

/// The query of a confirmation link.
pub struct Parameters {
    pub subscription_token: String,
}

/// Answers `200 OK` to a confirmation link, whatever its token.
pub fn confirm(_parameters: &Parameters) -> (s: StatusCode)
    ensures
        s.code == 200,
{
    StatusCode::ok()
}

} // verus!
