//! The liveness probe.
use vstd::prelude::*;
use crate::http::StatusCode;

verus! {

/// Answers `200 OK` while the service is running and reachable.
pub fn health_check() -> (s: StatusCode)
    ensures
        s.code == 200,
        s.spec_is_success(),
{
    StatusCode::ok()
}

} // verus!
