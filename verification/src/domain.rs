//! The subscriber data that the service accepts.
use vstd::prelude::*;

verus! {

/// A subscriber whose name and email address have passed validation.
pub struct NewSubscriber {
    pub email: String,
    pub name: String,
}

impl NewSubscriber {
    /// A new subscriber from the outcomes of validating the name and the email address, in
    /// that order: the first failure is the error; when both pass, the validated values.
    pub fn from_parsed(name: Result<String, String>, email: Result<String, String>) -> (r: Result<
        NewSubscriber,
        String,
    >)
        ensures
            name matches Err(e) ==> (r matches Err(f) && f@ == e@),
            name is Ok ==> (email matches Err(e) ==> (r matches Err(f) && f@ == e@)),
            name matches Ok(n) ==> (email matches Ok(m) ==> (r matches Ok(s) && s.name@ == n@
                && s.email@ == m@)),
    {
        let name = match name {
            Ok(n) => n,
            Err(e) => return Err(e),
        };
        let email = match email {
            Ok(m) => m,
            Err(e) => return Err(e),
        };
        Ok(NewSubscriber { email, name })
    }
}

} // verus!
