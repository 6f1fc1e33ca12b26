//! The fixed credentials that the server accepts.

use vstd::prelude::*;

verus! {

/// A checker that knows one user, `user`, whose password is `user`.
#[derive(Debug, Clone, Copy)]
pub struct DummyCredential;

impl DummyCredential {
    /// The one user name that is accepted.
    pub fn username(&self) -> (name: String)
        ensures
            name@ == "user"@,
    {
        "user".to_owned()
    }

    /// The password of that user.
    pub fn password(&self) -> (password: String)
        ensures
            password@ == "user"@,
    {
        "user".to_owned()
    }

    /// Whether these are the credentials of the one user.
    pub fn check(&self, username: &str, password: &str) -> (accepted: bool)
        ensures
            accepted == (username@ == "user"@ && password@ == "user"@),
    {
        let expected = "user".to_owned();
        username.to_owned() == expected && password.to_owned() == expected
    }
}

} // verus!
