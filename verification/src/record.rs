//! The credential record that a login leaves behind for later redemptions.

use vstd::prelude::*;

verus! {

/// What a successful login stores: the name and password as entered, and the
/// `Cookie` header value that the portal's session goes by.
#[derive(Clone, Debug)]
pub struct AuthData {
    pub username: String,
    pub password: String,
    pub cookies: String,
}

/// An `AuthData` as three texts.
pub ghost struct AuthDataView {
    pub username: Seq<char>,
    pub password: Seq<char>,
    pub cookies: Seq<char>,
}

impl View for AuthData {
    type V = AuthDataView;

    open spec fn view(&self) -> AuthDataView {
        AuthDataView { username: self.username@, password: self.password@, cookies: self.cookies@ }
    }
}

impl AuthData {
    /// A record of the three texts given.
    pub fn new(username: String, password: String, cookies: String) -> (r: AuthData)
        ensures
            r@ == (AuthDataView { username: username@, password: password@, cookies: cookies@ }),
    {
        AuthData { username, password, cookies }
    }
}

} // verus!
