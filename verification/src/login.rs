//! The login: what is asked of the portal, and what its answer leaves.

use crate::portal::TARGET_URL;
use crate::record::{AuthData, AuthDataView};
use crate::text::{trim, trimmed};
use vstd::prelude::*;
use vstd::string::*;

verus! {

/// The body of the login post.
#[derive(Clone, Debug)]
pub struct LoginRequest {
    pub username: String,
    pub password: String,
    pub target_url: String,
}

/// A `LoginRequest` as three texts.
pub ghost struct LoginRequestView {
    pub username: Seq<char>,
    pub password: Seq<char>,
    pub target_url: Seq<char>,
}

impl View for LoginRequest {
    type V = LoginRequestView;

    open spec fn view(&self) -> LoginRequestView {
        LoginRequestView {
            username: self.username@,
            password: self.password@,
            target_url: self.target_url@,
        }
    }
}

/// Why a login left no record.
#[derive(Clone, Copy, Debug, PartialEq, Eq, Structural)]
pub enum LoginError {
    /// The portal answered without setting a cookie.
    NoCookies,
}

impl LoginError {
    /// The error as shown to the user.
    pub fn message(&self) -> (r: String)
        ensures
            r@ == "Failed to get cookies from response"@,
    {
        "Failed to get cookies from response".to_owned()
    }
}

/// The request for the two lines that the user typed: each without the white
/// space around it, and the page to be sent on to.
pub fn login_request(username_line: &str, password_line: &str) -> (r: LoginRequest)
    ensures
        r@ == (LoginRequestView {
            username: trimmed(username_line@),
            password: trimmed(password_line@),
            target_url: TARGET_URL@,
        }),
{
    LoginRequest {
        username: trim(username_line),
        password: trim(password_line),
        target_url: TARGET_URL.to_owned(),
    }
}

/// What a login leaves, given the cookies that the portal's answer set for
/// the page it ended on: without cookies an error and no record; with them
/// the record of the name and password sent and of exactly those cookies.
pub fn login_outcome(request: &LoginRequest, cookies: Option<String>) -> (r: Result<
    AuthData,
    LoginError,
>)
    ensures
        cookies is None ==> r == Err::<AuthData, LoginError>(LoginError::NoCookies),
        cookies matches Some(c) ==> (r matches Ok(record) && record@ == (AuthDataView {
            username: request.username@,
            password: request.password@,
            cookies: c@,
        })),
{
    match cookies {
        None => Err(LoginError::NoCookies),
        Some(c) => Ok(AuthData::new(request.username.clone(), request.password.clone(), c)),
    }
}

} // verus!
