//! The fixed places the client talks to and writes to.

use vstd::prelude::*;

verus! {

/// Where the login is posted, as a JSON body.
pub const AUTH_ENDPOINT: &'static str = "https://auth.colonq.computer/api/firstfactor";

/// The page that a login asks to be sent on to.
pub const TARGET_URL: &'static str = "https://secure.colonq.computer/menu";

/// Where a redemption is posted, as a multipart form.
pub const REDEEM_ENDPOINT: &'static str = "https://secure.colonq.computer/api/redeem";

/// The origin that the saved cookies are replayed to.
pub const COOKIE_DOMAIN: &'static str = "https://secure.colonq.computer";

/// The directory under the user's home that holds the credential file.
pub const AUTH_DIR: &'static str = ".clonk";

/// The credential file's name inside `AUTH_DIR`.
pub const AUTH_FILE: &'static str = "auth";

/// The form field that carries the redemption's name.
pub const NAME_FIELD: &'static str = "name";

/// The form field that carries the redemption's input.
pub const INPUT_FIELD: &'static str = "input";

/// The input that is sent when the user gave none.
pub const NO_INPUT: &'static str = "undefined";

/// What the user is told after a login that left a record.
pub const LOGGED_IN: &'static str = "Successfully logged in.";

/// What the user is told after a redemption that the portal took.
pub const REDEEMED: &'static str = "Successfully redeemed";

} // verus!
