//! The redemption: what is posted with the saved session, and how the
//! portal's answer is judged.

use crate::portal::NO_INPUT;
use crate::record::AuthData;
use vstd::prelude::*;
use vstd::string::*;

verus! {

/// Whether `c` may stand in a header value: anything from the space on but
/// the delete character, and the tab.
pub open spec fn header_char(c: char) -> bool {
    (' ' <= c && c != '\x7f') || c == '\t'
}

/// Whether `s` can be sent as a header value.
pub open spec fn header_text(s: Seq<char>) -> bool {
    forall|i: int| 0 <= i < s.len() ==> header_char(#[trigger] s[i])
}

/// Asks `reqwest::header::HeaderValue::from_str` (the `http` crate's type)
/// whether it takes `s`. Trusted: it does exactly when every byte of `s` is
/// 32 or more and not 127, or is 9; a character beyond ASCII is written in
/// bytes of 128 and more, so it is taken.
#[verifier::external_body]
fn header_value_takes(s: &str) -> (r: bool)
    ensures
        r == header_text(s@),
{
    reqwest::header::HeaderValue::from_str(s).is_ok()
}

/// The text that `reqwest::StatusCode` (the `http` crate's type) of number
/// `code` displays as.
pub uninterp spec fn status_display(code: u16) -> Seq<char>;

/// The character of the decimal digit `d`.
pub open spec fn digit(d: int) -> char {
    ((48 + d) as u8) as char
}

/// The three digits of a status code and the space after them.
pub open spec fn status_digits(code: u16) -> Seq<char> {
    seq![digit(code as int / 100), digit(code as int / 10 % 10), digit(code as int % 10), ' ']
}

/// Whether `s` begins with `head`.
pub open spec fn begins_with(s: Seq<char>, head: Seq<char>) -> bool {
    head.len() <= s.len() && s.subrange(0, head.len() as int) == head
}

/// Makes a status with `reqwest::StatusCode::from_u16` and displays it with
/// `to_string`. Trusted: a code is taken exactly when it is from 100 to 999;
/// its text then depends on the code alone, and is the number in decimal, a
/// space and the words for it.
#[verifier::external_body]
fn status_text(code: u16) -> (r: Option<String>)
    ensures
        r is Some <==> 100 <= code <= 999,
        r matches Some(t) ==> t@ == status_display(code) && begins_with(t@, status_digits(code)),
{
    match reqwest::StatusCode::from_u16(code) {
        Ok(status) => Some(status.to_string()),
        Err(_) => None,
    }
}

/// What a redemption posts.
#[derive(Clone, Debug)]
pub struct RedeemRequest {
    /// The `Cookie` header value to replay.
    pub cookies: String,
    /// The form field `name`.
    pub name: String,
    /// The form field `input`.
    pub input: String,
}

/// A `RedeemRequest` as three texts.
pub ghost struct RedeemRequestView {
    pub cookies: Seq<char>,
    pub name: Seq<char>,
    pub input: Seq<char>,
}

impl View for RedeemRequest {
    type V = RedeemRequestView;

    open spec fn view(&self) -> RedeemRequestView {
        RedeemRequestView { cookies: self.cookies@, name: self.name@, input: self.input@ }
    }
}

/// The input that goes out for what the user gave.
pub open spec fn input_or_default(input: Option<Seq<char>>) -> Seq<char> {
    match input {
        Some(v) => v,
        None => NO_INPUT@,
    }
}

/// The form's `input` field: what the user gave, else the word `undefined`.
pub fn form_input(input: Option<String>) -> (r: String)
    ensures
        r@ == input_or_default(
            match input {
                Some(v) => Some(v@),
                None => None,
            },
        ),
{
    match input {
        Some(v) => v,
        None => NO_INPUT.to_owned(),
    }
}

/// The request that redeems `name` with the session of `record`: nothing
/// where the saved cookies cannot be sent as a header value; else exactly
/// the saved cookies, the name, and the input or its default.
pub fn redeem_request(record: &AuthData, name: String, input: Option<String>) -> (r: Option<
    RedeemRequest,
>)
    ensures
        r is Some <==> header_text(record.cookies@),
        r matches Some(request) ==> request@ == (RedeemRequestView {
            cookies: record.cookies@,
            name: name@,
            input: input_or_default(
                match input {
                    Some(v) => Some(v@),
                    None => None,
                },
            ),
        }),
{
    if header_value_takes(record.cookies.as_str()) {
        Some(RedeemRequest { cookies: record.cookies.clone(), name, input: form_input(input) })
    } else {
        None
    }
}

/// Whether a status code tells success: the codes from 200 to 299.
pub open spec fn is_success(status: u16) -> bool {
    200 <= status < 300
}

/// A redemption that the portal refused, with the status of its answer.
#[derive(Clone, Copy, Debug, PartialEq, Eq, Structural)]
pub struct RedeemError {
    pub status: u16,
}

/// The error text for a status that displays as `status`.
pub open spec fn failure_text(status: Seq<char>) -> Seq<char> {
    "Failed to redeem: "@ + status
}

/// The error text for a status that displays as `status`.
pub fn failure_message(status: &str) -> (r: String)
    ensures
        r@ == failure_text(status@),
{
    let mut r = "Failed to redeem: ".to_owned();
    r.append(status);
    r
}

impl RedeemError {
    /// Whether the status is a three-digit code, as every answer's is.
    pub open spec fn well_formed(&self) -> bool {
        100 <= self.status <= 999
    }

    /// The error as shown to the user: the fixed words, then the status as
    /// it displays, which begins with its number.
    pub fn message(&self) -> (r: String)
        requires
            self.well_formed(),
        ensures
            r@ == failure_text(status_display(self.status)),
            begins_with(r@, failure_text(status_digits(self.status))),
    {
        match status_text(self.status) {
            Some(t) => {
                let r = failure_message(t.as_str());
                proof {
                    let head = failure_text(status_digits(self.status));
                    assert(t@.subrange(0, 4) == status_digits(self.status));
                    assert(r@.subrange(0, head.len() as int) =~= head);
                }
                r
            },
            None => String::new(),
        }
    }
}

/// Judges the portal's answer by its status alone: success for 200 to 299,
/// for any other an error that carries the status.
pub fn redeem_outcome(status: u16) -> (r: Result<(), RedeemError>)
    ensures
        is_success(status) <==> r is Ok,
        r matches Err(e) ==> e.status == status,
{
    if 200 <= status && status < 300 {
        Ok(())
    } else {
        Err(RedeemError { status })
    }
}

} // verus!
