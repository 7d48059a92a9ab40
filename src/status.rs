//! HTTP status codes.

use vstd::prelude::*;

use crate::text::{decimal, push_char, push_decimal};

verus! {

/// The registered reason phrase of a status code, if it has one.
pub uninterp spec fn reason_phrase(code: u16) -> Option<Seq<char>>;

/// Relies on `http::StatusCode::canonical_reason` (reached through reqwest's
/// re-export): the phrase is looked up from the code alone.
#[verifier::external_body]
fn registered_reason(code: u16) -> (r: Option<&'static str>)
    ensures
        match r {
            Some(p) => reason_phrase(code) == Some(p@),
            None => reason_phrase(code) is None,
        },
{
    match reqwest::StatusCode::from_u16(code) {
        Ok(status) => status.canonical_reason(),
        Err(_) => None,
    }
}

/// How a status is written for people: its number, a space, and its reason
/// phrase (or a marker where the code has none).
pub open spec fn status_text(code: u16) -> Seq<char> {
    decimal(code as nat) + seq![' '] + match reason_phrase(code) {
        Some(p) => p,
        None => "<unknown status code>"@,
    }
}

/// Whether a status code is in the success range, 200 through 299.
pub open spec fn is_success_code(code: u16) -> bool {
    200 <= code < 300
}

/// An HTTP status code: a number from 100 through 999.
#[derive(Clone, Copy, Debug, PartialEq, Eq, Structural, Hash)]
pub struct StatusCode {
    code: u16,
}

impl View for StatusCode {
    type V = u16;

    closed spec fn view(&self) -> u16 {
        self.code
    }
}

impl StatusCode {
    #[verifier::type_invariant]
    spec fn well_formed(self) -> bool {
        100 <= self.code <= 999
    }

    /// The status with this code; `None` outside 100 through 999.
    pub fn from_u16(code: u16) -> (r: Option<StatusCode>)
        ensures
            r is Some <==> 100 <= code <= 999,
            r matches Some(s) ==> s@ == code,
    {
        if 100 <= code && code <= 999 {
            Some(StatusCode { code })
        } else {
            None
        }
    }

    /// The numeric code.
    pub fn as_u16(&self) -> (r: u16)
        ensures
            r == self@,
            100 <= r <= 999,
    {
        proof {
            use_type_invariant(self);
        }
        self.code
    }

    /// Whether the status is in the success range (2xx).
    pub fn is_success(&self) -> (r: bool)
        ensures
            r == is_success_code(self@),
    {
        200 <= self.code && self.code < 300
    }

    /// The registered reason phrase, such as "Not Found" for 404.
    pub fn canonical_reason(&self) -> (r: Option<&'static str>)
        ensures
            match r {
                Some(p) => reason_phrase(self@) == Some(p@),
                None => reason_phrase(self@) is None,
            },
    {
        registered_reason(self.code)
    }

    /// The status as people read it, such as "404 Not Found".
    pub fn to_string(&self) -> (r: String)
        ensures
            r@ == status_text(self@),
    {
        let mut out = String::new();
        push_decimal(&mut out, self.code as u64);
        push_char(&mut out, ' ');
        match registered_reason(self.code) {
            Some(p) => out.append(p),
            None => out.append("<unknown status code>"),
        }
        assert(out@ =~= status_text(self@));
        out
    }
}

/// Two statuses with the same code are the same status.
pub proof fn status_eq_by_code(a: StatusCode, b: StatusCode)
    ensures
        a@ == b@ ==> a == b,
{
}

} // verus!
