//! HTTP status codes as plain numbers.

use axum::http::StatusCode;
use vstd::prelude::*;

verus! {

/// The text that `StatusCode`'s `Display` writes for the code `code`: the
/// number, a space, and the reason phrase that the `http` crate's table gives.
pub uninterp spec fn status_text(code: u16) -> Seq<char>;

/// A status code that an HTTP response can carry: a number from 100 to 999.
#[derive(Clone, Copy, Debug, PartialEq, Eq, Structural)]
pub struct Status {
    code: u16,
}

impl Status {
    /// The range of numbers that are status codes.
    pub open spec fn in_range(code: u16) -> bool {
        100 <= code <= 999
    }

    #[verifier::type_invariant]
    spec fn valid(&self) -> bool {
        Self::in_range(self.code)
    }

    /// The number of this status.
    pub closed spec fn code(&self) -> u16 {
        self.code
    }

    /// The status with the number `code`, where there is one.
    pub fn from_u16(code: u16) -> (status: Option<Status>)
        ensures
            status is Some <==> Self::in_range(code),
            status matches Some(s) ==> s.code() == code,
    {
        if 100 <= code && code <= 999 {
            Some(Status { code })
        } else {
            None
        }
    }

    /// The number of this status. Every status that a program holds bears a
    /// number from 100 to 999.
    pub fn as_u16(&self) -> (code: u16)
        ensures
            code == self.code(),
            Self::in_range(code),
    {
        proof {
            use_type_invariant(self);
        }
        self.code
    }

    /// The status 200, which accompanies a served payload.
    pub closed spec fn spec_ok() -> Status {
        Status { code: 200 }
    }

    /// The status 200, which accompanies a served payload.
    #[verifier::when_used_as_spec(spec_ok)]
    pub fn ok() -> (status: Status)
        ensures
            status == Self::spec_ok(),
            status.code() == 200,
    {
        Status { code: 200 }
    }

    /// The status 200 bears the number 200.
    pub proof fn lemma_ok()
        ensures
            Self::spec_ok().code() == 200,
    {
    }

    /// A status is its number: two statuses with one number are the same.
    pub proof fn lemma_same_code(self, other: Status)
        requires
            self.code() == other.code(),
        ensures
            self == other,
    {
    }

    /// The status 500, for a failure on this side.
    pub fn internal_server_error() -> (status: Status)
        ensures
            status.code() == 500,
    {
        Status { code: 500 }
    }

    /// The status 502, for an upstream that could not be reached.
    pub fn bad_gateway() -> (status: Status)
        ensures
            status.code() == 502,
    {
        Status { code: 502 }
    }

    /// Whether this status reports success: a number from 200 to 299.
    pub open spec fn spec_is_success(&self) -> bool {
        200 <= self.code() <= 299
    }

    /// Whether this status reports success.
    #[verifier::when_used_as_spec(spec_is_success)]
    pub fn is_success(&self) -> (yes: bool)
        ensures
            yes == self.spec_is_success(),
    {
        200 <= self.code && self.code <= 299
    }

    /// The status line text of this status, as `StatusCode` displays it.
    pub fn text(&self) -> (text: String)
        ensures
            text@ == status_text(self.code()),
    {
        proof {
            use_type_invariant(self);
        }
        display_status(self.code)
    }
}

/// Calls `StatusCode::from_u16` and then the `Display` of the `StatusCode`
/// that it gives. The contract claims that the text is a function of the
/// number alone; `requires` keeps to the numbers that `from_u16` accepts.
#[verifier::external_body]
fn display_status(code: u16) -> (text: String)
    requires
        100 <= code <= 999,
    ensures
        text@ == status_text(code),
{
    match StatusCode::from_u16(code) {
        Ok(status) => status.to_string(),
        Err(_) => String::new(),
    }
}

} // verus!
