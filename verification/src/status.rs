//! HTTP status codes.

use crate::outside::status_line;
use vstd::prelude::*;

verus! {

/// The status code of an HTTP response: three digits, the first of them not zero.
#[derive(Clone, Copy, Debug)]
pub struct HttpStatus {
    code: u16,
}

/// How a status code is shown: the code, a space and its reason phrase.
pub open spec fn status_text(code: u16) -> Seq<char> {
    crate::text::decimal(code as nat) + " "@ + crate::outside::reason_phrase(code)
}

/// Whether a status code reports success.
pub open spec fn success_code(code: u16) -> bool {
    200 <= code < 300
}

/// Whether a status code reports a failure that may pass: too many requests,
/// bad gateway, service unavailable, gateway timeout.
pub open spec fn transient_code(code: u16) -> bool {
    code == 429 || code == 502 || code == 503 || code == 504
}

impl HttpStatus {
    /// The status code as a number.
    pub closed spec fn code(self) -> u16 {
        self.code
    }

    #[verifier::type_invariant]
    spec fn three_digits(self) -> bool {
        100 <= self.code <= 999
    }

    /// The status with the given code, if there is one.
    pub fn from_u16(code: u16) -> (status: Option<HttpStatus>)
        ensures
            match status {
                Some(status) => 100 <= code <= 999 && status.code() == code,
                None => !(100 <= code <= 999),
            },
    {
        if 100 <= code && code <= 999 {
            Some(HttpStatus { code })
        } else {
            None
        }
    }

    /// The code.
    pub fn as_u16(self) -> (code: u16)
        ensures
            code == self.code(),
            100 <= code <= 999,
    {
        proof {
            use_type_invariant(self);
        }
        self.code
    }

    /// Whether the status reports success.
    pub fn is_success(self) -> (success: bool)
        ensures
            success == success_code(self.code()),
    {
        200 <= self.code && self.code < 300
    }

    /// The status as it is shown in messages.
    pub fn line(self) -> (line: String)
        ensures
            line@ == status_text(self.code()),
    {
        proof {
            use_type_invariant(self);
        }
        status_line(self.code)
    }
}

/// Whether an HTTP status is transient, that is worth retrying.
pub fn is_transient(status: HttpStatus) -> (transient: bool)
    ensures
        transient == transient_code(status.code()),
{
    let code: u16 = status.as_u16();
    code == 429 || code == 503 || code == 504 || code == 502
}

/// A successful status is never transient.
pub proof fn success_is_not_transient(code: u16)
    ensures
        !(success_code(code) && transient_code(code)),
{
}

} // verus!
