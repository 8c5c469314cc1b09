use vstd::prelude::*;

verus! {

/// An HTTP status code, held as its numeric value.
///
/// Only codes from the standard reason-phrase-bearing range, 100 through
/// 599, can be constructed, so every value of this type is a status a
/// response may legally carry.
#[derive(Clone, Copy, PartialEq, Eq, Structural, Debug)]
pub struct StatusCode {
    code: u16,
}

impl View for StatusCode {
    type V = u16;

    closed spec fn view(&self) -> u16 {
        self.code
    }
}

impl StatusCode {
    #[verifier::type_invariant]
    spec fn in_standard_range(self) -> bool {
        100 <= self.code <= 599
    }

    /// Builds a status code from its numeric value; values outside
    /// 100..=599 are rejected.
    pub fn new(code: u16) -> (r: Option<StatusCode>)
        ensures
            r is Some <==> 100 <= code <= 599,
            r matches Some(s) ==> s@ == code,
    {
        if 100 <= code && code <= 599 {
            Some(StatusCode { code })
        } else {
            None
        }
    }

    /// The numeric value of the status.
    pub fn as_u16(&self) -> (r: u16)
        ensures
            r == self@,
            100 <= r <= 599,
    {
        proof {
            use_type_invariant(self);
        }
        self.code
    }

    /// Status 500, Internal Server Error.
    pub fn internal_server_error() -> (r: StatusCode)
        ensures
            r@ == 500,
    {
        StatusCode { code: 500 }
    }
}

} // verus!
