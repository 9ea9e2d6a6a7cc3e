//! The ways a request is turned down, and the HTTP status of each.
use vstd::prelude::*;

verus! {

/// Why a request is refused.
#[derive(PartialEq, Eq, Structural, Clone, Copy, Debug)]
pub enum Rejection {
    BadRequest,
    Unauthorized,
    PaymentRequired,
    Forbidden,
    NotFound,
    Conflict,
    Gone,
    PayloadTooLarge,
    TooManyRequests,
    Internal,
    BadGateway,
    Unavailable,
}

/// The HTTP status code of a refusal.
pub open spec fn spec_status(r: Rejection) -> u16 {
    match r {
        Rejection::BadRequest => 400,
        Rejection::Unauthorized => 401,
        Rejection::PaymentRequired => 402,
        Rejection::Forbidden => 403,
        Rejection::NotFound => 404,
        Rejection::Conflict => 409,
        Rejection::Gone => 410,
        Rejection::PayloadTooLarge => 413,
        Rejection::TooManyRequests => 429,
        Rejection::Internal => 500,
        Rejection::BadGateway => 502,
        Rejection::Unavailable => 503,
    }
}

impl Rejection {
    /// The HTTP status code the request is answered with.
    pub fn status_code(&self) -> (r: u16)
        ensures
            r == spec_status(*self),
    {
        match self {
            Rejection::BadRequest => 400,
            Rejection::Unauthorized => 401,
            Rejection::PaymentRequired => 402,
            Rejection::Forbidden => 403,
            Rejection::NotFound => 404,
            Rejection::Conflict => 409,
            Rejection::Gone => 410,
            Rejection::PayloadTooLarge => 413,
            Rejection::TooManyRequests => 429,
            Rejection::Internal => 500,
            Rejection::BadGateway => 502,
            Rejection::Unavailable => 503,
        }
    }
}

} // verus!
