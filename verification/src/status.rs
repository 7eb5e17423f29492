//! The HTTP statuses with which the service refuses a request.

use vstd::prelude::*;

verus! {

/// Why a request is refused.
#[derive(Debug, Clone, Copy, PartialEq, Eq, Structural)]
pub enum Status {
    BadRequest,
    NotFound,
    PayloadTooLarge,
    InternalServerError,
}

impl Status {
    /// The HTTP status code.
    pub fn code(&self) -> (code: u16)
        ensures
            code == match *self {
                Status::BadRequest => 400,
                Status::NotFound => 404,
                Status::PayloadTooLarge => 413,
                Status::InternalServerError => 500u16,
            },
    {
        match self {
            Status::BadRequest => 400,
            Status::NotFound => 404,
            Status::PayloadTooLarge => 413,
            Status::InternalServerError => 500,
        }
    }
}

} // verus!
