use vstd::prelude::*;

verus! {

/// The HTTP statuses this adaptor answers with.
#[derive(Clone, Copy, Debug, PartialEq, Eq, Structural)]
pub enum Status {
    /// 200: a rendered result, a documentation page.
    Success,
    /// 400: the client broke the upload convention or sent unparsable data.
    BadRequest,
    /// 405: neither an accepted `GET` nor a `POST`.
    MethodNotAllowed,
    /// 413: a file was too large, or there were too many files.
    PayloadTooLarge,
    /// 415: the content type is missing, unparsable or not supported.
    UnsupportedMediaType,
}

impl Status {
    /// The numeric code of the status.
    pub open spec fn spec_code(self) -> u16 {
        match self {
            Status::Success => 200,
            Status::BadRequest => 400,
            Status::MethodNotAllowed => 405,
            Status::PayloadTooLarge => 413,
            Status::UnsupportedMediaType => 415,
        }
    }

    /// The numeric code of the status.
    #[verifier::when_used_as_spec(spec_code)]
    pub fn code(self) -> (code: u16)
        ensures
            code == self.spec_code(),
    {
        match self {
            Status::Success => 200,
            Status::BadRequest => 400,
            Status::MethodNotAllowed => 405,
            Status::PayloadTooLarge => 413,
            Status::UnsupportedMediaType => 415,
        }
    }

    /// Whether the status reports a fault of the client (a 4xx code).
    pub open spec fn spec_is_client_error(self) -> bool {
        self != Status::Success
    }

    /// Whether the status reports a fault of the client (a 4xx code).
    #[verifier::when_used_as_spec(spec_is_client_error)]
    pub fn is_client_error(self) -> (answer: bool)
        ensures
            answer == self.spec_is_client_error(),
            answer == (400 <= self.spec_code() < 500),
    {
        match self {
            Status::Success => false,
            _ => true,
        }
    }
}

} // verus!
