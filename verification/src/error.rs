use vstd::prelude::*;
use crate::status::Status;

verus! {

/// The two named parts that open a multipart upload, in the order in which
/// they must arrive.
#[derive(Clone, Copy, Debug, PartialEq, Eq, Structural)]
pub enum LeadingPart {
    /// The part named `operations`: the operation descriptor as JSON.
    Operations,
    /// The part named `map`: the upload map as JSON.
    FileMap,
}

impl LeadingPart {
    /// The disposition name that the part must carry.
    pub open spec fn spec_name(self) -> Seq<char> {
        match self {
            LeadingPart::Operations => "operations"@,
            LeadingPart::FileMap => "map"@,
        }
    }

    /// The disposition name that the part must carry.
    pub fn name(self) -> (name: &'static str)
        ensures
            name@ == self.spec_name(),
    {
        match self {
            LeadingPart::Operations => "operations",
            LeadingPart::FileMap => "map",
        }
    }
}

/// The ways in which a request fails before it reaches the engine, without
/// what only the running program knows of a failure. Every one of them is the
/// client's fault.
#[derive(Clone, Copy, Debug, PartialEq, Eq, Structural)]
pub enum FailureKind {
    /// A part lacks its content disposition or, for a file, its name or its
    /// file name; or the body ended where a leading part was due.
    MalformedField,
    /// A leading part carries no name.
    MissingName(LeadingPart),
    /// A leading part carries another name than the one due at its place.
    ExpectedField(LeadingPart),
    /// A file part whose name the upload map does not list.
    UnexpectedField,
    /// The `operations` or `map` part is not the JSON it should be.
    ParseError,
    /// A file exceeds the size limit, or the files exceed the count limit.
    PayloadTooLarge,
    /// The body ended while the upload map still listed files.
    IncompleteUpload,
    /// A multipart request whose operation takes no upload.
    NotAnUpload,
}

impl FailureKind {
    /// The status that answers the failure: 413 for a limit, 400 otherwise.
    pub open spec fn spec_status(self) -> Status {
        match self {
            FailureKind::PayloadTooLarge => Status::PayloadTooLarge,
            _ => Status::BadRequest,
        }
    }

    /// The status that answers the failure: 413 for a limit, 400 otherwise.
    #[verifier::when_used_as_spec(spec_status)]
    pub fn status(self) -> (status: Status)
        ensures
            status == self.spec_status(),
    {
        match self {
            FailureKind::PayloadTooLarge => Status::PayloadTooLarge,
            _ => Status::BadRequest,
        }
    }

    /// The text that answers the failure, for every failure but a parse
    /// error, whose text is the parser's own.
    pub open spec fn fixed_message(self) -> Seq<char> {
        match self {
            FailureKind::MalformedField => "bad request"@,
            FailureKind::MissingName(LeadingPart::Operations) => "missing \"operations\""@,
            FailureKind::MissingName(LeadingPart::FileMap) => "missing \"map\""@,
            FailureKind::ExpectedField(LeadingPart::Operations) => "expect \"operations\""@,
            FailureKind::ExpectedField(LeadingPart::FileMap) => "expect \"map\""@,
            FailureKind::UnexpectedField => "bad request"@,
            FailureKind::ParseError => "bad request"@,
            FailureKind::PayloadTooLarge => "payload too large"@,
            FailureKind::IncompleteUpload => "missing files"@,
            FailureKind::NotAnUpload => "It's not an upload operation"@,
        }
    }
}

/// A failure of a request as a plain value: its kind and, for a parse error,
/// the message of the parser.
pub ghost enum Failure {
    MalformedField,
    MissingName(LeadingPart),
    ExpectedField(LeadingPart),
    UnexpectedField,
    /// Carries the parser's message.
    ParseError(Seq<char>),
    PayloadTooLarge,
    IncompleteUpload,
    NotAnUpload,
}

impl Failure {
    /// Which failure this is.
    pub open spec fn kind(self) -> FailureKind {
        match self {
            Failure::MalformedField => FailureKind::MalformedField,
            Failure::MissingName(part) => FailureKind::MissingName(part),
            Failure::ExpectedField(part) => FailureKind::ExpectedField(part),
            Failure::UnexpectedField => FailureKind::UnexpectedField,
            Failure::ParseError(_) => FailureKind::ParseError,
            Failure::PayloadTooLarge => FailureKind::PayloadTooLarge,
            Failure::IncompleteUpload => FailureKind::IncompleteUpload,
            Failure::NotAnUpload => FailureKind::NotAnUpload,
        }
    }

    /// The status that answers the failure: 413 for a limit, 400 otherwise.
    pub open spec fn spec_status(self) -> Status {
        self.kind().spec_status()
    }

    /// The text that answers the failure: the parser's message for a parse
    /// error, a fixed text for every other failure.
    pub open spec fn message(self) -> Seq<char> {
        match self {
            Failure::ParseError(detail) => detail,
            _ => self.kind().fixed_message(),
        }
    }
}

/// A failure of a request, as the running program holds it.
#[derive(Debug, PartialEq, Eq)]
pub enum RequestError {
    /// See [`FailureKind::MalformedField`].
    MalformedField,
    /// See [`FailureKind::MissingName`].
    MissingName(LeadingPart),
    /// See [`FailureKind::ExpectedField`].
    ExpectedField(LeadingPart),
    /// See [`FailureKind::UnexpectedField`].
    UnexpectedField,
    /// See [`FailureKind::ParseError`]. Carries the parser's message.
    ParseError(String),
    /// See [`FailureKind::PayloadTooLarge`].
    PayloadTooLarge,
    /// See [`FailureKind::IncompleteUpload`].
    IncompleteUpload,
    /// See [`FailureKind::NotAnUpload`].
    NotAnUpload,
}

impl View for RequestError {
    type V = Failure;

    open spec fn view(&self) -> Failure {
        match self {
            RequestError::MalformedField => Failure::MalformedField,
            RequestError::MissingName(part) => Failure::MissingName(*part),
            RequestError::ExpectedField(part) => Failure::ExpectedField(*part),
            RequestError::UnexpectedField => Failure::UnexpectedField,
            RequestError::ParseError(detail) => Failure::ParseError(detail@),
            RequestError::PayloadTooLarge => Failure::PayloadTooLarge,
            RequestError::IncompleteUpload => Failure::IncompleteUpload,
            RequestError::NotAnUpload => Failure::NotAnUpload,
        }
    }
}

impl RequestError {
    /// Which failure this is.
    pub fn kind(&self) -> (kind: FailureKind)
        ensures
            kind == self@.kind(),
    {
        match self {
            RequestError::MalformedField => FailureKind::MalformedField,
            RequestError::MissingName(part) => FailureKind::MissingName(*part),
            RequestError::ExpectedField(part) => FailureKind::ExpectedField(*part),
            RequestError::UnexpectedField => FailureKind::UnexpectedField,
            RequestError::ParseError(_) => FailureKind::ParseError,
            RequestError::PayloadTooLarge => FailureKind::PayloadTooLarge,
            RequestError::IncompleteUpload => FailureKind::IncompleteUpload,
            RequestError::NotAnUpload => FailureKind::NotAnUpload,
        }
    }

    /// The status that answers the error.
    pub fn status(&self) -> (status: Status)
        ensures
            status == self@.spec_status(),
    {
        self.kind().status()
    }

    /// The text that answers the error: the parser's message for a parse
    /// error, a fixed text for every other failure.
    pub fn message(&self) -> (message: String)
        ensures
            message@ == self@.message(),
    {
        match self {
            RequestError::MalformedField => "bad request".to_string(),
            RequestError::MissingName(LeadingPart::Operations) => "missing \"operations\"".to_string(),
            RequestError::MissingName(LeadingPart::FileMap) => "missing \"map\"".to_string(),
            RequestError::ExpectedField(LeadingPart::Operations) => "expect \"operations\"".to_string(),
            RequestError::ExpectedField(LeadingPart::FileMap) => "expect \"map\"".to_string(),
            RequestError::UnexpectedField => "bad request".to_string(),
            RequestError::ParseError(detail) => detail.clone(),
            RequestError::PayloadTooLarge => "payload too large".to_string(),
            RequestError::IncompleteUpload => "missing files".to_string(),
            RequestError::NotAnUpload => "It's not an upload operation".to_string(),
        }
    }
}

} // verus!
