use vstd::prelude::*;
use crate::error::RequestError;

verus! {

/// The path by which an operation reached the adaptor.
#[derive(Clone, Copy, Debug, PartialEq, Eq, Structural)]
pub enum Transport {
    /// The body was one JSON operation.
    Json,
    /// The body was a multipart upload.
    Multipart,
}

/// What the engine made of an operation descriptor.
#[derive(Clone, Copy, Debug, PartialEq, Eq, Structural)]
pub enum BuildOutcome {
    /// The engine built an operation; `upload_capable` says whether the
    /// operation declares a variable that takes an upload.
    Built { upload_capable: bool },
    /// The engine refused the descriptor: the document is not valid.
    Refused,
}

/// What to do with an operation before it is executed.
#[derive(Clone, Copy, Debug, PartialEq, Eq, Structural)]
pub enum Adaptation {
    /// Render the engine's refusal as a result: it is no fault of the
    /// request.
    RenderRefusal,
    /// Fail the request: a multipart body came for an operation that takes
    /// no upload.
    RejectNotAnUpload,
    /// Apply the customization hook once, if `apply_hook` says so, attach the
    /// decoded files, and execute.
    Execute { apply_hook: bool },
}

/// The adaptation of an operation: a refusal of the engine is rendered; a
/// multipart request must have an upload-capable operation; everything else
/// is executed, after the hook where there is one.
pub open spec fn adaptation(transport: Transport, outcome: BuildOutcome, has_hook: bool) -> Adaptation {
    match outcome {
        BuildOutcome::Refused => Adaptation::RenderRefusal,
        BuildOutcome::Built { upload_capable } => if transport == Transport::Multipart
            && !upload_capable {
            Adaptation::RejectNotAnUpload
        } else {
            Adaptation::Execute { apply_hook: has_hook }
        },
    }
}

/// Decides what to do with an operation before it is executed.
pub fn adapt(transport: Transport, outcome: BuildOutcome, has_hook: bool) -> (decision: Adaptation)
    ensures
        decision == adaptation(transport, outcome, has_hook),
{
    match outcome {
        BuildOutcome::Refused => Adaptation::RenderRefusal,
        BuildOutcome::Built { upload_capable } => {
            match transport {
                Transport::Multipart => {
                    if upload_capable {
                        Adaptation::Execute { apply_hook: has_hook }
                    } else {
                        Adaptation::RejectNotAnUpload
                    }
                },
                Transport::Json => Adaptation::Execute { apply_hook: has_hook },
            }
        },
    }
}

impl Adaptation {
    /// The error that fails the request, where the adaptation is a rejection.
    pub fn error(self) -> (error: Option<RequestError>)
        ensures
            match self {
                Adaptation::RejectNotAnUpload => error == Some(RequestError::NotAnUpload),
                _ => error is None,
            },
    {
        match self {
            Adaptation::RejectNotAnUpload => Some(RequestError::NotAnUpload),
            _ => None,
        }
    }
}

} // verus!
