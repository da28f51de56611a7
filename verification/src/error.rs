//! Failures that a Service Bus exchange can end in, and the classification of
//! HTTP status codes into them.

use vstd::prelude::*;
use vstd::std_specs::convert::FromSpecImpl;

verus! {

/// `hyper::Error`, the transport's own error type. It is carried through
/// untouched, and nothing is known of what it holds.
#[verifier::external_type_specification]
#[verifier::external_body]
pub struct ExHyperError(hyper::Error);

#[derive(Debug)]
pub enum AzureRequestError {
    /// Status code 400.
    BadRequest,
    /// Status code 401.
    AuthorizationFailure,
    /// Status code 403.
    ResourceFailure,
    /// Status code 410.
    ResourceNotFound,
    /// Status code 500.
    InternalError,
    /// Any other status code; the code is kept for diagnostics.
    UnknownError(u16),
    /// The transport failed while sending the request.
    HyperError(hyper::Error),
    /// The message does not exist on the server, so it cannot be changed there.
    LocalMessage,
    /// Nothing was available before the receive timed out.
    EmptyBus,
    /// The body of a response is not a serialized message.
    NonSerializedBody,
}

impl AzureRequestError {
    /// The human-readable description of each failure.
    pub open spec fn message_text(&self) -> Seq<char> {
        match self {
            AzureRequestError::BadRequest => "Remote returned code 400."@,
            AzureRequestError::AuthorizationFailure => "Remote returned 401. Check your connection string."@,
            AzureRequestError::ResourceFailure => "Message failed to send. The message may be too large or the queue is full."@,
            AzureRequestError::ResourceNotFound => "The requested queue does not exist or could not be found."@,
            AzureRequestError::InternalError => "Remote returned 500 - Internal server error"@,
            AzureRequestError::UnknownError(_) => "Something unexpected happened"@,
            AzureRequestError::HyperError(_) => "Hyper had an issue making a web request"@,
            AzureRequestError::LocalMessage => "The message doesn't exist on the server. This happens when you try and delete/lock a message you created locally."@,
            AzureRequestError::EmptyBus => "Service Bus Queue/Subscription didn't have any messages before receive timed out."@,
            AzureRequestError::NonSerializedBody => "Parsing the body failed. This happens if the message sender doesn't serialize the message. Call message.get_body_raw() to extract the body."@,
        }
    }

    /// Describes the failure in words.
    pub fn message(&self) -> (text: &'static str)
        ensures
            text@ == self.message_text(),
    {
        match self {
            AzureRequestError::BadRequest => "Remote returned code 400.",
            AzureRequestError::AuthorizationFailure => "Remote returned 401. Check your connection string.",
            AzureRequestError::ResourceFailure => "Message failed to send. The message may be too large or the queue is full.",
            AzureRequestError::ResourceNotFound => "The requested queue does not exist or could not be found.",
            AzureRequestError::InternalError => "Remote returned 500 - Internal server error",
            AzureRequestError::UnknownError(_) => "Something unexpected happened",
            AzureRequestError::HyperError(_) => "Hyper had an issue making a web request",
            AzureRequestError::LocalMessage => "The message doesn't exist on the server. This happens when you try and delete/lock a message you created locally.",
            AzureRequestError::EmptyBus => "Service Bus Queue/Subscription didn't have any messages before receive timed out.",
            AzureRequestError::NonSerializedBody => "Parsing the body failed. This happens if the message sender doesn't serialize the message. Call message.get_body_raw() to extract the body.",
        }
    }

    /// Whether the failure wraps an error of the transport.
    pub fn has_source(&self) -> (wrapped: bool)
        ensures
            wrapped == (*self is HyperError),
    {
        match self {
            AzureRequestError::HyperError(_) => true,
            _ => false,
        }
    }
}

impl From<hyper::Error> for AzureRequestError {
    fn from(err: hyper::Error) -> (converted: Self) {
        AzureRequestError::HyperError(err)
    }
}

impl FromSpecImpl<hyper::Error> for AzureRequestError {
    open spec fn obeys_from_spec() -> bool {
        true
    }

    open spec fn from_spec(err: hyper::Error) -> Self {
        AzureRequestError::HyperError(err)
    }
}

/// What a status code means: `Ok` for 200 and 201, a named failure for the
/// codes the service documents, `UnknownError` with the code for the rest.
pub open spec fn status_outcome(status: u16) -> Result<(), AzureRequestError> {
    if status == 200 || status == 201 {
        Ok(())
    } else if status == 400 {
        Err(AzureRequestError::BadRequest)
    } else if status == 401 {
        Err(AzureRequestError::AuthorizationFailure)
    } else if status == 403 {
        Err(AzureRequestError::ResourceFailure)
    } else if status == 410 {
        Err(AzureRequestError::ResourceNotFound)
    } else if status == 500 {
        Err(AzureRequestError::InternalError)
    } else {
        Err(AzureRequestError::UnknownError(status))
    }
}

/// Interprets the status code of a response, the same way for every operation.
pub fn interpret_results(status: u16) -> (outcome: Result<(), AzureRequestError>)
    ensures
        outcome == status_outcome(status),
{
    match status {
        401 => Err(AzureRequestError::AuthorizationFailure),
        500 => Err(AzureRequestError::InternalError),
        400 => Err(AzureRequestError::BadRequest),
        403 => Err(AzureRequestError::ResourceFailure),
        410 => Err(AzureRequestError::ResourceNotFound),
        201 => Ok(()),
        200 => Ok(()),
        e => Err(AzureRequestError::UnknownError(e)),
    }
}

/// Why a request could not be assembled.
#[derive(Debug)]
pub enum BuildError {
    /// The connection string names no endpoint.
    EndpointMissing,
    /// The endpoint, or the address built on it, is not a URI.
    InvalidUri,
    /// The text of a header holds a byte that no header value may hold.
    InvalidHeader,
    /// The request cannot be made of this message.
    Request(AzureRequestError),
}

} // verus!
