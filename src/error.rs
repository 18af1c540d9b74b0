use vstd::prelude::*;

verus! {

/// Every failure that a call through this library can end in.
#[derive(Debug, Clone, PartialEq, Eq)]
pub enum ClientError {
    /// An identifier or slug holds a character outside the allowed set, is
    /// empty, or is too long. Carries the offending text.
    InvalidIdentifier(String),
    /// The transport failed before a response came back.
    TransportError(String),
    /// The service answered with a status outside the success range.
    ApiError { status: u16, reason: String },
    /// A success response whose body did not decode into the expected shape.
    DecodeError { body: String, problem: String },
    /// An outgoing value could not be encoded.
    SerializationError,
    /// The configured endpoint is not a URL that paths can be appended to.
    /// Carries the endpoint.
    InvalidEndpoint(String),
}

impl ClientError {
    /// This error reports that the identifier `id` was refused.
    pub open spec fn rejects_id(self, id: Seq<char>) -> bool {
        match self {
            ClientError::InvalidIdentifier(t) => t@ == id,
            _ => false,
        }
    }

    /// This error reports the transport failure `message`.
    pub open spec fn is_transport(self, message: Seq<char>) -> bool {
        match self {
            ClientError::TransportError(t) => t@ == message,
            _ => false,
        }
    }

    /// This error reports that the endpoint `endpoint` takes no path.
    pub open spec fn names_endpoint(self, endpoint: Seq<char>) -> bool {
        match self {
            ClientError::InvalidEndpoint(t) => t@ == endpoint,
            _ => false,
        }
    }
}

} // verus!
