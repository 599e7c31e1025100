//! Failure modes of link generation and envelope construction. Every variant
//! reports an internal defect, never a client-caused condition; the variants
//! exist to keep a descriptive message for diagnostics.

use vstd::prelude::*;

verus! {

/// What can go wrong while shaping a response. None of these is recoverable
/// where it occurs; the surrounding transport layer maps each of them to its
/// internal-server-error response.
#[derive(Debug, Clone)]
pub enum HateoasError {
    /// A page URL could not be produced, e.g. from a malformed base template.
    UrlGenerationError(String),
    /// An envelope was asked to link or serialize data that violates an
    /// implicit precondition.
    InvalidResource(String),
    /// The payload could not be converted to the wire format.
    SerializationError(String),
}

impl HateoasError {
    /// The human-readable description of the error: the variant's prefix
    /// followed by the message it was raised with.
    pub fn message(&self) -> (r: String)
        ensures
            match self {
                HateoasError::UrlGenerationError(m) => r@ == "Failed to generate URL: "@ + m@,
                HateoasError::InvalidResource(m) => r@ == "Invalid resource state: "@ + m@,
                HateoasError::SerializationError(m) => r@ == "Serialization error: "@ + m@,
            },
    {
        match self {
            HateoasError::UrlGenerationError(m) => String::from_str(
                "Failed to generate URL: ",
            ).concat(m.as_str()),
            HateoasError::InvalidResource(m) => String::from_str(
                "Invalid resource state: ",
            ).concat(m.as_str()),
            HateoasError::SerializationError(m) => String::from_str(
                "Serialization error: ",
            ).concat(m.as_str()),
        }
    }

    /// The message under which the surrounding application reports the error
    /// as an internal server error.
    pub fn internal_message(&self) -> (r: String)
        ensures
            match self {
                HateoasError::UrlGenerationError(m) => r@ == "HATEOAS URL Error: "@ + m@,
                HateoasError::InvalidResource(m) => r@ == "HATEOAS Resource Error: "@ + m@,
                HateoasError::SerializationError(m) => r@ == "HATEOAS Serialization Error: "@ + m@,
            },
    {
        match self {
            HateoasError::UrlGenerationError(m) => String::from_str(
                "HATEOAS URL Error: ",
            ).concat(m.as_str()),
            HateoasError::InvalidResource(m) => String::from_str(
                "HATEOAS Resource Error: ",
            ).concat(m.as_str()),
            HateoasError::SerializationError(m) => String::from_str(
                "HATEOAS Serialization Error: ",
            ).concat(m.as_str()),
        }
    }
}

} // verus!
