//! Error taxonomy of the data-access layer and its transport-facing shape.
//!
//! Store-call failures and not-found conditions surface immediately as typed
//! errors; per-record conversion failures during cursor collection never do
//! (they are absorbed into the collection accounting instead).

use vstd::prelude::*;

verus! {

/// Kinds of failure the layer reports to its caller.
#[derive(Clone, Copy, Debug, PartialEq, Eq, Structural)]
pub enum AxumErrors {
    /// The requested table or order is absent.
    NotFound,
    /// Reserved for the transport layer; currently unused here.
    SerializationError,
    /// Reserved for the transport layer; currently unused here.
    DeserializationError,
    /// The underlying store call failed unexpectedly.
    DBError,
    /// Encoding a query or write payload into a structured document failed.
    BsonSerializeError,
    /// Decoding a whole result stream failed (not a per-record drop).
    BsonDeserializeError,
}

impl AxumErrors {
    /// The variant's name, as transports spell it.
    pub open spec fn spec_name(self) -> Seq<char> {
        match self {
            AxumErrors::NotFound => "NotFound"@,
            AxumErrors::SerializationError => "SerializationError"@,
            AxumErrors::DeserializationError => "DeserializationError"@,
            AxumErrors::DBError => "DBError"@,
            AxumErrors::BsonSerializeError => "BsonSerializeError"@,
            AxumErrors::BsonDeserializeError => "BsonDeserializeError"@,
        }
    }

    /// The human-readable message paired with the variant.
    pub open spec fn spec_message(self) -> Seq<char> {
        match self {
            AxumErrors::NotFound => "Document Was Not Found!"@,
            AxumErrors::SerializationError => "Serde Serialization Error Occurred!"@,
            AxumErrors::DeserializationError => "Serde Deserialization Error Occurred!"@,
            AxumErrors::DBError => "Unexpected Error response from MongoDB!"@,
            AxumErrors::BsonSerializeError => "Unexpected error from serializing struct into Bson Document!"@,
            AxumErrors::BsonDeserializeError => "Unexpected error from deserializing struct into Bson Document!"@,
        }
    }

    /// Transport status hint paired with the variant: not-found is the only
    /// kind the caller is blamed for; everything else is a server-side fault.
    pub open spec fn spec_status(self) -> u16 {
        match self {
            AxumErrors::NotFound => 404,
            AxumErrors::SerializationError => 500,
            AxumErrors::DeserializationError => 500,
            AxumErrors::DBError => 500,
            AxumErrors::BsonSerializeError => 500,
            AxumErrors::BsonDeserializeError => 500,
        }
    }

    pub fn to_string(&self) -> (s: String)
        ensures
            s@ == self.spec_name(),
    {
        match self {
            AxumErrors::NotFound => "NotFound".to_string(),
            AxumErrors::SerializationError => "SerializationError".to_string(),
            AxumErrors::DeserializationError => "DeserializationError".to_string(),
            AxumErrors::DBError => "DBError".to_string(),
            AxumErrors::BsonSerializeError => "BsonSerializeError".to_string(),
            AxumErrors::BsonDeserializeError => "BsonDeserializeError".to_string(),
        }
    }

    pub fn status_code(&self) -> (c: u16)
        ensures
            c == self.spec_status(),
    {
        match self {
            AxumErrors::NotFound => 404,
            AxumErrors::SerializationError => 500,
            AxumErrors::DeserializationError => 500,
            AxumErrors::DBError => 500,
            AxumErrors::BsonSerializeError => 500,
            AxumErrors::BsonDeserializeError => 500,
        }
    }
}

/// Error body the transport serializes: the variant's name and its message.
#[derive(Clone, Debug, PartialEq)]
pub struct AxumErrorResponse {
    pub error_type: String,
    pub error_message: String,
}

impl AxumErrorResponse {
    /// True when the body spells out the given error kind.
    pub open spec fn spec_is(self, e: AxumErrors) -> bool {
        &&& self.error_type@ == e.spec_name()
        &&& self.error_message@ == e.spec_message()
    }

    pub fn from(axum_errors: AxumErrors) -> (r: AxumErrorResponse)
        ensures
            r.spec_is(axum_errors),
    {
        match axum_errors {
            AxumErrors::NotFound => AxumErrorResponse {
                error_type: AxumErrors::NotFound.to_string(),
                error_message: "Document Was Not Found!".to_string(),
            },
            AxumErrors::SerializationError => AxumErrorResponse {
                error_type: AxumErrors::SerializationError.to_string(),
                error_message: "Serde Serialization Error Occurred!".to_string(),
            },
            AxumErrors::DeserializationError => AxumErrorResponse {
                error_type: AxumErrors::DeserializationError.to_string(),
                error_message: "Serde Deserialization Error Occurred!".to_string(),
            },
            AxumErrors::DBError => AxumErrorResponse {
                error_type: AxumErrors::DBError.to_string(),
                error_message: "Unexpected Error response from MongoDB!".to_string(),
            },
            AxumErrors::BsonSerializeError => AxumErrorResponse {
                error_type: AxumErrors::BsonSerializeError.to_string(),
                error_message: "Unexpected error from serializing struct into Bson Document!".to_string(),
            },
            AxumErrors::BsonDeserializeError => AxumErrorResponse {
                error_type: AxumErrors::BsonDeserializeError.to_string(),
                error_message: "Unexpected error from deserializing struct into Bson Document!".to_string(),
            },
        }
    }
}

/// Typed error as handed back to the excluded transport layer: a status hint
/// plus the serializable body.
#[derive(Clone, Debug, PartialEq)]
pub struct ErrorResponse {
    pub status_code: u16,
    pub error: AxumErrorResponse,
}

impl ErrorResponse {
    /// True when this response carries the given kind with its status hint.
    pub open spec fn spec_is(self, e: AxumErrors) -> bool {
        &&& self.status_code == e.spec_status()
        &&& self.error.spec_is(e)
    }

    /// Response for a given error kind, with the status hint the kind owes.
    pub fn from_error(e: AxumErrors) -> (r: ErrorResponse)
        ensures
            r.spec_is(e),
    {
        ErrorResponse { status_code: e.status_code(), error: AxumErrorResponse::from(e) }
    }

    pub fn to_axum_error(self) -> (r: (u16, AxumErrorResponse))
        ensures
            r.0 == self.status_code,
            r.1 == self.error,
    {
        (self.status_code, self.error)
    }
}

} // verus!
