//! The closed error taxonomy surfaced to callers, and the classifier that
//! turns a parsed error body into a structured error.

use vstd::prelude::*;
use vstd::string::*;

use crate::json::{spec_field, JsonValue};

verus! {

/// A request body could not be built.
#[derive(Debug)]
pub enum BodyError {
    /// Serialization failed; carries a diagnostic message.
    Json { message: String },
}

/// Building an endpoint failed before any request was made.
#[derive(Debug, PartialEq, Eq)]
pub enum BuilderError {
    /// The named required field was never set.
    UninitializedField(&'static str),
}

/// Errors which may occur when using API endpoints.
#[derive(Debug)]
pub enum ApiError<E> {
    /// The client encountered an error.
    Client { source: E },
    /// The URL failed to parse.
    UrlParse { message: String },
    /// Body data could not be created.
    Body { source: BodyError },
    /// Failed to parse an expected data type from JSON; carries the name of
    /// the type that could not be read and the reader's diagnostic.
    DataType { typename: String, source: String },
    /// The service reported an error with a plain-text message.
    Teamdeck { msg: String },
    /// The service answered with a body that is not parsable JSON; carries
    /// the status code and the raw bytes, whatever the status was.
    TeamdeckService { status: u16, data: Vec<u8> },
    /// The service reported an error object under a recognized key.
    TeamdeckObject { obj: JsonValue },
    /// The service reported an HTTP error whose JSON shape is not
    /// recognized; the whole body is preserved.
    TeamdeckUnrecognized { obj: JsonValue },
}

/// The error field of a document: the top-level `message` field when it
/// exists, else the legacy top-level `error` field.
pub open spec fn spec_error_field(v: JsonValue) -> Option<JsonValue> {
    match spec_field(v, "message"@) {
        Some(x) => Some(x),
        None => spec_field(v, "error"@),
    }
}

/// The classifier's decision on a parsed non-success body: a text under
/// the error field is a domain error message; any other value there is a
/// domain error object; no error field at all is an unrecognized error
/// carrying the whole document.
pub open spec fn spec_classify<E>(v: JsonValue) -> ApiError<E> {
    match spec_error_field(v) {
        Some(field) => match field {
            JsonValue::Text(msg) => ApiError::Teamdeck { msg },
            _ => ApiError::TeamdeckObject { obj: field },
        },
        None => ApiError::TeamdeckUnrecognized { obj: v },
    }
}

impl<E> ApiError<E> {
    /// Wrap a client's own error.
    pub fn client(source: E) -> (r: Self)
        ensures
            r == (ApiError::<E>::Client { source }),
    {
        ApiError::Client { source }
    }

    /// A data-type error naming the type that could not be read and
    /// carrying the reader's diagnostic.
    pub fn data_type<T: crate::json::FromJson>(source: crate::json::DecodeError) -> (r: Self)
        ensures
            r matches (ApiError::DataType { typename, source: s }) && typename@
                == T::type_label_spec() && s == source.message,
    {
        ApiError::DataType { typename: T::type_label(), source: source.message }
    }

    /// A service error carrying the status and the raw body bytes.
    pub fn server_error(status: u16, data: Vec<u8>) -> (r: Self)
        ensures
            r == (ApiError::<E>::TeamdeckService { status, data }),
    {
        ApiError::TeamdeckService { status, data }
    }

    /// Classify a parsed error body, exactly as [`spec_classify`] says.
    pub fn from_teamdeck(value: JsonValue) -> (r: Self)
        ensures
            r == spec_classify::<E>(value),
    {
        match value {
            JsonValue::Object(mut entries) => {
                let idx = match JsonValue::lookup_index(&entries, "message") {
                    Some(i) => Some(i),
                    None => JsonValue::lookup_index(&entries, "error"),
                };
                match idx {
                    Some(i) => {
                        let entry = entries.remove(i);
                        match entry.1 {
                            JsonValue::Text(msg) => ApiError::Teamdeck { msg },
                            other => ApiError::TeamdeckObject { obj: other },
                        }
                    },
                    None => ApiError::TeamdeckUnrecognized { obj: JsonValue::Object(entries) },
                }
            },
            other => ApiError::TeamdeckUnrecognized { obj: other },
        }
    }
}

/// A body with a text under its `message` field classifies as a domain
/// error carrying exactly that text.
pub proof fn lemma_classify_message<E>(v: JsonValue, msg: String)
    requires
        spec_field(v, "message"@) == Some(JsonValue::Text(msg)),
    ensures
        spec_classify::<E>(v) == (ApiError::<E>::Teamdeck { msg }),
{
}

/// A body without a `message` field but with a text under the legacy
/// `error` field classifies identically.
pub proof fn lemma_classify_legacy_error<E>(v: JsonValue, msg: String)
    requires
        spec_field(v, "message"@) is None,
        spec_field(v, "error"@) == Some(JsonValue::Text(msg)),
    ensures
        spec_classify::<E>(v) == (ApiError::<E>::Teamdeck { msg }),
{
}

/// A body with neither a `message` nor an `error` field classifies as an
/// unrecognized error carrying the whole document.
pub proof fn lemma_classify_unrecognized<E>(v: JsonValue)
    requires
        spec_field(v, "message"@) is None,
        spec_field(v, "error"@) is None,
    ensures
        spec_classify::<E>(v) == (ApiError::<E>::TeamdeckUnrecognized { obj: v }),
{
}

} // verus!
