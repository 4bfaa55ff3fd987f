//! The error taxonomy of the service and its mapping to HTTP status
//! codes and response messages.

use crate::strutil::contains_seq;
use crate::strutil::contains_substring;
use vstd::prelude::*;
use vstd::string::*;

verus! {

/// What kind of body rejection the JSON extractor reported.
#[derive(Debug)]
pub enum RejectionKind {
    /// The body was syntactically valid JSON but did not fit the
    /// expected shape; the surrounding info carries the reported text.
    DataError,
    /// The body was not valid JSON.
    SyntaxError,
    /// The request declared no JSON content type.
    MissingContentType,
    /// Any other extractor rejection.
    Other,
}

/// A rejected request body: the category of the rejection and the
/// human-readable text that came with it.
#[derive(Debug)]
pub struct JsonRejectionInfo {
    pub kind: RejectionKind,
    pub body_text: String,
}

/// The error a request handler can end with.
#[allow(non_camel_case_types)]
#[derive(Debug)]
pub enum ApiError {
    /// The JSON extractor rejected the request body.
    JsonExtractorRejection(JsonRejectionInfo),
    BAD_REQUEST,
    UNPROCESSABLE_ENTITY,
    NOT_FOUND,
}

impl ApiError {
    /// Maps an HTTP status code to the error it stands for; any code
    /// outside the taxonomy falls back to a bad request.
    pub fn from(status: u16) -> (r: ApiError)
        ensures
            status == 400 ==> r == ApiError::BAD_REQUEST,
            status == 422 ==> r == ApiError::UNPROCESSABLE_ENTITY,
            status == 404 ==> r == ApiError::NOT_FOUND,
            status != 400 && status != 422 && status != 404 ==> r == ApiError::BAD_REQUEST,
    {
        if status == 422 {
            ApiError::UNPROCESSABLE_ENTITY
        } else if status == 404 {
            ApiError::NOT_FOUND
        } else {
            ApiError::BAD_REQUEST
        }
    }
}

/// The reported text of a shape rejection that names a null `apelido`.
pub open spec fn needle_apelido() -> Seq<char> {
    "type: apelido: invalid type: null"@
}

/// The reported text of a shape rejection that names a null `nome`.
pub open spec fn needle_nome() -> Seq<char> {
    "type: nome: invalid type: null"@
}

/// The reported text of a shape rejection that names a `stack` that is
/// a single string instead of a list.
pub open spec fn needle_stack() -> Seq<char> {
    "type: stack: invalid type: string"@
}

/// The status code a body rejection maps to. A shape rejection whose
/// text names a null required field or a wrongly typed `stack` is
/// unprocessable; any other shape rejection and a syntax error are bad
/// requests; a missing content type is an unsupported media type;
/// everything else is an internal error.
pub open spec fn rejection_status(kind: RejectionKind, body: Seq<char>) -> u16 {
    match kind {
        RejectionKind::DataError => if contains_seq(body, needle_apelido()) || contains_seq(
            body,
            needle_nome(),
        ) || contains_seq(body, needle_stack()) {
            422
        } else {
            400
        },
        RejectionKind::SyntaxError => 400,
        RejectionKind::MissingContentType => 415,
        RejectionKind::Other => 500,
    }
}

/// The status code an error maps to.
pub open spec fn error_status(e: ApiError) -> u16 {
    match e {
        ApiError::JsonExtractorRejection(info) => rejection_status(info.kind, info.body_text@),
        ApiError::BAD_REQUEST => 400,
        ApiError::UNPROCESSABLE_ENTITY => 422,
        ApiError::NOT_FOUND => 404,
    }
}

/// The human-readable message an error carries. A known rejection
/// kind shows its fixed display phrase (the detailed reported text is
/// only matched against, in `rejection_status`, never shown); an
/// unclassified rejection carries its reported text, and the plain
/// variants their fixed phrases.
pub open spec fn error_message(e: ApiError) -> Seq<char> {
    match e {
        ApiError::JsonExtractorRejection(info) => match info.kind {
            RejectionKind::DataError => "Failed to deserialize the JSON body into the target type"@,
            RejectionKind::SyntaxError => "Failed to parse the request body as JSON"@,
            RejectionKind::MissingContentType => "Expected request with `Content-Type: application/json`"@,
            RejectionKind::Other => info.body_text@,
        },
        ApiError::BAD_REQUEST => "Bad Request"@,
        ApiError::UNPROCESSABLE_ENTITY => "Unprocessable Entity"@,
        ApiError::NOT_FOUND => "Not Found"@,
    }
}

impl ApiError {
    /// The HTTP shape of the error: its status code and the message
    /// for the error body.
    pub fn into_response(&self) -> (r: (u16, String))
        ensures
            r.0 == error_status(*self),
            r.1@ == error_message(*self),
    {
        match self {
            ApiError::JsonExtractorRejection(info) => match &info.kind {
                RejectionKind::DataError => {
                    let unprocessable = contains_substring(
                        info.body_text.as_str(),
                        "type: apelido: invalid type: null",
                    ) || contains_substring(
                        info.body_text.as_str(),
                        "type: nome: invalid type: null",
                    ) || contains_substring(
                        info.body_text.as_str(),
                        "type: stack: invalid type: string",
                    );
                    let status: u16 = if unprocessable {
                        422
                    } else {
                        400
                    };
                    (
                        status,
                        String::from_str("Failed to deserialize the JSON body into the target type"),
                    )
                },
                RejectionKind::SyntaxError => (
                    400,
                    String::from_str("Failed to parse the request body as JSON"),
                ),
                RejectionKind::MissingContentType => (
                    415,
                    String::from_str("Expected request with `Content-Type: application/json`"),
                ),
                RejectionKind::Other => (500, info.body_text.clone()),
            },
            ApiError::BAD_REQUEST => (400, String::from_str("Bad Request")),
            ApiError::UNPROCESSABLE_ENTITY => (422, String::from_str("Unprocessable Entity")),
            ApiError::NOT_FOUND => (404, String::from_str("Not Found")),
        }
    }
}

/// The fixed origin marker every error body carries.
pub fn error_origin() -> (r: String)
    ensures
        r@ == "with_rejection"@,
{
    String::from_str("with_rejection")
}

} // verus!
