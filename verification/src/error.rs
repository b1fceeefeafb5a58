//! The errors that the API answers with, and what each one is answered with.

use vstd::prelude::*;

verus! {

#[verifier::external_type_specification]
#[verifier::external_body]
pub struct ExUuid(uuid::Uuid);

/// What went wrong with a request.
#[derive(Debug)]
pub enum ApiErrorKind {
    Unauthorized,
    /// The named parameter is invalid.
    InvalidParameter(String),
    InvalidBody,
    VoiceNotFound,
    QueueFull,
    Timeout,
    Synthesis,
    Internal,
}

/// An error of a request, with the request's id and an optional message for the client.
#[derive(Debug)]
pub struct ApiError {
    pub kind: ApiErrorKind,
    pub request_id: uuid::Uuid,
    pub detail: Option<String>,
}

/// What an error is answered with: the HTTP status, the error code and message of the JSON
/// body, the parameter it concerns, and the request id, which is also sent as `x-request-id`.
pub struct ErrorResponse {
    pub status: u16,
    pub code: String,
    pub message: String,
    pub param: Option<String>,
    pub request_id: uuid::Uuid,
}

/// The characters of an optional string.
pub open spec fn opt_view(s: Option<String>) -> Option<Seq<char>> {
    match s {
        Some(t) => Some(t@),
        None => None,
    }
}

/// The HTTP status of each kind of error.
pub open spec fn spec_status(kind: ApiErrorKind) -> u16 {
    match kind {
        ApiErrorKind::Unauthorized => 401,
        ApiErrorKind::InvalidParameter(_) => 400,
        ApiErrorKind::InvalidBody => 400,
        ApiErrorKind::VoiceNotFound => 404,
        ApiErrorKind::QueueFull => 429,
        ApiErrorKind::Timeout => 504,
        ApiErrorKind::Synthesis => 500,
        ApiErrorKind::Internal => 500,
    }
}

/// The error code of each kind of error.
pub open spec fn spec_code(kind: ApiErrorKind) -> Seq<char> {
    match kind {
        ApiErrorKind::Unauthorized => "unauthorized"@,
        ApiErrorKind::InvalidParameter(_) => "invalid_parameter"@,
        ApiErrorKind::InvalidBody => "invalid_body"@,
        ApiErrorKind::VoiceNotFound => "voice_not_found"@,
        ApiErrorKind::QueueFull => "queue_full"@,
        ApiErrorKind::Timeout => "synthesis_timeout"@,
        ApiErrorKind::Synthesis => "synthesis_failed"@,
        ApiErrorKind::Internal => "internal_error"@,
    }
}

/// The message sent for an error: the detail, where the kind lets one replace its default.
pub open spec fn spec_message(kind: ApiErrorKind, detail: Option<Seq<char>>) -> Seq<char> {
    match kind {
        ApiErrorKind::Unauthorized => "Missing or invalid bearer token"@,
        ApiErrorKind::InvalidParameter(param) => match detail {
            Some(d) => d,
            None => "Invalid value for "@ + param@,
        },
        ApiErrorKind::InvalidBody => match detail {
            Some(d) => d,
            None => "Request body is not valid JSON"@,
        },
        ApiErrorKind::VoiceNotFound => "Unknown voice_id"@,
        ApiErrorKind::QueueFull => "Synthesis queue limit exceeded"@,
        ApiErrorKind::Timeout => "Synthesis exceeded its time limit"@,
        ApiErrorKind::Synthesis => match detail {
            Some(d) => d,
            None => "TTS engine failed"@,
        },
        ApiErrorKind::Internal => "Internal server error"@,
    }
}

/// The parameter that an error concerns.
pub open spec fn spec_param(kind: ApiErrorKind) -> Option<Seq<char>> {
    match kind {
        ApiErrorKind::InvalidParameter(param) => Some(param@),
        ApiErrorKind::VoiceNotFound => Some("voice_id"@),
        _ => None,
    }
}

/// The description of each kind of error.
pub open spec fn spec_description(kind: ApiErrorKind) -> Seq<char> {
    match kind {
        ApiErrorKind::Unauthorized => "authentication is required"@,
        ApiErrorKind::InvalidParameter(param) => "invalid parameter: "@ + param@,
        ApiErrorKind::InvalidBody => "request body is invalid"@,
        ApiErrorKind::VoiceNotFound => "voice was not found"@,
        ApiErrorKind::QueueFull => "synthesis queue is full"@,
        ApiErrorKind::Timeout => "synthesis timed out"@,
        ApiErrorKind::Synthesis => "synthesis failed"@,
        ApiErrorKind::Internal => "internal server error"@,
    }
}

fn detail_or(detail: Option<String>, default: &str) -> (s: String)
    ensures
        s@ == match opt_view(detail) {
            Some(d) => d,
            None => default@,
        },
{
    match detail {
        Some(d) => d,
        None => default.to_owned(),
    }
}

impl ApiErrorKind {
    /// The description of the error.
    pub fn description(&self) -> (s: String)
        ensures
            s@ == spec_description(*self),
    {
        match self {
            ApiErrorKind::Unauthorized => "authentication is required".to_owned(),
            ApiErrorKind::InvalidParameter(param) => {
                let mut s = "invalid parameter: ".to_owned();
                s.append(param.as_str());
                s
            },
            ApiErrorKind::InvalidBody => "request body is invalid".to_owned(),
            ApiErrorKind::VoiceNotFound => "voice was not found".to_owned(),
            ApiErrorKind::QueueFull => "synthesis queue is full".to_owned(),
            ApiErrorKind::Timeout => "synthesis timed out".to_owned(),
            ApiErrorKind::Synthesis => "synthesis failed".to_owned(),
            ApiErrorKind::Internal => "internal server error".to_owned(),
        }
    }
}

impl ApiError {
    /// An error of the given kind for the request, without a detail message.
    pub fn new(kind: ApiErrorKind, request_id: uuid::Uuid) -> (e: ApiError)
        ensures
            e.kind == kind,
            e.request_id == request_id,
            e.detail is None,
    {
        ApiError { kind, request_id, detail: None }
    }

    /// The same error with a detail message for the client.
    pub fn detail(self, detail: String) -> (e: ApiError)
        ensures
            e.kind == self.kind,
            e.request_id == self.request_id,
            e.detail == Some(detail),
    {
        ApiError { kind: self.kind, request_id: self.request_id, detail: Some(detail) }
    }

    /// What the error is answered with.
    pub fn into_response(self) -> (r: ErrorResponse)
        ensures
            r.status == spec_status(self.kind),
            r.code@ == spec_code(self.kind),
            r.message@ == spec_message(self.kind, opt_view(self.detail)),
            opt_view(r.param) == spec_param(self.kind),
            r.request_id == self.request_id,
    {
        let request_id = self.request_id;
        match self.kind {
            ApiErrorKind::Unauthorized => ErrorResponse {
                status: 401,
                code: "unauthorized".to_owned(),
                message: "Missing or invalid bearer token".to_owned(),
                param: None,
                request_id,
            },
            ApiErrorKind::InvalidParameter(param) => {
                let message = match self.detail {
                    Some(d) => d,
                    None => {
                        let mut m = "Invalid value for ".to_owned();
                        m.append(param.as_str());
                        m
                    },
                };
                ErrorResponse {
                    status: 400,
                    code: "invalid_parameter".to_owned(),
                    message,
                    param: Some(param),
                    request_id,
                }
            },
            ApiErrorKind::InvalidBody => ErrorResponse {
                status: 400,
                code: "invalid_body".to_owned(),
                message: detail_or(self.detail, "Request body is not valid JSON"),
                param: None,
                request_id,
            },
            ApiErrorKind::VoiceNotFound => ErrorResponse {
                status: 404,
                code: "voice_not_found".to_owned(),
                message: "Unknown voice_id".to_owned(),
                param: Some("voice_id".to_owned()),
                request_id,
            },
            ApiErrorKind::QueueFull => ErrorResponse {
                status: 429,
                code: "queue_full".to_owned(),
                message: "Synthesis queue limit exceeded".to_owned(),
                param: None,
                request_id,
            },
            ApiErrorKind::Timeout => ErrorResponse {
                status: 504,
                code: "synthesis_timeout".to_owned(),
                message: "Synthesis exceeded its time limit".to_owned(),
                param: None,
                request_id,
            },
            ApiErrorKind::Synthesis => ErrorResponse {
                status: 500,
                code: "synthesis_failed".to_owned(),
                message: detail_or(self.detail, "TTS engine failed"),
                param: None,
                request_id,
            },
            ApiErrorKind::Internal => ErrorResponse {
                status: 500,
                code: "internal_error".to_owned(),
                message: "Internal server error".to_owned(),
                param: None,
                request_id,
            },
        }
    }
}

} // verus!
