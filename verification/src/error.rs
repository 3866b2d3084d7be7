//! Error types for the client library.
//!
//! `DecodeError` is scoped to the streaming decode and aggregation core;
//! `OllamaError` covers the wider service-level failures.

use vstd::prelude::*;

use crate::model_info::dec_digits;
use crate::model_info::push_decimal;

verus! {

/// Error produced by the streaming decode and aggregation core.
#[derive(Debug, Clone, PartialEq, Eq)]
pub enum DecodeError {
    /// A transport-level failure was delivered in place of a byte buffer.
    Transport(String),
    /// A non-empty line failed to parse as the expected chunk type.
    Malformed { raw_line: String, cause: String },
    /// A delivered buffer held no parsable line at all.
    EmptyChunk,
    /// The stream ended before any terminal chunk was seen.
    StreamEndedWithoutTerminal,
}

/// Ghost-level model of a `DecodeError`.
pub enum DecodeErrorV {
    Transport(Seq<char>),
    Malformed { raw_line: Seq<char>, cause: Seq<char> },
    EmptyChunk,
    StreamEndedWithoutTerminal,
}

impl View for DecodeError {
    type V = DecodeErrorV;

    open spec fn view(&self) -> DecodeErrorV {
        match self {
            DecodeError::Transport(s) => DecodeErrorV::Transport(s@),
            DecodeError::Malformed { raw_line, cause } => DecodeErrorV::Malformed {
                raw_line: raw_line@,
                cause: cause@,
            },
            DecodeError::EmptyChunk => DecodeErrorV::EmptyChunk,
            DecodeError::StreamEndedWithoutTerminal => DecodeErrorV::StreamEndedWithoutTerminal,
        }
    }
}

/// Service-level error taxonomy. Failures that originate in outside
/// collaborators (transport, serialization, URL handling, I/O) are carried
/// as their rendered messages.
#[derive(Debug, Clone, PartialEq, Eq)]
pub enum OllamaError {
    /// Network-related failure (connection issues and the like).
    NetworkError(String),
    /// JSON serialization or deserialization failure.
    JsonError(String),
    /// URL parsing failure.
    UrlError(String),
    /// The requested model is not present on the server.
    ModelNotFound(String),
    /// The model name is not acceptable.
    InvalidModelName(String),
    /// The server answered with an error status.
    ServerError { status: u16, message: String },
    /// The request timed out.
    Timeout,
    /// The response body did not have the expected shape.
    InvalidResponse(String),
    /// Authentication failed.
    AuthenticationError(String),
    /// The server's rate limit was exceeded.
    RateLimitExceeded,
    /// A failure in the streaming path.
    StreamError(String),
    /// The client configuration is not acceptable.
    ConfigError(String),
    /// An I/O failure outside the network path.
    IoError(String),
    /// A request parameter was rejected before sending.
    InvalidParameter { parameter: String, reason: String },
    /// The model exists but is still being loaded.
    ModelLoading(String),
    /// The server lacks the resources to serve the request.
    InsufficientResources(String),
    /// Any other failure.
    Other(String),
}

/// Holds exactly of the errors that a caller may reasonably retry:
/// network failures, timeouts, models still loading, and 5xx answers.
pub open spec fn is_retryable_spec(e: OllamaError) -> bool {
    match e {
        OllamaError::NetworkError(_) => true,
        OllamaError::Timeout => true,
        OllamaError::ModelLoading(_) => true,
        OllamaError::ServerError { status, .. } => 500 <= status <= 599,
        _ => false,
    }
}

/// Holds exactly of the errors that report the model as unavailable.
pub open spec fn is_model_unavailable_spec(e: OllamaError) -> bool {
    match e {
        OllamaError::ModelNotFound(_) => true,
        OllamaError::ModelLoading(_) => true,
        _ => false,
    }
}

/// A prefix followed by the payload text.
fn prefixed(prefix: &str, payload: &String) -> (r: String)
    ensures
        r@ == prefix@ + payload@,
{
    let mut m = String::from_str(prefix);
    m.append(payload.as_str());
    m
}

/// The message under which each error renders itself.
pub open spec fn message_spec(e: OllamaError) -> Seq<char> {
    match e {
        OllamaError::NetworkError(s) => "Network error: "@ + s@,
        OllamaError::JsonError(s) => "JSON error: "@ + s@,
        OllamaError::UrlError(s) => "Invalid URL: "@ + s@,
        OllamaError::ModelNotFound(s) => "Model '"@ + s@ + "' not found"@,
        OllamaError::InvalidModelName(s) => "Invalid model name: "@ + s@,
        OllamaError::ServerError { status, message } => "Server error: "@ + dec_digits(
            status as nat,
        ) + " - "@ + message@,
        OllamaError::Timeout => "Request timeout"@,
        OllamaError::InvalidResponse(s) => "Invalid response format: "@ + s@,
        OllamaError::AuthenticationError(s) => "Authentication failed: "@ + s@,
        OllamaError::RateLimitExceeded => "Rate limit exceeded"@,
        OllamaError::StreamError(s) => "Streaming error: "@ + s@,
        OllamaError::ConfigError(s) => "Configuration error: "@ + s@,
        OllamaError::IoError(s) => "IO error: "@ + s@,
        OllamaError::InvalidParameter { parameter, reason } => "Invalid parameter: "@ + parameter@
            + " - "@ + reason@,
        OllamaError::ModelLoading(s) => "Model '"@ + s@ + "' is currently loading, please try again"@,
        OllamaError::InsufficientResources(s) => "Insufficient resources: "@ + s@,
        OllamaError::Other(s) => "Ollama error: "@ + s@,
    }
}

impl OllamaError {
    /// Renders the error as its message.
    pub fn to_string(&self) -> (r: String)
        ensures
            r@ == message_spec(*self),
    {
        match self {
            OllamaError::NetworkError(s) => prefixed("Network error: ", s),
            OllamaError::JsonError(s) => prefixed("JSON error: ", s),
            OllamaError::UrlError(s) => prefixed("Invalid URL: ", s),
            OllamaError::ModelNotFound(s) => {
                let mut m = prefixed("Model '", s);
                m.append("' not found");
                proof {
                    assert(m@ =~= "Model '"@ + s@ + "' not found"@);
                }
                m
            },
            OllamaError::InvalidModelName(s) => prefixed("Invalid model name: ", s),
            OllamaError::ServerError { status, message } => {
                let mut m = String::from_str("Server error: ");
                push_decimal(&mut m, *status as u64);
                m.append(" - ");
                m.append(message.as_str());
                proof {
                    assert(m@ =~= "Server error: "@ + dec_digits(*status as nat) + " - "@
                        + message@);
                }
                m
            },
            OllamaError::Timeout => String::from_str("Request timeout"),
            OllamaError::InvalidResponse(s) => prefixed("Invalid response format: ", s),
            OllamaError::AuthenticationError(s) => prefixed("Authentication failed: ", s),
            OllamaError::RateLimitExceeded => String::from_str("Rate limit exceeded"),
            OllamaError::StreamError(s) => prefixed("Streaming error: ", s),
            OllamaError::ConfigError(s) => prefixed("Configuration error: ", s),
            OllamaError::IoError(s) => prefixed("IO error: ", s),
            OllamaError::InvalidParameter { parameter, reason } => {
                let mut m = prefixed("Invalid parameter: ", parameter);
                m.append(" - ");
                m.append(reason.as_str());
                proof {
                    assert(m@ =~= "Invalid parameter: "@ + parameter@ + " - "@ + reason@);
                }
                m
            },
            OllamaError::ModelLoading(s) => {
                let mut m = prefixed("Model '", s);
                m.append("' is currently loading, please try again");
                proof {
                    assert(m@ =~= "Model '"@ + s@
                        + "' is currently loading, please try again"@);
                }
                m
            },
            OllamaError::InsufficientResources(s) => prefixed("Insufficient resources: ", s),
            OllamaError::Other(s) => prefixed("Ollama error: ", s),
        }
    }

    /// Whether the failed operation may reasonably be retried.
    pub fn is_retryable(&self) -> (r: bool)
        ensures
            r == is_retryable_spec(*self),
    {
        match self {
            OllamaError::NetworkError(_) => true,
            OllamaError::Timeout => true,
            OllamaError::ModelLoading(_) => true,
            OllamaError::ServerError { status, .. } => 500 <= *status && *status <= 599,
            _ => false,
        }
    }

    /// Whether the error reports the model as unavailable.
    pub fn is_model_unavailable(&self) -> (r: bool)
        ensures
            r == is_model_unavailable_spec(*self),
    {
        match self {
            OllamaError::ModelNotFound(_) => true,
            OllamaError::ModelLoading(_) => true,
            _ => false,
        }
    }

    /// The HTTP status if this is a server error, and nothing otherwise.
    pub fn status_code(&self) -> (r: Option<u16>)
        ensures
            match *self {
                OllamaError::ServerError { status, .. } => r == Some(status),
                _ => r is None,
            },
    {
        match self {
            OllamaError::ServerError { status, .. } => Some(*status),
            _ => None,
        }
    }
}

impl DecodeError {
    /// Renders the streaming-core error as the service-level error that
    /// the request paths surface: transport failures and a missing
    /// terminal chunk become stream errors, parse failures and empty
    /// buffers become invalid-response errors.
    pub fn to_ollama_error(self) -> (r: OllamaError)
        ensures
            match self@ {
                DecodeErrorV::Transport(s) => r matches OllamaError::StreamError(m) && m@ == s,
                DecodeErrorV::Malformed { raw_line, cause } => r
                    matches OllamaError::InvalidResponse(m) && m@ == "Failed to parse chunk: "@
                    + cause + " - Line: "@ + raw_line,
                DecodeErrorV::EmptyChunk => r matches OllamaError::InvalidResponse(m) && m@
                    == "Empty or invalid chunk"@,
                DecodeErrorV::StreamEndedWithoutTerminal => r matches OllamaError::StreamError(m)
                    && m@ == "Stream ended without final response"@,
            },
    {
        match self {
            DecodeError::Transport(s) => OllamaError::StreamError(s),
            DecodeError::Malformed { raw_line, cause } => {
                let mut m = String::from_str("Failed to parse chunk: ");
                m.append(cause.as_str());
                m.append(" - Line: ");
                m.append(raw_line.as_str());
                proof {
                    assert(m@ =~= "Failed to parse chunk: "@ + cause@ + " - Line: "@ + raw_line@);
                }
                OllamaError::InvalidResponse(m)
            },
            DecodeError::EmptyChunk => OllamaError::InvalidResponse(
                String::from_str("Empty or invalid chunk"),
            ),
            DecodeError::StreamEndedWithoutTerminal => OllamaError::StreamError(
                String::from_str("Stream ended without final response"),
            ),
        }
    }
}

/// Maps an HTTP failure status to the service-level error, as the request
/// paths do: 404 names the missing model, anything else is a server error.
pub fn classify_http_failure(status: u16, model: String, message: String) -> (r: OllamaError)
    ensures
        status == 404 ==> r == OllamaError::ModelNotFound(model),
        status != 404 ==> (r == OllamaError::ServerError { status, message }),
{
    if status == 404 {
        OllamaError::ModelNotFound(model)
    } else {
        OllamaError::ServerError { status, message }
    }
}

} // verus!
