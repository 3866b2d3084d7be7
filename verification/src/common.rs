//! Common request types shared across the API surface.

use vstd::prelude::*;

verus! {

/// Description of a function offered to the model for tool calling. The
/// parameter schema is carried as its JSON text.
#[derive(Debug, Clone)]
pub struct ToolFunction {
    /// Function name.
    pub name: String,
    /// Function description.
    pub description: String,
    /// Parameter schema, as JSON text.
    pub parameters: String,
}

/// A tool offered to the model.
#[derive(Debug, Clone)]
pub struct Tool {
    /// Tool kind; only functions are in use.
    pub tool_type: String,
    /// The function behind the tool.
    pub function: ToolFunction,
}

impl Tool {
    /// A function tool with the given name, description and parameter
    /// schema.
    pub fn function(name: String, description: String, parameters: String) -> (r: Self)
        ensures
            r.tool_type@ == "function"@,
            r.function.name@ == name@,
            r.function.description@ == description@,
            r.function.parameters@ == parameters@,
    {
        Tool {
            tool_type: String::from_str("function"),
            function: ToolFunction { name, description, parameters },
        }
    }
}

/// Usage statistics for an exchange.
#[derive(Debug, Clone, PartialEq, Eq, Structural)]
pub struct Usage {
    /// Number of tokens in the prompt.
    pub prompt_tokens: u32,
    /// Number of tokens in the completion.
    pub completion_tokens: u32,
    /// Total number of tokens.
    pub total_tokens: u32,
}

/// Requested rendering of a response body.
#[derive(Debug, Clone, PartialEq, Eq, Structural)]
pub enum ResponseFormat {
    /// Plain text.
    Text,
    /// JSON.
    Json,
}

impl Default for ResponseFormat {
    /// Plain text unless asked otherwise.
    fn default() -> (r: Self)
        ensures
            r == ResponseFormat::Text,
    {
        ResponseFormat::Text
    }
}

/// How long the server keeps the model loaded after the request.
#[derive(Debug, Clone)]
pub enum KeepAlive {
    /// A duration, rendered as the service expects it.
    Duration(String),
    /// A duration in seconds.
    Seconds(u64),
    /// Unload immediately.
    Never,
}

impl Default for KeepAlive {
    /// Five minutes unless asked otherwise.
    fn default() -> (r: Self)
        ensures
            r matches KeepAlive::Duration(d) && d@ == "5m"@,
    {
        KeepAlive::Duration(String::from_str("5m"))
    }
}

impl<'a> From<&'a str> for KeepAlive {
    fn from(s: &'a str) -> (r: Self) {
        KeepAlive::Duration(String::from_str(s))
    }
}

impl<'a> vstd::std_specs::convert::FromSpecImpl<&'a str> for KeepAlive {
    open spec fn obeys_from_spec() -> bool {
        false
    }

    open spec fn from_spec(s: &'a str) -> Self {
        vstd::pervasive::arbitrary()
    }
}

impl From<u64> for KeepAlive {
    fn from(seconds: u64) -> (r: Self) {
        KeepAlive::Seconds(seconds)
    }
}

impl vstd::std_specs::convert::FromSpecImpl<u64> for KeepAlive {
    open spec fn obeys_from_spec() -> bool {
        true
    }

    open spec fn from_spec(seconds: u64) -> Self {
        KeepAlive::Seconds(seconds)
    }
}

} // verus!
