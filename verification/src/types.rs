//! Small shared types.

use vstd::prelude::*;

verus! {

/// HTTP request methods used by the client.
#[derive(Debug, Clone, Copy, PartialEq, Eq, Structural)]
pub enum HttpMethod {
    Get,
    Post,
    Put,
    Delete,
    Head,
}

/// The wire name of a method.
pub open spec fn method_name_spec(m: HttpMethod) -> Seq<char> {
    match m {
        HttpMethod::Get => "GET"@,
        HttpMethod::Post => "POST"@,
        HttpMethod::Put => "PUT"@,
        HttpMethod::Delete => "DELETE"@,
        HttpMethod::Head => "HEAD"@,
    }
}

impl HttpMethod {
    /// The method under its wire name.
    pub fn as_str(&self) -> (r: &'static str)
        ensures
            r@ == method_name_spec(*self),
    {
        match self {
            HttpMethod::Get => "GET",
            HttpMethod::Post => "POST",
            HttpMethod::Put => "PUT",
            HttpMethod::Delete => "DELETE",
            HttpMethod::Head => "HEAD",
        }
    }
}

/// Progress information for a long-running operation.
#[derive(Debug, Clone)]
pub struct Progress {
    /// Current step in the operation.
    pub step: u32,
    /// Total number of steps.
    pub total: u32,
    /// Status message.
    pub status: String,
    /// Detailed message.
    pub detail: Option<String>,
}

/// Version information reported by the server.
#[derive(Debug, Clone)]
pub struct VersionInfo {
    /// Version string.
    pub version: String,
    /// Build information.
    pub build: Option<String>,
    /// Source revision.
    pub commit: Option<String>,
}

/// A file to upload.
#[derive(Debug, Clone)]
pub struct FileUpload {
    /// File name.
    pub filename: String,
    /// File content.
    pub content: Vec<u8>,
    /// Content kind.
    pub mime_type: Option<String>,
}

/// Pagination parameters.
#[derive(Debug, Clone)]
pub struct Pagination {
    /// Number of items per page.
    pub limit: Option<u32>,
    /// Offset for pagination.
    pub offset: Option<u32>,
    /// Cursor-based pagination.
    pub cursor: Option<String>,
}

/// One page of results.
#[derive(Debug, Clone)]
pub struct PaginatedResponse<T> {
    /// The items of this page.
    pub items: Vec<T>,
    /// Total number of items.
    pub total: Option<u32>,
    /// Cursor of the next page.
    pub next_cursor: Option<String>,
    /// Whether more items follow.
    pub has_more: bool,
}

/// Per-request tuning options.
#[derive(Debug, Clone)]
pub struct RequestOptions {
    /// Request timeout in seconds.
    pub timeout: Option<u64>,
    /// Maximum retries for failed requests.
    pub max_retries: Option<u32>,
    /// Custom headers to include, in insertion order.
    pub headers: Option<Vec<(String, String)>>,
    /// Whether to log details of the exchange.
    pub debug: Option<bool>,
}

/// Streaming configuration options.
#[derive(Debug, Clone)]
pub struct StreamOptions {
    /// Buffer size for streamed responses.
    pub buffer_size: Option<usize>,
    /// Timeout for one streamed chunk, in seconds.
    pub chunk_timeout: Option<u64>,
    /// Whether to include partial responses.
    pub include_partial: Option<bool>,
}

} // verus!
