//! Typed client library for a text-generation HTTP service.
//!
//! The heart of the crate is the streaming path: a newline-delimited JSON
//! response body is framed into lines, each line is parsed into a typed
//! chunk, and a stream of chunks is folded into one accumulated response.
//! The framing, the per-buffer decode policy and the fold are verified;
//! transport and JSON parsing are delegated to outside collaborators.

pub mod chat;
pub mod common;
pub mod config;
pub mod decode;
pub mod embedding;
pub mod error;
pub mod generation;
pub mod model_info;
pub mod stream;
pub mod types;

pub use chat::ChatMessage;
pub use chat::ChatResponse;
pub use chat::FunctionCall;
pub use chat::FunctionChoice;
pub use chat::MessageRole;
pub use chat::ToolCall;
pub use chat::ToolChoice;
pub use common::KeepAlive;
pub use common::ResponseFormat;
pub use common::Tool;
pub use common::ToolFunction;
pub use common::Usage;
pub use config::ClientConfig;
pub use config::ClientConfigBuilder;
pub use decode::extract_lines;
pub use decode::decode_items;
pub use decode::MalformedLine;
pub use decode::StreamChunk;
pub use embedding::EmbedInput;
pub use error::classify_http_failure;
pub use error::DecodeError;
pub use error::OllamaError;
pub use generation::GenerateResponse;
pub use model_info::format_bytes;
pub use model_info::CopyRequest;
pub use model_info::CreateProgress;
pub use model_info::CreateRequest;
pub use model_info::DeleteRequest;
pub use model_info::Model;
pub use model_info::ModelDetails;
pub use model_info::ModelInfo;
pub use model_info::ModelList;
pub use model_info::PullProgress;
pub use model_info::PullRequest;
pub use model_info::RunningModel;
pub use model_info::RunningModels;
pub use model_info::ShowRequest;
pub use stream::collect_chat_response;
pub use stream::collect_generate_response;
pub use stream::ChatAccumulator;
pub use stream::GenerateAccumulator;
pub use types::FileUpload;
pub use types::HttpMethod;
pub use types::Pagination;
pub use types::PaginatedResponse;
pub use types::Progress;
pub use types::RequestOptions;
pub use types::StreamOptions;
pub use types::VersionInfo;
