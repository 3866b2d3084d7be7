//! Tests of the error taxonomy and the client configuration.

use ollama_rust_sdk::ChatMessage;
use ollama_rust_sdk::ClientConfig;
use ollama_rust_sdk::DecodeError;
use ollama_rust_sdk::MessageRole;
use ollama_rust_sdk::OllamaError;
use ollama_rust_sdk::PullProgress;
use ollama_rust_sdk::Tool;
use ollama_rust_sdk::classify_http_failure;

#[test]
fn test_server_error_retryable() {
    let error = OllamaError::ServerError {
        status: 503,
        message: "Service Unavailable".to_string(),
    };

    assert!(error.to_string().contains("Server error: 503"));
    assert!(error.is_retryable());
    assert!(!error.is_model_unavailable());
    assert_eq!(error.status_code(), Some(503));
}

#[test]
fn test_server_error_not_retryable() {
    let error = OllamaError::ServerError {
        status: 400,
        message: "Bad Request".to_string(),
    };

    assert!(error.to_string().contains("Server error: 400"));
    assert!(!error.is_retryable());
    assert_eq!(error.status_code(), Some(400));
}

#[test]
fn test_model_not_found() {
    let error = OllamaError::ModelNotFound("llama3".to_string());

    assert_eq!(error.to_string(), "Model 'llama3' not found");
    assert!(!error.is_retryable());
    assert!(error.is_model_unavailable());
    assert_eq!(error.status_code(), None);
}

#[test]
fn test_invalid_model_name() {
    let error = OllamaError::InvalidModelName("invalid/model".to_string());

    assert_eq!(error.to_string(), "Invalid model name: invalid/model");
    assert!(!error.is_retryable());
    assert!(!error.is_model_unavailable());
}

#[test]
fn test_timeout() {
    let error = OllamaError::Timeout;

    assert_eq!(error.to_string(), "Request timeout");
    assert!(error.is_retryable());
    assert!(!error.is_model_unavailable());
    assert_eq!(error.status_code(), None);
}

#[test]
fn test_invalid_response() {
    let error = OllamaError::InvalidResponse("Missing required field".to_string());

    assert!(error.to_string().contains("Invalid response format"));
    assert!(!error.is_retryable());
}

#[test]
fn test_authentication_error() {
    let error = OllamaError::AuthenticationError("Invalid token".to_string());

    assert!(error.to_string().contains("Authentication failed"));
    assert!(!error.is_retryable());
}

#[test]
fn test_rate_limit_exceeded() {
    let error = OllamaError::RateLimitExceeded;

    assert_eq!(error.to_string(), "Rate limit exceeded");
    assert!(!error.is_retryable());
}

#[test]
fn test_stream_error() {
    let error = OllamaError::StreamError("Connection lost".to_string());

    assert!(error.to_string().contains("Streaming error"));
    assert!(!error.is_retryable());
}

#[test]
fn test_config_error() {
    let error = OllamaError::ConfigError("Invalid endpoint".to_string());

    assert!(error.to_string().contains("Configuration error"));
    assert!(!error.is_retryable());
}

#[test]
fn test_invalid_parameter() {
    let error = OllamaError::InvalidParameter {
        parameter: "temperature".to_string(),
        reason: "must be between 0 and 2".to_string(),
    };

    assert!(error.to_string().contains("Invalid parameter: temperature"));
    assert!(error.to_string().contains("must be between 0 and 2"));
    assert!(!error.is_retryable());
}

#[test]
fn test_model_loading() {
    let error = OllamaError::ModelLoading("llama3".to_string());

    assert!(error
        .to_string()
        .contains("Model 'llama3' is currently loading"));
    assert!(error.is_retryable());
    assert!(error.is_model_unavailable());
}

#[test]
fn test_insufficient_resources() {
    let error = OllamaError::InsufficientResources("Out of memory".to_string());

    assert!(error.to_string().contains("Insufficient resources"));
    assert!(!error.is_retryable());
}

#[test]
fn test_other_error() {
    let error = OllamaError::Other("Unexpected error".to_string());

    assert!(error.to_string().contains("Ollama error"));
    assert!(!error.is_retryable());
}

#[test]
fn test_debug_formatting() {
    let error = OllamaError::ModelNotFound("test-model".to_string());
    let debug_str = format!("{:?}", error);

    assert!(debug_str.contains("ModelNotFound"));
    assert!(debug_str.contains("test-model"));
}

#[test]
fn test_network_error_retryable() {
    let error = OllamaError::NetworkError("connection refused".to_string());
    assert!(error.to_string().contains("Network error"));
    assert!(error.is_retryable());
    assert!(!error.is_model_unavailable());
}

#[test]
fn test_non_retryable_errors() {
    assert!(!OllamaError::JsonError("bad".to_string()).is_retryable());
    assert!(!OllamaError::UrlError("bad".to_string()).is_retryable());
    assert!(!OllamaError::InvalidModelName("x/y".to_string()).is_retryable());
    assert!(!OllamaError::InvalidResponse("bad".to_string()).is_retryable());
    assert!(!OllamaError::AuthenticationError("no".to_string()).is_retryable());
    assert!(!OllamaError::RateLimitExceeded.is_retryable());
    assert!(!OllamaError::StreamError("lost".to_string()).is_retryable());
    assert!(!OllamaError::ConfigError("bad".to_string()).is_retryable());
    assert!(!OllamaError::IoError("denied".to_string()).is_retryable());
    assert!(!OllamaError::InvalidParameter {
        parameter: "temperature".to_string(),
        reason: "out of range".to_string()
    }
    .is_retryable());
    assert!(!OllamaError::InsufficientResources("oom".to_string()).is_retryable());
    assert!(!OllamaError::Other("misc".to_string()).is_retryable());
}

#[test]
fn test_classify_http_failure() {
    let not_found = classify_http_failure(404, "llama3".to_string(), "gone".to_string());
    assert_eq!(not_found, OllamaError::ModelNotFound("llama3".to_string()));

    let server = classify_http_failure(500, "llama3".to_string(), "boom".to_string());
    assert_eq!(
        server,
        OllamaError::ServerError {
            status: 500,
            message: "boom".to_string()
        }
    );
}

#[test]
fn test_decode_error_to_ollama_error() {
    let transport = DecodeError::Transport("reset".to_string()).to_ollama_error();
    assert_eq!(transport, OllamaError::StreamError("reset".to_string()));

    let malformed = DecodeError::Malformed {
        raw_line: "not json".to_string(),
        cause: "expected value".to_string(),
    }
    .to_ollama_error();
    assert_eq!(
        malformed,
        OllamaError::InvalidResponse(
            "Failed to parse chunk: expected value - Line: not json".to_string()
        )
    );

    let empty = DecodeError::EmptyChunk.to_ollama_error();
    assert_eq!(
        empty,
        OllamaError::InvalidResponse("Empty or invalid chunk".to_string())
    );

    let ended = DecodeError::StreamEndedWithoutTerminal.to_ollama_error();
    assert_eq!(
        ended,
        OllamaError::StreamError("Stream ended without final response".to_string())
    );
}

#[test]
fn test_default_config() {
    let config = ClientConfig::default();
    assert_eq!(config.base_url, "http://localhost:11434/");
    assert_eq!(config.timeout, 120_000);
    assert!(config.user_agent.contains("ollama-rust-sdk"));
    assert_eq!(config.max_retries, 3);
    assert_eq!(config.retry_delay, 1000);
    assert!(config.follow_redirects);
}

#[test]
fn test_config_new_normalizes_url() {
    let config = ClientConfig::new("http://example.com:8080").unwrap();
    assert_eq!(config.base_url, "http://example.com:8080/");
}

#[test]
fn test_config_new_rejects_bad_url() {
    let result = ClientConfig::new("not a url");
    assert!(matches!(result, Err(OllamaError::ConfigError(_))));
}

#[test]
fn test_config_builder() {
    let config = ClientConfig::builder()
        .base_url("http://example.com:8080")
        .timeout(60_000)
        .max_retries(5)
        .header("X-Custom", "value")
        .build()
        .unwrap();

    assert_eq!(config.base_url, "http://example.com:8080/");
    assert_eq!(config.timeout, 60_000);
    assert_eq!(config.max_retries, 5);
    assert_eq!(
        config.headers,
        vec![("X-Custom".to_string(), "value".to_string())]
    );
}

#[test]
fn test_config_builder_header_overwrites_existing_key() {
    let config = ClientConfig::builder()
        .header("X-Custom", "old")
        .header("X-Other", "kept")
        .header("X-Custom", "new")
        .build()
        .unwrap();

    assert_eq!(
        config.headers,
        vec![
            ("X-Custom".to_string(), "new".to_string()),
            ("X-Other".to_string(), "kept".to_string()),
        ]
    );
}

#[test]
fn test_config_builder_rejects_bad_url() {
    let result = ClientConfig::builder().base_url("::::").build();
    assert!(matches!(result, Err(OllamaError::ConfigError(_))));
}

#[test]
fn test_endpoint_url() {
    let config = ClientConfig::default();

    let url = config.endpoint_url("api/generate").unwrap();
    assert_eq!(url, "http://localhost:11434/api/generate");

    let url = config.endpoint_url("/api/chat").unwrap();
    assert_eq!(url, "http://localhost:11434/api/chat");
}

#[test]
fn test_pull_progress_is_complete() {
    let downloading = PullProgress {
        status: "downloading".to_string(),
        digest: Some("sha256:abc".to_string()),
        total: Some(1000),
        completed: Some(500),
    };
    assert!(!downloading.is_complete());

    // The status is lowercased before the check.
    let shouting = PullProgress {
        status: "SUCCESS".to_string(),
        digest: None,
        total: None,
        completed: None,
    };
    assert!(shouting.is_complete());

    let counters_agree = PullProgress {
        status: "verifying".to_string(),
        digest: None,
        total: Some(1000),
        completed: Some(1000),
    };
    assert!(counters_agree.is_complete());

    let complete = PullProgress {
        status: "download complete".to_string(),
        digest: None,
        total: None,
        completed: None,
    };
    assert!(complete.is_complete());
}

#[test]
fn test_message_creation() {
    let system_msg = ChatMessage::system("You are a helpful assistant".to_string());
    assert_eq!(system_msg.role, MessageRole::System);
    assert_eq!(system_msg.content, "You are a helpful assistant");

    let user_msg = ChatMessage::user("Hello".to_string());
    assert_eq!(user_msg.role, MessageRole::User);
    assert_eq!(user_msg.content, "Hello");

    let assistant_msg = ChatMessage::assistant("Hi there!".to_string());
    assert_eq!(assistant_msg.role, MessageRole::Assistant);
    assert_eq!(assistant_msg.content, "Hi there!");

    let tool_msg = ChatMessage::tool("42".to_string(), "call_7".to_string());
    assert_eq!(tool_msg.role, MessageRole::Tool);
    assert_eq!(tool_msg.tool_call_id, Some("call_7".to_string()));
}

#[test]
fn test_tool_creation() {
    let tool = Tool::function(
        "get_weather".to_string(),
        "Get weather for a location".to_string(),
        "{\"type\":\"object\"}".to_string(),
    );

    assert_eq!(tool.tool_type, "function");
    assert_eq!(tool.function.name, "get_weather");
    assert_eq!(tool.function.description, "Get weather for a location");
}

#[test]
fn test_tool_function_equality() {
    let tool1 = Tool::function(
        "test".to_string(),
        "Test function".to_string(),
        "{\"type\":\"object\"}".to_string(),
    );

    let tool2 = Tool::function(
        "test".to_string(),
        "Test function".to_string(),
        "{\"type\":\"object\"}".to_string(),
    );

    // Tools with the same properties agree field by field.
    assert_eq!(tool1.tool_type, tool2.tool_type);
    assert_eq!(tool1.function.name, tool2.function.name);
    assert_eq!(tool1.function.description, tool2.function.description);
}

#[test]
fn test_model_methods() {
    let model = ollama_rust_sdk::Model {
        name: "qwen3:30b-a3b".to_string(),
        size: 1073741824, // 1GB
        digest: "sha256:abc123".to_string(),
        modified_at: None,
        details: None,
    };

    assert_eq!(model.base_name(), "qwen3");
    assert_eq!(model.tag(), Some("30b-a3b"));
    assert!(model.is_custom());
    assert_eq!(model.size_string(), "1.0 GB");
}

#[test]
fn test_model_name_without_tag() {
    let model = ollama_rust_sdk::Model {
        name: "plainmodel".to_string(),
        size: 1,
        digest: "sha256:0".to_string(),
        modified_at: None,
        details: None,
    };
    assert_eq!(model.base_name(), "plainmodel");
    assert_eq!(model.tag(), None);

    let doubled = ollama_rust_sdk::Model {
        name: "a:b:c".to_string(),
        size: 1,
        digest: "sha256:0".to_string(),
        modified_at: None,
        details: None,
    };
    assert_eq!(doubled.base_name(), "a");
    assert_eq!(doubled.tag(), Some("b"));
}

#[test]
fn test_model_helpers() {
    let model = ollama_rust_sdk::Model {
        name: "qwen3:30b-a3b".to_string(),
        size: 1073741824,
        digest: "sha256:abc123".to_string(),
        modified_at: None,
        details: None,
    };
    assert!(model.is_custom());
    assert_eq!(model.size_string(), "1.0 GB");

    let plain = ollama_rust_sdk::Model {
        name: "llama3:latest".to_string(),
        size: 512,
        digest: "sha256:def".to_string(),
        modified_at: None,
        details: None,
    };
    assert!(!plain.is_custom());
    assert_eq!(plain.size_string(), "512 B");
}

#[test]
fn test_running_model_expiry() {
    let model = ollama_rust_sdk::RunningModel {
        name: "llama3:latest".to_string(),
        size: 1024,
        digest: "sha256:def".to_string(),
        details: None,
        expires_at: Some(10_000),
        size_vram: Some(2048),
    };
    // Two minutes before expiry counts as soon; earlier does not.
    assert!(model.expires_soon_at(9_881));
    assert!(!model.expires_soon_at(9_880));
    assert_eq!(model.vram_string(), "2.0 KB");

    let stays = ollama_rust_sdk::RunningModel {
        name: "llama3:latest".to_string(),
        size: 1024,
        digest: "sha256:def".to_string(),
        details: None,
        expires_at: None,
        size_vram: None,
    };
    assert!(!stays.expires_soon_at(0));
    assert!(!stays.expires_soon());
    assert_eq!(stays.vram_string(), "Unknown");
}
