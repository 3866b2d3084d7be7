//! Tests of the data model and helpers.

use ollama_rust_sdk::CopyRequest;
use ollama_rust_sdk::CreateRequest;
use ollama_rust_sdk::DeleteRequest;
use ollama_rust_sdk::EmbedInput;
use ollama_rust_sdk::HttpMethod;
use ollama_rust_sdk::KeepAlive;
use ollama_rust_sdk::MessageRole;
use ollama_rust_sdk::PullRequest;
use ollama_rust_sdk::ShowRequest;
use ollama_rust_sdk::ToolChoice;
use ollama_rust_sdk::format_bytes;

#[test]
fn test_blob_digest_format() {
    let digest = "sha256:29fdb92e57cf0827ded04ae6461b5931d01fa595843f55d36f5b275a52087dd2";
    assert!(digest.starts_with("sha256:"));
    assert_eq!(digest.len(), 71); // "sha256:" + 64 hex characters
}

#[test]
fn test_pull_request_creation() {
    let request = PullRequest {
        name: "test-model".to_string(),
        stream: Some(true),
        insecure: None,
    };

    assert_eq!(request.name, "test-model");
    assert_eq!(request.stream, Some(true));
}

#[test]
fn test_create_request_creation() {
    let request = CreateRequest {
        name: "test-model".to_string(),
        modelfile: "FROM llama3:latest".to_string(),
        stream: Some(false),
        quantize: None,
    };

    assert_eq!(request.name, "test-model");
    assert_eq!(request.modelfile, "FROM llama3:latest");
    assert_eq!(request.stream, Some(false));
}

#[test]
fn test_copy_request_creation() {
    let request = CopyRequest {
        source: "source-model".to_string(),
        destination: "dest-model".to_string(),
    };

    assert_eq!(request.source, "source-model");
    assert_eq!(request.destination, "dest-model");
}

#[test]
fn test_delete_request_creation() {
    let request = DeleteRequest {
        name: "model-to-delete".to_string(),
    };

    assert_eq!(request.name, "model-to-delete");
}

#[test]
fn test_show_request_creation() {
    let request = ShowRequest {
        name: "model-to-show".to_string(),
        verbose: Some(true),
    };

    assert_eq!(request.name, "model-to-show");
    assert_eq!(request.verbose, Some(true));
}

#[test]
fn test_message_role_display() {
    assert_eq!(MessageRole::System.to_string(), "system");
    assert_eq!(MessageRole::User.to_string(), "user");
    assert_eq!(MessageRole::Assistant.to_string(), "assistant");
    assert_eq!(MessageRole::Tool.to_string(), "tool");
}

#[test]
fn test_keep_alive_variants() {
    let duration = KeepAlive::from("10m");
    let seconds = KeepAlive::from(300u64);

    match duration {
        KeepAlive::Duration(d) => assert_eq!(d, "10m"),
        _ => panic!("Expected Duration variant"),
    }

    match seconds {
        KeepAlive::Seconds(s) => assert_eq!(s, 300),
        _ => panic!("Expected Seconds variant"),
    }
}

#[test]
fn test_tool_choice_variants() {
    let auto_choice = ToolChoice::Auto("auto".to_string());
    match auto_choice {
        ToolChoice::Auto(s) => assert_eq!(s, "auto"),
        _ => panic!("Expected Auto variant"),
    }

    let none_choice = ToolChoice::Disabled("none".to_string());
    match none_choice {
        ToolChoice::Disabled(s) => assert_eq!(s, "none"),
        _ => panic!("Expected Disabled variant"),
    }

    let specific_choice = ToolChoice::Specific {
        tool_type: "function".to_string(),
        function: ollama_rust_sdk::FunctionChoice {
            name: "my_function".to_string(),
        },
    };
    match specific_choice {
        ToolChoice::Specific {
            tool_type,
            function,
        } => {
            assert_eq!(tool_type, "function");
            assert_eq!(function.name, "my_function");
        }
        _ => panic!("Expected Specific variant"),
    }
}

#[test]
fn test_embed_input_from_string() {
    let input: EmbedInput = "test".into();
    match input {
        EmbedInput::Single(s) => assert_eq!(s, "test"),
        _ => panic!("Expected Single variant"),
    }
}

#[test]
fn test_embed_input_from_vec() {
    let input: EmbedInput = vec!["test1", "test2"].into();
    match input {
        EmbedInput::Multiple(v) => assert_eq!(v, vec!["test1", "test2"]),
        _ => panic!("Expected Multiple variant"),
    }
}

#[test]
fn test_format_bytes() {
    assert_eq!(format_bytes(0), "0 B");
    assert_eq!(format_bytes(512), "512 B");
    assert_eq!(format_bytes(1024), "1.0 KB");
    assert_eq!(format_bytes(1536), "1.5 KB");
    assert_eq!(format_bytes(1048576), "1.0 MB");
    assert_eq!(format_bytes(1073741824), "1.0 GB");
}

#[test]
fn test_http_method_as_str() {
    assert_eq!(HttpMethod::Get.as_str(), "GET");
    assert_eq!(HttpMethod::Post.as_str(), "POST");
    assert_eq!(HttpMethod::Put.as_str(), "PUT");
    assert_eq!(HttpMethod::Delete.as_str(), "DELETE");
    assert_eq!(HttpMethod::Head.as_str(), "HEAD");
}

#[test]
fn test_format_bytes_more_sizes() {
    assert_eq!(format_bytes(1), "1 B");
    assert_eq!(format_bytes(1023), "1023 B");
    // 1280 bytes is exactly 1.25 KB; the tie goes to the even digit.
    assert_eq!(format_bytes(1280), "1.2 KB");
    assert_eq!(format_bytes(1099511627776), "1.0 TB");
    assert_eq!(format_bytes(u64::MAX), "16777216.0 TB");
}

#[test]
fn test_embed_input_from_owned_values() {
    let single: EmbedInput = String::from("alpha").into();
    match single {
        EmbedInput::Single(s) => assert_eq!(s, "alpha"),
        _ => panic!("Expected Single variant"),
    }

    let multiple: EmbedInput = vec!["a".to_string(), "b".to_string()].into();
    match multiple {
        EmbedInput::Multiple(v) => assert_eq!(v, vec!["a", "b"]),
        _ => panic!("Expected Multiple variant"),
    }
}

#[test]
fn test_embed_input_count() {
    let single: EmbedInput = "one".into();
    assert_eq!(single.input_count(), 1);
    let multiple: EmbedInput = vec!["one", "two", "three"].into();
    assert_eq!(multiple.input_count(), 3);
}
