//! End-to-end decode scenarios: byte buffers framed by the library,
//! lines parsed with the real JSON parser, outcomes folded by the
//! verified aggregator.

use ollama_rust_sdk::DecodeError;
use ollama_rust_sdk::GenerateResponse;
use ollama_rust_sdk::MalformedLine;
use ollama_rust_sdk::StreamChunk;
use ollama_rust_sdk::collect_generate_response;
use ollama_rust_sdk::decode_items;
use ollama_rust_sdk::extract_lines;

/// Parses one framed line as a generate chunk, as the transport adapter
/// does.
fn parse_generate_line(line: &[u8]) -> Result<GenerateResponse, MalformedLine> {
    let text = String::from_utf8_lossy(line).to_string();
    let v = match serde_json::from_str::<serde_json::Value>(&text) {
        Ok(v) => v,
        Err(e) => {
            return Err(MalformedLine {
                raw_line: text,
                cause: e.to_string(),
            })
        }
    };
    let model = v.get("model").and_then(|x| x.as_str());
    let response = v.get("response").and_then(|x| x.as_str());
    let done = v.get("done").and_then(|x| x.as_bool());
    match (model, response, done) {
        (Some(m), Some(r), Some(d)) => Ok(GenerateResponse {
            model: m.to_string(),
            response: r.to_string(),
            done: d,
            context: v.get("context").and_then(|x| x.as_array()).map(|a| {
                a.iter()
                    .filter_map(|x| x.as_i64())
                    .map(|x| x as i32)
                    .collect()
            }),
            total_duration: v.get("total_duration").and_then(|x| x.as_u64()),
            load_duration: v.get("load_duration").and_then(|x| x.as_u64()),
            prompt_eval_count: v
                .get("prompt_eval_count")
                .and_then(|x| x.as_u64())
                .map(|x| x as u32),
            prompt_eval_duration: v.get("prompt_eval_duration").and_then(|x| x.as_u64()),
            eval_count: v.get("eval_count").and_then(|x| x.as_u64()).map(|x| x as u32),
            eval_duration: v.get("eval_duration").and_then(|x| x.as_u64()),
        }),
        _ => Err(MalformedLine {
            raw_line: text,
            cause: "missing required field".to_string(),
        }),
    }
}

/// Decodes one delivered buffer into stream items, as the transport
/// adapter does: frame, parse each line, apply the per-buffer policy.
fn decode_buffer(buf: &[u8]) -> Vec<StreamChunk<GenerateResponse>> {
    let lines = extract_lines(buf);
    let parsed = lines
        .iter()
        .map(|l| parse_generate_line(l))
        .collect::<Vec<_>>();
    decode_items(parsed)
}

#[test]
fn test_decode_two_lines_in_one_buffer() {
    let buf = b"{\"model\":\"m\",\"response\":\"A\",\"done\":false}\n{\"model\":\"m\",\"response\":\"B\",\"done\":false}\n";
    let items = decode_buffer(buf);
    assert_eq!(items.len(), 2);
    let first = items[0].as_ref().unwrap();
    let second = items[1].as_ref().unwrap();
    assert_eq!(first.response, "A");
    assert_eq!(second.response, "B");
}

#[test]
fn test_decode_malformed_line_between_valid_lines() {
    let buf = b"{\"model\":\"m\",\"response\":\"A\",\"done\":false}\nnot json\n{\"model\":\"m\",\"response\":\"B\",\"done\":false}\n";
    let items = decode_buffer(buf);
    assert_eq!(items.len(), 3);
    assert!(items[0].is_ok());
    match &items[1] {
        Err(DecodeError::Malformed { raw_line, .. }) => assert_eq!(raw_line, "not json"),
        other => panic!("expected a Malformed item, got {:?}", other),
    }
    assert!(items[2].is_ok());
    assert_eq!(items[0].as_ref().unwrap().response, "A");
    assert_eq!(items[2].as_ref().unwrap().response, "B");
}

#[test]
fn test_decode_two_buffers_collects_full_response() {
    let buffers: [&[u8]; 2] = [
        b"{\"model\":\"m\",\"response\":\"Hel\",\"done\":false}\n",
        b"{\"model\":\"m\",\"response\":\"lo\",\"done\":true,\"eval_count\":2}\n",
    ];
    let mut items = Vec::new();
    for buf in buffers {
        items.extend(decode_buffer(buf));
    }
    let collected = collect_generate_response(items).unwrap();
    assert_eq!(collected.model, "m");
    assert_eq!(collected.response, "Hello");
    assert!(collected.done);
    assert_eq!(collected.eval_count, Some(2));
}

#[test]
fn test_decode_not_json_buffer_fails_collection() {
    let items = decode_buffer(b"not json\n");
    assert_eq!(items.len(), 1);
    let malformed = match &items[0] {
        Err(e) => e.clone(),
        Ok(_) => panic!("expected a Malformed item"),
    };
    assert!(matches!(malformed, DecodeError::Malformed { .. }));
    let result = collect_generate_response(items);
    assert_eq!(result.unwrap_err(), malformed);
}

#[test]
fn test_decode_empty_buffer_yields_empty_chunk_error() {
    let items = decode_buffer(b"");
    assert_eq!(items.len(), 1);
    assert_eq!(items[0], Err(DecodeError::EmptyChunk));

    let blank = decode_buffer(b"  \n\t\n");
    assert_eq!(blank.len(), 1);
    assert_eq!(blank[0], Err(DecodeError::EmptyChunk));
}

#[test]
fn test_extract_lines_trims_and_skips_blanks() {
    let lines = extract_lines(b"  first \n\n\t\n second\nthird");
    let texts: Vec<String> = lines
        .iter()
        .map(|l| String::from_utf8(l.clone()).unwrap())
        .collect();
    assert_eq!(texts, vec!["first", "second", "third"]);
}

#[test]
fn test_extract_lines_keeps_buffer_order() {
    let lines = extract_lines(b"1\n2\n3\n4\n");
    let texts: Vec<String> = lines
        .iter()
        .map(|l| String::from_utf8(l.clone()).unwrap())
        .collect();
    assert_eq!(texts, vec!["1", "2", "3", "4"]);
}

#[test]
fn test_decode_transport_error_aborts_collection() {
    let mut items = decode_buffer(b"{\"model\":\"m\",\"response\":\"Hel\",\"done\":false}\n");
    items.push(Err(DecodeError::Transport("connection reset".to_string())));
    let result = collect_generate_response(items);
    assert_eq!(
        result.unwrap_err(),
        DecodeError::Transport("connection reset".to_string())
    );
}
