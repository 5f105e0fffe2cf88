use deepseek_json::config::Config;
use deepseek_json::exchange::{
    bearer_header, build_chat_request, build_query_messages, build_query_messages_now,
    completions_url, interpret_reply, parse_structured_response,
};
use deepseek_json::json::JsonNumber;
use deepseek_json::{ChatMessage, DeepSeekError};

fn success_body(content: &str) -> String {
    let escaped = content.replace('\\', "\\\\").replace('"', "\\\"");
    format!(r#"{{"choices":[{{"message":{{"role":"assistant","content":"{}"}}}}]}}"#, escaped)
}

#[test]
fn reply_content_is_the_first_choice() {
    let body = r#"{"id":"x","choices":[{"message":{"role":"assistant","content":"first"}},{"message":{"role":"assistant","content":"second"}}]}"#;
    assert_eq!(interpret_reply(200, body.to_string()), Ok("first".to_string()));
}

#[test]
fn send_request_empty_choices_is_parse_error() {
    let err = interpret_reply(200, r#"{"choices":[]}"#.to_string()).unwrap_err();
    assert_eq!(err, DeepSeekError::ParseError { message: "No choices in API response".to_string() });
}

#[test]
fn send_messages_raw_maps_http_errors() {
    match interpret_reply(400, "bad req".to_string()) {
        Err(DeepSeekError::ApiError { status, message }) => {
            assert_eq!(status, 400);
            assert!(message.contains("bad req"));
        }
        other => panic!("expected ApiError, got {:?}", other),
    }
    assert_eq!(interpret_reply(503, "busy".to_string()), Err(DeepSeekError::ServerBusy));
}

#[test]
fn reply_body_that_is_not_json_is_parse_error() {
    match interpret_reply(200, "<html>".to_string()) {
        Err(DeepSeekError::ParseError { message }) => {
            assert!(message.starts_with("Failed to parse API response: "));
        }
        other => panic!("expected ParseError, got {:?}", other),
    }
    match interpret_reply(200, r#"{"choices":[{"text":"x"}]}"#.to_string()) {
        Err(DeepSeekError::ParseError { message }) => {
            assert_eq!(
                message,
                "Failed to parse API response: the body does not have the expected shape"
            );
        }
        other => panic!("expected ParseError, got {:?}", other),
    }
}

#[test]
fn send_request_success_parses_response() {
    let content = r#"{"title":"Hello","description":"World","content":"Body","category":"demo","timestamp":"2024-01-01T00:00:00Z","confidence":0.9}"#;
    let text = interpret_reply(200, success_body(content)).unwrap();
    assert_eq!(text, content);
    let r = parse_structured_response(&text).expect("request should succeed");
    assert_eq!(r.title, "Hello");
    assert_eq!(r.description, "World");
    assert_eq!(r.content, "Body");
    assert_eq!(r.category, Some("demo".to_string()));
    assert_eq!(r.timestamp, Some("2024-01-01T00:00:00Z".to_string()));
    assert_eq!(r.confidence, Some(JsonNumber::Float("0.9".to_string())));
}

#[test]
fn send_request_invalid_json_in_content_is_parse_error() {
    let err = parse_structured_response("not-json").unwrap_err();
    assert!(matches!(err, DeepSeekError::ParseError { .. }));
    let err = parse_structured_response(r#"{"title":"t"}"#).unwrap_err();
    assert!(matches!(err, DeepSeekError::ParseError { .. }));
}

#[test]
fn optional_fields_may_be_null_or_absent() {
    let r = parse_structured_response(r#"{"title":"t","description":"d","content":"c","category":null,"confidence":1}"#)
        .unwrap();
    assert_eq!(r.category, None);
    assert_eq!(r.timestamp, None);
    assert_eq!(r.confidence, Some(JsonNumber::PosInt(1)));
}

#[test]
fn request_carries_config_and_history() {
    let mut config = Config::default();
    config.model = "test-model".to_string();
    config.max_tokens = 256;
    config.temperature_milli = 100;
    let messages = vec![ChatMessage::user("hi".to_string())];
    let req = build_chat_request(&config, messages.clone());
    assert_eq!(req.model, "test-model");
    assert_eq!(req.messages, messages);
    assert_eq!(req.response_format, "json_object");
    assert_eq!(req.max_tokens, 256);
    assert_eq!(req.temperature_milli, 100);
    assert_eq!(completions_url("http://localhost:8080"), "http://localhost:8080/chat/completions");
    assert_eq!(bearer_header("test_key"), "Bearer test_key");
}

#[test]
fn query_messages_embed_the_input_and_timestamp() {
    let m = build_query_messages("x", "2024-01-01T00:00:00Z");
    assert_eq!(m.len(), 2);
    assert_eq!(m[0].role, "system");
    assert_eq!(
        m[0].content,
        "You are a helpful assistant that always responds with valid JSON in the specified format."
    );
    assert_eq!(m[1].role, "user");
    assert!(m[1].content.starts_with("x\n\n\n                Please respond with a JSON object"));
    assert!(m[1].content.contains("Current response timestamp: 2024-01-01T00:00:00Z (string)"));
    let now = build_query_messages_now("y");
    assert!(now[1].content.starts_with("y\n\n"));
}
