use deepseek_json::error::{classify_status, classify_transport, TransportFailure};
use deepseek_json::{DeepSeekError, ErrorKind};

fn failure(timed_out: bool, connect: bool, request: bool, text: &str) -> TransportFailure {
    TransportFailure { timed_out, connect, request, text: text.to_string() }
}

#[test]
fn busy_statuses_are_server_busy() {
    for status in [429u16, 502, 503, 504] {
        let e = classify_status(status, "busy".to_string());
        assert_eq!(e, DeepSeekError::ServerBusy);
        assert!(e.is_server_busy());
        assert!(e.is_transient());
        assert_eq!(e.kind(), ErrorKind::ServerBusy);
    }
}

#[test]
fn other_statuses_are_api_errors_with_the_body() {
    let e = classify_status(400, "bad req".to_string());
    assert_eq!(e, DeepSeekError::ApiError { status: 400, message: "bad req".to_string() });
    assert!(!e.is_transient());
    assert_eq!(e.kind(), ErrorKind::ApiError);
    let e = classify_status(500, "oops".to_string());
    assert_eq!(e.kind(), ErrorKind::ApiError);
}

#[test]
fn every_error_has_exactly_one_kind() {
    let all = vec![
        DeepSeekError::ServerBusy,
        DeepSeekError::NetworkError { message: "n".to_string() },
        DeepSeekError::Timeout { seconds: 3 },
        DeepSeekError::ApiError { status: 401, message: "no".to_string() },
        DeepSeekError::ParseError { message: "p".to_string() },
        DeepSeekError::ConfigError { message: "c".to_string() },
    ];
    let kinds: Vec<ErrorKind> = all.iter().map(|e| e.kind()).collect();
    assert_eq!(
        kinds,
        vec![
            ErrorKind::ServerBusy,
            ErrorKind::NetworkError,
            ErrorKind::Timeout,
            ErrorKind::ApiError,
            ErrorKind::ParseError,
            ErrorKind::ConfigError,
        ]
    );
    let transient: Vec<bool> = all.iter().map(|e| e.is_transient()).collect();
    assert_eq!(transient, vec![true, true, false, false, false, false]);
    assert!(all[1].is_network_error());
    assert!(!all[0].is_network_error());
}

#[test]
fn timeout_carries_the_configured_seconds() {
    let e = classify_transport(&failure(true, true, false, "timed out"), 1);
    assert_eq!(e, DeepSeekError::Timeout { seconds: 1 });
}

#[test]
fn transport_flags_name_the_cause() {
    let e = classify_transport(&failure(false, true, false, "x"), 9);
    assert_eq!(e, DeepSeekError::NetworkError { message: "Failed to connect to server".to_string() });
    let e = classify_transport(&failure(false, false, true, "x"), 9);
    assert_eq!(e, DeepSeekError::NetworkError { message: "Request failed".to_string() });
}

#[test]
fn transport_text_is_read_without_case() {
    let e = classify_transport(&failure(false, false, false, "DNS lookup FAILED"), 9);
    assert_eq!(e, DeepSeekError::NetworkError { message: "DNS resolution failed".to_string() });
    let e = classify_transport(&failure(false, false, false, "Connection Refused (os error 111)"), 9);
    assert_eq!(
        e,
        DeepSeekError::NetworkError { message: "Connection refused by server".to_string() }
    );
    let e = classify_transport(&failure(false, false, false, "Network unreachable"), 9);
    assert_eq!(e, DeepSeekError::NetworkError { message: "Network unreachable".to_string() });
    let e = classify_transport(&failure(false, false, false, "body closed"), 9);
    assert_eq!(e, DeepSeekError::NetworkError { message: "Request error: body closed".to_string() });
}

#[test]
fn user_messages_per_kind() {
    assert_eq!(
        DeepSeekError::ServerBusy.user_message(),
        "🚫 DeepSeek servers are currently busy. Please try again in a few moments."
    );
    assert_eq!(
        DeepSeekError::Timeout { seconds: 30 }.user_message(),
        "⏰ Request timed out after 30 seconds. The server might be overloaded."
    );
    assert_eq!(
        DeepSeekError::ApiError { status: 429, message: String::new() }.user_message(),
        "🚫 Rate limit exceeded. Please wait a moment before trying again."
    );
    assert_eq!(
        DeepSeekError::ApiError { status: 503, message: String::new() }.user_message(),
        "🚫 Service temporarily unavailable. Please try again later."
    );
    assert_eq!(
        DeepSeekError::ApiError { status: 504, message: String::new() }.user_message(),
        "🚫 Server gateway error. Please try again in a few moments."
    );
    assert_eq!(
        DeepSeekError::ApiError { status: 401, message: String::new() }.user_message(),
        "❌ API error (401). Please try again later."
    );
    assert_eq!(
        DeepSeekError::ConfigError { message: "bad".to_string() }.user_message(),
        "⚙️ Configuration error: bad"
    );
    assert_eq!(
        DeepSeekError::NetworkError { message: "x".to_string() }.user_message(),
        "🌐 Network connection failed. Please check your internet connection and try again."
    );
    assert_eq!(
        DeepSeekError::ParseError { message: "x".to_string() }.user_message(),
        "⚠️ Failed to parse server response. Please try again."
    );
}

#[test]
fn remediation_tips_per_kind() {
    let api = |status| DeepSeekError::ApiError { status, message: String::new() };
    assert_eq!(api(401).remediation_tip(), "💡 Tip: Check your DEEPSEEK_API_KEY environment variable.");
    assert_eq!(api(403).remediation_tip(), "💡 Tip: Your API key may not have sufficient permissions.");
    assert_eq!(api(429).remediation_tip(), "💡 Tip: You've hit the rate limit. Wait before trying again.");
    assert_eq!(api(500).remediation_tip(), "💡 Tip: Check the DeepSeek API documentation for more details.");
    assert_eq!(
        DeepSeekError::ServerBusy.remediation_tip(),
        "💡 Tip: Try again in a few minutes when server load is lower."
    );
    assert_eq!(
        DeepSeekError::ConfigError { message: String::new() }.remediation_tip(),
        "💡 Tip: Check your environment variables and configuration."
    );
}
