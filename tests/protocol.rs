use deepseek_json::json::{JsonNumber, JsonValue, ToJson};
use deepseek_json::protocol::{
    interpret_document, is_quit_command, record_answer, AnswerItem, ChecklistItem,
    ClarifyingQuestion, ClarifyingQuestionsPayload,
};
use deepseek_json::{build_system_prompt, parse_taskfinisher_response, TaskFinisherResult};

fn sample_payload() -> ClarifyingQuestionsPayload {
    ClarifyingQuestionsPayload {
        type_field: "clarifying_questions".to_string(),
        turn: 1,
        max_questions: 3,
        questions: vec![
            ClarifyingQuestion {
                id: "q1".to_string(),
                text: "Which chain?".to_string(),
                required: true,
                options: Some(vec!["Ethereum".to_string(), "Solana".to_string()]),
            },
            ClarifyingQuestion {
                id: "q2".to_string(),
                text: "Budget?".to_string(),
                required: false,
                options: None,
            },
        ],
        checklist: vec![
            ChecklistItem { field: "scope".to_string(), status: "missing".to_string() },
            ChecklistItem { field: "title".to_string(), status: "complete".to_string() },
        ],
        next_action: "await_user".to_string(),
    }
}

const ARTIFACT: &str = r#"{"type":"artifact","artifact_name":"technical_task","version":"1.0",
"title":"Price bot","summary":"Tracks prices",
"stakeholders":[{"role":"owner","description":"pays"}],
"scope":{"in_scope":["prices"],"out_of_scope":["trading"]},
"requirements":{"functional":[{"id":"FR1","statement":"fetch prices"}],
 "non_functional":[{"id":"NFR1","category":"performance","target":"1s"}]},
"data_integrations":{"rpc_providers":{"selection":["Alchemy"],"endpoints":{"main":"ENV_RPC","weights":[1,2.5]}},
 "price_source":{"provider":"CoinGecko","ttl_seconds":60}},
"constraints":["rust"],"assumptions":["A1"],
"risks":[{"id":"R1","description":"rate limits","mitigation":"cache"}],
"milestones":[{"id":"M1","name":"MVP","deliverables":["bot"]}],
"acceptance_criteria":[{"id":"AC1","given":"a token","when":"asked","then":"price shown"}],
"open_questions":[],"status":"final","end_token":"【END】","extra":true}"#;

#[test]
fn clarifying_payload_round_trips_through_text() {
    let p = sample_payload();
    let doc = p.to_json();
    let text = doc.to_text();
    match parse_taskfinisher_response(&text) {
        Ok(TaskFinisherResult::Clarifying(q, raw)) => {
            assert_eq!(q, p);
            assert_eq!(raw, text);
        }
        other => panic!("expected a clarifying reply, got {:?}", other),
    }
}

#[test]
fn clarifying_payload_round_trips_as_a_document() {
    let p = sample_payload();
    match interpret_document(&p.to_json(), "raw") {
        Ok(TaskFinisherResult::Clarifying(q, raw)) => {
            assert_eq!(q, p);
            assert_eq!(raw, "raw");
        }
        other => panic!("expected a clarifying reply, got {:?}", other),
    }
}

#[test]
fn object_without_type_is_rejected() {
    let err = parse_taskfinisher_response(r#"{"turn":1,"questions":[]}"#).unwrap_err();
    assert_eq!(err, "Missing 'type' in TaskFinisher response");
    let err = parse_taskfinisher_response(r#"["artifact"]"#).unwrap_err();
    assert_eq!(err, "Missing 'type' in TaskFinisher response");
    let err = parse_taskfinisher_response(r#"{"type":7}"#).unwrap_err();
    assert_eq!(err, "Missing 'type' in TaskFinisher response");
}

#[test]
fn artifact_without_end_token_is_rejected() {
    let text = ARTIFACT.replace(r#","end_token":"【END】""#, "");
    let err = parse_taskfinisher_response(&text).unwrap_err();
    assert!(err.starts_with("Invalid artifact shape"), "got {}", err);
}

#[test]
fn clarifying_with_zero_questions_is_accepted() {
    let text = r#"{"type":"clarifying_questions","turn":2,"max_questions":3,"questions":[],"checklist":[],"next_action":"await_user"}"#;
    match parse_taskfinisher_response(text) {
        Ok(TaskFinisherResult::Clarifying(p, raw)) => {
            assert!(p.questions.is_empty());
            assert_eq!(p.turn, 2);
            assert_eq!(raw, text);
        }
        other => panic!("expected a clarifying reply, got {:?}", other),
    }
}

#[test]
fn full_artifact_is_read() {
    match parse_taskfinisher_response(ARTIFACT) {
        Ok(TaskFinisherResult::Artifact(a, raw)) => {
            assert_eq!(raw, ARTIFACT);
            assert_eq!(a.title, "Price bot");
            assert_eq!(a.end_token, "【END】");
            assert_eq!(a.requirements.functional[0].rationale, None);
            assert_eq!(a.data_integrations.price_source.ttl_seconds, Some(60));
            assert_eq!(a.acceptance_criteria[0].then_clause, "price shown");
            let members = &a.data_integrations.rpc_providers.endpoints.members;
            assert_eq!(members.len(), 2);
            assert_eq!(members[0].0, "main");
            assert!(matches!(&members[0].1, JsonValue::Str(s) if s == "ENV_RPC"));
            match &members[1].1 {
                JsonValue::Array(items) => {
                    assert!(matches!(items[0], JsonValue::Number(JsonNumber::PosInt(1))));
                    assert!(matches!(&items[1], JsonValue::Number(JsonNumber::Float(t)) if t == "2.5"));
                }
                other => panic!("expected an array, got {:?}", other),
            }
        }
        other => panic!("expected an artifact, got {:?}", other),
    }
}

#[test]
fn mistyped_member_fails_the_whole_parse() {
    let text = r#"{"type":"clarifying_questions","turn":"one","max_questions":3,"questions":[],"checklist":[],"next_action":"x"}"#;
    let err = parse_taskfinisher_response(text).unwrap_err();
    assert_eq!(err, "Invalid clarifying_questions shape: a member is missing or mistyped");
    let text = r#"{"type":"clarifying_questions","turn":-1,"max_questions":3,"questions":[],"checklist":[],"next_action":"x"}"#;
    assert!(parse_taskfinisher_response(text).is_err());
    let text = r#"{"type":"clarifying_questions","turn":4294967296,"max_questions":3,"questions":[],"checklist":[],"next_action":"x"}"#;
    assert!(parse_taskfinisher_response(text).is_err());
}

#[test]
fn null_and_missing_options_both_mean_none() {
    let text = r#"{"type":"clarifying_questions","turn":1,"max_questions":3,"questions":[{"id":"q1","text":"a","required":true,"options":null},{"id":"q2","text":"b","required":false}],"checklist":[],"next_action":"x"}"#;
    match parse_taskfinisher_response(text) {
        Ok(TaskFinisherResult::Clarifying(p, _)) => {
            assert_eq!(p.questions[0].options, None);
            assert_eq!(p.questions[1].options, None);
        }
        other => panic!("expected a clarifying reply, got {:?}", other),
    }
}

#[test]
fn unsupported_type_is_named() {
    let err = parse_taskfinisher_response(r#"{"type":"poem"}"#).unwrap_err();
    assert_eq!(err, "Unsupported 'type': poem");
}

#[test]
fn malformed_text_is_a_parse_failure() {
    let err = parse_taskfinisher_response("not-json").unwrap_err();
    assert!(err.starts_with("Failed to parse TaskFinisher JSON: "), "got {}", err);
    assert!(err.len() > "Failed to parse TaskFinisher JSON: ".len());
}

#[test]
fn system_prompt_carries_the_cap() {
    let p = build_system_prompt(4);
    assert!(p.starts_with("You are TaskFinisher-JSON."));
    assert!(p.ends_with("- Set MAX_QUESTIONS = 4\n"));
    assert!(p.contains(r#""end_token": "【END】""#));
    assert!(p.contains("Ask at most {MAX_QUESTIONS} clarifying questions TOTAL"));
    assert_eq!(build_system_prompt(0), build_system_prompt(3));
    assert!(build_system_prompt(12).ends_with("= 12\n"));
}

#[test]
fn quit_commands_ignore_case() {
    assert!(is_quit_command("/quit"));
    assert!(is_quit_command("/EXIT"));
    assert!(is_quit_command("/Quit"));
    assert!(!is_quit_command("quit"));
    assert!(!is_quit_command("/quit now"));
}

#[test]
fn answers_are_recorded_skipped_or_ended() {
    let mut answers: Vec<AnswerItem> = Vec::new();
    assert!(record_answer(&mut answers, &"q1".to_string(), String::new()));
    assert!(answers.is_empty());
    assert!(record_answer(&mut answers, &"q2".to_string(), "Solana".to_string()));
    assert_eq!(answers, vec![AnswerItem { id: "q2".to_string(), answer: "Solana".to_string() }]);
    assert!(!record_answer(&mut answers, &"q3".to_string(), "/PROCEED".to_string()));
    assert!(!record_answer(&mut answers, &"q3".to_string(), "/exit".to_string()));
    assert_eq!(answers.len(), 1);
}
