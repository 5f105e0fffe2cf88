use deepseek_json::negotiation::{NegotiationOutcome, Phase, Step};
use deepseek_json::protocol::AnswerItem;
use deepseek_json::{AnswersPayload, Negotiation};

const CLARIFY: &str = r#"{"type":"clarifying_questions","turn":1,"max_questions":3,"questions":[{"id":"q1","text":"Which chain?","required":true}],"checklist":[{"field":"scope","status":"missing"}],"next_action":"await_user"}"#;

const ARTIFACT: &str = r#"{"type":"artifact","artifact_name":"technical_task","version":"1.0","title":"Bot","summary":"s","stakeholders":[],"scope":{"in_scope":[],"out_of_scope":[]},"requirements":{"functional":[],"non_functional":[]},"data_integrations":{"rpc_providers":{"selection":[],"endpoints":{}},"price_source":{"provider":"None"}},"constraints":[],"assumptions":[],"risks":[],"milestones":[],"acceptance_criteria":[],"open_questions":[],"status":"final","end_token":"【END】"}"#;

/// Drives a run with scripted replies; returns the sends made and the outcome.
fn drive(replies: &[&str]) -> (usize, NegotiationOutcome) {
    let mut run = Negotiation::new("build a price bot", 3);
    let mut sends = 0;
    let mut next = replies.iter();
    loop {
        assert_eq!(run.phase(), Phase::AwaitingReply);
        sends += 1;
        let reply = next.next().expect("ran out of scripted replies").to_string();
        match run.on_reply(reply) {
            Step::Finished(outcome) => return (sends, outcome),
            Step::Ask(_) => {
                let answers = AnswersPayload { answers: vec![] };
                match run.on_answers(&answers) {
                    Step::Send => {}
                    Step::Finished(outcome) => return (sends, outcome),
                    Step::Ask(_) => panic!("answers cannot lead to questions"),
                }
            }
            Step::Send => panic!("a reply cannot ask to send"),
        }
    }
}

#[test]
fn six_clarifying_replies_stop_at_the_round_cap() {
    let replies = [CLARIFY; 6];
    let (sends, outcome) = drive(&replies);
    assert_eq!(sends, 5);
    match outcome {
        NegotiationOutcome::RoundCapExceeded(raw) => assert_eq!(raw, CLARIFY),
        other => panic!("expected the round cap, got {:?}", other),
    }
}

#[test]
fn clarifying_then_artifact_takes_two_sends() {
    let (sends, outcome) = drive(&[CLARIFY, ARTIFACT]);
    assert_eq!(sends, 2);
    match outcome {
        NegotiationOutcome::Artifact(a, raw) => {
            assert_eq!(a.title, "Bot");
            assert_eq!(raw, ARTIFACT);
        }
        other => panic!("expected the artifact, got {:?}", other),
    }
}

#[test]
fn unreadable_reply_ends_the_run() {
    let (sends, outcome) = drive(&[CLARIFY, "oops"]);
    assert_eq!(sends, 2);
    match outcome {
        NegotiationOutcome::ParseFailure(err, raw) => {
            assert!(err.starts_with("Failed to parse TaskFinisher JSON: "));
            assert_eq!(raw, "oops");
        }
        other => panic!("expected a parse failure, got {:?}", other),
    }
}

#[test]
fn history_grows_by_two_per_clarifying_round() {
    let mut run = Negotiation::new("build a price bot", 0);
    assert_eq!(run.history().len(), 2);
    assert_eq!(run.history()[0].role, "system");
    assert!(run.history()[0].content.ends_with("- Set MAX_QUESTIONS = 3\n"));
    assert_eq!(
        run.history()[1].content,
        "Describe the result to collect and provide the answer accordingly. Example domain: technical specifications. User request: build a price bot"
    );
    assert!(matches!(run.on_reply(CLARIFY.to_string()), Step::Ask(p) if p.questions.len() == 1));
    assert_eq!(run.history().len(), 2);
    let answers = AnswersPayload {
        answers: vec![
            AnswerItem { id: "q1".to_string(), answer: "Solana".to_string() },
            AnswerItem { id: "q9".to_string(), answer: "unmatched".to_string() },
        ],
    };
    assert!(matches!(run.on_answers(&answers), Step::Send));
    assert_eq!(run.round(), 2);
    assert_eq!(run.history().len(), 4);
    assert_eq!(run.history()[2].role, "assistant");
    assert_eq!(run.history()[2].content, CLARIFY);
    assert_eq!(run.history()[3].role, "user");
    assert_eq!(
        run.history()[3].content,
        r#"{"answers":[{"id":"q1","answer":"Solana"},{"id":"q9","answer":"unmatched"}]}"#
    );
    assert!(matches!(run.on_reply(CLARIFY.to_string()), Step::Ask(_)));
    assert!(matches!(run.on_answers(&AnswersPayload { answers: vec![] }), Step::Send));
    assert_eq!(run.history().len(), 6);
    assert_eq!(run.history()[5].content, r#"{"answers":[]}"#);
}

#[test]
fn empty_question_list_still_takes_a_round() {
    let empty = r#"{"type":"clarifying_questions","turn":1,"max_questions":3,"questions":[],"checklist":[],"next_action":"await_user"}"#;
    let (sends, outcome) = drive(&[empty, ARTIFACT]);
    assert_eq!(sends, 2);
    assert!(matches!(outcome, NegotiationOutcome::Artifact(..)));
}

#[test]
fn round_cap_is_configurable() {
    let mut run = Negotiation::with_round_cap("x", 3, 1);
    assert!(matches!(run.on_reply(CLARIFY.to_string()), Step::Ask(_)));
    match run.on_answers(&AnswersPayload { answers: vec![] }) {
        Step::Finished(NegotiationOutcome::RoundCapExceeded(raw)) => assert_eq!(raw, CLARIFY),
        other => panic!("expected the round cap, got {:?}", other),
    }
    assert_eq!(run.phase(), Phase::Finished);
    assert_eq!(run.history().len(), 4);
}
