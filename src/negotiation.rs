//! The negotiation engine: a state machine that decides each round of the
//! clarify-then-finalize conversation. Its caller performs what it asks for
//! (sending the history, collecting answers) and hands back what came of it.
use vstd::prelude::*;

use crate::exchange::ChatMessage;
use crate::json::{json_parse_of, json_text_of, FromJson, JsonValue};
use crate::protocol::{
    build_system_prompt, document_error, parse_taskfinisher_response, reply_kind, system_prompt_of,
    AnswersPayload, ClarifyingQuestionsPayload, ReplyKind, TaskFinisherResult, TechnicalTaskArtifact,
};
use crate::text::join2;

verus! {

/// Rounds allowed before a run is stopped with its latest reply.
pub const DEFAULT_MAX_ROUNDS: u32 = 5;

/// The text put before the task request in the first user turn.
pub const REQUEST_PREFIX: &'static str = "Describe the result to collect and provide the answer accordingly. Example domain: technical specifications. User request: ";

/// What the engine waits for.
#[derive(PartialEq, Eq, Structural, Clone, Copy, Debug)]
pub enum Phase {
    /// The history is to be sent; the model's reply goes to `on_reply`.
    AwaitingReply,
    /// Questions were shown; the answers go to `on_answers`.
    AwaitingAnswers,
    /// The run has ended.
    Finished,
}

/// How a run ended.
#[derive(Debug)]
pub enum NegotiationOutcome {
    /// The model produced the artifact, read from this reply text.
    Artifact(Box<TechnicalTaskArtifact>, String),
    /// The round cap was reached; the latest reply text is the best effort.
    RoundCapExceeded(String),
    /// A reply could not be read: the error detail and the reply text.
    ParseFailure(String, String),
}

/// What the caller is to do next.
#[derive(Debug)]
pub enum Step {
    /// Send the current history, then hand the reply to `on_reply`.
    Send,
    /// Show these questions and checklist, then hand the answers to `on_answers`.
    Ask(ClarifyingQuestionsPayload),
    /// The run has ended.
    Finished(NegotiationOutcome),
}

/// The kind of ending of a run.
#[derive(PartialEq, Eq, Structural, Clone, Copy, Debug)]
pub enum EndKind {
    Artifact,
    RoundCapExceeded,
    ParseFailure,
}

/// Where a run stands: its round (from 1), its round cap, and what it waits for.
pub struct RunState {
    pub round: nat,
    pub cap: nat,
    pub phase: Phase,
}

/// The state a run starts in under round cap `cap`.
pub open spec fn start_state(cap: nat) -> RunState {
    RunState { round: 1, cap, phase: Phase::AwaitingReply }
}

/// The state after a reply of kind `kind`: only a clarifying reply goes on,
/// to wait for answers.
pub open spec fn after_reply(s: RunState, kind: ReplyKind) -> RunState {
    RunState {
        phase: if kind == ReplyKind::Clarifying {
            Phase::AwaitingAnswers
        } else {
            Phase::Finished
        },
        ..s
    }
}

/// The state after the answers: the next round while the cap allows one,
/// else the end.
pub open spec fn after_answers(s: RunState) -> RunState {
    if s.round < s.cap {
        RunState { round: s.round + 1, phase: Phase::AwaitingReply, ..s }
    } else {
        RunState { phase: Phase::Finished, ..s }
    }
}

/// A run from state `s` (awaiting a reply) whose replies have the kinds
/// `kinds`, in order: how many replies, so how many sends, it takes, and how
/// it ends (`None` when the replies run out first).
pub open spec fn run_from(s: RunState, kinds: Seq<ReplyKind>) -> (nat, Option<EndKind>)
    decreases kinds.len(),
{
    if kinds.len() == 0 {
        (0, None)
    } else if after_reply(s, kinds[0]).phase == Phase::Finished {
        (1, Some(if kinds[0] == ReplyKind::Artifact { EndKind::Artifact } else { EndKind::ParseFailure }))
    } else if after_answers(after_reply(s, kinds[0])).phase == Phase::Finished {
        (1, Some(EndKind::RoundCapExceeded))
    } else {
        let rest = run_from(after_answers(after_reply(s, kinds[0])), kinds.drop_first());
        (rest.0 + 1, rest.1)
    }
}

/// The history that a run starts from.
pub open spec fn seed_history(h: Seq<ChatMessage>, request: Seq<char>, max_questions: u32) -> bool {
    &&& h.len() == 2
    &&& h[0].role@ == "system"@
    &&& h[0].content@ == system_prompt_of(max_questions)
    &&& h[1].role@ == "user"@
    &&& h[1].content@ == REQUEST_PREFIX@ + request
}

/// One negotiation run. It owns its history, which only ever grows.
pub struct Negotiation {
    history: Vec<ChatMessage>,
    round: u32,
    max_rounds: u32,
    phase: Phase,
    pending: String,
}

impl Negotiation {
    /// The conversation so far.
    pub closed spec fn messages(&self) -> Seq<ChatMessage> {
        self.history@
    }

    /// Where the run stands.
    pub closed spec fn state(&self) -> RunState {
        RunState { round: self.round as nat, cap: self.max_rounds as nat, phase: self.phase }
    }

    /// The clarifying reply that answers are awaited for.
    pub closed spec fn pending_reply(&self) -> Seq<char> {
        self.pending@
    }

    /// A run with the default round cap.
    pub fn new(request: &str, max_questions: u32) -> (r: Negotiation)
        ensures
            seed_history(r.messages(), request@, max_questions),
            r.state() == start_state(DEFAULT_MAX_ROUNDS as nat),
    {
        Self::with_round_cap(request, max_questions, DEFAULT_MAX_ROUNDS)
    }

    /// A run seeded with the system instructions for the question cap (0
    /// meaning the default) and the task request; round 1, awaiting a reply.
    pub fn with_round_cap(request: &str, max_questions: u32, max_rounds: u32) -> (r: Negotiation)
        ensures
            seed_history(r.messages(), request@, max_questions),
            r.state() == start_state(max_rounds as nat),
    {
        let mut history: Vec<ChatMessage> = Vec::new();
        history.push(ChatMessage::system(build_system_prompt(max_questions)));
        history.push(ChatMessage::user(join2(REQUEST_PREFIX, request)));
        Negotiation {
            history,
            round: 1,
            max_rounds,
            phase: Phase::AwaitingReply,
            pending: String::new(),
        }
    }

    /// The conversation to send.
    pub fn history(&self) -> (r: &Vec<ChatMessage>)
        ensures
            r@ == self.messages(),
    {
        &self.history
    }

    /// The current round, from 1.
    pub fn round(&self) -> (r: u32)
        ensures
            r == self.state().round,
    {
        self.round
    }

    /// What the engine waits for.
    pub fn phase(&self) -> (r: Phase)
        ensures
            r == self.state().phase,
    {
        self.phase
    }

    /// Takes the model's reply to the history: an artifact ends the run, an
    /// unreadable reply ends it with the error, a clarifying reply asks for
    /// answers. The history is not touched.
    pub fn on_reply(&mut self, raw: String) -> (r: Step)
        requires
            old(self).state().phase == Phase::AwaitingReply,
        ensures
            final(self).messages() == old(self).messages(),
            final(self).state() == after_reply(old(self).state(), reply_kind(raw@)),
            reply_kind(raw@) == ReplyKind::Clarifying ==> final(self).pending_reply() == raw@,
            match r {
                Step::Ask(p) => {
                    &&& reply_kind(raw@) == ReplyKind::Clarifying
                    &&& json_parse_of(raw@) matches Ok(doc)
                    &&& ClarifyingQuestionsPayload::reads_as(doc, p)
                },
                Step::Finished(NegotiationOutcome::Artifact(a, t)) => {
                    &&& reply_kind(raw@) == ReplyKind::Artifact
                    &&& json_parse_of(raw@) matches Ok(doc)
                    &&& TechnicalTaskArtifact::reads_as(doc, *a)
                    &&& t@ == raw@
                },
                Step::Finished(NegotiationOutcome::ParseFailure(m, t)) => {
                    &&& reply_kind(raw@) == ReplyKind::Invalid
                    &&& t@ == raw@
                    &&& m@ == match json_parse_of(raw@) {
                        Ok(doc) => document_error(doc),
                        Err(e) => "Failed to parse TaskFinisher JSON: "@ + e@,
                    }
                },
                _ => false,
            },
    {
        match parse_taskfinisher_response(raw.as_str()) {
            Ok(TaskFinisherResult::Artifact(a, t)) => {
                self.phase = Phase::Finished;
                Step::Finished(NegotiationOutcome::Artifact(a, t))
            },
            Ok(TaskFinisherResult::Clarifying(p, _)) => {
                self.phase = Phase::AwaitingAnswers;
                self.pending = raw;
                Step::Ask(p)
            },
            Err(m) => {
                self.phase = Phase::Finished;
                Step::Finished(NegotiationOutcome::ParseFailure(m, raw))
            },
        }
    }

    /// Takes the answers to the pending questions (possibly none): the
    /// clarifying reply and the serialized answers join the history, in that
    /// order, whatever was asked or answered. The run then goes on to the
    /// next round, or stops at the round cap with the pending reply.
    pub fn on_answers(&mut self, answers: &AnswersPayload) -> (r: Step)
        requires
            old(self).state().phase == Phase::AwaitingAnswers,
        ensures
            final(self).messages().len() == old(self).messages().len() + 2,
            final(self).messages().subrange(0, old(self).messages().len() as int)
                == old(self).messages(),
            final(self).messages()[old(self).messages().len() as int].role@ == "assistant"@,
            final(self).messages()[old(self).messages().len() as int].content@
                == old(self).pending_reply(),
            final(self).messages()[old(self).messages().len() + 1int].role@ == "user"@,
            exists|d: JsonValue|
                AnswersPayload::fits(d) && AnswersPayload::reads_as(d, *answers)
                    && final(self).messages()[old(self).messages().len() + 1int].content@
                    == json_text_of(d),
            final(self).state() == after_answers(old(self).state()),
            final(self).state().phase == Phase::AwaitingReply ==> r is Send,
            final(self).state().phase == Phase::Finished ==> (r matches Step::Finished(
                NegotiationOutcome::RoundCapExceeded(t),
            ) && t@ == old(self).pending_reply()),
    {
        let raw = self.pending.clone();
        self.history.push(ChatMessage::assistant(raw));
        self.history.push(ChatMessage::user(answers.to_json_text()));
        assert(self.history@.subrange(0, old(self).history@.len() as int) =~= old(self).history@);
        if self.round < self.max_rounds {
            self.round = self.round + 1;
            self.phase = Phase::AwaitingReply;
            Step::Send
        } else {
            self.phase = Phase::Finished;
            Step::Finished(NegotiationOutcome::RoundCapExceeded(self.pending.clone()))
        }
    }
}

proof fn lemma_clarifying_until_cap(round: nat, cap: nat, kinds: Seq<ReplyKind>)
    requires
        1 <= round <= cap,
        kinds.len() >= cap - round + 1,
        forall|i: int| 0 <= i <= cap - round ==> kinds[i] == ReplyKind::Clarifying,
    ensures
        run_from(RunState { round, cap, phase: Phase::AwaitingReply }, kinds) == (
            (cap - round + 1) as nat,
            Some(EndKind::RoundCapExceeded),
        ),
    decreases cap - round,
{
    if round < cap {
        let rest = kinds.drop_first();
        assert forall|i: int| 0 <= i <= cap - (round + 1) implies rest[i]
            == ReplyKind::Clarifying by {
            assert(rest[i] == kinds[i + 1]);
        }
        lemma_clarifying_until_cap(round + 1, cap, rest);
    }
}

/// Replies that keep asking questions stop a run at its round cap: when the
/// first `cap` replies are all clarifying, the run ends with the cap exceeded
/// after exactly `cap` sends, and no more.
pub proof fn lemma_round_cap_stops(cap: nat, kinds: Seq<ReplyKind>)
    requires
        cap >= 1,
        kinds.len() >= cap,
        forall|i: int| 0 <= i < cap ==> kinds[i] == ReplyKind::Clarifying,
    ensures
        run_from(start_state(cap), kinds) == (cap, Some(EndKind::RoundCapExceeded)),
{
    lemma_clarifying_until_cap(1, cap, kinds);
}

/// A clarifying reply followed by an artifact ends a run that allows two
/// rounds with the artifact, after exactly two sends.
pub proof fn lemma_clarify_then_artifact(cap: nat, kinds: Seq<ReplyKind>)
    requires
        cap >= 2,
        kinds.len() >= 2,
        kinds[0] == ReplyKind::Clarifying,
        kinds[1] == ReplyKind::Artifact,
    ensures
        run_from(start_state(cap), kinds) == (2nat, Some(EndKind::Artifact)),
{
    let s1 = after_answers(after_reply(start_state(cap), kinds[0]));
    assert(s1 == RunState { round: 2, cap, phase: Phase::AwaitingReply });
    assert(kinds.drop_first()[0] == ReplyKind::Artifact);
    assert(run_from(s1, kinds.drop_first()) == (1nat, Some(EndKind::Artifact)));
}

} // verus!
