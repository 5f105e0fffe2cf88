//! The clarify-then-finalize protocol: the two shapes a model reply may take,
//! how a reply is read into one of them, and the instructions that ask the
//! model for them.
use vstd::prelude::*;

use crate::json::{
    field_value, get_field, json_parse_of, json_text, json_text_of, lemma_lookup_at, lookup,
    parse_json, read_field, write_option, FromJson, JsonObject, JsonValue, ToJson,
};
use crate::text::{
    decimal, decimal_text, eq_ignore_ascii_case_text, eq_ignoring_ascii_case, join2, join3,
};

verus! {

/// One question that the model asks before it can finish.
#[derive(Clone, Debug, PartialEq)]
pub struct ClarifyingQuestion {
    pub id: String,
    pub text: String,
    pub required: bool,
    /// Choices offered; `None` and an empty list both mean none.
    pub options: Option<Vec<String>>,
}

/// How complete one required field of the artifact is:
/// "missing", "partial" or "complete".
#[derive(Clone, Debug, PartialEq)]
pub struct ChecklistItem {
    pub field: String,
    pub status: String,
}

/// A reply that asks questions instead of finishing.
#[derive(Clone, Debug, PartialEq)]
pub struct ClarifyingQuestionsPayload {
    /// The discriminator, "clarifying_questions".
    pub type_field: String,
    pub turn: u32,
    pub max_questions: u32,
    pub questions: Vec<ClarifyingQuestion>,
    pub checklist: Vec<ChecklistItem>,
    pub next_action: String,
}

/// Someone with a stake in the task, and their part.
#[derive(Clone, Debug, PartialEq)]
pub struct Stakeholder {
    pub role: String,
    pub description: String,
}

/// What the task covers, and what it leaves out.
#[derive(Clone, Debug, PartialEq)]
pub struct Scope {
    pub in_scope: Vec<String>,
    pub out_of_scope: Vec<String>,
}

/// Something the result must do.
#[derive(Clone, Debug, PartialEq)]
pub struct FunctionalRequirement {
    pub id: String,
    pub statement: String,
    pub rationale: Option<String>,
}

/// A quality the result must have, with its target.
#[derive(Clone, Debug, PartialEq)]
pub struct NonFunctionalRequirement {
    pub id: String,
    pub category: String,
    pub target: String,
}

/// The functional and non-functional requirements.
#[derive(Clone, Debug, PartialEq)]
pub struct Requirements {
    pub functional: Vec<FunctionalRequirement>,
    pub non_functional: Vec<NonFunctionalRequirement>,
}

/// The RPC providers chosen, and their endpoints.
#[derive(Debug)]
pub struct RpcProviders {
    pub selection: Vec<String>,
    /// Endpoint names and their values, passed through as they came.
    pub endpoints: JsonObject,
}

/// Where prices come from, and how long they stay fresh.
#[derive(Clone, Debug, PartialEq)]
pub struct PriceSource {
    pub provider: String,
    pub ttl_seconds: Option<u64>,
}

/// The outside data the result depends on.
#[derive(Debug)]
pub struct DataIntegrations {
    pub rpc_providers: RpcProviders,
    pub price_source: PriceSource,
}

/// A risk and how it is met.
#[derive(Clone, Debug, PartialEq)]
pub struct Risk {
    pub id: String,
    pub description: String,
    pub mitigation: String,
}

/// A milestone and what it delivers.
#[derive(Clone, Debug, PartialEq)]
pub struct Milestone {
    pub id: String,
    pub name: String,
    pub deliverables: Vec<String>,
}

/// A given/when/then acceptance criterion.
#[derive(Clone, Debug, PartialEq)]
pub struct AcceptanceCriterion {
    pub id: String,
    pub given: String,
    pub when: String,
    /// The "then" part of the criterion.
    pub then_clause: String,
}

/// The final deliverable: a technical task.
#[derive(Debug)]
pub struct TechnicalTaskArtifact {
    /// The discriminator, "artifact".
    pub type_field: String,
    pub artifact_name: String,
    pub version: String,
    pub title: String,
    pub summary: String,
    pub stakeholders: Vec<Stakeholder>,
    pub scope: Scope,
    pub requirements: Requirements,
    pub data_integrations: DataIntegrations,
    pub constraints: Vec<String>,
    pub assumptions: Vec<String>,
    pub risks: Vec<Risk>,
    pub milestones: Vec<Milestone>,
    pub acceptance_criteria: Vec<AcceptanceCriterion>,
    pub open_questions: Vec<String>,
    pub status: String,
    pub end_token: String,
}

/// One answer to a clarifying question, by the question's id.
#[derive(Clone, Debug, PartialEq)]
pub struct AnswerItem {
    pub id: String,
    pub answer: String,
}

/// The answers sent back to the model; possibly none.
#[derive(Clone, Debug, PartialEq)]
pub struct AnswersPayload {
    pub answers: Vec<AnswerItem>,
}

impl FromJson for ClarifyingQuestion {
    open spec fn fits(v: JsonValue) -> bool {
        match v {
            JsonValue::Object(e) => {
                &&& <String as FromJson>::fits(field_value(e@, "id"@))
                &&& <String as FromJson>::fits(field_value(e@, "text"@))
                &&& <bool as FromJson>::fits(field_value(e@, "required"@))
                &&& <Option<Vec<String>> as FromJson>::fits(field_value(e@, "options"@))
            },
            _ => false,
        }
    }

    open spec fn reads_as(v: JsonValue, out: ClarifyingQuestion) -> bool {
        match v {
            JsonValue::Object(e) => {
                &&& <String as FromJson>::reads_as(field_value(e@, "id"@), out.id)
                &&& <String as FromJson>::reads_as(field_value(e@, "text"@), out.text)
                &&& <bool as FromJson>::reads_as(field_value(e@, "required"@), out.required)
                &&& <Option<Vec<String>> as FromJson>::reads_as(field_value(e@, "options"@), out.options)
            },
            _ => false,
        }
    }

    fn from_json(v: &JsonValue) -> (r: Option<ClarifyingQuestion>) {
        match v {
            JsonValue::Object(e) => {
                let id = read_field::<String>(e, "id")?;
                let text = read_field::<String>(e, "text")?;
                let required = read_field::<bool>(e, "required")?;
                let options = read_field::<Option<Vec<String>>>(e, "options")?;
                Some(ClarifyingQuestion { id, text, required, options })
            },
            _ => None,
        }
    }
}

impl FromJson for ChecklistItem {
    open spec fn fits(v: JsonValue) -> bool {
        match v {
            JsonValue::Object(e) => {
                &&& <String as FromJson>::fits(field_value(e@, "field"@))
                &&& <String as FromJson>::fits(field_value(e@, "status"@))
            },
            _ => false,
        }
    }

    open spec fn reads_as(v: JsonValue, out: ChecklistItem) -> bool {
        match v {
            JsonValue::Object(e) => {
                &&& <String as FromJson>::reads_as(field_value(e@, "field"@), out.field)
                &&& <String as FromJson>::reads_as(field_value(e@, "status"@), out.status)
            },
            _ => false,
        }
    }

    fn from_json(v: &JsonValue) -> (r: Option<ChecklistItem>) {
        match v {
            JsonValue::Object(e) => {
                let field = read_field::<String>(e, "field")?;
                let status = read_field::<String>(e, "status")?;
                Some(ChecklistItem { field, status })
            },
            _ => None,
        }
    }
}

impl FromJson for ClarifyingQuestionsPayload {
    open spec fn fits(v: JsonValue) -> bool {
        match v {
            JsonValue::Object(e) => {
                &&& <String as FromJson>::fits(field_value(e@, "type"@))
                &&& <u32 as FromJson>::fits(field_value(e@, "turn"@))
                &&& <u32 as FromJson>::fits(field_value(e@, "max_questions"@))
                &&& <Vec<ClarifyingQuestion> as FromJson>::fits(field_value(e@, "questions"@))
                &&& <Vec<ChecklistItem> as FromJson>::fits(field_value(e@, "checklist"@))
                &&& <String as FromJson>::fits(field_value(e@, "next_action"@))
            },
            _ => false,
        }
    }

    open spec fn reads_as(v: JsonValue, out: ClarifyingQuestionsPayload) -> bool {
        match v {
            JsonValue::Object(e) => {
                &&& <String as FromJson>::reads_as(field_value(e@, "type"@), out.type_field)
                &&& <u32 as FromJson>::reads_as(field_value(e@, "turn"@), out.turn)
                &&& <u32 as FromJson>::reads_as(field_value(e@, "max_questions"@), out.max_questions)
                &&& <Vec<ClarifyingQuestion> as FromJson>::reads_as(field_value(e@, "questions"@), out.questions)
                &&& <Vec<ChecklistItem> as FromJson>::reads_as(field_value(e@, "checklist"@), out.checklist)
                &&& <String as FromJson>::reads_as(field_value(e@, "next_action"@), out.next_action)
            },
            _ => false,
        }
    }

    fn from_json(v: &JsonValue) -> (r: Option<ClarifyingQuestionsPayload>) {
        match v {
            JsonValue::Object(e) => {
                let type_field = read_field::<String>(e, "type")?;
                let turn = read_field::<u32>(e, "turn")?;
                let max_questions = read_field::<u32>(e, "max_questions")?;
                let questions = read_field::<Vec<ClarifyingQuestion>>(e, "questions")?;
                let checklist = read_field::<Vec<ChecklistItem>>(e, "checklist")?;
                let next_action = read_field::<String>(e, "next_action")?;
                Some(ClarifyingQuestionsPayload { type_field, turn, max_questions, questions, checklist, next_action })
            },
            _ => None,
        }
    }
}

impl FromJson for Stakeholder {
    open spec fn fits(v: JsonValue) -> bool {
        match v {
            JsonValue::Object(e) => {
                &&& <String as FromJson>::fits(field_value(e@, "role"@))
                &&& <String as FromJson>::fits(field_value(e@, "description"@))
            },
            _ => false,
        }
    }

    open spec fn reads_as(v: JsonValue, out: Stakeholder) -> bool {
        match v {
            JsonValue::Object(e) => {
                &&& <String as FromJson>::reads_as(field_value(e@, "role"@), out.role)
                &&& <String as FromJson>::reads_as(field_value(e@, "description"@), out.description)
            },
            _ => false,
        }
    }

    fn from_json(v: &JsonValue) -> (r: Option<Stakeholder>) {
        match v {
            JsonValue::Object(e) => {
                let role = read_field::<String>(e, "role")?;
                let description = read_field::<String>(e, "description")?;
                Some(Stakeholder { role, description })
            },
            _ => None,
        }
    }
}

impl FromJson for Scope {
    open spec fn fits(v: JsonValue) -> bool {
        match v {
            JsonValue::Object(e) => {
                &&& <Vec<String> as FromJson>::fits(field_value(e@, "in_scope"@))
                &&& <Vec<String> as FromJson>::fits(field_value(e@, "out_of_scope"@))
            },
            _ => false,
        }
    }

    open spec fn reads_as(v: JsonValue, out: Scope) -> bool {
        match v {
            JsonValue::Object(e) => {
                &&& <Vec<String> as FromJson>::reads_as(field_value(e@, "in_scope"@), out.in_scope)
                &&& <Vec<String> as FromJson>::reads_as(field_value(e@, "out_of_scope"@), out.out_of_scope)
            },
            _ => false,
        }
    }

    fn from_json(v: &JsonValue) -> (r: Option<Scope>) {
        match v {
            JsonValue::Object(e) => {
                let in_scope = read_field::<Vec<String>>(e, "in_scope")?;
                let out_of_scope = read_field::<Vec<String>>(e, "out_of_scope")?;
                Some(Scope { in_scope, out_of_scope })
            },
            _ => None,
        }
    }
}

impl FromJson for FunctionalRequirement {
    open spec fn fits(v: JsonValue) -> bool {
        match v {
            JsonValue::Object(e) => {
                &&& <String as FromJson>::fits(field_value(e@, "id"@))
                &&& <String as FromJson>::fits(field_value(e@, "statement"@))
                &&& <Option<String> as FromJson>::fits(field_value(e@, "rationale"@))
            },
            _ => false,
        }
    }

    open spec fn reads_as(v: JsonValue, out: FunctionalRequirement) -> bool {
        match v {
            JsonValue::Object(e) => {
                &&& <String as FromJson>::reads_as(field_value(e@, "id"@), out.id)
                &&& <String as FromJson>::reads_as(field_value(e@, "statement"@), out.statement)
                &&& <Option<String> as FromJson>::reads_as(field_value(e@, "rationale"@), out.rationale)
            },
            _ => false,
        }
    }

    fn from_json(v: &JsonValue) -> (r: Option<FunctionalRequirement>) {
        match v {
            JsonValue::Object(e) => {
                let id = read_field::<String>(e, "id")?;
                let statement = read_field::<String>(e, "statement")?;
                let rationale = read_field::<Option<String>>(e, "rationale")?;
                Some(FunctionalRequirement { id, statement, rationale })
            },
            _ => None,
        }
    }
}

impl FromJson for NonFunctionalRequirement {
    open spec fn fits(v: JsonValue) -> bool {
        match v {
            JsonValue::Object(e) => {
                &&& <String as FromJson>::fits(field_value(e@, "id"@))
                &&& <String as FromJson>::fits(field_value(e@, "category"@))
                &&& <String as FromJson>::fits(field_value(e@, "target"@))
            },
            _ => false,
        }
    }

    open spec fn reads_as(v: JsonValue, out: NonFunctionalRequirement) -> bool {
        match v {
            JsonValue::Object(e) => {
                &&& <String as FromJson>::reads_as(field_value(e@, "id"@), out.id)
                &&& <String as FromJson>::reads_as(field_value(e@, "category"@), out.category)
                &&& <String as FromJson>::reads_as(field_value(e@, "target"@), out.target)
            },
            _ => false,
        }
    }

    fn from_json(v: &JsonValue) -> (r: Option<NonFunctionalRequirement>) {
        match v {
            JsonValue::Object(e) => {
                let id = read_field::<String>(e, "id")?;
                let category = read_field::<String>(e, "category")?;
                let target = read_field::<String>(e, "target")?;
                Some(NonFunctionalRequirement { id, category, target })
            },
            _ => None,
        }
    }
}

impl FromJson for Requirements {
    open spec fn fits(v: JsonValue) -> bool {
        match v {
            JsonValue::Object(e) => {
                &&& <Vec<FunctionalRequirement> as FromJson>::fits(field_value(e@, "functional"@))
                &&& <Vec<NonFunctionalRequirement> as FromJson>::fits(field_value(e@, "non_functional"@))
            },
            _ => false,
        }
    }

    open spec fn reads_as(v: JsonValue, out: Requirements) -> bool {
        match v {
            JsonValue::Object(e) => {
                &&& <Vec<FunctionalRequirement> as FromJson>::reads_as(field_value(e@, "functional"@), out.functional)
                &&& <Vec<NonFunctionalRequirement> as FromJson>::reads_as(field_value(e@, "non_functional"@), out.non_functional)
            },
            _ => false,
        }
    }

    fn from_json(v: &JsonValue) -> (r: Option<Requirements>) {
        match v {
            JsonValue::Object(e) => {
                let functional = read_field::<Vec<FunctionalRequirement>>(e, "functional")?;
                let non_functional = read_field::<Vec<NonFunctionalRequirement>>(e, "non_functional")?;
                Some(Requirements { functional, non_functional })
            },
            _ => None,
        }
    }
}

impl FromJson for RpcProviders {
    open spec fn fits(v: JsonValue) -> bool {
        match v {
            JsonValue::Object(e) => {
                &&& <Vec<String> as FromJson>::fits(field_value(e@, "selection"@))
                &&& <JsonObject as FromJson>::fits(field_value(e@, "endpoints"@))
            },
            _ => false,
        }
    }

    open spec fn reads_as(v: JsonValue, out: RpcProviders) -> bool {
        match v {
            JsonValue::Object(e) => {
                &&& <Vec<String> as FromJson>::reads_as(field_value(e@, "selection"@), out.selection)
                &&& <JsonObject as FromJson>::reads_as(field_value(e@, "endpoints"@), out.endpoints)
            },
            _ => false,
        }
    }

    fn from_json(v: &JsonValue) -> (r: Option<RpcProviders>) {
        match v {
            JsonValue::Object(e) => {
                let selection = read_field::<Vec<String>>(e, "selection")?;
                let endpoints = read_field::<JsonObject>(e, "endpoints")?;
                Some(RpcProviders { selection, endpoints })
            },
            _ => None,
        }
    }
}

impl FromJson for PriceSource {
    open spec fn fits(v: JsonValue) -> bool {
        match v {
            JsonValue::Object(e) => {
                &&& <String as FromJson>::fits(field_value(e@, "provider"@))
                &&& <Option<u64> as FromJson>::fits(field_value(e@, "ttl_seconds"@))
            },
            _ => false,
        }
    }

    open spec fn reads_as(v: JsonValue, out: PriceSource) -> bool {
        match v {
            JsonValue::Object(e) => {
                &&& <String as FromJson>::reads_as(field_value(e@, "provider"@), out.provider)
                &&& <Option<u64> as FromJson>::reads_as(field_value(e@, "ttl_seconds"@), out.ttl_seconds)
            },
            _ => false,
        }
    }

    fn from_json(v: &JsonValue) -> (r: Option<PriceSource>) {
        match v {
            JsonValue::Object(e) => {
                let provider = read_field::<String>(e, "provider")?;
                let ttl_seconds = read_field::<Option<u64>>(e, "ttl_seconds")?;
                Some(PriceSource { provider, ttl_seconds })
            },
            _ => None,
        }
    }
}

impl FromJson for DataIntegrations {
    open spec fn fits(v: JsonValue) -> bool {
        match v {
            JsonValue::Object(e) => {
                &&& <RpcProviders as FromJson>::fits(field_value(e@, "rpc_providers"@))
                &&& <PriceSource as FromJson>::fits(field_value(e@, "price_source"@))
            },
            _ => false,
        }
    }

    open spec fn reads_as(v: JsonValue, out: DataIntegrations) -> bool {
        match v {
            JsonValue::Object(e) => {
                &&& <RpcProviders as FromJson>::reads_as(field_value(e@, "rpc_providers"@), out.rpc_providers)
                &&& <PriceSource as FromJson>::reads_as(field_value(e@, "price_source"@), out.price_source)
            },
            _ => false,
        }
    }

    fn from_json(v: &JsonValue) -> (r: Option<DataIntegrations>) {
        match v {
            JsonValue::Object(e) => {
                let rpc_providers = read_field::<RpcProviders>(e, "rpc_providers")?;
                let price_source = read_field::<PriceSource>(e, "price_source")?;
                Some(DataIntegrations { rpc_providers, price_source })
            },
            _ => None,
        }
    }
}

impl FromJson for Risk {
    open spec fn fits(v: JsonValue) -> bool {
        match v {
            JsonValue::Object(e) => {
                &&& <String as FromJson>::fits(field_value(e@, "id"@))
                &&& <String as FromJson>::fits(field_value(e@, "description"@))
                &&& <String as FromJson>::fits(field_value(e@, "mitigation"@))
            },
            _ => false,
        }
    }

    open spec fn reads_as(v: JsonValue, out: Risk) -> bool {
        match v {
            JsonValue::Object(e) => {
                &&& <String as FromJson>::reads_as(field_value(e@, "id"@), out.id)
                &&& <String as FromJson>::reads_as(field_value(e@, "description"@), out.description)
                &&& <String as FromJson>::reads_as(field_value(e@, "mitigation"@), out.mitigation)
            },
            _ => false,
        }
    }

    fn from_json(v: &JsonValue) -> (r: Option<Risk>) {
        match v {
            JsonValue::Object(e) => {
                let id = read_field::<String>(e, "id")?;
                let description = read_field::<String>(e, "description")?;
                let mitigation = read_field::<String>(e, "mitigation")?;
                Some(Risk { id, description, mitigation })
            },
            _ => None,
        }
    }
}

impl FromJson for Milestone {
    open spec fn fits(v: JsonValue) -> bool {
        match v {
            JsonValue::Object(e) => {
                &&& <String as FromJson>::fits(field_value(e@, "id"@))
                &&& <String as FromJson>::fits(field_value(e@, "name"@))
                &&& <Vec<String> as FromJson>::fits(field_value(e@, "deliverables"@))
            },
            _ => false,
        }
    }

    open spec fn reads_as(v: JsonValue, out: Milestone) -> bool {
        match v {
            JsonValue::Object(e) => {
                &&& <String as FromJson>::reads_as(field_value(e@, "id"@), out.id)
                &&& <String as FromJson>::reads_as(field_value(e@, "name"@), out.name)
                &&& <Vec<String> as FromJson>::reads_as(field_value(e@, "deliverables"@), out.deliverables)
            },
            _ => false,
        }
    }

    fn from_json(v: &JsonValue) -> (r: Option<Milestone>) {
        match v {
            JsonValue::Object(e) => {
                let id = read_field::<String>(e, "id")?;
                let name = read_field::<String>(e, "name")?;
                let deliverables = read_field::<Vec<String>>(e, "deliverables")?;
                Some(Milestone { id, name, deliverables })
            },
            _ => None,
        }
    }
}

impl FromJson for AcceptanceCriterion {
    open spec fn fits(v: JsonValue) -> bool {
        match v {
            JsonValue::Object(e) => {
                &&& <String as FromJson>::fits(field_value(e@, "id"@))
                &&& <String as FromJson>::fits(field_value(e@, "given"@))
                &&& <String as FromJson>::fits(field_value(e@, "when"@))
                &&& <String as FromJson>::fits(field_value(e@, "then"@))
            },
            _ => false,
        }
    }

    open spec fn reads_as(v: JsonValue, out: AcceptanceCriterion) -> bool {
        match v {
            JsonValue::Object(e) => {
                &&& <String as FromJson>::reads_as(field_value(e@, "id"@), out.id)
                &&& <String as FromJson>::reads_as(field_value(e@, "given"@), out.given)
                &&& <String as FromJson>::reads_as(field_value(e@, "when"@), out.when)
                &&& <String as FromJson>::reads_as(field_value(e@, "then"@), out.then_clause)
            },
            _ => false,
        }
    }

    fn from_json(v: &JsonValue) -> (r: Option<AcceptanceCriterion>) {
        match v {
            JsonValue::Object(e) => {
                let id = read_field::<String>(e, "id")?;
                let given = read_field::<String>(e, "given")?;
                let when = read_field::<String>(e, "when")?;
                let then_clause = read_field::<String>(e, "then")?;
                Some(AcceptanceCriterion { id, given, when, then_clause })
            },
            _ => None,
        }
    }
}

impl FromJson for TechnicalTaskArtifact {
    open spec fn fits(v: JsonValue) -> bool {
        match v {
            JsonValue::Object(e) => {
                &&& <String as FromJson>::fits(field_value(e@, "type"@))
                &&& <String as FromJson>::fits(field_value(e@, "artifact_name"@))
                &&& <String as FromJson>::fits(field_value(e@, "version"@))
                &&& <String as FromJson>::fits(field_value(e@, "title"@))
                &&& <String as FromJson>::fits(field_value(e@, "summary"@))
                &&& <Vec<Stakeholder> as FromJson>::fits(field_value(e@, "stakeholders"@))
                &&& <Scope as FromJson>::fits(field_value(e@, "scope"@))
                &&& <Requirements as FromJson>::fits(field_value(e@, "requirements"@))
                &&& <DataIntegrations as FromJson>::fits(field_value(e@, "data_integrations"@))
                &&& <Vec<String> as FromJson>::fits(field_value(e@, "constraints"@))
                &&& <Vec<String> as FromJson>::fits(field_value(e@, "assumptions"@))
                &&& <Vec<Risk> as FromJson>::fits(field_value(e@, "risks"@))
                &&& <Vec<Milestone> as FromJson>::fits(field_value(e@, "milestones"@))
                &&& <Vec<AcceptanceCriterion> as FromJson>::fits(field_value(e@, "acceptance_criteria"@))
                &&& <Vec<String> as FromJson>::fits(field_value(e@, "open_questions"@))
                &&& <String as FromJson>::fits(field_value(e@, "status"@))
                &&& <String as FromJson>::fits(field_value(e@, "end_token"@))
            },
            _ => false,
        }
    }

    open spec fn reads_as(v: JsonValue, out: TechnicalTaskArtifact) -> bool {
        match v {
            JsonValue::Object(e) => {
                &&& <String as FromJson>::reads_as(field_value(e@, "type"@), out.type_field)
                &&& <String as FromJson>::reads_as(field_value(e@, "artifact_name"@), out.artifact_name)
                &&& <String as FromJson>::reads_as(field_value(e@, "version"@), out.version)
                &&& <String as FromJson>::reads_as(field_value(e@, "title"@), out.title)
                &&& <String as FromJson>::reads_as(field_value(e@, "summary"@), out.summary)
                &&& <Vec<Stakeholder> as FromJson>::reads_as(field_value(e@, "stakeholders"@), out.stakeholders)
                &&& <Scope as FromJson>::reads_as(field_value(e@, "scope"@), out.scope)
                &&& <Requirements as FromJson>::reads_as(field_value(e@, "requirements"@), out.requirements)
                &&& <DataIntegrations as FromJson>::reads_as(field_value(e@, "data_integrations"@), out.data_integrations)
                &&& <Vec<String> as FromJson>::reads_as(field_value(e@, "constraints"@), out.constraints)
                &&& <Vec<String> as FromJson>::reads_as(field_value(e@, "assumptions"@), out.assumptions)
                &&& <Vec<Risk> as FromJson>::reads_as(field_value(e@, "risks"@), out.risks)
                &&& <Vec<Milestone> as FromJson>::reads_as(field_value(e@, "milestones"@), out.milestones)
                &&& <Vec<AcceptanceCriterion> as FromJson>::reads_as(field_value(e@, "acceptance_criteria"@), out.acceptance_criteria)
                &&& <Vec<String> as FromJson>::reads_as(field_value(e@, "open_questions"@), out.open_questions)
                &&& <String as FromJson>::reads_as(field_value(e@, "status"@), out.status)
                &&& <String as FromJson>::reads_as(field_value(e@, "end_token"@), out.end_token)
            },
            _ => false,
        }
    }

    fn from_json(v: &JsonValue) -> (r: Option<TechnicalTaskArtifact>) {
        match v {
            JsonValue::Object(e) => {
                let type_field = read_field::<String>(e, "type")?;
                let artifact_name = read_field::<String>(e, "artifact_name")?;
                let version = read_field::<String>(e, "version")?;
                let title = read_field::<String>(e, "title")?;
                let summary = read_field::<String>(e, "summary")?;
                let stakeholders = read_field::<Vec<Stakeholder>>(e, "stakeholders")?;
                let scope = read_field::<Scope>(e, "scope")?;
                let requirements = read_field::<Requirements>(e, "requirements")?;
                let data_integrations = read_field::<DataIntegrations>(e, "data_integrations")?;
                let constraints = read_field::<Vec<String>>(e, "constraints")?;
                let assumptions = read_field::<Vec<String>>(e, "assumptions")?;
                let risks = read_field::<Vec<Risk>>(e, "risks")?;
                let milestones = read_field::<Vec<Milestone>>(e, "milestones")?;
                let acceptance_criteria = read_field::<Vec<AcceptanceCriterion>>(e, "acceptance_criteria")?;
                let open_questions = read_field::<Vec<String>>(e, "open_questions")?;
                let status = read_field::<String>(e, "status")?;
                let end_token = read_field::<String>(e, "end_token")?;
                Some(TechnicalTaskArtifact { type_field, artifact_name, version, title, summary, stakeholders, scope, requirements, data_integrations, constraints, assumptions, risks, milestones, acceptance_criteria, open_questions, status, end_token })
            },
            _ => None,
        }
    }
}

impl FromJson for AnswerItem {
    open spec fn fits(v: JsonValue) -> bool {
        match v {
            JsonValue::Object(e) => {
                &&& <String as FromJson>::fits(field_value(e@, "id"@))
                &&& <String as FromJson>::fits(field_value(e@, "answer"@))
            },
            _ => false,
        }
    }

    open spec fn reads_as(v: JsonValue, out: AnswerItem) -> bool {
        match v {
            JsonValue::Object(e) => {
                &&& <String as FromJson>::reads_as(field_value(e@, "id"@), out.id)
                &&& <String as FromJson>::reads_as(field_value(e@, "answer"@), out.answer)
            },
            _ => false,
        }
    }

    fn from_json(v: &JsonValue) -> (r: Option<AnswerItem>) {
        match v {
            JsonValue::Object(e) => {
                let id = read_field::<String>(e, "id")?;
                let answer = read_field::<String>(e, "answer")?;
                Some(AnswerItem { id, answer })
            },
            _ => None,
        }
    }
}

impl FromJson for AnswersPayload {
    open spec fn fits(v: JsonValue) -> bool {
        match v {
            JsonValue::Object(e) => {
                &&& <Vec<AnswerItem> as FromJson>::fits(field_value(e@, "answers"@))
            },
            _ => false,
        }
    }

    open spec fn reads_as(v: JsonValue, out: AnswersPayload) -> bool {
        match v {
            JsonValue::Object(e) => {
                &&& <Vec<AnswerItem> as FromJson>::reads_as(field_value(e@, "answers"@), out.answers)
            },
            _ => false,
        }
    }

    fn from_json(v: &JsonValue) -> (r: Option<AnswersPayload>) {
        match v {
            JsonValue::Object(e) => {
                let answers = read_field::<Vec<AnswerItem>>(e, "answers")?;
                Some(AnswersPayload { answers })
            },
            _ => None,
        }
    }
}
impl ToJson for ClarifyingQuestion {
    fn to_json(&self) -> (r: JsonValue) {
        let mut e: Vec<(String, JsonValue)> = Vec::new();
        e.push((String::from_str("id"), self.id.to_json()));
        e.push((String::from_str("text"), self.text.to_json()));
        e.push((String::from_str("required"), self.required.to_json()));
        e.push((String::from_str("options"), write_option(&self.options)));
        proof {
            reveal_strlit("id");
            reveal_strlit("text");
            reveal_strlit("required");
            reveal_strlit("options");
            lemma_lookup_at(e@, "id"@, 0);
            assert("id"@.len() != "text"@.len());
            assert(e@[0].0@ != "text"@);
            lemma_lookup_at(e@, "text"@, 1);
            assert("id"@.len() != "required"@.len());
            assert(e@[0].0@ != "required"@);
            assert("text"@.len() != "required"@.len());
            assert(e@[1].0@ != "required"@);
            lemma_lookup_at(e@, "required"@, 2);
            assert("id"@.len() != "options"@.len());
            assert(e@[0].0@ != "options"@);
            assert("text"@.len() != "options"@.len());
            assert(e@[1].0@ != "options"@);
            assert("required"@.len() != "options"@.len());
            assert(e@[2].0@ != "options"@);
            lemma_lookup_at(e@, "options"@, 3);
        }
        JsonValue::Object(e)
    }
}

impl ToJson for ChecklistItem {
    fn to_json(&self) -> (r: JsonValue) {
        let mut e: Vec<(String, JsonValue)> = Vec::new();
        e.push((String::from_str("field"), self.field.to_json()));
        e.push((String::from_str("status"), self.status.to_json()));
        proof {
            reveal_strlit("field");
            reveal_strlit("status");
            lemma_lookup_at(e@, "field"@, 0);
            assert("field"@.len() != "status"@.len());
            assert(e@[0].0@ != "status"@);
            lemma_lookup_at(e@, "status"@, 1);
        }
        JsonValue::Object(e)
    }
}

impl ToJson for ClarifyingQuestionsPayload {
    fn to_json(&self) -> (r: JsonValue) {
        let mut e: Vec<(String, JsonValue)> = Vec::new();
        e.push((String::from_str("type"), self.type_field.to_json()));
        e.push((String::from_str("turn"), self.turn.to_json()));
        e.push((String::from_str("max_questions"), self.max_questions.to_json()));
        e.push((String::from_str("questions"), self.questions.to_json()));
        e.push((String::from_str("checklist"), self.checklist.to_json()));
        e.push((String::from_str("next_action"), self.next_action.to_json()));
        proof {
            reveal_strlit("type");
            reveal_strlit("turn");
            reveal_strlit("max_questions");
            reveal_strlit("questions");
            reveal_strlit("checklist");
            reveal_strlit("next_action");
            lemma_lookup_at(e@, "type"@, 0);
            assert("type"@[1] != "turn"@[1]);
            assert(e@[0].0@ != "turn"@);
            lemma_lookup_at(e@, "turn"@, 1);
            assert("type"@.len() != "max_questions"@.len());
            assert(e@[0].0@ != "max_questions"@);
            assert("turn"@.len() != "max_questions"@.len());
            assert(e@[1].0@ != "max_questions"@);
            lemma_lookup_at(e@, "max_questions"@, 2);
            assert("type"@.len() != "questions"@.len());
            assert(e@[0].0@ != "questions"@);
            assert("turn"@.len() != "questions"@.len());
            assert(e@[1].0@ != "questions"@);
            assert("max_questions"@.len() != "questions"@.len());
            assert(e@[2].0@ != "questions"@);
            lemma_lookup_at(e@, "questions"@, 3);
            assert("type"@.len() != "checklist"@.len());
            assert(e@[0].0@ != "checklist"@);
            assert("turn"@.len() != "checklist"@.len());
            assert(e@[1].0@ != "checklist"@);
            assert("max_questions"@.len() != "checklist"@.len());
            assert(e@[2].0@ != "checklist"@);
            assert("questions"@[0] != "checklist"@[0]);
            assert(e@[3].0@ != "checklist"@);
            lemma_lookup_at(e@, "checklist"@, 4);
            assert("type"@.len() != "next_action"@.len());
            assert(e@[0].0@ != "next_action"@);
            assert("turn"@.len() != "next_action"@.len());
            assert(e@[1].0@ != "next_action"@);
            assert("max_questions"@.len() != "next_action"@.len());
            assert(e@[2].0@ != "next_action"@);
            assert("questions"@.len() != "next_action"@.len());
            assert(e@[3].0@ != "next_action"@);
            assert("checklist"@.len() != "next_action"@.len());
            assert(e@[4].0@ != "next_action"@);
            lemma_lookup_at(e@, "next_action"@, 5);
        }
        JsonValue::Object(e)
    }
}

impl ToJson for AnswerItem {
    fn to_json(&self) -> (r: JsonValue) {
        let mut e: Vec<(String, JsonValue)> = Vec::new();
        e.push((String::from_str("id"), self.id.to_json()));
        e.push((String::from_str("answer"), self.answer.to_json()));
        proof {
            reveal_strlit("id");
            reveal_strlit("answer");
            lemma_lookup_at(e@, "id"@, 0);
            assert("id"@.len() != "answer"@.len());
            assert(e@[0].0@ != "answer"@);
            lemma_lookup_at(e@, "answer"@, 1);
        }
        JsonValue::Object(e)
    }
}

impl ToJson for AnswersPayload {
    fn to_json(&self) -> (r: JsonValue) {
        let mut e: Vec<(String, JsonValue)> = Vec::new();
        e.push((String::from_str("answers"), self.answers.to_json()));
        proof {
            reveal_strlit("answers");
            lemma_lookup_at(e@, "answers"@, 0);
        }
        JsonValue::Object(e)
    }
}


/// The question cap used when none is given.
pub const DEFAULT_MAX_QUESTIONS: u32 = 3;

/// The instructions up to the question cap, which ends them.
pub const SYSTEM_PROMPT_HEAD: &'static str = r#"You are TaskFinisher-JSON.

OPERATING MODE
- You must reply with a SINGLE valid JSON object, no extra text, no Markdown fences.
- Allowed top-level JSON \"type\" values:
  1) \"clarifying_questions\" — when you need up to {MAX_QUESTIONS} answers.
  2) \"artifact\" — the final deliverable.
- Ask at most {MAX_QUESTIONS} clarifying questions TOTAL (you may ask them in one batch). Default {MAX_QUESTIONS}=3.

DEFINITION OF DONE
- Produce an \"artifact\" object that fulfills the required schema fields (see ARTIFACT SHAPE below).
- If information is missing after your questions or the user says \"proceed\", finalize anyway with minimal, labeled assumptions in \"assumptions\" and any remaining items in \"open_questions\".

SELF-STOP RULE
- When you output the final \"artifact\", include: \"status\":\"final\" and \"end_token\":\"【END】\".
- After that, STOP. Do not send more messages.

FORMAT RULES
- Strict JSON (RFC 8259): double quotes, no comments, no trailing commas.
- Use concise, unambiguous language.

CLARIFYING QUESTIONS SHAPE
{
  "type": "clarifying_questions",
  "turn": <integer>,
  "max_questions": <integer>,
  "questions": [
    { "id": "q1", "text": "<question>", "required": true, "options": ["<opt1>", "<opt2>"]? },
    ...
  ],
  "checklist": [
    { "field": "<required_field_name>", "status": "missing|partial|complete" },
    ...
  ],
  "next_action": "await_user"
}

ARTIFACT SHAPE (Technical Task JSON)
{
  "type": "artifact",
  "artifact_name": "technical_task",
  "version": "1.0",
  "title": "<string>",
  "summary": "<string>",
  "stakeholders": [ { "role": "<string>", "description": "<string>" }, ... ],
  "scope": { "in_scope": ["<string>", ...], "out_of_scope": ["<string>", ...] },
  "requirements": {
    "functional": [ { "id": "FR1", "statement": "<string>", "rationale": "<string>"? }, ... ],
    "non_functional": [
      { "id": "NFR1", "category": "<e.g., performance, reliability>", "target": "<string>" }, ...
    ]
  },
  "data_integrations": {
    "rpc_providers": {
      "selection": ["<e.g., Alchemy>"],
      "endpoints": { "<name>": "<env-var or URL>", ... }
    },
    "price_source": { "provider": "<e.g., CoinGecko|None>", "ttl_seconds": <integer>? }
  },
  "constraints": ["<string>", ...],
  "assumptions": ["<string>", ...],
  "risks": [ { "id": "R1", "description": "<string>", "mitigation": "<string>" }, ... ],
  "milestones": [ { "id": "M1", "name": "<string>", "deliverables": ["<string>", ...] }, ... ],
  "acceptance_criteria": [
    { "id": "AC1", "given": "<string>", "when": "<string>", "then": "<string>" },
    ...
  ],
  "open_questions": ["<string>", ...],
  "status": "final",
  "end_token": "【END】"
}

IMPORTANT
- When you ask questions, include a concise checklist of required fields and their completion status.
- When the user replies with answers using a JSON payload of the form {"answers": [{"id":"q1", "answer":"..."}, ...]},
  proceed to produce the final artifact unless additional critical information is still missing.

CONFIG
- Set MAX_QUESTIONS = "#;

/// The question cap in force: 0 stands for the default.
pub open spec fn effective_max_questions(max_questions: u32) -> u32 {
    if max_questions == 0 {
        DEFAULT_MAX_QUESTIONS
    } else {
        max_questions
    }
}

/// The system instructions for a question cap.
pub open spec fn system_prompt_of(max_questions: u32) -> Seq<char> {
    SYSTEM_PROMPT_HEAD@ + decimal(effective_max_questions(max_questions) as nat) + "\n"@
}

/// The question cap in force: 0 stands for the default.
pub fn effective_max_questions_of(max_questions: u32) -> (r: u32)
    ensures
        r == effective_max_questions(max_questions),
{
    if max_questions == 0 {
        DEFAULT_MAX_QUESTIONS
    } else {
        max_questions
    }
}

/// The system instructions that restrict the model to the two reply shapes,
/// cap the questions it may ask, and name the completion signal. A cap of 0
/// means the default cap.
pub fn build_system_prompt(max_questions: u32) -> (r: String)
    ensures
        r@ == system_prompt_of(max_questions),
{
    let cap = effective_max_questions_of(max_questions);
    let n = decimal_text(cap as u64);
    join3(SYSTEM_PROMPT_HEAD, n.as_str(), "\n")
}

/// A model reply read into one of the two shapes, with the text it came from.
#[derive(Debug)]
pub enum TaskFinisherResult {
    Clarifying(ClarifyingQuestionsPayload, String),
    Artifact(Box<TechnicalTaskArtifact>, String),
}

/// Which shape a reply has, if any.
#[derive(PartialEq, Eq, Structural, Clone, Copy, Debug)]
pub enum ReplyKind {
    Clarifying,
    Artifact,
    Invalid,
}

/// The `type` member of a document, when the document is an object and the
/// member is a string.
pub open spec fn type_tag(doc: JsonValue) -> Option<Seq<char>> {
    match doc {
        JsonValue::Object(e) => match lookup(e@, "type"@) {
            Some(JsonValue::Str(s)) => Some(s@),
            _ => None,
        },
        _ => None,
    }
}

/// The shape of a document: the one its `type` names, when it reads as that shape.
pub open spec fn document_kind(doc: JsonValue) -> ReplyKind {
    match type_tag(doc) {
        Some(t) => if t == "clarifying_questions"@ && ClarifyingQuestionsPayload::fits(doc) {
            ReplyKind::Clarifying
        } else if t == "artifact"@ && TechnicalTaskArtifact::fits(doc) {
            ReplyKind::Artifact
        } else {
            ReplyKind::Invalid
        },
        None => ReplyKind::Invalid,
    }
}

/// The shape of a reply text.
pub open spec fn reply_kind(raw: Seq<char>) -> ReplyKind {
    match json_parse_of(raw) {
        Ok(doc) => document_kind(doc),
        Err(_) => ReplyKind::Invalid,
    }
}

/// The error detail for a document that is not a valid reply.
pub open spec fn document_error(doc: JsonValue) -> Seq<char> {
    match type_tag(doc) {
        None => "Missing 'type' in TaskFinisher response"@,
        Some(t) => if t == "clarifying_questions"@ {
            "Invalid clarifying_questions shape: a member is missing or mistyped"@
        } else if t == "artifact"@ {
            "Invalid artifact shape: a member is missing or mistyped"@
        } else {
            "Unsupported 'type': "@ + t
        },
    }
}

/// `r` is what reading the document `doc` of text `raw` gives: the shape its
/// `type` names, read from it and paired with the text, or the error detail.
pub open spec fn reads_reply(doc: JsonValue, raw: Seq<char>, r: Result<TaskFinisherResult, String>) -> bool {
    match r {
        Ok(TaskFinisherResult::Clarifying(p, t)) => {
            &&& document_kind(doc) == ReplyKind::Clarifying
            &&& ClarifyingQuestionsPayload::reads_as(doc, p)
            &&& t@ == raw
        },
        Ok(TaskFinisherResult::Artifact(a, t)) => {
            &&& document_kind(doc) == ReplyKind::Artifact
            &&& TechnicalTaskArtifact::reads_as(doc, *a)
            &&& t@ == raw
        },
        Err(m) => document_kind(doc) == ReplyKind::Invalid && m@ == document_error(doc),
    }
}

/// Reads a parsed reply: branches on its `type` member first, then reads the
/// named shape strictly, ignoring unknown members.
pub fn interpret_document(doc: &JsonValue, raw: &str) -> (r: Result<TaskFinisherResult, String>)
    ensures
        reads_reply(*doc, raw@, r),
{
    let tag = match doc {
        JsonValue::Object(e) => match get_field(e, "type") {
            Some(JsonValue::Str(s)) => s,
            _ => {
                return Err(String::from_str("Missing 'type' in TaskFinisher response"));
            },
        },
        _ => {
            return Err(String::from_str("Missing 'type' in TaskFinisher response"));
        },
    };
    proof {
        reveal_strlit("artifact");
        reveal_strlit("clarifying_questions");
        assert("artifact"@.len() != "clarifying_questions"@.len());
    }
    if *tag == String::from_str("clarifying_questions") {
        match ClarifyingQuestionsPayload::from_json(doc) {
            Some(p) => Ok(TaskFinisherResult::Clarifying(p, String::from_str(raw))),
            None => Err(
                String::from_str(
                    "Invalid clarifying_questions shape: a member is missing or mistyped",
                ),
            ),
        }
    } else if *tag == String::from_str("artifact") {
        match TechnicalTaskArtifact::from_json(doc) {
            Some(a) => Ok(TaskFinisherResult::Artifact(Box::new(a), String::from_str(raw))),
            None => Err(String::from_str("Invalid artifact shape: a member is missing or mistyped")),
        }
    } else {
        Err(join2("Unsupported 'type': ", tag.as_str()))
    }
}

/// Parses a model reply: the text must be JSON, and the document a valid
/// clarifying payload or artifact. Never repairs malformed text.
pub fn parse_taskfinisher_response(raw: &str) -> (r: Result<TaskFinisherResult, String>)
    ensures
        match json_parse_of(raw@) {
            Ok(doc) => reads_reply(doc, raw@, r),
            Err(e) => r matches Err(m) && m@ == "Failed to parse TaskFinisher JSON: "@ + e@,
        },
{
    match parse_json(raw) {
        Ok(doc) => interpret_document(&doc, raw),
        Err(e) => Err(join2("Failed to parse TaskFinisher JSON: ", e.as_str())),
    }
}


/// `a` and `b` are the same question.
pub open spec fn same_question(a: ClarifyingQuestion, b: ClarifyingQuestion) -> bool {
    &&& a.id@ == b.id@
    &&& a.text@ == b.text@
    &&& a.required == b.required
    &&& match (a.options, b.options) {
        (None, None) => true,
        (Some(x), Some(y)) => x@.len() == y@.len() && forall|i: int|
            0 <= i < x@.len() ==> (#[trigger] x@[i])@ == y@[i]@,
        _ => false,
    }
}

/// `a` and `b` are the same checklist entry.
pub open spec fn same_checklist_item(a: ChecklistItem, b: ChecklistItem) -> bool {
    a.field@ == b.field@ && a.status@ == b.status@
}

/// `a` and `b` are the same clarifying payload, question by question and
/// entry by entry.
pub open spec fn same_payload(a: ClarifyingQuestionsPayload, b: ClarifyingQuestionsPayload) -> bool {
    &&& a.type_field@ == b.type_field@
    &&& a.turn == b.turn
    &&& a.max_questions == b.max_questions
    &&& a.next_action@ == b.next_action@
    &&& a.questions@.len() == b.questions@.len()
    &&& forall|i: int|
        0 <= i < a.questions@.len() ==> #[trigger] same_question(a.questions@[i], b.questions@[i])
    &&& a.checklist@.len() == b.checklist@.len()
    &&& forall|i: int|
        0 <= i < a.checklist@.len() ==> #[trigger] same_checklist_item(
            a.checklist@[i],
            b.checklist@[i],
        )
}

proof fn lemma_question_read_once(v: JsonValue, a: ClarifyingQuestion, b: ClarifyingQuestion)
    requires
        ClarifyingQuestion::reads_as(v, a),
        ClarifyingQuestion::reads_as(v, b),
    ensures
        same_question(a, b),
{
    if let (Some(x), Some(y)) = (a.options, b.options) {
        assert forall|i: int| 0 <= i < x@.len() implies (#[trigger] x@[i])@ == y@[i]@ by {
            if let JsonValue::Object(e) = v {
                if let JsonValue::Array(items) = field_value(e@, "options"@) {
                    assert(<String as FromJson>::reads_as(items@[i], x@[i]));
                    assert(<String as FromJson>::reads_as(items@[i], y@[i]));
                }
            }
        }
    }
}

/// A clarifying payload written as a document (a document that fits the
/// payload shape and reads as `p`, which is what `to_json` guarantees) reads
/// back, through the reply parser, as a clarifying reply with the same
/// questions and checklist.
pub proof fn lemma_clarifying_round_trip(
    p: ClarifyingQuestionsPayload,
    doc: JsonValue,
    raw: Seq<char>,
    r: Result<TaskFinisherResult, String>,
)
    requires
        p.type_field@ == "clarifying_questions"@,
        ClarifyingQuestionsPayload::fits(doc),
        ClarifyingQuestionsPayload::reads_as(doc, p),
        reads_reply(doc, raw, r),
    ensures
        r matches Ok(TaskFinisherResult::Clarifying(q, t)) && same_payload(p, q) && t@ == raw,
{
    assert(type_tag(doc) == Some(p.type_field@));
    assert(document_kind(doc) == ReplyKind::Clarifying);
    if let (Ok(TaskFinisherResult::Clarifying(q, t)), JsonValue::Object(e)) = (r, doc) {
        if let JsonValue::Array(qs) = field_value(e@, "questions"@) {
            assert forall|i: int| 0 <= i < p.questions@.len() implies #[trigger] same_question(
                p.questions@[i],
                q.questions@[i],
            ) by {
                lemma_question_read_once(qs@[i], p.questions@[i], q.questions@[i]);
            }
        }
        if let JsonValue::Array(cs) = field_value(e@, "checklist"@) {
            assert forall|i: int| 0 <= i < p.checklist@.len() implies #[trigger] same_checklist_item(
                p.checklist@[i],
                q.checklist@[i],
            ) by {
                assert(ChecklistItem::reads_as(cs@[i], p.checklist@[i]));
                assert(ChecklistItem::reads_as(cs@[i], q.checklist@[i]));
            }
        }
    }
}

/// A document without a `type` member is rejected with the missing-type detail.
pub proof fn lemma_missing_type_rejected(
    doc: JsonValue,
    raw: Seq<char>,
    r: Result<TaskFinisherResult, String>,
)
    requires
        doc matches JsonValue::Object(e) && lookup(e@, "type"@) is None,
        reads_reply(doc, raw, r),
    ensures
        r matches Err(m) && m@ == "Missing 'type' in TaskFinisher response"@,
{
}

/// An artifact without its `end_token` member is rejected.
pub proof fn lemma_artifact_without_end_token_rejected(
    doc: JsonValue,
    raw: Seq<char>,
    r: Result<TaskFinisherResult, String>,
)
    requires
        doc matches JsonValue::Object(e) && lookup(e@, "end_token"@) is None,
        type_tag(doc) == Some("artifact"@),
        reads_reply(doc, raw, r),
    ensures
        r is Err,
{
    reveal_strlit("artifact");
    reveal_strlit("clarifying_questions");
    assert("artifact"@.len() != "clarifying_questions"@.len());
    assert(!TechnicalTaskArtifact::fits(doc));
}

/// A clarifying payload with an empty question list is accepted, as a reply
/// with no questions.
pub proof fn lemma_empty_questions_accepted(
    doc: JsonValue,
    raw: Seq<char>,
    r: Result<TaskFinisherResult, String>,
)
    requires
        type_tag(doc) == Some("clarifying_questions"@),
        ClarifyingQuestionsPayload::fits(doc),
        doc matches JsonValue::Object(e) && field_value(e@, "questions"@) matches JsonValue::Array(
            qs,
        ) && qs@.len() == 0,
        reads_reply(doc, raw, r),
    ensures
        r matches Ok(TaskFinisherResult::Clarifying(p, _)) && p.questions@.len() == 0,
{
}


impl AnswersPayload {
    /// The answers as compact JSON text, `{"answers":[{"id":..,"answer":..},..]}`.
    pub fn to_json_text(&self) -> (r: String)
        ensures
            exists|d: JsonValue|
                AnswersPayload::fits(d) && AnswersPayload::reads_as(d, *self) && r@ == json_text_of(
                    d,
                ),
    {
        let d = self.to_json();
        json_text(&d)
    }
}


/// Whether a line asks to leave: "/quit" or "/exit", in any ASCII case.
pub fn is_quit_command(input: &str) -> (r: bool)
    ensures
        r == (eq_ignoring_ascii_case(input@, "/quit"@) || eq_ignoring_ascii_case(input@, "/exit"@)),
{
    eq_ignore_ascii_case_text(input, "/quit") || eq_ignore_ascii_case_text(input, "/exit")
}

/// Whether a line typed for a question ends the collection of answers: a
/// quit command or "/proceed", in any ASCII case.
pub open spec fn ends_answers(input: Seq<char>) -> bool {
    ||| eq_ignoring_ascii_case(input, "/quit"@)
    ||| eq_ignoring_ascii_case(input, "/exit"@)
    ||| eq_ignoring_ascii_case(input, "/proceed"@)
}

/// Records the line typed (already trimmed) for question `id`: an empty line
/// skips the question, a line that ends the collection records nothing and
/// returns `false`, any other line becomes the answer. Returns whether to go
/// on to the next question.
pub fn record_answer(answers: &mut Vec<AnswerItem>, id: &String, input: String) -> (go_on: bool)
    ensures
        input@.len() == 0 ==> go_on && final(answers)@ == old(answers)@,
        input@.len() != 0 && ends_answers(input@) ==> !go_on && final(answers)@ == old(answers)@,
        input@.len() != 0 && !ends_answers(input@) ==> {
            &&& go_on
            &&& final(answers)@.len() == old(answers)@.len() + 1
            &&& final(answers)@.subrange(0, old(answers)@.len() as int) == old(answers)@
            &&& final(answers)@.last().id@ == id@
            &&& final(answers)@.last().answer == input
        },
{
    if input.unicode_len() == 0 {
        return true;
    }
    if is_quit_command(input.as_str()) || eq_ignore_ascii_case_text(input.as_str(), "/proceed") {
        return false;
    }
    answers.push(AnswerItem { id: id.clone(), answer: input });
    assert(answers@.subrange(0, old(answers)@.len() as int) =~= old(answers)@);
    true
}

} // verus!
