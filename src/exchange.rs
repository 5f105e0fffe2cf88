//! The wire side of a chat exchange: messages, the request, and reading the
//! service's reply.
use vstd::prelude::*;

use crate::config::Config;
use crate::error::{is_success_status, status_error, DeepSeekError};
use crate::json::{
    field_value, json_parse_of, parse_json, read_field, same_json, FromJson, JsonNumber, JsonValue,
};
use crate::text::{join2, join3};

verus! {

/// One role-tagged turn of a conversation: "system", "user" or "assistant".
#[derive(Clone, Debug, PartialEq)]
pub struct ChatMessage {
    pub role: String,
    pub content: String,
}

impl ChatMessage {
    /// A turn of the system instructions.
    pub fn system(content: String) -> (r: ChatMessage)
        ensures
            r.role@ == "system"@,
            r.content == content,
    {
        ChatMessage { role: String::from_str("system"), content }
    }

    /// A turn of the person asking.
    pub fn user(content: String) -> (r: ChatMessage)
        ensures
            r.role@ == "user"@,
            r.content == content,
    {
        ChatMessage { role: String::from_str("user"), content }
    }

    /// A turn of the model.
    pub fn assistant(content: String) -> (r: ChatMessage)
        ensures
            r.role@ == "assistant"@,
            r.content == content,
    {
        ChatMessage { role: String::from_str("assistant"), content }
    }
}

impl FromJson for ChatMessage {
    open spec fn fits(v: JsonValue) -> bool {
        match v {
            JsonValue::Object(e) => {
                &&& <String as FromJson>::fits(field_value(e@, "role"@))
                &&& <String as FromJson>::fits(field_value(e@, "content"@))
            },
            _ => false,
        }
    }

    open spec fn reads_as(v: JsonValue, out: ChatMessage) -> bool {
        match v {
            JsonValue::Object(e) => {
                &&& <String as FromJson>::reads_as(field_value(e@, "role"@), out.role)
                &&& <String as FromJson>::reads_as(field_value(e@, "content"@), out.content)
            },
            _ => false,
        }
    }

    fn from_json(v: &JsonValue) -> (r: Option<ChatMessage>) {
        match v {
            JsonValue::Object(e) => {
                let role = read_field::<String>(e, "role")?;
                let content = read_field::<String>(e, "content")?;
                Some(ChatMessage { role, content })
            },
            _ => None,
        }
    }
}

/// One choice of a completion reply.
#[derive(Clone, Debug, PartialEq)]
pub struct Choice {
    pub message: ChatMessage,
}

impl FromJson for Choice {
    open spec fn fits(v: JsonValue) -> bool {
        v matches JsonValue::Object(e) && ChatMessage::fits(field_value(e@, "message"@))
    }

    open spec fn reads_as(v: JsonValue, out: Choice) -> bool {
        v matches JsonValue::Object(e) && ChatMessage::reads_as(
            field_value(e@, "message"@),
            out.message,
        )
    }

    fn from_json(v: &JsonValue) -> (r: Option<Choice>) {
        match v {
            JsonValue::Object(e) => {
                let message = read_field::<ChatMessage>(e, "message")?;
                Some(Choice { message })
            },
            _ => None,
        }
    }
}

/// The body of a completion reply.
#[derive(Clone, Debug, PartialEq)]
pub struct ApiResponse {
    pub choices: Vec<Choice>,
}

impl FromJson for ApiResponse {
    open spec fn fits(v: JsonValue) -> bool {
        v matches JsonValue::Object(e) && <Vec<Choice> as FromJson>::fits(
            field_value(e@, "choices"@),
        )
    }

    open spec fn reads_as(v: JsonValue, out: ApiResponse) -> bool {
        v matches JsonValue::Object(e) && <Vec<Choice> as FromJson>::reads_as(
            field_value(e@, "choices"@),
            out.choices,
        )
    }

    fn from_json(v: &JsonValue) -> (r: Option<ApiResponse>) {
        match v {
            JsonValue::Object(e) => {
                let choices = read_field::<Vec<Choice>>(e, "choices")?;
                Some(ApiResponse { choices })
            },
            _ => None,
        }
    }
}

/// The choices of a reply body that reads as a completion reply.
pub open spec fn choices_of(doc: JsonValue) -> Seq<JsonValue> {
    match doc {
        JsonValue::Object(e) => match field_value(e@, "choices"@) {
            JsonValue::Array(items) => items@,
            _ => Seq::empty(),
        },
        _ => Seq::empty(),
    }
}

/// The message content of one choice.
pub open spec fn choice_content(choice: JsonValue) -> Seq<char> {
    match choice {
        JsonValue::Object(c) => match field_value(c@, "message"@) {
            JsonValue::Object(m) => match field_value(m@, "content"@) {
                JsonValue::Str(s) => s@,
                _ => Seq::empty(),
            },
            _ => Seq::empty(),
        },
        _ => Seq::empty(),
    }
}

/// `r` is what a reply body `doc` gives: the first choice's content, or a
/// parse error when the body has another shape or no choice.
pub open spec fn completion_of(doc: JsonValue, r: Result<String, DeepSeekError>) -> bool {
    if !ApiResponse::fits(doc) {
        r matches Err(DeepSeekError::ParseError { message }) && message@
            == "Failed to parse API response: the body does not have the expected shape"@
    } else if choices_of(doc).len() == 0 {
        r matches Err(DeepSeekError::ParseError { message }) && message@
            == "No choices in API response"@
    } else {
        r matches Ok(c) && c@ == choice_content(choices_of(doc)[0])
    }
}

/// Takes the assistant text out of a parsed completion reply.
pub fn completion_content(doc: &JsonValue) -> (r: Result<String, DeepSeekError>)
    ensures
        completion_of(*doc, r),
{
    match ApiResponse::from_json(doc) {
        None => Err(
            DeepSeekError::ParseError {
                message: String::from_str(
                    "Failed to parse API response: the body does not have the expected shape",
                ),
            },
        ),
        Some(reply) => {
            assert(reply.choices@.len() == choices_of(*doc).len());
            if reply.choices.len() == 0 {
                Err(
                    DeepSeekError::ParseError {
                        message: String::from_str("No choices in API response"),
                    },
                )
            } else {
                assert(Choice::reads_as(choices_of(*doc)[0], reply.choices@[0]));
                Ok(reply.choices[0].message.content.clone())
            }
        },
    }
}

/// `r` is the outcome of an HTTP reply with `status` and `body`.
pub open spec fn reply_outcome(status: u16, body: String, r: Result<String, DeepSeekError>) -> bool {
    if !is_success_status(status) {
        r == Err::<String, DeepSeekError>(status_error(status, body))
    } else {
        match json_parse_of(body@) {
            Ok(doc) => completion_of(doc, r),
            Err(e) => r matches Err(DeepSeekError::ParseError { message }) && message@
                == "Failed to parse API response: "@ + e@,
        }
    }
}

/// Turns an HTTP reply into the assistant text or a classified failure: a
/// status outside 2xx is classified, a 2xx body must be a completion reply
/// with at least one choice.
pub fn interpret_reply(status: u16, body: String) -> (r: Result<String, DeepSeekError>)
    ensures
        reply_outcome(status, body, r),
{
    if status < 200 || status > 299 {
        return Err(crate::error::classify_status(status, body));
    }
    match parse_json(body.as_str()) {
        Ok(doc) => completion_content(&doc),
        Err(e) => Err(
            DeepSeekError::ParseError {
                message: join2("Failed to parse API response: ", e.as_str()),
            },
        ),
    }
}

/// What is sent for one exchange. The temperature is in thousandths.
#[derive(Clone, Debug, PartialEq)]
pub struct ChatRequest {
    pub model: String,
    pub messages: Vec<ChatMessage>,
    /// Always "json_object": the reply must be one JSON object.
    pub response_format: String,
    pub max_tokens: u32,
    pub temperature_milli: i32,
}

/// The request for `messages` under `config`.
pub fn build_chat_request(config: &Config, messages: Vec<ChatMessage>) -> (r: ChatRequest)
    ensures
        r.model@ == config.model@,
        r.messages == messages,
        r.response_format@ == "json_object"@,
        r.max_tokens == config.max_tokens,
        r.temperature_milli == config.temperature_milli,
{
    ChatRequest {
        model: config.model.clone(),
        messages,
        response_format: String::from_str("json_object"),
        max_tokens: config.max_tokens,
        temperature_milli: config.temperature_milli,
    }
}

/// The address that completions are posted to.
pub fn completions_url(base_url: &str) -> (r: String)
    ensures
        r@ == base_url@ + "/chat/completions"@,
{
    join2(base_url, "/chat/completions")
}

/// The value of the authorization header for a credential.
pub fn bearer_header(api_key: &str) -> (r: String)
    ensures
        r@ == "Bearer "@ + api_key@,
{
    join2("Bearer ", api_key)
}

/// The instructions for a single structured query, up to the timestamp.
pub const QUERY_FORMAT_HEAD: &'static str = r#"
                Please respond with a JSON object containing the following fields:
                {
                "title": "A concise title for the topic (string)",
                "description": "A brief description or summary (string)",
                "content": "The main content or detailed response (string)",
                "category": "Optional category classification (string or null)",
                "timestamp": "Current response timestamp: "#;

/// The instructions for a single structured query, after the timestamp.
pub const QUERY_FORMAT_TAIL: &'static str = r#" (string)",
                "confidence": "Optional confidence score between 0.0 and 1.0 (number or null)"
                }

                Make sure to provide valid JSON format in your response. Use the provided timestamp as the current response time.
                Do not include any other text or comments in your response.
            "#;

/// The system turn of a single structured query.
pub const QUERY_SYSTEM_PROMPT: &'static str =
    "You are a helpful assistant that always responds with valid JSON in the specified format.";

/// `m` are the turns of a single structured query for `input` at `timestamp`.
pub open spec fn is_query_messages(m: Seq<ChatMessage>, input: Seq<char>, timestamp: Seq<char>) -> bool {
    &&& m.len() == 2
    &&& m[0].role@ == "system"@
    &&& m[0].content@ == QUERY_SYSTEM_PROMPT@
    &&& m[1].role@ == "user"@
    &&& m[1].content@ == input + "\n\n"@ + QUERY_FORMAT_HEAD@ + timestamp + QUERY_FORMAT_TAIL@
}

/// The turns of a single structured query: fixed instructions, then the
/// question followed by the required reply shape, stamped with `timestamp`.
pub fn build_query_messages(user_input: &str, timestamp: &str) -> (r: Vec<ChatMessage>)
    ensures
        is_query_messages(r@, user_input@, timestamp@),
{
    let mut content = join3(user_input, "\n\n", QUERY_FORMAT_HEAD);
    content.append(timestamp);
    content.append(QUERY_FORMAT_TAIL);
    let mut r: Vec<ChatMessage> = Vec::new();
    r.push(ChatMessage::system(String::from_str(QUERY_SYSTEM_PROMPT)));
    r.push(ChatMessage::user(content));
    r
}

/// Relies on chrono::Utc::now and DateTime::to_rfc3339: the current time as
/// RFC 3339 text. Nothing is claimed of the value.
#[verifier::external_body]
fn now_rfc3339() -> String {
    chrono::Utc::now().to_rfc3339()
}

/// The turns of a single structured query, stamped with the current time.
pub fn build_query_messages_now(user_input: &str) -> (r: Vec<ChatMessage>)
    ensures
        exists|timestamp: Seq<char>| is_query_messages(r@, user_input@, timestamp),
{
    let now = now_rfc3339();
    build_query_messages(user_input, now.as_str())
}

impl FromJson for JsonNumber {
    open spec fn fits(v: JsonValue) -> bool {
        v is Number
    }

    open spec fn reads_as(v: JsonValue, out: JsonNumber) -> bool {
        same_json(v, JsonValue::Number(out))
    }

    fn from_json(v: &JsonValue) -> (r: Option<JsonNumber>) {
        match v {
            JsonValue::Number(JsonNumber::PosInt(n)) => Some(JsonNumber::PosInt(*n)),
            JsonValue::Number(JsonNumber::NegInt(n)) => Some(JsonNumber::NegInt(*n)),
            JsonValue::Number(JsonNumber::Float(t)) => Some(JsonNumber::Float(t.clone())),
            _ => None,
        }
    }
}

/// The reply to a single structured query. The confidence is any JSON number.
#[derive(Clone, Debug, PartialEq)]
pub struct DeepSeekResponse {
    pub title: String,
    pub description: String,
    pub content: String,
    pub category: Option<String>,
    pub timestamp: Option<String>,
    pub confidence: Option<JsonNumber>,
}

impl FromJson for DeepSeekResponse {
    open spec fn fits(v: JsonValue) -> bool {
        match v {
            JsonValue::Object(e) => {
                &&& <String as FromJson>::fits(field_value(e@, "title"@))
                &&& <String as FromJson>::fits(field_value(e@, "description"@))
                &&& <String as FromJson>::fits(field_value(e@, "content"@))
                &&& <Option<String> as FromJson>::fits(field_value(e@, "category"@))
                &&& <Option<String> as FromJson>::fits(field_value(e@, "timestamp"@))
                &&& <Option<JsonNumber> as FromJson>::fits(field_value(e@, "confidence"@))
            },
            _ => false,
        }
    }

    open spec fn reads_as(v: JsonValue, out: DeepSeekResponse) -> bool {
        match v {
            JsonValue::Object(e) => {
                &&& <String as FromJson>::reads_as(field_value(e@, "title"@), out.title)
                &&& <String as FromJson>::reads_as(field_value(e@, "description"@), out.description)
                &&& <String as FromJson>::reads_as(field_value(e@, "content"@), out.content)
                &&& <Option<String> as FromJson>::reads_as(field_value(e@, "category"@), out.category)
                &&& <Option<String> as FromJson>::reads_as(field_value(e@, "timestamp"@), out.timestamp)
                &&& <Option<JsonNumber> as FromJson>::reads_as(field_value(e@, "confidence"@), out.confidence)
            },
            _ => false,
        }
    }

    fn from_json(v: &JsonValue) -> (r: Option<DeepSeekResponse>) {
        match v {
            JsonValue::Object(e) => {
                let title = read_field::<String>(e, "title")?;
                let description = read_field::<String>(e, "description")?;
                let content = read_field::<String>(e, "content")?;
                let category = read_field::<Option<String>>(e, "category")?;
                let timestamp = read_field::<Option<String>>(e, "timestamp")?;
                let confidence = read_field::<Option<JsonNumber>>(e, "confidence")?;
                Some(DeepSeekResponse { title, description, content, category, timestamp, confidence })
            },
            _ => None,
        }
    }
}

/// `r` is what the reply text `content` gives as a structured response.
pub open spec fn structured_outcome(content: Seq<char>, r: Result<DeepSeekResponse, DeepSeekError>) -> bool {
    match json_parse_of(content) {
        Ok(doc) => if DeepSeekResponse::fits(doc) {
            r matches Ok(x) && DeepSeekResponse::reads_as(doc, x)
        } else {
            r matches Err(DeepSeekError::ParseError { message }) && message@
                == "Failed to parse JSON response from DeepSeek: the reply does not have the expected shape"@
        },
        Err(e) => r matches Err(DeepSeekError::ParseError { message }) && message@
            == "Failed to parse JSON response from DeepSeek: "@ + e@,
    }
}

/// Reads the assistant text of a single structured query.
pub fn parse_structured_response(content: &str) -> (r: Result<DeepSeekResponse, DeepSeekError>)
    ensures
        structured_outcome(content@, r),
{
    match parse_json(content) {
        Ok(doc) => match DeepSeekResponse::from_json(&doc) {
            Some(x) => Ok(x),
            None => Err(
                DeepSeekError::ParseError {
                    message: String::from_str(
                        "Failed to parse JSON response from DeepSeek: the reply does not have the expected shape",
                    ),
                },
            ),
        },
        Err(e) => Err(
            DeepSeekError::ParseError {
                message: join2("Failed to parse JSON response from DeepSeek: ", e.as_str()),
            },
        ),
    }
}

} // verus!
