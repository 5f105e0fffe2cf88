//! The closed set of failures of a chat exchange, how transport outcomes are
//! classified into it, and the hint shown to a person for each.
use vstd::prelude::*;

use crate::text::{contains, contains_text, decimal, decimal_text, join2, join3};

verus! {

/// One failed operation of the client. Exactly one variant describes it.
#[derive(Clone, Debug, PartialEq)]
pub enum DeepSeekError {
    ServerBusy,
    NetworkError { message: String },
    Timeout { seconds: u64 },
    ApiError { status: u16, message: String },
    ParseError { message: String },
    ConfigError { message: String },
}

/// The kind of a failure, without its details.
#[derive(PartialEq, Eq, Structural, Clone, Copy, Debug)]
pub enum ErrorKind {
    ServerBusy,
    NetworkError,
    Timeout,
    ApiError,
    ParseError,
    ConfigError,
}

/// The kind of `e`.
pub open spec fn kind_of(e: DeepSeekError) -> ErrorKind {
    match e {
        DeepSeekError::ServerBusy => ErrorKind::ServerBusy,
        DeepSeekError::NetworkError { .. } => ErrorKind::NetworkError,
        DeepSeekError::Timeout { .. } => ErrorKind::Timeout,
        DeepSeekError::ApiError { .. } => ErrorKind::ApiError,
        DeepSeekError::ParseError { .. } => ErrorKind::ParseError,
        DeepSeekError::ConfigError { .. } => ErrorKind::ConfigError,
    }
}

/// Kinds that are worth sending the same request again for.
pub open spec fn is_transient_kind(k: ErrorKind) -> bool {
    k == ErrorKind::ServerBusy || k == ErrorKind::NetworkError
}

/// HTTP statuses that mean the service is overloaded for the moment.
pub open spec fn is_busy_status(status: u16) -> bool {
    status == 429 || status == 502 || status == 503 || status == 504
}

/// Whether `status` is in the 2xx range.
pub open spec fn is_success_status(status: u16) -> bool {
    200 <= status <= 299
}

/// Every failure has exactly one kind, and each kind is transient or not.
pub proof fn lemma_one_kind(e: DeepSeekError)
    ensures
        e is ServerBusy <==> kind_of(e) == ErrorKind::ServerBusy,
        e is NetworkError <==> kind_of(e) == ErrorKind::NetworkError,
        e is Timeout <==> kind_of(e) == ErrorKind::Timeout,
        e is ApiError <==> kind_of(e) == ErrorKind::ApiError,
        e is ParseError <==> kind_of(e) == ErrorKind::ParseError,
        e is ConfigError <==> kind_of(e) == ErrorKind::ConfigError,
        is_transient_kind(kind_of(e)) <==> (e is ServerBusy || e is NetworkError),
{
}

/// The hint shown to a person for `e`.
pub open spec fn user_message_of(e: DeepSeekError) -> Seq<char> {
    match e {
        DeepSeekError::ServerBusy => "🚫 DeepSeek servers are currently busy. Please try again in a few moments."@,
        DeepSeekError::NetworkError { .. } => "🌐 Network connection failed. Please check your internet connection and try again."@,
        DeepSeekError::Timeout { seconds } => "⏰ Request timed out after "@ + decimal(seconds as nat)
            + " seconds. The server might be overloaded."@,
        DeepSeekError::ApiError { status, .. } => if status == 429 {
            "🚫 Rate limit exceeded. Please wait a moment before trying again."@
        } else if status == 503 {
            "🚫 Service temporarily unavailable. Please try again later."@
        } else if status == 502 || status == 504 {
            "🚫 Server gateway error. Please try again in a few moments."@
        } else {
            "❌ API error ("@ + decimal(status as nat) + "). Please try again later."@
        },
        DeepSeekError::ParseError { .. } => "⚠️ Failed to parse server response. Please try again."@,
        DeepSeekError::ConfigError { message } => "⚙️ Configuration error: "@ + message@,
    }
}

impl DeepSeekError {
    /// Whether the service reported that it is busy.
    pub fn is_server_busy(&self) -> (r: bool)
        ensures
            r == (*self is ServerBusy),
    {
        match self {
            DeepSeekError::ServerBusy => true,
            _ => false,
        }
    }

    /// Whether the connection to the service failed.
    pub fn is_network_error(&self) -> (r: bool)
        ensures
            r == (*self is NetworkError),
    {
        match self {
            DeepSeekError::NetworkError { .. } => true,
            _ => false,
        }
    }

    /// Whether sending the same request again may succeed.
    pub fn is_transient(&self) -> (r: bool)
        ensures
            r == is_transient_kind(kind_of(*self)),
    {
        self.is_server_busy() || self.is_network_error()
    }

    /// The kind of this failure.
    pub fn kind(&self) -> (r: ErrorKind)
        ensures
            r == kind_of(*self),
    {
        match self {
            DeepSeekError::ServerBusy => ErrorKind::ServerBusy,
            DeepSeekError::NetworkError { .. } => ErrorKind::NetworkError,
            DeepSeekError::Timeout { .. } => ErrorKind::Timeout,
            DeepSeekError::ApiError { .. } => ErrorKind::ApiError,
            DeepSeekError::ParseError { .. } => ErrorKind::ParseError,
            DeepSeekError::ConfigError { .. } => ErrorKind::ConfigError,
        }
    }

    /// A hint for a person, one per kind (and per busy status).
    pub fn user_message(&self) -> (r: String)
        ensures
            r@ == user_message_of(*self),
    {
        match self {
            DeepSeekError::ServerBusy => String::from_str(
                "🚫 DeepSeek servers are currently busy. Please try again in a few moments.",
            ),
            DeepSeekError::NetworkError { .. } => String::from_str(
                "🌐 Network connection failed. Please check your internet connection and try again.",
            ),
            DeepSeekError::Timeout { seconds } => {
                let n = decimal_text(*seconds);
                join3(
                    "⏰ Request timed out after ",
                    n.as_str(),
                    " seconds. The server might be overloaded.",
                )
            },
            DeepSeekError::ApiError { status, .. } => {
                if *status == 429 {
                    String::from_str(
                        "🚫 Rate limit exceeded. Please wait a moment before trying again.",
                    )
                } else if *status == 503 {
                    String::from_str("🚫 Service temporarily unavailable. Please try again later.")
                } else if *status == 502 || *status == 504 {
                    String::from_str("🚫 Server gateway error. Please try again in a few moments.")
                } else {
                    let n = decimal_text(*status as u64);
                    join3("❌ API error (", n.as_str(), "). Please try again later.")
                }
            },
            DeepSeekError::ParseError { .. } => String::from_str(
                "⚠️ Failed to parse server response. Please try again.",
            ),
            DeepSeekError::ConfigError { message } => join2(
                "⚙️ Configuration error: ",
                message.as_str(),
            ),
        }
    }
}

/// The remediation tip shown under the hint for `e`.
pub open spec fn tip_of(e: DeepSeekError) -> Seq<char> {
    match e {
        DeepSeekError::ServerBusy => "💡 Tip: Try again in a few minutes when server load is lower."@,
        DeepSeekError::NetworkError { .. } => "💡 Tip: Check your internet connection and firewall settings."@,
        DeepSeekError::Timeout { .. } => "💡 Tip: The server might be overloaded. Try again later."@,
        DeepSeekError::ApiError { status, .. } => if status == 401 {
            "💡 Tip: Check your DEEPSEEK_API_KEY environment variable."@
        } else if status == 403 {
            "💡 Tip: Your API key may not have sufficient permissions."@
        } else if status == 429 {
            "💡 Tip: You've hit the rate limit. Wait before trying again."@
        } else {
            "💡 Tip: Check the DeepSeek API documentation for more details."@
        },
        DeepSeekError::ParseError { .. } => "💡 Tip: The server response was unexpected. Try rephrasing your query."@,
        DeepSeekError::ConfigError { .. } => "💡 Tip: Check your environment variables and configuration."@,
    }
}

impl DeepSeekError {
    /// What a person can do about this failure.
    pub fn remediation_tip(&self) -> (r: &'static str)
        ensures
            r@ == tip_of(*self),
    {
        match self {
            DeepSeekError::ServerBusy => "💡 Tip: Try again in a few minutes when server load is lower.",
            DeepSeekError::NetworkError { .. } => "💡 Tip: Check your internet connection and firewall settings.",
            DeepSeekError::Timeout { .. } => "💡 Tip: The server might be overloaded. Try again later.",
            DeepSeekError::ApiError { status, .. } => {
                if *status == 401 {
                    "💡 Tip: Check your DEEPSEEK_API_KEY environment variable."
                } else if *status == 403 {
                    "💡 Tip: Your API key may not have sufficient permissions."
                } else if *status == 429 {
                    "💡 Tip: You've hit the rate limit. Wait before trying again."
                } else {
                    "💡 Tip: Check the DeepSeek API documentation for more details."
                }
            },
            DeepSeekError::ParseError { .. } => "💡 Tip: The server response was unexpected. Try rephrasing your query.",
            DeepSeekError::ConfigError { .. } => "💡 Tip: Check your environment variables and configuration.",
        }
    }
}

/// The error for an HTTP response whose status is not a success.
pub open spec fn status_error(status: u16, body: String) -> DeepSeekError {
    if is_busy_status(status) {
        DeepSeekError::ServerBusy
    } else {
        DeepSeekError::ApiError { status, message: body }
    }
}

/// Classifies a response with a status outside 2xx: busy statuses are
/// transient, every other status is an API error carrying the body text.
pub fn classify_status(status: u16, body: String) -> (r: DeepSeekError)
    ensures
        r == status_error(status, body),
{
    if status == 429 || status == 502 || status == 503 || status == 504 {
        DeepSeekError::ServerBusy
    } else {
        DeepSeekError::ApiError { status, message: body }
    }
}

/// A request that got no HTTP response, as the transport reported it.
#[derive(Clone, Debug, PartialEq)]
pub struct TransportFailure {
    /// The transport gave up waiting.
    pub timed_out: bool,
    /// No connection could be made.
    pub connect: bool,
    /// The request could not be sent.
    pub request: bool,
    /// The transport's own description.
    pub text: String,
}

/// The lower-case form of `s`, as std writes it.
pub uninterp spec fn lower_of(s: Seq<char>) -> Seq<char>;

/// Relies on str::to_lowercase: the result depends on the characters alone.
#[verifier::external_body]
fn lowercase(s: &str) -> (r: String)
    ensures
        r@ == lower_of(s@),
{
    s.to_lowercase()
}

/// The detail of the network error for a failure that did not time out.
pub open spec fn transport_detail(f: TransportFailure) -> Seq<char> {
    let low = lower_of(f.text@);
    if f.connect {
        "Failed to connect to server"@
    } else if f.request {
        "Request failed"@
    } else if contains(low, "dns"@) {
        "DNS resolution failed"@
    } else if contains(low, "connection refused"@) {
        "Connection refused by server"@
    } else if contains(low, "network"@) || contains(low, "connection"@) {
        f.text@
    } else {
        "Request error: "@ + f.text@
    }
}

/// Classifies a request that got no response: a timeout carries the
/// configured timeout, everything else is a network error whose detail
/// names the cause when the transport's flags or text reveal it.
pub fn classify_transport(f: &TransportFailure, timeout_seconds: u64) -> (r: DeepSeekError)
    ensures
        f.timed_out ==> r == (DeepSeekError::Timeout { seconds: timeout_seconds }),
        !f.timed_out ==> (r matches DeepSeekError::NetworkError { message } && message@
            == transport_detail(*f)),
{
    if f.timed_out {
        return DeepSeekError::Timeout { seconds: timeout_seconds };
    }
    if f.connect {
        return DeepSeekError::NetworkError {
            message: String::from_str("Failed to connect to server"),
        };
    }
    if f.request {
        return DeepSeekError::NetworkError { message: String::from_str("Request failed") };
    }
    let low = lowercase(f.text.as_str());
    if contains_text(low.as_str(), "dns") {
        return DeepSeekError::NetworkError { message: String::from_str("DNS resolution failed") };
    }
    if contains_text(low.as_str(), "connection refused") {
        return DeepSeekError::NetworkError {
            message: String::from_str("Connection refused by server"),
        };
    }
    if contains_text(low.as_str(), "network") || contains_text(low.as_str(), "connection") {
        return DeepSeekError::NetworkError { message: f.text.clone() };
    }
    DeepSeekError::NetworkError { message: join2("Request error: ", f.text.as_str()) }
}

} // verus!
