//! Error types of the toolkit and how one maps onto the other.

use vstd::prelude::*;
use vstd::string::*;

use crate::text::{decimal, signed_decimal, u64_to_string, i64_to_string};

verus! {

/// `prefix` followed by `s`.
pub fn prefixed(prefix: &str, s: &str) -> (r: String)
    ensures
        r@ == prefix@ + s@,
{
    let mut r = String::from_str(prefix);
    r.append(s);
    r
}

/// Errors of the MiniMax API client and of the subagent machinery.
///
/// Errors that wrap a failure of another library (HTTP, JSON, file system) hold that
/// failure's message.
#[derive(Debug)]
pub enum MiniMaxError {
    Auth(String),
    Api { code: i32, message: String, trace_id: Option<String> },
    Http(String),
    MissingEnv(String),
    TaskTimeout { task_id: String, max_retries: i32 },
    TaskFailed { task_id: String },
    Json(String),
    Io(String),
    Config(String),
    HexDecode(String),
    InvalidPath(String),
}

/// The text that describes a `MiniMaxError`.
pub open spec fn minimax_error_text(e: MiniMaxError) -> Seq<char> {
    match e {
        MiniMaxError::Auth(m) => "authentication failed: "@ + m@,
        MiniMaxError::Api { code, message, .. } => "API error "@ + signed_decimal(code as int)
            + ": "@ + message@,
        MiniMaxError::Http(m) => "HTTP request failed: "@ + m@,
        MiniMaxError::MissingEnv(m) => "missing environment variable: "@ + m@,
        MiniMaxError::TaskTimeout { task_id, max_retries } => "task timeout after "@
            + signed_decimal(max_retries as int) + " retries (task_id: "@ + task_id@ + ")"@,
        MiniMaxError::TaskFailed { task_id } => "task failed (task_id: "@ + task_id@ + ")"@,
        MiniMaxError::Json(m) => "serialization error: "@ + m@,
        MiniMaxError::Io(m) => "IO error: "@ + m@,
        MiniMaxError::Config(m) => m@,
        MiniMaxError::HexDecode(m) => "hex decode error: "@ + m@,
        MiniMaxError::InvalidPath(m) => "invalid path: "@ + m@,
    }
}

impl MiniMaxError {
    /// The error's message (what `to_string` shows).
    pub fn message(&self) -> (r: String)
        ensures
            r@ == minimax_error_text(*self),
    {
        match self {
            MiniMaxError::Auth(m) => prefixed("authentication failed: ", m.as_str()),
            MiniMaxError::Api { code, message, .. } => {
                let mut r = prefixed("API error ", i64_to_string(*code as i64).as_str());
                r.append(": ");
                r.append(message.as_str());
                r
            },
            MiniMaxError::Http(m) => prefixed("HTTP request failed: ", m.as_str()),
            MiniMaxError::MissingEnv(m) => prefixed("missing environment variable: ", m.as_str()),
            MiniMaxError::TaskTimeout { task_id, max_retries } => {
                let mut r = prefixed(
                    "task timeout after ",
                    i64_to_string(*max_retries as i64).as_str(),
                );
                r.append(" retries (task_id: ");
                r.append(task_id.as_str());
                r.append(")");
                r
            },
            MiniMaxError::TaskFailed { task_id } => {
                let mut r = prefixed("task failed (task_id: ", task_id.as_str());
                r.append(")");
                r
            },
            MiniMaxError::Json(m) => prefixed("serialization error: ", m.as_str()),
            MiniMaxError::Io(m) => prefixed("IO error: ", m.as_str()),
            MiniMaxError::Config(m) => m.clone(),
            MiniMaxError::HexDecode(m) => prefixed("hex decode error: ", m.as_str()),
            MiniMaxError::InvalidPath(m) => prefixed("invalid path: ", m.as_str()),
        }
    }
}

/// Errors that capability providers report.
#[derive(Debug)]
pub enum ProviderError {
    Auth(String),
    Api(String),
    Http(String),
    Timeout(String),
    TaskFailed(String),
    Config(String),
    Io(String),
    NotFound(String),
    NotSupported(String),
    Other(String),
}

/// The text that describes a `ProviderError`.
pub open spec fn provider_error_text(e: ProviderError) -> Seq<char> {
    match e {
        ProviderError::Auth(m) => "auth: "@ + m@,
        ProviderError::Api(m) => "API error: "@ + m@,
        ProviderError::Http(m) => "HTTP: "@ + m@,
        ProviderError::Timeout(m) => "timeout: "@ + m@,
        ProviderError::TaskFailed(m) => "task failed: "@ + m@,
        ProviderError::Config(m) => "config: "@ + m@,
        ProviderError::Io(m) => "IO: "@ + m@,
        ProviderError::NotFound(m) => "not found: "@ + m@,
        ProviderError::NotSupported(m) => "not supported: "@ + m@,
        ProviderError::Other(m) => m@,
    }
}

/// How a client error is reported by a provider: the kind of failure is kept, and
/// the payload is carried over as text.
pub open spec fn provider_error_of(e: MiniMaxError, r: ProviderError) -> bool {
    match e {
        MiniMaxError::Auth(m) => r matches ProviderError::Auth(n) && n@ == m@,
        MiniMaxError::Api { code, message, .. } => r matches ProviderError::Api(n) && n@
            == "code="@ + signed_decimal(code as int) + ": "@ + message@,
        MiniMaxError::Http(m) => r matches ProviderError::Http(n) && n@ == m@,
        MiniMaxError::TaskTimeout { task_id, max_retries } => r matches ProviderError::Timeout(n)
            && n@ == "task "@ + task_id@ + " after "@ + signed_decimal(max_retries as int)
            + " retries"@,
        MiniMaxError::TaskFailed { task_id } => r matches ProviderError::TaskFailed(n) && n@
            == task_id@,
        MiniMaxError::Json(m) => r matches ProviderError::Other(n) && n@ == m@,
        MiniMaxError::Io(m) => r matches ProviderError::Io(n) && n@ == m@,
        MiniMaxError::HexDecode(m) => r matches ProviderError::Other(n) && n@ == m@,
        MiniMaxError::Config(m) => r matches ProviderError::Config(n) && n@ == m@,
        MiniMaxError::MissingEnv(m) => r matches ProviderError::Config(n) && n@ == m@,
        MiniMaxError::InvalidPath(m) => r matches ProviderError::Config(n) && n@ == m@,
    }
}

impl ProviderError {
    /// Converts a client error into the provider error that reports it.
    pub fn from_minimax(e: MiniMaxError) -> (r: ProviderError)
        ensures
            provider_error_of(e, r),
    {
        match e {
            MiniMaxError::Auth(m) => ProviderError::Auth(m),
            MiniMaxError::Api { code, message, .. } => {
                let mut n = prefixed("code=", i64_to_string(code as i64).as_str());
                n.append(": ");
                n.append(message.as_str());
                ProviderError::Api(n)
            },
            MiniMaxError::Http(m) => ProviderError::Http(m),
            MiniMaxError::TaskTimeout { task_id, max_retries } => {
                let mut n = prefixed("task ", task_id.as_str());
                n.append(" after ");
                n.append(i64_to_string(max_retries as i64).as_str());
                n.append(" retries");
                ProviderError::Timeout(n)
            },
            MiniMaxError::TaskFailed { task_id } => ProviderError::TaskFailed(task_id),
            MiniMaxError::Json(m) => ProviderError::Other(m),
            MiniMaxError::Io(m) => ProviderError::Io(m),
            MiniMaxError::HexDecode(m) => ProviderError::Other(m),
            MiniMaxError::Config(m) => ProviderError::Config(m),
            MiniMaxError::MissingEnv(m) => ProviderError::Config(m),
            MiniMaxError::InvalidPath(m) => ProviderError::Config(m),
        }
    }

    /// The error's message (what `to_string` shows).
    pub fn message(&self) -> (r: String)
        ensures
            r@ == provider_error_text(*self),
    {
        match self {
            ProviderError::Auth(m) => prefixed("auth: ", m.as_str()),
            ProviderError::Api(m) => prefixed("API error: ", m.as_str()),
            ProviderError::Http(m) => prefixed("HTTP: ", m.as_str()),
            ProviderError::Timeout(m) => prefixed("timeout: ", m.as_str()),
            ProviderError::TaskFailed(m) => prefixed("task failed: ", m.as_str()),
            ProviderError::Config(m) => prefixed("config: ", m.as_str()),
            ProviderError::Io(m) => prefixed("IO: ", m.as_str()),
            ProviderError::NotFound(m) => prefixed("not found: ", m.as_str()),
            ProviderError::NotSupported(m) => prefixed("not supported: ", m.as_str()),
            ProviderError::Other(m) => m.clone(),
        }
    }
}

} // verus!
