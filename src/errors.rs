use crate::json::{opt_str, req_str, field_opt_str, field_str, Json};
use crate::text::opt_view;
use vstd::prelude::*;
use vstd::string::*;

verus! {

/// The error of a transport operation on the agent's socket.
#[verifier::external_type_specification]
#[verifier::external_body]
pub struct ExIoError(std::io::Error);

/// The error that `url` reports for a string that is not a URL.
#[verifier::external_type_specification]
#[verifier::external_body]
pub struct ExUrlParseError(url::ParseError);

/// Every failure that an operation of this library can report.
#[derive(Debug)]
pub enum Error {
    /// The agent's socket path could not be found in the environment.
    EnvVarError(String),
    /// Connecting to, writing to or reading from the socket failed.
    IoError(std::io::Error),
    /// A request could not be encoded, or a reply did not have the expected shape.
    SerdeError(String),
    /// The agent answered with a failure reply.
    AgentError(AgentError),
    /// An issuer was not a well-formed URL.
    ParseError(url::ParseError),
    /// A builder was asked to build a value that breaks its rules.
    OtherError(String),
}

/// Relies on `Display` for `std::io::Error`: the operating system's message.
#[verifier::external_body]
fn io_error_text(e: &std::io::Error) -> (r: String) {
    e.to_string()
}

/// Relies on `Display` for `url::ParseError`: the reason the URL was refused.
#[verifier::external_body]
fn url_error_text(e: &url::ParseError) -> (r: String) {
    e.to_string()
}

/// The text that starts the description of each kind of error.
pub open spec fn error_prefix(e: Error) -> Seq<char> {
    match e {
        Error::EnvVarError(_) => "Environment variable error: "@,
        Error::IoError(_) => "IO error: "@,
        Error::SerdeError(_) => "Serialization/Deserialization error: "@,
        Error::AgentError(_) => "Agent error: "@,
        Error::ParseError(_) => "Parse error: Failed to parse URL: "@,
        Error::OtherError(_) => "Other error: "@,
    }
}

impl Error {
    /// Describes the error: a prefix that names its kind, then its detail.
    pub fn to_string(&self) -> (r: String)
        ensures
            exists|detail: Seq<char>| r@ == error_prefix(*self) + detail,
            match *self {
                Error::EnvVarError(m) => r@ == error_prefix(*self) + m@,
                Error::SerdeError(m) => r@ == error_prefix(*self) + m@,
                Error::OtherError(m) => r@ == error_prefix(*self) + m@,
                Error::AgentError(a) => r@ == error_prefix(*self) + agent_error_text(
                    agent_error_view(a),
                ),
                _ => true,
            },
    {
        let (prefix, detail) = match self {
            Error::EnvVarError(m) => (String::from_str("Environment variable error: "), m.clone()),
            Error::IoError(e) => (String::from_str("IO error: "), io_error_text(e)),
            Error::SerdeError(m) => (
                String::from_str("Serialization/Deserialization error: "),
                m.clone(),
            ),
            Error::AgentError(a) => (String::from_str("Agent error: "), a.to_string()),
            Error::ParseError(e) => (
                String::from_str("Parse error: Failed to parse URL: "),
                url_error_text(e),
            ),
            Error::OtherError(m) => (String::from_str("Other error: "), m.clone()),
        };
        let mut s = prefix;
        s.append(detail.as_str());
        assert(s@ == error_prefix(*self) + detail@);
        s
    }
}

/// The error payload of a failure reply: `{ "error": ..., "info": ... }`.
#[derive(Debug, Clone)]
pub struct AgentError {
    pub error: String,
    pub info: Option<String>,
}

/// What an [`AgentError`] holds: the error and the optional detail.
pub open spec fn agent_error_view(e: AgentError) -> (Seq<char>, Option<Seq<char>>) {
    (e.error@, opt_view(e.info))
}

/// The error payload that a JSON value holds: a string `error` and an
/// optional string `info`.
pub open spec fn agent_error_of(j: Json) -> Option<(Seq<char>, Option<Seq<char>>)> {
    match (req_str(j, "error"@), opt_str(j, "info"@)) {
        (Some(e), Some(i)) => Some((e, i)),
        _ => None,
    }
}

/// How an agent error reads: `error`, or `error: info` when there is detail.
pub open spec fn agent_error_text(e: (Seq<char>, Option<Seq<char>>)) -> Seq<char> {
    match e.1 {
        Some(i) => e.0 + ": "@ + i,
        None => e.0,
    }
}

impl AgentError {
    /// Decodes the error payload; `None` when `error` is missing or a member
    /// is not a string.
    pub fn decode(j: &Json) -> (r: Option<AgentError>)
        ensures
            match r {
                Some(x) => agent_error_of(*j) == Some(agent_error_view(x)),
                None => agent_error_of(*j) is None,
            },
    {
        match (field_str(j, "error"), field_opt_str(j, "info")) {
            (Some(error), Some(info)) => Some(AgentError { error, info }),
            _ => None,
        }
    }

    /// The error as shown to a reader: `error`, or `error: info`.
    pub fn to_string(&self) -> (r: String)
        ensures
            r@ == agent_error_text(agent_error_view(*self)),
    {
        let mut s = self.error.clone();
        match &self.info {
            Some(i) => {
                s.append(": ");
                s.append(i.as_str());
                assert(s@ =~= agent_error_text(agent_error_view(*self)));
            },
            None => {},
        }
        s
    }
}

} // verus!
