//! Client library for the local OpenID-Connect agent: typed requests, their
//! JSON wire form, and the decoding of the agent's replies.
use vstd::prelude::*;
use vstd::string::*;

pub mod errors;
pub mod json;
pub mod merge;
pub mod mytoken;
pub mod requests;
pub mod responses;
pub mod text;
pub mod wire;

pub use errors::{AgentError, Error};
pub use responses::Token;

use errors::{agent_error_of, agent_error_text, agent_error_view};
use json::{opt_str, req_seconds, req_str};
use requests::parsed_url;
use responses::AccessTokenResponseView;
use json::{parse_json, parsed_json, Json};
use requests::{
    access_token_request_json, accounts_request_json, mytoken_request_json, AccessTokenRequest,
    AccountsRequest, MyTokenRequest,
};
use responses::{
    access_token_response_of, accounts_response_of, mytoken_response_of, status_of,
    AccessTokenResponse, AccountsResponse, MyTokenResponse, OIDCAgentResponse, Status,
};

verus! {

/// A success payload, decoded from the reply of the request it belongs to.
pub trait Response: Sized {
    /// The reply `j` holds a payload of this type.
    spec fn decodable(j: Json) -> bool;

    /// `r` is the payload that `j` holds.
    spec fn decodes_to(j: Json, r: Self) -> bool;

    fn decode_json(j: &Json) -> (r: Option<Self>)
        ensures
            r is Some <==> Self::decodable(*j),
            r matches Some(x) ==> Self::decodes_to(*j, x);
}

/// A request, written as JSON, and the payload that its success reply holds.
pub trait Request {
    type SuccessResponse: Response;

    /// The JSON text of the request.
    spec fn wire(&self) -> Seq<char>;

    fn encode(&self) -> (r: String)
        ensures
            r@ == self.wire();
}

impl Response for AccessTokenResponse {
    open spec fn decodable(j: Json) -> bool {
        access_token_response_of(j) is Some
    }

    open spec fn decodes_to(j: Json, r: Self) -> bool {
        access_token_response_of(j) == Some(r@)
    }

    fn decode_json(j: &Json) -> (r: Option<Self>) {
        AccessTokenResponse::decode(j)
    }
}

impl Response for MyTokenResponse {
    open spec fn decodable(j: Json) -> bool {
        mytoken_response_of(j) is Some
    }

    open spec fn decodes_to(j: Json, r: Self) -> bool {
        mytoken_response_of(j) == Some(r@)
    }

    fn decode_json(j: &Json) -> (r: Option<Self>) {
        MyTokenResponse::decode(j)
    }
}

impl Response for AccountsResponse {
    open spec fn decodable(j: Json) -> bool {
        accounts_response_of(j) is Some
    }

    open spec fn decodes_to(j: Json, r: Self) -> bool {
        accounts_response_of(j) == Some(r@)
    }

    fn decode_json(j: &Json) -> (r: Option<Self>) {
        AccountsResponse::decode(j)
    }
}

impl Request for AccessTokenRequest {
    type SuccessResponse = AccessTokenResponse;

    open spec fn wire(&self) -> Seq<char> {
        access_token_request_json(self@)
    }

    fn encode(&self) -> (r: String) {
        self.to_json()
    }
}

impl Request for MyTokenRequest {
    type SuccessResponse = MyTokenResponse;

    open spec fn wire(&self) -> Seq<char> {
        mytoken_request_json(self@)
    }

    fn encode(&self) -> (r: String) {
        self.to_json()
    }
}

impl Request for AccountsRequest {
    type SuccessResponse = AccountsResponse;

    open spec fn wire(&self) -> Seq<char> {
        accounts_request_json()
    }

    fn encode(&self) -> (r: String) {
        self.to_json()
    }
}

/// What a reply's JSON value makes of an exchange. The status decides alone:
/// a success reply is read as the payload `R`, a failure reply as the error
/// payload; a reply with no status, or whose payload does not read, is a
/// decoding failure.
pub open spec fn reply_ends_as<R: Response>(j: Json, r: Result<R, Error>) -> bool {
    match status_of(j) {
        None => r matches Err(Error::SerdeError(_)),
        Some(Status::SUCCESS) => if R::decodable(j) {
            r matches Ok(x) && R::decodes_to(j, x)
        } else {
            r matches Err(Error::SerdeError(_))
        },
        Some(Status::FAILURE) => match agent_error_of(j) {
            Some(v) => r matches Err(Error::AgentError(e)) && agent_error_view(e) == v,
            None => r matches Err(Error::SerdeError(_)),
        },
    }
}

/// Reads a reply: first its status alone, then, by that status, the same value
/// as the success payload or as the agent's error.
pub fn interpret_reply<R: Response>(j: &Json) -> (r: Result<R, Error>)
    ensures
        reply_ends_as(*j, r),
{
    let envelope = match OIDCAgentResponse::decode(j) {
        Some(e) => e,
        None => {
            return Err(Error::SerdeError(String::from_str("reply has no valid status")));
        },
    };
    match envelope.status() {
        Status::SUCCESS => match R::decode_json(j) {
            Some(x) => Ok(x),
            None => Err(
                Error::SerdeError(String::from_str("success reply does not match the request")),
            ),
        },
        Status::FAILURE => match AgentError::decode(j) {
            Some(e) => Err(Error::AgentError(e)),
            None => Err(Error::SerdeError(String::from_str("failure reply has no valid error"))),
        },
    }
}

/// Parses the bytes of a reply and reads it as [`interpret_reply`] does. Bytes
/// that are not one JSON value give a `SerdeError`; otherwise the parsed
/// value decides the outcome.
pub fn decode_reply<R: Response>(bytes: &[u8]) -> (r: Result<R, Error>)
    ensures
        match parsed_json(bytes@) {
            Some(j) => reply_ends_as(j, r),
            None => r matches Err(Error::SerdeError(_)),
        },
{
    match parse_json(bytes) {
        Ok(j) => interpret_reply(&j),
        Err(e) => Err(e),
    }
}

/// A success reply that holds a token, an issuer that is a URL and an expiry
/// that `chrono` accepts reads as the access-token payload of those values.
pub proof fn lemma_success_reply_gives_access_token(
    j: Json,
    r: Result<AccessTokenResponse, Error>,
    token: Seq<char>,
    issuer: Seq<char>,
    expires_at: i64,
)
    requires
        reply_ends_as(j, r),
        status_of(j) == Some(Status::SUCCESS),
        req_str(j, "access_token"@) == Some(token),
        req_str(j, "issuer"@) == Some(issuer),
        parsed_url(issuer) is Some,
        req_seconds(j, "expires_at"@) == Some(expires_at),
    ensures
        r matches Ok(x) && x@ == (AccessTokenResponseView {
            access_token: token,
            issuer: parsed_url(issuer).unwrap(),
            expires_at,
        }),
{
}

/// A failure reply that holds an error `e` and a detail `i` reads as the
/// agent's error, shown as `e: i`; without a detail, shown as `e`.
pub proof fn lemma_failure_reply_gives_agent_error<R: Response>(
    j: Json,
    r: Result<R, Error>,
    e: Seq<char>,
    i: Option<Seq<char>>,
)
    requires
        reply_ends_as(j, r),
        status_of(j) == Some(Status::FAILURE),
        req_str(j, "error"@) == Some(e),
        opt_str(j, "info"@) == Some(i),
    ensures
        r matches Err(Error::AgentError(a)) && agent_error_text(agent_error_view(a)) == match i {
            Some(d) => e + ": "@ + d,
            None => e,
        },
{
}

/// A client of the agent that listens on `socket_path`. It holds the path
/// only: every exchange opens a connection of its own.
#[derive(Debug, Clone)]
pub struct Agent {
    socket_path: String,
}

impl Agent {
    pub closed spec fn spec_socket_path(self) -> Seq<char> {
        self.socket_path@
    }

    /// A client for the socket at `socket_path`, taken as it is.
    pub fn with_socket_path(socket_path: &str) -> (r: Agent)
        ensures
            r.spec_socket_path() == socket_path@,
    {
        Agent { socket_path: socket_path.to_string() }
    }

    /// The socket path.
    pub fn get_socket_path(&self) -> (r: Option<&str>)
        ensures
            r matches Some(p) && p@ == self.spec_socket_path(),
    {
        Some(self.socket_path.as_str())
    }
}

} // verus!
