//! The exchange of credentials for a token.
//!
//! The remote service allows very few such exchanges a day. So one call is one
//! attempt: nothing here retries, and a failure names its cause, so that an
//! operator can tell a wrong password from a server that is down.

use vstd::prelude::*;
use crate::client::types::{AuthRequest, AuthToken};
use crate::session::{usable, Token};
use crate::text::{concat2, concat3};

verus! {

/// The status line of an answer: its code, and the words that go with it
/// (`404 Not Found`).
#[derive(Debug, Clone, PartialEq, Eq)]
pub struct HttpStatus {
    pub code: u16,
    pub text: String,
}

/// A status code in the success class.
pub open spec fn is_success_code(code: u16) -> bool {
    200 <= code < 300
}

/// A status code in the server-error class.
pub open spec fn is_server_error_code(code: u16) -> bool {
    500 <= code <= 599
}

impl HttpStatus {
    /// Whether the status is in the success class.
    pub fn is_success(&self) -> (r: bool)
        ensures
            r == is_success_code(self.code),
    {
        200 <= self.code && self.code < 300
    }
}

/// Why an attempt to authenticate failed.
#[derive(Clone, Copy, Debug, PartialEq, Eq, Structural)]
pub enum AuthErrorKind {
    /// The service gave no answer: it could not be reached, or the attempt
    /// ran out of time.
    Unreachable,
    /// The service found the credentials malformed.
    MalformedCredentials,
    /// The service does not know this username and password.
    InvalidCredentials,
    /// The service refuses the account.
    AccountDisabled,
    /// The base address does not lead to the service.
    EndpointNotFound,
    /// The service failed on its side.
    ServerError,
    /// The service answered with a status that fits none of the others.
    UnexpectedStatus,
    /// The service accepted, but its answer holds no readable token.
    UnparseableResponse,
}

/// The name under which a cause reaches a caller of the tools.
pub open spec fn kind_name(kind: AuthErrorKind) -> Seq<char> {
    match kind {
        AuthErrorKind::Unreachable => "unreachable"@,
        AuthErrorKind::MalformedCredentials => "malformed_credentials"@,
        AuthErrorKind::InvalidCredentials => "invalid_credentials"@,
        AuthErrorKind::AccountDisabled => "account_disabled"@,
        AuthErrorKind::EndpointNotFound => "endpoint_not_found"@,
        AuthErrorKind::ServerError => "server_error"@,
        AuthErrorKind::UnexpectedStatus => "unexpected_status"@,
        AuthErrorKind::UnparseableResponse => "unparseable_response"@,
    }
}

impl AuthErrorKind {
    /// The name under which this cause reaches a caller of the tools.
    pub fn name(self) -> (r: &'static str)
        ensures
            r@ == kind_name(self),
    {
        match self {
            AuthErrorKind::Unreachable => "unreachable",
            AuthErrorKind::MalformedCredentials => "malformed_credentials",
            AuthErrorKind::InvalidCredentials => "invalid_credentials",
            AuthErrorKind::AccountDisabled => "account_disabled",
            AuthErrorKind::EndpointNotFound => "endpoint_not_found",
            AuthErrorKind::ServerError => "server_error",
            AuthErrorKind::UnexpectedStatus => "unexpected_status",
            AuthErrorKind::UnparseableResponse => "unparseable_response",
        }
    }
}

/// A failed attempt: its cause, and a message for the operator.
#[derive(Debug, Clone, PartialEq, Eq)]
pub struct AuthError {
    pub kind: AuthErrorKind,
    pub message: String,
}

/// What came back from one attempt, as the transport saw it.
#[derive(Debug, PartialEq, Eq)]
pub enum AuthReply {
    /// No answer; `detail` is the transport's own account of why.
    Unreachable { detail: String },
    /// An answer: its status, its body as text where that could be read, and
    /// what decoding the body as a token document gave.
    Answered { status: HttpStatus, body: Option<String>, token: Result<AuthToken, String> },
}

/// The cause that a refusing status stands for.
pub open spec fn kind_of_refusal(code: u16) -> AuthErrorKind {
    if code == 400 {
        AuthErrorKind::MalformedCredentials
    } else if code == 401 {
        AuthErrorKind::InvalidCredentials
    } else if code == 403 {
        AuthErrorKind::AccountDisabled
    } else if code == 404 {
        AuthErrorKind::EndpointNotFound
    } else if is_server_error_code(code) {
        AuthErrorKind::ServerError
    } else {
        AuthErrorKind::UnexpectedStatus
    }
}

/// The body of a refusal as the messages quote it.
pub open spec fn quoted_body(body: Option<String>) -> Seq<char> {
    match body {
        Some(text) => text@,
        None => "Unable to read error response"@,
    }
}

/// The message that goes with a refusing status.
pub open spec fn refusal_message(
    base_url: Seq<char>,
    status: HttpStatus,
    body: Option<String>,
) -> Seq<char> {
    match kind_of_refusal(status.code) {
        AuthErrorKind::MalformedCredentials =>
            "Invalid credentials provided. Please check username and password."@,
        AuthErrorKind::InvalidCredentials => "Authentication failed: Invalid username or password"@,
        AuthErrorKind::AccountDisabled => "Access denied: User account may be disabled"@,
        AuthErrorKind::EndpointNotFound => "Tandoor API endpoint not found. Check your base URL: "@
            + base_url,
        AuthErrorKind::ServerError => "Tandoor server error ("@ + status.text@ + "): "@
            + quoted_body(body),
        _ => "Authentication failed with status "@ + status.text@ + ": "@ + quoted_body(body),
    }
}

/// What an attempt amounts to: the token it earned, or the cause and the
/// message of its failure.
pub open spec fn verdict(base_url: Seq<char>, reply: AuthReply) -> Result<
    Token,
    (AuthErrorKind, Seq<char>),
> {
    match reply {
        AuthReply::Unreachable { detail } => Err(
            (
                AuthErrorKind::Unreachable,
                "Failed to connect to Tandoor server at "@ + base_url + ": "@ + detail@,
            ),
        ),
        AuthReply::Answered { status, body, token } => if !is_success_code(status.code) {
            Err((kind_of_refusal(status.code), refusal_message(base_url, status, body)))
        } else {
            match token {
                Ok(document) => Ok(document.token@),
                Err(detail) => Err(
                    (
                        AuthErrorKind::UnparseableResponse,
                        "Invalid response from Tandoor server: "@ + detail@,
                    ),
                ),
            }
        },
    }
}

/// The verb of a request.
#[derive(Clone, Copy, Debug, PartialEq, Eq, Structural)]
pub enum Method {
    Get,
    Post,
    Patch,
    Delete,
}

/// The request that one attempt sends: by which verb, where to, with what
/// body, and for how many seconds at most it may wait.
#[derive(Debug, Clone, PartialEq, Eq)]
pub struct LoginRequest {
    pub method: Method,
    pub url: String,
    pub body: AuthRequest,
    pub timeout_secs: u64,
}

/// The seconds that one attempt may take.
pub const AUTH_TIMEOUT_SECS: u64 = 10;

/// One client's side of authentication: where the service is, and the token
/// that the client holds, if any.
#[derive(Debug, Clone, PartialEq, Eq)]
pub struct TandoorAuth {
    base_url: String,
    token: Option<String>,
}

impl TandoorAuth {
    /// The base address, as the contracts see it.
    pub closed spec fn base(&self) -> Seq<char> {
        self.base_url@
    }

    /// The token held, as the contracts see it.
    pub closed spec fn held(&self) -> Option<Token> {
        match self.token {
            Some(token) => Some(token@),
            None => None,
        }
    }

    /// A handler for the service at `base_url`, without a token.
    pub fn new(base_url: String) -> (r: Self)
        ensures
            r.base() == base_url@,
            r.held() is None,
    {
        TandoorAuth { base_url, token: None }
    }

    /// The base address of the service.
    pub fn base_url(&self) -> (r: &str)
        ensures
            r@ == self.base(),
    {
        self.base_url.as_str()
    }

    /// The request that exchanges `username` and `password` for a token.
    pub fn login_request(&self, username: String, password: String) -> (r: LoginRequest)
        ensures
            r.method == Method::Post,
            r.url@ == self.base() + "/api-token-auth/"@,
            r.body.username == username,
            r.body.password == password,
            r.timeout_secs == AUTH_TIMEOUT_SECS,
    {
        LoginRequest {
            method: Method::Post,
            url: concat2(self.base_url.as_str(), "/api-token-auth/"),
            body: AuthRequest { username, password },
            timeout_secs: AUTH_TIMEOUT_SECS,
        }
    }

    /// Takes in what came back from one attempt. A token is kept; any failure
    /// leaves the handler as it was and is reported with its cause.
    pub fn authenticate(&mut self, reply: AuthReply) -> (r: Result<(), AuthError>)
        ensures
            final(self).base() == old(self).base(),
            match verdict(old(self).base(), reply) {
                Ok(token) => r is Ok && final(self).held() == Some(token),
                Err((kind, message)) => {
                    &&& r is Err
                    &&& r->Err_0.kind == kind
                    &&& r->Err_0.message@ == message
                    &&& final(self).held() == old(self).held()
                },
            },
    {
        match reply {
            AuthReply::Unreachable { detail } => {
                let head = concat3(
                    "Failed to connect to Tandoor server at ",
                    self.base_url.as_str(),
                    ": ",
                );
                Err(
                    AuthError {
                        kind: AuthErrorKind::Unreachable,
                        message: concat2(head.as_str(), detail.as_str()),
                    },
                )
            },
            AuthReply::Answered { status, body, token } => {
                if !status.is_success() {
                    Err(refusal(self.base_url.as_str(), &status, &body))
                } else {
                    match token {
                        Ok(document) => {
                            self.token = Some(document.token);
                            Ok(())
                        },
                        Err(detail) => Err(
                            AuthError {
                                kind: AuthErrorKind::UnparseableResponse,
                                message: concat2(
                                    "Invalid response from Tandoor server: ",
                                    detail.as_str(),
                                ),
                            },
                        ),
                    }
                }
            },
        }
    }

    /// The token held, if any.
    pub fn get_token(&self) -> (r: Option<&str>)
        ensures
            r is Some <==> self.held() is Some,
            r is Some ==> r->0@ == self.held()->0,
    {
        match &self.token {
            Some(token) => Some(token.as_str()),
            None => None,
        }
    }

    /// Whether a token is held that the client may go ahead with: one that
    /// is not the empty text.
    pub fn is_authenticated(&self) -> (r: bool)
        ensures
            r == usable(self.held()),
    {
        match &self.token {
            Some(token) => !token.as_str().is_empty(),
            None => false,
        }
    }

    /// Replaces whatever token is held by `token`.
    pub fn set_token(&mut self, token: String)
        ensures
            final(self).base() == old(self).base(),
            final(self).held() == Some(token@),
    {
        self.token = Some(token);
    }
}

/// The error that a refusing status stands for.
pub fn refusal(base_url: &str, status: &HttpStatus, body: &Option<String>) -> (r: AuthError)
    ensures
        r.kind == kind_of_refusal(status.code),
        r.message@ == refusal_message(base_url@, *status, *body),
{
    let quoted: &str = match body {
        Some(text) => text.as_str(),
        None => "Unable to read error response",
    };
    if status.code == 400 {
        AuthError {
            kind: AuthErrorKind::MalformedCredentials,
            message: String::from_str(
                "Invalid credentials provided. Please check username and password.",
            ),
        }
    } else if status.code == 401 {
        AuthError {
            kind: AuthErrorKind::InvalidCredentials,
            message: String::from_str("Authentication failed: Invalid username or password"),
        }
    } else if status.code == 403 {
        AuthError {
            kind: AuthErrorKind::AccountDisabled,
            message: String::from_str("Access denied: User account may be disabled"),
        }
    } else if status.code == 404 {
        AuthError {
            kind: AuthErrorKind::EndpointNotFound,
            message: concat2("Tandoor API endpoint not found. Check your base URL: ", base_url),
        }
    } else if 500 <= status.code && status.code <= 599 {
        let head = concat3("Tandoor server error (", status.text.as_str(), "): ");
        AuthError {
            kind: AuthErrorKind::ServerError,
            message: concat2(head.as_str(), quoted),
        }
    } else {
        let head = concat3("Authentication failed with status ", status.text.as_str(), ": ");
        AuthError {
            kind: AuthErrorKind::UnexpectedStatus,
            message: concat2(head.as_str(), quoted),
        }
    }
}

} // verus!
