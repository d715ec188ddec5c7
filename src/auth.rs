//! The login exchange: the request that starts it, and what each answer of
//! the server leads to.
use vstd::prelude::*;

use crate::model::ClientData;
use crate::request::{
    authorization_of, field, fields_view, joined, login_body, login_headers, login_url,
    server_info_headers, server_info_url, tag_of, Field, HttpRequest, Method, ServerConfig,
    TIMEOUT_SECS,
};

verus! {

/// The status of a successful login.
pub const STATUS_OK: u16 = 200;

/// The status of a login with wrong credentials.
pub const STATUS_UNAUTHORIZED: u16 = 401;

/// What a successful login reports.
pub const AUTHENTICATED: &'static str = "User authenticated";

/// Why a login failed. Every failure but these two is a `TransportFailure`:
/// an unreachable server and an unexpected status are not told apart.
#[derive(Debug, Clone, Copy, PartialEq, Eq)]
pub enum AuthError {
    /// The server refused the credentials (status 401).
    Unauthorized,
    /// A 200 answer whose body is not a session payload.
    DecodeFailure,
    /// No answer, or an answer with any other status.
    TransportFailure,
}

/// How the server answered a login request.
#[derive(Debug, Clone, Copy, PartialEq, Eq)]
pub enum Reply {
    /// No answer: the connection failed or the time ran out.
    Unreachable,
    /// An answer with this HTTP status.
    Status(u16),
}

/// What follows an answer's status.
#[derive(Debug, Clone, Copy, PartialEq, Eq)]
pub enum AuthStep {
    /// Decode the body as a session payload, then call `Jellyfin::on_body`.
    ReadBody,
    /// The login is over and failed.
    Fail(AuthError),
}

/// The end of a login: the payload to hand to the credential store, if any,
/// and what the caller is told. The store's own result is not reported.
#[derive(Debug)]
pub struct AuthCompletion {
    pub save: Option<ClientData>,
    pub result: Result<String, AuthError>,
}

/// A login status with its message as a sequence of characters.
pub open spec fn status_view(r: Result<String, AuthError>) -> Result<Seq<char>, AuthError> {
    match r {
        Ok(s) => Ok(s@),
        Err(e) => Err(e),
    }
}

impl View for AuthCompletion {
    type V = (Option<ClientData>, Result<Seq<char>, AuthError>);

    open spec fn view(&self) -> (Option<ClientData>, Result<Seq<char>, AuthError>) {
        (self.save, status_view(self.result))
    }
}

/// A client of one media server.
pub struct Jellyfin {
    pub config: ServerConfig,
}

/// What follows the status of an answer.
pub open spec fn reply_step(reply: Reply) -> AuthStep {
    match reply {
        Reply::Status(code) => if code == STATUS_OK {
            AuthStep::ReadBody
        } else if code == STATUS_UNAUTHORIZED {
            AuthStep::Fail(AuthError::Unauthorized)
        } else {
            AuthStep::Fail(AuthError::TransportFailure)
        },
        Reply::Unreachable => AuthStep::Fail(AuthError::TransportFailure),
    }
}

/// How a login ends after its body was decoded into `decoded`, or failed to be.
pub open spec fn body_completion(decoded: Option<ClientData>) -> (Option<ClientData>, Result<Seq<char>, AuthError>) {
    match decoded {
        Some(payload) => (Some(payload), Ok(AUTHENTICATED@)),
        None => (None, Err(AuthError::DecodeFailure)),
    }
}

/// How a whole login ends, given the answer's status and what its body
/// decodes to (which matters only where the body is read): the payload
/// handed to the credential store, if any, and the caller's result.
pub open spec fn login_outcome(reply: Reply, decoded: Option<ClientData>) -> (Option<ClientData>, Result<Seq<char>, AuthError>) {
    match reply_step(reply) {
        AuthStep::ReadBody => body_completion(decoded),
        AuthStep::Fail(e) => (None, Err(e)),
    }
}

impl Jellyfin {
    /// A client of the server that `config` describes.
    pub fn new(config: ServerConfig) -> (r: Jellyfin)
        ensures
            r.config == config,
    {
        Jellyfin { config }
    }

    /// Starts a login: the request that exchanges the credentials for a
    /// session. The credentials are sent as they are, with no check of their own.
    pub fn authenticate_user(&self, username: &str, password: &str) -> (r: HttpRequest)
        ensures
            r.method == Method::Post,
            r.url@ == login_url(&self.config),
            fields_view(r.headers@) == login_headers(&self.config),
            fields_view(r.body@) == login_body(username@, password@),
            r.timeout_secs == TIMEOUT_SECS,
    {
        let mut headers: Vec<Field> = Vec::new();
        headers.push(field("accept", String::from_str("application/json")));
        headers.push(field("content-type", String::from_str("application/json")));
        headers.push(field("X-Application", tag_of(&self.config)));
        headers.push(field("Accept-Charset", String::from_str("UTF-8,*")));
        headers.push(field("Accept-encoding", String::from_str("gzip")));
        headers.push(field("User-Agent", tag_of(&self.config)));
        headers.push(field("X-Emby-Authorization", authorization_of(&self.config)));
        let mut body: Vec<Field> = Vec::new();
        body.push(field("Username", String::from_str(username)));
        body.push(field("Pw", String::from_str(password)));
        assert(fields_view(headers@) =~= login_headers(&self.config));
        assert(fields_view(body@) =~= login_body(username@, password@));
        HttpRequest {
            method: Method::Post,
            url: joined(self.config.base_url.as_str(), "/users/AuthenticateByName"),
            headers,
            body,
            timeout_secs: TIMEOUT_SECS,
        }
    }

    /// The request for the server's public description; it carries no credentials.
    pub fn server_info_request(&self) -> (r: HttpRequest)
        ensures
            r.method == Method::Get,
            r.url@ == server_info_url(&self.config),
            fields_view(r.headers@) == server_info_headers(),
            r.body@.len() == 0,
            r.timeout_secs == TIMEOUT_SECS,
    {
        let mut headers: Vec<Field> = Vec::new();
        headers.push(field("Accept", String::from_str("application/json")));
        assert(fields_view(headers@) =~= server_info_headers());
        HttpRequest {
            method: Method::Get,
            url: joined(self.config.base_url.as_str(), "/System/Info/Public"),
            headers,
            body: Vec::new(),
            timeout_secs: TIMEOUT_SECS,
        }
    }

    /// What the status of the server's answer to a login means: read the
    /// body on 200, stop with `Unauthorized` on 401, and stop with
    /// `TransportFailure` on any other status or when no answer came.
    pub fn on_reply(reply: Reply) -> (r: AuthStep)
        ensures
            r == reply_step(reply),
    {
        match reply {
            Reply::Status(code) => {
                if code == STATUS_OK {
                    AuthStep::ReadBody
                } else if code == STATUS_UNAUTHORIZED {
                    AuthStep::Fail(AuthError::Unauthorized)
                } else {
                    AuthStep::Fail(AuthError::TransportFailure)
                }
            },
            Reply::Unreachable => AuthStep::Fail(AuthError::TransportFailure),
        }
    }

    /// How a login ends once the body of a 200 answer was decoded (`None`
    /// when it did not match the session payload): a decoded payload is
    /// handed to the credential store and the login succeeds; otherwise it
    /// fails with `DecodeFailure` and nothing is saved.
    pub fn on_body(decoded: Option<ClientData>) -> (r: AuthCompletion)
        ensures
            r@ == body_completion(decoded),
    {
        match decoded {
            Some(payload) => AuthCompletion {
                save: Some(payload),
                result: Ok(String::from_str(AUTHENTICATED)),
            },
            None => AuthCompletion { save: None, result: Err(AuthError::DecodeFailure) },
        }
    }
}

} // verus!
