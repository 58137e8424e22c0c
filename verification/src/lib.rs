//! A typed client for the REST interface of a FOSSology license scanner.
//!
//! The crate decides what is asked of the server and what its answers mean;
//! carrying a request over the network is left to the caller.

use crate::request::{Method, Request, RequestView};
use crate::resolve::{InfoProbe, ProbeView};
use vstd::prelude::*;
use vstd::string::StringExecFns;

pub mod auth;
pub mod gate;
pub mod info;
pub mod job;
pub mod license;
pub mod request;
pub mod resolve;
pub mod text;
pub mod upload;
pub mod utilities;

verus! {

/// A session with one server: where it is, the token that authorizes the
/// session, and the version of its interface, found out once when the
/// session was set up and the same ever after.
#[derive(Debug)]
pub struct Fossology {
    uri: String,
    token: String,
    version: String,
}

/// A session as the contracts speak of it.
pub struct FossologyView {
    pub uri: Seq<char>,
    pub token: Seq<char>,
    pub version: Seq<char>,
}

impl View for Fossology {
    type V = FossologyView;

    closed spec fn view(&self) -> FossologyView {
        FossologyView { uri: self.uri@, token: self.token@, version: self.version@ }
    }
}

impl FossologyView {
    /// Where `path` is found on the server.
    pub open spec fn url(self, path: Seq<char>) -> Seq<char> {
        self.uri + seq!['/'] + path
    }

    /// The `GET` request for `path` that carries the session's token.
    pub open spec fn get_with_token(self, path: Seq<char>) -> RequestView {
        RequestView::bare(Method::Get, self.url(path)).bearer_auth(self.token)
    }

    /// The `GET` request for `path` that carries no token.
    pub open spec fn get(self, path: Seq<char>) -> RequestView {
        RequestView::bare(Method::Get, self.url(path))
    }

    /// The `POST` request for `path` that carries the session's token.
    pub open spec fn post_with_token(self, path: Seq<char>) -> RequestView {
        RequestView::bare(Method::Post, self.url(path)).bearer_auth(self.token)
    }

    /// What a call that needs a server of version `min_required` comes to:
    /// whether the server has it, or that the two versions cannot be compared.
    pub open spec fn gate(self, min_required: Seq<char>) -> Result<bool, Failure> {
        gate::answer(gate::gate(self.version, min_required))
    }

    /// Whether the server's version, a version number, is at least the one
    /// with the components `min_required`.
    pub open spec fn has(self, min_required: Seq<nat>) -> bool {
        gate::at_least(gate::components(self.version), min_required)
    }

    /// What a call that needs a server of the version with the components
    /// `min_required` comes to where the server's version is written as a
    /// version number: whether the server has it, by the order of the
    /// components as numbers; or, where a component of the server's version
    /// is above `i32::MAX`, that the two cannot be compared.
    pub open spec fn numeric_gate(self, min_required: Seq<nat>) -> Result<bool, Failure> {
        if gate::runs_fit(self.version) {
            Ok(self.has(min_required))
        } else {
            Err(Failure::Other("Failed to compare versions"@))
        }
    }
}

impl Fossology {
    /// Begins a session with the server at `uri`: the first thing to do is to
    /// find out its version, and the probe returned says how. The session
    /// itself comes out of the probe, or out of the one that it falls back to.
    pub fn new(uri: &str, token: &str) -> (r: InfoProbe)
        ensures
            r@ == (ProbeView { uri: uri@, token: token@ }),
    {
        InfoProbe::new(uri, token)
    }

    /// The session with the server at `uri` whose version is known.
    pub(crate) fn with_version(uri: String, token: String, version: String) -> (r: Self)
        ensures
            r@ == (FossologyView { uri: uri@, token: token@, version: version@ }),
    {
        Fossology { uri, token, version }
    }

    /// Where the server is.
    pub fn uri(&self) -> (r: &str)
        ensures
            r@ == self@.uri,
    {
        self.uri.as_str()
    }

    /// The token that authorizes the session.
    pub fn token(&self) -> (r: &str)
        ensures
            r@ == self@.token,
    {
        self.token.as_str()
    }

    /// The version of the server's interface.
    pub fn version(&self) -> (r: &str)
        ensures
            r@ == self@.version,
    {
        self.version.as_str()
    }

    /// Whether the server's version is at least `version`.
    ///
    /// Between version numbers the answer is the order of their components as
    /// numbers, a missing component counting as 0. A component above
    /// `i32::MAX` cannot be compared, and the answer is the failure to
    /// compare, never a wrong order.
    pub fn version_is_at_least(&self, version: &str) -> (r: Result<bool, FossologyError>)
        ensures
            outcome(r) == self@.gate(version@),
            gate::is_dotted(self@.version) && gate::is_dotted(version@) ==> outcome(r)
                == gate::numeric_answer(self@.version, version@),
            gate::is_version(self@.version) && gate::is_version(version@) ==> r == Ok::<
                bool,
                FossologyError,
            >(gate::at_least(gate::components(self@.version), gate::components(version@))),
    {
        gate::supports(self.version.as_str(), version)
    }

    /// Where `path` is found on the server.
    pub fn url(&self, path: &str) -> (r: String)
        ensures
            r@ == self@.url(path@),
    {
        let r = text::join(self.uri.as_str(), "/").concat(path);
        proof {
            reveal_strlit("/");
            assert(r@ =~= self@.url(path@));
        }
        r
    }

    /// The `GET` request for `path` that carries the session's token.
    pub fn init_get_with_token<'a>(&self, path: &str) -> (r: Request<'a>)
        ensures
            r@ == self@.get_with_token(path@),
    {
        Request::new(Method::Get, self.url(path)).bearer_auth(self.token.as_str())
    }

    /// The `GET` request for `path` that carries no token.
    pub fn init_get<'a>(&self, path: &str) -> (r: Request<'a>)
        ensures
            r@ == self@.get(path@),
    {
        Request::new(Method::Get, self.url(path))
    }

    /// The `POST` request for `path` that carries the session's token.
    pub fn init_post_with_token<'a>(&self, path: &str) -> (r: Request<'a>)
        ensures
            r@ == self@.post_with_token(path@),
    {
        Request::new(Method::Post, self.url(path)).bearer_auth(self.token.as_str())
    }
}

/// Why an operation did not give its result.
#[derive(Debug, PartialEq, Eq)]
pub enum FossologyError {
    /// A local file could not be read; holds the reason.
    FileError(String),
    /// No response was received; holds the transport's reason.
    RequestError(String),
    /// The server answered with something that was not expected; holds it.
    UnexpectedResponse(String),
    /// A value could not be encoded or decoded; holds the reason.
    SerdeError(String),
    /// The server is older than the endpoint that was asked for.
    UnsupportedVersion,
    /// The server reported an error of its own; holds the report, with its
    /// code and its message.
    ApiError(Info),
    /// Anything else; holds the reason.
    Other(String),
}

/// A failure as the contracts speak of it: the variant and the text it holds.
pub enum Failure {
    FileError(Seq<char>),
    RequestError(Seq<char>),
    UnexpectedResponse(Seq<char>),
    SerdeError(Seq<char>),
    UnsupportedVersion,
    ApiError { code: i32, message: Seq<char>, error_type: Seq<char> },
    Other(Seq<char>),
}

impl Failure {
    /// The text that describes the failure to a reader. Where the server
    /// reported an error, it is the server's message and nothing else.
    pub open spec fn text(self) -> Seq<char> {
        match self {
            Failure::FileError(reason) => reason,
            Failure::RequestError(reason) => reason,
            Failure::UnexpectedResponse(body) => "Unexpected response: "@ + body,
            Failure::SerdeError(reason) => reason,
            Failure::UnsupportedVersion => "Fossology version does not support the endpoint."@,
            Failure::ApiError { message, .. } => message,
            Failure::Other(reason) => "Error: "@ + reason,
        }
    }
}

impl View for FossologyError {
    type V = Failure;

    open spec fn view(&self) -> Failure {
        match self {
            FossologyError::FileError(reason) => Failure::FileError(reason@),
            FossologyError::RequestError(reason) => Failure::RequestError(reason@),
            FossologyError::UnexpectedResponse(body) => Failure::UnexpectedResponse(body@),
            FossologyError::SerdeError(reason) => Failure::SerdeError(reason@),
            FossologyError::UnsupportedVersion => Failure::UnsupportedVersion,
            FossologyError::ApiError(info) => info.failure(),
            FossologyError::Other(reason) => Failure::Other(reason@),
        }
    }
}

impl FossologyError {
    /// The failure in words.
    pub fn to_string(&self) -> (r: String)
        ensures
            r@ == self@.text(),
    {
        match self {
            FossologyError::FileError(reason) => reason.clone(),
            FossologyError::RequestError(reason) => reason.clone(),
            FossologyError::UnexpectedResponse(body) => text::join(
                "Unexpected response: ",
                body.as_str(),
            ),
            FossologyError::SerdeError(reason) => reason.clone(),
            FossologyError::UnsupportedVersion => String::from_str(
                "Fossology version does not support the endpoint.",
            ),
            FossologyError::ApiError(info) => info.message.clone(),
            FossologyError::Other(reason) => text::join("Error: ", reason.as_str()),
        }
    }
}

/// What the server sends when it reports an error of its own.
#[derive(Debug, PartialEq, Eq)]
pub struct Info {
    pub code: i32,
    pub message: String,
    pub error_type: String,
}

impl Info {
    /// The failure of an operation to which the server answers with this
    /// report: it keeps the code, the message and the type of the report.
    pub open spec fn failure(self) -> Failure {
        Failure::ApiError {
            code: self.code,
            message: self.message@,
            error_type: self.error_type@,
        }
    }
}

/// What the server sends when its message is a number, such as the id of
/// something it has just created.
#[derive(Debug)]
pub struct InfoWithNumber {
    pub code: i32,
    pub message: i32,
    pub error_type: String,
}

/// What a response holds once decoded: what was asked for, or the server's
/// report of an error.
#[derive(Debug)]
pub enum FossologyResponse<T> {
    Response(T),
    ApiError(Info),
}

impl<T> FossologyResponse<T> {
    /// What the response comes to for the operation that asked: what was
    /// asked for, or the failure that holds the server's report.
    pub open spec fn response_or_error(self) -> Result<T, Failure> {
        match self {
            FossologyResponse::Response(res) => Ok(res),
            FossologyResponse::ApiError(err) => Err(err.failure()),
        }
    }

    /// What was asked for; where the server reported an error, the failure
    /// that holds its report. Every operation turns a response into its
    /// result this way.
    pub fn return_response_or_error(self) -> (r: Result<T, FossologyError>)
        ensures
            outcome(r) == self.response_or_error(),
    {
        match self {
            FossologyResponse::Response(res) => Ok(res),
            FossologyResponse::ApiError(err) => Err(FossologyError::ApiError(err)),
        }
    }
}

/// A result as the contracts speak of it: what it holds, or how it failed.
pub open spec fn outcome<T>(r: Result<T, FossologyError>) -> Result<T, Failure> {
    match r {
        Ok(value) => Ok(value),
        Err(e) => Err(e@),
    }
}

} // verus!
