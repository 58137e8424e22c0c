//! Finding out the version of a server.
//!
//! Servers changed what their info endpoint answers, and whether it wants a
//! token, without a way to ask which of the two a server does. So the info
//! endpoint is asked first, as recent servers want it; only where the answer
//! is not what a recent server sends, the version endpoint of the older ones
//! is asked. There is no third attempt.

use crate::info::{ApiInformation, ApiInformationV1};
use crate::request::{Method, Request, RequestView};
use crate::{text, Failure, Fossology, FossologyError, FossologyView};
use vstd::prelude::*;
use vstd::string::StringExecFns;

verus! {

/// What came of sending a probe.
#[derive(Debug)]
pub enum Probed<T> {
    /// No response was received; holds the transport's reason.
    Unreachable(String),
    /// A response was received, but its body is not what the probe asks
    /// for; holds the decoder's reason.
    Unreadable(String),
    /// A response was received, and this is its body.
    Answered(T),
}

/// The first probe: the info endpoint of recent servers.
#[derive(Debug)]
pub struct InfoProbe {
    uri: String,
    token: String,
}

/// The second probe: the version endpoint of older servers.
#[derive(Debug)]
pub struct VersionProbe {
    uri: String,
    token: String,
}

/// A probe as the contracts speak of it: the server to ask, and the token of
/// the session to come.
pub struct ProbeView {
    pub uri: Seq<char>,
    pub token: Seq<char>,
}

impl View for InfoProbe {
    type V = ProbeView;

    closed spec fn view(&self) -> ProbeView {
        ProbeView { uri: self.uri@, token: self.token@ }
    }
}

impl View for VersionProbe {
    type V = ProbeView;

    closed spec fn view(&self) -> ProbeView {
        ProbeView { uri: self.uri@, token: self.token@ }
    }
}

/// Where the first probe leads.
#[derive(Debug)]
pub enum Connect {
    /// The version is known: the session.
    Ready(Fossology),
    /// The server is not a recent one: the probe to send next.
    Fallback(VersionProbe),
    /// The server cannot be reached.
    Failed(FossologyError),
}

/// Where the first probe leads, as the contracts speak of it.
pub enum ConnectView {
    Ready(FossologyView),
    Fallback(ProbeView),
    Failed(Failure),
}

impl View for Connect {
    type V = ConnectView;

    open spec fn view(&self) -> ConnectView {
        match self {
            Connect::Ready(fossology) => ConnectView::Ready(fossology@),
            Connect::Fallback(probe) => ConnectView::Fallback(probe@),
            Connect::Failed(e) => ConnectView::Failed(e@),
        }
    }
}

impl ProbeView {
    /// The session that the probe leads to where the server's version is
    /// `version`.
    pub open spec fn session(self, version: Seq<char>) -> FossologyView {
        FossologyView { uri: self.uri, token: self.token, version }
    }

    /// Where `path` is found on the server.
    pub open spec fn url(self, path: Seq<char>) -> Seq<char> {
        self.uri + seq!['/'] + path
    }

    /// What the first probe asks: the info endpoint, with the token.
    pub open spec fn info_request(self) -> RequestView {
        RequestView::bare(Method::Get, self.url("info"@)).bearer_auth(self.token)
    }

    /// What the second probe asks: the version endpoint, without a token.
    pub open spec fn version_request(self) -> RequestView {
        RequestView::bare(Method::Get, self.url("version"@))
    }

    /// Where the first probe leads. A server that cannot be reached ends the
    /// attempt; one that answers as recent servers do gives its version; any
    /// other answer leads to the second probe.
    pub open spec fn after_info(self, reply: Probed<ApiInformation>) -> ConnectView {
        match reply {
            Probed::Unreachable(reason) => ConnectView::Failed(Failure::RequestError(reason@)),
            Probed::Unreadable(_) => ConnectView::Fallback(self),
            Probed::Answered(info) => ConnectView::Ready(self.session(info.version@)),
        }
    }

    /// Where the second probe leads: to the session, or to the failure of
    /// the whole attempt.
    pub open spec fn after_version(self, reply: Probed<ApiInformationV1>) -> Result<
        FossologyView,
        Failure,
    > {
        match reply {
            Probed::Unreachable(reason) => Err(Failure::RequestError(reason@)),
            Probed::Unreadable(reason) => Err(Failure::Other(reason@)),
            Probed::Answered(info) => Ok(self.session(info.version@)),
        }
    }

    /// The requests that are sent, in their order, where the first is
    /// answered by `first` and the second, if it comes to that, by `second`.
    pub open spec fn requests_sent(
        self,
        first: Probed<ApiInformation>,
        second: Probed<ApiInformationV1>,
    ) -> Seq<RequestView> {
        match self.after_info(first) {
            ConnectView::Fallback(probe) => seq![self.info_request(), probe.version_request()],
            _ => seq![self.info_request()],
        }
    }

    /// What the attempt comes to where the first request is answered by
    /// `first` and the second, if it comes to that, by `second`.
    pub open spec fn resolution(
        self,
        first: Probed<ApiInformation>,
        second: Probed<ApiInformationV1>,
    ) -> Result<FossologyView, Failure> {
        match self.after_info(first) {
            ConnectView::Ready(session) => Ok(session),
            ConnectView::Fallback(probe) => probe.after_version(second),
            ConnectView::Failed(failure) => Err(failure),
        }
    }
}

/// A session that was set up or not, as the contracts speak of it.
pub open spec fn connected(r: Result<Fossology, FossologyError>) -> Result<
    FossologyView,
    Failure,
> {
    match r {
        Ok(fossology) => Ok(fossology@),
        Err(e) => Err(e@),
    }
}

fn url(uri: &str, path: &str) -> (r: String)
    ensures
        r@ == uri@ + seq!['/'] + path@,
{
    let r = text::join(uri, "/").concat(path);
    proof {
        reveal_strlit("/");
        assert(r@ =~= uri@ + seq!['/'] + path@);
    }
    r
}

impl InfoProbe {
    /// The first probe of the server at `uri`.
    pub fn new(uri: &str, token: &str) -> (r: Self)
        ensures
            r@ == (ProbeView { uri: uri@, token: token@ }),
    {
        InfoProbe { uri: String::from_str(uri), token: String::from_str(token) }
    }

    /// What to ask the server.
    pub fn request<'a>(&self) -> (r: Request<'a>)
        ensures
            r@ == self@.info_request(),
    {
        Request::new(Method::Get, url(self.uri.as_str(), "info")).bearer_auth(self.token.as_str())
    }

    /// Where the server's answer leads.
    pub fn resolve(self, reply: Probed<ApiInformation>) -> (r: Connect)
        ensures
            r@ == self@.after_info(reply),
    {
        match reply {
            Probed::Unreachable(reason) => Connect::Failed(FossologyError::RequestError(reason)),
            Probed::Unreadable(_) => Connect::Fallback(
                VersionProbe { uri: self.uri, token: self.token },
            ),
            Probed::Answered(info) => Connect::Ready(
                Fossology::with_version(self.uri, self.token, info.version),
            ),
        }
    }
}

impl VersionProbe {
    /// What to ask the server.
    pub fn request<'a>(&self) -> (r: Request<'a>)
        ensures
            r@ == self@.version_request(),
    {
        Request::new(Method::Get, url(self.uri.as_str(), "version"))
    }

    /// Where the server's answer leads.
    pub fn resolve(self, reply: Probed<ApiInformationV1>) -> (r: Result<Fossology, FossologyError>)
        ensures
            connected(r) == self@.after_version(reply),
    {
        match reply {
            Probed::Unreachable(reason) => Err(FossologyError::RequestError(reason)),
            Probed::Unreadable(reason) => Err(FossologyError::Other(reason)),
            Probed::Answered(info) => Ok(
                Fossology::with_version(self.uri, self.token, info.version),
            ),
        }
    }
}

/// The probes ask what the session that they lead to asks of its server
/// for its description and for its version.
pub proof fn law_probes_are_requests_of_the_session(probe: ProbeView, version: Seq<char>)
    ensures
        probe.info_request() == probe.session(version).info_request(),
        probe.version_request() == probe.session(version).version_request(),
{
}

/// A server that answers the first probe as recent servers do is never asked
/// a second time, and the session has the version that it gave.
pub proof fn law_recent_server(
    probe: ProbeView,
    info: ApiInformation,
    second: Probed<ApiInformationV1>,
)
    ensures
        probe.requests_sent(Probed::Answered(info), second) == seq![probe.info_request()],
        probe.resolution(Probed::Answered(info), second) == Ok::<FossologyView, Failure>(
            probe.session(info.version@),
        ),
{
}

/// A server whose answer to the first probe cannot be read is asked for its
/// version the older way, without a token; the session has the version that
/// it gives then.
pub proof fn law_older_server(probe: ProbeView, reason: String, info: ApiInformationV1)
    ensures
        probe.requests_sent(Probed::Unreadable(reason), Probed::Answered(info)) == seq![
            probe.info_request(),
            probe.version_request(),
        ],
        probe.version_request().bearer is None,
        probe.resolution(Probed::Unreadable(reason), Probed::Answered(info)) == Ok::<
            FossologyView,
            Failure,
        >(probe.session(info.version@)),
{
}

/// Whatever the server answers, it is asked once or twice: first at its info
/// endpoint; a second time only where the first answer could not be read.
/// Where both answers cannot be read the attempt fails with the reason of
/// the second; a server that cannot be reached fails it at once.
pub proof fn law_two_attempts(
    probe: ProbeView,
    first: Probed<ApiInformation>,
    second: Probed<ApiInformationV1>,
)
    ensures
        1 <= probe.requests_sent(first, second).len() <= 2,
        probe.requests_sent(first, second)[0] == probe.info_request(),
        probe.requests_sent(first, second).len() == 2 <==> first is Unreadable,
        first is Unreadable ==> probe.requests_sent(first, second)[1] == probe.version_request(),
        first is Unreadable && second is Unreadable ==> probe.resolution(first, second) == Err::<
            FossologyView,
            Failure,
        >(Failure::Other(second->Unreadable_0@)),
        first is Unreachable ==> probe.resolution(first, second) == Err::<FossologyView, Failure>(
            Failure::RequestError(first->Unreachable_0@),
        ),
{
}

} // verus!
