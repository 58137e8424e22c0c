//! Requests as values, and what comes back for them.
//!
//! An operation on the server has two halves here. The first says what to
//! ask: a [`Request`]. The caller sends it, tries to read the body that comes
//! back both as what was asked for and as the server's report of an error,
//! and hands over a [`Payload`] or the reason why there is none. The second
//! half says what that means.

use crate::auth::TokensParameters;
use crate::job::ScheduleAgents;
use crate::{outcome, Failure, FossologyError, FossologyResponse, Info};
use vstd::prelude::*;
use vstd::string::StringExecFns;
use vstd::utf8::{decode_utf8, valid_utf8};

verus! {

/// How long a request may take before it is given up, in seconds. Scans on
/// the server take minutes, so the limit is generous; it is the same for
/// every request.
pub const TIMEOUT_SECONDS: u64 = 600;

/// The two methods that the server is asked with.
#[derive(Debug, Clone, Copy, PartialEq, Eq, Structural)]
pub enum Method {
    Get,
    Post,
}

/// A name and the value that goes with it: a header, or a parameter of the
/// query.
#[derive(Debug, PartialEq, Eq)]
pub struct Field {
    pub name: String,
    pub value: String,
}

impl View for Field {
    type V = (Seq<char>, Seq<char>);

    open spec fn view(&self) -> (Seq<char>, Seq<char>) {
        (self.name@, self.value@)
    }
}

/// What a list of fields holds, in its order.
pub open spec fn fields(list: Seq<Field>) -> Seq<(Seq<char>, Seq<char>)> {
    list.map_values(|field: Field| field@)
}

/// What a request carries besides its headers.
#[derive(Debug)]
pub enum Body<'a> {
    /// Nothing.
    Empty,
    /// The parameters of a token, as JSON.
    Tokens(&'a TokensParameters),
    /// The agents that are to analyse an upload, as JSON.
    Agents(&'a ScheduleAgents),
    /// The hashes to look for, as a JSON list.
    Hashes(&'a [crate::upload::Hash]),
    /// A form with one field, which holds the file at `path`.
    File { field: String, path: String },
}

/// A body as the contracts speak of it.
pub enum BodyView {
    Empty,
    Tokens(TokensParameters),
    Agents(ScheduleAgents),
    Hashes(Seq<crate::upload::Hash>),
    File { field: Seq<char>, path: Seq<char> },
}

impl<'a> View for Body<'a> {
    type V = BodyView;

    open spec fn view(&self) -> BodyView {
        match self {
            Body::Empty => BodyView::Empty,
            Body::Tokens(parameters) => BodyView::Tokens(**parameters),
            Body::Agents(agents) => BodyView::Agents(**agents),
            Body::Hashes(hashes) => BodyView::Hashes(hashes@),
            Body::File { field, path } => BodyView::File { field: field@, path: path@ },
        }
    }
}

/// What is asked of the server.
#[derive(Debug)]
pub struct Request<'a> {
    pub method: Method,
    /// Where the request goes, the query not included.
    pub url: String,
    /// The token to authorize with, as a bearer; `None` where the request
    /// goes without one.
    pub bearer: Option<String>,
    /// The parameters of the query, in the order in which they were added.
    pub query: Vec<Field>,
    /// The headers, in the order in which they were added.
    pub headers: Vec<Field>,
    pub body: Body<'a>,
}

/// A request as the contracts speak of it.
pub struct RequestView {
    pub method: Method,
    pub url: Seq<char>,
    pub bearer: Option<Seq<char>>,
    pub query: Seq<(Seq<char>, Seq<char>)>,
    pub headers: Seq<(Seq<char>, Seq<char>)>,
    pub body: BodyView,
}

impl<'a> View for Request<'a> {
    type V = RequestView;

    open spec fn view(&self) -> RequestView {
        RequestView {
            method: self.method,
            url: self.url@,
            bearer: match self.bearer {
                Some(token) => Some(token@),
                None => None,
            },
            query: fields(self.query@),
            headers: fields(self.headers@),
            body: self.body@,
        }
    }
}

impl RequestView {
    /// The request to `url` that carries nothing yet.
    pub open spec fn bare(method: Method, url: Seq<char>) -> RequestView {
        RequestView {
            method,
            url,
            bearer: None,
            query: Seq::empty(),
            headers: Seq::empty(),
            body: BodyView::Empty,
        }
    }

    /// This request, authorized by `token`.
    pub open spec fn bearer_auth(self, token: Seq<char>) -> RequestView {
        RequestView { bearer: Some(token), ..self }
    }

    /// This request with one more header.
    pub open spec fn header(self, name: Seq<char>, value: Seq<char>) -> RequestView {
        RequestView { headers: self.headers.push((name, value)), ..self }
    }

    /// This request with one more header where there is a value for it.
    pub open spec fn header_if(self, name: Seq<char>, value: Option<Seq<char>>) -> RequestView {
        match value {
            Some(value) => self.header(name, value),
            None => self,
        }
    }

    /// This request with one more parameter in its query.
    pub open spec fn query(self, name: Seq<char>, value: Seq<char>) -> RequestView {
        RequestView { query: self.query.push((name, value)), ..self }
    }

    /// This request with `body` in place of what it carried.
    pub open spec fn body(self, body: BodyView) -> RequestView {
        RequestView { body, ..self }
    }
}

impl<'a> Request<'a> {
    /// The request to `url` that carries nothing yet.
    pub fn new(method: Method, url: String) -> (r: Self)
        ensures
            r@ == RequestView::bare(method, url@),
    {
        let r = Request {
            method,
            url,
            bearer: None,
            query: Vec::new(),
            headers: Vec::new(),
            body: Body::Empty,
        };
        assert(fields(r.query@) =~= Seq::empty());
        assert(fields(r.headers@) =~= Seq::empty());
        r
    }

    /// This request, authorized by `token`.
    pub fn bearer_auth(self, token: &str) -> (r: Self)
        ensures
            r@ == self@.bearer_auth(token@),
    {
        Request { bearer: Some(String::from_str(token)), ..self }
    }

    /// This request with one more header.
    pub fn header(self, name: &str, value: &str) -> (r: Self)
        ensures
            r@ == self@.header(name@, value@),
    {
        let mut headers = self.headers;
        headers.push(Field { name: String::from_str(name), value: String::from_str(value) });
        assert(fields(headers@) =~= fields(self.headers@).push((name@, value@)));
        Request { headers, ..self }
    }

    /// This request with one more parameter in its query.
    pub fn query(self, name: &str, value: &str) -> (r: Self)
        ensures
            r@ == self@.query(name@, value@),
    {
        let mut query = self.query;
        query.push(Field { name: String::from_str(name), value: String::from_str(value) });
        assert(fields(query@) =~= fields(self.query@).push((name@, value@)));
        Request { query, ..self }
    }

    /// This request with one more header where there is a value for it.
    pub fn header_if(self, name: &str, value: Option<&str>) -> (r: Self)
        ensures
            r@ == self@.header_if(name@, text_of(value)),
    {
        match value {
            Some(value) => self.header(name, value),
            None => self,
        }
    }

    /// This request with `body` in place of what it carried.
    pub fn body(self, body: Body<'a>) -> (r: Self)
        ensures
            r@ == self@.body(body@),
    {
        Request { body, ..self }
    }
}

/// What an optional text holds.
pub open spec fn text_of(value: Option<&str>) -> Option<Seq<char>> {
    match value {
        Some(value) => Some(value@),
        None => None,
    }
}

/// What an optional text of its own holds.
pub open spec fn owned_text_of(value: Option<String>) -> Option<Seq<char>> {
    match value {
        Some(value) => Some(value@),
        None => None,
    }
}

/// The text in `value`, borrowed.
pub fn borrowed(value: &Option<String>) -> (r: Option<&str>)
    ensures
        text_of(r) == owned_text_of(*value),
{
    match value {
        Some(value) => Some(value.as_str()),
        None => None,
    }
}

/// What a call that depends on the server's version comes to: the request
/// where the server has what it takes, no request at all where it has not
/// or where that cannot be told.
pub open spec fn gated(supported: Result<bool, Failure>, request: RequestView) -> Result<
    RequestView,
    Failure,
> {
    match supported {
        Ok(true) => Ok(request),
        Ok(false) => Err(Failure::UnsupportedVersion),
        Err(failure) => Err(failure),
    }
}

/// A request that was made or refused, as the contracts speak of it.
pub open spec fn asked(r: Result<Request, FossologyError>) -> Result<RequestView, Failure> {
    match r {
        Ok(request) => Ok(request@),
        Err(e) => Err(e@),
    }
}

/// The text that `String::from_utf8_lossy` makes of `bytes`.
pub uninterp spec fn utf8_lossy(bytes: Seq<u8>) -> Seq<char>;

/// A body as text: the text that it encodes where it is UTF-8, and what
/// `String::from_utf8_lossy` makes of it where it is not.
pub open spec fn body_text(raw: Seq<u8>) -> Seq<char> {
    if valid_utf8(raw) {
        decode_utf8(raw)
    } else {
        utf8_lossy(raw)
    }
}

/// Calls `String::from_utf8_lossy`. The text is a function of the bytes;
/// where they are UTF-8 it is the text that they encode.
#[verifier::external_body]
fn lossy_text(bytes: &[u8]) -> (r: String)
    ensures
        r@ == utf8_lossy(bytes@),
        valid_utf8(bytes@) ==> r@ == decode_utf8(bytes@),
        r@ == body_text(bytes@),
{
    String::from_utf8_lossy(bytes).into_owned()
}

/// The body of a response, and what became of the two attempts to read it.
#[derive(Debug)]
pub struct Payload<T> {
    /// The body as it was received.
    pub raw: Vec<u8>,
    /// The body read as what was asked for, where it has that shape.
    pub success: Option<T>,
    /// The body read as the server's report of an error, where it has that
    /// shape.
    pub error: Option<Info>,
}

impl<T> Payload<T> {
    /// What the body decodes to: what was asked for where it has that shape,
    /// whatever else it may be read as; else the server's report of an
    /// error; else the failure that holds the body as text.
    pub open spec fn decoded(self) -> Result<FossologyResponse<T>, Failure> {
        match self.success {
            Some(value) => Ok(FossologyResponse::Response(value)),
            None => match self.error {
                Some(info) => Ok(FossologyResponse::ApiError(info)),
                None => Err(Failure::UnexpectedResponse(body_text(self.raw@))),
            },
        }
    }

    /// Decodes the body.
    pub fn decode(self) -> (r: Result<FossologyResponse<T>, FossologyError>)
        ensures
            outcome(r) == self.decoded(),
    {
        match self.success {
            Some(value) => Ok(FossologyResponse::Response(value)),
            None => match self.error {
                Some(info) => Ok(FossologyResponse::ApiError(info)),
                None => Err(FossologyError::UnexpectedResponse(lossy_text(self.raw.as_slice()))),
            },
        }
    }
}

/// What came back for a request: the body, or why there is none.
pub open spec fn received<T>(reply: Result<Payload<T>, FossologyError>) -> Result<
    FossologyResponse<T>,
    Failure,
> {
    match reply {
        Ok(payload) => payload.decoded(),
        Err(e) => Err(e@),
    }
}

/// Decodes what came back for a request. Where nothing came back, the
/// reason is kept as it is.
pub fn receive<T>(reply: Result<Payload<T>, FossologyError>) -> (r: Result<
    FossologyResponse<T>,
    FossologyError,
>)
    ensures
        outcome(r) == received(reply),
{
    match reply {
        Ok(payload) => payload.decode(),
        Err(e) => Err(e),
    }
}

/// What an operation has from what came back: what was asked for, the
/// failure that holds the server's report, the failure that holds a body
/// of neither shape, or the reason why nothing came back.
pub open spec fn received_response<T>(reply: Result<Payload<T>, FossologyError>) -> Result<
    T,
    Failure,
> {
    match received(reply) {
        Ok(response) => response.response_or_error(),
        Err(failure) => Err(failure),
    }
}

/// What was asked for, out of what came back; where the server reported an
/// error, the failure that holds its report.
pub fn receive_response<T>(reply: Result<Payload<T>, FossologyError>) -> (r: Result<
    T,
    FossologyError,
>)
    ensures
        outcome(r) == received_response(reply),
{
    match receive(reply) {
        Ok(response) => response.return_response_or_error(),
        Err(e) => Err(e),
    }
}

/// A body that has the shape of what was asked for decodes to it, whatever
/// else it may be read as.
pub proof fn law_success_first<T>(payload: Payload<T>)
    requires
        payload.success is Some,
    ensures
        payload.decoded() == Ok::<FossologyResponse<T>, Failure>(
            FossologyResponse::Response(payload.success->0),
        ),
{
}

/// A body that is the server's report of an error, and not what was asked
/// for, decodes to that report. The operation fails with it, code and
/// message included, and the text of the failure is the server's message,
/// as the server wrote it.
pub proof fn law_reported_error<T>(payload: Payload<T>)
    requires
        payload.success is None,
        payload.error is Some,
    ensures
        payload.decoded() == Ok::<FossologyResponse<T>, Failure>(
            FossologyResponse::ApiError(payload.error->0),
        ),
        received_response(Ok(payload)) == Err::<T, Failure>(
            Failure::ApiError {
                code: payload.error->0.code,
                message: payload.error->0.message@,
                error_type: payload.error->0.error_type@,
            },
        ),
        received_response(Ok(payload))->Err_0.text() == payload.error->0.message@,
{
}

/// A body that is neither what was asked for nor the server's report of an
/// error is not lost: the failure holds it, as the text that it encodes
/// where it is UTF-8.
pub proof fn law_body_kept<T>(payload: Payload<T>)
    requires
        payload.success is None,
        payload.error is None,
    ensures
        payload.decoded() == Err::<FossologyResponse<T>, Failure>(
            Failure::UnexpectedResponse(body_text(payload.raw@)),
        ),
        received_response(Ok(payload)) == Err::<T, Failure>(
            Failure::UnexpectedResponse(body_text(payload.raw@)),
        ),
        valid_utf8(payload.raw@) ==> received_response(Ok(payload)) == Err::<T, Failure>(
            Failure::UnexpectedResponse(decode_utf8(payload.raw@)),
        ),
{
}

/// Where nothing came back, the reason is what the operation fails with.
pub proof fn law_nothing_received<T>(e: FossologyError)
    ensures
        received::<T>(Err(e)) == Err::<FossologyResponse<T>, Failure>(e@),
        received_response::<T>(Err(e)) == Err::<T, Failure>(e@),
{
}

} // verus!
