//! What the server says of itself.

use crate::gate::{is_dotted, is_version, lemma_version_1_3_3};
use crate::request::{
    asked, gated, receive_response, received_response, Payload, Request, RequestView,
};
use crate::{outcome, Fossology, FossologyError, FossologyView};
use vstd::prelude::*;

verus! {

/// What a server says of itself at its version endpoint.
#[derive(Debug)]
pub struct ApiInformationV1 {
    pub version: String,
    pub security: Vec<String>,
}

/// What a server says of itself at its info endpoint.
#[derive(Debug)]
pub struct ApiInformation {
    pub name: String,
    pub description: String,
    pub version: String,
    pub security: Vec<String>,
    pub contact: String,
    pub license: ApiLicense,
}

/// The license under which the server's interface is offered.
#[derive(Debug)]
pub struct ApiLicense {
    pub name: String,
    pub url: String,
}

/// The state of the server and of the parts it depends on.
#[derive(Debug)]
pub struct Health {
    pub status: String,
    pub scheduler: Status,
    pub db: Status,
}

/// The state of one part of the server.
#[derive(Debug)]
pub struct Status {
    pub status: String,
}

impl FossologyView {
    /// What is asked to have the server describe itself.
    pub open spec fn info_request(self) -> RequestView {
        self.get_with_token("info"@)
    }

    /// What is asked to have the server tell its version the older way.
    pub open spec fn version_request(self) -> RequestView {
        self.get("version"@)
    }

    /// What is asked to have the server tell how it is.
    pub open spec fn health_request(self) -> RequestView {
        self.get_with_token("health"@)
    }
}

/// What to ask to have the server describe itself, once it is known whether
/// the server is recent enough: nothing where it is not.
pub fn info_request<'a>(fossology: &Fossology, supported: bool) -> (r: Result<
    Request<'a>,
    FossologyError,
>)
    ensures
        asked(r) == gated(Ok(supported), fossology@.info_request()),
{
    if supported {
        Ok(fossology.init_get_with_token("info"))
    } else {
        Err(FossologyError::UnsupportedVersion)
    }
}

/// What to ask to have the server describe itself. Servers before 1.3.3 are
/// not asked.
pub fn info<'a>(fossology: &Fossology) -> (r: Result<Request<'a>, FossologyError>)
    ensures
        asked(r) == gated(fossology@.gate("1.3.3"@), fossology@.info_request()),
        is_dotted(fossology@.version) ==> asked(r) == gated(
            fossology@.numeric_gate(seq![1nat, 3nat, 3nat]),
            fossology@.info_request(),
        ),
        is_version(fossology@.version) ==> asked(r) == gated(
            Ok(fossology@.has(seq![1nat, 3nat, 3nat])),
            fossology@.info_request(),
        ),
{
    proof {
        lemma_version_1_3_3();
    }
    match fossology.version_is_at_least("1.3.3") {
        Ok(supported) => info_request(fossology, supported),
        Err(e) => Err(e),
    }
}

/// What the server says of itself, out of what came back.
pub fn info_reply(reply: Result<Payload<ApiInformation>, FossologyError>) -> (r: Result<
    ApiInformation,
    FossologyError,
>)
    ensures
        outcome(r) == received_response(reply),
{
    receive_response(reply)
}

/// What to ask to have the server tell its version the older way: no token
/// goes with it.
pub fn version<'a>(fossology: &Fossology) -> (r: Request<'a>)
    ensures
        r@ == fossology@.version_request(),
{
    fossology.init_get("version")
}

/// What the server says of its version, out of what came back.
pub fn version_reply(reply: Result<Payload<ApiInformationV1>, FossologyError>) -> (r: Result<
    ApiInformationV1,
    FossologyError,
>)
    ensures
        outcome(r) == received_response(reply),
{
    receive_response(reply)
}

/// What to ask to have the server tell how it is, once it is known whether
/// the server is recent enough: nothing where it is not.
pub fn health_request<'a>(fossology: &Fossology, supported: bool) -> (r: Result<
    Request<'a>,
    FossologyError,
>)
    ensures
        asked(r) == gated(Ok(supported), fossology@.health_request()),
{
    if supported {
        Ok(fossology.init_get_with_token("health"))
    } else {
        Err(FossologyError::UnsupportedVersion)
    }
}

/// What to ask to have the server tell how it is. Servers before 1.3.3 are
/// not asked.
pub fn health<'a>(fossology: &Fossology) -> (r: Result<Request<'a>, FossologyError>)
    ensures
        asked(r) == gated(fossology@.gate("1.3.3"@), fossology@.health_request()),
        is_dotted(fossology@.version) ==> asked(r) == gated(
            fossology@.numeric_gate(seq![1nat, 3nat, 3nat]),
            fossology@.health_request(),
        ),
        is_version(fossology@.version) ==> asked(r) == gated(
            Ok(fossology@.has(seq![1nat, 3nat, 3nat])),
            fossology@.health_request(),
        ),
{
    proof {
        lemma_version_1_3_3();
    }
    match fossology.version_is_at_least("1.3.3") {
        Ok(supported) => health_request(fossology, supported),
        Err(e) => Err(e),
    }
}

/// How the server is, out of what came back.
pub fn health_reply(reply: Result<Payload<Health>, FossologyError>) -> (r: Result<
    Health,
    FossologyError,
>)
    ensures
        outcome(r) == received_response(reply),
{
    receive_response(reply)
}

} // verus!
