//! Licenses that the server knows.

use crate::gate::{is_dotted, is_version, lemma_version_1_3_0};
use crate::request::{
    asked, receive_response, received_response, text_of, Payload, Request, RequestView,
};
use crate::text::join;
use crate::{outcome, Failure, Fossology, FossologyError, FossologyView};
use vstd::prelude::*;

verus! {

/// A license as the server describes it.
#[derive(Debug)]
pub struct License {
    pub id: i32,
    pub short_name: String,
    pub full_name: String,
    pub text: String,
    pub risk: Option<i32>,
    /// Servers before 1.3.0 do not send this.
    pub is_candidate: Option<bool>,
}

impl FossologyView {
    /// What is asked for the license `short_name`. Servers from 1.3.0 on
    /// take the name at the end of the path, older ones in a header; the
    /// name is the same in both.
    pub open spec fn license_request(
        self,
        short_name: Seq<char>,
        group_name: Option<Seq<char>>,
        by_path: bool,
    ) -> RequestView {
        if by_path {
            self.get_with_token("license/"@ + short_name).header_if("groupName"@, group_name)
        } else {
            self.get_with_token("license"@).header("shortName"@, short_name).header_if(
                "groupName"@,
                group_name,
            )
        }
    }

    /// What asking for the license `short_name` comes to where the guard
    /// says `by_path`: the request in the form that it chose, or the
    /// failure to choose.
    pub open spec fn license_asked(
        self,
        short_name: Seq<char>,
        group_name: Option<Seq<char>>,
        by_path: Result<bool, Failure>,
    ) -> Result<RequestView, Failure> {
        match by_path {
            Ok(by_path) => Ok(self.license_request(short_name, group_name, by_path)),
            Err(failure) => Err(failure),
        }
    }
}

/// What to ask for the license `short_name`, once it is known which of the
/// two forms the server takes.
pub fn license_request<'a>(
    fossology: &Fossology,
    short_name: &str,
    group_name: Option<&str>,
    by_path: bool,
) -> (r: Request<'a>)
    ensures
        r@ == fossology@.license_request(short_name@, text_of(group_name), by_path),
{
    let request = if by_path {
        fossology.init_get_with_token(join("license/", short_name).as_str())
    } else {
        fossology.init_get_with_token("license").header("shortName", short_name)
    };
    request.header_if("groupName", group_name)
}

/// What to ask for the license `short_name`: with the name in the path
/// where the server's version is at least 1.3.0, in a header where it is
/// older.
pub fn get_license<'a>(fossology: &Fossology, short_name: &str, group_name: Option<&str>) -> (r:
    Result<Request<'a>, FossologyError>)
    ensures
        asked(r) == fossology@.license_asked(
            short_name@,
            text_of(group_name),
            fossology@.gate("1.3.0"@),
        ),
        is_dotted(fossology@.version) ==> asked(r) == fossology@.license_asked(
            short_name@,
            text_of(group_name),
            fossology@.numeric_gate(seq![1nat, 3nat, 0nat]),
        ),
        is_version(fossology@.version) ==> asked(r) == Ok::<RequestView, Failure>(
            fossology@.license_request(
                short_name@,
                text_of(group_name),
                fossology@.has(seq![1nat, 3nat, 0nat]),
            ),
        ),
{
    proof {
        lemma_version_1_3_0();
    }
    match fossology.version_is_at_least("1.3.0") {
        Ok(by_path) => Ok(license_request(fossology, short_name, group_name, by_path)),
        Err(e) => Err(e),
    }
}

/// The license in what came back. Where the server reports an error the
/// failure holds its report, and the text of the failure is its message; a
/// body that is neither a license nor such a report is kept, as text, in
/// the failure.
pub fn license_reply(reply: Result<Payload<License>, FossologyError>) -> (r: Result<
    License,
    FossologyError,
>)
    ensures
        outcome(r) == received_response(reply),
{
    receive_response(reply)
}

/// The two forms in which a license is asked for differ in where the name
/// goes and in nothing else: both are `GET` requests with the session's
/// token, both name the same license, and both end in the header for the
/// group where one is given.
pub proof fn law_license_forms(
    fossology: FossologyView,
    short_name: Seq<char>,
    group_name: Option<Seq<char>>,
)
    ensures
        ({
            let by_path = fossology.license_request(short_name, group_name, true);
            let by_header = fossology.license_request(short_name, group_name, false);
            &&& by_path.method == by_header.method
            &&& by_path.bearer == by_header.bearer
            &&& by_path.bearer == Some(fossology.token)
            &&& by_path.query == by_header.query
            &&& by_path.body == by_header.body
            &&& by_path.url == fossology.url("license"@) + seq!['/'] + short_name
            &&& by_header.url == fossology.url("license"@)
            &&& by_header.headers == seq![("shortName"@, short_name)] + by_path.headers
            &&& by_path.headers == match group_name {
                Some(group) => seq![("groupName"@, group)],
                None => Seq::empty(),
            }
            &&& forall|i: int|
                0 <= i < by_path.headers.len() ==> (#[trigger] by_path.headers[i]).0
                    != "shortName"@
        }),
{
    reveal_strlit("license/");
    reveal_strlit("license");
    reveal_strlit("groupName");
    reveal_strlit("shortName");
    assert("groupName"@[0] != "shortName"@[0]);
    let by_path = fossology.license_request(short_name, group_name, true);
    let by_header = fossology.license_request(short_name, group_name, false);
    assert("license/"@ =~= "license"@ + seq!['/']);
    assert(by_path.url =~= fossology.url("license"@) + seq!['/'] + short_name);
    assert(by_header.headers =~= seq![("shortName"@, short_name)] + by_path.headers);
    match group_name {
        Some(group) => {
            assert(by_path.headers =~= seq![("groupName"@, group)]);
        },
        None => {
            assert(by_path.headers =~= Seq::empty());
        },
    }
}

/// Where the server's version is a version number that can be compared,
/// asking for a license always gives a request: with the name in the path
/// where the version is at least 1.3.0 by the order of the components as
/// numbers, with the name in a header where it is less.
pub proof fn law_license_routing(
    fossology: FossologyView,
    short_name: Seq<char>,
    group_name: Option<Seq<char>>,
)
    requires
        is_version(fossology.version),
    ensures
        fossology.license_asked(
            short_name,
            group_name,
            fossology.numeric_gate(seq![1nat, 3nat, 0nat]),
        ) == Ok::<RequestView, Failure>(
            fossology.license_request(
                short_name,
                group_name,
                fossology.has(seq![1nat, 3nat, 0nat]),
            ),
        ),
        fossology.has(seq![1nat, 3nat, 0nat]) ==> fossology.license_request(
            short_name,
            group_name,
            fossology.has(seq![1nat, 3nat, 0nat]),
        ).url == fossology.url("license"@) + seq!['/'] + short_name,
        !fossology.has(seq![1nat, 3nat, 0nat]) ==> fossology.license_request(
            short_name,
            group_name,
            fossology.has(seq![1nat, 3nat, 0nat]),
        ).url == fossology.url("license"@) && fossology.license_request(
            short_name,
            group_name,
            fossology.has(seq![1nat, 3nat, 0nat]),
        ).headers[0] == ("shortName"@, short_name),
{
    law_license_forms(fossology, short_name, group_name);
}

} // verus!
