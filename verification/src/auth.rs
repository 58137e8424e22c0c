//! Access tokens.

use crate::request::{
    receive_response, received_response, Body, BodyView, Method, Payload, Request, RequestView,
};
use crate::{outcome, Fossology, FossologyError, FossologyView};
use chrono::NaiveDate;
use vstd::prelude::*;
use vstd::string::StringExecFns;

verus! {

/// A calendar date of `chrono`. Nothing is read from it here: it is carried
/// to the request as it was given.
#[verifier::external_type_specification]
#[verifier::external_body]
pub struct ExNaiveDate(NaiveDate);

/// What a token allows.
#[derive(Debug, Clone, Copy, PartialEq, Eq, Structural)]
pub enum TokenScope {
    Read,
    Write,
}

/// What is sent to have a token made.
#[derive(Debug)]
pub struct TokensParameters {
    username: String,
    password: String,
    token_name: String,
    token_scope: TokenScope,
    token_expire: NaiveDate,
}

/// The parameters of a token as the contracts speak of them.
pub struct TokensParametersView {
    pub username: Seq<char>,
    pub password: Seq<char>,
    pub token_name: Seq<char>,
    pub token_scope: TokenScope,
    pub token_expire: NaiveDate,
}

impl View for TokensParameters {
    type V = TokensParametersView;

    closed spec fn view(&self) -> TokensParametersView {
        TokensParametersView {
            username: self.username@,
            password: self.password@,
            token_name: self.token_name@,
            token_scope: self.token_scope,
            token_expire: self.token_expire,
        }
    }
}

impl TokensParameters {
    /// The parameters for a token named `token_name` that lasts until
    /// `token_expire`.
    pub fn new(
        username: &str,
        password: &str,
        token_name: &str,
        token_scope: TokenScope,
        token_expire: NaiveDate,
    ) -> (r: Self)
        ensures
            r@ == (TokensParametersView {
                username: username@,
                password: password@,
                token_name: token_name@,
                token_scope,
                token_expire,
            }),
    {
        Self {
            username: String::from_str(username),
            password: String::from_str(password),
            token_name: String::from_str(token_name),
            token_scope,
            token_expire,
        }
    }

    /// The user the token is made for.
    pub fn username(&self) -> (r: &str)
        ensures
            r@ == self@.username,
    {
        self.username.as_str()
    }

    /// The user's password.
    pub fn password(&self) -> (r: &str)
        ensures
            r@ == self@.password,
    {
        self.password.as_str()
    }

    /// The name the token will go by.
    pub fn token_name(&self) -> (r: &str)
        ensures
            r@ == self@.token_name,
    {
        self.token_name.as_str()
    }

    /// What the token will allow.
    pub fn token_scope(&self) -> (r: TokenScope)
        ensures
            r == self@.token_scope,
    {
        self.token_scope
    }

    /// The last day on which the token will be accepted.
    pub fn token_expire(&self) -> (r: &NaiveDate)
        ensures
            *r == self@.token_expire,
    {
        &self.token_expire
    }
}

/// A token as the server hands it out.
#[derive(Debug)]
pub struct Token {
    /// The value of the `Authorization` header that the token stands for.
    pub authorization: String,
}

impl FossologyView {
    /// What is asked to have a token made: the parameters go in the body,
    /// and no token goes with them.
    pub open spec fn tokens_request(self, params: TokensParameters) -> RequestView {
        RequestView::bare(Method::Post, self.url("tokens"@)).body(BodyView::Tokens(params))
    }
}

/// What to ask to have a token made.
pub fn tokens<'a>(fossology: &Fossology, params: &'a TokensParameters) -> (r: Request<'a>)
    ensures
        r@ == fossology@.tokens_request(*params),
{
    Request::new(Method::Post, fossology.url("tokens")).body(Body::Tokens(params))
}

/// The token in what came back.
pub fn tokens_reply(reply: Result<Payload<Token>, FossologyError>) -> (r: Result<
    Token,
    FossologyError,
>)
    ensures
        outcome(r) == received_response(reply),
{
    receive_response(reply)
}

} // verus!
