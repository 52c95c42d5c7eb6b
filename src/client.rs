//! The two client tiers and the requests they plan.
//!
//! A client never performs I/O itself: each operation yields an
//! [`HttpRequest`] that an HTTP transport executes, and the response status
//! is then judged by [`check_status`].
use vstd::prelude::*;
use crate::error::{ClientError, HttpError, Result};
use crate::model::{paste_body_json, CreatePasteRequest, Metadata};
use crate::urls::{info_path, join_url, parse_url, paste_path, paste_path_of, pastes_path, joined_url, parsed_url};

verus! {

/// HTTP method of a planned request.
#[derive(Clone, Copy, Debug, PartialEq, Eq, Structural)]
pub enum Method {
    Get,
    Post,
    Patch,
    Delete,
}

/// A request ready to be executed by an HTTP transport.
///
/// A present `body` is JSON text; a present `bearer_token` is sent as the
/// header `Authorization: Bearer <token>`.
#[derive(Debug)]
pub struct HttpRequest {
    pub method: Method,
    pub url: String,
    pub bearer_token: Option<String>,
    pub body: Option<String>,
}

/// What a planned request is, as text.
pub struct RequestView {
    pub method: Method,
    pub url: Seq<char>,
    pub bearer_token: Option<Seq<char>>,
    pub body: Option<Seq<char>>,
}

impl View for HttpRequest {
    type V = RequestView;

    open spec fn view(&self) -> RequestView {
        RequestView {
            method: self.method,
            url: self.url@,
            bearer_token: match self.bearer_token {
                Some(t) => Some(t@),
                None => None,
            },
            body: match self.body {
                Some(b) => Some(b@),
                None => None,
            },
        }
    }
}

/// A request with `method` to the endpoint `path` resolved against `host`,
/// if the resolution succeeds.
pub open spec fn plan(
    host: Seq<char>,
    method: Method,
    path: Seq<char>,
    bearer_token: Option<Seq<char>>,
    body: Option<Seq<char>>,
) -> Option<RequestView> {
    match joined_url(host, path) {
        Some(url) => Some(RequestView { method, url, bearer_token, body }),
        None => None,
    }
}

/// `GET {host}/api/v2/info`, anonymous.
pub open spec fn info_request(host: Seq<char>) -> Option<RequestView> {
    plan(host, Method::Get, info_path(), None, None)
}

/// `GET {host}/api/v2/pastes/{id}`, anonymous, without a body.
pub open spec fn paste_request(host: Seq<char>, id: Seq<char>) -> Option<RequestView> {
    plan(host, Method::Get, paste_path(id), None, None)
}

/// `POST {host}/api/v2/pastes`, anonymous, with the paste body.
pub open spec fn create_request(
    host: Seq<char>,
    content: Seq<char>,
    metadata: Option<Metadata>,
) -> Option<RequestView> {
    plan(host, Method::Post, pastes_path(), None, Some(paste_body_json(content, metadata)))
}

/// `PATCH {host}/api/v2/pastes/{id}`, with the bearer token and the paste
/// body.
pub open spec fn update_request(
    host: Seq<char>,
    token: Seq<char>,
    id: Seq<char>,
    content: Seq<char>,
    metadata: Option<Metadata>,
) -> Option<RequestView> {
    plan(
        host,
        Method::Patch,
        paste_path(id),
        Some(token),
        Some(paste_body_json(content, metadata)),
    )
}

/// `DELETE {host}/api/v2/pastes/{id}`, with the bearer token, without a body.
pub open spec fn delete_request(host: Seq<char>, token: Seq<char>, id: Seq<char>) -> Option<
    RequestView,
> {
    plan(host, Method::Delete, paste_path(id), Some(token), None)
}

/// `r` is the planned request `p`, or, where the endpoint URL could not be
/// resolved, a URL-parse error.
pub open spec fn planned(r: Result<HttpRequest>, p: Option<RequestView>) -> bool {
    match r {
        Ok(req) => p == Some(req@),
        Err(e) => p is None && e is UrlParse,
    }
}

/// Whether an HTTP status counts as success.
pub open spec fn is_success(status: u16) -> bool {
    200 <= status < 300
}

/// Judges the status of an executed request: success for a 2xx status, and
/// otherwise a transport/HTTP error carrying the status. The response body
/// plays no part.
pub fn check_status(status: u16) -> (r: Result<()>)
    ensures
        r is Ok <==> is_success(status),
        !is_success(status) ==> r == Err::<(), ClientError>(
            ClientError::Reqwest(HttpError::Status(status)),
        ),
{
    if 200 <= status && status < 300 {
        Ok(())
    } else {
        Err(ClientError::Reqwest(HttpError::Status(status)))
    }
}

/// Resolves `path` against `host` into a request.
fn build(
    host: &str,
    method: Method,
    path: &str,
    bearer_token: Option<String>,
    body: Option<String>,
) -> (r: Result<HttpRequest>)
    ensures
        planned(
            r,
            plan(
                host@,
                method,
                path@,
                match bearer_token {
                    Some(t) => Some(t@),
                    None => None,
                },
                match body {
                    Some(b) => Some(b@),
                    None => None,
                },
            ),
        ),
{
    match join_url(host, path) {
        Ok(url) => Ok(HttpRequest { method, url, bearer_token, body }),
        Err(e) => Err(ClientError::UrlParse(e)),
    }
}

/// Client for the anonymous operations of the service.
#[derive(Clone, Debug)]
pub struct UnauthenticatedClient {
    host: String,
}

impl View for UnauthenticatedClient {
    /// The serialization of the host URL.
    type V = Seq<char>;

    closed spec fn view(&self) -> Seq<char> {
        self.host@
    }
}

impl UnauthenticatedClient {
    /// Creates a client for the service at `host`. Fails with a URL-parse
    /// error exactly when `host` is not a valid URL; no I/O happens.
    pub fn new(host: &str) -> (r: Result<Self>)
        ensures
            match r {
                Ok(c) => parsed_url(host@) == Some(c@),
                Err(e) => parsed_url(host@) is None && e is UrlParse,
            },
            (forall|i: int| 0 <= i < host@.len() ==> host@[i] != ':') ==> r is Err,
    {
        match parse_url(host) {
            Ok(u) => Ok(UnauthenticatedClient { host: u }),
            Err(e) => Err(ClientError::UrlParse(e)),
        }
    }

    /// The host URL, as its serialization.
    pub fn host(&self) -> (r: &str)
        ensures
            r@ == self@,
    {
        self.host.as_str()
    }

    /// Plans the request for the server's self-description.
    pub fn application_information_request(&self) -> (r: Result<HttpRequest>)
        ensures
            planned(r, info_request(self@)),
    {
        build(self.host.as_str(), Method::Get, "/api/v2/info", None, None)
    }

    /// Plans the request that reads the paste `id`.
    pub fn paste_request(&self, id: &str) -> (r: Result<HttpRequest>)
        ensures
            planned(r, paste_request(self@, id@)),
    {
        let path = paste_path_of(id);
        build(self.host.as_str(), Method::Get, path.as_str(), None, None)
    }

    /// Plans the request that creates a paste.
    pub fn create_paste_request(&self, content: String, metadata: Option<Metadata>) -> (r: Result<
        HttpRequest,
    >)
        ensures
            planned(r, create_request(self@, content@, metadata)),
    {
        let body = CreatePasteRequest { content, metadata };
        let json = body.to_json();
        build(self.host.as_str(), Method::Post, "/api/v2/pastes", None, Some(json))
    }

    /// Upgrades this client with a modification or admin token. The token is
    /// not checked here; the server judges it on each authenticated call.
    pub fn authenticate(self, token: String) -> (r: AuthenticatedClient)
        ensures
            r@ == (self@, token@),
    {
        AuthenticatedClient { client: self, token }
    }
}

/// Client for the operations that need a bearer token.
#[derive(Clone, Debug)]
pub struct AuthenticatedClient {
    client: UnauthenticatedClient,
    token: String,
}

impl View for AuthenticatedClient {
    /// The host URL and the token.
    type V = (Seq<char>, Seq<char>);

    closed spec fn view(&self) -> (Seq<char>, Seq<char>) {
        (self.client@, self.token@)
    }
}

impl AuthenticatedClient {
    /// The wrapped anonymous client.
    pub fn inner(&self) -> (r: &UnauthenticatedClient)
        ensures
            r@ == self@.0,
    {
        &self.client
    }

    /// The token attached to every call of this client.
    pub fn token(&self) -> (r: &str)
        ensures
            r@ == self@.1,
    {
        self.token.as_str()
    }

    /// Plans the request that replaces the content and metadata of paste `id`.
    pub fn update_paste_request(&self, id: &str, content: String, metadata: Option<Metadata>) -> (r:
        Result<HttpRequest>)
        ensures
            planned(r, update_request(self@.0, self@.1, id@, content@, metadata)),
    {
        let body = CreatePasteRequest { content, metadata };
        let json = body.to_json();
        let path = paste_path_of(id);
        build(
            self.client.host.as_str(),
            Method::Patch,
            path.as_str(),
            Some(self.token.clone()),
            Some(json),
        )
    }

    /// Plans the request that deletes paste `id`.
    pub fn delete_paste_request(&self, id: &str) -> (r: Result<HttpRequest>)
        ensures
            planned(r, delete_request(self@.0, self@.1, id@)),
    {
        let path = paste_path_of(id);
        build(
            self.client.host.as_str(),
            Method::Delete,
            path.as_str(),
            Some(self.token.clone()),
            None,
        )
    }
}

/// An authenticated update of a paste is the anonymous read of the same
/// paste with three changes only: the method is `PATCH`, the bearer token is
/// attached, and the body is the one a creation with the same content and
/// metadata sends, which itself carries no token.
pub proof fn lemma_update_is_authorized_patch(
    host: Seq<char>,
    token: Seq<char>,
    id: Seq<char>,
    content: Seq<char>,
    metadata: Option<Metadata>,
)
    ensures
        update_request(host, token, id, content, metadata) == match paste_request(host, id) {
            Some(g) => Some(
                RequestView {
                    method: Method::Patch,
                    url: g.url,
                    bearer_token: Some(token),
                    body: Some(paste_body_json(content, metadata)),
                },
            ),
            None => None,
        },
        create_request(host, content, metadata) matches Some(c) ==> c.bearer_token is None
            && c.body == Some(paste_body_json(content, metadata)),
{
}

/// An authenticated deletion of a paste is the anonymous read of the same
/// paste with the method `DELETE` and the bearer token attached; neither
/// carries a body.
pub proof fn lemma_delete_is_authorized_read(host: Seq<char>, token: Seq<char>, id: Seq<char>)
    ensures
        delete_request(host, token, id) == match paste_request(host, id) {
            Some(g) => Some(
                RequestView {
                    method: Method::Delete,
                    url: g.url,
                    bearer_token: Some(token),
                    body: None,
                },
            ),
            None => None,
        },
{
}

} // verus!
