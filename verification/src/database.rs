//! The client that asks a credential resolver for a token before every call.
//!
//! The client itself performs no I/O. Its driver fetches a token, hands the
//! outcome to one of the five verbs, sends the request that comes back, and
//! hands the transport's outcome to [`Database::parse_result`].

use vstd::prelude::*;
use reqwest::header::HeaderMap;
use reqwest::Response;
use crate::error::FirebaseError;
use crate::request::{Method, Request, RequestView};
use crate::trusted::{empty_headers, header_entries, insert_connection, no_headers};
use crate::url::{build_url, database_url, location};

verus! {

/// A client for the database of one project.
pub struct Database {
    project_id: String,
    connection_close: bool,
}

/// A client as a mathematical value.
pub struct DatabaseView {
    pub project_id: Seq<char>,
    /// Whether requests carry `Connection: close`.
    pub connection_close: bool,
}

/// The headers of a request: `Connection: close` where `close` is set,
/// nothing otherwise.
pub open spec fn connection_headers(close: bool) -> Map<Seq<char>, Seq<char>> {
    if close {
        no_headers().insert("connection"@, "close"@)
    } else {
        no_headers()
    }
}

impl DatabaseView {
    /// The request that `method` on `path` makes under `token`.
    pub open spec fn request<B>(
        self,
        method: Method,
        path: Seq<char>,
        body: Option<B>,
        token: Seq<char>,
    ) -> RequestView<B> {
        RequestView {
            method,
            url: database_url(self.project_id, path, token),
            headers: connection_headers(self.connection_close),
            body,
        }
    }

    /// What a verb answers to the resolver's outcome: the request under the
    /// token, or the resolver's error and no request.
    pub open spec fn plan<B>(
        self,
        method: Method,
        path: Seq<char>,
        body: Option<B>,
        token: Result<String, gcp_auth::Error>,
    ) -> Result<RequestView<B>, FirebaseError> {
        match token {
            Ok(t) => Ok(self.request(method, path, body, t@)),
            Err(e) => Err(FirebaseError::GcpAuthError(e)),
        }
    }
}

/// The answer of a verb as a mathematical value.
pub open spec fn planned<B>(
    out: Result<Request<B>, FirebaseError>,
) -> Result<RequestView<B>, FirebaseError> {
    match out {
        Ok(request) => Ok(request@),
        Err(e) => Err(e),
    }
}

/// What the transport reported, as the outcome of the call.
pub open spec fn outcome(
    result: Result<Response, reqwest::Error>,
) -> Result<Response, FirebaseError> {
    match result {
        Ok(response) => Ok(response),
        Err(e) => Err(FirebaseError::ReqwestError(e)),
    }
}

impl View for Database {
    type V = DatabaseView;

    closed spec fn view(&self) -> DatabaseView {
        DatabaseView { project_id: self.project_id@, connection_close: self.connection_close }
    }
}

impl Database {
    /// A client as it is made: for the database of `project_id`, sending no
    /// `Connection: close`.
    pub open spec fn fresh(project_id: Seq<char>) -> DatabaseView {
        DatabaseView { project_id, connection_close: false }
    }

    /// A client for the database of `project_id`, which sends no
    /// `Connection: close`.
    pub fn new(project_id: &str) -> (database: Database)
        ensures
            database@ == Database::fresh(project_id@),
    {
        Database { project_id: project_id.to_owned(), connection_close: false }
    }

    /// The client for `project_id` whose credentials come from a key file,
    /// given what reading that file gave: the client beside the credentials,
    /// or the reader's error and no client.
    pub fn from_path<A>(
        project_id: &str,
        loaded: Result<A, gcp_auth::Error>,
    ) -> (out: Result<(Database, A), gcp_auth::Error>)
        ensures
            match loaded {
                Ok(credentials) => out matches Ok(made) && made.0@ == Database::fresh(project_id@)
                    && made.1 == credentials,
                Err(e) => out == Err::<(Database, A), gcp_auth::Error>(e),
            },
    {
        match loaded {
            Ok(credentials) => Ok((Database::new(project_id), credentials)),
            Err(e) => Err(e),
        }
    }

    /// This client, sending `Connection: close` with every request if `close`
    /// is set, and not sending it otherwise.
    pub fn with_connection_close(self, close: bool) -> (database: Database)
        ensures
            database@ == (DatabaseView { project_id: self@.project_id, connection_close: close }),
    {
        Database { project_id: self.project_id, connection_close: close }
    }

    /// The project whose database this client addresses.
    pub fn project_id(&self) -> (project_id: &str)
        ensures
            project_id@ == self@.project_id,
    {
        self.project_id.as_str()
    }

    /// Whether requests carry `Connection: close`.
    pub fn connection_close(&self) -> (close: bool)
        ensures
            close == self@.connection_close,
    {
        self.connection_close
    }

    /// Classifies the resolver's outcome: its token, or its error as the
    /// error of the call.
    pub fn get_token(
        &self,
        token: Result<String, gcp_auth::Error>,
    ) -> (out: Result<String, FirebaseError>)
        ensures
            match token {
                Ok(t) => out == Ok::<String, FirebaseError>(t),
                Err(e) => out == Err::<String, FirebaseError>(FirebaseError::GcpAuthError(e)),
            },
    {
        match token {
            Ok(t) => Ok(t),
            Err(e) => Err(FirebaseError::GcpAuthError(e)),
        }
    }

    /// The address of `path` under the resolver's token, or the resolver's
    /// error.
    pub fn get_url(
        &self,
        path: &str,
        token: Result<String, gcp_auth::Error>,
    ) -> (out: Result<String, FirebaseError>)
        ensures
            match token {
                Ok(t) => out matches Ok(url) && url@ == database_url(self@.project_id, path@, t@),
                Err(e) => out == Err::<String, FirebaseError>(FirebaseError::GcpAuthError(e)),
            },
    {
        match self.get_token(token) {
            Ok(tok) => Ok(build_url(self.project_id.as_str(), path, tok.as_str())),
            Err(e) => Err(e),
        }
    }

    /// What the transport reported, as the outcome of the call: every
    /// response is a success, whatever its status, and every failure of the
    /// transport is an error.
    pub fn parse_result(
        &self,
        result: Result<Response, reqwest::Error>,
    ) -> (out: Result<Response, FirebaseError>)
        ensures
            out == outcome(result),
    {
        match result {
            Ok(response) => Ok(response),
            Err(e) => Err(FirebaseError::ReqwestError(e)),
        }
    }

    /// The headers that every request of this client carries.
    pub fn get_header_map(&self) -> (headers: HeaderMap)
        ensures
            header_entries(headers) == connection_headers(self@.connection_close),
    {
        let mut header_map = empty_headers();
        if self.connection_close {
            proof {
                reveal_strlit("close");
            }
            insert_connection(&mut header_map, "close");
        }
        header_map
    }

    /// Reads the value at `path`.
    pub fn get(
        &self,
        path: &str,
        token: Result<String, gcp_auth::Error>,
    ) -> (out: Result<Request<()>, FirebaseError>)
        ensures
            planned(out) == self@.plan(Method::Get, path@, None::<()>, token),
    {
        match self.get_url(path, token) {
            Ok(url) => Ok(
                Request {
                    method: Method::Get,
                    url,
                    headers: self.get_header_map(),
                    body: None,
                },
            ),
            Err(e) => Err(e),
        }
    }

    /// Removes the value at `path`.
    pub fn delete(
        &self,
        path: &str,
        token: Result<String, gcp_auth::Error>,
    ) -> (out: Result<Request<()>, FirebaseError>)
        ensures
            planned(out) == self@.plan(Method::Delete, path@, None::<()>, token),
    {
        match self.get_url(path, token) {
            Ok(url) => Ok(
                Request {
                    method: Method::Delete,
                    url,
                    headers: self.get_header_map(),
                    body: None,
                },
            ),
            Err(e) => Err(e),
        }
    }

    /// Replaces the value at `path` with `body`.
    pub fn put<B>(
        &self,
        path: &str,
        body: B,
        token: Result<String, gcp_auth::Error>,
    ) -> (out: Result<Request<B>, FirebaseError>)
        ensures
            planned(out) == self@.plan(Method::Put, path@, Some(body), token),
    {
        match self.get_url(path, token) {
            Ok(url) => Ok(
                Request {
                    method: Method::Put,
                    url,
                    headers: self.get_header_map(),
                    body: Some(body),
                },
            ),
            Err(e) => Err(e),
        }
    }

    /// Creates a child under `path` that holds `body`. The store picks the
    /// child's key and names it in its response.
    pub fn post<B>(
        &self,
        path: &str,
        body: B,
        token: Result<String, gcp_auth::Error>,
    ) -> (out: Result<Request<B>, FirebaseError>)
        ensures
            planned(out) == self@.plan(Method::Post, path@, Some(body), token),
    {
        match self.get_url(path, token) {
            Ok(url) => Ok(
                Request {
                    method: Method::Post,
                    url,
                    headers: self.get_header_map(),
                    body: Some(body),
                },
            ),
            Err(e) => Err(e),
        }
    }

    /// Merges the top-level fields of `body` into the value at `path`.
    pub fn update<B>(
        &self,
        path: &str,
        body: B,
        token: Result<String, gcp_auth::Error>,
    ) -> (out: Result<Request<B>, FirebaseError>)
        ensures
            planned(out) == self@.plan(Method::Patch, path@, Some(body), token),
    {
        match self.get_url(path, token) {
            Ok(url) => Ok(
                Request {
                    method: Method::Patch,
                    url,
                    headers: self.get_header_map(),
                    body: Some(body),
                },
            ),
            Err(e) => Err(e),
        }
    }
}

/// Where the resolver gave no token, every verb fails with the resolver's
/// error and plans no request, whatever the path and the body.
pub proof fn lemma_no_token_no_request<B>(
    database: DatabaseView,
    method: Method,
    path: Seq<char>,
    body: Option<B>,
    e: gcp_auth::Error,
)
    ensures
        database.plan(method, path, body, Err(e)) == Err::<RequestView<B>, FirebaseError>(
            FirebaseError::GcpAuthError(e),
        ),
{
}

/// A failure of the transport is the error of the call, and it can only come
/// after the resolver gave a token: without one no request is planned.
pub proof fn lemma_transport_failure_follows_token<B>(
    database: DatabaseView,
    method: Method,
    path: Seq<char>,
    body: Option<B>,
    token: Result<String, gcp_auth::Error>,
    e: reqwest::Error,
)
    ensures
        outcome(Err(e)) == Err::<Response, FirebaseError>(FirebaseError::ReqwestError(e)),
        database.plan(method, path, body, token) is Ok <==> token is Ok,
{
}

/// Every response is the success of the call, whatever it holds.
pub proof fn lemma_response_is_success(response: Response)
    ensures
        outcome(Ok(response)) == Ok::<Response, FirebaseError>(response),
{
}

/// Every request on `path` goes to the location of `path`: its address is
/// that location followed by the token, whatever the method and the body, and
/// it carries the body as it was given. So a write and a later read of one
/// path meet at one location, under one token or under two.
pub proof fn lemma_requests_meet_at_location<B>(
    database: DatabaseView,
    method: Method,
    path: Seq<char>,
    body: Option<B>,
    token: Seq<char>,
)
    ensures
        database.request(method, path, body, token).url == location(database.project_id, path)
            + "?access_token="@ + token,
        location(database.project_id, path).is_prefix_of(
            database.request(method, path, body, token).url,
        ),
        database.request(method, path, body, token).body == body,
{
}

} // verus!
