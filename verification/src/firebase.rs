//! The client that holds one token for its whole life.
//!
//! No resolver is asked: every request carries the token that the client was
//! made with. The client performs no I/O. Its driver sends the request that a
//! verb returns and hands the transport's outcome to
//! [`Database::parse_result`].

use vstd::prelude::*;
use vstd::string::to_string_from_display_ensures;
use reqwest::Response;
use crate::request::{Method, Request, RequestView};
use crate::trusted::{empty_headers, no_headers};
use crate::url::{build_url, database_url};

verus! {

/// Why a call gave no response, as the transport worded it.
#[derive(Debug)]
pub struct FirebaseError {
    pub message: String,
}

impl FirebaseError {
    /// The error with the given message.
    pub fn from_string(message: String) -> (error: FirebaseError)
        ensures
            error.message == message,
    {
        FirebaseError { message }
    }
}

/// A client for the database of one project, with the token that it presents.
pub struct Database {
    project_id: String,
    access_token: String,
}

/// A client as a mathematical value.
pub struct DatabaseView {
    pub project_id: Seq<char>,
    pub access_token: Seq<char>,
}

impl DatabaseView {
    /// The request that `method` on `path` makes. It carries no headers.
    pub open spec fn request<B>(
        self,
        method: Method,
        path: Seq<char>,
        body: Option<B>,
    ) -> RequestView<B> {
        RequestView {
            method,
            url: database_url(self.project_id, path, self.access_token),
            headers: no_headers(),
            body,
        }
    }
}

impl View for Database {
    type V = DatabaseView;

    closed spec fn view(&self) -> DatabaseView {
        DatabaseView { project_id: self.project_id@, access_token: self.access_token@ }
    }
}

impl Database {
    /// A client for the database of `project_id` that presents
    /// `access_token`.
    pub fn new(project_id: String, access_token: String) -> (database: Database)
        ensures
            database@ == (DatabaseView { project_id: project_id@, access_token: access_token@ }),
    {
        Database { project_id, access_token }
    }

    /// The address of `path` under the client's token.
    pub fn get_url(&self, path: &str) -> (url: String)
        ensures
            url@ == database_url(self@.project_id, path@, self@.access_token),
    {
        build_url(self.project_id.as_str(), path, self.access_token.as_str())
    }

    /// What the transport reported, as the outcome of the call: every
    /// response is a success, whatever its status, and every failure of the
    /// transport is an error that carries the transport's message.
    pub fn parse_result(
        &self,
        result: Result<Response, reqwest::Error>,
    ) -> (out: Result<Response, FirebaseError>)
        ensures
            match result {
                Ok(response) => out == Ok::<Response, FirebaseError>(response),
                Err(e) => out matches Err(error) && to_string_from_display_ensures(
                    &e,
                    error.message,
                ),
            },
    {
        match result {
            Ok(response) => Ok(response),
            Err(e) => Err(FirebaseError::from_string(e.to_string())),
        }
    }

    /// Reads the value at `path`.
    pub fn get(&self, path: &str) -> (request: Request<()>)
        ensures
            request@ == self@.request(Method::Get, path@, None::<()>),
    {
        Request {
            method: Method::Get,
            url: self.get_url(path),
            headers: empty_headers(),
            body: None,
        }
    }

    /// Removes the value at `path`.
    pub fn delete(&self, path: &str) -> (request: Request<()>)
        ensures
            request@ == self@.request(Method::Delete, path@, None::<()>),
    {
        Request {
            method: Method::Delete,
            url: self.get_url(path),
            headers: empty_headers(),
            body: None,
        }
    }

    /// Replaces the value at `path` with `body`.
    pub fn put<B>(&self, path: &str, body: B) -> (request: Request<B>)
        ensures
            request@ == self@.request(Method::Put, path@, Some(body)),
    {
        Request {
            method: Method::Put,
            url: self.get_url(path),
            headers: empty_headers(),
            body: Some(body),
        }
    }

    /// Merges the top-level fields of `body` into the value at `path`.
    pub fn update<B>(&self, path: &str, body: B) -> (request: Request<B>)
        ensures
            request@ == self@.request(Method::Patch, path@, Some(body)),
    {
        Request {
            method: Method::Patch,
            url: self.get_url(path),
            headers: empty_headers(),
            body: Some(body),
        }
    }
}

/// A client for the database of `project_id` that presents `token` as it is,
/// on every call.
pub fn init_database(project_id: String, token: &str) -> (database: Database)
    ensures
        database@ == (DatabaseView { project_id: project_id@, access_token: token@ }),
{
    let database = Database::new(project_id, token.to_owned());
    database
}

} // verus!
