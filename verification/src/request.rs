//! What the client asks the transport to send.

use vstd::prelude::*;
use reqwest::header::HeaderMap;
use crate::trusted::header_entries;

verus! {

/// The HTTP method of a request.
#[derive(Clone, Copy, Debug, PartialEq, Eq, Structural)]
pub enum Method {
    /// Reads the value at a location.
    Get,
    /// Replaces the value at a location.
    Put,
    /// Creates a child under a location, with a key that the store picks.
    Post,
    /// Merges fields into the value at a location.
    Patch,
    /// Removes the value at a location.
    Delete,
}

/// One HTTP request, ready to be handed to the transport.
///
/// `B` is the type of the payload. The client never looks into a payload: the
/// transport encodes it as JSON when it sends the request.
#[derive(Debug)]
pub struct Request<B> {
    pub method: Method,
    /// The address, with the token as its query parameter.
    pub url: String,
    /// The headers to send beside those that the transport adds itself.
    pub headers: HeaderMap,
    /// The value to send as the JSON body, if the request carries one.
    pub body: Option<B>,
}

/// A request as a mathematical value.
pub struct RequestView<B> {
    pub method: Method,
    pub url: Seq<char>,
    pub headers: Map<Seq<char>, Seq<char>>,
    pub body: Option<B>,
}

impl<B> View for Request<B> {
    type V = RequestView<B>;

    open spec fn view(&self) -> RequestView<B> {
        RequestView {
            method: self.method,
            url: self.url@,
            headers: header_entries(self.headers),
            body: self.body,
        }
    }
}

} // verus!
