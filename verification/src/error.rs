//! Why a call on the database failed.

use vstd::prelude::*;
use vstd::string::to_string_from_display_ensures;

verus! {

/// Why a call gave no response.
#[derive(Debug)]
pub enum FirebaseError {
    /// No token could be obtained; nothing was sent to the database.
    GcpAuthError(gcp_auth::Error),
    /// A request was handed to the transport, and the transport failed.
    ReqwestError(reqwest::Error),
}

impl FirebaseError {
    /// The message of the underlying error, as its `Display` words it.
    pub fn to_string(&self) -> (text: String)
        ensures
            match *self {
                FirebaseError::GcpAuthError(e) => to_string_from_display_ensures(&e, text),
                FirebaseError::ReqwestError(e) => to_string_from_display_ensures(&e, text),
            },
    {
        match self {
            FirebaseError::GcpAuthError(e) => e.to_string(),
            FirebaseError::ReqwestError(e) => e.to_string(),
        }
    }
}

} // verus!
