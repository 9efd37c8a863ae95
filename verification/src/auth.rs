//! The credential resolver: from a service-account key file to a bearer
//! token.
//!
//! The resolver itself performs no I/O. Its driver reads the key file, asks
//! the identity service for a token under [`scopes`], and hands each outcome
//! to the function that classifies it.

use vstd::prelude::*;

verus! {

/// Why the resolver gave no token.
#[derive(Debug)]
pub enum AuthError {
    /// The key file is missing, unreadable or malformed. The identity service
    /// was not asked.
    InvalidCredentials(gcp_auth::Error),
    /// The identity service could not be reached, or refused the request.
    TokenExchangeFailed(gcp_auth::Error),
}

/// The scopes that a token for the database is asked under.
pub open spec fn scope_set() -> Seq<Seq<char>> {
    seq![
        "https://www.googleapis.com/auth/userinfo.email"@,
        "https://www.googleapis.com/auth/firebase.database"@,
    ]
}

/// The scopes that a token for the database is asked under.
pub fn scopes() -> (scopes: [&'static str; 2])
    ensures
        scopes@.len() == 2,
        scopes@[0]@ == scope_set()[0],
        scopes@[1]@ == scope_set()[1],
{
    [
        "https://www.googleapis.com/auth/userinfo.email",
        "https://www.googleapis.com/auth/firebase.database",
    ]
}

/// Classifies what reading the key file gave: the credentials, or
/// `InvalidCredentials` with the reader's error.
pub fn load_credentials<A>(loaded: Result<A, gcp_auth::Error>) -> (out: Result<A, AuthError>)
    ensures
        match loaded {
            Ok(credentials) => out == Ok::<A, AuthError>(credentials),
            Err(e) => out == Err::<A, AuthError>(AuthError::InvalidCredentials(e)),
        },
{
    match loaded {
        Ok(credentials) => Ok(credentials),
        Err(e) => Err(AuthError::InvalidCredentials(e)),
    }
}

/// Classifies what the identity service answered: the token, or
/// `TokenExchangeFailed` with the service's error.
pub fn get_token(exchanged: Result<String, gcp_auth::Error>) -> (out: Result<String, AuthError>)
    ensures
        match exchanged {
            Ok(token) => out == Ok::<String, AuthError>(token),
            Err(e) => out == Err::<String, AuthError>(AuthError::TokenExchangeFailed(e)),
        },
{
    match exchanged {
        Ok(token) => Ok(token),
        Err(e) => Err(AuthError::TokenExchangeFailed(e)),
    }
}

} // verus!
