//! Verified token claims as an optionally extractable data source.

use vstd::prelude::*;

use crate::FromRequestPartsOptional;

verus! {

/// Claims carried by a verified authentication token, already checked and
/// deserialised by the token layer.  Stands for a token-verification
/// extractor.
pub struct JwtClaims<T>(pub T);

/// Why token extraction fails.
#[derive(Debug, Clone, PartialEq, Eq)]
pub enum AuthError {
    /// No token was supplied at all.
    MissingToken,
    /// A token was supplied but failed verification — bad signature,
    /// expired, corrupt; carries the verifier's diagnostic.
    InvalidToken(String),
    /// A token verified but its claims could not be deserialised into the
    /// target type; carries the deserialisation diagnostic.
    InvalidClaims(String),
}

impl<T> FromRequestPartsOptional for JwtClaims<T> {
    type Rejection = AuthError;

    /// Absence for token claims: no token was supplied at all.  A supplied
    /// token that fails verification or claim deserialisation is
    /// malformed.
    open spec fn is_absence(failure: AuthError) -> bool {
        failure is MissingToken
    }

    fn option_reject(result: Result<Self, AuthError>) -> (out: Result<Option<Self>, AuthError>) {
        match result {
            Ok(claims) => Ok(Some(claims)),
            Err(AuthError::MissingToken) => Ok(None),
            Err(failure) => Err(failure),
        }
    }
}

} // verus!
