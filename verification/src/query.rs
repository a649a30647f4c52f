//! The query string as an optionally extractable data source.

use vstd::prelude::*;

use crate::FromRequestPartsOptional;

verus! {

/// A value deserialised from the request's query string.  Stands for the
/// framework's query extractor.
pub struct Query<T>(pub T);

/// Why query extraction fails.
#[derive(Debug, Clone, PartialEq, Eq)]
pub enum QueryRejection {
    /// The request had no query string at all.
    MissingQueryString,
    /// A query string was present but could not be deserialised into the
    /// target type; carries the deserialisation diagnostic.
    FailedToDeserializeQueryString(String),
}

impl<T> FromRequestPartsOptional for Query<T> {
    type Rejection = QueryRejection;

    /// Absence for a query value: the query string itself was missing
    /// entirely.  A query string that is present but fails to deserialise
    /// — including one where a required key is missing — is malformed, not
    /// absent.
    open spec fn is_absence(failure: QueryRejection) -> bool {
        failure is MissingQueryString
    }

    fn option_reject(result: Result<Self, QueryRejection>) -> (out: Result<
        Option<Self>,
        QueryRejection,
    >) {
        match result {
            Ok(query) => Ok(Some(query)),
            Err(QueryRejection::MissingQueryString) => Ok(None),
            Err(failure) => Err(failure),
        }
    }
}

} // verus!
