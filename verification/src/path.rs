//! Positional path segments as an optionally extractable data source.

use vstd::prelude::*;

use crate::FromRequestPartsOptional;

verus! {

/// A value deserialised from the matched route's path segments by the
/// routing layer.  Stands for the framework's path extractor.
pub struct Path<T>(pub T);

/// Why path extraction fails.
#[derive(Debug, Clone, PartialEq, Eq)]
pub enum PathRejection {
    /// The matched route had no segment of the requested name at all.
    MissingPathParams,
    /// A segment was present but could not be deserialised into the target
    /// type; carries the deserialisation diagnostic.
    FailedToDeserializePathParams(String),
}

impl<T> FromRequestPartsOptional for Path<T> {
    type Rejection = PathRejection;

    /// Absence for a path value: the route had no such segment at all.  A
    /// present segment that fails to parse is malformed.
    open spec fn is_absence(failure: PathRejection) -> bool {
        failure is MissingPathParams
    }

    fn option_reject(result: Result<Self, PathRejection>) -> (out: Result<
        Option<Self>,
        PathRejection,
    >) {
        match result {
            Ok(path) => Ok(Some(path)),
            Err(PathRejection::MissingPathParams) => Ok(None),
            Err(failure) => Err(failure),
        }
    }
}

} // verus!
