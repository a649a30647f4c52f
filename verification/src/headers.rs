//! Typed request headers as an optionally extractable data source.

use vstd::prelude::*;

use crate::FromRequestPartsOptional;

verus! {

/// A single request header, already decoded into its typed form.  Stands
/// for the framework's typed-header extractor.
pub struct TypedHeader<T>(pub T);

/// What went wrong with the header named in the enclosing rejection.
#[derive(Debug, Clone, PartialEq, Eq)]
pub enum TypedHeaderRejectionReason {
    /// The header was missing from the request.
    Missing,
    /// The header was present but failed its type-specific parse; carries
    /// the parse diagnostic.
    Error(String),
}

/// Why typed-header extraction fails.
#[derive(Debug, Clone, PartialEq, Eq)]
pub struct TypedHeaderRejection {
    /// The name of the header the extractor looked for.
    pub name: String,
    /// What went wrong with it.
    pub reason: TypedHeaderRejectionReason,
}

impl<T> FromRequestPartsOptional for TypedHeader<T> {
    type Rejection = TypedHeaderRejection;

    /// Absence for a typed header: the header key was absent from the
    /// request.  A present header that fails its parse is malformed.
    open spec fn is_absence(failure: TypedHeaderRejection) -> bool {
        failure.reason is Missing
    }

    fn option_reject(result: Result<Self, TypedHeaderRejection>) -> (out: Result<
        Option<Self>,
        TypedHeaderRejection,
    >) {
        match result {
            Ok(header) => Ok(Some(header)),
            Err(failure) => match failure.reason {
                TypedHeaderRejectionReason::Missing => Ok(None),
                TypedHeaderRejectionReason::Error(_) => Err(failure),
            },
        }
    }
}

} // verus!
