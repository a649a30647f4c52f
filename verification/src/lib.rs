//! Three-way extraction outcomes: present-and-valid, absent, or
//! present-but-malformed.
//!
//! Extraction frameworks usually conflate "the data source had nothing"
//! with "the data source had something invalid".  This crate adapts any
//! extractable type that can tell the two apart: a successful extraction
//! comes back as `Some(value)`, a failure that the type's own classifier
//! recognises as absence becomes `None`, and every other failure is
//! propagated verbatim, with the exact failure value the inner extractor
//! produced.

use vstd::prelude::*;

pub mod headers;
pub mod jwt;
pub mod path;
pub mod query;

verus! {

/// Validated `Option`: the payload of a successful adapted extraction.
///
/// `ValidOption(Some(v))` means the data source held a valid value;
/// `ValidOption(None)` means the data source held nothing at all.  A data
/// source that held something invalid never yields a `ValidOption`: the
/// inner extractor's failure is propagated instead.  Values come from the
/// extraction entry points and are meant to be pattern-matched directly.
pub struct ValidOption<T>(pub Option<T>);

/// The one classification algorithm, shared by both extraction phases.
///
/// A successful extraction passes through as `Some` of the extracted
/// value; a failure matching the type's absence pattern becomes `None`;
/// every other failure is propagated unchanged.
pub open spec fn classified<T, F>(
    result: Result<T, F>,
    absent: spec_fn(F) -> bool,
) -> Result<Option<T>, F> {
    match result {
        Ok(value) => Ok(Some(value)),
        Err(failure) => if absent(failure) {
            Ok(None)
        } else {
            Err(failure)
        },
    }
}

/// Capability contract for extractable types whose extraction reads only
/// request metadata (method, path, headers): the header phase.
///
/// An implementing type supplies its absence pattern — the rule telling
/// "the data source had nothing for this" apart from "the data source had
/// something invalid" — and a classifier that reinterprets an extraction
/// result accordingly.  The pattern looks only at the shape of the failure
/// value, never at the raw input.  Types without an implementation cannot
/// be used with [`ValidOption`]; that mismatch is caught by the type
/// system, not at run time.
pub trait FromRequestPartsOptional: Sized {
    /// Why extraction of this type can fail.  The adapter never introduces
    /// a failure kind of its own.
    type Rejection;

    /// The type's absence pattern: which failures mean the data source
    /// held nothing at all.  Every other failure means it held something
    /// invalid.
    spec fn is_absence(failure: Self::Rejection) -> bool;

    /// Reinterpret an extraction result three ways: `Ok(Some(value))` on
    /// success, `Ok(None)` when the failure matches the absence pattern,
    /// and the failure itself, unchanged, otherwise.
    fn option_reject(result: Result<Self, Self::Rejection>) -> (out: Result<
        Option<Self>,
        Self::Rejection,
    >)
        ensures
            out == classified(result, (|failure: Self::Rejection| Self::is_absence(failure))),
    ;
}

/// Capability contract for extractable types whose extraction may consume
/// the whole request, body included: the full-request phase.
///
/// The classification algorithm is the same as in the header phase; only
/// the extraction input differs.  Every header-phase extractable type is
/// also a full-request one, by the blanket implementation below.
pub trait FromRequestOptional: Sized {
    /// Why extraction of this type can fail.  The adapter never introduces
    /// a failure kind of its own.
    type Rejection;

    /// The type's absence pattern: which failures mean the data source
    /// held nothing at all.
    spec fn is_absence(failure: Self::Rejection) -> bool;

    /// Reinterpret an extraction result three ways: `Ok(Some(value))` on
    /// success, `Ok(None)` when the failure matches the absence pattern,
    /// and the failure itself, unchanged, otherwise.
    fn option_reject(result: Result<Self, Self::Rejection>) -> (out: Result<
        Option<Self>,
        Self::Rejection,
    >)
        ensures
            out == classified(result, (|failure: Self::Rejection| Self::is_absence(failure))),
    ;
}

/// Anything extractable from request metadata alone is also extractable
/// from the full request, with the same failures, the same absence
/// pattern, and the same classification.
impl<T: FromRequestPartsOptional> FromRequestOptional for T {
    type Rejection = <T as FromRequestPartsOptional>::Rejection;

    open spec fn is_absence(failure: Self::Rejection) -> bool {
        <T as FromRequestPartsOptional>::is_absence(failure)
    }

    fn option_reject(result: Result<Self, Self::Rejection>) -> (out: Result<
        Option<Self>,
        Self::Rejection,
    >) {
        <T as FromRequestPartsOptional>::option_reject(result)
    }
}

impl<T: FromRequestPartsOptional> ValidOption<T> {
    /// Header-phase entry point: classify the result the inner extractor
    /// produced from request metadata.
    ///
    /// Success passes through as `ValidOption(Some(value))` with the exact
    /// value the unwrapped extractor yielded; a failure matching `T`'s
    /// absence pattern becomes `ValidOption(None)` and is never an error;
    /// any other failure is propagated verbatim.
    pub fn from_request_parts(result: Result<T, T::Rejection>) -> (out: Result<
        ValidOption<T>,
        T::Rejection,
    >)
        ensures
            result matches Ok(value) ==> out == Ok::<ValidOption<T>, T::Rejection>(
                ValidOption(Some(value)),
            ),
            result matches Err(failure) ==> out == (if T::is_absence(failure) {
                Ok::<ValidOption<T>, T::Rejection>(ValidOption(None))
            } else {
                Err::<ValidOption<T>, T::Rejection>(failure)
            }),
    {
        match T::option_reject(result) {
            Ok(opt) => Ok(ValidOption(opt)),
            Err(failure) => Err(failure),
        }
    }
}

impl<T: FromRequestOptional> ValidOption<T> {
    /// Full-request entry point: classify the result the inner extractor
    /// produced from the complete request, body included.
    ///
    /// The classification is the same as in the header phase: success
    /// passes through as `ValidOption(Some(value))`, a failure matching
    /// `T`'s absence pattern becomes `ValidOption(None)`, and any other
    /// failure is propagated verbatim.
    pub fn from_request(result: Result<T, T::Rejection>) -> (out: Result<
        ValidOption<T>,
        T::Rejection,
    >)
        ensures
            result matches Ok(value) ==> out == Ok::<ValidOption<T>, T::Rejection>(
                ValidOption(Some(value)),
            ),
            result matches Err(failure) ==> out == (if T::is_absence(failure) {
                Ok::<ValidOption<T>, T::Rejection>(ValidOption(None))
            } else {
                Err::<ValidOption<T>, T::Rejection>(failure)
            }),
    {
        match T::option_reject(result) {
            Ok(opt) => Ok(ValidOption(opt)),
            Err(failure) => Err(failure),
        }
    }
}

/// Totality of classification: every failure value is classified as
/// exactly one of absence (the extraction yields `None` and no error) or
/// malformedness (the failure itself is propagated) — never both, never
/// neither, and never a success.
pub proof fn lemma_classification_total<T, F>(failure: F, absent: spec_fn(F) -> bool)
    ensures
        absent(failure) <==> classified::<T, F>(Err(failure), absent) == Ok::<Option<T>, F>(None),
        !absent(failure) <==> classified::<T, F>(Err(failure), absent) == Err::<Option<T>, F>(
            failure,
        ),
        classified::<T, F>(Err(failure), absent) == Ok::<Option<T>, F>(None) || classified::<T, F>(
            Err(failure),
            absent,
        ) == Err::<Option<T>, F>(failure),
        !(classified::<T, F>(Err(failure), absent) == Ok::<Option<T>, F>(None) && classified::<
            T,
            F,
        >(Err(failure), absent) == Err::<Option<T>, F>(failure)),
{
}

/// Transparency on success: a successful extraction is passed through as
/// `Some` of exactly the value the unwrapped extractor yielded.
pub proof fn lemma_success_transparent<T, F>(value: T, absent: spec_fn(F) -> bool)
    ensures
        classified::<T, F>(Ok(value), absent) == Ok::<Option<T>, F>(Some(value)),
{
}

/// Absence passthrough: a failure matching the absence pattern yields
/// `None` and no failure.
pub proof fn lemma_absence_passthrough<T, F>(failure: F, absent: spec_fn(F) -> bool)
    requires
        absent(failure),
    ensures
        classified::<T, F>(Err(failure), absent) == Ok::<Option<T>, F>(None),
{
}

/// Malformed passthrough: a failure outside the absence pattern is
/// propagated verbatim — the very failure value the inner extractor
/// produced, unwrapped and unmodified.
pub proof fn lemma_malformed_passthrough<T, F>(failure: F, absent: spec_fn(F) -> bool)
    requires
        !absent(failure),
    ensures
        classified::<T, F>(Err(failure), absent) == Err::<Option<T>, F>(failure),
{
}

/// Classification is a pure function of the failure value: classifying the
/// same failure twice yields the same result.
pub proof fn lemma_classification_idempotent<T, F>(first: F, second: F, absent: spec_fn(F) -> bool)
    requires
        first == second,
    ensures
        classified::<T, F>(Err(first), absent) == classified::<T, F>(Err(second), absent),
{
}

} // verus!
