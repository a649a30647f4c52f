//! End-to-end scenarios for each supported data source.

use axum_option::headers::{TypedHeader, TypedHeaderRejection, TypedHeaderRejectionReason};
use axum_option::jwt::{AuthError, JwtClaims};
use axum_option::path::{Path, PathRejection};
use axum_option::query::{Query, QueryRejection};
use axum_option::ValidOption;

#[test]
fn path_segment_missing_is_none() {
    let out = ValidOption::<Path<u32>>::from_request_parts(Err(PathRejection::MissingPathParams));
    match out {
        Ok(ValidOption(None)) => {}
        _ => panic!("a missing path segment must yield None, not a failure"),
    }
}

#[test]
fn path_segment_non_numeric_is_malformed() {
    let failure =
        PathRejection::FailedToDeserializePathParams("invalid digit found in string".to_string());
    let out = ValidOption::<Path<u32>>::from_request_parts(Err(failure.clone()));
    match out {
        Err(e) => assert_eq!(e, failure),
        Ok(_) => panic!("a present but non-numeric segment must propagate the parse failure"),
    }
}

#[test]
fn path_segment_numeric_is_some() {
    let out = ValidOption::<Path<u32>>::from_request_parts(Ok(Path(7)));
    match out {
        Ok(ValidOption(Some(Path(v)))) => assert_eq!(v, 7),
        _ => panic!("a valid segment must pass through as Some of the extracted value"),
    }
}

#[test]
fn query_string_missing_is_none() {
    let out = ValidOption::<Query<String>>::from_request_parts(Err(
        QueryRejection::MissingQueryString,
    ));
    match out {
        Ok(ValidOption(None)) => {}
        _ => panic!("a missing query string must yield None, not a failure"),
    }
}

#[test]
fn query_string_present_but_key_missing_is_malformed() {
    // The chosen absence pattern for queries: only a wholly missing query
    // string counts as absent.  `?other=1` with a required key `search`
    // missing fails deserialisation, and that failure is malformed.
    let failure = QueryRejection::FailedToDeserializeQueryString(
        "missing field `search`".to_string(),
    );
    let out = ValidOption::<Query<String>>::from_request_parts(Err(failure.clone()));
    match out {
        Err(e) => assert_eq!(e, failure),
        Ok(_) => panic!("a present but undeserialisable query string must propagate its failure"),
    }
}

#[test]
fn query_valid_is_some() {
    let out = ValidOption::<Query<String>>::from_request_parts(Ok(Query("needle".to_string())));
    match out {
        Ok(ValidOption(Some(Query(v)))) => assert_eq!(v, "needle"),
        _ => panic!("a valid query must pass through as Some of the extracted value"),
    }
}

#[test]
fn header_missing_is_none() {
    let failure = TypedHeaderRejection {
        name: "x-request-id".to_string(),
        reason: TypedHeaderRejectionReason::Missing,
    };
    let out = ValidOption::<TypedHeader<String>>::from_request_parts(Err(failure));
    match out {
        Ok(ValidOption(None)) => {}
        _ => panic!("a missing header must yield None, not a failure"),
    }
}

#[test]
fn header_present_but_unparsable_is_malformed() {
    let failure = TypedHeaderRejection {
        name: "content-length".to_string(),
        reason: TypedHeaderRejectionReason::Error("invalid HTTP header value".to_string()),
    };
    let out = ValidOption::<TypedHeader<u64>>::from_request_parts(Err(failure.clone()));
    match out {
        Err(e) => assert_eq!(e, failure),
        Ok(_) => panic!("a present but unparsable header must propagate the parse failure"),
    }
}

#[test]
fn token_missing_is_none() {
    let out = ValidOption::<JwtClaims<String>>::from_request_parts(Err(AuthError::MissingToken));
    match out {
        Ok(ValidOption(None)) => {}
        _ => panic!("a missing token must yield None, not a failure"),
    }
}

#[test]
fn token_failing_verification_is_malformed() {
    let failure = AuthError::InvalidToken("ExpiredSignature".to_string());
    let out = ValidOption::<JwtClaims<String>>::from_request_parts(Err(failure.clone()));
    match out {
        Err(e) => assert_eq!(e, failure),
        Ok(_) => panic!("a supplied but invalid token must propagate the verification failure"),
    }
}

#[test]
fn token_with_undeserialisable_claims_is_malformed() {
    let failure = AuthError::InvalidClaims("missing field `sub`".to_string());
    let out = ValidOption::<JwtClaims<String>>::from_request_parts(Err(failure.clone()));
    match out {
        Err(e) => assert_eq!(e, failure),
        Ok(_) => panic!("undeserialisable claims must propagate the failure"),
    }
}

#[test]
fn token_valid_is_some() {
    let out =
        ValidOption::<JwtClaims<String>>::from_request_parts(Ok(JwtClaims("alice".to_string())));
    match out {
        Ok(ValidOption(Some(JwtClaims(v)))) => assert_eq!(v, "alice"),
        _ => panic!("verified claims must pass through as Some of the extracted value"),
    }
}
