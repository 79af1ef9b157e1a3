use webchannel::auth::AuthError;
use webchannel::problem::{pack, Failure, ProblemDetail, ProblemTitle};

#[test]
fn invalid_credentials_is_401() {
    let p = pack(Failure::from_auth(AuthError::InvalidCredentials));
    assert_eq!(p.status, 401);
    assert_eq!(p.title, ProblemTitle::InvalidCredentials);
    assert!(matches!(p.detail, ProblemDetail::Absent));
}

#[test]
fn malformed_body_is_400_with_reason() {
    let p = pack(Failure::MalformedRequestBody { reason: "expected value".to_string() });
    assert_eq!(p.status, 400);
    assert_eq!(p.title, ProblemTitle::InvalidRequestBody);
    match p.detail {
        ProblemDetail::BodyError(s) => assert_eq!(s, "expected value"),
        _ => panic!("detail missing"),
    }
}

#[test]
fn routing_failures_map_to_404_and_405() {
    assert_eq!(pack(Failure::NotFound).status, 404);
    assert_eq!(pack(Failure::MethodNotAllowed).status, 405);
    assert_eq!(pack(Failure::NotFound).title, ProblemTitle::StatusReason);
}

#[test]
fn internal_is_500_without_detail() {
    let p = pack(Failure::Internal);
    assert_eq!(p.status, 500);
    assert!(matches!(p.detail, ProblemDetail::Absent));
}
