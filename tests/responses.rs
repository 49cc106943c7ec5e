use ceremony_sequencer::{JwtInfoResponse, TryContributeError, TryContributeResponse};

#[test]
fn unknown_session_reply() {
    let e = TryContributeError::UnknownSessionId;
    assert_eq!(e.status_code(), 400);
    assert_eq!(e.body_field(), "error");
    assert_eq!(e.body_text(), "unknown session id");
}

#[test]
fn rate_limited_reply() {
    let e = TryContributeError::RateLimited;
    assert_eq!(e.status_code(), 400);
    assert_eq!(e.body_field(), "error");
    assert_eq!(e.body_text(), "call came too early. rate limited");
}

#[test]
fn contribution_in_progress_reply() {
    let e = TryContributeError::AnotherContributionInProgress;
    assert_eq!(e.status_code(), 200);
    assert_eq!(e.body_field(), "message");
    assert_eq!(e.body_text(), "another contribution in progress");
}

#[test]
fn contribute_response_carries_payload() {
    let r = TryContributeResponse::new(vec![1u8, 2, 3]);
    assert_eq!(r.contribution, vec![1u8, 2, 3]);
}

#[test]
fn jwt_info_fields() {
    let r = JwtInfoResponse::new("RS256", "-----BEGIN PUBLIC KEY-----".to_string());
    assert_eq!(r.alg, "RS256");
    assert_eq!(r.rsa_pem_key, "-----BEGIN PUBLIC KEY-----");
}
