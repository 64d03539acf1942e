use todo_auth::auth_middleware::{Auth, AuthMiddleware, GateState, HttpMethod, gate_rejection};
use todo_auth::jwt::create_jwt;

const NOW: i64 = 1_700_000_000;
const SECRET: &str = "server-secret";

fn gate() -> AuthMiddleware {
    Auth::new(vec!["/api/v1/auth".to_string()], SECRET.to_string()).new_transform()
}

#[test]
fn bypassed_path_without_header_reaches_handler() {
    let d = gate().call(HttpMethod::Post, "/api/v1/auth/login", None, NOW);
    assert_eq!(d, GateState::Bypassed);
    let d = gate().call(HttpMethod::Post, "/api/v1/auth/register", None, NOW);
    assert_eq!(d, GateState::Bypassed);
}

#[test]
fn preflight_request_is_bypassed() {
    let d = gate().call(HttpMethod::Options, "/api/v1/users/me", None, NOW);
    assert_eq!(d, GateState::Bypassed);
}

#[test]
fn protected_path_without_header_is_rejected() {
    let d = gate().call(HttpMethod::Get, "/api/v1/users/me", None, NOW);
    assert_eq!(d, GateState::Rejected);
}

#[test]
fn header_without_bearer_shape_is_rejected() {
    let header = "Token abcdef".to_string();
    let d = gate().call(HttpMethod::Get, "/api/v1/users/me", Some(&header), NOW);
    assert_eq!(d, GateState::Rejected);
}

#[test]
fn malformed_bearer_token_is_rejected() {
    let header = "Bearer not.a.token".to_string();
    let d = gate().call(HttpMethod::Get, "/api/v1/users/me", Some(&header), NOW);
    assert_eq!(d, GateState::Rejected);
}

#[test]
fn expired_bearer_token_is_rejected() {
    let token = create_jwt(7, SECRET, NOW - 200_000).unwrap();
    let header = format!("Bearer {}", token);
    let d = gate().call(HttpMethod::Get, "/api/v1/users/me", Some(&header), NOW);
    assert_eq!(d, GateState::Rejected);
}

#[test]
fn valid_bearer_token_authenticates_with_its_claims() {
    let token = create_jwt(7, SECRET, NOW).unwrap();
    let header = format!("Bearer {}", token);
    let d = gate().call(HttpMethod::Get, "/api/v1/users/me", Some(&header), NOW);
    match d {
        GateState::Authenticated(claims) => {
            assert_eq!(claims.sub, "7");
            assert_eq!(claims.iat, NOW);
        }
        other => panic!("expected authentication, got {:?}", other),
    }
}

#[test]
fn bypass_prefix_must_match_from_the_start() {
    let d = gate().call(HttpMethod::Get, "/elsewhere/api/v1/auth", None, NOW);
    assert_eq!(d, GateState::Rejected);
}

#[test]
fn rejection_envelope_is_a_uniform_client_error() {
    let envelope = gate_rejection().to_envelope();
    assert_eq!(envelope.status, 401);
    assert_eq!(envelope.code, "UNAUTHORIZED");
    assert_eq!(envelope.message, "Authentication required");
}
