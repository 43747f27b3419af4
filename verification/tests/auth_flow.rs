use ssh_containerd::auth::cas::{
    AuthenticationFailure, AuthenticationSuccess, Attributes, CasResponse, ServiceResponse,
};
use ssh_containerd::config::CasConfig;
use ssh_containerd::containerd::{
    cas_apply_response, cas_admit, create_auth_url, get_auth_status, AuthStore, CasAdmission, CasOutcome,
};
use ssh_containerd::helper::AutoRemoveHashMap;
use ssh_containerd::AuthStatus;

fn cas_config() -> CasConfig {
    CasConfig::new(
        "https://cas.example.org/cas".to_string(),
        "https://daemon.example.org/auth/cas".to_string(),
    )
}

fn success_response(sid: &str) -> CasResponse {
    CasResponse {
        service_response: ServiceResponse::AuthenticationSuccess(AuthenticationSuccess {
            attributes: Attributes { id: vec!["id0".to_string()], sid: vec![sid.to_string()] },
            user: "someone".to_string(),
        }),
    }
}

#[test]
fn create_auth_url_records_the_handout() {
    let cas = cas_config();
    let mut filter = AutoRemoveHashMap::new(60_000);
    let mut status = AuthStore::new();
    let url = create_auth_url(&cas, &mut filter, &mut status, "ch-1", "alice", 0);
    assert_eq!(url, "https://cas.example.org/cas/login?service=https%3A%2F%2Fdaemon.example.org%2Fauth%2Fcas%3Fchallenge%3Dch-1");
    assert_eq!(filter.get("ch-1"), Some("alice".to_string()));
    assert!(matches!(get_auth_status(&status, "alice"), AuthStatus::Assigned));
}

#[test]
fn status_of_unknown_identifier_is_failed() {
    let status = AuthStore::new();
    assert!(matches!(get_auth_status(&status, "nobody"), AuthStatus::Failed));
}

#[test]
fn admission_without_provider_is_forbidden() {
    let mut filter = AutoRemoveHashMap::new(60_000);
    filter.insert(0, "ch-2".to_string(), "bob".to_string());
    let r = cas_admit(None, &mut filter, "ch-2", "ST-1");
    assert!(matches!(r, CasAdmission::Forbidden));
    assert!(filter.contains_key("ch-2"));
}

#[test]
fn admission_with_unknown_challenge_is_a_bad_request() {
    let cas = cas_config();
    let mut filter = AutoRemoveHashMap::new(60_000);
    let r = cas_admit(Some(&cas), &mut filter, "never-issued", "ST-1");
    assert!(matches!(r, CasAdmission::BadRequest));
}

#[test]
fn admission_consumes_the_challenge_and_builds_the_validation_url() {
    let cas = cas_config();
    let mut filter = AutoRemoveHashMap::new(60_000);
    filter.insert(0, "ch-3".to_string(), "carol".to_string());
    match cas_admit(Some(&cas), &mut filter, "ch-3", "ST-77") {
        CasAdmission::Proceed(identifier, url) => {
            assert_eq!(identifier, "carol");
            assert_eq!(url, "https://cas.example.org/cas/p3/serviceValidate?service=https%3A%2F%2Fdaemon.example.org%2Fauth%2Fcas%3Fchallenge%3Dch-3&format=json&ticket=ST-77");
        }
        _ => panic!("an outstanding challenge must proceed"),
    }
    assert!(!filter.contains_key("ch-3"));
    // The challenge is one-shot: presenting it again is rejected.
    let again = cas_admit(Some(&cas), &mut filter, "ch-3", "ST-77");
    assert!(matches!(again, CasAdmission::BadRequest));
}

#[test]
fn accepted_ticket_records_the_session_and_greets() {
    let mut status = AuthStore::new();
    let r = cas_apply_response(&mut status, "carol", success_response("sid-9"));
    match r {
        CasOutcome::Welcome(msg) => assert_eq!(msg, "Welcome back, sid-9"),
        _ => panic!("a successful validation must greet"),
    }
    match get_auth_status(&status, "carol") {
        AuthStatus::Authed(sid) => assert_eq!(sid, "sid-9"),
        _ => panic!("the caller must be recorded as authenticated"),
    }
}

#[test]
fn rejected_ticket_drops_the_record() {
    let mut status = AuthStore::new();
    status.insert("dave".to_string(), AuthStatus::Assigned);
    let response = CasResponse {
        service_response: ServiceResponse::AuthenticationFailure(AuthenticationFailure {
            code: "INVALID_TICKET".to_string(),
            description: "ticket not recognized".to_string(),
        }),
    };
    match cas_apply_response(&mut status, "dave", response) {
        CasOutcome::Denied(f) => {
            assert_eq!(f.code, "INVALID_TICKET");
            assert_eq!(f.description, "ticket not recognized");
        }
        _ => panic!("a failed validation must be denied"),
    }
    assert!(matches!(get_auth_status(&status, "dave"), AuthStatus::Failed));
    assert!(!status.contains_key("dave"));
}

#[test]
fn auth_status_equality_follows_the_abstract_value() {
    assert_eq!(AuthStatus::Assigned, AuthStatus::Assigned);
    assert_eq!(
        AuthStatus::Authed("s".to_string()),
        AuthStatus::Authed("s".to_string())
    );
    assert_ne!(
        AuthStatus::Authed("s".to_string()),
        AuthStatus::Authed("t".to_string())
    );
    assert_ne!(AuthStatus::Assigned, AuthStatus::Failed);
    let copy = AuthStatus::Authed("s".to_string()).duplicate();
    assert_eq!(copy, AuthStatus::Authed("s".to_string()));
}
