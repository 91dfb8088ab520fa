use token_gate::authorize::{authorize, contains_role, AuthorizationDecision, DenyReason};
use token_gate::claims::Claims;

fn claims_with_roles(roles: Option<Vec<&str>>) -> Claims {
    Claims {
        aud: "api://test-audience".to_string(),
        iss: "https://issuer.example/v2.0".to_string(),
        sub: "test-subject".to_string(),
        exp: 1_700_003_600,
        roles: roles.map(|rs| rs.into_iter().map(|r| r.to_string()).collect()),
    }
}

#[test]
fn matching_role_is_allowed() {
    let c = claims_with_roles(Some(vec!["Task.HelloWorld"]));
    match authorize(&c, &"Task.HelloWorld".to_string()) {
        AuthorizationDecision::Allowed { subject, scope } => {
            assert_eq!(subject, "test-subject");
            assert_eq!(scope, "Task.HelloWorld");
        },
        AuthorizationDecision::Denied { .. } => panic!("expected Allowed"),
    }
}

#[test]
fn other_role_is_denied() {
    let c = claims_with_roles(Some(vec!["Other"]));
    match authorize(&c, &"Task.HelloWorld".to_string()) {
        AuthorizationDecision::Denied { reason } => {
            assert_eq!(reason, DenyReason::RoleNotPresent);
        },
        AuthorizationDecision::Allowed { .. } => panic!("expected Denied"),
    }
}

#[test]
fn missing_roles_claim_is_denied() {
    let c = claims_with_roles(None);
    match authorize(&c, &"Task.HelloWorld".to_string()) {
        AuthorizationDecision::Denied { reason } => {
            assert_eq!(reason, DenyReason::NoRolesClaim);
        },
        AuthorizationDecision::Allowed { .. } => panic!("expected Denied"),
    }
}

#[test]
fn role_is_found_among_several() {
    let c = claims_with_roles(Some(vec!["First", "Task.HelloWorld", "Last"]));
    match authorize(&c, &"Task.HelloWorld".to_string()) {
        AuthorizationDecision::Allowed { subject, .. } => assert_eq!(subject, "test-subject"),
        AuthorizationDecision::Denied { .. } => panic!("expected Allowed"),
    }
}

#[test]
fn empty_role_list_is_denied() {
    let c = claims_with_roles(Some(vec![]));
    match authorize(&c, &"Task.HelloWorld".to_string()) {
        AuthorizationDecision::Denied { reason } => {
            assert_eq!(reason, DenyReason::RoleNotPresent);
        },
        AuthorizationDecision::Allowed { .. } => panic!("expected Denied"),
    }
}

#[test]
fn contains_role_is_exact() {
    let roles = vec!["Task.HelloWorld".to_string(), "Other".to_string()];
    assert!(contains_role(&roles, &"Task.HelloWorld".to_string()));
    assert!(contains_role(&roles, &"Other".to_string()));
    assert!(!contains_role(&roles, &"Task.Hello".to_string()));
    assert!(!contains_role(&roles, &"".to_string()));
}
