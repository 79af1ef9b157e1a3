use webchannel::settings::{check_metrics_auth, Metrics};

fn with_auth() -> Metrics {
    Metrics {
        auth_enabled: true,
        auth_username: Some("user".to_string()),
        auth_password: Some("pass".to_string()),
    }
}

#[test]
fn basic_auth_header_encodes_credentials() {
    assert_eq!(with_auth().make_basic_auth_header(), "Basic dXNlcjpwYXNz");
}

#[test]
fn basic_auth_header_with_missing_parts() {
    let m = Metrics { auth_enabled: true, auth_username: None, auth_password: None };
    assert_eq!(m.make_basic_auth_header(), "Basic Og==");
}

#[test]
fn metrics_auth_disabled_lets_everyone_in() {
    let m = Metrics { auth_enabled: false, auth_username: None, auth_password: None };
    assert!(check_metrics_auth(m, None));
}

#[test]
fn metrics_auth_checks_the_header() {
    assert!(check_metrics_auth(with_auth(), Some("Basic dXNlcjpwYXNz".to_string())));
    assert!(!check_metrics_auth(with_auth(), Some("Basic Og==".to_string())));
    assert!(!check_metrics_auth(with_auth(), None));
}
