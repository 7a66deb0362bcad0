use umamurl::access::{
    add_link_gate, admin_gate, expand_gate, getconfig_gate, legacy_admin_gate, whoami_reply,
    whoami_role, Gate, Role,
};
use umamurl::types::{Body, JSONResponse, StatusCode};

fn api_check(success: bool, error: bool, reason: &str) -> JSONResponse {
    JSONResponse { success, error, reason: reason.to_string() }
}

fn refusal_text(g: &Gate) -> Option<(StatusCode, String)> {
    match g {
        Gate::Deny(r) => match &r.body {
            Body::Text(t) => Some((r.status, t.clone())),
            _ => None,
        },
        _ => None,
    }
}

fn refusal_json(g: &Gate) -> Option<(StatusCode, bool, bool, String)> {
    match g {
        Gate::Deny(r) => match &r.body {
            Body::Status(j) => Some((r.status, j.success, j.error, j.reason.clone())),
            _ => None,
        },
        _ => None,
    }
}

#[test]
fn add_link_with_valid_key_goes_ahead_by_key() {
    let g = add_link_gate(api_check(true, false, "ok"), None, false);
    assert!(matches!(g, Gate::ByKey));
}

#[test]
fn add_link_with_rejected_key_hands_the_check_back() {
    let g = add_link_gate(api_check(false, true, "Wrong API key"), None, true);
    assert_eq!(
        refusal_json(&g),
        Some((StatusCode::Unauthorized, false, true, "Wrong API key".to_string()))
    );
}

#[test]
fn add_link_without_key_asks_for_the_session() {
    let g = add_link_gate(api_check(false, false, "no key"), None, false);
    assert!(matches!(g, Gate::AskSession));
}

#[test]
fn add_link_with_session_goes_ahead_by_session() {
    let g = add_link_gate(api_check(false, false, "no key"), Some(true), false);
    assert!(matches!(g, Gate::BySession));
}

#[test]
fn add_link_on_public_instance_goes_ahead_as_public() {
    let g = add_link_gate(api_check(false, false, "no key"), Some(false), true);
    assert!(matches!(g, Gate::AsPublic));
}

#[test]
fn add_link_anonymous_on_private_instance_is_refused() {
    let g = add_link_gate(api_check(false, false, "no key"), Some(false), false);
    assert_eq!(
        refusal_text(&g),
        Some((StatusCode::Unauthorized, "Not logged in!".to_string()))
    );
}

#[test]
fn listing_anonymous_is_refused_in_text_even_when_public() {
    let g = legacy_admin_gate(api_check(false, false, "no key"), Some(false));
    assert_eq!(
        refusal_text(&g),
        Some((StatusCode::Unauthorized, "Not logged in!".to_string()))
    );
}

#[test]
fn listing_with_rejected_key_is_refused_in_json() {
    let g = legacy_admin_gate(api_check(false, true, "bad key"), Some(true));
    assert_eq!(
        refusal_json(&g),
        Some((StatusCode::Unauthorized, false, true, "bad key".to_string()))
    );
}

#[test]
fn listing_with_session_goes_ahead() {
    assert!(matches!(
        legacy_admin_gate(api_check(false, false, "no key"), Some(true)),
        Gate::BySession
    ));
    assert!(matches!(
        legacy_admin_gate(api_check(false, false, "no key"), None),
        Gate::AskSession
    ));
    assert!(matches!(legacy_admin_gate(api_check(true, false, ""), None), Gate::ByKey));
}

#[test]
fn admin_gate_checks_the_session_even_after_a_rejected_key() {
    assert!(matches!(admin_gate(api_check(false, true, "bad"), None), Gate::AskSession));
    assert!(matches!(admin_gate(api_check(false, true, "bad"), Some(true)), Gate::BySession));
    let g = admin_gate(api_check(false, true, "bad"), Some(false));
    assert_eq!(
        refusal_json(&g),
        Some((StatusCode::Unauthorized, false, true, "bad".to_string()))
    );
}

#[test]
fn expand_needs_a_valid_key() {
    assert!(matches!(expand_gate(api_check(true, false, "")), Gate::ByKey));
    let g = expand_gate(api_check(false, false, "no key"));
    assert_eq!(
        refusal_json(&g),
        Some((StatusCode::Unauthorized, false, false, "no key".to_string()))
    );
}

#[test]
fn getconfig_is_open_on_public_instances_only() {
    assert!(matches!(
        getconfig_gate(api_check(false, false, "x"), Some(false), true),
        Gate::AsPublic
    ));
    let g = getconfig_gate(api_check(false, false, "x"), Some(false), false);
    assert_eq!(
        refusal_json(&g),
        Some((StatusCode::Unauthorized, false, false, "x".to_string()))
    );
    assert!(matches!(getconfig_gate(api_check(false, false, "x"), None, false), Gate::AskSession));
}

#[test]
fn whoami_reports_admin_public_or_nobody() {
    assert_eq!(whoami_role(true, None, false), Some(Role::Admin));
    assert_eq!(whoami_role(false, None, false), None);
    assert_eq!(whoami_role(false, Some(true), true), Some(Role::Admin));
    assert_eq!(whoami_role(false, Some(false), true), Some(Role::Public));
    assert_eq!(whoami_role(false, Some(false), false), Some(Role::Nobody));
    for (role, name) in [(Role::Admin, "admin"), (Role::Public, "public"), (Role::Nobody, "nobody")] {
        let r = whoami_reply(role);
        assert_eq!(r.status, StatusCode::OK);
        assert!(matches!(&r.body, Body::Text(t) if t == name));
    }
}

#[test]
fn whoami_admin_matches_admin_gate() {
    for success in [false, true] {
        for session in [false, true] {
            for public in [false, true] {
                let admin = whoami_role(success, Some(session), public) == Some(Role::Admin);
                let granted = matches!(
                    admin_gate(api_check(success, !success, "r"), Some(session)),
                    Gate::ByKey | Gate::BySession
                );
                assert_eq!(admin, granted);
            }
        }
    }
}

fn refused_with_401(g: &Gate) -> bool {
    matches!(g, Gate::Deny(r) if r.status == StatusCode::Unauthorized)
}

#[test]
fn anonymous_callers_are_refused_everywhere_administrative() {
    for error in [false, true] {
        let api = || api_check(false, error, "no key");
        assert!(refused_with_401(&legacy_admin_gate(api(), Some(false))));
        assert!(refused_with_401(&admin_gate(api(), Some(false))));
        assert!(refused_with_401(&expand_gate(api())));
        assert!(refused_with_401(&add_link_gate(api(), Some(false), false)));
        assert!(refused_with_401(&getconfig_gate(api(), Some(false), false)));
    }
}

#[test]
fn valid_key_opens_every_endpoint() {
    let api = || api_check(true, false, "");
    for session in [None, Some(false), Some(true)] {
        for public in [false, true] {
            assert!(matches!(add_link_gate(api(), session, public), Gate::ByKey));
            assert!(matches!(legacy_admin_gate(api(), session), Gate::ByKey));
            assert!(matches!(admin_gate(api(), session), Gate::ByKey));
            assert!(matches!(getconfig_gate(api(), session, public), Gate::ByKey));
            assert_eq!(whoami_role(true, session, public), Some(Role::Admin));
        }
    }
    assert!(matches!(expand_gate(api()), Gate::ByKey));
}
