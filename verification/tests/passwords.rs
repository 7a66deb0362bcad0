use umamurl::login::{
    login_authorization, stored_password_verdict, Authorization, env_password_verdict, login_outcome, logout_reply, password_stored_reply, set_password_plan,
    EnvVerdict, Login,
};
use umamurl::types::{Body, Reply, StatusCode};

fn text_of(r: &Reply) -> Option<String> {
    match &r.body {
        Body::Text(t) => Some(t.clone()),
        _ => None,
    }
}

fn report_of(r: &Reply) -> Option<(bool, bool, String)> {
    match &r.body {
        Body::Status(j) => Some((j.success, j.error, j.reason.clone())),
        _ => None,
    }
}

fn verdict(v: EnvVerdict) -> Option<Option<bool>> {
    match v {
        EnvVerdict::NotConfigured => None,
        EnvVerdict::Checked(b) => Some(Some(b)),
        EnvVerdict::InvalidHash => Some(None),
    }
}

#[test]
fn plain_environment_password_is_compared() {
    let pw = Some("changeme".to_string());
    assert_eq!(verdict(env_password_verdict(&pw, false, &"changeme".to_string())), Some(Some(true)));
    assert_eq!(verdict(env_password_verdict(&pw, false, &"wrong".to_string())), Some(Some(false)));
    assert_eq!(verdict(env_password_verdict(&None, false, &"x".to_string())), None);
    assert_eq!(verdict(env_password_verdict(&None, true, &"x".to_string())), None);
}

#[test]
fn invalid_hash_is_reported() {
    let pw = Some("not a phc string".to_string());
    assert_eq!(verdict(env_password_verdict(&pw, true, &"x".to_string())), Some(None));
}

#[test]
fn set_password_produces_a_verifying_hash() {
    let hash = match set_password_plan(false, false, "s3cret pass") {
        Ok(h) => h,
        Err(_) => panic!("expected a hash"),
    };
    assert!(hash.starts_with("$argon2id$"));
    assert_ne!(hash, "s3cret pass");
    let stored = Some(hash);
    assert_eq!(verdict(env_password_verdict(&stored, true, &"s3cret pass".to_string())), Some(Some(true)));
    assert_eq!(verdict(env_password_verdict(&stored, true, &"other".to_string())), Some(Some(false)));
}

#[test]
fn known_argon2_hash_is_checked() {
    // Reference vector of the argon2 crate: "password" under salt "somesalt", m=256, t=2, p=1.
    let hash = Some("$argon2id$v=19$m=256,t=2,p=1$c29tZXNhbHQ$nf65EOgLrQMR/uIPnA4rEsF5h7TKyQwu9U1bMCHGi/4".to_string());
    assert_eq!(verdict(env_password_verdict(&hash, true, &"password".to_string())), Some(Some(true)));
    assert_eq!(verdict(env_password_verdict(&hash, true, &"Password".to_string())), Some(Some(false)));
    // Declared plain, the same string is compared as text.
    assert_eq!(verdict(env_password_verdict(&hash, false, &"password".to_string())), Some(Some(false)));
}

#[test]
fn set_password_refusals() {
    let r = set_password_plan(true, false, "x").err().expect("refused");
    assert_eq!(r.status, StatusCode::Forbidden);
    assert_eq!(
        report_of(&r),
        Some((false, true, "Password is already configured via environment variable.".to_string()))
    );
    let r = set_password_plan(false, true, "x").err().expect("refused");
    assert_eq!(r.status, StatusCode::Forbidden);
    assert_eq!(report_of(&r), Some((false, true, "Password is already configured.".to_string())));
    let r = set_password_plan(false, false, " \t\n").err().expect("refused");
    assert_eq!(r.status, StatusCode::BadRequest);
    assert_eq!(report_of(&r), Some((false, true, "Password cannot be empty.".to_string())));
    let r = set_password_plan(false, false, "").err().expect("refused");
    assert_eq!(r.status, StatusCode::BadRequest);
}

#[test]
fn password_store_outcomes() {
    let r = password_stored_reply(true);
    assert_eq!(r.status, StatusCode::OK);
    assert_eq!(report_of(&r), Some((true, false, "Password has been set.".to_string())));
    let r = password_stored_reply(false);
    assert_eq!(r.status, StatusCode::InternalServerError);
    assert_eq!(report_of(&r), Some((false, true, "Failed to store password.".to_string())));
}

#[test]
fn login_outcomes() {
    match login_outcome(true, Some(true)) {
        Login::Admit(r) => {
            assert_eq!(r.status, StatusCode::OK);
            assert_eq!(report_of(&r), Some((true, false, "Correct password!".to_string())));
        }
        Login::Refuse(_) => panic!("expected admission"),
    }
    match login_outcome(true, Some(false)) {
        Login::Refuse(r) => {
            assert_eq!(r.status, StatusCode::Unauthorized);
            assert_eq!(report_of(&r), Some((false, true, "Wrong password!".to_string())));
        }
        Login::Admit(_) => panic!("expected refusal"),
    }
    match login_outcome(false, Some(false)) {
        Login::Refuse(r) => {
            assert_eq!(r.status, StatusCode::Unauthorized);
            assert_eq!(text_of(&r), Some("Wrong password!".to_string()));
        }
        Login::Admit(_) => panic!("expected refusal"),
    }
    match login_outcome(false, None) {
        Login::Admit(r) => {
            assert_eq!(r.status, StatusCode::OK);
            assert_eq!(text_of(&r), Some("Correct password!".to_string()));
        }
        Login::Refuse(_) => panic!("expected admission"),
    }
}

#[test]
fn logout_outcomes() {
    let r = logout_reply(true);
    assert_eq!(r.status, StatusCode::OK);
    assert_eq!(text_of(&r), Some("Logged out!".to_string()));
    let r = logout_reply(false);
    assert_eq!(r.status, StatusCode::Unauthorized);
    assert_eq!(text_of(&r), Some("You don't seem to be logged in.".to_string()));
}

fn authorization(a: Authorization) -> Result<Option<bool>, &'static str> {
    match a {
        Authorization::Verdict(v) => Ok(v),
        Authorization::InvalidEnvHash => Err("invalid"),
        Authorization::AskStore => Err("ask"),
    }
}

#[test]
fn set_password_then_log_in_with_it() {
    let hash = match set_password_plan(false, false, "first pass") {
        Ok(h) => h,
        Err(_) => panic!("expected a hash"),
    };
    let stored = Some(hash);
    let attempt = "first pass".to_string();
    assert_eq!(authorization(login_authorization(&None, false, None, &attempt)), Err("ask"));
    assert_eq!(
        authorization(login_authorization(&None, false, Some(stored.clone()), &attempt)),
        Ok(Some(true))
    );
    assert_eq!(
        authorization(login_authorization(&None, true, Some(stored.clone()), &"wrong".to_string())),
        Ok(Some(false))
    );
    assert!(matches!(login_outcome(false, Some(true)), Login::Admit(_)));
    // A second set-password request is refused while the first hash is stored.
    let r = set_password_plan(false, true, "second pass").err().expect("refused");
    assert_eq!(r.status, StatusCode::Forbidden);
}

#[test]
fn stored_password_checks() {
    assert_eq!(stored_password_verdict(&None, &"x".to_string()), None);
    assert_eq!(stored_password_verdict(&Some("garbage".to_string()), &"garbage".to_string()), Some(false));
    let hash = Some("$argon2id$v=19$m=256,t=2,p=1$c29tZXNhbHQ$nf65EOgLrQMR/uIPnA4rEsF5h7TKyQwu9U1bMCHGi/4".to_string());
    assert_eq!(stored_password_verdict(&hash, &"password".to_string()), Some(true));
    assert_eq!(stored_password_verdict(&hash, &hash.clone().unwrap()), Some(false));
}

#[test]
fn environment_password_takes_priority_over_the_store() {
    let env = Some("changeme".to_string());
    let stored = Some(Some("$argon2id$v=19$m=256,t=2,p=1$c29tZXNhbHQ$nf65EOgLrQMR/uIPnA4rEsF5h7TKyQwu9U1bMCHGi/4".to_string()));
    assert_eq!(
        authorization(login_authorization(&env, false, stored.clone(), &"password".to_string())),
        Ok(Some(false))
    );
    assert_eq!(
        authorization(login_authorization(&Some("nope".to_string()), true, None, &"x".to_string())),
        Err("invalid")
    );
    assert_eq!(authorization(login_authorization(&None, false, Some(None), &"x".to_string())), Ok(None));
}
