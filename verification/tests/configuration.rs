use umamurl::settings::{
    getconfig_reply, siteurl_reply, umami_config_reply, umami_saved_reply, umami_settings_lock,
    version_reply,
};
use umamurl::types::{Body, Config, Reply, StatusCode};

fn config() -> Config {
    Config {
        site_url: None,
        port: 4567,
        public_mode: false,
        public_mode_expiry_delay: 0,
        allow_capital_letters: false,
        slug_style: "Pair".to_string(),
        slug_length: 16,
        try_longer_slug: false,
        use_temp_redirect: false,
        password: None,
        hash_algorithm: None,
        api_key: None,
        umami_url: None,
        umami_website_id: None,
    }
}

fn text_of(r: &Reply) -> Option<String> {
    match &r.body {
        Body::Text(t) => Some(t.clone()),
        _ => None,
    }
}

fn report_of(r: &Reply) -> Option<(bool, bool, String)> {
    match &r.body {
        Body::Status(j) => Some((j.success, j.error, j.reason.clone())),
        _ => None,
    }
}

#[test]
fn siteurl_or_unset() {
    let r = siteurl_reply(&Some("https://s.example".to_string()));
    assert_eq!(r.status, StatusCode::OK);
    assert_eq!(text_of(&r), Some("https://s.example".to_string()));
    assert_eq!(text_of(&siteurl_reply(&None)), Some("unset".to_string()));
}

#[test]
fn version_text() {
    let r = version_reply("6.5.1");
    assert_eq!(r.status, StatusCode::OK);
    assert_eq!(text_of(&r), Some("Umamurl v6.5.1".to_string()));
}

fn umami_configured_of(r: &Reply) -> bool {
    match &r.body {
        Body::Config(c) => c.umami_configured,
        _ => panic!("expected the backend configuration"),
    }
}

#[test]
fn backend_config_copies_the_configuration() {
    let mut c = config();
    c.site_url = Some("https://s.example".to_string());
    c.public_mode = true;
    c.public_mode_expiry_delay = 3600;
    c.slug_style = "UID".to_string();
    c.slug_length = 20;
    c.try_longer_slug = true;
    c.allow_capital_letters = true;
    let r = getconfig_reply(&c, "6.5.1", true, None, None);
    assert_eq!(r.status, StatusCode::OK);
    match &r.body {
        Body::Config(b) => {
            assert_eq!(b.version, "6.5.1");
            assert_eq!(b.site_url, Some("https://s.example".to_string()));
            assert!(b.allow_capital_letters && b.public_mode && b.try_longer_slug);
            assert_eq!(b.public_mode_expiry_delay, 3600);
            assert_eq!(b.slug_style, "UID");
            assert_eq!(b.slug_length, 20);
            assert!(b.password_configured);
            assert!(!b.umami_configured);
        }
        _ => panic!("expected the backend configuration"),
    }
}

#[test]
fn umami_counts_as_configured_by_environment_or_store() {
    let mut c = config();
    c.umami_url = Some("https://u".to_string());
    assert!(!umami_configured_of(&getconfig_reply(&c, "v", false, None, None)));
    c.umami_website_id = Some(String::new());
    assert!(umami_configured_of(&getconfig_reply(&c, "v", false, None, None)));
    let c = config();
    assert!(umami_configured_of(&getconfig_reply(
        &c,
        "v",
        false,
        Some("https://u".to_string()),
        Some("id".to_string())
    )));
    assert!(!umami_configured_of(&getconfig_reply(
        &c,
        "v",
        false,
        Some("https://u".to_string()),
        Some(String::new())
    )));
}

#[test]
fn umami_settings_prefer_the_environment() {
    let mut c = config();
    c.umami_url = Some("https://env".to_string());
    let r = umami_config_reply(&c, Some("https://db".to_string()), Some("db-id".to_string()));
    assert_eq!(r.status, StatusCode::OK);
    match &r.body {
        Body::Umami(u) => {
            assert_eq!(u.umami_url, "https://env");
            assert_eq!(u.umami_website_id, "db-id");
            assert!(u.env_configured);
        }
        _ => panic!("expected the analytics settings"),
    }
    let r = umami_config_reply(&config(), None, None);
    match &r.body {
        Body::Umami(u) => {
            assert_eq!(u.umami_url, "");
            assert_eq!(u.umami_website_id, "");
            assert!(!u.env_configured);
        }
        _ => panic!("expected the analytics settings"),
    }
}

#[test]
fn umami_settings_locked_by_environment() {
    assert!(umami_settings_lock(&config()).is_none());
    let mut c = config();
    c.umami_website_id = Some("id".to_string());
    let r = umami_settings_lock(&c).expect("locked");
    assert_eq!(r.status, StatusCode::Forbidden);
    assert_eq!(
        report_of(&r),
        Some((
            false,
            true,
            "Umami configuration is set via environment variables and cannot be changed from the UI."
                .to_string()
        ))
    );
}

#[test]
fn umami_save_outcomes() {
    let r = umami_saved_reply(true, true);
    assert_eq!(r.status, StatusCode::OK);
    assert_eq!(report_of(&r), Some((true, false, "Umami configuration saved.".to_string())));
    for (a, b) in [(true, false), (false, true), (false, false)] {
        let r = umami_saved_reply(a, b);
        assert_eq!(r.status, StatusCode::InternalServerError);
        assert_eq!(report_of(&r), Some((false, true, "Failed to save Umami configuration.".to_string())));
    }
}
