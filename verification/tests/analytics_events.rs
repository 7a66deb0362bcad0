use umamurl::analytics::{client_ip, hostname, plan_umami_event, resolve, Visitor};
use umamurl::types::Config;

fn config() -> Config {
    Config {
        site_url: None,
        port: 4567,
        public_mode: false,
        public_mode_expiry_delay: 0,
        allow_capital_letters: false,
        slug_style: "Pair".to_string(),
        slug_length: 16,
        try_longer_slug: false,
        use_temp_redirect: false,
        password: None,
        hash_algorithm: None,
        api_key: None,
        umami_url: None,
        umami_website_id: None,
    }
}

fn visitor(forwarded_for: Option<&str>, peer: Option<&str>) -> Visitor {
    Visitor {
        referrer: "https://ref.example/".to_string(),
        language: "en-US".to_string(),
        user_agent: "curl/8".to_string(),
        forwarded_for: forwarded_for.map(|s| s.to_string()),
        peer: peer.map(|s| s.to_string()),
    }
}

#[test]
fn settings_resolve_environment_first_then_non_empty_store() {
    assert_eq!(resolve(&Some("env".to_string()), Some("db".to_string())), Some("env".to_string()));
    assert_eq!(resolve(&None, Some("db".to_string())), Some("db".to_string()));
    assert_eq!(resolve(&None, Some(String::new())), None);
    assert_eq!(resolve(&None, None), None);
    assert_eq!(resolve(&Some(String::new()), None), Some(String::new()));
}

#[test]
fn hostname_drops_the_scheme() {
    assert_eq!(hostname(&Some("https://s.example".to_string())), "s.example");
    assert_eq!(hostname(&Some("http://s.example:8080".to_string())), "s.example:8080");
    assert_eq!(hostname(&Some("ftp://s.example".to_string())), "localhost");
    assert_eq!(hostname(&None), "localhost");
}

#[test]
fn client_ip_prefers_forwarded_for() {
    assert_eq!(client_ip(&Some(" 1.2.3.4 , 5.6.7.8".to_string()), &Some("9.9.9.9".to_string())), "1.2.3.4");
    assert_eq!(client_ip(&Some("".to_string()), &Some("9.9.9.9".to_string())), "");
    assert_eq!(client_ip(&None, &Some("9.9.9.9".to_string())), "9.9.9.9");
    assert_eq!(client_ip(&None, &None), "");
}

#[test]
fn no_event_without_both_settings() {
    let c = config();
    assert!(plan_umami_event(&c, Some("https://u".to_string()), None, "x", true, visitor(None, None)).is_none());
    assert!(plan_umami_event(&c, None, Some("id".to_string()), "x", true, visitor(None, None)).is_none());
    assert!(plan_umami_event(&c, Some(String::new()), Some("id".to_string()), "x", true, visitor(None, None)).is_none());
}

#[test]
fn event_from_stored_settings() {
    let mut c = config();
    c.site_url = Some("https://s.example".to_string());
    let e = plan_umami_event(
        &c,
        Some("https://umami.example".to_string()),
        Some("site-1".to_string()),
        "my-link",
        true,
        visitor(Some("10.0.0.1, 10.0.0.2"), Some("127.0.0.1")),
    )
    .expect("an event");
    assert_eq!(e.endpoint, "https://umami.example/api/send");
    assert_eq!(e.website, "site-1");
    assert_eq!(e.hostname, "s.example");
    assert_eq!(e.url, "/my-link");
    assert_eq!(e.referrer, "https://ref.example/");
    assert_eq!(e.language, "en-US");
    assert_eq!(e.user_agent, "curl/8");
    assert_eq!(e.forwarded_for, Some("10.0.0.1".to_string()));
}

#[test]
fn event_settings_from_environment_win() {
    let mut c = config();
    c.umami_url = Some("https://env.example".to_string());
    c.umami_website_id = Some("env-id".to_string());
    let e = plan_umami_event(&c, Some("https://db".to_string()), Some("db-id".to_string()), "a", true, visitor(None, None))
        .expect("an event");
    assert_eq!(e.endpoint, "https://env.example/api/send");
    assert_eq!(e.website, "env-id");
    assert_eq!(e.hostname, "localhost");
    assert_eq!(e.forwarded_for, None);
}

#[test]
fn no_event_for_a_missing_link() {
    let mut c = config();
    c.umami_url = Some("https://env.example".to_string());
    c.umami_website_id = Some("env-id".to_string());
    assert!(plan_umami_event(&c, None, None, "gone", false, visitor(None, None)).is_none());
}
