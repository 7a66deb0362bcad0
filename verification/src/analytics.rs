//! The Umami event that a redirect reports, built from the configuration, the
//! stored settings and what the visitor's request tells.
use vstd::prelude::*;
use crate::settings::{keep_non_empty, non_empty};
use crate::text::{
    before_comma, concat_str, first_field, strip_prefix, strip_prefix_str, trim, trimmed,
};
use crate::types::Config;

verus! {

/// An analytics setting: the environment variable where it is set (it takes
/// priority), otherwise the stored setting if it is not empty.
pub open spec fn resolve_setting(env: Option<Seq<char>>, stored: Option<Seq<char>>) -> Option<Seq<char>> {
    match env {
        Some(v) => Some(v),
        None => non_empty(stored),
    }
}

/// Resolves an analytics setting (see [`resolve_setting`]).
pub fn resolve(env: &Option<String>, stored: Option<String>) -> (r: Option<String>)
    ensures
        r.deep_view() == resolve_setting(env.deep_view(), stored.deep_view()),
{
    match env {
        Some(v) => Some(v.clone()),
        None => keep_non_empty(stored),
    }
}

/// The host name reported to Umami: the site URL without its `https://` or
/// `http://` scheme, or `localhost` where there is no site URL or it has
/// neither scheme.
pub open spec fn hostname_of(site_url: Option<Seq<char>>) -> Seq<char> {
    match site_url {
        Some(u) => match strip_prefix(u, "https://"@) {
            Some(h) => h,
            None => match strip_prefix(u, "http://"@) {
                Some(h) => h,
                None => "localhost"@,
            },
        },
        None => "localhost"@,
    }
}

/// Works out the host name reported to Umami (see [`hostname_of`]).
pub fn hostname(site_url: &Option<String>) -> (r: String)
    ensures
        r@ == hostname_of(site_url.deep_view()),
{
    match site_url {
        Some(u) => match strip_prefix_str(u.as_str(), "https://") {
            Some(h) => String::from_str(h),
            None => match strip_prefix_str(u.as_str(), "http://") {
                Some(h) => String::from_str(h),
                None => String::from_str("localhost"),
            },
        },
        None => String::from_str("localhost"),
    }
}

/// The visitor's address: the first entry of `X-Forwarded-For`, trimmed,
/// where that header is present; otherwise the peer address; otherwise empty.
pub open spec fn client_ip_of(forwarded_for: Option<Seq<char>>, peer: Option<Seq<char>>) -> Seq<char> {
    match forwarded_for {
        Some(v) => trim(before_comma(v)),
        None => match peer {
            Some(p) => p,
            None => Seq::empty(),
        },
    }
}

/// Works out the visitor's address (see [`client_ip_of`]).
pub fn client_ip(forwarded_for: &Option<String>, peer: &Option<String>) -> (r: String)
    ensures
        r@ == client_ip_of(forwarded_for.deep_view(), peer.deep_view()),
{
    match forwarded_for {
        Some(v) => String::from_str(trimmed(first_field(v.as_str()))),
        None => match peer {
            Some(p) => p.clone(),
            None => String::new(),
        },
    }
}

/// What the visitor's request tells: its `Referer`, `Accept-Language`,
/// `User-Agent` and `X-Forwarded-For` headers (absent or unreadable ones
/// given as empty, or `None` for the last), and the peer address.
pub struct Visitor {
    pub referrer: String,
    pub language: String,
    pub user_agent: String,
    pub forwarded_for: Option<String>,
    pub peer: Option<String>,
}

/// A page-view event to post to Umami.
pub struct UmamiEvent {
    /// The URL to post to.
    pub endpoint: String,
    pub website: String,
    pub hostname: String,
    /// The visited path.
    pub url: String,
    pub referrer: String,
    pub language: String,
    pub user_agent: String,
    /// The value of the `X-Forwarded-For` header to send, if any.
    pub forwarded_for: Option<String>,
}

/// Plans the event that a visit to `shortlink` reports. There is one exactly
/// when the link was found and both the Umami URL and the website id resolve (see
/// [`resolve_setting`]); it is posted to `<Umami URL>/api/send`, names the
/// path `/<shortlink>`, passes the visitor's headers on, and forwards the
/// visitor's address where it is not empty.
pub fn plan_umami_event(
    config: &Config,
    stored_url: Option<String>,
    stored_website_id: Option<String>,
    shortlink: &str,
    link_found: bool,
    visitor: Visitor,
) -> (r: Option<UmamiEvent>)
    ensures
        r is Some <==> (link_found && resolve_setting(config.umami_url.deep_view(), stored_url.deep_view()) is Some
            && resolve_setting(config.umami_website_id.deep_view(), stored_website_id.deep_view()) is Some),
        r matches Some(e) ==> {
            &&& e.endpoint@ == resolve_setting(config.umami_url.deep_view(), stored_url.deep_view()).unwrap()
                + "/api/send"@
            &&& e.website@ == resolve_setting(
                config.umami_website_id.deep_view(),
                stored_website_id.deep_view(),
            ).unwrap()
            &&& e.hostname@ == hostname_of(config.site_url.deep_view())
            &&& e.url@ == "/"@ + shortlink@
            &&& e.referrer@ == visitor.referrer@
            &&& e.language@ == visitor.language@
            &&& e.user_agent@ == visitor.user_agent@
            &&& e.forwarded_for.deep_view() == (if client_ip_of(
                visitor.forwarded_for.deep_view(),
                visitor.peer.deep_view(),
            ).len() == 0 {
                None
            } else {
                Some(client_ip_of(visitor.forwarded_for.deep_view(), visitor.peer.deep_view()))
            })
        },
{
    if !link_found {
        return None;
    }
    let umami_url = resolve(&config.umami_url, stored_url);
    let website_id = resolve(&config.umami_website_id, stored_website_id);
    match (umami_url, website_id) {
        (Some(umami_url), Some(website)) => {
            let endpoint = concat_str(umami_url.as_str(), "/api/send");
            let ip = client_ip(&visitor.forwarded_for, &visitor.peer);
            let forwarded_for = if ip.as_str().unicode_len() == 0 {
                None
            } else {
                Some(ip)
            };
            Some(
                UmamiEvent {
                    endpoint,
                    website,
                    hostname: hostname(&config.site_url),
                    url: concat_str("/", shortlink),
                    referrer: visitor.referrer,
                    language: visitor.language,
                    user_agent: visitor.user_agent,
                    forwarded_for,
                },
            )
        },
        _ => None,
    }
}

} // verus!
