//! What the configuration endpoints answer: the site URL, the version, the
//! backend configuration and the Umami analytics settings.
use vstd::prelude::*;
use crate::text::concat_str;
use crate::types::{
    make_status_reply, make_text_reply, status_reply, text_reply, BackendConfig, BackendConfigView,
    Body, BodyView, Config, Reply, ReplyView, StatusCode, UmamiConfig, UmamiConfigView,
};

verus! {

/// A copy of an optional string.
pub fn copy_option(o: &Option<String>) -> (r: Option<String>)
    ensures
        r.deep_view() == o.deep_view(),
{
    match o {
        Some(s) => Some(s.clone()),
        None => None,
    }
}

/// A stored setting counts only where it is not empty.
pub open spec fn non_empty(setting: Option<Seq<char>>) -> Option<Seq<char>> {
    match setting {
        Some(s) => if s.len() > 0 {
            Some(s)
        } else {
            None
        },
        None => None,
    }
}

/// Keeps a stored setting only where it is not empty.
pub fn keep_non_empty(setting: Option<String>) -> (r: Option<String>)
    ensures
        r.deep_view() == non_empty(setting.deep_view()),
{
    match setting {
        Some(s) => if s.as_str().unicode_len() > 0 {
            Some(s)
        } else {
            None
        },
        None => None,
    }
}

/// The configured site URL with status 200, or "unset" where there is none.
pub open spec fn siteurl_answer(site_url: Option<Seq<char>>) -> ReplyView {
    match site_url {
        Some(url) => text_reply(StatusCode::OK, url),
        None => text_reply(StatusCode::OK, "unset"@),
    }
}

/// Answers a request for the site URL (see [`siteurl_answer`]).
pub fn siteurl_reply(site_url: &Option<String>) -> (r: Reply)
    ensures
        r@ == siteurl_answer(site_url.deep_view()),
{
    match site_url {
        Some(url) => make_text_reply(StatusCode::OK, url.clone()),
        None => make_text_reply(StatusCode::OK, String::from_str("unset")),
    }
}

/// Answers a request for the version: "Umamurl v" and the version, status 200.
pub fn version_reply(version: &str) -> (r: Reply)
    ensures
        r@ == text_reply(StatusCode::OK, "Umamurl v"@ + version@),
{
    make_text_reply(StatusCode::OK, concat_str("Umamurl v", version))
}

/// Analytics count as configured when both environment variables are set,
/// or else both stored settings are non-empty.
pub open spec fn umami_configured(
    env_url: Option<Seq<char>>,
    env_id: Option<Seq<char>>,
    db_url: Option<Seq<char>>,
    db_id: Option<Seq<char>>,
) -> bool {
    (env_url is Some && env_id is Some) || (non_empty(db_url) is Some && non_empty(db_id) is Some)
}

/// The backend configuration as the front end sees it.
pub open spec fn backend_config_of(
    config: Config,
    version: Seq<char>,
    password_configured: bool,
    db_url: Option<Seq<char>>,
    db_id: Option<Seq<char>>,
) -> BackendConfigView {
    BackendConfigView {
        version,
        site_url: config.site_url.deep_view(),
        allow_capital_letters: config.allow_capital_letters,
        public_mode: config.public_mode,
        public_mode_expiry_delay: config.public_mode_expiry_delay,
        slug_style: config.slug_style@,
        slug_length: config.slug_length,
        try_longer_slug: config.try_longer_slug,
        password_configured,
        umami_configured: umami_configured(
            config.umami_url.deep_view(),
            config.umami_website_id.deep_view(),
            db_url,
            db_id,
        ),
    }
}

/// Answers a request for the backend configuration with status 200;
/// `db_url` and `db_id` are the stored analytics settings.
pub fn getconfig_reply(
    config: &Config,
    version: &str,
    password_configured: bool,
    db_url: Option<String>,
    db_id: Option<String>,
) -> (r: Reply)
    ensures
        r@ == (ReplyView {
            status: StatusCode::OK,
            body: BodyView::Config(
                backend_config_of(
                    *config,
                    version@,
                    password_configured,
                    db_url.deep_view(),
                    db_id.deep_view(),
                ),
            ),
        }),
{
    let env_set = config.umami_url.is_some() && config.umami_website_id.is_some();
    let db_set = keep_non_empty(db_url).is_some() && keep_non_empty(db_id).is_some();
    let cfg = BackendConfig {
        version: String::from_str(version),
        site_url: copy_option(&config.site_url),
        allow_capital_letters: config.allow_capital_letters,
        public_mode: config.public_mode,
        public_mode_expiry_delay: config.public_mode_expiry_delay,
        slug_style: config.slug_style.clone(),
        slug_length: config.slug_length,
        try_longer_slug: config.try_longer_slug,
        password_configured,
        umami_configured: env_set || db_set,
    };
    Reply { status: StatusCode::OK, body: Body::Config(cfg) }
}

/// The analytics settings as the admin interface shows them: each value
/// from its environment variable where set, else from the store, else empty;
/// `env_configured` where either environment variable is set.
pub open spec fn umami_config_of(
    env_url: Option<Seq<char>>,
    env_id: Option<Seq<char>>,
    db_url: Option<Seq<char>>,
    db_id: Option<Seq<char>>,
) -> UmamiConfigView {
    UmamiConfigView {
        umami_url: match env_url {
            Some(u) => u,
            None => match db_url {
                Some(u) => u,
                None => Seq::empty(),
            },
        },
        umami_website_id: match env_id {
            Some(i) => i,
            None => match db_id {
                Some(i) => i,
                None => Seq::empty(),
            },
        },
        env_configured: env_url is Some || env_id is Some,
    }
}

fn first_or_second(first: &Option<String>, second: Option<String>) -> (r: String)
    ensures
        r@ == (match first.deep_view() {
            Some(s) => s,
            None => match second.deep_view() {
                Some(s) => s,
                None => Seq::empty(),
            },
        }),
{
    match first {
        Some(s) => s.clone(),
        None => match second {
            Some(s) => s,
            None => String::new(),
        },
    }
}

/// Answers a request for the analytics settings with status 200 (see
/// [`umami_config_of`]); `db_url` and `db_id` are the stored settings.
pub fn umami_config_reply(config: &Config, db_url: Option<String>, db_id: Option<String>) -> (r: Reply)
    ensures
        r@ == (ReplyView {
            status: StatusCode::OK,
            body: BodyView::Umami(
                umami_config_of(
                    config.umami_url.deep_view(),
                    config.umami_website_id.deep_view(),
                    db_url.deep_view(),
                    db_id.deep_view(),
                ),
            ),
        }),
{
    let env_configured = config.umami_url.is_some() || config.umami_website_id.is_some();
    let umami_url = first_or_second(&config.umami_url, db_url);
    let umami_website_id = first_or_second(&config.umami_website_id, db_id);
    Reply {
        status: StatusCode::OK,
        body: Body::Umami(UmamiConfig { umami_url, umami_website_id, env_configured }),
    }
}

/// The analytics settings cannot be changed through the API while either
/// environment variable sets them: such a request is answered 403 and
/// nothing is written. `None` means the settings may be written.
pub fn umami_settings_lock(config: &Config) -> (r: Option<Reply>)
    ensures
        (config.umami_url is Some || config.umami_website_id is Some) <==> r is Some,
        r matches Some(reply) ==> reply@ == status_reply(
            StatusCode::Forbidden,
            "Umami configuration is set via environment variables and cannot be changed from the UI."@,
        ),
{
    if config.umami_url.is_some() || config.umami_website_id.is_some() {
        Some(
            make_status_reply(
                StatusCode::Forbidden,
                String::from_str(
                    "Umami configuration is set via environment variables and cannot be changed from the UI.",
                ),
            ),
        )
    } else {
        None
    }
}

/// What writing the analytics settings answers: 200 where both writes
/// succeeded, 500 otherwise.
pub open spec fn umami_saved_answer(url_saved: bool, id_saved: bool) -> ReplyView {
    if url_saved && id_saved {
        status_reply(StatusCode::OK, "Umami configuration saved."@)
    } else {
        status_reply(StatusCode::InternalServerError, "Failed to save Umami configuration."@)
    }
}

/// Answers a write of the analytics settings (see [`umami_saved_answer`]).
pub fn umami_saved_reply(url_saved: bool, id_saved: bool) -> (r: Reply)
    ensures
        r@ == umami_saved_answer(url_saved, id_saved),
{
    if url_saved && id_saved {
        make_status_reply(StatusCode::OK, String::from_str("Umami configuration saved."))
    } else {
        make_status_reply(
            StatusCode::InternalServerError,
            String::from_str("Failed to save Umami configuration."),
        )
    }
}

} // verus!
