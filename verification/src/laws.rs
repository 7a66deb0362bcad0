//! Properties that hold across the endpoints.
use vstd::prelude::*;
use crate::access::{
    add_link_access, admin_access, expand_access, getconfig_access, legacy_admin_access, role_of,
    GateView, Role,
};
use crate::analytics::resolve_setting;
use crate::links::{
    add_link_answer, delete_link_answer, edit_link_answer, expand_answer, short_url,
};
use crate::login::{
    argon2_verdict, login_admits, login_answer, password_stored_answer, set_password_refusal,
    stored_verdict_of, authorization_of, Authorization,
};
use crate::settings::umami_saved_answer;
use crate::text::{decimal, decimal_value, all_digits, lemma_decimal_round_trip};
use crate::types::{JsonStatusView, StatusCode, UmamurlError};

verus! {

/// The decision refuses the caller with status 401.
pub open spec fn denies_unauthorized(g: GateView) -> bool {
    g matches GateView::Deny(r) && r.status == StatusCode::Unauthorized
}

/// A caller whose API key does not check out and whose session is not valid
/// is turned away with a 401 from every administrative endpoint (listing,
/// deleting, editing, expanding links, the analytics settings), and also
/// from link creation and the configuration unless the instance is public.
pub proof fn lemma_anonymous_callers_are_refused(api: JsonStatusView, public_mode: bool)
    requires
        !api.success,
    ensures
        denies_unauthorized(legacy_admin_access(api, Some(false))),
        denies_unauthorized(admin_access(api, Some(false))),
        denies_unauthorized(expand_access(api)),
        !public_mode ==> denies_unauthorized(add_link_access(api, Some(false), public_mode)),
        !public_mode ==> denies_unauthorized(getconfig_access(api, Some(false), public_mode)),
{
}

/// On a public instance anyone may create links (as a public user) and read
/// the configuration, while listing, deleting and editing links and the
/// analytics settings still require the administrator.
pub proof fn lemma_public_mode_opens_link_creation_only(api: JsonStatusView)
    requires
        !api.success,
        !api.error,
    ensures
        add_link_access(api, Some(false), true) == GateView::AsPublic,
        getconfig_access(api, Some(false), true) == GateView::AsPublic,
        denies_unauthorized(legacy_admin_access(api, Some(false))),
        denies_unauthorized(admin_access(api, Some(false))),
        denies_unauthorized(expand_access(api)),
{
}

/// A valid API key opens every endpoint without looking at the session.
pub proof fn lemma_valid_key_opens_everything(
    api: JsonStatusView,
    session: Option<bool>,
    public_mode: bool,
)
    requires
        api.success,
    ensures
        add_link_access(api, session, public_mode) == GateView::ByKey,
        legacy_admin_access(api, session) == GateView::ByKey,
        admin_access(api, session) == GateView::ByKey,
        expand_access(api) == GateView::ByKey,
        getconfig_access(api, session, public_mode) == GateView::ByKey,
        role_of(api.success, session, public_mode) == Some(Role::Admin),
{
}

/// "Who am I" answers `admin` exactly when the administrative endpoints let
/// the caller in, and anything but `nobody` exactly when the configuration
/// may be read.
pub proof fn lemma_whoami_agrees_with_access(api: JsonStatusView, session: bool, public_mode: bool)
    ensures
        (role_of(api.success, Some(session), public_mode) == Some(Role::Admin)) == admin_access(
            api,
            Some(session),
        ).grants(),
        (role_of(api.success, Some(session), public_mode) != Some(Role::Nobody))
            == getconfig_access(api, Some(session), public_mode).grants(),
{
}

/// Every answer to a caller that uses an API key is JSON: the refusal of a
/// rejected key, and the results of creating, deleting, editing and
/// expanding links.
pub proof fn lemma_api_key_answers_are_json(
    api: JsonStatusView,
    session: Option<bool>,
    public_mode: bool,
    created: Result<(String, i64), UmamurlError>,
    found: Result<(String, i64), UmamurlError>,
    done: Result<(), UmamurlError>,
    site_url: Option<Seq<char>>,
    port: u16,
    slug: Seq<char>,
)
    ensures
        api.error && !api.success ==> (add_link_access(api, session, public_mode) matches GateView::Deny(
            r,
        ) && r.is_json()),
        api.error && !api.success ==> (legacy_admin_access(api, session) matches GateView::Deny(r)
            && r.is_json()),
        add_link_answer(true, created, site_url, port).is_json(),
        delete_link_answer(true, slug, done).is_json(),
        edit_link_answer(done).is_json(),
        expand_answer(found).is_json(),
{
}

/// In every JSON report that an endpoint writes itself, `success` and
/// `!error` hold exactly when the status is 2xx.
pub proof fn lemma_reports_agree_with_status(
    by_key: bool,
    created: Result<(String, i64), UmamurlError>,
    found: Result<(String, i64), UmamurlError>,
    done: Result<(), UmamurlError>,
    site_url: Option<Seq<char>>,
    port: u16,
    slug: Seq<char>,
    flag_a: bool,
    flag_b: bool,
    authorized: Option<bool>,
    password: Seq<char>,
)
    ensures
        add_link_answer(by_key, created, site_url, port).flags_agree(),
        delete_link_answer(by_key, slug, done).flags_agree(),
        edit_link_answer(done).flags_agree(),
        expand_answer(found).flags_agree(),
        umami_saved_answer(flag_a, flag_b).flags_agree(),
        password_stored_answer(flag_a).flags_agree(),
        login_answer(flag_a, authorized).flags_agree(),
        set_password_refusal(flag_a, flag_b, password) matches Some(r) ==> r.flags_agree(),
{
}

/// Where no password is configured at all, anyone may log in.
pub proof fn lemma_no_password_admits_everyone(api_key_configured: bool)
    ensures
        login_admits(None),
        login_answer(api_key_configured, None).status == StatusCode::OK,
{
}

/// Short URLs: under the site URL where one is configured; otherwise under
/// `localhost`, with the port left out for 80 (http) and 443 (https) and
/// written in decimal, readable back, for any other port.
pub proof fn lemma_short_url_shape(site_url: Option<Seq<char>>, port: u16, slug: Seq<char>)
    ensures
        site_url matches Some(url) ==> short_url(site_url, port, slug) == url + "/"@ + slug,
        site_url is None && port == 80 ==> short_url(site_url, port, slug) == "http"@
            + "://localhost"@ + "/"@ + slug,
        site_url is None && port == 443 ==> short_url(site_url, port, slug) == "https"@
            + "://localhost"@ + "/"@ + slug,
        site_url is None && port != 80 && port != 443 ==> short_url(site_url, port, slug) == "http"@
            + "://localhost"@ + ":"@ + decimal(port as nat) + "/"@ + slug,
        decimal_value(decimal(port as nat)) == port,
        all_digits(decimal(port as nat)),
{
    lemma_decimal_round_trip(port as nat);
}

/// Analytics settings from the environment take priority over stored ones,
/// and an empty stored setting counts as unset.
pub proof fn lemma_environment_settings_take_priority(env: Option<Seq<char>>, stored: Option<Seq<char>>)
    ensures
        env matches Some(v) ==> resolve_setting(env, stored) == Some(v),
        env is None ==> (resolve_setting(env, stored) is Some <==> (stored matches Some(s) && s.len()
            > 0)),
{
}

/// A password, once set, cannot be set again through the API: with a
/// password stored (and none in the environment) every request is refused
/// with 403, whatever password it carries; with one in the environment too.
pub proof fn lemma_password_is_set_once(env_password_set: bool, password: Seq<char>)
    ensures
        set_password_refusal(env_password_set, true, password) matches Some(r) && r.status
            == StatusCode::Forbidden,
{
}

/// Setting a password, then logging in with it: the hash that setting the
/// password stores (one that verifies the password, see
/// `set_password_plan`) admits that password once it is in the store and no
/// password is set in the environment.
pub proof fn lemma_set_password_then_log_in(
    stored_hash: Seq<char>,
    password: Seq<char>,
    hashed: bool,
    api_key_configured: bool,
)
    requires
        argon2_verdict(stored_hash, password) == Some(true),
    ensures
        authorization_of(None, hashed, Some(Some(stored_hash)), password) == Authorization::Verdict(
            Some(true),
        ),
        stored_verdict_of(Some(stored_hash), password) == Some(true),
        login_admits(stored_verdict_of(Some(stored_hash), password)),
        login_answer(api_key_configured, stored_verdict_of(Some(stored_hash), password)).status
            == StatusCode::OK,
{
}

/// Where no password is set in the environment, a login attempt that the
/// stored hash does not verify is refused with 401.
pub proof fn lemma_wrong_password_is_refused(
    stored_hash: Seq<char>,
    attempt: Seq<char>,
    hashed: bool,
    api_key_configured: bool,
)
    requires
        argon2_verdict(stored_hash, attempt) != Some(true),
    ensures
        authorization_of(None, hashed, Some(Some(stored_hash)), attempt) == Authorization::Verdict(
            Some(false),
        ),
        !login_admits(stored_verdict_of(Some(stored_hash), attempt)),
        login_answer(api_key_configured, stored_verdict_of(Some(stored_hash), attempt)).status
            == StatusCode::Unauthorized,
{
}

} // verus!
