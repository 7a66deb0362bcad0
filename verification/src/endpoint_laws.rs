//! What each endpoint does, stated over its inputs and results.
use vstd::prelude::*;
use crate::access::{
    role_name, add_link_access, admin_access, expand_access, getconfig_access, legacy_admin_access, role_of,
    GateView, Role,
};
use crate::analytics::{client_ip_of, hostname_of, resolve_setting};
use crate::links::{
    add_link_answer, delete_link_answer, edit_link_answer, expand_answer, short_url,
};
use crate::login::{
    password_stored_answer, argon2_verdict, authorization_of, login_admits, login_answer, set_password_refusal,
    stored_verdict_of, Authorization,
};
use crate::settings::{
    backend_config_of, siteurl_answer, umami_config_of, umami_configured, umami_saved_answer,
};
use crate::text::{
    decimal, lemma_decimal_round_trip, before_comma, is_white_space, lemma_before_comma_prefix, lemma_before_comma_without_comma,
    lemma_trim_keeps_inner_span, strip_prefix, trim,
};
use crate::types::{
    refusal_with, status_reply, text_reply, BodyView, Config, JsonStatusView, StatusCode,
    UmamurlError,
};

verus! {

/// Creating a link without an API key: a valid session creates it as
/// administrator whether or not the instance is public; only a caller
/// without one creates it as a public user, and only on a public instance;
/// a rejected key is handed back with a 401 whatever the session; the
/// session is asked for exactly when neither the key nor a known session
/// decides.
pub proof fn lemma_add_link_who_creates(api: JsonStatusView, session: Option<bool>, public_mode: bool)
    requires
        !api.success,
    ensures
        !api.error && session == Some(true) ==> add_link_access(api, session, public_mode)
            == GateView::BySession,
        !api.error && session == Some(false) && public_mode ==> add_link_access(
            api,
            session,
            public_mode,
        ) == GateView::AsPublic,
        !api.error && session == Some(false) && !public_mode ==> add_link_access(
            api,
            session,
            public_mode,
        ) == GateView::Deny(text_reply(StatusCode::Unauthorized, "Not logged in!"@)),
        api.error ==> add_link_access(api, session, public_mode) == GateView::Deny(refusal_with(api)),
        (add_link_access(api, session, public_mode) == GateView::AskSession) <==> (!api.error
            && session is None),
        add_link_access(api, session, public_mode) == GateView::AsPublic ==> session == Some(false)
            && public_mode,
{
}

/// Listing and deleting: a valid session lets the caller in unless a key was
/// given and rejected, in which case the check is handed back with a 401;
/// without either the caller gets a plain-text 401.
pub proof fn lemma_legacy_admin_access_cases(api: JsonStatusView, session: Option<bool>)
    requires
        !api.success,
    ensures
        api.error ==> legacy_admin_access(api, session) == GateView::Deny(refusal_with(api)),
        !api.error && session == Some(true) ==> legacy_admin_access(api, session)
            == GateView::BySession,
        !api.error && session == Some(false) ==> legacy_admin_access(api, session) == GateView::Deny(
            text_reply(StatusCode::Unauthorized, "Not logged in!"@),
        ),
        !(legacy_admin_access(api, session) is AsPublic),
{
}

/// Editing and the analytics settings: a valid session lets the caller in,
/// even after a rejected key; otherwise the key check is handed back with a
/// 401. Nobody gets in as a public user.
pub proof fn lemma_admin_access_cases(api: JsonStatusView, session: Option<bool>)
    requires
        !api.success,
    ensures
        session == Some(true) ==> admin_access(api, session) == GateView::BySession,
        session == Some(false) ==> admin_access(api, session) == GateView::Deny(refusal_with(api)),
        session is None ==> admin_access(api, session) == GateView::AskSession,
        !(admin_access(api, session) is AsPublic),
{
}

/// Expanding a link needs a valid key, and never looks at a session: without
/// one the key check is handed back with a 401.
pub proof fn lemma_expand_needs_a_key(api: JsonStatusView)
    ensures
        api.success <==> expand_access(api) == GateView::ByKey,
        !api.success ==> expand_access(api) == GateView::Deny(refusal_with(api)),
{
}

/// The configuration: administrators by session, anyone on a public
/// instance, and otherwise the key check handed back with a 401.
pub proof fn lemma_getconfig_access_cases(api: JsonStatusView, session: Option<bool>, public_mode: bool)
    requires
        !api.success,
    ensures
        session == Some(true) ==> getconfig_access(api, session, public_mode) == GateView::BySession,
        session == Some(false) && public_mode ==> getconfig_access(api, session, public_mode)
            == GateView::AsPublic,
        session == Some(false) && !public_mode ==> getconfig_access(api, session, public_mode)
            == GateView::Deny(refusal_with(api)),
{
}

/// Roles: administrator by key or by session, whatever the mode; otherwise
/// public on a public instance and nobody on a private one.
pub proof fn lemma_roles(api_success: bool, session: bool, public_mode: bool)
    ensures
        role_of(api_success, Some(session), public_mode) == Some(Role::Admin) <==> (api_success
            || session),
        role_of(api_success, Some(session), public_mode) == Some(Role::Public) <==> (!api_success
            && !session && public_mode),
        role_of(api_success, Some(session), public_mode) == Some(Role::Nobody) <==> (!api_success
            && !session && !public_mode),
        role_of(api_success, None, public_mode) is None <==> !api_success,
{
}

/// Logging in with a password from the environment: where it is declared an
/// Argon2 hash, the verdict is Argon2's verdict on the attempt (and a string
/// that does not parse as a hash is reported as such); otherwise the attempt
/// must equal it as text. The stored password is not consulted then.
pub proof fn lemma_environment_password_decides(
    p: Seq<char>,
    hashed: bool,
    stored: Option<Option<Seq<char>>>,
    other_stored: Option<Option<Seq<char>>>,
    attempt: Seq<char>,
)
    ensures
        hashed && argon2_verdict(p, attempt) is Some ==> authorization_of(
            Some(p),
            hashed,
            stored,
            attempt,
        ) == Authorization::Verdict(Some(argon2_verdict(p, attempt).unwrap())),
        hashed && argon2_verdict(p, attempt) == Some(true) ==> login_admits(Some(true))
            && authorization_of(Some(p), hashed, stored, attempt) == Authorization::Verdict(
            Some(true),
        ),
        hashed && argon2_verdict(p, attempt) is None ==> authorization_of(
            Some(p),
            hashed,
            stored,
            attempt,
        ) == Authorization::InvalidEnvHash,
        !hashed ==> authorization_of(Some(p), hashed, stored, attempt) == Authorization::Verdict(
            Some(p == attempt),
        ),
        !hashed ==> authorization_of(Some(p), hashed, stored, p) == Authorization::Verdict(Some(true)),
        authorization_of(Some(p), hashed, stored, attempt) == authorization_of(
            Some(p),
            hashed,
            other_stored,
            attempt,
        ),
{
}

/// Logging in without a password in the environment: the store is asked
/// for first; with nothing stored anyone is admitted; with a stored hash the
/// attempt is admitted exactly when Argon2 verifies it against the hash.
pub proof fn lemma_stored_password_decides(hashed: bool, stored: Option<Seq<char>>, attempt: Seq<char>)
    ensures
        authorization_of(None, hashed, None, attempt) == Authorization::AskStore,
        stored is None ==> authorization_of(None, hashed, Some(stored), attempt)
            == Authorization::Verdict(None),
        stored is None ==> login_admits(stored_verdict_of(stored, attempt)),
        stored matches Some(h) ==> (authorization_of(None, hashed, Some(stored), attempt)
            == Authorization::Verdict(Some(argon2_verdict(h, attempt) == Some(true)))),
{
}

/// A login is admitted with 200 "Correct password!", or refused with 401
/// "Wrong password!", exactly as the verdict says; the replies are JSON
/// exactly when an API key is configured.
pub proof fn lemma_login_answers(api_key_configured: bool, authorized: Option<bool>)
    ensures
        login_answer(api_key_configured, authorized).status == StatusCode::OK <==> authorized
            != Some(false),
        login_answer(api_key_configured, authorized).status == StatusCode::Unauthorized
            <==> authorized == Some(false),
        login_answer(api_key_configured, authorized).is_json() == api_key_configured,
        authorized != Some(false) ==> (login_answer(api_key_configured, authorized).body matches BodyView::Status(j)
            ==> j.reason == "Correct password!"@),
        authorized == Some(false) ==> (login_answer(api_key_configured, authorized).body matches BodyView::Text(t)
            ==> t == "Wrong password!"@),
{
}

/// Setting the password: refused with 403 while one is set in the
/// environment or stored, refused with 400 exactly when it is nothing but
/// white space, and otherwise accepted, whatever its length or content.
pub proof fn lemma_set_password_accepts_any_non_blank(env: bool, stored: bool, password: Seq<char>)
    ensures
        env ==> set_password_refusal(env, stored, password) == Some(
            status_reply(StatusCode::Forbidden, "Password is already configured via environment variable."@),
        ),
        !env && stored ==> set_password_refusal(env, stored, password) == Some(
            status_reply(StatusCode::Forbidden, "Password is already configured."@),
        ),
        !env && !stored && (forall|k: int| 0 <= k < password.len() ==> is_white_space(#[trigger] password[k]))
            ==> set_password_refusal(env, stored, password) == Some(
            status_reply(StatusCode::BadRequest, "Password cannot be empty."@),
        ),
        !env && !stored && (exists|k: int| 0 <= k < password.len() && !is_white_space(#[trigger] password[k]))
            ==> set_password_refusal(env, stored, password) is None,
        !env && !stored && trim(password).len() > 0 ==> set_password_refusal(env, stored, password) is None,
{
    lemma_trim_keeps_inner_span(password);
}

/// The visitor's address from `X-Forwarded-For` is its first
/// comma-separated field, trimmed, whatever the peer; a header without a
/// comma yields the whole value trimmed; the field never holds a comma and
/// is all of the header or is followed by one. Without the header the peer
/// address is used, or nothing.
pub proof fn lemma_client_address(v: Seq<char>, peer: Option<Seq<char>>, other_peer: Option<Seq<char>>)
    ensures
        client_ip_of(Some(v), peer) == trim(before_comma(v)),
        client_ip_of(Some(v), peer) == client_ip_of(Some(v), other_peer),
        !v.contains(',') ==> client_ip_of(Some(v), peer) == trim(v),
        !before_comma(v).contains(','),
        v.take(before_comma(v).len() as int) == before_comma(v),
        before_comma(v).len() < v.len() ==> v[before_comma(v).len() as int] == ',',
        peer matches Some(p) ==> client_ip_of(None, peer) == p,
        peer is None ==> client_ip_of(None, peer) == Seq::<char>::empty(),
{
    let k = lemma_before_comma_prefix(v);
    if before_comma(v).contains(',') {
        let m = choose|m: int| 0 <= m < before_comma(v).len() && before_comma(v)[m] == ',';
        assert(v[m] == ',');
    }
    if !v.contains(',') {
        lemma_before_comma_without_comma(v);
    }
}

/// The host name reported to Umami is the site URL without its `https://`
/// or `http://` scheme, or `localhost`.
pub proof fn lemma_hostname(h: Seq<char>, u: Seq<char>)
    ensures
        hostname_of(Some("https://"@ + h)) == h,
        hostname_of(Some("http://"@ + h)) == h,
        !"https://"@.is_prefix_of(u) && !"http://"@.is_prefix_of(u) ==> hostname_of(Some(u))
            == "localhost"@,
        hostname_of(None) == "localhost"@,
{
    reveal_strlit("https://");
    reveal_strlit("http://");
    let s1 = "https://"@ + h;
    assert("https://"@.is_prefix_of(s1)) by {
        assert(s1.subrange(0, 8) =~= "https://"@);
    }
    assert(s1.skip(8) =~= h);
    let s2 = "http://"@ + h;
    assert(!"https://"@.is_prefix_of(s2)) by {
        assert(s2[4] == ':');
        assert("https://"@[4] == 's');
    }
    assert("http://"@.is_prefix_of(s2)) by {
        assert(s2.subrange(0, 7) =~= "http://"@);
    }
    assert(s2.skip(7) =~= h);
}

/// Short links are always the slug under a base: the configured site URL
/// where there is one.
pub proof fn lemma_short_url_ends_with_slug(site_url: Option<Seq<char>>, port: u16, slug: Seq<char>)
    ensures
        short_url(site_url, port, slug).len() >= slug.len() + 1,
        short_url(site_url, port, slug).skip(short_url(site_url, port, slug).len() - slug.len())
            == slug,
        site_url matches Some(u) ==> short_url(site_url, port, slug).take(u.len() as int) == u,
{
    reveal_strlit("/");
    let r = short_url(site_url, port, slug);
    assert(r.skip(r.len() - slug.len()) =~= slug);
    if let Some(u) = site_url {
        assert(r.take(u.len() as int) =~= u);
    }
}

/// What creating a link answers, for each outcome of the store.
pub proof fn lemma_add_link_answers(
    by_key: bool,
    result: Result<(String, i64), UmamurlError>,
    site_url: Option<Seq<char>>,
    port: u16,
)
    ensures
        result is Ok <==> add_link_answer(by_key, result, site_url, port).status == StatusCode::Created,
        result matches Ok((slug, expiry)) ==> (if by_key {
            add_link_answer(by_key, result, site_url, port).body matches BodyView::Created(c) && c.shorturl
                == short_url(site_url, port, slug@) && c.expiry_time == expiry && c.success
                && !c.error
        } else {
            add_link_answer(by_key, result, site_url, port).body == BodyView::Text(slug@)
        }),
        result matches Err(UmamurlError::ServerError) ==> add_link_answer(by_key, result, site_url, port).status
            == StatusCode::InternalServerError,
        result matches Err(UmamurlError::ClientError { reason }) ==> (add_link_answer(
            by_key,
            result,
            site_url,
            port,
        ).status == StatusCode::Conflict && (if by_key {
            add_link_answer(by_key, result, site_url, port).body matches BodyView::Status(j) && j.reason
                == reason@
        } else {
            add_link_answer(by_key, result, site_url, port).body == BodyView::Text(reason@)
        })),
        add_link_answer(by_key, result, site_url, port).is_json() == by_key,
{
}

/// What expanding a link answers: 200 with the store's long URL and expiry,
/// or 400 with the store's reason on a client error.
pub proof fn lemma_expand_answers(result: Result<(String, i64), UmamurlError>)
    ensures
        result is Ok <==> expand_answer(result).status == StatusCode::OK,
        result is Err <==> expand_answer(result).status == StatusCode::BadRequest,
        result matches Ok((longurl, expiry)) ==> (expand_answer(result).body matches BodyView::Link(l)
            && l.longurl == longurl@ && l.expiry_time == expiry),
        result matches Err(UmamurlError::ClientError { reason }) ==> (expand_answer(result).body matches BodyView::Status(
            j,
        ) && j.reason == reason@),
{
}

/// What editing a link answers: 201 on success, 500 on a server error, 400
/// with the store's reason on a client error.
pub proof fn lemma_edit_link_answers(result: Result<(), UmamurlError>)
    ensures
        result is Ok <==> edit_link_answer(result).status == StatusCode::Created,
        result matches Err(UmamurlError::ServerError) ==> edit_link_answer(result).status
            == StatusCode::InternalServerError,
        result matches Err(UmamurlError::ClientError { reason }) ==> edit_link_answer(result)
            == status_reply(StatusCode::BadRequest, reason@),
{
}

/// What deleting a link answers: 200 naming the link where it was deleted;
/// with a key, 500 on a server error and 404 with the store's reason on a
/// client error; without, 404 "Not found!" on any error.
pub proof fn lemma_delete_link_answers(by_key: bool, slug: Seq<char>, result: Result<(), UmamurlError>)
    ensures
        result is Ok <==> delete_link_answer(by_key, slug, result).status == StatusCode::OK,
        result is Ok && by_key ==> delete_link_answer(by_key, slug, result) == status_reply(
            StatusCode::OK,
            "Deleted "@ + slug,
        ),
        result is Ok && !by_key ==> delete_link_answer(by_key, slug, result) == text_reply(
            StatusCode::OK,
            "Deleted "@ + slug,
        ),
        by_key ==> (result matches Err(UmamurlError::ServerError) ==> delete_link_answer(
            by_key,
            slug,
            result,
        ).status == StatusCode::InternalServerError),
        by_key ==> (result matches Err(UmamurlError::ClientError { reason }) ==> delete_link_answer(
            by_key,
            slug,
            result,
        ) == status_reply(StatusCode::NotFound, reason@)),
        !by_key && result is Err ==> delete_link_answer(by_key, slug, result) == text_reply(
            StatusCode::NotFound,
            "Not found!"@,
        ),
        delete_link_answer(by_key, slug, result).is_json() == by_key,
{
}

/// The analytics settings shown in the admin interface: each value from
/// its environment variable where set, else from the store, else empty;
/// `env_configured` exactly when either environment variable is set.
pub proof fn lemma_umami_settings_shown(
    env_url: Option<Seq<char>>,
    env_id: Option<Seq<char>>,
    db_url: Option<Seq<char>>,
    db_id: Option<Seq<char>>,
)
    ensures
        env_url matches Some(u) ==> umami_config_of(env_url, env_id, db_url, db_id).umami_url == u,
        env_url is None ==> (db_url matches Some(u) ==> umami_config_of(
            env_url,
            env_id,
            db_url,
            db_id,
        ).umami_url == u),
        env_url is None && db_url is None ==> umami_config_of(env_url, env_id, db_url, db_id).umami_url
            == Seq::<char>::empty(),
        env_id matches Some(i) ==> umami_config_of(env_url, env_id, db_url, db_id).umami_website_id
            == i,
        env_id is None ==> (db_id matches Some(i) ==> umami_config_of(
            env_url,
            env_id,
            db_url,
            db_id,
        ).umami_website_id == i),
        env_id is None && db_id is None ==> umami_config_of(
            env_url,
            env_id,
            db_url,
            db_id,
        ).umami_website_id == Seq::<char>::empty(),
        umami_config_of(env_url, env_id, db_url, db_id).env_configured <==> (env_url is Some
            || env_id is Some),
{
}

/// Analytics count as configured exactly when the environment sets both
/// values or the store holds both, non-empty.
pub proof fn lemma_umami_configured_cases(
    env_url: Option<Seq<char>>,
    env_id: Option<Seq<char>>,
    db_url: Option<Seq<char>>,
    db_id: Option<Seq<char>>,
)
    ensures
        env_url is Some && env_id is Some ==> umami_configured(env_url, env_id, db_url, db_id),
        (db_url matches Some(u) && u.len() > 0) && (db_id matches Some(i) && i.len() > 0)
            ==> umami_configured(env_url, env_id, db_url, db_id),
        env_url is None && (db_url is None || db_url == Some(Seq::<char>::empty()))
            ==> !umami_configured(env_url, env_id, db_url, db_id),
        env_id is None && (db_id is None || db_id == Some(Seq::<char>::empty()))
            ==> !umami_configured(env_url, env_id, db_url, db_id),
{
}

/// The backend configuration shows the configured values as they are.
pub proof fn lemma_backend_config_copies(
    config: Config,
    version: Seq<char>,
    password_configured: bool,
    db_url: Option<Seq<char>>,
    db_id: Option<Seq<char>>,
)
    ensures
        ({
            let b = backend_config_of(config, version, password_configured, db_url, db_id);
            &&& b.version == version
            &&& b.site_url == config.site_url.deep_view()
            &&& b.allow_capital_letters == config.allow_capital_letters
            &&& b.public_mode == config.public_mode
            &&& b.public_mode_expiry_delay == config.public_mode_expiry_delay
            &&& b.slug_style == config.slug_style@
            &&& b.slug_length == config.slug_length
            &&& b.try_longer_slug == config.try_longer_slug
            &&& b.password_configured == password_configured
            &&& b.umami_configured == umami_configured(
                config.umami_url.deep_view(),
                config.umami_website_id.deep_view(),
                db_url,
                db_id,
            )
        }),
{
}

/// The site URL endpoint answers the configured URL, or "unset", with 200.
pub proof fn lemma_siteurl_answers(site_url: Option<Seq<char>>)
    ensures
        siteurl_answer(site_url).status == StatusCode::OK,
        site_url matches Some(u) ==> siteurl_answer(site_url).body == BodyView::Text(u),
        site_url is None ==> siteurl_answer(site_url).body == BodyView::Text("unset"@),
{
}

/// Saving the analytics settings answers 200 exactly when both writes
/// succeeded.
pub proof fn lemma_umami_saved_answers(url_saved: bool, id_saved: bool)
    ensures
        (umami_saved_answer(url_saved, id_saved).status == StatusCode::OK) == (url_saved && id_saved),
        !(url_saved && id_saved) ==> umami_saved_answer(url_saved, id_saved).status
            == StatusCode::InternalServerError,
{
}

/// Stored analytics settings are used only where the environment does not
/// set them, and only where not empty.
pub proof fn lemma_stored_setting_used_when_env_unset(stored: Seq<char>)
    ensures
        stored.len() > 0 ==> resolve_setting(None, Some(stored)) == Some(stored),
        stored.len() == 0 ==> resolve_setting(None, Some(stored)) is None,
{
}

/// Which replies count as success: 200 and 201, and no other status.
pub proof fn lemma_success_statuses()
    ensures
        StatusCode::OK.is_success(),
        StatusCode::Created.is_success(),
        !StatusCode::BadRequest.is_success(),
        !StatusCode::Unauthorized.is_success(),
        !StatusCode::Forbidden.is_success(),
        !StatusCode::NotFound.is_success(),
        !StatusCode::Conflict.is_success(),
        !StatusCode::InternalServerError.is_success(),
{
}

/// The names by which "who am I" reports each role.
pub proof fn lemma_role_names()
    ensures
        role_name(Role::Admin) == "admin"@,
        role_name(Role::Public) == "public"@,
        role_name(Role::Nobody) == "nobody"@,
{
}

/// Storing a new password answers 200 "Password has been set." where it was
/// stored and 500 where not.
pub proof fn lemma_password_stored_answers(stored: bool)
    ensures
        stored ==> password_stored_answer(stored) == status_reply(StatusCode::OK, "Password has been set."@),
        !stored ==> password_stored_answer(stored) == status_reply(
            StatusCode::InternalServerError,
            "Failed to store password."@,
        ),
{
}

/// The number that a string of decimal digits denotes, read by character
/// code: each digit counts as its code minus that of `0`.
pub open spec fn value_by_code(s: Seq<char>) -> int
    decreases s.len(),
{
    if s.len() == 0 {
        0
    } else {
        value_by_code(s.drop_last()) * 10 + (s.last() as int - '0' as int)
    }
}

/// Decimal rendering writes the standard digits: read back by character
/// codes, the digits give the number again.
pub proof fn lemma_decimal_digits_by_code(n: nat)
    ensures
        value_by_code(decimal(n)) == n,
    decreases n,
{
    lemma_decimal_round_trip(n);
    let d = (n % 10) as nat;
    let c = decimal(n).last();
    assert(c == crate::text::digit_char(d));
    assert(c as int - '0' as int == d);
    if n < 10 {
        assert(decimal(n).drop_last() =~= Seq::<char>::empty());
        assert(value_by_code(Seq::<char>::empty()) == 0);
        assert(d == n);
    } else {
        lemma_decimal_digits_by_code(n / 10);
        assert(decimal(n).drop_last() =~= decimal(n / 10));
        assert(value_by_code(decimal(n)) == value_by_code(decimal(n / 10)) * 10 + d);
        assert(n == (n / 10) * 10 + d);
    }
}

/// Unicode's `White_Space` property, by code point.
pub proof fn lemma_white_space_code_points(c: char)
    ensures
        is_white_space(c) <==> ({
            let v = c as u32;
            ||| 0x9 <= v <= 0xd
            ||| v == 0x20
            ||| v == 0x85
            ||| v == 0xa0
            ||| v == 0x1680
            ||| 0x2000 <= v <= 0x200a
            ||| v == 0x2028
            ||| v == 0x2029
            ||| v == 0x202f
            ||| v == 0x205f
            ||| v == 0x3000
        }),
{
}

} // verus!
