//! Who may use which endpoint.
//!
//! A caller is an administrator when its API key checks out or, failing that,
//! when its session is valid. The session is consulted only when the key does
//! not already decide, so each decision is a step: given what is known so far
//! (the API check, and the session's validity once it has been looked at), it
//! either decides or asks for the session.
use vstd::prelude::*;
use crate::types::{
    make_refusal, make_text_reply, refusal_with, text_reply, JSONResponse, JsonStatusView, Reply,
    ReplyView, StatusCode,
};

verus! {

/// The outcome of an access decision.
pub enum Gate {
    /// Go ahead: the caller is an administrator by API key.
    ByKey,
    /// Go ahead: the caller is an administrator by session.
    BySession,
    /// Go ahead: the caller is an anonymous user of a public instance.
    AsPublic,
    /// Answer with this reply and do nothing else.
    Deny(Reply),
    /// Look at the session and decide again with its validity.
    AskSession,
}

pub enum GateView {
    ByKey,
    BySession,
    AsPublic,
    Deny(ReplyView),
    AskSession,
}

impl View for Gate {
    type V = GateView;

    open spec fn view(&self) -> GateView {
        match self {
            Gate::ByKey => GateView::ByKey,
            Gate::BySession => GateView::BySession,
            Gate::AsPublic => GateView::AsPublic,
            Gate::Deny(r) => GateView::Deny(r@),
            Gate::AskSession => GateView::AskSession,
        }
    }
}

impl GateView {
    /// The caller may go ahead.
    pub open spec fn grants(self) -> bool {
        self is ByKey || self is BySession || self is AsPublic
    }
}

/// The text with which a caller without credentials is turned away.
pub open spec fn not_logged_in() -> Seq<char> {
    "Not logged in!"@
}

/// Creating a link: by API key; a rejected key is refused; otherwise by
/// session, or anonymously on a public instance.
pub open spec fn add_link_access(api: JsonStatusView, session: Option<bool>, public_mode: bool) -> GateView {
    if api.success {
        GateView::ByKey
    } else if api.error {
        GateView::Deny(refusal_with(api))
    } else {
        match session {
            None => GateView::AskSession,
            Some(true) => GateView::BySession,
            Some(false) => if public_mode {
                GateView::AsPublic
            } else {
                GateView::Deny(text_reply(StatusCode::Unauthorized, not_logged_in()))
            },
        }
    }
}

/// Listing and deleting links: by API key; a rejected key is refused;
/// otherwise by session, refused in plain text without one.
pub open spec fn legacy_admin_access(api: JsonStatusView, session: Option<bool>) -> GateView {
    if api.success {
        GateView::ByKey
    } else if api.error {
        GateView::Deny(refusal_with(api))
    } else {
        match session {
            None => GateView::AskSession,
            Some(true) => GateView::BySession,
            Some(false) => GateView::Deny(text_reply(StatusCode::Unauthorized, not_logged_in())),
        }
    }
}

/// Editing a link and reading or writing the analytics settings: by API key
/// or by session; otherwise the API check is handed back with a 401.
pub open spec fn admin_access(api: JsonStatusView, session: Option<bool>) -> GateView {
    if api.success {
        GateView::ByKey
    } else {
        match session {
            None => GateView::AskSession,
            Some(true) => GateView::BySession,
            Some(false) => GateView::Deny(refusal_with(api)),
        }
    }
}

/// Expanding a link: by API key only.
pub open spec fn expand_access(api: JsonStatusView) -> GateView {
    if api.success {
        GateView::ByKey
    } else {
        GateView::Deny(refusal_with(api))
    }
}

/// Reading the backend configuration: administrators, and anyone on a public
/// instance.
pub open spec fn getconfig_access(api: JsonStatusView, session: Option<bool>, public_mode: bool) -> GateView {
    if api.success {
        GateView::ByKey
    } else {
        match session {
            None => GateView::AskSession,
            Some(true) => GateView::BySession,
            Some(false) => if public_mode {
                GateView::AsPublic
            } else {
                GateView::Deny(refusal_with(api))
            },
        }
    }
}

/// Decides who may create a link (see [`add_link_access`]).
pub fn add_link_gate(api: JSONResponse, session: Option<bool>, public_mode: bool) -> (g: Gate)
    ensures
        g@ == add_link_access(api@, session, public_mode),
{
    if api.success {
        Gate::ByKey
    } else if api.error {
        Gate::Deny(make_refusal(api))
    } else {
        match session {
            None => Gate::AskSession,
            Some(true) => Gate::BySession,
            Some(false) => if public_mode {
                Gate::AsPublic
            } else {
                Gate::Deny(make_text_reply(StatusCode::Unauthorized, String::from_str("Not logged in!")))
            },
        }
    }
}

/// Decides who may list or delete links (see [`legacy_admin_access`]).
pub fn legacy_admin_gate(api: JSONResponse, session: Option<bool>) -> (g: Gate)
    ensures
        g@ == legacy_admin_access(api@, session),
{
    if api.success {
        Gate::ByKey
    } else if api.error {
        Gate::Deny(make_refusal(api))
    } else {
        match session {
            None => Gate::AskSession,
            Some(true) => Gate::BySession,
            Some(false) => Gate::Deny(
                make_text_reply(StatusCode::Unauthorized, String::from_str("Not logged in!")),
            ),
        }
    }
}

/// Decides who may edit links and manage the analytics settings (see
/// [`admin_access`]).
pub fn admin_gate(api: JSONResponse, session: Option<bool>) -> (g: Gate)
    ensures
        g@ == admin_access(api@, session),
{
    if api.success {
        Gate::ByKey
    } else {
        match session {
            None => Gate::AskSession,
            Some(true) => Gate::BySession,
            Some(false) => Gate::Deny(make_refusal(api)),
        }
    }
}

/// Decides who may expand a link (see [`expand_access`]).
pub fn expand_gate(api: JSONResponse) -> (g: Gate)
    ensures
        g@ == expand_access(api@),
{
    if api.success {
        Gate::ByKey
    } else {
        Gate::Deny(make_refusal(api))
    }
}

/// Decides who may read the backend configuration (see [`getconfig_access`]).
pub fn getconfig_gate(api: JSONResponse, session: Option<bool>, public_mode: bool) -> (g: Gate)
    ensures
        g@ == getconfig_access(api@, session, public_mode),
{
    if api.success {
        Gate::ByKey
    } else {
        match session {
            None => Gate::AskSession,
            Some(true) => Gate::BySession,
            Some(false) => if public_mode {
                Gate::AsPublic
            } else {
                Gate::Deny(make_refusal(api))
            },
        }
    }
}

/// The role a caller plays.
#[derive(Clone, Copy, PartialEq, Eq, Structural, Debug)]
pub enum Role {
    Admin,
    Public,
    Nobody,
}

/// The caller's role, or `None` while the session still has to be looked at.
pub open spec fn role_of(api_success: bool, session: Option<bool>, public_mode: bool) -> Option<Role> {
    if api_success {
        Some(Role::Admin)
    } else {
        match session {
            None => None,
            Some(true) => Some(Role::Admin),
            Some(false) => if public_mode {
                Some(Role::Public)
            } else {
                Some(Role::Nobody)
            },
        }
    }
}

/// Decides the caller's role (see [`role_of`]).
pub fn whoami_role(api_success: bool, session: Option<bool>, public_mode: bool) -> (r: Option<Role>)
    ensures
        r == role_of(api_success, session, public_mode),
{
    if api_success {
        Some(Role::Admin)
    } else {
        match session {
            None => None,
            Some(true) => Some(Role::Admin),
            Some(false) => if public_mode {
                Some(Role::Public)
            } else {
                Some(Role::Nobody)
            },
        }
    }
}

/// The name by which a role is reported.
pub open spec fn role_name(role: Role) -> Seq<char> {
    match role {
        Role::Admin => "admin"@,
        Role::Public => "public"@,
        Role::Nobody => "nobody"@,
    }
}

/// The answer to "who am I": the role's name, with status 200.
pub fn whoami_reply(role: Role) -> (r: Reply)
    ensures
        r@ == text_reply(StatusCode::OK, role_name(role)),
{
    let name = match role {
        Role::Admin => "admin",
        Role::Public => "public",
        Role::Nobody => "nobody",
    };
    make_text_reply(StatusCode::OK, String::from_str(name))
}

} // verus!
