//! What the link endpoints answer once the link store has done its part.
use vstd::prelude::*;
use crate::text::{concat_str, decimal, decimal_string};
use crate::types::{
    make_status_reply, make_text_reply, status_reply, text_reply, Body, BodyView, CreatedURL,
    CreatedUrlView, LinkInfo, LinkInfoView, Reply, ReplyView, StatusCode, UmamurlError,
};

verus! {

/// The port part of a local URL: nothing for the standard web ports 80 and
/// 443, otherwise a colon and the port in decimal.
pub open spec fn port_suffix(port: u16) -> Seq<char> {
    if port == 80 || port == 443 {
        Seq::empty()
    } else {
        ":"@ + decimal(port as nat)
    }
}

/// The full short URL of `slug`: under the configured site URL where there
/// is one, otherwise under `localhost`, over https on port 443 and over http
/// on any other port.
pub open spec fn short_url(site_url: Option<Seq<char>>, port: u16, slug: Seq<char>) -> Seq<char> {
    match site_url {
        Some(url) => url + "/"@ + slug,
        None => (if port == 443 {
            "https"@
        } else {
            "http"@
        }) + "://localhost"@ + port_suffix(port) + "/"@ + slug,
    }
}

/// Builds the full short URL of `slug` (see [`short_url`]).
pub fn make_short_url(site_url: &Option<String>, port: u16, slug: &str) -> (r: String)
    ensures
        r@ == short_url(site_url.deep_view(), port, slug@),
{
    match site_url {
        Some(url) => {
            let mut s = concat_str(url.as_str(), "/");
            s.append(slug);
            s
        },
        None => {
            let mut s = if port == 443 {
                String::from_str("https")
            } else {
                String::from_str("http")
            };
            s.append("://localhost");
            if !(port == 80 || port == 443) {
                s.append(":");
                let digits = decimal_string(port);
                s.append(digits.as_str());
            }
            s.append("/");
            s.append(slug);
            proof {
                if port == 80 || port == 443 {
                    assert(port_suffix(port) =~= Seq::<char>::empty());
                }
            }
            assert(s@ =~= short_url(site_url.deep_view(), port, slug@));
            s
        },
    }
}

/// What creating a link answers. A caller that used an API key gets JSON:
/// 201 with the full short URL and the expiry time, 500 on a server error,
/// 409 with the reason on a client error. Any other caller gets plain text:
/// the bare slug with 201, or the same failures as text.
pub open spec fn add_link_answer(
    by_key: bool,
    result: Result<(String, i64), UmamurlError>,
    site_url: Option<Seq<char>>,
    port: u16,
) -> ReplyView {
    match result {
        Ok((slug, expiry_time)) => if by_key {
            ReplyView {
                status: StatusCode::Created,
                body: BodyView::Created(
                    CreatedUrlView {
                        success: true,
                        error: false,
                        shorturl: short_url(site_url, port, slug@),
                        expiry_time,
                    },
                ),
            }
        } else {
            text_reply(StatusCode::Created, slug@)
        },
        Err(UmamurlError::ServerError) => if by_key {
            status_reply(StatusCode::InternalServerError, "Something went wrong when adding the link."@)
        } else {
            text_reply(StatusCode::InternalServerError, "Something went wrong when adding the link."@)
        },
        Err(UmamurlError::ClientError { reason }) => if by_key {
            status_reply(StatusCode::Conflict, reason@)
        } else {
            text_reply(StatusCode::Conflict, reason@)
        },
    }
}

/// Answers a link creation (see [`add_link_answer`]).
pub fn add_link_reply(
    by_key: bool,
    result: Result<(String, i64), UmamurlError>,
    site_url: &Option<String>,
    port: u16,
) -> (r: Reply)
    ensures
        r@ == add_link_answer(by_key, result, site_url.deep_view(), port),
{
    match result {
        Ok((slug, expiry_time)) => if by_key {
            let shorturl = make_short_url(site_url, port, slug.as_str());
            Reply {
                status: StatusCode::Created,
                body: Body::Created(CreatedURL { success: true, error: false, shorturl, expiry_time }),
            }
        } else {
            make_text_reply(StatusCode::Created, slug)
        },
        Err(UmamurlError::ServerError) => {
            let reason = String::from_str("Something went wrong when adding the link.");
            if by_key {
                make_status_reply(StatusCode::InternalServerError, reason)
            } else {
                make_text_reply(StatusCode::InternalServerError, reason)
            }
        },
        Err(UmamurlError::ClientError { reason }) => if by_key {
            make_status_reply(StatusCode::Conflict, reason)
        } else {
            make_text_reply(StatusCode::Conflict, reason)
        },
    }
}

/// The listing of all links, as the link store wrote it, with status 200.
pub fn getall_reply(listing: String) -> (r: Reply)
    ensures
        r@ == text_reply(StatusCode::OK, listing@),
{
    make_text_reply(StatusCode::OK, listing)
}

/// What expanding a link answers: 200 with the long URL and the expiry time,
/// or 400 with the reason the lookup failed.
pub open spec fn expand_answer(result: Result<(String, i64), UmamurlError>) -> ReplyView {
    match result {
        Ok((longurl, expiry_time)) => ReplyView {
            status: StatusCode::OK,
            body: BodyView::Link(
                LinkInfoView { success: true, error: false, longurl: longurl@, expiry_time },
            ),
        },
        Err(UmamurlError::ServerError) => status_reply(
            StatusCode::BadRequest,
            "Something went wrong when finding the link."@,
        ),
        Err(UmamurlError::ClientError { reason }) => status_reply(StatusCode::BadRequest, reason@),
    }
}

/// Answers a link lookup (see [`expand_answer`]).
pub fn expand_reply(result: Result<(String, i64), UmamurlError>) -> (r: Reply)
    ensures
        r@ == expand_answer(result),
{
    match result {
        Ok((longurl, expiry_time)) => Reply {
            status: StatusCode::OK,
            body: Body::Link(LinkInfo { success: true, error: false, longurl, expiry_time }),
        },
        Err(UmamurlError::ServerError) => make_status_reply(
            StatusCode::BadRequest,
            String::from_str("Something went wrong when finding the link."),
        ),
        Err(UmamurlError::ClientError { reason }) => make_status_reply(StatusCode::BadRequest, reason),
    }
}

/// What editing a link answers: 201 on success, 500 on a server error, 400
/// with the reason on a client error.
pub open spec fn edit_link_answer(result: Result<(), UmamurlError>) -> ReplyView {
    match result {
        Ok(()) => status_reply(StatusCode::Created, "Edit was successful."@),
        Err(UmamurlError::ServerError) => status_reply(
            StatusCode::InternalServerError,
            "Something went wrong when editing the link."@,
        ),
        Err(UmamurlError::ClientError { reason }) => status_reply(StatusCode::BadRequest, reason@),
    }
}

/// Answers a link edit (see [`edit_link_answer`]).
pub fn edit_link_reply(result: Result<(), UmamurlError>) -> (r: Reply)
    ensures
        r@ == edit_link_answer(result),
{
    match result {
        Ok(()) => make_status_reply(StatusCode::Created, String::from_str("Edit was successful.")),
        Err(UmamurlError::ServerError) => make_status_reply(
            StatusCode::InternalServerError,
            String::from_str("Something went wrong when editing the link."),
        ),
        Err(UmamurlError::ClientError { reason }) => make_status_reply(StatusCode::BadRequest, reason),
    }
}

/// What deleting a link answers. With an API key, JSON: 200 naming the
/// deleted link, 500 on a server error, 404 with the reason on a client error.
/// Otherwise plain text: 200 naming the deleted link, or 404 "Not found!".
pub open spec fn delete_link_answer(
    by_key: bool,
    slug: Seq<char>,
    result: Result<(), UmamurlError>,
) -> ReplyView {
    if by_key {
        match result {
            Ok(()) => status_reply(StatusCode::OK, "Deleted "@ + slug),
            Err(UmamurlError::ServerError) => status_reply(
                StatusCode::InternalServerError,
                "Something went wrong when deleting the link."@,
            ),
            Err(UmamurlError::ClientError { reason }) => status_reply(StatusCode::NotFound, reason@),
        }
    } else {
        match result {
            Ok(()) => text_reply(StatusCode::OK, "Deleted "@ + slug),
            Err(_) => text_reply(StatusCode::NotFound, "Not found!"@),
        }
    }
}

/// Answers a link deletion (see [`delete_link_answer`]).
pub fn delete_link_reply(by_key: bool, slug: &str, result: Result<(), UmamurlError>) -> (r: Reply)
    ensures
        r@ == delete_link_answer(by_key, slug@, result),
{
    if by_key {
        match result {
            Ok(()) => make_status_reply(StatusCode::OK, concat_str("Deleted ", slug)),
            Err(UmamurlError::ServerError) => make_status_reply(
                StatusCode::InternalServerError,
                String::from_str("Something went wrong when deleting the link."),
            ),
            Err(UmamurlError::ClientError { reason }) => make_status_reply(
                StatusCode::NotFound,
                reason,
            ),
        }
    } else {
        match result {
            Ok(()) => make_text_reply(StatusCode::OK, concat_str("Deleted ", slug)),
            Err(_) => make_text_reply(StatusCode::NotFound, String::from_str("Not found!")),
        }
    }
}

/// Where a visit to a short link goes.
pub enum Visit {
    /// Redirect to the long URL, permanently (308) or temporarily (307).
    Redirect { to: String, permanent: bool },
    /// Serve the "not found" page with status 404.
    NotFound,
}

/// Decides where a visit goes: to the long URL the store found, by a
/// permanent redirect unless temporary redirects are configured; to the 404
/// page where the store found nothing.
pub fn visit(found: Option<String>, use_temp_redirect: bool) -> (v: Visit)
    ensures
        found is None ==> v is NotFound,
        found matches Some(url) ==> (v matches Visit::Redirect { to, permanent } && to@ == url@
            && permanent == !use_temp_redirect),
{
    match found {
        Some(to) => Visit::Redirect { to, permanent: !use_temp_redirect },
        None => Visit::NotFound,
    }
}

} // verus!
