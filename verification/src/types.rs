use vstd::prelude::*;

verus! {

/// How an operation on the link store can fail.
pub enum UmamurlError {
    /// Something went wrong on the server side (database, I/O).
    ServerError,
    /// The request itself was at fault; `reason` says why.
    ClientError { reason: String },
}

/// The mathematical value of an [`UmamurlError`].
pub enum UmamurlErrorView {
    ServerError,
    ClientError { reason: Seq<char> },
}

impl View for UmamurlError {
    type V = UmamurlErrorView;

    open spec fn view(&self) -> UmamurlErrorView {
        match self {
            UmamurlError::ServerError => UmamurlErrorView::ServerError,
            UmamurlError::ClientError { reason } => UmamurlErrorView::ClientError {
                reason: reason@,
            },
        }
    }
}

/// The JSON object by which the API reports success or failure.
pub struct JSONResponse {
    pub success: bool,
    pub error: bool,
    pub reason: String,
}

/// The mathematical value of a [`JSONResponse`].
pub struct JsonStatusView {
    pub success: bool,
    pub error: bool,
    pub reason: Seq<char>,
}

impl View for JSONResponse {
    type V = JsonStatusView;

    open spec fn view(&self) -> JsonStatusView {
        JsonStatusView { success: self.success, error: self.error, reason: self.reason@ }
    }
}

/// Query parameters of the listing endpoint.
pub struct GetReqParams {
    pub page_after: Option<String>,
    pub page_no: Option<i64>,
    pub page_size: Option<i64>,
}

/// The settings of the running instance that the request handlers consult.
pub struct Config {
    pub site_url: Option<String>,
    pub port: u16,
    pub public_mode: bool,
    pub public_mode_expiry_delay: i64,
    pub allow_capital_letters: bool,
    pub slug_style: String,
    pub slug_length: usize,
    pub try_longer_slug: bool,
    pub use_temp_redirect: bool,
    pub password: Option<String>,
    pub hash_algorithm: Option<String>,
    pub api_key: Option<String>,
    pub umami_url: Option<String>,
    pub umami_website_id: Option<String>,
}

/// The HTTP status of a reply.
#[derive(Clone, Copy, PartialEq, Eq, Structural, Debug)]
pub enum StatusCode {
    OK,
    Created,
    BadRequest,
    Unauthorized,
    Forbidden,
    NotFound,
    Conflict,
    InternalServerError,
}

impl StatusCode {
    /// Whether the status is in the 2xx range.
    pub open spec fn is_success(self) -> bool {
        self == StatusCode::OK || self == StatusCode::Created
    }
}

/// The answer to a link creation made with an API key.
pub struct CreatedURL {
    pub success: bool,
    pub error: bool,
    pub shorturl: String,
    pub expiry_time: i64,
}

pub struct CreatedUrlView {
    pub success: bool,
    pub error: bool,
    pub shorturl: Seq<char>,
    pub expiry_time: i64,
}

impl View for CreatedURL {
    type V = CreatedUrlView;

    open spec fn view(&self) -> CreatedUrlView {
        CreatedUrlView {
            success: self.success,
            error: self.error,
            shorturl: self.shorturl@,
            expiry_time: self.expiry_time,
        }
    }
}

/// What the expand endpoint tells about one short link.
pub struct LinkInfo {
    pub success: bool,
    pub error: bool,
    pub longurl: String,
    pub expiry_time: i64,
}

pub struct LinkInfoView {
    pub success: bool,
    pub error: bool,
    pub longurl: Seq<char>,
    pub expiry_time: i64,
}

impl View for LinkInfo {
    type V = LinkInfoView;

    open spec fn view(&self) -> LinkInfoView {
        LinkInfoView {
            success: self.success,
            error: self.error,
            longurl: self.longurl@,
            expiry_time: self.expiry_time,
        }
    }
}

/// The part of the configuration that the front end may read.
pub struct BackendConfig {
    pub version: String,
    pub site_url: Option<String>,
    pub allow_capital_letters: bool,
    pub public_mode: bool,
    pub public_mode_expiry_delay: i64,
    pub slug_style: String,
    pub slug_length: usize,
    pub try_longer_slug: bool,
    pub password_configured: bool,
    pub umami_configured: bool,
}

pub struct BackendConfigView {
    pub version: Seq<char>,
    pub site_url: Option<Seq<char>>,
    pub allow_capital_letters: bool,
    pub public_mode: bool,
    pub public_mode_expiry_delay: i64,
    pub slug_style: Seq<char>,
    pub slug_length: usize,
    pub try_longer_slug: bool,
    pub password_configured: bool,
    pub umami_configured: bool,
}

impl View for BackendConfig {
    type V = BackendConfigView;

    open spec fn view(&self) -> BackendConfigView {
        BackendConfigView {
            version: self.version@,
            site_url: self.site_url.deep_view(),
            allow_capital_letters: self.allow_capital_letters,
            public_mode: self.public_mode,
            public_mode_expiry_delay: self.public_mode_expiry_delay,
            slug_style: self.slug_style@,
            slug_length: self.slug_length,
            try_longer_slug: self.try_longer_slug,
            password_configured: self.password_configured,
            umami_configured: self.umami_configured,
        }
    }
}

/// The Umami analytics settings as the admin interface shows them.
pub struct UmamiConfig {
    pub umami_url: String,
    pub umami_website_id: String,
    pub env_configured: bool,
}

pub struct UmamiConfigView {
    pub umami_url: Seq<char>,
    pub umami_website_id: Seq<char>,
    pub env_configured: bool,
}

impl View for UmamiConfig {
    type V = UmamiConfigView;

    open spec fn view(&self) -> UmamiConfigView {
        UmamiConfigView {
            umami_url: self.umami_url@,
            umami_website_id: self.umami_website_id@,
            env_configured: self.env_configured,
        }
    }
}

/// The body of a reply.
pub enum Body {
    /// A plain text body.
    Text(String),
    /// A JSON success/failure report.
    Status(JSONResponse),
    /// A JSON report of a created link.
    Created(CreatedURL),
    /// A JSON description of a link.
    Link(LinkInfo),
    /// The JSON backend configuration.
    Config(BackendConfig),
    /// The JSON Umami settings.
    Umami(UmamiConfig),
}

pub enum BodyView {
    Text(Seq<char>),
    Status(JsonStatusView),
    Created(CreatedUrlView),
    Link(LinkInfoView),
    Config(BackendConfigView),
    Umami(UmamiConfigView),
}

impl View for Body {
    type V = BodyView;

    open spec fn view(&self) -> BodyView {
        match self {
            Body::Text(t) => BodyView::Text(t@),
            Body::Status(j) => BodyView::Status(j@),
            Body::Created(c) => BodyView::Created(c@),
            Body::Link(l) => BodyView::Link(l@),
            Body::Config(c) => BodyView::Config(c@),
            Body::Umami(u) => BodyView::Umami(u@),
        }
    }
}

/// A complete HTTP reply: a status and a body.
pub struct Reply {
    pub status: StatusCode,
    pub body: Body,
}

pub struct ReplyView {
    pub status: StatusCode,
    pub body: BodyView,
}

impl View for Reply {
    type V = ReplyView;

    open spec fn view(&self) -> ReplyView {
        ReplyView { status: self.status, body: self.body@ }
    }
}

impl ReplyView {
    /// The body is JSON, not plain text.
    pub open spec fn is_json(self) -> bool {
        !(self.body is Text)
    }

    /// A JSON success/failure report, where there is one, agrees with the status:
    /// `success` and `!error` exactly when the status is 2xx.
    pub open spec fn flags_agree(self) -> bool {
        match self.body {
            BodyView::Status(j) => j.success == self.status.is_success() && j.error
                == !self.status.is_success(),
            BodyView::Created(c) => c.success && !c.error && self.status.is_success(),
            BodyView::Link(l) => l.success && !l.error && self.status.is_success(),
            _ => true,
        }
    }
}

/// A reply with a plain text body.
pub open spec fn text_reply(status: StatusCode, text: Seq<char>) -> ReplyView {
    ReplyView { status, body: BodyView::Text(text) }
}

/// A reply with a JSON success/failure report that agrees with `status`.
pub open spec fn status_reply(status: StatusCode, reason: Seq<char>) -> ReplyView {
    ReplyView {
        status,
        body: BodyView::Status(
            JsonStatusView {
                success: status.is_success(),
                error: !status.is_success(),
                reason,
            },
        ),
    }
}

/// A 401 reply that hands the caller's own API check back to it as JSON.
pub open spec fn refusal_with(api: JsonStatusView) -> ReplyView {
    ReplyView { status: StatusCode::Unauthorized, body: BodyView::Status(api) }
}

/// Builds a reply with a plain text body.
pub fn make_text_reply(status: StatusCode, text: String) -> (r: Reply)
    ensures
        r@ == text_reply(status, text@),
{
    Reply { status, body: Body::Text(text) }
}

/// Builds a reply with a JSON report whose flags agree with `status`.
pub fn make_status_reply(status: StatusCode, reason: String) -> (r: Reply)
    ensures
        r@ == status_reply(status, reason@),
{
    let ok = status == StatusCode::OK || status == StatusCode::Created;
    Reply { status, body: Body::Status(JSONResponse { success: ok, error: !ok, reason }) }
}

/// Builds the 401 reply that hands the caller's API check back to it.
pub fn make_refusal(api: JSONResponse) -> (r: Reply)
    ensures
        r@ == refusal_with(api@),
{
    Reply { status: StatusCode::Unauthorized, body: Body::Status(api) }
}

} // verus!
