//! The provider's endpoints and the requests that reach them.
use vstd::prelude::*;

verus! {

/// Landing page whose response carries the csrf cookie.
pub const LANDING_URL: &'static str = "https://gmailnator.com/";

/// Generates one address.
pub const GET_EMAIL_URL: &'static str = "https://gmailnator.com/index/indexquery";

/// Generates several addresses at once.
pub const GET_EMAIL_BULK_URL: &'static str = "https://gmailnator.com/bulk-emails";

/// Lists the messages of a mailbox.
pub const GET_INBOX_URL: &'static str = "https://gmailnator.com/mailbox/mailboxquery";

/// Returns a single message.
pub const GET_MESSAGE_URL: &'static str = "https://gmailnator.com/mailbox/get_single_message";

/// The user agent that every request announces.
pub const DEFAULT_USER_AGENT: &'static str = "Mozilla/5.0 (Windows NT 6.4; WOW64) AppleWebKit/537.36 (KHTML, like Gecko) Chrome/41.0.2225.0 Safari/537.36";

/// The content type of every form body.
pub const URL_ENCODED_CONTENT_TYPE: &'static str = "application/x-www-form-urlencoded; charset=UTF-8";

/// The cookie that carries the csrf token, up to its value.
pub const CSRF_COOKIE_PREFIX: &'static str = "csrf_gmailnator_cookie=";

/// The HTTP method of a request.
#[derive(Debug, Copy, Clone, PartialEq, Eq, Structural)]
pub enum HttpMethod {
    /// Reads a page.
    Get,
    /// Sends a form.
    Post,
}

/// The operations that the provider offers.
#[derive(Debug, Copy, Clone, PartialEq, Eq, Structural)]
pub enum GmailnatorEndpoint {
    /// Creates one address.
    GetEmail,
    /// Lists the messages of a mailbox.
    GetInbox,
    /// Returns one message.
    GetMessage,
    /// Creates several addresses.
    GetEmailBulk,
    /// The landing page, whose answer sets the csrf cookie.
    Landing,
}

/// The URL that serves an endpoint.
pub open spec fn endpoint_url(ep: GmailnatorEndpoint) -> Seq<char> {
    match ep {
        GmailnatorEndpoint::GetEmail => GET_EMAIL_URL@,
        GmailnatorEndpoint::GetEmailBulk => GET_EMAIL_BULK_URL@,
        GmailnatorEndpoint::GetInbox => GET_INBOX_URL@,
        GmailnatorEndpoint::GetMessage => GET_MESSAGE_URL@,
        GmailnatorEndpoint::Landing => LANDING_URL@,
    }
}

/// The method that an endpoint is called with.
pub open spec fn endpoint_method(ep: GmailnatorEndpoint) -> HttpMethod {
    match ep {
        GmailnatorEndpoint::Landing => HttpMethod::Get,
        _ => HttpMethod::Post,
    }
}

/// A method and the URL it is sent to.
pub struct GmailnatorRequest {
    method: HttpMethod,
    url: String,
}

/// The headers of a request, as (name, value) pairs, for a given csrf token.
pub open spec fn request_headers(method: HttpMethod, token: Seq<char>) -> Seq<(Seq<char>, Seq<char>)> {
    let common = seq![
        ("Cookie"@, CSRF_COOKIE_PREFIX@ + token + ";"@),
        ("User-Agent"@, DEFAULT_USER_AGENT@),
    ];
    if method == HttpMethod::Post {
        common.push(("Content-Type"@, URL_ENCODED_CONTENT_TYPE@))
    } else {
        common
    }
}

/// A request body ready to be sent to an endpoint.
pub struct PreparedQuery {
    /// Where the body goes.
    pub endpoint: GmailnatorEndpoint,
    /// The form-encoded body.
    pub payload: String,
}

/// The views of a sequence of string pairs.
pub open spec fn pair_views(v: Seq<(String, String)>) -> Seq<(Seq<char>, Seq<char>)> {
    v.map_values(|p: (String, String)| (p.0@, p.1@))
}

impl GmailnatorEndpoint {
    /// The request that reaches this endpoint.
    pub fn to_request(self) -> (r: GmailnatorRequest)
        ensures
            r.method() == endpoint_method(self),
            r.url() == endpoint_url(self),
    {
        match self {
            GmailnatorEndpoint::GetEmail => GmailnatorRequest::from(HttpMethod::Post, GET_EMAIL_URL),
            GmailnatorEndpoint::GetEmailBulk => GmailnatorRequest::from(
                HttpMethod::Post,
                GET_EMAIL_BULK_URL,
            ),
            GmailnatorEndpoint::GetInbox => GmailnatorRequest::from(HttpMethod::Post, GET_INBOX_URL),
            GmailnatorEndpoint::GetMessage => GmailnatorRequest::from(
                HttpMethod::Post,
                GET_MESSAGE_URL,
            ),
            GmailnatorEndpoint::Landing => GmailnatorRequest::from(HttpMethod::Get, LANDING_URL),
        }
    }
}

impl GmailnatorRequest {
    /// The method of this request.
    pub closed spec fn method(&self) -> HttpMethod {
        self.method
    }

    /// The URL of this request.
    pub closed spec fn url(&self) -> Seq<char> {
        self.url@
    }

    /// A request with the given method and URL.
    pub fn from(method: HttpMethod, url: &str) -> (r: Self)
        ensures
            r.method() == method,
            r.url() == url@,
    {
        Self { method, url: String::from_str(url) }
    }

    /// The method of this request.
    pub fn get_method(&self) -> (r: HttpMethod)
        ensures
            r == self.method(),
    {
        self.method
    }

    /// The URL of this request.
    pub fn get_url(&self) -> (r: &str)
        ensures
            r@ == self.url(),
    {
        self.url.as_str()
    }

    /// The headers to send with this request when `token` is the csrf token
    /// (empty when none is held).
    pub fn headers(&self, token: &str) -> (r: Vec<(String, String)>)
        ensures
            pair_views(r@) == request_headers(self.method(), token@),
    {
        let mut r: Vec<(String, String)> = Vec::new();
        let cookie = String::from_str(CSRF_COOKIE_PREFIX).concat(token).concat(";");
        r.push((String::from_str("Cookie"), cookie));
        r.push((String::from_str("User-Agent"), String::from_str(DEFAULT_USER_AGENT)));
        if self.method == HttpMethod::Post {
            r.push((String::from_str("Content-Type"), String::from_str(URL_ENCODED_CONTENT_TYPE)));
        }
        assert(pair_views(r@) =~= request_headers(self.method(), token@));
        r
    }
}

} // verus!
