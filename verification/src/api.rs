//! The service API, as far as it needs no network: addresses, the
//! authorization header, and what a response means.

use vstd::prelude::*;
use vstd::string::*;
use crate::json::{get_member, lookup, parse_members, parsed_members, text_of, JsonScalar};
use crate::text::{concat, from_chars, slice_chars, to_chars, trim_chars, trimmed};

verus! {

pub const KEYS_PUBLIC_PATH: &'static str = "/api/keys/public";

pub const AUTH_PATH: &'static str = "/api/auth";

pub const AUTH_EXCHANGE_PATH: &'static str = "/api/auth/exchange";

/// The public key of the service.
#[derive(Debug, Clone, PartialEq, Eq)]
pub struct ApiPublicKey {
    pub fingerprint: String,
    pub armored_public_key: String,
    pub created_at: Option<String>,
    pub rotated_at: Option<String>,
    pub version: Option<String>,
}

/// What the service gives for a login code.
#[derive(Debug, Clone, PartialEq, Eq)]
pub struct ExchangeCodeResponse {
    pub token: String,
    pub login: Option<String>,
    pub expires_at: Option<String>,
}

/// Why a call of the service failed.
#[derive(Debug, PartialEq, Eq)]
pub enum ApiError {
    /// No token is at hand, or the service did not accept it.
    NotAuthenticated,
    BadRequest(String),
    NotFound(String),
    ServerError(String),
    /// Any other status, with its text and the body of the response.
    Unexpected { status: String, body: String },
}

pub enum ApiErrorView {
    NotAuthenticated,
    BadRequest(Seq<char>),
    NotFound(Seq<char>),
    ServerError(Seq<char>),
    Unexpected { status: Seq<char>, body: Seq<char> },
}

impl DeepView for ApiError {
    type V = ApiErrorView;

    open spec fn deep_view(&self) -> ApiErrorView {
        match self {
            ApiError::NotAuthenticated => ApiErrorView::NotAuthenticated,
            ApiError::BadRequest(d) => ApiErrorView::BadRequest(d@),
            ApiError::NotFound(d) => ApiErrorView::NotFound(d@),
            ApiError::ServerError(d) => ApiErrorView::ServerError(d@),
            ApiError::Unexpected { status, body } => ApiErrorView::Unexpected {
                status: status@,
                body: body@,
            },
        }
    }
}

/// The line that tells the user of an error.
pub open spec fn error_message(error: ApiErrorView) -> Seq<char> {
    match error {
        ApiErrorView::NotAuthenticated => "Not authenticated. Run `cadence auth login` to sign in."@,
        ApiErrorView::BadRequest(d) => "Bad request: "@ + d,
        ApiErrorView::NotFound(d) => "Not found: "@ + d,
        ApiErrorView::ServerError(d) => "Server error: "@ + d,
        ApiErrorView::Unexpected { status, body } => "Unexpected response (HTTP "@ + status
            + "): "@ + body,
    }
}

impl ApiError {
    pub fn message(&self) -> (r: String)
        ensures
            r@ == error_message(self.deep_view()),
    {
        match self {
            ApiError::NotAuthenticated => "Not authenticated. Run `cadence auth login` to sign in.".to_owned(),
            ApiError::BadRequest(d) => concat("Bad request: ", d.as_str()),
            ApiError::NotFound(d) => concat("Not found: ", d.as_str()),
            ApiError::ServerError(d) => concat("Server error: ", d.as_str()),
            ApiError::Unexpected { status, body } => {
                let mut s = "Unexpected response (HTTP ".to_owned();
                s.append(status.as_str());
                s.append("): ");
                s.append(body.as_str());
                s
            },
        }
    }
}

/// `s` without the slashes at its end.
pub open spec fn without_trailing_slashes(s: Seq<char>) -> Seq<char>
    decreases s.len(),
{
    if s.len() > 0 && s.last() == '/' {
        without_trailing_slashes(s.drop_last())
    } else {
        s
    }
}

/// The base address in the form in which paths are joined to it: trimmed,
/// and without a slash at its end.
pub open spec fn normalized_base_url(base_url: Seq<char>) -> Seq<char> {
    without_trailing_slashes(trimmed(base_url))
}

/// Where the service is, and the token to speak to it with.
#[derive(Debug, PartialEq, Eq)]
pub struct ApiClient {
    pub base_url: String,
    pub token: Option<String>,
}

impl ApiClient {
    /// A client for the service at `base_url`. Only the exchange of a login
    /// code needs no token.
    pub fn new(base_url: &str, token: Option<String>) -> (r: ApiClient)
        ensures
            r.base_url@ == normalized_base_url(base_url@),
            r.token == token,
    {
        let t = trim_chars(&to_chars(base_url));
        let mut end: usize = t.len();
        proof {
            assert(t@.subrange(0, end as int) =~= t@);
        }
        while end > 0 && t[end - 1] == '/'
            invariant
                end <= t.len(),
                without_trailing_slashes(t@) == without_trailing_slashes(
                    t@.subrange(0, end as int),
                ),
            decreases end,
        {
            proof {
                assert(t@.subrange(0, end as int).drop_last() =~= t@.subrange(0, end - 1));
            }
            end -= 1;
        }
        ApiClient { base_url: from_chars(&slice_chars(&t, 0, end)), token }
    }

    /// The address of an endpoint.
    pub fn url(&self, path: &str) -> (r: String)
        ensures
            r@ == self.base_url@ + path@,
    {
        concat(self.base_url.as_str(), path)
    }

    /// The value of the authorization header; an error where no token is
    /// at hand.
    pub fn authorization(&self) -> (r: Result<String, ApiError>)
        ensures
            match self.token {
                Some(token) => r matches Ok(value) && value@ == "Bearer "@ + token@,
                None => r matches Err(ApiError::NotAuthenticated),
            },
    {
        match &self.token {
            Some(token) => Ok(concat("Bearer ", token.as_str())),
            None => Err(ApiError::NotAuthenticated),
        }
    }
}

/// The first `limit` characters of `s`, followed by three dots where
/// something was cut off.
pub open spec fn shortened(s: Seq<char>, limit: int) -> Seq<char> {
    if s.len() > limit {
        s.take(limit) + "..."@
    } else {
        s
    }
}

/// What an error body tells: the text of its member `message` or, where it
/// has none, of its member `error`; else the body itself, trimmed and cut
/// to 200 characters.
pub open spec fn error_detail(body: Seq<char>) -> Seq<char> {
    let named: Option<Seq<char>> = match parsed_members(body) {
        Some(members) => match lookup(members, "message"@) {
            Some(m) => text_of(Some(m)),
            None => text_of(lookup(members, "error"@)),
        },
        None => None,
    };
    match named {
        Some(text) => text,
        None => if body.len() == 0 {
            "no details provided"@
        } else {
            shortened(trimmed(body), 200)
        },
    }
}

pub fn extract_error_message(body: &str) -> (r: String)
    ensures
        r@ == error_detail(body@),
{
    let named: Option<String> = match parse_members(body) {
        Some(members) => {
            let value = match get_member(&members, "message") {
                Some(m) => Some(m),
                None => get_member(&members, "error"),
            };
            match value {
                Some(JsonScalar::Text(s)) => Some(s.clone()),
                _ => None,
            }
        },
        None => None,
    };
    match named {
        Some(text) => text,
        None => {
            let chars = to_chars(body);
            if chars.len() == 0 {
                "no details provided".to_owned()
            } else {
                let t = trim_chars(&chars);
                if t.len() > 200 {
                    let mut s = from_chars(&slice_chars(&t, 0, 200));
                    s.append("...");
                    s
                } else {
                    from_chars(&t)
                }
            }
        },
    }
}

/// What a response means: its body where the status says success, else
/// the error that the status stands for.
pub open spec fn response_meaning(status: u16, status_text: Seq<char>, body: Seq<char>) -> Result<
    Seq<char>,
    ApiErrorView,
> {
    if 200 <= status < 300 {
        Ok(body)
    } else if status == 401 {
        Err(ApiErrorView::NotAuthenticated)
    } else if status == 400 {
        Err(ApiErrorView::BadRequest(error_detail(body)))
    } else if status == 404 {
        Err(ApiErrorView::NotFound(error_detail(body)))
    } else if 500 <= status <= 599 {
        Err(ApiErrorView::ServerError(error_detail(body)))
    } else {
        Err(ApiErrorView::Unexpected { status: status_text, body })
    }
}

/// Reads a response by its status. `status_text` is the status as it is
/// shown to the user.
pub fn map_http_error(status: u16, status_text: &str, body: &str) -> (r: Result<String, ApiError>)
    ensures
        match response_meaning(status, status_text@, body@) {
            Ok(text) => r matches Ok(got) && got@ == text,
            Err(error) => r matches Err(got) && got.deep_view() == error,
        },
{
    if 200 <= status && status < 300 {
        Ok(body.to_owned())
    } else if status == 401 {
        Err(ApiError::NotAuthenticated)
    } else if status == 400 {
        Err(ApiError::BadRequest(extract_error_message(body)))
    } else if status == 404 {
        Err(ApiError::NotFound(extract_error_message(body)))
    } else if 500 <= status && status <= 599 {
        Err(ApiError::ServerError(extract_error_message(body)))
    } else {
        Err(ApiError::Unexpected { status: status_text.to_owned(), body: body.to_owned() })
    }
}

/// Whether revoking the token went through.
pub fn revoked(status: u16, status_text: &str, body: &str) -> (r: Result<(), ApiError>)
    ensures
        match response_meaning(status, status_text@, body@) {
            Ok(_) => r is Ok,
            Err(error) => r matches Err(got) && got.deep_view() == error,
        },
{
    match map_http_error(status, status_text, body) {
        Ok(_) => Ok(()),
        Err(e) => Err(e),
    }
}

/// The payload of a response that may come in an envelope: where the
/// enveloped reading succeeded, what stood in the envelope; else what the
/// direct reading gave.
pub fn parse_response_payload<T, E>(enveloped: Option<T>, direct: Result<T, E>) -> (r: Result<T, E>)
    ensures
        r == match enveloped {
            Some(data) => Ok::<T, E>(data),
            None => direct,
        },
{
    match enveloped {
        Some(data) => Ok(data),
        None => direct,
    }
}

} // verus!
