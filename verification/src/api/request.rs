//! The headers that every request carries, and the addresses that requests
//! go to.

use base64::engine::general_purpose;
use base64::Engine;
use chrono::{DateTime, Utc};
use std::time::SystemTime;
use vstd::prelude::*;
use vstd::string::*;
use crate::api::app_id::{
    app_version, app_version_text, calculate_app_id, header_safe, header_safe_char,
    identity_token, lemma_token_is_header_safe,
};

verus! {

/// What the client is configured with: where the service lives, the
/// credentials it accepts and the name the client goes by.
#[derive(Debug, Clone, PartialEq)]
pub struct ApiConfig {
    pub backend_url: String,
    pub username: String,
    pub secret: String,
    pub user_agent: String,
}

/// The six headers of a request.
#[derive(Debug, Clone, PartialEq)]
pub struct RequestHeaders {
    pub authorization: String,
    pub accept: String,
    pub app_id: String,
    pub app_version: String,
    pub user_agent: String,
    pub content_type: String,
}

/// Why no headers could be made.
#[derive(Debug, Clone, Copy, PartialEq, Eq, Structural)]
pub enum RequestError {
    /// The configured user agent holds a character that no header may hold.
    InvalidUserAgent,
    /// No identity token could be made for the moment of the request.
    Signing,
}

/// The base64 text of the UTF-8 bytes of `text`, in the standard alphabet
/// and padded.
pub uninterp spec fn base64_standard(text: Seq<char>) -> Seq<char>;

/// Encodes the UTF-8 bytes of `text` in base64.
///
/// Trusted: calls `base64::Engine::encode` on `general_purpose::STANDARD`.
/// The contract names the result and claims that it is fit for a header:
/// the engine writes only letters, digits, `+`, `/` and the padding `=`.
#[verifier::external_body]
pub(crate) fn base64_encode(text: &str) -> (r: String)
    ensures
        r@ == base64_standard(text@),
        header_safe(r@),
{
    general_purpose::STANDARD.encode(text)
}

/// The seconds between the first of January 1970 and now; negative where
/// the clock reads a moment before that day.
///
/// Trusted: reads the clock with `std::time::SystemTime::now`, turns the
/// moment into a `chrono::DateTime<Utc>` with chrono's `From<SystemTime>`,
/// and reads its `timestamp`. The conversion counts a moment before 1970 in
/// negative seconds. Nothing is claimed of the result: it is whatever the
/// clock says.
#[verifier::external_body]
pub(crate) fn unix_now() -> (r: i64) {
    DateTime::<Utc>::from(SystemTime::now()).timestamp()
}

/// The text that the credentials encode: the name, a colon, the secret.
pub open spec fn credentials_text(username: Seq<char>, secret: Seq<char>) -> Seq<char> {
    username + seq![':'] + secret
}

/// The value of the authorization header for the given credentials.
pub open spec fn authorization_text(username: Seq<char>, secret: Seq<char>) -> Seq<char> {
    "Basic "@ + base64_standard(credentials_text(username, secret))
}

/// The media type that the client sends and accepts.
pub open spec fn json_media_type() -> Seq<char> {
    "application/json"@
}

impl RequestHeaders {
    /// These are the headers of a request made with `config` that shows
    /// the identity token `token`.
    pub open spec fn holds(&self, config: &ApiConfig, token: Seq<char>) -> bool {
        &&& self.authorization@ == authorization_text(config.username@, config.secret@)
        &&& self.accept@ == json_media_type()
        &&& self.app_id@ == token
        &&& self.app_version@ == app_version_text()
        &&& self.user_agent@ == config.user_agent@
        &&& self.content_type@ == json_media_type()
    }

    /// These are the headers of a request made with `config` at the moment
    /// `now`.
    pub open spec fn is_built_from(&self, config: &ApiConfig, now: int) -> bool {
        self.holds(config, identity_token(now))
    }

    /// Every value may stand in a header as it is.
    pub open spec fn is_well_formed(&self) -> bool {
        &&& header_safe(self.authorization@)
        &&& header_safe(self.accept@)
        &&& header_safe(self.app_id@)
        &&& header_safe(self.app_version@)
        &&& header_safe(self.user_agent@)
        &&& header_safe(self.content_type@)
    }

    /// The six headers by name, in the order in which they are set.
    pub fn entries(&self) -> (r: Vec<(String, String)>)
        ensures
            r@.len() == 6,
            r@[0].0@ == "Authorization"@ && r@[0].1@ == self.authorization@,
            r@[1].0@ == "Accept"@ && r@[1].1@ == self.accept@,
            r@[2].0@ == "X-App-Id"@ && r@[2].1@ == self.app_id@,
            r@[3].0@ == "X-App-Version"@ && r@[3].1@ == self.app_version@,
            r@[4].0@ == "User-Agent"@ && r@[4].1@ == self.user_agent@,
            r@[5].0@ == "Content-Type"@ && r@[5].1@ == self.content_type@,
    {
        let mut r: Vec<(String, String)> = Vec::new();
        r.push((String::from_str("Authorization"), self.authorization.clone()));
        r.push((String::from_str("Accept"), self.accept.clone()));
        r.push((String::from_str("X-App-Id"), self.app_id.clone()));
        r.push((String::from_str("X-App-Version"), self.app_version.clone()));
        r.push((String::from_str("User-Agent"), self.user_agent.clone()));
        r.push((String::from_str("Content-Type"), self.content_type.clone()));
        r
    }
}

/// Whether `s` may stand as the value of a header.
pub fn is_header_safe(s: &str) -> (r: bool)
    ensures
        r == header_safe(s@),
{
    let n: usize = s.unicode_len();
    let mut i: usize = 0;
    while i < n
        invariant
            n == s@.len(),
            i <= n,
            forall|j: int| 0 <= j < i ==> header_safe_char(#[trigger] s@[j]),
        decreases n - i,
    {
        let code: u32 = s.get_char(i) as u32;
        if !((32 <= code && code < 127) || code == 9) {
            return false;
        }
        i = i + 1;
    }
    true
}

/// The fixed texts among the header values are fit for a header.
pub proof fn lemma_fixed_values_are_header_safe()
    ensures
        header_safe("Basic "@),
        header_safe(json_media_type()),
        header_safe(app_version_text()),
{
    reveal_strlit("Basic ");
    reveal_strlit("application/json");
    reveal_strlit("12.4.1");
}

/// The headers of a request made with `config` that shows the identity
/// token `token`, however that token was made.
///
/// The user agent is checked first, then the token; both must be fit for a
/// header.
pub fn assemble_headers(config: &ApiConfig, token: String) -> (r: Result<
    RequestHeaders,
    RequestError,
>)
    ensures
        match r {
            Ok(h) => header_safe(config.user_agent@) && header_safe(token@) && h.holds(
                config,
                token@,
            ) && h.is_well_formed(),
            Err(RequestError::InvalidUserAgent) => !header_safe(config.user_agent@),
            Err(RequestError::Signing) => header_safe(config.user_agent@) && !header_safe(token@),
        },
{
    if !is_header_safe(config.user_agent.as_str()) {
        return Err(RequestError::InvalidUserAgent);
    }
    if !is_header_safe(token.as_str()) {
        return Err(RequestError::Signing);
    }
    let mut credentials = config.username.clone();
    credentials.append(":");
    credentials.append(config.secret.as_str());
    proof {
        reveal_strlit(":");
        assert(":"@ =~= seq![':']);
    }
    let key = base64_encode(credentials.as_str());
    let mut authorization = String::from_str("Basic ");
    authorization.append(key.as_str());
    let h = RequestHeaders {
        authorization,
        accept: String::from_str("application/json"),
        app_id: token,
        app_version: app_version(),
        user_agent: config.user_agent.clone(),
        content_type: String::from_str("application/json"),
    };
    proof {
        lemma_fixed_values_are_header_safe();
    }
    Ok(h)
}

/// The headers of a request made with `config` at the moment `now`, given
/// in seconds since the first of January 1970.
///
/// The user agent is checked first, then the token is made; both must
/// succeed.
pub fn build_headers_at(config: &ApiConfig, now: i64) -> (r: Result<RequestHeaders, RequestError>)
    ensures
        match r {
            Ok(h) => header_safe(config.user_agent@) && now >= 0 && h.is_built_from(
                config,
                now as int,
            ) && h.is_well_formed(),
            Err(RequestError::InvalidUserAgent) => !header_safe(config.user_agent@),
            Err(RequestError::Signing) => header_safe(config.user_agent@) && now < 0,
        },
{
    if !is_header_safe(config.user_agent.as_str()) {
        return Err(RequestError::InvalidUserAgent);
    }
    match calculate_app_id(now) {
        Ok(token) => {
            proof {
                lemma_token_is_header_safe(now as int);
            }
            assemble_headers(config, token)
        },
        Err(_) => Err(RequestError::Signing),
    }
}

/// The headers of a request made with `config` now. They are made afresh
/// for every request, because the token changes with the hour. Where the
/// clock reads a moment before 1970 no token is made, and the request
/// fails with `Signing`.
pub fn build_headers(config: &ApiConfig) -> (r: Result<RequestHeaders, RequestError>)
    ensures
        match r {
            Ok(h) => header_safe(config.user_agent@) && h.is_well_formed() && exists|now: int|
                now >= 0 && #[trigger] h.is_built_from(config, now),
            Err(RequestError::InvalidUserAgent) => !header_safe(config.user_agent@),
            Err(RequestError::Signing) => header_safe(config.user_agent@),
        },
{
    let now: i64 = unix_now();
    build_headers_at(config, now)
}

/// The address of `path` at the service.
pub fn backend_url(config: &ApiConfig, path: &str) -> (r: String)
    ensures
        r@ == config.backend_url@ + path@,
{
    let mut url = config.backend_url.clone();
    url.append(path);
    url
}

} // verus!
