//! What the operations read from the head of a request: the bearer token,
//! the client's address, the host and the referer.

use crate::error::AppError;
use vstd::prelude::*;

verus! {

/// The value of one header.
#[derive(Debug)]
pub enum HeaderValue {
    /// A value made of visible characters.
    Text(String),
    /// A value that cannot be read as text.
    Opaque,
}

/// The headers that the operations read, each absent or present, and the
/// address of the peer where the connection tells it.
#[derive(Debug)]
pub struct RequestHead {
    pub authorization: Option<HeaderValue>,
    pub forwarded_for: Option<HeaderValue>,
    pub real_ip: Option<HeaderValue>,
    pub host: Option<HeaderValue>,
    pub referer: Option<HeaderValue>,
    pub peer_addr: Option<String>,
}

/// What a bearer's authorization starts with.
pub open spec fn bearer_prefix() -> Seq<char> {
    "Bearer "@
}

/// The address that stands for a header whose value cannot be read.
pub open spec fn unreadable_address() -> Seq<char> {
    "0.0.0.0"@
}

/// The token in the value of an authorization header: what follows the
/// prefix `Bearer `, where the value starts with it.
pub open spec fn bearer_token(value: Seq<char>) -> Option<Seq<char>> {
    if value.len() >= bearer_prefix().len() && value.take(bearer_prefix().len() as int)
        == bearer_prefix() {
        Some(value.skip(bearer_prefix().len() as int))
    } else {
        None
    }
}

/// The token that a request presents, or why it presents none: no
/// authorization header, one that cannot be read, and one that is no
/// bearer's are all `Unauthorized`.
pub open spec fn token_of(authorization: Option<HeaderValue>) -> Result<Seq<char>, AppError> {
    match authorization {
        None => Err(AppError::Unauthorized),
        Some(HeaderValue::Opaque) => Err(AppError::Unauthorized),
        Some(HeaderValue::Text(value)) => match bearer_token(value@) {
            Some(token) => Ok(token),
            None => Err(AppError::Unauthorized),
        },
    }
}

/// The text of a header, or `fallback` where it cannot be read.
pub open spec fn text_or(value: HeaderValue, fallback: Seq<char>) -> Seq<char> {
    match value {
        HeaderValue::Text(text) => text@,
        HeaderValue::Opaque => fallback,
    }
}

/// The text of a header, or nothing where it is absent or cannot be read.
pub open spec fn text_or_empty(header: Option<HeaderValue>) -> Seq<char> {
    match header {
        Some(HeaderValue::Text(text)) => text@,
        _ => Seq::empty(),
    }
}

/// The client's address: what `X-Forwarded-For` says; without that header,
/// what `X-Real-IP` says; without either, the peer's address, or nothing.
pub open spec fn ip_of(head: RequestHead) -> Seq<char> {
    match head.forwarded_for {
        Some(value) => text_or(value, unreadable_address()),
        None => match head.real_ip {
            Some(value) => text_or(value, unreadable_address()),
            None => match head.peer_addr {
                Some(addr) => addr@,
                None => Seq::empty(),
            },
        },
    }
}

fn text_or_address(value: &HeaderValue) -> (text: String)
    ensures
        text@ == text_or(*value, unreadable_address()),
{
    match value {
        HeaderValue::Text(text) => text.clone(),
        HeaderValue::Opaque => "0.0.0.0".to_owned(),
    }
}

fn text_or_nothing(header: &Option<HeaderValue>) -> (text: String)
    ensures
        text@ == text_or_empty(*header),
{
    match header {
        Some(HeaderValue::Text(text)) => text.clone(),
        _ => String::new(),
    }
}

/// The bearer token of a request.
pub fn extract_token(req: &RequestHead) -> (token: Result<String, AppError>)
    ensures
        match token_of(req.authorization) {
            Ok(expected) => token matches Ok(found) && found@ == expected,
            Err(kind) => token == Err::<String, AppError>(kind),
        },
{
    match &req.authorization {
        None => Err(AppError::Unauthorized),
        Some(HeaderValue::Opaque) => Err(AppError::Unauthorized),
        Some(HeaderValue::Text(value)) => {
            let value = value.as_str();
            let length = value.unicode_len();
            proof {
                reveal_strlit("Bearer ");
            }
            if length < 7 {
                return Err(AppError::Unauthorized);
            }
            if !value.substring_char(0, 7).eq("Bearer ") {
                return Err(AppError::Unauthorized);
            }
            let token = value.substring_char(7, length).to_owned();
            Ok(token)
        },
    }
}

/// The address of the client of a request.
pub fn extract_ip(req: &RequestHead) -> (ip: String)
    ensures
        ip@ == ip_of(*req),
{
    match &req.forwarded_for {
        Some(value) => text_or_address(value),
        None => match &req.real_ip {
            Some(value) => text_or_address(value),
            None => match &req.peer_addr {
                Some(addr) => addr.clone(),
                None => String::new(),
            },
        },
    }
}

/// The host that a request names, or nothing.
pub fn extract_host(req: &RequestHead) -> (host: String)
    ensures
        host@ == text_or_empty(req.host),
{
    text_or_nothing(&req.host)
}

/// The referer that a request names, or nothing.
pub fn extract_referer(req: &RequestHead) -> (referer: String)
    ensures
        referer@ == text_or_empty(req.referer),
{
    text_or_nothing(&req.referer)
}

} // verus!
