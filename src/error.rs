//! Error taxonomy of the gateway.
use vstd::prelude::*;
use vstd::string::*;

verus! {

/// Main error type of the gateway. Transport and decoding failures carry the
/// text of the underlying error.
#[derive(Debug, Clone)]
pub enum GatewayError {
    /// Configuration error
    Config(String),
    /// HTTP request error
    Http(String),
    /// JSON serialization/deserialization error
    Json(String),
    /// Provider-specific error
    Provider(String),
    /// Authentication error
    Auth(String),
    /// Rate limit error
    RateLimit(String),
    /// Invalid request error
    InvalidRequest(String),
    /// Network timeout error
    Timeout(String),
    /// Generic error
    Other(String),
}

/// The heading that `describe` puts before each kind of error.
pub open spec fn error_heading(e: GatewayError) -> Seq<char> {
    match e {
        GatewayError::Config(_) => "Configuration error: "@,
        GatewayError::Http(_) => "HTTP error: "@,
        GatewayError::Json(_) => "JSON error: "@,
        GatewayError::Provider(_) => "Provider error: "@,
        GatewayError::Auth(_) => "Authentication error: "@,
        GatewayError::RateLimit(_) => "Rate limit error: "@,
        GatewayError::InvalidRequest(_) => "Invalid request: "@,
        GatewayError::Timeout(_) => "Timeout error: "@,
        GatewayError::Other(_) => "Error: "@,
    }
}

/// The text that an error carries.
pub open spec fn error_text(e: GatewayError) -> Seq<char> {
    match e {
        GatewayError::Config(m) => m@,
        GatewayError::Http(m) => m@,
        GatewayError::Json(m) => m@,
        GatewayError::Provider(m) => m@,
        GatewayError::Auth(m) => m@,
        GatewayError::RateLimit(m) => m@,
        GatewayError::InvalidRequest(m) => m@,
        GatewayError::Timeout(m) => m@,
        GatewayError::Other(m) => m@,
    }
}

impl GatewayError {
    /// The message shown to a user: a heading for the kind, then the text.
    pub fn describe(&self) -> (r: String)
        ensures
            r@ == error_heading(*self) + error_text(*self),
    {
        let (heading, text): (&str, &String) = match self {
            GatewayError::Config(m) => ("Configuration error: ", m),
            GatewayError::Http(m) => ("HTTP error: ", m),
            GatewayError::Json(m) => ("JSON error: ", m),
            GatewayError::Provider(m) => ("Provider error: ", m),
            GatewayError::Auth(m) => ("Authentication error: ", m),
            GatewayError::RateLimit(m) => ("Rate limit error: ", m),
            GatewayError::InvalidRequest(m) => ("Invalid request: ", m),
            GatewayError::Timeout(m) => ("Timeout error: ", m),
            GatewayError::Other(m) => ("Error: ", m),
        };
        String::from_str(heading).concat(text.as_str())
    }

    /// Sorts a failed HTTP exchange into the taxonomy: a timeout first, then by
    /// status (401, 429, other 4xx); anything else is an HTTP error.
    pub fn from_transport(is_timeout: bool, status: Option<u16>, text: String) -> (r: Self)
        ensures
            r == transport_error_kind(is_timeout, status, text),
    {
        if is_timeout {
            GatewayError::Timeout(text)
        } else {
            match status {
                Some(401) => GatewayError::Auth(text),
                Some(429) => GatewayError::RateLimit(text),
                Some(s) => {
                    if 400 <= s && s < 500 {
                        GatewayError::InvalidRequest(text)
                    } else {
                        GatewayError::Http(text)
                    }
                },
                None => GatewayError::Http(text),
            }
        }
    }
}

/// How a failed HTTP exchange is classified.
pub open spec fn transport_error_kind(is_timeout: bool, status: Option<u16>, text: String) -> GatewayError {
    if is_timeout {
        GatewayError::Timeout(text)
    } else {
        match status {
            Some(s) => if s == 401 {
                GatewayError::Auth(text)
            } else if s == 429 {
                GatewayError::RateLimit(text)
            } else if 400 <= s < 500 {
                GatewayError::InvalidRequest(text)
            } else {
                GatewayError::Http(text)
            },
            None => GatewayError::Http(text),
        }
    }
}

} // verus!
