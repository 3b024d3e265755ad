//! Failure conditions surfaced by the response pipeline and its callers.

use vstd::prelude::*;

verus! {

/// Everything that can go wrong between issuing a request and handing a
/// decoded page to the caller. Transport-level and encoding-level variants
/// carry the collaborator's message as plain text; a protocol-level error
/// reported inside a well-formed envelope is not an `Error` but data on the
/// decoded page.
#[derive(Debug)]
pub enum Error {
    /// HTTP request failed (network error, timeout, etc.).
    Http(String),
    /// The response text is not a well-formed protocol envelope.
    MalformedEnvelope(String),
    /// Failed to parse the endpoint URL.
    UrlParse(String),
    /// Failed to serialize query parameters.
    QuerySerialize(String),
    /// The endpoint URL has an invalid scheme (must be http or https).
    InvalidEndpoint(String),
    /// Attempted to resume iteration but no resumption token is available.
    NoResumptionToken,
    /// Response was not valid XML (e.g., HTML error page, plain text).
    UnexpectedResponse {
        /// The content-type header, if present.
        content_type: Option<String>,
        /// The response body (truncated if too long).
        body: String,
    },
}

impl Error {
    /// The message text of this error.
    pub open spec fn spec_describe(self) -> Seq<char> {
        match self {
            Error::Http(m) => "HTTP request failed: "@ + m@,
            Error::MalformedEnvelope(m) => "malformed envelope: "@ + m@,
            Error::UrlParse(m) => "URL parsing failed: "@ + m@,
            Error::QuerySerialize(m) => "query serialization failed: "@ + m@,
            Error::InvalidEndpoint(m) => "invalid endpoint: "@ + m@,
            Error::NoResumptionToken => "no resumption token available"@,
            Error::UnexpectedResponse { content_type, body } => match content_type {
                Some(ct) => "unexpected response (content-type: "@ + ct@ + "): "@ + body@,
                None => "unexpected response: "@ + body@,
            },
        }
    }

    /// Renders the error as a single line of text.
    pub fn describe(&self) -> (r: String)
        ensures
            r@ == self.spec_describe(),
    {
        match self {
            Error::Http(m) => String::from_str("HTTP request failed: ").concat(m.as_str()),
            Error::MalformedEnvelope(m) => String::from_str("malformed envelope: ").concat(
                m.as_str(),
            ),
            Error::UrlParse(m) => String::from_str("URL parsing failed: ").concat(m.as_str()),
            Error::QuerySerialize(m) => String::from_str("query serialization failed: ").concat(
                m.as_str(),
            ),
            Error::InvalidEndpoint(m) => String::from_str("invalid endpoint: ").concat(m.as_str()),
            Error::NoResumptionToken => String::from_str("no resumption token available"),
            Error::UnexpectedResponse { content_type, body } => match content_type {
                Some(ct) => String::from_str("unexpected response (content-type: ").concat(
                    ct.as_str(),
                ).concat("): ").concat(body.as_str()),
                None => String::from_str("unexpected response: ").concat(body.as_str()),
            },
        }
    }
}

} // verus!
