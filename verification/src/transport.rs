//! The verified side of the transport edge: checks performed on what the
//! HTTP collaborator hands in (is the body XML at all?) or was configured
//! with (is the endpoint scheme acceptable?), before any decoding starts.

use vstd::prelude::*;

use crate::error::Error;
use crate::scan::match_at;
use crate::scan::match_here;
use crate::scan::skip_ws;
use crate::scan::str_eq;
use crate::scan::to_chars;
use crate::scan::ws_end;

verus! {

/// At most `max` characters of `s`, with an ellipsis when text was cut.
pub open spec fn spec_truncate(s: Seq<char>, max: int) -> Seq<char> {
    if s.len() > max {
        s.subrange(0, max) + "..."@
    } else {
        s
    }
}

/// Truncates a body for use in an error message.
pub fn truncate_body(s: &str, max_chars: usize) -> (r: String)
    ensures
        r@ == spec_truncate(s@, max_chars as int),
{
    let n = s.unicode_len();
    if n > max_chars {
        String::from_str(s.substring_char(0, max_chars)).concat("...")
    } else {
        String::from_str(s)
    }
}

/// The body begins, after leading XML whitespace, with an XML declaration.
pub open spec fn looks_like_xml(s: Seq<char>) -> bool {
    match_at(s, "<?xml"@, ws_end(s, 0))
}

/// Admits a response body only when it looks like XML; anything else (an
/// HTML error page, plain text) fails with `UnexpectedResponse`, carrying
/// the content-type header when one was seen and a preview of the body
/// truncated to 200 characters, before any decoding is attempted.
pub fn validate_xml_body(body: String, content_type: Option<String>) -> (r: Result<String, Error>)
    ensures
        match r {
            Ok(b) => looks_like_xml(body@) && b == body,
            Err(e) => {
                &&& !looks_like_xml(body@)
                &&& e matches Error::UnexpectedResponse { content_type: ct, body: b }
                    && ct == content_type && b@ == spec_truncate(body@, 200)
            },
        },
{
    let hay = to_chars(body.as_str());
    let i = skip_ws(&hay, 0);
    let pat = to_chars("<?xml");
    proof {
        reveal_strlit("<?xml");
    }
    let ok = if pat.len() <= hay.len() && i <= hay.len() - pat.len() {
        match_here(&hay, &pat, i)
    } else {
        false
    };
    if ok {
        Ok(body)
    } else {
        let preview = truncate_body(body.as_str(), 200);
        Err(Error::UnexpectedResponse { content_type, body: preview })
    }
}

/// The endpoint schemes the client accepts: exactly `http` and `https`.
pub fn scheme_ok(scheme: &str) -> (r: bool)
    ensures
        r == (scheme@ == "http"@ || scheme@ == "https"@),
{
    if str_eq(scheme, "http") {
        true
    } else {
        str_eq(scheme, "https")
    }
}

} // verus!
