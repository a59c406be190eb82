//! The fallback response: the fixed error document handed to the caller
//! when every connection attempt to the daemon has failed.
//!
//! The document is a CGI-style status header block announcing
//! `503 Service Unavailable` with an HTML content type, followed by a
//! static HTML body. Existing deployments read this document byte for
//! byte, so its exact contents are part of the interface.

use vstd::prelude::*;
use vstd::string::StringSliceAdditionalSpecFns;

use crate::encoder::push_all;

verus! {

/// The status and content-type header block of the fallback response,
/// including the blank line that ends the headers.
pub const FALLBACK_HEADER: &'static str = "Status: 503 Service Unavailable\r\nContent-Type: text/html; charset=UTF-8\r\n\r\n";

/// The static HTML body of the fallback response.
pub const FALLBACK_HTML: &'static str = "<html>\n<head><title>Service Unavailable</title></head>\n<body>\n<h1>Service Unavailable</h1>\n<p>The service you requested is temporarily unavailable. Please try again later.</p>\n</body>\n</html>\n";

/// The full fallback response: the status header block followed by the
/// static HTML body.
pub open spec fn fallback_bytes() -> Seq<u8> {
    FALLBACK_HEADER.spec_bytes() + FALLBACK_HTML.spec_bytes()
}

/// Assembles the fallback error response, appending the 503 status header
/// block and the static HTML body to `response`.
pub fn put_error_in_response(response: &mut Vec<u8>)
    ensures
        final(response)@ == old(response)@ + fallback_bytes(),
{
    push_all(response, FALLBACK_HEADER.as_bytes());
    push_all(response, FALLBACK_HTML.as_bytes());
    proof {
        assert(response@ =~= old(response)@ + fallback_bytes());
    }
}

} // verus!
