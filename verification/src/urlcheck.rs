use vstd::prelude::*;

use crate::config::Config;
use crate::error::ApiError;

verus! {

/// Whether the URL parser accepts a string as an absolute URL. The
/// parser runs with its default options, so acceptance is a function
/// of the string alone.
pub uninterp spec fn url_parse_accepts(s: Seq<char>) -> bool;

/// Relies on `url::Url::parse`: with the default options it parses an
/// absolute URL, and whether it succeeds depends on the input string
/// alone.
#[verifier::external_body]
fn url_is_parsable(s: &str) -> (r: bool)
    ensures
        r == url_parse_accepts(s@),
{
    url::Url::parse(s).is_ok()
}

/// Checks the configured homeserver address before any client is
/// built for it: succeeds exactly when the URL parser accepts the
/// address, and rejects with `UpstreamProtocolError` otherwise — no
/// session is to be created for an address no client can be bound to.
pub fn check_homeserver_url(config: &Config) -> (r: Result<(), ApiError>)
    ensures
        r is Ok <==> url_parse_accepts(config.homeserver.url@),
        r matches Err(e) ==> (e matches ApiError::UpstreamProtocolError(d) && d@
            == "invalid homeserver url"@),
{
    if url_is_parsable(config.homeserver.url.as_str()) {
        Ok(())
    } else {
        Err(ApiError::UpstreamProtocolError(String::from_str("invalid homeserver url")))
    }
}

} // verus!
