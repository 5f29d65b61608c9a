//! Whether the search engine is one the bot runs itself: a SearxNG URL that
//! points at this machine.

use vstd::prelude::*;
use crate::text::{str_eq, trim_str};

verus! {

/// The host the `url` crate reads from `url` (`Url::parse(url)?.host_str()`),
/// or `None` when it does not parse or has no host.
pub uninterp spec fn url_host_of(url: Seq<char>) -> Option<Seq<char>>;

/// The host of `url` as `url::Url` parses it. The answer is named
/// [`url_host_of`].
#[verifier::external_body]
fn url_host(url: &str) -> (r: Option<String>)
    ensures
        r.deep_view() == url_host_of(url@),
{
    url::Url::parse(url).ok().and_then(|u| u.host_str().map(|h| h.to_string()))
}

/// The names a local host goes by.
pub open spec fn is_local_host(host: Seq<char>) -> bool {
    host == "localhost"@ || host == "127.0.0.1"@ || host == "0.0.0.0"@ || host == "::1"@ || host == "[::1]"@
}

/// Whether the search engine at `url` (surrounding whitespace ignored) runs
/// on this machine, so the bot starts it itself.
pub open spec fn self_hosted_view(url: Seq<char>) -> bool {
    match url_host_of(crate::text::trim(url)) {
        Some(h) => is_local_host(h),
        None => false,
    }
}

/// Whether the search engine at `url` runs on this machine (see [`self_hosted_view`]).
pub fn is_self_hosted(url: &str) -> (r: bool)
    ensures
        r == self_hosted_view(url@),
{
    let trimmed = trim_str(url);
    match url_host(trimmed.as_str()) {
        Some(h) => {
            let s = h.as_str();
            str_eq(s, "localhost") || str_eq(s, "127.0.0.1") || str_eq(s, "0.0.0.0") || str_eq(s, "::1")
                || str_eq(s, "[::1]")
        },
        None => false,
    }
}

} // verus!
