//! What the actors need to know of a URL: its host.

use vstd::prelude::*;

verus! {

/// The host that `url` names: `None` where `url` is no absolute URL, or is one without a host.
pub uninterp spec fn url_host(url: Seq<char>) -> Option<Seq<char>>;

/// `url::Url::parse` followed by `Url::host_str`: the host of the URL, as the parser
/// normalised it, where the text parses as an absolute URL that has a host.
#[verifier::external_body]
fn parsed_host(url: &str) -> (host: Option<String>)
    ensures
        match host {
            Some(h) => url_host(url@) == Some(h@),
            None => url_host(url@) is None,
        },
{
    url::Url::parse(url).ok()?.host_str().map(str::to_owned)
}

/// The host of `url`, if it has one.
pub fn host_from_url(url: &str) -> (host: Option<String>)
    ensures
        match host {
            Some(h) => url_host(url@) == Some(h@),
            None => url_host(url@) is None,
        },
{
    parsed_host(url)
}

} // verus!
