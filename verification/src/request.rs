//! Request construction: the lookup URL for one candidate, with both
//! query parameters percent-encoded.

use vstd::prelude::*;
use vstd::string::StringExecFns;

verus! {

/// What `url::Url::parse_with_params` yields for a base URL and two query
/// pairs: the serialised URL with the two pairs appended to the base's
/// query, or nothing when the base does not parse as a URL.
pub uninterp spec fn url_with_query(
    base: Seq<char>,
    k1: Seq<char>,
    v1: Seq<char>,
    k2: Seq<char>,
    v2: Seq<char>,
) -> Option<Seq<char>>;

/// Relies on `url::Url::parse_with_params`: parses `base` and appends the
/// two pairs to its query, percent-encoding each key and value, and on
/// `url::Url::as_str` for the serialised text. The result is a function
/// of the arguments alone, named by `url_with_query`.
#[verifier::external_body]
fn url_append_pairs(base: &str, k1: &str, v1: &str, k2: &str, v2: &str) -> (r: Option<String>)
    ensures
        (match r {
            Some(u) => url_with_query(base@, k1@, v1@, k2@, v2@) == Some(u@),
            None => url_with_query(base@, k1@, v1@, k2@, v2@) is None,
        }),
{
    match url::Url::parse_with_params(base, &[(k1, v1), (k2, v2)]) {
        Ok(u) => Some(u.as_str().to_string()),
        Err(_) => None,
    }
}

/// The fixed lookup endpoint, answer format pinned to JSON.
pub open spec fn base_url_spec() -> Seq<char> {
    "http://apis.data.go.kr/B551505/whois/domain_name?answer=json"@
}

/// The fixed lookup endpoint as text.
pub fn base_url() -> (r: &'static str)
    ensures
        r@ == base_url_spec(),
{
    "http://apis.data.go.kr/B551505/whois/domain_name?answer=json"
}

/// Builds the lookup URL for one candidate: the fixed endpoint with
/// `serviceKey` set to the API key and `query` to `<candidate>.kr`, both
/// percent-encoded.
pub fn build_lookup_url(api_key: &str, candidate: &str) -> (r: Option<String>)
    ensures
        (match r {
            Some(u) => url_with_query(
                base_url_spec(),
                "serviceKey"@,
                api_key@,
                "query"@,
                candidate@ + ".kr"@,
            ) == Some(u@),
            None => url_with_query(
                base_url_spec(),
                "serviceKey"@,
                api_key@,
                "query"@,
                candidate@ + ".kr"@,
            ) is None,
        }),
{
    let mut q = String::from_str(candidate);
    q.append(".kr");
    url_append_pairs(base_url(), "serviceKey", api_key, "query", q.as_str())
}

} // verus!
