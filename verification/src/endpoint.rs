//! The request target: Azure addresses a model by deployment, under
//! `{base}/openai/deployments/{deployment}/chat/completions`, with the
//! API version as a query parameter and the key in the `api-key` header
//! rather than a bearer token.

use vstd::prelude::*;
use crate::auth::Credentials;

verus! {

/// `s` without its trailing slashes.
pub open spec fn spec_trim_end_slashes(s: Seq<char>) -> Seq<char>
    decreases s.len(),
{
    if s.len() > 0 && s.last() == '/' {
        spec_trim_end_slashes(s.drop_last())
    } else {
        s
    }
}

proof fn lemma_trim_end_slashes_range(s: Seq<char>, j: int)
    requires
        0 <= j <= s.len(),
        forall|k: int| j <= k < s.len() ==> s[k] == '/',
        j == 0 || s[j - 1] != '/',
    ensures
        spec_trim_end_slashes(s) =~= s.subrange(0, j),
    decreases s.len() - j,
{
    if j == s.len() {
        if s.len() == 0 {
            assert(spec_trim_end_slashes(s) =~= s.subrange(0, j));
        } else {
            assert(s.subrange(0, s.len() as int) =~= s);
        }
    } else {
        assert(s.last() == '/');
        let t = s.drop_last();
        lemma_trim_end_slashes_range(t, j);
        assert(t.subrange(0, j) =~= s.subrange(0, j));
    }
}

fn trim_end_slashes(s: &str) -> (r: &str)
    ensures
        r@ == spec_trim_end_slashes(s@),
{
    let len = s.unicode_len();
    let mut j: usize = len;
    while j > 0 && s.get_char(j - 1) == '/'
        invariant
            0 <= j <= len,
            len == s@.len(),
            forall|k: int| j <= k < len ==> s@[k] == '/',
        decreases j,
    {
        j = j - 1;
    }
    let r = s.substring_char(0, j);
    proof {
        lemma_trim_end_slashes_range(s@, j as int);
    }
    r
}

/// The URL of the chat-completions endpoint of one deployment.
pub open spec fn spec_completions_url(
    api_url: Seq<char>,
    deployment_name: Seq<char>,
    api_version: Seq<char>,
) -> Seq<char> {
    spec_trim_end_slashes(api_url) + "/openai/deployments/"@ + deployment_name
        + "/chat/completions?api-version="@ + api_version
}

/// Builds the endpoint URL: the base with trailing slashes removed, the
/// deployment path, and the API version as query parameter.
pub fn completions_url(api_url: &str, deployment_name: &str, api_version: &str) -> (r: String)
    ensures
        r@ == spec_completions_url(api_url@, deployment_name@, api_version@),
{
    let mut url = String::from_str(trim_end_slashes(api_url));
    url.append("/openai/deployments/");
    url.append(deployment_name);
    url.append("/chat/completions?api-version=");
    url.append(api_version);
    url
}

/// The endpoint URL of a credential snapshot.
pub fn completions_url_for(credentials: &Credentials) -> (r: String)
    ensures
        r@ == spec_completions_url(
            credentials@.api_url,
            credentials@.deployment_name,
            credentials@.api_version,
        ),
{
    completions_url(
        credentials.api_url.as_str(),
        credentials.deployment_name.as_str(),
        credentials.api_version.as_str(),
    )
}

/// The base URL of a resource configured by name alone.
pub open spec fn spec_resource_url(resource_name: Seq<char>) -> Seq<char> {
    "https://"@ + resource_name + ".openai.azure.com"@
}

/// Builds the base URL of a resource configured by name alone.
pub fn resource_url(resource_name: &str) -> (r: String)
    ensures
        r@ == spec_resource_url(resource_name@),
{
    let mut url = String::from_str("https://");
    url.append(resource_name);
    url.append(".openai.azure.com");
    url
}

/// The authentication header: Azure expects `api-key: {key}`.
pub fn api_key_header(credentials: &Credentials) -> (r: (String, String))
    ensures
        r.0@ == "api-key"@,
        r.1@ == credentials@.api_key,
{
    (String::from_str("api-key"), credentials.api_key.clone())
}

} // verus!
