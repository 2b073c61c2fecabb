//! The requests that are sent to the GitHub API.
use vstd::prelude::*;
use vstd::string::StringExecFns;

verus! {

/// A `GET` request for a JSON document.
#[derive(Debug)]
pub struct ApiRequest {
    pub url: String,
    /// The value of the `User-Agent` header.
    pub user_agent: String,
    /// Whether the client must refuse any scheme but https.
    pub https_only: bool,
}

pub struct ApiRequestView {
    pub url: Seq<char>,
    pub user_agent: Seq<char>,
    pub https_only: bool,
}

impl View for ApiRequest {
    type V = ApiRequestView;

    open spec fn view(&self) -> ApiRequestView {
        ApiRequestView { url: self.url@, user_agent: self.user_agent@, https_only: self.https_only }
    }
}

/// The request that asks the API for `url`.
pub open spec fn api_request(url: Seq<char>) -> ApiRequestView {
    ApiRequestView { url, user_agent: "slicing-server"@, https_only: true }
}

/// Where the API describes the release of `repo` tagged `tag`.
pub open spec fn release_by_tag_url_of(repo: Seq<char>, tag: Seq<char>) -> Seq<char> {
    "https://api.github.com/repos/"@ + repo + "/releases/tags/"@ + tag
}

/// Where the API describes the latest release of `repo`.
pub open spec fn latest_release_url_of(repo: Seq<char>) -> Seq<char> {
    "https://api.github.com/repos/"@ + repo + "/releases/latest"@
}

/// The name under which every request is sent.
pub fn user_agent() -> (r: String)
    ensures
        r@ == "slicing-server"@,
{
    String::from_str("slicing-server")
}

/// The request that asks the API for `url`.
pub fn query_github_api(url: &str) -> (r: ApiRequest)
    ensures
        r@ == api_request(url@),
{
    ApiRequest { url: String::from_str(url), user_agent: user_agent(), https_only: true }
}

/// Where the API describes the release of `repo` tagged `tag`.
pub fn release_by_tag_url(repo: &str, tag: &str) -> (r: String)
    ensures
        r@ == release_by_tag_url_of(repo@, tag@),
{
    let mut url = String::from_str("https://api.github.com/repos/");
    url.append(repo);
    url.append("/releases/tags/");
    url.append(tag);
    url
}

/// Where the API describes the latest release of `repo`.
pub fn latest_release_url(repo: &str) -> (r: String)
    ensures
        r@ == latest_release_url_of(repo@),
{
    let mut url = String::from_str("https://api.github.com/repos/");
    url.append(repo);
    url.append("/releases/latest");
    url
}

} // verus!
